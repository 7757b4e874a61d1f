//! The retained Turbo Vision object store behind `Std.Tui` handles.
//!
//! Every `Application.Create*` call allocates a handle and records the
//! object's FPAS-side state here; the live or headless Turbo Vision views are
//! built from this store.
use vstd::prelude::*;
use crate::decode::TvRect;
use crate::outline::TurboVisionOutlineNode;

verus! {

/// A menu entry; `command_id == 0` marks a separator.
#[derive(Debug)]
pub struct TurboVisionMenuItem {
    pub text: String,
    pub command_id: u16,
}

/// A drop-down menu of the menu bar.
#[derive(Debug)]
pub struct TurboVisionMenu {
    pub title: String,
    pub items: Vec<TurboVisionMenuItem>,
}

/// A status line entry.
#[derive(Debug)]
pub struct TurboVisionStatusItem {
    pub text: String,
    pub key_code: u16,
    pub command_id: u16,
}

#[derive(Debug)]
pub struct TurboVisionButton {
    pub bounds: TvRect,
    pub text: String,
    pub command_id: u16,
    pub attached: bool,
}

#[derive(Debug)]
pub struct TurboVisionStaticText {
    pub bounds: TvRect,
    pub text: String,
    pub attached: bool,
}

#[derive(Debug)]
pub struct TurboVisionMemo {
    pub bounds: TvRect,
    pub text: String,
    pub attached: bool,
}

#[derive(Debug)]
pub struct TurboVisionTextViewer {
    pub bounds: TvRect,
    pub text: String,
    pub attached: bool,
}

#[derive(Debug)]
pub struct TurboVisionInputLine {
    pub bounds: TvRect,
    pub max_length: usize,
    pub text: String,
    pub attached: bool,
}

#[derive(Debug)]
pub struct TurboVisionListBox {
    pub bounds: TvRect,
    pub items: Vec<String>,
    pub selection: Option<usize>,
    pub command_id: u16,
    pub attached: bool,
}

#[derive(Debug)]
pub struct TurboVisionCheckBox {
    pub bounds: TvRect,
    pub text: String,
    pub checked: bool,
    pub attached: bool,
}

#[derive(Debug)]
pub struct TurboVisionRadioButton {
    pub bounds: TvRect,
    pub text: String,
    pub group_id: u16,
    pub selected: bool,
    pub attached: bool,
}

#[derive(Debug)]
pub struct TurboVisionOutline {
    pub bounds: TvRect,
    pub roots: Vec<TurboVisionOutlineNode>,
    pub selection: Option<usize>,
    pub attached: bool,
}

#[derive(Debug)]
pub struct TurboVisionDialog {
    pub bounds: TvRect,
    pub title: String,
    pub children: Vec<u32>,
}

#[derive(Debug)]
pub struct TurboVisionWindow {
    pub bounds: TvRect,
    pub title: String,
    pub children: Vec<u32>,
    pub on_desktop: bool,
}

#[derive(Debug)]
pub struct TurboVisionMenuBar {
    pub bounds: TvRect,
    pub menus: Vec<TurboVisionMenu>,
    pub attached: bool,
}

#[derive(Debug)]
pub struct TurboVisionStatusLine {
    pub bounds: TvRect,
    pub items: Vec<TurboVisionStatusItem>,
    pub attached: bool,
}

/// One retained Turbo Vision object.
#[derive(Debug)]
pub enum TurboVisionObject {
    Button(TurboVisionButton),
    StaticText(TurboVisionStaticText),
    Memo(TurboVisionMemo),
    TextViewer(TurboVisionTextViewer),
    InputLine(TurboVisionInputLine),
    ListBox(TurboVisionListBox),
    CheckBox(TurboVisionCheckBox),
    RadioButton(TurboVisionRadioButton),
    Outline(TurboVisionOutline),
    Dialog(TurboVisionDialog),
    Window(TurboVisionWindow),
    MenuBar(TurboVisionMenuBar),
    StatusLine(TurboVisionStatusLine),
}

/// FPAS-side Turbo Vision state of one application session.
#[derive(Debug)]
pub struct TurboVisionState {
    /// The handle the next `Create*` call receives.
    pub next_handle: u32,
    /// Objects by handle, in ascending handle order.
    pub objects: Vec<(u32, TurboVisionObject)>,
    /// The menu bar installed as application chrome.
    pub menu_bar: Option<u32>,
    /// The status line installed as application chrome.
    pub status_line: Option<u32>,
    /// Commands queued by test clicks and menu dispatch, oldest first.
    pub pending_commands: Vec<u16>,
    /// `Application.Quit` was called.
    pub quit_requested: bool,
    /// The FPAS-side tree changed since the live views were last rebuilt.
    pub pending_reconcile: bool,
    /// The closing command the next headless `ExecDialog` returns.
    pub test_dialog_result: Option<i64>,
}

/// The handles of an object list.
pub open spec fn spec_keys(objects: Seq<(u32, TurboVisionObject)>) -> Seq<u32> {
    objects.map_values(|e: (u32, TurboVisionObject)| e.0)
}

/// Handles strictly ascend along the list.
pub open spec fn spec_sorted(objects: Seq<(u32, TurboVisionObject)>) -> bool {
    forall|i: int, j: int| 0 <= i < j < objects.len() ==> objects[i].0 < objects[j].0
}

/// The object stored under `handle`.
pub open spec fn spec_lookup(objects: Seq<(u32, TurboVisionObject)>, handle: u32) -> Option<TurboVisionObject> {
    if exists|i: int| 0 <= i < objects.len() && objects[i].0 == handle {
        Some(objects[choose|i: int| 0 <= i < objects.len() && objects[i].0 == handle].1)
    } else {
        None
    }
}

/// The object list as a map from handle to object.
pub open spec fn spec_objects_map(objects: Seq<(u32, TurboVisionObject)>) -> Map<u32, TurboVisionObject> {
    Map::new(
        |h: u32| exists|i: int| 0 <= i < objects.len() && objects[i].0 == h,
        |h: u32| spec_lookup(objects, h).unwrap(),
    )
}

/// In a sorted list, the entry at `i` is what `handle` maps to.
pub proof fn lemma_lookup_at(objects: Seq<(u32, TurboVisionObject)>, i: int)
    requires
        spec_sorted(objects),
        0 <= i < objects.len(),
    ensures
        spec_lookup(objects, objects[i].0) == Some(objects[i].1),
        spec_objects_map(objects).contains_key(objects[i].0),
        spec_objects_map(objects)[objects[i].0] == objects[i].1,
{
    let h = objects[i].0;
    assert(exists|k: int| 0 <= k < objects.len() && objects[k].0 == h);
    let k = choose|k: int| 0 <= k < objects.len() && objects[k].0 == h;
    if k < i {
        assert(objects[k].0 < objects[i].0);
    } else if k > i {
        assert(objects[i].0 < objects[k].0);
    }
}

/// Rewriting the object at one position keeps the list sorted and rewrites
/// exactly that handle in the map view.
pub proof fn lemma_update_map(objects: Seq<(u32, TurboVisionObject)>, i: int, o: TurboVisionObject)
    requires
        spec_sorted(objects),
        0 <= i < objects.len(),
    ensures
        spec_sorted(objects.update(i, (objects[i].0, o))),
        spec_objects_map(objects.update(i, (objects[i].0, o))) == spec_objects_map(objects).insert(objects[i].0, o),
{
    let h = objects[i].0;
    let after = objects.update(i, (h, o));
    assert(forall|k: int| 0 <= k < after.len() ==> after[k].0 == objects[k].0);
    assert forall|hh: u32| #![auto] spec_objects_map(after).contains_key(hh)
        <==> spec_objects_map(objects).insert(h, o).contains_key(hh) by {
        if exists|k: int| 0 <= k < objects.len() && objects[k].0 == hh {
            let k = choose|k: int| 0 <= k < objects.len() && objects[k].0 == hh;
            assert(after[k].0 == hh);
        }
        if exists|k: int| 0 <= k < after.len() && after[k].0 == hh {
            let k = choose|k: int| 0 <= k < after.len() && after[k].0 == hh;
            assert(objects[k].0 == hh);
        }
    }
    assert forall|hh: u32| #![auto] spec_objects_map(after).contains_key(hh)
        implies spec_objects_map(after)[hh] == spec_objects_map(objects).insert(h, o)[hh] by {
        let k = choose|k: int| 0 <= k < after.len() && after[k].0 == hh;
        lemma_lookup_at(after, k);
        assert(objects[k].0 == hh);
        lemma_lookup_at(objects, k);
    }
    assert(spec_objects_map(after) =~= spec_objects_map(objects).insert(h, o));
}

impl TurboVisionState {
    /// Objects by handle.
    pub open spec fn spec_objects(&self) -> Map<u32, TurboVisionObject> {
        spec_objects_map(self.objects@)
    }

    /// The store's invariant: handles ascend, stay below `next_handle` until
    /// the handle space saturates, and `next_handle` is never zero.
    pub open spec fn wf(&self) -> bool {
        &&& spec_sorted(self.objects@)
        &&& self.next_handle >= 1
        &&& forall|i: int| 0 <= i < self.objects@.len() ==> {
            let h = #[trigger] self.objects@[i].0;
            h >= 1 && (h < self.next_handle || (self.next_handle == u32::MAX && h == u32::MAX))
        }
    }

    /// Whether the state is well formed: handles in increasing order, each
    /// at least `1` and below the next handle to allocate (or equal to it
    /// once the counter saturated at `u32::MAX`).
    pub fn check_wf(&self) -> (ok: bool)
        ensures
            ok == self.wf(),
    {
        if self.next_handle < 1 {
            return false;
        }
        let n = self.objects.len();
        let mut k: usize = 0;
        while k < n
            invariant
                n == self.objects@.len(),
                0 <= k <= n,
                self.next_handle >= 1,
                spec_sorted(self.objects@.subrange(0, k as int)),
                forall|i: int| 0 <= i < k ==> {
                    let h = #[trigger] self.objects@[i].0;
                    h >= 1 && (h < self.next_handle || (self.next_handle == u32::MAX && h == u32::MAX))
                },
            decreases n - k,
        {
            let h = self.objects[k].0;
            if !(h >= 1 && (h < self.next_handle || (self.next_handle == u32::MAX && h == u32::MAX))) {
                assert(self.objects@[k as int].0 == h);
                return false;
            }
            if k > 0 && self.objects[k - 1].0 >= h {
                assert(!spec_sorted(self.objects@)) by {
                    assert(self.objects@[k - 1].0 >= self.objects@[k as int].0);
                }
                return false;
            }
            assert(spec_sorted(self.objects@.subrange(0, k + 1))) by {
                let p = self.objects@.subrange(0, k + 1);
                assert forall|i: int, j: int| 0 <= i < j < p.len() implies p[i].0 < p[j].0 by {
                    if j < k {
                        assert(self.objects@.subrange(0, k as int)[i] == p[i]);
                        assert(self.objects@.subrange(0, k as int)[j] == p[j]);
                    } else if i < k - 1 {
                        assert(self.objects@.subrange(0, k as int)[i] == p[i]);
                        assert(self.objects@.subrange(0, k as int)[k - 1] == p[k - 1]);
                    }
                }
            }
            k = k + 1;
        }
        assert(self.objects@.subrange(0, n as int) =~= self.objects@);
        true
    }

    /// An empty session state whose first handle is `1`.
    pub fn new() -> (state: Self)
        ensures
            state.wf(),
            state.next_handle == 1,
            state.objects@.len() == 0,
            state.menu_bar is None,
            state.status_line is None,
            state.pending_commands@.len() == 0,
            !state.quit_requested,
            !state.pending_reconcile,
            state.test_dialog_result is None,
    {
        TurboVisionState {
            next_handle: 1,
            objects: Vec::new(),
            menu_bar: None,
            status_line: None,
            pending_commands: Vec::new(),
            quit_requested: false,
            pending_reconcile: false,
            test_dialog_result: None,
        }
    }

    /// Position of `handle` in the object list.
    pub fn object_index(&self, handle: u32) -> (index: Option<usize>)
        requires
            self.wf(),
        ensures
            match index {
                Some(i) => i < self.objects@.len() && self.objects@[i as int].0 == handle
                    && self.spec_objects().contains_key(handle)
                    && self.spec_objects()[handle] == self.objects@[i as int].1,
                None => !self.spec_objects().contains_key(handle),
            },
    {
        let mut i: usize = 0;
        while i < self.objects.len()
            invariant
                self.wf(),
                0 <= i <= self.objects@.len(),
                forall|j: int| 0 <= j < i ==> self.objects@[j].0 != handle,
            decreases self.objects.len() - i,
        {
            if self.objects[i].0 == handle {
                proof {
                    lemma_lookup_at(self.objects@, i as int);
                }
                return Some(i);
            }
            i = i + 1;
        }
        None
    }

    /// The object stored under `handle`.
    pub fn object(&self, handle: u32) -> (object: Option<&TurboVisionObject>)
        requires
            self.wf(),
        ensures
            match object {
                Some(o) => self.spec_objects().contains_key(handle) && self.spec_objects()[handle] == *o,
                None => !self.spec_objects().contains_key(handle),
            },
    {
        match self.object_index(handle) {
            Some(i) => Some(&self.objects[i].1),
            None => None,
        }
    }

    /// Replace the object at position `i`, keeping its handle.
    pub fn replace_at(&mut self, i: usize, object: TurboVisionObject)
        requires
            old(self).wf(),
            i < old(self).objects@.len(),
        ensures
            final(self).wf(),
            final(self).objects@ == old(self).objects@.update(i as int, (old(self).objects@[i as int].0, object)),
            final(self).spec_objects() == old(self).spec_objects().insert(old(self).objects@[i as int].0, object),
            final(self).next_handle == old(self).next_handle,
            final(self).menu_bar == old(self).menu_bar,
            final(self).status_line == old(self).status_line,
            final(self).pending_commands@ == old(self).pending_commands@,
            final(self).quit_requested == old(self).quit_requested,
            final(self).pending_reconcile == old(self).pending_reconcile,
            final(self).test_dialog_result == old(self).test_dialog_result,
    {
        let h = self.objects[i].0;
        proof {
            lemma_update_map(self.objects@, i as int, object);
        }
        self.objects.set(i, (h, object));
    }

    /// A throwaway object used while an entry is being rebuilt: an empty,
    /// unattached static text at the origin with no size.
    pub fn placeholder_object() -> (object: TurboVisionObject)
        ensures
            object matches TurboVisionObject::StaticText(t) && t.bounds == (TvRect { x: 0, y: 0, width: 0, height: 0 })
                && t.text@ == Seq::<char>::empty() && !t.attached,
    {
        TurboVisionObject::StaticText(TurboVisionStaticText {
            bounds: TvRect { x: 0, y: 0, width: 0, height: 0 },
            text: String::new(),
            attached: false,
        })
    }

    /// Move the object at position `i` out, leaving `placeholder` in its slot.
    pub fn swap_out(&mut self, i: usize, placeholder: TurboVisionObject) -> (object: TurboVisionObject)
        requires
            old(self).wf(),
            i < old(self).objects@.len(),
        ensures
            final(self).wf(),
            object == old(self).objects@[i as int].1,
            final(self).objects@ == old(self).objects@.update(i as int, (old(self).objects@[i as int].0, placeholder)),
            final(self).spec_objects() == old(self).spec_objects().insert(old(self).objects@[i as int].0, placeholder),
            final(self).next_handle == old(self).next_handle,
            final(self).menu_bar == old(self).menu_bar,
            final(self).status_line == old(self).status_line,
            final(self).pending_commands@ == old(self).pending_commands@,
            final(self).quit_requested == old(self).quit_requested,
            final(self).pending_reconcile == old(self).pending_reconcile,
            final(self).test_dialog_result == old(self).test_dialog_result,
    {
        let (h, object) = self.objects.remove(i);
        self.objects.insert(i, (h, placeholder));
        proof {
            assert(self.objects@ =~= old(self).objects@.update(i as int, (h, placeholder)));
            lemma_update_map(old(self).objects@, i as int, placeholder);
        }
        object
    }

    /// Allocate the next handle and store `object` under it.
    ///
    /// The handle counter saturates at `u32::MAX`; once saturated, every new
    /// object replaces the one stored under `u32::MAX`.
    pub fn allocate_turbo_vision_object(&mut self, object: TurboVisionObject) -> (handle: u32)
        requires
            old(self).wf(),
        ensures
            final(self).wf(),
            handle == old(self).next_handle,
            final(self).next_handle == if old(self).next_handle == u32::MAX {
                u32::MAX
            } else {
                (old(self).next_handle + 1) as u32
            },
            final(self).spec_objects() == old(self).spec_objects().insert(handle, object),
            final(self).menu_bar == old(self).menu_bar,
            final(self).status_line == old(self).status_line,
            final(self).pending_commands@ == old(self).pending_commands@,
            final(self).quit_requested == old(self).quit_requested,
            final(self).pending_reconcile == old(self).pending_reconcile,
            final(self).test_dialog_result == old(self).test_dialog_result,
    {
        let handle = self.next_handle;
        let n = self.objects.len();
        if n > 0 && self.objects[n - 1].0 == handle {
            self.replace_at(n - 1, object);
        } else {
            let ghost before = self.objects@;
            proof {
                assert forall|k: int| 0 <= k < before.len() implies before[k].0 < handle by {
                    if n > 0 {
                        if k < n - 1 {
                            assert(before[k].0 < before[n - 1].0);
                        }
                    }
                }
            }
            self.objects.push((handle, object));
            proof {
                let after = self.objects@;
                assert(after.len() == before.len() + 1);
                assert forall|k: int| 0 <= k < before.len() implies after[k] == before[k] by {}
                lemma_lookup_at(after, n as int);
                assert forall|hh: u32| #![auto] self.spec_objects().contains_key(hh)
                    <==> spec_objects_map(before).insert(handle, object).contains_key(hh) by {
                    if exists|k: int| 0 <= k < before.len() && before[k].0 == hh {
                        let k = choose|k: int| 0 <= k < before.len() && before[k].0 == hh;
                        assert(after[k].0 == hh);
                    }
                    if exists|k: int| 0 <= k < after.len() && after[k].0 == hh {
                        let k = choose|k: int| 0 <= k < after.len() && after[k].0 == hh;
                        if k < before.len() {
                            assert(before[k].0 == hh);
                        }
                    }
                }
                assert forall|hh: u32| #![auto] self.spec_objects().contains_key(hh)
                    implies self.spec_objects()[hh] == spec_objects_map(before).insert(handle, object)[hh] by {
                    let k = choose|k: int| 0 <= k < after.len() && after[k].0 == hh;
                    lemma_lookup_at(after, k);
                    if k < before.len() {
                        assert(before[k].0 == hh);
                        lemma_lookup_at(before, k);
                    }
                }
                assert(self.spec_objects() =~= spec_objects_map(before).insert(handle, object));
            }
        }
        self.next_handle = if handle == u32::MAX { u32::MAX } else { handle + 1 };
        handle
    }
}

} // verus!
