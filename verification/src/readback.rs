//! Reading control state back out of the object store.
use vstd::prelude::*;
use crate::error::TuiError;
use crate::outline::{outline_label_at_flat_index, spec_flatten_nodes};
use crate::store::{TurboVisionState, TurboVisionObject, spec_keys, lemma_lookup_at};

verus! {

/// The handles, in handle order, of the radio buttons of group `g`.
pub open spec fn spec_group_members(objects: Seq<(u32, TurboVisionObject)>, g: u16) -> Seq<u32> {
    objects.filter(|e: (u32, TurboVisionObject)| e.1 matches TurboVisionObject::RadioButton(r) && r.group_id == g)
        .map_values(|e: (u32, TurboVisionObject)| e.0)
}

/// The text `SetText` mirrors into a live static text, memo or text viewer.
pub open spec fn spec_text_for_set_text(m: Map<u32, TurboVisionObject>, handle: u32) -> Option<Seq<char>> {
    if !m.contains_key(handle) {
        None
    } else {
        match m[handle] {
            TurboVisionObject::StaticText(t) => Some(t.text@),
            TurboVisionObject::Memo(t) => Some(t.text@),
            TurboVisionObject::TextViewer(t) => Some(t.text@),
            _ => None,
        }
    }
}

/// The text shown for the selected outline node: empty without selection or
/// when the selection lies past the visible nodes.
pub open spec fn spec_outline_selected_text(o: TurboVisionObject) -> Seq<char> {
    match o {
        TurboVisionObject::Outline(outline) => match outline.selection {
            Some(i) => if i < spec_flatten_nodes(outline.roots@).len() {
                spec_flatten_nodes(outline.roots@)[i as int]
            } else {
                Seq::empty()
            },
            None => Seq::empty(),
        },
        _ => Seq::empty(),
    }
}

impl TurboVisionState {
    /// `Application.InputText`: the current text of an input line.
    pub fn input_line_text(&self, handle: u32) -> (r: Result<String, TuiError>)
        requires
            self.wf(),
        ensures
            match r {
                Ok(t) => self.spec_objects().contains_key(handle) && self.spec_objects()[handle] is InputLine
                    && t@ == self.spec_objects()[handle]->InputLine_0.text@,
                Err(e) => e == TuiError::UnknownHandle { handle } && !(self.spec_objects().contains_key(handle)
                    && self.spec_objects()[handle] is InputLine),
            },
    {
        match self.object(handle) {
            Some(TurboVisionObject::InputLine(i)) => Ok(i.text.clone()),
            _ => Err(TuiError::UnknownHandle { handle }),
        }
    }

    /// `Application.Checked`: the checked state of a check box.
    pub fn check_box_checked(&self, handle: u32) -> (r: Result<bool, TuiError>)
        requires
            self.wf(),
        ensures
            match r {
                Ok(b) => self.spec_objects().contains_key(handle) && self.spec_objects()[handle] is CheckBox
                    && b == self.spec_objects()[handle]->CheckBox_0.checked,
                Err(e) => e == TuiError::UnknownHandle { handle } && !(self.spec_objects().contains_key(handle)
                    && self.spec_objects()[handle] is CheckBox),
            },
    {
        match self.object(handle) {
            Some(TurboVisionObject::CheckBox(c)) => Ok(c.checked),
            _ => Err(TuiError::UnknownHandle { handle }),
        }
    }

    /// `Application.Selected`: the selected state of a radio button.
    pub fn radio_button_selected(&self, handle: u32) -> (r: Result<bool, TuiError>)
        requires
            self.wf(),
        ensures
            match r {
                Ok(b) => self.spec_objects().contains_key(handle) && self.spec_objects()[handle] is RadioButton
                    && b == self.spec_objects()[handle]->RadioButton_0.selected,
                Err(e) => e == TuiError::UnknownHandle { handle } && !(self.spec_objects().contains_key(handle)
                    && self.spec_objects()[handle] is RadioButton),
            },
    {
        match self.object(handle) {
            Some(TurboVisionObject::RadioButton(c)) => Ok(c.selected),
            _ => Err(TuiError::UnknownHandle { handle }),
        }
    }

    /// `Application.OutlineSelection`: the flat visible selection index, or `-1`.
    pub fn outline_selection(&self, handle: u32) -> (r: Result<i64, TuiError>)
        requires
            self.wf(),
        ensures
            match r {
                Ok(v) => self.spec_objects().contains_key(handle) && self.spec_objects()[handle] is Outline
                    && v == match self.spec_objects()[handle]->Outline_0.selection {
                    Some(i) => i as i64,
                    None => -1i64,
                },
                Err(e) => e == TuiError::UnknownHandle { handle } && !(self.spec_objects().contains_key(handle)
                    && self.spec_objects()[handle] is Outline),
            },
    {
        match self.object(handle) {
            Some(TurboVisionObject::Outline(o)) => Ok(
                match o.selection {
                    Some(i) => i as i64,
                    None => -1,
                },
            ),
            _ => Err(TuiError::UnknownHandle { handle }),
        }
    }

    /// `Application.OutlineSelectedText`: the label of the selected outline node.
    pub fn outline_selected_text(&self, handle: u32) -> (r: Result<String, TuiError>)
        requires
            self.wf(),
        ensures
            match r {
                Ok(t) => self.spec_objects().contains_key(handle) && self.spec_objects()[handle] is Outline
                    && t@ == spec_outline_selected_text(self.spec_objects()[handle]),
                Err(e) => e == TuiError::UnknownHandle { handle } && !(self.spec_objects().contains_key(handle)
                    && self.spec_objects()[handle] is Outline),
            },
    {
        match self.object(handle) {
            Some(TurboVisionObject::Outline(o)) => {
                match o.selection {
                    None => Ok(String::new()),
                    Some(i) => match outline_label_at_flat_index(&o.roots, i) {
                        Some(l) => Ok(l),
                        None => Ok(String::new()),
                    },
                }
            },
            _ => Err(TuiError::UnknownHandle { handle }),
        }
    }

    /// The text a live `SetText` patch shows for a static text, memo or text viewer.
    pub fn text_for_set_text(&self, handle: u32) -> (text: Option<String>)
        requires
            self.wf(),
        ensures
            match text {
                Some(t) => spec_text_for_set_text(self.spec_objects(), handle) == Some(t@),
                None => spec_text_for_set_text(self.spec_objects(), handle) is None,
            },
    {
        match self.object(handle) {
            Some(TurboVisionObject::StaticText(t)) => Some(t.text.clone()),
            Some(TurboVisionObject::Memo(t)) => Some(t.text.clone()),
            Some(TurboVisionObject::TextViewer(t)) => Some(t.text.clone()),
            _ => None,
        }
    }

    /// All radio buttons sharing the group of `handle`, in handle order;
    /// empty when `handle` is not a radio button.
    pub fn radio_group_handles(&self, handle: u32) -> (members: Vec<u32>)
        requires
            self.wf(),
        ensures
            members@ == match self.spec_objects().get(handle) {
                Some(TurboVisionObject::RadioButton(r)) => spec_group_members(self.objects@, r.group_id),
                _ => Seq::empty(),
            },
    {
        let group_id = match self.object(handle) {
            Some(TurboVisionObject::RadioButton(r)) => r.group_id,
            _ => {
                return Vec::new();
            },
        };
        let mut members: Vec<u32> = Vec::new();
        let mut i: usize = 0;
        while i < self.objects.len()
            invariant
                0 <= i <= self.objects@.len(),
                members@ == spec_group_members(self.objects@.subrange(0, i as int), group_id),
            decreases self.objects.len() - i,
        {
            let ghost pre = self.objects@.subrange(0, i as int);
            assert(self.objects@.subrange(0, i + 1) =~= pre.push(self.objects@[i as int]));
            let is_member = match &self.objects[i].1 {
                TurboVisionObject::RadioButton(r) => r.group_id == group_id,
                _ => false,
            };
            proof {
                let pred = |e: (u32, TurboVisionObject)| e.1 matches TurboVisionObject::RadioButton(r) && r.group_id == group_id;
                pre.lemma_filter_push(self.objects@[i as int], pred);
            }
            if is_member {
                members.push(self.objects[i].0);
            }
            assert(members@ =~= spec_group_members(self.objects@.subrange(0, i + 1), group_id));
            i = i + 1;
        }
        assert(self.objects@.subrange(0, self.objects@.len() as int) =~= self.objects@);
        members
    }
}

} // verus!
