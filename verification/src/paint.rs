//! Headless paint planning: which texts the FPAS object store shows where.
//!
//! A headless session paints every on-desktop window and every dialog (title
//! and child controls) plus the menu bar titles and status line texts into
//! the logical screen buffer.
use vstd::prelude::*;
use crate::store::{TurboVisionState, TurboVisionObject, spec_lookup, lemma_lookup_at};

verus! {

pub const TITLE_FG: u8 = 15;
pub const TITLE_BG: u8 = 1;
pub const TEXT_FG: u8 = 7;
pub const TEXT_BG: u8 = 0;

/// Paint `text` starting at column `x` of row `y` (TV buffer coordinates).
#[derive(Debug)]
pub struct HeadlessPaintOp {
    pub x: i16,
    pub y: i16,
    pub text: String,
    pub fg: u8,
    pub bg: u8,
}

/// A paint operation as a mathematical value.
pub struct PaintOpView {
    pub x: i16,
    pub y: i16,
    pub text: Seq<char>,
    pub fg: u8,
    pub bg: u8,
}

impl View for HeadlessPaintOp {
    type V = PaintOpView;

    open spec fn view(&self) -> PaintOpView {
        PaintOpView { x: self.x, y: self.y, text: self.text@, fg: self.fg, bg: self.bg }
    }
}

/// The views of a list of paint operations.
pub open spec fn spec_op_views(ops: Seq<HeadlessPaintOp>) -> Seq<PaintOpView> {
    ops.map_values(|o: HeadlessPaintOp| o@)
}

pub open spec fn spec_sat_add(a: i16, b: int) -> i16 {
    if a + b > i16::MAX {
        i16::MAX
    } else if a + b < i16::MIN {
        i16::MIN
    } else {
        (a + b) as i16
    }
}

/// Saturating `i16` addition.
pub fn sat_add_i16(a: i16, b: i16) -> (r: i16)
    ensures
        r == spec_sat_add(a, b as int),
{
    let sum = a as i32 + b as i32;
    if sum > 32767 {
        32767
    } else if sum < -32768 {
        -32768
    } else {
        sum as i16
    }
}

/// Texts laid out left to right from `x`, one blank between them; empty
/// texts take no room.
pub open spec fn spec_text_sequence_ops(x: i16, y: i16, texts: Seq<Seq<char>>, fg: u8, bg: u8) -> Seq<PaintOpView>
    decreases texts.len(),
{
    if texts.len() == 0 {
        Seq::empty()
    } else if texts[0].len() == 0 {
        spec_text_sequence_ops(x, y, texts.drop_first(), fg, bg)
    } else {
        let width = if texts[0].len() > i16::MAX { i16::MAX as int } else { texts[0].len() as int };
        seq![PaintOpView { x, y, text: texts[0], fg, bg }] + spec_text_sequence_ops(
            spec_sat_add(spec_sat_add(x, width), 1),
            y,
            texts.drop_first(),
            fg,
            bg,
        )
    }
}

/// Append the ops laying out `texts` left to right from `x`.
pub fn collect_text_sequence_ops(ops: &mut Vec<HeadlessPaintOp>, x: i16, y: i16, texts: &Vec<&str>, fg: u8, bg: u8)
    ensures
        spec_op_views(final(ops)@) == spec_op_views(old(ops)@) + spec_text_sequence_ops(
            x,
            y,
            texts@.map_values(|t: &str| t@),
            fg,
            bg,
        ),
{
    let ghost all = texts@.map_values(|t: &str| t@);
    let mut current_x = x;
    let mut i: usize = 0;
    assert(all.subrange(0, all.len() as int) =~= all);
    while i < texts.len()
        invariant
            0 <= i <= texts@.len(),
            all == texts@.map_values(|t: &str| t@),
            spec_op_views(ops@) + spec_text_sequence_ops(current_x, y, all.subrange(i as int, all.len() as int), fg, bg)
                == spec_op_views(old(ops)@) + spec_text_sequence_ops(x, y, all, fg, bg),
        decreases texts.len() - i,
    {
        let text = texts[i];
        let ghost rest = all.subrange(i as int, all.len() as int);
        assert(rest[0] == text@);
        assert(rest.drop_first() =~= all.subrange(i + 1, all.len() as int));
        let n = text.unicode_len();
        if n != 0 {
            let ghost before = ops@;
            ops.push(HeadlessPaintOp { x: current_x, y, text: String::from_str(text), fg, bg });
            let width: i16 = if n > 32767 { 32767 } else { n as i16 };
            current_x = sat_add_i16(sat_add_i16(current_x, width), 1);
            assert(spec_op_views(ops@) =~= spec_op_views(before) + seq![
                PaintOpView { x: ops@[ops@.len() - 1].x, y, text: text@, fg, bg },
            ]);
        }
        i = i + 1;
    }
    assert(all.subrange(texts@.len() as int, all.len() as int) =~= Seq::<Seq<char>>::empty());
    assert(spec_op_views(ops@) + Seq::<PaintOpView>::empty() =~= spec_op_views(ops@));
}

/// The text shown for a child control, as `(x, y, text)` relative to its
/// container; `None` for controls the headless painter skips.
pub open spec fn spec_child_paint(child: TurboVisionObject) -> Option<(i16, i16, Seq<char>)> {
    match child {
        TurboVisionObject::StaticText(c) => Some((c.bounds.x, c.bounds.y, c.text@)),
        TurboVisionObject::Button(c) => Some((c.bounds.x, c.bounds.y, c.text@)),
        TurboVisionObject::Memo(c) => Some((c.bounds.x, c.bounds.y, c.text@)),
        TurboVisionObject::CheckBox(c) => Some((c.bounds.x, c.bounds.y, (if c.checked { "X "@ } else { "  "@ }) + c.text@)),
        TurboVisionObject::RadioButton(c) => Some((c.bounds.x, c.bounds.y, (if c.selected { "* "@ } else { "  "@ }) + c.text@)),
        TurboVisionObject::ListBox(c) => if c.items@.len() > 0 {
            Some((c.bounds.x, c.bounds.y, c.items@[0]@))
        } else {
            None
        },
        _ => None,
    }
}

/// The op painting `child` inside a container at `(px, py)`.
pub open spec fn spec_child_paint_ops(px: i16, py: i16, child: TurboVisionObject) -> Seq<PaintOpView> {
    match spec_child_paint(child) {
        Some((lx, ly, text)) => seq![PaintOpView {
            x: spec_sat_add(px, lx as int),
            y: spec_sat_add(py, ly as int),
            text,
            fg: TEXT_FG,
            bg: TEXT_BG,
        }],
        None => Seq::empty(),
    }
}

/// Append the op that paints `child` inside a container at `(parent_x, parent_y)`.
pub fn collect_child_paint_ops(ops: &mut Vec<HeadlessPaintOp>, parent_x: i16, parent_y: i16, child: &TurboVisionObject)
    ensures
        spec_op_views(final(ops)@) == spec_op_views(old(ops)@) + spec_child_paint_ops(parent_x, parent_y, *child),
{
    proof {
        reveal_strlit("X ");
        reveal_strlit("* ");
        reveal_strlit("  ");
    }
    let (local_x, local_y, text) = match child {
        TurboVisionObject::StaticText(c) => (c.bounds.x, c.bounds.y, c.text.clone()),
        TurboVisionObject::Button(c) => (c.bounds.x, c.bounds.y, c.text.clone()),
        TurboVisionObject::Memo(c) => (c.bounds.x, c.bounds.y, c.text.clone()),
        TurboVisionObject::CheckBox(c) => {
            let marker = if c.checked { "X " } else { "  " };
            (c.bounds.x, c.bounds.y, String::from_str(marker).concat(c.text.as_str()))
        },
        TurboVisionObject::RadioButton(c) => {
            let marker = if c.selected { "* " } else { "  " };
            (c.bounds.x, c.bounds.y, String::from_str(marker).concat(c.text.as_str()))
        },
        TurboVisionObject::ListBox(c) => {
            if c.items.len() == 0 {
                assert(spec_op_views(ops@) + Seq::<PaintOpView>::empty() =~= spec_op_views(ops@));
                return;
            }
            (c.bounds.x, c.bounds.y, c.items[0].clone())
        },
        _ => {
            assert(spec_op_views(ops@) + Seq::<PaintOpView>::empty() =~= spec_op_views(ops@));
            return;
        },
    };
    let ghost before = ops@;
    ops.push(
        HeadlessPaintOp {
            x: sat_add_i16(parent_x, local_x),
            y: sat_add_i16(parent_y, local_y),
            text,
            fg: TEXT_FG,
            bg: TEXT_BG,
        },
    );
    assert(spec_op_views(ops@) =~= spec_op_views(before) + seq![ops@[ops@.len() - 1]@]);
}


/// Origin, title and children of a container the headless painter shows:
/// on-desktop windows and every dialog.
pub open spec fn spec_container(o: TurboVisionObject) -> Option<(i16, i16, Seq<char>, Seq<u32>)> {
    match o {
        TurboVisionObject::Window(w) => if w.on_desktop {
            Some((w.bounds.x, w.bounds.y, w.title@, w.children@))
        } else {
            None
        },
        TurboVisionObject::Dialog(d) => Some((d.bounds.x, d.bounds.y, d.title@, d.children@)),
        _ => None,
    }
}

/// Ops for the existing children among `children`, inside a container at `(px, py)`.
pub open spec fn spec_children_ops(m: Map<u32, TurboVisionObject>, px: i16, py: i16, children: Seq<u32>) -> Seq<PaintOpView>
    decreases children.len(),
{
    if children.len() == 0 {
        Seq::empty()
    } else {
        (if m.contains_key(children[0]) {
            spec_child_paint_ops(px, py, m[children[0]])
        } else {
            Seq::empty()
        }) + spec_children_ops(m, px, py, children.drop_first())
    }
}

/// Ops for one container: its title one column in, then its children.
pub open spec fn spec_container_ops(m: Map<u32, TurboVisionObject>, o: TurboVisionObject) -> Seq<PaintOpView> {
    match spec_container(o) {
        Some((x, y, title, children)) => seq![PaintOpView {
            x: spec_sat_add(x, 1),
            y,
            text: title,
            fg: TITLE_FG,
            bg: TITLE_BG,
        }] + spec_children_ops(m, x, y, children),
        None => Seq::empty(),
    }
}

/// Ops for every container among `objects`, in handle order.
pub open spec fn spec_objects_ops(m: Map<u32, TurboVisionObject>, objects: Seq<(u32, TurboVisionObject)>) -> Seq<PaintOpView>
    decreases objects.len(),
{
    if objects.len() == 0 {
        Seq::empty()
    } else {
        spec_container_ops(m, objects[0].1) + spec_objects_ops(m, objects.drop_first())
    }
}

/// Ops for the installed menu bar (menu titles) or status line (item texts).
pub open spec fn spec_chrome_ops(m: Map<u32, TurboVisionObject>, chrome: Option<u32>) -> Seq<PaintOpView> {
    match chrome {
        Some(h) => if m.contains_key(h) {
            match m[h] {
                TurboVisionObject::MenuBar(b) => spec_text_sequence_ops(
                    b.bounds.x,
                    b.bounds.y,
                    b.menus@.map_values(|menu: crate::store::TurboVisionMenu| menu.title@),
                    TITLE_FG,
                    TITLE_BG,
                ),
                TurboVisionObject::StatusLine(l) => spec_text_sequence_ops(
                    l.bounds.x,
                    l.bounds.y,
                    l.items@.map_values(|item: crate::store::TurboVisionStatusItem| item.text@),
                    TEXT_FG,
                    TEXT_BG,
                ),
                _ => Seq::empty(),
            }
        } else {
            Seq::empty()
        },
        None => Seq::empty(),
    }
}

/// Everything the headless desktop shows, in paint order: menu bar,
/// status line, then each container in handle order.
pub open spec fn spec_headless_paint_ops(state: TurboVisionState) -> Seq<PaintOpView> {
    let m = state.spec_objects();
    (if state.menu_bar is Some && m.contains_key(state.menu_bar->0) && m[state.menu_bar->0] is MenuBar {
        spec_chrome_ops(m, state.menu_bar)
    } else {
        Seq::empty()
    }) + (if state.status_line is Some && m.contains_key(state.status_line->0) && m[state.status_line->0] is StatusLine {
        spec_chrome_ops(m, state.status_line)
    } else {
        Seq::empty()
    }) + spec_objects_ops(m, state.objects@)
}

/// Append the ops for the existing children among `children`.
fn collect_children_ops(ops: &mut Vec<HeadlessPaintOp>, state: &TurboVisionState, px: i16, py: i16, children: &Vec<u32>)
    requires
        state.wf(),
    ensures
        spec_op_views(final(ops)@) == spec_op_views(old(ops)@) + spec_children_ops(state.spec_objects(), px, py, children@),
{
    let mut i: usize = 0;
    assert(children@.subrange(0, children@.len() as int) =~= children@);
    while i < children.len()
        invariant
            state.wf(),
            0 <= i <= children@.len(),
            spec_op_views(ops@) + spec_children_ops(state.spec_objects(), px, py, children@.subrange(i as int, children@.len() as int))
                == spec_op_views(old(ops)@) + spec_children_ops(state.spec_objects(), px, py, children@),
        decreases children.len() - i,
    {
        let ghost rest = children@.subrange(i as int, children@.len() as int);
        assert(rest.drop_first() =~= children@.subrange(i + 1, children@.len() as int));
        let ghost before = ops@;
        match state.object(children[i]) {
            Some(child) => {
                collect_child_paint_ops(ops, px, py, child);
            },
            None => {},
        }
        assert(spec_op_views(ops@) + spec_children_ops(state.spec_objects(), px, py, children@.subrange(i + 1, children@.len() as int))
            =~= spec_op_views(before) + spec_children_ops(state.spec_objects(), px, py, rest));
        i = i + 1;
    }
    assert(children@.subrange(children@.len() as int, children@.len() as int) =~= Seq::<u32>::empty());
    assert(spec_op_views(ops@) + Seq::<PaintOpView>::empty() =~= spec_op_views(ops@));
}

/// The ops that repaint the headless desktop from the object store.
pub fn headless_paint_ops(state: &TurboVisionState) -> (ops: Vec<HeadlessPaintOp>)
    requires
        state.wf(),
    ensures
        spec_op_views(ops@) == spec_headless_paint_ops(*state),
{
    let mut ops: Vec<HeadlessPaintOp> = Vec::new();
    let ghost m = state.spec_objects();
    assert(spec_op_views(ops@) =~= Seq::<PaintOpView>::empty());
    if let Some(h) = state.menu_bar {
        if let Some(TurboVisionObject::MenuBar(bar)) = state.object(h) {
            let mut titles: Vec<&str> = Vec::new();
            let mut k: usize = 0;
            while k < bar.menus.len()
                invariant
                    0 <= k <= bar.menus@.len(),
                    titles@.len() == k,
                    forall|j: int| 0 <= j < k ==> titles@[j]@ == (#[trigger] bar.menus@[j]).title@,
                decreases bar.menus.len() - k,
            {
                titles.push(bar.menus[k].title.as_str());
                k = k + 1;
            }
            assert(titles@.map_values(|t: &str| t@) =~= bar.menus@.map_values(
                |menu: crate::store::TurboVisionMenu| menu.title@,
            ));
            collect_text_sequence_ops(&mut ops, bar.bounds.x, bar.bounds.y, &titles, TITLE_FG, TITLE_BG);
        }
    }
    let ghost after_menu = spec_op_views(ops@);
    if let Some(h) = state.status_line {
        if let Some(TurboVisionObject::StatusLine(line)) = state.object(h) {
            let mut texts: Vec<&str> = Vec::new();
            let mut k: usize = 0;
            while k < line.items.len()
                invariant
                    0 <= k <= line.items@.len(),
                    texts@.len() == k,
                    forall|j: int| 0 <= j < k ==> texts@[j]@ == (#[trigger] line.items@[j]).text@,
                decreases line.items.len() - k,
            {
                texts.push(line.items[k].text.as_str());
                k = k + 1;
            }
            assert(texts@.map_values(|t: &str| t@) =~= line.items@.map_values(
                |item: crate::store::TurboVisionStatusItem| item.text@,
            ));
            collect_text_sequence_ops(&mut ops, line.bounds.x, line.bounds.y, &texts, TEXT_FG, TEXT_BG);
        }
    }
    let ghost after_chrome = spec_op_views(ops@);
    let mut i: usize = 0;
    let n = state.objects.len();
    assert(state.objects@.subrange(0, n as int) =~= state.objects@);
    while i < n
        invariant
            state.wf(),
            n == state.objects@.len(),
            0 <= i <= n,
            m == state.spec_objects(),
            spec_op_views(ops@) + spec_objects_ops(m, state.objects@.subrange(i as int, n as int))
                == after_chrome + spec_objects_ops(m, state.objects@),
        decreases n - i,
    {
        let ghost rest = state.objects@.subrange(i as int, n as int);
        assert(rest.drop_first() =~= state.objects@.subrange(i + 1, n as int));
        let ghost before = spec_op_views(ops@);
        match &state.objects[i].1 {
            TurboVisionObject::Window(w) => {
                if w.on_desktop {
                    let ghost b0 = ops@;
                    ops.push(HeadlessPaintOp { x: sat_add_i16(w.bounds.x, 1), y: w.bounds.y, text: w.title.clone(), fg: TITLE_FG, bg: TITLE_BG });
                    assert(spec_op_views(ops@) =~= spec_op_views(b0) + seq![ops@[ops@.len() - 1]@]);
                    collect_children_ops(&mut ops, state, w.bounds.x, w.bounds.y, &w.children);
                }
            },
            TurboVisionObject::Dialog(d) => {
                let ghost b0 = ops@;
                ops.push(HeadlessPaintOp { x: sat_add_i16(d.bounds.x, 1), y: d.bounds.y, text: d.title.clone(), fg: TITLE_FG, bg: TITLE_BG });
                assert(spec_op_views(ops@) =~= spec_op_views(b0) + seq![ops@[ops@.len() - 1]@]);
                collect_children_ops(&mut ops, state, d.bounds.x, d.bounds.y, &d.children);
            },
            _ => {},
        }
        assert(spec_op_views(ops@) =~= before + spec_container_ops(m, state.objects@[i as int].1));
        assert(spec_op_views(ops@) + spec_objects_ops(m, state.objects@.subrange(i + 1, n as int))
            =~= before + spec_objects_ops(m, rest));
        i = i + 1;
    }
    assert(state.objects@.subrange(n as int, n as int) =~= Seq::<(u32, TurboVisionObject)>::empty());
    assert(spec_op_views(ops@) =~= after_chrome + spec_objects_ops(m, state.objects@));
    ops
}

/// One screen cell written by the headless painter (one-based coordinates).
#[derive(Debug, Clone, Copy, PartialEq, Eq, Structural)]
pub struct HeadlessCell {
    pub col: u16,
    pub row: u16,
    pub ch: char,
    pub fg: u8,
    pub bg: u8,
}

/// Cells of `text` drawn from column `col` on `row`, clipped to columns
/// `1..=width`.
pub open spec fn spec_text_cells(col: int, row: int, text: Seq<char>, width: int, fg: u8, bg: u8) -> Seq<HeadlessCell>
    decreases text.len(),
{
    if text.len() == 0 {
        Seq::empty()
    } else {
        (if 1 <= col && col <= width {
            seq![HeadlessCell { col: col as u16, row: row as u16, ch: text[0], fg, bg }]
        } else {
            Seq::empty()
        }) + spec_text_cells(col + 1, row, text.drop_first(), width, fg, bg)
    }
}

/// The cells painting `text` at `(x, y)`: nothing when the row is off
/// screen, and only the columns inside `1..=width` otherwise.
pub open spec fn spec_paint_text(width: i64, height: i64, x: i16, y: i16, text: Seq<char>, fg: u8, bg: u8) -> Seq<HeadlessCell> {
    if y < 1 || y > height {
        Seq::empty()
    } else {
        spec_text_cells(x as int, y as int, text, width as int, fg, bg)
    }
}

/// Every cell from position `from` on lies on a screen of `width` x
/// `height` (one-based coordinates).
pub open spec fn spec_cells_on_screen(cells: Seq<HeadlessCell>, from: int, width: i64, height: i64) -> bool {
    forall|j: int| from <= j < cells.len() ==> {
        let c = #[trigger] cells[j];
        1 <= c.col <= width && 1 <= c.row <= height
    }
}

/// Paint `text` into the screen at `(x, y)`, clipping to the screen: no
/// painted cell lands outside it.
pub fn paint_text(cells: &mut Vec<HeadlessCell>, screen_width: i64, screen_height: i64, x: i16, y: i16, text: &str, fg: u8, bg: u8)
    ensures
        final(cells)@ == old(cells)@ + spec_paint_text(screen_width, screen_height, x, y, text@, fg, bg),
        screen_width <= u16::MAX && screen_height <= u16::MAX ==> spec_cells_on_screen(
            final(cells)@,
            old(cells)@.len() as int,
            screen_width,
            screen_height,
        ),
{
    let row = y as i64;
    if row < 1 || row > screen_height {
        assert(cells@ =~= cells@ + Seq::<HeadlessCell>::empty());
        return;
    }
    let n = text.unicode_len();
    let mut col: i64 = x as i64;
    let mut i: usize = 0;
    assert(text@.subrange(0, n as int) =~= text@);
    while i < n
        invariant
            n == text@.len(),
            0 <= i <= n,
            col == x + i,
            1 <= row <= screen_height,
            row == y,
            old(cells)@.len() <= cells@.len(),
            screen_width <= u16::MAX && screen_height <= u16::MAX ==> spec_cells_on_screen(
                cells@,
                old(cells)@.len() as int,
                screen_width,
                screen_height,
            ),
            cells@ + spec_text_cells(col as int, row as int, text@.subrange(i as int, n as int), screen_width as int, fg, bg)
                == old(cells)@ + spec_text_cells(x as int, y as int, text@, screen_width as int, fg, bg),
        decreases n - i,
    {
        if col > screen_width {
            proof {
                lemma_text_cells_past_width(col as int, row as int, text@.subrange(i as int, n as int), screen_width as int, fg, bg);
            }
            assert(cells@ =~= cells@ + Seq::<HeadlessCell>::empty());
            return;
        }
        let ghost rest = text@.subrange(i as int, n as int);
        assert(rest.drop_first() =~= text@.subrange(i + 1, n as int));
        let ghost before = cells@;
        let ch = text.get_char(i);
        if col >= 1 {
            cells.push(HeadlessCell { col: col as u16, row: row as u16, ch, fg, bg });
        }
        assert(cells@ + spec_text_cells(col + 1, row as int, text@.subrange(i + 1, n as int), screen_width as int, fg, bg)
            =~= before + spec_text_cells(col as int, row as int, rest, screen_width as int, fg, bg));
        if col == i64::MAX {
            proof {
                lemma_text_cells_past_width(col + 1, row as int, text@.subrange(i + 1, n as int), screen_width as int, fg, bg);
            }
            assert(cells@ =~= cells@ + Seq::<HeadlessCell>::empty());
            return;
        }
        col = col + 1;
        i = i + 1;
    }
    assert(text@.subrange(n as int, n as int) =~= Seq::<char>::empty());
    assert(cells@ =~= cells@ + Seq::<HeadlessCell>::empty());
}

/// Past the right edge nothing more is painted.
proof fn lemma_text_cells_past_width(col: int, row: int, text: Seq<char>, width: int, fg: u8, bg: u8)
    requires
        col > width,
    ensures
        spec_text_cells(col, row, text, width, fg, bg) == Seq::<HeadlessCell>::empty(),
    decreases text.len(),
{
    if text.len() > 0 {
        lemma_text_cells_past_width(col + 1, row, text.drop_first(), width, fg, bg);
        assert(spec_text_cells(col, row, text, width, fg, bg) =~= Seq::<HeadlessCell>::empty());
    }
}

} // verus!
