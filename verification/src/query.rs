//! The read-only queries: `QueryScreenSize`, `QueryScreenLine` and
//! `QueryScreenCell`, and the control-state queries. The console and the
//! controls are read by the caller; these functions pop and check the
//! arguments against the console's size and push records of what the
//! console or control gave back.
use vstd::prelude::*;
use crate::error::TuiError;
use crate::host_args::{
    screen_column_to_u16, screen_row_to_u16, spec_is_record, spec_screen_coordinate,
    tui_screen_cell_record, tui_size_record, validate_screen_cell, validate_screen_row,
};
use crate::host_records::{TUI_SCREEN_CELL_TYPE, TUI_SIZE_TYPE};
use crate::intrinsics::{spec_app_args, spec_int_app_args};
use crate::test_events::spec_pair_app_args;
use crate::value::{Field, Value};
use crate::worker::{Worker, lemma_popped_compose, spec_popped, spec_same_but_stack};

verus! {

/// `QueryScreenLine(App, Y)` on a screen `screen_height` rows high: the
/// row to read, or why not, and how many values were popped.
pub open spec fn spec_query_line(s: Seq<Value>, screen_height: i64) -> (Result<u16, TuiError>, int) {
    let (r, n) = spec_int_app_args(s);
    (match r {
        Err(e) => Err(e),
        Ok(y) => match spec_screen_coordinate(y) {
            Err(e) => Err(e),
            Ok(row) => if row > screen_height {
                Err(TuiError::OutsideScreen)
            } else {
                Ok(row)
            },
        },
    }, n)
}

/// `QueryScreenCell(App, X, Y)` on a screen of `screen_width` x
/// `screen_height`: the cell `(x, y)` to read, or why not, and how many
/// values were popped. `X` is converted before `Y`, the row is checked
/// against the screen before the column.
pub open spec fn spec_query_cell(s: Seq<Value>, screen_width: i64, screen_height: i64) -> (Result<(u16, u16), TuiError>, int) {
    let (r, n) = spec_pair_app_args(s);
    (match r {
        Err(e) => Err(e),
        Ok((x, y)) => match spec_screen_coordinate(x) {
            Err(e) => Err(e),
            Ok(cx) => match spec_screen_coordinate(y) {
                Err(e) => Err(e),
                Ok(cy) => if cy > screen_height || cx > screen_width {
                    Err(TuiError::OutsideScreen)
                } else {
                    Ok((cx, cy))
                },
            },
        },
    }, n)
}

/// Which control state a query asks for.
#[derive(Debug, Clone, Copy, PartialEq, Eq, Structural)]
pub enum ControlQuery {
    InputLine,
    CheckBox,
    RadioGroup,
}

/// The state of the control a query found under its view id.
#[derive(Debug)]
pub enum ControlSnapshot {
    InputLine { text: String, cursor: usize, scroll_offset: usize },
    CheckBox { checked: bool },
    RadioGroup { selected: Option<usize>, focused: Option<usize> },
    /// A view of another kind, or no control at all.
    Other,
}

/// An optional index as reported to the program: `-1` for none.
pub open spec fn spec_index_or_none(i: Option<usize>) -> i64 {
    match i {
        Some(n) => n as i64,
        None => -1i64,
    }
}

/// An optional index as reported to the program: `-1` for none.
pub fn index_or_none(i: Option<usize>) -> (n: i64)
    ensures
        n == spec_index_or_none(i),
{
    match i {
        Some(n) => n as i64,
        None => -1,
    }
}

/// `query` asks for the kind of control that `snapshot` is.
pub open spec fn spec_query_matches(query: ControlQuery, snapshot: ControlSnapshot) -> bool {
    match (query, snapshot) {
        (ControlQuery::InputLine, ControlSnapshot::InputLine { .. }) => true,
        (ControlQuery::CheckBox, ControlSnapshot::CheckBox { .. }) => true,
        (ControlQuery::RadioGroup, ControlSnapshot::RadioGroup { .. }) => true,
        _ => false,
    }
}

/// `v` is the state record answering `query` about a control in state
/// `snapshot`: `InputLineState(text, cursor, scrollOffset)`,
/// `CheckBoxState(checked)` or `RadioGroupState(selectedIndex,
/// focusedIndex)`.
pub open spec fn spec_control_state_record(query: ControlQuery, snapshot: ControlSnapshot, v: Value) -> bool {
    match (query, snapshot) {
        (ControlQuery::InputLine, ControlSnapshot::InputLine { text, cursor, scroll_offset }) => {
            &&& v matches Value::Record { record_type, fields }
            &&& record_type@ == "Std.Tui.InputLineState"@
            &&& fields@.len() == 3
            &&& fields@[0].0@ == "text"@ && (fields@[0].1 matches Value::Str(t) && t@ == text@)
            &&& fields@[1].0@ == "cursor"@ && fields@[1].1 == Value::Integer(cursor as i64)
            &&& fields@[2].0@ == "scrollOffset"@ && fields@[2].1 == Value::Integer(scroll_offset as i64)
        },
        (ControlQuery::CheckBox, ControlSnapshot::CheckBox { checked }) => spec_is_record(
            v,
            "Std.Tui.CheckBoxState"@,
            seq!["checked"@],
            seq![Value::Boolean(checked)],
        ),
        (ControlQuery::RadioGroup, ControlSnapshot::RadioGroup { selected, focused }) => spec_is_record(
            v,
            "Std.Tui.RadioGroupState"@,
            seq!["selectedIndex"@, "focusedIndex"@],
            seq![Value::Integer(spec_index_or_none(selected)), Value::Integer(spec_index_or_none(focused))],
        ),
        _ => false,
    }
}

/// The state record answering `query` about a control in state `snapshot`;
/// a control of another kind is an error.
pub fn control_state_record(query: ControlQuery, snapshot: ControlSnapshot) -> (r: Result<Value, TuiError>)
    ensures
        match r {
            Ok(v) => spec_control_state_record(query, snapshot, v),
            Err(e) => e == TuiError::WrongControlKind && !spec_query_matches(query, snapshot),
        },
        r is Ok <==> spec_query_matches(query, snapshot),
{
    proof {
        reveal_strlit("Std.Tui.InputLineState");
        reveal_strlit("Std.Tui.CheckBoxState");
        reveal_strlit("Std.Tui.RadioGroupState");
        reveal_strlit("text");
        reveal_strlit("cursor");
        reveal_strlit("scrollOffset");
        reveal_strlit("checked");
        reveal_strlit("selectedIndex");
        reveal_strlit("focusedIndex");
    }
    match (query, snapshot) {
        (ControlQuery::InputLine, ControlSnapshot::InputLine { text, cursor, scroll_offset }) => {
            let mut fields: Vec<Field> = Vec::new();
            fields.push((String::from_str("text"), Value::Str(text)));
            fields.push((String::from_str("cursor"), Value::Integer(cursor as i64)));
            fields.push((String::from_str("scrollOffset"), Value::Integer(scroll_offset as i64)));
            Ok(Value::Record { record_type: String::from_str("Std.Tui.InputLineState"), fields })
        },
        (ControlQuery::CheckBox, ControlSnapshot::CheckBox { checked }) => {
            let mut fields: Vec<Field> = Vec::new();
            fields.push((String::from_str("checked"), Value::Boolean(checked)));
            Ok(Value::Record { record_type: String::from_str("Std.Tui.CheckBoxState"), fields })
        },
        (ControlQuery::RadioGroup, ControlSnapshot::RadioGroup { selected, focused }) => {
            let mut fields: Vec<Field> = Vec::new();
            fields.push((String::from_str("selectedIndex"), Value::Integer(index_or_none(selected))));
            fields.push((String::from_str("focusedIndex"), Value::Integer(index_or_none(focused))));
            Ok(Value::Record { record_type: String::from_str("Std.Tui.RadioGroupState"), fields })
        },
        _ => Err(TuiError::WrongControlKind),
    }
}

impl Worker {
    /// `Application.QueryScreenSize(App)`: push the `Size` record of a
    /// screen `width` x `height`.
    pub fn tui_query_screen_size(&mut self, width: i64, height: i64) -> (r: Result<(), TuiError>)
        ensures
            spec_same_but_stack(*final(self), *old(self)),
            match spec_app_args(old(self).stack@).0 {
                Err(e) => r == Err::<(), TuiError>(e)
                    && final(self).stack@ == spec_popped(old(self).stack@, spec_app_args(old(self).stack@).1),
                Ok(_) => r is Ok && final(self).stack@.len() == old(self).stack@.len()
                    && final(self).stack@.drop_last() == spec_popped(old(self).stack@, 1)
                    && spec_is_record(
                    final(self).stack@.last(),
                    TUI_SIZE_TYPE@,
                    seq!["width"@, "height"@],
                    seq![Value::Integer(width), Value::Integer(height)],
                ),
            },
    {
        self.pop_tui_application()?;
        let record = tui_size_record(width, height);
        self.push(record);
        assert(self.stack@.drop_last() =~= spec_popped(old(self).stack@, 1));
        Ok(())
    }

    /// `Application.QueryScreenLine(App, Y)`: pop and check the row on a
    /// screen `screen_height` rows high. The caller reads that row of the
    /// console and pushes it as a string.
    pub fn tui_query_screen_line(&mut self, screen_height: i64) -> (r: Result<u16, TuiError>)
        ensures
            spec_same_but_stack(*final(self), *old(self)),
            r == spec_query_line(old(self).stack@, screen_height).0,
            final(self).stack@ == spec_popped(old(self).stack@, spec_query_line(old(self).stack@, screen_height).1),
    {
        proof {
            lemma_popped_compose(self.stack@, 0);
            if self.stack@.len() >= 1 {
                lemma_popped_compose(self.stack@, 1);
            }
        }
        let y = self.pop_int()?;
        self.pop_tui_application()?;
        let y = screen_row_to_u16(y)?;
        validate_screen_row(screen_height, y)?;
        Ok(y)
    }

    /// `Application.QueryScreenCell(App, X, Y)`: pop and check the cell on
    /// a screen of `screen_width` x `screen_height`. The caller reads that
    /// cell of the console and hands it to [`Worker::push_queried_screen_cell`].
    pub fn tui_query_screen_cell(&mut self, screen_width: i64, screen_height: i64) -> (r: Result<(u16, u16), TuiError>)
        ensures
            spec_same_but_stack(*final(self), *old(self)),
            r == spec_query_cell(old(self).stack@, screen_width, screen_height).0,
            final(self).stack@ == spec_popped(
                old(self).stack@,
                spec_query_cell(old(self).stack@, screen_width, screen_height).1,
            ),
    {
        proof {
            lemma_popped_compose(self.stack@, 0);
            if self.stack@.len() >= 1 {
                lemma_popped_compose(self.stack@, 1);
            }
            if self.stack@.len() >= 2 {
                lemma_popped_compose(self.stack@, 2);
            }
        }
        let y = self.pop_int()?;
        let x = self.pop_int()?;
        self.pop_tui_application()?;
        let x = screen_column_to_u16(x)?;
        let y = screen_row_to_u16(y)?;
        validate_screen_cell(screen_width, screen_height, x, y)?;
        Ok((x, y))
    }

    /// Push the `ScreenCell` record of a queried cell; `None` (the console
    /// has no cell there in CRT colors) is an error and pushes nothing.
    pub fn push_queried_screen_cell(&mut self, cell: Option<(char, u8, u8)>) -> (r: Result<(), TuiError>)
        ensures
            spec_same_but_stack(*final(self), *old(self)),
            match cell {
                None => r == Err::<(), TuiError>(TuiError::ScreenCellUnavailable)
                    && final(self).stack@ == old(self).stack@,
                Some((ch, fg, bg)) => {
                    &&& r is Ok
                    &&& final(self).stack@.drop_last() == old(self).stack@
                    &&& final(self).stack@.len() == old(self).stack@.len() + 1
                    &&& final(self).stack@.last() matches Value::Record { record_type, fields }
                        && record_type@ == TUI_SCREEN_CELL_TYPE@ && fields@.len() == 3
                        && fields@[0].0@ == "ch"@ && (fields@[0].1 matches Value::Str(s) && s@ == seq![ch])
                        && fields@[1].0@ == "fg"@ && fields@[1].1 == Value::Integer(fg as i64)
                        && fields@[2].0@ == "bg"@ && fields@[2].1 == Value::Integer(bg as i64)
                },
            },
    {
        match cell {
            None => Err(TuiError::ScreenCellUnavailable),
            Some((ch, fg, bg)) => {
                let record = tui_screen_cell_record(ch, fg, bg);
                self.push(record);
                assert(self.stack@.drop_last() =~= old(self).stack@);
                Ok(())
            },
        }
    }

    /// Answer a control-state query about a control in state `snapshot`:
    /// push its state record, or fail when the control is of another kind.
    pub fn push_control_state(&mut self, query: ControlQuery, snapshot: ControlSnapshot) -> (r: Result<(), TuiError>)
        ensures
            spec_same_but_stack(*final(self), *old(self)),
            match r {
                Ok(_) => final(self).stack@.len() == old(self).stack@.len() + 1
                    && final(self).stack@.drop_last() == old(self).stack@
                    && spec_control_state_record(query, snapshot, final(self).stack@.last()),
                Err(e) => e == TuiError::WrongControlKind && final(self).stack@ == old(self).stack@,
            },
            r is Ok <==> spec_query_matches(query, snapshot),
    {
        let record = control_state_record(query, snapshot)?;
        self.push(record);
        assert(self.stack@.drop_last() =~= old(self).stack@);
        Ok(())
    }
}

} // verus!
