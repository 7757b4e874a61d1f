//! Stack arguments and results of the native `Std.Tui` host API: arrays of
//! host records, optional values, view ids, and the screen queries'
//! coordinate checks.
use vstd::prelude::*;
use crate::error::TuiError;
use crate::host_records::{
    ListBoxItem, MenuBarItem, RadioOption, StatusBarSegment, TUI_SCREEN_CELL_TYPE, TUI_SIZE_TYPE, TUI_VIEW_ID_TYPE,
    decode_list_box_item, decode_menu_bar_item, decode_radio_option, decode_status_bar_segment,
    spec_decode_list_box_item, spec_decode_menu_bar_item, spec_decode_radio_option, spec_decode_status_bar_segment,
    spec_menu_bar_item_view,
};
use crate::decode::{TUI_APPLICATION_TYPE, TUI_RECT_TYPE};
use crate::records::{lemma_decode_each_prefix_error, spec_decode_each};
use crate::value::{Field, Value, find_field, spec_find_field};
use crate::worker::{Worker, spec_arg, spec_popped, spec_same_but_stack};

verus! {

/// Decode an array argument element by element with `f`; a non-array is a
/// type mismatch.
pub open spec fn spec_decode_array<T>(v: Value, f: spec_fn(Value) -> Result<T, TuiError>) -> Result<Seq<T>, TuiError> {
    match v {
        Value::Array(vs) => spec_decode_each(vs@, f),
        _ => Err(TuiError::WrongValueKind),
    }
}

pub open spec fn menu_bar_item_decoder() -> spec_fn(Value) -> Result<
    (Seq<char>, Seq<char>, bool, i64, Seq<(Seq<char>, Seq<char>, bool, i64, bool)>),
    TuiError,
> {
    |v: Value| spec_decode_menu_bar_item(v)
}

pub open spec fn status_bar_segment_decoder() -> spec_fn(Value) -> Result<(Seq<char>, bool), TuiError> {
    |v: Value| spec_decode_status_bar_segment(v)
}

pub open spec fn list_box_item_decoder() -> spec_fn(Value) -> Result<(Seq<char>, Option<i64>, bool), TuiError> {
    |v: Value| spec_decode_list_box_item(v)
}

pub open spec fn radio_option_decoder() -> spec_fn(Value) -> Result<(Seq<char>, Option<char>, Option<i64>, bool), TuiError> {
    |v: Value| spec_decode_radio_option(v)
}

/// A line of a string-lines argument.
pub open spec fn spec_decode_line(v: Value) -> Result<Seq<char>, TuiError> {
    match v {
        Value::Str(s) => Ok(s@),
        _ => Err(TuiError::WrongValueKind),
    }
}

pub open spec fn line_decoder() -> spec_fn(Value) -> Result<Seq<char>, TuiError> {
    |v: Value| spec_decode_line(v)
}

pub open spec fn spec_menu_bar_item_views(items: Seq<MenuBarItem>) -> Seq<
    (Seq<char>, Seq<char>, bool, i64, Seq<(Seq<char>, Seq<char>, bool, i64, bool)>),
> {
    items.map_values(|i: MenuBarItem| spec_menu_bar_item_view(i))
}

pub open spec fn spec_segment_views(items: Seq<StatusBarSegment>) -> Seq<(Seq<char>, bool)> {
    items.map_values(|s: StatusBarSegment| (s.text@, s.align_right))
}

pub open spec fn spec_list_item_views(items: Seq<ListBoxItem>) -> Seq<(Seq<char>, Option<i64>, bool)> {
    items.map_values(|i: ListBoxItem| (i.text@, i.command_id, i.enabled))
}

pub open spec fn spec_radio_option_views(items: Seq<RadioOption>) -> Seq<(Seq<char>, Option<char>, Option<i64>, bool)> {
    items.map_values(|o: RadioOption| (o.label@, o.accelerator, o.command_id, o.enabled))
}

pub open spec fn spec_line_views(lines: Seq<String>) -> Seq<Seq<char>> {
    lines.map_values(|s: String| s@)
}

/// Decode an `array of MenuBarItem` argument.
pub fn decode_menu_bar_items(v: &Value) -> (r: Result<Vec<MenuBarItem>, TuiError>)
    ensures
        match r {
            Ok(items) => spec_decode_array(*v, menu_bar_item_decoder()) == Ok::<_, TuiError>(spec_menu_bar_item_views(items@)),
            Err(e) => (spec_decode_array(*v, menu_bar_item_decoder()) matches Err(e2) && e2 == e),
        },
{
    let values = match v {
        Value::Array(vs) => vs,
        _ => {
            return Err(TuiError::WrongValueKind);
        },
    };
    let ghost f = menu_bar_item_decoder();
    let mut out: Vec<MenuBarItem> = Vec::new();
    let mut i: usize = 0;
    assert(spec_menu_bar_item_views(out@) =~= Seq::empty());
    assert(values@.subrange(0, 0) =~= Seq::<Value>::empty());
    while i < values.len()
        invariant
            0 <= i <= values@.len(),
            f == menu_bar_item_decoder(),
            *v == Value::Array(*values),
            spec_decode_each(values@.subrange(0, i as int), f) == Ok::<_, TuiError>(spec_menu_bar_item_views(out@)),
        decreases values.len() - i,
    {
        assert(values@.subrange(0, i + 1).drop_last() =~= values@.subrange(0, i as int));
        match decode_menu_bar_item(&values[i]) {
            Ok(item) => {
                let ghost before = out@;
                let ghost iv = spec_menu_bar_item_view(item);
                out.push(item);
                assert(spec_menu_bar_item_views(out@) =~= spec_menu_bar_item_views(before).push(iv));
            },
            Err(e) => {
                proof {
                    lemma_decode_each_prefix_error(values@, f, i + 1);
                }
                return Err(e);
            },
        }
        i = i + 1;
    }
    assert(values@.subrange(0, values@.len() as int) =~= values@);
    Ok(out)
}

/// Decode an `array of StatusBarSegment` argument.
pub fn decode_status_bar_segments(v: &Value) -> (r: Result<Vec<StatusBarSegment>, TuiError>)
    ensures
        match r {
            Ok(items) => spec_decode_array(*v, status_bar_segment_decoder()) == Ok::<_, TuiError>(spec_segment_views(items@)),
            Err(e) => (spec_decode_array(*v, status_bar_segment_decoder()) matches Err(e2) && e2 == e),
        },
{
    let values = match v {
        Value::Array(vs) => vs,
        _ => {
            return Err(TuiError::WrongValueKind);
        },
    };
    let ghost f = status_bar_segment_decoder();
    let mut out: Vec<StatusBarSegment> = Vec::new();
    let mut i: usize = 0;
    assert(spec_segment_views(out@) =~= Seq::empty());
    assert(values@.subrange(0, 0) =~= Seq::<Value>::empty());
    while i < values.len()
        invariant
            0 <= i <= values@.len(),
            f == status_bar_segment_decoder(),
            *v == Value::Array(*values),
            spec_decode_each(values@.subrange(0, i as int), f) == Ok::<_, TuiError>(spec_segment_views(out@)),
        decreases values.len() - i,
    {
        assert(values@.subrange(0, i + 1).drop_last() =~= values@.subrange(0, i as int));
        match decode_status_bar_segment(&values[i]) {
            Ok(item) => {
                let ghost before = out@;
                let ghost iv = (item.text@, item.align_right);
                out.push(item);
                assert(spec_segment_views(out@) =~= spec_segment_views(before).push(iv));
            },
            Err(e) => {
                proof {
                    lemma_decode_each_prefix_error(values@, f, i + 1);
                }
                return Err(e);
            },
        }
        i = i + 1;
    }
    assert(values@.subrange(0, values@.len() as int) =~= values@);
    Ok(out)
}

/// Decode an `array of ListBoxItem` argument.
pub fn decode_list_box_items(v: &Value) -> (r: Result<Vec<ListBoxItem>, TuiError>)
    ensures
        match r {
            Ok(items) => spec_decode_array(*v, list_box_item_decoder()) == Ok::<_, TuiError>(spec_list_item_views(items@)),
            Err(e) => (spec_decode_array(*v, list_box_item_decoder()) matches Err(e2) && e2 == e),
        },
{
    let values = match v {
        Value::Array(vs) => vs,
        _ => {
            return Err(TuiError::WrongValueKind);
        },
    };
    let ghost f = list_box_item_decoder();
    let mut out: Vec<ListBoxItem> = Vec::new();
    let mut i: usize = 0;
    assert(spec_list_item_views(out@) =~= Seq::empty());
    assert(values@.subrange(0, 0) =~= Seq::<Value>::empty());
    while i < values.len()
        invariant
            0 <= i <= values@.len(),
            f == list_box_item_decoder(),
            *v == Value::Array(*values),
            spec_decode_each(values@.subrange(0, i as int), f) == Ok::<_, TuiError>(spec_list_item_views(out@)),
        decreases values.len() - i,
    {
        assert(values@.subrange(0, i + 1).drop_last() =~= values@.subrange(0, i as int));
        match decode_list_box_item(&values[i]) {
            Ok(item) => {
                let ghost before = out@;
                let ghost iv = (item.text@, item.command_id, item.enabled);
                out.push(item);
                assert(spec_list_item_views(out@) =~= spec_list_item_views(before).push(iv));
            },
            Err(e) => {
                proof {
                    lemma_decode_each_prefix_error(values@, f, i + 1);
                }
                return Err(e);
            },
        }
        i = i + 1;
    }
    assert(values@.subrange(0, values@.len() as int) =~= values@);
    Ok(out)
}

/// Decode an `array of RadioOption` argument.
pub fn decode_radio_options(v: &Value) -> (r: Result<Vec<RadioOption>, TuiError>)
    ensures
        match r {
            Ok(items) => spec_decode_array(*v, radio_option_decoder()) == Ok::<_, TuiError>(spec_radio_option_views(items@)),
            Err(e) => (spec_decode_array(*v, radio_option_decoder()) matches Err(e2) && e2 == e),
        },
{
    let values = match v {
        Value::Array(vs) => vs,
        _ => {
            return Err(TuiError::WrongValueKind);
        },
    };
    let ghost f = radio_option_decoder();
    let mut out: Vec<RadioOption> = Vec::new();
    let mut i: usize = 0;
    assert(spec_radio_option_views(out@) =~= Seq::empty());
    assert(values@.subrange(0, 0) =~= Seq::<Value>::empty());
    while i < values.len()
        invariant
            0 <= i <= values@.len(),
            f == radio_option_decoder(),
            *v == Value::Array(*values),
            spec_decode_each(values@.subrange(0, i as int), f) == Ok::<_, TuiError>(spec_radio_option_views(out@)),
        decreases values.len() - i,
    {
        assert(values@.subrange(0, i + 1).drop_last() =~= values@.subrange(0, i as int));
        match decode_radio_option(&values[i]) {
            Ok(item) => {
                let ghost before = out@;
                let ghost iv = (item.label@, item.accelerator, item.command_id, item.enabled);
                out.push(item);
                assert(spec_radio_option_views(out@) =~= spec_radio_option_views(before).push(iv));
            },
            Err(e) => {
                proof {
                    lemma_decode_each_prefix_error(values@, f, i + 1);
                }
                return Err(e);
            },
        }
        i = i + 1;
    }
    assert(values@.subrange(0, values@.len() as int) =~= values@);
    Ok(out)
}

/// Decode an `array of string` lines argument.
pub fn decode_string_lines(v: &Value) -> (r: Result<Vec<String>, TuiError>)
    ensures
        match r {
            Ok(lines) => spec_decode_array(*v, line_decoder()) == Ok::<_, TuiError>(spec_line_views(lines@)),
            Err(e) => (spec_decode_array(*v, line_decoder()) matches Err(e2) && e2 == e),
        },
{
    let values = match v {
        Value::Array(vs) => vs,
        _ => {
            return Err(TuiError::WrongValueKind);
        },
    };
    let ghost f = line_decoder();
    let mut out: Vec<String> = Vec::new();
    let mut i: usize = 0;
    assert(spec_line_views(out@) =~= Seq::empty());
    assert(values@.subrange(0, 0) =~= Seq::<Value>::empty());
    while i < values.len()
        invariant
            0 <= i <= values@.len(),
            f == line_decoder(),
            *v == Value::Array(*values),
            spec_decode_each(values@.subrange(0, i as int), f) == Ok::<_, TuiError>(spec_line_views(out@)),
        decreases values.len() - i,
    {
        assert(values@.subrange(0, i + 1).drop_last() =~= values@.subrange(0, i as int));
        match &values[i] {
            Value::Str(text) => {
                let ghost before = out@;
                let t = text.clone();
                out.push(t);
                assert(spec_line_views(out@) =~= spec_line_views(before).push(text@));
            },
            _ => {
                proof {
                    lemma_decode_each_prefix_error(values@, f, i + 1);
                }
                return Err(TuiError::WrongValueKind);
            },
        }
        i = i + 1;
    }
    assert(values@.subrange(0, values@.len() as int) =~= values@);
    Ok(out)
}

// ---------------------------------------------------------------- optional values and view ids

/// An `Option of integer` operand.
pub open spec fn spec_optional_integer_operand(v: Value) -> Result<Option<i64>, TuiError> {
    match v {
        Value::OptionNone => Ok(None),
        Value::OptionSome(inner) => match *inner {
            Value::Integer(n) => Ok(Some(n)),
            _ => Err(TuiError::WrongOptionOperand),
        },
        _ => Err(TuiError::WrongOptionOperand),
    }
}

/// An `Option of char` operand.
pub open spec fn spec_optional_char_operand(v: Value) -> Result<Option<char>, TuiError> {
    match v {
        Value::OptionNone => Ok(None),
        Value::OptionSome(inner) => match *inner {
            Value::Char(c) => Ok(Some(c)),
            _ => Err(TuiError::WrongOptionOperand),
        },
        _ => Err(TuiError::WrongOptionOperand),
    }
}

/// The host token of a `ViewId` record (a negative token is refused; a
/// larger one keeps its low 32 bits).
pub open spec fn spec_view_id_from_value(v: Value) -> Result<u32, TuiError> {
    match v {
        Value::Record { record_type, fields } => if record_type@ == TUI_VIEW_ID_TYPE@ {
            match spec_find_field(fields@, "__id"@) {
                Some(Value::Integer(raw)) => if raw < 0 {
                    Err(TuiError::ViewIdOutOfRange)
                } else {
                    Ok(raw as u32)
                },
                _ => Err(TuiError::MissingHandleToken),
            }
        } else {
            Err(TuiError::NotAViewId)
        },
        _ => Err(TuiError::NotAViewId),
    }
}

/// Read the host token of a `ViewId` value.
pub fn tui_view_id_from_value(v: &Value) -> (r: Result<u32, TuiError>)
    ensures
        r == spec_view_id_from_value(*v),
{
    match v {
        Value::Record { record_type, fields } => {
            if !crate::value::str_eq(record_type.as_str(), TUI_VIEW_ID_TYPE) {
                return Err(TuiError::NotAViewId);
            }
            match find_field(fields, "__id") {
                Some(Value::Integer(raw)) => {
                    let raw = *raw;
                    if raw < 0 {
                        Err(TuiError::ViewIdOutOfRange)
                    } else {
                        Ok(#[verifier::truncate] (raw as u32))
                    }
                },
                _ => Err(TuiError::MissingHandleToken),
            }
        },
        _ => Err(TuiError::NotAViewId),
    }
}

/// `v` is a record of type `ty` whose fields, in order, are named `names`
/// and hold `values`.
pub open spec fn spec_is_record(v: Value, ty: Seq<char>, names: Seq<Seq<char>>, values: Seq<Value>) -> bool {
    match v {
        Value::Record { record_type, fields } => {
            &&& record_type@ == ty
            &&& fields@.len() == names.len()
            &&& names.len() == values.len()
            &&& forall|i: int| 0 <= i < names.len() ==> (#[trigger] fields@[i]).0@ == names[i] && fields@[i].1 == values[i]
        },
        _ => false,
    }
}

/// The empty `Application` record.
pub fn tui_application_record() -> (v: Value)
    ensures
        spec_is_record(v, TUI_APPLICATION_TYPE@, Seq::empty(), Seq::empty()),
{
    Value::Record { record_type: String::from_str(TUI_APPLICATION_TYPE), fields: Vec::new() }
}

/// The `ViewId` record carrying `view_id`.
pub fn tui_view_id_record(view_id: u32) -> (v: Value)
    ensures
        spec_is_record(v, TUI_VIEW_ID_TYPE@, seq!["__id"@], seq![Value::Integer(view_id as i64)]),
{
    let mut fields: Vec<Field> = Vec::new();
    fields.push((String::from_str("__id"), Value::Integer(view_id as i64)));
    Value::Record { record_type: String::from_str(TUI_VIEW_ID_TYPE), fields }
}

/// The `Size` record `(width, height)`.
pub fn tui_size_record(width: i64, height: i64) -> (v: Value)
    ensures
        spec_is_record(v, TUI_SIZE_TYPE@, seq!["width"@, "height"@], seq![Value::Integer(width), Value::Integer(height)]),
{
    let mut fields: Vec<Field> = Vec::new();
    fields.push((String::from_str("width"), Value::Integer(width)));
    fields.push((String::from_str("height"), Value::Integer(height)));
    Value::Record { record_type: String::from_str(TUI_SIZE_TYPE), fields }
}

/// The `Rect` record `(x, y, width, height)`.
pub fn tui_rect_record(x: i64, y: i64, width: i64, height: i64) -> (v: Value)
    ensures
        spec_is_record(
            v,
            TUI_RECT_TYPE@,
            seq!["x"@, "y"@, "width"@, "height"@],
            seq![Value::Integer(x), Value::Integer(y), Value::Integer(width), Value::Integer(height)],
        ),
{
    let mut fields: Vec<Field> = Vec::new();
    fields.push((String::from_str("x"), Value::Integer(x)));
    fields.push((String::from_str("y"), Value::Integer(y)));
    fields.push((String::from_str("width"), Value::Integer(width)));
    fields.push((String::from_str("height"), Value::Integer(height)));
    Value::Record { record_type: String::from_str(TUI_RECT_TYPE), fields }
}

/// `char::to_string` (std): the string holding just `ch`.
#[verifier::external_body]
fn char_to_string(ch: char) -> (s: String)
    ensures
        s@ == seq![ch],
{
    ch.to_string()
}

/// The `ScreenCell` record of a painted cell: its character as a
/// one-character string and its colors.
pub fn tui_screen_cell_record(ch: char, fg: u8, bg: u8) -> (v: Value)
    ensures
        v matches Value::Record { record_type, fields } && record_type@ == TUI_SCREEN_CELL_TYPE@ && fields@.len() == 3
            && fields@[0].0@ == "ch"@ && (fields@[0].1 matches Value::Str(s) && s@ == seq![ch])
            && fields@[1].0@ == "fg"@ && fields@[1].1 == Value::Integer(fg as i64)
            && fields@[2].0@ == "bg"@ && fields@[2].1 == Value::Integer(bg as i64),
{
    let text = char_to_string(ch);
    let mut fields: Vec<Field> = Vec::new();
    fields.push((String::from_str("ch"), Value::Str(text)));
    fields.push((String::from_str("fg"), Value::Integer(fg as i64)));
    fields.push((String::from_str("bg"), Value::Integer(bg as i64)));
    Value::Record { record_type: String::from_str(TUI_SCREEN_CELL_TYPE), fields }
}

// ---------------------------------------------------------------- screen coordinates

/// A one-based screen coordinate in `1..=u16::MAX`.
pub open spec fn spec_screen_coordinate(v: i64) -> Result<u16, TuiError> {
    if v <= 0 || v > u16::MAX {
        Err(TuiError::ScreenCoordinateOutOfRange)
    } else {
        Ok(v as u16)
    }
}

/// A queried row, one-based.
pub fn screen_row_to_u16(y: i64) -> (r: Result<u16, TuiError>)
    ensures
        r == spec_screen_coordinate(y),
{
    if y <= 0 || y > 65535 {
        return Err(TuiError::ScreenCoordinateOutOfRange);
    }
    Ok(y as u16)
}

/// A queried column, one-based.
pub fn screen_column_to_u16(x: i64) -> (r: Result<u16, TuiError>)
    ensures
        r == spec_screen_coordinate(x),
{
    if x <= 0 || x > 65535 {
        return Err(TuiError::ScreenCoordinateOutOfRange);
    }
    Ok(x as u16)
}

/// A row lies on a screen `screen_height` rows high.
pub fn validate_screen_row(screen_height: i64, y: u16) -> (r: Result<(), TuiError>)
    ensures
        r == if y > screen_height { Err(TuiError::OutsideScreen) } else { Ok::<(), TuiError>(()) },
{
    if y as i64 > screen_height {
        return Err(TuiError::OutsideScreen);
    }
    Ok(())
}

/// A cell lies on a screen of `screen_width` x `screen_height`; the row is
/// checked first.
pub fn validate_screen_cell(screen_width: i64, screen_height: i64, x: u16, y: u16) -> (r: Result<(), TuiError>)
    ensures
        r == if y > screen_height || x > screen_width { Err(TuiError::OutsideScreen) } else { Ok::<(), TuiError>(()) },
{
    validate_screen_row(screen_height, y)?;
    if x as i64 > screen_width {
        return Err(TuiError::OutsideScreen);
    }
    Ok(())
}

/// A test screen dimension in `1..=u16::MAX`.
pub fn test_dimension_to_u16(value: i64) -> (r: Result<u16, TuiError>)
    ensures
        r == if value <= 0 || value > u16::MAX { Err(TuiError::TestDimensionOutOfRange) } else { Ok(value as u16) },
{
    if value <= 0 || value > 65535 {
        return Err(TuiError::TestDimensionOutOfRange);
    }
    Ok(value as u16)
}

// ---------------------------------------------------------------- stack arguments

impl Worker {
    /// Pop an `array of MenuBarItem`.
    pub fn pop_menu_bar_items(&mut self) -> (r: Result<Vec<MenuBarItem>, TuiError>)
        ensures
            spec_same_but_stack(*final(self), *old(self)),
            old(self).stack@.len() == 0 ==> (r matches Err(e) && e == TuiError::StackUnderflow) && final(self).stack@ == old(self).stack@,
            old(self).stack@.len() > 0 ==> final(self).stack@ == spec_popped(old(self).stack@, 1) && match r {
                Ok(items) => spec_decode_array(spec_arg(old(self).stack@, 0), menu_bar_item_decoder()) == Ok::<_, TuiError>(spec_menu_bar_item_views(items@)),
                Err(e) => (spec_decode_array(spec_arg(old(self).stack@, 0), menu_bar_item_decoder()) matches Err(e2) && e2 == e),
            },
    {
        let v = self.pop()?;
        decode_menu_bar_items(&v)
    }

    /// Pop an `array of StatusBarSegment`.
    pub fn pop_status_bar_segments(&mut self) -> (r: Result<Vec<StatusBarSegment>, TuiError>)
        ensures
            spec_same_but_stack(*final(self), *old(self)),
            old(self).stack@.len() == 0 ==> (r matches Err(e) && e == TuiError::StackUnderflow) && final(self).stack@ == old(self).stack@,
            old(self).stack@.len() > 0 ==> final(self).stack@ == spec_popped(old(self).stack@, 1) && match r {
                Ok(items) => spec_decode_array(spec_arg(old(self).stack@, 0), status_bar_segment_decoder()) == Ok::<_, TuiError>(spec_segment_views(items@)),
                Err(e) => (spec_decode_array(spec_arg(old(self).stack@, 0), status_bar_segment_decoder()) matches Err(e2) && e2 == e),
            },
    {
        let v = self.pop()?;
        decode_status_bar_segments(&v)
    }

    /// Pop an `array of ListBoxItem`.
    pub fn pop_list_box_items(&mut self) -> (r: Result<Vec<ListBoxItem>, TuiError>)
        ensures
            spec_same_but_stack(*final(self), *old(self)),
            old(self).stack@.len() == 0 ==> (r matches Err(e) && e == TuiError::StackUnderflow) && final(self).stack@ == old(self).stack@,
            old(self).stack@.len() > 0 ==> final(self).stack@ == spec_popped(old(self).stack@, 1) && match r {
                Ok(items) => spec_decode_array(spec_arg(old(self).stack@, 0), list_box_item_decoder()) == Ok::<_, TuiError>(spec_list_item_views(items@)),
                Err(e) => (spec_decode_array(spec_arg(old(self).stack@, 0), list_box_item_decoder()) matches Err(e2) && e2 == e),
            },
    {
        let v = self.pop()?;
        decode_list_box_items(&v)
    }

    /// Pop an `array of RadioOption`.
    pub fn pop_radio_options(&mut self) -> (r: Result<Vec<RadioOption>, TuiError>)
        ensures
            spec_same_but_stack(*final(self), *old(self)),
            old(self).stack@.len() == 0 ==> (r matches Err(e) && e == TuiError::StackUnderflow) && final(self).stack@ == old(self).stack@,
            old(self).stack@.len() > 0 ==> final(self).stack@ == spec_popped(old(self).stack@, 1) && match r {
                Ok(items) => spec_decode_array(spec_arg(old(self).stack@, 0), radio_option_decoder()) == Ok::<_, TuiError>(spec_radio_option_views(items@)),
                Err(e) => (spec_decode_array(spec_arg(old(self).stack@, 0), radio_option_decoder()) matches Err(e2) && e2 == e),
            },
    {
        let v = self.pop()?;
        decode_radio_options(&v)
    }

    /// Pop an `array of string` of lines.
    pub fn pop_string_lines(&mut self) -> (r: Result<Vec<String>, TuiError>)
        ensures
            spec_same_but_stack(*final(self), *old(self)),
            old(self).stack@.len() == 0 ==> (r matches Err(e) && e == TuiError::StackUnderflow) && final(self).stack@ == old(self).stack@,
            old(self).stack@.len() > 0 ==> final(self).stack@ == spec_popped(old(self).stack@, 1) && match r {
                Ok(lines) => spec_decode_array(spec_arg(old(self).stack@, 0), line_decoder()) == Ok::<_, TuiError>(spec_line_views(lines@)),
                Err(e) => (spec_decode_array(spec_arg(old(self).stack@, 0), line_decoder()) matches Err(e2) && e2 == e),
            },
    {
        let v = self.pop()?;
        decode_string_lines(&v)
    }

    /// Pop a string argument.
    pub fn pop_control_string(&mut self) -> (r: Result<String, TuiError>)
        ensures
            spec_same_but_stack(*final(self), *old(self)),
            old(self).stack@.len() == 0 ==> (r matches Err(e) && e == TuiError::StackUnderflow) && final(self).stack@ == old(self).stack@,
            old(self).stack@.len() > 0 ==> final(self).stack@ == spec_popped(old(self).stack@, 1) && match r {
                Ok(s) => spec_decode_line(spec_arg(old(self).stack@, 0)) == Ok::<Seq<char>, TuiError>(s@),
                Err(e) => spec_decode_line(spec_arg(old(self).stack@, 0)) == Err::<Seq<char>, TuiError>(e),
            },
    {
        match self.pop()? {
            Value::Str(s) => Ok(s),
            _ => Err(TuiError::WrongValueKind),
        }
    }

    /// Pop an `Option of string` argument.
    pub fn pop_optional_string(&mut self) -> (r: Result<Option<String>, TuiError>)
        ensures
            spec_same_but_stack(*final(self), *old(self)),
            old(self).stack@.len() == 0 ==> (r matches Err(e) && e == TuiError::StackUnderflow) && final(self).stack@ == old(self).stack@,
            old(self).stack@.len() > 0 ==> final(self).stack@ == spec_popped(old(self).stack@, 1) && match r {
                Ok(Some(s)) => crate::decode::spec_decode_optional_string(spec_arg(old(self).stack@, 0)) == Ok::<Option<Seq<char>>, TuiError>(Some(s@)),
                Ok(None) => crate::decode::spec_decode_optional_string(spec_arg(old(self).stack@, 0)) == Ok::<Option<Seq<char>>, TuiError>(None),
                Err(e) => crate::decode::spec_decode_optional_string(spec_arg(old(self).stack@, 0)) == Err::<Option<Seq<char>>, TuiError>(e),
            },
    {
        let v = self.pop()?;
        crate::decode::decode_optional_string(v)
    }

    /// Push `Some(text)` or `None`.
    pub fn push_optional_string(&mut self, value: Option<String>)
        ensures
            spec_same_but_stack(*final(self), *old(self)),
            final(self).stack@.len() == old(self).stack@.len() + 1,
            final(self).stack@.drop_last() == old(self).stack@,
            match value {
                Some(t) => final(self).stack@.last() matches Value::OptionSome(inner) && (*inner matches Value::Str(s) && s@ == t@),
                None => final(self).stack@.last() == Value::OptionNone,
            },
    {
        let ghost s0 = self.stack@;
        match value {
            Some(text) => self.push(Value::OptionSome(Box::new(Value::Str(text)))),
            None => self.push(Value::OptionNone),
        }
        assert(self.stack@.drop_last() =~= s0);
    }

    /// Pop an `Option of integer` operand.
    pub fn pop_optional_integer(&mut self) -> (r: Result<Option<i64>, TuiError>)
        ensures
            spec_same_but_stack(*final(self), *old(self)),
            old(self).stack@.len() == 0 ==> r == Err::<Option<i64>, TuiError>(TuiError::StackUnderflow) && final(self).stack@ == old(self).stack@,
            old(self).stack@.len() > 0 ==> final(self).stack@ == spec_popped(old(self).stack@, 1)
                && r == spec_optional_integer_operand(spec_arg(old(self).stack@, 0)),
    {
        match self.pop()? {
            Value::OptionNone => Ok(None),
            Value::OptionSome(inner) => match *inner {
                Value::Integer(n) => Ok(Some(n)),
                _ => Err(TuiError::WrongOptionOperand),
            },
            _ => Err(TuiError::WrongOptionOperand),
        }
    }

    /// Pop an `Option of char` operand.
    pub fn pop_optional_char(&mut self) -> (r: Result<Option<char>, TuiError>)
        ensures
            spec_same_but_stack(*final(self), *old(self)),
            old(self).stack@.len() == 0 ==> r == Err::<Option<char>, TuiError>(TuiError::StackUnderflow) && final(self).stack@ == old(self).stack@,
            old(self).stack@.len() > 0 ==> final(self).stack@ == spec_popped(old(self).stack@, 1)
                && r == spec_optional_char_operand(spec_arg(old(self).stack@, 0)),
    {
        match self.pop()? {
            Value::OptionNone => Ok(None),
            Value::OptionSome(inner) => match *inner {
                Value::Char(c) => Ok(Some(c)),
                _ => Err(TuiError::WrongOptionOperand),
            },
            _ => Err(TuiError::WrongOptionOperand),
        }
    }

    /// Pop a `ViewId` argument.
    pub fn pop_tui_view_id(&mut self) -> (r: Result<u32, TuiError>)
        ensures
            spec_same_but_stack(*final(self), *old(self)),
            old(self).stack@.len() == 0 ==> r == Err::<u32, TuiError>(TuiError::StackUnderflow) && final(self).stack@ == old(self).stack@,
            old(self).stack@.len() > 0 ==> final(self).stack@ == spec_popped(old(self).stack@, 1)
                && r == spec_view_id_from_value(spec_arg(old(self).stack@, 0)),
    {
        let v = self.pop()?;
        tui_view_id_from_value(&v)
    }
}

} // verus!
