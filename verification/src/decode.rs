//! Decoding of `Std.Tui` handle, rect, string and option values.
use vstd::prelude::*;
use crate::error::TuiError;
use crate::value::{Field, Value, spec_find_field, spec_find_field_ci, str_eq, find_field, find_field_ci};

verus! {

pub const HANDLE_FIELD: &'static str = "__id";
pub const TUI_DIALOG_TYPE: &'static str = "Std.Tui.Dialog";
pub const TUI_WINDOW_TYPE: &'static str = "Std.Tui.Window";
pub const TUI_BUTTON_TYPE: &'static str = "Std.Tui.Button";
pub const TUI_STATIC_TEXT_TYPE: &'static str = "Std.Tui.StaticText";
pub const TUI_MEMO_TYPE: &'static str = "Std.Tui.Memo";
pub const TUI_TEXT_VIEWER_TYPE: &'static str = "Std.Tui.TextViewer";
pub const TUI_INPUT_LINE_TYPE: &'static str = "Std.Tui.InputLine";
pub const TUI_DIALOG_RESULT_TYPE: &'static str = "Std.Tui.DialogResult";
pub const TUI_LIST_BOX_TYPE: &'static str = "Std.Tui.ListBox";
pub const TUI_OUTLINE_TYPE: &'static str = "Std.Tui.Outline";
pub const TUI_CHECK_BOX_TYPE: &'static str = "Std.Tui.CheckBox";
pub const TUI_RADIO_BUTTON_TYPE: &'static str = "Std.Tui.RadioButton";
pub const TUI_MENU_BAR_TYPE: &'static str = "Std.Tui.MenuBar";
pub const TUI_STATUS_LINE_TYPE: &'static str = "Std.Tui.StatusLine";
pub const TUI_RECT_TYPE: &'static str = "Std.Tui.Rect";
pub const TUI_APPLICATION_TYPE: &'static str = "Std.Tui.Application";

/// A rectangle as stored for a Turbo Vision object: origin and size.
#[derive(Debug, Clone, Copy, PartialEq, Eq, Structural)]
pub struct TvRect {
    pub x: i16,
    pub y: i16,
    pub width: i16,
    pub height: i16,
}

/// Handle of a control that can be added to a dialog or window.
#[derive(Debug, Clone, Copy, PartialEq, Eq, Structural)]
pub enum TurboVisionChildHandle {
    Button(u32),
    StaticText(u32),
    Memo(u32),
    TextViewer(u32),
    InputLine(u32),
    ListBox(u32),
    Outline(u32),
    CheckBox(u32),
    RadioButton(u32),
}

/// Handle of a container that accepts child controls.
#[derive(Debug, Clone, Copy, PartialEq, Eq, Structural)]
pub enum TurboVisionParentHandle {
    Dialog(u32),
    Window(u32),
}

/// Handle of a control with a checked or selected state.
#[derive(Debug, Clone, Copy, PartialEq, Eq, Structural)]
pub enum CheckedControlHandle {
    CheckBox(u32),
    RadioButton(u32),
}

impl TurboVisionChildHandle {
    pub open spec fn spec_handle(self) -> u32 {
        match self {
            TurboVisionChildHandle::Button(h) => h,
            TurboVisionChildHandle::StaticText(h) => h,
            TurboVisionChildHandle::Memo(h) => h,
            TurboVisionChildHandle::TextViewer(h) => h,
            TurboVisionChildHandle::InputLine(h) => h,
            TurboVisionChildHandle::ListBox(h) => h,
            TurboVisionChildHandle::Outline(h) => h,
            TurboVisionChildHandle::CheckBox(h) => h,
            TurboVisionChildHandle::RadioButton(h) => h,
        }
    }

    pub open spec fn spec_label(self) -> Seq<char> {
        match self {
            TurboVisionChildHandle::Button(_) => "Button"@,
            TurboVisionChildHandle::StaticText(_) => "StaticText"@,
            TurboVisionChildHandle::Memo(_) => "Memo"@,
            TurboVisionChildHandle::TextViewer(_) => "TextViewer"@,
            TurboVisionChildHandle::InputLine(_) => "InputLine"@,
            TurboVisionChildHandle::ListBox(_) => "ListBox"@,
            TurboVisionChildHandle::Outline(_) => "Outline"@,
            TurboVisionChildHandle::CheckBox(_) => "CheckBox"@,
            TurboVisionChildHandle::RadioButton(_) => "RadioButton"@,
        }
    }

    /// The object handle carried by this child handle.
    pub fn handle(&self) -> (handle: u32)
        ensures
            handle == self.spec_handle(),
    {
        match self {
            TurboVisionChildHandle::Button(h) => *h,
            TurboVisionChildHandle::StaticText(h) => *h,
            TurboVisionChildHandle::Memo(h) => *h,
            TurboVisionChildHandle::TextViewer(h) => *h,
            TurboVisionChildHandle::InputLine(h) => *h,
            TurboVisionChildHandle::ListBox(h) => *h,
            TurboVisionChildHandle::Outline(h) => *h,
            TurboVisionChildHandle::CheckBox(h) => *h,
            TurboVisionChildHandle::RadioButton(h) => *h,
        }
    }

    /// The control kind name used in diagnostics.
    pub fn label(&self) -> (label: &'static str)
        ensures
            label@ == self.spec_label(),
    {
        match self {
            TurboVisionChildHandle::Button(_) => "Button",
            TurboVisionChildHandle::StaticText(_) => "StaticText",
            TurboVisionChildHandle::Memo(_) => "Memo",
            TurboVisionChildHandle::TextViewer(_) => "TextViewer",
            TurboVisionChildHandle::InputLine(_) => "InputLine",
            TurboVisionChildHandle::ListBox(_) => "ListBox",
            TurboVisionChildHandle::Outline(_) => "Outline",
            TurboVisionChildHandle::CheckBox(_) => "CheckBox",
            TurboVisionChildHandle::RadioButton(_) => "RadioButton",
        }
    }
}

// ---------------------------------------------------------------- handles

/// Decode the `__id` token of a handle record's fields.
pub open spec fn spec_decode_handle_fields(fields: Seq<Field>) -> Result<u32, TuiError> {
    match spec_find_field(fields, HANDLE_FIELD@) {
        Some(Value::Integer(raw)) => if 1 <= raw && raw <= u32::MAX {
            Ok(raw as u32)
        } else {
            Err(TuiError::HandleOutOfRange)
        },
        _ => Err(TuiError::MissingHandleToken),
    }
}

/// `v` is a record of type `ty`.
pub open spec fn spec_is_record_of(v: Value, ty: Seq<char>) -> bool {
    match v {
        Value::Record { record_type, .. } => record_type@ == ty,
        _ => false,
    }
}

pub open spec fn spec_record_fields(v: Value) -> Seq<Field> {
    match v {
        Value::Record { fields, .. } => fields@,
        _ => Seq::empty(),
    }
}

/// Decode a handle record of type `expected`.
pub open spec fn spec_decode_handle(v: Value, expected: Seq<char>) -> Result<u32, TuiError> {
    if spec_is_record_of(v, expected) {
        spec_decode_handle_fields(spec_record_fields(v))
    } else {
        Err(TuiError::WrongHandleType)
    }
}

/// Whether `v` is a record of type `ty`.
pub fn is_record_of(v: &Value, ty: &str) -> (is: bool)
    ensures
        is == spec_is_record_of(*v, ty@),
{
    match v {
        Value::Record { record_type, .. } => str_eq(record_type.as_str(), ty),
        _ => false,
    }
}

/// Decode the `__id` token of a handle record.
pub fn decode_turbo_vision_handle_record(fields: &Vec<Field>) -> (r: Result<u32, TuiError>)
    ensures
        r == spec_decode_handle_fields(fields@),
{
    match find_field(fields, HANDLE_FIELD) {
        Some(Value::Integer(raw)) => {
            let raw = *raw;
            if 1 <= raw && raw <= 0xFFFF_FFFFi64 {
                Ok(raw as u32)
            } else {
                Err(TuiError::HandleOutOfRange)
            }
        },
        _ => Err(TuiError::MissingHandleToken),
    }
}

/// Decode a handle of the expected record type.
pub fn decode_turbo_vision_handle(v: &Value, expected: &str) -> (r: Result<u32, TuiError>)
    ensures
        r == spec_decode_handle(*v, expected@),
{
    match v {
        Value::Record { record_type, fields } => {
            if str_eq(record_type.as_str(), expected) {
                decode_turbo_vision_handle_record(fields)
            } else {
                Err(TuiError::WrongHandleType)
            }
        },
        _ => Err(TuiError::WrongHandleType),
    }
}

/// Decode a child-control handle of any of the attachable kinds.
pub open spec fn spec_decode_child_handle(v: Value) -> Result<TurboVisionChildHandle, TuiError> {
    let f = spec_decode_handle_fields(spec_record_fields(v));
    if spec_is_record_of(v, TUI_BUTTON_TYPE@) {
        match f { Ok(h) => Ok(TurboVisionChildHandle::Button(h)), Err(e) => Err(e) }
    } else if spec_is_record_of(v, TUI_STATIC_TEXT_TYPE@) {
        match f { Ok(h) => Ok(TurboVisionChildHandle::StaticText(h)), Err(e) => Err(e) }
    } else if spec_is_record_of(v, TUI_MEMO_TYPE@) {
        match f { Ok(h) => Ok(TurboVisionChildHandle::Memo(h)), Err(e) => Err(e) }
    } else if spec_is_record_of(v, TUI_TEXT_VIEWER_TYPE@) {
        match f { Ok(h) => Ok(TurboVisionChildHandle::TextViewer(h)), Err(e) => Err(e) }
    } else if spec_is_record_of(v, TUI_INPUT_LINE_TYPE@) {
        match f { Ok(h) => Ok(TurboVisionChildHandle::InputLine(h)), Err(e) => Err(e) }
    } else if spec_is_record_of(v, TUI_LIST_BOX_TYPE@) {
        match f { Ok(h) => Ok(TurboVisionChildHandle::ListBox(h)), Err(e) => Err(e) }
    } else if spec_is_record_of(v, TUI_OUTLINE_TYPE@) {
        match f { Ok(h) => Ok(TurboVisionChildHandle::Outline(h)), Err(e) => Err(e) }
    } else if spec_is_record_of(v, TUI_CHECK_BOX_TYPE@) {
        match f { Ok(h) => Ok(TurboVisionChildHandle::CheckBox(h)), Err(e) => Err(e) }
    } else if spec_is_record_of(v, TUI_RADIO_BUTTON_TYPE@) {
        match f { Ok(h) => Ok(TurboVisionChildHandle::RadioButton(h)), Err(e) => Err(e) }
    } else {
        Err(TuiError::WrongHandleType)
    }
}

/// Decode a child-control handle (button, static text, memo, text viewer,
/// input line, list box, outline, check box or radio button).
pub fn decode_turbo_vision_child_handle(v: &Value) -> (r: Result<TurboVisionChildHandle, TuiError>)
    ensures
        r == spec_decode_child_handle(*v),
{
    let fields = match v {
        Value::Record { fields, .. } => fields,
        _ => {
            return Err(TuiError::WrongHandleType);
        },
    };
    if is_record_of(v, TUI_BUTTON_TYPE) {
        match decode_turbo_vision_handle_record(fields) {
            Ok(h) => Ok(TurboVisionChildHandle::Button(h)),
            Err(e) => Err(e),
        }
    } else if is_record_of(v, TUI_STATIC_TEXT_TYPE) {
        match decode_turbo_vision_handle_record(fields) {
            Ok(h) => Ok(TurboVisionChildHandle::StaticText(h)),
            Err(e) => Err(e),
        }
    } else if is_record_of(v, TUI_MEMO_TYPE) {
        match decode_turbo_vision_handle_record(fields) {
            Ok(h) => Ok(TurboVisionChildHandle::Memo(h)),
            Err(e) => Err(e),
        }
    } else if is_record_of(v, TUI_TEXT_VIEWER_TYPE) {
        match decode_turbo_vision_handle_record(fields) {
            Ok(h) => Ok(TurboVisionChildHandle::TextViewer(h)),
            Err(e) => Err(e),
        }
    } else if is_record_of(v, TUI_INPUT_LINE_TYPE) {
        match decode_turbo_vision_handle_record(fields) {
            Ok(h) => Ok(TurboVisionChildHandle::InputLine(h)),
            Err(e) => Err(e),
        }
    } else if is_record_of(v, TUI_LIST_BOX_TYPE) {
        match decode_turbo_vision_handle_record(fields) {
            Ok(h) => Ok(TurboVisionChildHandle::ListBox(h)),
            Err(e) => Err(e),
        }
    } else if is_record_of(v, TUI_OUTLINE_TYPE) {
        match decode_turbo_vision_handle_record(fields) {
            Ok(h) => Ok(TurboVisionChildHandle::Outline(h)),
            Err(e) => Err(e),
        }
    } else if is_record_of(v, TUI_CHECK_BOX_TYPE) {
        match decode_turbo_vision_handle_record(fields) {
            Ok(h) => Ok(TurboVisionChildHandle::CheckBox(h)),
            Err(e) => Err(e),
        }
    } else if is_record_of(v, TUI_RADIO_BUTTON_TYPE) {
        match decode_turbo_vision_handle_record(fields) {
            Ok(h) => Ok(TurboVisionChildHandle::RadioButton(h)),
            Err(e) => Err(e),
        }
    } else {
        Err(TuiError::WrongHandleType)
    }
}

/// Decode a dialog or window handle.
pub open spec fn spec_decode_parent_handle(v: Value) -> Result<TurboVisionParentHandle, TuiError> {
    let f = spec_decode_handle_fields(spec_record_fields(v));
    if spec_is_record_of(v, TUI_DIALOG_TYPE@) {
        match f { Ok(h) => Ok(TurboVisionParentHandle::Dialog(h)), Err(e) => Err(e) }
    } else if spec_is_record_of(v, TUI_WINDOW_TYPE@) {
        match f { Ok(h) => Ok(TurboVisionParentHandle::Window(h)), Err(e) => Err(e) }
    } else {
        Err(TuiError::WrongHandleType)
    }
}

/// Decode a dialog or window handle.
pub fn decode_turbo_vision_parent_handle(v: &Value) -> (r: Result<TurboVisionParentHandle, TuiError>)
    ensures
        r == spec_decode_parent_handle(*v),
{
    let fields = match v {
        Value::Record { fields, .. } => fields,
        _ => {
            return Err(TuiError::WrongHandleType);
        },
    };
    if is_record_of(v, TUI_DIALOG_TYPE) {
        match decode_turbo_vision_handle_record(fields) {
            Ok(h) => Ok(TurboVisionParentHandle::Dialog(h)),
            Err(e) => Err(e),
        }
    } else if is_record_of(v, TUI_WINDOW_TYPE) {
        match decode_turbo_vision_handle_record(fields) {
            Ok(h) => Ok(TurboVisionParentHandle::Window(h)),
            Err(e) => Err(e),
        }
    } else {
        Err(TuiError::WrongHandleType)
    }
}

/// Decode a check box or radio button handle.
pub open spec fn spec_decode_checked_control_handle(v: Value) -> Result<CheckedControlHandle, TuiError> {
    let f = spec_decode_handle_fields(spec_record_fields(v));
    if spec_is_record_of(v, TUI_CHECK_BOX_TYPE@) {
        match f { Ok(h) => Ok(CheckedControlHandle::CheckBox(h)), Err(e) => Err(e) }
    } else if spec_is_record_of(v, TUI_RADIO_BUTTON_TYPE@) {
        match f { Ok(h) => Ok(CheckedControlHandle::RadioButton(h)), Err(e) => Err(e) }
    } else {
        Err(TuiError::WrongHandleType)
    }
}

/// Decode a check box or radio button handle.
pub fn decode_turbo_vision_checked_control_handle(v: &Value) -> (r: Result<CheckedControlHandle, TuiError>)
    ensures
        r == spec_decode_checked_control_handle(*v),
{
    let fields = match v {
        Value::Record { fields, .. } => fields,
        _ => {
            return Err(TuiError::WrongHandleType);
        },
    };
    if is_record_of(v, TUI_CHECK_BOX_TYPE) {
        match decode_turbo_vision_handle_record(fields) {
            Ok(h) => Ok(CheckedControlHandle::CheckBox(h)),
            Err(e) => Err(e),
        }
    } else if is_record_of(v, TUI_RADIO_BUTTON_TYPE) {
        match decode_turbo_vision_handle_record(fields) {
            Ok(h) => Ok(CheckedControlHandle::RadioButton(h)),
            Err(e) => Err(e),
        }
    } else {
        Err(TuiError::WrongHandleType)
    }
}

/// Build the FPAS handle record of the given type for `handle`.
pub fn turbo_vision_handle_record(record_type: &str, handle: u32) -> (v: Value)
    ensures
        spec_is_record_of(v, record_type@),
        spec_record_fields(v).len() == 1,
        spec_record_fields(v)[0].0@ == HANDLE_FIELD@,
        spec_record_fields(v)[0].1 == Value::Integer(handle as i64),
{
    let mut fields: Vec<Field> = Vec::new();
    fields.push((String::from_str(HANDLE_FIELD), Value::Integer(handle as i64)));
    Value::Record { record_type: String::from_str(record_type), fields }
}


// ---------------------------------------------------------------- record fields

/// A field looked up without ASCII case; absent fields are operand errors.
pub open spec fn spec_required_record_field(fields: Seq<Field>, name: Seq<char>) -> Result<Value, TuiError> {
    match spec_find_field_ci(fields, name) {
        Some(v) => Ok(v),
        None => Err(TuiError::MissingField),
    }
}

/// Look up a required field by name (ASCII case-insensitive).
pub fn required_record_field<'a>(fields: &'a Vec<Field>, name: &str) -> (r: Result<&'a Value, TuiError>)
    ensures
        match r {
            Ok(v) => spec_required_record_field(fields@, name@) == Ok::<Value, TuiError>(*v),
            Err(e) => spec_required_record_field(fields@, name@) == Err::<Value, TuiError>(e),
        },
{
    match find_field_ci(fields, name) {
        Some(v) => Ok(v),
        None => Err(TuiError::MissingField),
    }
}

/// An integer field (ASCII case-insensitive name).
pub open spec fn spec_integer_record_field(fields: Seq<Field>, name: Seq<char>) -> Result<i64, TuiError> {
    match spec_required_record_field(fields, name) {
        Ok(Value::Integer(v)) => Ok(v),
        Ok(_) => Err(TuiError::WrongFieldKind),
        Err(e) => Err(e),
    }
}

/// Read an integer field from a record field list.
pub fn integer_record_field(fields: &Vec<Field>, name: &str) -> (r: Result<i64, TuiError>)
    ensures
        r == spec_integer_record_field(fields@, name@),
{
    match required_record_field(fields, name) {
        Ok(Value::Integer(v)) => Ok(*v),
        Ok(_) => Err(TuiError::WrongFieldKind),
        Err(e) => Err(e),
    }
}

/// An integer field that must fit `i16`.
pub open spec fn spec_i16_field(fields: Seq<Field>, name: Seq<char>) -> Result<i16, TuiError> {
    match spec_integer_record_field(fields, name) {
        Ok(v) => if i16::MIN <= v && v <= i16::MAX {
            Ok(v as i16)
        } else {
            Err(TuiError::CoordinateOutOfRange)
        },
        Err(e) => Err(e),
    }
}

/// An `i16` field that must also be strictly positive.
pub open spec fn spec_positive_i16_field(fields: Seq<Field>, name: Seq<char>) -> Result<i16, TuiError> {
    match spec_i16_field(fields, name) {
        Ok(v) => if v <= 0 {
            Err(TuiError::DimensionNotPositive)
        } else {
            Ok(v)
        },
        Err(e) => Err(e),
    }
}

/// Read a coordinate field that must fit the Turbo Vision `i16` range.
pub fn turbo_vision_i16_field(fields: &Vec<Field>, name: &str) -> (r: Result<i16, TuiError>)
    ensures
        r == spec_i16_field(fields@, name@),
{
    match integer_record_field(fields, name) {
        Ok(v) => if -32768 <= v && v <= 32767 {
            Ok(v as i16)
        } else {
            Err(TuiError::CoordinateOutOfRange)
        },
        Err(e) => Err(e),
    }
}

/// Read a width or height field: `i16` and strictly positive.
pub fn turbo_vision_positive_i16_field(fields: &Vec<Field>, name: &str) -> (r: Result<i16, TuiError>)
    ensures
        r == spec_positive_i16_field(fields@, name@),
{
    match turbo_vision_i16_field(fields, name) {
        Ok(v) => if v <= 0 {
            Err(TuiError::DimensionNotPositive)
        } else {
            Ok(v)
        },
        Err(e) => Err(e),
    }
}

/// Decode a `Std.Tui.Rect` record.
pub open spec fn spec_decode_rect(v: Value) -> Result<TvRect, TuiError> {
    match v {
        Value::Record { record_type, fields } => if record_type@ != TUI_RECT_TYPE@ {
            Err(TuiError::WrongRecordType)
        } else {
            match spec_i16_field(fields@, "x"@) {
                Err(e) => Err(e),
                Ok(x) => match spec_i16_field(fields@, "y"@) {
                    Err(e) => Err(e),
                    Ok(y) => match spec_positive_i16_field(fields@, "width"@) {
                        Err(e) => Err(e),
                        Ok(width) => match spec_positive_i16_field(fields@, "height"@) {
                            Err(e) => Err(e),
                            Ok(height) => Ok(TvRect { x, y, width, height }),
                        },
                    },
                },
            }
        },
        _ => Err(TuiError::WrongValueKind),
    }
}

/// Decode a `Std.Tui.Rect` record into a Turbo Vision rectangle.
pub fn decode_turbo_vision_rect(v: &Value) -> (r: Result<TvRect, TuiError>)
    ensures
        r == spec_decode_rect(*v),
{
    match v {
        Value::Record { record_type, fields } => {
            if !str_eq(record_type.as_str(), TUI_RECT_TYPE) {
                return Err(TuiError::WrongRecordType);
            }
            let x = match turbo_vision_i16_field(fields, "x") {
                Ok(x) => x,
                Err(e) => {
                    return Err(e);
                },
            };
            let y = match turbo_vision_i16_field(fields, "y") {
                Ok(y) => y,
                Err(e) => {
                    return Err(e);
                },
            };
            let width = match turbo_vision_positive_i16_field(fields, "width") {
                Ok(w) => w,
                Err(e) => {
                    return Err(e);
                },
            };
            let height = match turbo_vision_positive_i16_field(fields, "height") {
                Ok(h) => h,
                Err(e) => {
                    return Err(e);
                },
            };
            Ok(TvRect { x, y, width, height })
        },
        _ => Err(TuiError::WrongValueKind),
    }
}

// ---------------------------------------------------------------- strings and options

/// A string value.
pub open spec fn spec_decode_string(v: Value) -> Result<Seq<char>, TuiError> {
    match v {
        Value::Str(s) => Ok(s@),
        _ => Err(TuiError::WrongValueKind),
    }
}

/// Take the string out of a string value.
pub fn decode_turbo_vision_string(v: Value) -> (r: Result<String, TuiError>)
    ensures
        match r {
            Ok(s) => spec_decode_string(v) == Ok::<Seq<char>, TuiError>(s@),
            Err(e) => spec_decode_string(v) == Err::<Seq<char>, TuiError>(e),
        },
{
    match v {
        Value::Str(s) => Ok(s),
        _ => Err(TuiError::WrongValueKind),
    }
}

/// `i` is the index of the first non-string element of `values`.
pub open spec fn spec_is_first_non_string(values: Seq<Value>, i: int) -> bool {
    &&& 0 <= i < values.len()
    &&& !(values[i] is Str)
    &&& forall|j: int| 0 <= j < i ==> (#[trigger] values[j]) is Str
}

/// The index of the first non-string element of `values`.
pub open spec fn spec_first_non_string(values: Seq<Value>) -> int {
    choose|i: int| spec_is_first_non_string(values, i)
}

/// The strings of an array of string values.
pub open spec fn spec_string_views(values: Seq<Value>) -> Seq<Seq<char>> {
    values.map_values(|v: Value| match v {
        Value::Str(s) => s@,
        _ => Seq::empty(),
    })
}

/// All elements of `values` are strings.
pub open spec fn spec_all_strings(values: Seq<Value>) -> bool {
    forall|i: int| 0 <= i < values.len() ==> (#[trigger] values[i]) is Str
}

/// Decode an `array of string` argument.
pub open spec fn spec_decode_string_array(v: Value) -> Result<Seq<Seq<char>>, TuiError> {
    match v {
        Value::Array(values) => if spec_all_strings(values@) {
            Ok(spec_string_views(values@))
        } else {
            Err(TuiError::ArrayElementNotString { index: spec_first_non_string(values@) as usize })
        },
        _ => Err(TuiError::NotAnArray),
    }
}

/// Decode an `array of string` argument into owned strings.
pub fn decode_turbo_vision_string_array(v: &Value) -> (r: Result<Vec<String>, TuiError>)
    ensures
        match r {
            Ok(items) => spec_decode_string_array(*v) == Ok::<Seq<Seq<char>>, TuiError>(
                items@.map_values(|s: String| s@),
            ),
            Err(e) => spec_decode_string_array(*v) == Err::<Seq<Seq<char>>, TuiError>(e),
        },
{
    let values = match v {
        Value::Array(values) => values,
        _ => {
            return Err(TuiError::NotAnArray);
        },
    };
    let mut out: Vec<String> = Vec::new();
    let mut i: usize = 0;
    while i < values.len()
        invariant
            *v == Value::Array(*values),
            0 <= i <= values.len(),
            out@.len() == i,
            forall|j: int| 0 <= j < i ==> (#[trigger] values@[j]) is Str,
            forall|j: int| 0 <= j < i ==> out@[j]@ == spec_string_views(values@)[j],
        decreases values.len() - i,
    {
        match &values[i] {
            Value::Str(s) => {
                out.push(s.clone());
            },
            _ => {
                proof {
                    assert(spec_is_first_non_string(values@, i as int));
                    let k = spec_first_non_string(values@);
                    assert(spec_is_first_non_string(values@, k));
                    if k < i {
                        assert(values@[k] is Str);
                    } else if k > i {
                        assert(values@[i as int] is Str);
                    }
                    assert(k == i);
                    assert(!spec_all_strings(values@));
                }
                return Err(TuiError::ArrayElementNotString { index: i });
            },
        }
        i = i + 1;
    }
    assert(out@.map_values(|s: String| s@) =~= spec_string_views(values@));
    Ok(out)
}

/// An `Option of string` value.
pub open spec fn spec_decode_optional_string(v: Value) -> Result<Option<Seq<char>>, TuiError> {
    match v {
        Value::OptionNone => Ok(None),
        Value::OptionSome(inner) => match *inner {
            Value::Str(s) => Ok(Some(s@)),
            _ => Err(TuiError::WrongOptionKind),
        },
        _ => Err(TuiError::WrongOptionKind),
    }
}

/// Decode an `Option of string` argument.
pub fn decode_optional_string(v: Value) -> (r: Result<Option<String>, TuiError>)
    ensures
        match r {
            Ok(Some(s)) => spec_decode_optional_string(v) == Ok::<Option<Seq<char>>, TuiError>(Some(s@)),
            Ok(None) => spec_decode_optional_string(v) == Ok::<Option<Seq<char>>, TuiError>(None),
            Err(e) => spec_decode_optional_string(v) == Err::<Option<Seq<char>>, TuiError>(e),
        },
{
    match v {
        Value::OptionNone => Ok(None),
        Value::OptionSome(inner) => match *inner {
            Value::Str(s) => Ok(Some(s)),
            _ => Err(TuiError::WrongOptionKind),
        },
        _ => Err(TuiError::WrongOptionKind),
    }
}

/// An accelerator string: empty means none, one character is the key.
pub open spec fn spec_optional_char_from_string(s: Seq<char>) -> Result<Option<char>, TuiError> {
    if s.len() == 0 {
        Ok(None)
    } else if s.len() == 1 {
        Ok(Some(s[0]))
    } else {
        Err(TuiError::NotSingleCharacter)
    }
}

/// Decode an accelerator string: `''` is none, one character is the key.
pub fn optional_char_from_string(s: &str) -> (r: Result<Option<char>, TuiError>)
    ensures
        r == spec_optional_char_from_string(s@),
{
    let n = s.unicode_len();
    if n == 0 {
        Ok(None)
    } else if n == 1 {
        Ok(Some(s.get_char(0)))
    } else {
        Err(TuiError::NotSingleCharacter)
    }
}

/// An `Option of string` accelerator value.
pub open spec fn spec_optional_char(v: Value) -> Result<Option<char>, TuiError> {
    match v {
        Value::OptionNone => Ok(None),
        Value::OptionSome(inner) => match *inner {
            Value::Str(s) => spec_optional_char_from_string(s@),
            _ => Err(TuiError::WrongOptionKind),
        },
        _ => Err(TuiError::WrongOptionKind),
    }
}

/// Decode an optional accelerator (`None` or `Some('X')`).
pub fn optional_char(v: &Value) -> (r: Result<Option<char>, TuiError>)
    ensures
        r == spec_optional_char(*v),
{
    match v {
        Value::OptionNone => Ok(None),
        Value::OptionSome(inner) => match &**inner {
            Value::Str(s) => optional_char_from_string(s.as_str()),
            _ => Err(TuiError::WrongOptionKind),
        },
        _ => Err(TuiError::WrongOptionKind),
    }
}

/// An `Option of integer` value.
pub open spec fn spec_optional_integer(v: Value) -> Result<Option<i64>, TuiError> {
    match v {
        Value::OptionNone => Ok(None),
        Value::OptionSome(inner) => match *inner {
            Value::Integer(n) => Ok(Some(n)),
            _ => Err(TuiError::WrongOptionKind),
        },
        _ => Err(TuiError::WrongOptionKind),
    }
}

/// Decode an optional command id (`None` or `Some(n)`).
pub fn optional_integer(v: &Value) -> (r: Result<Option<i64>, TuiError>)
    ensures
        r == spec_optional_integer(*v),
{
    match v {
        Value::OptionNone => Ok(None),
        Value::OptionSome(inner) => match &**inner {
            Value::Integer(n) => Ok(Some(*n)),
            _ => Err(TuiError::WrongOptionKind),
        },
        _ => Err(TuiError::WrongOptionKind),
    }
}

} // verus!
