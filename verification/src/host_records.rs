//! Records of the native `Std.Tui` host API: menu-bar items, status-bar
//! segments, list-box items and radio options, decoded from VM values;
//! the records the host pushes back; and the screen coordinate checks of
//! its queries.
use vstd::prelude::*;
use crate::decode::{optional_char, optional_integer, required_record_field, integer_record_field,
    spec_optional_char, spec_optional_integer, spec_required_record_field, spec_integer_record_field};
use crate::error::TuiError;
use crate::records::{expect_record, spec_decode_each, spec_expect_record, lemma_decode_each_prefix_error};
use crate::value::{Field, Value, find_field, spec_find_field};

verus! {

pub const MENU_BAR_ITEM_TYPE: &'static str = "Std.Tui.MenuBarItem";
pub const MENU_POPUP_ITEM_TYPE: &'static str = "Std.Tui.MenuPopupItem";
pub const STATUS_BAR_SEGMENT_TYPE: &'static str = "Std.Tui.StatusBarSegment";
pub const LIST_BOX_ITEM_TYPE: &'static str = "Std.Tui.ListBoxItem";
pub const RADIO_OPTION_TYPE: &'static str = "Std.Tui.RadioOption";
pub const TUI_VIEW_ID_TYPE: &'static str = "Std.Tui.ViewId";
pub const TUI_SIZE_TYPE: &'static str = "Std.Tui.Size";
pub const TUI_SCREEN_CELL_TYPE: &'static str = "Std.Tui.ScreenCell";

/// An entry of a submenu.
#[derive(Debug)]
pub struct MenuPopupItem {
    pub label: String,
    pub shortcut: String,
    pub enabled: bool,
    pub command_id: i64,
    pub separator: bool,
}

/// A top-level entry of a host menu bar.
#[derive(Debug)]
pub struct MenuBarItem {
    pub label: String,
    pub shortcut: String,
    pub enabled: bool,
    pub command_id: i64,
    pub submenu: Vec<MenuPopupItem>,
}

/// A segment of a host status bar.
#[derive(Debug)]
pub struct StatusBarSegment {
    pub text: String,
    pub align_right: bool,
}

/// An entry of a host list box.
#[derive(Debug)]
pub struct ListBoxItem {
    pub text: String,
    pub command_id: Option<i64>,
    pub enabled: bool,
}

/// An option of a host radio group.
#[derive(Debug)]
pub struct RadioOption {
    pub label: String,
    pub accelerator: Option<char>,
    pub command_id: Option<i64>,
    pub enabled: bool,
}

// ---------------------------------------------------------------- field readers

/// A required string field (ASCII case-insensitive name).
pub open spec fn spec_str_field(fields: Seq<Field>, name: Seq<char>) -> Result<Seq<char>, TuiError> {
    match spec_required_record_field(fields, name) {
        Ok(Value::Str(s)) => Ok(s@),
        Ok(_) => Err(TuiError::WrongFieldKind),
        Err(e) => Err(e),
    }
}

/// A required boolean field (ASCII case-insensitive name).
pub open spec fn spec_bool_field(fields: Seq<Field>, name: Seq<char>) -> Result<bool, TuiError> {
    match spec_required_record_field(fields, name) {
        Ok(Value::Boolean(b)) => Ok(b),
        Ok(_) => Err(TuiError::WrongFieldKind),
        Err(e) => Err(e),
    }
}

/// Read a required string field.
pub fn str_field(fields: &Vec<Field>, name: &str) -> (r: Result<String, TuiError>)
    ensures
        match r {
            Ok(s) => spec_str_field(fields@, name@) == Ok::<Seq<char>, TuiError>(s@),
            Err(e) => spec_str_field(fields@, name@) == Err::<Seq<char>, TuiError>(e),
        },
{
    match required_record_field(fields, name)? {
        Value::Str(s) => Ok(s.clone()),
        _ => Err(TuiError::WrongFieldKind),
    }
}

/// Read a required boolean field.
pub fn bool_field(fields: &Vec<Field>, name: &str) -> (r: Result<bool, TuiError>)
    ensures
        r == spec_bool_field(fields@, name@),
{
    match required_record_field(fields, name)? {
        Value::Boolean(b) => Ok(*b),
        _ => Err(TuiError::WrongFieldKind),
    }
}

// ---------------------------------------------------------------- menu bar items

/// A popup item as values: label, shortcut, enabled, command, separator.
pub open spec fn spec_decode_menu_popup_item(v: Value) -> Result<(Seq<char>, Seq<char>, bool, i64, bool), TuiError> {
    match spec_expect_record(v, MENU_POPUP_ITEM_TYPE@) {
        Err(e) => Err(e),
        Ok(f) => match spec_str_field(f, "Label"@) {
            Err(e) => Err(e),
            Ok(label) => match spec_str_field(f, "Shortcut"@) {
                Err(e) => Err(e),
                Ok(shortcut) => match spec_bool_field(f, "Enabled"@) {
                    Err(e) => Err(e),
                    Ok(enabled) => match spec_integer_record_field(f, "CommandId"@) {
                        Err(e) => Err(e),
                        Ok(c) => Ok((label, shortcut, enabled, c, spec_separator_flag(f))),
                    },
                },
            },
        },
    }
}

/// The optional `Separator` flag: set only by a boolean `true`.
pub open spec fn spec_separator_flag(fields: Seq<Field>) -> bool {
    match spec_find_field(fields, "Separator"@) {
        Some(Value::Boolean(b)) => b,
        _ => false,
    }
}

/// [`spec_decode_menu_popup_item`] as a function value.
pub open spec fn menu_popup_item_decoder() -> spec_fn(Value) -> Result<(Seq<char>, Seq<char>, bool, i64, bool), TuiError> {
    |v: Value| spec_decode_menu_popup_item(v)
}

/// The popup items as values.
pub open spec fn spec_popup_views(items: Seq<MenuPopupItem>) -> Seq<(Seq<char>, Seq<char>, bool, i64, bool)> {
    items.map_values(|i: MenuPopupItem| (i.label@, i.shortcut@, i.enabled, i.command_id, i.separator))
}

/// The `Submenu` field: absent means none.
pub open spec fn spec_submenu_field(fields: Seq<Field>) -> Result<Seq<(Seq<char>, Seq<char>, bool, i64, bool)>, TuiError> {
    match spec_find_field(fields, "Submenu"@) {
        None => Ok(Seq::empty()),
        Some(Value::Array(vs)) => spec_decode_each(vs@, menu_popup_item_decoder()),
        Some(_) => Err(TuiError::WrongFieldKind),
    }
}

/// A menu-bar item as values: label, shortcut, enabled, command, submenu.
pub open spec fn spec_decode_menu_bar_item(v: Value) -> Result<
    (Seq<char>, Seq<char>, bool, i64, Seq<(Seq<char>, Seq<char>, bool, i64, bool)>),
    TuiError,
> {
    match spec_expect_record(v, MENU_BAR_ITEM_TYPE@) {
        Err(e) => Err(e),
        Ok(f) => match spec_str_field(f, "Label"@) {
            Err(e) => Err(e),
            Ok(label) => match spec_str_field(f, "Shortcut"@) {
                Err(e) => Err(e),
                Ok(shortcut) => match spec_bool_field(f, "Enabled"@) {
                    Err(e) => Err(e),
                    Ok(enabled) => match spec_integer_record_field(f, "CommandId"@) {
                        Err(e) => Err(e),
                        Ok(c) => match spec_submenu_field(f) {
                            Err(e) => Err(e),
                            Ok(sub) => Ok((label, shortcut, enabled, c, sub)),
                        },
                    },
                },
            },
        },
    }
}

/// Decode one `MenuPopupItem` record.
pub fn decode_menu_popup_item(v: &Value) -> (r: Result<MenuPopupItem, TuiError>)
    ensures
        match r {
            Ok(i) => spec_decode_menu_popup_item(*v) == Ok::<(Seq<char>, Seq<char>, bool, i64, bool), TuiError>(
                (i.label@, i.shortcut@, i.enabled, i.command_id, i.separator),
            ),
            Err(e) => spec_decode_menu_popup_item(*v) == Err::<(Seq<char>, Seq<char>, bool, i64, bool), TuiError>(e),
        },
{
    let fields = expect_record(v, MENU_POPUP_ITEM_TYPE)?;
    let label = str_field(fields, "Label")?;
    let shortcut = str_field(fields, "Shortcut")?;
    let enabled = bool_field(fields, "Enabled")?;
    let command_id = integer_record_field(fields, "CommandId")?;
    let separator = match find_field(fields, "Separator") {
        Some(Value::Boolean(b)) => *b,
        _ => false,
    };
    Ok(MenuPopupItem { label, shortcut, enabled, command_id, separator })
}

/// Decode the `Submenu` field of a menu-bar item.
pub fn decode_menu_popup_items(fields: &Vec<Field>) -> (r: Result<Vec<MenuPopupItem>, TuiError>)
    ensures
        match r {
            Ok(items) => spec_submenu_field(fields@) == Ok::<Seq<(Seq<char>, Seq<char>, bool, i64, bool)>, TuiError>(
                spec_popup_views(items@),
            ),
            Err(e) => spec_submenu_field(fields@) == Err::<Seq<(Seq<char>, Seq<char>, bool, i64, bool)>, TuiError>(e),
        },
{
    let values = match find_field(fields, "Submenu") {
        None => {
            let out: Vec<MenuPopupItem> = Vec::new();
            assert(spec_popup_views(out@) =~= Seq::empty());
            return Ok(out);
        },
        Some(Value::Array(vs)) => vs,
        Some(_) => {
            return Err(TuiError::WrongFieldKind);
        },
    };
    let ghost f = menu_popup_item_decoder();
    let mut out: Vec<MenuPopupItem> = Vec::new();
    let mut i: usize = 0;
    assert(spec_popup_views(out@) =~= Seq::empty());
    assert(values@.subrange(0, 0) =~= Seq::<Value>::empty());
    while i < values.len()
        invariant
            0 <= i <= values@.len(),
            f == menu_popup_item_decoder(),
            spec_find_field(fields@, "Submenu"@) == Some(Value::Array(*values)),
            spec_decode_each(values@.subrange(0, i as int), f) == Ok::<
                Seq<(Seq<char>, Seq<char>, bool, i64, bool)>,
                TuiError,
            >(spec_popup_views(out@)),
        decreases values.len() - i,
    {
        assert(values@.subrange(0, i + 1).drop_last() =~= values@.subrange(0, i as int));
        match decode_menu_popup_item(&values[i]) {
            Ok(item) => {
                let ghost before = out@;
                let ghost iv = (item.label@, item.shortcut@, item.enabled, item.command_id, item.separator);
                out.push(item);
                assert(spec_popup_views(out@) =~= spec_popup_views(before).push(iv));
            },
            Err(e) => {
                proof {
                    lemma_decode_each_prefix_error(values@, f, i + 1);
                }
                return Err(e);
            },
        }
        i = i + 1;
    }
    assert(values@.subrange(0, values@.len() as int) =~= values@);
    Ok(out)
}

/// A decoded menu-bar item as values.
pub open spec fn spec_menu_bar_item_view(i: MenuBarItem) -> (Seq<char>, Seq<char>, bool, i64, Seq<(Seq<char>, Seq<char>, bool, i64, bool)>) {
    (i.label@, i.shortcut@, i.enabled, i.command_id, spec_popup_views(i.submenu@))
}

/// Decode one `MenuBarItem` record.
pub fn decode_menu_bar_item(v: &Value) -> (r: Result<MenuBarItem, TuiError>)
    ensures
        match r {
            Ok(i) => spec_decode_menu_bar_item(*v) == Ok::<
                (Seq<char>, Seq<char>, bool, i64, Seq<(Seq<char>, Seq<char>, bool, i64, bool)>),
                TuiError,
            >(spec_menu_bar_item_view(i)),
            Err(e) => spec_decode_menu_bar_item(*v) == Err::<
                (Seq<char>, Seq<char>, bool, i64, Seq<(Seq<char>, Seq<char>, bool, i64, bool)>),
                TuiError,
            >(e),
        },
{
    let fields = expect_record(v, MENU_BAR_ITEM_TYPE)?;
    let label = str_field(fields, "Label")?;
    let shortcut = str_field(fields, "Shortcut")?;
    let enabled = bool_field(fields, "Enabled")?;
    let command_id = integer_record_field(fields, "CommandId")?;
    let submenu = decode_menu_popup_items(fields)?;
    Ok(MenuBarItem { label, shortcut, enabled, command_id, submenu })
}

// ---------------------------------------------------------------- status segments, list items, radio options

/// A status-bar segment as values: text and right alignment.
pub open spec fn spec_decode_status_bar_segment(v: Value) -> Result<(Seq<char>, bool), TuiError> {
    match spec_expect_record(v, STATUS_BAR_SEGMENT_TYPE@) {
        Err(e) => Err(e),
        Ok(f) => match spec_str_field(f, "Text"@) {
            Err(e) => Err(e),
            Ok(t) => match spec_bool_field(f, "AlignRight"@) {
                Err(e) => Err(e),
                Ok(a) => Ok((t, a)),
            },
        },
    }
}

/// Decode one `StatusBarSegment` record.
pub fn decode_status_bar_segment(v: &Value) -> (r: Result<StatusBarSegment, TuiError>)
    ensures
        match r {
            Ok(s) => spec_decode_status_bar_segment(*v) == Ok::<(Seq<char>, bool), TuiError>((s.text@, s.align_right)),
            Err(e) => spec_decode_status_bar_segment(*v) == Err::<(Seq<char>, bool), TuiError>(e),
        },
{
    let fields = expect_record(v, STATUS_BAR_SEGMENT_TYPE)?;
    let text = str_field(fields, "Text")?;
    let align_right = bool_field(fields, "AlignRight")?;
    Ok(StatusBarSegment { text, align_right })
}

/// A list-box item as values: text, optional command, enabled.
pub open spec fn spec_decode_list_box_item(v: Value) -> Result<(Seq<char>, Option<i64>, bool), TuiError> {
    match spec_expect_record(v, LIST_BOX_ITEM_TYPE@) {
        Err(e) => Err(e),
        Ok(f) => match spec_str_field(f, "text"@) {
            Err(e) => Err(e),
            Ok(t) => match spec_required_record_field(f, "commandId"@) {
                Err(e) => Err(e),
                Ok(cv) => match spec_optional_integer(cv) {
                    Err(e) => Err(e),
                    Ok(c) => match spec_bool_field(f, "enabled"@) {
                        Err(e) => Err(e),
                        Ok(en) => Ok((t, c, en)),
                    },
                },
            },
        },
    }
}

/// Decode one `ListBoxItem` record.
pub fn decode_list_box_item(v: &Value) -> (r: Result<ListBoxItem, TuiError>)
    ensures
        match r {
            Ok(i) => spec_decode_list_box_item(*v) == Ok::<(Seq<char>, Option<i64>, bool), TuiError>(
                (i.text@, i.command_id, i.enabled),
            ),
            Err(e) => spec_decode_list_box_item(*v) == Err::<(Seq<char>, Option<i64>, bool), TuiError>(e),
        },
{
    let fields = expect_record(v, LIST_BOX_ITEM_TYPE)?;
    let text = str_field(fields, "text")?;
    let command_id = optional_integer(required_record_field(fields, "commandId")?)?;
    let enabled = bool_field(fields, "enabled")?;
    Ok(ListBoxItem { text, command_id, enabled })
}

/// A radio option as values: label, accelerator, optional command,
/// enabled.
pub open spec fn spec_decode_radio_option(v: Value) -> Result<(Seq<char>, Option<char>, Option<i64>, bool), TuiError> {
    match spec_expect_record(v, RADIO_OPTION_TYPE@) {
        Err(e) => Err(e),
        Ok(f) => match spec_str_field(f, "label"@) {
            Err(e) => Err(e),
            Ok(l) => match spec_required_record_field(f, "accelerator"@) {
                Err(e) => Err(e),
                Ok(av) => match spec_optional_char(av) {
                    Err(e) => Err(e),
                    Ok(a) => match spec_required_record_field(f, "commandId"@) {
                        Err(e) => Err(e),
                        Ok(cv) => match spec_optional_integer(cv) {
                            Err(e) => Err(e),
                            Ok(c) => match spec_bool_field(f, "enabled"@) {
                                Err(e) => Err(e),
                                Ok(en) => Ok((l, a, c, en)),
                            },
                        },
                    },
                },
            },
        },
    }
}

/// Decode one `RadioOption` record.
pub fn decode_radio_option(v: &Value) -> (r: Result<RadioOption, TuiError>)
    ensures
        match r {
            Ok(o) => spec_decode_radio_option(*v) == Ok::<(Seq<char>, Option<char>, Option<i64>, bool), TuiError>(
                (o.label@, o.accelerator, o.command_id, o.enabled),
            ),
            Err(e) => spec_decode_radio_option(*v) == Err::<(Seq<char>, Option<char>, Option<i64>, bool), TuiError>(e),
        },
{
    let fields = expect_record(v, RADIO_OPTION_TYPE)?;
    let label = str_field(fields, "label")?;
    let accelerator = optional_char(required_record_field(fields, "accelerator")?)?;
    let command_id = optional_integer(required_record_field(fields, "commandId")?)?;
    let enabled = bool_field(fields, "enabled")?;
    Ok(RadioOption { label, accelerator, command_id, enabled })
}

} // verus!
