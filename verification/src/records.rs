//! Decoding `Menu`, `MenuItem` and `StatusItem` records, whose fields are
//! looked up by their exact names.
use vstd::prelude::*;
use crate::error::TuiError;
use crate::store::{TurboVisionMenu, TurboVisionMenuItem, TurboVisionStatusItem};
use crate::value::{Field, Value, find_field, spec_find_field, str_eq};

verus! {

pub const TUI_MENU_TYPE: &'static str = "Std.Tui.Menu";
pub const TUI_MENU_ITEM_TYPE: &'static str = "Std.Tui.MenuItem";
pub const TUI_STATUS_ITEM_TYPE: &'static str = "Std.Tui.StatusItem";

/// The fields of a record of type `ty`.
pub open spec fn spec_expect_record(v: Value, ty: Seq<char>) -> Result<Seq<Field>, TuiError> {
    match v {
        Value::Record { record_type, fields } => if record_type@ == ty {
            Ok(fields@)
        } else {
            Err(TuiError::WrongRecordType)
        },
        _ => Err(TuiError::WrongRecordType),
    }
}

/// A string field looked up by its exact name.
pub open spec fn spec_string_field(fields: Seq<Field>, name: Seq<char>) -> Result<Seq<char>, TuiError> {
    match spec_find_field(fields, name) {
        Some(Value::Str(s)) => Ok(s@),
        Some(_) => Err(TuiError::WrongFieldKind),
        None => Err(TuiError::MissingRecordField),
    }
}

/// An integer field, looked up by its exact name, that must fit `u16`.
pub open spec fn spec_u16_field(fields: Seq<Field>, name: Seq<char>) -> Result<u16, TuiError> {
    match spec_find_field(fields, name) {
        Some(Value::Integer(n)) => if 0 <= n && n <= u16::MAX {
            Ok(n as u16)
        } else {
            Err(TuiError::IdOutOfRange)
        },
        Some(_) => Err(TuiError::WrongFieldKind),
        None => Err(TuiError::MissingRecordField),
    }
}

/// A menu item as values: its text and command (`0` for a separator).
pub open spec fn spec_decode_menu_item(v: Value) -> Result<(Seq<char>, u16), TuiError> {
    match spec_expect_record(v, TUI_MENU_ITEM_TYPE@) {
        Err(e) => Err(e),
        Ok(f) => match spec_string_field(f, "text"@) {
            Err(e) => Err(e),
            Ok(t) => match spec_u16_field(f, "commandId"@) {
                Err(e) => Err(e),
                Ok(c) => Ok((t, c)),
            },
        },
    }
}

/// A status item as values: text, key code and command.
pub open spec fn spec_decode_status_item(v: Value) -> Result<(Seq<char>, u16, u16), TuiError> {
    match spec_expect_record(v, TUI_STATUS_ITEM_TYPE@) {
        Err(e) => Err(e),
        Ok(f) => match spec_string_field(f, "text"@) {
            Err(e) => Err(e),
            Ok(t) => match spec_u16_field(f, "keyCode"@) {
                Err(e) => Err(e),
                Ok(k) => match spec_u16_field(f, "commandId"@) {
                    Err(e) => Err(e),
                    Ok(c) => Ok((t, k, c)),
                },
            },
        },
    }
}

/// [`spec_decode_menu_item`] as a function value.
pub open spec fn menu_item_decoder() -> spec_fn(Value) -> Result<(Seq<char>, u16), TuiError> {
    |v: Value| spec_decode_menu_item(v)
}

/// [`spec_decode_status_item`] as a function value.
pub open spec fn status_item_decoder() -> spec_fn(Value) -> Result<(Seq<char>, u16, u16), TuiError> {
    |v: Value| spec_decode_status_item(v)
}

/// Decode each value with `f`, in order; the first failure is the result.
pub open spec fn spec_decode_each<T>(vs: Seq<Value>, f: spec_fn(Value) -> Result<T, TuiError>) -> Result<Seq<T>, TuiError>
    decreases vs.len(),
{
    if vs.len() == 0 {
        Ok(Seq::empty())
    } else {
        match spec_decode_each(vs.drop_last(), f) {
            Err(e) => Err(e),
            Ok(prefix) => match f(vs.last()) {
                Err(e) => Err(e),
                Ok(x) => Ok(prefix.push(x)),
            },
        }
    }
}

/// A failure while decoding a prefix is the failure of the whole.
pub proof fn lemma_decode_each_prefix_error<T>(vs: Seq<Value>, f: spec_fn(Value) -> Result<T, TuiError>, k: int)
    requires
        0 <= k <= vs.len(),
        spec_decode_each(vs.subrange(0, k), f) is Err,
    ensures
        spec_decode_each(vs, f) == spec_decode_each(vs.subrange(0, k), f),
    decreases vs.len() - k,
{
    if k < vs.len() {
        let next = vs.subrange(0, k + 1);
        assert(next.drop_last() =~= vs.subrange(0, k));
        assert(vs.subrange(0, k + 1).subrange(0, k) =~= vs.subrange(0, k));
        lemma_decode_each_prefix_error(vs, f, k + 1);
    } else {
        assert(vs.subrange(0, k) =~= vs);
    }
}

/// [`spec_decode_menu`] as a function value.
pub open spec fn menu_decoder() -> spec_fn(Value) -> Result<(Seq<char>, Seq<(Seq<char>, u16)>), TuiError> {
    |v: Value| spec_decode_menu(v)
}

/// The menu items of a decoded menu.
pub open spec fn spec_menu_item_views(items: Seq<TurboVisionMenuItem>) -> Seq<(Seq<char>, u16)> {
    items.map_values(|i: TurboVisionMenuItem| (i.text@, i.command_id))
}

/// The `items` field of a menu record.
pub open spec fn spec_menu_items_field(fields: Seq<Field>) -> Result<Seq<(Seq<char>, u16)>, TuiError> {
    match spec_find_field(fields, "items"@) {
        None => Err(TuiError::MissingRecordField),
        Some(Value::Array(vs)) => spec_decode_each(vs@, menu_item_decoder()),
        Some(_) => Err(TuiError::WrongFieldKind),
    }
}

/// A menu as values: its title and items.
pub open spec fn spec_decode_menu(v: Value) -> Result<(Seq<char>, Seq<(Seq<char>, u16)>), TuiError> {
    match spec_expect_record(v, TUI_MENU_TYPE@) {
        Err(e) => Err(e),
        Ok(f) => match spec_string_field(f, "title"@) {
            Err(e) => Err(e),
            Ok(t) => match spec_menu_items_field(f) {
                Err(e) => Err(e),
                Ok(items) => Ok((t, items)),
            },
        },
    }
}

/// Decoded menus as values.
pub open spec fn spec_menu_views(menus: Seq<TurboVisionMenu>) -> Seq<(Seq<char>, Seq<(Seq<char>, u16)>)> {
    menus.map_values(|m: TurboVisionMenu| (m.title@, spec_menu_item_views(m.items@)))
}

/// Decoded status items as values.
pub open spec fn spec_status_item_views(items: Seq<TurboVisionStatusItem>) -> Seq<(Seq<char>, u16, u16)> {
    items.map_values(|i: TurboVisionStatusItem| (i.text@, i.key_code, i.command_id))
}

/// The `Menus` argument of `CreateMenuBar`: an array of menu records.
pub open spec fn spec_decode_menus(v: Value) -> Result<Seq<(Seq<char>, Seq<(Seq<char>, u16)>)>, TuiError> {
    match v {
        Value::Array(vs) => spec_decode_each(vs@, menu_decoder()),
        _ => Err(TuiError::WrongValueKind),
    }
}

/// The `Items` argument of `CreateStatusLine`: an array of status items.
pub open spec fn spec_decode_status_items(v: Value) -> Result<Seq<(Seq<char>, u16, u16)>, TuiError> {
    match v {
        Value::Array(vs) => spec_decode_each(vs@, status_item_decoder()),
        _ => Err(TuiError::WrongValueKind),
    }
}

/// The fields of `v` when it is a record of type `ty`.
pub fn expect_record<'a>(v: &'a Value, ty: &str) -> (r: Result<&'a Vec<Field>, TuiError>)
    ensures
        match r {
            Ok(f) => spec_expect_record(*v, ty@) == Ok::<Seq<Field>, TuiError>(f@),
            Err(e) => spec_expect_record(*v, ty@) == Err::<Seq<Field>, TuiError>(e),
        },
{
    match v {
        Value::Record { record_type, fields } => if str_eq(record_type.as_str(), ty) {
            Ok(fields)
        } else {
            Err(TuiError::WrongRecordType)
        },
        _ => Err(TuiError::WrongRecordType),
    }
}

/// Read a string field by its exact name.
pub fn string_field(fields: &Vec<Field>, name: &str) -> (r: Result<String, TuiError>)
    ensures
        match r {
            Ok(s) => spec_string_field(fields@, name@) == Ok::<Seq<char>, TuiError>(s@),
            Err(e) => spec_string_field(fields@, name@) == Err::<Seq<char>, TuiError>(e),
        },
{
    match find_field(fields, name) {
        Some(Value::Str(s)) => Ok(s.clone()),
        Some(_) => Err(TuiError::WrongFieldKind),
        None => Err(TuiError::MissingRecordField),
    }
}

/// Read a `u16` field by its exact name.
pub fn u16_field(fields: &Vec<Field>, name: &str) -> (r: Result<u16, TuiError>)
    ensures
        r == spec_u16_field(fields@, name@),
{
    match find_field(fields, name) {
        Some(Value::Integer(n)) => {
            let n = *n;
            if 0 <= n && n <= 65535 {
                Ok(n as u16)
            } else {
                Err(TuiError::IdOutOfRange)
            }
        },
        Some(_) => Err(TuiError::WrongFieldKind),
        None => Err(TuiError::MissingRecordField),
    }
}

/// Decode one `MenuItem` record.
pub fn decode_menu_item(v: &Value) -> (r: Result<TurboVisionMenuItem, TuiError>)
    ensures
        match r {
            Ok(i) => spec_decode_menu_item(*v) == Ok::<(Seq<char>, u16), TuiError>((i.text@, i.command_id)),
            Err(e) => spec_decode_menu_item(*v) == Err::<(Seq<char>, u16), TuiError>(e),
        },
{
    let fields = expect_record(v, TUI_MENU_ITEM_TYPE)?;
    let text = string_field(fields, "text")?;
    let command_id = u16_field(fields, "commandId")?;
    Ok(TurboVisionMenuItem { text, command_id })
}

/// Decode one `StatusItem` record.
pub fn decode_status_item(v: &Value) -> (r: Result<TurboVisionStatusItem, TuiError>)
    ensures
        match r {
            Ok(i) => spec_decode_status_item(*v) == Ok::<(Seq<char>, u16, u16), TuiError>((i.text@, i.key_code, i.command_id)),
            Err(e) => spec_decode_status_item(*v) == Err::<(Seq<char>, u16, u16), TuiError>(e),
        },
{
    let fields = expect_record(v, TUI_STATUS_ITEM_TYPE)?;
    let text = string_field(fields, "text")?;
    let key_code = u16_field(fields, "keyCode")?;
    let command_id = u16_field(fields, "commandId")?;
    Ok(TurboVisionStatusItem { text, key_code, command_id })
}

/// Decode every `MenuItem` of `values`, in order.
pub fn decode_menu_items(values: &Vec<Value>) -> (r: Result<Vec<TurboVisionMenuItem>, TuiError>)
    ensures
        match r {
            Ok(items) => spec_decode_each(values@, menu_item_decoder()) == Ok::<
                Seq<(Seq<char>, u16)>,
                TuiError,
            >(spec_menu_item_views(items@)),
            Err(e) => spec_decode_each(values@, menu_item_decoder()) == Err::<
                Seq<(Seq<char>, u16)>,
                TuiError,
            >(e),
        },
{
    let ghost f = menu_item_decoder();
    let mut out: Vec<TurboVisionMenuItem> = Vec::new();
    let mut i: usize = 0;
    assert(spec_menu_item_views(out@) =~= Seq::empty());
    assert(values@.subrange(0, 0) =~= Seq::<Value>::empty());
    while i < values.len()
        invariant
            0 <= i <= values@.len(),
            f == menu_item_decoder(),
            spec_decode_each(values@.subrange(0, i as int), f) == Ok::<Seq<(Seq<char>, u16)>, TuiError>(
                spec_menu_item_views(out@),
            ),
        decreases values.len() - i,
    {
        let ghost pre = values@.subrange(0, i as int);
        assert(values@.subrange(0, i + 1).drop_last() =~= pre);
        match decode_menu_item(&values[i]) {
            Ok(item) => {
                let ghost before = out@;
                out.push(item);
                assert(spec_menu_item_views(out@) =~= spec_menu_item_views(before).push((item.text@, item.command_id)));
            },
            Err(e) => {
                proof {
                    lemma_decode_each_prefix_error(values@, f, i + 1);
                }
                return Err(e);
            },
        }
        i = i + 1;
    }
    assert(values@.subrange(0, values@.len() as int) =~= values@);
    Ok(out)
}

/// Decode one `Menu` record.
pub fn decode_menu(v: &Value) -> (r: Result<TurboVisionMenu, TuiError>)
    ensures
        match r {
            Ok(m) => spec_decode_menu(*v) == Ok::<(Seq<char>, Seq<(Seq<char>, u16)>), TuiError>(
                (m.title@, spec_menu_item_views(m.items@)),
            ),
            Err(e) => spec_decode_menu(*v) == Err::<(Seq<char>, Seq<(Seq<char>, u16)>), TuiError>(e),
        },
{
    let fields = expect_record(v, TUI_MENU_TYPE)?;
    let title = string_field(fields, "title")?;
    let items = match find_field(fields, "items") {
        None => {
            return Err(TuiError::MissingRecordField);
        },
        Some(Value::Array(vs)) => decode_menu_items(vs)?,
        Some(_) => {
            return Err(TuiError::WrongFieldKind);
        },
    };
    Ok(TurboVisionMenu { title, items })
}

/// Decode the `Menus` array of `CreateMenuBar`.
pub fn decode_menus(v: &Value) -> (r: Result<Vec<TurboVisionMenu>, TuiError>)
    ensures
        match r {
            Ok(ms) => spec_decode_menus(*v) == Ok::<Seq<(Seq<char>, Seq<(Seq<char>, u16)>)>, TuiError>(
                spec_menu_views(ms@),
            ),
            Err(e) => spec_decode_menus(*v) == Err::<Seq<(Seq<char>, Seq<(Seq<char>, u16)>)>, TuiError>(e),
        },
{
    let values = match v {
        Value::Array(vs) => vs,
        _ => {
            return Err(TuiError::WrongValueKind);
        },
    };
    let ghost f = menu_decoder();
    let mut out: Vec<TurboVisionMenu> = Vec::new();
    let mut i: usize = 0;
    assert(spec_menu_views(out@) =~= Seq::empty());
    assert(values@.subrange(0, 0) =~= Seq::<Value>::empty());
    while i < values.len()
        invariant
            0 <= i <= values@.len(),
            f == menu_decoder(),
            *v == Value::Array(*values),
            spec_decode_each(values@.subrange(0, i as int), f) == Ok::<
                Seq<(Seq<char>, Seq<(Seq<char>, u16)>)>,
                TuiError,
            >(spec_menu_views(out@)),
        decreases values.len() - i,
    {
        let ghost pre = values@.subrange(0, i as int);
        assert(values@.subrange(0, i + 1).drop_last() =~= pre);
        match decode_menu(&values[i]) {
            Ok(menu) => {
                let ghost before = out@;
                let ghost mv = (menu.title@, spec_menu_item_views(menu.items@));
                out.push(menu);
                assert(spec_menu_views(out@) =~= spec_menu_views(before).push(mv));
            },
            Err(e) => {
                proof {
                    lemma_decode_each_prefix_error(values@, f, i + 1);
                }
                return Err(e);
            },
        }
        i = i + 1;
    }
    assert(values@.subrange(0, values@.len() as int) =~= values@);
    Ok(out)
}

/// Decode the `Items` array of `CreateStatusLine`.
pub fn decode_status_items(v: &Value) -> (r: Result<Vec<TurboVisionStatusItem>, TuiError>)
    ensures
        match r {
            Ok(items) => spec_decode_status_items(*v) == Ok::<Seq<(Seq<char>, u16, u16)>, TuiError>(
                spec_status_item_views(items@),
            ),
            Err(e) => spec_decode_status_items(*v) == Err::<Seq<(Seq<char>, u16, u16)>, TuiError>(e),
        },
{
    let values = match v {
        Value::Array(vs) => vs,
        _ => {
            return Err(TuiError::WrongValueKind);
        },
    };
    let ghost f = status_item_decoder();
    let mut out: Vec<TurboVisionStatusItem> = Vec::new();
    let mut i: usize = 0;
    assert(spec_status_item_views(out@) =~= Seq::empty());
    assert(values@.subrange(0, 0) =~= Seq::<Value>::empty());
    while i < values.len()
        invariant
            0 <= i <= values@.len(),
            f == status_item_decoder(),
            *v == Value::Array(*values),
            spec_decode_each(values@.subrange(0, i as int), f) == Ok::<Seq<(Seq<char>, u16, u16)>, TuiError>(
                spec_status_item_views(out@),
            ),
        decreases values.len() - i,
    {
        let ghost pre = values@.subrange(0, i as int);
        assert(values@.subrange(0, i + 1).drop_last() =~= pre);
        match decode_status_item(&values[i]) {
            Ok(item) => {
                let ghost before = out@;
                let ghost iv = (item.text@, item.key_code, item.command_id);
                out.push(item);
                assert(spec_status_item_views(out@) =~= spec_status_item_views(before).push(iv));
            },
            Err(e) => {
                proof {
                    lemma_decode_each_prefix_error(values@, f, i + 1);
                }
                return Err(e);
            },
        }
        i = i + 1;
    }
    assert(values@.subrange(0, values@.len() as int) =~= values@);
    Ok(out)
}

} // verus!
