//! Runtime values that the `Std.Tui` bridge reads from and writes to the VM
//! stack, with the string and record-field helpers the decoders share.
use vstd::prelude::*;

verus! {

/// One record field: its declared name and its value.
pub type Field = (String, Value);

/// The VM values that the TUI bridge inspects.
///
/// `Other` stands for every runtime value the bridge never looks inside
/// (reals, sets, closures' captured state, ...); it only ever triggers a
/// type-mismatch error.
#[derive(Debug)]
pub enum Value {
    Integer(i64),
    Boolean(bool),
    Char(char),
    Str(String),
    Array(Vec<Value>),
    Record { record_type: String, fields: Vec<Field> },
    OptionNone,
    OptionSome(Box<Value>),
    Function { name: String },
    Other,
}

/// The first field named exactly `name`, if any.
pub open spec fn spec_find_field(fields: Seq<Field>, name: Seq<char>) -> Option<Value>
    decreases fields.len(),
{
    if fields.len() == 0 {
        None
    } else if fields[0].0@ == name {
        Some(fields[0].1)
    } else {
        spec_find_field(fields.drop_first(), name)
    }
}

/// ASCII lower-casing of one character, as a code point.
pub open spec fn ascii_lower(c: char) -> u32 {
    if 65 <= (c as u32) && (c as u32) <= 90 {
        (c as u32 + 32) as u32
    } else {
        c as u32
    }
}

/// `a` and `b` are equal when ASCII letters are compared without case.
pub open spec fn spec_eq_ignore_ascii_case(a: Seq<char>, b: Seq<char>) -> bool {
    &&& a.len() == b.len()
    &&& forall|i: int| 0 <= i < a.len() ==> ascii_lower(#[trigger] a[i]) == ascii_lower(b[i])
}

/// The first field whose name equals `name` up to ASCII case, if any.
pub open spec fn spec_find_field_ci(fields: Seq<Field>, name: Seq<char>) -> Option<Value>
    decreases fields.len(),
{
    if fields.len() == 0 {
        None
    } else if spec_eq_ignore_ascii_case(fields[0].0@, name) {
        Some(fields[0].1)
    } else {
        spec_find_field_ci(fields.drop_first(), name)
    }
}

/// Exact string equality.
pub fn str_eq(a: &str, b: &str) -> (equal: bool)
    ensures
        equal == (a@ == b@),
{
    let n = a.unicode_len();
    if n != b.unicode_len() {
        return false;
    }
    let mut i: usize = 0;
    while i < n
        invariant
            n == a@.len(),
            n == b@.len(),
            0 <= i <= n,
            forall|j: int| 0 <= j < i ==> a@[j] == b@[j],
        decreases n - i,
    {
        if a.get_char(i) != b.get_char(i) {
            return false;
        }
        i = i + 1;
    }
    assert(a@ =~= b@);
    true
}

fn char_ascii_lower(c: char) -> (lower: u32)
    ensures
        lower == ascii_lower(c),
{
    let code = c as u32;
    if 65 <= code && code <= 90 {
        code + 32
    } else {
        code
    }
}

/// String equality ignoring the case of ASCII letters.
pub fn eq_ignore_ascii_case(a: &str, b: &str) -> (equal: bool)
    ensures
        equal == spec_eq_ignore_ascii_case(a@, b@),
{
    let n = a.unicode_len();
    if n != b.unicode_len() {
        return false;
    }
    let mut i: usize = 0;
    while i < n
        invariant
            n == a@.len(),
            n == b@.len(),
            0 <= i <= n,
            forall|j: int| 0 <= j < i ==> ascii_lower(#[trigger] a@[j]) == ascii_lower(b@[j]),
        decreases n - i,
    {
        if char_ascii_lower(a.get_char(i)) != char_ascii_lower(b.get_char(i)) {
            return false;
        }
        i = i + 1;
    }
    true
}

/// A field value found by name lies strictly inside the field list, so a
/// recursive decoder that descends into it terminates.
pub proof fn lemma_found_field_decreases(fields: Seq<Field>, name: Seq<char>)
    requires
        spec_find_field(fields, name) is Some,
    ensures
        decreases_to!(fields => spec_find_field(fields, name).unwrap()),
    decreases fields.len(),
{
    if fields[0].0@ == name {
        assert(decreases_to!(fields => fields[0]));
        assert(decreases_to!(fields[0] => fields[0].1));
    } else {
        lemma_found_field_decreases(fields.drop_first(), name);
        assert(decreases_to!(fields => fields.drop_first()));
    }
}

proof fn lemma_find_field_prefix(fields: Seq<Field>, name: Seq<char>, i: int)
    requires
        0 <= i <= fields.len(),
        forall|j: int| 0 <= j < i ==> (#[trigger] fields[j]).0@ != name,
    ensures
        spec_find_field(fields, name) == spec_find_field(fields.subrange(i, fields.len() as int), name),
    decreases i,
{
    if i > 0 {
        assert(fields.drop_first() =~= fields.subrange(1, fields.len() as int));
        let rest = fields.drop_first();
        assert forall|j: int| 0 <= j < i - 1 implies (#[trigger] rest[j]).0@ != name by {
            assert(rest[j] == fields[j + 1]);
        }
        lemma_find_field_prefix(rest, name, i - 1);
        assert(rest.subrange(i - 1, rest.len() as int) =~= fields.subrange(i, fields.len() as int));
    } else {
        assert(fields.subrange(0, fields.len() as int) =~= fields);
    }
}

proof fn lemma_find_field_ci_prefix(fields: Seq<Field>, name: Seq<char>, i: int)
    requires
        0 <= i <= fields.len(),
        forall|j: int| 0 <= j < i ==> !spec_eq_ignore_ascii_case((#[trigger] fields[j]).0@, name),
    ensures
        spec_find_field_ci(fields, name) == spec_find_field_ci(
            fields.subrange(i, fields.len() as int),
            name,
        ),
    decreases i,
{
    if i > 0 {
        assert(fields.drop_first() =~= fields.subrange(1, fields.len() as int));
        let rest = fields.drop_first();
        assert forall|j: int| 0 <= j < i - 1 implies !spec_eq_ignore_ascii_case(
            (#[trigger] rest[j]).0@,
            name,
        ) by {
            assert(rest[j] == fields[j + 1]);
        }
        lemma_find_field_ci_prefix(rest, name, i - 1);
        assert(rest.subrange(i - 1, rest.len() as int) =~= fields.subrange(i, fields.len() as int));
    } else {
        assert(fields.subrange(0, fields.len() as int) =~= fields);
    }
}

/// Look up a field by its exact name.
pub fn find_field<'a>(fields: &'a Vec<Field>, name: &str) -> (found: Option<&'a Value>)
    ensures
        match found {
            Some(v) => spec_find_field(fields@, name@) == Some(*v),
            None => spec_find_field(fields@, name@) is None,
        },
{
    let mut i: usize = 0;
    while i < fields.len()
        invariant
            0 <= i <= fields.len(),
            forall|j: int| 0 <= j < i ==> (#[trigger] fields@[j]).0@ != name@,
        decreases fields.len() - i,
    {
        if str_eq(fields[i].0.as_str(), name) {
            proof {
                lemma_find_field_prefix(fields@, name@, i as int);
            }
            return Some(&fields[i].1);
        }
        i = i + 1;
    }
    proof {
        lemma_find_field_prefix(fields@, name@, i as int);
    }
    None
}

/// Look up a field by name, comparing ASCII letters without case.
pub fn find_field_ci<'a>(fields: &'a Vec<Field>, name: &str) -> (found: Option<&'a Value>)
    ensures
        match found {
            Some(v) => spec_find_field_ci(fields@, name@) == Some(*v),
            None => spec_find_field_ci(fields@, name@) is None,
        },
{
    let mut i: usize = 0;
    while i < fields.len()
        invariant
            0 <= i <= fields.len(),
            forall|j: int| 0 <= j < i ==> !spec_eq_ignore_ascii_case((#[trigger] fields@[j]).0@, name@),
        decreases fields.len() - i,
    {
        if eq_ignore_ascii_case(fields[i].0.as_str(), name) {
            proof {
                lemma_find_field_ci_prefix(fields@, name@, i as int);
            }
            return Some(&fields[i].1);
        }
        i = i + 1;
    }
    proof {
        lemma_find_field_ci_prefix(fields@, name@, i as int);
    }
    None
}

} // verus!
