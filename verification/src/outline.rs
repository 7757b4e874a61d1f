//! Outline trees: decoding `OutlineNode` records and visible-label
//! flattening in `OutlineViewer` order.
use vstd::prelude::*;
use crate::error::TuiError;
use crate::records::{spec_string_field, string_field};
use crate::value::{Field, Value, find_field, lemma_found_field_decreases, spec_find_field, str_eq};
use crate::worker::{Worker, spec_arg, spec_popped, spec_same_but_stack};

verus! {

/// One outline node as held by the FPAS side.
#[derive(Debug)]
pub struct TurboVisionOutlineNode {
    pub text: String,
    pub children: Vec<TurboVisionOutlineNode>,
    pub expanded: bool,
}

/// Labels of `node` and, when it is expanded, of its visible descendants,
/// in pre-order.
pub open spec fn spec_flatten_node(node: TurboVisionOutlineNode) -> Seq<Seq<char>>
    decreases node, 1int,
{
    seq![node.text@] + if node.expanded {
        spec_flatten_nodes(node.children@)
    } else {
        Seq::empty()
    }
}

/// The visible labels of a forest of outline nodes, in pre-order.
pub open spec fn spec_flatten_nodes(nodes: Seq<TurboVisionOutlineNode>) -> Seq<Seq<char>>
    decreases nodes, 0int,
{
    if nodes.len() == 0 {
        Seq::empty()
    } else {
        spec_flatten_node(nodes[0]) + spec_flatten_nodes(nodes.subrange(1, nodes.len() as int))
    }
}

/// The string views of a vector of strings.
pub open spec fn spec_views(v: Seq<String>) -> Seq<Seq<char>> {
    v.map_values(|s: String| s@)
}

/// Append the labels of `node` and its visible descendants to `labels`.
pub fn flatten_visible_node(node: &TurboVisionOutlineNode, labels: &mut Vec<String>, is_last: bool)
    ensures
        spec_views(final(labels)@) == spec_views(old(labels)@) + spec_flatten_node(*node),
    decreases node, 1int,
{
    labels.push(node.text.clone());
    let ghost after_self = labels@;
    assert(spec_views(labels@) =~= spec_views(old(labels)@) + seq![node.text@]);
    if node.expanded {
        flatten_visible_nodes(&node.children, labels);
    }
    assert(spec_views(labels@) =~= spec_views(old(labels)@) + spec_flatten_node(*node));
}

/// Append the visible labels of a forest of nodes to `labels`.
fn flatten_visible_nodes(nodes: &Vec<TurboVisionOutlineNode>, labels: &mut Vec<String>)
    ensures
        spec_views(final(labels)@) == spec_views(old(labels)@) + spec_flatten_nodes(nodes@),
    decreases nodes@, 0int,
{
    let n = nodes.len();
    let mut i: usize = 0;
    assert(nodes@.subrange(0, n as int) =~= nodes@);
    while i < n
        invariant
            n == nodes@.len(),
            0 <= i <= n,
            spec_views(labels@) + spec_flatten_nodes(nodes@.subrange(i as int, n as int))
                == spec_views(old(labels)@) + spec_flatten_nodes(nodes@),
        decreases n - i,
    {
        let ghost before = labels@;
        let ghost rest = nodes@.subrange(i as int, n as int);
        assert(rest[0] == nodes@[i as int]);
        assert(rest.subrange(1, rest.len() as int) =~= nodes@.subrange(i + 1, n as int));
        proof {
            assert(decreases_to!(nodes@ => nodes@[i as int]));
        }
        flatten_visible_node(&nodes[i], labels, i + 1 == n);
        assert(spec_views(labels@) + spec_flatten_nodes(nodes@.subrange(i + 1, n as int))
            =~= spec_views(before) + spec_flatten_nodes(rest));
        i = i + 1;
    }
    assert(nodes@.subrange(n as int, n as int) =~= Seq::<TurboVisionOutlineNode>::empty());
    assert(spec_views(labels@) =~= spec_views(labels@) + Seq::<Seq<char>>::empty());
}

/// Visible node labels in the order an `OutlineViewer` lists them.
pub fn flatten_visible_labels(roots: &Vec<TurboVisionOutlineNode>) -> (labels: Vec<String>)
    ensures
        spec_views(labels@) == spec_flatten_nodes(roots@),
{
    let mut labels: Vec<String> = Vec::new();
    flatten_visible_nodes(roots, &mut labels);
    assert(spec_views(Seq::<String>::empty()) =~= Seq::<Seq<char>>::empty());
    assert(Seq::<Seq<char>>::empty() + spec_flatten_nodes(roots@) =~= spec_flatten_nodes(roots@));
    labels
}

/// The selection a newly built outline starts with: the first visible node.
pub fn initial_outline_selection(roots: &Vec<TurboVisionOutlineNode>) -> (selection: Option<usize>)
    ensures
        selection == if spec_flatten_nodes(roots@).len() == 0 {
            None
        } else {
            Some(0usize)
        },
{
    let labels = flatten_visible_labels(roots);
    if labels.len() == 0 {
        None
    } else {
        Some(0)
    }
}

/// The label at a flat visible index, if any.
pub fn outline_label_at_flat_index(roots: &Vec<TurboVisionOutlineNode>, index: usize) -> (label: Option<String>)
    ensures
        match label {
            Some(l) => index < spec_flatten_nodes(roots@).len() && l@ == spec_flatten_nodes(roots@)[index as int],
            None => index >= spec_flatten_nodes(roots@).len(),
        },
{
    let labels = flatten_visible_labels(roots);
    if index < labels.len() {
        assert(spec_views(labels@)[index as int] == labels@[index as int]@);
        Some(labels[index].clone())
    } else {
        None
    }
}


pub const TUI_OUTLINE_NODE_TYPE: &'static str = "Std.Tui.OutlineNode";

/// An outline tree as mathematical values.
pub struct OutlineTree {
    pub text: Seq<char>,
    pub children: Seq<OutlineTree>,
    pub expanded: bool,
}

/// The mathematical tree that a node holds.
pub open spec fn spec_tree(node: TurboVisionOutlineNode) -> OutlineTree
    decreases node, 1int,
{
    OutlineTree { text: node.text@, children: spec_trees(node.children@), expanded: node.expanded }
}

/// The mathematical trees that a sequence of nodes holds.
pub open spec fn spec_trees(nodes: Seq<TurboVisionOutlineNode>) -> Seq<OutlineTree>
    decreases nodes, 0int,
{
    if nodes.len() == 0 {
        Seq::empty()
    } else {
        spec_trees(nodes.drop_last()).push(spec_tree(nodes.last()))
    }
}

/// A boolean field looked up by its exact name.
pub open spec fn spec_exact_bool_field(fields: Seq<Field>, name: Seq<char>) -> Result<bool, TuiError> {
    match spec_find_field(fields, name) {
        Some(Value::Boolean(b)) => Ok(b),
        Some(_) => Err(TuiError::WrongFieldKind),
        None => Err(TuiError::MissingRecordField),
    }
}

/// Decode an `OutlineNode` record: its `text`, then `expanded`, then each
/// of its `children` in order; the first failure is the result.
pub open spec fn spec_decode_outline(v: Value) -> Result<OutlineTree, TuiError>
    decreases v, 1int,
{
    match v {
        Value::Record { record_type, fields } => if record_type@ != TUI_OUTLINE_NODE_TYPE@ {
            Err(TuiError::WrongRecordType)
        } else {
            match spec_string_field(fields@, "text"@) {
                Err(e) => Err(e),
                Ok(text) => match spec_exact_bool_field(fields@, "expanded"@) {
                    Err(e) => Err(e),
                    Ok(expanded) => match spec_find_field(fields@, "children"@) {
                        None => Err(TuiError::MissingRecordField),
                        Some(Value::Array(vs)) => {
                            proof {
                                lemma_found_field_decreases(fields@, "children"@);
                                assert(decreases_to!(v => fields));
                                assert(decreases_to!(fields => fields@));
                            }
                            match spec_decode_outlines(vs@) {
                                Err(e) => Err(e),
                                Ok(children) => Ok(OutlineTree { text, children, expanded }),
                            }
                        },
                        Some(_) => Err(TuiError::WrongFieldKind),
                    },
                },
            }
        },
        _ => Err(TuiError::WrongRecordType),
    }
}

/// Decode each value as an `OutlineNode`, in order; the first failure is the
/// result.
pub open spec fn spec_decode_outlines(vs: Seq<Value>) -> Result<Seq<OutlineTree>, TuiError>
    decreases vs, 0int,
{
    if vs.len() == 0 {
        Ok(Seq::empty())
    } else {
        match spec_decode_outline(vs[0]) {
            Err(e) => Err(e),
            Ok(t) => match spec_decode_outlines(vs.subrange(1, vs.len() as int)) {
                Err(e) => Err(e),
                Ok(rest) => Ok(seq![t] + rest),
            },
        }
    }
}

/// The roots argument of an outline: an array of `OutlineNode` records.
pub open spec fn spec_decode_outline_roots(v: Value) -> Result<Seq<OutlineTree>, TuiError> {
    match v {
        Value::Array(vs) => spec_decode_outlines(vs@),
        _ => Err(TuiError::NotAnArray),
    }
}

/// `prefix` put in front of a decoded rest, or the rest's failure.
pub open spec fn spec_prepend_trees(prefix: Seq<OutlineTree>, rest: Result<Seq<OutlineTree>, TuiError>) -> Result<Seq<OutlineTree>, TuiError> {
    match rest {
        Ok(r) => Ok(prefix + r),
        Err(e) => Err(e),
    }
}

/// Read a boolean field by its exact name.
pub fn exact_bool_field(fields: &Vec<Field>, name: &str) -> (r: Result<bool, TuiError>)
    ensures
        r == spec_exact_bool_field(fields@, name@),
{
    match find_field(fields, name) {
        Some(Value::Boolean(b)) => Ok(*b),
        Some(_) => Err(TuiError::WrongFieldKind),
        None => Err(TuiError::MissingRecordField),
    }
}

/// Decode one `Std.Tui.OutlineNode` record and, recursively, its children.
pub fn decode_outline_node(value: &Value) -> (r: Result<TurboVisionOutlineNode, TuiError>)
    ensures
        match r {
            Ok(n) => spec_decode_outline(*value) == Ok::<OutlineTree, TuiError>(spec_tree(n)),
            Err(e) => spec_decode_outline(*value) == Err::<OutlineTree, TuiError>(e),
        },
    decreases *value, 2int,
{
    match value {
        Value::Record { record_type, fields } => {
            if !str_eq(record_type.as_str(), TUI_OUTLINE_NODE_TYPE) {
                return Err(TuiError::WrongRecordType);
            }
            let text = string_field(fields, "text")?;
            let expanded = exact_bool_field(fields, "expanded")?;
            proof {
                assert(decreases_to!(*value => *fields));
                assert(decreases_to!(*fields => fields@));
            }
            let children = children_field(fields)?;
            Ok(TurboVisionOutlineNode { text, children, expanded })
        },
        _ => Err(TuiError::WrongRecordType),
    }
}

/// Decode the `children` array of an `OutlineNode` record's fields.
fn children_field(fields: &Vec<Field>) -> (r: Result<Vec<TurboVisionOutlineNode>, TuiError>)
    ensures
        match r {
            Ok(ns) => match spec_find_field(fields@, "children"@) {
                Some(Value::Array(vs)) => spec_decode_outlines(vs@) == Ok::<Seq<OutlineTree>, TuiError>(spec_trees(ns@)),
                _ => false,
            },
            Err(e) => match spec_find_field(fields@, "children"@) {
                None => e == TuiError::MissingRecordField,
                Some(Value::Array(vs)) => spec_decode_outlines(vs@) == Err::<Seq<OutlineTree>, TuiError>(e),
                Some(_) => e == TuiError::WrongFieldKind,
            },
        },
    decreases fields@, 1int,
{
    match find_field(fields, "children") {
        None => Err(TuiError::MissingRecordField),
        Some(Value::Array(vs)) => {
            proof {
                lemma_found_field_decreases(fields@, "children"@);
                assert(decreases_to!(fields@ => *vs));
                assert(decreases_to!(*vs => vs@));
            }
            decode_outline_nodes(vs)
        },
        Some(_) => Err(TuiError::WrongFieldKind),
    }
}

/// Decode each value as an `OutlineNode`, stopping at the first failure.
fn decode_outline_nodes(vs: &Vec<Value>) -> (r: Result<Vec<TurboVisionOutlineNode>, TuiError>)
    ensures
        match r {
            Ok(ns) => spec_decode_outlines(vs@) == Ok::<Seq<OutlineTree>, TuiError>(spec_trees(ns@)),
            Err(e) => spec_decode_outlines(vs@) == Err::<Seq<OutlineTree>, TuiError>(e),
        },
    decreases vs@, 0int,
{
    let n = vs.len();
    let mut out: Vec<TurboVisionOutlineNode> = Vec::new();
    let mut i: usize = 0;
    assert(vs@.subrange(0, n as int) =~= vs@);
    assert(spec_trees(out@) =~= Seq::<OutlineTree>::empty());
    while i < n
        invariant
            n == vs@.len(),
            0 <= i <= n,
            spec_decode_outlines(vs@) == spec_prepend_trees(
                spec_trees(out@),
                spec_decode_outlines(vs@.subrange(i as int, n as int)),
            ),
        decreases n - i,
    {
        let ghost rest = vs@.subrange(i as int, n as int);
        assert(rest[0] == vs@[i as int]);
        assert(rest.subrange(1, rest.len() as int) =~= vs@.subrange(i + 1, n as int));
        proof {
            assert(decreases_to!(vs@ => vs@[i as int]));
        }
        let node = decode_outline_node(&vs[i]);
        match node {
            Err(e) => {
                return Err(e);
            },
            Ok(node) => {
                let ghost before = out@;
                out.push(node);
                assert(out@.drop_last() =~= before);
                assert(spec_trees(out@) == spec_trees(before).push(spec_tree(node)));
                assert(spec_trees(before).push(spec_tree(node)) =~= spec_trees(before) + seq![spec_tree(node)]);
                proof {
                    match spec_decode_outlines(vs@.subrange(i + 1, n as int)) {
                        Ok(r) => {
                            assert(spec_trees(before) + (seq![spec_tree(node)] + r) =~= spec_trees(out@) + r);
                        },
                        Err(_) => {},
                    }
                }
            },
        }
        i = i + 1;
    }
    assert(vs@.subrange(n as int, n as int) =~= Seq::<Value>::empty());
    assert(spec_trees(out@) + Seq::<OutlineTree>::empty() =~= spec_trees(out@));
    Ok(out)
}

impl Worker {
    /// Pop an array of `Std.Tui.OutlineNode` records from the stack.
    pub fn pop_outline_roots(&mut self) -> (r: Result<Vec<TurboVisionOutlineNode>, TuiError>)
        ensures
            spec_same_but_stack(*final(self), *old(self)),
            old(self).stack@.len() == 0 ==> r == Err::<Vec<TurboVisionOutlineNode>, TuiError>(TuiError::StackUnderflow)
                && final(self).stack@ == old(self).stack@,
            old(self).stack@.len() > 0 ==> final(self).stack@ == spec_popped(old(self).stack@, 1)
                && match r {
                Ok(ns) => spec_decode_outline_roots(spec_arg(old(self).stack@, 0)) == Ok::<Seq<OutlineTree>, TuiError>(spec_trees(ns@)),
                Err(e) => spec_decode_outline_roots(spec_arg(old(self).stack@, 0)) == Err::<Seq<OutlineTree>, TuiError>(e),
            },
    {
        let v = self.pop()?;
        match &v {
            Value::Array(values) => decode_outline_nodes(values),
            _ => Err(TuiError::NotAnArray),
        }
    }
}

} // verus!
