use fpas_tui::error::TuiError;
use fpas_tui::outline::{
    decode_outline_node, flatten_visible_labels, initial_outline_selection,
    outline_label_at_flat_index, TurboVisionOutlineNode,
};
use fpas_tui::store::TurboVisionState;
use fpas_tui::value::Value;
use fpas_tui::worker::{TuiState, Worker, HostHandlers};
use std::collections::HashMap;

#[test]
fn flatten_respects_expanded_state() {
    let roots = vec![TurboVisionOutlineNode {
        text: "root".into(),
        expanded: false,
        children: vec![TurboVisionOutlineNode {
            text: "hidden".into(),
            expanded: false,
            children: Vec::new(),
        }],
    }];

    assert_eq!(flatten_visible_labels(&roots), vec!["root".to_string()]);

    let expanded = vec![TurboVisionOutlineNode {
        text: "root".into(),
        expanded: true,
        children: vec![TurboVisionOutlineNode {
            text: "visible".into(),
            expanded: false,
            children: Vec::new(),
        }],
    }];
    assert_eq!(
        flatten_visible_labels(&expanded),
        vec!["root".to_string(), "visible".to_string()]
    );
}

fn leaf(text: &str) -> TurboVisionOutlineNode {
    TurboVisionOutlineNode { text: text.into(), expanded: false, children: Vec::new() }
}

#[test]
fn flatten_is_pre_order_over_the_forest() {
    let roots = vec![
        TurboVisionOutlineNode {
            text: "a".into(),
            expanded: true,
            children: vec![
                TurboVisionOutlineNode { text: "a1".into(), expanded: true, children: vec![leaf("a1x")] },
                leaf("a2"),
            ],
        },
        leaf("b"),
    ];
    assert_eq!(flatten_visible_labels(&roots), vec!["a", "a1", "a1x", "a2", "b"]);
    assert_eq!(outline_label_at_flat_index(&roots, 2), Some("a1x".to_string()));
    assert_eq!(outline_label_at_flat_index(&roots, 5), None);
}

#[test]
fn initial_selection_is_first_visible_node() {
    assert_eq!(initial_outline_selection(&Vec::new()), None);
    assert_eq!(initial_outline_selection(&vec![leaf("x")]), Some(0));
}

fn node_value(text: &str, expanded: bool, children: Vec<Value>) -> Value {
    Value::Record {
        record_type: "Std.Tui.OutlineNode".to_string(),
        fields: vec![
            ("text".to_string(), Value::Str(text.to_string())),
            ("children".to_string(), Value::Array(children)),
            ("expanded".to_string(), Value::Boolean(expanded)),
        ],
    }
}

#[test]
fn outline_node_decodes_nested_children() {
    let v = node_value(
        "root",
        true,
        vec![node_value("a", false, vec![node_value("a1", false, vec![])]), node_value("b", true, vec![])],
    );
    let node = decode_outline_node(&v).unwrap();
    assert_eq!(node.text, "root");
    assert!(node.expanded);
    assert_eq!(node.children.len(), 2);
    assert_eq!(node.children[0].text, "a");
    assert!(!node.children[0].expanded);
    assert_eq!(node.children[0].children[0].text, "a1");
    assert_eq!(node.children[1].text, "b");
    assert!(node.children[1].expanded);
    assert_eq!(
        flatten_visible_labels(&vec![node]),
        vec!["root".to_string(), "a".to_string(), "b".to_string()]
    );
}

#[test]
fn outline_node_rejects_wrong_record_and_fields() {
    assert_eq!(decode_outline_node(&Value::Integer(1)).unwrap_err(), TuiError::WrongRecordType);
    let wrong_type = Value::Record { record_type: "Std.Tui.Menu".to_string(), fields: vec![] };
    assert_eq!(decode_outline_node(&wrong_type).unwrap_err(), TuiError::WrongRecordType);
    let no_text = Value::Record {
        record_type: "Std.Tui.OutlineNode".to_string(),
        fields: vec![("expanded".to_string(), Value::Boolean(true))],
    };
    assert_eq!(decode_outline_node(&no_text).unwrap_err(), TuiError::MissingRecordField);
    let bad_expanded = Value::Record {
        record_type: "Std.Tui.OutlineNode".to_string(),
        fields: vec![
            ("text".to_string(), Value::Str("x".to_string())),
            ("expanded".to_string(), Value::Integer(1)),
        ],
    };
    assert_eq!(decode_outline_node(&bad_expanded).unwrap_err(), TuiError::WrongFieldKind);
    let no_children = Value::Record {
        record_type: "Std.Tui.OutlineNode".to_string(),
        fields: vec![
            ("text".to_string(), Value::Str("x".to_string())),
            ("expanded".to_string(), Value::Boolean(false)),
        ],
    };
    assert_eq!(decode_outline_node(&no_children).unwrap_err(), TuiError::MissingRecordField);
    let bad_children = Value::Record {
        record_type: "Std.Tui.OutlineNode".to_string(),
        fields: vec![
            ("text".to_string(), Value::Str("x".to_string())),
            ("expanded".to_string(), Value::Boolean(false)),
            ("children".to_string(), Value::Str("no".to_string())),
        ],
    };
    assert_eq!(decode_outline_node(&bad_children).unwrap_err(), TuiError::WrongFieldKind);
}

#[test]
fn outline_child_error_fails_the_whole_tree() {
    let v = node_value("root", true, vec![node_value("ok", false, vec![]), Value::Boolean(true)]);
    assert_eq!(decode_outline_node(&v).unwrap_err(), TuiError::WrongRecordType);
}

fn worker_with(stack: Vec<Value>) -> Worker {
    Worker {
        stack,
        tui: TuiState {
            headless: true,
            quit_requested: false,
            run_active: false,
            host_stop_requested: false,
            on_command: None,
            turbo_vision_on_key: None,
            turbo_vision_on_mouse: None,
            host: HostHandlers::new(),
            turbo_vision: TurboVisionState::new(),
            headless_repaint_requested: false,
            live_view_ids: HashMap::new(),
            live_child_root_view_ids: HashMap::new(),
        },
        live_turbo_vision_app: None,
        headless_tv_app: None,
        input_line_view_bindings: HashMap::new(),
        functions: Vec::new(),
        current_task_id: 0,
        test_console_events: Vec::new(),
    }
}

#[test]
fn pop_outline_roots_reads_an_array_of_nodes() {
    let mut w = worker_with(vec![Value::Array(vec![node_value("r1", false, vec![]), node_value("r2", false, vec![])])]);
    let roots = w.pop_outline_roots().unwrap();
    assert_eq!(roots.len(), 2);
    assert_eq!(roots[1].text, "r2");
    assert!(w.stack.is_empty());

    let mut w = worker_with(vec![Value::Str("x".to_string())]);
    assert_eq!(w.pop_outline_roots().unwrap_err(), TuiError::NotAnArray);
    assert!(w.stack.is_empty());

    let mut w = worker_with(vec![]);
    assert_eq!(w.pop_outline_roots().unwrap_err(), TuiError::StackUnderflow);
}
