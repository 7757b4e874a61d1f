use fpas_tui::decode::{TurboVisionChildHandle, TvRect};
use fpas_tui::error::{ErrorCode, TuiError};
use fpas_tui::intrinsics::DialogRun;
use fpas_tui::live_patch::{LiveDataMutation, LivePatchAction};
use fpas_tui::paint::{headless_paint_ops, paint_text, HeadlessCell};
use fpas_tui::store::{TurboVisionObject, TurboVisionState};
use fpas_tui::value::Value;
use fpas_tui::worker::{TuiState, Worker, HostHandlers};
use fpas_tui::host::HostHandlerSlot;
use std::collections::HashMap;

fn worker() -> Worker {
    Worker {
        stack: Vec::new(),
        tui: TuiState {
            headless: true,
            quit_requested: false,
            run_active: false,
            host_stop_requested: false,
            on_command: None,
            turbo_vision_on_key: None,
            turbo_vision_on_mouse: None,
            host: HostHandlers::new(),
            turbo_vision: TurboVisionState::new(),
            headless_repaint_requested: false,
            live_view_ids: HashMap::new(),
            live_child_root_view_ids: HashMap::new(),
        },
        live_turbo_vision_app: None,
        headless_tv_app: None,
        input_line_view_bindings: HashMap::new(),
        functions: vec![("HandleCommand".to_string(), 2), ("Other".to_string(), 1)],
        current_task_id: 0,
        test_console_events: Vec::new(),
    }
}

fn record(ty: &str, fields: Vec<(&str, Value)>) -> Value {
    Value::Record {
        record_type: ty.to_string(),
        fields: fields.into_iter().map(|(n, v)| (n.to_string(), v)).collect(),
    }
}

fn app() -> Value {
    record("Std.Tui.Application", vec![])
}

fn rect(x: i64, y: i64, w: i64, h: i64) -> Value {
    record(
        "Std.Tui.Rect",
        vec![
            ("x", Value::Integer(x)),
            ("y", Value::Integer(y)),
            ("width", Value::Integer(w)),
            ("height", Value::Integer(h)),
        ],
    )
}

fn s(text: &str) -> Value {
    Value::Str(text.to_string())
}

fn handle_of(v: &Value) -> i64 {
    match v {
        Value::Record { fields, .. } => match &fields[0].1 {
            Value::Integer(n) => *n,
            _ => panic!("handle token is not an integer"),
        },
        _ => panic!("not a handle record"),
    }
}

fn handle(ty: &str, h: i64) -> Value {
    record(ty, vec![("__id", Value::Integer(h))])
}

fn create_dialog(w: &mut Worker) -> i64 {
    w.stack.push(app());
    w.stack.push(rect(1, 1, 40, 12));
    w.stack.push(s("Dialog"));
    w.turbo_vision_create_dialog().unwrap();
    handle_of(w.stack.last().unwrap())
}

#[test]
fn create_button_pushes_its_handle_record() {
    let mut w = worker();
    w.stack.push(app());
    w.stack.push(rect(2, 3, 10, 1));
    w.stack.push(s("OK"));
    w.stack.push(Value::Integer(700));
    assert_eq!(w.turbo_vision_create_button(), Ok(()));
    assert_eq!(w.stack.len(), 1);
    match w.stack.last().unwrap() {
        Value::Record { record_type, fields } => {
            assert_eq!(record_type, "Std.Tui.Button");
            assert_eq!(fields[0].0, "__id");
        }
        _ => panic!("expected a handle record"),
    }
    assert_eq!(handle_of(&w.stack[0]), 1);
    assert!(w.tui.turbo_vision.pending_reconcile);
    match w.tui.turbo_vision.object(1) {
        Some(TurboVisionObject::Button(b)) => {
            assert_eq!(b.text, "OK");
            assert_eq!(b.command_id, 700);
            assert_eq!(b.bounds, TvRect { x: 2, y: 3, width: 10, height: 1 });
            assert!(!b.attached);
        }
        _ => panic!("expected a button"),
    }
    assert_eq!(w.tui.turbo_vision.next_handle, 2);
}

#[test]
fn create_button_rejects_a_command_id_above_u16() {
    let mut w = worker();
    w.stack.push(app());
    w.stack.push(rect(2, 3, 10, 1));
    w.stack.push(s("OK"));
    w.stack.push(Value::Integer(70000));
    assert_eq!(w.turbo_vision_create_button(), Err(TuiError::IdOutOfRange));
    assert_eq!(w.stack.len(), 3);
    assert_eq!(w.tui.turbo_vision.next_handle, 1);
}

#[test]
fn create_with_empty_stack_underflows() {
    let mut w = worker();
    assert_eq!(w.turbo_vision_create_static_text(), Err(TuiError::StackUnderflow));
    assert_eq!(TuiError::StackUnderflow.code(), ErrorCode::StackUnderflow);
}

#[test]
fn create_rejects_non_application_record() {
    let mut w = worker();
    w.stack.push(s("not an app"));
    w.stack.push(rect(0, 0, 5, 1));
    w.stack.push(s("hi"));
    assert_eq!(w.turbo_vision_create_memo(), Err(TuiError::WrongRecordType));
    assert!(w.stack.is_empty());
}

#[test]
fn rect_with_zero_width_is_rejected() {
    let mut w = worker();
    w.stack.push(app());
    w.stack.push(rect(0, 0, 0, 1));
    w.stack.push(s("hi"));
    assert_eq!(w.turbo_vision_create_static_text(), Err(TuiError::DimensionNotPositive));
}

#[test]
fn input_line_longer_than_max_length_is_rejected() {
    let mut w = worker();
    w.stack.push(app());
    w.stack.push(rect(0, 0, 10, 1));
    w.stack.push(s("too long"));
    w.stack.push(Value::Integer(3));
    assert_eq!(w.turbo_vision_create_input_line(), Err(TuiError::TextTooLong));
    let mut w = worker();
    w.stack.push(app());
    w.stack.push(rect(0, 0, 10, 1));
    w.stack.push(s("x"));
    w.stack.push(Value::Integer(-1));
    assert_eq!(w.turbo_vision_create_input_line(), Err(TuiError::NegativeNumber));
}

#[test]
fn child_attaches_once() {
    let mut w = worker();
    let dialog = create_dialog(&mut w);
    w.stack.clear();
    w.stack.push(app());
    w.stack.push(rect(1, 1, 8, 1));
    w.stack.push(s("Label"));
    w.turbo_vision_create_static_text().unwrap();
    let text = handle_of(&w.stack.pop().unwrap());

    for expected in [Ok(()), Err(TuiError::AlreadyAttached { handle: text as u32 })] {
        w.stack.push(app());
        w.stack.push(handle("Std.Tui.Dialog", dialog));
        w.stack.push(handle("Std.Tui.StaticText", text));
        assert_eq!(w.turbo_vision_add_child(), expected);
        assert!(w.stack.is_empty());
    }
    match w.tui.turbo_vision.object(dialog as u32) {
        Some(TurboVisionObject::Dialog(d)) => assert_eq!(d.children, vec![text as u32]),
        _ => panic!("expected a dialog"),
    }
}

#[test]
fn add_child_to_unknown_parent_fails() {
    let mut w = worker();
    w.stack.push(app());
    w.stack.push(rect(1, 1, 8, 1));
    w.stack.push(s("Label"));
    w.turbo_vision_create_static_text().unwrap();
    let text = handle_of(&w.stack.pop().unwrap());
    w.stack.push(app());
    w.stack.push(handle("Std.Tui.Window", 99));
    w.stack.push(handle("Std.Tui.StaticText", text));
    assert_eq!(w.turbo_vision_add_child(), Err(TuiError::UnknownHandle { handle: 99 }));
}

fn create_input_line(w: &mut Worker, text: &str, max: i64) -> i64 {
    w.stack.push(app());
    w.stack.push(rect(0, 0, 20, 1));
    w.stack.push(s(text));
    w.stack.push(Value::Integer(max));
    w.turbo_vision_create_input_line().unwrap();
    handle_of(&w.stack.pop().unwrap())
}

#[test]
fn set_text_on_input_line_reads_back() {
    let mut w = worker();
    let h = create_input_line(&mut w, "old", 10);
    w.turbo_vision_register_input_line_view_binding(h as u32, "old".to_string());
    w.stack.push(app());
    w.stack.push(handle("Std.Tui.InputLine", h));
    w.stack.push(s("new text"));
    match w.turbo_vision_set_text() {
        Ok(LiveDataMutation::SetText { handle }) => assert_eq!(handle, h as u32),
        other => panic!("unexpected {:?}", other),
    }
    assert_eq!(w.input_line_view_bindings.get(&(h as u32)).unwrap(), "new text");
    w.stack.push(app());
    w.stack.push(handle("Std.Tui.InputLine", h));
    assert_eq!(w.turbo_vision_input_text(), Ok(()));
    match w.stack.pop().unwrap() {
        Value::Str(t) => assert_eq!(t, "new text"),
        _ => panic!("expected a string"),
    }
}

#[test]
fn set_text_respects_max_length_and_list_boxes() {
    let mut w = worker();
    let h = create_input_line(&mut w, "", 3);
    w.stack.push(app());
    w.stack.push(handle("Std.Tui.InputLine", h));
    w.stack.push(s("four"));
    assert!(matches!(w.turbo_vision_set_text(), Err(TuiError::TextTooLong)));

    w.stack.push(app());
    w.stack.push(rect(0, 0, 10, 5));
    w.stack.push(Value::Array(vec![s("a"), s("b")]));
    w.stack.push(Value::Integer(9));
    w.turbo_vision_create_list_box().unwrap();
    let list = handle_of(&w.stack.pop().unwrap());
    w.stack.push(app());
    w.stack.push(handle("Std.Tui.ListBox", list));
    w.stack.push(s("x"));
    assert!(matches!(w.turbo_vision_set_text(), Err(TuiError::SetTextOnListBox)));
}

fn create_radio(w: &mut Worker, group: i64, selected: bool) -> i64 {
    w.stack.push(app());
    w.stack.push(rect(0, 0, 10, 1));
    w.stack.push(s("r"));
    w.stack.push(Value::Integer(group));
    w.stack.push(Value::Boolean(selected));
    w.turbo_vision_create_radio_button().unwrap();
    handle_of(&w.stack.pop().unwrap())
}

fn selected(w: &mut Worker, h: i64) -> bool {
    w.stack.push(app());
    w.stack.push(handle("Std.Tui.RadioButton", h));
    w.turbo_vision_selected().unwrap();
    match w.stack.pop().unwrap() {
        Value::Boolean(b) => b,
        _ => panic!("expected a boolean"),
    }
}

#[test]
fn selecting_a_radio_button_clears_its_group() {
    let mut w = worker();
    let a = create_radio(&mut w, 1, true);
    let b = create_radio(&mut w, 1, false);
    let c = create_radio(&mut w, 2, true);
    w.stack.push(app());
    w.stack.push(handle("Std.Tui.RadioButton", b));
    w.stack.push(Value::Boolean(true));
    match w.turbo_vision_set_checked() {
        Ok(LiveDataMutation::SetChecked { handle }) => assert_eq!(handle, b as u32),
        other => panic!("unexpected {:?}", other),
    }
    assert!(!selected(&mut w, a));
    assert!(selected(&mut w, b));
    assert!(selected(&mut w, c));
    assert_eq!(w.turbo_vision_radio_group_handles(b as u32), vec![a as u32, b as u32]);
}

#[test]
fn check_box_state_round_trips() {
    let mut w = worker();
    w.stack.push(app());
    w.stack.push(rect(0, 0, 10, 1));
    w.stack.push(s("opt"));
    w.stack.push(Value::Boolean(false));
    w.turbo_vision_create_check_box().unwrap();
    let h = handle_of(&w.stack.pop().unwrap());
    w.stack.push(app());
    w.stack.push(handle("Std.Tui.CheckBox", h));
    w.stack.push(Value::Boolean(true));
    assert!(w.turbo_vision_set_checked().is_ok());
    w.stack.push(app());
    w.stack.push(handle("Std.Tui.CheckBox", h));
    w.turbo_vision_checked().unwrap();
    assert!(matches!(w.stack.pop().unwrap(), Value::Boolean(true)));
}

#[test]
fn set_items_resets_selection() {
    let mut w = worker();
    w.stack.push(app());
    w.stack.push(rect(0, 0, 10, 5));
    w.stack.push(Value::Array(vec![]));
    w.stack.push(Value::Integer(9));
    w.turbo_vision_create_list_box().unwrap();
    let list = handle_of(&w.stack.pop().unwrap());
    match w.tui.turbo_vision.object(list as u32) {
        Some(TurboVisionObject::ListBox(l)) => assert_eq!(l.selection, None),
        _ => panic!("expected a list box"),
    }
    w.stack.push(app());
    w.stack.push(handle("Std.Tui.ListBox", list));
    w.stack.push(Value::Array(vec![s("x"), s("y")]));
    match w.turbo_vision_set_items() {
        Ok(LiveDataMutation::SetListItems { handle, items, selection }) => {
            assert_eq!(handle, list as u32);
            assert_eq!(items, vec!["x".to_string(), "y".to_string()]);
            assert_eq!(selection, Some(0));
        }
        other => panic!("unexpected {:?}", other),
    }
    w.stack.push(app());
    w.stack.push(handle("Std.Tui.ListBox", list));
    w.stack.push(Value::Array(vec![s("x"), Value::Integer(1)]));
    assert!(matches!(w.turbo_vision_set_items(), Err(TuiError::ArrayElementNotString { index: 1 })));
}

#[test]
fn clicked_buttons_are_pumped_in_order_until_quit() {
    let mut w = worker();
    let mut buttons = Vec::new();
    for command in [11, 22] {
        w.stack.push(app());
        w.stack.push(rect(0, 0, 6, 1));
        w.stack.push(s("b"));
        w.stack.push(Value::Integer(command));
        w.turbo_vision_create_button().unwrap();
        buttons.push(handle_of(&w.stack.pop().unwrap()));
    }
    for b in [buttons[1], buttons[0]] {
        w.stack.push(app());
        w.stack.push(handle("Std.Tui.Button", b));
        w.turbo_vision_test_click_button().unwrap();
    }
    w.stack.push(app());
    assert_eq!(w.turbo_vision_pump(), Ok(Some(22)));
    w.stack.push(app());
    assert_eq!(w.turbo_vision_quit(), Ok(()));
    assert!(w.tui.quit_requested);
    w.stack.push(app());
    assert_eq!(w.turbo_vision_pump(), Ok(None));
    assert!(w.take_tui_host_quit_requested());
    assert!(!w.take_tui_host_quit_requested());
}

#[test]
fn menu_dispatch_queues_item_commands() {
    let mut w = worker();
    let item = |text: &str, c: i64| {
        record("Std.Tui.MenuItem", vec![("text", s(text)), ("commandId", Value::Integer(c))])
    };
    let menu = record(
        "Std.Tui.Menu",
        vec![("title", s("File")), ("items", Value::Array(vec![item("Open", 301), item("-", 0)]))],
    );
    w.stack.push(app());
    w.stack.push(rect(0, 0, 80, 1));
    w.stack.push(Value::Array(vec![menu]));
    w.turbo_vision_create_menu_bar().unwrap();
    let bar = handle_of(&w.stack.pop().unwrap());

    let dispatch = |w: &mut Worker, m: i64, i: i64| {
        w.stack.push(app());
        w.stack.push(handle("Std.Tui.MenuBar", bar));
        w.stack.push(Value::Integer(m));
        w.stack.push(Value::Integer(i));
        w.turbo_vision_test_dispatch_menu_command()
    };
    assert_eq!(dispatch(&mut w, 0, 0), Ok(()));
    assert_eq!(dispatch(&mut w, 0, 1), Err(TuiError::SeparatorDispatch));
    assert_eq!(dispatch(&mut w, 1, 0), Err(TuiError::MenuIndexOutOfRange));
    assert_eq!(dispatch(&mut w, 0, 5), Err(TuiError::MenuItemIndexOutOfRange));
    assert_eq!(dispatch(&mut w, 0, -1), Err(TuiError::NegativeNumber));
    assert_eq!(w.tui.turbo_vision.pending_commands, vec![301]);
}

#[test]
fn menu_records_need_their_fields() {
    let mut w = worker();
    let menu = record("Std.Tui.Menu", vec![("title", s("File"))]);
    w.stack.push(app());
    w.stack.push(rect(0, 0, 80, 1));
    w.stack.push(Value::Array(vec![menu]));
    assert_eq!(w.turbo_vision_create_menu_bar(), Err(TuiError::MissingRecordField));
    let mut w = worker();
    w.stack.push(app());
    w.stack.push(rect(0, 0, 80, 1));
    w.stack.push(s("not an array"));
    assert_eq!(w.turbo_vision_create_menu_bar(), Err(TuiError::WrongValueKind));
}

#[test]
fn chrome_is_installed_once() {
    let mut w = worker();
    let mut bars = Vec::new();
    for _ in 0..2 {
        w.stack.push(app());
        w.stack.push(rect(0, 0, 80, 1));
        w.stack.push(Value::Array(vec![]));
        w.turbo_vision_create_menu_bar().unwrap();
        bars.push(handle_of(&w.stack.pop().unwrap()));
    }
    let set = |w: &mut Worker, h: i64| {
        w.stack.push(app());
        w.stack.push(handle("Std.Tui.MenuBar", h));
        w.turbo_vision_set_menu_bar()
    };
    assert_eq!(set(&mut w, bars[0]), Ok(()));
    assert_eq!(set(&mut w, bars[0]), Err(TuiError::ChromeAlreadyAttached { handle: bars[0] as u32 }));
    assert_eq!(set(&mut w, bars[1]), Err(TuiError::ChromeAlreadySet));
    assert_eq!(w.tui.turbo_vision.menu_bar, Some(bars[0] as u32));
}

#[test]
fn status_line_items_decode() {
    let mut w = worker();
    let item = record(
        "Std.Tui.StatusItem",
        vec![("text", s("~Alt-X~ Exit")), ("keyCode", Value::Integer(300)), ("commandId", Value::Integer(1))],
    );
    w.stack.push(app());
    w.stack.push(rect(0, 24, 80, 1));
    w.stack.push(Value::Array(vec![item]));
    w.turbo_vision_create_status_line().unwrap();
    let h = handle_of(&w.stack.pop().unwrap());
    match w.tui.turbo_vision.object(h as u32) {
        Some(TurboVisionObject::StatusLine(l)) => {
            assert_eq!(l.items.len(), 1);
            assert_eq!(l.items[0].text, "~Alt-X~ Exit");
            assert_eq!(l.items[0].key_code, 300);
            assert_eq!(l.items[0].command_id, 1);
        }
        _ => panic!("expected a status line"),
    }
}

#[test]
fn headless_exec_dialog_takes_the_queued_result_once() {
    let mut w = worker();
    let dialog = create_dialog(&mut w);
    w.stack.clear();
    w.stack.push(app());
    w.stack.push(Value::Integer(10));
    w.turbo_vision_test_set_dialog_result().unwrap();
    for expected in [10, 0] {
        w.stack.push(app());
        w.stack.push(handle("Std.Tui.Dialog", dialog));
        assert_eq!(w.turbo_vision_exec_dialog(), Ok(DialogRun::Finished { command: expected }));
        match w.stack.pop().unwrap() {
            Value::Record { record_type, fields } => {
                assert_eq!(record_type, "Std.Tui.DialogResult");
                assert_eq!(fields[0].0, "command");
                assert!(matches!(fields[0].1, Value::Integer(c) if c == expected));
            }
            _ => panic!("expected a dialog result"),
        }
    }
}

#[test]
fn exec_dialog_runs_live_or_refuses_off_the_main_task() {
    let mut w = worker();
    let dialog = create_dialog(&mut w);
    w.stack.clear();
    w.tui.headless = false;
    w.stack.push(app());
    w.stack.push(handle("Std.Tui.Dialog", dialog));
    assert_eq!(w.turbo_vision_exec_dialog(), Ok(DialogRun::RunLive { dialog: dialog as u32 }));
    w.current_task_id = 3;
    w.stack.push(app());
    w.stack.push(handle("Std.Tui.Dialog", dialog));
    assert_eq!(w.turbo_vision_exec_dialog(), Err(TuiError::NotMainTask));
    assert_eq!(TuiError::NotMainTask.code(), ErrorCode::ConsoleState);
}

#[test]
fn handlers_are_checked_before_registration() {
    let mut w = worker();
    let f = |name: &str| Value::Function { name: name.to_string() };
    w.stack.push(app());
    w.stack.push(f("HandleCommand"));
    assert_eq!(w.turbo_vision_register_on_command(), Ok(()));
    assert!(matches!(&w.tui.on_command, Some(Value::Function { name }) if name == "HandleCommand"));
    w.stack.push(app());
    w.stack.push(f("Other"));
    assert_eq!(w.turbo_vision_register_on_key(), Err(TuiError::WrongArity { expected: 2, found: 1 }));
    w.stack.push(app());
    w.stack.push(f("Missing"));
    assert_eq!(w.turbo_vision_register_on_mouse(), Err(TuiError::UndefinedFunction));
    w.stack.push(app());
    w.stack.push(Value::Integer(3));
    assert_eq!(w.turbo_vision_register_on_mouse(), Err(TuiError::NotAFunction));
    assert!(w.tui.turbo_vision_on_key.is_none());
    assert!(w.tui.turbo_vision_on_mouse.is_none());
}

#[test]
fn wrong_handle_type_is_rejected() {
    let mut w = worker();
    w.stack.push(app());
    w.stack.push(handle("Std.Tui.Memo", 1));
    assert_eq!(w.turbo_vision_checked(), Err(TuiError::WrongHandleType));
    w.stack.push(app());
    w.stack.push(handle("Std.Tui.CheckBox", 0));
    assert_eq!(w.turbo_vision_checked(), Err(TuiError::HandleOutOfRange));
    w.stack.push(app());
    w.stack.push(record("Std.Tui.CheckBox", vec![]));
    assert_eq!(w.turbo_vision_checked(), Err(TuiError::MissingHandleToken));
    w.stack.push(app());
    w.stack.push(handle("Std.Tui.CheckBox", 5));
    assert_eq!(w.turbo_vision_checked(), Err(TuiError::UnknownHandle { handle: 5 }));
}

#[test]
fn child_handle_knows_its_label() {
    assert_eq!(TurboVisionChildHandle::InputLine(4).handle(), 4);
    assert_eq!(TurboVisionChildHandle::InputLine(4).label(), "InputLine");
    assert_eq!(TurboVisionChildHandle::RadioButton(9).label(), "RadioButton");
}

#[test]
fn handler_records_yield_checked_handlers() {
    let w = worker();
    let handlers = record(
        "Std.Tui.ApplicationHandlers",
        vec![
            ("OnCommand", Value::OptionSome(Box::new(Value::Function { name: "HandleCommand".to_string() }))),
            ("OnIdle", Value::OptionNone),
            ("OnKey", Value::OptionSome(Box::new(Value::Function { name: "Other".to_string() }))),
            ("OnMouse", Value::Integer(1)),
        ],
    );
    let mut w2 = worker();
    w2.stack.push(handlers);
    let fields = w2.pop_tui_application_handlers().unwrap();
    match w.optional_host_handler_field(&fields, "oncommand", 2) {
        Ok(Some(Value::Function { name })) => assert_eq!(name, "HandleCommand"),
        other => panic!("unexpected {:?}", other),
    }
    assert!(matches!(w.optional_host_handler_field(&fields, "OnIdle", 1), Ok(None)));
    assert!(matches!(
        w.optional_host_handler_field(&fields, "OnKey", 2),
        Err(TuiError::WrongArity { expected: 2, found: 1 })
    ));
    assert!(matches!(w.optional_host_handler_field(&fields, "OnMouse", 2), Err(TuiError::WrongOptionOperand)));
    assert!(matches!(w.optional_host_handler_field(&fields, "OnResize", 2), Err(TuiError::MissingField)));
    w2.stack.push(app());
    assert!(matches!(w2.pop_tui_application_handlers(), Err(TuiError::WrongRecordType)));
}

#[test]
fn new_objects_get_fresh_handles() {
    let mut w = worker();
    let a = create_dialog(&mut w);
    let b = create_dialog(&mut w);
    assert_ne!(a, b);
    assert_eq!(w.tui.turbo_vision.next_handle, 3);
}

#[test]
fn headless_paint_shows_dialog_title_and_children() {
    let mut w = worker();
    let dialog = create_dialog(&mut w);
    w.stack.clear();
    w.stack.push(app());
    w.stack.push(rect(2, 3, 10, 1));
    w.stack.push(s("OK"));
    w.stack.push(Value::Integer(700));
    w.turbo_vision_create_button().unwrap();
    let button = handle_of(&w.stack.pop().unwrap());
    w.stack.push(app());
    w.stack.push(handle("Std.Tui.Dialog", dialog));
    w.stack.push(handle("Std.Tui.Button", button));
    w.turbo_vision_add_child().unwrap();

    let ops = headless_paint_ops(&w.tui.turbo_vision);
    assert_eq!(ops.len(), 2);
    assert_eq!((ops[0].x, ops[0].y, ops[0].text.as_str(), ops[0].fg, ops[0].bg), (2, 1, "Dialog", 15, 1));
    assert_eq!((ops[1].x, ops[1].y, ops[1].text.as_str(), ops[1].fg, ops[1].bg), (3, 4, "OK", 7, 0));
}

#[test]
fn paint_text_clips_to_the_screen() {
    let mut cells: Vec<HeadlessCell> = Vec::new();
    paint_text(&mut cells, 4, 2, 3, 1, "abc", 7, 0);
    assert_eq!(cells.len(), 2);
    assert_eq!(cells[0], HeadlessCell { col: 3, row: 1, ch: 'a', fg: 7, bg: 0 });
    assert_eq!(cells[1], HeadlessCell { col: 4, row: 1, ch: 'b', fg: 7, bg: 0 });
    paint_text(&mut cells, 4, 2, 1, 3, "zz", 7, 0);
    assert_eq!(cells.len(), 2);
    paint_text(&mut cells, 4, 2, -1, 2, "xyz", 1, 2);
    assert_eq!(cells.len(), 3);
    assert_eq!(cells[2], HeadlessCell { col: 1, row: 2, ch: 'z', fg: 1, bg: 2 });
}

#[test]
fn create_text_viewer_stores_its_text() {
    let mut w = worker();
    w.stack.push(app());
    w.stack.push(rect(1, 2, 20, 5));
    w.stack.push(s("line one"));
    w.turbo_vision_create_text_viewer().unwrap();
    let h = handle_of(w.stack.last().unwrap());
    match w.stack.last().unwrap() {
        Value::Record { record_type, .. } => assert_eq!(record_type, "Std.Tui.TextViewer"),
        _ => panic!("expected a handle record"),
    }
    match w.tui.turbo_vision.object(h as u32) {
        Some(TurboVisionObject::TextViewer(t)) => assert_eq!(t.text, "line one"),
        _ => panic!("expected a text viewer"),
    }
}

#[test]
fn outline_readback_needs_an_outline_handle() {
    let mut w = worker();
    w.stack.push(app());
    w.stack.push(handle("Std.Tui.Outline", 5));
    assert_eq!(
        w.turbo_vision_outline_selection(),
        Err(TuiError::UnknownHandle { handle: 5 })
    );
    w.stack.clear();
    w.stack.push(app());
    w.stack.push(handle("Std.Tui.Button", 5));
    assert_eq!(w.turbo_vision_outline_selected_text(), Err(TuiError::WrongHandleType));
}

fn func(name: &str) -> Value {
    Value::Function { name: name.to_string() }
}

#[test]
fn host_handlers_register_by_arity() {
    let mut w = worker();
    w.stack.push(app());
    w.stack.push(func("HandleCommand"));
    assert_eq!(w.register_host_handler(HostHandlerSlot::OnKeyPressed), Ok(()));
    assert!(matches!(&w.tui.host.on_key_pressed, Some(Value::Function { name }) if name == "HandleCommand"));
    assert!(w.tui.host.on_paint.is_none());
    assert!(w.stack.is_empty());

    w.stack.push(app());
    w.stack.push(func("HandleCommand"));
    assert_eq!(
        w.register_host_handler(HostHandlerSlot::OnPaint),
        Err(TuiError::WrongArity { expected: 1, found: 2 })
    );
    assert!(w.tui.host.on_paint.is_none());

    w.stack.push(app());
    w.stack.push(func("Other"));
    assert_eq!(w.register_host_handler(HostHandlerSlot::OnActivate), Ok(()));
    assert!(w.tui.host.on_activate.is_some());

    w.stack.push(app());
    w.stack.push(func("HandleCommand"));
    assert_eq!(w.register_host_handler(HostHandlerSlot::OnCommand), Ok(()));
    assert!(w.tui.on_command.is_some());

    w.stack.push(app());
    w.stack.push(func("Missing"));
    assert_eq!(w.register_host_handler(HostHandlerSlot::OnResize), Err(TuiError::UndefinedFunction));
    w.stack.push(s("no app"));
    w.stack.push(func("HandleCommand"));
    assert_eq!(w.register_host_handler(HostHandlerSlot::OnResize), Err(TuiError::WrongRecordType));
    assert!(w.tui.host.on_resize.is_none());
}

#[test]
fn idle_handler_clamps_a_negative_interval() {
    let mut w = worker();
    w.stack.push(app());
    w.stack.push(Value::Integer(-5));
    w.stack.push(func("Other"));
    assert_eq!(w.register_host_idle_handler(), Ok(()));
    assert_eq!(w.tui.host.idle_interval_ms, 0);
    assert!(w.tui.host.on_idle.is_some());

    w.stack.push(app());
    w.stack.push(Value::Integer(250));
    w.stack.push(func("Other"));
    assert_eq!(w.register_host_idle_handler(), Ok(()));
    assert_eq!(w.tui.host.idle_interval_ms, 250);

    w.stack.push(app());
    w.stack.push(Value::Integer(100));
    w.stack.push(func("HandleCommand"));
    assert_eq!(w.register_host_idle_handler(), Err(TuiError::WrongArity { expected: 1, found: 2 }));
    assert_eq!(w.tui.host.idle_interval_ms, 250);
}

#[test]
fn host_quit_and_close_reset_the_host_state() {
    let mut w = worker();
    w.stack.push(app());
    assert_eq!(w.tui_host_request_quit(), Ok(()));
    assert!(w.tui.quit_requested);
    assert!(!w.tui.turbo_vision.quit_requested);
    w.stack.push(app());
    w.stack.push(func("Other"));
    w.register_host_handler(HostHandlerSlot::OnPaint).unwrap();
    w.tui.run_active = true;
    w.close_tui_application_state();
    assert!(!w.tui.quit_requested && !w.tui.run_active && !w.tui.host_stop_requested);
    assert!(w.tui.host.on_paint.is_none());
    assert!(w.tui.on_command.is_none());
}

#[test]
fn checked_patch_carries_the_stored_state() {
    let mut w = worker();
    w.stack.push(app());
    w.stack.push(rect(0, 0, 10, 1));
    w.stack.push(s("opt"));
    w.stack.push(Value::Boolean(false));
    w.turbo_vision_create_check_box().unwrap();
    let h = handle_of(&w.stack.pop().unwrap());
    w.stack.push(app());
    w.stack.push(handle("Std.Tui.CheckBox", h));
    w.stack.push(Value::Boolean(true));
    let mutation = w.turbo_vision_set_checked().unwrap();
    w.turbo_vision_register_live_view_id(h as u32, 7);
    let plan = w.turbo_vision_live_patch_plan(&mutation).unwrap();
    assert_eq!(plan.len(), 1);
    assert!(matches!(plan[0].action, LivePatchAction::SetChecked { checked: true }));
}
