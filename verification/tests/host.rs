use fpas_tui::error::{ErrorCode, TuiError};
use fpas_tui::host_args::{
    decode_list_box_items, decode_menu_bar_items, decode_radio_options, decode_status_bar_segments,
    decode_string_lines, screen_column_to_u16, screen_row_to_u16, test_dimension_to_u16,
    tui_application_record, tui_rect_record, tui_screen_cell_record, tui_size_record,
    tui_view_id_from_value, tui_view_id_record, validate_screen_cell, validate_screen_row,
};
use fpas_tui::modal::MessageBoxRun;
use fpas_tui::query::{control_state_record, ControlQuery, ControlSnapshot};
use fpas_tui::session::{LoopAction, ReconcileAction};
use fpas_tui::store::TurboVisionState;
use fpas_tui::tv_bridge::TvEventKind;
use fpas_tui::value::Value;
use fpas_tui::test_events::{MouseAction, MouseButton, TestConsoleEvent, TestEventIntrinsic};
use fpas_tui::worker::{LiveApp, TuiState, Worker, HostHandlers};
use std::collections::HashMap;

fn worker(headless: bool) -> Worker {
    Worker {
        stack: Vec::new(),
        tui: TuiState {
            headless,
            quit_requested: false,
            run_active: false,
            host_stop_requested: false,
            on_command: None,
            turbo_vision_on_key: None,
            turbo_vision_on_mouse: None,
            host: HostHandlers::new(),
            turbo_vision: TurboVisionState::new(),
            headless_repaint_requested: false,
            live_view_ids: HashMap::new(),
            live_child_root_view_ids: HashMap::new(),
        },
        live_turbo_vision_app: None,
        headless_tv_app: None,
        input_line_view_bindings: HashMap::new(),
        functions: Vec::new(),
        current_task_id: 0,
        test_console_events: Vec::new(),
    }
}

fn record(ty: &str, fields: Vec<(&str, Value)>) -> Value {
    Value::Record {
        record_type: ty.to_string(),
        fields: fields.into_iter().map(|(n, v)| (n.to_string(), v)).collect(),
    }
}

fn app() -> Value {
    tui_application_record()
}

fn s(t: &str) -> Value {
    Value::Str(t.to_string())
}

fn some(v: Value) -> Value {
    Value::OptionSome(Box::new(v))
}

#[test]
fn menu_bar_items_decode_with_submenus() {
    let popup = record(
        "Std.Tui.MenuPopupItem",
        vec![
            ("label", s("Exit")),
            ("shortcut", s("X")),
            ("enabled", Value::Boolean(true)),
            ("commandId", Value::Integer(1)),
            ("Separator", Value::Boolean(true)),
        ],
    );
    let item = record(
        "Std.Tui.MenuBarItem",
        vec![
            ("Label", s("File")),
            ("Shortcut", s("F")),
            ("Enabled", Value::Boolean(true)),
            ("CommandId", Value::Integer(0)),
            ("Submenu", Value::Array(vec![popup])),
        ],
    );
    let items = decode_menu_bar_items(&Value::Array(vec![item])).unwrap();
    assert_eq!(items.len(), 1);
    assert_eq!(items[0].label, "File");
    assert_eq!(items[0].shortcut, "F");
    assert_eq!(items[0].submenu.len(), 1);
    assert_eq!(items[0].submenu[0].label, "Exit");
    assert!(items[0].submenu[0].separator);
    assert_eq!(items[0].submenu[0].command_id, 1);
}

#[test]
fn menu_bar_item_without_submenu_has_none() {
    let item = record(
        "Std.Tui.MenuBarItem",
        vec![
            ("Label", s("Help")),
            ("Shortcut", s("")),
            ("Enabled", Value::Boolean(false)),
            ("CommandId", Value::Integer(9)),
        ],
    );
    let items = decode_menu_bar_items(&Value::Array(vec![item])).unwrap();
    assert!(items[0].submenu.is_empty());
    assert!(!items[0].enabled);
    let broken = record("Std.Tui.MenuBarItem", vec![("Label", Value::Integer(1))]);
    assert_eq!(decode_menu_bar_items(&Value::Array(vec![broken])).err(), Some(TuiError::WrongFieldKind));
    let missing = record("Std.Tui.MenuBarItem", vec![("Label", s("x"))]);
    assert_eq!(decode_menu_bar_items(&Value::Array(vec![missing])).err(), Some(TuiError::MissingField));
    assert_eq!(decode_menu_bar_items(&s("x")).err(), Some(TuiError::WrongValueKind));
}

#[test]
fn status_segments_and_list_items_decode() {
    let seg = record("Std.Tui.StatusBarSegment", vec![("Text", s("Ln 1")), ("AlignRight", Value::Boolean(true))]);
    let segs = decode_status_bar_segments(&Value::Array(vec![seg])).unwrap();
    assert_eq!(segs[0].text, "Ln 1");
    assert!(segs[0].align_right);

    let item = record(
        "Std.Tui.ListBoxItem",
        vec![("text", s("one")), ("commandId", some(Value::Integer(5))), ("enabled", Value::Boolean(true))],
    );
    let items = decode_list_box_items(&Value::Array(vec![item])).unwrap();
    assert_eq!(items[0].text, "one");
    assert_eq!(items[0].command_id, Some(5));
    let bad = record(
        "Std.Tui.ListBoxItem",
        vec![("text", s("one")), ("commandId", some(s("x"))), ("enabled", Value::Boolean(true))],
    );
    assert_eq!(decode_list_box_items(&Value::Array(vec![bad])).err(), Some(TuiError::WrongOptionKind));
}

#[test]
fn radio_options_decode_accelerators() {
    let opt = |acc: Value| {
        record(
            "Std.Tui.RadioOption",
            vec![("label", s("Red")), ("accelerator", acc), ("commandId", Value::OptionNone), ("enabled", Value::Boolean(true))],
        )
    };
    let options = decode_radio_options(&Value::Array(vec![opt(some(s("R"))), opt(Value::OptionNone), opt(some(s("")))])).unwrap();
    assert_eq!(options[0].accelerator, Some('R'));
    assert_eq!(options[1].accelerator, None);
    assert_eq!(options[2].accelerator, None);
    assert_eq!(
        decode_radio_options(&Value::Array(vec![opt(some(s("RG")))])).err(),
        Some(TuiError::NotSingleCharacter)
    );
    assert_eq!(
        decode_radio_options(&Value::Array(vec![record("Std.Tui.Other", vec![])])).err(),
        Some(TuiError::WrongRecordType)
    );
}

#[test]
fn string_lines_must_be_strings() {
    assert_eq!(decode_string_lines(&Value::Array(vec![s("a"), s("b")])).unwrap(), vec!["a", "b"]);
    assert_eq!(decode_string_lines(&Value::Array(vec![s("a"), Value::Integer(1)])).err(), Some(TuiError::WrongValueKind));
}

#[test]
fn view_ids_round_trip() {
    assert_eq!(tui_view_id_from_value(&tui_view_id_record(42)), Ok(42));
    let negative = record("Std.Tui.ViewId", vec![("__id", Value::Integer(-1))]);
    assert_eq!(tui_view_id_from_value(&negative), Err(TuiError::ViewIdOutOfRange));
    assert_eq!(tui_view_id_from_value(&record("Std.Tui.ViewId", vec![])), Err(TuiError::MissingHandleToken));
    assert_eq!(tui_view_id_from_value(&s("x")), Err(TuiError::NotAViewId));
    assert_eq!(TuiError::NotAViewId.code(), ErrorCode::IntrinsicStackState);
}

#[test]
fn host_records_have_their_fields() {
    match tui_size_record(80, 25) {
        Value::Record { record_type, fields } => {
            assert_eq!(record_type, "Std.Tui.Size");
            assert_eq!(fields[0].0, "width");
            assert!(matches!(fields[1].1, Value::Integer(25)));
        }
        _ => panic!("expected a record"),
    }
    match tui_rect_record(1, 2, 3, 4) {
        Value::Record { record_type, fields } => {
            assert_eq!(record_type, "Std.Tui.Rect");
            assert_eq!(fields.len(), 4);
            assert!(matches!(fields[3].1, Value::Integer(4)));
        }
        _ => panic!("expected a record"),
    }
    match tui_screen_cell_record('Q', 14, 1) {
        Value::Record { fields, .. } => {
            assert!(matches!(&fields[0].1, Value::Str(t) if t == "Q"));
            assert!(matches!(fields[1].1, Value::Integer(14)));
            assert!(matches!(fields[2].1, Value::Integer(1)));
        }
        _ => panic!("expected a record"),
    }
}

#[test]
fn screen_coordinates_are_checked() {
    assert_eq!(screen_row_to_u16(1), Ok(1));
    assert_eq!(screen_row_to_u16(0), Err(TuiError::ScreenCoordinateOutOfRange));
    assert_eq!(screen_column_to_u16(65536), Err(TuiError::ScreenCoordinateOutOfRange));
    assert_eq!(validate_screen_row(25, 25), Ok(()));
    assert_eq!(validate_screen_row(25, 26), Err(TuiError::OutsideScreen));
    assert_eq!(validate_screen_cell(80, 25, 81, 1), Err(TuiError::OutsideScreen));
    assert_eq!(validate_screen_cell(80, 25, 80, 25), Ok(()));
    assert_eq!(test_dimension_to_u16(0), Err(TuiError::TestDimensionOutOfRange));
    assert_eq!(test_dimension_to_u16(80), Ok(80));
}

#[test]
fn optional_operands_pop() {
    let mut w = worker(true);
    w.stack.push(some(Value::Integer(3)));
    assert_eq!(w.pop_optional_integer(), Ok(Some(3)));
    w.stack.push(some(Value::Char('z')));
    assert_eq!(w.pop_optional_char(), Ok(Some('z')));
    w.stack.push(some(s("z")));
    assert_eq!(w.pop_optional_char(), Err(TuiError::WrongOptionOperand));
    assert_eq!(TuiError::WrongOptionOperand.code(), ErrorCode::OperandTypeMismatch);
    w.push_optional_string(Some("p".to_string()));
    assert_eq!(w.pop_optional_string(), Ok(Some("p".to_string())));
    w.push_optional_string(None);
    assert_eq!(w.pop_optional_string(), Ok(None));
    assert_eq!(w.pop_optional_string(), Err(TuiError::StackUnderflow));
}

#[test]
fn message_box_answers_headless_runs() {
    let mut w = worker(true);
    w.tui.turbo_vision.test_dialog_result = Some(11);
    for expected in [11, 0] {
        w.stack.push(app());
        w.stack.push(s("Hello"));
        w.stack.push(Value::Integer(3));
        match w.turbo_vision_message_box(false) {
            Ok(MessageBoxRun::Finished { command }) => assert_eq!(command, expected),
            other => panic!("unexpected {:?}", other),
        }
        assert!(matches!(w.stack.pop(), Some(Value::Integer(c)) if c == expected));
    }
    w.stack.push(app());
    w.stack.push(s("Hello"));
    w.stack.push(Value::Integer(70000));
    assert!(matches!(w.turbo_vision_message_box(false), Err(TuiError::MessageBoxOptionsOutOfRange)));
}

#[test]
fn message_box_defers_to_the_session_or_live_app() {
    let mut w = worker(false);
    w.stack.push(app());
    w.stack.push(s("Hi"));
    w.stack.push(Value::Integer(1));
    match w.turbo_vision_message_box(true) {
        Ok(MessageBoxRun::RunInSession { message, options }) => {
            assert_eq!(message, "Hi");
            assert_eq!(options, 1);
        }
        other => panic!("unexpected {:?}", other),
    }
    w.stack.push(app());
    w.stack.push(s("Hi"));
    w.stack.push(Value::Integer(1));
    assert!(matches!(w.turbo_vision_message_box(false), Ok(MessageBoxRun::RunLive { .. })));
    w.current_task_id = 2;
    w.stack.push(app());
    w.stack.push(s("Hi"));
    w.stack.push(Value::Integer(1));
    assert!(matches!(w.turbo_vision_message_box(false), Err(TuiError::NotMainTask)));
}

fn rect(x: i64, y: i64, wd: i64, h: i64) -> Value {
    tui_rect_record(x, y, wd, h)
}

#[test]
fn file_dialog_needs_a_session() {
    let mut w = worker(true);
    let push_args = |w: &mut Worker| {
        w.stack.push(app());
        w.stack.push(rect(1, 1, 40, 12));
        w.stack.push(s("Open"));
        w.stack.push(s("*.pas"));
        w.stack.push(some(s("/tmp")));
    };
    push_args(&mut w);
    assert_eq!(w.turbo_vision_run_file_dialog(false).err(), Some(TuiError::FileDialogNeedsSession));
    assert!(w.stack.is_empty());
    push_args(&mut w);
    let req = w.turbo_vision_run_file_dialog(true).unwrap();
    assert_eq!(req.title, "Open");
    assert_eq!(req.wildcard, "*.pas");
    assert_eq!(req.start_path, Some("/tmp".to_string()));

    w.stack.push(app());
    w.stack.push(some(s("/a.pas")));
    assert_eq!(w.turbo_vision_test_set_file_dialog_result(), Ok(Some("/a.pas".to_string())));
}

#[test]
fn test_click_mouse_checks_the_position() {
    let mut w = worker(true);
    let click = |w: &mut Worker, x: i64, y: i64| {
        w.stack.push(app());
        w.stack.push(Value::Integer(x));
        w.stack.push(Value::Integer(y));
        w.turbo_vision_test_click_mouse(80, 25)
    };
    assert_eq!(click(&mut w, 3, 4), Ok((3, 4)));
    assert!(w.headless_tv_app.is_some());
    assert_eq!(click(&mut w, 80, 4), Err(TuiError::MouseOutsideTerminal));
    assert_eq!(click(&mut w, -1, 4), Err(TuiError::MouseOutsideTerminal));
    assert_eq!(click(&mut w, 40000, 4), Err(TuiError::CoordinateOutOfRange));
    let mut live = worker(false);
    assert_eq!(click(&mut live, 3, 4), Err(TuiError::TestClickNeedsHeadless));
}

#[test]
fn run_loop_steps() {
    let mut w = worker(false);
    assert_eq!(w.turbo_vision_interactive_step(false, None), LoopAction::Stop);
    assert_eq!(w.turbo_vision_interactive_step(true, None), LoopAction::AfterStep);
    assert_eq!(w.turbo_vision_interactive_step(true, Some(TvEventKind::Command)), LoopAction::DispatchCommand);
    assert_eq!(
        w.turbo_vision_interactive_step(true, Some(TvEventKind::Keyboard)),
        LoopAction::DispatchUnhandledInput
    );
    w.tui.turbo_vision.quit_requested = true;
    assert_eq!(w.turbo_vision_interactive_step(true, Some(TvEventKind::Command)), LoopAction::Stop);
}

#[test]
fn reconcile_after_step_takes_the_dirty_flag() {
    let mut w = worker(false);
    assert_eq!(w.turbo_vision_reconcile_after_step(), ReconcileAction::Nothing);
    w.mark_turbo_vision_tree_dirty();
    assert_eq!(w.turbo_vision_reconcile_after_step(), ReconcileAction::RebuildDesktop);
    assert!(!w.tui.turbo_vision.pending_reconcile);
    w.mark_turbo_vision_tree_dirty();
    assert!(w.turbo_vision_live_reconcile());
    assert!(!w.turbo_vision_live_reconcile());
    let mut h = worker(true);
    h.mark_turbo_vision_tree_dirty();
    assert_eq!(h.turbo_vision_reconcile_after_step(), ReconcileAction::PaintHeadless);
    assert!(h.tui.turbo_vision.pending_reconcile);
}

#[test]
fn live_session_checks() {
    let mut w = worker(false);
    assert!(w.turbo_vision_needs_live_app());
    assert_eq!(w.turbo_vision_live_app_check(), Err(TuiError::LiveSessionMissing));
    w.live_turbo_vision_app = Some(LiveApp { running: false });
    assert!(!w.turbo_vision_needs_live_app());
    assert_eq!(w.turbo_vision_live_app_check(), Ok(()));
    let h = worker(true);
    assert!(!h.turbo_vision_needs_live_app());
    assert_eq!(h.turbo_vision_live_app_check(), Err(TuiError::HeadlessSession));
}

#[test]
fn test_events_are_queued_in_order() {
    let mut w = worker(true);
    w.stack.push(app());
    w.stack.push(Value::Integer(4));
    w.stack.push(Value::Integer(7));
    assert_eq!(w.exec_tui_test_event_intrinsic(TestEventIntrinsic::ClickMouse), Ok(()));
    w.stack.push(app());
    w.stack.push(Value::Boolean(false));
    assert_eq!(w.exec_tui_test_event_intrinsic(TestEventIntrinsic::Focus), Ok(()));
    w.stack.push(app());
    w.stack.push(s("hello"));
    assert_eq!(w.exec_tui_test_event_intrinsic(TestEventIntrinsic::Paste), Ok(()));
    w.stack.push(app());
    w.stack.push(Value::Integer(100));
    w.stack.push(Value::Integer(30));
    assert_eq!(w.exec_tui_test_event_intrinsic(TestEventIntrinsic::Resize), Ok(()));
    assert!(w.stack.is_empty());
    let q = &w.test_console_events;
    assert_eq!(q.len(), 5);
    assert!(matches!(q[0], TestConsoleEvent::Mouse { action: MouseAction::Down, button: MouseButton::Left, x: 4, y: 7 }));
    assert!(matches!(q[1], TestConsoleEvent::Mouse { action: MouseAction::Up, button: MouseButton::Left, x: 4, y: 7 }));
    assert!(matches!(q[2], TestConsoleEvent::FocusLost));
    assert!(matches!(&q[3], TestConsoleEvent::Paste { text } if text == "hello"));
    assert!(matches!(q[4], TestConsoleEvent::Resize { width: 100, height: 30 }));

    w.stack.push(app());
    w.stack.push(Value::Integer(1));
    assert_eq!(w.exec_tui_test_event_intrinsic(TestEventIntrinsic::Paste), Err(TuiError::TestArgumentKind));
    assert_eq!(w.test_console_events.len(), 5);
}

#[test]
fn query_screen_size_pushes_size_record() {
    let mut w = worker(true);
    w.stack.push(app());
    w.tui_query_screen_size(80, 25).unwrap();
    assert_eq!(w.stack.len(), 1);
    match &w.stack[0] {
        Value::Record { record_type, fields } => {
            assert_eq!(record_type, "Std.Tui.Size");
            assert!(matches!(fields[0].1, Value::Integer(80)));
            assert!(matches!(fields[1].1, Value::Integer(25)));
        }
        _ => panic!("expected a record"),
    }
    let mut w = worker(true);
    w.stack.push(s("no app"));
    assert_eq!(w.tui_query_screen_size(80, 25), Err(TuiError::WrongRecordType));
    assert!(w.stack.is_empty());
}

#[test]
fn query_screen_line_checks_row_against_screen() {
    let mut w = worker(true);
    w.stack.push(app());
    w.stack.push(Value::Integer(3));
    assert_eq!(w.tui_query_screen_line(25), Ok(3));
    assert!(w.stack.is_empty());

    let mut w = worker(true);
    w.stack.push(app());
    w.stack.push(Value::Integer(26));
    assert_eq!(w.tui_query_screen_line(25), Err(TuiError::OutsideScreen));

    let mut w = worker(true);
    w.stack.push(app());
    w.stack.push(Value::Integer(0));
    let e = w.tui_query_screen_line(25).unwrap_err();
    assert_eq!(e, TuiError::ScreenCoordinateOutOfRange);
    assert_eq!(e.code(), ErrorCode::ConsoleState);
}

#[test]
fn query_screen_cell_reads_x_then_y() {
    let mut w = worker(true);
    w.stack.push(app());
    w.stack.push(Value::Integer(10));
    w.stack.push(Value::Integer(2));
    assert_eq!(w.tui_query_screen_cell(80, 25), Ok((10, 2)));
    assert!(w.stack.is_empty());

    let mut w = worker(true);
    w.stack.push(app());
    w.stack.push(Value::Integer(81));
    w.stack.push(Value::Integer(2));
    assert_eq!(w.tui_query_screen_cell(80, 25), Err(TuiError::OutsideScreen));

    let mut w = worker(true);
    w.stack.push(app());
    w.stack.push(Value::Integer(1));
    w.stack.push(s("row"));
    assert_eq!(w.tui_query_screen_cell(80, 25), Err(TuiError::WrongValueKind));
}

#[test]
fn queried_cell_is_pushed_or_reported() {
    let mut w = worker(true);
    w.push_queried_screen_cell(Some(('A', 14, 1))).unwrap();
    match &w.stack[0] {
        Value::Record { record_type, fields } => {
            assert_eq!(record_type, "Std.Tui.ScreenCell");
            assert!(matches!(&fields[0].1, Value::Str(t) if t == "A"));
            assert!(matches!(fields[1].1, Value::Integer(14)));
            assert!(matches!(fields[2].1, Value::Integer(1)));
        }
        _ => panic!("expected a record"),
    }
    let mut w = worker(true);
    let e = w.push_queried_screen_cell(None).unwrap_err();
    assert_eq!(e, TuiError::ScreenCellUnavailable);
    assert_eq!(e.code(), ErrorCode::ConsoleState);
    assert!(w.stack.is_empty());
}

#[test]
fn pops_read_lines_control_strings_and_view_ids() {
    let mut w = worker(true);
    w.stack.push(Value::Array(vec![s("a"), s("b")]));
    assert_eq!(w.pop_string_lines(), Ok(vec!["a".to_string(), "b".to_string()]));
    assert!(w.stack.is_empty());

    w.stack.push(Value::Array(vec![s("a"), Value::Integer(1)]));
    assert!(w.pop_string_lines().is_err());

    w.stack.push(s("caption"));
    assert_eq!(w.pop_control_string(), Ok("caption".to_string()));
    w.stack.push(Value::Integer(3));
    assert!(w.pop_control_string().is_err());

    w.stack.push(tui_view_id_record(42));
    assert_eq!(w.pop_tui_view_id(), Ok(42));
    assert_eq!(w.pop_tui_view_id(), Err(TuiError::StackUnderflow));
}

#[test]
fn control_state_records_match_the_queried_kind() {
    let v = control_state_record(
        ControlQuery::InputLine,
        ControlSnapshot::InputLine { text: "abc".to_string(), cursor: 2, scroll_offset: 0 },
    )
    .unwrap();
    match v {
        Value::Record { record_type, fields } => {
            assert_eq!(record_type, "Std.Tui.InputLineState");
            assert_eq!(fields[0].0, "text");
            assert!(matches!(&fields[0].1, Value::Str(t) if t == "abc"));
            assert!(matches!(fields[1].1, Value::Integer(2)));
            assert_eq!(fields[2].0, "scrollOffset");
            assert!(matches!(fields[2].1, Value::Integer(0)));
        }
        _ => panic!("expected a record"),
    }
    let v = control_state_record(
        ControlQuery::RadioGroup,
        ControlSnapshot::RadioGroup { selected: None, focused: Some(1) },
    )
    .unwrap();
    match v {
        Value::Record { record_type, fields } => {
            assert_eq!(record_type, "Std.Tui.RadioGroupState");
            assert!(matches!(fields[0].1, Value::Integer(-1)));
            assert!(matches!(fields[1].1, Value::Integer(1)));
        }
        _ => panic!("expected a record"),
    }
    let e = control_state_record(ControlQuery::CheckBox, ControlSnapshot::RadioGroup { selected: None, focused: None })
        .unwrap_err();
    assert_eq!(e, TuiError::WrongControlKind);
    assert_eq!(e.code(), ErrorCode::ConsoleState);

    let mut w = worker(true);
    w.push_control_state(ControlQuery::CheckBox, ControlSnapshot::CheckBox { checked: true }).unwrap();
    assert!(matches!(&w.stack[0], Value::Record { record_type, .. } if record_type == "Std.Tui.CheckBoxState"));
    assert_eq!(
        w.push_control_state(ControlQuery::InputLine, ControlSnapshot::Other),
        Err(TuiError::WrongControlKind)
    );
    assert_eq!(w.stack.len(), 1);
}
