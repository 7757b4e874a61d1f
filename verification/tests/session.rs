use fpas_tui::live_patch::{LiveDataMutation, LivePatchAction};
use fpas_tui::session::{locate_live_view, LiveViewLocation};
use fpas_tui::store::TurboVisionState;
use fpas_tui::value::Value;
use fpas_tui::worker::{HeadlessTvApp, LiveApp, TuiState, Worker, HostHandlers};
use std::collections::HashMap;

fn worker(headless: bool) -> Worker {
    Worker {
        stack: Vec::new(),
        tui: TuiState {
            headless,
            quit_requested: false,
            run_active: false,
            host_stop_requested: false,
            on_command: None,
            turbo_vision_on_key: None,
            turbo_vision_on_mouse: None,
            host: HostHandlers::new(),
            turbo_vision: TurboVisionState::new(),
            headless_repaint_requested: false,
            live_view_ids: HashMap::new(),
            live_child_root_view_ids: HashMap::new(),
        },
        live_turbo_vision_app: None,
        headless_tv_app: None,
        input_line_view_bindings: HashMap::new(),
        functions: Vec::new(),
        current_task_id: 0,
        test_console_events: Vec::new(),
    }
}

#[test]
fn child_live_patch_survives_desktop_bring_to_front() {
    let view_ids = HashMap::from([(1u32, 7u16)]);
    let root_view_ids = HashMap::from([(1u32, 3u16)]);
    let location = locate_live_view(&view_ids, &root_view_ids, 1).expect("locate child");
    assert_eq!(location, LiveViewLocation::DesktopChild { root_view_id: 3, view_id: 7 });
}

#[test]
fn locate_live_view_requires_correct_parent_root_view_id() {
    let view_ids = HashMap::from([(42u32, 7u16)]);
    let mut root_view_ids = HashMap::from([(42u32, 3u16)]);
    assert_eq!(
        locate_live_view(&view_ids, &root_view_ids, 42).unwrap(),
        LiveViewLocation::DesktopChild { root_view_id: 3, view_id: 7 }
    );
    root_view_ids.insert(42, 5);
    assert_eq!(
        locate_live_view(&view_ids, &root_view_ids, 42).unwrap(),
        LiveViewLocation::DesktopChild { root_view_id: 5, view_id: 7 }
    );
}

#[test]
fn unregistered_views_are_not_located() {
    let view_ids = HashMap::from([(2u32, 9u16)]);
    let roots = HashMap::new();
    assert_eq!(locate_live_view(&view_ids, &roots, 1), None);
    assert_eq!(locate_live_view(&view_ids, &roots, 2), Some(LiveViewLocation::DesktopRoot { view_id: 9 }));
}

#[test]
fn quit_and_stop_requests() {
    let mut w = worker(false);
    w.tui.quit_requested = true;
    assert!(w.take_tui_host_quit_requested());
    assert!(!w.tui.quit_requested);
    assert!(!w.request_tui_host_stop_for_active_run());
    assert!(!w.tui.host_stop_requested);
    w.tui.run_active = true;
    assert!(w.request_tui_host_stop_for_active_run());
    assert!(w.tui.host_stop_requested);
}

#[test]
fn live_app_flags() {
    let mut w = worker(false);
    assert!(!w.turbo_vision_live_app_active());
    assert!(!w.turbo_vision_live_app_running());
    w.turbo_vision_set_live_app_running(true);
    assert!(w.live_turbo_vision_app.is_none());
    w.live_turbo_vision_app = Some(LiveApp { running: false });
    w.turbo_vision_set_live_app_running(true);
    assert!(w.turbo_vision_live_app_running());
    assert_eq!(w.turbo_vision_rebuild_live_app_out_of_lock(), Ok(()));
    w.turbo_vision_live_after_step();
    assert!(w.turbo_vision_live_app_running());
    w.turbo_vision_shutdown_live_app();
    assert!(!w.turbo_vision_live_app_active());
}

#[test]
fn headless_app_is_rebuilt_only_on_resize() {
    let mut w = worker(true);
    assert!(!w.turbo_vision_export_headless_to_console());
    assert!(w.turbo_vision_ensure_headless_app(80, 25));
    assert!(!w.turbo_vision_ensure_headless_app(80, 25));
    assert!(w.turbo_vision_ensure_headless_app(100, 25));
    assert_eq!(w.headless_tv_app, Some(HeadlessTvApp { width: 100, height: 25 }));
    assert!(w.turbo_vision_export_headless_to_console());
    w.turbo_vision_shutdown_headless_app();
    assert!(w.headless_tv_app.is_none());
}

#[test]
fn data_mutations_patch_or_mark_the_tree_dirty() {
    let mut w = worker(true);
    w.turbo_vision_after_data_mutation(true);
    assert!(w.tui.turbo_vision.pending_reconcile);
    assert!(!w.tui.headless_repaint_requested);

    let mut w = worker(true);
    w.turbo_vision_ensure_headless_app(80, 25);
    w.turbo_vision_after_data_mutation(true);
    assert!(!w.tui.turbo_vision.pending_reconcile);
    assert!(w.tui.headless_repaint_requested);

    let mut w = worker(false);
    w.live_turbo_vision_app = Some(LiveApp { running: true });
    w.turbo_vision_after_data_mutation(false);
    assert!(w.tui.turbo_vision.pending_reconcile);
    assert!(!w.tui.headless_repaint_requested);
}

#[test]
fn begin_run_clears_the_dirty_flag() {
    let mut w = worker(false);
    w.mark_turbo_vision_tree_dirty();
    assert!(w.tui.turbo_vision.pending_reconcile);
    w.turbo_vision_begin_run();
    assert!(!w.tui.turbo_vision.pending_reconcile);
}

#[test]
fn reset_clears_the_session() {
    let mut w = worker(false);
    w.tui.quit_requested = true;
    w.tui.on_command = Some(Value::Function { name: "f".into() });
    w.live_turbo_vision_app = Some(LiveApp { running: true });
    w.headless_tv_app = Some(HeadlessTvApp { width: 1, height: 1 });
    w.tui.turbo_vision.next_handle = 9;
    w.reset_tui_session_state();
    assert!(!w.tui.quit_requested);
    assert!(w.tui.on_command.is_none());
    assert!(w.live_turbo_vision_app.is_none());
    assert!(w.headless_tv_app.is_none());
    assert_eq!(w.tui.turbo_vision.next_handle, 1);
}

#[test]
fn view_ids_and_bindings_are_registered_and_cleared() {
    let mut w = worker(false);
    w.turbo_vision_register_live_view_id(1, 10);
    w.turbo_vision_register_live_child_view(2, 10, 11);
    w.turbo_vision_register_input_line_view_binding(2, "a".into());
    w.turbo_vision_sync_input_line_view_binding(2, "b");
    w.turbo_vision_sync_input_line_view_binding(3, "c");
    assert_eq!(w.input_line_view_bindings.get(&2).unwrap(), "b");
    assert!(w.input_line_view_bindings.get(&3).is_none());
    assert_eq!(w.tui.live_view_ids.get(&2), Some(&11));
    assert_eq!(w.tui.live_child_root_view_ids.get(&2), Some(&10));
    w.turbo_vision_clear_live_view_ids();
    assert!(w.tui.live_view_ids.is_empty());
    assert!(w.tui.live_child_root_view_ids.is_empty());
    assert!(w.input_line_view_bindings.is_empty());
}

#[test]
fn patch_plan_needs_every_view_shown() {
    let mut w = worker(false);
    let title = LiveDataMutation::SetTitle { handle: 1, title: "T".into() };
    assert!(w.turbo_vision_live_patch_plan(&title).is_none());
    w.turbo_vision_register_live_view_id(1, 4);
    let plan = w.turbo_vision_live_patch_plan(&title).unwrap();
    assert_eq!(plan.len(), 1);
    assert_eq!(plan[0].location, LiveViewLocation::DesktopRoot { view_id: 4 });
    assert!(matches!(&plan[0].action, LivePatchAction::SetTitle { title } if title == "T"));

    let checked = LiveDataMutation::SetChecked { handle: 1 };
    let plan = w.turbo_vision_live_patch_plan(&checked).unwrap();
    assert!(matches!(plan[0].action, LivePatchAction::SetChecked { checked: false }));
    let unknown_text = LiveDataMutation::SetText { handle: 1 };
    assert!(w.turbo_vision_live_patch_plan(&unknown_text).is_none());
}
