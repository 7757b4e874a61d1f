use fpas_tui::command_map::{turbo_vision_reserved_command, TURBO_VISION_RESERVED_COMMANDS};

#[test]
fn about_and_file_focus_ids_are_reserved() {
    for id in [100, 102, 118, 152, 301] {
        assert!(turbo_vision_reserved_command(id));
    }
}

#[test]
fn reserved_list_matches_upstream_cm_constants() {

    let mut upstream = vec![
        turbo_vision::core::command::CM_QUIT,
        turbo_vision::core::command::CM_CLOSE,
        turbo_vision::core::command::CM_ZOOM,
        turbo_vision::core::command::CM_RESIZE,
        turbo_vision::core::command::CM_NEXT,
        turbo_vision::core::command::CM_PREV,
        turbo_vision::core::command::CM_OK,
        turbo_vision::core::command::CM_CANCEL,
        turbo_vision::core::command::CM_YES,
        turbo_vision::core::command::CM_NO,
        turbo_vision::core::command::CM_DEFAULT,
        turbo_vision::core::command::CM_CUT,
        turbo_vision::core::command::CM_COPY,
        turbo_vision::core::command::CM_PASTE,
        turbo_vision::core::command::CM_UNDO,
        turbo_vision::core::command::CM_CLEAR,
        turbo_vision::core::command::CM_TILE,
        turbo_vision::core::command::CM_CASCADE,
        turbo_vision::core::command::CM_SCREENSHOT,
        turbo_vision::core::command::CM_RECEIVED_FOCUS,
        turbo_vision::core::command::CM_RELEASED_FOCUS,
        turbo_vision::core::command::CM_COMMAND_SET_CHANGED,
        turbo_vision::core::command::CM_SELECT_WINDOW_NUM,
        turbo_vision::core::command::CM_SCROLLBAR_CHANGED,
        turbo_vision::core::command::CM_RECORD_HISTORY,
        turbo_vision::core::command::CM_GRAB_DEFAULT,
        turbo_vision::core::command::CM_RELEASE_DEFAULT,
        turbo_vision::core::command::CM_REDRAW,
        turbo_vision::core::command::CM_FOCUS_LINK,
        turbo_vision::core::command::CM_RADIO_SELECTED,
        turbo_vision::core::command::CM_SHOW_HISTORY,
        turbo_vision::core::command::CM_HISTORY_SELECTED,
        turbo_vision::core::command::CM_ABOUT,
        turbo_vision::core::command::CM_BIRTHDATE,
        turbo_vision::core::command::CM_FILE_FOCUSED,
        turbo_vision::core::command::CM_FILE_DOUBLE_CLICKED,
        turbo_vision::core::command::CM_TEXT_VIEWER,
        turbo_vision::core::command::CM_CONTROLS_DEMO,
        turbo_vision::core::command::CM_REDO,
        turbo_vision::core::command::CM_SELECT_ALL,
        turbo_vision::core::command::CM_FIND,
        turbo_vision::core::command::CM_REPLACE,
        turbo_vision::core::command::CM_SEARCH_AGAIN,
        turbo_vision::core::command::CM_FIND_IN_FILES,
        turbo_vision::core::command::CM_GOTO_LINE,
        turbo_vision::core::command::CM_ZOOM_IN,
        turbo_vision::core::command::CM_ZOOM_OUT,
        turbo_vision::core::command::CM_TOGGLE_SIDEBAR,
        turbo_vision::core::command::CM_TOGGLE_STATUSBAR,
        turbo_vision::core::command::CM_HELP_INDEX,
        turbo_vision::core::command::CM_KEYBOARD_REF,
        turbo_vision::core::command::CM_LISTBOX_DEMO,
        turbo_vision::core::command::CM_LISTBOX_SELECT,
        turbo_vision::core::command::CM_MEMO_DEMO,
        turbo_vision::core::command::CM_NEW,
        turbo_vision::core::command::CM_OPEN,
        turbo_vision::core::command::CM_SAVE,
        turbo_vision::core::command::CM_SAVE_AS,
        turbo_vision::core::command::CM_SAVE_ALL,
        turbo_vision::core::command::CM_CLOSE_FILE,
    ];
    upstream.sort_unstable();
    let mut fpas = TURBO_VISION_RESERVED_COMMANDS.to_vec();
    fpas.sort_unstable();
    assert_eq!(
        fpas, upstream,
        "update TURBO_VISION_RESERVED_COMMANDS after a turbo-vision bump"
    );
}

#[test]
fn separator_and_user_ids_are_not_reserved() {
    assert!(!turbo_vision_reserved_command(0));
    assert!(!turbo_vision_reserved_command(1000));
    assert!(!turbo_vision_reserved_command(2));
    assert!(turbo_vision_reserved_command(1));
    assert!(turbo_vision_reserved_command(305));
}
