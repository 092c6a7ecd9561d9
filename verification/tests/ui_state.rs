use rabbit::ui_state::{
    add_chat_user, add_http_item, add_tftpd_dir, get_tftpd_selected_dir, raw_log,
    remove_chat_user, remove_http_item, remove_tftpd_dir, restored_tftpd_selection,
    scan_end_suffix, set_chat_users, set_http_selected, set_ping_stats, set_scan_running,
    set_tftpd_selected, set_tftpd_selected_idx, tftpd_working_dir_index, update_module_running,
    update_settings_line, write_to, UiState, MAX_LOG_LINES,
};

#[test]
fn ui_refresh_scan_running_should_reflect_actual_state() {
    let mut state = UiState::new();
    set_scan_running(&mut state, true);
    assert!(state.is_updated("scan_running"));
    set_scan_running(&mut state, false);
    assert!(!state.is_updated("scan_running"));
}

#[test]
fn new_state_is_ready_and_unflagged() {
    let state = UiState::new();
    assert_eq!(state.ping_stats, "Ready");
    assert_eq!(state.ping_output, "");
    assert!(!state.is_updated("ping_stats"));
    let d = UiState::default();
    assert_eq!(d.ping_stats, "");
}

#[test]
fn written_line_is_last_and_flagged() {
    let mut state = UiState::new();
    write_to(&mut state, "http_log", "first");
    write_to(&mut state, "http_log", "second");
    assert_eq!(state.http_log, "first\nsecond\n");
    assert!(state.is_updated("http_log"));
    state.clear_updated("http_log");
    assert!(!state.is_updated("http_log"));
}

#[test]
fn unknown_target_changes_nothing() {
    let mut state = UiState::new();
    state.write_to_field("no_such_field", "x");
    assert!(!state.is_updated("no_such_field"));
    assert_eq!(state.ping_output, "");
}

#[test]
fn log_keeps_newest_thousand_lines() {
    let mut state = UiState::new();
    for i in 0..1005 {
        write_to(&mut state, "plan_output", &format!("line {}", i));
    }
    let lines: Vec<&str> = state.plan_output.lines().collect();
    assert_eq!(lines.len(), MAX_LOG_LINES);
    assert_eq!(lines[0], "line 5");
    assert_eq!(lines[lines.len() - 1], "line 1004");
}

#[test]
fn chat_append_uses_brackets() {
    let mut state = UiState::new();
    state.append_chat("bob", "hi");
    assert_eq!(state.chat_messages, "[bob] hi\n");
    assert!(state.is_updated("chat_messages"));
}

#[test]
fn ping_stats_replace() {
    let mut state = UiState::new();
    set_ping_stats(&mut state, "Tx 1 Rx 1");
    assert_eq!(state.ping_stats, "Tx 1 Rx 1");
    assert!(state.is_updated("ping_stats"));
    assert_eq!(raw_log("abc"), "abc");
}

#[test]
fn module_running_flags() {
    let mut state = UiState::new();
    update_module_running(&mut state, "ping", true);
    assert!(state.is_updated("ping_running"));
    update_module_running(&mut state, "http", false);
    assert!(!state.is_updated("http_running"));
    update_module_running(&mut state, "unknown", true);
    assert!(!state.is_updated("unknown_running"));
}

#[test]
fn tftpd_dirs_are_distinct_and_removable() {
    let mut state = UiState::new();
    add_tftpd_dir(&mut state, "/srv/a");
    add_tftpd_dir(&mut state, "/srv/b");
    add_tftpd_dir(&mut state, "/srv/a");
    assert_eq!(state.tftpd_dirs, vec!["/srv/a".to_string(), "/srv/b".to_string()]);
    remove_tftpd_dir(&mut state, "/srv/a");
    assert_eq!(state.tftpd_dirs, vec!["/srv/b".to_string()]);
    assert!(state.is_updated("tftpd_dirs"));
}

#[test]
fn tftpd_selection() {
    let mut state = UiState::new();
    add_tftpd_dir(&mut state, "/a");
    add_tftpd_dir(&mut state, "/b");
    set_tftpd_selected_idx(&mut state, 2);
    assert_eq!(get_tftpd_selected_dir(&state), Some("/b".to_string()));
    set_tftpd_selected_idx(&mut state, 0);
    assert_eq!(state.tftpd_selected_idx, None);
    set_tftpd_selected(&mut state, 1);
    assert_eq!(get_tftpd_selected_dir(&state), Some("/a".to_string()));
    assert_eq!(tftpd_working_dir_index(3), 2);
    assert_eq!(tftpd_working_dir_index(0), 0);
    assert_eq!(restored_tftpd_selection(1, 2), Some(2));
    assert_eq!(restored_tftpd_selection(2, 2), None);
}

#[test]
fn http_items_select_and_clamp() {
    let mut state = UiState::new();
    add_http_item(&mut state, "/x");
    add_http_item(&mut state, "/y");
    assert_eq!(state.http_selected_idx, Some(2));
    add_http_item(&mut state, "/x");
    assert_eq!(state.http_items.len(), 2);
    remove_http_item(&mut state, "/y");
    assert_eq!(state.http_items, vec!["/x".to_string()]);
    assert_eq!(state.http_selected_idx, Some(1));
    remove_http_item(&mut state, "/x");
    assert_eq!(state.http_selected_idx, None);
    set_http_selected(&mut state, -3);
    assert_eq!(state.http_selected_idx, None);
    set_http_selected(&mut state, 4);
    assert_eq!(state.http_selected_idx, Some(4));
}

#[test]
fn chat_users_list() {
    let mut state = UiState::new();
    set_chat_users(&mut state, &[]);
    assert_eq!(state.chat_users, "Online Users:\n───────────\n(no users)\n");
    add_chat_user(&mut state, "alice");
    assert_eq!(state.chat_users, "Online Users:\n───────────\nalice\n");
    add_chat_user(&mut state, "alice");
    assert_eq!(state.chat_users, "Online Users:\n───────────\nalice\n");
    add_chat_user(&mut state, "bob");
    assert_eq!(state.chat_users, "Online Users:\n───────────\nalice\nbob\n");
    remove_chat_user(&mut state, "alice");
    assert_eq!(state.chat_users, "Online Users:\n───────────\nbob\n");
    remove_chat_user(&mut state, "bob");
    assert_eq!(state.chat_users, "Online Users:\n───────────\n(no users)\n");
    set_chat_users(&mut state, &["a".to_string(), "b".to_string()]);
    assert_eq!(state.chat_users, "Online Users:\n───────────\na\nb\n");
}

#[test]
fn settings_line_replacement() {
    let mut state = UiState::new();
    write_to(&mut state, "settings_output", "one");
    write_to(&mut state, "settings_output", "two");
    update_settings_line(&mut state, -1, "  50%");
    assert_eq!(state.settings_output, "one\n  50%");
    update_settings_line(&mut state, 0, "ONE");
    assert_eq!(state.settings_output, "ONE\n  50%");
    update_settings_line(&mut state, 7, "three");
    assert_eq!(state.settings_output, "ONE\n  50%\nthree");
}

#[test]
fn scan_suffix_from_end_address() {
    assert_eq!(scan_end_suffix("192.168.1.200"), 254);
    assert_eq!(scan_end_suffix("17"), 17);
    assert_eq!(scan_end_suffix("not a number"), 254);
}
