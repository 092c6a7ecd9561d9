use rabbit::rabbit_app_state::{
    add_chat_user, append_chat_message, append_http_log, append_plan_event, append_ping_output,
    append_scan_output, append_tftpc_log, append_tftpd_log, remove_plan_event, remove_tftpd_dir,
    set_http_running, set_ping_output, set_plan_list, set_scan_output, set_scan_running, UiState,
};

#[test]
fn buffers_append_and_flag() {
    let mut s = UiState::new();
    append_ping_output(&mut s, "a");
    append_scan_output(&mut s, "b");
    append_http_log(&mut s, "c");
    append_tftpd_log(&mut s, "d");
    append_tftpc_log(&mut s, "e");
    append_chat_message(&mut s, "u", "m");
    assert_eq!(s.ping_output, "a\n");
    assert_eq!(s.chat_messages, "[u] m\n");
    assert!(s.is_updated("tftpc_log"));
    set_ping_output(&mut s, "fresh");
    assert_eq!(s.ping_output, "fresh");
    set_scan_output(&mut s, "s");
    set_scan_running(&mut s, true);
    set_http_running(&mut s, false);
    assert!(s.scan_running && !s.http_running);
    assert!(s.is_updated("http_running"));
    s.clear_updated("http_running");
    assert!(!s.is_updated("http_running"));
}

#[test]
fn plan_event_list() {
    let mut s = UiState::new();
    set_plan_list(&mut s, "No scheduled events.\n");
    append_plan_event(&mut s, "1", "2026/01/01", "10:00", 0, "minute", "Tea");
    append_plan_event(&mut s, "2", "2026/01/02", "11:00", 3, "day", "Gym");
    assert!(s.plan_list.contains("[1] 2026/01/01 10:00 - Tea (One-time)\n"));
    assert!(s.plan_list.contains("[2] 2026/01/02 11:00 - Gym (Repeat every 3 day)\n"));
    assert!(!s.plan_list.contains("No scheduled events"));
    remove_plan_event(&mut s, "1");
    assert!(!s.plan_list.contains("[1]"));
    assert!(s.plan_list.contains("[2]"));
    remove_plan_event(&mut s, "2");
    assert!(s.plan_list.ends_with("No scheduled events.\n\nUse + button to add a new reminder.\n"));
}

#[test]
fn dirs_and_users() {
    let mut s = UiState::new();
    rabbit::rabbit_app_state::add_tftpd_dir(&mut s, "/x");
    rabbit::rabbit_app_state::add_tftpd_dir(&mut s, "/x");
    assert_eq!(s.tftpd_dirs.len(), 1);
    remove_tftpd_dir(&mut s, "/x");
    assert!(s.tftpd_dirs.is_empty());
    add_chat_user(&mut s, "zed");
    assert!(s.chat_users.ends_with("zed\n"));
}
