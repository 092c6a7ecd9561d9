use rabbit::rabbit_app_state as ra;
use rabbit::rabbit_tabs::{
    add_chat_notice, chat_click, chat_send, http_item_log, http_item_of_row, http_toggle_settings,
    show_chat_connected, show_http_starting, show_tftpd_starting, tftpd_dir_log, tftpd_dir_rows,
    ChatNotice, ItemChange,
};
use rabbit::tabs::{
    begin_version_check, clear_ping_display, language_index, language_name, ping_click,
    scan_click, show_scan_range, tftpc_transfer, version_label, Click, Transfer,
};
use rabbit::ui_state::{write_to, UiState};

#[test]
fn start_stop_buttons() {
    assert_eq!(ping_click("Start", ""), Click::Refuse);
    assert_eq!(ping_click("Start", "1.1.1.1"), Click::Start);
    assert_eq!(ping_click("Stop", ""), Click::Stop);
    assert_eq!(scan_click("Start", "10.0.0.1"), Click::Start);
    assert_eq!(chat_click("Start", ""), Click::Refuse);
}

#[test]
fn ping_and_scan_buffers() {
    let mut s = UiState::new();
    write_to(&mut s, "ping_output", "old");
    clear_ping_display(&mut s);
    assert_eq!(s.ping_output, "");
    assert_eq!(s.ping_stats, "");
    show_scan_range(&mut s, "10.0.0.1", "10.0.0.9");
    assert_eq!(s.scan_output, "Scanning range 10.0.0.1 to 10.0.0.9...\n");
    assert!(s.is_updated("scan_output"));
}

#[test]
fn tftp_client_requests() {
    let mut s = UiState::new();
    assert!(!tftpc_transfer(&mut s, Transfer::Put, "", "a", "b", "t"));
    assert_eq!(s.tftpc_log, "");
    assert!(tftpc_transfer(&mut s, Transfer::Put, "srv", "a.txt", "b.txt", "10:00:00"));
    assert!(tftpc_transfer(&mut s, Transfer::Get, "srv", "a.txt", "b.txt", "10:00:01"));
    assert_eq!(
        s.tftpc_log,
        "[10:00:00] Uploading a.txt to srv as b.txt\n[10:00:01] Downloading b.txt from srv to a.txt\n"
    );
}

#[test]
fn settings_tab() {
    assert_eq!(language_index("English"), 0);
    assert_eq!(language_index("中文"), 1);
    assert_eq!(language_index("Deutsch"), 2);
    assert_eq!(language_name(1), "中文");
    assert_eq!(language_name(5), "System");
    for i in 0..3 {
        assert_eq!(language_index(language_name(i)), i);
    }
    assert_eq!(version_label("0.3.1"), "sRabbit 0.3.1");
    let mut s = UiState::new();
    begin_version_check(&mut s, "11:11:11");
    assert_eq!(s.settings_output, "\n[11:11:11] Checking for updates...\n");
}

#[test]
fn http_tab() {
    assert_eq!(http_toggle_settings("8080", "autoindex=true;videoplay=false;"), (8080, true, false));
    assert_eq!(http_toggle_settings("http", ""), (8000, false, false));
    assert_eq!(http_item_of_row("\u{25b6} /srv/www "), "/srv/www");
    assert_eq!(http_item_of_row("  /plain"), "/plain");
    assert_eq!(http_item_log(ItemChange::AddedFile, "/f"), "Added file: /f\r\n");
    assert_eq!(http_item_log(ItemChange::Removed, "/f"), "Removed: /f\r\n");
    let mut s = ra::UiState::new();
    show_http_starting(&mut s, 8080);
    assert_eq!(s.http_log, "Starting HTTP server on port 8080...\r\n");
}

#[test]
fn chat_tab() {
    let mut s = ra::UiState::new();
    show_chat_connected(&mut s, "me", "abc", "09:00:00");
    assert_eq!(s.chat_messages, "[09:00:00] Connected as me on port 1314\n\n");
    add_chat_notice(&mut s, ChatNotice::Refreshing, "09:00:01");
    ra::set_chat_users(&mut s, &["x".to_string()]);
    add_chat_notice(&mut s, ChatNotice::Disconnected, "09:00:02");
    assert!(s.chat_messages.ends_with("[09:00:01] Refreshing user list...\n[09:00:02] Disconnected from chat\n"));
    assert_eq!(s.chat_users, "");
    assert_eq!(chat_send(&mut s, "me", ""), Some("Please enter a message!"));
    assert_eq!(chat_send(&mut s, "", "hi"), Some("Please enter a username first!"));
    assert_eq!(chat_send(&mut s, "me", "hi"), None);
    assert!(s.chat_messages.ends_with("[me] hi\n"));
}

#[test]
fn tftp_server_tab() {
    let mut s = ra::UiState::new();
    assert_eq!(tftpd_dir_rows(&s), vec!["(no directories added)".to_string()]);
    ra::add_tftpd_dir(&mut s, "/srv/tftp");
    assert_eq!(tftpd_dir_rows(&s), vec!["/srv/tftp".to_string()]);
    show_tftpd_starting(&mut s, "timeout=200;");
    assert_eq!(s.tftpd_log, "Starting TFTP server...\nOptions: timeout=200;\n");
    assert_eq!(tftpd_dir_log(true, "/a"), "Added directory: /a\r\n");
    assert_eq!(tftpd_dir_log(false, "/a"), "Removed directory: /a\r\n");
}
