use rabbit::refresh::{
    autoscrolls, button_face, dir_browser_rows, http_browser_rows, refresh_value,
    shown_in_text_display, tab_button, take_refresh, ButtonFace, TabButton,
};
use rabbit::ui_state::{add_tftpd_dir, set_ping_running, write_to, UiState};

#[test]
fn refresh_takes_flagged_buffers_once() {
    let mut state = UiState::new();
    write_to(&mut state, "scan_output", "hello");
    set_ping_running(&mut state, true);
    add_tftpd_dir(&mut state, "/d");
    let snap = take_refresh(&mut state);
    let keys: Vec<&str> = snap.data.iter().map(|(k, _)| k.as_str()).collect();
    assert_eq!(keys, vec!["scan_output", "tftpd_dirs", "ping_running"]);
    assert_eq!(snap.data[0].1, "hello\n");
    assert_eq!(snap.data[1].1, "/d\n");
    assert_eq!(snap.data[2].1, "false");
    assert_eq!(snap.ping_running, Some(true));
    assert_eq!(snap.http_running, None);
    assert!(!state.is_updated("scan_output"));
    let again = take_refresh(&mut state);
    assert!(again.data.is_empty());
}

#[test]
fn refresh_values() {
    let state = UiState::new();
    assert_eq!(refresh_value(&state, "tftpd_dirs"), "(no directories added)\n");
    assert_eq!(refresh_value(&state, "ping_stats"), "Ready");
    assert_eq!(refresh_value(&state, "http_items"), "");
}

#[test]
fn display_rules() {
    assert!(autoscrolls("plan_output"));
    assert!(!autoscrolls("ping_stats"));
    assert!(!shown_in_text_display("tftpd_dirs"));
    assert!(shown_in_text_display("chat_users"));
}

#[test]
fn browser_rows() {
    assert_eq!(dir_browser_rows("a\n\nb\n"), vec!["a".to_string(), "b".to_string()]);
    assert_eq!(dir_browser_rows(""), vec!["(no directories added)".to_string()]);
    let items = vec!["/x".to_string(), "/y".to_string()];
    let (rows, sel) = http_browser_rows(&items, Some(2));
    assert_eq!(rows, vec!["/x".to_string(), "\u{25b6} /y".to_string()]);
    assert_eq!(sel, Some(2));
    let (rows, sel) = http_browser_rows(&Vec::new(), Some(1));
    assert_eq!(rows, vec!["(No files or directories configured)".to_string()]);
    assert_eq!(sel, None);
}

#[test]
fn buttons() {
    assert_eq!(button_face(true), ButtonFace::Stop);
    assert_eq!(button_face(false).label(), "Start");
    assert_eq!(tab_button(2), Some(TabButton::Http));
    assert_eq!(tab_button(8), None);
}
