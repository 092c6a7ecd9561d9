use rabbit::dispatch::{
    apply_toggle_result, fmt_log, handle_service_data, ping_title, report_version_check,
    route_log, route_transfer_log, upgrade_choice_message, Module, ServiceData, ToggleResult,
    WindowEffect,
};
use rabbit::ui_state::UiState;
use rabbit::upgrade::UpdateStatus;

#[test]
fn log_lines_are_routed() {
    let mut s = UiState::new();
    route_log(&mut s, Module::Ping, "reply", "12:00:00");
    route_log(&mut s, Module::Http, "GET /", "12:00:01");
    route_log(&mut s, Module::Chat, "joined", "12:00:02");
    route_log(&mut s, Module::Plan, "due", "12:00:03");
    assert_eq!(s.ping_output, "reply\n");
    assert_eq!(s.http_log, "[12:00:01] GET /\n");
    assert_eq!(s.chat_messages, "[joined]\n");
    assert_eq!(s.plan_output, "[12:00:03] due\n");
    route_transfer_log(&mut s, Module::Tftpc, "sent", "01:02:03");
    route_transfer_log(&mut s, Module::Ping, "ignored", "01:02:03");
    assert_eq!(s.tftpc_log, "[01:02:03] sent\n");
    assert_eq!(s.ping_output, "reply\n");
    assert_eq!(fmt_log("09:08:07", "x"), "[09:08:07] x");
}

#[test]
fn service_data_effects() {
    let mut s = UiState::new();
    let e = handle_service_data(&mut s, ServiceData::ServiceStatus(Module::Ping, true, None), "t");
    assert!(matches!(e, WindowEffect::PingTitle));
    assert!(s.is_updated("ping_running"));
    let e = handle_service_data(&mut s, ServiceData::ServiceStatus(Module::Ping, false, None), "t");
    assert!(matches!(e, WindowEffect::ResetTitle));
    let e = handle_service_data(&mut s, ServiceData::PlanReminder("stand up".to_string()), "t");
    assert!(matches!(e, WindowEffect::ShowReminder(ref m) if m == "stand up"));
    let e = handle_service_data(&mut s, ServiceData::ChatMessage("ann".to_string(), "hi".to_string()), "t");
    assert!(matches!(e, WindowEffect::Nothing));
    assert_eq!(s.chat_messages, "[ann] hi\n");
    let e = handle_service_data(
        &mut s,
        ServiceData::PingState { progress: 3, total: 10, color: "green".to_string() },
        "t",
    );
    assert!(matches!(e, WindowEffect::Taskbar { progress: 3, total: 10, .. }));
    handle_service_data(&mut s, ServiceData::ChatUserList(vec!["u".to_string()]), "t");
    assert_eq!(s.chat_users, "Online Users:\n───────────\nu\n");
    assert_eq!(ping_title(Some("1.1.1.1")), "Ping 1.1.1.1");
    assert_eq!(ping_title(None), "Ping Ping");
}

#[test]
fn toggle_results() {
    let mut s = UiState::new();
    assert_eq!(apply_toggle_result(&mut s, "http", ToggleResult::Started, "t"), Some(true));
    assert!(s.is_updated("http_running"));
    assert_eq!(apply_toggle_result(&mut s, "tftpd", ToggleResult::Stopped, "10:00:00"), None);
    assert_eq!(s.tftpd_log, "[10:00:00] TFTP server stopped\n");
    apply_toggle_result(&mut s, "chat", ToggleResult::Stopped, "t");
    assert_eq!(s.chat_users, "Online Users:\n───────────\n(no users)\n");
    assert_eq!(apply_toggle_result(&mut s, "ping", ToggleResult::Unchanged, "t"), None);
}

#[test]
fn version_check_reports() {
    let mut s = UiState::new();
    assert!(!report_version_check(&mut s, &UpdateStatus::UpToDate, false, "linux-x64", "1.0", "08:00:00"));
    assert_eq!(s.settings_output, "[08:00:00] Application is up to date\n");
    let mut s = UiState::new();
    report_version_check(&mut s, &UpdateStatus::CheckError("Network error: x".to_string()), false, "p", "1", "08:00:00");
    assert_eq!(s.settings_output, "[08:00:00] Update check failed: Network error: x\n");
    let mut s = UiState::new();
    assert!(!report_version_check(&mut s, &UpdateStatus::UpToDate, true, "p", "1", "t"));
    assert_eq!(s.settings_output, "");
    assert_eq!(upgrade_choice_message(Some(2), "1.2.3"), Some("Version 1.2.3 skipped".to_string()));
    assert_eq!(upgrade_choice_message(Some(1), "1.2.3"), Some("Update deferred".to_string()));
    assert_eq!(upgrade_choice_message(None, "1.2.3"), None);
}
