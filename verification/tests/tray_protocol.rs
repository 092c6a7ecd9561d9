use rabbit::tray_protocol::{
    accept_step, decode_tag, encode_tag, forwarding_ends_after, helper_command, is_active,
    parent_action, parent_socket_path, socket_path_for, tray_startup, tray_update,
    update_systray, AcceptPoll, AcceptStep, HelperCommand, HelperLink, ParentAction,
    SystrayAction, TrayStartup, TrayUpdate, TAG_ACTIVATE, TAG_MENU_HIDE, TAG_MENU_QUIT,
    TAG_MENU_SHOW, TAG_TRAY_HIDE, TAG_TRAY_SHOW,
};

#[test]
fn tags_round_trip() {
    assert_eq!(encode_tag(0x11), [0x11, 0, 0, 0]);
    assert_eq!(encode_tag(0x0102_0304), [4, 3, 2, 1]);
    assert_eq!(decode_tag([4, 3, 2, 1]), 0x0102_0304);
    for t in [0u32, 1, 0x10, 0xdead_beef, u32::MAX] {
        assert_eq!(decode_tag(encode_tag(t)), t);
        assert_eq!(encode_tag(t), t.to_le_bytes());
    }
}

#[test]
fn dispatch_of_tags() {
    assert_eq!(parent_action(TAG_ACTIVATE), ParentAction::ShowWindow);
    assert_eq!(parent_action(TAG_MENU_SHOW), ParentAction::ShowWindow);
    assert_eq!(parent_action(TAG_MENU_HIDE), ParentAction::HideWindow);
    assert_eq!(parent_action(TAG_MENU_QUIT), ParentAction::Quit);
    assert_eq!(parent_action(0x99), ParentAction::Ignore);
    assert_eq!(helper_command(TAG_TRAY_HIDE), HelperCommand::HideTray);
    assert_eq!(helper_command(TAG_TRAY_SHOW), HelperCommand::ShowTray);
    assert_eq!(helper_command(TAG_MENU_QUIT), HelperCommand::Ignore);
    assert!(forwarding_ends_after(TAG_MENU_QUIT));
    assert!(!forwarding_ends_after(TAG_ACTIVATE));
}

#[test]
fn socket_paths() {
    assert_eq!(socket_path_for(1000), "/tmp/rabbit-tray-1000.sock");
    assert_eq!(parent_socket_path(Some("1000"), Some("5")), Some("/tmp/rabbit-tray-1000.sock".to_string()));
    assert_eq!(parent_socket_path(None, Some("5")), Some("/tmp/rabbit-tray-5.sock".to_string()));
    assert_eq!(parent_socket_path(Some("x"), Some("5")), None);
    assert_eq!(parent_socket_path(None, None), None);
}

#[test]
fn helper_link_states() {
    let mut link = HelperLink::new();
    assert!(!link.is_connected());
    assert!(is_active(&link, true));
    link.connect();
    assert_eq!(link.show_tray(), TAG_TRAY_SHOW);
    assert!(is_active(&link, false));
    assert_eq!(link.hide_tray(), TAG_TRAY_HIDE);
    assert!(!is_active(&link, true));
    link.shutdown_helper();
    assert!(!link.is_connected() && !link.is_tray_visible());
}

#[test]
fn tray_decisions() {
    assert_eq!(update_systray(true, false, true), SystrayAction::Init);
    assert_eq!(update_systray(true, false, false), SystrayAction::MissingLifecycle);
    assert_eq!(update_systray(false, true, true), SystrayAction::Remove);
    assert_eq!(update_systray(true, true, true), SystrayAction::Keep);
    assert_eq!(tray_startup(true, true), TrayStartup::ShowHelperTray);
    assert_eq!(tray_startup(false, true), TrayStartup::LocalTray);
    assert_eq!(tray_startup(false, false), TrayStartup::NoTray);
    assert_eq!(tray_update(true, false), TrayUpdate::HelperHide);
    assert_eq!(tray_update(false, false), TrayUpdate::Local);
    assert_eq!(accept_step(AcceptPoll::WouldBlock, false), AcceptStep::Retry);
    assert_eq!(accept_step(AcceptPoll::WouldBlock, true), AcceptStep::TimedOut);
    assert_eq!(accept_step(AcceptPoll::Accepted, true), AcceptStep::Connected);
}
