use rabbit::refresh::TabButton;
use rabbit::startup::{
    global_settings, initial_window, key_action, modules_to_restore, restored_tab, tab_index_of,
    tab_layout, tray_change, window_save_due, Key, KeyAction, WindowGeometry, HELP_URL,
};

#[test]
fn window_placement() {
    assert_eq!(initial_window(None), WindowGeometry { x: 100, y: 100, width: 748, height: 518 });
    let g = WindowGeometry { x: 1, y: 2, width: 300, height: 200 };
    assert_eq!(initial_window(Some(g)), g);
    let (tabs, page) = tab_layout(748, 518);
    assert_eq!(tabs, WindowGeometry { x: 5, y: 5, width: 738, height: 508 });
    assert_eq!(page, WindowGeometry { x: 5, y: 30, width: 730, height: 475 });
}

#[test]
fn tabs_and_keys() {
    assert_eq!(restored_tab(None), Some(0));
    assert_eq!(restored_tab(Some(7)), Some(7));
    assert_eq!(restored_tab(Some(8)), None);
    assert_eq!(restored_tab(Some(-1)), None);
    assert_eq!(tab_index_of(&vec![10, 20, 30], 30), 2);
    assert_eq!(tab_index_of(&vec![10, 20, 30], 99), 0);
    assert_eq!(key_action(Key::Escape, 3), KeyAction::Quit);
    assert_eq!(key_action(Key::Enter, 5), KeyAction::PressTabButton(Some(TabButton::Plan)));
    assert_eq!(key_action(Key::Enter, 12), KeyAction::PressTabButton(None));
    assert_eq!(key_action(Key::F1, 0), KeyAction::OpenHelp);
    assert_eq!(key_action(Key::Other, 0), KeyAction::Ignore);
    assert!(HELP_URL.ends_with("manual.md"));
}

#[test]
fn saving_and_restoring() {
    assert!(window_save_due(true, 1500, 1000));
    assert!(!window_save_due(true, 1499, 1000));
    assert!(!window_save_due(false, 9999, 0));
    assert!(!window_save_due(true, 10, 1000));
    assert_eq!(modules_to_restore(true, false, true, true), vec!["ping", "tftpd", "chat"]);
    assert!(modules_to_restore(false, false, false, false).is_empty());
    let g = global_settings(None, None, None, None, Some(true));
    assert!(g.autoupdate && !g.top && g.systray && !g.autostart && g.http_shell);
    assert_eq!(tray_change(true, false), Some(false));
    assert_eq!(tray_change(true, true), None);
}
