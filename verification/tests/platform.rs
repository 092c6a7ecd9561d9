use rabbit::network::{interface_for_ip, mac_text, usable_mac, InterfaceAddr};
use rabbit::platform::{
    autostart_reg_args, current_platform, desktop_entry, launch_agent_plist,
    notification_console_line, osascript_notification, powershell_escape, sudo_env_args,
    sudo_exit_error, sudo_spawn_error, sudo_wait_step, task_reminder_text, taskbar_state,
    ElevationError, GuiEnv, PlatformError, SudoPoll, SudoStep, TaskbarState,
};

#[test]
fn error_messages() {
    assert_eq!(ElevationError::Cancelled.message(), "Elevation cancelled by user");
    assert_eq!(ElevationError::SudoFailed("x".to_string()).message(), "sudo failed: x");
    assert_eq!(ElevationError::SpawnFailed("y".to_string()).message(), "Elevation spawn failed: y");
    assert_eq!(PlatformError::Io("denied".to_string()).message(), "IO error: denied");
    assert_eq!(PlatformError::Config("c".to_string()).message(), "Configuration error: c");
    assert_eq!(PlatformError::Network("n".to_string()).message(), "Network error: n");
    assert_eq!(PlatformError::NotSupported.message(), "Not supported on this platform");
}

#[test]
fn sudo_environment() {
    let env = GuiEnv {
        display: Some(":0".to_string()),
        wayland_display: Some(String::new()),
        xauthority: None,
        dbus_session_bus_address: Some("unix:path=/run/bus".to_string()),
        xdg_runtime_dir: None,
        home: Some("/home/u".to_string()),
    };
    assert_eq!(
        sudo_env_args(&env),
        vec![
            "DISPLAY=:0".to_string(),
            "DBUS_SESSION_BUS_ADDRESS=unix:path=/run/bus".to_string(),
            "XAUTHORITY=/home/u/.Xauthority".to_string(),
        ]
    );
    let env2 = GuiEnv {
        display: None,
        wayland_display: None,
        xauthority: Some("/tmp/xa".to_string()),
        dbus_session_bus_address: None,
        xdg_runtime_dir: Some("/run/user/1000".to_string()),
        home: Some("/home/u".to_string()),
    };
    assert_eq!(
        sudo_env_args(&env2),
        vec!["XAUTHORITY=/tmp/xa".to_string(), "XDG_RUNTIME_DIR=/run/user/1000".to_string()]
    );
}

#[test]
fn sudo_steps() {
    assert_eq!(sudo_wait_step(SudoPoll::Running, false), SudoStep::Wait);
    assert_eq!(sudo_wait_step(SudoPoll::Running, true), SudoStep::Exit);
    assert_eq!(sudo_wait_step(SudoPoll::Exited { success: true, code: Some(0) }, false), SudoStep::Exit);
    assert_eq!(
        sudo_wait_step(SudoPoll::Exited { success: false, code: Some(1) }, false),
        SudoStep::FailWithStderr(Some(1))
    );
    assert_eq!(
        sudo_wait_step(SudoPoll::WaitFailed, false),
        SudoStep::Fail(ElevationError::SudoFailed(
            "Failed to wait for sudo. Please try running from a terminal.".to_string()
        ))
    );
    assert_eq!(
        sudo_exit_error(Some(1), "bad password"),
        ElevationError::SudoFailed("sudo exited with code Some(1).\nstderr: bad password".to_string())
    );
    assert_eq!(
        sudo_exit_error(None, ""),
        ElevationError::SudoFailed("sudo exited with code None.\nstderr: ".to_string())
    );
    assert_eq!(
        sudo_spawn_error("not found"),
        ElevationError::SpawnFailed("Failed to spawn sudo: not found".to_string())
    );
}

#[test]
fn autostart_entries() {
    assert_eq!(
        desktop_entry("/usr/bin/rabbit"),
        "[Desktop Entry]\nType=Application\nName=Rabbit\nExec=/usr/bin/rabbit\nHidden=false\nNoDisplay=false\nX-GNOME-Autostart-enabled=true\n"
    );
    let plist = launch_agent_plist("/Applications/Rabbit");
    assert!(plist.starts_with("<?xml version=\"1.0\" encoding=\"UTF-8\"?>\n"));
    assert!(plist.contains("        <string>/Applications/Rabbit</string>\n"));
    assert!(plist.ends_with("</plist>"));
    assert_eq!(
        autostart_reg_args(true, "C:\\r.exe"),
        vec!["add", "HKCU\\Software\\Microsoft\\Windows\\CurrentVersion\\Run", "/v", "Rabbit", "/t", "REG_SZ", "/d", "\"C:\\r.exe\"", "/f"]
            .into_iter().map(String::from).collect::<Vec<_>>()
    );
    assert_eq!(autostart_reg_args(false, "x").len(), 5);
}

#[test]
fn notification_texts() {
    assert_eq!(
        task_reminder_text("Lunch", None),
        ("Reminder: Lunch".to_string(), "Time's up!".to_string())
    );
    assert_eq!(task_reminder_text("Lunch", Some("now")).1, "now");
    assert_eq!(powershell_escape("say \"hi\"\nbye"), "say \\\"hi\\\" bye");
    assert_eq!(osascript_notification("T", "M"), "display notification \"M\" with title \"T\"");
    assert_eq!(notification_console_line("T", "M"), "[Notification] T: M");
}

#[test]
fn platform_and_taskbar() {
    assert_eq!(current_platform("linux", "x86_64"), "linux-x64");
    assert_eq!(current_platform("windows", "aarch64"), "windows-arm64");
    assert_eq!(current_platform("macos", "x86_64"), "macos-x64");
    assert_eq!(current_platform("freebsd", "x86_64"), "unsupported");
    assert_eq!(taskbar_state(0, "red"), TaskbarState::NoProgress);
    assert_eq!(taskbar_state(10, "red"), TaskbarState::Error);
    assert_eq!(taskbar_state(10, "green"), TaskbarState::Normal);
    assert_eq!(taskbar_state(10, "blue"), TaskbarState::Normal);
}

#[test]
fn network_helpers() {
    let ifaces = vec![
        InterfaceAddr { name: "lo".to_string(), addr: 0x7f00_0001, mask: 0xff00_0000 },
        InterfaceAddr { name: "eth0".to_string(), addr: 0xc0a8_0105, mask: 0xffff_ff00 },
        InterfaceAddr { name: "wlan0".to_string(), addr: 0xc0a8_0106, mask: 0xffff_ff00 },
    ];
    assert_eq!(interface_for_ip(&ifaces, 0xc0a8_0120), Some("eth0".to_string()));
    assert_eq!(interface_for_ip(&ifaces, 0x7f00_0002), None);
    assert_eq!(interface_for_ip(&ifaces, 0x0a00_0001), None);
    assert_eq!(mac_text(&[0x00, 0x1a, 0x2b, 0x3c, 0x4d, 0xfe]), Some("00:1a:2b:3c:4d:fe".to_string()));
    assert_eq!(mac_text(&[0, 0, 0, 0, 0, 0]), None);
    assert_eq!(usable_mac(" aa:bb:cc:dd:ee:ff\n"), Some("aa:bb:cc:dd:ee:ff".to_string()));
    assert_eq!(usable_mac("00:00:00:00:00:00\n"), None);
    assert_eq!(usable_mac("  "), None);
}
