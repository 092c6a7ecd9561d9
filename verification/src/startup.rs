//! Decisions of the main window: where it opens, which tab comes first, what
//! the keyboard shortcuts do, when a moved window is saved, which services
//! resume, and which settings are applied.
use vstd::prelude::*;

use crate::refresh::{tab_button, TabButton};

verus! {

/// Manual opened by F1 and by the settings tab's Help link.
pub const HELP_URL: &'static str = "https://github.com/lazebird/rabbit/blob/rewrite/doc/manual.md";

/// Project page opened by F2.
pub const PROJECT_URL: &'static str = "https://github.com/lazebird/rabbit";

/// Release downloads, opened by the settings tab's Home link.
pub const HOME_URL: &'static str = "https://github.com/lazebird/rabbit/tree/rewrite/release";

/// Where the release manifest is fetched from.
pub const VERSION_CHECK_URL: &'static str = "https://raw.githubusercontent.com/lazebird/rabbit/rewrite/release/versions.json";

/// Number of tabs of the main window.
pub const TAB_COUNT: usize = 8;

/// Position and size of a window.
#[derive(Debug, Clone, Copy, PartialEq, Eq)]
pub struct WindowGeometry {
    pub x: i32,
    pub y: i32,
    pub width: i32,
    pub height: i32,
}

/// The main window's place: the saved one, else 748 x 518 at (100, 100).
pub fn initial_window(saved: Option<WindowGeometry>) -> (g: WindowGeometry)
    ensures
        g == match saved {
            Some(s) => s,
            None => WindowGeometry { x: 100, y: 100, width: 748, height: 518 },
        },
{
    match saved {
        Some(s) => s,
        None => WindowGeometry { x: 100, y: 100, width: 748, height: 518 },
    }
}

/// Where the tab strip and the tab pages go in a window of the given size:
/// the strip fills the window less a 5-pixel margin, a page starts below the
/// tab labels.
pub fn tab_layout(width: i32, height: i32) -> (r: (WindowGeometry, WindowGeometry))
    requires
        width >= i32::MIN + 18,
        height >= i32::MIN + 43,
    ensures
        r.0 == (WindowGeometry { x: 5, y: 5, width: (width - 10) as i32, height: (height - 10) as i32 }),
        r.1 == (WindowGeometry { x: 5, y: 30, width: (width - 18) as i32, height: (height - 43) as i32 }),
{
    (
        WindowGeometry { x: 5, y: 5, width: width - 10, height: height - 10 },
        WindowGeometry { x: 5, y: 30, width: width - 18, height: height - 43 },
    )
}

/// The tab to open first for the stored index (0 when none is stored), when
/// it names one of the tabs.
pub open spec fn restored_tab_spec(stored: Option<i64>) -> Option<usize> {
    let i = (stored.unwrap_or(0) as usize);
    if i < TAB_COUNT {
        Some(i)
    } else {
        None
    }
}

/// The tab to open first (see `restored_tab_spec`).
pub fn restored_tab(stored: Option<i64>) -> (r: Option<usize>)
    ensures
        r == restored_tab_spec(stored),
{
    let v: i64 = match stored {
        Some(v) => v,
        None => 0,
    };
    let i: usize = #[verifier::truncate] (v as usize);
    if i < TAB_COUNT {
        Some(i)
    } else {
        None
    }
}

/// The index of the current tab among the tabs' identities, or 0 when it
/// is none of them.
pub fn tab_index_of(tabs: &Vec<usize>, current: usize) -> (r: usize)
    ensures
        (r < tabs.len() && tabs@[r as int] == current && forall|k: int|
            0 <= k < r ==> tabs@[k] != current) || (r == 0 && forall|k: int|
            0 <= k < tabs.len() ==> tabs@[k] != current),
{
    let mut i: usize = 0;
    while i < tabs.len()
        invariant
            i <= tabs.len(),
            forall|k: int| 0 <= k < i ==> tabs@[k] != current,
        decreases tabs.len() - i,
    {
        if tabs[i] == current {
            return i;
        }
        i = i + 1;
    }
    0
}

/// A key the main window reacts to.
#[derive(Debug, Clone, Copy, PartialEq, Eq)]
pub enum Key {
    Escape,
    Enter,
    F1,
    F2,
    F3,
    /// Any other key.
    Other,
}

/// What a key press does.
#[derive(Debug, Clone, Copy, PartialEq, Eq)]
pub enum KeyAction {
    /// Hide the window and quit.
    Quit,
    /// Press the main button of the current tab (none for an unknown tab).
    PressTabButton(Option<TabButton>),
    /// Open the manual in the browser.
    OpenHelp,
    /// Open the project page in the browser.
    OpenProjectPage,
    /// Open the configuration directory in the file manager.
    OpenConfigDir,
    /// The key is not handled.
    Ignore,
}

/// What pressing `key` does while tab `current_tab` is shown.
pub fn key_action(key: Key, current_tab: usize) -> (a: KeyAction)
    ensures
        a == match key {
            Key::Escape => KeyAction::Quit,
            Key::Enter => KeyAction::PressTabButton(
                if current_tab == 0 {
                    Some(TabButton::Ping)
                } else if current_tab == 1 {
                    Some(TabButton::Scan)
                } else if current_tab == 2 {
                    Some(TabButton::Http)
                } else if current_tab == 3 {
                    Some(TabButton::Tftpd)
                } else if current_tab == 4 {
                    Some(TabButton::Tftpc)
                } else if current_tab == 5 {
                    Some(TabButton::Plan)
                } else if current_tab == 6 {
                    Some(TabButton::Chat)
                } else if current_tab == 7 {
                    Some(TabButton::Settings)
                } else {
                    None
                },
            ),
            Key::F1 => KeyAction::OpenHelp,
            Key::F2 => KeyAction::OpenProjectPage,
            Key::F3 => KeyAction::OpenConfigDir,
            Key::Other => KeyAction::Ignore,
        },
{
    match key {
        Key::Escape => KeyAction::Quit,
        Key::Enter => KeyAction::PressTabButton(tab_button(current_tab)),
        Key::F1 => KeyAction::OpenHelp,
        Key::F2 => KeyAction::OpenProjectPage,
        Key::F3 => KeyAction::OpenConfigDir,
        Key::Other => KeyAction::Ignore,
    }
}

/// Milliseconds the window must rest after a resize or move before its place
/// is saved.
pub const SAVE_DELAY_MS: u64 = 500;

/// Whether a pending window save is due at time `now_ms`, the last resize
/// having happened at `last_resize_ms` (a clock that went back counts as no
/// time passed).
pub fn window_save_due(pending: bool, now_ms: u64, last_resize_ms: u64) -> (r: bool)
    ensures
        r == (pending && now_ms >= last_resize_ms && now_ms - last_resize_ms >= SAVE_DELAY_MS),
{
    pending && now_ms.saturating_sub(last_resize_ms) >= SAVE_DELAY_MS
}

/// The services that ran when the application last closed, in the order
/// they are restarted.
pub open spec fn restore_order(ping: bool, http: bool, tftpd: bool, chat: bool) -> Seq<Seq<char>> {
    (if ping { seq!["ping"@] } else { Seq::empty() }) + (if http { seq!["http"@] } else { Seq::empty() })
        + (if tftpd { seq!["tftpd"@] } else { Seq::empty() }) + (if chat { seq!["chat"@] } else { Seq::empty() })
}

/// The modules to toggle on at startup, from their stored running states.
pub fn modules_to_restore(ping: bool, http: bool, tftpd: bool, chat: bool) -> (r: Vec<&'static str>)
    ensures
        r@.map_values(|m: &'static str| m@) == restore_order(ping, http, tftpd, chat),
{
    let mut r: Vec<&'static str> = Vec::new();
    if ping {
        r.push("ping");
    }
    let ghost a = r@.map_values(|m: &'static str| m@);
    assert(a =~= (if ping { seq!["ping"@] } else { Seq::<Seq<char>>::empty() }));
    if http {
        r.push("http");
    }
    let ghost b = r@.map_values(|m: &'static str| m@);
    assert(b =~= a + (if http { seq!["http"@] } else { Seq::<Seq<char>>::empty() }));
    if tftpd {
        r.push("tftpd");
    }
    let ghost c = r@.map_values(|m: &'static str| m@);
    assert(c =~= b + (if tftpd { seq!["tftpd"@] } else { Seq::<Seq<char>>::empty() }));
    if chat {
        r.push("chat");
    }
    assert(r@.map_values(|m: &'static str| m@) =~= c + (if chat { seq!["chat"@] } else { Seq::<Seq<char>>::empty() }));
    r
}

/// The global switches, with their defaults applied.
#[derive(Debug, Clone, Copy, PartialEq, Eq)]
pub struct GlobalSettings {
    pub autoupdate: bool,
    pub top: bool,
    pub systray: bool,
    pub autostart: bool,
    pub http_shell: bool,
}

/// The switches read from the configuration (`None` where a key is
/// missing): update checks and the tray default to on, the rest to off.
pub fn global_settings(
    autoupdate: Option<bool>,
    top: Option<bool>,
    systray: Option<bool>,
    autostart: Option<bool>,
    http_shell: Option<bool>,
) -> (g: GlobalSettings)
    ensures
        g.autoupdate == autoupdate.unwrap_or(true),
        g.top == top.unwrap_or(false),
        g.systray == systray.unwrap_or(true),
        g.autostart == autostart.unwrap_or(false),
        g.http_shell == http_shell.unwrap_or(false),
{
    GlobalSettings {
        autoupdate: match autoupdate {
            Some(b) => b,
            None => true,
        },
        top: match top {
            Some(b) => b,
            None => false,
        },
        systray: match systray {
            Some(b) => b,
            None => true,
        },
        autostart: match autostart {
            Some(b) => b,
            None => false,
        },
        http_shell: match http_shell {
            Some(b) => b,
            None => false,
        },
    }
}

/// The tray change that saving the settings calls for: the wanted state
/// when it differs from the tray's current state.
pub fn tray_change(active: bool, wanted: bool) -> (r: Option<bool>)
    ensures
        r == (if active != wanted {
            Some(wanted)
        } else {
            None
        }),
{
    if active != wanted {
        Some(wanted)
    } else {
        None
    }
}

} // verus!
