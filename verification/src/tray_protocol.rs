//! Wire protocol between the elevated application and its tray helper, and
//! the decisions taken on each side of the connection.
//!
//! Every message is a single `u32` tag sent as four little-endian bytes.
use vstd::prelude::*;

use crate::number::{nat_decimal, parse_in_range, parse_u32, push_u64_decimal};
use crate::text::{append_vec, chars_of, to_string};

verus! {

/// Helper to application: the tray icon was clicked.
pub const TAG_ACTIVATE: u32 = 0x01;

/// Helper to application: the user chose "Show" in the tray menu.
pub const TAG_MENU_SHOW: u32 = 0x02;

/// Helper to application: the user chose "Hide" in the tray menu.
pub const TAG_MENU_HIDE: u32 = 0x03;

/// Helper to application: the user chose "Quit" (full application exit).
pub const TAG_MENU_QUIT: u32 = 0x04;

/// Application to helper: hide the tray icon, keep the helper alive.
pub const TAG_TRAY_HIDE: u32 = 0x10;

/// Application to helper: show the tray icon again.
pub const TAG_TRAY_SHOW: u32 = 0x11;

/// The four little-endian bytes of `tag`.
pub open spec fn le_bytes(tag: u32) -> Seq<u8> {
    seq![
        (tag & 0xff) as u8,
        ((tag >> 8) & 0xff) as u8,
        ((tag >> 16) & 0xff) as u8,
        ((tag >> 24) & 0xff) as u8,
    ]
}

/// The number whose little-endian bytes are `b0 b1 b2 b3`.
pub open spec fn le_value(b0: u8, b1: u8, b2: u8, b3: u8) -> u32 {
    (b0 as u32) | ((b1 as u32) << 8) | ((b2 as u32) << 16) | ((b3 as u32) << 24)
}

/// Encodes a tag as four little-endian bytes (`u32::to_le_bytes`).
pub fn encode_tag(tag: u32) -> (buf: [u8; 4])
    ensures
        buf@ == le_bytes(tag),
{
    let buf = [
        (tag & 0xff) as u8,
        ((tag >> 8) & 0xff) as u8,
        ((tag >> 16) & 0xff) as u8,
        ((tag >> 24) & 0xff) as u8,
    ];
    assert(buf@ =~= le_bytes(tag));
    buf
}

/// Decodes four little-endian bytes (`u32::from_le_bytes`).
pub fn decode_tag(buf: [u8; 4]) -> (tag: u32)
    ensures
        tag == le_value(buf@[0], buf@[1], buf@[2], buf@[3]),
{
    (buf[0] as u32) | ((buf[1] as u32) << 8) | ((buf[2] as u32) << 16) | ((buf[3] as u32) << 24)
}

/// Decoding the encoding of a tag gives the tag back.
pub proof fn lemma_decode_encode(tag: u32)
    ensures
        le_value(le_bytes(tag)[0], le_bytes(tag)[1], le_bytes(tag)[2], le_bytes(tag)[3]) == tag,
{
    let b0 = (tag & 0xff) as u8;
    let b1 = ((tag >> 8) & 0xff) as u8;
    let b2 = ((tag >> 16) & 0xff) as u8;
    let b3 = ((tag >> 24) & 0xff) as u8;
    assert((b0 as u32) | ((b1 as u32) << 8) | ((b2 as u32) << 16) | ((b3 as u32) << 24) == tag)
        by (bit_vector)
        requires
            b0 == (tag & 0xff) as u8,
            b1 == ((tag >> 8) & 0xff) as u8,
            b2 == ((tag >> 16) & 0xff) as u8,
            b3 == ((tag >> 24) & 0xff) as u8,
    ;
}

/// Encoding the decoding of four bytes gives the bytes back.
pub proof fn lemma_encode_decode(b0: u8, b1: u8, b2: u8, b3: u8)
    ensures
        le_bytes(le_value(b0, b1, b2, b3)) == seq![b0, b1, b2, b3],
{
    let t = le_value(b0, b1, b2, b3);
    assert((t & 0xff) as u8 == b0 && ((t >> 8) & 0xff) as u8 == b1 && ((t >> 16) & 0xff) as u8
        == b2 && ((t >> 24) & 0xff) as u8 == b3) by (bit_vector)
        requires
            t == (b0 as u32) | ((b1 as u32) << 8) | ((b2 as u32) << 16) | ((b3 as u32) << 24),
    ;
    assert(le_bytes(t) =~= seq![b0, b1, b2, b3]);
}

/// What the application does with a message from the helper.
#[derive(Debug, Clone, Copy, PartialEq, Eq)]
pub enum ParentAction {
    /// Show the main window (tray click or "Show").
    ShowWindow,
    /// Hide the main window ("Hide").
    HideWindow,
    /// Request shutdown and quit the event loop; the listener stops.
    Quit,
    /// Unknown tag: logged and ignored.
    Ignore,
}

/// The application's reaction to a helper message.
pub open spec fn parent_action_spec(tag: u32) -> ParentAction {
    if tag == TAG_ACTIVATE || tag == TAG_MENU_SHOW {
        ParentAction::ShowWindow
    } else if tag == TAG_MENU_HIDE {
        ParentAction::HideWindow
    } else if tag == TAG_MENU_QUIT {
        ParentAction::Quit
    } else {
        ParentAction::Ignore
    }
}

/// Dispatches a message read by the application's listener.
pub fn parent_action(tag: u32) -> (a: ParentAction)
    ensures
        a == parent_action_spec(tag),
{
    if tag == TAG_ACTIVATE || tag == TAG_MENU_SHOW {
        ParentAction::ShowWindow
    } else if tag == TAG_MENU_HIDE {
        ParentAction::HideWindow
    } else if tag == TAG_MENU_QUIT {
        ParentAction::Quit
    } else {
        ParentAction::Ignore
    }
}

/// What the helper does with a command from the application.
#[derive(Debug, Clone, Copy, PartialEq, Eq)]
pub enum HelperCommand {
    /// Drop the tray icon.
    HideTray,
    /// Create the tray icon again.
    ShowTray,
    /// Unknown tag: logged and ignored.
    Ignore,
}

/// Dispatches a command read by the helper.
pub fn helper_command(tag: u32) -> (c: HelperCommand)
    ensures
        c == (if tag == TAG_TRAY_HIDE {
            HelperCommand::HideTray
        } else if tag == TAG_TRAY_SHOW {
            HelperCommand::ShowTray
        } else {
            HelperCommand::Ignore
        }),
{
    if tag == TAG_TRAY_HIDE {
        HelperCommand::HideTray
    } else if tag == TAG_TRAY_SHOW {
        HelperCommand::ShowTray
    } else {
        HelperCommand::Ignore
    }
}

/// Whether the helper stops forwarding events after sending `tag`.
pub fn forwarding_ends_after(tag: u32) -> (r: bool)
    ensures
        r == (tag == TAG_MENU_QUIT),
{
    tag == TAG_MENU_QUIT
}

/// `/tmp/rabbit-tray-{uid}.sock`.
pub open spec fn socket_path_spec(uid: u32) -> Seq<char> {
    "/tmp/rabbit-tray-"@ + nat_decimal(uid as nat) + ".sock"@
}

/// The socket path of the helper run by user `uid`.
pub fn socket_path_for(uid: u32) -> (p: String)
    ensures
        p@ == socket_path_spec(uid),
{
    let mut v = chars_of("/tmp/rabbit-tray-");
    push_u64_decimal(&mut v, uid as u64);
    append_vec(&mut v, &chars_of(".sock"));
    to_string(&v)
}

/// The helper socket the elevated application connects to, from the values
/// of `SUDO_UID` and `PKEXEC_UID`: the first variable that is set is read as
/// a user id; a value that does not parse gives no path.
pub fn parent_socket_path(sudo_uid: Option<&str>, pkexec_uid: Option<&str>) -> (r: Option<String>)
    ensures
        ({
            let chosen = match sudo_uid {
                Some(s) => Some(s@),
                None => match pkexec_uid {
                    Some(p) => Some(p@),
                    None => None::<Seq<char>>,
                },
            };
            match chosen {
                None => r is None,
                Some(text) => match parse_in_range(text, false, 0, u32::MAX as int) {
                    Some(uid) => r matches Some(p) && p@ == socket_path_spec(uid as u32),
                    None => r is None,
                },
            }
        }),
{
    let text = match sudo_uid {
        Some(s) => s,
        None => match pkexec_uid {
            Some(p) => p,
            None => return None,
        },
    };
    match parse_u32(&chars_of(text)) {
        Some(uid) => Some(socket_path_for(uid)),
        None => None,
    }
}

// ---------------------------------------------------------------------------
// Connection state on the application side
// ---------------------------------------------------------------------------

/// What the application knows of its helper connection.
#[derive(Debug, Clone, Copy, PartialEq, Eq)]
pub struct HelperLink {
    /// The helper connection is up.
    pub connected: bool,
    /// The helper currently shows a tray icon (as last commanded).
    pub tray_visible: bool,
}

impl HelperLink {
    /// No connection, no tray.
    pub fn new() -> (l: Self)
        ensures
            !l.connected,
            !l.tray_visible,
    {
        HelperLink { connected: false, tray_visible: false }
    }

    /// Whether the helper connection is up.
    pub fn is_connected(&self) -> (r: bool)
        ensures
            r == self.connected,
    {
        self.connected
    }

    /// Whether the helper shows a tray icon.
    pub fn is_tray_visible(&self) -> (r: bool)
        ensures
            r == self.tray_visible,
    {
        self.tray_visible
    }

    /// Records a successful connection to the helper.
    pub fn connect(&mut self)
        ensures
            final(self).connected,
            final(self).tray_visible == old(self).tray_visible,
    {
        self.connected = true;
    }

    /// Records that the tray is hidden and returns the command to send.
    pub fn hide_tray(&mut self) -> (tag: u32)
        ensures
            tag == TAG_TRAY_HIDE,
            !final(self).tray_visible,
            final(self).connected == old(self).connected,
    {
        self.tray_visible = false;
        TAG_TRAY_HIDE
    }

    /// Records that the tray is shown and returns the command to send.
    pub fn show_tray(&mut self) -> (tag: u32)
        ensures
            tag == TAG_TRAY_SHOW,
            final(self).tray_visible,
            final(self).connected == old(self).connected,
    {
        self.tray_visible = true;
        TAG_TRAY_SHOW
    }

    /// Records the end of the connection (shutdown, or the helper went away).
    pub fn shutdown_helper(&mut self)
        ensures
            !final(self).connected,
            !final(self).tray_visible,
    {
        self.connected = false;
        self.tray_visible = false;
    }
}

/// Whether a tray icon is visible: the helper's when connected, else the
/// local tray's.
pub fn is_active(link: &HelperLink, local_tray_enabled: bool) -> (r: bool)
    ensures
        r == if link.connected {
            link.tray_visible
        } else {
            local_tray_enabled
        },
{
    if link.is_connected() {
        link.is_tray_visible()
    } else {
        local_tray_enabled
    }
}

// ---------------------------------------------------------------------------
// Tray start and toggle decisions
// ---------------------------------------------------------------------------

/// What to do with the local tray when the setting changes.
#[derive(Debug, Clone, Copy, PartialEq, Eq)]
pub enum SystrayAction {
    /// Create the tray (it is requested and not shown).
    Init,
    /// The tray is requested but no lifecycle handle is stored: warn only.
    MissingLifecycle,
    /// Remove the tray (it is shown and no longer requested).
    Remove,
    /// The tray already matches the setting.
    Keep,
}

/// Decides how the local tray follows the `enabled` setting.
pub fn update_systray(enabled: bool, currently_active: bool, has_lifecycle: bool) -> (a:
    SystrayAction)
    ensures
        a == (if enabled && !currently_active {
            if has_lifecycle {
                SystrayAction::Init
            } else {
                SystrayAction::MissingLifecycle
            }
        } else if !enabled && currently_active {
            SystrayAction::Remove
        } else {
            SystrayAction::Keep
        }),
{
    if enabled && !currently_active {
        if has_lifecycle {
            SystrayAction::Init
        } else {
            SystrayAction::MissingLifecycle
        }
    } else if !enabled && currently_active {
        SystrayAction::Remove
    } else {
        SystrayAction::Keep
    }
}

/// How the tray is set up at start.
#[derive(Debug, Clone, Copy, PartialEq, Eq)]
pub enum TrayStartup {
    /// The helper is connected and the tray is enabled: tell it to show.
    ShowHelperTray,
    /// The helper is connected but the tray is disabled: nothing.
    HelperWithoutTray,
    /// No helper: create the local tray.
    LocalTray,
    /// No helper and the tray is disabled: nothing.
    NoTray,
}

/// Decides how the tray is set up at start.
pub fn tray_startup(helper_connected: bool, enabled: bool) -> (s: TrayStartup)
    ensures
        s == (if helper_connected {
            if enabled {
                TrayStartup::ShowHelperTray
            } else {
                TrayStartup::HelperWithoutTray
            }
        } else if enabled {
            TrayStartup::LocalTray
        } else {
            TrayStartup::NoTray
        }),
{
    if helper_connected {
        if enabled {
            TrayStartup::ShowHelperTray
        } else {
            TrayStartup::HelperWithoutTray
        }
    } else if enabled {
        TrayStartup::LocalTray
    } else {
        TrayStartup::NoTray
    }
}

/// How a change of the tray setting is carried out.
#[derive(Debug, Clone, Copy, PartialEq, Eq)]
pub enum TrayUpdate {
    /// Tell the connected helper to show its tray.
    HelperShow,
    /// Tell the connected helper to hide its tray.
    HelperHide,
    /// No helper: toggle the local tray.
    Local,
}

/// Decides how a change of the tray setting is carried out.
pub fn tray_update(helper_connected: bool, enabled: bool) -> (u: TrayUpdate)
    ensures
        u == (if helper_connected {
            if enabled {
                TrayUpdate::HelperShow
            } else {
                TrayUpdate::HelperHide
            }
        } else {
            TrayUpdate::Local
        }),
{
    if helper_connected {
        if enabled {
            TrayUpdate::HelperShow
        } else {
            TrayUpdate::HelperHide
        }
    } else {
        TrayUpdate::Local
    }
}

/// What the last attempt to accept the application's connection gave.
#[derive(Debug, Clone, Copy, PartialEq, Eq)]
pub enum AcceptPoll {
    /// The application connected.
    Accepted,
    /// Nobody connected yet.
    WouldBlock,
    /// Accepting failed.
    Failed,
}

/// What the helper does next while waiting for the application.
#[derive(Debug, Clone, Copy, PartialEq, Eq)]
pub enum AcceptStep {
    /// Use the connection.
    Connected,
    /// Sleep briefly and try again.
    Retry,
    /// Give up: the application did not connect in time.
    TimedOut,
    /// Give up with the error of the failed accept.
    Fail,
}

/// Decides the next step of the helper's wait for the application (the
/// helper waits 30 seconds, polling every 200 ms).
pub fn accept_step(poll: AcceptPoll, past_deadline: bool) -> (s: AcceptStep)
    ensures
        s == match poll {
            AcceptPoll::Accepted => AcceptStep::Connected,
            AcceptPoll::WouldBlock => if past_deadline {
                AcceptStep::TimedOut
            } else {
                AcceptStep::Retry
            },
            AcceptPoll::Failed => AcceptStep::Fail,
        },
{
    match poll {
        AcceptPoll::Accepted => AcceptStep::Connected,
        AcceptPoll::WouldBlock => if past_deadline {
            AcceptStep::TimedOut
        } else {
            AcceptStep::Retry
        },
        AcceptPoll::Failed => AcceptStep::Fail,
    }
}

} // verus!
