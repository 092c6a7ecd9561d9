//! What the buttons of the HTTP, chat and TFTP server tabs of the rabbit-app
//! front end decide and log.
use vstd::prelude::*;

use crate::dispatch::stamped;
use crate::number::{
    integer_text_value, lemma_nat_decimal_reads_back, nat_decimal, parse_in_range, parse_u16,
    push_u64_decimal,
};
use crate::rabbit_app_state::{UiState, UiStateView};
use crate::refresh::selection_marker;
use crate::tabs::{click_spec, Click};
use crate::text::{
    append_vec, chars_of, contains, contains_seq, copy_range, eq_str, matches_at, occurs_at,
    owned, push_char, push_str, starts_with_seq, to_string, trim_seq, trim_vec,
};
use crate::ui_state::chat_line;

verus! {

// ---------------------------------------------------------------------------
// HTTP tab
// ---------------------------------------------------------------------------

/// The port typed in the HTTP tab, 8000 when it is not a port number.
pub open spec fn http_port_of(text: Seq<char>) -> u16 {
    match parse_in_range(text, false, 0, u16::MAX as int) {
        Some(p) => p as u16,
        None => 8000u16,
    }
}

/// The HTTP server listens on the port typed in the tab whenever the text is
/// a number from 0 to 65535 (any port, privileged or not), and on 8000 only
/// when the text is no such number; a port written out in decimal is read
/// back as itself.
pub proof fn http_port_is_the_typed_number(text: Seq<char>, port: u16)
    ensures
        http_port_of(nat_decimal(port as nat)) == port,
        match integer_text_value(text, false) {
            Some(v) => v <= u16::MAX ==> http_port_of(text) as int == v,
            None => true,
        },
        match integer_text_value(text, false) {
            Some(v) => v <= u16::MAX && v != 8000 ==> http_port_of(text) != 8000,
            None => true,
        },
        (match integer_text_value(text, false) {
            Some(v) => v > u16::MAX,
            None => true,
        }) ==> http_port_of(text) == 8000,
{
    lemma_nat_decimal_reads_back(port as nat);
    let d = nat_decimal(port as nat);
    assert(d[0] != '+' && d[0] != '-') by {
        assert(crate::number::is_digit(d[0]));
    }
    assert(integer_text_value(d, false) == Some(port as int));
    if let Some(v) = integer_text_value(text, false) {
        assert(v >= 0);
    }
}

/// What the HTTP tab's start/stop button takes from its fields: the port,
/// and whether the options turn on directory listings and video playback.
pub fn http_toggle_settings(port_text: &str, options: &str) -> (r: (u16, bool, bool))
    ensures
        r.0 == http_port_of(port_text@),
        r.1 == contains_seq(options@, "autoindex=true"@),
        r.2 == contains_seq(options@, "videoplay=true"@),
{
    let port = match parse_u16(&chars_of(port_text)) {
        Some(p) => p,
        None => 8000,
    };
    let opts = chars_of(options);
    let autoindex = contains(&opts, &chars_of("autoindex=true"));
    let videoplay = contains(&opts, &chars_of("videoplay=true"));
    (port, autoindex, videoplay)
}

/// The HTTP log when the server starts: `Starting HTTP server on port N...`.
pub fn show_http_starting(state: &mut UiState, port: u16)
    ensures
        final(state)@ == (UiStateView {
            http_log: "Starting HTTP server on port "@ + nat_decimal(port as nat) + "...\r\n"@,
            updated: old(state)@.updated.insert("http_log"@, true),
            ..old(state)@
        }),
{
    let mut v = chars_of("Starting HTTP server on port ");
    push_u64_decimal(&mut v, port as u64);
    append_vec(&mut v, &chars_of("...\r\n"));
    state.http_log = to_string(&v);
    state.updated.insert(owned("http_log"), true);
}

/// `s` without any number of leading copies of `p` (`str::trim_start_matches`).
pub open spec fn strip_leading(s: Seq<char>, p: Seq<char>) -> Seq<char>
    decreases s.len(),
{
    if p.len() > 0 && p.len() <= s.len() && occurs_at(s, p, 0) {
        strip_leading(s.skip(p.len() as int), p)
    } else {
        s
    }
}

/// The item path shown on an HTTP list row: the row without its selection
/// marker, trimmed.
pub open spec fn row_item_path(row: Seq<char>) -> Seq<char> {
    trim_seq(strip_leading(row, selection_marker()))
}

/// The item path of an HTTP list row.
pub fn http_item_of_row(row: &str) -> (r: String)
    ensures
        r@ == row_item_path(row@),
{
    let v = chars_of(row);
    let mut m: Vec<char> = Vec::new();
    m.push('\u{25b6}');
    m.push(' ');
    assert(m@ =~= selection_marker());
    let mut start: usize = 0;
    assert(v@.skip(0) =~= v@);
    while v.len() >= 2 && start <= v.len() - 2 && matches_at(&v, &m, start)
        invariant
            start <= v.len(),
            m@ == selection_marker(),
            strip_leading(v@, m@) == strip_leading(v@.skip(start as int), m@),
        decreases v.len() - start,
    {
        assert(occurs_at(v@.skip(start as int), m@, 0)) by {
            assert(v@.skip(start as int).subrange(0, 2) =~= v@.subrange(start as int, start + 2));
        }
        assert(v@.skip(start as int).skip(2) =~= v@.skip(start + 2));
        start = start + 2;
    }
    let rest = copy_range(&v, start, v.len());
    assert(rest@ =~= v@.skip(start as int));
    proof {
        if v.len() >= 2 && start <= v.len() - 2 {
            assert(!occurs_at(v@.skip(start as int), m@, 0)) by {
                assert(v@.skip(start as int).subrange(0, 2) =~= v@.subrange(start as int, start + 2));
            }
        }
    }
    to_string(&trim_vec(&rest))
}

/// What was done to an HTTP item, for the log.
#[derive(Debug, Clone, Copy, PartialEq, Eq)]
pub enum ItemChange {
    AddedFile,
    AddedDirectory,
    Removed,
}

/// The HTTP log line of an item change.
pub fn http_item_log(change: ItemChange, path: &str) -> (r: String)
    ensures
        r@ == match change {
            ItemChange::AddedFile => "Added file: "@,
            ItemChange::AddedDirectory => "Added directory: "@,
            ItemChange::Removed => "Removed: "@,
        } + path@ + "\r\n"@,
{
    let mut s = match change {
        ItemChange::AddedFile => owned("Added file: "),
        ItemChange::AddedDirectory => owned("Added directory: "),
        ItemChange::Removed => owned("Removed: "),
    };
    push_str(&mut s, path);
    push_str(&mut s, "\r\n");
    s
}

// ---------------------------------------------------------------------------
// Chat tab
// ---------------------------------------------------------------------------

/// Alert of the chat tab when no user name is given for connecting.
pub const CHAT_USERNAME_MISSING: &'static str = "Please enter a username!";

/// The chat tab's connect button: connecting needs a user name.
pub fn chat_click(label: &str, username: &str) -> (c: Click)
    ensures
        c == click_spec(label@, username@.len() > 0),
{
    if eq_str(label, "Start") {
        if username.is_empty() {
            Click::Refuse
        } else {
            Click::Start
        }
    } else {
        Click::Stop
    }
}

/// The chat port typed in the chat tab, 1314 when it is not a port number.
pub open spec fn chat_port_of(text: Seq<char>) -> u16 {
    match parse_in_range(text, false, 0, u16::MAX as int) {
        Some(p) => p as u16,
        None => 1314u16,
    }
}

/// The chat messages when the chat connects: they start over with
/// `[HH:MM:SS] Connected as USER on port N` and an empty line.
pub fn show_chat_connected(state: &mut UiState, username: &str, port_text: &str, stamp: &str)
    ensures
        final(state)@ == (UiStateView {
            chat_messages: stamped(
                stamp@,
                "Connected as "@ + username@ + " on port "@ + nat_decimal(chat_port_of(port_text@) as nat),
            ) + "\n\n"@,
            updated: old(state)@.updated.insert("chat_messages"@, true),
            ..old(state)@
        }),
{
    let port = match parse_u16(&chars_of(port_text)) {
        Some(p) => p,
        None => 1314,
    };
    let mut v: Vec<char> = Vec::new();
    v.push('[');
    append_vec(&mut v, &chars_of(stamp));
    v.push(']');
    v.push(' ');
    append_vec(&mut v, &chars_of("Connected as "));
    append_vec(&mut v, &chars_of(username));
    append_vec(&mut v, &chars_of(" on port "));
    push_u64_decimal(&mut v, port as u64);
    v.push('\n');
    v.push('\n');
    proof {
        reveal_strlit("\n\n");
    }
    assert(v@ =~= stamped(
        stamp@,
        "Connected as "@ + username@ + " on port "@ + nat_decimal(chat_port_of(port_text@) as nat),
    ) + "\n\n"@);
    state.chat_messages = to_string(&v);
    state.updated.insert(owned("chat_messages"), true);
}

/// A chat status line the tab adds itself.
#[derive(Debug, Clone, Copy, PartialEq, Eq)]
pub enum ChatNotice {
    Disconnected,
    Refreshing,
    Notifying,
}

/// The words of a chat notice.
pub open spec fn notice_text(n: ChatNotice) -> Seq<char> {
    match n {
        ChatNotice::Disconnected => "Disconnected from chat"@,
        ChatNotice::Refreshing => "Refreshing user list..."@,
        ChatNotice::Notifying => "Sending notification to all users..."@,
    }
}

/// Adds a chat notice `[HH:MM:SS] TEXT` to the messages; disconnecting also
/// empties the user list.
pub fn add_chat_notice(state: &mut UiState, notice: ChatNotice, stamp: &str)
    ensures
        final(state)@ == (if notice == ChatNotice::Disconnected {
            UiStateView {
                chat_messages: old(state)@.chat_messages + stamped(stamp@, notice_text(notice))
                    + seq!['\n'],
                chat_users: Seq::empty(),
                updated: old(state)@.updated.insert("chat_messages"@, true).insert(
                    "chat_users"@,
                    true,
                ),
                ..old(state)@
            }
        } else {
            UiStateView {
                chat_messages: old(state)@.chat_messages + stamped(stamp@, notice_text(notice))
                    + seq!['\n'],
                updated: old(state)@.updated.insert("chat_messages"@, true),
                ..old(state)@
            }
        }),
{
    push_char(&mut state.chat_messages, '[');
    push_str(&mut state.chat_messages, stamp);
    push_char(&mut state.chat_messages, ']');
    push_char(&mut state.chat_messages, ' ');
    match notice {
        ChatNotice::Disconnected => push_str(&mut state.chat_messages, "Disconnected from chat"),
        ChatNotice::Refreshing => push_str(&mut state.chat_messages, "Refreshing user list..."),
        ChatNotice::Notifying => push_str(
            &mut state.chat_messages,
            "Sending notification to all users...",
        ),
    }
    push_char(&mut state.chat_messages, '\n');
    assert(state.chat_messages@ =~= old(state)@.chat_messages + stamped(stamp@, notice_text(notice))
        + seq!['\n']);
    state.updated.insert(owned("chat_messages"), true);
    match notice {
        ChatNotice::Disconnected => {
            state.chat_users = String::new();
            state.updated.insert(owned("chat_users"), true);
        },
        _ => {},
    }
}

/// Why the chat tab refuses to send a message.
pub open spec fn send_refusal(message: Seq<char>, username: Seq<char>) -> Option<Seq<char>> {
    if message.len() == 0 {
        Some("Please enter a message!"@)
    } else if username.len() == 0 {
        Some("Please enter a username first!"@)
    } else {
        None
    }
}

/// The chat tab's send button: a message and a user name are needed; then
/// the message is echoed as `[USER] MESSAGE` before it is sent.
pub fn chat_send(state: &mut UiState, username: &str, message: &str) -> (refusal: Option<&'static str>)
    ensures
        match refusal {
            Some(r) => send_refusal(message@, username@) == Some(r@) && final(state)@ == old(state)@,
            None => send_refusal(message@, username@) is None && final(state)@ == (UiStateView {
                chat_messages: crate::ui_state::appended_line(
                    old(state)@.chat_messages,
                    chat_line(username@, message@),
                ),
                updated: old(state)@.updated.insert("chat_messages"@, true),
                ..old(state)@
            }),
        },
{
    if message.is_empty() {
        return Some("Please enter a message!");
    }
    if username.is_empty() {
        return Some("Please enter a username first!");
    }
    state.append_chat(username, message);
    None
}

// ---------------------------------------------------------------------------
// TFTP server tab
// ---------------------------------------------------------------------------

/// The TFTP server log when the server starts:
/// `Starting TFTP server...` and `Options: OPTIONS` on two lines.
pub fn show_tftpd_starting(state: &mut UiState, options: &str)
    ensures
        final(state)@ == (UiStateView {
            tftpd_log: "Starting TFTP server...\nOptions: "@ + options@ + seq!['\n'],
            ..old(state)@
        }),
{
    let mut s = owned("Starting TFTP server...\nOptions: ");
    push_str(&mut s, options);
    push_char(&mut s, '\n');
    assert(s@ =~= "Starting TFTP server...\nOptions: "@ + options@ + seq!['\n']);
    state.tftpd_log = s;
}

/// The rows of the TFTP directory list: the directories, or a placeholder.
pub open spec fn tftpd_rows(dirs: Seq<Seq<char>>) -> Seq<Seq<char>> {
    if dirs.len() == 0 {
        seq!["(no directories added)"@]
    } else {
        dirs
    }
}

/// The rows of the TFTP directory list.
pub fn tftpd_dir_rows(state: &UiState) -> (r: Vec<String>)
    ensures
        crate::text::string_views(r@) == tftpd_rows(state@.tftpd_dirs),
{
    if state.tftpd_dirs.len() == 0 {
        let mut rows: Vec<String> = Vec::new();
        rows.push(owned("(no directories added)"));
        assert(crate::text::string_views(rows@) =~= seq!["(no directories added)"@]);
        rows
    } else {
        let mut rows: Vec<String> = Vec::new();
        let mut i: usize = 0;
        while i < state.tftpd_dirs.len()
            invariant
                i <= state.tftpd_dirs.len(),
                rows@.len() == i,
                forall|k: int| 0 <= k < i ==> #[trigger] rows@[k]@ == state.tftpd_dirs@[k]@,
            decreases state.tftpd_dirs.len() - i,
        {
            rows.push(state.tftpd_dirs[i].clone());
            i = i + 1;
        }
        assert(crate::text::string_views(rows@) =~= crate::text::string_views(state.tftpd_dirs@));
        rows
    }
}

/// The TFTP log line of a directory change: `Added directory: PATH` or
/// `Removed directory: PATH`.
pub fn tftpd_dir_log(added: bool, path: &str) -> (r: String)
    ensures
        r@ == (if added {
            "Added directory: "@
        } else {
            "Removed directory: "@
        }) + path@ + "\r\n"@,
{
    let mut s = if added {
        owned("Added directory: ")
    } else {
        owned("Removed directory: ")
    };
    push_str(&mut s, path);
    push_str(&mut s, "\r\n");
    s
}

} // verus!
