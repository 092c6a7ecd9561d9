//! What the buttons of the ping, scan, TFTP client, plan and settings tabs
//! decide before they hand a request to the services: input checks, the
//! messages they show, and the lines they log.
use vstd::prelude::*;

use crate::dispatch::{fmt_log, stamped};
use crate::number::parse_i32;
use crate::plan::{first_occurrence, lemma_first_occurrence, lemma_no_occurrence, repeat_marker};
use crate::text::{
    chars_of, copy_range, eq_str, find, owned, push_str, split_char, split_on, split_once,
    split_once_seq, to_string, trim_end_char, trim_end_matches, trim_start_char,
    trim_start_matches, vec_views,
};
use crate::ui_state::{written, UiState, UiStateView};

verus! {

/// What a start/stop button does when pressed.
#[derive(Debug, Clone, Copy, PartialEq, Eq)]
pub enum Click {
    /// Start the module.
    Start,
    /// Stop the module.
    Stop,
    /// Refuse: an input is missing (the tab shows its alert).
    Refuse,
}

/// A start/stop button that reads `label`: a `Start` button starts when
/// `ready`, else refuses; any other label stops.
pub open spec fn click_spec(label: Seq<char>, ready: bool) -> Click {
    if label == "Start"@ {
        if ready {
            Click::Start
        } else {
            Click::Refuse
        }
    } else {
        Click::Stop
    }
}

/// Alert of the ping tab when no target is given.
pub const PING_TARGET_MISSING: &'static str = "Please enter a target address!";

/// The ping tab's start/stop button: starting needs a target address.
pub fn ping_click(label: &str, target: &str) -> (c: Click)
    ensures
        c == click_spec(label@, target@.len() > 0),
{
    if eq_str(label, "Start") {
        if target.is_empty() {
            Click::Refuse
        } else {
            Click::Start
        }
    } else {
        Click::Stop
    }
}

/// Clears the ping output and statistics before a new run.
pub fn clear_ping_display(state: &mut UiState)
    ensures
        final(state)@ == (UiStateView {
            ping_output: Seq::empty(),
            ping_stats: Seq::empty(),
            ..old(state)@
        }),
{
    state.ping_output = String::new();
    state.ping_stats = String::new();
}

/// Alert of the scan tab when no start address is given.
pub const SCAN_START_MISSING: &'static str = "Please enter a start IP address!";

/// The scan tab's start/stop button: starting needs a start address.
pub fn scan_click(label: &str, start_ip: &str) -> (c: Click)
    ensures
        c == click_spec(label@, start_ip@.len() > 0),
{
    if eq_str(label, "Start") {
        if start_ip.is_empty() {
            Click::Refuse
        } else {
            Click::Start
        }
    } else {
        Click::Stop
    }
}

/// The scan output when a scan starts: `Scanning range START to END...`.
pub fn show_scan_range(state: &mut UiState, start_ip: &str, end_ip: &str)
    ensures
        final(state)@ == (UiStateView {
            scan_output: "Scanning range "@ + start_ip@ + " to "@ + end_ip@ + "...\n"@,
            updated: old(state)@.updated.insert("scan_output"@, true),
            ..old(state)@
        }),
{
    let mut s = owned("Scanning range ");
    push_str(&mut s, start_ip);
    push_str(&mut s, " to ");
    push_str(&mut s, end_ip);
    push_str(&mut s, "...\n");
    state.scan_output = s;
    state.updated.insert(owned("scan_output"), true);
}

/// A TFTP client transfer.
#[derive(Debug, Clone, Copy, PartialEq, Eq)]
pub enum Transfer {
    /// Upload a local file.
    Put,
    /// Download a remote file.
    Get,
}

/// Alert of the TFTP client tab when a field is empty.
pub const TFTPC_FIELDS_MISSING: &'static str = "Please fill in all fields!";

/// The log line of a transfer request.
pub open spec fn transfer_line(kind: Transfer, server: Seq<char>, local: Seq<char>, remote: Seq<char>) -> Seq<char> {
    match kind {
        Transfer::Put => "Uploading "@ + local + " to "@ + server + " as "@ + remote,
        Transfer::Get => "Downloading "@ + remote + " from "@ + server + " to "@ + local,
    }
}

/// Logs a TFTP client request when server, local file and remote file are
/// all given; returns whether the request goes ahead.
pub fn tftpc_transfer(
    state: &mut UiState,
    kind: Transfer,
    server: &str,
    local: &str,
    remote: &str,
    stamp: &str,
) -> (accepted: bool)
    ensures
        accepted == (server@.len() > 0 && local@.len() > 0 && remote@.len() > 0),
        accepted ==> final(state)@ == written(
            old(state)@,
            "tftpc_log"@,
            stamped(stamp@, transfer_line(kind, server@, local@, remote@)),
        ),
        !accepted ==> final(state)@ == old(state)@,
{
    if server.is_empty() || local.is_empty() || remote.is_empty() {
        return false;
    }
    let line = match kind {
        Transfer::Put => {
            let mut s = owned("Uploading ");
            push_str(&mut s, local);
            push_str(&mut s, " to ");
            push_str(&mut s, server);
            push_str(&mut s, " as ");
            push_str(&mut s, remote);
            s
        },
        Transfer::Get => {
            let mut s = owned("Downloading ");
            push_str(&mut s, remote);
            push_str(&mut s, " from ");
            push_str(&mut s, server);
            push_str(&mut s, " to ");
            push_str(&mut s, local);
            s
        },
    };
    let stamped_line = fmt_log(stamp, line.as_str());
    state.write_to_field("tftpc_log", stamped_line.as_str());
    true
}

// ---------------------------------------------------------------------------
// Plan tab
// ---------------------------------------------------------------------------

/// What is wrong with the plan tab's input, checked in this order: the
/// message, then date and time.
pub open spec fn plan_input_error_spec(date: Seq<char>, time: Seq<char>, msg: Seq<char>) -> Option<Seq<char>> {
    if msg.len() == 0 {
        Some("Msg is empty"@)
    } else if date.len() == 0 || time.len() == 0 {
        Some("Date or time is empty"@)
    } else {
        None
    }
}

/// Checks the plan tab's input before a reminder is added.
pub fn plan_input_error(date: &str, time: &str, msg: &str) -> (r: Option<&'static str>)
    ensures
        match r {
            Some(e) => plan_input_error_spec(date@, time@, msg@) == Some(e@),
            None => plan_input_error_spec(date@, time@, msg@) is None,
        },
{
    if msg.is_empty() {
        Some("Msg is empty")
    } else if date.is_empty() || time.is_empty() {
        Some("Date or time is empty")
    } else {
        None
    }
}

/// The repetition typed in the plan tab (0 when it is not a number).
pub fn plan_cycle(text: &str) -> (r: i32)
    ensures
        r == match crate::number::parse_in_range(text@, true, i32::MIN as int, i32::MAX as int) {
            Some(x) => x as i32,
            None => 0i32,
        },
{
    match parse_i32(&chars_of(text)) {
        Some(x) => x,
        None => 0,
    }
}

/// A line of the plan tab's own log: `[HH:MM:SS] TEXT` and a newline.
pub fn plan_log_line(stamp: &str, text: &str) -> (r: String)
    ensures
        r@ == stamped(stamp@, text@) + seq!['\n'],
{
    let mut s = fmt_log(stamp, text);
    crate::text::push_char(&mut s, '\n');
    s
}

/// The plan tab's log text after a removal: `Removed: MSG` or `Not found: MSG`.
pub fn plan_removal_text(msg: &str, removed: bool) -> (r: String)
    ensures
        r@ == (if removed {
            "Removed: "@
        } else {
            "Not found: "@
        }) + msg@,
{
    let mut s = if removed {
        owned("Removed: ")
    } else {
        owned("Not found: ")
    };
    push_str(&mut s, msg);
    s
}

/// The plan tab's input fields filled from a double-clicked task entry.
pub struct PlanFill {
    /// Date and time, when the entry has both.
    pub date_time: Option<(String, String)>,
    /// The message.
    pub msg: String,
    /// The repetition text and the unit menu index, when the entry has a
    /// readable repetition.
    pub repeat: Option<(String, i32)>,
    /// Whether the repetition field is reset to `0` (the entry repeats not).
    pub reset_cycle: bool,
}

/// The unit menu index of a unit name (`minute` and unknown units are 0).
pub open spec fn unit_index(unit: Seq<char>) -> i32 {
    if unit == "hour"@ {
        1
    } else if unit == "day"@ {
        2
    } else {
        0
    }
}

/// The fields to fill from a task entry, when it has a tab.
pub open spec fn plan_fill_spec(text: Seq<char>) -> Option<(
    Option<(Seq<char>, Seq<char>)>,
    Seq<char>,
    Option<(Seq<char>, i32)>,
    bool,
)> {
    let parts = split_on(text, '\t');
    if parts.len() < 2 {
        None
    } else {
        let date_time = split_once_seq(trim_start_char(parts[1], '@'), ' ');
        let left = parts[0];
        match first_occurrence(left, repeat_marker()) {
            Some(idx) => {
                let repeat = trim_end_char(left.skip(idx as int + 15), ')');
                let r = match split_once_seq(repeat, ' ') {
                    Some((c, u)) => Some((c, unit_index(u))),
                    None => None,
                };
                Some((date_time, left.take(idx as int), r, false))
            },
            None => Some((date_time, left, None, true)),
        }
    }
}

/// Reads the input fields back from a double-clicked task entry.
pub fn plan_fill(text: &str) -> (r: Option<PlanFill>)
    ensures
        match r {
            Some(f) => plan_fill_spec(text@) matches Some((dt, m, rep, reset)) && m == f.msg@
                && reset == f.reset_cycle && match (dt, f.date_time) {
                (Some((d, t)), Some((fd, ft))) => d == fd@ && t == ft@,
                (None, None) => true,
                _ => false,
            } && match (rep, f.repeat) {
                (Some((c, u)), Some((fc, fu))) => c == fc@ && u == fu,
                (None, None) => true,
                _ => false,
            },
            None => plan_fill_spec(text@) is None,
        },
{
    let parts = split_char(&chars_of(text), '\t');
    if parts.len() < 2 {
        return None;
    }
    assert(vec_views(parts@)[0] == parts@[0]@);
    assert(vec_views(parts@)[1] == parts@[1]@);
    let datetime = trim_start_matches(&parts[1], '@');
    let date_time = match split_once(&datetime, ' ') {
        Some((d, t)) => Some((to_string(&d), to_string(&t))),
        None => None,
    };
    let left = &parts[0];
    let marker = chars_of(" (Repeat every ");
    proof {
        reveal_strlit(" (Repeat every ");
    }
    match find(left, &marker) {
        Some(idx) => {
            proof {
                lemma_first_occurrence(left@, marker@, idx as int);
            }
            let msg = copy_range(left, 0, idx);
            assert(msg@ =~= left@.take(idx as int));
            let rest = copy_range(left, idx + 15, left.len());
            assert(rest@ =~= left@.skip(idx + 15));
            let repeat_text = trim_end_matches(&rest, ')');
            let repeat = match split_once(&repeat_text, ' ') {
                Some((c, u)) => {
                    let us = to_string(&u);
                    let unit: i32 = if eq_str(us.as_str(), "hour") {
                        1
                    } else if eq_str(us.as_str(), "day") {
                        2
                    } else {
                        0
                    };
                    Some((to_string(&c), unit))
                },
                None => None,
            };
            Some(PlanFill { date_time, msg: to_string(&msg), repeat, reset_cycle: false })
        },
        None => {
            proof {
                lemma_no_occurrence(left@, marker@);
            }
            Some(PlanFill { date_time, msg: to_string(left), repeat: None, reset_cycle: true })
        },
    }
}

// ---------------------------------------------------------------------------
// Settings tab
// ---------------------------------------------------------------------------

/// The language menu entries, in menu order.
pub open spec fn language_names() -> Seq<Seq<char>> {
    seq!["English"@, "\u{4e2d}\u{6587}"@, "System"@]
}

/// The menu index of a stored language: English 0, Chinese 1, anything else
/// (the system language) 2.
pub open spec fn lang_index(name: Seq<char>) -> i32 {
    if name == "English"@ {
        0
    } else if name == "\u{4e2d}\u{6587}"@ {
        1
    } else {
        2
    }
}

/// The language stored for a menu index.
pub open spec fn lang_name(index: i32) -> Seq<char> {
    if index == 0 {
        "English"@
    } else if index == 1 {
        "\u{4e2d}\u{6587}"@
    } else {
        "System"@
    }
}

/// The menu index of a stored language (see `lang_index`).
pub fn language_index(name: &str) -> (r: i32)
    ensures
        r == lang_index(name@),
{
    if eq_str(name, "English") {
        0
    } else if eq_str(name, "\u{4e2d}\u{6587}") {
        1
    } else {
        2
    }
}

/// The language stored for a menu index (see `lang_name`).
pub fn language_name(index: i32) -> (r: &'static str)
    ensures
        r@ == lang_name(index),
{
    if index == 0 {
        "English"
    } else if index == 1 {
        "\u{4e2d}\u{6587}"
    } else {
        "System"
    }
}

/// Choosing a language in the menu stores a name that selects the same menu
/// entry again (an index outside the menu stores the system language); a
/// stored menu language reads back as itself, any other stored text as the
/// system language.
pub proof fn language_choice_round_trip(index: i32, name: Seq<char>)
    ensures
        lang_index(lang_name(index)) == (if 0 <= index < 3 {
            index
        } else {
            2i32
        }),
        lang_name(lang_index(name)) == (if language_names().contains(name) {
            name
        } else {
            "System"@
        }),
{
    reveal_strlit("English");
    reveal_strlit("\u{4e2d}\u{6587}");
    reveal_strlit("System");
    assert("English"@ != "\u{4e2d}\u{6587}"@) by {
        assert("English"@.len() != "\u{4e2d}\u{6587}"@.len());
    }
    assert("English"@ != "System"@) by {
        assert("English"@[0] != "System"@[0]);
    }
    assert("System"@ != "\u{4e2d}\u{6587}"@) by {
        assert("System"@.len() != "\u{4e2d}\u{6587}"@.len());
    }
    if language_names().contains(name) {
        let w = choose|w: int| 0 <= w < language_names().len() && language_names()[w] == name;
        assert(w == 0 || w == 1 || w == 2);
    } else {
        assert(language_names()[0] == "English"@);
        assert(language_names()[1] == "\u{4e2d}\u{6587}"@);
        assert(language_names()[2] == "System"@);
    }
}

/// The version label of the settings tab: `sRabbit VERSION`.
pub fn version_label(version: &str) -> (r: String)
    ensures
        r@ == "sRabbit "@ + version@,
{
    let mut s = owned("sRabbit ");
    push_str(&mut s, version);
    s
}

/// The settings output when the user asks for an update check: an empty
/// line, then `[HH:MM:SS] Checking for updates...`.
pub fn begin_version_check(state: &mut UiState, stamp: &str)
    ensures
        final(state)@ == written(
            written(old(state)@, "settings_output"@, Seq::empty()),
            "settings_output"@,
            stamped(stamp@, "Checking for updates..."@),
        ),
{
    state.write_to_field("settings_output", "");
    proof {
        reveal_strlit("");
    }
    let line = fmt_log(stamp, "Checking for updates...");
    state.write_to_field("settings_output", line.as_str());
}

} // verus!
