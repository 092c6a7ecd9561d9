//! Text buffers of the rabbit-app front end, shared between the services
//! and the display refresh.
//!
//! Compared with `ui_state`, this state keeps the running flags of the
//! scanner and the HTTP server as fields and shows scheduled events as text.
use vstd::prelude::*;
use vstd::hash_map::StringHashMap;

use crate::chat_users::{
    list_with_user, list_without_user, user_added, user_removed, users_list_text, users_text,
};
use crate::number::{int_decimal, push_i64_decimal};
use crate::text::{
    append_vec, chars_of, contains, contains_seq, owned, push_char, push_str, retain_other,
    split_lines, starts_with, starts_with_seq, string_views, to_string, lines_of, trim_lines,
    trimmed_to_lines, vec_views, without, contains_string,
};
use crate::ui_state::{appended_line, chat_line, flag_set, MAX_LOG_LINES};

verus! {

/// The state as mathematical values.
pub struct UiStateView {
    pub ping_output: Seq<char>,
    pub ping_stats: Seq<char>,
    pub scan_output: Seq<char>,
    pub scan_running: bool,
    pub http_log: Seq<char>,
    pub http_running: bool,
    pub tftpd_log: Seq<char>,
    pub tftpd_dirs: Seq<Seq<char>>,
    pub tftpc_log: Seq<char>,
    pub plan_list: Seq<char>,
    pub chat_messages: Seq<char>,
    pub chat_users: Seq<char>,
    pub updated: Map<Seq<char>, bool>,
}

/// UI state containing all text buffers.
pub struct UiState {
    pub ping_output: String,
    pub ping_stats: String,
    pub scan_output: String,
    pub scan_running: bool,
    pub http_log: String,
    pub http_running: bool,
    pub tftpd_log: String,
    pub tftpd_dirs: Vec<String>,
    pub tftpc_log: String,
    pub plan_list: String,
    pub chat_messages: String,
    pub chat_users: String,
    /// Flags tracking which buffers have been updated.
    pub updated: StringHashMap<bool>,
}

impl View for UiState {
    type V = UiStateView;

    open spec fn view(&self) -> UiStateView {
        UiStateView {
            ping_output: self.ping_output@,
            ping_stats: self.ping_stats@,
            scan_output: self.scan_output@,
            scan_running: self.scan_running,
            http_log: self.http_log@,
            http_running: self.http_running,
            tftpd_log: self.tftpd_log@,
            tftpd_dirs: string_views(self.tftpd_dirs@),
            tftpc_log: self.tftpc_log@,
            plan_list: self.plan_list@,
            chat_messages: self.chat_messages@,
            chat_users: self.chat_users@,
            updated: self.updated@,
        }
    }
}

/// Appends `line` and a newline to `field`, then trims it to the log limit.
fn append_log_line(field: &mut String, line: &str)
    ensures
        final(field)@ == appended_line(old(field)@, line@),
{
    push_str(field, line);
    push_char(field, '\n');
    assert(field@ =~= old(field)@ + line@ + seq!['\n']);
    trim_lines(field, MAX_LOG_LINES);
}

impl UiState {
    /// A fresh state: empty buffers, `Ready` statistics, nothing running.
    pub fn new() -> (s: Self)
        ensures
            s@ == (UiStateView {
                ping_output: Seq::empty(),
                ping_stats: "Ready"@,
                scan_output: Seq::empty(),
                scan_running: false,
                http_log: Seq::empty(),
                http_running: false,
                tftpd_log: Seq::empty(),
                tftpd_dirs: Seq::empty(),
                tftpc_log: Seq::empty(),
                plan_list: Seq::empty(),
                chat_messages: Seq::empty(),
                chat_users: Seq::empty(),
                updated: Map::empty(),
            }),
    {
        let s = UiState {
            ping_output: String::new(),
            ping_stats: owned("Ready"),
            scan_output: String::new(),
            scan_running: false,
            http_log: String::new(),
            http_running: false,
            tftpd_log: String::new(),
            tftpd_dirs: Vec::new(),
            tftpc_log: String::new(),
            plan_list: String::new(),
            chat_messages: String::new(),
            chat_users: String::new(),
            updated: StringHashMap::new(),
        };
        assert(string_views(s.tftpd_dirs@) =~= Seq::<Seq<char>>::empty());
        s
    }

    /// Appends a line to the ping output.
    pub fn append_ping(&mut self, line: &str)
        ensures
            final(self)@ == (UiStateView {
                ping_output: appended_line(old(self)@.ping_output, line@),
                updated: old(self)@.updated.insert("ping_output"@, true),
                ..old(self)@
            }),
    {
        append_log_line(&mut self.ping_output, line);
        self.updated.insert(owned("ping_output"), true);
    }

    /// Replaces the ping statistics line.
    pub fn set_ping_stats(&mut self, stats: &str)
        ensures
            final(self)@ == (UiStateView {
                ping_stats: stats@,
                updated: old(self)@.updated.insert("ping_stats"@, true),
                ..old(self)@
            }),
    {
        self.ping_stats = owned(stats);
        self.updated.insert(owned("ping_stats"), true);
    }

    /// Appends a line to the scan output.
    pub fn append_scan(&mut self, line: &str)
        ensures
            final(self)@ == (UiStateView {
                scan_output: appended_line(old(self)@.scan_output, line@),
                updated: old(self)@.updated.insert("scan_output"@, true),
                ..old(self)@
            }),
    {
        append_log_line(&mut self.scan_output, line);
        self.updated.insert(owned("scan_output"), true);
    }

    /// Appends a line to the HTTP log.
    pub fn append_http_log(&mut self, line: &str)
        ensures
            final(self)@ == (UiStateView {
                http_log: appended_line(old(self)@.http_log, line@),
                updated: old(self)@.updated.insert("http_log"@, true),
                ..old(self)@
            }),
    {
        append_log_line(&mut self.http_log, line);
        self.updated.insert(owned("http_log"), true);
    }

    /// Appends a line to the TFTP server log.
    pub fn append_tftpd_log(&mut self, line: &str)
        ensures
            final(self)@ == (UiStateView {
                tftpd_log: appended_line(old(self)@.tftpd_log, line@),
                updated: old(self)@.updated.insert("tftpd_log"@, true),
                ..old(self)@
            }),
    {
        append_log_line(&mut self.tftpd_log, line);
        self.updated.insert(owned("tftpd_log"), true);
    }

    /// Appends a line to the TFTP client log.
    pub fn append_tftpc_log(&mut self, line: &str)
        ensures
            final(self)@ == (UiStateView {
                tftpc_log: appended_line(old(self)@.tftpc_log, line@),
                updated: old(self)@.updated.insert("tftpc_log"@, true),
                ..old(self)@
            }),
    {
        append_log_line(&mut self.tftpc_log, line);
        self.updated.insert(owned("tftpc_log"), true);
    }

    /// Appends the chat line `[sender] message`.
    pub fn append_chat(&mut self, sender: &str, message: &str)
        ensures
            final(self)@ == (UiStateView {
                chat_messages: appended_line(old(self)@.chat_messages, chat_line(sender@, message@)),
                updated: old(self)@.updated.insert("chat_messages"@, true),
                ..old(self)@
            }),
    {
        push_char(&mut self.chat_messages, '[');
        push_str(&mut self.chat_messages, sender);
        push_char(&mut self.chat_messages, ']');
        push_char(&mut self.chat_messages, ' ');
        push_str(&mut self.chat_messages, message);
        push_char(&mut self.chat_messages, '\n');
        proof {
            assert(self.chat_messages@ =~= old(self)@.chat_messages + chat_line(sender@, message@)
                + seq!['\n']);
        }
        trim_lines(&mut self.chat_messages, MAX_LOG_LINES);
        self.updated.insert(owned("chat_messages"), true);
    }

    /// Whether the buffer named `key` is flagged as updated.
    pub fn is_updated(&self, key: &str) -> (r: bool)
        ensures
            r == flag_set(self@.updated, key@),
    {
        match self.updated.get(key) {
            Some(v) => *v,
            None => false,
        }
    }

    /// Removes the update flag of `key`.
    pub fn clear_updated(&mut self, key: &str)
        ensures
            final(self)@ == (UiStateView { updated: old(self)@.updated.remove(key@), ..old(self)@ }),
    {
        self.updated.remove(key);
    }
}

// ---------------------------------------------------------------------------
// Operations on a shared state
// ---------------------------------------------------------------------------

/// Appends a line to the ping output.
pub fn append_ping_output(state: &mut UiState, line: &str)
    ensures
        final(state)@ == (UiStateView {
            ping_output: appended_line(old(state)@.ping_output, line@),
            updated: old(state)@.updated.insert("ping_output"@, true),
            ..old(state)@
        }),
{
    state.append_ping(line);
}

/// Replaces the ping output.
pub fn set_ping_output(state: &mut UiState, text: &str)
    ensures
        final(state)@ == (UiStateView {
            ping_output: text@,
            updated: old(state)@.updated.insert("ping_output"@, true),
            ..old(state)@
        }),
{
    state.ping_output = owned(text);
    state.updated.insert(owned("ping_output"), true);
}

/// Replaces the ping statistics line.
pub fn set_ping_stats(state: &mut UiState, stats: &str)
    ensures
        final(state)@ == (UiStateView {
            ping_stats: stats@,
            updated: old(state)@.updated.insert("ping_stats"@, true),
            ..old(state)@
        }),
{
    state.set_ping_stats(stats);
}

/// Appends a line to the scan output.
pub fn append_scan_output(state: &mut UiState, line: &str)
    ensures
        final(state)@ == (UiStateView {
            scan_output: appended_line(old(state)@.scan_output, line@),
            updated: old(state)@.updated.insert("scan_output"@, true),
            ..old(state)@
        }),
{
    state.append_scan(line);
}

/// Replaces the scan output.
pub fn set_scan_output(state: &mut UiState, text: &str)
    ensures
        final(state)@ == (UiStateView {
            scan_output: text@,
            updated: old(state)@.updated.insert("scan_output"@, true),
            ..old(state)@
        }),
{
    state.scan_output = owned(text);
    state.updated.insert(owned("scan_output"), true);
}

/// Records whether the scanner runs.
pub fn set_scan_running(state: &mut UiState, running: bool)
    ensures
        final(state)@ == (UiStateView {
            scan_running: running,
            updated: old(state)@.updated.insert("scan_running"@, true),
            ..old(state)@
        }),
{
    state.scan_running = running;
    state.updated.insert(owned("scan_running"), true);
}

/// Appends a line to the HTTP log.
pub fn append_http_log(state: &mut UiState, line: &str)
    ensures
        final(state)@ == (UiStateView {
            http_log: appended_line(old(state)@.http_log, line@),
            updated: old(state)@.updated.insert("http_log"@, true),
            ..old(state)@
        }),
{
    state.append_http_log(line);
}

/// Records whether the HTTP server runs.
pub fn set_http_running(state: &mut UiState, running: bool)
    ensures
        final(state)@ == (UiStateView {
            http_running: running,
            updated: old(state)@.updated.insert("http_running"@, true),
            ..old(state)@
        }),
{
    state.http_running = running;
    state.updated.insert(owned("http_running"), true);
}

/// Adds a TFTP directory unless it is already listed.
pub fn add_tftpd_dir(state: &mut UiState, path: &str)
    ensures
        final(state)@ == if old(state)@.tftpd_dirs.contains(path@) {
            old(state)@
        } else {
            UiStateView {
                tftpd_dirs: old(state)@.tftpd_dirs.push(path@),
                updated: old(state)@.updated.insert("tftpd_dirs"@, true),
                ..old(state)@
            }
        },
{
    if !contains_string(&state.tftpd_dirs, path) {
        let ghost before = state.tftpd_dirs@;
        state.tftpd_dirs.push(owned(path));
        assert(string_views(state.tftpd_dirs@) =~= string_views(before).push(path@));
        state.updated.insert(owned("tftpd_dirs"), true);
    }
}

/// Removes every occurrence of a TFTP directory.
pub fn remove_tftpd_dir(state: &mut UiState, path: &str)
    ensures
        final(state)@ == (UiStateView {
            tftpd_dirs: without(old(state)@.tftpd_dirs, path@),
            updated: old(state)@.updated.insert("tftpd_dirs"@, true),
            ..old(state)@
        }),
{
    state.tftpd_dirs = retain_other(&state.tftpd_dirs, path);
    state.updated.insert(owned("tftpd_dirs"), true);
}

/// Appends a line to the TFTP server log.
pub fn append_tftpd_log(state: &mut UiState, line: &str)
    ensures
        final(state)@ == (UiStateView {
            tftpd_log: appended_line(old(state)@.tftpd_log, line@),
            updated: old(state)@.updated.insert("tftpd_log"@, true),
            ..old(state)@
        }),
{
    state.append_tftpd_log(line);
}

/// Appends the chat line `[sender] message`.
pub fn append_chat_message(state: &mut UiState, sender: &str, message: &str)
    ensures
        final(state)@ == (UiStateView {
            chat_messages: appended_line(old(state)@.chat_messages, chat_line(sender@, message@)),
            updated: old(state)@.updated.insert("chat_messages"@, true),
            ..old(state)@
        }),
{
    state.append_chat(sender, message);
}

/// Appends a line to the TFTP client log.
pub fn append_tftpc_log(state: &mut UiState, line: &str)
    ensures
        final(state)@ == (UiStateView {
            tftpc_log: appended_line(old(state)@.tftpc_log, line@),
            updated: old(state)@.updated.insert("tftpc_log"@, true),
            ..old(state)@
        }),
{
    state.append_tftpc_log(line);
}

// ---------------------------------------------------------------------------
// Scheduled events
// ---------------------------------------------------------------------------

/// Heading of the scheduled events list.
pub open spec fn plan_header() -> Seq<char> {
    "Scheduled Events:\n━━━━━━━━━━━━━━━━━━━━━━━━━━━━━━━━━━━━━━━━━━━━━━━━━━━━━━━━━━━━━━\n"@
}

/// The text shown when no event is scheduled.
pub open spec fn no_events_text() -> Seq<char> {
    "No scheduled events.\n\nUse + button to add a new reminder.\n"@
}

/// The repetition suffix of an event: every `cycle` `unit`s, or one-time.
pub open spec fn cycle_suffix(cycle: i32, unit: Seq<char>) -> Seq<char> {
    if cycle > 0 {
        " (Repeat every "@ + int_decimal(cycle as int) + seq![' '] + unit + seq![')']
    } else {
        " (One-time)"@
    }
}

/// The line listing one event: `[id] date time - msg` and its repetition.
pub open spec fn event_line(
    id: Seq<char>,
    date: Seq<char>,
    time: Seq<char>,
    cycle: i32,
    unit: Seq<char>,
    msg: Seq<char>,
) -> Seq<char> {
    seq!['['] + id + seq![']', ' '] + date + seq![' '] + time + " - "@ + msg + cycle_suffix(
        cycle,
        unit,
    ) + seq!['\n']
}

/// The marker that starts the line of event `id`.
pub open spec fn event_marker(id: Seq<char>) -> Seq<char> {
    seq!['['] + id + seq![']']
}

/// Whether a line of the list is kept when event `id` is removed: headings
/// and the lines of event `id` go.
pub open spec fn kept_line(line: Seq<char>, id: Seq<char>) -> bool {
    !starts_with_seq(line, "Scheduled"@) && !starts_with_seq(line, "━"@) && !starts_with_seq(
        line,
        event_marker(id),
    )
}

/// The lines kept when event `id` is removed, in order.
pub open spec fn kept_lines(lines: Seq<Seq<char>>, id: Seq<char>) -> Seq<Seq<char>>
    decreases lines.len(),
{
    if lines.len() == 0 {
        lines
    } else if kept_line(lines.last(), id) {
        kept_lines(lines.drop_last(), id).push(lines.last())
    } else {
        kept_lines(lines.drop_last(), id)
    }
}

/// Each line followed by a newline.
pub open spec fn concat_lines(lines: Seq<Seq<char>>) -> Seq<char>
    decreases lines.len(),
{
    if lines.len() == 0 {
        Seq::empty()
    } else {
        concat_lines(lines.drop_last()) + lines.last() + seq!['\n']
    }
}

/// The list after removing event `id`.
pub open spec fn plan_without_event(list: Seq<char>, id: Seq<char>) -> Seq<char> {
    let kept = kept_lines(lines_of(list), id);
    plan_header() + concat_lines(kept) + if kept.len() == 0 {
        no_events_text()
    } else {
        Seq::empty()
    }
}

/// The list after appending an event.
pub open spec fn plan_with_event(
    list: Seq<char>,
    id: Seq<char>,
    date: Seq<char>,
    time: Seq<char>,
    cycle: i32,
    unit: Seq<char>,
    msg: Seq<char>,
) -> Seq<char> {
    let base = if contains_seq(list, "No scheduled events"@) {
        plan_header()
    } else {
        list
    };
    base + event_line(id, date, time, cycle, unit, msg)
}

/// Replaces the scheduled events list with `list` under the heading.
pub fn set_plan_list(state: &mut UiState, list: &str)
    ensures
        final(state)@ == (UiStateView {
            plan_list: plan_header() + list@,
            updated: old(state)@.updated.insert("plan_list"@, true),
            ..old(state)@
        }),
{
    let mut s = owned("Scheduled Events:\n━━━━━━━━━━━━━━━━━━━━━━━━━━━━━━━━━━━━━━━━━━━━━━━━━━━━━━━━━━━━━━\n");
    push_str(&mut s, list);
    state.plan_list = s;
    state.updated.insert(owned("plan_list"), true);
}

/// Appends one event to the scheduled events list, replacing the "no events"
/// notice by the heading first.
pub fn append_plan_event(
    state: &mut UiState,
    id: &str,
    date: &str,
    time: &str,
    cycle: i32,
    unit: &str,
    msg: &str,
)
    ensures
        final(state)@ == (UiStateView {
            plan_list: plan_with_event(old(state)@.plan_list, id@, date@, time@, cycle, unit@, msg@),
            updated: old(state)@.updated.insert("plan_list"@, true),
            ..old(state)@
        }),
{
    let mut line: Vec<char> = Vec::new();
    line.push('[');
    append_vec(&mut line, &chars_of(id));
    line.push(']');
    line.push(' ');
    append_vec(&mut line, &chars_of(date));
    line.push(' ');
    append_vec(&mut line, &chars_of(time));
    append_vec(&mut line, &chars_of(" - "));
    append_vec(&mut line, &chars_of(msg));
    if cycle > 0 {
        append_vec(&mut line, &chars_of(" (Repeat every "));
        push_i64_decimal(&mut line, cycle as i64);
        line.push(' ');
        append_vec(&mut line, &chars_of(unit));
        line.push(')');
    } else {
        append_vec(&mut line, &chars_of(" (One-time)"));
    }
    line.push('\n');
    assert(line@ =~= event_line(id@, date@, time@, cycle, unit@, msg@));
    if contains(&chars_of(state.plan_list.as_str()), &chars_of("No scheduled events")) {
        state.plan_list = owned("Scheduled Events:\n━━━━━━━━━━━━━━━━━━━━━━━━━━━━━━━━━━━━━━━━━━━━━━━━━━━━━━━━━━━━━━\n");
    }
    let ghost base = state.plan_list@;
    push_str(&mut state.plan_list, to_string(&line).as_str());
    state.updated.insert(owned("plan_list"), true);
}

/// Removes the lines of event `id` from the scheduled events list, rebuilding
/// the heading and the "no events" notice.
pub fn remove_plan_event(state: &mut UiState, id: &str)
    ensures
        final(state)@ == (UiStateView {
            plan_list: plan_without_event(old(state)@.plan_list, id@),
            updated: old(state)@.updated.insert("plan_list"@, true),
            ..old(state)@
        }),
{
    let lines = split_lines(&chars_of(state.plan_list.as_str()));
    let ghost ls = vec_views(lines@);
    let mut out = chars_of("Scheduled Events:\n━━━━━━━━━━━━━━━━━━━━━━━━━━━━━━━━━━━━━━━━━━━━━━━━━━━━━━━━━━━━━━\n");
    let ghost head = out@;
    let scheduled = chars_of("Scheduled");
    let bar = chars_of("━");
    let mut marker: Vec<char> = Vec::new();
    marker.push('[');
    append_vec(&mut marker, &chars_of(id));
    marker.push(']');
    assert(marker@ =~= event_marker(id@));
    let mut has_events = false;
    let mut i: usize = 0;
    while i < lines.len()
        invariant
            i <= lines.len(),
            ls == vec_views(lines@),
            scheduled@ == "Scheduled"@,
            bar@ == "━"@,
            marker@ == event_marker(id@),
            out@ == head + concat_lines(kept_lines(ls.take(i as int), id@)),
            has_events == (kept_lines(ls.take(i as int), id@).len() > 0),
        decreases lines.len() - i,
    {
        assert(ls.take(i + 1).drop_last() =~= ls.take(i as int));
        assert(ls.take(i + 1).last() == lines@[i as int]@);
        let line = &lines[i];
        if !starts_with(line, &scheduled) && !starts_with(line, &bar) && !starts_with(
            line,
            &marker,
        ) {
            let ghost before = out@;
            append_vec(&mut out, line);
            out.push('\n');
            assert(kept_line(ls.take(i + 1).last(), id@));
            let ghost k = kept_lines(ls.take(i + 1), id@);
            assert(k == kept_lines(ls.take(i as int), id@).push(lines@[i as int]@));
            assert(concat_lines(k) == concat_lines(k.drop_last()) + k.last() + seq!['\n']);
            assert(k.drop_last() =~= kept_lines(ls.take(i as int), id@));
            assert(out@ =~= head + concat_lines(k));
            has_events = true;
        } else {
            assert(!kept_line(ls.take(i + 1).last(), id@));
            assert(kept_lines(ls.take(i + 1), id@) == kept_lines(ls.take(i as int), id@));
        }
        i = i + 1;
    }
    assert(ls.take(lines.len() as int) =~= ls);
    if !has_events {
        append_vec(&mut out, &chars_of("No scheduled events.\n\nUse + button to add a new reminder.\n"));
    } else {
        assert(out@ =~= out@ + Seq::<char>::empty());
    }
    state.plan_list = to_string(&out);
    state.updated.insert(owned("plan_list"), true);
}

/// Removing an event keeps only lines that are neither headings nor lines
/// of that event, in their order: none of the kept lines starts with the
/// event's marker.
pub proof fn removed_event_leaves_no_line(lines: Seq<Seq<char>>, id: Seq<char>)
    ensures
        forall|i: int|
            0 <= i < kept_lines(lines, id).len() ==> kept_line(#[trigger] kept_lines(lines, id)[i], id),
        forall|i: int|
            0 <= i < kept_lines(lines, id).len() ==> !starts_with_seq(
                #[trigger] kept_lines(lines, id)[i],
                event_marker(id),
            ),
        kept_lines(lines, id).len() <= lines.len(),
    decreases lines.len(),
{
    if lines.len() > 0 {
        removed_event_leaves_no_line(lines.drop_last(), id);
        let k = kept_lines(lines.drop_last(), id);
        if kept_line(lines.last(), id) {
            assert forall|i: int| 0 <= i < k.push(lines.last()).len() implies kept_line(
                #[trigger] k.push(lines.last())[i],
                id,
            ) by {
                if i < k.len() {
                    assert(k.push(lines.last())[i] == k[i]);
                }
            }
        }
    }
}

// ---------------------------------------------------------------------------
// Online users
// ---------------------------------------------------------------------------

/// Replaces the online users list.
pub fn set_chat_users(state: &mut UiState, users: &[String])
    ensures
        final(state)@ == (UiStateView {
            chat_users: users_text(string_views(users@)),
            updated: old(state)@.updated.insert("chat_users"@, true),
            ..old(state)@
        }),
{
    state.chat_users = users_list_text(users);
    state.updated.insert(owned("chat_users"), true);
}

/// Adds a user to the online users list unless it is already shown.
pub fn add_chat_user(state: &mut UiState, user: &str)
    ensures
        final(state)@ == (UiStateView {
            chat_users: user_added(old(state)@.chat_users, user@).0,
            updated: if user_added(old(state)@.chat_users, user@).1 {
                old(state)@.updated.insert("chat_users"@, true)
            } else {
                old(state)@.updated
            },
            ..old(state)@
        }),
{
    let (list, appended) = list_with_user(state.chat_users.as_str(), user);
    state.chat_users = list;
    if appended {
        state.updated.insert(owned("chat_users"), true);
    }
}

/// Removes a user from the online users list.
pub fn remove_chat_user(state: &mut UiState, user: &str)
    ensures
        final(state)@ == (UiStateView {
            chat_users: user_removed(old(state)@.chat_users, user@),
            updated: old(state)@.updated.insert("chat_users"@, true),
            ..old(state)@
        }),
{
    state.chat_users = list_without_user(state.chat_users.as_str(), user);
    state.updated.insert(owned("chat_users"), true);
}

} // verus!
