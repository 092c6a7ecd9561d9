//! Text buffers and selection state that services write and the UI displays.
//!
//! Every operation that changes a buffer also records the buffer's name in
//! `updated`, so the display refresh knows what to redraw.
use vstd::prelude::*;
use vstd::hash_map::StringHashMap;

use crate::chat_users::{
    list_with_user, list_without_user, user_added, user_removed, users_list_text, users_text,
};
use crate::number::parse_u8;
use crate::text::{
    append_vec, chars_of, contains, contains_string, contains_seq, ends_with, ends_with_seq,
    eq_str, eq_vec, join_seq, lines_of, owned, push_char, push_joined, push_str, remove_all,
    remove_all_vec, retain_other, split_lines, string_views, to_string, trim_lines, trim_seq,
    trim_vec, trimmed_to_lines, trimming_keeps_newest_lines, vec_views, without, line_count,
};

verus! {

/// Most lines a log buffer keeps; older lines are dropped from the front.
pub const MAX_LOG_LINES: usize = 1000;

/// The UI state as mathematical values.
pub struct UiStateView {
    pub ping_output: Seq<char>,
    pub ping_stats: Seq<char>,
    pub scan_output: Seq<char>,
    pub http_log: Seq<char>,
    pub http_items: Seq<Seq<char>>,
    pub http_selected_idx: Option<i32>,
    pub tftpd_log: Seq<char>,
    pub tftpd_dirs: Seq<Seq<char>>,
    pub tftpd_selected_idx: Option<i32>,
    pub tftpc_log: Seq<char>,
    pub chat_messages: Seq<char>,
    pub chat_users: Seq<char>,
    pub settings_output: Seq<char>,
    pub plan_output: Seq<char>,
    pub updated: Map<Seq<char>, bool>,
}

/// UI state containing all text buffers.
pub struct UiState {
    pub ping_output: String,
    pub ping_stats: String,
    pub scan_output: String,
    pub http_log: String,
    pub http_items: Vec<String>,
    pub http_selected_idx: Option<i32>,
    pub tftpd_log: String,
    pub tftpd_dirs: Vec<String>,
    pub tftpd_selected_idx: Option<i32>,
    pub tftpc_log: String,
    pub chat_messages: String,
    pub chat_users: String,
    pub settings_output: String,
    pub plan_output: String,
    pub updated: StringHashMap<bool>,
}

impl View for UiState {
    type V = UiStateView;

    open spec fn view(&self) -> UiStateView {
        UiStateView {
            ping_output: self.ping_output@,
            ping_stats: self.ping_stats@,
            scan_output: self.scan_output@,
            http_log: self.http_log@,
            http_items: string_views(self.http_items@),
            http_selected_idx: self.http_selected_idx,
            tftpd_log: self.tftpd_log@,
            tftpd_dirs: string_views(self.tftpd_dirs@),
            tftpd_selected_idx: self.tftpd_selected_idx,
            tftpc_log: self.tftpc_log@,
            chat_messages: self.chat_messages@,
            chat_users: self.chat_users@,
            settings_output: self.settings_output@,
            plan_output: self.plan_output@,
            updated: self.updated@,
        }
    }
}

/// `old` with the line `content` appended and trimmed to the log limit.
pub open spec fn appended_line(old: Seq<char>, content: Seq<char>) -> Seq<char> {
    trimmed_to_lines(old + content + seq!['\n'], MAX_LOG_LINES as nat)
}

/// The chat line `[sender] message`.
pub open spec fn chat_line(sender: Seq<char>, message: Seq<char>) -> Seq<char> {
    seq!['['] + sender + seq![']', ' '] + message
}

/// Whether `key` is flagged in the update map.
pub open spec fn flag_set(updated: Map<Seq<char>, bool>, key: Seq<char>) -> bool {
    updated.contains_key(key) && updated[key]
}

/// The state after writing `content` to the buffer named `target`.
pub open spec fn written(v: UiStateView, target: Seq<char>, content: Seq<char>) -> UiStateView {
    let upd = v.updated.insert(target, true);
    if target == "ping_output"@ {
        UiStateView { ping_output: appended_line(v.ping_output, content), updated: upd, ..v }
    } else if target == "scan_output"@ {
        UiStateView { scan_output: appended_line(v.scan_output, content), updated: upd, ..v }
    } else if target == "http_log"@ {
        UiStateView { http_log: appended_line(v.http_log, content), updated: upd, ..v }
    } else if target == "tftpd_log"@ {
        UiStateView { tftpd_log: appended_line(v.tftpd_log, content), updated: upd, ..v }
    } else if target == "tftpc_log"@ {
        UiStateView { tftpc_log: appended_line(v.tftpc_log, content), updated: upd, ..v }
    } else if target == "chat_messages"@ {
        UiStateView { chat_messages: appended_line(v.chat_messages, content), updated: upd, ..v }
    } else if target == "settings_output"@ {
        UiStateView {
            settings_output: appended_line(v.settings_output, content),
            updated: upd,
            ..v
        }
    } else if target == "plan_output"@ {
        UiStateView { plan_output: appended_line(v.plan_output, content), updated: upd, ..v }
    } else {
        v
    }
}

/// Whether `target` names one of the buffers that `write_to_field` accepts.
pub open spec fn is_output_field(target: Seq<char>) -> bool {
    ||| target == "ping_output"@
    ||| target == "scan_output"@
    ||| target == "http_log"@
    ||| target == "tftpd_log"@
    ||| target == "tftpc_log"@
    ||| target == "chat_messages"@
    ||| target == "settings_output"@
    ||| target == "plan_output"@
}

/// Appends `content` and a newline to `field`, then trims it to the log limit.
pub fn append_line(field: &mut String, content: &str)
    ensures
        final(field)@ == appended_line(old(field)@, content@),
{
    push_str(field, content);
    push_char(field, '\n');
    assert(field@ =~= old(field)@ + content@ + seq!['\n']);
    trim_lines(field, MAX_LOG_LINES);
}

impl UiState {
    /// A fresh state: empty buffers, `Ready` statistics, nothing flagged.
    pub fn new() -> (s: Self)
        ensures
            s@ == (UiStateView {
                ping_output: Seq::empty(),
                ping_stats: "Ready"@,
                scan_output: Seq::empty(),
                http_log: Seq::empty(),
                http_items: Seq::empty(),
                http_selected_idx: None,
                tftpd_log: Seq::empty(),
                tftpd_dirs: Seq::empty(),
                tftpd_selected_idx: None,
                tftpc_log: Seq::empty(),
                chat_messages: Seq::empty(),
                chat_users: Seq::empty(),
                settings_output: Seq::empty(),
                plan_output: Seq::empty(),
                updated: Map::empty(),
            }),
    {
        let s = UiState {
            ping_output: String::new(),
            ping_stats: owned("Ready"),
            scan_output: String::new(),
            http_log: String::new(),
            http_items: Vec::new(),
            http_selected_idx: None,
            tftpd_log: String::new(),
            tftpd_dirs: Vec::new(),
            tftpd_selected_idx: None,
            tftpc_log: String::new(),
            chat_messages: String::new(),
            chat_users: String::new(),
            settings_output: String::new(),
            plan_output: String::new(),
            updated: StringHashMap::new(),
        };
        assert(string_views(s.http_items@) =~= Seq::<Seq<char>>::empty());
        assert(string_views(s.tftpd_dirs@) =~= Seq::<Seq<char>>::empty());
        s
    }

    /// Replaces the ping statistics line.
    pub fn set_ping_stats(&mut self, stats: &str)
        ensures
            final(self)@ == (UiStateView {
                ping_stats: stats@,
                updated: old(self)@.updated.insert("ping_stats"@, true),
                ..old(self)@
            }),
    {
        self.ping_stats = owned(stats);
        self.updated.insert(owned("ping_stats"), true);
    }

    /// Appends the chat line `[sender] message`.
    pub fn append_chat(&mut self, sender: &str, message: &str)
        ensures
            final(self)@ == (UiStateView {
                chat_messages: appended_line(old(self)@.chat_messages, chat_line(sender@, message@)),
                updated: old(self)@.updated.insert("chat_messages"@, true),
                ..old(self)@
            }),
    {
        push_char(&mut self.chat_messages, '[');
        push_str(&mut self.chat_messages, sender);
        push_char(&mut self.chat_messages, ']');
        push_char(&mut self.chat_messages, ' ');
        push_str(&mut self.chat_messages, message);
        push_char(&mut self.chat_messages, '\n');
        proof {
            assert(self.chat_messages@ =~= old(self)@.chat_messages + chat_line(sender@, message@)
                + seq!['\n']);
        }
        trim_lines(&mut self.chat_messages, MAX_LOG_LINES);
        self.updated.insert(owned("chat_messages"), true);
    }

    /// Writes `content` as a new line of the buffer named `target`; an unknown
    /// name changes nothing.
    pub fn write_to_field(&mut self, target: &str, content: &str)
        ensures
            final(self)@ == written(old(self)@, target@, content@),
    {
        if eq_str(target, "ping_output") {
            append_line(&mut self.ping_output, content);
        } else if eq_str(target, "scan_output") {
            append_line(&mut self.scan_output, content);
        } else if eq_str(target, "http_log") {
            append_line(&mut self.http_log, content);
        } else if eq_str(target, "tftpd_log") {
            append_line(&mut self.tftpd_log, content);
        } else if eq_str(target, "tftpc_log") {
            append_line(&mut self.tftpc_log, content);
        } else if eq_str(target, "chat_messages") {
            append_line(&mut self.chat_messages, content);
        } else if eq_str(target, "settings_output") {
            append_line(&mut self.settings_output, content);
        } else if eq_str(target, "plan_output") {
            append_line(&mut self.plan_output, content);
        } else {
            return;
        }
        self.updated.insert(owned(target), true);
    }

    /// Whether the buffer named `key` is flagged as updated.
    pub fn is_updated(&self, key: &str) -> (r: bool)
        ensures
            r == flag_set(self@.updated, key@),
    {
        match self.updated.get(key) {
            Some(v) => *v,
            None => false,
        }
    }

    /// Removes the update flag of `key`.
    pub fn clear_updated(&mut self, key: &str)
        ensures
            final(self)@ == (UiStateView { updated: old(self)@.updated.remove(key@), ..old(self)@ }),
    {
        self.updated.remove(key);
    }
}

impl Default for UiState {
    fn default() -> (s: Self)
        ensures
            s@ == (UiStateView {
                ping_output: Seq::empty(),
                ping_stats: Seq::empty(),
                scan_output: Seq::empty(),
                http_log: Seq::empty(),
                http_items: Seq::empty(),
                http_selected_idx: None,
                tftpd_log: Seq::empty(),
                tftpd_dirs: Seq::empty(),
                tftpd_selected_idx: None,
                tftpc_log: Seq::empty(),
                chat_messages: Seq::empty(),
                chat_users: Seq::empty(),
                settings_output: Seq::empty(),
                plan_output: Seq::empty(),
                updated: Map::empty(),
            }),
    {
        let s = UiState {
            ping_output: String::new(),
            ping_stats: String::new(),
            scan_output: String::new(),
            http_log: String::new(),
            http_items: Vec::new(),
            http_selected_idx: None,
            tftpd_log: String::new(),
            tftpd_dirs: Vec::new(),
            tftpd_selected_idx: None,
            tftpc_log: String::new(),
            chat_messages: String::new(),
            chat_users: String::new(),
            settings_output: String::new(),
            plan_output: String::new(),
            updated: StringHashMap::new(),
        };
        assert(string_views(s.http_items@) =~= Seq::<Seq<char>>::empty());
        assert(string_views(s.tftpd_dirs@) =~= Seq::<Seq<char>>::empty());
        s
    }
}

// ---------------------------------------------------------------------------
// Operations on a shared state (the application holds the state under a lock
// and passes it in)
// ---------------------------------------------------------------------------

/// Writes a pre-formatted message to the buffer named `target`.
pub fn write_to(state: &mut UiState, target: &str, msg: &str)
    ensures
        final(state)@ == written(old(state)@, target@, msg@),
{
    state.write_to_field(target, msg);
}

/// Pass-through for raw (unformatted) messages.
pub fn raw_log(msg: &str) -> (r: String)
    ensures
        r@ == msg@,
{
    owned(msg)
}

/// Replaces the ping statistics line of the shared state.
pub fn set_ping_stats(state: &mut UiState, stats: &str)
    ensures
        final(state)@ == (UiStateView {
            ping_stats: stats@,
            updated: old(state)@.updated.insert("ping_stats"@, true),
            ..old(state)@
        }),
{
    state.set_ping_stats(stats);
}

/// The state with the running flag `key` set to `running`.
pub open spec fn with_flag(v: UiStateView, key: Seq<char>, running: bool) -> UiStateView {
    UiStateView { updated: v.updated.insert(key, running), ..v }
}

/// Records whether the scanner runs.
pub fn set_scan_running(state: &mut UiState, running: bool)
    ensures
        final(state)@ == with_flag(old(state)@, "scan_running"@, running),
{
    state.updated.insert(owned("scan_running"), running);
}

/// Records whether ping runs.
pub fn set_ping_running(state: &mut UiState, running: bool)
    ensures
        final(state)@ == with_flag(old(state)@, "ping_running"@, running),
{
    state.updated.insert(owned("ping_running"), running);
}

/// Records whether the HTTP server runs.
pub fn set_http_running(state: &mut UiState, running: bool)
    ensures
        final(state)@ == with_flag(old(state)@, "http_running"@, running),
{
    state.updated.insert(owned("http_running"), running);
}

/// Records whether the TFTP server runs.
pub fn set_tftpd_running(state: &mut UiState, running: bool)
    ensures
        final(state)@ == with_flag(old(state)@, "tftpd_running"@, running),
{
    state.updated.insert(owned("tftpd_running"), running);
}

/// Records whether chat runs.
pub fn set_chat_running(state: &mut UiState, running: bool)
    ensures
        final(state)@ == with_flag(old(state)@, "chat_running"@, running),
{
    state.updated.insert(owned("chat_running"), running);
}

/// The state after recording that `module` runs or stopped; unknown modules
/// change nothing.
pub open spec fn module_running_set(v: UiStateView, module: Seq<char>, running: bool) -> UiStateView {
    if module == "ping"@ {
        with_flag(v, "ping_running"@, running)
    } else if module == "scan"@ {
        with_flag(v, "scan_running"@, running)
    } else if module == "http"@ {
        with_flag(v, "http_running"@, running)
    } else if module == "tftpd"@ {
        with_flag(v, "tftpd_running"@, running)
    } else if module == "chat"@ {
        with_flag(v, "chat_running"@, running)
    } else {
        v
    }
}

/// Records the running state of a module by name (the UI half of the module
/// status update; the application also stores it in the configuration).
pub fn update_module_running(state: &mut UiState, module: &str, running: bool)
    ensures
        final(state)@ == module_running_set(old(state)@, module@, running),
{
    if eq_str(module, "ping") {
        set_ping_running(state, running);
    } else if eq_str(module, "scan") {
        set_scan_running(state, running);
    } else if eq_str(module, "http") {
        set_http_running(state, running);
    } else if eq_str(module, "tftpd") {
        set_tftpd_running(state, running);
    } else if eq_str(module, "chat") {
        set_chat_running(state, running);
    }
}

/// Adds a TFTP directory unless it is already listed.
pub fn add_tftpd_dir(state: &mut UiState, path: &str)
    ensures
        final(state)@ == tftpd_dir_added(old(state)@, path@),
{
    if !contains_string(&state.tftpd_dirs, path) {
        let ghost before = state.tftpd_dirs@;
        state.tftpd_dirs.push(owned(path));
        assert(string_views(state.tftpd_dirs@) =~= string_views(before).push(path@));
        state.updated.insert(owned("tftpd_dirs"), true);
    }
}

/// Removes every occurrence of a TFTP directory.
pub fn remove_tftpd_dir(state: &mut UiState, path: &str)
    ensures
        final(state)@ == (UiStateView {
            tftpd_dirs: without(old(state)@.tftpd_dirs, path@),
            updated: old(state)@.updated.insert("tftpd_dirs"@, true),
            ..old(state)@
        }),
{
    state.tftpd_dirs = retain_other(&state.tftpd_dirs, path);
    state.updated.insert(owned("tftpd_dirs"), true);
}

/// The directory at the 1-based selection, when it names a listed directory.
pub fn get_tftpd_selected_dir(state: &UiState) -> (r: Option<String>)
    ensures
        r is Some <==> (state@.tftpd_selected_idx matches Some(idx) && 0 < idx
            && idx <= state@.tftpd_dirs.len()),
        r matches Some(d) ==> d@ == state@.tftpd_dirs[state@.tftpd_selected_idx->0 - 1],
{
    if let Some(idx) = state.tftpd_selected_idx {
        if idx > 0 && (idx as usize) <= state.tftpd_dirs.len() {
            let d = state.tftpd_dirs[(idx - 1) as usize].clone();
            assert(string_views(state.tftpd_dirs@)[idx - 1] == state.tftpd_dirs@[idx - 1]@);
            return Some(d);
        }
    }
    None
}

/// The selection stored for a 1-based browser index; non-positive means none.
pub open spec fn positive_selection(idx: i32) -> Option<i32> {
    if idx > 0 {
        Some(idx)
    } else {
        None
    }
}

/// Sets the TFTP working directory selection (1-based).
pub fn set_tftpd_selected_idx(state: &mut UiState, idx: i32)
    ensures
        final(state)@ == (UiStateView {
            tftpd_selected_idx: positive_selection(idx),
            ..old(state)@
        }),
{
    state.tftpd_selected_idx = if idx > 0 {
        Some(idx)
    } else {
        None
    };
}

/// Sets the TFTP working directory by 1-based browser index.
pub fn set_tftpd_selected(state: &mut UiState, idx: i32)
    ensures
        final(state)@ == (UiStateView {
            tftpd_selected_idx: positive_selection(idx),
            ..old(state)@
        }),
{
    state.tftpd_selected_idx = if idx <= 0 {
        None
    } else {
        Some(idx)
    };
}

/// Adds an HTTP file or directory unless it is already listed, and selects it.
pub fn add_http_item(state: &mut UiState, path: &str)
    ensures
        final(state)@ == if old(state)@.http_items.contains(path@) {
            old(state)@
        } else {
            UiStateView {
                http_items: old(state)@.http_items.push(path@),
                http_selected_idx: Some((old(state)@.http_items.len() + 1) as i32),
                updated: old(state)@.updated.insert("http_items"@, true),
                ..old(state)@
            }
        },
{
    if !contains_string(&state.http_items, path) {
        let ghost before = state.http_items@;
        state.http_items.push(owned(path));
        assert(string_views(state.http_items@) =~= string_views(before).push(path@));
        state.http_selected_idx = Some((state.http_items.len()) as i32);
        state.updated.insert(owned("http_items"), true);
    }
}

/// The HTTP selection after the list shrank to `len` items: a selection past
/// the end moves to the last item, or to none when the list is empty.
pub open spec fn clamped_selection(sel: Option<i32>, len: nat) -> Option<i32> {
    match sel {
        Some(s) => if (s as usize) as int > len {
            if len == 0 {
                None
            } else {
                Some(len as i32)
            }
        } else {
            Some(s)
        },
        None => None,
    }
}

/// The state after removing an HTTP item.
pub open spec fn http_item_removed(v: UiStateView, path: Seq<char>) -> UiStateView {
    let items = without(v.http_items, path);
    if items.len() < v.http_items.len() {
        UiStateView {
            http_items: items,
            http_selected_idx: clamped_selection(v.http_selected_idx, items.len()),
            updated: v.updated.insert("http_items"@, true),
            ..v
        }
    } else {
        UiStateView { http_items: items, ..v }
    }
}

/// Removes every occurrence of an HTTP item and keeps the selection in range.
pub fn remove_http_item(state: &mut UiState, path: &str)
    ensures
        final(state)@ == http_item_removed(old(state)@, path@),
{
    let old_len = state.http_items.len();
    state.http_items = retain_other(&state.http_items, path);
    if state.http_items.len() < old_len {
        if let Some(sel) = state.http_selected_idx {
            let sel_usize = sel as usize;
            if sel_usize > state.http_items.len() {
                state.http_selected_idx = if state.http_items.len() == 0 {
                    None
                } else {
                    Some(state.http_items.len() as i32)
                };
            }
        }
        state.updated.insert(owned("http_items"), true);
    }
}

/// Sets the HTTP selection (1-based); non-positive clears it.
pub fn set_http_selected(state: &mut UiState, idx: i32)
    ensures
        final(state)@ == (UiStateView {
            http_selected_idx: positive_selection(idx),
            ..old(state)@
        }),
{
    state.http_selected_idx = if idx <= 0 {
        None
    } else {
        Some(idx)
    };
}

/// Index stored in the configuration for a 1-based TFTP selection.
pub fn tftpd_working_dir_index(idx: i32) -> (r: i64)
    ensures
        r == if idx <= 0 {
            0
        } else {
            idx - 1
        },
{
    if idx <= 0 {
        0
    } else {
        (idx - 1) as i64
    }
}

/// The 1-based TFTP selection restored from a stored index, when the index
/// is below the number of stored directories.
pub fn restored_tftpd_selection(index: i64, dir_count: usize) -> (r: Option<i32>)
    ensures
        r == if index < (dir_count as i64) {
            Some((index + 1) as i32)
        } else {
            None::<i32>
        },
{
    #[verifier::truncate]
    let n = dir_count as i64;
    if index < n {
        Some(#[verifier::truncate] ((index + 1) as i32))
    } else {
        None
    }
}

/// The last octet stored for a scan end address: the text as a `u8`, or 254.
pub fn scan_end_suffix(end_ip: &str) -> (r: u8)
    ensures
        r == match crate::number::parse_in_range(end_ip@, false, 0, 255) {
            Some(v) => v as u8,
            None => 254u8,
        },
{
    match parse_u8(&chars_of(end_ip)) {
        Some(v) => v,
        None => 254,
    }
}

// ---------------------------------------------------------------------------
// Online users list
// ---------------------------------------------------------------------------

/// Replaces the online users list.
pub fn set_chat_users(state: &mut UiState, users: &[String])
    ensures
        final(state)@ == (UiStateView {
            chat_users: users_text(string_views(users@)),
            updated: old(state)@.updated.insert("chat_users"@, true),
            ..old(state)@
        }),
{
    state.chat_users = users_list_text(users);
    state.updated.insert(owned("chat_users"), true);
}

/// Adds a user to the online users list unless it is already shown.
pub fn add_chat_user(state: &mut UiState, user: &str)
    ensures
        final(state)@ == (UiStateView {
            chat_users: user_added(old(state)@.chat_users, user@).0,
            updated: if user_added(old(state)@.chat_users, user@).1 {
                old(state)@.updated.insert("chat_users"@, true)
            } else {
                old(state)@.updated
            },
            ..old(state)@
        }),
{
    let (list, appended) = list_with_user(state.chat_users.as_str(), user);
    state.chat_users = list;
    if appended {
        state.updated.insert(owned("chat_users"), true);
    }
}

/// Removes a user from the online users list.
pub fn remove_chat_user(state: &mut UiState, user: &str)
    ensures
        final(state)@ == (UiStateView {
            chat_users: user_removed(old(state)@.chat_users, user@),
            updated: old(state)@.updated.insert("chat_users"@, true),
            ..old(state)@
        }),
{
    state.chat_users = list_without_user(state.chat_users.as_str(), user);
    state.updated.insert(owned("chat_users"), true);
}

// ---------------------------------------------------------------------------
// Settings output
// ---------------------------------------------------------------------------

/// The lines of the settings output after replacing line `index` with `text`:
/// `-1` names the last line, and any other index outside the text appends.
pub open spec fn settings_lines_after(lines: Seq<Seq<char>>, index: i32, text: Seq<char>) -> Seq<
    Seq<char>,
> {
    if 0 <= index && index < lines.len() {
        lines.update(index as int, text)
    } else if index == -1 {
        if lines.len() > 0 {
            lines.update(lines.len() - 1, text)
        } else {
            lines
        }
    } else {
        lines.push(text)
    }
}

/// Replaces one line of the settings output in place (used for progress lines).
pub fn update_settings_line(state: &mut UiState, line_index: i32, text: &str)
    ensures
        final(state)@ == (UiStateView {
            settings_output: join_seq(
                settings_lines_after(lines_of(old(state)@.settings_output), line_index, text@),
                seq!['\n'],
            ),
            updated: old(state)@.updated.insert("settings_output"@, true),
            ..old(state)@
        }),
{
    let mut lines = split_lines(&chars_of(state.settings_output.as_str()));
    let len = lines.len();
    let t = chars_of(text);
    let ghost ls = vec_views(lines@);
    if line_index >= 0 && (line_index as usize) < len {
        lines.set(line_index as usize, t);
        assert(vec_views(lines@) =~= ls.update(line_index as int, text@));
    } else if line_index == -1 {
        if len > 0 {
            lines.set(len - 1, t);
            assert(vec_views(lines@) =~= ls.update(len - 1, text@));
        }
    } else {
        lines.push(t);
        assert(vec_views(lines@) =~= ls.push(text@));
    }
    let mut out: Vec<char> = Vec::new();
    let sep = chars_of("\n");
    proof {
        reveal_strlit("\n");
    }
    assert(sep@ =~= seq!['\n']);
    push_joined(&mut out, &lines, &sep);
    assert(out@ =~= join_seq(vec_views(lines@), seq!['\n']));
    state.settings_output = to_string(&out);
    state.updated.insert(owned("settings_output"), true);
}

// ---------------------------------------------------------------------------
// Laws
// ---------------------------------------------------------------------------

/// The text of the output buffer named `name`.
pub open spec fn buffer(v: UiStateView, name: Seq<char>) -> Seq<char> {
    if name == "ping_output"@ {
        v.ping_output
    } else if name == "scan_output"@ {
        v.scan_output
    } else if name == "http_log"@ {
        v.http_log
    } else if name == "tftpd_log"@ {
        v.tftpd_log
    } else if name == "tftpc_log"@ {
        v.tftpc_log
    } else if name == "chat_messages"@ {
        v.chat_messages
    } else if name == "settings_output"@ {
        v.settings_output
    } else {
        v.plan_output
    }
}

/// A line appended to a log is its newest line: the log ends with it and a
/// line break, and keeps at most `MAX_LOG_LINES` lines.
pub proof fn appended_line_is_newest(old: Seq<char>, content: Seq<char>)
    requires
        !content.contains('\n'),
    ensures
        appended_line(old, content).len() >= content.len() + 1,
        appended_line(old, content).skip(appended_line(old, content).len() - content.len() - 1)
            == content + seq!['\n'],
        line_count(appended_line(old, content)) <= MAX_LOG_LINES,
{
    let full = old + content + seq!['\n'];
    let t = appended_line(old, content);
    trimming_keeps_newest_lines(full, MAX_LOG_LINES as nat);
    assert(full.last() == '\n');
    assert(line_count(full) >= 1) by {
        assert(crate::text::count_char(full, '\n') >= 1);
    }
    if t.len() < content.len() + 1 {
        let i = full.len() - t.len() - 1;
        assert(full[i] == '\n');
        if t.len() == 0 {
            assert(line_count(t) == 0);
        }
        assert(old.len() <= i < full.len() - 1);
        assert(content[i - old.len()] == full[i]);
        assert(content.contains('\n'));
    }
    assert(t.len() >= content.len() + 1);
    assert(t.skip(t.len() - content.len() - 1) =~= content + seq!['\n']) by {
        assert forall|j: int| 0 <= j < content.len() + 1 implies t.skip(t.len() - content.len() - 1)[j]
            == (content + seq!['\n'])[j] by {
            let k = t.len() - content.len() - 1 + j;
            assert(0 <= k < t.len());
            assert(t.len() <= full.len());
            assert(t == full.skip(full.len() - t.len()));
            assert(full.skip(full.len() - t.len())[k] == full[full.len() - t.len() + k]);
            assert(full[full.len() - content.len() - 1 + j] == (content + seq!['\n'])[j]);
        }
    }
}

/// Writing a line to an output buffer makes it the buffer's newest line and
/// flags the buffer for redrawing; the buffer keeps at most `MAX_LOG_LINES`
/// lines.
pub proof fn written_line_reads_back(v: UiStateView, target: Seq<char>, content: Seq<char>)
    requires
        is_output_field(target),
        !content.contains('\n'),
    ensures
        buffer(written(v, target, content), target) == appended_line(buffer(v, target), content),
        buffer(written(v, target, content), target).skip(
            buffer(written(v, target, content), target).len() - content.len() - 1,
        ) == content + seq!['\n'],
        line_count(buffer(written(v, target, content), target)) <= MAX_LOG_LINES,
        flag_set(written(v, target, content).updated, target),
{
    appended_line_is_newest(buffer(v, target), content);
}

/// Writing to a name that is no output buffer changes nothing.
pub proof fn writing_elsewhere_changes_nothing(v: UiStateView, target: Seq<char>, content: Seq<char>)
    requires
        !is_output_field(target),
    ensures
        written(v, target, content) == v,
{
}

/// A cleared flag reads as not updated, and clearing touches no other flag.
pub proof fn cleared_flag_reads_unset(upd: Map<Seq<char>, bool>, key: Seq<char>, other: Seq<char>)
    requires
        other != key,
    ensures
        !flag_set(upd.remove(key), key),
        flag_set(upd.remove(key), other) == flag_set(upd, other),
{
}

/// The state after adding a TFTP directory.
pub open spec fn tftpd_dir_added(v: UiStateView, path: Seq<char>) -> UiStateView {
    if v.tftpd_dirs.contains(path) {
        v
    } else {
        UiStateView {
            tftpd_dirs: v.tftpd_dirs.push(path),
            updated: v.updated.insert("tftpd_dirs"@, true),
            ..v
        }
    }
}

/// Adding a directory lists it once: afterwards it is listed, a list
/// without repeats stays without repeats, and adding it again changes
/// nothing.
pub proof fn tftpd_dirs_stay_distinct(v: UiStateView, path: Seq<char>)
    ensures
        tftpd_dir_added(v, path).tftpd_dirs.contains(path),
        v.tftpd_dirs.no_duplicates() ==> tftpd_dir_added(v, path).tftpd_dirs.no_duplicates(),
        tftpd_dir_added(tftpd_dir_added(v, path), path) == tftpd_dir_added(v, path),
{
    let d = v.tftpd_dirs;
    if !d.contains(path) {
        assert(d.push(path)[d.len() as int] == path);
        if d.no_duplicates() {
            assert forall|i: int, j: int| 0 <= i < d.len() + 1 && 0 <= j < d.len() + 1 && i != j
                implies d.push(path)[i] != d.push(path)[j] by {
                if i < d.len() && j < d.len() {
                    assert(d.push(path)[i] == d[i] && d.push(path)[j] == d[j]);
                } else if i < d.len() {
                    assert(d.push(path)[i] == d[i]);
                } else {
                    assert(d.push(path)[j] == d[j]);
                }
            }
        }
    }
}

/// The elements of `without(s, x)`: those of `s` other than `x`.
pub proof fn lemma_without(s: Seq<Seq<char>>, x: Seq<char>)
    ensures
        !without(s, x).contains(x),
        forall|y: Seq<char>| y != x ==> (without(s, x).contains(y) <==> s.contains(y)),
        without(s, x).len() <= s.len(),
        !s.contains(x) ==> without(s, x) == s,
    decreases s.len(),
{
    if s.len() > 0 {
        let r = s.drop_last();
        lemma_without(r, x);
        assert forall|y: Seq<char>| y != x implies (without(s, x).contains(y) <==> s.contains(y)) by {
            if s.contains(y) {
                let k = choose|k: int| 0 <= k < s.len() && s[k] == y;
                if k < s.len() - 1 {
                    assert(r[k] == y);
                    assert(r.contains(y));
                }
                if s.last() != x {
                    let w = without(r, x).push(s.last());
                    if k == s.len() - 1 {
                        assert(w[w.len() - 1] == y);
                    } else {
                        let q = choose|q: int| 0 <= q < without(r, x).len() && without(r, x)[q] == y;
                        assert(w[q] == y);
                    }
                }
            }
            if without(s, x).contains(y) {
                let q = choose|q: int| 0 <= q < without(s, x).len() && without(s, x)[q] == y;
                if s.last() == x {
                    assert(r.contains(y));
                    let k = choose|k: int| 0 <= k < r.len() && r[k] == y;
                    assert(s[k] == y);
                } else {
                    if q < without(r, x).len() {
                        assert(without(r, x)[q] == y);
                        assert(r.contains(y));
                        let k = choose|k: int| 0 <= k < r.len() && r[k] == y;
                        assert(s[k] == y);
                    } else {
                        assert(s[s.len() - 1] == y);
                    }
                }
            }
        }
        if without(s, x).contains(x) {
            if s.last() == x {
                assert(without(r, x).contains(x));
            } else {
                let w = without(r, x).push(s.last());
                let q = choose|q: int| 0 <= q < w.len() && w[q] == x;
                if q < without(r, x).len() {
                    assert(without(r, x)[q] == x);
                }
            }
        }
        if !s.contains(x) {
            assert(s.last() != x) by {
                if s.last() == x {
                    assert(s[s.len() - 1] == x);
                }
            }
            assert(!r.contains(x)) by {
                if r.contains(x) {
                    let k = choose|k: int| 0 <= k < r.len() && r[k] == x;
                    assert(s[k] == x);
                }
            }
            assert(s =~= r.push(s.last()));
        }
    }
}

/// Removing a directory unlists it and keeps every other directory.
pub proof fn removed_tftpd_dir_is_gone(v: UiStateView, path: Seq<char>, other: Seq<char>)
    requires
        other != path,
    ensures
        !without(v.tftpd_dirs, path).contains(path),
        without(v.tftpd_dirs, path).contains(other) == v.tftpd_dirs.contains(other),
{
    lemma_without(v.tftpd_dirs, path);
}

/// Whether an HTTP selection names an item of a list of `len` items.
pub open spec fn selection_valid(sel: Option<i32>, len: nat) -> bool {
    match sel {
        Some(s) => 1 <= s <= len,
        None => true,
    }
}

/// Removing an HTTP item keeps a valid selection valid, and a list without
/// the item loses nothing else.
pub proof fn http_selection_stays_valid(v: UiStateView, path: Seq<char>)
    requires
        selection_valid(v.http_selected_idx, v.http_items.len()),
    ensures
        selection_valid(
            http_item_removed(v, path).http_selected_idx,
            http_item_removed(v, path).http_items.len(),
        ),
        !http_item_removed(v, path).http_items.contains(path),
{
    lemma_without(v.http_items, path);
    let items = without(v.http_items, path);
    match v.http_selected_idx {
        Some(s) => {
            if items.len() < v.http_items.len() {
                if (s as usize) as int > items.len() {
                } else {
                    assert((s as usize) as int == s);
                }
            }
        },
        None => {},
    }
}

/// Adding a new HTTP item selects it: the selection names the item just
/// added.
pub proof fn added_http_item_is_selected(v: UiStateView, path: Seq<char>)
    requires
        !v.http_items.contains(path),
        v.http_items.len() < i32::MAX,
    ensures
        ({
            let w = UiStateView {
                http_items: v.http_items.push(path),
                http_selected_idx: Some((v.http_items.len() + 1) as i32),
                updated: v.updated.insert("http_items"@, true),
                ..v
            };
            &&& w.http_selected_idx matches Some(s)
            &&& 1 <= s <= w.http_items.len()
            &&& w.http_items[s - 1] == path
        }),
{
}

} // verus!
