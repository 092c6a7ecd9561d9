//! The periodic display refresh: which buffers changed since the last
//! refresh, the text each display shows, the rows of the two list widgets,
//! and the faces of the start/stop buttons.
//!
//! The refresh takes the flags of the buffers it shows out of the update map
//! (so each change is drawn once), then hands the widgets their contents.
use vstd::prelude::*;

use crate::number::bool_text;
use crate::text::{
    chars_of, eq_str, join_seq, lines_of, owned, push_char, push_str, split_lines, string_views,
    to_string, vec_views,
};
use crate::ui_state::{flag_set, UiState, UiStateView};

verus! {

/// The buffers and running flags that the refresh looks at, in this order.
pub open spec fn refresh_keys() -> Seq<Seq<char>> {
    seq![
        "ping_output"@,
        "ping_stats"@,
        "scan_output"@,
        "http_log"@,
        "http_items"@,
        "tftpd_log"@,
        "tftpd_dirs"@,
        "tftpc_log"@,
        "plan_output"@,
        "chat_messages"@,
        "chat_users"@,
        "settings_output"@,
        "ping_running"@,
        "scan_running"@,
        "http_running"@,
    ]
}

/// Number of entries of `refresh_keys`.
pub const REFRESH_KEY_COUNT: usize = 15;

/// The refresh key at position `i`.
pub fn refresh_key(i: usize) -> (k: &'static str)
    requires
        i < REFRESH_KEY_COUNT,
    ensures
        k@ == refresh_keys()[i as int],
{
    match i {
        0 => "ping_output",
        1 => "ping_stats",
        2 => "scan_output",
        3 => "http_log",
        4 => "http_items",
        5 => "tftpd_log",
        6 => "tftpd_dirs",
        7 => "tftpc_log",
        8 => "plan_output",
        9 => "chat_messages",
        10 => "chat_users",
        11 => "settings_output",
        12 => "ping_running",
        13 => "scan_running",
        _ => "http_running",
    }
}

/// Walks `keys` in order over the update map `upd`: each key flagged at its
/// turn is removed from the map and collected.  Yields the map afterwards and
/// the collected keys.
pub open spec fn take_flags(upd: Map<Seq<char>, bool>, keys: Seq<Seq<char>>) -> (
    Map<Seq<char>, bool>,
    Seq<Seq<char>>,
)
    decreases keys.len(),
{
    if keys.len() == 0 {
        (upd, Seq::empty())
    } else {
        let (u, ks) = take_flags(upd, keys.drop_last());
        let k = keys.last();
        if flag_set(u, k) {
            (u.remove(k), ks.push(k))
        } else {
            (u, ks)
        }
    }
}

/// What `take_flags` does: the flags of the walked keys are gone, the keys
/// collected are exactly the walked keys that were flagged, and the rest of
/// the map is untouched.
pub proof fn lemma_take_flags(upd: Map<Seq<char>, bool>, keys: Seq<Seq<char>>)
    requires
        keys.no_duplicates(),
    ensures
        forall|k: Seq<char>| keys.contains(k) ==> !flag_set(#[trigger] take_flags(upd, keys).0, k),
        forall|k: Seq<char>|
            #[trigger] take_flags(upd, keys).1.contains(k) <==> (keys.contains(k) && flag_set(
                upd,
                k,
            )),
        forall|k: Seq<char>|
            !keys.contains(k) ==> (#[trigger] take_flags(upd, keys).0.contains_key(k)
                == upd.contains_key(k) && (upd.contains_key(k) ==> take_flags(upd, keys).0[k]
                == upd[k])),
    decreases keys.len(),
{
    if keys.len() > 0 {
        let rest = keys.drop_last();
        let k0 = keys.last();
        assert(rest.no_duplicates()) by {
            assert forall|i: int, j: int| 0 <= i < rest.len() && 0 <= j < rest.len() && i != j
                implies rest[i] != rest[j] by {
                assert(rest[i] == keys[i] && rest[j] == keys[j]);
            }
        }
        assert(!rest.contains(k0)) by {
            if rest.contains(k0) {
                let w = choose|w: int| 0 <= w < rest.len() && rest[w] == k0;
                assert(keys[w] == keys[keys.len() - 1]);
            }
        }
        lemma_take_flags(upd, rest);
        assert forall|k: Seq<char>| keys.contains(k) <==> (rest.contains(k) || k == k0) by {
            if keys.contains(k) {
                let w = choose|w: int| 0 <= w < keys.len() && keys[w] == k;
                if w < keys.len() - 1 {
                    assert(rest[w] == k);
                }
            }
            if rest.contains(k) {
                let w = choose|w: int| 0 <= w < rest.len() && rest[w] == k;
                assert(keys[w] == k);
            }
            if k == k0 {
                assert(keys[keys.len() - 1] == k);
            }
        }
        let (u, ks) = take_flags(upd, rest);
        assert(flag_set(u, k0) == flag_set(upd, k0));
        assert forall|k: Seq<char>| #[trigger] ks.push(k0).contains(k) <==> (ks.contains(k) || k == k0) by {
            if ks.push(k0).contains(k) {
                let w = choose|w: int| 0 <= w < ks.push(k0).len() && ks.push(k0)[w] == k;
                if w < ks.len() {
                    assert(ks[w] == k);
                }
            }
            if ks.contains(k) {
                let w = choose|w: int| 0 <= w < ks.len() && ks[w] == k;
                assert(ks.push(k0)[w] == k);
            }
            if k == k0 {
                assert(ks.push(k0)[ks.len() as int] == k);
            }
        }
    }
}

/// Length, first two characters and fifth character of a refresh key; these
/// tell the keys apart.
spec fn key_tag(s: Seq<char>) -> (nat, char, char, char) {
    (s.len(), s[0], s[1], s[4])
}

/// The refresh keys name different buffers.
pub proof fn lemma_refresh_keys_distinct()
    ensures
        refresh_keys().no_duplicates(),
{
    reveal_strlit("ping_output");
    reveal_strlit("ping_stats");
    reveal_strlit("scan_output");
    reveal_strlit("http_log");
    reveal_strlit("http_items");
    reveal_strlit("tftpd_log");
    reveal_strlit("tftpd_dirs");
    reveal_strlit("tftpc_log");
    reveal_strlit("plan_output");
    reveal_strlit("chat_messages");
    reveal_strlit("chat_users");
    reveal_strlit("settings_output");
    reveal_strlit("ping_running");
    reveal_strlit("scan_running");
    reveal_strlit("http_running");
    let ks = refresh_keys();
    let tags: Seq<(nat, char, char, char)> = seq![
        (11nat, 'p', 'i', '_'),
        (10nat, 'p', 'i', '_'),
        (11nat, 's', 'c', '_'),
        (8nat, 'h', 't', '_'),
        (10nat, 'h', 't', '_'),
        (9nat, 't', 'f', 'd'),
        (10nat, 't', 'f', 'd'),
        (9nat, 't', 'f', 'c'),
        (11nat, 'p', 'l', '_'),
        (13nat, 'c', 'h', '_'),
        (10nat, 'c', 'h', '_'),
        (15nat, 's', 'e', 'i'),
        (12nat, 'p', 'i', '_'),
        (12nat, 's', 'c', '_'),
        (12nat, 'h', 't', '_'),
    ];
    assert forall|i: int| 0 <= i < ks.len() implies #[trigger] key_tag(ks[i]) == tags[i] by {
        if i == 0 { } else if i == 1 { } else if i == 2 { } else if i == 3 { } else if i == 4 {
        } else if i == 5 { } else if i == 6 { } else if i == 7 { } else if i == 8 {
        } else if i == 9 { } else if i == 10 { } else if i == 11 { } else if i == 12 {
        } else if i == 13 { } else { }
    }
    assert forall|i: int, j: int| 0 <= i < ks.len() && 0 <= j < ks.len() && i != j
        implies ks[i] != ks[j] by {
        assert(key_tag(ks[i]) == tags[i]);
        assert(key_tag(ks[j]) == tags[j]);
    }
}

/// A refresh redraws exactly the displayed buffers and running flags that
/// were flagged, leaves none of them flagged, and keeps every other flag.
pub proof fn refresh_takes_exactly_the_flagged(upd: Map<Seq<char>, bool>)
    ensures
        forall|k: Seq<char>|
            refresh_keys().contains(k) ==> !flag_set(
                #[trigger] take_flags(upd, refresh_keys()).0,
                k,
            ),
        forall|k: Seq<char>|
            #[trigger] take_flags(upd, refresh_keys()).1.contains(k) <==> (refresh_keys().contains(
                k,
            ) && flag_set(upd, k)),
        forall|k: Seq<char>|
            !refresh_keys().contains(k) ==> (#[trigger] take_flags(
                upd,
                refresh_keys(),
            ).0.contains_key(k) == upd.contains_key(k) && (upd.contains_key(k) ==> take_flags(
                upd,
                refresh_keys(),
            ).0[k] == upd[k])),
{
    lemma_refresh_keys_distinct();
    lemma_take_flags(upd, refresh_keys());
}

/// The list text of the TFTP directories: one per line, or a placeholder.
pub open spec fn dirs_text(dirs: Seq<Seq<char>>) -> Seq<char> {
    if dirs.len() == 0 {
        "(no directories added)\n"@
    } else {
        join_seq(dirs, seq!['\n']) + seq!['\n']
    }
}

/// What the refresh hands the display registered under `key`, read from the
/// state `v` after the flags were taken.
pub open spec fn snapshot_value(v: UiStateView, key: Seq<char>) -> Seq<char> {
    if key == "ping_output"@ {
        v.ping_output
    } else if key == "ping_stats"@ {
        v.ping_stats
    } else if key == "scan_output"@ {
        v.scan_output
    } else if key == "http_log"@ {
        v.http_log
    } else if key == "tftpd_log"@ {
        v.tftpd_log
    } else if key == "tftpc_log"@ {
        v.tftpc_log
    } else if key == "plan_output"@ {
        v.plan_output
    } else if key == "chat_messages"@ {
        v.chat_messages
    } else if key == "chat_users"@ {
        v.chat_users
    } else if key == "settings_output"@ {
        v.settings_output
    } else if key == "tftpd_dirs"@ {
        dirs_text(v.tftpd_dirs)
    } else if key == "ping_running"@ || key == "scan_running"@ || key == "http_running"@ {
        bool_text(flag_set(v.updated, key))
    } else {
        Seq::empty()
    }
}

/// What one refresh found to redraw.
pub struct RefreshSnapshot {
    /// The keys that were flagged, in refresh order, with their new text.
    pub data: Vec<(String, String)>,
    /// `Some(true)` when the ping button is to show its running face.
    pub ping_running: Option<bool>,
    /// `Some(true)` when the HTTP button is to show its running face.
    pub http_running: Option<bool>,
    /// `Some(true)` when the scan button is to show its running face.
    pub scan_running: Option<bool>,
}

/// The button update for a running flag: `Some(true)` when the flag was
/// among the keys taken.
pub open spec fn button_update(taken: Seq<Seq<char>>, key: Seq<char>) -> Option<bool> {
    if taken.contains(key) {
        Some(true)
    } else {
        None
    }
}

/// Appends the pieces of `ls`, separated by `sep`, to `out`.
fn push_joined_strings(out: &mut String, ls: &Vec<String>, sep: char)
    ensures
        final(out)@ == old(out)@ + join_seq(string_views(ls@), seq![sep]),
{
    let ghost start = out@;
    let mut i: usize = 0;
    while i < ls.len()
        invariant
            i <= ls.len(),
            out@ == start + join_seq(string_views(ls@.take(i as int)), seq![sep]),
        decreases ls.len() - i,
    {
        assert(string_views(ls@.take(i + 1)).drop_last() =~= string_views(ls@.take(i as int)));
        assert(string_views(ls@.take(i + 1)).last() == ls@[i as int]@);
        if i > 0 {
            push_char(out, sep);
        }
        push_str(out, ls[i].as_str());
        if i == 0 {
            assert(string_views(ls@.take(1)) =~= seq![ls@[0]@]);
            assert(out@ =~= start + join_seq(string_views(ls@.take(1)), seq![sep]));
        } else {
            assert(out@ =~= start + join_seq(string_views(ls@.take(i + 1)), seq![sep]));
        }
        i = i + 1;
    }
    assert(ls@.take(ls.len() as int) =~= ls@);
}

/// The text of `key` in `state` (see `snapshot_value`).
pub fn refresh_value(state: &UiState, key: &str) -> (r: String)
    ensures
        r@ == snapshot_value(state@, key@),
{
    let key_s = key;
    if eq_str(key_s, "ping_output") {
        state.ping_output.clone()
    } else if eq_str(key_s, "ping_stats") {
        state.ping_stats.clone()
    } else if eq_str(key_s, "scan_output") {
        state.scan_output.clone()
    } else if eq_str(key_s, "http_log") {
        state.http_log.clone()
    } else if eq_str(key_s, "tftpd_log") {
        state.tftpd_log.clone()
    } else if eq_str(key_s, "tftpc_log") {
        state.tftpc_log.clone()
    } else if eq_str(key_s, "plan_output") {
        state.plan_output.clone()
    } else if eq_str(key_s, "chat_messages") {
        state.chat_messages.clone()
    } else if eq_str(key_s, "chat_users") {
        state.chat_users.clone()
    } else if eq_str(key_s, "settings_output") {
        state.settings_output.clone()
    } else if eq_str(key_s, "tftpd_dirs") {
        if state.tftpd_dirs.len() == 0 {
            owned("(no directories added)\n")
        } else {
            let mut out = String::new();
            push_joined_strings(&mut out, &state.tftpd_dirs, '\n');
            push_char(&mut out, '\n');
            assert(out@ =~= join_seq(string_views(state.tftpd_dirs@), seq!['\n']) + seq!['\n']);
            out
        }
    } else if eq_str(key_s, "ping_running") || eq_str(key_s, "scan_running")
        || eq_str(key_s, "http_running") {
        proof {
            reveal_strlit("true");
            reveal_strlit("false");
        }
        if state.is_updated(key_s) {
            owned("true")
        } else {
            owned("false")
        }
    } else {
        String::new()
    }
}

/// Takes the update flags of the refreshed buffers out of `state` and
/// gathers what is to be redrawn.
pub fn take_refresh(state: &mut UiState) -> (snap: RefreshSnapshot)
    ensures
        final(state)@ == (UiStateView {
            updated: take_flags(old(state)@.updated, refresh_keys()).0,
            ..old(state)@
        }),
        snap.data@.len() == take_flags(old(state)@.updated, refresh_keys()).1.len(),
        forall|i: int|
            #![trigger snap.data@[i]]
            0 <= i < snap.data@.len() ==> snap.data@[i].0@ == take_flags(
                old(state)@.updated,
                refresh_keys(),
            ).1[i] && snap.data@[i].1@ == snapshot_value(final(state)@, snap.data@[i].0@),
        snap.ping_running == button_update(
            take_flags(old(state)@.updated, refresh_keys()).1,
            "ping_running"@,
        ),
        snap.http_running == button_update(
            take_flags(old(state)@.updated, refresh_keys()).1,
            "http_running"@,
        ),
        snap.scan_running == button_update(
            take_flags(old(state)@.updated, refresh_keys()).1,
            "scan_running"@,
        ),
{
    let ghost orig = state@;
    let mut keys: Vec<&'static str> = Vec::new();
    let mut i: usize = 0;
    assert(refresh_keys().take(0) =~= Seq::<Seq<char>>::empty());
    while i < REFRESH_KEY_COUNT
        invariant
            i <= REFRESH_KEY_COUNT,
            state@ == (UiStateView {
                updated: take_flags(orig.updated, refresh_keys().take(i as int)).0,
                ..orig
            }),
            keys@.map_values(|k: &'static str| k@) == take_flags(
                orig.updated,
                refresh_keys().take(i as int),
            ).1,
        decreases REFRESH_KEY_COUNT - i,
    {
        let k = refresh_key(i);
        assert(refresh_keys().take(i + 1).drop_last() =~= refresh_keys().take(i as int));
        assert(refresh_keys().take(i + 1).last() == k@);
        let ghost before = keys@.map_values(|k: &'static str| k@);
        if state.is_updated(k) {
            keys.push(k);
            state.clear_updated(k);
            assert(keys@.map_values(|k: &'static str| k@) =~= before.push(k@));
        } else {
            assert(keys@.map_values(|k: &'static str| k@) =~= before);
        }
        i = i + 1;
    }
    assert(refresh_keys().take(REFRESH_KEY_COUNT as int) =~= refresh_keys());
    let ghost taken = keys@.map_values(|k: &'static str| k@);
    let mut data: Vec<(String, String)> = Vec::new();
    let mut ping_running: Option<bool> = None;
    let mut http_running: Option<bool> = None;
    let mut scan_running: Option<bool> = None;
    let mut j: usize = 0;
    while j < keys.len()
        invariant
            j <= keys.len(),
            taken == keys@.map_values(|k: &'static str| k@),
            data@.len() == j,
            forall|t: int|
                #![trigger data@[t]]
                0 <= t < j ==> data@[t].0@ == taken[t] && data@[t].1@ == snapshot_value(
                    state@,
                    data@[t].0@,
                ),
            ping_running == button_update(taken.take(j as int), "ping_running"@),
            http_running == button_update(taken.take(j as int), "http_running"@),
            scan_running == button_update(taken.take(j as int), "scan_running"@),
        decreases keys.len() - j,
    {
        let k = keys[j];
        assert(taken[j as int] == k@);
        assert(taken.take(j + 1) =~= taken.take(j as int).push(k@));
        let value = refresh_value(state, k);
        data.push((owned(k), value));
        if eq_str(k, "ping_running") {
            ping_running = Some(true);
        }
        if eq_str(k, "http_running") {
            http_running = Some(true);
        }
        if eq_str(k, "scan_running") {
            scan_running = Some(true);
        }
        proof {
            let p = taken.take(j as int);
            let q = taken.take(j + 1);
            assert(q.contains("ping_running"@) == (p.contains("ping_running"@) || k@ == "ping_running"@)) by {
                if q.contains("ping_running"@) {
                    let w = choose|w: int| 0 <= w < q.len() && q[w] == "ping_running"@;
                    if w < j {
                        assert(p[w] == q[w]);
                    }
                }
                if p.contains("ping_running"@) {
                    let w = choose|w: int| 0 <= w < p.len() && p[w] == "ping_running"@;
                    assert(q[w] == p[w]);
                }
                if k@ == "ping_running"@ {
                    assert(q[j as int] == k@);
                }
            }
            assert(q.contains("http_running"@) == (p.contains("http_running"@) || k@ == "http_running"@)) by {
                if q.contains("http_running"@) {
                    let w = choose|w: int| 0 <= w < q.len() && q[w] == "http_running"@;
                    if w < j {
                        assert(p[w] == q[w]);
                    }
                }
                if p.contains("http_running"@) {
                    let w = choose|w: int| 0 <= w < p.len() && p[w] == "http_running"@;
                    assert(q[w] == p[w]);
                }
                if k@ == "http_running"@ {
                    assert(q[j as int] == k@);
                }
            }
            assert(q.contains("scan_running"@) == (p.contains("scan_running"@) || k@ == "scan_running"@)) by {
                if q.contains("scan_running"@) {
                    let w = choose|w: int| 0 <= w < q.len() && q[w] == "scan_running"@;
                    if w < j {
                        assert(p[w] == q[w]);
                    }
                }
                if p.contains("scan_running"@) {
                    let w = choose|w: int| 0 <= w < p.len() && p[w] == "scan_running"@;
                    assert(q[w] == p[w]);
                }
                if k@ == "scan_running"@ {
                    assert(q[j as int] == k@);
                }
            }
        }
        j = j + 1;
    }
    assert(taken.take(keys.len() as int) =~= taken);
    RefreshSnapshot { data, ping_running, http_running, scan_running }
}

// ---------------------------------------------------------------------------
// What the widgets show
// ---------------------------------------------------------------------------

/// Colour of a running module's stop button (0xRRGGBB).
pub const STOP_COLOR: u32 = 0xE57373;

/// Whether the display of `key` is a log that scrolls to its last line when
/// redrawn.
pub open spec fn scrolls_to_end(key: Seq<char>) -> bool {
    ||| key == "ping_output"@
    ||| key == "scan_output"@
    ||| key == "http_log"@
    ||| key == "tftpd_log"@
    ||| key == "tftpc_log"@
    ||| key == "plan_output"@
    ||| key == "chat_messages"@
    ||| key == "settings_output"@
}

/// Whether the display of `key` scrolls to its end after a redraw.
pub fn autoscrolls(key: &str) -> (r: bool)
    ensures
        r == scrolls_to_end(key@),
{
    eq_str(key, "ping_output") || eq_str(key, "scan_output") || eq_str(key, "http_log") || eq_str(
        key,
        "tftpd_log",
    ) || eq_str(key, "tftpc_log") || eq_str(key, "plan_output") || eq_str(key, "chat_messages")
        || eq_str(key, "settings_output")
}

/// Whether the text of `key` goes to a text display (the directory list and
/// the HTTP running flag have widgets of their own).
pub fn shown_in_text_display(key: &str) -> (r: bool)
    ensures
        r == !(key@ == "http_running"@ || key@ == "tftpd_dirs"@),
{
    !(eq_str(key, "http_running") || eq_str(key, "tftpd_dirs"))
}

/// The non-empty elements of `ls`, in order.
pub open spec fn nonempty_lines(ls: Seq<Seq<char>>) -> Seq<Seq<char>>
    decreases ls.len(),
{
    if ls.len() == 0 {
        ls
    } else if ls.last().len() == 0 {
        nonempty_lines(ls.drop_last())
    } else {
        nonempty_lines(ls.drop_last()).push(ls.last())
    }
}

/// The rows of the TFTP directory list for the refreshed text `value`.
pub open spec fn dir_rows(value: Seq<char>) -> Seq<Seq<char>> {
    let rows = nonempty_lines(lines_of(value));
    if rows.len() == 0 {
        seq!["(no directories added)"@]
    } else {
        rows
    }
}

/// The rows of the TFTP directory list: the non-empty lines of `value`, or a
/// placeholder row when there are none.
pub fn dir_browser_rows(value: &str) -> (r: Vec<String>)
    ensures
        string_views(r@) == dir_rows(value@),
{
    let chars = chars_of(value);
    let lines = split_lines(&chars);
    let mut out: Vec<String> = Vec::new();
    let mut i: usize = 0;
    assert(vec_views(lines@).take(0) =~= Seq::<Seq<char>>::empty());
    assert(string_views(out@) =~= Seq::<Seq<char>>::empty());
    while i < lines.len()
        invariant
            i <= lines.len(),
            string_views(out@) == nonempty_lines(vec_views(lines@).take(i as int)),
        decreases lines.len() - i,
    {
        let ghost prefix = vec_views(lines@).take(i + 1);
        assert(prefix.drop_last() =~= vec_views(lines@).take(i as int));
        assert(prefix.last() == lines@[i as int]@);
        if lines[i].len() > 0 {
            let ghost before = string_views(out@);
            out.push(to_string(&lines[i]));
            assert(string_views(out@) =~= before.push(lines@[i as int]@));
        }
        i = i + 1;
    }
    assert(vec_views(lines@).take(lines.len() as int) =~= vec_views(lines@));
    if out.len() == 0 {
        let mut placeholder: Vec<String> = Vec::new();
        placeholder.push(owned("(no directories added)"));
        assert(string_views(placeholder@) =~= seq!["(no directories added)"@]);
        placeholder
    } else {
        out
    }
}

/// Marker put before the selected HTTP item.
pub open spec fn selection_marker() -> Seq<char> {
    seq!['\u{25b6}', ' ']
}

/// Row `i` (0-based) of the HTTP list when item `selected` (1-based, 0 for
/// none) is selected.
pub open spec fn http_row(item: Seq<char>, i: int, selected: i32) -> Seq<char> {
    if ((i + 1) as i32) == selected {
        selection_marker() + item
    } else {
        item
    }
}

/// The rows of the HTTP list.
pub open spec fn http_rows(items: Seq<Seq<char>>, selected: Option<i32>) -> Seq<Seq<char>> {
    if items.len() == 0 {
        seq!["(No files or directories configured)"@]
    } else {
        Seq::new(items.len(), |i: int| http_row(items[i], i, selected.unwrap_or(0)))
    }
}

/// The row the HTTP list selects after a redraw, if any.
pub open spec fn http_row_selected(items: Seq<Seq<char>>, selected: Option<i32>) -> Option<i32> {
    if items.len() > 0 && selected.unwrap_or(0) > 0 {
        Some(selected.unwrap_or(0))
    } else {
        None
    }
}

/// The rows of the HTTP list, with the selected item marked, and the row to
/// select again.
pub fn http_browser_rows(items: &Vec<String>, selected: Option<i32>) -> (r: (Vec<String>, Option<i32>))
    ensures
        string_views(r.0@) == http_rows(string_views(items@), selected),
        r.1 == http_row_selected(string_views(items@), selected),
{
    let sel: i32 = match selected {
        Some(s) => s,
        None => 0,
    };
    if items.len() == 0 {
        let mut rows: Vec<String> = Vec::new();
        rows.push(owned("(No files or directories configured)"));
        assert(string_views(rows@) =~= seq!["(No files or directories configured)"@]);
        return (rows, None);
    }
    let mut rows: Vec<String> = Vec::new();
    let mut i: usize = 0;
    while i < items.len()
        invariant
            i <= items.len(),
            sel == selected.unwrap_or(0),
            rows@.len() == i,
            forall|k: int|
                0 <= k < i ==> #[trigger] rows@[k]@ == http_row(items@[k]@, k, sel),
        decreases items.len() - i,
    {
        let line_num: i32 = #[verifier::truncate] ((i + 1) as i32);
        if line_num == sel {
            let mut row = String::new();
            push_char(&mut row, '\u{25b6}');
            push_char(&mut row, ' ');
            push_str(&mut row, items[i].as_str());
            assert(row@ =~= selection_marker() + items@[i as int]@);
            rows.push(row);
        } else {
            rows.push(items[i].clone());
        }
        i = i + 1;
    }
    assert(string_views(rows@) =~= http_rows(string_views(items@), selected));
    let again = if sel > 0 {
        Some(sel)
    } else {
        None
    };
    (rows, again)
}

/// The two faces of a start/stop button.
#[derive(Debug, Clone, Copy, PartialEq, Eq)]
pub enum ButtonFace {
    /// The module runs: the button reads `Stop`, in the stop colour.
    Stop,
    /// The module is idle: the button reads `Start`, in the tab's accent colour.
    Start,
}

/// The face of a module's button for its running state.
pub fn button_face(running: bool) -> (f: ButtonFace)
    ensures
        f == (if running {
            ButtonFace::Stop
        } else {
            ButtonFace::Start
        }),
{
    if running {
        ButtonFace::Stop
    } else {
        ButtonFace::Start
    }
}

impl ButtonFace {
    /// The button's label.
    pub fn label(&self) -> (r: &'static str)
        ensures
            r@ == (match *self {
                ButtonFace::Stop => "Stop"@,
                ButtonFace::Start => "Start"@,
            }),
    {
        match self {
            ButtonFace::Stop => "Stop",
            ButtonFace::Start => "Start",
        }
    }
}

/// The main button of each tab, in tab order.
#[derive(Debug, Clone, Copy, PartialEq, Eq)]
pub enum TabButton {
    Ping,
    Scan,
    Http,
    Tftpd,
    Tftpc,
    Plan,
    Chat,
    Settings,
}

/// The main button of tab `index` (0 = ping ... 7 = settings), if any.
pub fn tab_button(index: usize) -> (r: Option<TabButton>)
    ensures
        r == (if index == 0 {
            Some(TabButton::Ping)
        } else if index == 1 {
            Some(TabButton::Scan)
        } else if index == 2 {
            Some(TabButton::Http)
        } else if index == 3 {
            Some(TabButton::Tftpd)
        } else if index == 4 {
            Some(TabButton::Tftpc)
        } else if index == 5 {
            Some(TabButton::Plan)
        } else if index == 6 {
            Some(TabButton::Chat)
        } else if index == 7 {
            Some(TabButton::Settings)
        } else {
            None
        }),
{
    match index {
        0 => Some(TabButton::Ping),
        1 => Some(TabButton::Scan),
        2 => Some(TabButton::Http),
        3 => Some(TabButton::Tftpd),
        4 => Some(TabButton::Tftpc),
        5 => Some(TabButton::Plan),
        6 => Some(TabButton::Chat),
        7 => Some(TabButton::Settings),
        _ => None,
    }
}

} // verus!
