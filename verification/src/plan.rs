//! Reminder entries of the plan tab: how a task is shown in the task list,
//! read back from it, and matched by its message.
use vstd::prelude::*;

use crate::number::{
    int_decimal, is_digit, lemma_int_decimal_reads_back, lemma_nat_decimal_reads_back,
    nat_decimal, parse_i32, parse_in_range, push_i64_decimal,
};
use crate::text::{
    append_vec, chars_of, contains_seq, copy_range, eq_vec, find, occurs_at, split_char,
    split_on, split_once, split_once_seq, starts_with, starts_with_seq, to_string,
    trim_end_char, trim_end_matches, trim_start_char, trim_start_matches, vec_views,
};

verus! {

/// A scheduled reminder as the plan tab stores it.
pub struct PlanTask {
    pub msg: String,
    pub date: String,
    pub time: String,
    pub cycle: i32,
    pub unit: String,
}

/// A reminder as mathematical values.
pub struct PlanTaskView {
    pub msg: Seq<char>,
    pub date: Seq<char>,
    pub time: Seq<char>,
    pub cycle: i32,
    pub unit: Seq<char>,
}

impl View for PlanTask {
    type V = PlanTaskView;

    open spec fn view(&self) -> PlanTaskView {
        PlanTaskView {
            msg: self.msg@,
            date: self.date@,
            time: self.time@,
            cycle: self.cycle,
            unit: self.unit@,
        }
    }
}

/// The text that introduces the repetition of an entry.
pub open spec fn repeat_marker() -> Seq<char> {
    " (Repeat every "@
}

/// The repetition shown after the message: nothing for a one-time task.
pub open spec fn entry_cycle_text(cycle: i32, unit: Seq<char>) -> Seq<char> {
    if cycle > 0 {
        repeat_marker() + int_decimal(cycle as int) + seq![' '] + unit + seq![')']
    } else {
        Seq::empty()
    }
}

/// The task list entry of a reminder: `msg[ (Repeat every N unit)]\t@date time`.
pub open spec fn entry_text(
    msg: Seq<char>,
    date: Seq<char>,
    time: Seq<char>,
    cycle: i32,
    unit: Seq<char>,
) -> Seq<char> {
    msg + entry_cycle_text(cycle, unit) + seq!['\t', '@'] + date + seq![' '] + time
}

/// Builds the task list entry of a reminder.
pub fn format_plan_entry(msg: &str, date: &str, time: &str, cycle: i32, unit: &str) -> (r: String)
    ensures
        r@ == entry_text(msg@, date@, time@, cycle, unit@),
{
    let mut v = chars_of(msg);
    if cycle > 0 {
        let marker = chars_of(" (Repeat every ");
        append_vec(&mut v, &marker);
        push_i64_decimal(&mut v, cycle as i64);
        v.push(' ');
        append_vec(&mut v, &chars_of(unit));
        v.push(')');
    }
    v.push('\t');
    v.push('@');
    append_vec(&mut v, &chars_of(date));
    v.push(' ');
    append_vec(&mut v, &chars_of(time));
    assert(v@ =~= entry_text(msg@, date@, time@, cycle, unit@));
    to_string(&v)
}

/// Index of the first occurrence of `p` in `s`.
pub open spec fn first_occurrence(s: Seq<char>, p: Seq<char>) -> Option<nat>
    decreases s.len(),
{
    if p.len() > s.len() {
        None
    } else if occurs_at(s, p, 0) {
        Some(0)
    } else if s.len() == 0 {
        None
    } else {
        match first_occurrence(s.drop_first(), p) {
            Some(i) => Some(i + 1),
            None => None,
        }
    }
}

/// An occurrence with no earlier one is the first occurrence.
pub proof fn lemma_first_occurrence(s: Seq<char>, p: Seq<char>, i: int)
    requires
        occurs_at(s, p, i),
        forall|k: int| 0 <= k < i ==> !occurs_at(s, p, k),
    ensures
        first_occurrence(s, p) == Some(i as nat),
    decreases s.len(),
{
    if i > 0 {
        assert(!occurs_at(s, p, 0));
        let t = s.drop_first();
        assert(t.subrange(i - 1, i - 1 + p.len()) =~= s.subrange(i, i + p.len()));
        assert forall|k: int| 0 <= k < i - 1 implies !occurs_at(t, p, k) by {
            if occurs_at(t, p, k) {
                assert(s.subrange(k + 1, k + 1 + p.len()) =~= t.subrange(k, k + p.len()));
                assert(occurs_at(s, p, k + 1));
            }
        }
        lemma_first_occurrence(t, p, i - 1);
    }
}

/// Without an occurrence there is no first occurrence.
pub proof fn lemma_no_occurrence(s: Seq<char>, p: Seq<char>)
    requires
        !contains_seq(s, p),
    ensures
        first_occurrence(s, p) is None,
    decreases s.len(),
{
    assert(!occurs_at(s, p, 0));
    if p.len() <= s.len() && s.len() > 0 {
        let t = s.drop_first();
        assert forall|k: int| !occurs_at(t, p, k) by {
            if occurs_at(t, p, k) {
                assert(s.subrange(k + 1, k + 1 + p.len()) =~= t.subrange(k, k + p.len()));
                assert(occurs_at(s, p, k + 1));
            }
        }
        lemma_no_occurrence(t, p);
    }
}

/// The message, repetition count and unit read from the text before an
/// entry's tab: a missing or unreadable repetition gives cycle 0 and unit
/// `minute`.
pub open spec fn entry_message_fields(msg_part: Seq<char>) -> (Seq<char>, i32, Seq<char>) {
    match first_occurrence(msg_part, repeat_marker()) {
        Some(idx) => {
            let repeat = trim_end_char(msg_part.skip(idx as int + 15), ')');
            match split_once_seq(repeat, ' ') {
                Some((c, u)) => (
                    msg_part.take(idx as int),
                    match parse_in_range(c, true, i32::MIN as int, i32::MAX as int) {
                        Some(x) => x as i32,
                        None => 0i32,
                    },
                    u,
                ),
                None => (msg_part.take(idx as int), 0i32, "minute"@),
            }
        },
        None => (msg_part, 0i32, "minute"@),
    }
}

/// The reminder read back from a task list entry, when the entry has a tab
/// and a space between date and time. A missing or unreadable repetition
/// gives cycle 0 and unit `minute`.
pub open spec fn parsed_entry(text: Seq<char>) -> Option<PlanTaskView> {
    let parts = split_on(text, '\t');
    if parts.len() < 2 {
        None
    } else {
        let datetime = trim_start_char(parts[1], '@');
        let (msg, cycle, unit) = entry_message_fields(parts[0]);
        match split_once_seq(datetime, ' ') {
            Some((date, time)) => Some(
                PlanTaskView { msg: msg, date: date, time: time, cycle: cycle, unit: unit },
            ),
            None => None,
        }
    }
}

/// Reads a reminder back from its task list entry.
pub fn parse_plan_entry(text: &str) -> (r: Option<PlanTask>)
    ensures
        match r {
            Some(t) => parsed_entry(text@) == Some(t@),
            None => parsed_entry(text@) is None,
        },
{
    let parts = split_char(&chars_of(text), '\t');
    if parts.len() < 2 {
        return None;
    }
    assert(vec_views(parts@)[0] == parts@[0]@);
    assert(vec_views(parts@)[1] == parts@[1]@);
    let msg_part = &parts[0];
    let datetime = trim_start_matches(&parts[1], '@');
    let marker = chars_of(" (Repeat every ");
    proof {
        reveal_strlit(" (Repeat every ");
    }
    let mut msg = copy_range(msg_part, 0, msg_part.len());
    let mut cycle: i32 = 0;
    let mut unit = chars_of("minute");
    assert(msg@ =~= msg_part@);
    match find(msg_part, &marker) {
        Some(idx) => {
            proof {
                lemma_first_occurrence(msg_part@, marker@, idx as int);
            }
            msg = copy_range(msg_part, 0, idx);
            assert(msg@ =~= msg_part@.take(idx as int));
            let rest = copy_range(msg_part, idx + 15, msg_part.len());
            assert(rest@ =~= msg_part@.skip(idx + 15));
            let repeat = trim_end_matches(&rest, ')');
            if let Some((c, u)) = split_once(&repeat, ' ') {
                cycle = match parse_i32(&c) {
                    Some(x) => x,
                    None => 0,
                };
                unit = u;
            }
        },
        None => {
            proof {
                lemma_no_occurrence(msg_part@, marker@);
            }
        },
    }
    match split_once(&datetime, ' ') {
        Some((date, time)) => Some(
            PlanTask {
                msg: to_string(&msg),
                date: to_string(&date),
                time: to_string(&time),
                cycle: cycle,
                unit: to_string(&unit),
            },
        ),
        None => None,
    }
}

/// Whether a task list entry belongs to the reminder with message `msg`: the
/// text before its tab is `msg`, or starts with `msg (`.
pub open spec fn entry_matches_spec(text: Seq<char>, msg: Seq<char>) -> bool {
    match split_once_seq(text, '\t') {
        Some((existing, _)) => existing == msg || starts_with_seq(existing, msg + seq![' ', '(']),
        None => false,
    }
}

/// Whether a task list entry belongs to the reminder with message `msg`.
pub fn plan_entry_matches(text: &str, msg: &str) -> (r: bool)
    ensures
        r == entry_matches_spec(text@, msg@),
{
    match split_once(&chars_of(text), '\t') {
        Some((existing, _)) => {
            let m = chars_of(msg);
            let mut prefix = chars_of(msg);
            prefix.push(' ');
            prefix.push('(');
            assert(prefix@ =~= msg@ + seq![' ', '(']);
            eq_vec(&existing, &m) || starts_with(&existing, &prefix)
        },
        None => false,
    }
}

/// The unit chosen in the plan tab's unit menu.
pub fn unit_name(choice: i32) -> (r: &'static str)
    ensures
        r@ == (if choice == 1 {
            "hour"@
        } else if choice == 2 {
            "day"@
        } else {
            "minute"@
        }),
{
    if choice == 1 {
        "hour"
    } else if choice == 2 {
        "day"
    } else {
        "minute"
    }
}

/// Index of the first entry that belongs to the reminder `msg`.
pub open spec fn first_match(entries: Seq<Seq<char>>, msg: Seq<char>) -> Option<nat>
    decreases entries.len(),
{
    if entries.len() == 0 {
        None
    } else if entry_matches_spec(entries[0], msg) {
        Some(0)
    } else {
        match first_match(entries.drop_first(), msg) {
            Some(i) => Some(i + 1),
            None => None,
        }
    }
}

/// The first match is found by scanning from the front.
proof fn lemma_first_match_step(entries: Seq<Seq<char>>, msg: Seq<char>, i: int)
    requires
        0 <= i < entries.len(),
        forall|k: int| 0 <= k < i ==> !entry_matches_spec(#[trigger] entries[k], msg),
    ensures
        entry_matches_spec(entries[i], msg) ==> first_match(entries, msg) == Some(i as nat),
        !entry_matches_spec(entries[i], msg) && i == entries.len() - 1 ==> first_match(
            entries,
            msg,
        ) is None,
    decreases i,
{
    if i > 0 {
        let t = entries.drop_first();
        assert(!entry_matches_spec(entries[0], msg));
        assert forall|k: int| 0 <= k < i - 1 implies !entry_matches_spec(#[trigger] t[k], msg) by {
            assert(t[k] == entries[k + 1]);
        }
        assert(t[i - 1] == entries[i]);
        lemma_first_match_step(t, msg, i - 1);
    } else if entries.len() == 1 && !entry_matches_spec(entries[0], msg) {
        assert(entries.drop_first().len() == 0);
        assert(first_match(entries.drop_first(), msg) is None);
    }
}

fn find_entry(entries: &Vec<String>, msg: &str) -> (r: Option<usize>)
    ensures
        match r {
            Some(i) => i < entries.len() && first_match(
                crate::text::string_views(entries@),
                msg@,
            ) == Some(i as nat),
            None => first_match(crate::text::string_views(entries@), msg@) is None,
        },
{
    let ghost es = crate::text::string_views(entries@);
    let mut i: usize = 0;
    while i < entries.len()
        invariant
            i <= entries.len(),
            es == crate::text::string_views(entries@),
            forall|k: int| 0 <= k < i ==> !entry_matches_spec(#[trigger] es[k], msg@),
        decreases entries.len() - i,
    {
        assert(es[i as int] == entries@[i as int]@);
        if plan_entry_matches(entries[i].as_str(), msg) {
            proof {
                lemma_first_match_step(es, msg@, i as int);
            }
            return Some(i);
        }
        i = i + 1;
    }
    if entries.len() > 0 {
        proof {
            lemma_first_match_step(es, msg@, entries.len() - 1);
        }
    }
    None
}

/// Replaces the entry of reminder `msg` by `entry`, or appends `entry` when
/// the reminder is not listed yet.
pub fn upsert_plan_entry(entries: &mut Vec<String>, msg: &str, entry: &str)
    ensures
        crate::text::string_views(final(entries)@) == match first_match(
            crate::text::string_views(old(entries)@),
            msg@,
        ) {
            Some(i) => crate::text::string_views(old(entries)@).update(i as int, entry@),
            None => crate::text::string_views(old(entries)@).push(entry@),
        },
{
    let ghost es = crate::text::string_views(entries@);
    match find_entry(entries, msg) {
        Some(i) => {
            entries.set(i, crate::text::owned(entry));
            assert(crate::text::string_views(entries@) =~= es.update(i as int, entry@));
        },
        None => {
            entries.push(crate::text::owned(entry));
            assert(crate::text::string_views(entries@) =~= es.push(entry@));
        },
    }
}

/// Removes the entry of reminder `msg`; tells whether one was listed.
pub fn remove_plan_entry(entries: &mut Vec<String>, msg: &str) -> (removed: bool)
    ensures
        removed == first_match(crate::text::string_views(old(entries)@), msg@) is Some,
        crate::text::string_views(final(entries)@) == match first_match(
            crate::text::string_views(old(entries)@),
            msg@,
        ) {
            Some(i) => crate::text::string_views(old(entries)@).remove(i as int),
            None => crate::text::string_views(old(entries)@),
        },
{
    let ghost es = crate::text::string_views(entries@);
    match find_entry(entries, msg) {
        Some(i) => {
            entries.remove(i);
            assert(crate::text::string_views(entries@) =~= es.remove(i as int));
            true
        },
        None => false,
    }
}

/// The reminders read back from task list entries, skipping unreadable ones.
pub open spec fn tasks_of_entries(entries: Seq<Seq<char>>) -> Seq<PlanTaskView>
    decreases entries.len(),
{
    if entries.len() == 0 {
        Seq::empty()
    } else {
        match parsed_entry(entries.last()) {
            Some(t) => tasks_of_entries(entries.drop_last()).push(t),
            None => tasks_of_entries(entries.drop_last()),
        }
    }
}

/// Reads back every readable reminder of the task list, in order.
pub fn plan_tasks_from_entries(entries: &Vec<String>) -> (r: Vec<PlanTask>)
    ensures
        r@.map_values(|t: PlanTask| t@) == tasks_of_entries(crate::text::string_views(entries@)),
{
    let ghost es = crate::text::string_views(entries@);
    let mut out: Vec<PlanTask> = Vec::new();
    let mut i: usize = 0;
    assert(out@.map_values(|t: PlanTask| t@) =~= tasks_of_entries(es.take(0)));
    while i < entries.len()
        invariant
            i <= entries.len(),
            es == crate::text::string_views(entries@),
            out@.map_values(|t: PlanTask| t@) == tasks_of_entries(es.take(i as int)),
        decreases entries.len() - i,
    {
        assert(es.take(i + 1).drop_last() =~= es.take(i as int));
        assert(es.take(i + 1).last() == entries@[i as int]@);
        let ghost before = out@.map_values(|t: PlanTask| t@);
        match parse_plan_entry(entries[i].as_str()) {
            Some(t) => {
                out.push(t);
                assert(out@.map_values(|t: PlanTask| t@) =~= before.push(
                    parsed_entry(entries@[i as int]@)->0,
                ));
            },
            None => {},
        }
        i = i + 1;
    }
    assert(es.take(entries.len() as int) =~= es);
    out
}

// ---------------------------------------------------------------------------
// Reading an entry back
// ---------------------------------------------------------------------------

/// Splitting at `c` after a first piece without `c`.
proof fn lemma_split_after(a: Seq<char>, rest: Seq<char>, c: char)
    requires
        !a.contains(c),
    ensures
        split_on(a + seq![c] + rest, c) == seq![a] + split_on(rest, c),
        split_once_seq(a + seq![c] + rest, c) == Some((a, rest)),
{
    let s = a + seq![c] + rest;
    assert(s =~= a + (seq![c] + rest));
    crate::text::lemma_char_index_concat(a, seq![c] + rest, c);
    assert(crate::text::char_index(seq![c] + rest, c) == 0);
    assert(s.take(a.len() as int) =~= a);
    assert(s.skip(a.len() as int + 1) =~= rest);
}

/// A text without `c` is a single piece.
proof fn lemma_split_single(a: Seq<char>, c: char)
    requires
        !a.contains(c),
    ensures
        split_on(a, c) == seq![a],
{
    crate::text::lemma_char_index(a, c);
    if crate::text::char_index(a, c) < a.len() {
        assert(a[crate::text::char_index(a, c) as int] == c);
    }
}

/// The digits of a positive number hold no space, tab or bracket.
proof fn lemma_positive_digits(n: int)
    requires
        n > 0,
    ensures
        int_decimal(n) == nat_decimal(n as nat),
        forall|i: int| 0 <= i < int_decimal(n).len() ==> is_digit(#[trigger] int_decimal(n)[i]),
        int_decimal(n).len() > 0,
{
    lemma_nat_decimal_reads_back(n as nat);
}

/// The two pieces of an entry around its tab, and the date and time after
/// the `@`, when no text holds a tab and the date holds no space nor starts
/// with `@`.
proof fn lemma_entry_pieces(msg: Seq<char>, date: Seq<char>, time: Seq<char>, cycle: i32, unit: Seq<char>)
    requires
        !msg.contains('\t'),
        !date.contains('\t'),
        !date.contains(' '),
        date.len() == 0 || date[0] != '@',
        !time.contains('\t'),
        !unit.contains('\t'),
    ensures
        split_on(entry_text(msg, date, time, cycle, unit), '\t') == seq![
            msg + entry_cycle_text(cycle, unit),
            seq!['@'] + date + seq![' '] + time,
        ],
        trim_start_char(seq!['@'] + date + seq![' '] + time, '@') == date + seq![' '] + time,
        split_once_seq(date + seq![' '] + time, ' ') == Some((date, time)),
{
    reveal_strlit(" (Repeat every ");
    let ct = entry_cycle_text(cycle, unit);
    let left = msg + ct;
    let right = date + seq![' '] + time;
    let text = entry_text(msg, date, time, cycle, unit);
    let at_right = seq!['@'] + right;
    assert(text =~= left + seq!['\t'] + at_right);
    let digits = int_decimal(cycle as int);
    if cycle > 0 {
        lemma_positive_digits(cycle as int);
        assert(ct =~= repeat_marker() + (digits + seq![' '] + unit + seq![')']));
    }
    assert(!left.contains('\t')) by {
        if left.contains('\t') {
            let k = choose|k: int| 0 <= k < left.len() && left[k] == '\t';
            if k < msg.len() {
                assert(msg[k] == '\t');
            } else {
                let j = k - msg.len();
                assert(ct[j] == '\t');
                if cycle > 0 {
                    let r = digits + seq![' '] + unit + seq![')'];
                    if j >= 15 {
                        let q = j - 15;
                        assert(r[q] == '\t');
                        if q < digits.len() {
                            assert(is_digit(digits[q]));
                        } else if q > digits.len() && q < digits.len() + 1 + unit.len() {
                            assert(unit[q - digits.len() - 1] == '\t');
                        }
                    }
                }
            }
        }
    }
    assert(!at_right.contains('\t')) by {
        if at_right.contains('\t') {
            let k = choose|k: int| 0 <= k < at_right.len() && at_right[k] == '\t';
            if 1 <= k < 1 + date.len() {
                assert(date[k - 1] == '\t');
            } else if k > 1 + date.len() {
                assert(time[k - 2 - date.len()] == '\t');
            }
        }
    }
    lemma_split_after(left, at_right, '\t');
    lemma_split_single(at_right, '\t');
    assert(at_right =~= seq!['@'] + date + seq![' '] + time);
    assert(split_on(text, '\t') =~= seq![left, at_right]);
    assert(at_right.drop_first() =~= right);
    assert(trim_start_char(at_right, '@') == trim_start_char(at_right.drop_first(), '@'));
    if date.len() > 0 {
        assert(right[0] == date[0]);
    } else {
        assert(right[0] == ' ');
    }
    assert(trim_start_char(right, '@') == right);
    lemma_split_after(date, time, ' ');
}

/// The message, count and unit read back from the text before an entry's
/// tab, when the message holds no `(`, the unit does not end in `)`, and
/// the count is positive or zero with the unit `minute`.
proof fn lemma_entry_repetition(msg: Seq<char>, cycle: i32, unit: Seq<char>)
    requires
        !msg.contains('('),
        unit.len() == 0 || unit.last() != ')',
        cycle > 0 || (cycle == 0 && unit == "minute"@),
    ensures
        entry_message_fields(msg + entry_cycle_text(cycle, unit)) == (msg, cycle, unit),
{
    reveal_strlit(" (Repeat every ");
    let ct = entry_cycle_text(cycle, unit);
    let left = msg + ct;
    let digits = int_decimal(cycle as int);
    if cycle > 0 {
        lemma_positive_digits(cycle as int);
        assert(ct =~= repeat_marker() + (digits + seq![' '] + unit + seq![')']));
        let m = repeat_marker();
        assert(occurs_at(left, m, msg.len() as int)) by {
            assert(left.subrange(msg.len() as int, msg.len() as int + 15) =~= m);
        }
        assert forall|k: int| 0 <= k < msg.len() implies !occurs_at(left, m, k) by {
            if occurs_at(left, m, k) {
                assert(left.subrange(k, k + 15)[1] == m[1]);
                assert(left[k + 1] == '(');
                if k + 1 < msg.len() {
                    assert(msg[k + 1] == '(');
                } else {
                    assert(left[k + 1] == ct[0]);
                }
            }
        }
        lemma_first_occurrence(left, m, msg.len() as int);
        assert(left.take(msg.len() as int) =~= msg);
        let tail = digits + seq![' '] + unit;
        assert(left.skip(msg.len() as int + 15) =~= tail + seq![')']);
        assert(trim_end_char(tail + seq![')'], ')') == trim_end_char(tail, ')')) by {
            assert((tail + seq![')']).drop_last() =~= tail);
        }
        assert(trim_end_char(tail, ')') == tail) by {
            if unit.len() > 0 {
                assert(tail.last() == unit.last());
            } else {
                assert(tail.last() == ' ');
            }
        }
        assert(!digits.contains(' ')) by {
            if digits.contains(' ') {
                let k = choose|k: int| 0 <= k < digits.len() && digits[k] == ' ';
                assert(is_digit(digits[k]));
            }
        }
        lemma_split_after(digits, unit, ' ');
        lemma_int_decimal_reads_back(cycle as int);
    } else {
        assert(ct =~= Seq::<char>::empty());
        assert(left =~= msg);
        assert(!contains_seq(msg, repeat_marker())) by {
            if contains_seq(msg, repeat_marker()) {
                let k = choose|k: int| occurs_at(msg, repeat_marker(), k);
                assert(msg.subrange(k, k + 15)[1] == repeat_marker()[1]);
                assert(msg[k + 1] == '(');
            }
        }
        lemma_no_occurrence(msg, repeat_marker());
    }
}

/// A task written as a task list entry reads back as the same task, when its
/// texts cannot be mistaken for the entry's separators: no tab anywhere, no
/// `(` in the message, a date without spaces that does not start with `@`,
/// a unit not ending in `)`, and either a positive repetition or none with
/// the unit `minute`.
pub proof fn plan_entry_reads_back(
    msg: Seq<char>,
    date: Seq<char>,
    time: Seq<char>,
    cycle: i32,
    unit: Seq<char>,
)
    requires
        !msg.contains('\t'),
        !msg.contains('('),
        !date.contains('\t'),
        !date.contains(' '),
        date.len() == 0 || date[0] != '@',
        !time.contains('\t'),
        !unit.contains('\t'),
        unit.len() == 0 || unit.last() != ')',
        cycle > 0 || (cycle == 0 && unit == "minute"@),
    ensures
        parsed_entry(entry_text(msg, date, time, cycle, unit)) == Some(
            PlanTaskView { msg, date, time, cycle, unit },
        ),
{
    lemma_entry_pieces(msg, date, time, cycle, unit);
    lemma_entry_repetition(msg, cycle, unit);
}

// ---------------------------------------------------------------------------
// Loading the task list
// ---------------------------------------------------------------------------

/// Loading keeps every readable entry and only those, in their order: the
/// tasks loaded from one list followed by another are the tasks of the first
/// followed by those of the second, and a single entry loads as exactly the
/// task it reads as (repeating or not), or as nothing when it is unreadable.
pub proof fn loaded_tasks_are_the_readable_entries(a: Seq<Seq<char>>, b: Seq<Seq<char>>, e: Seq<char>)
    ensures
        tasks_of_entries(a + b) == tasks_of_entries(a) + tasks_of_entries(b),
        tasks_of_entries(seq![e]) == match parsed_entry(e) {
            Some(t) => seq![t],
            None => Seq::<PlanTaskView>::empty(),
        },
    decreases b.len(),
{
    assert(seq![e].drop_last() =~= Seq::<Seq<char>>::empty());
    assert(tasks_of_entries(Seq::<Seq<char>>::empty()) == Seq::<PlanTaskView>::empty());
    assert(seq![e].last() == e);
    if b.len() == 0 {
        assert(a + b =~= a);
        assert(tasks_of_entries(b) == Seq::<PlanTaskView>::empty());
        assert(tasks_of_entries(a) + tasks_of_entries(b) =~= tasks_of_entries(a));
    } else {
        loaded_tasks_are_the_readable_entries(a, b.drop_last(), e);
        assert((a + b).drop_last() =~= a + b.drop_last());
        assert((a + b).last() == b.last());
        match parsed_entry(b.last()) {
            Some(t) => {
                assert(tasks_of_entries(a) + tasks_of_entries(b.drop_last()).push(t) =~= (
                tasks_of_entries(a) + tasks_of_entries(b.drop_last())).push(t));
            },
            None => {},
        }
    }
}

/// A task written into the task list loads back as itself, when its texts
/// cannot be mistaken for the entry's separators (see
/// `plan_entry_reads_back`).
pub proof fn written_task_loads_back(
    msg: Seq<char>,
    date: Seq<char>,
    time: Seq<char>,
    cycle: i32,
    unit: Seq<char>,
)
    requires
        !msg.contains('\t'),
        !msg.contains('('),
        !date.contains('\t'),
        !date.contains(' '),
        date.len() == 0 || date[0] != '@',
        !time.contains('\t'),
        !unit.contains('\t'),
        unit.len() == 0 || unit.last() != ')',
        cycle > 0 || (cycle == 0 && unit == "minute"@),
    ensures
        tasks_of_entries(seq![entry_text(msg, date, time, cycle, unit)]) == seq![
            PlanTaskView { msg, date, time, cycle, unit },
        ],
{
    plan_entry_reads_back(msg, date, time, cycle, unit);
    loaded_tasks_are_the_readable_entries(
        Seq::empty(),
        Seq::empty(),
        entry_text(msg, date, time, cycle, unit),
    );
}

} // verus!
