//! Character-level text operations shared by the UI state buffers.
//!
//! Texts are modelled by their sequence of Unicode scalar values (`s@`).
//! The line functions follow the conventions of `str::lines`: a line ends at
//! `'\n'`, and a final line ending is optional.
use vstd::prelude::*;
use vstd::string::StringExecFns;

verus! {

// ---------------------------------------------------------------------------
// Conversions between strings and character vectors
// ---------------------------------------------------------------------------

/// The characters of `s`, in order (walked with `str::chars`).
pub fn chars_of(s: &str) -> (v: Vec<char>)
    ensures
        v@ == s@,
{
    broadcast use vstd::string::axiom_spec_iter, vstd::string::next_postcondition;

    let mut it = s.chars();
    let mut v: Vec<char> = Vec::new();
    let mut done = false;
    while !done
        invariant
            v@ + vstd::std_specs::iter::IteratorSpec::remaining(&it) == s@,
            done ==> vstd::std_specs::iter::IteratorSpec::remaining(&it).len() == 0,
            vstd::std_specs::iter::IteratorSpec::decrease(&it) is Some,
        decreases
            (if done {
                0int
            } else {
                1int
            }),
            vstd::std_specs::iter::IteratorSpec::decrease(&it)->0,
    {
        match it.next() {
            Some(c) => {
                v.push(c);
            },
            None => {
                done = true;
            },
        }
    }
    assert(v@ =~= s@);
    v
}

/// The string made of `v[start..end]`.
pub fn string_from_chars(v: &Vec<char>, start: usize, end: usize) -> (s: String)
    requires
        start <= end <= v.len(),
    ensures
        s@ == v@.subrange(start as int, end as int),
{
    let mut s = String::new();
    let mut i: usize = start;
    while i < end
        invariant
            start <= i <= end <= v.len(),
            s@ == v@.subrange(start as int, i as int),
        decreases end - i,
    {
        push_char(&mut s, v[i]);
        assert(v@.subrange(start as int, i + 1) =~= v@.subrange(start as int, i as int).push(v@[i as int]));
        i = i + 1;
    }
    s
}

/// Appends `t` to `s`.
pub fn push_str(s: &mut String, t: &str)
    ensures
        final(s)@ == old(s)@ + t@,
{
    s.append(t)
}

/// Appends one character to `s` (`String::push`).
#[verifier::external_body]
pub(crate) fn push_char(s: &mut String, c: char)
    ensures
        final(s)@ == old(s)@.push(c),
{
    s.push(c)
}

/// A fresh owned copy of `s`.
pub fn owned(s: &str) -> (r: String)
    ensures
        r@ == s@,
{
    s.to_owned()
}

// ---------------------------------------------------------------------------
// Line model
// ---------------------------------------------------------------------------

/// Number of occurrences of `c` in `s`.
pub open spec fn count_char(s: Seq<char>, c: char) -> nat
    decreases s.len(),
{
    if s.len() == 0 {
        0
    } else {
        count_char(s.drop_last(), c) + if s.last() == c { 1nat } else { 0nat }
    }
}

/// Number of lines that `str::lines` yields for `s`.
pub open spec fn line_count(s: Seq<char>) -> nat {
    if s.len() == 0 {
        0
    } else if s.last() == '\n' {
        count_char(s, '\n')
    } else {
        count_char(s, '\n') + 1
    }
}

/// `s` with everything up to and including its `k`-th newline removed
/// (everything, when `s` has fewer than `k` newlines).
pub open spec fn drop_lines(s: Seq<char>, k: nat) -> Seq<char>
    decreases s.len(),
{
    if k == 0 || s.len() == 0 {
        s
    } else if s[0] == '\n' {
        drop_lines(s.drop_first(), (k - 1) as nat)
    } else {
        drop_lines(s.drop_first(), k)
    }
}

/// The text kept when at most `max_lines` lines are allowed: the oldest lines
/// are removed from the front.
pub open spec fn trimmed_to_lines(s: Seq<char>, max_lines: nat) -> Seq<char> {
    if line_count(s) > max_lines {
        drop_lines(s, (line_count(s) - max_lines) as nat)
    } else {
        s
    }
}

/// Counting from the front: the first character, then the rest.
pub proof fn lemma_count_char_first(s: Seq<char>, c: char)
    requires
        s.len() > 0,
    ensures
        count_char(s, c) == count_char(s.drop_first(), c) + if s[0] == c { 1nat } else { 0nat },
    decreases s.len(),
{
    if s.len() == 1 {
        assert(s.drop_first() =~= Seq::<char>::empty());
        assert(s.drop_last() =~= Seq::<char>::empty());
    } else {
        lemma_count_char_first(s.drop_last(), c);
        assert(s.drop_last().drop_first() =~= s.drop_first().drop_last());
        assert(s.drop_first().last() == s.last());
        assert(s.drop_last()[0] == s[0]);
    }
}

/// What `drop_lines` keeps: a suffix of the text, holding the newlines it
/// did not drop, starting right after a dropped newline.
pub proof fn lemma_drop_lines(s: Seq<char>, k: nat)
    ensures
        drop_lines(s, k).len() <= s.len(),
        drop_lines(s, k) == s.skip(s.len() - drop_lines(s, k).len()),
        k <= count_char(s, '\n') ==> count_char(drop_lines(s, k), '\n') == count_char(s, '\n') - k,
        k > count_char(s, '\n') ==> drop_lines(s, k).len() == 0,
        0 < k <= count_char(s, '\n') ==> s[s.len() - drop_lines(s, k).len() - 1] == '\n',
    decreases s.len(),
{
    if k == 0 || s.len() == 0 {
        assert(s.skip(0) =~= s);
        if s.len() == 0 {
            assert(count_char(s, '\n') == 0);
        }
    } else {
        let t = s.drop_first();
        lemma_count_char_first(s, '\n');
        if s[0] == '\n' {
            lemma_drop_lines(t, (k - 1) as nat);
            let r = drop_lines(t, (k - 1) as nat);
            assert(t.skip(t.len() - r.len()) =~= s.skip(s.len() - r.len()));
            if k - 1 > 0 && k <= count_char(s, '\n') {
                assert(s[s.len() - r.len() - 1] == t[t.len() - r.len() - 1]);
            }
            if k == 1 {
                assert(r == t);
            }
        } else {
            lemma_drop_lines(t, k);
            let r = drop_lines(t, k);
            assert(t.skip(t.len() - r.len()) =~= s.skip(s.len() - r.len()));
            if k <= count_char(s, '\n') {
                assert(s[s.len() - r.len() - 1] == t[t.len() - r.len() - 1]);
            }
        }
    }
}

/// A text whose last character is `c` counts at least one `c`.
proof fn lemma_count_char_last(s: Seq<char>, c: char)
    requires
        s.len() > 0,
        s.last() == c,
    ensures
        count_char(s, c) >= 1,
{
}

/// Trimming a text to at most `m` lines keeps its newest lines: the result
/// is a suffix of the text that (when `m > 0`) starts at a line boundary,
/// holds exactly
/// `min(lines, m)` lines, and is the whole text when it had no more than `m`
/// lines.
pub proof fn trimming_keeps_newest_lines(s: Seq<char>, m: nat)
    ensures
        line_count(trimmed_to_lines(s, m)) == if line_count(s) <= m {
            line_count(s)
        } else {
            m
        },
        trimmed_to_lines(s, m).len() <= s.len(),
        trimmed_to_lines(s, m) == s.skip(s.len() - trimmed_to_lines(s, m).len()),
        m > 0 && trimmed_to_lines(s, m).len() < s.len() ==> s[s.len() - trimmed_to_lines(
            s,
            m,
        ).len() - 1] == '\n',
        line_count(s) <= m ==> trimmed_to_lines(s, m) == s,
{
    if line_count(s) > m {
        let nl = count_char(s, '\n');
        let k = (line_count(s) - m) as nat;
        lemma_drop_lines(s, k);
        let t = drop_lines(s, k);
        assert(s.len() > 0);
        if s.last() == '\n' {
            if m == 0 {
                if t.len() > 0 {
                    assert(t.last() == s.last());
                    lemma_count_char_last(t, '\n');
                }
            } else {
                assert(count_char(t, '\n') == m);
                if t.len() == 0 {
                    assert(count_char(t, '\n') == 0);
                }
                assert(t.last() == s.last());
            }
        } else {
            if m == 0 {
                assert(t.len() == 0);
            } else {
                assert(count_char(t, '\n') == m - 1);
                if t.len() == 0 {
                    assert(s[s.len() - 1] == '\n');
                }
                assert(t.last() == s.last());
            }
        }
    } else {
        assert(s.skip(0) =~= s);
    }
}

/// Counts the newlines of `v`.
pub fn count_newlines(v: &Vec<char>) -> (n: usize)
    ensures
        n == count_char(v@, '\n'),
{
    let mut n: usize = 0;
    let mut i: usize = 0;
    while i < v.len()
        invariant
            i <= v.len(),
            n == count_char(v@.take(i as int), '\n'),
            n <= i,
        decreases v.len() - i,
    {
        assert(v@.take(i as int + 1).drop_last() =~= v@.take(i as int));
        if v[i] == '\n' {
            n = n + 1;
        }
        i = i + 1;
    }
    assert(v@.take(v.len() as int) =~= v@);
    n
}

/// Number of lines of `v`, as `str::lines` counts them.
pub fn count_lines(v: &Vec<char>) -> (n: usize)
    ensures
        n == line_count(v@),
{
    if v.len() == 0 {
        return 0;
    }
    let nl = count_newlines(v);
    if v[v.len() - 1] == '\n' {
        nl
    } else {
        proof {
            lemma_count_char_le_len(v@, '\n');
            lemma_count_char_lt_len_if_last_differs(v@, '\n');
        }
        nl + 1
    }
}

/// A character count never exceeds the length.
pub proof fn lemma_count_char_le_len(s: Seq<char>, c: char)
    ensures
        count_char(s, c) <= s.len(),
    decreases s.len(),
{
    if s.len() > 0 {
        lemma_count_char_le_len(s.drop_last(), c);
    }
}

/// When the last character differs from `c`, the count is below the length.
pub proof fn lemma_count_char_lt_len_if_last_differs(s: Seq<char>, c: char)
    requires
        s.len() > 0,
        s.last() != c,
    ensures
        count_char(s, c) < s.len(),
{
    lemma_count_char_le_len(s.drop_last(), c);
}

/// Index just after the `k`-th newline of `v` (its length when there are fewer).
pub fn skip_lines_index(v: &Vec<char>, k: usize) -> (pos: usize)
    ensures
        pos <= v.len(),
        v@.subrange(pos as int, v.len() as int) == drop_lines(v@, k as nat),
{
    let mut removed: usize = 0;
    let mut pos: usize = 0;
    assert(v@.subrange(0, v.len() as int) =~= v@);
    while pos < v.len()
        invariant_except_break
            pos <= v.len(),
            removed <= k,
            drop_lines(v@, k as nat) == drop_lines(
                v@.subrange(pos as int, v.len() as int),
                (k - removed) as nat,
            ),
        ensures
            pos <= v.len(),
            removed <= k,
            drop_lines(v@, k as nat) == drop_lines(
                v@.subrange(pos as int, v.len() as int),
                (k - removed) as nat,
            ),
            removed == k || pos == v.len(),
        decreases v.len() - pos,
    {
        if removed >= k {
            break;
        }
        let ghost rest = v@.subrange(pos as int, v.len() as int);
        assert(rest.drop_first() =~= v@.subrange(pos as int + 1, v.len() as int));
        if v[pos] == '\n' {
            removed = removed + 1;
        }
        pos = pos + 1;
    }
    pos
}

/// Trims `s` to at most `max_lines` lines, removing the oldest lines from the front.
pub fn trim_lines(s: &mut String, max_lines: usize)
    ensures
        final(s)@ == trimmed_to_lines(old(s)@, max_lines as nat),
{
    let v = chars_of(s.as_str());
    let count = count_lines(&v);
    if count > max_lines {
        let pos = skip_lines_index(&v, count - max_lines);
        *s = string_from_chars(&v, pos, v.len());
    }
}


// ---------------------------------------------------------------------------
// Substring search
// ---------------------------------------------------------------------------

/// `p` occurs in `s` starting at index `i`.
pub open spec fn occurs_at(s: Seq<char>, p: Seq<char>, i: int) -> bool {
    0 <= i && i + p.len() <= s.len() && s.subrange(i, i + p.len()) == p
}

/// `p` occurs somewhere in `s` (`str::contains`).
pub open spec fn contains_seq(s: Seq<char>, p: Seq<char>) -> bool {
    exists|i: int| occurs_at(s, p, i)
}

/// `s` starts with `p` (`str::starts_with`).
pub open spec fn starts_with_seq(s: Seq<char>, p: Seq<char>) -> bool {
    occurs_at(s, p, 0)
}

/// `s` ends with `p` (`str::ends_with`).
pub open spec fn ends_with_seq(s: Seq<char>, p: Seq<char>) -> bool {
    occurs_at(s, p, s.len() - p.len())
}

/// Whether `p` occurs in `s` at index `i`.
pub fn matches_at(s: &Vec<char>, p: &Vec<char>, i: usize) -> (r: bool)
    ensures
        r == occurs_at(s@, p@, i as int),
{
    if i > s.len() || p.len() > s.len() - i {
        return false;
    }
    let mut j: usize = 0;
    while j < p.len()
        invariant
            i + p.len() <= s.len(),
            j <= p.len(),
            forall|k: int| 0 <= k < j ==> s@[i + k] == p@[k],
        decreases p.len() - j,
    {
        if s[i + j] != p[j] {
            assert(s@.subrange(i as int, i + p.len())[j as int] != p@[j as int]);
            return false;
        }
        j = j + 1;
    }
    assert(s@.subrange(i as int, i + p.len()) =~= p@);
    true
}

/// `str::contains` on character vectors.
pub fn contains(s: &Vec<char>, p: &Vec<char>) -> (r: bool)
    ensures
        r == contains_seq(s@, p@),
{
    if p.len() > s.len() {
        return false;
    }
    let last = s.len() - p.len();
    let mut i: usize = 0;
    while i < last
        invariant
            last == s.len() - p.len(),
            i <= last,
            forall|k: int| 0 <= k < i ==> !occurs_at(s@, p@, k),
        decreases last - i,
    {
        if matches_at(s, p, i) {
            return true;
        }
        i = i + 1;
    }
    if matches_at(s, p, last) {
        return true;
    }
    assert forall|k: int| !occurs_at(s@, p@, k) by {
        if 0 <= k <= last as int {
            assert(k < i || k == last as int);
        }
    }
    false
}

/// `str::starts_with` on character vectors.
pub fn starts_with(s: &Vec<char>, p: &Vec<char>) -> (r: bool)
    ensures
        r == starts_with_seq(s@, p@),
{
    matches_at(s, p, 0)
}

/// `str::ends_with` on character vectors.
pub fn ends_with(s: &Vec<char>, p: &Vec<char>) -> (r: bool)
    ensures
        r == ends_with_seq(s@, p@),
{
    if p.len() > s.len() {
        return false;
    }
    matches_at(s, p, s.len() - p.len())
}

// ---------------------------------------------------------------------------
// Removal of all occurrences (`str::replace(p, "")`)
// ---------------------------------------------------------------------------

/// `s` with every occurrence of `p` removed, scanning from the left and
/// taking non-overlapping matches, as `str::replace(p, "")` does.
pub open spec fn remove_all(s: Seq<char>, p: Seq<char>) -> Seq<char>
    decreases s.len(),
{
    if p.len() == 0 || s.len() == 0 {
        s
    } else if occurs_at(s, p, 0) {
        remove_all(s.skip(p.len() as int), p)
    } else {
        seq![s[0]] + remove_all(s.skip(1), p)
    }
}

/// Removes every occurrence of `p` from `s`.
pub fn remove_all_vec(s: &Vec<char>, p: &Vec<char>) -> (r: Vec<char>)
    ensures
        r@ == remove_all(s@, p@),
{
    let mut out: Vec<char> = Vec::new();
    if p.len() == 0 {
        let mut k: usize = 0;
        while k < s.len()
            invariant
                k <= s.len(),
                out@ == s@.take(k as int),
            decreases s.len() - k,
        {
            out.push(s[k]);
            k = k + 1;
            assert(out@ =~= s@.take(k as int));
        }
        assert(s@.take(s.len() as int) =~= s@);
        return out;
    }
    let mut i: usize = 0;
    assert(s@.skip(0) =~= s@);
    while i < s.len()
        invariant
            i <= s.len(),
            p.len() > 0,
            remove_all(s@, p@) == out@ + remove_all(s@.skip(i as int), p@),
        decreases s.len() - i,
    {
        let ghost rest = s@.skip(i as int);
        if matches_at(s, p, i) {
            assert(rest.subrange(0, p.len() as int) =~= s@.subrange(i as int, i + p.len()));
            assert(rest.skip(p.len() as int) =~= s@.skip(i + p.len()));
            i = i + p.len();
        } else {
            assert(!occurs_at(rest, p@, 0)) by {
                if occurs_at(rest, p@, 0) {
                    assert(rest.subrange(0, p.len() as int) =~= s@.subrange(i as int, i + p.len()));
                }
            }
            assert(rest.skip(1) =~= s@.skip(i + 1));
            let ghost old_out = out@;
            out.push(s[i]);
            assert(remove_all(rest, p@) == seq![rest[0]] + remove_all(rest.skip(1), p@));
            assert(old_out + (seq![rest[0]] + remove_all(s@.skip(i + 1), p@)) =~= out@ + remove_all(s@.skip(i + 1), p@));
            i = i + 1;
        }
    }
    assert(s@.skip(i as int) =~= Seq::<char>::empty());
    assert(out@ + Seq::<char>::empty() =~= out@);
    out
}


// ---------------------------------------------------------------------------
// Whitespace trimming (`str::trim`)
// ---------------------------------------------------------------------------

/// `char::is_whitespace`: the Unicode `White_Space` property.
pub open spec fn is_space(c: char) -> bool {
    ||| ('\u{9}' <= c && c <= '\u{d}')
    ||| c == ' '
    ||| c == '\u{85}'
    ||| c == '\u{a0}'
    ||| c == '\u{1680}'
    ||| ('\u{2000}' <= c && c <= '\u{200a}')
    ||| c == '\u{2028}'
    ||| c == '\u{2029}'
    ||| c == '\u{202f}'
    ||| c == '\u{205f}'
    ||| c == '\u{3000}'
}

/// `s` without its leading whitespace.
pub open spec fn trim_start_seq(s: Seq<char>) -> Seq<char>
    decreases s.len(),
{
    if s.len() > 0 && is_space(s[0]) {
        trim_start_seq(s.drop_first())
    } else {
        s
    }
}

/// `s` without its trailing whitespace.
pub open spec fn trim_end_seq(s: Seq<char>) -> Seq<char>
    decreases s.len(),
{
    if s.len() > 0 && is_space(s.last()) {
        trim_end_seq(s.drop_last())
    } else {
        s
    }
}

/// `str::trim`.
pub open spec fn trim_seq(s: Seq<char>) -> Seq<char> {
    trim_end_seq(trim_start_seq(s))
}

fn is_space_char(c: char) -> (r: bool)
    ensures
        r == is_space(c),
{
    ('\u{9}' <= c && c <= '\u{d}') || c == ' ' || c == '\u{85}' || c == '\u{a0}' || c
        == '\u{1680}' || ('\u{2000}' <= c && c <= '\u{200a}') || c == '\u{2028}' || c
        == '\u{2029}' || c == '\u{202f}' || c == '\u{205f}' || c == '\u{3000}'
}

/// `str::trim` on character vectors.
pub fn trim_vec(v: &Vec<char>) -> (r: Vec<char>)
    ensures
        r@ == trim_seq(v@),
{
    let mut a: usize = 0;
    assert(v@.skip(0) =~= v@);
    while a < v.len() && is_space_char(v[a])
        invariant
            a <= v.len(),
            trim_start_seq(v@) == trim_start_seq(v@.skip(a as int)),
        decreases v.len() - a,
    {
        assert(v@.skip(a as int).drop_first() =~= v@.skip(a + 1));
        a = a + 1;
    }
    let mut b: usize = v.len();
    assert(trim_start_seq(v@) =~= v@.subrange(a as int, b as int));
    while b > a && is_space_char(v[b - 1])
        invariant
            a <= b <= v.len(),
            trim_seq(v@) == trim_end_seq(v@.subrange(a as int, b as int)),
        decreases b - a,
    {
        assert(v@.subrange(a as int, b as int).drop_last() =~= v@.subrange(a as int, b - 1));
        b = b - 1;
    }
    let mut out: Vec<char> = Vec::new();
    let mut k: usize = a;
    while k < b
        invariant
            a <= k <= b <= v.len(),
            out@ == v@.subrange(a as int, k as int),
        decreases b - k,
    {
        out.push(v[k]);
        k = k + 1;
        assert(out@ =~= v@.subrange(a as int, k as int));
    }
    out
}

// ---------------------------------------------------------------------------
// Lines (`str::lines`) and joining (`[String]::join`)
// ---------------------------------------------------------------------------

/// Index of the first newline of `s` (its length when there is none).
pub open spec fn newline_index(s: Seq<char>) -> nat
    decreases s.len(),
{
    if s.len() == 0 || s[0] == '\n' {
        0
    } else {
        1 + newline_index(s.drop_first())
    }
}

/// The first newline index is within the text.
pub proof fn lemma_newline_index_bound(s: Seq<char>)
    ensures
        newline_index(s) <= s.len(),
        newline_index(s) < s.len() ==> s[newline_index(s) as int] == '\n',
        forall|k: int| 0 <= k < newline_index(s) ==> s[k] != '\n',
    decreases s.len(),
{
    if s.len() > 0 && s[0] != '\n' {
        lemma_newline_index_bound(s.drop_first());
        assert forall|k: int| 0 <= k < newline_index(s) implies s[k] != '\n' by {
            if k > 0 {
                assert(s[k] == s.drop_first()[k - 1]);
            }
        }
    }
}

/// A line ended by `\n` loses a final `\r` as well.
pub open spec fn strip_cr(s: Seq<char>) -> Seq<char> {
    if s.len() > 0 && s.last() == '\r' {
        s.drop_last()
    } else {
        s
    }
}

/// The lines of `s`, as `str::lines` yields them.
pub open spec fn lines_of(s: Seq<char>) -> Seq<Seq<char>>
    decreases s.len(),
{
    if s.len() == 0 {
        Seq::empty()
    } else {
        let i = newline_index(s);
        if i >= s.len() {
            seq![s]
        } else {
            seq![strip_cr(s.take(i as int))] + lines_of(s.skip(i as int + 1))
        }
    }
}

/// Views of a sequence of character vectors.
pub open spec fn vec_views(v: Seq<Vec<char>>) -> Seq<Seq<char>> {
    v.map_values(|l: Vec<char>| l@)
}

/// Views of a sequence of strings.
pub open spec fn string_views(v: Seq<String>) -> Seq<Seq<char>> {
    v.map_values(|l: String| l@)
}

fn newline_index_from(v: &Vec<char>, i: usize) -> (j: usize)
    requires
        i <= v.len(),
    ensures
        i <= j <= v.len(),
        j - i == newline_index(v@.skip(i as int)),
{
    let mut j: usize = i;
    while j < v.len() && v[j] != '\n'
        invariant
            i <= j <= v.len(),
            newline_index(v@.skip(i as int)) == (j - i) + newline_index(v@.skip(j as int)),
        decreases v.len() - j,
    {
        assert(v@.skip(j as int).drop_first() =~= v@.skip(j + 1));
        j = j + 1;
    }
    j
}

/// The characters of `v` from index `a` up to, not including, `b`.
pub fn copy_range(v: &Vec<char>, a: usize, b: usize) -> (r: Vec<char>)
    requires
        a <= b <= v.len(),
    ensures
        r@ == v@.subrange(a as int, b as int),
{
    let mut out: Vec<char> = Vec::new();
    let mut k: usize = a;
    while k < b
        invariant
            a <= k <= b <= v.len(),
            out@ == v@.subrange(a as int, k as int),
        decreases b - k,
    {
        out.push(v[k]);
        k = k + 1;
        assert(out@ =~= v@.subrange(a as int, k as int));
    }
    out
}

/// `str::lines`, collected.
pub fn split_lines(v: &Vec<char>) -> (r: Vec<Vec<char>>)
    ensures
        vec_views(r@) == lines_of(v@),
{
    let mut out: Vec<Vec<char>> = Vec::new();
    let mut i: usize = 0;
    assert(v@.skip(0) =~= v@);
    assert(vec_views(out@) =~= Seq::<Seq<char>>::empty());
    while i < v.len()
        invariant
            i <= v.len(),
            lines_of(v@) == vec_views(out@) + lines_of(v@.skip(i as int)),
        decreases v.len() - i,
    {
        let ghost rest = v@.skip(i as int);
        let j = newline_index_from(v, i);
        if j == v.len() {
            let line = copy_range(v, i, j);
            assert(line@ =~= rest);
            let ghost before = vec_views(out@);
            out.push(line);
            assert(vec_views(out@) =~= before.push(rest));
            assert(lines_of(rest) == seq![rest]);
            assert(v@.skip(v.len() as int) =~= Seq::<char>::empty());
            assert(lines_of(v@) =~= vec_views(out@) + lines_of(v@.skip(v.len() as int)));
            i = j;
        } else {
            let mut e: usize = j;
            if e > i && v[e - 1] == '\r' {
                e = e - 1;
            }
            let line = copy_range(v, i, e);
            assert(rest.take(j - i) =~= v@.subrange(i as int, j as int));
            assert(line@ =~= strip_cr(rest.take(j - i)));
            assert(rest.skip(j - i + 1) =~= v@.skip(j + 1));
            let ghost before = vec_views(out@);
            out.push(line);
            assert(vec_views(out@) =~= before.push(line@));
            assert(lines_of(rest) == seq![strip_cr(rest.take(j - i))] + lines_of(v@.skip(j + 1)));
            assert(lines_of(v@) =~= vec_views(out@) + lines_of(v@.skip(j + 1)));
            i = j + 1;
        }
    }
    assert(v@.skip(i as int) =~= Seq::<char>::empty());
    assert(vec_views(out@) + Seq::<Seq<char>>::empty() =~= vec_views(out@));
    out
}

/// The pieces of `ls` separated by `sep`.
pub open spec fn join_seq(ls: Seq<Seq<char>>, sep: Seq<char>) -> Seq<char>
    decreases ls.len(),
{
    if ls.len() == 0 {
        Seq::empty()
    } else if ls.len() == 1 {
        ls[0]
    } else {
        join_seq(ls.drop_last(), sep) + sep + ls.last()
    }
}

/// Appends the pieces of `ls`, separated by `sep`, to `out`.
pub fn push_joined(out: &mut Vec<char>, ls: &Vec<Vec<char>>, sep: &Vec<char>)
    ensures
        final(out)@ == old(out)@ + join_seq(vec_views(ls@), sep@),
{
    let ghost start = out@;
    let mut i: usize = 0;
    while i < ls.len()
        invariant
            i <= ls.len(),
            out@ == start + join_seq(vec_views(ls@.take(i as int)), sep@),
        decreases ls.len() - i,
    {
        let ghost prev = out@;
        assert(vec_views(ls@.take(i + 1)).drop_last() =~= vec_views(ls@.take(i as int)));
        assert(vec_views(ls@.take(i + 1)).last() == ls@[i as int]@);
        if i > 0 {
            append_vec(out, sep);
        }
        append_vec(out, &ls[i]);
        if i == 0 {
            assert(vec_views(ls@.take(1)) =~= seq![ls@[0]@]);
            assert(out@ =~= start + join_seq(vec_views(ls@.take(1)), sep@));
        } else {
            assert(out@ =~= start + join_seq(vec_views(ls@.take(i + 1)), sep@));
        }
        i = i + 1;
    }
    assert(ls@.take(ls.len() as int) =~= ls@);
}

/// Appends all of `t` to `out`.
pub fn append_vec(out: &mut Vec<char>, t: &Vec<char>)
    ensures
        final(out)@ == old(out)@ + t@,
{
    let ghost start = out@;
    let mut k: usize = 0;
    while k < t.len()
        invariant
            k <= t.len(),
            out@ == start + t@.take(k as int),
        decreases t.len() - k,
    {
        out.push(t[k]);
        k = k + 1;
        assert(out@ =~= start + t@.take(k as int));
    }
    assert(t@.take(t.len() as int) =~= t@);
}

/// The string whose characters are `v`.
pub fn to_string(v: &Vec<char>) -> (s: String)
    ensures
        s@ == v@,
{
    let s = string_from_chars(v, 0, v.len());
    assert(v@.subrange(0, v.len() as int) =~= v@);
    s
}


/// Equality of two character vectors.
pub fn eq_vec(a: &Vec<char>, b: &Vec<char>) -> (r: bool)
    ensures
        r == (a@ == b@),
{
    if a.len() != b.len() {
        return false;
    }
    assert(a@.subrange(0, b.len() as int) =~= a@);
    matches_at(a, b, 0)
}

/// Equality of two string slices.
pub fn eq_str(a: &str, b: &str) -> (r: bool)
    ensures
        r == (a@ == b@),
{
    let va = chars_of(a);
    let vb = chars_of(b);
    eq_vec(&va, &vb)
}


// ---------------------------------------------------------------------------
// Lists of strings
// ---------------------------------------------------------------------------

/// `s` without the elements equal to `x`, order kept (`Vec::retain(|d| d != x)`).
pub open spec fn without(s: Seq<Seq<char>>, x: Seq<char>) -> Seq<Seq<char>>
    decreases s.len(),
{
    if s.len() == 0 {
        s
    } else if s.last() == x {
        without(s.drop_last(), x)
    } else {
        without(s.drop_last(), x).push(s.last())
    }
}

/// Whether some element of `v` equals `s`.
pub fn contains_string(v: &Vec<String>, s: &str) -> (r: bool)
    ensures
        r == string_views(v@).contains(s@),
{
    let mut i: usize = 0;
    while i < v.len()
        invariant
            i <= v.len(),
            forall|k: int| 0 <= k < i ==> v@[k]@ != s@,
        decreases v.len() - i,
    {
        if eq_str(v[i].as_str(), s) {
            assert(string_views(v@)[i as int] == s@);
            return true;
        }
        i = i + 1;
    }
    assert forall|k: int| 0 <= k < string_views(v@).len() implies string_views(v@)[k] != s@ by {
        assert(string_views(v@)[k] == v@[k]@);
    }
    false
}

/// The elements of `v` that differ from `s`, in order.
pub fn retain_other(v: &Vec<String>, s: &str) -> (r: Vec<String>)
    ensures
        string_views(r@) == without(string_views(v@), s@),
{
    let mut out: Vec<String> = Vec::new();
    let mut i: usize = 0;
    assert(string_views(v@.take(0)) =~= Seq::<Seq<char>>::empty());
    assert(string_views(out@) =~= Seq::<Seq<char>>::empty());
    while i < v.len()
        invariant
            i <= v.len(),
            string_views(out@) == without(string_views(v@.take(i as int)), s@),
        decreases v.len() - i,
    {
        let ghost prefix = string_views(v@.take(i + 1));
        assert(prefix.drop_last() =~= string_views(v@.take(i as int)));
        assert(prefix.last() == v@[i as int]@);
        if !eq_str(v[i].as_str(), s) {
            let ghost before = string_views(out@);
            out.push(v[i].clone());
            assert(string_views(out@) =~= before.push(v@[i as int]@));
        }
        i = i + 1;
    }
    assert(v@.take(v.len() as int) =~= v@);
    out
}


// ---------------------------------------------------------------------------
// Splitting at a character (`str::split`, `str::split_once`)
// ---------------------------------------------------------------------------

/// Index of the first `c` in `s` (its length when there is none).
pub open spec fn char_index(s: Seq<char>, c: char) -> nat
    decreases s.len(),
{
    if s.len() == 0 || s[0] == c {
        0
    } else {
        1 + char_index(s.drop_first(), c)
    }
}

/// Facts about the first index of a character.
pub proof fn lemma_char_index(s: Seq<char>, c: char)
    ensures
        char_index(s, c) <= s.len(),
        char_index(s, c) < s.len() ==> s[char_index(s, c) as int] == c,
        forall|k: int| 0 <= k < char_index(s, c) ==> s[k] != c,
    decreases s.len(),
{
    if s.len() > 0 && s[0] != c {
        lemma_char_index(s.drop_first(), c);
        assert forall|k: int| 0 <= k < char_index(s, c) implies s[k] != c by {
            if k > 0 {
                assert(s[k] == s.drop_first()[k - 1]);
            }
        }
    }
}

/// The first index of `c` in `a + b` is in `b` when `a` has no `c`.
pub proof fn lemma_char_index_concat(a: Seq<char>, b: Seq<char>, c: char)
    requires
        !a.contains(c),
    ensures
        char_index(a + b, c) == a.len() + char_index(b, c),
    decreases a.len(),
{
    if a.len() > 0 {
        assert((a + b)[0] == a[0]);
        assert(a[0] != c);
        assert((a + b).drop_first() =~= a.drop_first() + b);
        assert(!a.drop_first().contains(c)) by {
            if a.drop_first().contains(c) {
                let k = choose|k: int| 0 <= k < a.drop_first().len() && a.drop_first()[k] == c;
                assert(a[k + 1] == c);
            }
        }
        lemma_char_index_concat(a.drop_first(), b, c);
    } else {
        assert(a + b =~= b);
    }
}

/// The pieces of `s` between occurrences of `c` (`str::split`): one more
/// piece than there are separators.
pub open spec fn split_on(s: Seq<char>, c: char) -> Seq<Seq<char>>
    decreases s.len(),
{
    let i = char_index(s, c);
    if i >= s.len() {
        seq![s]
    } else {
        seq![s.take(i as int)] + split_on(s.skip(i as int + 1), c)
    }
}

/// `s` cut at its first `c` (`str::split_once`).
pub open spec fn split_once_seq(s: Seq<char>, c: char) -> Option<(Seq<char>, Seq<char>)> {
    let i = char_index(s, c);
    if i >= s.len() {
        None
    } else {
        Some((s.take(i as int), s.skip(i as int + 1)))
    }
}

fn char_index_from(v: &Vec<char>, i: usize, c: char) -> (j: usize)
    requires
        i <= v.len(),
    ensures
        i <= j <= v.len(),
        j - i == char_index(v@.skip(i as int), c),
{
    let mut j: usize = i;
    while j < v.len() && v[j] != c
        invariant
            i <= j <= v.len(),
            char_index(v@.skip(i as int), c) == (j - i) + char_index(v@.skip(j as int), c),
        decreases v.len() - j,
    {
        assert(v@.skip(j as int).drop_first() =~= v@.skip(j + 1));
        j = j + 1;
    }
    j
}

/// `str::split` at a character, collected.
pub fn split_char(v: &Vec<char>, c: char) -> (r: Vec<Vec<char>>)
    ensures
        vec_views(r@) == split_on(v@, c),
{
    let mut out: Vec<Vec<char>> = Vec::new();
    let mut i: usize = 0;
    assert(v@.skip(0) =~= v@);
    assert(vec_views(out@) =~= Seq::<Seq<char>>::empty());
    loop
        invariant
            i <= v.len(),
            split_on(v@, c) == vec_views(out@) + split_on(v@.skip(i as int), c),
        decreases v.len() - i,
    {
        let ghost rest = v@.skip(i as int);
        let j = char_index_from(v, i, c);
        let piece = copy_range(v, i, j);
        let ghost before = vec_views(out@);
        out.push(piece);
        assert(vec_views(out@) =~= before.push(piece@));
        if j == v.len() {
            assert(piece@ =~= rest);
            assert(split_on(rest, c) == seq![rest]);
            assert(split_on(v@, c) =~= vec_views(out@));
            return out;
        }
        assert(rest.take(j - i) =~= piece@);
        assert(rest.skip(j - i + 1) =~= v@.skip(j + 1));
        assert(split_on(rest, c) == seq![piece@] + split_on(v@.skip(j + 1), c));
        assert(split_on(v@, c) =~= vec_views(out@) + split_on(v@.skip(j + 1), c));
        i = j + 1;
    }
}

/// `str::split_once` at a character.
pub fn split_once(v: &Vec<char>, c: char) -> (r: Option<(Vec<char>, Vec<char>)>)
    ensures
        match r {
            Some((a, b)) => split_once_seq(v@, c) == Some((a@, b@)),
            None => split_once_seq(v@, c) is None,
        },
{
    assert(v@.skip(0) =~= v@);
    let j = char_index_from(v, 0, c);
    if j == v.len() {
        None
    } else {
        let a = copy_range(v, 0, j);
        let b = copy_range(v, j + 1, v.len());
        assert(a@ =~= v@.take(j as int));
        assert(b@ =~= v@.skip(j + 1));
        Some((a, b))
    }
}

/// `s` without its leading `c`s (`str::trim_start_matches(c)`).
pub open spec fn trim_start_char(s: Seq<char>, c: char) -> Seq<char>
    decreases s.len(),
{
    if s.len() > 0 && s[0] == c {
        trim_start_char(s.drop_first(), c)
    } else {
        s
    }
}

/// `s` without its trailing `c`s (`str::trim_end_matches(c)`).
pub open spec fn trim_end_char(s: Seq<char>, c: char) -> Seq<char>
    decreases s.len(),
{
    if s.len() > 0 && s.last() == c {
        trim_end_char(s.drop_last(), c)
    } else {
        s
    }
}

/// `str::trim_start_matches(c)` on character vectors.
pub fn trim_start_matches(v: &Vec<char>, c: char) -> (r: Vec<char>)
    ensures
        r@ == trim_start_char(v@, c),
{
    let mut a: usize = 0;
    assert(v@.skip(0) =~= v@);
    while a < v.len() && v[a] == c
        invariant
            a <= v.len(),
            trim_start_char(v@, c) == trim_start_char(v@.skip(a as int), c),
        decreases v.len() - a,
    {
        assert(v@.skip(a as int).drop_first() =~= v@.skip(a + 1));
        a = a + 1;
    }
    let r = copy_range(v, a, v.len());
    assert(r@ =~= v@.skip(a as int));
    r
}

/// `str::trim_end_matches(c)` on character vectors.
pub fn trim_end_matches(v: &Vec<char>, c: char) -> (r: Vec<char>)
    ensures
        r@ == trim_end_char(v@, c),
{
    let mut b: usize = v.len();
    assert(v@.take(v.len() as int) =~= v@);
    while b > 0 && v[b - 1] == c
        invariant
            b <= v.len(),
            trim_end_char(v@, c) == trim_end_char(v@.take(b as int), c),
        decreases b,
    {
        assert(v@.take(b as int).drop_last() =~= v@.take(b - 1));
        b = b - 1;
    }
    let r = copy_range(v, 0, b);
    assert(r@ =~= v@.take(b as int));
    r
}

/// `str::find` on character vectors.
pub fn find(s: &Vec<char>, p: &Vec<char>) -> (r: Option<usize>)
    ensures
        match r {
            Some(i) => occurs_at(s@, p@, i as int) && forall|k: int| 0 <= k < i ==> !occurs_at(s@, p@, k),
            None => !contains_seq(s@, p@),
        },
        r is Some <==> contains_seq(s@, p@),
{
    if p.len() > s.len() {
        return None;
    }
    let last = s.len() - p.len();
    let mut i: usize = 0;
    while i < last
        invariant
            last == s.len() - p.len(),
            i <= last,
            forall|k: int| 0 <= k < i ==> !occurs_at(s@, p@, k),
        decreases last - i,
    {
        if matches_at(s, p, i) {
            return Some(i);
        }
        i = i + 1;
    }
    if matches_at(s, p, last) {
        return Some(last);
    }
    assert forall|k: int| !occurs_at(s@, p@, k) by {
        if 0 <= k <= last as int {
            assert(k < i || k == last as int);
        }
    }
    None
}

} // verus!
