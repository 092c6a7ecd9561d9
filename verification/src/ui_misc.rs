//! Small shared pieces of the front end: layout constants, text
//! abbreviation, and the events that UI callbacks send to the services.
use vstd::prelude::*;

use crate::text::{chars_of, owned, push_str, string_from_chars};

verus! {

/// Common spacing and sizing of the tabs, in pixels.
#[derive(Debug, Clone, Copy, PartialEq, Eq)]
pub struct Spacing {
    pub margin: i32,
    pub padding: i32,
    pub row_height: i32,
    pub button_width: i32,
}

impl Spacing {
    /// The spacing used by every tab.
    pub fn new() -> (s: Self)
        ensures
            s == (Spacing { margin: 5, padding: 4, row_height: 28, button_width: 60 }),
    {
        Spacing { margin: 5, padding: 4, row_height: 28, button_width: 60 }
    }
}

impl Default for Spacing {
    fn default() -> (s: Self)
        ensures
            s == (Spacing { margin: 5, padding: 4, row_height: 28, button_width: 60 }),
    {
        Spacing::new()
    }
}

/// The colour scheme of the tabs, each colour as `0xRRGGBB`.
#[derive(Debug, Clone, Copy, PartialEq, Eq)]
pub struct Colors {
    /// Window background: light grey.
    pub background: u32,
    /// Text: dark grey.
    pub text: u32,
    /// Buttons: green.
    pub accent: u32,
    /// Active items: light green.
    pub highlight: u32,
    /// Input fields: white.
    pub input_bg: u32,
    /// Borders and frames.
    pub border: u32,
}

/// The light colour scheme.
pub open spec fn light_colors() -> Colors {
    Colors {
        background: 0xF5F5F5,
        text: 0x333333,
        accent: 0x4CAF50,
        highlight: 0x90EE90,
        input_bg: 0xFFFFFF,
        border: 0xCCCCCC,
    }
}

impl Colors {
    /// The light colour scheme used by every tab.
    pub fn new() -> (c: Self)
        ensures
            c == light_colors(),
    {
        Colors {
            background: 0xF5F5F5,
            text: 0x333333,
            accent: 0x4CAF50,
            highlight: 0x90EE90,
            input_bg: 0xFFFFFF,
            border: 0xCCCCCC,
        }
    }
}

impl Default for Colors {
    fn default() -> (c: Self)
        ensures
            c == light_colors(),
    {
        Colors::new()
    }
}

/// Number of bytes of `c` in UTF-8.
pub open spec fn utf8_len(c: char) -> nat {
    if (c as u32) < 0x80 {
        1
    } else if (c as u32) < 0x800 {
        2
    } else if (c as u32) < 0x10000 {
        3
    } else {
        4
    }
}

/// Number of bytes of `s` in UTF-8 (`str::len`).
pub open spec fn byte_len(s: Seq<char>) -> nat
    decreases s.len(),
{
    if s.len() == 0 {
        0
    } else {
        byte_len(s.drop_last()) + utf8_len(s.last())
    }
}

/// Whether byte offset `n` of `s` falls between two characters.
pub open spec fn is_char_boundary(s: Seq<char>, n: nat) -> bool {
    exists|k: int| 0 <= k <= s.len() && byte_len(#[trigger] s.take(k)) == n
}

/// The byte offset where an over-long text is cut: three bytes before the
/// limit, to leave room for `...`.
pub open spec fn cut_offset(max_len: usize) -> nat {
    if max_len >= 3 {
        (max_len - 3) as nat
    } else {
        0
    }
}

fn char_bytes(c: char) -> (n: u128)
    ensures
        n == utf8_len(c),
{
    let u = c as u32;
    if u < 0x80 {
        1
    } else if u < 0x800 {
        2
    } else if u < 0x10000 {
        3
    } else {
        4
    }
}

proof fn lemma_byte_len_take(s: Seq<char>, k: int)
    requires
        0 <= k < s.len(),
    ensures
        byte_len(s.take(k + 1)) == byte_len(s.take(k)) + utf8_len(s[k]),
{
    assert(s.take(k + 1).drop_last() =~= s.take(k));
}

/// `s` when it takes at most `max_len` bytes; else its first
/// `max_len - 3` bytes (none when the limit is below 3) followed by `...`.
/// The cut must fall between two characters.
pub fn truncate(s: &str, max_len: usize) -> (r: String)
    requires
        byte_len(s@) > max_len ==> is_char_boundary(s@, cut_offset(max_len)),
    ensures
        byte_len(s@) <= max_len ==> r@ == s@,
        byte_len(s@) > max_len ==> exists|k: int|
            0 <= k <= s@.len() && byte_len(#[trigger] s@.take(k)) == cut_offset(max_len) && r@
                == s@.take(k) + "..."@,
        max_len >= 3 ==> byte_len(r@) <= max_len,
{
    let v = chars_of(s);
    let mut total: u128 = 0;
    let mut i: usize = 0;
    assert(v@.take(0) =~= Seq::<char>::empty());
    while i < v.len()
        invariant
            i <= v.len(),
            total == byte_len(v@.take(i as int)),
            total <= 4 * i,
        decreases v.len() - i,
    {
        proof {
            lemma_byte_len_take(v@, i as int);
        }
        total = total + char_bytes(v[i]);
        i = i + 1;
    }
    assert(v@.take(v.len() as int) =~= v@);
    if total <= max_len as u128 {
        return owned(s);
    }
    let cut: u128 = if max_len >= 3 {
        (max_len - 3) as u128
    } else {
        0
    };
    let ghost w = choose|k: int| 0 <= k <= s@.len() && byte_len(#[trigger] s@.take(k)) == cut_offset(max_len);
    let mut k: usize = 0;
    let mut acc: u128 = 0;
    while acc < cut
        invariant
            k <= v.len(),
            v@ == s@,
            acc == byte_len(v@.take(k as int)),
            acc <= 4 * k,
            cut == cut_offset(max_len),
            0 <= w <= s@.len(),
            byte_len(s@.take(w)) == cut,
            k <= w,
        decreases v.len() - k,
    {
        proof {
            if k == w {
                assert(false);
            }
            lemma_byte_len_take(v@, k as int);
            lemma_byte_len_monotone(v@, k as int + 1, w);
        }
        acc = acc + char_bytes(v[k]);
        k = k + 1;
    }
    proof {
        if k < w {
            lemma_byte_len_take(v@, k as int);
            lemma_byte_len_monotone(v@, k as int + 1, w);
        }
    }
    let mut r = string_from_chars(&v, 0, k);
    push_str(&mut r, "...");
    assert(v@.subrange(0, k as int) =~= s@.take(k as int));
    proof {
        reveal_strlit("...");
        lemma_byte_len_concat(s@.take(k as int), "..."@);
        assert(byte_len("..."@) == 3) by {
            reveal_strlit("...");
            let d = "..."@;
            let d1 = d.drop_last();
            let d2 = d1.drop_last();
            let d3 = d2.drop_last();
            assert(d3 =~= Seq::<char>::empty());
            assert(d.last() == '.' && d1.last() == '.' && d2.last() == '.');
            assert(utf8_len('.') == 1);
            assert(byte_len(d3) == 0);
            assert(byte_len(d2) == 1);
            assert(byte_len(d1) == 2);
        }
    }
    r
}

/// The UTF-8 length of two texts put together.
proof fn lemma_byte_len_concat(a: Seq<char>, b: Seq<char>)
    ensures
        byte_len(a + b) == byte_len(a) + byte_len(b),
    decreases b.len(),
{
    if b.len() == 0 {
        assert(a + b =~= a);
    } else {
        lemma_byte_len_concat(a, b.drop_last());
        assert((a + b).drop_last() =~= a + b.drop_last());
    }
}

/// Byte lengths of prefixes grow with the prefix, by at least one byte per
/// character.
proof fn lemma_byte_len_monotone(s: Seq<char>, a: int, b: int)
    requires
        0 <= a <= b <= s.len(),
    ensures
        byte_len(s.take(a)) + (b - a) <= byte_len(s.take(b)),
    decreases b - a,
{
    if a < b {
        lemma_byte_len_take(s, b - 1);
        lemma_byte_len_monotone(s, a, b - 1);
    }
}

/// Events that UI callbacks send to the services.
#[derive(Debug, Clone)]
pub enum UiEvent {
    /// Start or stop a module, by name.
    ModuleToggle { module: String },
    /// Upload a file with the TFTP client.
    TftpClientPut { server: String, local: String, remote: String, options: String },
    /// Download a file with the TFTP client.
    TftpClientGet { server: String, local: String, remote: String, options: String },
    /// Schedule a reminder.
    PlanAdd { date: String, time: String, cycle: i32, unit: String, msg: String },
    /// Remove a reminder.
    PlanRemove { id: String },
    /// Send a chat message.
    ChatSend { message: String },
    /// Refresh the list of chat users.
    ChatRefresh,
    /// Notify all chat users.
    ChatNotify,
    /// Apply and save the settings.
    SettingsSave,
    /// Check for a newer release.
    VersionCheck,
}

} // verus!
