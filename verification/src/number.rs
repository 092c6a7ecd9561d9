//! Decimal rendering and parsing of integers and booleans, with the textual
//! conventions of Rust's `Display` and `FromStr` for the primitive types.
use vstd::prelude::*;

verus! {

/// The decimal digit character of `d` (`0 <= d < 10`).
pub open spec fn digit_char(d: nat) -> char {
    ((d + 48) as u32) as char
}

/// Decimal digits of `n`, most significant first, without leading zeros.
pub open spec fn nat_decimal(n: nat) -> Seq<char>
    decreases n,
{
    if n < 10 {
        seq![digit_char(n)]
    } else {
        nat_decimal(n / 10).push(digit_char(n % 10))
    }
}

/// Decimal rendering of `i`, with a leading `-` when negative.
pub open spec fn int_decimal(i: int) -> Seq<char> {
    if i < 0 {
        seq!['-'] + nat_decimal((-i) as nat)
    } else {
        nat_decimal(i as nat)
    }
}

/// Rendering of a boolean (`true` / `false`).
pub open spec fn bool_text(b: bool) -> Seq<char> {
    if b {
        seq!['t', 'r', 'u', 'e']
    } else {
        seq!['f', 'a', 'l', 's', 'e']
    }
}

fn digit_of(d: u64) -> (c: char)
    requires
        d < 10,
    ensures
        c == digit_char(d as nat),
{
    let c: u8 = (d as u8) + 48;
    c as char
}

/// Appends the decimal digits of `n` to `out`.
pub fn push_u64_decimal(out: &mut Vec<char>, n: u64)
    ensures
        final(out)@ == old(out)@ + nat_decimal(n as nat),
    decreases n,
{
    if n < 10 {
        out.push(digit_of(n));
        assert(nat_decimal(n as nat) =~= seq![digit_char(n as nat)]);
    } else {
        push_u64_decimal(out, n / 10);
        out.push(digit_of(n % 10));
        assert(nat_decimal(n as nat) == nat_decimal((n / 10) as nat).push(
            digit_char((n % 10) as nat),
        ));
        assert(final(out)@ =~= old(out)@ + nat_decimal(n as nat));
    }
}

/// Appends the decimal rendering of `i` to `out`.
pub fn push_i64_decimal(out: &mut Vec<char>, i: i64)
    ensures
        final(out)@ == old(out)@ + int_decimal(i as int),
{
    if i < 0 {
        out.push('-');
        let mag: u64 = ((-(i + 1)) as u64) + 1;
        push_u64_decimal(out, mag);
        assert(final(out)@ =~= old(out)@ + int_decimal(i as int));
    } else {
        push_u64_decimal(out, i as u64);
    }
}

/// Appends `true` or `false` to `out`.
pub fn push_bool_text(out: &mut Vec<char>, b: bool)
    ensures
        final(out)@ == old(out)@ + bool_text(b),
{
    if b {
        out.push('t');
        out.push('r');
        out.push('u');
        out.push('e');
    } else {
        out.push('f');
        out.push('a');
        out.push('l');
        out.push('s');
        out.push('e');
    }
    assert(final(out)@ =~= old(out)@ + bool_text(b));
}

// ---------------------------------------------------------------------------
// Parsing
// ---------------------------------------------------------------------------

/// `c` is an ASCII decimal digit.
pub open spec fn is_digit(c: char) -> bool {
    '0' <= c && c <= '9'
}

/// Every character of `s` is an ASCII decimal digit.
pub open spec fn all_digits(s: Seq<char>) -> bool {
    forall|i: int| 0 <= i < s.len() ==> is_digit(#[trigger] s[i])
}

/// Value of a string of decimal digits.
pub open spec fn digits_value(s: Seq<char>) -> nat
    decreases s.len(),
{
    if s.len() == 0 {
        0
    } else {
        digits_value(s.drop_last()) * 10 + ((s.last() as u32) - 48) as nat
    }
}

/// The integer that `FromStr` reads from `s`, before its range check: an
/// optional sign (`-` only when `signed`), then one or more ASCII digits.
pub open spec fn integer_text_value(s: Seq<char>, signed: bool) -> Option<int> {
    if s.len() == 0 {
        None
    } else {
        let neg = signed && s[0] == '-';
        let body = if s[0] == '+' || neg { s.skip(1) } else { s };
        if body.len() == 0 || !all_digits(body) {
            None
        } else if neg {
            Some(-(digits_value(body) as int))
        } else {
            Some(digits_value(body) as int)
        }
    }
}

/// The value `s.parse::<T>()` yields for an integer type with range `lo..=hi`.
pub open spec fn parse_in_range(s: Seq<char>, signed: bool, lo: int, hi: int) -> Option<int> {
    match integer_text_value(s, signed) {
        Some(v) => if lo <= v <= hi { Some(v) } else { None },
        None => None,
    }
}

/// The decimal digits of a number are digits, and read back as the number.
pub proof fn lemma_nat_decimal_reads_back(n: nat)
    ensures
        nat_decimal(n).len() > 0,
        all_digits(nat_decimal(n)),
        digits_value(nat_decimal(n)) == n,
    decreases n,
{
    if n < 10 {
        let s = nat_decimal(n);
        assert(s == seq![digit_char(n)]);
        assert(s.drop_last() =~= Seq::<char>::empty());
        assert((digit_char(n) as u32) == n + 48);
        assert(s.last() == digit_char(n));
        assert(digits_value(s) == digits_value(s.drop_last()) * 10 + ((s.last() as u32) - 48) as nat);
    } else {
        lemma_nat_decimal_reads_back(n / 10);
        let s = nat_decimal(n);
        let d = digit_char(n % 10);
        assert(s == nat_decimal(n / 10).push(d));
        assert(s.drop_last() =~= nat_decimal(n / 10));
        assert((d as u32) == n % 10 + 48);
        assert(s.last() == d);
        assert(digits_value(s) == digits_value(s.drop_last()) * 10 + ((s.last() as u32) - 48) as nat);
        assert(digits_value(s.drop_last()) == n / 10);
        assert((n / 10) * 10 + n % 10 == n) by (nonlinear_arith);
        assert forall|i: int| 0 <= i < s.len() implies is_digit(#[trigger] s[i]) by {
            if i < s.len() - 1 {
                assert(s[i] == nat_decimal(n / 10)[i]);
            }
        }
    }
}

/// The decimal rendering of an integer parses back (`i64::from_str` and its
/// kin, before their range check) as the integer.
pub proof fn lemma_int_decimal_reads_back(i: int)
    ensures
        integer_text_value(int_decimal(i), true) == Some(i),
        i >= 0 ==> integer_text_value(int_decimal(i), false) == Some(i),
{
    if i < 0 {
        let m = (-i) as nat;
        lemma_nat_decimal_reads_back(m);
        let s = int_decimal(i);
        assert(s[0] == '-');
        assert(s.skip(1) =~= nat_decimal(m));
    } else {
        lemma_nat_decimal_reads_back(i as nat);
        let s = int_decimal(i);
        assert(is_digit(s[0]));
    }
}

/// A bound above every magnitude the parsers need to tell apart.
pub open spec fn magnitude_cap() -> nat {
    0x1_0000_0000_0000_0000_0000nat
}

/// Parses the digits `v[start..]`, capping the magnitude.
fn digits_capped(v: &Vec<char>, start: usize) -> (r: Option<u128>)
    requires
        start <= v.len(),
    ensures
        r is Some <==> all_digits(v@.skip(start as int)),
        r matches Some(m) ==> m as nat == if digits_value(v@.skip(start as int)) < magnitude_cap() {
            digits_value(v@.skip(start as int))
        } else {
            magnitude_cap()
        },
{
    let cap: u128 = 0x1_0000_0000_0000_0000_0000;
    let mut acc: u128 = 0;
    let mut i: usize = start;
    let ghost body = v@.skip(start as int);
    while i < v.len()
        invariant
            start <= i <= v.len(),
            body == v@.skip(start as int),
            all_digits(body.take(i - start)),
            acc as nat == if digits_value(body.take(i - start)) < magnitude_cap() {
                digits_value(body.take(i - start))
            } else {
                magnitude_cap()
            },
            cap == magnitude_cap(),
        decreases v.len() - i,
    {
        let c = v[i];
        if !('0' <= c && c <= '9') {
            assert(!is_digit(body[i - start]));
            return None;
        }
        let ghost prev = body.take(i - start);
        let ghost next = body.take(i - start + 1);
        assert(next.drop_last() =~= prev);
        assert(next.last() == c);
        let d: u128 = ((c as u32) - 48) as u128;
        if acc >= cap {
            assert(digits_value(next) >= magnitude_cap()) by (nonlinear_arith)
                requires
                    digits_value(next) == digits_value(prev) * 10 + d,
                    digits_value(prev) >= magnitude_cap(),
            ;
        } else {
            let n = acc * 10 + d;
            acc = if n >= cap { cap } else { n };
        }
        assert(all_digits(next)) by {
            assert forall|j: int| 0 <= j < next.len() implies is_digit(#[trigger] next[j]) by {
                if j < next.len() - 1 {
                    assert(next[j] == prev[j]);
                }
            }
        }
        i = i + 1;
    }
    assert(body.take(i - start) =~= body);
    Some(acc)
}

/// Parses an integer in the syntax of `FromStr`, returning its sign and its
/// capped magnitude.
fn parse_sign_magnitude(v: &Vec<char>, signed: bool) -> (r: Option<(bool, u128)>)
    ensures
        r is Some <==> integer_text_value(v@, signed) is Some,
        r matches Some((neg, m)) ==> ({
            let x = integer_text_value(v@, signed)->0;
            &&& (neg ==> x <= 0)
            &&& (!neg ==> x >= 0)
            &&& m as nat == if abs_val(x) < magnitude_cap() {
                abs_val(x)
            } else {
                magnitude_cap()
            }
        }),
{
    if v.len() == 0 {
        return None;
    }
    let neg = signed && v[0] == '-';
    let start: usize = if v[0] == '+' || neg { 1 } else { 0 };
    assert(v@.skip(0) =~= v@);
    if start == v.len() {
        return None;
    }
    match digits_capped(v, start) {
        Some(m) => Some((neg, m)),
        None => None,
    }
}

/// Absolute value of an integer.
pub open spec fn abs_val(x: int) -> nat {
    if x < 0 {
        (-x) as nat
    } else {
        x as nat
    }
}

/// `s.parse::<i64>()`.
pub fn parse_i64(v: &Vec<char>) -> (r: Option<i64>)
    ensures
        r matches Some(x) ==> parse_in_range(v@, true, i64::MIN as int, i64::MAX as int) == Some(
            x as int,
        ),
        r is None ==> parse_in_range(v@, true, i64::MIN as int, i64::MAX as int) is None,
{
    match parse_sign_magnitude(v, true) {
        None => None,
        Some((neg, m)) => {
            if neg {
                if m <= 0x8000_0000_0000_0000 {
                    if m == 0x8000_0000_0000_0000 {
                        Some(i64::MIN)
                    } else {
                        Some(-(m as i64))
                    }
                } else {
                    None
                }
            } else if m <= 0x7fff_ffff_ffff_ffff {
                Some(m as i64)
            } else {
                None
            }
        },
    }
}

/// `s.parse::<i32>()`.
pub fn parse_i32(v: &Vec<char>) -> (r: Option<i32>)
    ensures
        r matches Some(x) ==> parse_in_range(v@, true, i32::MIN as int, i32::MAX as int) == Some(
            x as int,
        ),
        r is None ==> parse_in_range(v@, true, i32::MIN as int, i32::MAX as int) is None,
{
    match parse_sign_magnitude(v, true) {
        None => None,
        Some((neg, m)) => {
            if neg {
                if m <= 0x8000_0000 {
                    Some((0 - (m as i64)) as i32)
                } else {
                    None
                }
            } else if m <= 0x7fff_ffff {
                Some(m as i32)
            } else {
                None
            }
        },
    }
}

/// `s.parse::<u32>()`.
pub fn parse_u32(v: &Vec<char>) -> (r: Option<u32>)
    ensures
        r matches Some(x) ==> parse_in_range(v@, false, 0, u32::MAX as int) == Some(x as int),
        r is None ==> parse_in_range(v@, false, 0, u32::MAX as int) is None,
{
    match parse_sign_magnitude(v, false) {
        None => None,
        Some((_, m)) => if m <= 0xffff_ffff {
            Some(m as u32)
        } else {
            None
        },
    }
}

/// `s.parse::<u16>()`.
pub fn parse_u16(v: &Vec<char>) -> (r: Option<u16>)
    ensures
        r matches Some(x) ==> parse_in_range(v@, false, 0, u16::MAX as int) == Some(x as int),
        r is None ==> parse_in_range(v@, false, 0, u16::MAX as int) is None,
{
    match parse_sign_magnitude(v, false) {
        None => None,
        Some((_, m)) => if m <= 0xffff {
            Some(m as u16)
        } else {
            None
        },
    }
}

/// `s.parse::<u8>()`.
pub fn parse_u8(v: &Vec<char>) -> (r: Option<u8>)
    ensures
        r matches Some(x) ==> parse_in_range(v@, false, 0, u8::MAX as int) == Some(x as int),
        r is None ==> parse_in_range(v@, false, 0, u8::MAX as int) is None,
{
    match parse_sign_magnitude(v, false) {
        None => None,
        Some((_, m)) => if m <= 0xff {
            Some(m as u8)
        } else {
            None
        },
    }
}

/// `s.parse::<bool>()`: exactly `true` or `false`.
pub fn parse_bool(v: &Vec<char>) -> (r: Option<bool>)
    ensures
        r == (if v@ == bool_text(true) {
            Some(true)
        } else if v@ == bool_text(false) {
            Some(false)
        } else {
            None::<bool>
        }),
{
    if v.len() == 4 && v[0] == 't' && v[1] == 'r' && v[2] == 'u' && v[3] == 'e' {
        assert(v@ =~= bool_text(true));
        Some(true)
    } else if v.len() == 5 && v[0] == 'f' && v[1] == 'a' && v[2] == 'l' && v[3] == 's' && v[4]
        == 'e' {
        assert(v@ =~= bool_text(false));
        Some(false)
    } else {
        assert(v@ != bool_text(true)) by {
            if v@ == bool_text(true) {
                assert(v@[0] == 't' && v@[1] == 'r' && v@[2] == 'u' && v@[3] == 'e');
            }
        }
        assert(v@ != bool_text(false)) by {
            if v@ == bool_text(false) {
                assert(v@[0] == 'f' && v@[1] == 'a' && v@[2] == 'l' && v@[3] == 's' && v@[4]
                    == 'e');
            }
        }
        None
    }
}

} // verus!
