//! Parsing of the `key=value;key=value` option strings typed in the tabs, and
//! the end address of a scan range.
use vstd::prelude::*;

use crate::defaults::{ping_options_text, tftpc_options_text};
use crate::number::{
    all_digits, bool_text, int_decimal, integer_text_value, is_digit, lemma_int_decimal_reads_back,
    lemma_nat_decimal_reads_back, nat_decimal, parse_bool, parse_i32, parse_i64, parse_in_range,
    parse_u8,
};
use crate::text::{
    append_vec, char_index, chars_of, copy_range, eq_vec, is_space, lemma_char_index,
    lemma_char_index_concat, split_char, split_on, split_once, split_once_seq, to_string,
    trim_end_seq, trim_seq, trim_start_seq, trim_vec, vec_views,
};

verus! {

/// The key and raw value of one option: the text around its first `=`, the
/// key trimmed (`opt.splitn(2, '=')` with the key passed through `trim`).
pub open spec fn option_pair(opt: Seq<char>) -> Option<(Seq<char>, Seq<char>)> {
    match split_once_seq(opt, '=') {
        Some((k, v)) => Some((trim_seq(k), v)),
        None => None,
    }
}

/// Ping settings read from an option string.
pub struct PingOptions {
    /// Milliseconds between probes (`interval`, default 1000).
    pub interval: i64,
    /// Number of probes, -1 for endless (`count`, default -1).
    pub count: i64,
    /// Stop at the first loss (`stoponloss`, default false).
    pub stop_on_loss: bool,
}

/// The ping settings after reading one option.
pub open spec fn ping_option_applied(o: PingOptions, opt: Seq<char>) -> PingOptions {
    match option_pair(opt) {
        Some((k, v)) => if k == "interval"@ {
            match parse_in_range(v, true, i64::MIN as int, i64::MAX as int) {
                Some(x) => PingOptions { interval: x as i64, ..o },
                None => o,
            }
        } else if k == "count"@ {
            match parse_in_range(v, true, i64::MIN as int, i64::MAX as int) {
                Some(x) => PingOptions { count: x as i64, ..o },
                None => o,
            }
        } else if k == "stoponloss"@ {
            if v == bool_text(true) {
                PingOptions { stop_on_loss: true, ..o }
            } else if v == bool_text(false) {
                PingOptions { stop_on_loss: false, ..o }
            } else {
                o
            }
        } else {
            o
        },
        None => o,
    }
}

/// The ping settings after reading the options `opts` in order.
pub open spec fn ping_options_applied(o: PingOptions, opts: Seq<Seq<char>>) -> PingOptions
    decreases opts.len(),
{
    if opts.len() == 0 {
        o
    } else {
        ping_options_applied(ping_option_applied(o, opts[0]), opts.drop_first())
    }
}

/// The defaults of the ping tab.
pub open spec fn default_ping_options() -> PingOptions {
    PingOptions { interval: 1000, count: -1i64, stop_on_loss: false }
}

/// Reads the ping option string (`interval=..;count=..;stoponloss=..`);
/// unknown keys and values that do not parse are ignored.
pub fn parse_ping_options(options: &str) -> (r: PingOptions)
    ensures
        r == ping_options_applied(default_ping_options(), split_on(options@, ';')),
{
    let opts = split_char(&chars_of(options), ';');
    let ghost all = vec_views(opts@);
    let mut r = PingOptions { interval: 1000, count: -1, stop_on_loss: false };
    let interval_key = chars_of("interval");
    let count_key = chars_of("count");
    let stop_key = chars_of("stoponloss");
    let mut i: usize = 0;
    assert(all.skip(0) =~= all);
    while i < opts.len()
        invariant
            i <= opts.len(),
            all == vec_views(opts@),
            interval_key@ == "interval"@,
            count_key@ == "count"@,
            stop_key@ == "stoponloss"@,
            ping_options_applied(default_ping_options(), all) == ping_options_applied(r, all.skip(i as int)),
        decreases opts.len() - i,
    {
        assert(all.skip(i as int)[0] == opts@[i as int]@);
        assert(all.skip(i as int).drop_first() =~= all.skip(i + 1));
        let ghost before = r;
        if let Some((k, v)) = split_once(&opts[i], '=') {
            let key = trim_vec(&k);
            if eq_vec(&key, &interval_key) {
                if let Some(x) = parse_i64(&v) {
                    r.interval = x;
                }
            } else if eq_vec(&key, &count_key) {
                if let Some(x) = parse_i64(&v) {
                    r.count = x;
                }
            } else if eq_vec(&key, &stop_key) {
                if let Some(b) = parse_bool(&v) {
                    r.stop_on_loss = b;
                }
            }
        }
        assert(r == ping_option_applied(before, all.skip(i as int)[0]));
        i = i + 1;
    }
    r
}

/// TFTP client settings read from an option string.
pub struct TftpClientOptions {
    /// Timeout in milliseconds (`timeout`, default 200).
    pub timeout: i32,
    /// Retries (`retry`, default 10).
    pub max_retry: i32,
    /// Block size (`blksize`, default 1024).
    pub block_size: i32,
}

/// The TFTP client settings after reading one option.
pub open spec fn tftp_option_applied(o: TftpClientOptions, opt: Seq<char>) -> TftpClientOptions {
    match option_pair(opt) {
        Some((k, v)) => match parse_in_range(v, true, i32::MIN as int, i32::MAX as int) {
            Some(x) => if k == "timeout"@ {
                TftpClientOptions { timeout: x as i32, ..o }
            } else if k == "retry"@ {
                TftpClientOptions { max_retry: x as i32, ..o }
            } else if k == "blksize"@ {
                TftpClientOptions { block_size: x as i32, ..o }
            } else {
                o
            },
            None => o,
        },
        None => o,
    }
}

/// The TFTP client settings after reading the options `opts` in order.
pub open spec fn tftp_options_applied(o: TftpClientOptions, opts: Seq<Seq<char>>) -> TftpClientOptions
    decreases opts.len(),
{
    if opts.len() == 0 {
        o
    } else {
        tftp_options_applied(tftp_option_applied(o, opts[0]), opts.drop_first())
    }
}

/// The defaults of TFTP client transfers.
pub open spec fn default_tftp_options() -> TftpClientOptions {
    TftpClientOptions { timeout: 200, max_retry: 10, block_size: 1024 }
}

/// Reads a TFTP client option string (`timeout=..;retry=..;blksize=..`);
/// unknown keys and values that do not parse are ignored.
pub fn parse_tftp_client_options(options: &str) -> (r: TftpClientOptions)
    ensures
        r == tftp_options_applied(default_tftp_options(), split_on(options@, ';')),
{
    let opts = split_char(&chars_of(options), ';');
    let ghost all = vec_views(opts@);
    let mut r = TftpClientOptions { timeout: 200, max_retry: 10, block_size: 1024 };
    let timeout_key = chars_of("timeout");
    let retry_key = chars_of("retry");
    let blksize_key = chars_of("blksize");
    let mut i: usize = 0;
    assert(all.skip(0) =~= all);
    while i < opts.len()
        invariant
            i <= opts.len(),
            all == vec_views(opts@),
            timeout_key@ == "timeout"@,
            retry_key@ == "retry"@,
            blksize_key@ == "blksize"@,
            tftp_options_applied(default_tftp_options(), all) == tftp_options_applied(r, all.skip(i as int)),
        decreases opts.len() - i,
    {
        assert(all.skip(i as int)[0] == opts@[i as int]@);
        assert(all.skip(i as int).drop_first() =~= all.skip(i + 1));
        let ghost before = r;
        if let Some((k, v)) = split_once(&opts[i], '=') {
            let key = trim_vec(&k);
            if let Some(x) = parse_i32(&v) {
                if eq_vec(&key, &timeout_key) {
                    r.timeout = x;
                } else if eq_vec(&key, &retry_key) {
                    r.max_retry = x;
                } else if eq_vec(&key, &blksize_key) {
                    r.block_size = x;
                }
            }
        }
        assert(r == tftp_option_applied(before, all.skip(i as int)[0]));
        i = i + 1;
    }
    r
}

/// The end address of a scan range from the start address and the typed end:
/// an empty end or a number up to 255 completes the start address's first
/// three parts (an empty end keeps the start's last part); anything else, or
/// a start without exactly four dot-separated parts, is used as typed.
pub open spec fn scan_end_address(start_ip: Seq<char>, end_suffix: Seq<char>) -> Seq<char> {
    let parts = split_on(start_ip, '.');
    if end_suffix.len() == 0 || parse_in_range(end_suffix, false, 0, 255) is Some {
        if parts.len() == 4 {
            if end_suffix.len() == 0 {
                parts[3]
            } else {
                parts[0] + seq!['.'] + parts[1] + seq!['.'] + parts[2] + seq!['.'] + end_suffix
            }
        } else {
            end_suffix
        }
    } else {
        end_suffix
    }
}

/// Computes the end address of a scan range (see `scan_end_address`).
pub fn scan_range_end(start_ip: &str, end_suffix: &str) -> (r: String)
    ensures
        r@ == scan_end_address(start_ip@, end_suffix@),
{
    let end = chars_of(end_suffix);
    if end.len() == 0 || parse_u8(&end).is_some() {
        let parts = split_char(&chars_of(start_ip), '.');
        if parts.len() == 4 {
            assert(vec_views(parts@)[3] == parts@[3]@);
            if end.len() == 0 {
                return to_string(&parts[3]);
            }
            let mut out: Vec<char> = Vec::new();
            append_vec(&mut out, &parts[0]);
            out.push('.');
            append_vec(&mut out, &parts[1]);
            out.push('.');
            append_vec(&mut out, &parts[2]);
            out.push('.');
            append_vec(&mut out, &end);
            assert(vec_views(parts@)[0] == parts@[0]@);
            assert(vec_views(parts@)[1] == parts@[1]@);
            assert(vec_views(parts@)[2] == parts@[2]@);
            assert(out@ =~= parts@[0]@ + seq!['.'] + parts@[1]@ + seq!['.'] + parts@[2]@ + seq!['.']
                + end@);
            return to_string(&out);
        }
    }
    to_string(&end)
}

// ---------------------------------------------------------------------------
// Reading back the option texts the tabs show
// ---------------------------------------------------------------------------

/// Splitting at `c` after a first piece without `c`.
proof fn lemma_split_first(a: Seq<char>, rest: Seq<char>, c: char)
    requires
        !a.contains(c),
    ensures
        split_on(a + seq![c] + rest, c) == seq![a] + split_on(rest, c),
{
    let s = a + seq![c] + rest;
    assert(s =~= a + (seq![c] + rest));
    lemma_char_index_concat(a, seq![c] + rest, c);
    assert(char_index(seq![c] + rest, c) == 0);
    assert(s.take(a.len() as int) =~= a);
    assert(s.skip(a.len() as int + 1) =~= rest);
}

/// A text without `c` is a single piece.
proof fn lemma_split_none(a: Seq<char>, c: char)
    requires
        !a.contains(c),
    ensures
        split_on(a, c) == seq![a],
{
    lemma_char_index(a, c);
    if char_index(a, c) < a.len() {
        assert(a[char_index(a, c) as int] == c);
        assert(a.contains(c));
    }
}

/// A key without `=` or surrounding spaces, then `=` and a value, is read
/// as that key and value.
proof fn lemma_option_pair(key: Seq<char>, value: Seq<char>)
    requires
        key.len() > 0,
        !key.contains('='),
        !is_space(key[0]),
        !is_space(key.last()),
    ensures
        option_pair(key + seq!['='] + value) == Some((key, value)),
{
    let s = key + seq!['='] + value;
    assert(s =~= key + (seq!['='] + value));
    lemma_char_index_concat(key, seq!['='] + value, '=');
    assert(char_index(seq!['='] + value, '=') == 0);
    assert(s.take(key.len() as int) =~= key);
    assert(s.skip(key.len() as int + 1) =~= value);
    assert(trim_start_seq(key) == key);
    assert(trim_end_seq(key) == key);
}

/// A decimal rendering holds no separator or `=`.
proof fn lemma_decimal_plain(x: int)
    ensures
        !int_decimal(x).contains(';'),
        !int_decimal(x).contains('='),
{
    let d = if x < 0 { (-x) as nat } else { x as nat };
    lemma_nat_decimal_reads_back(d);
    let s = int_decimal(x);
    assert forall|i: int| 0 <= i < s.len() implies s[i] != ';' && s[i] != '=' by {
        if x < 0 {
            if i > 0 {
                assert(s[i] == nat_decimal(d)[i - 1]);
                assert(is_digit(nat_decimal(d)[i - 1]));
            }
        } else {
            assert(is_digit(nat_decimal(d)[i]));
        }
    }
}

/// The ping option text splits into its three options.
proof fn lemma_ping_text_pieces(interval: i64, count: i64, stop_on_loss: bool)
    ensures
        split_on(ping_options_text(interval, count, stop_on_loss), ';') == seq![
            "interval"@ + seq!['='] + int_decimal(interval as int),
            "count"@ + seq!['='] + int_decimal(count as int),
            "stoponloss"@ + seq!['='] + bool_text(stop_on_loss),
        ],
{
    reveal_strlit("interval=");
    reveal_strlit(";count=");
    reveal_strlit(";stoponloss=");
    reveal_strlit("interval");
    reveal_strlit("count");
    reveal_strlit("stoponloss");
    let di = int_decimal(interval as int);
    let dc = int_decimal(count as int);
    let b = bool_text(stop_on_loss);
    let o1 = "interval"@ + seq!['='] + di;
    let o2 = "count"@ + seq!['='] + dc;
    let o3 = "stoponloss"@ + seq!['='] + b;
    assert(ping_options_text(interval, count, stop_on_loss) =~= o1 + seq![';'] + (o2 + seq![';'] + o3));
    lemma_decimal_plain(interval as int);
    lemma_decimal_plain(count as int);
    assert(!o1.contains(';')) by {
        if o1.contains(';') {
            let k = choose|k: int| 0 <= k < o1.len() && o1[k] == ';';
            if k >= 9 {
                assert(di[k - 9] == ';');
            }
        }
    }
    assert(!o2.contains(';')) by {
        if o2.contains(';') {
            let k = choose|k: int| 0 <= k < o2.len() && o2[k] == ';';
            if k >= 6 {
                assert(dc[k - 6] == ';');
            }
        }
    }
    assert(!o3.contains(';')) by {
        if o3.contains(';') {
            let k = choose|k: int| 0 <= k < o3.len() && o3[k] == ';';
        }
    }
    lemma_split_first(o1, o2 + seq![';'] + o3, ';');
    lemma_split_first(o2, o3, ';');
    lemma_split_none(o3, ';');
    assert(split_on(ping_options_text(interval, count, stop_on_loss), ';') =~= seq![o1, o2, o3]);
}

/// The ping option text that the ping tab shows reads back as the settings
/// it was made from.
pub proof fn ping_options_read_back(interval: i64, count: i64, stop_on_loss: bool)
    ensures
        ping_options_applied(
            default_ping_options(),
            split_on(ping_options_text(interval, count, stop_on_loss), ';'),
        ) == (PingOptions { interval, count, stop_on_loss }),
{
    reveal_strlit("interval");
    reveal_strlit("count");
    reveal_strlit("stoponloss");
    let di = int_decimal(interval as int);
    let dc = int_decimal(count as int);
    let b = bool_text(stop_on_loss);
    let o1 = "interval"@ + seq!['='] + di;
    let o2 = "count"@ + seq!['='] + dc;
    let o3 = "stoponloss"@ + seq!['='] + b;
    lemma_ping_text_pieces(interval, count, stop_on_loss);
    let parts = split_on(ping_options_text(interval, count, stop_on_loss), ';');
    let d = default_ping_options();
    let a1 = ping_option_applied(d, o1);
    assert(a1 == PingOptions { interval, ..d }) by {
        lemma_option_pair("interval"@, di);
        lemma_int_decimal_reads_back(interval as int);
    }
    let a2 = ping_option_applied(a1, o2);
    assert(a2 == PingOptions { interval, count, ..d }) by {
        lemma_option_pair("count"@, dc);
        lemma_int_decimal_reads_back(count as int);
        assert("count"@.len() != "interval"@.len());
    }
    let a3 = ping_option_applied(a2, o3);
    assert(a3 == PingOptions { interval, count, stop_on_loss }) by {
        lemma_option_pair("stoponloss"@, b);
        assert("stoponloss"@.len() != "interval"@.len());
        assert("stoponloss"@.len() != "count"@.len());
    }
    assert(parts.drop_first() =~= seq![o2, o3]);
    assert(parts.drop_first().drop_first() =~= seq![o3]);
    assert(parts.drop_first().drop_first().drop_first() =~= Seq::<Seq<char>>::empty());
    let p3 = parts.drop_first().drop_first();
    let p2 = parts.drop_first();
    assert(ping_options_applied(a3, p3.drop_first()) == a3);
    assert(ping_options_applied(a2, p3) == ping_options_applied(a3, p3.drop_first()));
    assert(ping_options_applied(a1, p2) == ping_options_applied(a2, p3));
    assert(ping_options_applied(d, parts) == ping_options_applied(a1, p2));
}

/// The pieces of the TFTP client option text.
proof fn lemma_tftpc_pieces(timeout: i64, retry: i64, blksize: i64)
    ensures
        split_on(tftpc_options_text(timeout, retry, blksize), ';') == seq![
            "timeout"@ + seq!['='] + int_decimal(timeout as int),
            "retry"@ + seq!['='] + int_decimal(retry as int),
            "blksize"@ + seq!['='] + int_decimal(blksize as int),
            Seq::<char>::empty(),
        ],
{
    reveal_strlit("timeout=");
    reveal_strlit(";retry=");
    reveal_strlit(";blksize=");
    reveal_strlit(";");
    reveal_strlit("timeout");
    reveal_strlit("retry");
    reveal_strlit("blksize");
    let dt = int_decimal(timeout as int);
    let dr = int_decimal(retry as int);
    let db = int_decimal(blksize as int);
    let o1 = "timeout"@ + seq!['='] + dt;
    let o2 = "retry"@ + seq!['='] + dr;
    let o3 = "blksize"@ + seq!['='] + db;
    let e = Seq::<char>::empty();
    assert(tftpc_options_text(timeout, retry, blksize) =~= o1 + seq![';'] + (o2 + seq![';'] + (o3
        + seq![';'] + e)));
    lemma_decimal_plain(timeout as int);
    lemma_decimal_plain(retry as int);
    lemma_decimal_plain(blksize as int);
    assert(!o1.contains(';')) by {
        if o1.contains(';') {
            let k = choose|k: int| 0 <= k < o1.len() && o1[k] == ';';
            if k >= 8 {
                assert(dt[k - 8] == ';');
            }
        }
    }
    assert(!o2.contains(';')) by {
        if o2.contains(';') {
            let k = choose|k: int| 0 <= k < o2.len() && o2[k] == ';';
            if k >= 6 {
                assert(dr[k - 6] == ';');
            }
        }
    }
    assert(!o3.contains(';')) by {
        if o3.contains(';') {
            let k = choose|k: int| 0 <= k < o3.len() && o3[k] == ';';
            if k >= 8 {
                assert(db[k - 8] == ';');
            }
        }
    }
    lemma_split_first(o1, o2 + seq![';'] + (o3 + seq![';'] + e), ';');
    lemma_split_first(o2, o3 + seq![';'] + e, ';');
    lemma_split_first(o3, e, ';');
    lemma_split_none(e, ';');
    assert(split_on(tftpc_options_text(timeout, retry, blksize), ';') =~= seq![o1, o2, o3, e]);
}

/// Reading one `key=N` option whose number fits 32 bits.
proof fn lemma_tftp_option(o: TftpClientOptions, key: Seq<char>, x: i64)
    requires
        i32::MIN <= x <= i32::MAX,
        key == "timeout"@ || key == "retry"@ || key == "blksize"@,
    ensures
        tftp_option_applied(o, key + seq!['='] + int_decimal(x as int)) == (if key == "timeout"@ {
            TftpClientOptions { timeout: x as i32, ..o }
        } else if key == "retry"@ {
            TftpClientOptions { max_retry: x as i32, ..o }
        } else {
            TftpClientOptions { block_size: x as i32, ..o }
        }),
{
    reveal_strlit("timeout");
    reveal_strlit("retry");
    reveal_strlit("blksize");
    lemma_option_pair(key, int_decimal(x as int));
    lemma_int_decimal_reads_back(x as int);
}

/// The TFTP client option text that the TFTP client tab shows reads back as
/// the settings it was made from, when they fit the 32-bit fields.
pub proof fn tftpc_options_read_back(timeout: i64, retry: i64, blksize: i64)
    requires
        i32::MIN <= timeout <= i32::MAX,
        i32::MIN <= retry <= i32::MAX,
        i32::MIN <= blksize <= i32::MAX,
    ensures
        tftp_options_applied(default_tftp_options(), split_on(tftpc_options_text(timeout, retry, blksize), ';'))
            == (TftpClientOptions {
            timeout: timeout as i32,
            max_retry: retry as i32,
            block_size: blksize as i32,
        }),
{
    let o1 = "timeout"@ + seq!['='] + int_decimal(timeout as int);
    let o2 = "retry"@ + seq!['='] + int_decimal(retry as int);
    let o3 = "blksize"@ + seq!['='] + int_decimal(blksize as int);
    let e = Seq::<char>::empty();
    lemma_tftpc_pieces(timeout, retry, blksize);
    let parts = split_on(tftpc_options_text(timeout, retry, blksize), ';');
    let d = default_tftp_options();
    lemma_tftp_option(d, "timeout"@, timeout);
    let a1 = tftp_option_applied(d, o1);
    lemma_tftp_option(a1, "retry"@, retry);
    let a2 = tftp_option_applied(a1, o2);
    lemma_tftp_option(a2, "blksize"@, blksize);
    let a3 = tftp_option_applied(a2, o3);
    assert(a3 == TftpClientOptions {
        timeout: timeout as i32,
        max_retry: retry as i32,
        block_size: blksize as i32,
    }) by {
        reveal_strlit("timeout");
        reveal_strlit("retry");
        reveal_strlit("blksize");
    }
    assert(option_pair(e) is None) by {
        assert(char_index(e, '=') == 0);
    }
    let a4 = tftp_option_applied(a3, e);
    assert(a4 == a3);
    let p2 = parts.drop_first();
    let p3 = p2.drop_first();
    let p4 = p3.drop_first();
    assert(p2 =~= seq![o2, o3, e]);
    assert(p3 =~= seq![o3, e]);
    assert(p4 =~= seq![e]);
    assert(p4.drop_first() =~= Seq::<Seq<char>>::empty());
    assert(tftp_options_applied(a4, p4.drop_first()) == a4);
    assert(tftp_options_applied(a3, p4) == tftp_options_applied(a4, p4.drop_first()));
    assert(tftp_options_applied(a2, p3) == tftp_options_applied(a3, p4));
    assert(tftp_options_applied(a1, p2) == tftp_options_applied(a2, p3));
    assert(tftp_options_applied(d, parts) == tftp_options_applied(a1, p2));
}

// ---------------------------------------------------------------------------
// Each ping option sets its own setting
// ---------------------------------------------------------------------------

/// The number an option gives the key `key`: its value, when the option
/// names `key` and the value reads as an `i64`.
pub open spec fn i64_option_value(opt: Seq<char>, key: Seq<char>) -> Option<int> {
    match option_pair(opt) {
        Some((k, v)) => if k == key {
            parse_in_range(v, true, i64::MIN as int, i64::MAX as int)
        } else {
            None
        },
        None => None,
    }
}

/// Options that give no interval leave the interval as it was.
proof fn lemma_interval_kept(o: PingOptions, opts: Seq<Seq<char>>)
    requires
        forall|j: int| 0 <= j < opts.len() ==> i64_option_value(#[trigger] opts[j], "interval"@) is None,
    ensures
        ping_options_applied(o, opts).interval == o.interval,
    decreases opts.len(),
{
    if opts.len() > 0 {
        assert(i64_option_value(opts[0], "interval"@) is None);
        let o1 = ping_option_applied(o, opts[0]);
        assert(o1.interval == o.interval);
        assert forall|j: int| 0 <= j < opts.drop_first().len() implies i64_option_value(
            #[trigger] opts.drop_first()[j],
            "interval"@,
        ) is None by {
            assert(opts.drop_first()[j] == opts[j + 1]);
        }
        lemma_interval_kept(o1, opts.drop_first());
    }
}

/// Options that give no count leave the count as it was.
proof fn lemma_count_kept(o: PingOptions, opts: Seq<Seq<char>>)
    requires
        forall|j: int| 0 <= j < opts.len() ==> i64_option_value(#[trigger] opts[j], "count"@) is None,
    ensures
        ping_options_applied(o, opts).count == o.count,
    decreases opts.len(),
{
    if opts.len() > 0 {
        assert(i64_option_value(opts[0], "count"@) is None);
        let o1 = ping_option_applied(o, opts[0]);
        assert(o1.count == o.count);
        assert forall|j: int| 0 <= j < opts.drop_first().len() implies i64_option_value(
            #[trigger] opts.drop_first()[j],
            "count"@,
        ) is None by {
            assert(opts.drop_first()[j] == opts[j + 1]);
        }
        lemma_count_kept(o1, opts.drop_first());
    }
}

/// The interval after reading options is the one of the last option giving
/// an interval, whatever the settings were before.
proof fn lemma_interval_last(o: PingOptions, opts: Seq<Seq<char>>, i: int)
    requires
        0 <= i < opts.len(),
        i64_option_value(opts[i], "interval"@) is Some,
        forall|j: int| i < j < opts.len() ==> i64_option_value(#[trigger] opts[j], "interval"@) is None,
    ensures
        ping_options_applied(o, opts).interval == i64_option_value(opts[i], "interval"@)->0,
    decreases opts.len(),
{
    reveal_strlit("interval");
    reveal_strlit("count");
    reveal_strlit("stoponloss");
    let o1 = ping_option_applied(o, opts[0]);
    let rest = opts.drop_first();
    if i == 0 {
        assert(o1.interval == i64_option_value(opts[0], "interval"@)->0);
        assert forall|j: int| 0 <= j < rest.len() implies i64_option_value(#[trigger] rest[j], "interval"@)
            is None by {
            assert(rest[j] == opts[j + 1]);
        }
        lemma_interval_kept(o1, rest);
    } else {
        assert(rest[i - 1] == opts[i]);
        assert forall|j: int| i - 1 < j < rest.len() implies i64_option_value(#[trigger] rest[j], "interval"@)
            is None by {
            assert(rest[j] == opts[j + 1]);
        }
        lemma_interval_last(o1, rest, i - 1);
    }
}

/// The count after reading options is the one of the last option giving a
/// count, whatever the settings were before.
proof fn lemma_count_last(o: PingOptions, opts: Seq<Seq<char>>, i: int)
    requires
        0 <= i < opts.len(),
        i64_option_value(opts[i], "count"@) is Some,
        forall|j: int| i < j < opts.len() ==> i64_option_value(#[trigger] opts[j], "count"@) is None,
    ensures
        ping_options_applied(o, opts).count == i64_option_value(opts[i], "count"@)->0,
    decreases opts.len(),
{
    reveal_strlit("interval");
    reveal_strlit("count");
    reveal_strlit("stoponloss");
    assert("count"@.len() != "interval"@.len());
    let o1 = ping_option_applied(o, opts[0]);
    let rest = opts.drop_first();
    if i == 0 {
        assert(o1.count == i64_option_value(opts[0], "count"@)->0);
        assert forall|j: int| 0 <= j < rest.len() implies i64_option_value(#[trigger] rest[j], "count"@)
            is None by {
            assert(rest[j] == opts[j + 1]);
        }
        lemma_count_kept(o1, rest);
    } else {
        assert(rest[i - 1] == opts[i]);
        assert forall|j: int| i - 1 < j < rest.len() implies i64_option_value(#[trigger] rest[j], "count"@)
            is None by {
            assert(rest[j] == opts[j + 1]);
        }
        lemma_count_last(o1, rest, i - 1);
    }
}

/// The flag an option gives the key `key`: its value, when the option names
/// `key` and the value is `true` or `false` (as `bool` reads them).
pub open spec fn bool_option_value(opt: Seq<char>, key: Seq<char>) -> Option<bool> {
    match option_pair(opt) {
        Some((k, v)) => if k == key && v == bool_text(true) {
            Some(true)
        } else if k == key && v == bool_text(false) {
            Some(false)
        } else {
            None
        },
        None => None,
    }
}

/// Options that give no stop-on-loss flag leave the flag as it was.
proof fn lemma_stop_kept(o: PingOptions, opts: Seq<Seq<char>>)
    requires
        forall|j: int| 0 <= j < opts.len() ==> bool_option_value(#[trigger] opts[j], "stoponloss"@) is None,
    ensures
        ping_options_applied(o, opts).stop_on_loss == o.stop_on_loss,
    decreases opts.len(),
{
    if opts.len() > 0 {
        assert(bool_option_value(opts[0], "stoponloss"@) is None);
        let o1 = ping_option_applied(o, opts[0]);
        assert(o1.stop_on_loss == o.stop_on_loss);
        assert forall|j: int| 0 <= j < opts.drop_first().len() implies bool_option_value(
            #[trigger] opts.drop_first()[j],
            "stoponloss"@,
        ) is None by {
            assert(opts.drop_first()[j] == opts[j + 1]);
        }
        lemma_stop_kept(o1, opts.drop_first());
    }
}

/// The stop-on-loss flag after reading options is the one of the last
/// option giving it, whatever the settings were before.
proof fn lemma_stop_last(o: PingOptions, opts: Seq<Seq<char>>, i: int)
    requires
        0 <= i < opts.len(),
        bool_option_value(opts[i], "stoponloss"@) is Some,
        forall|j: int| i < j < opts.len() ==> bool_option_value(#[trigger] opts[j], "stoponloss"@) is None,
    ensures
        ping_options_applied(o, opts).stop_on_loss == bool_option_value(opts[i], "stoponloss"@)->0,
    decreases opts.len(),
{
    reveal_strlit("interval");
    reveal_strlit("count");
    reveal_strlit("stoponloss");
    assert("stoponloss"@.len() != "interval"@.len());
    assert("stoponloss"@.len() != "count"@.len());
    let o1 = ping_option_applied(o, opts[0]);
    let rest = opts.drop_first();
    if i == 0 {
        assert(o1.stop_on_loss == bool_option_value(opts[0], "stoponloss"@)->0);
        assert forall|j: int| 0 <= j < rest.len() implies bool_option_value(#[trigger] rest[j], "stoponloss"@)
            is None by {
            assert(rest[j] == opts[j + 1]);
        }
        lemma_stop_kept(o1, rest);
    } else {
        assert(rest[i - 1] == opts[i]);
        assert forall|j: int| i - 1 < j < rest.len() implies bool_option_value(#[trigger] rest[j], "stoponloss"@)
            is None by {
            assert(rest[j] == opts[j + 1]);
        }
        lemma_stop_last(o1, rest, i - 1);
    }
}

/// The stop-on-loss flag read from an option string is the value of its
/// last `stoponloss` option that is `true` or `false`, whatever options
/// stand before or after it; false when there is none.
pub proof fn ping_stop_flag_follows_its_last_option(options: Seq<char>, i: int)
    requires
        0 <= i < split_on(options, ';').len(),
    ensures
        ({
            let opts = split_on(options, ';');
            let r = ping_options_applied(default_ping_options(), opts);
            &&& (bool_option_value(opts[i], "stoponloss"@) is Some && forall|j: int|
                i < j < opts.len() ==> bool_option_value(#[trigger] opts[j], "stoponloss"@) is None)
                ==> r.stop_on_loss == bool_option_value(opts[i], "stoponloss"@)->0
            &&& (forall|j: int| 0 <= j < opts.len() ==> bool_option_value(#[trigger] opts[j], "stoponloss"@)
                is None) ==> !r.stop_on_loss
        }),
{
    let opts = split_on(options, ';');
    let d = default_ping_options();
    if bool_option_value(opts[i], "stoponloss"@) is Some && forall|j: int|
        i < j < opts.len() ==> bool_option_value(#[trigger] opts[j], "stoponloss"@) is None {
        lemma_stop_last(d, opts, i);
    }
    if forall|j: int| 0 <= j < opts.len() ==> bool_option_value(#[trigger] opts[j], "stoponloss"@) is None {
        lemma_stop_kept(d, opts);
    }
}

/// Each ping option sets its own setting, whatever options stand before or
/// after it: the interval read from an option string (`;`-separated
/// `key=value` options) is the value of its last `interval` option whose
/// value reads as an `i64`, 1000 when there is none; the count likewise is
/// that of its last `count` option, -1 when there is none.
pub proof fn ping_settings_follow_their_last_option(options: Seq<char>, i: int, k: int)
    requires
        0 <= i < split_on(options, ';').len(),
        0 <= k < split_on(options, ';').len(),
    ensures
        ({
            let opts = split_on(options, ';');
            let r = ping_options_applied(default_ping_options(), opts);
            &&& (i64_option_value(opts[i], "interval"@) is Some && forall|j: int|
                i < j < opts.len() ==> i64_option_value(#[trigger] opts[j], "interval"@) is None)
                ==> r.interval == i64_option_value(opts[i], "interval"@)->0
            &&& (forall|j: int| 0 <= j < opts.len() ==> i64_option_value(#[trigger] opts[j], "interval"@)
                is None) ==> r.interval == 1000
            &&& (i64_option_value(opts[k], "count"@) is Some && forall|j: int|
                k < j < opts.len() ==> i64_option_value(#[trigger] opts[j], "count"@) is None)
                ==> r.count == i64_option_value(opts[k], "count"@)->0
            &&& (forall|j: int| 0 <= j < opts.len() ==> i64_option_value(#[trigger] opts[j], "count"@)
                is None) ==> r.count == -1
        }),
{
    let opts = split_on(options, ';');
    let d = default_ping_options();
    if i64_option_value(opts[i], "interval"@) is Some && forall|j: int|
        i < j < opts.len() ==> i64_option_value(#[trigger] opts[j], "interval"@) is None {
        lemma_interval_last(d, opts, i);
    }
    if forall|j: int| 0 <= j < opts.len() ==> i64_option_value(#[trigger] opts[j], "interval"@) is None {
        lemma_interval_kept(d, opts);
    }
    if i64_option_value(opts[k], "count"@) is Some && forall|j: int|
        k < j < opts.len() ==> i64_option_value(#[trigger] opts[j], "count"@) is None {
        lemma_count_last(d, opts, k);
    }
    if forall|j: int| 0 <= j < opts.len() ==> i64_option_value(#[trigger] opts[j], "count"@) is None {
        lemma_count_kept(d, opts);
    }
}

// ---------------------------------------------------------------------------
// The end of a scan range
// ---------------------------------------------------------------------------

/// A typed end from 0 to 255 replaces the last part of a four-part start
/// address: the end address is the start's first three parts and the end,
/// joined by dots.
pub proof fn scan_end_completes_the_start(start_ip: Seq<char>, end_suffix: Seq<char>)
    requires
        split_on(start_ip, '.').len() == 4,
        parse_in_range(end_suffix, false, 0, 255) is Some,
    ensures
        ({
            let parts = split_on(start_ip, '.');
            scan_end_address(start_ip, end_suffix) == parts[0] + seq!['.'] + parts[1] + seq!['.']
                + parts[2] + seq!['.'] + end_suffix
        }),
{
}

} // verus!
