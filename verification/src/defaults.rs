//! What the tabs show in their fields when they open: the configured value,
//! or the default where the configuration has none (`None` below is a
//! missing configuration key).  Option fields show `key=value` pairs joined
//! by `;`, in the form the tabs read back.
use vstd::prelude::*;

use crate::number::{bool_text, int_decimal, push_bool_text, push_i64_decimal};
use crate::text::{append_vec, chars_of, eq_str, owned, to_string};

verus! {

/// The configured text, or `default` when there is none.
pub open spec fn text_or(configured: Option<&str>, default: Seq<char>) -> Seq<char> {
    match configured {
        Some(t) => t@,
        None => default,
    }
}

fn text_or_default(configured: Option<&str>, default: &str) -> (r: String)
    ensures
        r@ == text_or(configured, default@),
{
    match configured {
        Some(t) => owned(t),
        None => owned(default),
    }
}

/// The ping target field (default `1.1.1.1`).
pub fn ping_target(configured: Option<&str>) -> (r: String)
    ensures
        r@ == text_or(configured, "1.1.1.1"@),
{
    text_or_default(configured, "1.1.1.1")
}

/// `interval=I;count=C;stoponloss=B`.
pub open spec fn ping_options_text(interval: i64, count: i64, stop_on_loss: bool) -> Seq<char> {
    "interval="@ + int_decimal(interval as int) + ";count="@ + int_decimal(count as int)
        + ";stoponloss="@ + bool_text(stop_on_loss)
}

/// The ping options field (defaults: interval 1000 ms, endless count -1,
/// no stop on loss).
pub fn ping_options(interval: Option<i64>, count: Option<i64>, stop_on_loss: Option<bool>) -> (r: String)
    ensures
        r@ == ping_options_text(
            interval.unwrap_or(1000),
            count.unwrap_or(-1i64),
            stop_on_loss.unwrap_or(false),
        ),
{
    let i: i64 = match interval {
        Some(v) => v,
        None => 1000,
    };
    let c: i64 = match count {
        Some(v) => v,
        None => -1,
    };
    let s: bool = match stop_on_loss {
        Some(v) => v,
        None => false,
    };
    let mut v = chars_of("interval=");
    push_i64_decimal(&mut v, i);
    append_vec(&mut v, &chars_of(";count="));
    push_i64_decimal(&mut v, c);
    append_vec(&mut v, &chars_of(";stoponloss="));
    push_bool_text(&mut v, s);
    to_string(&v)
}

/// The scan start address field (default `192.168.1.1`).
pub fn scan_start_ip(configured: Option<&str>) -> (r: String)
    ensures
        r@ == text_or(configured, "192.168.1.1"@),
{
    text_or_default(configured, "192.168.1.1")
}

/// The scan end field (default `254`, the last part of the address).
pub fn scan_end_ip(configured: Option<&str>) -> (r: String)
    ensures
        r@ == text_or(configured, "254"@),
{
    text_or_default(configured, "254")
}

/// The scan options field: `filter=B` (default true).
pub fn scan_options(filter: Option<bool>) -> (r: String)
    ensures
        r@ == "filter="@ + bool_text(filter.unwrap_or(true)),
{
    let f = match filter {
        Some(b) => b,
        None => true,
    };
    let mut v = chars_of("filter=");
    push_bool_text(&mut v, f);
    to_string(&v)
}

/// The HTTP port field (default 8000); a configured number is cut to 16
/// bits.
pub fn http_port(configured: Option<i64>) -> (r: u16)
    ensures
        r == (configured.unwrap_or(8000) as u16),
{
    let p: i64 = match configured {
        Some(v) => v,
        None => 8000,
    };
    #[verifier::truncate]
    (p as u16)
}

/// The HTTP options field: `autoindex=B;videoplay=B;` (both default true).
pub fn http_options(autoindex: Option<bool>, videoplay: Option<bool>) -> (r: String)
    ensures
        r@ == "autoindex="@ + bool_text(autoindex.unwrap_or(true)) + ";videoplay="@ + bool_text(
            videoplay.unwrap_or(true),
        ) + ";"@,
{
    let a = match autoindex {
        Some(b) => b,
        None => true,
    };
    let p = match videoplay {
        Some(b) => b,
        None => true,
    };
    let mut v = chars_of("autoindex=");
    push_bool_text(&mut v, a);
    append_vec(&mut v, &chars_of(";videoplay="));
    push_bool_text(&mut v, p);
    append_vec(&mut v, &chars_of(";"));
    to_string(&v)
}

/// The TFTP server settings shown in its options field.
pub struct TftpdSettings {
    pub timeout: Option<i64>,
    pub retry: Option<i64>,
    pub blksize: Option<i64>,
    pub override_existing: Option<bool>,
    pub qsize: Option<i64>,
    pub qtout: Option<i64>,
    pub fslog: Option<bool>,
}

/// The TFTP server options field (defaults: timeout 200, retry 10, blksize
/// 512, no override, qsize 2000, qtout 1000, no file system log).
pub fn tftpd_options(s: &TftpdSettings) -> (r: String)
    ensures
        r@ == "timeout="@ + int_decimal(s.timeout.unwrap_or(200) as int) + ";retry="@ + int_decimal(
            s.retry.unwrap_or(10) as int,
        ) + ";blksize="@ + int_decimal(s.blksize.unwrap_or(512) as int) + ";override="@ + bool_text(
            s.override_existing.unwrap_or(false),
        ) + ";qsize="@ + int_decimal(s.qsize.unwrap_or(2000) as int) + ";qtout="@ + int_decimal(
            s.qtout.unwrap_or(1000) as int,
        ) + ";fslog="@ + bool_text(s.fslog.unwrap_or(false)) + ";"@,
{
    let mut v = chars_of("timeout=");
    push_i64_decimal(&mut v, match s.timeout { Some(x) => x, None => 200 });
    append_vec(&mut v, &chars_of(";retry="));
    push_i64_decimal(&mut v, match s.retry { Some(x) => x, None => 10 });
    append_vec(&mut v, &chars_of(";blksize="));
    push_i64_decimal(&mut v, match s.blksize { Some(x) => x, None => 512 });
    append_vec(&mut v, &chars_of(";override="));
    push_bool_text(&mut v, match s.override_existing { Some(x) => x, None => false });
    append_vec(&mut v, &chars_of(";qsize="));
    push_i64_decimal(&mut v, match s.qsize { Some(x) => x, None => 2000 });
    append_vec(&mut v, &chars_of(";qtout="));
    push_i64_decimal(&mut v, match s.qtout { Some(x) => x, None => 1000 });
    append_vec(&mut v, &chars_of(";fslog="));
    push_bool_text(&mut v, match s.fslog { Some(x) => x, None => false });
    append_vec(&mut v, &chars_of(";"));
    to_string(&v)
}

/// The TFTP client server field (default `127.0.0.1`).
pub fn tftpc_server(configured: Option<&str>) -> (r: String)
    ensures
        r@ == text_or(configured, "127.0.0.1"@),
{
    text_or_default(configured, "127.0.0.1")
}

/// `timeout=T;retry=R;blksize=B;`.
pub open spec fn tftpc_options_text(timeout: i64, retry: i64, blksize: i64) -> Seq<char> {
    "timeout="@ + int_decimal(timeout as int) + ";retry="@ + int_decimal(retry as int)
        + ";blksize="@ + int_decimal(blksize as int) + ";"@
}

/// The TFTP client options field (defaults: timeout 200, retry 10,
/// blksize 1024).
pub fn tftpc_options(timeout: Option<i64>, retry: Option<i64>, blksize: Option<i64>) -> (r: String)
    ensures
        r@ == tftpc_options_text(
            timeout.unwrap_or(200),
            retry.unwrap_or(10),
            blksize.unwrap_or(1024),
        ),
{
    let mut v = chars_of("timeout=");
    push_i64_decimal(&mut v, match timeout { Some(x) => x, None => 200 });
    append_vec(&mut v, &chars_of(";retry="));
    push_i64_decimal(&mut v, match retry { Some(x) => x, None => 10 });
    append_vec(&mut v, &chars_of(";blksize="));
    push_i64_decimal(&mut v, match blksize { Some(x) => x, None => 1024 });
    append_vec(&mut v, &chars_of(";"));
    to_string(&v)
}

/// The chat user name field (default `User@PC`).
pub fn chat_username(configured: Option<&str>) -> (r: String)
    ensures
        r@ == text_or(configured, "User@PC"@),
{
    text_or_default(configured, "User@PC")
}

/// The chat port field (default 1314); a configured number is cut to 16
/// bits.
pub fn chat_port(configured: Option<i64>) -> (r: u16)
    ensures
        r == (configured.unwrap_or(1314) as u16),
{
    let p: i64 = match configured {
        Some(v) => v,
        None => 1314,
    };
    #[verifier::truncate]
    (p as u16)
}

/// The chat broadcast address field (default `255.255.255.255`).
pub fn chat_broadcast(configured: Option<&str>) -> (r: String)
    ensures
        r@ == text_or(configured, "255.255.255.255"@),
{
    text_or_default(configured, "255.255.255.255")
}

/// The plan options field: `override=B` (default false).
pub fn plan_options(override_conflict: Option<bool>) -> (r: String)
    ensures
        r@ == "override="@ + bool_text(override_conflict.unwrap_or(false)),
{
    let o = match override_conflict {
        Some(b) => b,
        None => false,
    };
    let mut v = chars_of("override=");
    push_bool_text(&mut v, o);
    to_string(&v)
}

/// The unit menu index of the configured plan unit: 0 for minutes, 1 for
/// hours, 2 for days, singular or plural; an unknown unit, or none, is 0.
pub open spec fn plan_unit_index(configured: Option<&str>) -> i32 {
    match configured {
        Some(u) => if u@ == "hours"@ || u@ == "hour"@ {
            1
        } else if u@ == "days"@ || u@ == "day"@ {
            2
        } else {
            0
        },
        None => 0,
    }
}

/// The plan tab's unit menu entry (see `plan_unit_index`).
pub fn plan_unit(configured: Option<&str>) -> (r: i32)
    ensures
        r == plan_unit_index(configured),
{
    match configured {
        Some(u) => {
            if eq_str(u, "hours") || eq_str(u, "hour") {
                1
            } else if eq_str(u, "days") || eq_str(u, "day") {
                2
            } else {
                0
            }
        },
        None => 0,
    }
}

} // verus!
