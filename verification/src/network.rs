//! Choices made while resolving MAC addresses: which interface reaches an
//! address, how a hardware address is written, and which addresses read from
//! the system are usable.
use vstd::prelude::*;

use crate::text::{chars_of, eq_str, to_string, trim_seq, trim_vec};
use crate::upgrade::hex_digit;

verus! {

/// An IPv4 interface address as the system lists it (addresses and masks in
/// host byte order).
pub struct InterfaceAddr {
    pub name: String,
    pub addr: u32,
    pub mask: u32,
}

/// Whether the interface `i` is on the subnet of `ip` and is not loopback.
pub open spec fn reaches(i: InterfaceAddr, ip: u32) -> bool {
    (i.addr & i.mask) == (ip & i.mask) && i.name@ != "lo"@
}

/// The name of the first interface whose subnet holds `ip`, other than the
/// loopback interface `lo`.
pub fn interface_for_ip(ifaces: &Vec<InterfaceAddr>, ip: u32) -> (r: Option<String>)
    ensures
        match r {
            Some(name) => exists|k: int|
                0 <= k < ifaces.len() && reaches(#[trigger] ifaces@[k], ip) && ifaces@[k].name@
                    == name@ && forall|j: int| 0 <= j < k ==> !reaches(#[trigger] ifaces@[j], ip),
            None => forall|k: int| 0 <= k < ifaces.len() ==> !reaches(#[trigger] ifaces@[k], ip),
        },
{
    let mut i: usize = 0;
    while i < ifaces.len()
        invariant
            i <= ifaces.len(),
            forall|j: int| 0 <= j < i ==> !reaches(#[trigger] ifaces@[j], ip),
        decreases ifaces.len() - i,
    {
        let f = &ifaces[i];
        if (f.addr & f.mask) == (ip & f.mask) && !eq_str(f.name.as_str(), "lo") {
            assert(reaches(ifaces@[i as int], ip));
            return Some(f.name.clone());
        }
        i = i + 1;
    }
    None
}

/// An interface other than `lo` reaches exactly the addresses that agree
/// with its own address on every bit of its own netmask (the bits where the
/// two addresses differ all lie outside the mask), whatever the mask's
/// length; `lo` reaches none.
pub proof fn interface_reach_follows_its_own_mask(i: InterfaceAddr, ip: u32)
    ensures
        reaches(i, ip) <==> (((i.addr ^ ip) & i.mask) == 0 && i.name@ != "lo"@),
{
    let a = i.addr;
    let m = i.mask;
    assert(((a & m) == (ip & m)) <==> (((a ^ ip) & m) == 0)) by (bit_vector);
}

/// A hardware address written as six lowercase hex pairs joined by `:`.
pub open spec fn mac_string(mac: Seq<u8>) -> Seq<char> {
    Seq::new(
        17,
        |i: int|
            if i % 3 == 2 {
                ':'
            } else if i % 3 == 0 {
                hex_digit(mac[i / 3] as int / 16)
            } else {
                hex_digit(mac[i / 3] as int % 16)
            },
    )
}

/// The text of a resolved hardware address; an all-zero address counts as
/// unresolved.
pub fn mac_text(mac: &[u8]) -> (r: Option<String>)
    requires
        mac@.len() == 6,
    ensures
        match r {
            Some(s) => s@ == mac_string(mac@) && exists|k: int| 0 <= k < 6 && mac@[k] != 0,
            None => forall|k: int| 0 <= k < 6 ==> mac@[k] == 0,
        },
{
    let mut any = false;
    let mut k: usize = 0;
    while k < 6
        invariant
            k <= 6,
            mac@.len() == 6,
            any == exists|j: int| 0 <= j < k && mac@[j] != 0,
        decreases 6 - k,
    {
        if mac[k] != 0 {
            any = true;
        }
        k = k + 1;
    }
    if !any {
        return None;
    }
    let mut out: Vec<char> = Vec::new();
    let mut i: usize = 0;
    while i < 6
        invariant
            i <= 6,
            mac@.len() == 6,
            out@.len() == if i == 0 { 0 } else { 3 * i - 1 },
            forall|j: int| 0 <= j < out@.len() ==> #[trigger] out@[j] == mac_string(mac@)[j],
        decreases 6 - i,
    {
        let b = mac[i];
        let ghost before = out@;
        if i > 0 {
            out.push(':');
        }
        out.push(crate::upgrade::hex_char(b / 16));
        out.push(crate::upgrade::hex_char(b % 16));
        assert forall|j: int| 0 <= j < out@.len() implies #[trigger] out@[j] == mac_string(mac@)[j] by {
            if j >= before.len() {
                if i > 0 && j == before.len() {
                    assert(j % 3 == 2);
                } else {
                    assert(j / 3 == i);
                }
            }
        }
        i = i + 1;
    }
    assert(out@ =~= mac_string(mac@));
    Some(to_string(&out))
}

/// A hardware address read from the system, trimmed, when it is set.
pub open spec fn usable_mac_spec(raw: Seq<char>) -> Option<Seq<char>> {
    let t = trim_seq(raw);
    if t.len() > 0 && t != "00:00:00:00:00:00"@ {
        Some(t)
    } else {
        None
    }
}

/// The hardware address read from `/sys/class/net/NAME/address`, unless it
/// is empty or all zeros.
pub fn usable_mac(raw: &str) -> (r: Option<String>)
    ensures
        match r {
            Some(s) => usable_mac_spec(raw@) == Some(s@),
            None => usable_mac_spec(raw@) is None,
        },
{
    let t = to_string(&trim_vec(&chars_of(raw)));
    if !t.as_str().is_empty() && !eq_str(t.as_str(), "00:00:00:00:00:00") {
        Some(t)
    } else {
        None
    }
}

} // verus!
