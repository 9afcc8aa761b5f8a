//! SSRF (Server-Side Request Forgery) IP-blocking predicate.
//!
//! Any tool that makes outbound requests on the user's behalf applies the
//! same private/link-local/cloud-metadata blocklist. Loopback stays allowed
//! for local development.
use vstd::prelude::*;

verus! {

/// An IPv4 address, by its four octets (most significant first).
#[derive(Clone, Copy, Debug, PartialEq, Eq)]
pub struct Ipv4Addr {
    pub octets: [u8; 4],
}

/// An IPv6 address, by its eight 16-bit segments (most significant first).
#[derive(Clone, Copy, Debug, PartialEq, Eq)]
pub struct Ipv6Addr {
    pub segments: [u16; 8],
}

/// An IP address of either family.
#[derive(Clone, Copy, Debug, PartialEq, Eq)]
pub enum IpAddr {
    V4(Ipv4Addr),
    V6(Ipv6Addr),
}

/// The IPv4 blocklist: RFC 1918, link-local (cloud metadata), CGNAT and the
/// unspecified address are blocked; loopback (127/8) is allowed.
pub open spec fn v4_blocked(o: Seq<u8>) -> bool {
    if o[0] == 127 {
        false
    } else if o[0] == 10 {
        true
    } else if o[0] == 172 && 16 <= o[1] <= 31 {
        true
    } else if o[0] == 192 && o[1] == 168 {
        true
    } else if o[0] == 169 && o[1] == 254 {
        true
    } else if o[0] == 100 && 64 <= o[1] <= 127 {
        true
    } else {
        o[0] == 0 && o[1] == 0 && o[2] == 0 && o[3] == 0
    }
}

/// `::1`.
pub open spec fn v6_is_loopback(s: Seq<u16>) -> bool {
    &&& s[0] == 0 && s[1] == 0 && s[2] == 0 && s[3] == 0
    &&& s[4] == 0 && s[5] == 0 && s[6] == 0 && s[7] == 1
}

/// `::`.
pub open spec fn v6_is_unspecified(s: Seq<u16>) -> bool {
    &&& s[0] == 0 && s[1] == 0 && s[2] == 0 && s[3] == 0
    &&& s[4] == 0 && s[5] == 0 && s[6] == 0 && s[7] == 0
}

/// `::ffff:a.b.c.d`, an IPv4-mapped IPv6 address.
pub open spec fn v6_is_v4_mapped(s: Seq<u16>) -> bool {
    &&& s[0] == 0 && s[1] == 0 && s[2] == 0 && s[3] == 0
    &&& s[4] == 0 && s[5] == 0xffff
}

/// The IPv4 address carried by an IPv4-mapped IPv6 address.
pub open spec fn v6_mapped_octets(s: Seq<u16>) -> Seq<u8> {
    seq![(s[6] / 256) as u8, (s[6] % 256) as u8, (s[7] / 256) as u8, (s[7] % 256) as u8]
}

/// The IPv6 blocklist: `::` is blocked, `::1` allowed, IPv4-mapped
/// addresses are judged as the IPv4 address they carry, and link-local
/// (fe80::/10) and unique-local (fc00::/7) unicast are blocked.
pub open spec fn v6_blocked(s: Seq<u16>) -> bool {
    if v6_is_loopback(s) {
        false
    } else if v6_is_unspecified(s) {
        true
    } else if v6_is_v4_mapped(s) {
        v4_blocked(v6_mapped_octets(s))
    } else {
        (0xfe80 <= s[0] <= 0xfebf) || (0xfc00 <= s[0] <= 0xfdff)
    }
}

pub open spec fn spec_is_blocked_ip(ip: IpAddr) -> bool {
    match ip {
        IpAddr::V4(v4) => v4_blocked(v4.octets@),
        IpAddr::V6(v6) => v6_blocked(v6.segments@),
    }
}

fn is_blocked_v4(octets: &[u8; 4]) -> (blocked: bool)
    ensures
        blocked == v4_blocked(octets@),
{
    let a = octets[0];
    let b = octets[1];
    if a == 127 {
        return false;
    }
    if a == 10 {
        return true;
    }
    if a == 172 && 16 <= b && b <= 31 {
        return true;
    }
    if a == 192 && b == 168 {
        return true;
    }
    if a == 169 && b == 254 {
        return true;
    }
    if a == 100 && 64 <= b && b <= 127 {
        return true;
    }
    a == 0 && b == 0 && octets[2] == 0 && octets[3] == 0
}

/// Returns `true` if an IP address is in a private, link-local, or cloud
/// metadata range that should be blocked to prevent SSRF attacks.
pub fn is_blocked_ip(ip: &IpAddr) -> (blocked: bool)
    ensures
        blocked == spec_is_blocked_ip(*ip),
{
    match ip {
        IpAddr::V4(v4) => is_blocked_v4(&v4.octets),
        IpAddr::V6(v6) => {
            let s = &v6.segments;
            let zero_prefix = s[0] == 0 && s[1] == 0 && s[2] == 0 && s[3] == 0 && s[4] == 0;
            if zero_prefix && s[5] == 0 && s[6] == 0 && s[7] == 1 {
                return false;
            }
            if zero_prefix && s[5] == 0 && s[6] == 0 && s[7] == 0 {
                return true;
            }
            if zero_prefix && s[5] == 0xffff {
                let mapped: [u8; 4] = [
                    (s[6] / 256) as u8,
                    (s[6] % 256) as u8,
                    (s[7] / 256) as u8,
                    (s[7] % 256) as u8,
                ];
                proof {
                    assert(mapped@ =~= v6_mapped_octets(s@));
                }
                return is_blocked_v4(&mapped);
            }
            let first = s[0];
            let link_local = first & 0xffc0 == 0xfe80;
            let unique_local = first & 0xfe00 == 0xfc00;
            proof {
                assert((first & 0xffc0 == 0xfe80) <==> (0xfe80 <= first <= 0xfebf)) by (bit_vector);
                assert((first & 0xfe00 == 0xfc00) <==> (0xfc00 <= first <= 0xfdff)) by (bit_vector);
            }
            link_local || unique_local
        },
    }
}

/// The first address of `addrs`, in order, that [`is_blocked_ip`] rejects;
/// `None` means every address is safe to connect to.
pub fn first_blocked_ip(addrs: &Vec<IpAddr>) -> (found: Option<IpAddr>)
    ensures
        match found {
            None => forall|i: int| 0 <= i < addrs@.len() ==> !spec_is_blocked_ip(#[trigger] addrs@[i]),
            Some(ip) => exists|i: int|
                0 <= i < addrs@.len() && addrs@[i] == ip && spec_is_blocked_ip(ip) && forall|j: int|
                    0 <= j < i ==> !spec_is_blocked_ip(#[trigger] addrs@[j]),
        },
{
    let mut i: usize = 0;
    while i < addrs.len()
        invariant
            i <= addrs@.len(),
            forall|j: int| 0 <= j < i ==> !spec_is_blocked_ip(#[trigger] addrs@[j]),
        decreases addrs@.len() - i,
    {
        if is_blocked_ip(&addrs[i]) {
            return Some(addrs[i]);
        }
        i = i + 1;
    }
    None
}

} // verus!

verus! {

/// The IPv6 address `::ffff:a.b.c.d` that carries the IPv4 address `a.b.c.d`.
pub open spec fn v4_mapped_segments(o: Seq<u8>) -> Seq<u16> {
    seq![0u16, 0u16, 0u16, 0u16, 0u16, 0xffffu16, (o[0] * 256 + o[1]) as u16, (o[2] * 256 + o[3]) as u16]
}

/// An IPv4-mapped IPv6 address is blocked exactly when the IPv4 address it
/// carries is blocked.
pub proof fn lemma_v4_mapped_judged_as_v4(v4: Ipv4Addr, v6: Ipv6Addr)
    requires
        v6.segments@ == v4_mapped_segments(v4.octets@),
    ensures
        spec_is_blocked_ip(IpAddr::V6(v6)) == spec_is_blocked_ip(IpAddr::V4(v4)),
{
    let o = v4.octets@;
    let s = v6.segments@;
    assert(s[6] == o[0] * 256 + o[1]);
    assert(s[7] == o[2] * 256 + o[3]);
    assert((o[0] * 256 + o[1]) / 256 == o[0] && (o[0] * 256 + o[1]) % 256 == o[1]) by (nonlinear_arith)
        requires 0 <= o[0] < 256, 0 <= o[1] < 256;
    assert((o[2] * 256 + o[3]) / 256 == o[2] && (o[2] * 256 + o[3]) % 256 == o[3]) by (nonlinear_arith)
        requires 0 <= o[2] < 256, 0 <= o[3] < 256;
    assert(v6_mapped_octets(s) =~= o);
}

/// Loopback is allowed for local development, in either family: every
/// 127.0.0.0/8 address and `::1` pass the filter.
pub proof fn lemma_loopback_allowed(v4: Ipv4Addr, v6: Ipv6Addr)
    requires
        v4.octets@[0] == 127,
        v6_is_loopback(v6.segments@),
    ensures
        !spec_is_blocked_ip(IpAddr::V4(v4)),
        !spec_is_blocked_ip(IpAddr::V6(v6)),
{
}

/// The private (RFC 1918), link-local/metadata (169.254/16), CGNAT
/// (100.64/10) and unspecified IPv4 ranges are all blocked.
pub proof fn lemma_private_v4_ranges_blocked(v4: Ipv4Addr)
    requires
        ({
            let o = v4.octets@;
            ||| o[0] == 10
            ||| o[0] == 172 && 16 <= o[1] <= 31
            ||| o[0] == 192 && o[1] == 168
            ||| o[0] == 169 && o[1] == 254
            ||| o[0] == 100 && 64 <= o[1] <= 127
            ||| o[0] == 0 && o[1] == 0 && o[2] == 0 && o[3] == 0
        }),
    ensures
        spec_is_blocked_ip(IpAddr::V4(v4)),
{
}

/// Link-local (fe80::/10) and unique-local (fc00::/7) IPv6 unicast
/// addresses are blocked, and so is `::`.
pub proof fn lemma_private_v6_ranges_blocked(v6: Ipv6Addr)
    requires
        ({
            let s = v6.segments@;
            ||| 0xfe80 <= s[0] <= 0xfebf
            ||| 0xfc00 <= s[0] <= 0xfdff
            ||| v6_is_unspecified(s)
        }),
    ensures
        spec_is_blocked_ip(IpAddr::V6(v6)),
{
}

/// The IPv4 blocklist is exactly the private ranges: an IPv4 address is
/// blocked if and only if it lies in 10.0.0.0/8, 172.16.0.0/12,
/// 192.168.0.0/16, 169.254.0.0/16, 100.64.0.0/10 or is 0.0.0.0. Every
/// other address, public ones such as 192.30.255.112 among them, passes.
pub proof fn law_v4_blocklist_is_exact(v4: Ipv4Addr)
    ensures
        spec_is_blocked_ip(IpAddr::V4(v4)) <==> ({
            let o = v4.octets@;
            let a = o[0] as int;
            let b = o[1] as int;
            ||| a == 10
            ||| a == 172 && 16 <= b < 32
            ||| a == 192 && b == 168
            ||| a == 169 && b == 254
            ||| a == 100 && 64 <= b < 128
            ||| a == 0 && b == 0 && o[2] == 0 && o[3] == 0
        }),
        v4.octets@[0] == 192 && v4.octets@[1] != 168 ==> !spec_is_blocked_ip(IpAddr::V4(v4)),
        v4.octets@[0] == 172 && !(16 <= v4.octets@[1] < 32) ==> !spec_is_blocked_ip(IpAddr::V4(v4)),
{
}

/// The IPv6 blocklist is exactly `::`, the IPv4-mapped addresses whose
/// IPv4 address is blocked, fe80::/10 and fc00::/7; `::1` and every other
/// address pass.
pub proof fn law_v6_blocklist_is_exact(v6: Ipv6Addr)
    ensures
        spec_is_blocked_ip(IpAddr::V6(v6)) <==> ({
            let s = v6.segments@;
            let zero5 = s[0] == 0 && s[1] == 0 && s[2] == 0 && s[3] == 0 && s[4] == 0;
            ||| zero5 && s[5] == 0 && s[6] == 0 && s[7] == 0
            ||| zero5 && s[5] == 0xffff && v4_blocked(
                seq![(s[6] / 256) as u8, (s[6] % 256) as u8, (s[7] / 256) as u8, (s[7] % 256) as u8],
            )
            ||| 0xfe80 <= s[0] < 0xfec0
            ||| 0xfc00 <= s[0] < 0xfe00
        }),
{
    let s = v6.segments@;
    assert(v6_mapped_octets(s) =~= seq![
        (s[6] / 256) as u8,
        (s[6] % 256) as u8,
        (s[7] / 256) as u8,
        (s[7] % 256) as u8,
    ]);
}

} // verus!
