use failure_kit::ssrf::{first_blocked_ip, is_blocked_ip, IpAddr, Ipv4Addr, Ipv6Addr};

fn v4(a: u8, b: u8, c: u8, d: u8) -> IpAddr {
    IpAddr::V4(Ipv4Addr { octets: [a, b, c, d] })
}

fn v6(segments: [u16; 8]) -> IpAddr {
    IpAddr::V6(Ipv6Addr { segments })
}

#[test]
fn blocks_rfc1918_ranges() {
    assert!(is_blocked_ip(&v4(10, 0, 0, 1)));
    assert!(is_blocked_ip(&v4(172, 16, 0, 1)));
    assert!(is_blocked_ip(&v4(192, 168, 0, 1)));
    assert!(!is_blocked_ip(&v4(172, 15, 0, 1)));
}

#[test]
fn blocks_link_local_and_metadata() {
    assert!(is_blocked_ip(&v4(169, 254, 169, 254)));
}

#[test]
fn allows_loopback_and_public() {
    assert!(!is_blocked_ip(&v4(127, 0, 0, 1)));
    assert!(!is_blocked_ip(&v4(8, 8, 8, 8)));
}

#[test]
fn first_blocked_resolved_ip_flags_private_literal() {
    let blocked = first_blocked_ip(&vec![v4(10, 0, 0, 5)]);
    assert_eq!(blocked, Some(v4(10, 0, 0, 5)));
}

#[test]
fn first_blocked_resolved_ip_allows_public_literal() {
    let blocked = first_blocked_ip(&vec![v4(1, 1, 1, 1)]);
    assert_eq!(blocked, None);
}

#[test]
fn range_edges() {
    assert!(is_blocked_ip(&v4(172, 31, 255, 255)));
    assert!(!is_blocked_ip(&v4(172, 32, 0, 0)));
    assert!(is_blocked_ip(&v4(100, 64, 0, 0)));
    assert!(is_blocked_ip(&v4(100, 127, 255, 255)));
    assert!(!is_blocked_ip(&v4(100, 128, 0, 0)));
    assert!(is_blocked_ip(&v4(0, 0, 0, 0)));
    assert!(!is_blocked_ip(&v4(0, 0, 0, 1)));
    assert!(!is_blocked_ip(&v4(127, 255, 255, 255)));
}

#[test]
fn ipv6_ranges() {
    assert!(!is_blocked_ip(&v6([0, 0, 0, 0, 0, 0, 0, 1])));
    assert!(is_blocked_ip(&v6([0; 8])));
    assert!(is_blocked_ip(&v6([0xfe80, 0, 0, 0, 0, 0, 0, 1])));
    assert!(is_blocked_ip(&v6([0xfebf, 0, 0, 0, 0, 0, 0, 1])));
    assert!(!is_blocked_ip(&v6([0xfec0, 0, 0, 0, 0, 0, 0, 1])));
    assert!(is_blocked_ip(&v6([0xfc00, 0, 0, 0, 0, 0, 0, 1])));
    assert!(is_blocked_ip(&v6([0xfdff, 0, 0, 0, 0, 0, 0, 1])));
    assert!(!is_blocked_ip(&v6([0x2001, 0x4860, 0, 0, 0, 0, 0, 0x8888])));
}

#[test]
fn ipv4_mapped_ipv6_is_judged_as_ipv4() {
    // ::ffff:10.0.0.1 and ::ffff:169.254.169.254 are blocked, ::ffff:8.8.8.8 is not.
    assert!(is_blocked_ip(&v6([0, 0, 0, 0, 0, 0xffff, 0x0a00, 0x0001])));
    assert!(is_blocked_ip(&v6([0, 0, 0, 0, 0, 0xffff, 0xa9fe, 0xa9fe])));
    assert!(!is_blocked_ip(&v6([0, 0, 0, 0, 0, 0xffff, 0x0808, 0x0808])));
    assert!(!is_blocked_ip(&v6([0, 0, 0, 0, 0, 0xffff, 0x7f00, 0x0001])));
}

#[test]
fn first_blocked_is_the_first_in_order() {
    let addrs = vec![v4(8, 8, 8, 8), v4(192, 168, 1, 1), v4(10, 0, 0, 1)];
    assert_eq!(first_blocked_ip(&addrs), Some(v4(192, 168, 1, 1)));
    assert_eq!(first_blocked_ip(&Vec::new()), None);
}
