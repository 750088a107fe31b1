use rusty_vban::ip::{parse_ipv4, IpV4};

#[test]
fn canonical_addresses_parse() {
    assert_eq!(parse_ipv4(b"127.0.0.1"), Some(IpV4 { a: 127, b: 0, c: 0, d: 1 }));
    assert_eq!(parse_ipv4(b"0.0.0.0"), Some(IpV4 { a: 0, b: 0, c: 0, d: 0 }));
    assert_eq!(
        parse_ipv4(b"255.255.255.255"),
        Some(IpV4 { a: 255, b: 255, c: 255, d: 255 })
    );
    assert_eq!(parse_ipv4(b"192.168.10.254"), Some(IpV4 { a: 192, b: 168, c: 10, d: 254 }));
    assert_eq!(parse_ipv4(b"9.99.100.199"), Some(IpV4 { a: 9, b: 99, c: 100, d: 199 }));
}

#[test]
fn out_of_range_octets_are_rejected() {
    assert_eq!(parse_ipv4(b"256.1.1.1"), None);
    assert_eq!(parse_ipv4(b"1.1.1.999"), None);
    assert_eq!(parse_ipv4(b"300.300.300.300"), None);
}

#[test]
fn wrong_shapes_are_rejected() {
    assert_eq!(parse_ipv4(b""), None);
    assert_eq!(parse_ipv4(b"1.2.3"), None);
    assert_eq!(parse_ipv4(b"1.2.3.4.5"), None);
    assert_eq!(parse_ipv4(b"1..2.3"), None);
    assert_eq!(parse_ipv4(b"1.2.3."), None);
    assert_eq!(parse_ipv4(b".1.2.3"), None);
    assert_eq!(parse_ipv4(b"a.b.c.d"), None);
    assert_eq!(parse_ipv4(b"1.2.3.4 "), None);
    assert_eq!(parse_ipv4(b" 1.2.3.4"), None);
    assert_eq!(parse_ipv4(b"1.2.3.4x"), None);
    assert_eq!(parse_ipv4(b"1234.5.6.7"), None);
}

#[test]
fn leading_zeros_are_rejected() {
    assert_eq!(parse_ipv4(b"01.2.3.4"), None);
    assert_eq!(parse_ipv4(b"1.02.3.4"), None);
    assert_eq!(parse_ipv4(b"1.2.3.004"), None);
    assert_eq!(parse_ipv4(b"00.0.0.0"), None);
}
