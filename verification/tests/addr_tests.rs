use stratum_proxy::addr::IpRep;
use stratum_proxy::addr::ResolvedAddr;
use stratum_proxy::addr::format_addr;
use stratum_proxy::addr::format_ip;
use stratum_proxy::addr::parse_ipv4_literal;
use stratum_proxy::text::u16_to_hex;
use stratum_proxy::text::u64_to_dec;

#[test]
fn parses_plain_ipv4_literal() {
    assert_eq!(
        parse_ipv4_literal("203.0.113.5"),
        Some(IpRep::V4 { a: 203, b: 0, c: 113, d: 5 })
    );
}

#[test]
fn parses_extreme_octets() {
    assert_eq!(
        parse_ipv4_literal("0.0.0.0"),
        Some(IpRep::V4 { a: 0, b: 0, c: 0, d: 0 })
    );
    assert_eq!(
        parse_ipv4_literal("255.255.255.255"),
        Some(IpRep::V4 { a: 255, b: 255, c: 255, d: 255 })
    );
}

#[test]
fn rejects_octet_over_255() {
    assert_eq!(parse_ipv4_literal("256.1.1.1"), None);
    assert_eq!(parse_ipv4_literal("1.1.1.999"), None);
}

#[test]
fn rejects_wrong_field_count() {
    assert_eq!(parse_ipv4_literal("1.2.3"), None);
    assert_eq!(parse_ipv4_literal("1.2.3.4.5"), None);
    assert_eq!(parse_ipv4_literal("1234"), None);
    assert_eq!(parse_ipv4_literal(""), None);
}

#[test]
fn rejects_leading_zeros() {
    assert_eq!(parse_ipv4_literal("01.2.3.4"), None);
    assert_eq!(parse_ipv4_literal("1.2.3.04"), None);
}

#[test]
fn rejects_empty_fields_and_nondigits() {
    assert_eq!(parse_ipv4_literal("1..2.3"), None);
    assert_eq!(parse_ipv4_literal(".1.2.3"), None);
    assert_eq!(parse_ipv4_literal("1.2.3."), None);
    assert_eq!(parse_ipv4_literal("a.b.c.d"), None);
    assert_eq!(parse_ipv4_literal("1.2.3.4 "), None);
    assert_eq!(parse_ipv4_literal("example.stratum.test"), None);
}

#[test]
fn rejects_ipv6_literals() {
    assert_eq!(parse_ipv4_literal("::1"), None);
    assert_eq!(parse_ipv4_literal("[::1]"), None);
}

#[test]
fn formats_ipv4_socket_address() {
    let a = ResolvedAddr { ip: IpRep::V4 { a: 127, b: 0, c: 0, d: 1 }, port: 9000 };
    assert_eq!(format_addr(&a), "127.0.0.1:9000");
}

#[test]
fn formats_ipv6_socket_address() {
    let ip = IpRep::V6 { s0: 0x2001, s1: 0xdb8, s2: 0, s3: 0, s4: 0, s5: 0, s6: 0, s7: 0x1f };
    assert_eq!(format_ip(&ip), "[2001:db8:0:0:0:0:0:1f]");
    let a = ResolvedAddr { ip, port: 443 };
    assert_eq!(format_addr(&a), "[2001:db8:0:0:0:0:0:1f]:443");
}

#[test]
fn decimal_rendering_exact() {
    assert_eq!(u64_to_dec(0), "0");
    assert_eq!(u64_to_dec(443), "443");
    assert_eq!(u64_to_dec(u64::MAX), "18446744073709551615");
}

#[test]
fn hex_rendering_exact() {
    assert_eq!(u16_to_hex(0), "0");
    assert_eq!(u16_to_hex(0xbeef), "beef");
    assert_eq!(u16_to_hex(0xffff), "ffff");
}

#[test]
fn parse_format_round_trip() {
    let ip = parse_ipv4_literal("198.51.100.23").unwrap();
    assert_eq!(format_ip(&ip), "198.51.100.23");
}
