use connectivity::ipv4::{default_gateway_text, parse_ipv4, Ipv4, AP_PREFIX_LEN};

#[test]
fn parses_the_default_gateway() {
    assert_eq!(
        parse_ipv4(default_gateway_text()),
        Some(Ipv4 { a: 192, b: 168, c: 2, d: 1 })
    );
    assert_eq!(AP_PREFIX_LEN, 24);
}

#[test]
fn parses_the_extremes() {
    assert_eq!(parse_ipv4("0.0.0.0"), Some(Ipv4 { a: 0, b: 0, c: 0, d: 0 }));
    assert_eq!(
        parse_ipv4("255.255.255.255"),
        Some(Ipv4 { a: 255, b: 255, c: 255, d: 255 })
    );
}

#[test]
fn rejects_out_of_range_octets() {
    assert_eq!(parse_ipv4("256.1.1.1"), None);
    assert_eq!(parse_ipv4("1.1.1.999"), None);
    assert_eq!(parse_ipv4("1.1.1.1000"), None);
}

#[test]
fn rejects_leading_zeros() {
    assert_eq!(parse_ipv4("01.2.3.4"), None);
    assert_eq!(parse_ipv4("1.2.3.04"), None);
    assert_eq!(parse_ipv4("0.00.3.4"), None);
}

#[test]
fn rejects_wrong_shapes() {
    assert_eq!(parse_ipv4(""), None);
    assert_eq!(parse_ipv4("1.2.3"), None);
    assert_eq!(parse_ipv4("1.2.3.4.5"), None);
    assert_eq!(parse_ipv4("1..2.3"), None);
    assert_eq!(parse_ipv4("1.2.3."), None);
    assert_eq!(parse_ipv4(".1.2.3"), None);
    assert_eq!(parse_ipv4("a.b.c.d"), None);
    assert_eq!(parse_ipv4("1.2.3.4 "), None);
    assert_eq!(parse_ipv4("+1.2.3.4"), None);
}
