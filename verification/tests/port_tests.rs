use hello_service::port::{bind_addr, format_port, parse_port, resolve_port, DEFAULT_PORT};

#[test]
fn default_when_unset() {
    assert_eq!(resolve_port(None), 8080);
    assert_eq!(DEFAULT_PORT, 8080);
}

#[test]
fn exact_port_when_valid() {
    assert_eq!(resolve_port(Some("1")), 1);
    assert_eq!(resolve_port(Some("80")), 80);
    assert_eq!(resolve_port(Some("3000")), 3000);
    assert_eq!(resolve_port(Some("8080")), 8080);
    assert_eq!(resolve_port(Some("65535")), 65535);
}

#[test]
fn leading_zeros_keep_the_value() {
    assert_eq!(resolve_port(Some("007")), 7);
    assert_eq!(resolve_port(Some("08080")), 8080);
}

#[test]
fn default_when_malformed() {
    assert_eq!(resolve_port(Some("")), 8080);
    assert_eq!(resolve_port(Some("abc")), 8080);
    assert_eq!(resolve_port(Some("80a")), 8080);
    assert_eq!(resolve_port(Some(" 80")), 8080);
    assert_eq!(resolve_port(Some("80 ")), 8080);
    assert_eq!(resolve_port(Some("+80")), 8080);
    assert_eq!(resolve_port(Some("-80")), 8080);
    assert_eq!(resolve_port(Some("8_080")), 8080);
}

#[test]
fn default_when_out_of_range() {
    assert_eq!(resolve_port(Some("0")), 8080);
    assert_eq!(resolve_port(Some("65536")), 8080);
    assert_eq!(resolve_port(Some("100000")), 8080);
    assert_eq!(resolve_port(Some("99999999999999999999")), 8080);
}

#[test]
fn parse_port_matches_resolve() {
    assert_eq!(parse_port("443"), 443);
    assert_eq!(parse_port("not a number"), 8080);
}

#[test]
fn format_port_decimal() {
    assert_eq!(format_port(0), "0");
    assert_eq!(format_port(7), "7");
    assert_eq!(format_port(80), "80");
    assert_eq!(format_port(443), "443");
    assert_eq!(format_port(8080), "8080");
    assert_eq!(format_port(65535), "65535");
    assert_eq!(format_port(10000), "10000");
}

#[test]
fn format_then_parse_round_trip() {
    let samples: [u16; 8] = [1, 9, 10, 99, 100, 8080, 10000, 65535];
    for &p in samples.iter() {
        assert_eq!(parse_port(&format_port(p)), p);
    }
}

#[test]
fn bind_addr_is_wildcard_host_and_port() {
    assert_eq!(bind_addr(8080), "0.0.0.0:8080");
    assert_eq!(bind_addr(1), "0.0.0.0:1");
    assert_eq!(bind_addr(65535), "0.0.0.0:65535");
}
