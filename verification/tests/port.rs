use two_wee_terminal::port::{decimal_string, listen_addr, listen_port, parse_u16, DEFAULT_PORT};

#[test]
fn parse_plain_port() {
    assert_eq!(parse_u16("7681"), Some(7681));
    assert_eq!(parse_u16("0"), Some(0));
    assert_eq!(parse_u16("65535"), Some(65535));
}

#[test]
fn parse_port_with_plus_and_leading_zeros() {
    assert_eq!(parse_u16("+80"), Some(80));
    assert_eq!(parse_u16("00080"), Some(80));
    assert_eq!(parse_u16("+0000"), Some(0));
}

#[test]
fn parse_port_rejects_malformed() {
    assert_eq!(parse_u16(""), None);
    assert_eq!(parse_u16("+"), None);
    assert_eq!(parse_u16("-1"), None);
    assert_eq!(parse_u16("-0"), None);
    assert_eq!(parse_u16(" 80"), None);
    assert_eq!(parse_u16("80 "), None);
    assert_eq!(parse_u16("8a"), None);
    assert_eq!(parse_u16("++80"), None);
    assert_eq!(parse_u16("٣"), None);
}

#[test]
fn parse_port_rejects_out_of_range() {
    assert_eq!(parse_u16("65536"), None);
    assert_eq!(parse_u16("99999999999999999999"), None);
    assert_eq!(parse_u16("70000x"), None);
}

#[test]
fn parse_agrees_with_std() {
    for s in ["", "+", "1", "+1", "65535", "65536", "-5", "007", "1e3", "12 ", "+-1", "0x10"] {
        assert_eq!(parse_u16(s), s.parse::<u16>().ok(), "input {:?}", s);
    }
}

#[test]
fn listen_port_defaults() {
    assert_eq!(DEFAULT_PORT, 7681);
    assert_eq!(listen_port(None), 7681);
    assert_eq!(listen_port(Some("not a port".to_string())), 7681);
    assert_eq!(listen_port(Some("".to_string())), 7681);
    assert_eq!(listen_port(Some("70000".to_string())), 7681);
    assert_eq!(listen_port(Some("8080".to_string())), 8080);
}

#[test]
fn decimal_rendering() {
    assert_eq!(decimal_string(0), "0");
    assert_eq!(decimal_string(7), "7");
    assert_eq!(decimal_string(10), "10");
    assert_eq!(decimal_string(7681), "7681");
    assert_eq!(decimal_string(65535), "65535");
}

#[test]
fn port_roundtrip_all_values() {
    for p in 0..=u16::MAX {
        let text = decimal_string(p);
        assert_eq!(text, p.to_string());
        assert_eq!(parse_u16(&text), Some(p));
    }
}

#[test]
fn bind_address() {
    assert_eq!(listen_addr(7681), "0.0.0.0:7681");
    assert_eq!(listen_addr(0), "0.0.0.0:0");
    assert_eq!(listen_addr(443), "0.0.0.0:443");
}
