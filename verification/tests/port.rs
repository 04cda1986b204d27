use meritbadge::port::{get_port, parse_port, DEFAULT_PORT};

#[test]
fn port_defaults_to_8080() {
    assert_eq!(DEFAULT_PORT, 8080);
    assert_eq!(get_port(None), 8080);
}

#[test]
fn port_from_setting() {
    assert_eq!(get_port(Some("3000")), 3000);
    assert_eq!(get_port(Some("80")), 80);
    assert_eq!(get_port(Some("0")), 0);
    assert_eq!(get_port(Some("65535")), 65535);
}

#[test]
fn port_from_unreadable_setting() {
    for setting in ["", "+", "-", "-1", "http", "80a", "a80", " 80", "80 ", "8_0", "0x50", "8.0"] {
        assert_eq!(get_port(Some(setting)), 8080, "{:?}", setting);
    }
}

#[test]
fn port_too_large() {
    assert_eq!(get_port(Some("65536")), 8080);
    assert_eq!(get_port(Some("70000")), 8080);
    assert_eq!(get_port(Some("99999999999999999999999999")), 8080);
}

#[test]
fn parse_port_reads_decimal() {
    assert_eq!(parse_port("8080"), Some(8080));
    assert_eq!(parse_port("+8080"), Some(8080));
    assert_eq!(parse_port("0008080"), Some(8080));
    assert_eq!(parse_port("+0"), Some(0));
    assert_eq!(parse_port("000000000000000000000065535"), Some(65535));
}

#[test]
fn parse_port_refuses_the_rest() {
    assert_eq!(parse_port(""), None);
    assert_eq!(parse_port("+"), None);
    assert_eq!(parse_port("++1"), None);
    assert_eq!(parse_port("1+"), None);
    assert_eq!(parse_port("-0"), None);
    assert_eq!(parse_port("65536"), None);
    assert_eq!(parse_port("655350"), None);
    assert_eq!(parse_port("\u{0661}\u{0662}"), None);
}

#[test]
fn parse_port_reads_as_the_standard_library_does() {
    let texts = [
        "",
        "0",
        "1",
        "+1",
        "-1",
        "+",
        "-",
        "+-1",
        "++1",
        "007",
        "65535",
        "65536",
        "+65535",
        "+65536",
        "4294967296",
        "12a",
        "a12",
        " 12",
        "12 ",
        "1 2",
        "1_2",
        "\u{ff11}\u{ff12}",
        "0x1f",
        "1e3",
        "18446744073709551616",
        "0000000000000000000000001",
    ];
    for text in texts {
        assert_eq!(parse_port(text), u16::from_str_radix(text, 10).ok(), "{:?}", text);
    }
}
