use sigma_racer::port::{parse_port, push_decimal};

#[test]
fn reads_port_numbers_as_the_standard_library_does() {
    for text in [
        "0", "7", "80", "0080", "+443", "65535", "65536", "99999999999999999999", "", "+", "++1",
        "-1", "-0", " 80", "80 ", "8_0", "0x50", "\u{664}", "1\n",
    ] {
        assert_eq!(parse_port(text), text.parse::<u16>().ok(), "{text:?}");
    }
}

#[test]
fn every_port_survives_its_numeral() {
    for port in 0..=u16::MAX {
        let mut text = String::new();
        push_decimal(&mut text, port as u32);
        assert_eq!(text, port.to_string());
        assert_eq!(parse_port(&text), Some(port));
    }
}

#[test]
fn numerals_are_appended() {
    let mut text = "n=".to_string();
    push_decimal(&mut text, u32::MAX);
    assert_eq!(text, "n=4294967295");
}
