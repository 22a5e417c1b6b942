use capra_rove_interface::packet::{header_hex, MessageType};
use capra_rove_interface::text::{decimal, hex_byte, join, join3, same_text};

#[test]
fn decimal_prints_like_display() {
    for n in [0, 7, 9, 10, 99, 100, 5000, 65535, 4294967296, u64::MAX] {
        assert_eq!(decimal(n), format!("{}", n));
    }
}

#[test]
fn hex_prints_two_upper_case_digits() {
    for byte in 0..=255u8 {
        assert_eq!(hex_byte(byte), format!("{:02X}", byte));
    }
}

#[test]
fn join_puts_parts_in_order() {
    assert_eq!(join("/", "gps"), "/gps");
    assert_eq!(join3("/", "gps", "/info"), "/gps/info");
    assert_eq!(join3("", "é", ""), "é");
}

#[test]
fn same_text_compares_characters() {
    assert!(same_text("f64", "f64"));
    assert!(same_text("", ""));
    assert!(!same_text("f64", "f32"));
    assert!(!same_text("u8", "u16"));
    assert!(!same_text("é", "e"));
    assert!(same_text("né", "né"));
}

#[test]
fn message_codes_are_those_of_the_protocol() {
    let codes: Vec<u8> = [
        MessageType::Subscribe,
        MessageType::Unsubscribe,
        MessageType::Data,
        MessageType::SubscribeAck,
        MessageType::Command,
        MessageType::CommandAck,
        MessageType::StreamStart,
        MessageType::StreamStop,
        MessageType::StreamAck,
    ]
    .into_iter()
    .map(|message| message.code())
    .collect();
    assert_eq!(codes, vec![0x01, 0x02, 0x03, 0x04, 0x10, 0x11, 0x12, 0x13, 0x14]);
}

#[test]
fn header_shows_version_then_code() {
    assert_eq!(header_hex(1, MessageType::Command, " 01 00 + JSON"), "01 10 01 00 + JSON");
    assert_eq!(header_hex(0xAB, MessageType::StreamStop, ""), "AB 13");
}
