use mosquitto_client::decimal::{push_decimal, push_signed_decimal};
use mosquitto_client::{MosqMessage, TopicMatcher, Version};

fn message(topic: &[u8], payload: &[u8], qos: i32, retain: u8) -> MosqMessage {
    MosqMessage::new(3, topic.to_vec(), payload.to_vec(), qos, retain)
}

#[test]
fn message_reads_topic_and_payload() {
    let m = message(b"bilbo/baggins", b"hello dolly", 1, 0);
    assert_eq!(m.topic(), "bilbo/baggins");
    assert_eq!(m.payload(), b"hello dolly");
    assert_eq!(m.text(), "hello dolly");
    assert_eq!(m.qos(), 1);
    assert!(!m.retained());
    assert_eq!(m.topic_bytes(), b"bilbo/baggins");
    assert!(m.has_text_topic());
    assert!(m.has_text_payload());
}

#[test]
fn message_text_keeps_multibyte_characters() {
    let m = message("caf\u{e9}/\u{1F600}".as_bytes(), "gr\u{fc}\u{df}e".as_bytes(), 0, 0);
    assert_eq!(m.topic(), "caf\u{e9}/\u{1F600}");
    assert_eq!(m.text(), "gr\u{fc}\u{df}e");
}

#[test]
fn binary_payload_is_not_text() {
    let m = message(b"raw", &[0xff, 0xfe, 0x00], 2, 1);
    assert!(!m.has_text_payload());
    assert_eq!(m.payload(), &[0xff, 0xfe, 0x00]);
}

#[test]
fn retained_flag_is_any_nonzero_byte() {
    assert!(message(b"t", b"", 0, 1).retained());
    assert!(message(b"t", b"", 0, 200).retained());
    assert!(!message(b"t", b"", 0, 0).retained());
}

#[test]
fn negative_qos_reads_as_unsigned() {
    assert_eq!(message(b"t", b"", -1, 0).qos(), u32::MAX);
}

#[test]
fn message_description_lists_fields() {
    let m = message(b"bilbo/baggins", b"hello dolly", 1, 0);
    assert_eq!(m.describe(), "bilbo/baggins: mid 3 len 11 qos 1 retain 0");
    let n = MosqMessage::new(-12, b"a".to_vec(), Vec::new(), 2, 1);
    assert_eq!(n.describe(), "a: mid -12 len 0 qos 2 retain 1");
}

#[test]
fn cloned_message_reads_the_same() {
    let m = message(b"frodo/ring", b"precious", 2, 1);
    let c = m.clone();
    assert_eq!(c.topic(), "frodo/ring");
    assert_eq!(c.payload(), b"precious");
    assert_eq!(c.describe(), m.describe());
}

#[test]
fn topic_matcher_keeps_subscription() {
    let t = TopicMatcher::new("bilbo/#".to_string(), 7);
    assert_eq!(t.subscription(), "bilbo/#");
    assert_eq!(t.mid, 7);
    assert_eq!(t.mid(), 7);
}

#[test]
fn version_text_is_major_minor_revision() {
    assert_eq!(Version::from_raw(1, 6, 9).to_string(), "1.6.9");
    assert_eq!(Version::from_raw(2, 0, 18).to_string(), "2.0.18");
    assert_eq!(Version::from_raw(-1, 0, 0).to_string(), "4294967295.0.0");
}

#[test]
fn decimal_rendering() {
    let mut s = String::from("n=");
    push_decimal(&mut s, 0);
    assert_eq!(s, "n=0");
    let mut s = String::new();
    push_decimal(&mut s, u64::MAX);
    assert_eq!(s, "18446744073709551615");
    let mut s = String::new();
    push_signed_decimal(&mut s, i64::MIN);
    assert_eq!(s, "-9223372036854775808");
    let mut s = String::new();
    push_signed_decimal(&mut s, 1020);
    assert_eq!(s, "1020");
}
