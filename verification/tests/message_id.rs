use std::collections::hash_map::DefaultHasher;
use std::hash::{Hash, Hasher};

use pchat::message_id::{
    chat_generator_options, decimal_bytes, hash_of_id, message_id_bytes, next_message_id,
    next_message_id_bytes, MessageIdGenerator, BASE_TIME, P2P_CHAT_WORKER_ID, WORKER_ID_BIT_LEN,
};
use pchat::numerals::decimal_string;

#[test]
fn decimal_of_edge_values() {
    assert_eq!(decimal_bytes(0), b"0".to_vec());
    assert_eq!(decimal_bytes(7), b"7".to_vec());
    assert_eq!(decimal_bytes(10), b"10".to_vec());
    assert_eq!(decimal_bytes(1234567890), b"1234567890".to_vec());
    assert_eq!(decimal_bytes(u64::MAX), b"18446744073709551615".to_vec());
}

#[test]
fn message_id_bytes_are_the_decimal_string() {
    for h in [0u64, 9, 99, 100, 4242, u64::MAX - 1] {
        assert_eq!(message_id_bytes(h), h.to_string().into_bytes());
    }
}

#[test]
fn hash_of_id_is_that_of_default_hasher() {
    for id in [0i64, 1, -1, 123456789, i64::MAX] {
        let mut s = DefaultHasher::new();
        id.hash(&mut s);
        assert_eq!(hash_of_id(id), s.finish());
    }
}

#[test]
fn chat_options() {
    assert_eq!(P2P_CHAT_WORKER_ID, 666);
    assert_eq!(WORKER_ID_BIT_LEN, 10);
    assert_eq!(BASE_TIME, 1680529680348);
    let o = chat_generator_options();
    assert_eq!(o.worker_id, 666);
    assert_eq!(o.worker_id_bit_len, 10);
    assert_eq!(o.base_time, 1680529680348);
}

#[test]
fn hash_of_id_feeds_the_id_bytes() {
    for id in [0i64, 5, -7, i64::MIN] {
        let mut s = DefaultHasher::new();
        s.write(&id.to_ne_bytes());
        assert_eq!(hash_of_id(id), s.finish());
    }
    assert_ne!(hash_of_id(1), hash_of_id(2));
}

#[test]
fn longest_message_id_has_twenty_digits() {
    assert_eq!(message_id_bytes(u64::MAX).len(), 20);
    assert_eq!(message_id_bytes(0), b"0".to_vec());
}

#[test]
fn decimal_strings() {
    assert_eq!(decimal_string(0), "0");
    assert_eq!(decimal_string(42), "42");
    assert_eq!(decimal_string(u64::MAX), u64::MAX.to_string());
}

#[test]
fn generator_gives_distinct_increasing_ids() {
    assert!(MessageIdGenerator::init().is_ok());
    let a = MessageIdGenerator::next_id();
    let b = MessageIdGenerator::next_id();
    assert!(a > 0);
    assert!(b > a);
}

#[test]
fn next_message_id_is_a_decimal_hash() {
    let bytes = next_message_id_bytes();
    assert!(!bytes.is_empty());
    assert!(bytes.iter().all(|b| b.is_ascii_digit()));
    assert!(bytes[0] != b'0' || bytes.len() == 1);
    let text = String::from_utf8(bytes).unwrap();
    assert!(text.parse::<u64>().is_ok());
    let id = next_message_id();
    assert!(!id.0.is_empty());
}

#[test]
fn message_id_holds_a_decimal_numeral() {
    let id = next_message_id();
    assert!(id.0.iter().all(|b| b.is_ascii_digit()));
    assert!(id.0[0] != b'0' || id.0.len() == 1);
}

#[test]
fn consecutive_message_ids_differ() {
    let a = next_message_id();
    let b = next_message_id();
    assert_ne!(a, b);
    assert!(a.0.len() <= 20 && b.0.len() <= 20);
}
