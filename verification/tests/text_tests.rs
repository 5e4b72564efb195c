use pusher_rs::json::{json_string_literal, subscribe_message_text};
use pusher_rs::text::{concat_bytes, parse_unsigned, starts_with, text_eq, u64_to_decimal};
use pusher_rs::text_map::TextMap;

#[test]
fn decimal_text_of_numbers() {
    assert_eq!(u64_to_decimal(0), "0");
    assert_eq!(u64_to_decimal(7), "7");
    assert_eq!(u64_to_decimal(1700000000), "1700000000");
    assert_eq!(u64_to_decimal(u64::MAX), "18446744073709551615");
}

#[test]
fn parse_unsigned_like_from_str() {
    for s in ["0", "12", "+12", "007", "4294967295", "4294967296", "", "+", "-1", " 1", "1a", "١"] {
        let expected: Option<u32> = s.parse().ok();
        assert_eq!(parse_unsigned(s, u32::MAX as u64), expected.map(|v| v as u64), "{}", s);
    }
    assert_eq!(parse_unsigned("18446744073709551615", u64::MAX), Some(u64::MAX));
    assert_eq!(parse_unsigned("18446744073709551616", u64::MAX), None);
}

#[test]
fn decimal_roundtrip_on_values() {
    for n in [0u64, 9, 10, 99, 100, 123456789, u64::MAX] {
        assert_eq!(parse_unsigned(&u64_to_decimal(n), u64::MAX), Some(n));
    }
}

#[test]
fn text_helpers() {
    assert!(text_eq("abc", "abc"));
    assert!(!text_eq("abc", "abd"));
    assert!(starts_with("private-x", "private-"));
    assert!(!starts_with("priv", "private-"));
    assert!(starts_with("x", ""));
    assert_eq!(concat_bytes(b"ab", b"cd"), b"abcd".to_vec());
}

#[test]
fn json_string_literal_matches_serde_json() {
    for s in ["plain", "quote\" backslash\\", "tab\tnl\ncr\r", "\u{1}\u{1f}", "ünï ✓", ""] {
        assert_eq!(json_string_literal(s), serde_json::to_string(s).unwrap());
    }
    assert_eq!(json_string_literal("a\"b"), "\"a\\\"b\"");
}

#[test]
fn messages_match_serialized_objects() {
    let v: serde_json::Value =
        serde_json::from_str(r#"{"event":"pusher:subscribe","data":{"channel":"a\"b"}}"#).unwrap();
    assert_eq!(subscribe_message_text("a\"b"), serde_json::to_string(&v).unwrap());
}

#[test]
fn text_map_operations() {
    let mut m: TextMap<u32> = TextMap::new();
    assert_eq!(m.len(), 0);
    assert_eq!(m.insert("a".to_string(), 1), None);
    assert_eq!(m.insert("b".to_string(), 2), None);
    assert_eq!(m.insert("a".to_string(), 3), Some(1));
    assert_eq!(m.len(), 2);
    assert_eq!(m.get("a"), Some(&3));
    assert!(m.contains_key("b"));
    *m.get_mut("b").unwrap() = 5;
    assert_eq!(m.get("b"), Some(&5));
    let mut keys = m.keys();
    keys.sort();
    assert_eq!(keys, vec!["a", "b"]);
    let mut values: Vec<u32> = m.values().into_iter().copied().collect();
    values.sort();
    assert_eq!(values, vec![3, 5]);
    for v in m.values_mut().iter_mut() {
        *v += 1;
    }
    assert_eq!(m.get("a"), Some(&4));
    assert_eq!(m.remove("a"), Some(4));
    assert_eq!(m.remove("a"), None);
    assert!(!m.contains_key("a"));
    m.clear();
    assert_eq!(m.len(), 0);
    assert!(m.get("b").is_none());
}
