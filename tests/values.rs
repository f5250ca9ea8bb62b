use zedis::decode::{display_text, list_items_from_bytes, list_value_from_page, string_value_from_bytes};
use zedis::value::{KeyType, RedisValue, RedisValueData};

#[test]
fn key_type_labels() {
    assert_eq!(KeyType::String.as_str(), "STR");
    assert_eq!(KeyType::List.as_str(), "LIST");
    assert_eq!(KeyType::Hash.as_str(), "HASH");
    assert_eq!(KeyType::PlainSet.as_str(), "SET");
    assert_eq!(KeyType::Zset.as_str(), "ZSET");
    assert_eq!(KeyType::Stream.as_str(), "STRM");
    assert_eq!(KeyType::Vectorset.as_str(), "VEC");
    assert_eq!(KeyType::Unknown.as_str(), "");
}

#[test]
fn key_type_from_store_names() {
    assert_eq!(KeyType::from_name("list"), KeyType::List);
    assert_eq!(KeyType::from_name("set"), KeyType::PlainSet);
    assert_eq!(KeyType::from_name("zset"), KeyType::Zset);
    assert_eq!(KeyType::from_name("hash"), KeyType::Hash);
    assert_eq!(KeyType::from_name("stream"), KeyType::Stream);
    assert_eq!(KeyType::from_name("vectorset"), KeyType::Vectorset);
    assert_eq!(KeyType::from_name("string"), KeyType::String);
    assert_eq!(KeyType::from_name("none"), KeyType::Unknown);
    assert_eq!(KeyType::from_name(""), KeyType::Unknown);
    assert_eq!(KeyType::from_name("LIST"), KeyType::Unknown);
}

fn with_expiry(e: Option<i64>) -> RedisValue {
    RedisValue { key_type: KeyType::String, data: None, expire_at: e, size: 0 }
}

#[test]
fn ttl_at_keeps_sentinels_and_counts_down() {
    assert_eq!(with_expiry(None).ttl_at(100), None);
    assert_eq!(with_expiry(Some(-1)).ttl_at(100), Some(-1));
    assert_eq!(with_expiry(Some(-2)).ttl_at(100), Some(-2));
    assert_eq!(with_expiry(Some(150)).ttl_at(100), Some(50));
    assert_eq!(with_expiry(Some(100)).ttl_at(100), Some(0));
    assert_eq!(with_expiry(Some(90)).ttl_at(100), Some(-2));
    assert_eq!(with_expiry(Some(i64::MAX)).ttl_at(-10), Some(i64::MAX));
}

#[test]
fn ttl_now_of_persistent_key() {
    assert_eq!(with_expiry(Some(-1)).ttl(), Some(-1));
    assert_eq!(with_expiry(None).ttl(), None);
    let far = with_expiry(Some(i64::MAX));
    let left = far.ttl().unwrap();
    assert!(left > 1_000_000_000);
}

#[test]
fn is_expired_only_for_missing_keys() {
    assert!(RedisValue::missing().is_expired());
    assert!(!with_expiry(Some(-1)).is_expired());
    assert!(!with_expiry(None).is_expired());
}

#[test]
fn empty_string_value() {
    let v = string_value_from_bytes(vec![]);
    assert_eq!(v.key_type, KeyType::String);
    assert_eq!(v.size, 0);
    assert_eq!(v.string_value().map(|s| s.as_str()), Some(""));
    assert!(v.bytes_value().is_none());
}

#[test]
fn json_string_value_is_pretty_printed() {
    let v = string_value_from_bytes(b"{\"a\":1,\"b\":[true,null]}".to_vec());
    assert_eq!(v.size, 23);
    let expected = "{\n  \"a\": 1,\n  \"b\": [\n    true,\n    null\n  ]\n}";
    assert_eq!(v.string_value().map(|s| s.as_str()), Some(expected));
}

#[test]
fn plain_text_string_value_is_kept() {
    let v = string_value_from_bytes("héllo world".as_bytes().to_vec());
    assert_eq!(v.size, 12);
    assert_eq!(v.string_value().map(|s| s.as_str()), Some("héllo world"));
}

#[test]
fn invalid_utf8_string_value_is_bytes() {
    let v = string_value_from_bytes(vec![0xff, 0x00, 0x41]);
    assert_eq!(v.size, 3);
    assert!(v.string_value().is_none());
    assert_eq!(v.bytes_value().map(|b| b.clone()), Some(vec![0xff, 0x00, 0x41]));
}

#[test]
fn bytes_are_shown_as_hex_dump() {
    let v = string_value_from_bytes(vec![0xff, 0x00, 0x41]);
    let narrow = display_text(Some(&v), false);
    assert_eq!(narrow, format!("0000:   ff 00 41{}   ..A", "   ".repeat(13)));
    let wide = display_text(Some(&v), true);
    assert_eq!(wide, format!("0000:   ff 00 41{}   ..A", "   ".repeat(29)));
}

#[test]
fn display_of_text_and_nothing() {
    assert_eq!(display_text(None, false), "");
    let v = string_value_from_bytes(b"plain".to_vec());
    assert_eq!(display_text(Some(&v), false), "plain");
    let l = list_value_from_page(3, vec!["a".to_string()]);
    assert_eq!(display_text(Some(&l), true), "");
}

#[test]
fn list_items_decode_lossily() {
    let items = list_items_from_bytes(&vec![b"one".to_vec(), vec![0x61, 0xff, 0x62], vec![]]);
    assert_eq!(items, vec!["one".to_string(), "a\u{FFFD}b".to_string(), String::new()]);
}

#[test]
fn first_list_page_value() {
    let v = list_value_from_page(250, vec!["x".to_string(), "y".to_string()]);
    assert_eq!(v.key_type(), KeyType::List);
    assert_eq!(v.expire_at, None);
    let l = v.list_value().unwrap();
    assert_eq!(l.size, 250);
    assert_eq!(l.values, vec!["x".to_string(), "y".to_string()]);
    assert!(matches!(v.data, Some(RedisValueData::List(_))));
}

#[test]
fn key_type_from_str_and_defaults() {
    assert_eq!(KeyType::from("zset"), KeyType::Zset);
    assert_eq!(KeyType::from("other"), KeyType::Unknown);
    assert_eq!(KeyType::default(), KeyType::Unknown);
    let v = RedisValue::default();
    assert_eq!(v.key_type, KeyType::Unknown);
    assert!(v.data.is_none());
    assert_eq!(v.expire_at, None);
    assert_eq!(v.size, 0);
}

#[test]
fn list_counts() {
    let v = list_value_from_page(7, vec!["a".to_string(), "b".to_string()]);
    assert_eq!(v.list_value().unwrap().get_counts(), (2, 7));
}
