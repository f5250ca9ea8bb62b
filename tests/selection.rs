use zedis::decode::{list_value_from_page, string_value_from_bytes};
use zedis::decode::list_items_from_bytes;
use zedis::server::{
    count_digits, finish_value, first_list_request, plan_value, plan_value_now, Error, ValuePlan,
    ZedisServerState,
};
use zedis::value::{KeyType, RedisValue};

fn state_with_keys(keys: &[&str]) -> ZedisServerState {
    let mut s = ZedisServerState::new("local".to_string());
    s.scan(String::new());
    let keys: Vec<String> = keys.iter().map(|k| k.to_string()).collect();
    s.apply_scan_page("local", "", Some((vec![0], keys)));
    s
}

#[test]
fn missing_key_needs_no_value_fetch() {
    match plan_value("string", -2, 1000) {
        ValuePlan::Done(v) => {
            assert_eq!(v.expire_at, Some(-2));
            assert!(v.data.is_none());
            assert_eq!(v.key_type, KeyType::Unknown);
        }
        _ => panic!("a missing key is done at once"),
    }
}

#[test]
fn ttl_sets_expiry() {
    assert!(matches!(plan_value("string", -1, 1000), ValuePlan::FetchString(Some(-1))));
    assert!(matches!(plan_value("string", 5, 1000), ValuePlan::FetchString(Some(1005))));
    assert!(matches!(plan_value("list", 0, 1000), ValuePlan::FetchList(Some(1000))));
    assert!(matches!(plan_value("list", -3, 1000), ValuePlan::FetchList(None)));
    assert!(matches!(plan_value("hash", 5, 1000), ValuePlan::Unsupported));
    assert!(matches!(plan_value("string", i64::MAX, 10), ValuePlan::FetchString(Some(i64::MAX))));
    assert!(matches!(plan_value_now("string", -1), ValuePlan::FetchString(Some(-1))));
    assert!(matches!(plan_value_now("zset", 3), ValuePlan::Unsupported));
}

#[test]
fn select_key_asks_for_value_once() {
    let mut s = state_with_keys(&["a", "b"]);
    assert_eq!(s.select_key("a".to_string()), Some("a".to_string()));
    assert_eq!(s.key.as_deref(), Some("a"));
    assert_eq!(s.select_key("a".to_string()), None);
    assert_eq!(s.select_key(String::new()), None);
    assert_eq!(s.key.as_deref(), Some(""));
}

#[test]
fn reply_for_other_key_is_ignored() {
    let mut s = state_with_keys(&["a", "b"]);
    s.select_key("a".to_string());
    s.select_key("b".to_string());
    s.apply_selected_value("a", Some(string_value_from_bytes(b"old".to_vec())));
    assert!(s.value.is_none());
    s.apply_selected_value("b", Some(string_value_from_bytes(b"new".to_vec())));
    assert_eq!(s.value.as_ref().and_then(|v| v.string_value()).map(|t| t.as_str()), Some("new"));
    s.apply_selected_value("b", None);
    assert!(s.value.is_none());
}

fn page(from: usize, n: usize) -> Vec<String> {
    (from..from + n).map(|i| format!("item{i}")).collect()
}

#[test]
fn list_loads_in_pages_of_one_hundred() {
    let mut s = state_with_keys(&["l"]);
    s.select_key("l".to_string());
    s.apply_selected_value("l", Some(list_value_from_page(250, page(0, 100))));
    let r = s.load_more_list_value().expect("more to load");
    assert_eq!((r.start, r.stop), (100, 199));
    assert_eq!(r.key, "l");
    s.apply_list_page("l", r.start, Some(page(100, 100)));
    let r = s.load_more_list_value().expect("more to load");
    assert_eq!((r.start, r.stop), (200, 299));
    s.apply_list_page("l", r.start, Some(page(200, 50)));
    let l = s.value.as_ref().unwrap().list_value().unwrap();
    assert_eq!(l.values.len(), 250);
    assert_eq!(l.size, 250);
    assert_eq!(l.values[249], "item249");
    assert!(s.load_more_list_value().is_none());
}

#[test]
fn stale_list_page_is_ignored() {
    let mut s = state_with_keys(&["l"]);
    s.select_key("l".to_string());
    s.apply_selected_value("l", Some(list_value_from_page(250, page(0, 100))));
    s.apply_list_page("l", 0, Some(page(0, 100)));
    assert_eq!(s.value.as_ref().unwrap().list_value().unwrap().values.len(), 100);
    s.apply_list_page("l", 100, None);
    assert_eq!(s.value.as_ref().unwrap().list_value().unwrap().values.len(), 100);
}

#[test]
fn no_list_page_without_list() {
    let mut s = state_with_keys(&["a"]);
    assert!(s.load_more_list_value().is_none());
    s.select_key("a".to_string());
    s.apply_selected_value("a", Some(string_value_from_bytes(b"x".to_vec())));
    assert!(s.load_more_list_value().is_none());
}

#[test]
fn delete_removes_exactly_one_key() {
    let mut s = state_with_keys(&["a", "b", "c"]);
    s.select_key("b".to_string());
    s.apply_selected_value("b", Some(string_value_from_bytes(b"v".to_vec())));
    let v0 = s.tree_version;
    let req = s.delete_key("b".to_string());
    assert_eq!(req.key, "b");
    assert!(s.deleting);
    s.apply_delete("b", true);
    assert!(!s.deleting);
    assert_eq!(s.scan_count(), 2);
    assert_eq!(s.keys.get("b"), None);
    assert_eq!(s.keys.get("a"), Some(KeyType::Unknown));
    assert!(s.key.is_none());
    assert!(s.value.is_none());
    assert_eq!(s.tree_version, v0 + 1);
}

#[test]
fn delete_of_other_key_keeps_selection() {
    let mut s = state_with_keys(&["a", "b"]);
    s.select_key("a".to_string());
    s.delete_key("b".to_string());
    s.apply_delete("b", true);
    assert_eq!(s.key.as_deref(), Some("a"));
    assert_eq!(s.scan_count(), 1);
}

#[test]
fn failed_delete_changes_nothing() {
    let mut s = state_with_keys(&["a", "b"]);
    s.select_key("a".to_string());
    s.apply_selected_value("a", Some(string_value_from_bytes(b"v".to_vec())));
    let v0 = s.tree_version;
    s.delete_key("a".to_string());
    s.apply_delete("a", false);
    assert!(!s.deleting);
    assert_eq!(s.scan_count(), 2);
    assert_eq!(s.key.as_deref(), Some("a"));
    assert!(s.value.is_some());
    assert_eq!(s.tree_version, v0);
}

#[test]
fn save_replaces_text_and_size() {
    let mut s = state_with_keys(&["a"]);
    s.select_key("a".to_string());
    s.apply_selected_value("a", Some(string_value_from_bytes(b"old".to_vec())));
    let req = s.save_value("a".to_string(), "héllo".to_string());
    assert!(s.updating);
    assert_eq!(req.value, "héllo");
    s.apply_save("a", Some(req.value));
    assert!(!s.updating);
    let v = s.value.as_ref().unwrap();
    assert_eq!(v.string_value().map(|t| t.as_str()), Some("héllo"));
    assert_eq!(v.size(), 6);
}

#[test]
fn failed_save_keeps_value() {
    let mut s = state_with_keys(&["a"]);
    s.select_key("a".to_string());
    s.apply_selected_value("a", Some(string_value_from_bytes(b"old".to_vec())));
    s.save_value("a".to_string(), "new".to_string());
    s.apply_save("a", None);
    assert!(!s.updating);
    assert_eq!(s.value.as_ref().unwrap().string_value().map(|t| t.as_str()), Some("old"));
}

#[test]
fn ttl_update_parses_duration() {
    let mut s = state_with_keys(&["a"]);
    s.select_key("a".to_string());
    s.apply_selected_value("a", Some(string_value_from_bytes(b"v".to_vec())));
    let req = s.update_value_ttl("a".to_string(), "1h30m".to_string()).ok().unwrap();
    assert_eq!(req.seconds, 5400);
    assert!(s.updating);
    s.apply_ttl_at("a", req.seconds, true, 1000);
    assert!(!s.updating);
    assert_eq!(s.value.as_ref().unwrap().expire_at, Some(6400));
}

#[test]
fn bad_duration_is_a_validation_error() {
    let mut s = state_with_keys(&["a"]);
    let r = s.update_value_ttl("a".to_string(), "soon".to_string());
    assert!(matches!(r, Err(Error::Invalid { .. })));
    assert!(!s.updating);
}

#[test]
fn ttl_update_at_current_time() {
    let mut s = state_with_keys(&["a"]);
    s.select_key("a".to_string());
    s.apply_selected_value("a", Some(RedisValue::missing()));
    s.apply_ttl("a", 60, true);
    let e = s.value.as_ref().unwrap().expire_at.unwrap();
    assert!(e > 1_000_000_000);
    s.apply_ttl("a", 60, false);
    assert_eq!(s.value.as_ref().unwrap().expire_at, Some(e));
}

#[test]
fn duration_with_too_many_digits_is_rejected() {
    let mut s = state_with_keys(&["a"]);
    let r = s.update_value_ttl("a".to_string(), "18446744073709551615s 1000000000ns".to_string());
    assert!(matches!(r, Err(Error::Invalid { .. })));
    assert!(!s.updating);
    let r = s.update_value_ttl("a".to_string(), "100000000000s".to_string());
    assert!(matches!(r, Err(Error::Invalid { .. })));
    let r = s.update_value_ttl("a".to_string(), "99999999999s".to_string()).ok().unwrap();
    assert_eq!(r.seconds, 99_999_999_999);
    let r = s.update_value_ttl("a".to_string(), "2 weeks 3 days".to_string()).ok().unwrap();
    assert_eq!(r.seconds, 17 * 86400);
}

#[test]
fn digits_are_counted() {
    assert_eq!(count_digits("1h 30m"), 3);
    assert_eq!(count_digits("soon"), 0);
    assert_eq!(count_digits("µ5"), 1);
}

#[test]
fn first_list_page_asks_for_head() {
    let r = first_list_request("local".to_string(), "l".to_string());
    assert_eq!((r.start, r.stop), (0, 99));
    assert_eq!(r.key, "l");
    assert_eq!(r.server, "local");
}

#[test]
fn loading_attaches_planned_expiry() {
    let plan = plan_value("list", 5, 1000);
    let raw: Vec<Vec<u8>> = (0..100).map(|i| format!("e{i}").into_bytes()).collect();
    let fetched = list_value_from_page(250, list_items_from_bytes(&raw));
    let v = finish_value(plan, Some(fetched)).unwrap();
    assert_eq!(v.expire_at, Some(1005));
    let l = v.list_value().unwrap();
    assert_eq!(l.get_counts(), (100, 250));
    assert_eq!(l.values[0], "e0");
    let missing = finish_value(plan_value("string", -2, 1000), None).unwrap();
    assert_eq!(missing.expire_at, Some(-2));
    assert!(finish_value(plan_value("hash", 5, 1000), Some(RedisValue::default())).is_none());
    assert!(finish_value(plan_value("string", -1, 1000), None).is_none());
    let kept = finish_value(plan_value("string", -1, 1000), Some(string_value_from_bytes(b"x".to_vec())));
    assert_eq!(kept.unwrap().expire_at, Some(-1));
}
