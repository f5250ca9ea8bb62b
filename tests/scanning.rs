use zedis::app_state::QueryMode;
use zedis::key_tree_view::ZedisKeyTree;
use zedis::server::{PrefixAction, ScanStep, ZedisServerState};
use zedis::tree::KeyTreeItem;
use zedis::value::KeyType;

fn names(prefix: &str, from: usize, n: usize) -> Vec<String> {
    (from..from + n).map(|i| format!("{prefix}{i}")).collect()
}

#[test]
fn scan_starts_with_first_page_request() {
    let mut s = ZedisServerState::new("local".to_string());
    let r = s.scan(String::new());
    assert!(s.scanning);
    assert_eq!(r.pattern, "**");
    assert_eq!(r.count, 2000);
    assert!(r.cursors.is_none());
    let r = s.scan("user".to_string());
    assert_eq!(r.pattern, "*user*");
    assert_eq!(r.count, 10000);
    assert_eq!(r.keyword, "user");
    assert_eq!(s.keyword, "user");
}

#[test]
fn scan_completes_when_all_cursors_are_zero() {
    let mut s = ZedisServerState::new("local".to_string());
    s.scan("k".to_string());
    let step = s.apply_scan_page("local", "k", Some((vec![5, 0], names("k", 0, 3))));
    let next = match step {
        ScanStep::Continue(r) => r,
        _ => panic!("the chain should go on"),
    };
    assert_eq!(next.cursors, Some(vec![5, 0]));
    assert!(!s.scan_completed);
    let step = s.apply_scan_page("local", "k", Some((vec![0, 0], names("k", 3, 2))));
    assert!(matches!(step, ScanStep::Finished(Some(_))));
    assert!(s.scan_completed);
    assert!(s.cursors.is_none());
    assert!(!s.scanning);
    assert_eq!(s.scan_count(), 5);
    assert!(s.scan_next().is_none());
}

#[test]
fn scan_stops_at_cap_and_scan_next_raises_it() {
    let mut s = ZedisServerState::new("local".to_string());
    s.scan(String::new());
    let mut pages = 0;
    let mut from = 0;
    loop {
        let step = s.apply_scan_page("local", "", Some((vec![7], names("key:", from, 300))));
        from += 300;
        pages += 1;
        match step {
            ScanStep::Continue(_) => continue,
            ScanStep::Finished(_) => break,
            ScanStep::Dropped => panic!("the live chain was dropped"),
        }
    }
    assert_eq!(pages, 4);
    assert_eq!(s.scan_count(), 1200);
    assert!(!s.scanning);
    assert!(s.cursors.is_some());
    let r = s.scan_next().expect("an incomplete scan goes on");
    assert_eq!(s.scan_times, 1);
    assert_eq!(r.cursors, Some(vec![7]));
    let mut pages = 0;
    loop {
        let step = s.apply_scan_page("local", "", Some((vec![7], names("key:", from, 300))));
        from += 300;
        pages += 1;
        if let ScanStep::Finished(_) = step {
            break;
        }
    }
    assert_eq!(pages, 3);
    assert_eq!(s.scan_count(), 2100);
}

#[test]
fn page_of_superseded_filter_is_dropped() {
    let mut s = ZedisServerState::new("local".to_string());
    s.scan("a".to_string());
    s.scan("b".to_string());
    let version = s.tree_version;
    let step = s.apply_scan_page("local", "a", Some((vec![0], vec!["a1".to_string()])));
    assert!(matches!(step, ScanStep::Dropped));
    assert_eq!(s.scan_count(), 0);
    assert!(!s.scan_completed);
    assert_eq!(s.keyword, "b");
    assert_eq!(s.tree_version, version);
    let step = s.apply_scan_page("local", "b", Some((vec![0], vec!["b1".to_string()])));
    assert!(matches!(step, ScanStep::Finished(_)));
    assert_eq!(s.keys.get("b1"), Some(KeyType::Unknown));
    assert_eq!(s.keys.get("a1"), None);
}

#[test]
fn failed_page_ends_chain_and_keeps_keys() {
    let mut s = ZedisServerState::new("local".to_string());
    s.scan(String::new());
    s.apply_scan_page("local", "", Some((vec![3], names("k", 0, 2))));
    let step = s.apply_scan_page("local", "", None);
    assert!(matches!(step, ScanStep::Finished(_)));
    assert!(s.cursors.is_none());
    assert!(!s.scan_completed);
    assert!(!s.scanning);
    assert_eq!(s.scan_count(), 2);
}

#[test]
fn type_merge_is_idempotent() {
    let mut s = ZedisServerState::new("local".to_string());
    s.scan(String::new());
    s.apply_scan_page("local", "", Some((vec![0], vec!["a".to_string(), "b".to_string()])));
    let v0 = s.tree_version;
    let results = vec![("a".to_string(), "list".to_string()), ("b".to_string(), "hash".to_string())];
    s.apply_key_types(Some(results.clone()));
    assert_eq!(s.tree_version, v0 + 1);
    assert_eq!(s.keys.get("a"), Some(KeyType::List));
    assert_eq!(s.keys.get("b"), Some(KeyType::Hash));
    s.apply_key_types(Some(results));
    assert_eq!(s.tree_version, v0 + 1);
    assert_eq!(s.keys.get("a"), Some(KeyType::List));
    assert_eq!(s.scan_count(), 2);
    s.apply_key_types(Some(vec![("zzz".to_string(), "list".to_string())]));
    assert_eq!(s.tree_version, v0 + 1);
    assert_eq!(s.scan_count(), 2);
}

#[test]
fn failed_lookup_resolves_to_unknown() {
    let mut s = ZedisServerState::new("local".to_string());
    s.scan(String::new());
    s.apply_scan_page("local", "", Some((vec![0], vec!["a".to_string()])));
    s.apply_key_types(Some(vec![("a".to_string(), String::new())]));
    assert_eq!(s.keys.get("a"), Some(KeyType::Unknown));
}

#[test]
fn type_requests_cover_direct_unknown_children() {
    let mut s = ZedisServerState::new("local".to_string());
    s.scan(String::new());
    let keys = vec!["top".to_string(), "user:1".to_string(), "user:2".to_string(), "user:x:y".to_string()];
    let step = s.apply_scan_page("local", "", Some((vec![0], keys)));
    match step {
        ScanStep::Finished(Some(req)) => assert_eq!(req.keys, vec!["top".to_string()]),
        _ => panic!("expected the root's keys to classify"),
    }
    let req = s.fill_key_types("user:").unwrap();
    assert_eq!(req.keys, vec!["user:1".to_string(), "user:2".to_string()]);
    s.apply_key_types(Some(vec![("user:1".to_string(), "string".to_string())]));
    let req = s.fill_key_types("user:").unwrap();
    assert_eq!(req.keys, vec!["user:2".to_string()]);
    assert!(s.fill_key_types("nothing:").is_none());
}

#[test]
fn prefix_expansion_scans_then_merges_once() {
    let mut s = ZedisServerState::new("local".to_string());
    s.scan(String::new());
    s.apply_scan_page("local", "", Some((vec![9], vec!["a:1".to_string()])));
    let mut p = match s.scan_prefix("a:".to_string()) {
        PrefixAction::Scan(p) => p,
        _ => panic!("an incomplete scan expands by scanning"),
    };
    assert_eq!(p.pattern, "a:*");
    assert_eq!(p.count, 10000);
    p.apply_page(Some((vec![4], vec!["a:2".to_string()])));
    assert!(!p.done);
    p.apply_page(Some((vec![0], vec!["a:3".to_string()])));
    assert!(p.done);
    let found = p.result();
    assert_eq!(found, Some(vec!["a:2".to_string(), "a:3".to_string()]));
    let req = s.apply_prefix_scan("a:".to_string(), found).unwrap();
    assert_eq!(req.keys.len(), 3);
    assert_eq!(s.scan_count(), 3);
    assert!(matches!(s.scan_prefix("a:".to_string()), PrefixAction::Skip));
}

#[test]
fn prefix_expansion_reads_at_most_twenty_pages() {
    let mut s = ZedisServerState::new("local".to_string());
    let mut p = match s.scan_prefix("p:".to_string()) {
        PrefixAction::Scan(p) => p,
        _ => panic!("expected a scan"),
    };
    let mut pages = 0;
    while !p.done {
        p.apply_page(Some((vec![1], vec![format!("p:{pages}")])));
        pages += 1;
    }
    assert_eq!(pages, 20);
    assert_eq!(p.rounds, 20);
    assert_eq!(p.result().map(|k| k.len()), Some(20));
}

#[test]
fn failed_prefix_page_merges_nothing() {
    let mut s = ZedisServerState::new("local".to_string());
    let mut p = match s.scan_prefix("p:".to_string()) {
        PrefixAction::Scan(p) => p,
        _ => panic!("expected a scan"),
    };
    p.apply_page(Some((vec![1], vec!["p:1".to_string()])));
    p.apply_page(None);
    assert!(p.done);
    let found = p.result();
    assert!(found.is_none());
    assert!(s.apply_prefix_scan("p:".to_string(), found).is_none());
    assert_eq!(s.scan_count(), 0);
    assert!(s.loaded_prefixes.is_empty());
}

#[test]
fn completed_scan_expands_by_classifying() {
    let mut s = ZedisServerState::new("local".to_string());
    s.scan(String::new());
    s.apply_scan_page("local", "", Some((vec![0], vec!["a:1".to_string(), "a:b:2".to_string()])));
    match s.scan_prefix("a:".to_string()) {
        PrefixAction::Resolve(req) => assert_eq!(req.keys, vec!["a:1".to_string()]),
        _ => panic!("a complete scan only classifies"),
    }
}

fn ids(items: &[KeyTreeItem]) -> Vec<(String, bool)> {
    items.iter().map(|i| (i.id.clone(), i.is_folder)).collect()
}

#[test]
fn key_tree_folds_on_separator() {
    let mut s = ZedisServerState::new("local".to_string());
    s.scan(String::new());
    let keys = vec!["top".to_string(), "user:1".to_string(), "user:2".to_string(), "user:x:y".to_string()];
    s.apply_scan_page("local", "", Some((vec![0], keys)));
    assert!(s.auto_expand());
    let tree = s.key_tree(&vec![], true, 8);
    assert_eq!(ids(&tree), vec![("top".to_string(), false), ("user:".to_string(), true)]);
    assert_eq!(tree[1].label, "user");
    assert_eq!(tree[1].depth, 0);
    let users = &tree[1].children;
    assert_eq!(
        ids(users),
        vec![("user:1".to_string(), false), ("user:2".to_string(), false), ("user:x:".to_string(), true)]
    );
    assert_eq!(users[0].label, "1");
    assert_eq!(users[2].label, "x");
    assert_eq!(users[2].depth, 1);
    assert_eq!(ids(&users[2].children), vec![("user:x:y".to_string(), false)]);

    let collapsed = s.key_tree(&vec![], false, 8);
    assert!(collapsed[1].children.is_empty());
    let opened = s.key_tree(&vec!["user:".to_string()], false, 8);
    assert_eq!(opened[1].children.len(), 3);
    assert!(opened[1].children[2].children.is_empty());
    let shallow = s.key_tree(&vec![], true, 1);
    assert!(shallow[1].children.is_empty());
}

#[test]
fn many_keys_do_not_auto_expand() {
    let mut s = ZedisServerState::new("local".to_string());
    s.scan(String::new());
    s.apply_scan_page("local", "", Some((vec![0], names("k", 0, 20))));
    assert!(!s.auto_expand());
}

#[test]
fn key_tree_panel_rebuilds_only_on_new_version() {
    let mut s = ZedisServerState::new("local".to_string());
    let mut panel = ZedisKeyTree::new(QueryMode::All);
    let first = panel.update_key_tree(&s, QueryMode::Prefix, 8).expect("first build");
    assert!(first.is_empty());
    assert!(panel.is_empty);
    assert_eq!(panel.query_mode, QueryMode::Prefix);
    assert!(panel.update_key_tree(&s, QueryMode::Prefix, 8).is_none());
    s.scan(String::new());
    s.apply_scan_page("local", "", Some((vec![0], vec!["a:1".to_string(), "b".to_string()])));
    let items = panel.update_key_tree(&s, QueryMode::All, 8).expect("keys changed");
    assert_eq!(items.len(), 2);
    assert_eq!(items[0].children.len(), 1);
    assert!(!panel.is_empty);
    assert!(panel.can_filter(&s));
}

#[test]
fn folders_open_and_close() {
    let mut panel = ZedisKeyTree::new(QueryMode::All);
    assert_eq!(panel.click_folder("a:".to_string(), true), Some("a:".to_string()));
    assert_eq!(panel.click_folder("b:".to_string(), true), Some("b:".to_string()));
    assert_eq!(panel.click_folder("a:".to_string(), true), Some("a:".to_string()));
    assert_eq!(panel.expanded_items, vec!["b:".to_string(), "a:".to_string()]);
    assert_eq!(panel.click_folder("a:".to_string(), false), None);
    assert_eq!(panel.expanded_items, vec!["b:".to_string()]);
}
