use surge_tui::entities::AppSnapshot;
use surge_tui::models::{PolicyDetail, PolicyGroup, PolicyItem, PolicyType};
use surge_tui::policies::{
    available_policies, build_policy_groups, calculate_policy_column_widths,
    fit_count, resolve_final_policy, truncate_measured, truncate_text, LatencyCache,
};

fn item(name: &str) -> PolicyItem {
    PolicyItem {
        is_group: false,
        name: name.to_string(),
        type_description: "Shadowsocks".to_string(),
        line_hash: String::new(),
        enabled: true,
    }
}

fn group(name: &str, members: &[&str], selected: Option<&str>) -> PolicyGroup {
    PolicyGroup {
        name: name.to_string(),
        policies: members.iter().map(|m| item(m)).collect(),
        selected: selected.map(|s| s.to_string()),
        available_policies: None,
    }
}

fn detail(name: &str, latency: Option<u32>, alive: bool) -> PolicyDetail {
    PolicyDetail {
        name: name.to_string(),
        policy_type: PolicyType::Direct,
        alive,
        latency,
        last_test_at: None,
    }
}

fn snapshot_with(groups: Vec<PolicyGroup>) -> AppSnapshot {
    let mut s = AppSnapshot::new();
    s.policy_groups = groups;
    s
}

#[test]
fn nested_selection_resolves_to_leaf() {
    let s = snapshot_with(vec![
        group("A", &["B"], Some("B")),
        group("B", &["leaf1", "leaf2"], Some("leaf1")),
    ]);
    assert_eq!(resolve_final_policy(&s, "A"), Some("leaf1".to_string()));
    assert_eq!(resolve_final_policy(&s, "leaf2"), Some("leaf2".to_string()));
}

#[test]
fn selection_cycle_gives_no_data() {
    let s = snapshot_with(vec![
        group("A", &["B"], Some("B")),
        group("B", &["A"], Some("A")),
    ]);
    assert_eq!(resolve_final_policy(&s, "A"), None);
}

#[test]
fn group_without_selection_gives_no_data() {
    let s = snapshot_with(vec![group("A", &["x"], None)]);
    assert_eq!(resolve_final_policy(&s, "A"), None);
}

#[test]
fn chain_deeper_than_limit_gives_no_data() {
    let mut groups = Vec::new();
    for i in 0..12 {
        let next = format!("g{}", i + 1);
        groups.push(group(&format!("g{}", i), &[&next], Some(&next)));
    }
    let s = snapshot_with(groups.clone());
    assert_eq!(resolve_final_policy(&s, "g0"), None);
    // ten groups before the leaf: still within the limit
    let s = snapshot_with(groups[2..].to_vec());
    assert_eq!(resolve_final_policy(&s, "g2"), Some("g12".to_string()));
}

#[test]
fn overlay_twice_equals_overlay_once() {
    let mut cache = LatencyCache::new();
    cache.record(&vec![detail("a", Some(10), true), detail("b", None, false)]);
    let mut s = AppSnapshot::new();
    s.policies = vec![detail("stale", Some(1), true)];
    cache.overlay(&mut s);
    let once: Vec<String> = s.policies.iter().map(|p| p.name.clone()).collect();
    cache.overlay(&mut s);
    let twice: Vec<String> = s.policies.iter().map(|p| p.name.clone()).collect();
    assert_eq!(once, vec!["a".to_string(), "b".to_string()]);
    assert_eq!(once, twice);
}

#[test]
fn empty_cache_leaves_policies() {
    let cache = LatencyCache::new();
    let mut s = AppSnapshot::new();
    s.policies = vec![detail("x", Some(1), true)];
    cache.overlay(&mut s);
    assert_eq!(s.policies.len(), 1);
    assert_eq!(s.policies[0].name, "x");
}

#[test]
fn cache_overwrites_only_tested_names() {
    let mut cache = LatencyCache::new();
    cache.record(&vec![detail("a", Some(10), true), detail("b", Some(20), true)]);
    cache.record(&vec![detail("b", None, false), detail("c", Some(5), true)]);
    assert_eq!(cache.len(), 3);
    let v = cache.values();
    assert_eq!(v[0].name, "a");
    assert_eq!(v[0].latency, Some(10));
    assert_eq!(v[1].name, "b");
    assert_eq!(v[1].latency, None);
    assert!(!v[1].alive);
    assert_eq!(v[2].name, "c");
}

#[test]
fn available_is_alive_members_by_name() {
    let results = vec![
        detail("hk", Some(80), true),
        detail("us", None, false),
        detail("jp", Some(50), true),
        detail("other", Some(5), true),
    ];
    let members = vec![item("jp"), item("us"), item("hk")];
    assert_eq!(
        available_policies(&results, &members),
        vec!["hk".to_string(), "jp".to_string()]
    );
}

#[test]
fn groups_are_ordered_by_name_with_selection() {
    let entries = vec![
        ("Proxy".to_string(), vec![item("a")]),
        ("Auto".to_string(), vec![item("b"), item("c")]),
        ("Media".to_string(), vec![]),
    ];
    let selected = vec![("Proxy".to_string(), "a".to_string())];
    let g = build_policy_groups(entries, &selected);
    let names: Vec<&str> = g.iter().map(|x| x.name.as_str()).collect();
    assert_eq!(names, vec!["Auto", "Media", "Proxy"]);
    assert_eq!(g[2].selected, Some("a".to_string()));
    assert_eq!(g[0].selected, None);
    assert_eq!(g[0].policies.len(), 2);
    assert!(g.iter().all(|x| x.available_policies.is_none()));
}

#[test]
fn width_truncation_counts_wide_characters() {
    assert_eq!(truncate_text("short", 10), "short");
    assert_eq!(truncate_text("abcdefghij", 6), "abcd..");
    // each ideograph takes two columns
    assert_eq!(truncate_text("日本語テキスト", 7), "日本..");
    assert_eq!(truncate_text("abc", 1), "..");
}

#[test]
fn column_widths_split_sixty_forty() {
    assert_eq!(calculate_policy_column_widths(120), (60, 40, 10));
    assert_eq!(calculate_policy_column_widths(0), (10, 8, 10));
    assert_eq!(calculate_policy_column_widths(45), (15, 10, 10));
}

#[test]
fn fit_count_stops_before_overflowing_column() {
    assert_eq!(fit_count(&vec![2, 2, 1, 2], 4), 2);
    assert_eq!(fit_count(&vec![2, 2, 1, 2], 5), 3);
    assert_eq!(fit_count(&vec![1, 1], 10), 2);
    assert_eq!(fit_count(&vec![3], 2), 0);
    assert_eq!(fit_count(&vec![], 0), 0);
}

#[test]
fn measured_truncation_uses_given_widths() {
    assert_eq!(truncate_measured("abcd", 4, &vec![1, 1, 1, 1], 4), "abcd");
    assert_eq!(truncate_measured("abcd", 8, &vec![2, 2, 2, 2], 6), "ab..");
    assert_eq!(truncate_measured("abcd", 8, &vec![2, 2, 2, 2], 1), "..");
}
