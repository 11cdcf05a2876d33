use surge_tui::models::{DnsRecord, Request};
use surge_tui::requests::{
    app_name_of, count_dns_matches, display_width, filter_requests, group_requests_by_app,
    pad_to_width, truncate_text,
};

fn req(id: u64, path: Option<&str>, url: Option<&str>, policy: Option<&str>) -> Request {
    Request {
        id,
        process_path: path.map(|s| s.to_string()),
        rule: None,
        policy_name: policy.map(|s| s.to_string()),
        remote_host: None,
        url: url.map(|s| s.to_string()),
        method: None,
        status: None,
        start_date_ms: None,
        in_bytes: 0,
        out_bytes: 0,
        completed: false,
        failed: false,
        notes: vec![],
        stream_has_request_body: false,
        stream_has_response_body: false,
    }
}

fn dns(domain: &str) -> DnsRecord {
    DnsRecord {
        domain: domain.to_string(),
        ip: vec![],
        ttl_ms: None,
        server: None,
        logs: vec![],
        path: None,
        time_cost_us: None,
    }
}

#[test]
fn partitions_sorted_by_count_then_name() {
    let reqs = vec![
        req(1, Some("/usr/bin/zeta"), None, None),
        req(2, Some("/Applications/Safari.app/Contents/MacOS/Safari"), None, None),
        req(3, Some("/usr/bin/zeta"), None, None),
        req(4, Some("/opt/alpha"), None, None),
        req(5, None, None, None),
        req(6, Some("/opt/alpha"), None, None),
        req(7, Some("/x/beta"), None, None),
    ];
    let parts = group_requests_by_app(&reqs);
    assert_eq!(
        parts,
        vec![
            ("alpha".to_string(), 2),
            ("zeta".to_string(), 2),
            ("Safari".to_string(), 1),
            ("Unknown".to_string(), 1),
            ("beta".to_string(), 1),
        ]
    );
}

#[test]
fn partitions_of_no_requests_are_empty() {
    assert!(group_requests_by_app(&vec![]).is_empty());
}

#[test]
fn app_name_is_last_path_segment() {
    assert_eq!(app_name_of(&req(1, Some("/a/b/curl"), None, None)), "curl");
    assert_eq!(app_name_of(&req(1, Some("curl"), None, None)), "curl");
    assert_eq!(app_name_of(&req(1, Some("/a/"), None, None)), "");
    assert_eq!(app_name_of(&req(1, None, None, None)), "Unknown");
}

#[test]
fn search_matches_url_policy_and_path_case_insensitively() {
    let reqs = vec![
        req(1, Some("/bin/Curl"), Some("https://Example.com/x"), Some("Proxy")),
        req(2, Some("/bin/wget"), Some("http://other.org"), Some("DIRECT")),
        req(3, None, None, None),
    ];
    assert_eq!(filter_requests(&reqs, "EXAMPLE", true, None), vec![0]);
    assert_eq!(filter_requests(&reqs, "direct", true, None), vec![1]);
    assert_eq!(filter_requests(&reqs, "curl", true, None), vec![0]);
    assert_eq!(filter_requests(&reqs, "curl", false, None), Vec::<usize>::new());
    assert_eq!(filter_requests(&reqs, "", true, None), vec![0, 1, 2]);
    assert_eq!(filter_requests(&reqs, "", false, Some("wget")), vec![1]);
    assert_eq!(filter_requests(&reqs, "", false, Some("Unknown")), vec![2]);
}

#[test]
fn dns_search_counts_matching_domains() {
    let recs = vec![dns("Apple.com"), dns("google.com"), dns("icloud.apple.com")];
    assert_eq!(count_dns_matches(&recs, ""), 3);
    assert_eq!(count_dns_matches(&recs, "APPLE"), 2);
    assert_eq!(count_dns_matches(&recs, "zzz"), 0);
}

#[test]
fn char_truncation_keeps_room_for_dots() {
    assert_eq!(truncate_text("hello", 5), "hello");
    assert_eq!(truncate_text("hello world", 7), "hello..");
    assert_eq!(truncate_text("日本語テキスト", 4), "日本..");
}

#[test]
fn simple_width_counts_non_ascii_twice() {
    assert_eq!(display_width("abc"), 3);
    assert_eq!(display_width("日本a"), 5);
    assert_eq!(display_width(""), 0);
}

#[test]
fn padding_fills_to_width() {
    assert_eq!(pad_to_width("ab", 5), "ab   ");
    assert_eq!(pad_to_width("日本", 5), "日本 ");
    assert_eq!(pad_to_width("abcdef", 3), "abcdef");
}
