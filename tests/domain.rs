use surge_tui::config::Config;
use surge_tui::en_us::EnUS;
use surge_tui::entities::{Alert, AlertAction, AlertLevel, AppSnapshot, ViewMode};
use surge_tui::errors::SurgeError;
use surge_tui::i18n::{current, Translate};
use surge_tui::models::{PoliciesResponse, PolicyType};
use surge_tui::session::{DevToolsLog, LogLevel};
use surge_tui::text::decimal_string;
use surge_tui::zh_cn::ZhCN;

#[test]
fn default_config_values() {
    let c = Config::default();
    assert_eq!(c.surge.http_api_host, "127.0.0.1");
    assert_eq!(c.surge.http_api_port, 6171);
    assert_eq!(c.surge.http_api_key, "");
    assert_eq!(
        c.surge.cli_path.as_deref(),
        Some("/Applications/Surge.app/Contents/Applications/surge-cli")
    );
    assert_eq!(c.ui.refresh_interval, 1);
    assert_eq!(c.ui.max_requests, 100);
    assert!(Config::example().contains("http_api_port = 6171"));
}

#[test]
fn environment_overrides_config() {
    let mut c = Config::default();
    c.apply_env(
        Some("10.0.0.2".to_string()),
        Some("8080".to_string()),
        Some("k-123".to_string()),
        Some("/usr/local/bin/surge-cli".to_string()),
    );
    assert_eq!(c.surge.http_api_host, "10.0.0.2");
    assert_eq!(c.surge.http_api_port, 8080);
    assert_eq!(c.surge.http_api_key, "k-123");
    assert_eq!(c.surge.cli_path.as_deref(), Some("/usr/local/bin/surge-cli"));
    c.apply_env(None, Some("70000".to_string()), None, None);
    assert_eq!(c.surge.http_api_port, 8080);
    c.apply_env(None, Some("port".to_string()), None, None);
    assert_eq!(c.surge.http_api_port, 8080);
    assert_eq!(c.surge.http_api_host, "10.0.0.2");
}

#[test]
fn error_messages_for_each_kind() {
    let cases = vec![
        (SurgeError::SurgeNotRunning, "Surge is not running"),
        (SurgeError::HttpApiUnavailable { reason: "r".to_string() }, "HTTP API unavailable: r"),
        (
            SurgeError::CliExecutionFailed { command: "c".to_string(), error: "e".to_string() },
            "CLI command failed: c - e",
        ),
        (SurgeError::ConfigError { message: "m".to_string() }, "Config error: m"),
        (SurgeError::PolicyNotFound { name: "n".to_string() }, "Policy not found: n"),
        (SurgeError::PolicyGroupNotFound { name: "g".to_string() }, "Policy group not found: g"),
        (SurgeError::ConnectionNotFound { id: 1205 }, "Connection not found: #1205"),
        (
            SurgeError::ParseError { source: "DNS".to_string(), error: "bad".to_string() },
            "Parse error (DNS): bad",
        ),
        (SurgeError::NetworkError { message: "t".to_string() }, "Network error: t"),
        (SurgeError::PermissionDenied { message: "p".to_string() }, "Permission denied: p"),
        (SurgeError::Unknown { message: "u".to_string() }, "Unknown error: u"),
    ];
    for (e, text) in cases {
        assert_eq!(e.message(), text);
    }
}

#[test]
fn decimal_text_of_numbers() {
    assert_eq!(decimal_string(0), "0");
    assert_eq!(decimal_string(7), "7");
    assert_eq!(decimal_string(1050), "1050");
    assert_eq!(decimal_string(u64::MAX), "18446744073709551615");
}

#[test]
fn views_in_tab_order() {
    assert_eq!(
        ViewMode::all(),
        vec![
            ViewMode::Overview,
            ViewMode::Policies,
            ViewMode::Requests,
            ViewMode::ActiveConnections,
            ViewMode::Dns
        ]
    );
}

#[test]
fn policy_type_labels() {
    assert_eq!(PolicyType::Shadowsocks.as_str(), "Shadowsocks");
    assert_eq!(PolicyType::Vmess.as_str(), "VMess");
    assert_eq!(PolicyType::UrlTest.as_str(), "URL-Test");
    assert_eq!(PolicyType::LoadBalance.as_str(), "Load-Balance");
    assert_eq!(PolicyType::Unknown.as_str(), "Unknown");
}

#[test]
fn alert_constructors_and_snapshot_errors() {
    let a = Alert::config_error("bad port".to_string());
    assert_eq!(a.level, AlertLevel::Warning);
    assert_eq!(a.message, "config_error: bad port");
    assert_eq!(a.action, AlertAction::ReloadConfig);
    assert_eq!(Alert::warning("w".to_string()).action, AlertAction::NoAction);
    assert_eq!(Alert::info("i".to_string()).level, AlertLevel::Info);
    let mut s = AppSnapshot::new();
    assert!(!s.has_errors());
    s.add_alert(Alert::info("i".to_string()));
    assert!(!s.has_errors());
    s.add_alert(Alert::http_api_disabled());
    assert!(s.has_errors());
    s.clear_alerts();
    assert!(s.alerts.is_empty());
    assert!(AppSnapshot::not_running().has_errors());
}

#[test]
fn policy_listing_merges_names() {
    let r = PoliciesResponse {
        proxies: vec!["a".to_string(), "b".to_string()],
        policy_groups: vec!["G".to_string()],
    };
    assert_eq!(r.into_names(), vec!["a".to_string(), "b".to_string(), "G".to_string()]);
}

#[test]
fn localized_text_formats_arguments() {
    let t = current();
    assert_eq!(t.notification_test_completed(2, 5), "Test completed: 2/5 available");
    assert_eq!(EnUS.policy_policies_title("Proxy"), "Group: Proxy");
    assert_eq!(ZhCN.notification_test_completed(2, 5), "测试完成: 2/5 可用");
    assert_eq!(ZhCN.request_time_seconds_ago(30), "30秒前");
    assert_eq!(EnUS.view_dns(), "DNS Cache");
}

#[test]
fn devtools_level_labels() {
    assert_eq!(DevToolsLog::new(LogLevel::Warning, "w".to_string()).level_str(), "WARN ");
    assert_eq!(DevToolsLog::new(LogLevel::Error, "e".to_string()).level_str(), "ERROR");
}
