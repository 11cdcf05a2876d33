use surge_tui::client::{Backend, Capability, ClientMode, SnapshotBuilder, SnapshotStage, SurgeClient};
use surge_tui::config::Config;
use surge_tui::entities::{AlertAction, AlertLevel};
use surge_tui::errors::SurgeError;
use surge_tui::http::{feature_path, policy_detail_path, policy_group_select_path, profile_path};
use surge_tui::models::{OutboundMode, PolicyType};

const HTTP_ONLY: [Capability; 8] = [
    Capability::GetOutboundMode,
    Capability::SetOutboundMode,
    Capability::SelectPolicyGroup,
    Capability::GetDnsCache,
    Capability::GetMitmStatus,
    Capability::SetMitmStatus,
    Capability::GetCaptureStatus,
    Capability::SetCaptureStatus,
];

#[test]
fn cli_mode_refuses_http_only_operations() {
    let mut c = SurgeClient::new(Config::default());
    assert_eq!(c.detect_mode(false), ClientMode::Cli);
    for cap in HTTP_ONLY {
        match c.route(cap) {
            Err(SurgeError::HttpApiUnavailable { reason }) => {
                assert_eq!(reason, "CLI mode does not support this operation")
            }
            other => panic!("unexpected {:?}", other),
        }
    }
}

#[test]
fn cli_mode_routes_fallback_operations_to_cli() {
    let mut c = SurgeClient::new(Config::default());
    c.detect_mode(false);
    for cap in [
        Capability::TestPolicy,
        Capability::TestPolicyGroup,
        Capability::KillConnection,
        Capability::ReloadConfig,
        Capability::FlushDns,
        Capability::TestAllPolicies,
    ] {
        assert_eq!(c.route(cap).unwrap(), Backend::Cli);
    }
    assert_eq!(c.route(Capability::StartSurge).unwrap(), Backend::System);
}

#[test]
fn http_mode_routes_to_http_except_bulk_test() {
    let mut c = SurgeClient::new(Config::default());
    assert_eq!(c.mode(), ClientMode::HttpApi);
    assert_eq!(c.detect_mode(true), ClientMode::HttpApi);
    for cap in HTTP_ONLY {
        assert_eq!(c.route(cap).unwrap(), Backend::Http);
    }
    assert_eq!(c.route(Capability::TestAllPolicies).unwrap(), Backend::Cli);
    assert_eq!(c.route(Capability::IsSurgeRunning).unwrap(), Backend::System);
}

#[test]
fn client_uses_configured_endpoint() {
    let c = SurgeClient::new(Config::default());
    assert_eq!(c.http_client.base_url, "http://127.0.0.1:6171");
    assert_eq!(c.http_client.build_url("/v1/dns"), "http://127.0.0.1:6171/v1/dns");
    assert_eq!(
        c.cli_client.cli_path,
        "/Applications/Surge.app/Contents/Applications/surge-cli"
    );
}

#[test]
fn stopped_service_snapshot_has_one_alert() {
    let mut b = SnapshotBuilder::new();
    b.on_running(false);
    assert_eq!(b.stage, SnapshotStage::Done);
    let s = b.finish();
    assert!(!s.surge_running);
    assert!(!s.http_api_available);
    assert_eq!(s.alerts.len(), 1);
    assert_eq!(s.alerts[0].level, AlertLevel::Error);
    assert_eq!(s.alerts[0].action, AlertAction::StartSurge);
    assert_eq!(s.alerts[0].message, "surge_not_running");
    assert!(s.outbound_mode.is_none() && s.mitm_enabled.is_none() && s.capture_enabled.is_none());
    assert!(s.policies.is_empty() && s.policy_groups.is_empty() && s.dns_cache.is_empty());
    assert!(s.recent_requests.is_empty() && s.active_connections.is_empty());
}

#[test]
fn cli_only_snapshot_stops_after_outbound() {
    let mut b = SnapshotBuilder::new();
    b.on_running(true);
    assert_eq!(b.stage, SnapshotStage::Mode);
    b.on_mode(ClientMode::Cli);
    assert_eq!(b.snapshot.alerts.len(), 1);
    assert_eq!(b.snapshot.alerts[0].action, AlertAction::ReloadConfig);
    assert_eq!(b.snapshot.alerts[0].message, "http_api_disabled");
    b.on_outbound(Err(SurgeError::HttpApiUnavailable { reason: "x".to_string() }));
    assert_eq!(b.stage, SnapshotStage::Done);
    let s = b.finish();
    assert!(s.surge_running && !s.http_api_available && s.outbound_mode.is_none());
}

#[test]
fn http_snapshot_collects_best_effort() {
    let mut b = SnapshotBuilder::new();
    b.on_running(true);
    b.on_mode(ClientMode::HttpApi);
    assert!(b.snapshot.alerts.is_empty());
    b.on_outbound(Ok(OutboundMode::Rule));
    assert_eq!(b.stage, SnapshotStage::Features);
    b.on_features(Ok(true), Err(SurgeError::SurgeNotRunning));
    assert_eq!(b.stage, SnapshotStage::Collections);
    b.on_collections(
        Err(SurgeError::NetworkError { message: "down".to_string() }),
        Ok(vec![]),
        Ok(vec![]),
        Ok(vec![]),
    );
    let s = b.finish();
    assert_eq!(s.outbound_mode, Some(OutboundMode::Rule));
    assert_eq!(s.mitm_enabled, Some(true));
    assert_eq!(s.capture_enabled, None);
    assert!(s.policy_groups.is_empty());
}

#[test]
fn bulk_results_become_placeholder_details() {
    let d = SurgeClient::details_from_results(vec![
        ("a".to_string(), Some(3), true),
        ("b".to_string(), None, false),
    ]);
    assert_eq!(d.len(), 2);
    assert_eq!(d[0].name, "a");
    assert_eq!(d[0].latency, Some(3));
    assert!(d[0].alive);
    assert_eq!(d[0].policy_type, PolicyType::Direct);
    assert_eq!(d[1].name, "b");
    assert!(!d[1].alive);
    assert!(d[1].last_test_at.is_none());
}

#[test]
fn api_paths_percent_encode_names() {
    assert_eq!(
        policy_detail_path("Hong Kong 01"),
        "/v1/policies/detail?policy_name=Hong%20Kong%2001"
    );
    assert_eq!(
        policy_group_select_path("A&B"),
        "/v1/policy_groups/select?group_name=A%26B"
    );
    assert_eq!(feature_path("mitm"), "/v1/features/mitm");
    assert_eq!(profile_path(true), "/v1/profiles/current?sensitive=1");
    assert_eq!(profile_path(false), "/v1/profiles/current?sensitive=0");
}

#[test]
fn outbound_mode_cycles() {
    assert_eq!(OutboundMode::Direct.next(), OutboundMode::Proxy);
    assert_eq!(OutboundMode::Proxy.next(), OutboundMode::Rule);
    assert_eq!(OutboundMode::Rule.next(), OutboundMode::Direct);
}
