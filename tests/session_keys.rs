use surge_tui::en_us::EnUS;
use surge_tui::entities::{Alert, AppSnapshot, ViewMode};
use surge_tui::errors::SurgeError;
use surge_tui::models::{OutboundMode, PolicyDetail, PolicyGroup, PolicyItem, PolicyType, Request};
use surge_tui::session::{
    App, Key, KeyAction, Notification, NotificationLevel, TestMessage, TestRun,
};

fn item(name: &str) -> PolicyItem {
    PolicyItem {
        is_group: false,
        name: name.to_string(),
        type_description: String::new(),
        line_hash: String::new(),
        enabled: true,
    }
}

fn detail(name: &str, latency: Option<u32>, alive: bool) -> PolicyDetail {
    PolicyDetail {
        name: name.to_string(),
        policy_type: PolicyType::Direct,
        alive,
        latency,
        last_test_at: None,
    }
}

fn conn(id: u64, path: &str) -> Request {
    Request {
        id,
        process_path: Some(path.to_string()),
        rule: None,
        policy_name: None,
        remote_host: None,
        url: None,
        method: None,
        status: None,
        start_date_ms: None,
        in_bytes: 0,
        out_bytes: 0,
        completed: false,
        failed: false,
        notes: vec![],
        stream_has_request_body: false,
        stream_has_response_body: false,
    }
}

fn policy_app() -> App {
    let mut app = App::new(1);
    app.snapshot.policy_groups = vec![PolicyGroup {
        name: "Proxy".to_string(),
        policies: vec![item("hk"), item("us"), item("jp")],
        selected: Some("us".to_string()),
        available_policies: None,
    }];
    app.current_view = ViewMode::Policies;
    app
}

#[test]
fn kill_confirmation_takes_every_key() {
    let mut app = App::new(1);
    app.show_kill_confirm = Some(42);
    app.show_help = true;
    assert_eq!(app.handle_key(Key::Char('q')), KeyAction::Nothing);
    assert!(!app.should_quit);
    assert!(app.show_help);
    assert_eq!(app.handle_key(Key::Enter), KeyAction::KillConnection(42));
    assert_eq!(app.show_kill_confirm, None);
    app.show_kill_confirm = Some(7);
    assert_eq!(app.handle_key(Key::Esc), KeyAction::Nothing);
    assert_eq!(app.show_kill_confirm, None);
}

#[test]
fn open_dialog_swallows_keys_but_escape() {
    let mut app = App::new(1);
    app.show_notification_history = true;
    app.show_devtools = true;
    assert_eq!(app.handle_key(Key::Char('2')), KeyAction::Nothing);
    assert_eq!(app.current_view, ViewMode::Overview);
    app.handle_key(Key::Esc);
    assert!(!app.show_notification_history);
    assert!(app.show_devtools);
    app.handle_key(Key::Char('q'));
    assert!(!app.show_devtools);
    assert!(!app.should_quit);
}

#[test]
fn search_mode_captures_characters() {
    let mut app = App::new(1);
    app.current_view = ViewMode::Requests;
    app.search_query = "old".to_string();
    app.handle_key(Key::Char('/'));
    assert!(app.search_mode);
    assert_eq!(app.search_query, "");
    app.selected_index = 3;
    app.handle_key(Key::Char('q'));
    app.handle_key(Key::Char('1'));
    assert_eq!(app.search_query, "q1");
    assert_eq!(app.selected_index, 0);
    assert!(!app.should_quit);
    assert_eq!(app.current_view, ViewMode::Requests);
    app.handle_key(Key::Backspace);
    assert_eq!(app.search_query, "q");
    app.handle_key(Key::Enter);
    assert!(!app.search_mode);
    assert_eq!(app.search_query, "q");
    app.handle_key(Key::Char('/'));
    app.handle_key(Key::Char('x'));
    app.handle_key(Key::Esc);
    assert!(!app.search_mode);
    assert_eq!(app.search_query, "");
}

#[test]
fn search_inside_group_uses_detail_buffer() {
    let mut app = policy_app();
    app.handle_key(Key::Enter);
    assert_eq!(app.policy_detail_index, Some(1));
    app.search_query = "grp".to_string();
    app.handle_key(Key::Char('/'));
    app.handle_key(Key::Char('h'));
    assert_eq!(app.policy_detail_search, "h");
    assert_eq!(app.search_query, "grp");
}

#[test]
fn view_keys_switch_and_reset_cursor() {
    let mut app = App::new(1);
    app.selected_index = 4;
    app.handle_key(Key::Char('5'));
    assert_eq!(app.current_view, ViewMode::Dns);
    assert_eq!(app.selected_index, 0);
    app.handle_key(Key::Char('q'));
    assert!(app.should_quit);
}

#[test]
fn policy_keys_ask_for_select_and_test() {
    let mut app = policy_app();
    assert_eq!(
        app.handle_key(Key::Char('t')),
        KeyAction::StartTest { group: "Proxy".to_string() }
    );
    app.handle_key(Key::Enter);
    app.handle_key(Key::Down);
    assert_eq!(app.policy_detail_index, Some(2));
    app.handle_key(Key::Down);
    assert_eq!(app.policy_detail_index, Some(2));
    assert_eq!(
        app.handle_key(Key::Enter),
        KeyAction::SelectPolicy { group: "Proxy".to_string(), policy: "jp".to_string() }
    );
    assert_eq!(app.policy_detail_index, None);
}

#[test]
fn toggles_ask_for_outside_work() {
    let mut app = App::new(1);
    app.snapshot.outbound_mode = Some(OutboundMode::Rule);
    app.snapshot.http_api_available = true;
    app.snapshot.mitm_enabled = Some(false);
    assert_eq!(app.handle_key(Key::Char('m')), KeyAction::SetOutboundMode(OutboundMode::Direct));
    assert_eq!(app.handle_key(Key::Char('i')), KeyAction::SetMitm(true));
    assert_eq!(app.handle_key(Key::Char('c')), KeyAction::Nothing);
    assert_eq!(app.handle_key(Key::Char('r')), KeyAction::Refresh);
    app.snapshot.alerts = vec![Alert::surge_not_running()];
    assert_eq!(app.handle_key(Key::Char('s')), KeyAction::StartSurge);
    app.snapshot.alerts = vec![Alert::http_api_disabled()];
    assert_eq!(app.handle_key(Key::Char('R')), KeyAction::ReloadConfig);
    app.current_view = ViewMode::Dns;
    assert_eq!(app.handle_key(Key::Char('f')), KeyAction::FlushDns);
}

#[test]
fn grouped_navigation_resets_inner_cursor() {
    let mut app = App::new(1);
    app.current_view = ViewMode::ActiveConnections;
    app.snapshot.active_connections = vec![conn(1, "/a/x"), conn(2, "/a/y"), conn(3, "/a/x")];
    app.handle_key(Key::Char('g'));
    assert!(app.grouped_mode);
    assert_eq!(app.get_grouped_app_count(), 2);
    app.selected_index = 1;
    assert_eq!(app.get_current_list_len(), 2);
    app.handle_key(Key::Char('k'));
    assert_eq!(app.show_kill_confirm, Some(3));
    app.show_kill_confirm = None;
    app.handle_key(Key::Right);
    assert_eq!(app.grouped_app_index, 1);
    assert_eq!(app.selected_index, 0);
    assert_eq!(app.get_current_list_len(), 1);
    app.handle_key(Key::Right);
    assert_eq!(app.grouped_app_index, 1);
    app.handle_key(Key::Left);
    assert_eq!(app.grouped_app_index, 0);
}

#[test]
fn refresh_clamps_cursor_and_overlays_cache() {
    let mut app = policy_app();
    app.handle_test_message(
        TestMessage::Completed {
            group_name: "Proxy".to_string(),
            results: vec![detail("hk", Some(80), true)],
        },
        &EnUS,
    );
    app.selected_index = 5;
    let mut fresh = AppSnapshot::new();
    fresh.policy_groups = vec![PolicyGroup {
        name: "Only".to_string(),
        policies: vec![],
        selected: None,
        available_policies: None,
    }];
    app.apply_snapshot(fresh, &EnUS);
    assert_eq!(app.selected_index, 0);
    assert_eq!(app.snapshot.policies.len(), 1);
    assert_eq!(app.snapshot.policies[0].name, "hk");
}

#[test]
fn test_lifecycle_updates_session() {
    let mut app = policy_app();
    let (run, started) = TestRun::begin("Proxy".to_string());
    assert!(matches!(started, TestMessage::Started));
    app.handle_test_message(started, &EnUS);
    assert!(app.testing_policy_group.is_some());
    let done = run.end(Ok(vec![
        detail("hk", Some(80), true),
        detail("us", None, false),
        detail("jp", Some(60), true),
        detail("zz", Some(1), true),
    ]));
    app.handle_test_message(done, &EnUS);
    assert!(app.testing_policy_group.is_none());
    assert_eq!(
        app.snapshot.policy_groups[0].available_policies,
        Some(vec!["hk".to_string(), "jp".to_string()])
    );
    assert_eq!(app.snapshot.policies.len(), 4);
    assert_eq!(app.policy_test_cache.len(), 4);
    let last = app.notifications.last().unwrap();
    assert_eq!(last.level, NotificationLevel::Success);
    assert_eq!(last.message, "Test completed: 3/4 available");
}

#[test]
fn failed_test_reports_error() {
    let mut app = App::new(1);
    let (run, started) = TestRun::begin("G".to_string());
    app.handle_test_message(started, &EnUS);
    let failed = run.end(Err(SurgeError::CliExecutionFailed {
        command: "surge-cli test-all-policies".to_string(),
        error: "exit 1".to_string(),
    }));
    app.handle_test_message(failed, &EnUS);
    assert!(app.testing_policy_group.is_none());
    let last = app.notifications.last().unwrap();
    assert_eq!(last.level, NotificationLevel::Error);
    assert_eq!(
        last.message,
        "Test failed: CLI command failed: surge-cli test-all-policies - exit 1"
    );
}

#[test]
fn notification_history_is_capped() {
    let mut app = App::new(1);
    for i in 0..60 {
        app.add_notification(Notification::info(format!("n{}", i)));
    }
    assert_eq!(app.notifications.len(), 50);
    assert_eq!(app.notifications[0].message, "n10");
    assert_eq!(app.notifications[49].message, "n59");
}

#[test]
fn action_outcomes_notify_and_refresh() {
    let mut app = App::new(1);
    assert!(app.on_action_done(&KeyAction::KillConnection(1), Ok(()), &EnUS));
    assert_eq!(app.notifications.last().unwrap().level, NotificationLevel::Success);
    assert!(!app.on_action_done(
        &KeyAction::FlushDns,
        Err(SurgeError::NetworkError { message: "x".to_string() }),
        &EnUS
    ));
    assert_eq!(
        app.notifications.last().unwrap().message,
        "Failed to flush DNS cache: Network error: x"
    );
    assert!(app.on_action_done(&KeyAction::Refresh, Ok(()), &EnUS));
    assert!(!app.on_action_done(&KeyAction::SetOutboundMode(OutboundMode::Proxy), Err(SurgeError::SurgeNotRunning), &EnUS));
    assert_eq!(app.notifications.len(), 2);
}

#[test]
fn notification_time_left_counts_down() {
    let n = Notification { message: String::new(), level: NotificationLevel::Info, created_at_ms: 1_000 };
    assert_eq!(n.remaining_time_at(1_000), 5);
    assert_eq!(n.remaining_time_at(3_500), 3);
    assert_eq!(n.remaining_time_at(60_000), 0);
    assert_eq!(n.remaining_time_at(0), 5);
    assert_eq!(n.icon(), "ℹ");
}

#[test]
fn second_test_is_rejected_while_one_runs() {
    let mut app = policy_app();
    let (_run, started) = TestRun::begin("Proxy".to_string());
    app.handle_test_message(started, &EnUS);
    assert_eq!(app.handle_key(Key::Char('t')), KeyAction::Nothing);
}
