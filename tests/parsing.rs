use surge_tui::cli::SurgeCliClient;
use surge_tui::system::SurgeSystemClient;

#[test]
fn empty_line_yields_no_entry() {
    assert_eq!(SurgeCliClient::parse_test_line(""), None);
    assert_eq!(SurgeCliClient::parse_test_line("   "), None);
}

#[test]
fn success_line_parses_name_and_rtt() {
    assert_eq!(
        SurgeCliClient::parse_test_line("Hong Kong: RTT 87 ms, Total 120 ms"),
        Some(("Hong Kong".to_string(), Some(87), true))
    );
}

#[test]
fn failed_line_parses_as_dead() {
    assert_eq!(
        SurgeCliClient::parse_test_line("US-West: Failed"),
        Some(("US-West".to_string(), None, false))
    );
}

#[test]
fn surrounding_whitespace_is_trimmed() {
    assert_eq!(
        SurgeCliClient::parse_test_line("  Tokyo 1 :   RTT  5 ms, Total 9 ms \r"),
        Some(("Tokyo 1".to_string(), Some(5), true))
    );
}

#[test]
fn malformed_lines_are_dropped() {
    assert_eq!(SurgeCliClient::parse_test_line("no colon here"), None);
    assert_eq!(SurgeCliClient::parse_test_line("A: RTT abc ms"), None);
    assert_eq!(SurgeCliClient::parse_test_line("A: RTT ms"), None);
    assert_eq!(SurgeCliClient::parse_test_line("A: Timeout"), None);
    assert_eq!(SurgeCliClient::parse_test_line("A: RTT 99999999999 ms"), None);
    assert_eq!(SurgeCliClient::parse_test_line("A: RTT 12"), None);
}

#[test]
fn name_keeps_text_before_first_colon() {
    assert_eq!(
        SurgeCliClient::parse_test_line("a:b: Failed"),
        None
    );
    assert_eq!(
        SurgeCliClient::parse_test_line("日本: RTT 300 ms, Total 400 ms"),
        Some(("日本".to_string(), Some(300), true))
    );
}

#[test]
fn bulk_output_keeps_parsed_lines_in_order() {
    let out = "Hong Kong: RTT 87 ms, Total 120 ms\n\nUS-West: Failed\ngarbage\r\nJP: RTT 1 ms, Total 2 ms\n";
    let r = SurgeCliClient::parse_test_output(out);
    assert_eq!(
        r,
        vec![
            ("Hong Kong".to_string(), Some(87), true),
            ("US-West".to_string(), None, false),
            ("JP".to_string(), Some(1), true),
        ]
    );
    assert!(SurgeCliClient::parse_test_output("").is_empty());
}

#[test]
fn cli_path_defaults_when_absent() {
    assert_eq!(
        SurgeCliClient::new(None).cli_path,
        "/Applications/Surge.app/Contents/Applications/surge-cli"
    );
    assert_eq!(SurgeCliClient::new(Some("/bin/x".to_string())).cli_path, "/bin/x");
}

#[test]
fn pid_parses_trimmed_number() {
    assert_eq!(SurgeSystemClient::parse_pid("1234\n"), Some(1234));
    assert_eq!(SurgeSystemClient::parse_pid("+7"), Some(7));
    assert_eq!(SurgeSystemClient::parse_pid("12 34"), None);
    assert_eq!(SurgeSystemClient::parse_pid(""), None);
}

#[test]
fn stop_without_process_counts_as_success() {
    assert!(SurgeSystemClient::stop_outcome(true, "").is_ok());
    assert!(SurgeSystemClient::stop_outcome(false, "killall: No matching processes belonging to you were found").is_ok());
    let e = SurgeSystemClient::stop_outcome(false, "denied").unwrap_err();
    assert_eq!(e.message(), "Unknown error: Failed to stop Surge: denied");
    let e = SurgeSystemClient::start_outcome(false, "boom").unwrap_err();
    assert_eq!(e.message(), "Unknown error: Failed to start Surge: boom");
    assert!(SurgeSystemClient::start_outcome(true, "").is_ok());
}
