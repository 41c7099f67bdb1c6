use report_watchdog::account::Account;
use report_watchdog::config::resolve_config;
use report_watchdog::config::split_commas_exec;
use report_watchdog::error::WatchdogError;
use report_watchdog::evaluate::evaluate;
use report_watchdog::evaluate::evaluate_at_current_time;
use report_watchdog::evaluate::AGE_THRESHOLD_SECONDS;
use report_watchdog::fetch::classify_status;
use report_watchdog::report::Report;
use report_watchdog::retry::RetryPolicy;
use report_watchdog::retry::RetryState;
use report_watchdog::retry::FAILURE_THRESHOLD;
use report_watchdog::retry::POLL_INTERVAL_SECONDS;
use report_watchdog::retry::RETRY_BACKOFF_SECONDS;
use report_watchdog::webhook::json_escape;
use report_watchdog::webhook::report_notification;
use report_watchdog::webhook::webhook_payload;

const NOW: i64 = 1_700_000_000;

fn local_account(username: &str) -> Account {
    Account { username: username.to_string(), domain: None }
}

fn remote_account(username: &str, domain: &str) -> Account {
    Account { username: username.to_string(), domain: Some(domain.to_string()) }
}

fn report_aged(action_taken: bool, age_seconds: i64) -> Report {
    Report {
        action_taken,
        category: "spam".to_string(),
        comment: "please look".to_string(),
        account: remote_account("alice", "example.org"),
        target_account: local_account("bob"),
        created_at: NOW - age_seconds,
    }
}

#[test]
fn twenty_four_hour_report_requires_shutdown() {
    let verdict = evaluate(vec![report_aged(false, 24 * 3600)], NOW);
    assert!(verdict.shutdown_required);
    assert_eq!(verdict.triggering_report, Some(report_aged(false, 24 * 3600)));
}

#[test]
fn resolved_report_requires_nothing() {
    let verdict = evaluate(vec![report_aged(true, 48 * 3600)], NOW);
    assert!(!verdict.shutdown_required);
    assert_eq!(verdict.triggering_report, None);
}

#[test]
fn empty_list_not_required() {
    let verdict = evaluate(Vec::new(), NOW);
    assert!(!verdict.shutdown_required);
    assert_eq!(verdict.triggering_report, None);
}

#[test]
fn exact_threshold_not_required() {
    let verdict = evaluate(vec![report_aged(false, AGE_THRESHOLD_SECONDS)], NOW);
    assert!(!verdict.shutdown_required);
    assert_eq!(verdict.triggering_report, None);
}

#[test]
fn one_second_past_threshold_required() {
    let verdict = evaluate(
        vec![report_aged(false, AGE_THRESHOLD_SECONDS + 1), report_aged(false, AGE_THRESHOLD_SECONDS + 1)],
        NOW,
    );
    assert!(verdict.shutdown_required);
    assert_eq!(verdict.triggering_report, Some(report_aged(false, AGE_THRESHOLD_SECONDS + 1)));
}

#[test]
fn resolved_reports_do_not_influence_the_verdict() {
    let resolved_older = report_aged(true, 48 * 3600);
    let unresolved = report_aged(false, 25 * 3600);
    let verdict = evaluate(vec![resolved_older, report_aged(false, 3600)], NOW);
    assert!(!verdict.shutdown_required);
    let verdict = evaluate(vec![report_aged(true, 48 * 3600), unresolved], NOW);
    assert!(verdict.shutdown_required);
    assert_eq!(verdict.triggering_report, Some(report_aged(false, 25 * 3600)));
}

#[test]
fn future_timestamp_never_triggers() {
    let verdict = evaluate(vec![report_aged(false, -3600)], NOW);
    assert!(!verdict.shutdown_required);
}

#[test]
fn first_overdue_in_input_order_triggers() {
    let mut first_overdue = report_aged(false, 30 * 3600);
    first_overdue.category = "first".to_string();
    let mut second_overdue = report_aged(false, 40 * 3600);
    second_overdue.category = "second".to_string();
    let verdict = evaluate(vec![report_aged(false, 3600), first_overdue, second_overdue], NOW);
    let triggering = verdict.triggering_report.expect("a verdict was owed");
    assert_eq!(triggering.category, "first");
}

#[test]
fn api_error_keeps_code_and_body() {
    let outcome = classify_status(500, "server error".to_string());
    assert_eq!(outcome, Err(WatchdogError::Api { code: 500, body: "server error".to_string() }));
}

#[test]
fn success_status_hands_the_body_on() {
    let outcome = classify_status(200, "[]".to_string());
    assert_eq!(outcome, Ok("[]".to_string()));
}

#[test]
fn transport_failure_is_connectivity() {
    let error = WatchdogError::from(minreq::Error::MalformedChunkLength);
    assert_eq!(error, WatchdogError::Connectivity);
}

#[test]
fn malformed_payload_is_decode() {
    let json_error = serde_json::from_str::<serde_json::Value>("not json").unwrap_err();
    assert_eq!(WatchdogError::from(json_error), WatchdogError::Decode);
}

#[test]
fn remote_account_display_form() {
    assert_eq!(remote_account("alice", "example.org").format_username(), "@alice@example.org");
}

#[test]
fn local_account_display_form() {
    assert_eq!(local_account("bob").format_username(), "@bob");
}

#[test]
fn escalates_exactly_past_threshold() {
    let mut policy = RetryPolicy::new();
    assert_eq!(policy.state, RetryState::Idle);
    for k in 1..=FAILURE_THRESHOLD {
        assert!(!policy.on_failure());
        assert_eq!(policy.state, RetryState::Retrying { count: k });
    }
    assert!(policy.on_failure());
    assert_eq!(policy.state, RetryState::Escalated);
}

#[test]
fn escalation_is_reported_once_per_crossing() {
    let mut policy = RetryPolicy::new();
    for _ in 0..=FAILURE_THRESHOLD {
        policy.on_failure();
    }
    assert_eq!(policy.state, RetryState::Escalated);
    assert!(!policy.on_failure());
    assert_eq!(policy.state, RetryState::Escalated);
}

#[test]
fn success_resets_the_failure_count() {
    let mut policy = RetryPolicy::new();
    for _ in 0..3 {
        policy.on_failure();
    }
    policy.on_success();
    assert_eq!(policy.state, RetryState::Idle);
    for k in 1..=FAILURE_THRESHOLD {
        assert!(!policy.on_failure());
        assert_eq!(policy.state, RetryState::Retrying { count: k });
    }
    assert!(policy.on_failure());
}

#[test]
fn backoff_is_short_while_retrying() {
    let mut policy = RetryPolicy::new();
    assert_eq!(policy.next_delay_seconds(), POLL_INTERVAL_SECONDS);
    policy.on_failure();
    assert_eq!(policy.next_delay_seconds(), RETRY_BACKOFF_SECONDS);
    for _ in 0..FAILURE_THRESHOLD {
        policy.on_failure();
    }
    assert_eq!(policy.next_delay_seconds(), POLL_INTERVAL_SECONDS);
    policy.on_success();
    assert_eq!(policy.next_delay_seconds(), POLL_INTERVAL_SECONDS);
}

#[test]
fn missing_token_is_fatal() {
    let resolved = resolve_config(None, Some("https://hooks.example".to_string()), None, None);
    assert_eq!(resolved, Err(WatchdogError::Configuration));
}

#[test]
fn missing_webhook_url_is_fatal() {
    let resolved = resolve_config(Some("token".to_string()), None, None, None);
    assert_eq!(resolved, Err(WatchdogError::Configuration));
}

#[test]
fn optional_values_get_their_defaults() {
    let config = resolve_config(
        Some("token".to_string()),
        Some("https://hooks.example".to_string()),
        None,
        None,
    )
    .expect("required values are present");
    assert_eq!(config.token, "token");
    assert_eq!(config.webhook_url, "https://hooks.example");
    assert_eq!(config.service, "mastodon");
    assert!(config.users_to_follow.is_empty());
}

#[test]
fn supplied_values_are_kept() {
    let config = resolve_config(
        Some("token".to_string()),
        Some("https://hooks.example".to_string()),
        Some("mstdn".to_string()),
        Some("a@x,b".to_string()),
    )
    .expect("required values are present");
    assert_eq!(config.service, "mstdn");
    assert_eq!(config.users_to_follow, vec!["a@x".to_string(), "b".to_string()]);
}

#[test]
fn split_commas_splits_every_comma() {
    assert_eq!(split_commas_exec("a,b,c"), vec!["a", "b", "c"]);
    assert_eq!(split_commas_exec(""), vec![""]);
    assert_eq!(split_commas_exec("a,,b"), vec!["a", "", "b"]);
    assert_eq!(split_commas_exec(",x,"), vec!["", "x", ""]);
}

#[test]
fn payload_has_the_documented_shape() {
    let payload = webhook_payload("c", "t", "d", "@a", "@b");
    let expected = "{\"content\": \"c\", \"embeds\": [{\"title\": \"t\", \"description\": \"d\", \"color\": 16711680, \"fields\": [{\"name\": \"auteur\", \"value\": \"@a\", \"inline\": true}, {\"name\": \"target\", \"value\": \"@b\", \"inline\": true}]}], \"attachments\": []}";
    assert_eq!(payload, expected);
}

#[test]
fn plain_text_passes_through_the_escape() {
    assert_eq!(json_escape("plain text, nothing special"), "plain text, nothing special");
    assert_eq!(json_escape(""), "");
}

#[test]
fn quotes_and_backslashes_are_escaped() {
    assert_eq!(json_escape("a\"b"), "a\\\"b");
    assert_eq!(json_escape("a\\b"), "a\\\\b");
    assert_eq!(json_escape("\"\\\""), "\\\"\\\\\\\"");
}

#[test]
fn control_characters_are_escaped() {
    assert_eq!(json_escape("a\nb\tc\rd"), "a\\nb\\tc\\rd");
    assert_eq!(json_escape("\u{0008}\u{000c}"), "\\b\\f");
    assert_eq!(json_escape("\u{0001}x\u{001f}"), "\\u0001x\\u001f");
}

#[test]
fn payload_is_json_carrying_the_texts_verbatim() {
    let content = "look\nat \"this\" \\ case\u{0001}";
    let comment = "a \"quoted\" comment";
    let payload = webhook_payload(content, "spam", comment, "@a\"x", "@b");
    let value: serde_json::Value = serde_json::from_str(&payload).expect("the payload is JSON");
    assert_eq!(value.get("content").unwrap().as_str().unwrap(), content);
    let embed = value.get("embeds").unwrap().get(0).unwrap();
    assert_eq!(embed.get("title").unwrap().as_str().unwrap(), "spam");
    assert_eq!(embed.get("description").unwrap().as_str().unwrap(), comment);
    let fields = embed.get("fields").unwrap();
    assert_eq!(fields.get(0).unwrap().get("value").unwrap().as_str().unwrap(), "@a\"x");
    assert_eq!(fields.get(1).unwrap().get("value").unwrap().as_str().unwrap(), "@b");
}

#[test]
fn notification_uses_the_display_forms() {
    let report = report_aged(false, 24 * 3600);
    let payload = report_notification("overdue", &report);
    let expected = webhook_payload("overdue", "spam", "please look", "@alice@example.org", "@bob");
    assert_eq!(payload, expected);
}

#[test]
fn evaluation_at_the_current_time_sees_old_reports() {
    let mut report = report_aged(false, 0);
    report.created_at = 0;
    let (verdict, now) = evaluate_at_current_time(vec![report]);
    assert!(now > AGE_THRESHOLD_SECONDS);
    assert!(verdict.shutdown_required);
    assert_eq!(verdict.triggering_report.expect("one report is overdue").created_at, 0);
}
