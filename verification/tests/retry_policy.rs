use website_checker::config::Config;
use website_checker::outcome::ProbeOutcome;
use website_checker::retry::{backoff_delay, check_site, retry_decision, sat_add_u64, RetryAction};

fn down(msg: &str, elapsed_ms: u64) -> ProbeOutcome {
    ProbeOutcome::Down { error: msg.to_string(), elapsed_ms }
}

fn up(code: u16, elapsed_ms: u64) -> ProbeOutcome {
    ProbeOutcome::Up { code, elapsed_ms }
}

#[test]
fn exhaustion_makes_all_attempts_and_keeps_last_error() {
    let cfg = Config::new(1, 5000, 2, None).unwrap();
    let plan = vec![down("e1", 10), down("e2", 10), down("e3", 10)];
    let (ws, attempts) = check_site("https://x.test", &cfg, &plan, 42);
    assert_eq!(attempts, 3);
    assert_eq!(ws.status, Err("e3".to_string()));
    assert_eq!(ws.url, "https://x.test".to_string());
    assert_eq!(ws.timestamp_epoch_secs, 42);
}

#[test]
fn elapsed_spans_attempts_and_backoffs_on_exhaustion() {
    let cfg = Config::new(1, 5000, 2, None).unwrap();
    let plan = vec![down("a", 10), down("b", 10), down("c", 10)];
    let (ws, _) = check_site("https://x.test", &cfg, &plan, 0);
    // three probe durations plus the 100 ms and 200 ms backoff sleeps
    assert!(ws.response_time_ms >= 300 + 30);
    assert_eq!(ws.response_time_ms, 330);
}

#[test]
fn first_success_stops_retrying() {
    let cfg = Config::new(1, 5000, 3, None).unwrap();
    let plan = vec![down("e1", 5), down("e2", 5), up(204, 5), down("never seen", 5)];
    let (ws, attempts) = check_site("https://x.test", &cfg, &plan, 7);
    assert_eq!(attempts, 3);
    assert_eq!(ws.status, Ok(204));
    // backoff after the two failures: 100 ms + 200 ms
    assert!(ws.response_time_ms >= 300);
    assert_eq!(ws.response_time_ms, 315);
}

#[test]
fn immediate_success_makes_one_attempt() {
    let cfg = Config::new(1, 5000, 2, None).unwrap();
    let plan = vec![up(200, 12), down("unused", 1), down("unused", 1)];
    let (ws, attempts) = check_site("https://x.test", &cfg, &plan, 9);
    assert_eq!(attempts, 1);
    assert_eq!(ws.status, Ok(200));
    assert_eq!(ws.response_time_ms, 12);
}

#[test]
fn http_error_codes_count_as_success() {
    let cfg = Config::new(1, 5000, 1, None).unwrap();
    let plan = vec![up(404, 3), down("unused", 1)];
    let (ws, attempts) = check_site("https://x.test", &cfg, &plan, 1);
    assert_eq!(attempts, 1);
    assert_eq!(ws.status, Ok(404));
}

#[test]
fn zero_retries_means_single_attempt() {
    let cfg = Config::new(1, 5000, 0, None).unwrap();
    let plan = vec![down("only", 8)];
    let (ws, attempts) = check_site("https://x.test", &cfg, &plan, 3);
    assert_eq!(attempts, 1);
    assert_eq!(ws.status, Err("only".to_string()));
    assert_eq!(ws.response_time_ms, 8);
}

#[test]
fn outcome_reports_reachability() {
    assert!(up(500, 1).is_up());
    assert!(!down("unreachable", 1).is_up());
}

#[test]
fn decision_finishes_on_success() {
    assert!(matches!(retry_decision(0, 5, true), RetryAction::Finish));
}

#[test]
fn decision_finishes_when_budget_spent() {
    assert!(matches!(retry_decision(2, 2, false), RetryAction::Finish));
}

#[test]
fn decision_backs_off_linearly() {
    match retry_decision(0, 2, false) {
        RetryAction::Backoff { delay_ms } => assert_eq!(delay_ms, 100),
        RetryAction::Finish => panic!("expected a backoff"),
    }
    match retry_decision(1, 2, false) {
        RetryAction::Backoff { delay_ms } => assert_eq!(delay_ms, 200),
        RetryAction::Finish => panic!("expected a backoff"),
    }
}

#[test]
fn backoff_delay_formula() {
    assert_eq!(backoff_delay(0), 100);
    assert_eq!(backoff_delay(4), 500);
}

#[test]
fn saturating_add_caps_at_max() {
    assert_eq!(sat_add_u64(1, 2), 3);
    assert_eq!(sat_add_u64(u64::MAX - 1, 5), u64::MAX);
    let cfg = Config::new(1, 5000, 1, None).unwrap();
    let plan = vec![down("slow", u64::MAX), down("slow again", u64::MAX)];
    let (ws, _) = check_site("https://x.test", &cfg, &plan, 0);
    assert_eq!(ws.response_time_ms, u64::MAX);
}
