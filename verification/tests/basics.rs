use website_checker::config::{Config, ShutdownSignal};
use website_checker::util::{check_guess, is_even, now_epoch_secs};

#[test]
fn config_accepts_positive_workers_and_timeout() {
    let cfg = Config::new(50, 5000, 2, None).unwrap();
    assert_eq!(cfg.worker_count, 50);
    assert_eq!(cfg.timeout_ms, 5000);
    assert_eq!(cfg.max_retries, 2);
    assert_eq!(cfg.interval_secs, None);
}

#[test]
fn config_rejects_zero_workers() {
    assert!(Config::new(0, 5000, 2, None).is_none());
}

#[test]
fn config_rejects_zero_timeout() {
    assert!(Config::new(1, 0, 2, None).is_none());
}

#[test]
fn config_keeps_interval() {
    let cfg = Config::new(1, 1000, 0, Some(60)).unwrap();
    assert_eq!(cfg.interval_secs, Some(60));
}

#[test]
fn shutdown_is_one_way() {
    let mut sd = ShutdownSignal::new();
    assert!(!sd.is_set());
    sd.set();
    assert!(sd.is_set());
    sd.set();
    assert!(sd.is_set());
}

#[test]
fn parity() {
    assert!(is_even(0));
    assert!(is_even(22));
    assert!(!is_even(7));
    assert!(is_even(-4));
    assert!(!is_even(-3));
}

#[test]
fn guess_comparison() {
    assert_eq!(check_guess(7, 7), 0);
    assert_eq!(check_guess(8, 7), 1);
    assert_eq!(check_guess(3, 7), -1);
}

#[test]
fn clock_reads_after_epoch() {
    // any sane wall clock on a running machine is far past the year 2001
    assert!(now_epoch_secs() > 1_000_000_000);
}
