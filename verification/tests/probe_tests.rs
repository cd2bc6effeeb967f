use backend_supervisor::probe::{
    ProbeStep, Prober, ReadinessOutcome, ReadinessTarget, DEFAULT_BACKOFF_MS,
    DEFAULT_MAX_ATTEMPTS, DEFAULT_PORT, DEFAULT_SETTLE_MS,
};

fn target(max_attempts: u32, backoff_ms: u64, settle_ms: u64) -> ReadinessTarget {
    ReadinessTarget {
        host: String::from("localhost"),
        port: 9000,
        max_attempts,
        backoff_ms,
        settle_ms,
    }
}

/// Feeds `results` to a fresh prober the way a caller would, and returns the
/// outcome, if the probe ended, with the pauses it asked for.
fn drive(target: ReadinessTarget, results: &[bool]) -> (Option<ReadinessOutcome>, Vec<u64>) {
    let mut prober = Prober::new(target);
    let mut pauses = Vec::new();
    for &connected in results {
        match prober.next() {
            ProbeStep::Connect => pauses.push(prober.record(connected)),
            ProbeStep::Finish(outcome) => return (Some(outcome), pauses),
        }
    }
    match prober.next() {
        ProbeStep::Connect => (None, pauses),
        ProbeStep::Finish(outcome) => (Some(outcome), pauses),
    }
}

#[test]
fn loopback_target_has_the_defaults() {
    let t = ReadinessTarget::loopback();
    assert_eq!(t.host, "127.0.0.1");
    assert_eq!(t.port, 8000);
    assert_eq!(t.max_attempts, 120);
    assert_eq!(t.backoff_ms, 250);
    assert_eq!(t.settle_ms, 300);
    assert_eq!(DEFAULT_PORT, 8000);
    assert_eq!(DEFAULT_MAX_ATTEMPTS, 120);
    assert_eq!(DEFAULT_BACKOFF_MS, 250);
    assert_eq!(DEFAULT_SETTLE_MS, 300);
}

#[test]
fn prober_keeps_its_target() {
    let prober = Prober::new(target(3, 10, 20));
    assert_eq!(prober.target(), &target(3, 10, 20));
}

#[test]
fn fresh_prober_asks_for_a_connection() {
    let prober = Prober::new(ReadinessTarget::loopback());
    assert_eq!(prober.next(), ProbeStep::Connect);
}

#[test]
fn first_attempt_success_reports_one_attempt() {
    let mut prober = Prober::new(ReadinessTarget::loopback());
    assert_eq!(prober.next(), ProbeStep::Connect);
    assert_eq!(prober.record(true), 300);
    assert_eq!(
        prober.next(),
        ProbeStep::Finish(ReadinessOutcome { ready: true, attempts: 1 })
    );
}

#[test]
fn failed_attempt_owes_the_backoff() {
    let mut prober = Prober::new(ReadinessTarget::loopback());
    assert_eq!(prober.record(false), 250);
    assert_eq!(prober.next(), ProbeStep::Connect);
}

#[test]
fn exhaustion_with_defaults_takes_every_attempt() {
    let results = vec![false; 120];
    let (outcome, pauses) = drive(ReadinessTarget::loopback(), &results);
    assert_eq!(outcome, Some(ReadinessOutcome { ready: false, attempts: 120 }));
    assert_eq!(pauses.len(), 120);
    assert!(pauses.iter().all(|&p| p == 250));
    assert_eq!(pauses.iter().sum::<u64>(), 30_000);
}

#[test]
fn probe_is_not_over_before_the_budget_is_used() {
    let results = vec![false; 119];
    let (outcome, pauses) = drive(ReadinessTarget::loopback(), &results);
    assert_eq!(outcome, None);
    assert_eq!(pauses.iter().sum::<u64>(), 119 * 250);
}

#[test]
fn listener_that_binds_late_is_found_within_the_budget() {
    let (outcome, pauses) = drive(ReadinessTarget::loopback(), &[false, true]);
    assert_eq!(outcome, Some(ReadinessOutcome { ready: true, attempts: 2 }));
    assert_eq!(pauses, vec![250, 300]);
}

#[test]
fn success_on_the_last_attempt_counts() {
    let (outcome, pauses) = drive(target(3, 10, 20), &[false, false, true]);
    assert_eq!(outcome, Some(ReadinessOutcome { ready: true, attempts: 3 }));
    assert_eq!(pauses, vec![10, 10, 20]);
}

#[test]
fn attempts_after_the_budget_are_not_made() {
    let (outcome, pauses) = drive(target(2, 10, 20), &[false, false, true, true]);
    assert_eq!(outcome, Some(ReadinessOutcome { ready: false, attempts: 2 }));
    assert_eq!(pauses, vec![10, 10]);
}

#[test]
fn results_after_the_first_success_are_not_asked_for() {
    let (outcome, pauses) = drive(target(5, 10, 20), &[true, false, true]);
    assert_eq!(outcome, Some(ReadinessOutcome { ready: true, attempts: 1 }));
    assert_eq!(pauses, vec![20]);
}

#[test]
fn record_on_a_finished_probe_changes_nothing() {
    let mut prober = Prober::new(target(1, 10, 20));
    assert_eq!(prober.record(false), 10);
    let over = ProbeStep::Finish(ReadinessOutcome { ready: false, attempts: 1 });
    assert_eq!(prober.next(), over);
    assert_eq!(prober.record(true), 0);
    assert_eq!(prober.next(), over);

    let mut prober = Prober::new(target(4, 10, 20));
    assert_eq!(prober.record(true), 20);
    let over = ProbeStep::Finish(ReadinessOutcome { ready: true, attempts: 1 });
    assert_eq!(prober.record(false), 0);
    assert_eq!(prober.next(), over);
}

#[test]
fn empty_budget_fails_without_an_attempt() {
    let mut prober = Prober::new(target(0, 10, 20));
    let over = ProbeStep::Finish(ReadinessOutcome { ready: false, attempts: 0 });
    assert_eq!(prober.next(), over);
    assert_eq!(prober.record(true), 0);
    assert_eq!(prober.next(), over);
}

#[test]
fn largest_budget_and_pauses_are_handled() {
    let mut prober = Prober::new(target(u32::MAX, u64::MAX, u64::MAX));
    assert_eq!(prober.record(false), u64::MAX);
    assert_eq!(prober.record(true), u64::MAX);
    assert_eq!(
        prober.next(),
        ProbeStep::Finish(ReadinessOutcome { ready: true, attempts: 2 })
    );
}
