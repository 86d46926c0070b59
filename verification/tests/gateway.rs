use payment_gateway::dispatch::{
    apply_dispatch_action, classify_status, dispatch_decision, run_dispatch, run_worker,
    stamp_requested_at, DispatchAction, DispatchEvent, SubmitOutcome, DUPLICATE_STATUS,
    RETRY_BACKOFF_MILLIS, WORKER_COUNT,
};
use payment_gateway::health::{
    coordinator_step, track_failure, update_health_check_with_failure_tracking, CoordinatorAction,
    CoordinatorEvent, CONNECT_RETRY_MILLIS, LOCK_RETRY_MILLIS, PROBE_CADENCE_MILLIS,
    PROBE_RETRY_MILLIS,
};
use payment_gateway::lease::{try_acquire, Lease};
use payment_gateway::ledger::{Ledger, LedgerPair};
use payment_gateway::model::{
    HealthCheck, HealthCheckResult, Payment, PaymentsSummary, ProcessorKind,
};
use payment_gateway::selector::{select_endpoint, SelectError};
use payment_gateway::timeparse::{parse_date, DateError};

fn healthy(min_response_time: u32) -> HealthCheck {
    HealthCheck { failing: false, min_response_time, failure_start_time: None }
}

fn failing(min_response_time: u32) -> HealthCheck {
    HealthCheck { failing: true, min_response_time, failure_start_time: None }
}

fn payment(id: &str, amount: u64, requested_at: i64) -> Payment {
    Payment { correlation_id: id.to_string(), amount, requested_at }
}

const JUN_1_NOON: i64 = 1748779200; // 2025-06-01T12:00:00Z
const JUN_1: i64 = 1748736000; // 2025-06-01T00:00:00Z
const JUN_2: i64 = 1748822400; // 2025-06-02T00:00:00Z

#[test]
fn selector_prefers_default_when_healthy() {
    let snapshot = HealthCheckResult {
        default_health_check: healthy(250),
        fallback_health_check: healthy(1),
    };
    // The fallback is far faster, yet default precedence is absolute.
    assert_eq!(
        select_endpoint(&Some(snapshot)),
        Ok(ProcessorKind::DefaultProcessor)
    );
}

#[test]
fn selector_uses_fallback_when_default_fails() {
    let snapshot = HealthCheckResult {
        default_health_check: failing(0),
        fallback_health_check: healthy(30),
    };
    assert_eq!(
        select_endpoint(&Some(snapshot)),
        Ok(ProcessorKind::FallbackProcessor)
    );
}

#[test]
fn selector_reports_when_both_fail() {
    let snapshot = HealthCheckResult {
        default_health_check: failing(0),
        fallback_health_check: failing(0),
    };
    assert_eq!(
        select_endpoint(&Some(snapshot)),
        Err(SelectError::NoProcessorAvailable)
    );
}

#[test]
fn selector_reports_unreadable_snapshot() {
    assert_eq!(select_endpoint(&None), Err(SelectError::SnapshotUnavailable));
}

#[test]
fn failure_start_is_set_on_transition_into_failing() {
    let merged = track_failure(failing(5), Some(healthy(5)), 1000);
    assert_eq!(merged.failure_start_time, Some(1000));
    assert!(merged.failing);

    let from_nothing = track_failure(failing(5), None, 2000);
    assert_eq!(from_nothing.failure_start_time, Some(2000));
}

#[test]
fn failure_start_is_held_across_a_failing_run() {
    let first = track_failure(failing(5), Some(healthy(5)), 1000);
    let second = track_failure(failing(7), Some(first), 1005);
    let third = track_failure(failing(9), Some(second), 1010);
    assert_eq!(second.failure_start_time, Some(1000));
    assert_eq!(third.failure_start_time, Some(1000));
}

#[test]
fn failure_start_is_cleared_on_recovery() {
    let run = track_failure(failing(5), Some(healthy(5)), 1000);
    let recovered = track_failure(healthy(5), Some(run), 1010);
    assert_eq!(recovered.failure_start_time, None);
    // A later, fresh failure starts a new run with its own time.
    let again = track_failure(failing(5), Some(recovered), 1020);
    assert_eq!(again.failure_start_time, Some(1020));
}

#[test]
fn repeated_identical_observations_change_nothing() {
    let first = track_failure(failing(5), Some(healthy(5)), 1000);
    let repeat = track_failure(failing(5), Some(first), 9999);
    assert_eq!(repeat, first);
}

#[test]
fn snapshot_merge_tracks_both_processors_independently() {
    let previous = HealthCheckResult {
        default_health_check: track_failure(failing(5), None, 400),
        fallback_health_check: healthy(8),
    };
    let probe = HealthCheckResult {
        default_health_check: failing(6),
        fallback_health_check: failing(9),
    };
    let merged = update_health_check_with_failure_tracking(probe, Some(previous), 500);
    assert_eq!(merged.default_health_check.failure_start_time, Some(400));
    assert_eq!(merged.fallback_health_check.failure_start_time, Some(500));
    assert_eq!(merged.default_health_check.min_response_time, 6);
}

#[test]
fn coordinator_waits_without_probing_when_lock_denied() {
    let action = coordinator_step(&CoordinatorEvent::LockDenied, 100);
    assert_eq!(action, CoordinatorAction::Wait(LOCK_RETRY_MILLIS));
    assert_eq!(LOCK_RETRY_MILLIS, 1000);
    // Store errors are non-fatal and wait the same second before retrying.
    assert_eq!(CONNECT_RETRY_MILLIS, 1000);
    assert_eq!(
        coordinator_step(&CoordinatorEvent::StoreUnavailable, 100),
        CoordinatorAction::Wait(CONNECT_RETRY_MILLIS)
    );
    assert_eq!(
        coordinator_step(&CoordinatorEvent::ProbeFailed, 100),
        CoordinatorAction::Wait(PROBE_RETRY_MILLIS)
    );
}

#[test]
fn coordinator_persists_merged_snapshot_after_probe() {
    let probe = HealthCheckResult {
        default_health_check: failing(2),
        fallback_health_check: healthy(3),
    };
    let action = coordinator_step(&CoordinatorEvent::Probed(probe, None), 800);
    let expected = update_health_check_with_failure_tracking(probe, None, 800);
    assert_eq!(action, CoordinatorAction::PersistAndWait(expected, PROBE_CADENCE_MILLIS));
    assert_eq!(PROBE_CADENCE_MILLIS, 5000);
}

#[test]
fn duplicate_conflict_finishes_without_a_ledger_write() {
    let event = DispatchEvent::Submitted(
        ProcessorKind::DefaultProcessor,
        SubmitOutcome::Rejected(DUPLICATE_STATUS),
    );
    assert_eq!(dispatch_decision(&event), DispatchAction::FinishWithoutRecord);

    let mut ledgers = LedgerPair::new();
    let p = payment("abc-1", 500, JUN_1_NOON);
    let finished = run_dispatch(&mut ledgers, &p, &vec![event]);
    assert_eq!(finished, Some(0));
    assert_eq!(ledgers.default_ledger.len(), 0);
    assert_eq!(ledgers.fallback_ledger.len(), 0);
}

#[test]
fn accepted_retry_of_recorded_id_overwrites_not_duplicates() {
    let mut ledger = Ledger::new();
    let p = payment("abc-1", 500, JUN_1_NOON);
    ledger.upsert(p.clone());
    ledger.upsert(p.clone());
    assert_eq!(ledger.len(), 1);
    assert!(ledger.contains_id(&p.correlation_id));
}

#[test]
fn server_errors_are_retried_at_fixed_backoff_and_block_the_worker() {
    assert_eq!(RETRY_BACKOFF_MILLIS, 200);
    let five_hundred = DispatchEvent::Submitted(
        ProcessorKind::DefaultProcessor,
        SubmitOutcome::Rejected(500),
    );
    assert_eq!(
        dispatch_decision(&five_hundred),
        DispatchAction::RetryAfter(RETRY_BACKOFF_MILLIS)
    );

    let mut ledgers = LedgerPair::new();
    let p = payment("stuck-1", 100, JUN_1_NOON);
    let script = vec![five_hundred; 50];
    let finished = run_dispatch(&mut ledgers, &p, &script);
    // Every attempt was retryable: the request never completes and
    // nothing is recorded, so the worker never moves to the next item.
    assert_eq!(finished, None);
    assert_eq!(ledgers.default_ledger.len(), 0);
    assert_eq!(ledgers.fallback_ledger.len(), 0);
}

#[test]
fn other_failures_are_retried_too() {
    let transport = DispatchEvent::Submitted(
        ProcessorKind::FallbackProcessor,
        SubmitOutcome::TransportFailed,
    );
    let unavailable = DispatchEvent::SelectionFailed(SelectError::SnapshotUnavailable);
    let nobody = DispatchEvent::SelectionFailed(SelectError::NoProcessorAvailable);
    let teapot = DispatchEvent::Submitted(
        ProcessorKind::DefaultProcessor,
        SubmitOutcome::Rejected(418),
    );
    for event in [transport, unavailable, nobody, teapot] {
        assert_eq!(
            dispatch_decision(&event),
            DispatchAction::RetryAfter(RETRY_BACKOFF_MILLIS)
        );
    }
}

#[test]
fn retries_end_at_the_first_decisive_outcome() {
    let five_hundred = DispatchEvent::Submitted(
        ProcessorKind::DefaultProcessor,
        SubmitOutcome::Rejected(500),
    );
    let accepted = DispatchEvent::Submitted(
        ProcessorKind::DefaultProcessor,
        SubmitOutcome::Accepted,
    );
    let mut ledgers = LedgerPair::new();
    let p = payment("late-1", 250, JUN_1_NOON);
    let script = vec![five_hundred, five_hundred, five_hundred, accepted, five_hundred];
    let finished = run_dispatch(&mut ledgers, &p, &script);
    assert_eq!(finished, Some(3));
    assert_eq!(ledgers.default_ledger.len(), 1);
    assert!(ledgers.default_ledger.contains_id(&p.correlation_id));
}

#[test]
fn status_is_accepted_exactly_on_2xx() {
    assert_eq!(classify_status(200), SubmitOutcome::Accepted);
    assert_eq!(classify_status(201), SubmitOutcome::Accepted);
    assert_eq!(classify_status(299), SubmitOutcome::Accepted);
    assert_eq!(classify_status(199), SubmitOutcome::Rejected(199));
    assert_eq!(classify_status(300), SubmitOutcome::Rejected(300));
    assert_eq!(classify_status(422), SubmitOutcome::Rejected(DUPLICATE_STATUS));
    assert_eq!(classify_status(500), SubmitOutcome::Rejected(500));
}

#[test]
fn stuck_request_blocks_its_worker_head_of_line() {
    assert_eq!(WORKER_COUNT, 4);
    let five_hundred = DispatchEvent::Submitted(
        ProcessorKind::DefaultProcessor,
        SubmitOutcome::Rejected(500),
    );
    let accepted = DispatchEvent::Submitted(
        ProcessorKind::DefaultProcessor,
        SubmitOutcome::Accepted,
    );
    let mut ledgers = LedgerPair::new();
    let queue = vec![
        payment("first", 100, JUN_1_NOON),
        payment("second", 200, JUN_1_NOON),
        payment("third", 300, JUN_1_NOON),
    ];
    let scripts = vec![
        vec![five_hundred, accepted],
        vec![five_hundred; 20],
        vec![accepted],
    ];
    let completed = run_worker(&mut ledgers, &queue, &scripts);
    // The first request completes; the second never does and blocks
    // the worker, so the third is never dequeued despite its script
    // accepting at once.
    assert_eq!(completed, 1);
    assert_eq!(ledgers.default_ledger.len(), 1);
    assert!(ledgers.default_ledger.contains_id(&queue[0].correlation_id));
    assert!(!ledgers.default_ledger.contains_id(&queue[2].correlation_id));
}

#[test]
fn dispatch_stamps_requested_at_over_intake_value() {
    let mut p = payment("stamp-1", 42, 1);
    stamp_requested_at(&mut p, JUN_1_NOON);
    assert_eq!(p.requested_at, JUN_1_NOON);
    assert_eq!(p.amount, 42);
    assert_eq!(p.correlation_id, "stamp-1");
}

#[test]
fn accepted_submission_lands_in_fallback_ledger_only() {
    let snapshot = HealthCheckResult {
        default_health_check: failing(0),
        fallback_health_check: healthy(10),
    };
    let selected = select_endpoint(&Some(snapshot)).unwrap();
    assert_eq!(selected, ProcessorKind::FallbackProcessor);

    let mut ledgers = LedgerPair::new();
    let p = payment("route-1", 990, JUN_1_NOON);
    let action = dispatch_decision(&DispatchEvent::Submitted(selected, SubmitOutcome::Accepted));
    assert_eq!(action, DispatchAction::RecordAndFinish(ProcessorKind::FallbackProcessor));
    apply_dispatch_action(&mut ledgers, &p, &action);
    assert_eq!(ledgers.fallback_ledger.len(), 1);
    assert_eq!(ledgers.default_ledger.len(), 0);
    assert!(ledgers.fallback_ledger.contains_id(&p.correlation_id));
}

#[test]
fn summary_counts_a_record_inside_the_range() {
    let mut ledgers = LedgerPair::new();
    let stamp = parse_date(Some(&"2025-06-01T12:00:00Z".to_string()), "").unwrap();
    assert_eq!(stamp, JUN_1_NOON);
    ledgers.record_payment(
        ProcessorKind::DefaultProcessor,
        payment("sum-1", 1990, stamp),
    );

    let from = parse_date(Some(&"2025-06-01T00:00:00Z".to_string()), "").unwrap();
    let to = parse_date(Some(&"2025-06-02T00:00:00Z".to_string()), "").unwrap();
    assert_eq!((from, to), (JUN_1, JUN_2));

    let report: PaymentsSummary = ledgers.payments_summary(from, to);
    assert_eq!(report.default_summary.total_requests, 1);
    assert_eq!(report.default_summary.total_amount, 1990);
    assert_eq!(report.fallback_summary.total_requests, 0);
    assert_eq!(report.fallback_summary.total_amount, 0);

    // A disjoint range excludes the record.
    let later = ledgers.payments_summary(JUN_2, JUN_2 + 86400);
    assert_eq!(later.default_summary.total_requests, 0);
    assert_eq!(later.default_summary.total_amount, 0);
}

#[test]
fn summary_range_is_inclusive_at_both_ends() {
    let mut ledger = Ledger::new();
    ledger.upsert(payment("edge-lo", 100, JUN_1));
    ledger.upsert(payment("edge-hi", 200, JUN_2));
    ledger.upsert(payment("outside", 400, JUN_2 + 1));
    let summary = ledger.summarize(JUN_1, JUN_2);
    assert_eq!(summary.total_requests, 2);
    assert_eq!(summary.total_amount, 300);
}

#[test]
fn summary_of_empty_ledgers_is_zero() {
    let ledgers = LedgerPair::new();
    let report = ledgers.payments_summary(JUN_1, JUN_2);
    assert_eq!(report.default_summary.total_requests, 0);
    assert_eq!(report.default_summary.total_amount, 0);
}

#[test]
fn parse_date_uses_preset_when_param_missing() {
    let from = parse_date(None, "2025-01-01T00:00:00Z").unwrap();
    assert_eq!(from, 1735689600);
    let to = parse_date(None, "2025-12-01T00:00:00Z").unwrap();
    assert_eq!(to, 1764547200);
}

#[test]
fn parse_date_rejects_malformed_input() {
    let bad = parse_date(Some(&"yesterday".to_string()), "2025-01-01T00:00:00Z");
    assert_eq!(bad, Err(DateError::Malformed));
    let also_bad = parse_date(Some(&"2025-13-01T00:00:00Z".to_string()), "");
    assert_eq!(also_bad, Err(DateError::Malformed));
}

#[test]
fn parse_date_honours_offsets() {
    // The same instant written with a +02:00 offset.
    let shifted = parse_date(Some(&"2025-06-01T14:00:00+02:00".to_string()), "").unwrap();
    assert_eq!(shifted, JUN_1_NOON);
}

#[test]
fn lease_admits_one_holder_per_window() {
    let mut lease = Lease { held: false, holder: 0, expires_at: 0 };
    assert!(try_acquire(&mut lease, 1, 100, 5));
    assert_eq!(lease.holder, 1);
    assert_eq!(lease.expires_at, 105);
    // Other instances, and the holder itself, fail inside the window.
    assert!(!try_acquire(&mut lease, 2, 103, 5));
    assert!(!try_acquire(&mut lease, 1, 104, 5));
    assert_eq!(lease.holder, 1);
}

#[test]
fn lease_recovers_after_holder_crashes_mid_window() {
    let mut lease = Lease { held: false, holder: 0, expires_at: 0 };
    assert!(try_acquire(&mut lease, 1, 100, 5));
    // The holder crashes and never probes again; once the window ends
    // another instance takes over.
    assert!(try_acquire(&mut lease, 2, 105, 5));
    assert_eq!(lease.holder, 2);
    assert_eq!(lease.expires_at, 110);
}
