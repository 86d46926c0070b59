//! Health monitoring: merging fresh probe results with the previous
//! snapshot, and the per-cycle decision of the coordinator loop.
//!
//! `failure_start_time` tracks an uninterrupted run of failing
//! observations: it is set when a processor transitions into failing,
//! held unchanged while consecutive probes keep reporting failing, and
//! cleared on the first non-failing observation.

use vstd::prelude::*;

use crate::lease::{lemma_lease_exclusive, spec_acquire, spec_available, Lease};
use crate::model::{HealthCheck, HealthCheckResult};

verus! {

/// Wait before retrying when the store yields no connection, in
/// milliseconds; store errors are non-fatal and answered by a
/// one-second pause, like failed probes.
pub const CONNECT_RETRY_MILLIS: u64 = 1000;

/// Wait before retrying when the probe lock is held elsewhere, in milliseconds.
pub const LOCK_RETRY_MILLIS: u64 = 1000;

/// Wait before retrying after a failed probe, in milliseconds.
pub const PROBE_RETRY_MILLIS: u64 = 1000;

/// Cadence between successful probe cycles, in milliseconds.
pub const PROBE_CADENCE_MILLIS: u64 = 5000;

/// Lease duration of the cross-instance probe lock, in seconds.
pub const LOCK_LEASE_SECONDS: i64 = 5;

/// One processor's health after merging a fresh observation with the
/// previously persisted one: the observation's `failing` and
/// `min_response_time` are kept, and `failure_start_time` follows the
/// run-tracking rule.
pub open spec fn spec_track_failure(
    current: HealthCheck,
    previous: Option<HealthCheck>,
    now: i64,
) -> HealthCheck {
    HealthCheck {
        failing: current.failing,
        min_response_time: current.min_response_time,
        failure_start_time: if current.failing {
            match previous {
                Option::Some(prev) => if prev.failing {
                    prev.failure_start_time
                } else {
                    Option::Some(now)
                },
                Option::None => Option::Some(now),
            }
        } else {
            Option::None
        },
    }
}

/// The merged snapshot: both processors tracked independently.
pub open spec fn spec_update_health(
    current: HealthCheckResult,
    previous: Option<HealthCheckResult>,
    now: i64,
) -> HealthCheckResult {
    HealthCheckResult {
        default_health_check: spec_track_failure(
            current.default_health_check,
            match previous {
                Option::Some(p) => Option::Some(p.default_health_check),
                Option::None => Option::None,
            },
            now,
        ),
        fallback_health_check: spec_track_failure(
            current.fallback_health_check,
            match previous {
                Option::Some(p) => Option::Some(p.fallback_health_check),
                Option::None => Option::None,
            },
            now,
        ),
    }
}

/// Merge a fresh probe result with the previously persisted snapshot
/// at time `now` (epoch seconds), applying the failure-run rule to
/// each processor. Whatever `failure_start_time` the probe itself
/// carried is discarded.
pub fn update_health_check_with_failure_tracking(
    current: HealthCheckResult,
    previous: Option<HealthCheckResult>,
    now: i64,
) -> (merged: HealthCheckResult)
    ensures
        merged == spec_update_health(current, previous, now),
{
    let default_previous = match previous {
        Option::Some(p) => Option::Some(p.default_health_check),
        Option::None => Option::None,
    };
    let fallback_previous = match previous {
        Option::Some(p) => Option::Some(p.fallback_health_check),
        Option::None => Option::None,
    };
    HealthCheckResult {
        default_health_check: track_failure(current.default_health_check, default_previous, now),
        fallback_health_check: track_failure(
            current.fallback_health_check,
            fallback_previous,
            now,
        ),
    }
}

/// Apply the failure-run rule to one processor.
pub fn track_failure(current: HealthCheck, previous: Option<HealthCheck>, now: i64) -> (merged:
    HealthCheck)
    ensures
        merged == spec_track_failure(current, previous, now),
{
    let failure_start_time = if current.failing {
        match previous {
            Option::Some(prev) => if prev.failing {
                prev.failure_start_time
            } else {
                Option::Some(now)
            },
            Option::None => Option::Some(now),
        }
    } else {
        Option::None
    };
    HealthCheck { failing: current.failing, min_response_time: current.min_response_time, failure_start_time }
}

/// Law: on the transition into failing (no previous snapshot, or a
/// previous one that was not failing) the failure start is set to the
/// merge time.
pub proof fn lemma_failure_start_set_on_transition(
    current: HealthCheck,
    previous: Option<HealthCheck>,
    now: i64,
)
    requires
        current.failing,
        match previous {
            Option::Some(p) => !p.failing,
            Option::None => true,
        },
    ensures
        spec_track_failure(current, previous, now).failure_start_time == Option::Some(now),
{
}

/// Law: while consecutive observations keep failing, the failure
/// start recorded at the beginning of the run is held unchanged.
pub proof fn lemma_failure_start_held(current: HealthCheck, previous: HealthCheck, now: i64)
    requires
        current.failing,
        previous.failing,
    ensures
        spec_track_failure(current, Option::Some(previous), now).failure_start_time
            == previous.failure_start_time,
{
}

/// Law: the first non-failing observation clears the failure start.
pub proof fn lemma_failure_start_cleared(
    current: HealthCheck,
    previous: Option<HealthCheck>,
    now: i64,
)
    requires
        !current.failing,
    ensures
        spec_track_failure(current, previous, now).failure_start_time is None,
{
}

/// Law: merging is stable under repeated identical observations;
/// observing the same health again, at any later time, changes
/// nothing.
pub proof fn lemma_repeated_observation_stable(
    current: HealthCheck,
    previous: Option<HealthCheck>,
    first: i64,
    second: i64,
)
    ensures
        spec_track_failure(
            current,
            Option::Some(spec_track_failure(current, previous, first)),
            second,
        ) == spec_track_failure(current, previous, first),
{
}

/// The health after folding a whole sequence of timed observations,
/// oldest first, into an initial persisted state.
pub open spec fn spec_observe_run(
    initial: Option<HealthCheck>,
    observations: Seq<(HealthCheck, i64)>,
) -> Option<HealthCheck>
    decreases observations.len(),
{
    if observations.len() == 0 {
        initial
    } else {
        Option::Some(
            spec_track_failure(
                observations.last().0,
                spec_observe_run(initial, observations.drop_last()),
                observations.last().1,
            ),
        )
    }
}

/// Law: over an uninterrupted run of failing observations that starts
/// from no snapshot or from a non-failing one, `failure_start_time` is
/// set exactly once, to the time of the run's first observation, and
/// every later observation of the run leaves it there.
pub proof fn lemma_failure_start_once_per_run(
    initial: Option<HealthCheck>,
    observations: Seq<(HealthCheck, i64)>,
)
    requires
        observations.len() > 0,
        forall|i: int| 0 <= i < observations.len() ==> (#[trigger] observations[i]).0.failing,
        match initial {
            Option::Some(h) => !h.failing,
            Option::None => true,
        },
    ensures
        spec_observe_run(initial, observations) == Option::Some(
            (HealthCheck {
                failing: true,
                min_response_time: observations.last().0.min_response_time,
                failure_start_time: Option::Some(observations[0].1),
            }),
        ),
    decreases observations.len(),
{
    let last = observations[observations.len() - 1];
    assert(last == observations.last());
    assert(last.0.failing);
    if observations.len() > 1 {
        let prefix = observations.drop_last();
        assert forall|i: int| 0 <= i < prefix.len() implies (#[trigger] prefix[i]).0.failing by {
            assert(prefix[i] == observations[i]);
        }
        lemma_failure_start_once_per_run(initial, prefix);
        assert(prefix[0] == observations[0]);
    } else {
        assert(observations[0] == last);
    }
}

/// What the coordinator met in one cycle: no store connection, the
/// cross-instance lock denied, a failed probe, or a successful probe
/// of both processors together with the previously persisted snapshot.
#[derive(Clone, Copy, PartialEq, Eq, Debug)]
pub enum CoordinatorEvent {
    StoreUnavailable,
    LockDenied,
    ProbeFailed,
    Probed(HealthCheckResult, Option<HealthCheckResult>),
}

/// What the coordinator does before its next cycle: wait the given
/// milliseconds, or persist a merged snapshot and then wait.
#[derive(Clone, Copy, PartialEq, Eq, Debug)]
pub enum CoordinatorAction {
    Wait(u64),
    PersistAndWait(HealthCheckResult, u64),
}

/// The per-cycle decision: a snapshot is persisted exactly when a
/// probe succeeded, which presupposes the lock; every failure is
/// non-fatal and answered by waiting, leaving the snapshot stale.
pub open spec fn spec_coordinator_step(event: CoordinatorEvent, now: i64) -> CoordinatorAction {
    match event {
        CoordinatorEvent::StoreUnavailable => CoordinatorAction::Wait(CONNECT_RETRY_MILLIS),
        CoordinatorEvent::LockDenied => CoordinatorAction::Wait(LOCK_RETRY_MILLIS),
        CoordinatorEvent::ProbeFailed => CoordinatorAction::Wait(PROBE_RETRY_MILLIS),
        CoordinatorEvent::Probed(current, previous) => CoordinatorAction::PersistAndWait(
            spec_update_health(current, previous, now),
            PROBE_CADENCE_MILLIS,
        ),
    }
}

/// Decide one coordinator cycle at time `now` (epoch seconds).
pub fn coordinator_step(event: &CoordinatorEvent, now: i64) -> (action: CoordinatorAction)
    ensures
        action == spec_coordinator_step(*event, now),
{
    match event {
        CoordinatorEvent::StoreUnavailable => CoordinatorAction::Wait(CONNECT_RETRY_MILLIS),
        CoordinatorEvent::LockDenied => CoordinatorAction::Wait(LOCK_RETRY_MILLIS),
        CoordinatorEvent::ProbeFailed => CoordinatorAction::Wait(PROBE_RETRY_MILLIS),
        CoordinatorEvent::Probed(current, previous) => CoordinatorAction::PersistAndWait(
            update_health_check_with_failure_tracking(*current, *previous, now),
            PROBE_CADENCE_MILLIS,
        ),
    }
}

/// Law: probing happens only under the lock, fleet-wide. A cycle
/// persists a snapshot only for a successful probe event; the
/// lock-denied cycle can only wait and retry; and once one instance
/// has taken the lease, any attempt by any other instance inside the
/// lease window fails, so at most one instance probes per window.
pub proof fn lemma_probe_only_under_lock(
    lease: Lease,
    holder: u64,
    other: u64,
    t1: i64,
    t2: i64,
    event: CoordinatorEvent,
    now: i64,
)
    requires
        t1 + LOCK_LEASE_SECONDS <= i64::MAX,
        spec_available(lease, t1),
        t1 <= t2 < t1 + LOCK_LEASE_SECONDS,
    ensures
        spec_acquire(
            spec_acquire(lease, holder, t1, LOCK_LEASE_SECONDS).0,
            other,
            t2,
            LOCK_LEASE_SECONDS,
        ).1 == false,
        spec_coordinator_step(CoordinatorEvent::LockDenied, now) == CoordinatorAction::Wait(
            LOCK_RETRY_MILLIS,
        ),
        spec_coordinator_step(event, now) matches CoordinatorAction::PersistAndWait(snapshot, wait)
            ==> event is Probed && wait == PROBE_CADENCE_MILLIS,
{
    lemma_lease_exclusive(lease, holder, other, t1, t2, LOCK_LEASE_SECONDS);
}

} // verus!
