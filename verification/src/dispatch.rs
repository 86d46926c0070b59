//! Dispatch: classifying a submission attempt and driving the
//! unbounded retry of one request.
//!
//! A worker stamps the request at first attempt, then retries the same
//! request at a fixed backoff until a decisive outcome: acceptance,
//! which is recorded in the resolved processor's ledger, or the
//! duplicate-conflict response, which counts as already delivered and
//! is not recorded and not resubmitted. Everything else — selection
//! unavailable, transport failure, any other status — is retried
//! indefinitely; there is no retry cap and no dead-letter path.

use vstd::prelude::*;

use crate::ledger::{spec_upserted, LedgerPair};
use crate::model::{Payment, ProcessorKind};
use crate::selector::SelectError;

verus! {

/// Fixed wait between submission attempts of one request, in milliseconds.
pub const RETRY_BACKOFF_MILLIS: u64 = 200;

/// The status a processor answers for a correlation id it has already
/// accepted.
pub const DUPLICATE_STATUS: u16 = 422;

/// Number of concurrent dispatch workers sharing the one queue
/// consumer.
pub const WORKER_COUNT: usize = 4;

/// The normalized outcome of one submission call.
#[derive(Clone, Copy, PartialEq, Eq, Structural, Debug)]
pub enum SubmitOutcome {
    /// Any 2xx answer: the processor accepted the payment.
    Accepted,
    /// An answer with this non-2xx status.
    Rejected(u16),
    /// No answer: network error or timeout.
    TransportFailed,
}

/// What an answering processor's status means: accepted exactly on a
/// 2xx, every other status is carried for classification.
pub open spec fn spec_classify_status(status: u16) -> SubmitOutcome {
    if 200 <= status < 300 {
        SubmitOutcome::Accepted
    } else {
        SubmitOutcome::Rejected(status)
    }
}

/// Normalize the HTTP status of an answered submission: acceptance if
/// and only if the status is a 2xx.
pub fn classify_status(status: u16) -> (outcome: SubmitOutcome)
    ensures
        outcome == spec_classify_status(status),
{
    if 200 <= status && status < 300 {
        SubmitOutcome::Accepted
    } else {
        SubmitOutcome::Rejected(status)
    }
}

/// What one attempt at dispatching a request ran into.
#[derive(Clone, Copy, PartialEq, Eq, Structural, Debug)]
pub enum DispatchEvent {
    /// No endpoint could be selected.
    SelectionFailed(SelectError),
    /// The request was submitted to this processor with this outcome.
    Submitted(ProcessorKind, SubmitOutcome),
}

/// What the worker does with the attempt's outcome.
#[derive(Clone, Copy, PartialEq, Eq, Structural, Debug)]
pub enum DispatchAction {
    /// Record the request in this processor's ledger and move on.
    RecordAndFinish(ProcessorKind),
    /// Already delivered: move on without a ledger write.
    FinishWithoutRecord,
    /// Wait this many milliseconds and resubmit the same request.
    RetryAfter(u64),
}

/// The classification rule: acceptance is recorded; the
/// duplicate-conflict status finishes without a write; selection
/// failures, transport failures and every other status are retried
/// after the fixed backoff.
pub open spec fn spec_dispatch_decision(event: DispatchEvent) -> DispatchAction {
    match event {
        DispatchEvent::SelectionFailed(_) => DispatchAction::RetryAfter(RETRY_BACKOFF_MILLIS),
        DispatchEvent::Submitted(processor, SubmitOutcome::Accepted) =>
            DispatchAction::RecordAndFinish(processor),
        DispatchEvent::Submitted(_, SubmitOutcome::Rejected(status)) => if status
            == DUPLICATE_STATUS {
            DispatchAction::FinishWithoutRecord
        } else {
            DispatchAction::RetryAfter(RETRY_BACKOFF_MILLIS)
        },
        DispatchEvent::Submitted(_, SubmitOutcome::TransportFailed) => DispatchAction::RetryAfter(
            RETRY_BACKOFF_MILLIS,
        ),
    }
}

/// An event is retryable when its decision is to wait and resubmit.
pub open spec fn spec_is_retry(event: DispatchEvent) -> bool {
    spec_dispatch_decision(event) == DispatchAction::RetryAfter(RETRY_BACKOFF_MILLIS)
}

/// Decide what to do with one attempt's outcome.
pub fn dispatch_decision(event: &DispatchEvent) -> (action: DispatchAction)
    ensures
        action == spec_dispatch_decision(*event),
{
    match event {
        DispatchEvent::SelectionFailed(_) => DispatchAction::RetryAfter(RETRY_BACKOFF_MILLIS),
        DispatchEvent::Submitted(processor, SubmitOutcome::Accepted) =>
            DispatchAction::RecordAndFinish(*processor),
        DispatchEvent::Submitted(_, SubmitOutcome::Rejected(status)) => {
            if *status == DUPLICATE_STATUS {
                DispatchAction::FinishWithoutRecord
            } else {
                DispatchAction::RetryAfter(RETRY_BACKOFF_MILLIS)
            }
        },
        DispatchEvent::Submitted(_, SubmitOutcome::TransportFailed) => DispatchAction::RetryAfter(
            RETRY_BACKOFF_MILLIS,
        ),
    }
}

/// Law: the duplicate-conflict response is terminal and writes
/// nothing; a server-error status or a transport failure always
/// yields another attempt after exactly the fixed backoff.
pub proof fn lemma_duplicate_and_server_error(processor: ProcessorKind, status: u16)
    ensures
        spec_dispatch_decision(
            DispatchEvent::Submitted(processor, SubmitOutcome::Rejected(DUPLICATE_STATUS)),
        ) == DispatchAction::FinishWithoutRecord,
        500 <= status < 600 ==> spec_dispatch_decision(
            DispatchEvent::Submitted(processor, SubmitOutcome::Rejected(status)),
        ) == DispatchAction::RetryAfter(RETRY_BACKOFF_MILLIS),
        spec_dispatch_decision(
            DispatchEvent::Submitted(processor, SubmitOutcome::TransportFailed),
        ) == DispatchAction::RetryAfter(RETRY_BACKOFF_MILLIS),
{
}

/// Overwrite the request's stamp with the first-attempt time (epoch
/// seconds), discarding whatever intake supplied.
pub fn stamp_requested_at(payment: &mut Payment, now: i64)
    ensures
        final(payment).requested_at == now,
        final(payment).correlation_id@ == old(payment).correlation_id@,
        final(payment).amount == old(payment).amount,
{
    payment.requested_at = now;
}

/// Carry out one decision on the ledgers: only `RecordAndFinish`
/// writes, and only to the resolved processor's ledger.
pub fn apply_dispatch_action(ledgers: &mut LedgerPair, payment: &Payment, action: &DispatchAction)
    requires
        old(ledgers).wf(),
    ensures
        final(ledgers).wf(),
        match *action {
            DispatchAction::RecordAndFinish(processor) => (processor
                == ProcessorKind::DefaultProcessor ==> spec_upserted(
                old(ledgers).default_ledger@,
                final(ledgers).default_ledger@,
                *payment,
            ) && final(ledgers).fallback_ledger@ == old(ledgers).fallback_ledger@) && (processor
                == ProcessorKind::FallbackProcessor ==> spec_upserted(
                old(ledgers).fallback_ledger@,
                final(ledgers).fallback_ledger@,
                *payment,
            ) && final(ledgers).default_ledger@ == old(ledgers).default_ledger@),
            DispatchAction::FinishWithoutRecord => *final(ledgers) == *old(ledgers),
            DispatchAction::RetryAfter(_) => *final(ledgers) == *old(ledgers),
        },
{
    match action {
        DispatchAction::RecordAndFinish(processor) => {
            ledgers.record_payment(*processor, payment.clone());
        },
        DispatchAction::FinishWithoutRecord => (),
        DispatchAction::RetryAfter(_) => (),
    }
}

/// Run one request's retry loop against a finite script of attempt
/// outcomes, oldest first: earlier events must all be retryable, and
/// the first decisive event ends the loop and is carried out on the
/// ledgers. `None` means every scripted attempt was retryable: the
/// request is still being retried and its worker is still blocked.
pub fn run_dispatch(ledgers: &mut LedgerPair, payment: &Payment, events: &Vec<DispatchEvent>) -> (r:
    Option<usize>)
    requires
        old(ledgers).wf(),
    ensures
        final(ledgers).wf(),
        match r {
            Option::Some(k) => 0 <= k < events@.len() && !spec_is_retry(events@[k as int]) && (
            forall|j: int| 0 <= j < k ==> spec_is_retry(#[trigger] events@[j])) && (match
                spec_dispatch_decision(events@[k as int]) {
                DispatchAction::RecordAndFinish(processor) => (processor
                    == ProcessorKind::DefaultProcessor ==> spec_upserted(
                    old(ledgers).default_ledger@,
                    final(ledgers).default_ledger@,
                    *payment,
                ) && final(ledgers).fallback_ledger@ == old(ledgers).fallback_ledger@) && (
                processor == ProcessorKind::FallbackProcessor ==> spec_upserted(
                    old(ledgers).fallback_ledger@,
                    final(ledgers).fallback_ledger@,
                    *payment,
                ) && final(ledgers).default_ledger@ == old(ledgers).default_ledger@),
                _ => *final(ledgers) == *old(ledgers),
            }),
            Option::None => (forall|j: int|
                0 <= j < events@.len() ==> spec_is_retry(#[trigger] events@[j])) && *final(ledgers)
                == *old(ledgers),
        },
{
    let n: usize = events.len();
    for k in 0..n
        invariant
            n == events@.len(),
            ledgers.wf(),
            *ledgers == *old(ledgers),
            forall|j: int| 0 <= j < k ==> spec_is_retry(#[trigger] events@[j]),
    {
        let action = dispatch_decision(&events[k]);
        match action {
            DispatchAction::RetryAfter(_) => (),
            _ => {
                apply_dispatch_action(ledgers, payment, &action);
                return Option::Some(k);
            },
        }
    }
    Option::None
}

/// Some event of a script is decisive: its decision is not a retry.
pub open spec fn spec_has_decisive(events: Seq<DispatchEvent>) -> bool {
    exists|i: int| 0 <= i < events.len() && !spec_is_retry(#[trigger] events[i])
}

/// Run one worker over its queued requests, each against its own
/// script of attempt outcomes, oldest request first. Requests are
/// dispatched strictly in order: the worker moves to the next queued
/// request only once the current one reaches a decisive outcome, so a
/// request whose script stays retryable blocks the worker head-of-line
/// and every later request stays untouched. The result counts the
/// requests that completed; when it is below the queue length, the
/// request at that position is the one stuck retrying.
pub fn run_worker(
    ledgers: &mut LedgerPair,
    queue: &Vec<Payment>,
    scripts: &Vec<Vec<DispatchEvent>>,
) -> (completed: usize)
    requires
        old(ledgers).wf(),
        queue@.len() == scripts@.len(),
    ensures
        final(ledgers).wf(),
        completed <= queue@.len(),
        forall|k: int| 0 <= k < completed ==> #[trigger] spec_has_decisive(scripts@[k]@),
        completed < queue@.len() ==> !spec_has_decisive(scripts@[completed as int]@),
{
    let n: usize = queue.len();
    for k in 0..n
        invariant
            n == queue@.len(),
            n == scripts@.len(),
            ledgers.wf(),
            forall|k2: int| 0 <= k2 < k ==> #[trigger] spec_has_decisive(scripts@[k2]@),
    {
        let script = &scripts[k];
        proof {
            assert(script@ == scripts@[k as int]@);
        }
        let finished = run_dispatch(ledgers, &queue[k], script);
        match finished {
            Option::Some(decisive) => {
                proof {
                    assert(!spec_is_retry(scripts@[k as int]@[decisive as int]));
                    assert(spec_has_decisive(scripts@[k as int]@));
                }
            },
            Option::None => {
                proof {
                    assert forall|i: int|
                        0 <= i < scripts@[k as int]@.len() implies spec_is_retry(
                        #[trigger] scripts@[k as int]@[i]) by {
                        assert(spec_is_retry(script@[i]));
                    }
                    assert(!spec_has_decisive(scripts@[k as int]@));
                }
                return k;
            },
        }
    }
    n
}

} // verus!
