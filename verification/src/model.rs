//! Plain data carried through the gateway.
//!
//! Monetary amounts are integers in hundredths of the currency unit
//! (cents); timestamps are integers in seconds since the Unix epoch,
//! the resolution at which dispatch stamps requests.

use vstd::prelude::*;

verus! {

/// The two downstream payment processors a request can be routed to.
#[derive(Clone, Copy, PartialEq, Eq, Structural, Debug)]
pub enum ProcessorKind {
    DefaultProcessor,
    FallbackProcessor,
}

/// A payment request: caller-supplied idempotency key, amount in
/// cents, and the dispatch-time stamp in epoch seconds (overwritten by
/// the dispatch worker at first attempt, whatever intake supplied).
#[derive(PartialEq, Eq, Debug)]
pub struct Payment {
    pub correlation_id: String,
    pub amount: u64,
    pub requested_at: i64,
}

impl Clone for Payment {
    fn clone(&self) -> (copy: Self)
        ensures
            copy == *self,
    {
        Payment {
            correlation_id: self.correlation_id.clone(),
            amount: self.amount,
            requested_at: self.requested_at,
        }
    }
}

/// Health of one processor as last observed: whether it reports
/// failing, its advertised minimum response time in milliseconds, and
/// the epoch second at which the current uninterrupted failing run
/// began (`None` whenever `failing` is false).
#[derive(Clone, Copy, PartialEq, Eq, Debug)]
pub struct HealthCheck {
    pub failing: bool,
    pub min_response_time: u32,
    pub failure_start_time: Option<i64>,
}

/// The persisted snapshot: latest health of both processors, written
/// once per probe cycle and read by every endpoint selection.
#[derive(Clone, Copy, PartialEq, Eq, Debug)]
pub struct HealthCheckResult {
    pub default_health_check: HealthCheck,
    pub fallback_health_check: HealthCheck,
}

/// Totals reported for one processor's ledger over a summary range.
#[derive(Clone, Copy, PartialEq, Eq, Debug)]
pub struct Summary {
    pub total_requests: usize,
    pub total_amount: u128,
}

/// Summary totals for both processors, as the report returns them.
#[derive(Clone, Copy, PartialEq, Eq, Debug)]
pub struct PaymentsSummary {
    pub default_summary: Summary,
    pub fallback_summary: Summary,
}

} // verus!
