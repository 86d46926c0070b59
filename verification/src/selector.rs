//! Endpoint selection: a pure decision over the latest health snapshot.
//!
//! Fixed priority, not latency-adaptive: the default processor is
//! taken whenever it is not failing, else the fallback if it is not
//! failing, else no processor is available. Default precedence over
//! fallback holds even when the fallback is currently faster.

use vstd::prelude::*;

use crate::model::{HealthCheckResult, ProcessorKind};

verus! {

/// Why no endpoint could be selected.
#[derive(Clone, Copy, PartialEq, Eq, Structural, Debug)]
pub enum SelectError {
    /// No snapshot could be read; retryable, never fatal.
    SnapshotUnavailable,
    /// Both processors report failing; retryable, never fatal.
    NoProcessorAvailable,
}

/// The selection decision on a snapshot, or on none when the store
/// could not produce one.
pub open spec fn spec_select_endpoint(
    snapshot: Option<HealthCheckResult>,
) -> Result<ProcessorKind, SelectError> {
    match snapshot {
        Option::None => Result::Err(SelectError::SnapshotUnavailable),
        Option::Some(h) => if !h.default_health_check.failing {
            Result::Ok(ProcessorKind::DefaultProcessor)
        } else if !h.fallback_health_check.failing {
            Result::Ok(ProcessorKind::FallbackProcessor)
        } else {
            Result::Err(SelectError::NoProcessorAvailable)
        },
    }
}

/// Select the processor to dispatch to, given the latest snapshot
/// (`None` when the snapshot could not be read).
pub fn select_endpoint(snapshot: &Option<HealthCheckResult>) -> (r: Result<
    ProcessorKind,
    SelectError,
>)
    ensures
        r == spec_select_endpoint(*snapshot),
{
    match snapshot {
        Option::None => Result::Err(SelectError::SnapshotUnavailable),
        Option::Some(h) => {
            if !h.default_health_check.failing {
                Result::Ok(ProcessorKind::DefaultProcessor)
            } else if !h.fallback_health_check.failing {
                Result::Ok(ProcessorKind::FallbackProcessor)
            } else {
                Result::Err(SelectError::NoProcessorAvailable)
            }
        },
    }
}

/// Law: selection never yields the fallback while the default
/// processor is healthy; the fallback is chosen exactly when the
/// default is failing and the fallback is not.
pub proof fn lemma_default_precedence(snapshot: HealthCheckResult)
    ensures
        spec_select_endpoint(Some(snapshot)) == Result::<ProcessorKind, SelectError>::Ok(
            ProcessorKind::FallbackProcessor,
        ) ==> snapshot.default_health_check.failing,
        !snapshot.default_health_check.failing ==> spec_select_endpoint(Some(snapshot))
            == Result::<ProcessorKind, SelectError>::Ok(ProcessorKind::DefaultProcessor),
        (snapshot.default_health_check.failing && !snapshot.fallback_health_check.failing)
            ==> spec_select_endpoint(Some(snapshot)) == Result::<ProcessorKind, SelectError>::Ok(
            ProcessorKind::FallbackProcessor,
        ),
{
}

} // verus!
