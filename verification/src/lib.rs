//! Core logic of a payment-submission gateway.
//!
//! Payment requests are queued, dispatched to one of two downstream
//! processors (a preferred default and a fallback) chosen by monitored
//! health, retried until accepted, and recorded in a per-processor
//! ledger used for summary reporting. The modules here hold the
//! decision logic of that pipeline: health-snapshot merging with
//! failure-run tracking, endpoint selection, dispatch classification
//! and retry, the ledgers with their summaries, and the lease that
//! serialises probing across instances. Network and store access stay
//! with the caller, which feeds plain values in and carries actions out.

pub mod dispatch;
pub mod health;
pub mod ledger;
pub mod lease;
pub mod model;
pub mod selector;
pub mod timeparse;
