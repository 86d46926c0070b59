//! The cross-instance probe lock, as a lease: a time-bounded exclusive
//! claim over a strongly-consistent store's atomic
//! set-if-absent-with-expiry. A holder never releases it explicitly;
//! it self-expires, so a crashed holder cannot permanently block
//! probing.

use vstd::prelude::*;

verus! {

/// The lease key's state as the store holds it. `holder` and
/// `expires_at` (epoch seconds) are meaningful only while `held`.
#[derive(Clone, Copy, PartialEq, Eq, Structural, Debug)]
pub struct Lease {
    pub held: bool,
    pub holder: u64,
    pub expires_at: i64,
}

/// A lease can be taken when nobody holds it or the holder's claim has
/// expired.
pub open spec fn spec_available(lease: Lease, now: i64) -> bool {
    !lease.held || lease.expires_at <= now
}

/// The atomic conditional set: the state and the answer after an
/// instance tries to take the lease at `now` for `ttl` seconds.
pub open spec fn spec_acquire(lease: Lease, instance: u64, now: i64, ttl: i64) -> (Lease, bool) {
    if spec_available(lease, now) {
        (Lease { held: true, holder: instance, expires_at: (now + ttl) as i64 }, true)
    } else {
        (lease, false)
    }
}

/// Try to take the lease at `now` for `ttl` seconds: succeeds exactly
/// when the lease is available, and on failure changes nothing.
pub fn try_acquire(lease: &mut Lease, instance: u64, now: i64, ttl: i64) -> (acquired: bool)
    requires
        0 < ttl,
        now + ttl <= i64::MAX,
    ensures
        acquired == spec_available(*old(lease), now),
        *final(lease) == spec_acquire(*old(lease), instance, now, ttl).0,
        acquired == spec_acquire(*old(lease), instance, now, ttl).1,
{
    if !lease.held || lease.expires_at <= now {
        lease.held = true;
        lease.holder = instance;
        lease.expires_at = now + ttl;
        true
    } else {
        false
    }
}

/// Law: within one lease window only one instance holds the lease.
/// After an instance takes it at `t1`, any attempt by any instance
/// before `t1 + ttl` fails, so no second holder can appear inside the
/// window.
pub proof fn lemma_lease_exclusive(
    lease: Lease,
    first: u64,
    second: u64,
    t1: i64,
    t2: i64,
    ttl: i64,
)
    requires
        0 < ttl,
        t1 + ttl <= i64::MAX,
        spec_available(lease, t1),
        t1 <= t2 < t1 + ttl,
    ensures
        spec_acquire(spec_acquire(lease, first, t1, ttl).0, second, t2, ttl).1 == false,
        spec_acquire(spec_acquire(lease, first, t1, ttl).0, second, t2, ttl).0.holder == first,
{
}

/// Law: a crashed holder stalls others only to the end of its window.
/// From `t1 + ttl` on, the lease is available again and another
/// instance's attempt succeeds, making it the holder.
pub proof fn lemma_lease_recoverable(
    lease: Lease,
    first: u64,
    second: u64,
    t1: i64,
    t2: i64,
    ttl: i64,
)
    requires
        0 < ttl,
        t1 + ttl <= i64::MAX,
        t2 + ttl <= i64::MAX,
        spec_available(lease, t1),
        t2 >= t1 + ttl,
    ensures
        spec_acquire(spec_acquire(lease, first, t1, ttl).0, second, t2, ttl).1 == true,
        spec_acquire(spec_acquire(lease, first, t1, ttl).0, second, t2, ttl).0.holder == second,
{
}

} // verus!
