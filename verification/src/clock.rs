//! Polling against a deadline.
use vstd::prelude::*;

verus! {

/// How long to sleep before the next poll: the cadence, but never past the
/// promise deadline (nothing where the deadline has passed).
pub open spec fn nap_v(cadence: u64, deadline: i64, now: i64) -> u64 {
    let rem = deadline - now;
    let rem0 = if rem < 0 {
        0
    } else {
        rem
    };
    if cadence < rem0 {
        cadence
    } else {
        rem0 as u64
    }
}

pub fn nap(cadence: u64, deadline: i64, now: i64) -> (r: u64)
    ensures
        r == nap_v(cadence, deadline, now),
{
    let rem: i128 = deadline as i128 - now as i128;
    let rem0: i128 = if rem < 0 {
        0
    } else {
        rem
    };
    if (cadence as i128) < rem0 {
        cadence
    } else {
        rem0 as u64
    }
}

/// A sleep never outlasts the cadence, and never carries a poll past the
/// deadline: after it, the clock reads the deadline at the latest.
pub proof fn lemma_nap_within_deadline(cadence: u64, deadline: i64, now: i64)
    ensures
        nap_v(cadence, deadline, now) <= cadence,
        now < deadline ==> now + nap_v(cadence, deadline, now) <= deadline,
        now >= deadline ==> nap_v(cadence, deadline, now) == 0,
{
}

} // verus!
