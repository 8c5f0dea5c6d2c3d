//! The advisory signal that tells producers to slow down before the inbound
//! queue saturates.

use vstd::prelude::*;

verus! {

/// Whether `pending` queued records fill at least nine tenths of `capacity`.
pub open spec fn near_capacity(pending: int, capacity: int) -> bool {
    10 * pending >= 9 * capacity
}

/// The least queue depth at which a queue of `capacity` slots counts as near
/// capacity: nine tenths of the capacity, rounded up.
pub open spec fn threshold(capacity: int) -> int {
    (9 * capacity + 9) / 10
}

/// A queue is near capacity exactly when its depth has reached the threshold.
pub proof fn lemma_near_capacity_is_threshold(pending: int, capacity: int)
    requires
        0 <= pending,
        0 <= capacity,
    ensures
        near_capacity(pending, capacity) <==> pending >= threshold(capacity),
{
}

/// The threshold is the ceiling of nine tenths of the capacity: the least
/// integer `t` with `10 * t >= 9 * capacity`.
pub proof fn lemma_threshold_is_ceiling(capacity: int)
    requires
        0 <= capacity,
    ensures
        10 * threshold(capacity) >= 9 * capacity,
        10 * (threshold(capacity) - 1) < 9 * capacity,
        threshold(capacity) <= capacity,
{
}

/// Decides the backpressure signal from a queue depth and the queue's capacity.
pub fn is_near_capacity(pending: usize, capacity: usize) -> (near: bool)
    ensures
        near == near_capacity(pending as int, capacity as int),
        near == (pending as int >= threshold(capacity as int)),
{
    proof {
        lemma_near_capacity_is_threshold(pending as int, capacity as int);
    }
    let nine_tenths: u128 = 9 * (capacity as u128);
    let scaled: u128 = 10 * (pending as u128);
    scaled >= nine_tenths
}

} // verus!
