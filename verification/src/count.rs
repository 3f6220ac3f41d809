//! Counters that stop at their limit.

use vstd::prelude::*;

verus! {

/// One more than `count`, as far as a `u64` can say: a counter that has
/// reached the largest `u64` stays there.
pub open spec fn bump(count: u64) -> u64 {
    if count < u64::MAX {
        (count + 1) as u64
    } else {
        count
    }
}

/// Counts one more.
pub fn count_up(count: u64) -> (next: u64)
    ensures
        next == bump(count),
{
    count.saturating_add(1)
}

} // verus!
