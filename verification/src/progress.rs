//! The throughput that a progress observer reports.

use vstd::prelude::*;

verus! {

/// Attempts per second between two readings of the attempt counter taken
/// `elapsed_millis` apart, rounded down; zero where no time has passed or the
/// counter did not grow.
pub open spec fn rate_spec(previous: u64, current: u64, elapsed_millis: u64) -> int {
    if elapsed_millis == 0 || current < previous {
        0
    } else {
        (current - previous) * 1000 / (elapsed_millis as int)
    }
}

/// Computes the throughput between two readings of the attempt counter, in
/// attempts per second, held at `u64::MAX` where it would not fit.
pub fn throughput(previous: u64, current: u64, elapsed_millis: u64) -> (rate: u64)
    ensures
        rate == if rate_spec(previous, current, elapsed_millis) > u64::MAX {
            u64::MAX as int
        } else {
            rate_spec(previous, current, elapsed_millis)
        },
{
    if elapsed_millis == 0 || current < previous {
        return 0;
    }
    let delta: u128 = (current - previous) as u128;
    let scaled: u128 = delta * 1000;
    let rate: u128 = scaled / (elapsed_millis as u128);
    if rate > u64::MAX as u128 {
        u64::MAX
    } else {
        rate as u64
    }
}

} // verus!
