//! The scheduler: computes the randomized wait before each dispatch.

use vstd::prelude::*;

verus! {

/// Relies on rand's `Rng::gen_range` on the thread-local generator: for a
/// non-empty range `lo..hi` the sample lies in that range. The call panics on
/// an empty range, so one is excluded here. Which value comes back varies
/// from call to call.
#[verifier::external_body]
fn sample_range(lo: u64, hi: u64) -> (r: u64)
    requires
        lo < hi,
    ensures
        lo <= r < hi,
{
    rand::Rng::gen_range(&mut rand::thread_rng(), lo..hi)
}

/// Computes the wait before the next dispatch: a delay drawn at random from
/// the half-open range `[1, interval)`, so always at least one second and
/// strictly below the configured interval. The range must not be empty, which
/// configuration validation guarantees by requiring an interval of at least 2.
pub fn next_delay(interval: u64) -> (delay: u64)
    requires
        interval >= 2,
    ensures
        1 <= delay < interval,
{
    sample_range(1, interval)
}

} // verus!
