//! The delays between attempts, from the `backon` crate.

use vstd::prelude::*;

verus! {

/// The delay before jitter that follows the failure numbered `attempt`
/// (from 0), in milliseconds: one second, doubled each time, and never more
/// than a minute.
pub open spec fn backoff_base_millis(attempt: nat) -> nat
    decreases attempt,
{
    if attempt == 0 {
        1000
    } else if attempt >= 6 {
        60000
    } else {
        2 * backoff_base_millis((attempt - 1) as nat)
    }
}

/// What an exponential backoff with jitter that allows `max_times` retries
/// may answer after the failure numbered `attempt`: no delay once the
/// retries are used up; before that a delay of at least the base and at
/// most twice the base.
pub open spec fn backoff_may_give(max_times: usize, attempt: usize, delay: Option<u64>) -> bool {
    match delay {
        None => attempt >= max_times,
        Some(millis) => attempt < max_times && backoff_base_millis(attempt as nat) <= millis
            <= 2 * backoff_base_millis(attempt as nat),
    }
}

/// The delay that `backon`'s exponential backoff gives after the failure
/// numbered `attempt`, in milliseconds.
///
/// Trusted: a backoff built from `backon::ExponentialBuilder`'s defaults (a
/// first delay of one second, a factor of two, a cap of a minute) with
/// jitter and with `max_times` retries yields a delay for each of its first
/// `max_times` items and none after them; the item numbered `attempt` is
/// its base delay plus a random share of it. The random share is why
/// nothing more exact is claimed.
#[verifier::external_body]
pub(crate) fn backoff_delay(max_times: usize, attempt: usize) -> (r: Option<u64>)
    ensures
        backoff_may_give(max_times, attempt, r),
{
    let builder = backon::ExponentialBuilder::default().with_max_times(max_times).with_jitter();
    let mut backoff = backon::BackoffBuilder::build(builder);
    backoff.nth(attempt).map(|delay| delay.as_millis() as u64)
}

/// The first four delays start from one, two, four and eight seconds.
pub proof fn lemma_backoff_bases()
    ensures
        backoff_base_millis(0) == 1000,
        backoff_base_millis(1) == 2000,
        backoff_base_millis(2) == 4000,
        backoff_base_millis(3) == 8000,
{
    reveal_with_fuel(backoff_base_millis, 4);
}

} // verus!
