//! The random delay of cleaning.

use rand::Rng;
use vstd::prelude::*;

verus! {

/// One more than the largest number of blocks by which cleaning is delayed.
pub const MAX_CLEAN_JITTER: u64 = 10;

/// `rand::Rng::gen_range` on the generator of the current thread: a number from
/// `low` up to, but not with, `high`. Nothing else is said of it. The generator is
/// seeded by the operating system on its first use in a thread, which has to have
/// randomness to give.
#[verifier::external_body]
fn gen_range(low: u64, high: u64) -> (number: u64)
    requires
        low < high,
    ensures
        low <= number < high,
{
    rand::thread_rng().gen_range(low, high)
}

/// `number` is one that drawing from `low` up to, but not with, `high` gives.
pub closed spec fn drawn_from(low: u64, high: u64, number: u64) -> bool {
    call_ensures(gen_range, (low, high), number)
}

/// By how many blocks the next cleaning is delayed, drawn anew on every call.
pub fn clean_jitter() -> (jitter: u64)
    ensures
        drawn_from(0, MAX_CLEAN_JITTER, jitter),
        jitter < MAX_CLEAN_JITTER,
{
    gen_range(0, MAX_CLEAN_JITTER)
}

} // verus!
