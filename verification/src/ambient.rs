//! What comes from outside on each run: random numbers and the time.
use rand_core::RngCore;
use vstd::prelude::*;

verus! {

/// Calls `next_u64` of `rand_core::OsRng`. Any number may come back.
#[verifier::external_body]
fn random_u64() -> (res: u64) {
    rand_core::OsRng.next_u64()
}

/// Calls `timestamp` of `chrono::Utc::now()`: the seconds since the epoch, by the clock of
/// the machine.
#[verifier::external_body]
fn unix_time() -> (res: i64) {
    chrono::Utc::now().timestamp()
}

/// Whether a number was drawn from the random source of the machine.
pub closed spec fn is_drawn(n: u64) -> bool {
    call_ensures(random_u64, (), n)
}

/// Whether a time was read from the clock of the machine.
pub closed spec fn is_clock_reading(timestamp: i64) -> bool {
    call_ensures(unix_time, (), timestamp)
}

/// Draws a random number.
pub(crate) fn draw() -> (res: u64)
    ensures
        is_drawn(res),
{
    random_u64()
}

/// Reads the clock, in seconds since the epoch.
pub(crate) fn now() -> (res: i64)
    ensures
        is_clock_reading(res),
{
    unix_time()
}

} // verus!
