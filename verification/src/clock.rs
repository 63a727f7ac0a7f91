//! The arithmetic behind the two clocks an arrival is read from.
//!
//! Reading the clocks is the platform's business; turning what it reports into
//! a timestamp and a tick rate is not.

use crate::constants::MILLIS_PER_DAY;
use crate::ids::{TickRate, Timestamp};
use vstd::prelude::*;

verus! {

/// The wall-clock timestamp for a count of milliseconds since local midnight;
/// a negative count, which a clock change can produce, reads as midnight.
pub fn timestamp_from_elapsed(elapsed_millis: i64) -> (t: Timestamp)
    ensures
        t@ == if elapsed_millis < 0 {
            0
        } else {
            elapsed_millis % 86_400_000
        },
{
    let millis: u64 = if elapsed_millis < 0 {
        0
    } else {
        elapsed_millis as u64
    };
    Timestamp::from_millis_since_midnight(millis % MILLIS_PER_DAY)
}

/// Ticks per second for a timebase whose ticks are `numer / denom`
/// nanoseconds, rounded down; zero when the timebase is unusable.
pub fn rate_from_timebase(numer: u32, denom: u32) -> (rate: u64)
    ensures
        rate == if numer == 0 {
            0
        } else {
            (1_000_000_000 * denom as nat / numer as nat) as u64
        },
{
    if numer == 0 {
        return 0;
    }
    proof {
        assert(1_000_000_000 * (denom as nat) <= 1_000_000_000 * 0xFFFF_FFFFnat) by (nonlinear_arith);
        assert(1_000_000_000 * (denom as nat) / (numer as nat) <= 1_000_000_000 * (denom as nat)) by (nonlinear_arith)
            requires numer >= 1;
    }
    TickRate::nanosecond().get() * (denom as u64) / (numer as u64)
}

/// The host clock's rate as reported, or a nanosecond clock when the platform
/// reports a rate of zero.
pub fn reported_rate(ticks_per_second: u64) -> (rate: TickRate)
    ensures
        rate@ == if ticks_per_second == 0 {
            1_000_000_000
        } else {
            ticks_per_second
        },
{
    match TickRate::new(ticks_per_second) {
        Ok(rate) => rate,
        Err(_) => TickRate::nanosecond(),
    }
}

} // verus!
