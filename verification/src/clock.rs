//! The time of day.
use vstd::prelude::*;

verus! {

/// `SystemTime::elapsed` of the Unix epoch, in whole seconds; nothing where the
/// clock stands before the epoch. What it returns rests on the clock, so
/// nothing is claimed of it.
#[verifier::external_body]
fn since_epoch() -> (r: Option<u64>) {
    std::time::UNIX_EPOCH.elapsed().ok().map(|elapsed| elapsed.as_secs())
}

/// A reading of the clock as seconds since the Unix epoch: zero where the clock
/// stands before it.
pub fn epoch_seconds(elapsed: Option<u64>) -> (r: u64)
    ensures
        r == match elapsed {
            Some(seconds) => seconds,
            None => 0,
        },
{
    match elapsed {
        Some(seconds) => seconds,
        None => 0,
    }
}

/// Seconds since the Unix epoch. What it returns rests on the clock.
pub fn now_epoch() -> (r: u64) {
    epoch_seconds(since_epoch())
}

/// A time in milliseconds as 64 bits, or the largest number of 64 bits where it
/// is longer.
pub fn latency_ms(millis: u128) -> (r: u64)
    ensures
        r == if millis <= u64::MAX {
            millis as int
        } else {
            u64::MAX as int
        },
{
    if millis <= 0xffff_ffff_ffff_ffff {
        millis as u64
    } else {
        u64::MAX
    }
}

} // verus!
