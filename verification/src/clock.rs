//! Wall-clock time in whole seconds.

use vstd::prelude::*;
use std::time::{Duration, SystemTime, UNIX_EPOCH};

verus! {

#[verifier::external_type_specification]
#[verifier::external_body]
pub struct ExSystemTime(std::time::SystemTime);

/// `SystemTime::now`: the reading depends on the machine's clock, so
/// nothing is claimed of it.
#[verifier::external_body]
fn system_now() -> SystemTime {
    SystemTime::now()
}

/// `SystemTime::duration_since` against `UNIX_EPOCH`: `None` stands for
/// its error, a clock set before the epoch. Nothing is claimed of the span.
#[verifier::external_body]
fn since_epoch(at: &SystemTime) -> Option<Duration> {
    match at.duration_since(UNIX_EPOCH) {
        Ok(span) => Some(span),
        Err(_) => None,
    }
}

/// `Duration::as_secs`: the whole seconds of a span.
#[verifier::external_body]
fn whole_secs(span: &Duration) -> u64 {
    span.as_secs()
}

/// The seconds to stamp a record with, given the whole seconds since the
/// epoch, or `None` where the clock stands before the epoch: such a clock
/// reads as zero.
pub fn secs_or_zero(elapsed: Option<u64>) -> (secs: u64)
    ensures
        secs == match elapsed {
            Some(s) => s,
            None => 0,
        },
{
    match elapsed {
        Some(s) => s,
        None => 0,
    }
}

/// Current UNIX timestamp in seconds; zero where the clock stands before
/// the epoch. The value is whatever the clock gives, so no clause binds it.
pub fn now_secs() -> u64 {
    let at = system_now();
    let elapsed = match since_epoch(&at) {
        Some(span) => Some(whole_secs(&span)),
        None => None,
    };
    secs_or_zero(elapsed)
}

} // verus!
