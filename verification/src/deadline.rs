//! The on-chain deadline of a swap: the wall-clock time, in milliseconds
//! since the Unix epoch, plus a margin.

use vstd::prelude::*;
use std::time::{Duration, SystemTime, SystemTimeError, UNIX_EPOCH};
use crate::error::SwapError;

verus! {

/// The margin that a swap is given, in milliseconds. A policy constant: it is
/// not derived from any observed latency.
pub const DEADLINE_MARGIN_MILLIS: u128 = 300_000;

/// `std::time::SystemTime`: a reading of the system clock, carried as an
/// opaque value.
#[verifier::external_type_specification]
#[verifier::external_body]
pub struct ExSystemTime(SystemTime);

/// `std::time::SystemTimeError`: the error of a reading that lies before the
/// time it is measured from. Nothing is read from it.
#[verifier::external_type_specification]
#[verifier::external_body]
pub struct ExSystemTimeError(SystemTimeError);

/// `SystemTime::now`: the current reading of the system clock. Nothing is
/// claimed of it; two readings may differ in either direction.
pub assume_specification[ SystemTime::now ]() -> (t: SystemTime);

/// `SystemTime::duration_since`, against the Unix epoch: the time elapsed
/// since the epoch, or an error where the reading lies before it. Which of
/// the two comes back is the clock's affair.
#[verifier::external_body]
fn since_unix_epoch(t: &SystemTime) -> (r: Result<Duration, SystemTimeError>) {
    t.duration_since(UNIX_EPOCH)
}

/// `Duration::as_millis`: the whole milliseconds that the duration holds.
pub assume_specification[ Duration::as_millis ](d: &Duration) -> (m: u128);

/// What `deadline` returns: the sum where it fits in 128 bits, and an
/// overflow error where it does not.
pub open spec fn deadline_spec(now_millis: u128, future_millis: u128) -> Result<u128, SwapError> {
    if now_millis + future_millis <= u128::MAX {
        Ok((now_millis + future_millis) as u128)
    } else {
        Err(SwapError::ArithmeticOverflow)
    }
}

/// What `timestamp_from_reading` returns for a reading of the clock, where
/// `None` stands for a clock that reports a time before the epoch.
pub open spec fn timestamp_spec(reading: Option<u128>, future_millis: u128) -> Result<
    u128,
    SwapError,
> {
    match reading {
        None => Err(SwapError::ClockBeforeEpoch),
        Some(now_millis) => deadline_spec(now_millis, future_millis),
    }
}

/// The time `future_millis` after `now_millis`. Fails, and never wraps, where
/// the sum leaves 128 bits.
pub fn deadline(now_millis: u128, future_millis: u128) -> (r: Result<u128, SwapError>)
    ensures
        r == deadline_spec(now_millis, future_millis),
{
    match now_millis.checked_add(future_millis) {
        Some(t) => Ok(t),
        None => Err(SwapError::ArithmeticOverflow),
    }
}

/// The deadline for a reading of the clock: `None` is a clock before the
/// epoch, `Some` the milliseconds that have passed since it.
pub fn timestamp_from_reading(reading: Option<u128>, future_millis: u128) -> (r: Result<
    u128,
    SwapError,
>)
    ensures
        r == timestamp_spec(reading, future_millis),
{
    match reading {
        None => Err(SwapError::ClockBeforeEpoch),
        Some(now_millis) => deadline(now_millis, future_millis),
    }
}

/// Reads the system clock: the milliseconds since the Unix epoch, or `None`
/// where the clock reports a time before it.
fn read_clock_millis() -> Option<u128> {
    let now = SystemTime::now();
    match since_unix_epoch(&now) {
        Ok(elapsed) => Some(elapsed.as_millis()),
        Err(_) => None,
    }
}

/// The current wall-clock time plus `future_millis`, in milliseconds since
/// the Unix epoch. The clock decides what is read, so the contract says what
/// holds of every reading: the result is what `timestamp_from_reading` gives
/// for it.
pub fn get_valid_timestamp(future_millis: u128) -> (r: Result<u128, SwapError>)
    ensures
        exists|reading: Option<u128>| r == timestamp_spec(reading, future_millis),
        r matches Ok(t) ==> t >= future_millis,
        r matches Err(e) ==> e == SwapError::ClockBeforeEpoch || (e
            == SwapError::ArithmeticOverflow && future_millis > 0),
{
    let reading = read_clock_millis();
    let r = timestamp_from_reading(reading, future_millis);
    assert(r == timestamp_spec(reading, future_millis));
    r
}

/// For a fixed reading of the clock the deadline is strictly increasing in
/// the margin, as far as the larger sum fits in 128 bits.
pub proof fn lemma_deadline_strictly_increasing(now_millis: u128, shorter: u128, longer: u128)
    requires
        shorter < longer,
        now_millis + longer <= u128::MAX,
    ensures
        deadline_spec(now_millis, shorter) is Ok,
        deadline_spec(now_millis, longer) is Ok,
        deadline_spec(now_millis, shorter)->Ok_0 < deadline_spec(now_millis, longer)->Ok_0,
{
}

} // verus!
