//! Time: the unit of the clock readings that the crate takes in, and the
//! one reading that it makes itself.
//!
//! The state machines take the time as an argument: nanoseconds on a clock
//! that never runs backwards, as the caller reads it. Only the stamp of a
//! request id is read here, from the system clock, through trusted wrappers:
//! of the reading itself nothing is claimed.

use vstd::prelude::*;

verus! {

/// Nanoseconds in a second.
pub const NANOS_PER_SEC: u64 = 1_000_000_000;

/// `std::time::SystemTime`, as an opaque value.
#[verifier::external_type_specification]
#[verifier::external_body]
pub struct ExSystemTime(std::time::SystemTime);

/// `std::time::SystemTimeError`, as an opaque value.
#[verifier::external_type_specification]
#[verifier::external_body]
pub struct ExSystemTimeError(std::time::SystemTimeError);

/// Calls `SystemTime::now`. Trusted; nothing is known of the reading.
#[verifier::external_body]
fn system_now() -> std::time::SystemTime {
    std::time::SystemTime::now()
}

/// Calls `SystemTime::duration_since` with the Unix epoch. Trusted; nothing
/// is known of the outcome. It fails where the clock reads a time before
/// the epoch.
#[verifier::external_body]
fn since_unix_epoch(t: &std::time::SystemTime) -> Result<
    core::time::Duration,
    std::time::SystemTimeError,
> {
    t.duration_since(std::time::UNIX_EPOCH)
}

/// The stamp that the system clock gives: the nanoseconds since the Unix
/// epoch, 0 where the clock reads a time before the epoch. A stamp is
/// below `u128::MAX`, so that the stamp after it exists; a reading of
/// `u128::MAX` nanoseconds counts as one less. Which reading the clock
/// gives is open; the stamp is what [`clock_stamp`] makes of it.
pub(crate) fn unix_nanos() -> (nanos: u128)
    ensures
        exists|reading: Result<core::time::Duration, std::time::SystemTimeError>|
            nanos == clock_stamp(reading),
        nanos < u128::MAX,
{
    let now = system_now();
    let reading = since_unix_epoch(&now);
    let ghost seen = reading;
    let nanos = epoch_nanos(reading);
    let stamp = if nanos == u128::MAX {
        u128::MAX - 1
    } else {
        nanos
    };
    assert(stamp == clock_stamp(seen));
    stamp
}

/// The stamp that a reading of the time since the Unix epoch gives: its
/// nanoseconds, kept below `u128::MAX`.
pub open spec fn clock_stamp(
    reading: Result<core::time::Duration, std::time::SystemTimeError>,
) -> u128 {
    if nanos_since_epoch(reading) == u128::MAX {
        (u128::MAX - 1) as u128
    } else {
        nanos_since_epoch(reading)
    }
}

/// The whole of a `Duration` in nanoseconds, as `Duration::as_nanos` gives
/// it.
pub uninterp spec fn duration_as_nanos(d: core::time::Duration) -> u128;

/// Calls `Duration::as_nanos`. Trusted: the number is the one named by
/// [`duration_as_nanos`] for this duration.
#[verifier::external_body]
fn duration_nanos(d: &core::time::Duration) -> (nanos: u128)
    ensures
        nanos == duration_as_nanos(*d),
{
    d.as_nanos()
}

/// The stamp that a reading of the time since the Unix epoch stands for:
/// its nanoseconds, and 0 for a reading that failed.
pub open spec fn nanos_since_epoch(
    reading: Result<core::time::Duration, std::time::SystemTimeError>,
) -> u128 {
    match reading {
        Ok(elapsed) => duration_as_nanos(elapsed),
        Err(_) => 0,
    }
}

/// Turns a reading of the time since the Unix epoch into a stamp: the
/// nanoseconds of the time that has passed, and 0 where the reading failed
/// because the clock stood before the epoch.
pub fn epoch_nanos(reading: Result<core::time::Duration, std::time::SystemTimeError>) -> (nanos:
    u128)
    ensures
        nanos == nanos_since_epoch(reading),
{
    match reading {
        Ok(elapsed) => duration_nanos(&elapsed),
        Err(_) => 0,
    }
}

} // verus!
