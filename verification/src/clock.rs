//! Instants as seconds since the epoch: the range that the gateways accept
//! and the current time.

use vstd::prelude::*;

verus! {

/// The earliest instant that `chrono::DateTime<Utc>` can hold
/// (`DateTime::<Utc>::MIN_UTC`), in seconds since 1970-01-01 00:00:00 UTC.
pub const EARLIEST_TIMESTAMP: i64 = -8334601228800i64;

/// The latest whole second that `chrono::DateTime<Utc>` can hold
/// (`DateTime::<Utc>::MAX_UTC`), in seconds since 1970-01-01 00:00:00 UTC.
pub const LATEST_TIMESTAMP: i64 = 8210266876799i64;

#[verifier::external_type_specification]
#[verifier::external_body]
pub struct ExSystemTime(std::time::SystemTime);

/// Calls `std::time::SystemTime::now`. Nothing is claimed of the result: it
/// is whatever the system clock reads.
#[verifier::external_body]
fn system_now() -> std::time::SystemTime {
    std::time::SystemTime::now()
}

/// Calls `SystemTime::duration_since(UNIX_EPOCH)`: the whole seconds by which
/// `t` lies after the epoch (`Ok`), or, where it lies before, by which it lies
/// before (`Err`, from the error's duration). Nothing is claimed of the
/// numbers: they depend on `t`, which is opaque here.
#[verifier::external_body]
fn seconds_from_epoch(t: std::time::SystemTime) -> Result<u64, u64> {
    match t.duration_since(std::time::UNIX_EPOCH) {
        Ok(d) => Ok(d.as_secs()),
        Err(e) => Err(e.duration().as_secs()),
    }
}

/// The timestamp for an offset from the epoch (seconds after it, or before
/// it), clamped to the range of a `DateTime<Utc>`.
pub open spec fn clamped_timestamp(offset: Result<u64, u64>) -> int {
    match offset {
        Ok(after) => if after <= LATEST_TIMESTAMP {
            after as int
        } else {
            LATEST_TIMESTAMP as int
        },
        Err(before) => if before <= -EARLIEST_TIMESTAMP {
            -(before as int)
        } else {
            EARLIEST_TIMESTAMP as int
        },
    }
}

/// The timestamp for an offset from the epoch, clamped to the range of a
/// `DateTime<Utc>`.
pub fn timestamp_of_offset(offset: Result<u64, u64>) -> (r: i64)
    ensures
        r == clamped_timestamp(offset),
{
    match offset {
        Ok(after) => if after <= 8210266876799u64 {
            after as i64
        } else {
            LATEST_TIMESTAMP
        },
        Err(before) => if before <= 8334601228800u64 {
            -(before as i64)
        } else {
            EARLIEST_TIMESTAMP
        },
    }
}

/// The current time in whole seconds since the epoch, as the system clock
/// reads it, within the range of a `DateTime<Utc>` (a clock outside that
/// range reads as its nearer end).
pub(crate) fn now_unix_seconds() -> (r: i64)
    ensures
        EARLIEST_TIMESTAMP <= r <= LATEST_TIMESTAMP,
{
    timestamp_of_offset(seconds_from_epoch(system_now()))
}

/// Calls `chrono::DateTime::<Utc>::from_timestamp(secs, 0)`. Claimed: it
/// yields an instant exactly when `secs` lies within the range of a
/// `DateTime<Utc>`.
#[verifier::external_body]
pub(crate) fn timestamp_in_range(secs: i64) -> (r: bool)
    ensures
        r == (EARLIEST_TIMESTAMP <= secs <= LATEST_TIMESTAMP),
{
    chrono::DateTime::from_timestamp(secs, 0).is_some()
}

} // verus!
