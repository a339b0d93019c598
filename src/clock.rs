//! The wall clock, read as milliseconds since the Unix epoch.

use vstd::prelude::*;

verus! {

#[verifier::external_type_specification]
#[verifier::external_body]
pub struct ExSystemTime(std::time::SystemTime);

/// Relies on std::time::SystemTime::now: the current time of the system
/// clock. Nothing is known of its value.
#[verifier::external_body]
fn system_now() -> (r: std::time::SystemTime) {
    std::time::SystemTime::now()
}

/// Relies on std::time::SystemTime::duration_since with UNIX_EPOCH: how long
/// after the epoch `t` lies, or nothing where `t` lies before it.
#[verifier::external_body]
fn since_epoch(t: &std::time::SystemTime) -> (r: Option<std::time::Duration>) {
    t.duration_since(std::time::UNIX_EPOCH).ok()
}

/// Relies on std::time::Duration::as_millis: the whole milliseconds of `d`.
#[verifier::external_body]
fn whole_millis(d: &std::time::Duration) -> (r: u128) {
    d.as_millis()
}

/// The timestamp for a clock reading of `ms` whole milliseconds since the
/// Unix epoch, or for a reading before the epoch (`None`).
pub open spec fn timestamp_of(ms: Option<u128>) -> u64 {
    match ms {
        Some(m) => if m > u64::MAX as u128 {
            u64::MAX
        } else {
            m as u64
        },
        None => 0u64,
    }
}

/// Turns a clock reading into a timestamp: the milliseconds themselves where
/// they fit in a `u64`, `u64::MAX` where they do not, 0 before the epoch.
pub fn millis_timestamp(ms: Option<u128>) -> (r: u64)
    ensures
        r == timestamp_of(ms),
{
    match ms {
        Some(m) => {
            if m > u64::MAX as u128 {
                u64::MAX
            } else {
                m as u64
            }
        },
        None => 0,
    }
}

/// A later clock reading never gives a smaller timestamp, and a count of
/// milliseconds that fits in a `u64` is kept as it is.
pub proof fn timestamp_monotonic(m1: u128, m2: u128)
    requires
        m1 <= m2,
    ensures
        timestamp_of(Some(m1)) <= timestamp_of(Some(m2)),
        m2 <= u64::MAX as u128 ==> timestamp_of(Some(m2)) as u128 == m2,
        timestamp_of(None) <= timestamp_of(Some(m1)),
{
}

/// The current time in milliseconds since the Unix epoch, read from the
/// system clock and converted by [`millis_timestamp`].
pub fn timestamp_now() -> (r: u64) {
    let now = system_now();
    let ms = match since_epoch(&now) {
        Some(d) => Some(whole_millis(&d)),
        None => None,
    };
    millis_timestamp(ms)
}

} // verus!
