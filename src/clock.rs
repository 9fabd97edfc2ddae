//! Time: timestamps are whole seconds since the Unix epoch, in UTC.
use vstd::prelude::*;

verus! {

/// Length of the validity window that a new link is advertised with: one day.
pub const VALIDITY_SECS: i64 = 86400;

/// Relies on chrono's `From<SystemTime> for DateTime<Utc>` and
/// `DateTime::timestamp`: the system clock's UTC reading in whole seconds,
/// negative for a clock set before the Unix epoch. Nothing is stated of the
/// reading itself.
#[verifier::external_body]
pub(crate) fn now_utc_seconds() -> (r: i64) {
    chrono::DateTime::<chrono::Utc>::from(std::time::SystemTime::now()).timestamp()
}

/// The end of the validity window of a link created at `created_at`,
/// truncated to the second.
pub fn validity_deadline(created_at: i64) -> (r: i64)
    requires
        created_at <= i64::MAX - VALIDITY_SECS,
    ensures
        r == created_at + VALIDITY_SECS,
{
    created_at + VALIDITY_SECS
}

/// A link created at `created_at` is older than `window` seconds at `now`.
pub fn is_expired(created_at: i64, now: i64, window: i64) -> (r: bool)
    ensures
        r == (now - created_at > window),
{
    (now as i128) - (created_at as i128) > (window as i128)
}

} // verus!
