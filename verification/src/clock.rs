//! Timestamps: seconds since the Unix epoch.

use vstd::prelude::*;

verus! {

/// The RFC 3339 text that `chrono` writes for the UTC time `timestamp`
/// seconds after the epoch (the epoch itself where `chrono` cannot represent
/// the time).
pub uninterp spec fn utc_rfc3339(timestamp: i64) -> Seq<char>;

/// `std::time::UNIX_EPOCH.elapsed()` in whole seconds: `None` where the
/// system clock reads before the epoch. Which time it reads rests on the
/// machine, so nothing more is stated.
#[verifier::external_body]
fn seconds_since_epoch() -> (r: Option<u64>) {
    std::time::UNIX_EPOCH.elapsed().ok().map(|d| d.as_secs())
}

/// `t` is a time in seconds that the system clock gave: only
/// [`now_timestamp`] makes one.
pub closed spec fn clock_reading(t: i64) -> bool {
    t >= 0
}

/// The current time in seconds since the Unix epoch; `None` where the
/// system clock reads before the epoch or too far after it for an `i64`.
pub fn now_timestamp() -> (r: Option<i64>)
    ensures
        r matches Some(t) ==> t >= 0 && clock_reading(t),
{
    match seconds_since_epoch() {
        Some(s) => if s <= 0x7FFF_FFFF_FFFF_FFFFu64 {
            Some(s as i64)
        } else {
            None
        },
        None => None,
    }
}

/// `DateTime::<Utc>::from_timestamp(timestamp, 0).unwrap_or_default()
/// .to_rfc3339()`: the named text.
#[verifier::external_body]
pub(crate) fn rfc3339(timestamp: i64) -> (r: String)
    ensures
        r@ == utc_rfc3339(timestamp),
{
    chrono::DateTime::<chrono::Utc>::from_timestamp(timestamp, 0).unwrap_or_default().to_rfc3339()
}

/// The label shown beside a message: its local time of day (`clock`) on
/// the day it was sent, `Yesterday, ` before it the next day, and the date
/// (`day`) before it later on; `days_ago` counts days from the message's
/// local date to today's.
pub fn timestamp_label(days_ago: i64, clock: &str, day: &str) -> (r: String)
    ensures
        r@ == if days_ago == 0 {
            clock@
        } else if days_ago == 1 {
            "Yesterday, "@ + clock@
        } else {
            day@ + ", "@ + clock@
        },
{
    if days_ago == 0 {
        String::from_str(clock)
    } else if days_ago == 1 {
        crate::text::join2("Yesterday, ", clock)
    } else {
        crate::text::join3(day, ", ", clock)
    }
}

} // verus!
