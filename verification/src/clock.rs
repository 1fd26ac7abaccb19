//! The current time and calendar arithmetic, left to the `chrono` crate.
use vstd::prelude::*;
use crate::types::Timestamp;

verus! {

/// Whether `chrono` can take `days` whole days off the instant `(secs, nanos)`: the instant is
/// one that `chrono::DateTime::from_timestamp` accepts, `chrono::TimeDelta::try_days` accepts
/// `days`, and the difference lies within the range of dates that `chrono` represents.
pub uninterp spec fn days_back_in_range(secs: i64, nanos: u32, days: i64) -> bool;

/// The first second that `chrono` represents: the start of 1 January of year -262143.
pub open spec fn earliest_second() -> int {
    -8_334_601_228_800
}

/// The last second that `chrono` represents: the last second of 31 December of year 262142.
pub open spec fn latest_second() -> int {
    8_210_266_876_799
}

/// `secs` seconds after the Unix epoch lies within the range of dates that `chrono` represents.
pub open spec fn calendar_reaches(secs: int) -> bool {
    earliest_second() <= secs <= latest_second()
}

/// The current time: `chrono::Utc::now`, as seconds and nanoseconds since the Unix epoch.
/// The value is the clock's; claimed is only what holds of every value `Utc::now` gives, which
/// it builds from the time elapsed since the epoch: no negative seconds, and nanoseconds below
/// one second.
#[verifier::external_body]
pub(crate) fn now() -> (r: Timestamp)
    ensures
        r.secs >= 0,
        r.nanos < 1_000_000_000,
{
    let t = chrono::Utc::now();
    Timestamp { secs: t.timestamp(), nanos: t.timestamp_subsec_nanos() }
}

/// The instant `days` whole days before `t`: `chrono::DateTime::checked_sub_signed` with
/// `chrono::TimeDelta::try_days(days)`, or `None` where `chrono` refuses. The claim: the
/// result is there exactly when the named range condition holds. For an instant that is not
/// inside a leap second, that condition is that both the instant and the result lie within the
/// range of dates that `chrono` represents (which keeps `days` within `try_days`' bound), and the
/// result has the same nanoseconds and `days * 86400` fewer seconds.
#[verifier::external_body]
pub(crate) fn days_before(t: Timestamp, days: i64) -> (r: Option<Timestamp>)
    ensures
        r is Some <==> days_back_in_range(t.secs, t.nanos, days),
        r is Some ==> (t.nanos < 1_000_000_000 ==> calendar_reaches(t.secs as int)
            && calendar_reaches(t.secs - days * 86400)),
        r is None ==> (t.nanos < 1_000_000_000 ==> !(calendar_reaches(t.secs as int)
            && calendar_reaches(t.secs - days * 86400))),
        r matches Some(c) ==> (t.nanos < 1_000_000_000 ==> c.secs == t.secs - days * 86400
            && c.nanos == t.nanos),
{
    let start = chrono::DateTime::from_timestamp(t.secs, t.nanos)?;
    let delta = chrono::TimeDelta::try_days(days)?;
    let c = start.checked_sub_signed(delta)?;
    Some(Timestamp { secs: c.timestamp(), nanos: c.timestamp_subsec_nanos() })
}

} // verus!
