//! Instants as whole Unix seconds, their calendar day, and the calls into
//! chrono that produce them.
use chrono::{DateTime, Utc};
use vstd::prelude::*;

use crate::text::fits_i32;

verus! {

/// Seconds per calendar day in UTC.
pub const SECONDS_PER_DAY: i64 = 86400;

/// Day number of 1970-01-01 counted from 0001-01-01 as day 1.
pub const UNIX_EPOCH_DAY: i64 = 719163;

/// Ordinal of the proleptic Gregorian (UTC) calendar day holding the instant
/// `secs` seconds after the Unix epoch, with 0001-01-01 as day 1.
pub open spec fn day_number(secs: int) -> int {
    secs / 86400 + 719163
}

/// An instant, in whole seconds since the Unix epoch (UTC); any fraction of a
/// second is dropped, which never moves an instant to another calendar day.
#[derive(Clone, Copy, Debug, PartialEq, Eq, Structural)]
pub struct Timestamp {
    pub secs: i64,
}

impl Timestamp {
    /// The instant's calendar day number fits `i32`, as that of every instant
    /// chrono can represent does.
    pub open spec fn wf(self) -> bool {
        fits_i32(day_number(self.secs as int))
    }

    pub fn unix_seconds(&self) -> (r: i64)
        ensures
            r == self.secs,
    {
        self.secs
    }

    /// The instant `secs` seconds after the Unix epoch, where chrono can
    /// represent it.
    pub fn from_unix_seconds(secs: i64) -> (r: Option<Timestamp>)
        ensures
            r is Some <==> representable_instant(secs as int),
            r is Some ==> r->0.secs == secs && r->0.wf(),
    {
        utc_from_unix_seconds(secs)
    }
}

/// Whole Unix seconds of the instant that an RFC 3339 date-time text denotes,
/// or `None` where the text is not one.
pub uninterp spec fn rfc3339_instant(s: Seq<char>) -> Option<int>;

/// Whether chrono's `DateTime<Utc>` can hold the instant `secs`.
pub uninterp spec fn representable_instant(secs: int) -> bool;

/// Relies on chrono's `DateTime::parse_from_rfc3339`, `to_utc` and
/// `timestamp`: the parse depends on the text alone, and a `DateTime` always
/// lies in chrono's range, whose day numbers fit `i32`.
#[verifier::external_body]
pub(crate) fn parse_rfc3339(s: &str) -> (r: Option<Timestamp>)
    ensures
        r is Some <==> rfc3339_instant(s@) is Some,
        r is Some ==> r->0.secs == rfc3339_instant(s@)->0 && r->0.wf(),
{
    DateTime::parse_from_rfc3339(s).ok().map(|t| Timestamp { secs: t.to_utc().timestamp() })
}

/// Relies on chrono's `DateTime::from_timestamp_secs`, which round-trips with
/// `timestamp` and is `None` whenever the day number leaves `i32`.
#[verifier::external_body]
fn utc_from_unix_seconds(secs: i64) -> (r: Option<Timestamp>)
    ensures
        r is Some <==> representable_instant(secs as int),
        r is Some ==> r->0.secs == secs && r->0.wf(),
{
    DateTime::from_timestamp_secs(secs).map(|t| Timestamp { secs: t.timestamp() })
}

/// Relies on chrono's `Utc::now`: some representable instant, which differs
/// from call to call.
#[verifier::external_body]
pub(crate) fn now() -> (r: Timestamp)
    ensures
        r.wf(),
{
    Timestamp { secs: Utc::now().timestamp() }
}

/// Calendar day number of the instant `secs`.
pub fn day_number_of(secs: i64) -> (r: i64)
    ensures
        r == day_number(secs as int),
{
    if secs >= 0 {
        let q = secs / SECONDS_PER_DAY;
        assert(q == secs as int / 86400);
        q + UNIX_EPOCH_DAY
    } else {
        let m: i64 = -(secs + 1);
        let q = m / SECONDS_PER_DAY;
        proof {
            assert(q == m as int / 86400);
            assert(secs as int / 86400 == -(m as int / 86400) - 1) by (nonlinear_arith)
                requires
                    m == -(secs + 1),
                    m >= 0,
            ;
        }
        UNIX_EPOCH_DAY - q - 1
    }
}

} // verus!
