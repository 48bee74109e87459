//! Calendar-day offset of a search's effective end from the current day.
use vstd::arithmetic::div_mod::{lemma_div_is_ordered, lemma_fundamental_div_mod};
use vstd::prelude::*;

use crate::parameters::{
    contains_key, has_key, intent_wf, opt_view, pair_views, parse_query, parse_timestamp,
    query_pairs_of, timestamp_text_value, value_of, SearchDirection, SearchParameters, lookup,
};
use crate::time::{day_number, day_number_of, now, Timestamp};

verus! {

/// Seconds in one hour.
pub const SECONDS_PER_HOUR: i64 = 3600;

/// The last instant a search is about: a forward search reaches `hours`
/// past its start, a backward one ends where it starts.
pub open spec fn end_instant(start: int, direction: SearchDirection, hours: int) -> int {
    match direction {
        SearchDirection::Forward => start + 3600 * hours,
        SearchDirection::Backward => start,
    }
}

/// Day offset of a search from an explicit instant.
pub open spec fn timestamp_offset(
    start: int,
    direction: SearchDirection,
    hours: int,
    now: int,
) -> int {
    day_number(end_instant(start, direction, hours)) - day_number(now)
}

/// Day offset of a search from the current instant: a backward search never
/// leaves today.
pub open spec fn now_offset(direction: SearchDirection, hours: int, now: int) -> int {
    match direction {
        SearchDirection::Forward => day_number(now + 3600 * hours) - day_number(now),
        SearchDirection::Backward => 0,
    }
}

/// Day offset of an intent; `None` where no date bound applies.
pub open spec fn offset_of(p: SearchParameters, hours: int, now: int) -> Option<int> {
    match p {
        SearchParameters::Timestamp { timestamp, direction } => Some(
            timestamp_offset(timestamp.secs as int, direction, hours, now),
        ),
        SearchParameters::Now { direction } => Some(now_offset(direction, hours, now)),
        SearchParameters::Unrestricted => None,
        SearchParameters::NoParameters => None,
    }
}

/// `r` is what the offset computation yields for the triple.
pub open spec fn is_offset_result(
    r: Option<i64>,
    p: SearchParameters,
    hours: i32,
    now: Timestamp,
) -> bool {
    &&& r is Some <==> offset_of(p, hours as int, now.secs as int) is Some
    &&& r is Some ==> r->0 as int == offset_of(p, hours as int, now.secs as int)->0
}

/// Bound on the instants that chrono can hold, loose enough for any window.
pub const INSTANT_BOUND: i64 = 200_000_000_000_000;

proof fn lemma_wf_bounds(t: Timestamp)
    requires
        t.wf(),
    ensures
        -INSTANT_BOUND <= t.secs <= INSTANT_BOUND,
{
    let x = t.secs as int;
    lemma_fundamental_div_mod(x, 86400);
    let q = x / 86400;
    let r = x % 86400;
    assert(-INSTANT_BOUND <= x <= INSTANT_BOUND) by (nonlinear_arith)
        requires
            x == 86400 * q + r,
            0 <= r < 86400,
            -2147483648 - 719163 <= q <= 2147483647 - 719163,
    ;
}

proof fn lemma_day_number_bounds(x: int)
    requires
        -2 * INSTANT_BOUND <= x <= 2 * INSTANT_BOUND,
    ensures
        -2 * INSTANT_BOUND <= day_number(x) <= 2 * INSTANT_BOUND,
{
    lemma_fundamental_div_mod(x, 86400);
    let q = x / 86400;
    let r = x % 86400;
    assert(-4_000_000_000_000 <= q <= 4_000_000_000_000) by (nonlinear_arith)
        requires
            x == 86400 * q + r,
            0 <= r < 86400,
            -2 * INSTANT_BOUND <= x <= 2 * INSTANT_BOUND,
    ;
}

/// Day offset of a search from `timestamp`, seen from the instant `now`.
pub fn offset_from_timestamp(
    timestamp: Timestamp,
    direction: SearchDirection,
    max_duration_hours: i32,
    now: Timestamp,
) -> (r: i64)
    requires
        timestamp.wf(),
        now.wf(),
    ensures
        r == timestamp_offset(timestamp.secs as int, direction, max_duration_hours as int, now.secs as int),
{
    proof {
        lemma_wf_bounds(timestamp);
        lemma_wf_bounds(now);
    }
    let end = match direction {
        SearchDirection::Forward => timestamp.secs + SECONDS_PER_HOUR * (max_duration_hours as i64),
        SearchDirection::Backward => timestamp.secs,
    };
    let final_day = day_number_of(end);
    let today = day_number_of(now.secs);
    proof {
        lemma_day_number_bounds(end as int);
        lemma_day_number_bounds(now.secs as int);
    }
    final_day - today
}

/// Day offset of a search from `timestamp`, seen from the current instant.
pub fn get_offset_from_timestamp(
    timestamp: Timestamp,
    direction: SearchDirection,
    max_duration_hours: i32,
) -> (r: i64)
    requires
        timestamp.wf(),
    ensures
        exists|today: Timestamp|
            today.wf() && r == timestamp_offset(
                timestamp.secs as int,
                direction,
                max_duration_hours as int,
                today.secs as int,
            ),
{
    let today = now();
    offset_from_timestamp(timestamp, direction, max_duration_hours, today)
}

/// Day offset of a search that starts at the instant `now`.
pub fn offset_from_now(direction: SearchDirection, max_duration_hours: i32, now: Timestamp) -> (r:
    i64)
    requires
        now.wf(),
    ensures
        r == now_offset(direction, max_duration_hours as int, now.secs as int),
{
    match direction {
        SearchDirection::Forward => offset_from_timestamp(
            now,
            SearchDirection::Forward,
            max_duration_hours,
            now,
        ),
        SearchDirection::Backward => 0,
    }
}

/// Day offset of a search that starts at the current instant.
pub fn get_offset_from_now(direction: SearchDirection, max_duration_hours: i32) -> (r: i64)
    ensures
        direction == SearchDirection::Backward ==> r == 0,
        exists|today: Timestamp|
            today.wf() && r == now_offset(direction, max_duration_hours as int, today.secs as int),
{
    let today = now();
    offset_from_now(direction, max_duration_hours, today)
}

/// Day offset of an intent with a forward window of `max_duration_hours`,
/// seen from `now`; `None` where the intent puts no bound on the date.
pub fn compute_offset(params: SearchParameters, max_duration_hours: i32, now: Timestamp) -> (r:
    Option<i64>)
    requires
        intent_wf(params),
        now.wf(),
    ensures
        is_offset_result(r, params, max_duration_hours, now),
{
    match params {
        SearchParameters::Timestamp { timestamp, direction } => Some(
            offset_from_timestamp(timestamp, direction, max_duration_hours, now),
        ),
        SearchParameters::Now { direction } => Some(
            offset_from_now(direction, max_duration_hours, now),
        ),
        SearchParameters::Unrestricted => None,
        SearchParameters::NoParameters => None,
    }
}

/// The offset depends on the intent, the window and the current instant
/// alone: two computations from the same triple agree.
pub proof fn lemma_offset_deterministic(
    p: SearchParameters,
    hours: i32,
    now: Timestamp,
    r1: Option<i64>,
    r2: Option<i64>,
)
    requires
        is_offset_result(r1, p, hours, now),
        is_offset_result(r2, p, hours, now),
    ensures
        r1 == r2,
{
}

/// Every instant of a forward window `[now, now + hours)` that ends on the
/// calendar day of `now` lies on that day too, and a forward search from now
/// over that window has offset 0.
pub proof fn lemma_window_within_today(t: int, hours: int, now: int)
    requires
        now <= t < now + 3600 * hours,
        day_number(now + 3600 * hours) == day_number(now),
    ensures
        day_number(t) == day_number(now),
        now_offset(SearchDirection::Forward, hours, now) == 0,
        timestamp_offset(t, SearchDirection::Backward, hours, now) == 0,
{
    lemma_div_is_ordered(now, t, 86400);
    lemma_div_is_ordered(t, now + 3600 * hours, 86400);
}

/// Moving a forward search one second later moves its offset by exactly one
/// day when its end crosses midnight, and leaves it alone otherwise.
pub proof fn lemma_forward_offset_step(t: int, hours: int, now: int)
    ensures
        timestamp_offset(t + 1, SearchDirection::Forward, hours, now) == timestamp_offset(
            t,
            SearchDirection::Forward,
            hours,
            now,
        ) + if (t + 1 + 3600 * hours) % 86400 == 0 {
            1int
        } else {
            0int
        },
{
    let e = t + 3600 * hours;
    lemma_fundamental_div_mod(e, 86400);
    lemma_fundamental_div_mod(e + 1, 86400);
    let q0 = e / 86400;
    let r0 = e % 86400;
    let q1 = (e + 1) / 86400;
    let r1 = (e + 1) % 86400;
    assert(q1 == q0 + if r1 == 0 { 1int } else { 0int }) by (nonlinear_arith)
        requires
            e == 86400 * q0 + r0,
            e + 1 == 86400 * q1 + r1,
            0 <= r0 < 86400,
            0 <= r1 < 86400,
    ;
}

/// Day offset of the date a query names, a coarser reading of a request that
/// ignores direction and window: no query, no readable query or no `time` mean today (0); a paged
/// request, or a `time` that cannot be read, has no offset.
pub open spec fn query_day_offset(query: Option<Seq<char>>, now: int) -> Option<int> {
    match query {
        Some(q) => match query_pairs_of(q) {
            Some(pairs) => if has_key(pairs, "pageCursor"@) {
                None
            } else {
                match value_of(pairs, "time"@) {
                    Some(t) => match timestamp_text_value(t) {
                        Some(secs) => Some(day_number(secs) - day_number(now)),
                        None => None,
                    },
                    None => Some(0),
                }
            },
            None => Some(0),
        },
        None => Some(0),
    }
}

/// Calendar day number of the instant a `time` value names.
pub fn parse_day(time: &str) -> (r: Option<i64>)
    ensures
        r is Some <==> timestamp_text_value(time@) is Some,
        r is Some ==> r->0 as int == day_number(timestamp_text_value(time@)->0),
        r is Some ==> crate::text::fits_i32(r->0 as int),
{
    match parse_timestamp(time) {
        Some(t) => Some(day_number_of(t.secs)),
        None => None,
    }
}

/// Day offset of the date a query names, seen from the instant `now`.
pub fn current_day_offset(query: Option<&str>, now: Timestamp) -> (r: Option<i64>)
    requires
        now.wf(),
    ensures
        r is Some <==> query_day_offset(opt_view(query), now.secs as int) is Some,
        r is Some ==> r->0 as int == query_day_offset(opt_view(query), now.secs as int)->0,
{
    match parse_query(query) {
        Some(parameters) => {
            if contains_key(&parameters, "pageCursor") {
                None
            } else {
                match lookup(&parameters, "time") {
                    Some(time) => match parse_day(time.as_str()) {
                        Some(day) => {
                            proof {
                                lemma_wf_bounds(now);
                                lemma_day_number_bounds(now.secs as int);
                            }
                            Some(day - day_number_of(now.secs))
                        },
                        None => None,
                    },
                    None => Some(0),
                }
            }
        },
        None => Some(0),
    }
}

/// Day offset of the date a query names, seen from the current instant.
pub fn get_current_day_offset(query: Option<&str>) -> (r: Option<i64>)
    ensures
        exists|today: Timestamp|
            today.wf() && (r is Some <==> query_day_offset(opt_view(query), today.secs as int) is Some)
                && (r is Some ==> r->0 as int == query_day_offset(
                opt_view(query),
                today.secs as int,
            )->0),
{
    let today = now();
    current_day_offset(query, today)
}

} // verus!
