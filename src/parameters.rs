//! Classifying a request by its query string into a search intent.
use url::Url;
use vstd::prelude::*;

use crate::text::{i64_text_value, parse_i64};
use crate::time::{parse_rfc3339, representable_instant, rfc3339_instant, Timestamp};

verus! {

/// Whether a search looks for departures after a time or arrivals before it.
#[derive(Clone, Copy, Debug, PartialEq, Eq, Structural)]
pub enum SearchDirection {
    Forward,
    Backward,
}

/// What a request asks for, as far as the choice of backend is concerned.
#[derive(Clone, Copy, Debug, PartialEq, Eq, Structural)]
pub enum SearchParameters {
    /// An explicit `time` was given.
    Timestamp { timestamp: Timestamp, direction: SearchDirection },
    /// No `time`: the search starts from the current instant.
    Now { direction: SearchDirection },
    /// A paged request, or one whose `time` could not be read: no date bound.
    Unrestricted,
    /// The request carried no query string (a static file, say).
    NoParameters,
}

/// Decoded `name=value` pairs of a query string, in order of appearance, or
/// `None` where the query cannot be read at all.
pub uninterp spec fn query_pairs_of(query: Seq<char>) -> Option<Seq<(Seq<char>, Seq<char>)>>;

pub open spec fn pair_views(pairs: Seq<(String, String)>) -> Seq<(Seq<char>, Seq<char>)> {
    pairs.map_values(|p: (String, String)| (p.0@, p.1@))
}

pub open spec fn opt_view(s: Option<&str>) -> Option<Seq<char>> {
    match s {
        Some(q) => Some(q@),
        None => None,
    }
}

/// Relies on url's `Url::parse` (of `http://localhost/?` followed by the
/// query) and `Url::query_pairs`: the percent- and plus-decoded pairs of the
/// query, which depend on the query text alone.
#[verifier::external_body]
fn decode_query(query: &str) -> (r: Option<Vec<(String, String)>>)
    ensures
        r is Some <==> query_pairs_of(query@) is Some,
        r is Some ==> pair_views(r->0@) == query_pairs_of(query@)->0,
{
    let url = format!("http://localhost/?{}", query);
    Url::parse(url.as_str()).ok().map(|u| u.query_pairs().into_owned().collect())
}

/// Whether some pair has the name `key`.
pub open spec fn has_key(pairs: Seq<(Seq<char>, Seq<char>)>, key: Seq<char>) -> bool {
    exists|i: int| 0 <= i < pairs.len() && #[trigger] pairs[i].0 == key
}

/// The value of the last pair named `key`: a later pair overrides an
/// earlier one of the same name.
pub open spec fn value_of(pairs: Seq<(Seq<char>, Seq<char>)>, key: Seq<char>) -> Option<Seq<char>>
    decreases pairs.len(),
{
    if pairs.len() == 0 {
        None
    } else if pairs.last().0 == key {
        Some(pairs.last().1)
    } else {
        value_of(pairs.drop_last(), key)
    }
}

proof fn lemma_value_of_has_key(pairs: Seq<(Seq<char>, Seq<char>)>, key: Seq<char>)
    ensures
        value_of(pairs, key) is Some <==> has_key(pairs, key),
    decreases pairs.len(),
{
    if pairs.len() > 0 {
        lemma_value_of_has_key(pairs.drop_last(), key);
        if has_key(pairs, key) && pairs.last().0 != key {
            let i = choose|i: int| 0 <= i < pairs.len() && #[trigger] pairs[i].0 == key;
            assert(pairs.drop_last()[i].0 == key);
        }
        if has_key(pairs.drop_last(), key) {
            let i = choose|i: int|
                0 <= i < pairs.drop_last().len() && #[trigger] pairs.drop_last()[i].0 == key;
            assert(pairs[i].0 == key);
        }
    }
}

/// The value that the query gives to `key`, the last one where it is repeated.
pub fn lookup<'a>(pairs: &'a Vec<(String, String)>, key: &str) -> (r: Option<&'a String>)
    ensures
        r is Some <==> value_of(pair_views(pairs@), key@) is Some,
        r is Some ==> r->0@ == value_of(pair_views(pairs@), key@)->0,
{
    let k = key.to_owned();
    let ghost views = pair_views(pairs@);
    let mut i: usize = pairs.len();
    assert(views.take(i as int) =~= views);
    while i > 0
        invariant
            i <= pairs@.len(),
            k@ == key@,
            views == pair_views(pairs@),
            value_of(views, key@) == value_of(views.take(i as int), key@),
        decreases i,
    {
        let ghost prefix = views.take(i as int);
        assert(prefix.drop_last() =~= views.take(i - 1));
        assert(prefix.last() == (pairs@[i - 1].0@, pairs@[i - 1].1@));
        if pairs[i - 1].0 == k {
            return Some(&pairs[i - 1].1);
        }
        i = i - 1;
    }
    None
}

pub fn contains_key(pairs: &Vec<(String, String)>, key: &str) -> (r: bool)
    ensures
        r == has_key(pair_views(pairs@), key@),
{
    proof {
        lemma_value_of_has_key(pair_views(pairs@), key@);
    }
    lookup(pairs, key).is_some()
}

/// `arriveBy=true` (exactly that text) asks for arrivals; anything else, or
/// no `arriveBy`, for departures.
pub open spec fn direction_of(pairs: Seq<(Seq<char>, Seq<char>)>) -> SearchDirection {
    if value_of(pairs, "arriveBy"@) == Some("true"@) {
        SearchDirection::Backward
    } else {
        SearchDirection::Forward
    }
}

/// The instant a `time` value names: RFC 3339 first, else whole Unix seconds.
pub open spec fn timestamp_text_value(s: Seq<char>) -> Option<int> {
    match rfc3339_instant(s) {
        Some(t) => Some(t),
        None => match i64_text_value(s) {
            Some(v) => if representable_instant(v) {
                Some(v)
            } else {
                None
            },
            None => None,
        },
    }
}

/// The intent for a `time` value read with `direction`.
pub open spec fn time_intent(time: Seq<char>, direction: SearchDirection) -> SearchParameters {
    match timestamp_text_value(time) {
        Some(t) => SearchParameters::Timestamp {
            timestamp: Timestamp { secs: t as i64 },
            direction,
        },
        None => SearchParameters::Unrestricted,
    }
}

/// The intent for decoded query pairs.
pub open spec fn intent_of_pairs(pairs: Seq<(Seq<char>, Seq<char>)>) -> SearchParameters {
    if has_key(pairs, "pageCursor"@) {
        SearchParameters::Unrestricted
    } else {
        match value_of(pairs, "time"@) {
            Some(t) => time_intent(t, direction_of(pairs)),
            None => SearchParameters::Now { direction: direction_of(pairs) },
        }
    }
}

/// The intent for a request's query string, absent or present.
pub open spec fn intent_of(query: Option<Seq<char>>) -> SearchParameters {
    match query {
        None => SearchParameters::NoParameters,
        Some(q) => match query_pairs_of(q) {
            Some(pairs) => intent_of_pairs(pairs),
            None => SearchParameters::NoParameters,
        },
    }
}

pub open spec fn intent_wf(p: SearchParameters) -> bool {
    match p {
        SearchParameters::Timestamp { timestamp, .. } => timestamp.wf(),
        _ => true,
    }
}

/// Classifies a request by its query string.
pub fn parse_parameters(query: Option<&str>) -> (r: SearchParameters)
    ensures
        r == intent_of(opt_view(query)),
        intent_wf(r),
{
    match parse_query(query) {
        Some(parameters) => {
            if contains_key(&parameters, "pageCursor") {
                SearchParameters::Unrestricted
            } else {
                let direction = parse_direction(&parameters);
                parse_time_parameter(&parameters, direction)
            }
        },
        None => SearchParameters::NoParameters,
    }
}

/// The decoded pairs of a query string; `None` where there is no query or it
/// cannot be read.
pub fn parse_query(query: Option<&str>) -> (r: Option<Vec<(String, String)>>)
    ensures
        r is Some <==> (query is Some && query_pairs_of(query->0@) is Some),
        r is Some ==> pair_views(r->0@) == query_pairs_of(query->0@)->0,
{
    match query {
        Some(q) => decode_query(q),
        None => None,
    }
}

pub fn parse_direction(parameters: &Vec<(String, String)>) -> (r: SearchDirection)
    ensures
        r == direction_of(pair_views(parameters@)),
{
    let truth = "true".to_owned();
    match lookup(parameters, "arriveBy") {
        Some(value) => if *value == truth {
            SearchDirection::Backward
        } else {
            SearchDirection::Forward
        },
        None => SearchDirection::Forward,
    }
}

pub fn parse_time_parameter(parameters: &Vec<(String, String)>, direction: SearchDirection) -> (r:
    SearchParameters)
    ensures
        r == (match value_of(pair_views(parameters@), "time"@) {
            Some(t) => time_intent(t, direction),
            None => SearchParameters::Now { direction },
        }),
        intent_wf(r),
{
    match lookup(parameters, "time") {
        Some(time) => parse_day_offset(time.as_str(), direction),
        None => SearchParameters::Now { direction },
    }
}

pub fn parse_day_offset(time: &str, direction: SearchDirection) -> (r: SearchParameters)
    ensures
        r == time_intent(time@, direction),
        intent_wf(r),
{
    match parse_timestamp(time) {
        Some(timestamp) => SearchParameters::Timestamp { timestamp, direction },
        None => SearchParameters::Unrestricted,
    }
}

/// Reads a `time` value: RFC 3339 first, else whole seconds since the epoch.
pub fn parse_timestamp(time: &str) -> (r: Option<Timestamp>)
    ensures
        r is Some <==> timestamp_text_value(time@) is Some,
        r is Some ==> r->0.secs == timestamp_text_value(time@)->0 && r->0.wf(),
{
    match parse_rfc3339(time) {
        Some(t) => Some(t),
        None => match parse_i64(time) {
            Some(secs) => Timestamp::from_unix_seconds(secs),
            None => None,
        },
    }
}

} // verus!
