//! Choosing the backend a request goes to.
use vstd::prelude::*;

use crate::config::{Backend, Config};
use crate::current_offset::{compute_offset, offset_of};
use crate::parameters::{
    has_key, intent_of, opt_view, parse_parameters, query_pairs_of, SearchParameters,
};
use crate::time::{now, Timestamp};

verus! {

/// Address of the first backend, in list order, whose `days` exceed the
/// offset; `default` where none does.
pub open spec fn first_fitting(backends: Seq<Backend>, offset: int, default: Seq<char>) -> Seq<
    char,
>
    decreases backends.len(),
{
    if backends.len() == 0 {
        default
    } else if backends[0].days > offset {
        backends[0].backend_address@
    } else {
        first_fitting(backends.drop_first(), offset, default)
    }
}

/// Address for an offset, `default` where there is none.
pub open spec fn selected_address(
    offset: Option<int>,
    backends: Seq<Backend>,
    default: Seq<char>,
) -> Seq<char> {
    match offset {
        Some(o) => first_fitting(backends, o, default),
        None => default,
    }
}

/// Address for a request with query `query`, seen from the instant `now`.
pub open spec fn route_of(config: Config, query: Option<Seq<char>>, now: int) -> Seq<char> {
    selected_address(
        offset_of(intent_of(query), config.max_duration_hours as int, now),
        config.backends@,
        config.default_backend_address@,
    )
}

/// Picks the backend for a day offset: the first in list order whose `days`
/// strictly exceed it, else the default; the default too where there is no
/// offset.
pub fn select_backend(offset: Option<i64>, backends: &Vec<Backend>, default_address: &String) -> (r:
    String)
    ensures
        r@ == selected_address(
            match offset {
                Some(o) => Some(o as int),
                None => None,
            },
            backends@,
            default_address@,
        ),
{
    match offset {
        None => default_address.clone(),
        Some(o) => {
            let mut i: usize = 0;
            assert(backends@.skip(0) =~= backends@);
            while i < backends.len()
                invariant
                    offset == Some(o),
                    i <= backends@.len(),
                    first_fitting(backends@, o as int, default_address@) == first_fitting(
                        backends@.skip(i as int),
                        o as int,
                        default_address@,
                    ),
                decreases backends@.len() - i,
            {
                assert(backends@.skip(i as int).drop_first() =~= backends@.skip(i + 1));
                assert(backends@.skip(i as int)[0] == backends@[i as int]);
                if backends[i].can_route_in_days(o) {
                    return backends[i].backend_address.clone();
                }
                i = i + 1;
            }
            default_address.clone()
        },
    }
}

/// The backend for a request with query `query`, seen from the instant `now`.
pub fn choose_backend(config: &Config, query: Option<&str>, now: Timestamp) -> (r: String)
    requires
        now.wf(),
    ensures
        r@ == route_of(*config, opt_view(query), now.secs as int),
{
    let params = parse_parameters(query);
    let offset = compute_offset(params, config.max_duration_hours, now);
    select_backend(offset, &config.backends, &config.default_backend_address)
}

/// The backend for a request with query `query`, seen from the current instant.
pub fn route(config: &Config, query: Option<&str>) -> (r: String)
    ensures
        exists|today: Timestamp| today.wf() && r@ == route_of(*config, opt_view(query), today.secs as int),
        query is None ==> r@ == config.default_backend_address@,
        query is Some && query_pairs_of(query->0@) is Some && has_key(
            query_pairs_of(query->0@)->0,
            "pageCursor"@,
        ) ==> r@ == config.default_backend_address@,
{
    let today = now();
    choose_backend(config, query, today)
}

/// A paged request (one whose decoded query names `pageCursor`) is
/// unrestricted and goes to the default backend, whatever its `time` or
/// `arriveBy` say.
pub proof fn lemma_paged_request_goes_to_default(config: Config, query: Seq<char>, now: int)
    requires
        query_pairs_of(query) is Some,
        has_key(query_pairs_of(query)->0, "pageCursor"@),
    ensures
        intent_of(Some(query)) == SearchParameters::Unrestricted,
        route_of(config, Some(query), now) == config.default_backend_address@,
{
}

/// A request without a query string has no parameters and goes to the
/// default backend.
pub proof fn lemma_no_query_goes_to_default(config: Config, now: int)
    ensures
        intent_of(None) == SearchParameters::NoParameters,
        route_of(config, None, now) == config.default_backend_address@,
{
}

} // verus!
