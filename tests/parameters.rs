#![allow(non_snake_case)]

use date_proxy::parameters::{
    contains_key, lookup, parse_direction, parse_parameters, parse_query, parse_timestamp,
    SearchDirection, SearchParameters,
};

fn pairs(items: &[(&str, &str)]) -> Vec<(String, String)> {
    items.iter().map(|(k, v)| (k.to_string(), v.to_string())).collect()
}

#[test]
fn parseDirection_arriveByIsTrue_getDirectionBackward() {
    let parameters = pairs(&[("arriveBy", "true")]);

    let direction = parse_direction(&parameters);

    assert_eq!(direction, SearchDirection::Backward);
}

#[test]
fn parseDirection_arriveByIsFalse_getDirectionForward() {
    let parameters = pairs(&[("arriveBy", "false")]);

    let direction = parse_direction(&parameters);

    assert_eq!(direction, SearchDirection::Forward);
}

#[test]
fn parseDirection_missingArriveBy_getDirectionForward() {
    let parameters: Vec<(String, String)> = Vec::new();

    let direction = parse_direction(&parameters);

    assert_eq!(direction, SearchDirection::Forward);
}

#[test]
fn arrive_by_other_spellings_are_forward() {
    for value in ["TRUE", "True", "1", "yes", ""] {
        let parameters = pairs(&[("arriveBy", value)]);
        assert_eq!(parse_direction(&parameters), SearchDirection::Forward);
    }
}

#[test]
fn later_pair_overrides_earlier() {
    let parameters = pairs(&[("arriveBy", "true"), ("arriveBy", "false")]);
    assert_eq!(parse_direction(&parameters), SearchDirection::Forward);
    let parameters = pairs(&[("arriveBy", "false"), ("arriveBy", "true")]);
    assert_eq!(parse_direction(&parameters), SearchDirection::Backward);
    assert_eq!(lookup(&parameters, "arriveBy").map(|s| s.as_str()), Some("true"));
    assert_eq!(lookup(&parameters, "time"), None);
    assert!(contains_key(&parameters, "arriveBy"));
    assert!(!contains_key(&parameters, "pageCursor"));
}

#[test]
fn query_is_decoded() {
    let decoded = parse_query(Some("time=2025-10-16T12%3A00%3A00Z&a+b=c+d")).unwrap();
    assert_eq!(
        decoded,
        pairs(&[("time", "2025-10-16T12:00:00Z"), ("a b", "c d")])
    );
    assert_eq!(parse_query(None), None);
}

#[test]
fn no_query_is_no_parameters() {
    assert_eq!(parse_parameters(None), SearchParameters::NoParameters);
}

#[test]
fn page_cursor_is_unrestricted() {
    assert_eq!(
        parse_parameters(Some("pageCursor=abc&time=2025-10-16T12:00:00Z&arriveBy=true")),
        SearchParameters::Unrestricted
    );
    assert_eq!(parse_parameters(Some("pageCursor")), SearchParameters::Unrestricted);
}

#[test]
fn missing_time_is_now() {
    assert_eq!(
        parse_parameters(Some("arriveBy=true")),
        SearchParameters::Now { direction: SearchDirection::Backward }
    );
    assert_eq!(
        parse_parameters(Some("fromPlace=a")),
        SearchParameters::Now { direction: SearchDirection::Forward }
    );
}

#[test]
fn rfc3339_time_is_a_timestamp() {
    let expected = parse_timestamp("2025-10-16T12:00:00Z").unwrap();
    assert_eq!(expected.unix_seconds(), 1_760_616_000);
    assert_eq!(
        parse_parameters(Some("time=2025-10-16T12:00:00Z&arriveBy=true")),
        SearchParameters::Timestamp { timestamp: expected, direction: SearchDirection::Backward }
    );
}

#[test]
fn unix_seconds_time_is_a_timestamp() {
    let expected = parse_timestamp("1760616000").unwrap();
    assert_eq!(expected.unix_seconds(), 1_760_616_000);
    assert_eq!(parse_timestamp("-86400").unwrap().unix_seconds(), -86_400);
    assert_eq!(
        parse_parameters(Some("time=1760616000")),
        SearchParameters::Timestamp { timestamp: expected, direction: SearchDirection::Forward }
    );
}

#[test]
fn offset_in_rfc3339_is_applied() {
    let t = parse_timestamp("2025-10-16 11:59:59+02:00").unwrap();
    assert_eq!(t.unix_seconds(), 1_760_608_799);
}

#[test]
fn unreadable_time_is_unrestricted() {
    assert_eq!(parse_timestamp("tomorrow"), None);
    assert_eq!(parse_timestamp("99999999999999999999"), None);
    assert_eq!(parse_parameters(Some("time=tomorrow")), SearchParameters::Unrestricted);
}
