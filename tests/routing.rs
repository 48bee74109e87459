use date_proxy::config::{
    parse_backends, parse_default_backend, parse_max_duration_hours, parse_prefix, Backend,
    Config, ConfigError,
};
use date_proxy::logger::Logger;
use date_proxy::parameters::parse_timestamp;
use date_proxy::path_rewriter::{rewrite_path, PathRewriter};
use date_proxy::routing::{choose_backend, route, select_backend};
use date_proxy::time::Timestamp;
use std::sync::Arc;

fn backend(days: i32, address: &str) -> Backend {
    Backend { days, backend_address: address.to_string() }
}

fn mock_now() -> Timestamp {
    parse_timestamp("2025-10-16T09:27:00+02:00").unwrap()
}

fn config() -> Config {
    Config {
        default_backend_address: "default:80".to_string(),
        backends: vec![backend(1, "today:80"), backend(3, "short:80"), backend(10, "long:80")],
        subpath: "/api".to_string(),
        max_duration_hours: 12,
    }
}

#[test]
fn selection_is_first_match_in_list_order() {
    let backends = vec![backend(3, "A"), backend(10, "B")];
    let default = "D".to_string();
    assert_eq!(select_backend(Some(2), &backends, &default), "A");
    assert_eq!(select_backend(Some(5), &backends, &default), "B");
    assert_eq!(select_backend(Some(10), &backends, &default), "D");
    assert_eq!(select_backend(Some(3), &backends, &default), "B");
    assert_eq!(select_backend(Some(-4), &backends, &default), "A");
    assert_eq!(select_backend(None, &backends, &default), "D");
}

#[test]
fn selection_does_not_sort() {
    let backends = vec![backend(10, "B"), backend(3, "A")];
    let default = "D".to_string();
    assert_eq!(select_backend(Some(2), &backends, &default), "B");
    assert_eq!(select_backend(Some(0), &Vec::new(), &default), "D");
}

#[test]
fn can_route_is_strict() {
    let b = backend(3, "A");
    assert!(b.can_route_in_days(2));
    assert!(!b.can_route_in_days(3));
}

#[test]
fn paged_request_goes_to_default() {
    let c = config();
    let q = "pageCursor=xyz&time=2025-10-16T09:00:00Z&arriveBy=true";
    assert_eq!(choose_backend(&c, Some(q), mock_now()), "default:80");
}

#[test]
fn request_without_query_goes_to_default() {
    let c = config();
    assert_eq!(choose_backend(&c, None, mock_now()), "default:80");
    assert_eq!(route(&c, None), "default:80");
}

#[test]
fn forward_window_ending_today() {
    let c = config();
    let q = "time=2025-10-16T11:59:59Z";
    assert_eq!(choose_backend(&c, Some(q), mock_now()), "today:80");
}

#[test]
fn forward_window_ending_tomorrow() {
    let c = config();
    let q = "time=2025-10-16T12:00:00Z";
    assert_eq!(choose_backend(&c, Some(q), mock_now()), "short:80");
}

#[test]
fn far_dates_fall_back_to_default() {
    let c = config();
    assert_eq!(choose_backend(&c, Some("time=2025-11-30T12:00:00Z"), mock_now()), "default:80");
    assert_eq!(choose_backend(&c, Some("time=2025-10-21T12:00:00Z"), mock_now()), "long:80");
    assert_eq!(choose_backend(&c, Some("time=garbage"), mock_now()), "default:80");
    assert_eq!(choose_backend(&c, Some("arriveBy=true"), mock_now()), "today:80");
}

#[test]
fn prefix_is_stripped() {
    assert_eq!(rewrite_path("/api/trips?x=1", "/api"), ("/trips?x=1".to_string(), false));
    assert_eq!(rewrite_path("/api", "/api"), ("/".to_string(), false));
    assert_eq!(rewrite_path("/trips", ""), ("/trips".to_string(), false));
    assert_eq!(rewrite_path("/api?x=1", "/api"), ("/?x=1".to_string(), false));
    assert_eq!(rewrite_path("/api/?x=1", "/api"), ("/?x=1".to_string(), false));
}

#[test]
fn missing_prefix_passes_through_with_warning() {
    assert_eq!(rewrite_path("/other", "/api"), ("/other".to_string(), true));
    assert_eq!(rewrite_path("/ap", "/api"), ("/ap".to_string(), true));
}

#[test]
fn rewriter_uses_configured_prefix() {
    let rewriter = PathRewriter::new(7u8, Arc::new(config()));
    assert_eq!(rewriter.rewrite("/api/plan?time=1"), ("/plan?time=1".to_string(), false));
    assert_eq!(rewriter.inner, 7u8);
    let logger = Logger::new(3u8);
    assert_eq!(logger.inner, 3u8);
}

#[test]
fn backend_entries_are_read_in_order() {
    let parsed = parse_backends(Some("3#host-a:8080;10#host-b:9090")).unwrap();
    assert_eq!(parsed.len(), 2);
    assert_eq!((parsed[0].days, parsed[0].backend_address.as_str()), (3, "host-a:8080"));
    assert_eq!((parsed[1].days, parsed[1].backend_address.as_str()), (10, "host-b:9090"));
    assert_eq!(parse_backends(None).unwrap().len(), 0);
}

#[test]
fn backend_entry_splits_at_first_hash() {
    let b = Backend::new("-2#a#b").unwrap();
    assert_eq!((b.days, b.backend_address.as_str()), (-2, "a#b"));
}

#[test]
fn malformed_backend_entries_are_errors() {
    assert_eq!(Backend::new("host:80").unwrap_err(), ConfigError::MalformedBackend);
    assert_eq!(Backend::new("three#host:80").unwrap_err(), ConfigError::InvalidDays);
    assert_eq!(parse_backends(Some("")).unwrap_err(), ConfigError::MalformedBackend);
    assert_eq!(
        parse_backends(Some("1#a;x#b;c")).unwrap_err(),
        ConfigError::InvalidDays
    );
    assert_eq!(
        parse_backends(Some("1#a;c;x#b")).unwrap_err(),
        ConfigError::MalformedBackend
    );
}

#[test]
fn default_backend_gets_host_and_port() {
    assert_eq!(parse_default_backend(None, "http://127.0.0.1:8080").unwrap(), "127.0.0.1:8080");
    assert_eq!(
        parse_default_backend(Some("http://example.org"), "http://127.0.0.1:8080").unwrap(),
        "example.org:80"
    );
    assert_eq!(
        parse_default_backend(Some("http://otp:12345/x"), "http://127.0.0.1:8080").unwrap(),
        "otp:12345"
    );
}

#[test]
fn default_backend_errors() {
    assert_eq!(
        parse_default_backend(Some("http://exa mple"), "http://127.0.0.1:8080").unwrap_err(),
        ConfigError::InvalidBackendUri
    );
    assert_eq!(
        parse_default_backend(Some("/only/a/path"), "http://127.0.0.1:8080").unwrap_err(),
        ConfigError::MissingBackendHost
    );
}

#[test]
fn simple_settings() {
    assert_eq!(parse_prefix(Some("/api")), "/api");
    assert_eq!(parse_prefix(None), "");
    assert_eq!(parse_max_duration_hours(Some("36")), 36);
    assert_eq!(parse_max_duration_hours(Some("-5")), -5);
    assert_eq!(parse_max_duration_hours(Some("many")), 12);
    assert_eq!(parse_max_duration_hours(Some("99999999999")), 12);
    assert_eq!(parse_max_duration_hours(None), 12);
}

#[test]
fn whole_configuration_loads() {
    let c = Config::load(Some("http://otp:8080"), Some("2#a:1;7#b:2"), Some("/otp"), None).unwrap();
    assert_eq!(c.default_backend_address, "otp:8080");
    assert_eq!(c.backends.len(), 2);
    assert_eq!(c.subpath, "/otp");
    assert_eq!(c.max_duration_hours, 12);
    assert_eq!(
        Config::load(None, Some("2"), None, None).unwrap_err(),
        ConfigError::MalformedBackend
    );
}
