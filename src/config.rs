//! Process-lifetime configuration: the backends and how they are read.
use vstd::prelude::*;
use vstd::string::*;

use crate::parameters::opt_view;
use crate::text::{
    decimal_text, find_char, first_index_of, i32_text_value, parse_i32, split_char, split_on,
    u16_text,
};

verus! {

/// Why a configuration cannot be used; the process must not start with one.
#[derive(Clone, Copy, Debug, PartialEq, Eq, Structural)]
pub enum ConfigError {
    /// The default backend is not a URI.
    InvalidBackendUri,
    /// The default backend's URI names no host.
    MissingBackendHost,
    /// A backend entry lacks the `#` between its days and its address.
    MalformedBackend,
    /// A backend entry's days are not an `i32`.
    InvalidDays,
}

/// A backend that answers for dates strictly fewer than `days` days ahead.
#[derive(Debug)]
pub struct Backend {
    pub days: i32,
    pub backend_address: String,
}

impl View for Backend {
    type V = (int, Seq<char>);

    open spec fn view(&self) -> (int, Seq<char>) {
        (self.days as int, self.backend_address@)
    }
}

/// Where requests go.
#[derive(Debug)]
pub struct Config {
    /// `host:port` used when no backend in the list fits.
    pub default_backend_address: String,
    /// Candidates, tried in order.
    pub backends: Vec<Backend>,
    /// Path prefix under which the proxy is mounted.
    pub subpath: String,
    /// Width in hours of a forward search window.
    pub max_duration_hours: i32,
}

/// Whether hyper can read the text as a URI.
pub uninterp spec fn uri_parses(s: Seq<char>) -> bool;

/// The host of the URI that the text reads as, if it reads as one with a host.
pub uninterp spec fn uri_host_of(s: Seq<char>) -> Option<Seq<char>>;

/// The explicit port of the URI that the text reads as, if any.
pub uninterp spec fn uri_port_of(s: Seq<char>) -> Option<u16>;

/// Relies on hyper's `Uri` (`FromStr`): whether the text is a URI.
#[verifier::external_body]
fn is_uri(s: &str) -> (r: bool)
    ensures
        r == uri_parses(s@),
{
    s.parse::<hyper::Uri>().is_ok()
}

/// Relies on hyper's `Uri` (`FromStr`) and `Uri::host`: the host part.
#[verifier::external_body]
fn uri_host(s: &str) -> (r: Option<String>)
    ensures
        r is Some <==> uri_host_of(s@) is Some,
        r is Some ==> r->0@ == uri_host_of(s@)->0,
        !uri_parses(s@) ==> r is None,
{
    s.parse::<hyper::Uri>().ok().and_then(|u| u.host().map(|h| h.to_owned()))
}

/// Relies on hyper's `Uri` (`FromStr`) and `Uri::port_u16`: the explicit port.
#[verifier::external_body]
fn uri_port(s: &str) -> (r: Option<u16>)
    ensures
        r == uri_port_of(s@),
{
    s.parse::<hyper::Uri>().ok().and_then(|u| u.port_u16())
}

/// Default port of a backend URI that gives none.
pub const DEFAULT_BACKEND_PORT: u16 = 80;

/// `host:port` of a backend URI, port 80 where it names none.
pub open spec fn backend_authority(uri: Seq<char>) -> Result<Seq<char>, ConfigError> {
    if !uri_parses(uri) {
        Err(ConfigError::InvalidBackendUri)
    } else {
        match uri_host_of(uri) {
            Some(host) => Ok(
                host + ":"@ + decimal_text(
                    match uri_port_of(uri) {
                        Some(p) => p as nat,
                        None => 80nat,
                    },
                ),
            ),
            None => Err(ConfigError::MissingBackendHost),
        }
    }
}

pub open spec fn or_default(s: Option<&str>, default: &str) -> Seq<char> {
    match s {
        Some(v) => v@,
        None => default@,
    }
}

/// The default backend's `host:port`, from its URI or else from `default`.
pub fn parse_default_backend(backend: Option<&str>, default: &str) -> (r: Result<String, ConfigError>)
    ensures
        r is Ok <==> backend_authority(or_default(backend, default)) is Ok,
        r is Ok ==> r->Ok_0@ == backend_authority(or_default(backend, default))->Ok_0,
        r is Err ==> r == Err::<String, ConfigError>(
            backend_authority(or_default(backend, default))->Err_0,
        ),
{
    let uri = match backend {
        Some(b) => b,
        None => default,
    };
    if !is_uri(uri) {
        return Err(ConfigError::InvalidBackendUri);
    }
    match uri_host(uri) {
        Some(host) => {
            let port = match uri_port(uri) {
                Some(p) => p,
                None => DEFAULT_BACKEND_PORT,
            };
            let port_text = u16_text(port);
            let mut address = host;
            address.append(":");
            address.append(port_text.as_str());
            Ok(address)
        },
        None => Err(ConfigError::MissingBackendHost),
    }
}

/// A `<days>#<address>` entry, split at its first `#`.
pub open spec fn backend_entry(s: Seq<char>) -> Result<(int, Seq<char>), ConfigError> {
    match first_index_of(s, '#') {
        Some(i) => match i32_text_value(s.take(i)) {
            Some(d) => Ok((d, s.skip(i + 1))),
            None => Err(ConfigError::InvalidDays),
        },
        None => Err(ConfigError::MalformedBackend),
    }
}

/// The entries in order, or the error of the first bad one.
pub open spec fn backend_list(entries: Seq<Seq<char>>) -> Result<Seq<(int, Seq<char>)>, ConfigError>
    decreases entries.len(),
{
    if entries.len() == 0 {
        Ok(Seq::empty())
    } else {
        match backend_list(entries.drop_last()) {
            Ok(init) => match backend_entry(entries.last()) {
                Ok(b) => Ok(init.push(b)),
                Err(e) => Err(e),
            },
            Err(e) => Err(e),
        }
    }
}

/// The backends a `;`-separated list names; none where there is no list.
pub open spec fn backends_of(s: Option<Seq<char>>) -> Result<Seq<(int, Seq<char>)>, ConfigError> {
    match s {
        Some(text) => backend_list(split_on(text, ';')),
        None => Ok(Seq::empty()),
    }
}

pub open spec fn backend_views(bs: Seq<Backend>) -> Seq<(int, Seq<char>)> {
    bs.map_values(|b: Backend| b@)
}

impl Backend {
    /// Whether this backend answers for a date `days` days ahead.
    pub fn can_route_in_days(&self, days: i64) -> (r: bool)
        ensures
            r == (self.days > days),
    {
        self.days as i64 > days
    }

    /// Reads a `<days>#<address>` entry.
    pub fn new(days_backend: &str) -> (r: Result<Backend, ConfigError>)
        ensures
            r is Ok <==> backend_entry(days_backend@) is Ok,
            r is Ok ==> r->Ok_0@ == backend_entry(days_backend@)->Ok_0,
            r is Err ==> r == Err::<Backend, ConfigError>(backend_entry(days_backend@)->Err_0),
    {
        match find_char(days_backend, '#') {
            Some(i) => {
                let n = days_backend.unicode_len();
                let days_text = days_backend.substring_char(0, i);
                assert(days_text@ =~= days_backend@.take(i as int));
                match parse_i32(days_text) {
                    Some(days) => {
                        let address = days_backend.substring_char(i + 1, n).to_owned();
                        assert(address@ =~= days_backend@.skip(i + 1));
                        Ok(Backend { days, backend_address: address })
                    },
                    None => Err(ConfigError::InvalidDays),
                }
            },
            None => Err(ConfigError::MalformedBackend),
        }
    }
}

/// Reads the backend list, `<days>#<host:port>` entries separated by `;`.
pub fn parse_backends(backends: Option<&str>) -> (r: Result<Vec<Backend>, ConfigError>)
    ensures
        r is Ok <==> backends_of(opt_view(backends)) is Ok,
        r is Ok ==> backend_views(r->Ok_0@) == backends_of(opt_view(backends))->Ok_0,
        r is Err ==> r == Err::<Vec<Backend>, ConfigError>(
            backends_of(opt_view(backends))->Err_0,
        ),
{
    match backends {
        Some(text) => {
            let entries = split_char(text, ';');
            let ghost pieces = split_on(text@, ';');
            assert(entries@.len() == pieces.len());
            let mut parsed: Vec<Backend> = Vec::new();
            let mut i: usize = 0;
            while i < entries.len()
                invariant
                    backends == Some(text),
                    pieces == split_on(text@, ';'),
                    entries@.len() == pieces.len(),
                    forall|k: int| 0 <= k < entries@.len() ==> #[trigger] entries@[k]@ == pieces[k],
                    i <= entries@.len(),
                    backend_list(pieces.take(i as int)) is Ok,
                    backend_views(parsed@) == backend_list(pieces.take(i as int))->Ok_0,
                decreases entries@.len() - i,
            {
                assert(pieces.take(i + 1).drop_last() =~= pieces.take(i as int));
                assert(pieces.take(i + 1).last() == entries@[i as int]@);
                match Backend::new(entries[i].as_str()) {
                    Ok(b) => {
                        parsed.push(b);
                        assert(backend_views(parsed@) =~= backend_list(pieces.take(i + 1))->Ok_0);
                    },
                    Err(e) => {
                        proof {
                            assert(backend_entry(pieces.take(i + 1).last()) == Err::<
                                (int, Seq<char>),
                                ConfigError,
                            >(e));
                            assert(backend_list(pieces.take(i + 1)) == Err::<
                                Seq<(int, Seq<char>)>,
                                ConfigError,
                            >(e));
                            lemma_backend_list_err_extends(pieces, i as int + 1);
                        }
                        return Err(e);
                    },
                }
                i = i + 1;
            }
            assert(pieces.take(i as int) =~= pieces);
            Ok(parsed)
        },
        None => {
            let none: Vec<Backend> = Vec::new();
            assert(backend_views(none@) =~= Seq::<(int, Seq<char>)>::empty());
            Ok(none)
        },
    }
}

/// Once a prefix of the entries fails, every longer prefix fails the same way.
proof fn lemma_backend_list_err_extends(entries: Seq<Seq<char>>, n: int)
    requires
        0 <= n <= entries.len(),
        backend_list(entries.take(n)) is Err,
    ensures
        backend_list(entries) == backend_list(entries.take(n)),
    decreases entries.len() - n,
{
    if n < entries.len() {
        assert(entries.take(n + 1).drop_last() =~= entries.take(n));
        lemma_backend_list_err_extends(entries, n + 1);
    } else {
        assert(entries.take(n) =~= entries);
    }
}

/// The mount prefix; empty where none is configured.
pub fn parse_prefix(prefix: Option<&str>) -> (r: String)
    ensures
        r@ == (match prefix {
            Some(p) => p@,
            None => Seq::<char>::empty(),
        }),
{
    match prefix {
        Some(p) => p.to_owned(),
        None => String::new(),
    }
}

/// Window width used when none, or an unreadable one, is configured.
pub const DEFAULT_MAX_DURATION_HOURS: i32 = 12;

/// The window width in hours; 12 where none, or no `i32`, is given.
pub fn parse_max_duration_hours(max_duration_hours: Option<&str>) -> (r: i32)
    ensures
        r == parse_max_duration_hours_spec(max_duration_hours),
{
    match max_duration_hours {
        Some(h) => match parse_i32(h) {
            Some(v) => v,
            None => DEFAULT_MAX_DURATION_HOURS,
        },
        None => DEFAULT_MAX_DURATION_HOURS,
    }
}

impl Config {
    /// Builds the configuration from its settings as given to the process:
    /// the default backend's URI, the backend list, the mount prefix and the
    /// window width.
    pub fn load(
        backend_address: Option<&str>,
        backends: Option<&str>,
        prefix: Option<&str>,
        max_hours: Option<&str>,
    ) -> (r: Result<Config, ConfigError>)
        ensures
            r is Ok <==> (backend_authority(or_default(backend_address, "http://127.0.0.1:8080"))
                is Ok && backends_of(opt_view(backends)) is Ok),
            r is Ok ==> {
                let c = r->Ok_0;
                &&& c.default_backend_address@ == backend_authority(
                    or_default(backend_address, "http://127.0.0.1:8080"),
                )->Ok_0
                &&& backend_views(c.backends@) == backends_of(opt_view(backends))->Ok_0
                &&& c.subpath@ == (match prefix {
                    Some(p) => p@,
                    None => Seq::<char>::empty(),
                })
                &&& c.max_duration_hours == parse_max_duration_hours_spec(max_hours)
            },
    {
        let default_backend_address = match parse_default_backend(
            backend_address,
            "http://127.0.0.1:8080",
        ) {
            Ok(a) => a,
            Err(e) => return Err(e),
        };
        let backends = match parse_backends(backends) {
            Ok(b) => b,
            Err(e) => return Err(e),
        };
        Ok(Config {
            default_backend_address,
            backends,
            subpath: parse_prefix(prefix),
            max_duration_hours: parse_max_duration_hours(max_hours),
        })
    }
}

pub open spec fn parse_max_duration_hours_spec(max_duration_hours: Option<&str>) -> i32 {
    match max_duration_hours {
        Some(h) => match i32_text_value(h@) {
            Some(v) => v as i32,
            None => 12i32,
        },
        None => 12i32,
    }
}

} // verus!
