//! URL handling for HTTP probes: normalisation, cache busting, and the
//! endpoint a region's URL describes.
use std::collections::HashMap;
use vstd::prelude::*;
use vstd::std_specs::hash::obeys_key_model;
use crate::collection_utils::{has_key_text, CollectionUtils};
use crate::config::AppConfig;
use crate::error::CloudPingError;
use crate::models::endpoint::{Endpoint, ProbeType};
use crate::format_utils::FormatUtils;
use crate::text::{decimal, push_decimal};
use crate::time_utils::duration_nanos;
use std::time::Duration;

verus! {

/// The parts of a parsed URL that the probing logic reads.
#[derive(Debug, Clone)]
pub struct UrlParts {
    pub scheme: String,
    pub query: Option<String>,
    pub host: Option<String>,
    pub port: Option<u16>,
}

/// The view of an optional string.
pub open spec fn opt_text(o: Option<String>) -> Option<Seq<char>> {
    match o {
        Some(s) => Some(s@),
        None => None,
    }
}

/// What `url::Url::parse` reads from `s` (scheme, query, host, explicit port),
/// or `None` where it refuses `s`.
pub uninterp spec fn url_parts(s: Seq<char>) -> Option<
    (Seq<char>, Option<Seq<char>>, Option<Seq<char>>, Option<u16>),
>;

/// Whether `ipnet::IpNet` parses `s` (an address with a prefix length).
pub uninterp spec fn is_ip_network(s: Seq<char>) -> bool;

/// What `str::trim` leaves of `s`.
pub uninterp spec fn trimmed(s: Seq<char>) -> Seq<char>;

#[verifier::external_type_specification]
#[verifier::external_body]
pub struct ExUrlParseError(url::ParseError);

/// Relies on `url::Url::parse`, and on the accessors `scheme`, `query`,
/// `host_str` and `port` of the URL it returns: the outcome depends on the text
/// alone.
#[verifier::external_body]
pub(crate) fn parse_url(s: &str) -> (r: Result<UrlParts, url::ParseError>)
    ensures
        match r {
            Ok(p) => url_parts(s@) == Some((p.scheme@, opt_text(p.query), opt_text(p.host), p.port)),
            Err(_) => url_parts(s@).is_none(),
        },
{
    url::Url::parse(s).map(
        |u| UrlParts {
            scheme: u.scheme().to_owned(),
            query: u.query().map(|q| q.to_owned()),
            host: u.host_str().map(|h| h.to_owned()),
            port: u.port(),
        },
    )
}

/// Relies on the `Display` impl of `url::ParseError` for the text of a refusal.
#[verifier::external_body]
fn url_error_text(e: &url::ParseError) -> String {
    e.to_string()
}

/// Relies on `FromStr` for `ipnet::IpNet`: whether `s` is an IP network.
#[verifier::external_body]
fn parses_as_ip_network(s: &str) -> (r: bool)
    ensures
        r == is_ip_network(s@),
{
    s.parse::<ipnet::IpNet>().is_ok()
}

/// Relies on `str::trim`: `s` without leading and trailing whitespace.
#[verifier::external_body]
pub(crate) fn trim_text(s: &str) -> (r: &str)
    ensures
        r@ == trimmed(s@),
{
    s.trim()
}

/// Relies on `SystemTime::now` against `UNIX_EPOCH`: the milliseconds elapsed,
/// or zero for a clock set before 1970. Nothing is known of the value.
#[verifier::external_body]
fn unix_time_millis() -> u128 {
    std::time::SystemTime::now().duration_since(std::time::UNIX_EPOCH).unwrap_or_default().as_millis()
}

/// The URL that `validate_and_normalize_url` accepts `url` as, or `None` where
/// it refuses it: the trimmed text when it already is an HTTP(S) URL; else the
/// trimmed text behind `http://` (an IP network) or `https://` (anything else),
/// when that parses.
pub open spec fn normalized_url(url: Seq<char>) -> Option<Seq<char>> {
    let t = trimmed(url);
    if t.len() == 0 {
        None
    } else if url_parts(t) matches Some(p) && (p.0 == "http"@ || p.0 == "https"@) {
        Some(t)
    } else {
        let n = scheme_prefix(is_ip_network(t)) + t;
        if url_parts(n) is Some {
            Some(n)
        } else {
            None
        }
    }
}

/// `url` with the cache-busting parameter for the timestamp `ts` appended:
/// after `&` when the URL has a query already, else after `?`.
pub open spec fn cache_busted(url: Seq<char>, has_query: bool, ts: nat) -> Seq<char> {
    url + (if has_query {
        "&"@
    } else {
        "?"@
    }) + "cache_buster="@ + decimal(ts)
}

/// The port an endpoint for a URL with `scheme` probes, where the URL gives none.
pub open spec fn scheme_default_port(scheme: Seq<char>) -> u16 {
    if scheme == "https"@ {
        443
    } else {
        80
    }
}

/// HTTP and HTTPS URLs are probed over HTTP, everything else over TCP.
pub open spec fn scheme_probe_type(scheme: Seq<char>) -> ProbeType {
    if scheme == "http"@ || scheme == "https"@ {
        ProbeType::HTTP
    } else {
        ProbeType::TCP
    }
}

/// Whether a URL scheme is one an HTTP probe speaks.
pub fn is_web_scheme(scheme: &str) -> (r: bool)
    ensures
        r == (scheme@ == "http"@ || scheme@ == "https"@),
{
    str_eq(scheme, "http") || str_eq(scheme, "https")
}

/// The scheme prefix given to a URL that lacks one.
pub open spec fn scheme_prefix(is_ip_network: bool) -> Seq<char> {
    if is_ip_network {
        "http://"@
    } else {
        "https://"@
    }
}

/// `text` behind `http://` when it is an IP network, else behind `https://`.
pub fn with_scheme_prefix(text: &str, is_ip_network: bool) -> (r: String)
    ensures
        r@ == scheme_prefix(is_ip_network) + text@,
{
    let mut n = if is_ip_network {
        "http://".to_owned()
    } else {
        "https://".to_owned()
    };
    n.append(text);
    n
}

/// `url` with the cache-busting parameter for `ts` appended, after `&` when
/// the URL has a query already, else after `?`.
pub fn append_cache_buster(url: &str, has_query: bool, ts: u128) -> (r: String)
    ensures
        r@ == cache_busted(url@, has_query, ts as nat),
{
    let mut s = url.to_owned();
    if has_query {
        s.append("&");
    } else {
        s.append("?");
    }
    s.append("cache_buster=");
    push_decimal(&mut s, ts);
    proof {
        reveal_strlit("&");
        reveal_strlit("?");
        reveal_strlit("cache_buster=");
        assert(s@ =~= cache_busted(url@, has_query, ts as nat));
    }
    s
}

/// URL helpers of the HTTP tester.
pub struct NetworkTester;

impl NetworkTester {
    /// Add a protocol prefix where it is missing and check the URL's format.
    pub fn validate_and_normalize_url(url: &str) -> (r: Result<String, CloudPingError>)
        ensures
            match normalized_url(url@) {
                Some(n) => r matches Ok(s) && s@ == n,
                None => r matches Err(CloudPingError::InvalidUrl { .. }),
            },
    {
        let t = trim_text(url);
        if t.is_empty() {
            return Err(CloudPingError::invalid_url("URL is empty"));
        }
        match parse_url(t) {
            Ok(p) => {
                if is_web_scheme(p.scheme.as_str()) {
                    return Ok(t.to_owned());
                }
            },
            Err(_) => {},
        }
        let n = with_scheme_prefix(t, parses_as_ip_network(t));
        match parse_url(n.as_str()) {
            Ok(_) => Ok(n),
            Err(e) => {
                let mut message = "Invalid URL '".to_owned();
                message.append(t);
                message.append("': ");
                message.append(url_error_text(&e).as_str());
                Err(CloudPingError::InvalidUrl { url: message })
            },
        }
    }

    /// Append a cache-busting parameter for the timestamp `ts`; a URL that does
    /// not parse is refused.
    pub fn add_cache_buster_at(url: &str, ts: u128) -> (r: Result<String, CloudPingError>)
        ensures
            match url_parts(url@) {
                Some(p) => r matches Ok(s) && s@ == cache_busted(url@, p.1 is Some, ts as nat),
                None => r matches Err(CloudPingError::InvalidUrl { .. }),
            },
    {
        match parse_url(url) {
            Ok(p) => Ok(append_cache_buster(url, p.query.is_some(), ts)),
            Err(e) => {
                let mut message = "Invalid URL '".to_owned();
                message.append(url);
                message.append("': ");
                message.append(url_error_text(&e).as_str());
                Err(CloudPingError::InvalidUrl { url: message })
            },
        }
    }

    /// Append a cache-busting parameter holding the current time in
    /// milliseconds since the Unix epoch.
    pub fn add_cache_buster(url: &str) -> (r: Result<String, CloudPingError>)
        ensures
            match url_parts(url@) {
                Some(p) => r matches Ok(s) && exists|ts: nat| s@ == #[trigger] cache_busted(url@, p.1 is Some, ts),
                None => r matches Err(CloudPingError::InvalidUrl { .. }),
            },
    {
        let ts = unix_time_millis();
        Self::add_cache_buster_at(url, ts)
    }
}

/// Text equality of two string slices.
pub fn str_eq(a: &str, b: &str) -> (r: bool)
    ensures
        r == (a@ == b@),
{
    let n = a.unicode_len();
    if n != b.unicode_len() {
        return false;
    }
    let mut i: usize = 0;
    while i < n
        invariant
            n == a@.len(),
            n == b@.len(),
            i <= n,
            forall|j: int| 0 <= j < i ==> a@[j] == b@[j],
        decreases n - i,
    {
        if a.get_char(i) != b.get_char(i) {
            return false;
        }
        i = i + 1;
    }
    assert(a@ =~= b@);
    true
}

/// The endpoint that probes a region whose URL `url` parsed into `parts`. The
/// host is the URL's (or the URL itself when it names none); the port is the
/// URL's, else 443 for HTTPS and 80 otherwise; HTTP(S) URLs are probed over
/// HTTP, others over TCP. The metadata records the region's name, URL,
/// provider and country.
pub fn endpoint_from_parts(
    id: String,
    url: &str,
    parts: UrlParts,
    name: &str,
    provider: &str,
    country: &str,
) -> (e: Endpoint)
    ensures
        e.id == id,
        e.host@ == (match parts.host {
            Some(h) => h@,
            None => url@,
        }),
        e.port == (match parts.port {
            Some(port) => port,
            None => scheme_default_port(parts.scheme@),
        }),
        e.probe_type == scheme_probe_type(parts.scheme@),
        obeys_key_model::<String>() ==> {
            &&& has_key_text(e.metadata@, "name"@)
            &&& has_key_text(e.metadata@, "url"@)
            &&& has_key_text(e.metadata@, "provider"@)
            &&& has_key_text(e.metadata@, "country"@)
            &&& e.metadata@.len() <= 4
        },
{
    proof {
        reveal_strlit("http");
        reveal_strlit("https");
    }
    let is_https = str_eq(parts.scheme.as_str(), "https");
    let is_http = str_eq(parts.scheme.as_str(), "http");
    let host = match parts.host {
        Some(h) => h,
        None => url.to_owned(),
    };
    let port = match parts.port {
        Some(port) => port,
        None => if is_https {
            443
        } else {
            80
        },
    };
    let probe_type = if is_http || is_https {
        ProbeType::HTTP
    } else {
        ProbeType::TCP
    };
    let pairs = [("name", name), ("url", url), ("provider", provider), ("country", country)];
    let metadata: HashMap<String, String> = CollectionUtils::create_metadata(&pairs);
    proof {
        reveal_strlit("name");
        reveal_strlit("url");
        reveal_strlit("provider");
        reveal_strlit("country");
        assert(pairs@[0].0@ == "name"@);
        assert(pairs@[1].0@ == "url"@);
        assert(pairs@[2].0@ == "provider"@);
        assert(pairs@[3].0@ == "country"@);
    }
    Endpoint::with_metadata(id, host, port, probe_type, metadata)
}

/// The endpoint that probes the region at `url`, or `None` where the URL does
/// not parse; see `endpoint_from_parts`.
pub fn endpoint_for_region(
    id: String,
    name: &str,
    url: &str,
    provider: &str,
    country: &str,
) -> (r: Option<Endpoint>)
    ensures
        match url_parts(url@) {
            None => r is None,
            Some(p) => r matches Some(e) && {
                &&& e.id == id
                &&& e.host@ == (match p.2 {
                    Some(h) => h,
                    None => url@,
                })
                &&& e.port == (match p.3 {
                    Some(port) => port,
                    None => scheme_default_port(p.0),
                })
                &&& e.probe_type == scheme_probe_type(p.0)
                &&& obeys_key_model::<String>() ==> {
                    &&& has_key_text(e.metadata@, "name"@)
                    &&& has_key_text(e.metadata@, "url"@)
                    &&& has_key_text(e.metadata@, "provider"@)
                    &&& has_key_text(e.metadata@, "country"@)
                    &&& e.metadata@.len() <= 4
                }
            },
        },
{
    match parse_url(url) {
        Err(_) => None,
        Ok(p) => Some(endpoint_from_parts(id, url, p, name, provider, country)),
    }
}

/// Timing and outcome of one HTTP request.
#[derive(Debug, Clone)]
pub struct RequestTiming {
    pub total_time: Duration,
    pub dns_lookup: Option<Duration>,
    pub tcp_connect: Option<Duration>,
    pub tls_handshake: Option<Duration>,
    pub request_send: Option<Duration>,
    pub response_receive: Option<Duration>,
    pub status_code: Option<u16>,
    pub success: bool,
    pub error_message: Option<String>,
}

/// A response counts as a success for a 2xx or 3xx status, and for status 0,
/// which some endpoints answer pings with.
pub open spec fn status_succeeds(status: u16) -> bool {
    (200 <= status < 400) || status == 0
}

/// HTTP status reported for a request that timed out.
pub const TIMEOUT_STATUS: u16 = 408;

impl RequestTiming {
    /// The timing of a request answered with `status_code` after `total_time`.
    pub fn from_status(total_time: Duration, status_code: u16) -> (r: Self)
        ensures
            r.total_time == total_time,
            r.status_code == Some(status_code),
            r.success == status_succeeds(status_code),
            r.success ==> r.error_message is None,
            !r.success ==> (r.error_message matches Some(m) && m@ == "HTTP "@ + decimal(
                status_code as nat,
            )),
            r.dns_lookup is None && r.tcp_connect is None && r.tls_handshake is None
                && r.request_send is None && r.response_receive is None,
    {
        let success = (200 <= status_code && status_code < 400) || status_code == 0;
        let error_message = if success {
            None
        } else {
            let mut m = "HTTP ".to_owned();
            push_decimal(&mut m, status_code as u128);
            proof {
                reveal_strlit("HTTP ");
            }
            Some(m)
        };
        RequestTiming {
            total_time,
            dns_lookup: None,
            tcp_connect: None,
            tls_handshake: None,
            request_send: None,
            response_receive: None,
            status_code: Some(status_code),
            success,
            error_message,
        }
    }

    /// The timing of a request that failed after `total_time` with `message`.
    pub fn from_error(total_time: Duration, message: String) -> (r: Self)
        ensures
            r.total_time == total_time,
            r.status_code is None,
            !r.success,
            r.error_message == Some(message),
    {
        RequestTiming {
            total_time,
            dns_lookup: None,
            tcp_connect: None,
            tls_handshake: None,
            request_send: None,
            response_receive: None,
            status_code: None,
            success: false,
            error_message: Some(message),
        }
    }

    /// The timing of a request that timed out after `timeout_ms`.
    pub fn from_timeout(timeout_ms: u64) -> (r: Self)
        ensures
            duration_nanos(r.total_time) == timeout_ms * 1_000_000,
            r.status_code == Some(TIMEOUT_STATUS),
            !r.success,
            r.error_message matches Some(m) && m@ == "Timeout after "@ + decimal(
                timeout_ms as nat,
            ) + "ms"@,
    {
        RequestTiming {
            total_time: Duration::from_millis(timeout_ms),
            dns_lookup: None,
            tcp_connect: None,
            tls_handshake: None,
            request_send: None,
            response_receive: None,
            status_code: Some(TIMEOUT_STATUS),
            success: false,
            error_message: Some(FormatUtils::format_timeout_message(timeout_ms)),
        }
    }

    /// The outcome reported when every attempt failed.
    pub fn retries_exhausted() -> (r: Self)
        ensures
            duration_nanos(r.total_time) == 0,
            r.status_code is None,
            !r.success,
            r.error_message matches Some(m) && m@ == "All retry attempts failed"@,
    {
        RequestTiming {
            total_time: Duration::from_millis(0),
            dns_lookup: None,
            tcp_connect: None,
            tls_handshake: None,
            request_send: None,
            response_receive: None,
            status_code: None,
            success: false,
            error_message: Some("All retry attempts failed".to_owned()),
        }
    }
}

/// What a retrying request does after an attempt.
#[derive(Debug, Clone, Copy, PartialEq, Eq, Structural)]
pub enum RetryStep {
    /// The attempt succeeded: report it.
    Done,
    /// Wait this many milliseconds, then make the next attempt.
    RetryAfter(u64),
    /// No attempt is left: report that all failed.
    GiveUp,
}

/// The step after attempt number `attempt` (from 0) of `max_retries + 1`
/// succeeded or failed.
pub open spec fn spec_retry_step(
    attempt: nat,
    max_retries: nat,
    succeeded: bool,
    retry_delay_ms: u64,
) -> RetryStep {
    if succeeded {
        RetryStep::Done
    } else if attempt < max_retries {
        RetryStep::RetryAfter(retry_delay_ms)
    } else {
        RetryStep::GiveUp
    }
}

/// Decide what follows an attempt of a retrying request.
pub fn retry_step(attempt: usize, max_retries: usize, succeeded: bool, retry_delay_ms: u64) -> (r:
    RetryStep)
    ensures
        r == spec_retry_step(attempt as nat, max_retries as nat, succeeded, retry_delay_ms),
{
    if succeeded {
        RetryStep::Done
    } else if attempt < max_retries {
        RetryStep::RetryAfter(retry_delay_ms)
    } else {
        RetryStep::GiveUp
    }
}

/// Builder for the HTTP tester's configuration.
#[derive(Debug, Clone)]
pub struct NetworkTesterBuilder {
    config: Option<AppConfig>,
}

impl NetworkTesterBuilder {
    pub closed spec fn spec_config(&self) -> Option<AppConfig> {
        self.config
    }

    pub fn new() -> (r: Self)
        ensures
            r.spec_config() is None,
    {
        NetworkTesterBuilder { config: None }
    }

    pub fn config(self, config: AppConfig) -> (r: Self)
        ensures
            r.spec_config() == Some(config),
    {
        NetworkTesterBuilder { config: Some(config) }
    }

    /// The configuration the tester is built with: the one given, else the
    /// default one.
    pub fn into_config(self) -> (r: AppConfig)
        ensures
            self.spec_config() matches Some(c) ==> r == c,
            self.spec_config() is None ==> r.max_threads == 10 && r.timeout_ms == 5000,
    {
        match self.config {
            Some(c) => c,
            None => AppConfig::default(),
        }
    }
}

} // verus!
