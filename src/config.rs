//! Configuration of the dispatch core, accepted as a structured value.
use vstd::prelude::*;
use crate::rate_limit::RateLimitConfig;

verus! {

/// What `url::Url::parse` followed by `Url::scheme` gives for a URL: the
/// scheme of one that parses, none for one that does not.
pub uninterp spec fn parsed_scheme(url: Seq<char>) -> Option<Seq<char>>;

/// Relies on `url::Url::parse` and `Url::scheme`: the lower-case scheme of a
/// URL that parses, and none for one that does not.
#[verifier::external_body]
fn url_scheme(url: &str) -> (r: Option<String>)
    ensures
        r matches Some(s) ==> parsed_scheme(url@) == Some(s@),
        r is None ==> parsed_scheme(url@) is None,
{
    match url::Url::parse(url) {
        Ok(parsed) => Some(parsed.scheme().to_string()),
        Err(_) => None,
    }
}

pub open spec fn http_scheme() -> Seq<char> {
    seq!['h', 't', 't', 'p']
}

pub open spec fn https_scheme() -> Seq<char> {
    seq!['h', 't', 't', 'p', 's']
}

/// The schemes an endpoint may use: `http` or `https`.
pub open spec fn allowed_scheme(scheme: Option<Seq<char>>) -> bool {
    scheme == Some(http_scheme()) || scheme == Some(https_scheme())
}

/// Whether a parsed scheme is one an endpoint may use.
pub fn scheme_allowed(scheme: &Option<String>) -> (r: bool)
    ensures
        r == allowed_scheme(
            match scheme {
                Some(s) => Some(s@),
                None => None,
            },
        ),
{
    match scheme {
        Some(s) => {
            let http = String::from_str("http");
            let https = String::from_str("https");
            proof {
                reveal_strlit("http");
                reveal_strlit("https");
                assert(http@ =~= http_scheme());
                assert(https@ =~= https_scheme());
            }
            *s == http || *s == https
        },
        None => false,
    }
}

/// Whether `url` parses as an `http` or `https` URL.
pub fn is_http_url(url: &str) -> (r: bool)
    ensures
        r == allowed_scheme(parsed_scheme(url@)),
{
    let scheme = url_scheme(url);
    scheme_allowed(&scheme)
}

/// One remote JSON-RPC endpoint. Its identity is its index in the list.
#[derive(Debug, Clone)]
pub struct EndpointConfig {
    pub url: String,
    /// Weight for selection among equally good endpoints; at least 1.
    pub weight: u32,
    pub enabled: bool,
    /// Replaces the default `max_rps` for this endpoint when present.
    pub requests_per_second: Option<u32>,
}

/// Exponential backoff between attempts of one call.
#[derive(Debug, Clone, Copy, PartialEq, Eq, Structural)]
pub struct RetryConfig {
    /// Upper bound on transport attempts per call.
    pub max_retries: u32,
    pub base_delay_ms: u64,
    pub max_delay_ms: u64,
}

/// Configuration of the dispatcher.
#[derive(Debug, Clone)]
pub struct RpcConfig {
    pub endpoints: Vec<EndpointConfig>,
    pub max_concurrent_requests: u32,
    /// Per-attempt wall-clock bound.
    pub request_timeout_ms: u64,
    pub retry: RetryConfig,
    /// Default rate-limit quota of every endpoint.
    pub rate_limit: RateLimitConfig,
    /// Health freshness window W.
    pub freshness_window_ms: u64,
}

impl EndpointConfig {
    /// An enabled endpoint of weight 1 at `url` with its own rate ceiling.
    pub fn new(url: String, requests_per_second: u32) -> (r: EndpointConfig)
        ensures
            r.url == url,
            r.weight == 1,
            r.enabled,
            r.requests_per_second == Some(requests_per_second),
    {
        EndpointConfig { url, weight: 1, enabled: true, requests_per_second: Some(requests_per_second) }
    }

    /// The refill rate of this endpoint's bucket: its own ceiling when
    /// present, else the default.
    pub open spec fn rps(&self, default: RateLimitConfig) -> u32 {
        match self.requests_per_second {
            Some(r) => r,
            None => default.max_rps,
        }
    }

    /// Usable: positive weight, a nonzero rate, and an http(s) URL.
    pub open spec fn valid(&self, default: RateLimitConfig) -> bool {
        &&& self.weight >= 1
        &&& self.rps(default) > 0
        &&& allowed_scheme(parsed_scheme(self.url@))
    }
}

impl RpcConfig {
    /// Usable apart from which endpoints are enabled.
    pub open spec fn valid(&self) -> bool {
        &&& self.endpoints@.len() > 0
        &&& self.max_concurrent_requests >= 1
        &&& self.retry.max_retries >= 1
        &&& self.rate_limit.max_rps > 0
        &&& self.rate_limit.burst_size > 0
        &&& forall|i: int|
            0 <= i < self.endpoints@.len() ==> #[trigger] self.endpoints@[i].valid(self.rate_limit)
    }

    pub open spec fn has_enabled(&self) -> bool {
        exists|i: int| 0 <= i < self.endpoints@.len() && #[trigger] self.endpoints@[i].enabled
    }
}

impl Default for RetryConfig {
    fn default() -> (r: RetryConfig)
        ensures
            r.max_retries == 3,
            r.base_delay_ms == 100,
            r.max_delay_ms == 10_000,
    {
        RetryConfig { max_retries: 3, base_delay_ms: 100, max_delay_ms: 10_000 }
    }
}

impl Default for RateLimitConfig {
    fn default() -> (r: RateLimitConfig)
        ensures
            r.max_rps == 100,
            r.burst_size == 10,
    {
        RateLimitConfig { max_rps: 100, burst_size: 10 }
    }
}

impl Default for RpcConfig {
    /// One local endpoint, ten concurrent requests, a five-second timeout,
    /// three attempts, 100 requests per second with bursts of ten.
    fn default() -> (r: RpcConfig)
        ensures
            r.endpoints@.len() == 1,
            r.endpoints@[0].url@ == "http://localhost:8899"@,
            r.endpoints@[0].weight == 1,
            r.endpoints@[0].enabled,
            r.endpoints@[0].requests_per_second is None,
            r.max_concurrent_requests == 10,
            r.request_timeout_ms == 5000,
            r.retry.max_retries == 3,
            r.retry.base_delay_ms == 100,
            r.retry.max_delay_ms == 10_000,
            r.rate_limit.max_rps == 100,
            r.rate_limit.burst_size == 10,
            r.freshness_window_ms == 30_000,
    {
        let endpoint = EndpointConfig {
            url: String::from_str("http://localhost:8899"),
            weight: 1,
            enabled: true,
            requests_per_second: None,
        };
        RpcConfig {
            endpoints: vec![endpoint],
            max_concurrent_requests: 10,
            request_timeout_ms: 5000,
            retry: RetryConfig { max_retries: 3, base_delay_ms: 100, max_delay_ms: 10_000 },
            rate_limit: RateLimitConfig { max_rps: 100, burst_size: 10 },
            freshness_window_ms: 30_000,
        }
    }
}

} // verus!
