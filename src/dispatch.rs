//! The dispatcher: endpoint selection, permits, outcome recording and the
//! retry/failover decisions of one call.
//!
//! A call runs as a loop that the caller drives: `select_endpoint`, then
//! `acquire_permit` until granted, then the transport attempt, then
//! `record_success` or `record_failure`. The latter says whether to back off
//! and loop or to stop with an error.
use vstd::prelude::*;
use crate::config::{EndpointConfig, RpcConfig, is_http_url};
use crate::error::{EndpointFailure, RpcError, TransportError};
use crate::health::{EndpointStats, HealthMonitor, is_choice};
use crate::rate_limit::{Admission, RateLimitConfig, RateLimiter};

verus! {

pub open spec fn two_pow(n: nat) -> nat
    decreases n,
{
    if n == 0 {
        1
    } else {
        2 * two_pow((n - 1) as nat)
    }
}

proof fn lemma_two_pow_monotone(a: nat, b: nat)
    requires
        a <= b,
    ensures
        two_pow(a) <= two_pow(b),
        two_pow(a) >= 1,
    decreases b,
{
    if b > 0 {
        if a < b {
            lemma_two_pow_monotone(a, (b - 1) as nat);
        } else {
            lemma_two_pow_monotone((a - 1) as nat, (b - 1) as nat);
        }
    }
}

/// `min(max_delay, base_delay × 2^attempts)`.
pub open spec fn backoff(base_delay: u64, max_delay: u64, attempts: nat) -> nat {
    let d = base_delay * two_pow(attempts);
    if d > max_delay {
        max_delay as nat
    } else {
        d as nat
    }
}

/// The pause before the next attempt: the backoff plus a jitter below the
/// base delay (the jitter source reduced modulo the base delay), saturating.
pub open spec fn retry_delay(base_delay: u64, max_delay: u64, attempts: nat, jitter: u64) -> u64 {
    let j: nat = if base_delay > 0 {
        (jitter % base_delay) as nat
    } else {
        0
    };
    let total = backoff(base_delay, max_delay, attempts) + j;
    if total > u64::MAX {
        u64::MAX
    } else {
        total as u64
    }
}

/// `min(max_delay, base_delay × 2^attempts)`.
pub fn backoff_delay_ms(base_delay: u64, max_delay: u64, attempts: u32) -> (r: u64)
    ensures
        r == backoff(base_delay, max_delay, attempts as nat),
{
    let mut d: u128 = base_delay as u128;
    let mut k: u32 = 0;
    assert(two_pow(0) == 1);
    while k < attempts && d < max_delay as u128
        invariant
            k <= attempts,
            d == base_delay * two_pow(k as nat),
            d <= 2 * (u64::MAX as u128),
        decreases attempts - k,
    {
        proof {
            assert(two_pow((k + 1) as nat) == 2 * two_pow(k as nat));
            assert(d * 2 == base_delay * two_pow((k + 1) as nat)) by (nonlinear_arith)
                requires
                    d == base_delay * two_pow(k as nat),
                    two_pow((k + 1) as nat) == 2 * two_pow(k as nat),
            ;
        }
        d = d * 2;
        k = k + 1;
    }
    proof {
        if k < attempts {
            lemma_two_pow_monotone(k as nat, attempts as nat);
            assert(base_delay * two_pow(k as nat) <= base_delay * two_pow(attempts as nat))
                by (nonlinear_arith)
                requires
                    two_pow(k as nat) <= two_pow(attempts as nat),
            ;
        }
    }
    if d > max_delay as u128 {
        max_delay
    } else {
        d as u64
    }
}

/// What to do after a failed attempt.
#[derive(Debug, Clone)]
pub enum Step {
    /// Back off this many milliseconds, then select an endpoint again.
    Retry(u64),
    /// The call ends with this error.
    Fail(RpcError),
}

/// The decision after an attempt fails with `error`, when `attempts`
/// earlier attempts of the same call had failed.
pub open spec fn failure_step(
    attempts: nat,
    max_retries: u32,
    base_delay: u64,
    max_delay: u64,
    error: TransportError,
    jitter: u64,
) -> Step {
    if !error.retryable() {
        Step::Fail(RpcError::from_transport_spec(error))
    } else if attempts + 1 >= max_retries {
        if error.rate_limited() {
            Step::Fail(RpcError::RateLimitExceeded)
        } else {
            Step::Fail(RpcError::RetryExhausted(error))
        }
    } else {
        Step::Retry(retry_delay(base_delay, max_delay, attempts + 1, jitter))
    }
}

/// Number of enabled endpoints among the first `k`.
pub open spec fn enabled_upto(endpoints: Seq<EndpointConfig>, k: int) -> nat
    decreases k,
{
    if k <= 0 {
        0
    } else {
        enabled_upto(endpoints, k - 1) + if endpoints[k - 1].enabled {
            1nat
        } else {
            0nat
        }
    }
}

pub open spec fn enabled_count(endpoints: Seq<EndpointConfig>) -> nat {
    enabled_upto(endpoints, endpoints.len() as int)
}

/// The state of one call in progress.
pub struct CallState {
    attempts: u32,
    tried: Vec<bool>,
    failures: Vec<EndpointFailure>,
}

impl CallState {
    /// Failed attempts so far.
    pub closed spec fn attempts_made(&self) -> nat {
        self.attempts as nat
    }

    /// The endpoints that failed in this call.
    pub closed spec fn tried_set(&self) -> Seq<bool> {
        self.tried@
    }

    /// Every failed attempt of this call, in order.
    pub closed spec fn failure_log(&self) -> Seq<EndpointFailure> {
        self.failures@
    }

    /// A call still in progress under `d`: fewer failed attempts than the
    /// retry budget, each retryable, each on a distinct endpoint when there is
    /// more than one endpoint to choose from.
    pub open spec fn wf(&self, d: &Dispatcher) -> bool {
        &&& self.tried_set().len() == d.cfg().endpoints@.len()
        &&& self.failure_log().len() == self.attempts_made()
        &&& self.attempts_made() < d.cfg().retry.max_retries
        &&& forall|k: int|
            0 <= k < self.failure_log().len() ==> {
                &&& #[trigger] self.failure_log()[k].endpoint < self.tried_set().len()
                &&& self.tried_set()[self.failure_log()[k].endpoint as int]
                &&& self.failure_log()[k].error.retryable()
            }
        &&& d.enabled_count() != 1 ==> forall|k1: int, k2: int|
            0 <= k1 < k2 < self.failure_log().len() ==> #[trigger] self.failure_log()[k1].endpoint
                != #[trigger] self.failure_log()[k2].endpoint
    }

    pub fn attempts(&self) -> (r: u32)
        ensures
            r == self.attempts_made(),
    {
        self.attempts
    }

    pub fn failures(&self) -> (r: &Vec<EndpointFailure>)
        ensures
            r@ == self.failure_log(),
    {
        &self.failures
    }
}

/// One entry of a health snapshot.
#[derive(Debug, Clone)]
pub struct EndpointReport {
    pub url: String,
    pub success_count: u64,
    pub failure_count: u64,
    pub avg_ms: u64,
    /// Milliseconds since the last success, if any.
    pub last_success_age_ms: Option<u64>,
    /// Milliseconds since the last failure, if any.
    pub last_failure_age_ms: Option<u64>,
    pub healthy: bool,
}

pub open spec fn age(t: Option<u64>, now: u64) -> Option<u64> {
    match t {
        Some(t) => Some(
            if now >= t {
                (now - t) as u64
            } else {
                0
            },
        ),
        None => None,
    }
}

/// The report of an endpoint with these statistics at `now`.
pub open spec fn report_matches(r: EndpointReport, url: String, s: EndpointStats, now: u64, w: u64) -> bool {
    &&& r.url == url
    &&& r.success_count == s.successful_requests
    &&& r.failure_count == s.failed_requests
    &&& r.avg_ms == s.avg_response_time_ms
    &&& r.last_success_age_ms == age(s.last_success, now)
    &&& r.last_failure_age_ms == age(s.last_failure, now)
    &&& r.healthy == s.healthy(now as int, w as int)
}

fn age_of(t: Option<u64>, now_ms: u64) -> (r: Option<u64>)
    ensures
        r == age(t, now_ms),
{
    match t {
        Some(t) => Some(now_ms.saturating_sub(t)),
        None => None,
    }
}

/// Owns the configuration, the health statistics and one rate limiter per
/// endpoint.
pub struct Dispatcher {
    config: RpcConfig,
    health: HealthMonitor,
    limiters: Vec<RateLimiter>,
    weights: Vec<u32>,
    enabled_count: usize,
    next_id: u64,
}

impl Dispatcher {
    pub closed spec fn cfg(&self) -> RpcConfig {
        self.config
    }

    pub closed spec fn health(&self) -> HealthMonitor {
        self.health
    }

    pub closed spec fn limiters(&self) -> Seq<RateLimiter> {
        self.limiters@
    }

    pub closed spec fn weights(&self) -> Seq<u32> {
        self.weights@
    }

    /// The id the next request envelope gets.
    pub closed spec fn pending_id(&self) -> u64 {
        self.next_id
    }

    pub closed spec fn enabled_count(&self) -> nat {
        self.enabled_count as nat
    }

    pub open spec fn n(&self) -> nat {
        self.cfg().endpoints@.len()
    }

    pub open spec fn wf(&self) -> bool {
        &&& self.cfg().valid()
        &&& self.cfg().has_enabled()
        &&& self.enabled_count() == enabled_count(self.cfg().endpoints@)
        &&& self.health().wf()
        &&& self.health().stats().len() == self.n()
        &&& self.health().window() == self.cfg().freshness_window_ms
        &&& self.limiters().len() == self.n()
        &&& forall|i: int| 0 <= i < self.n() ==> #[trigger] self.limiters()[i].wf()
        &&& forall|i: int|
            0 <= i < self.n() ==> {
                &&& (#[trigger] self.limiters()[i])@.max_rps == self.cfg().endpoints@[i].rps(
                    self.cfg().rate_limit,
                )
                &&& self.limiters()[i]@.burst_size == self.cfg().rate_limit.burst_size
            }
        &&& self.weights().len() == self.n()
        &&& forall|i: int|
            0 <= i < self.n() ==> #[trigger] self.weights()[i] == self.cfg().endpoints@[i].weight
    }

    /// Endpoint `i` may be tried next in a call that has failed on `tried`:
    /// it is enabled, and it has not failed in this call unless it is the
    /// only enabled endpoint.
    pub open spec fn may_try(&self, tried: Seq<bool>, i: int) -> bool {
        &&& 0 <= i < self.n()
        &&& self.cfg().endpoints@[i].enabled
        &&& (self.enabled_count() == 1 || !tried[i])
    }

    pub open spec fn eligible(&self, tried: Seq<bool>) -> Seq<bool> {
        Seq::new(self.n(), |i: int| self.may_try(tried, i))
    }

    /// Nothing recorded yet, and every bucket full as of `now`.
    pub open spec fn is_fresh(&self, now: u64) -> bool {
        &&& forall|i: int| 0 <= i < self.n() ==> #[trigger] self.health().stats()[i].zeroed()
        &&& forall|i: int|
            0 <= i < self.n() ==> {
                let b = #[trigger] self.limiters()[i]@;
                b.milli_tokens == b.capacity() && b.last_refill_ms == now
            }
    }

    /// Everything but the health statistics and the buckets stays.
    pub open spec fn same_setup(&self, other: &Dispatcher) -> bool {
        &&& self.cfg() == other.cfg()
        &&& self.enabled_count() == other.enabled_count()
        &&& self.weights() == other.weights()
        &&& self.health().window() == other.health().window()
    }

    /// Builds a dispatcher from a configuration. Fails with `InvalidConfig`
    /// when the configuration is unusable, and with `NoEnabledEndpoints` when
    /// it is usable but enables no endpoint.
    pub fn new(config: RpcConfig, now_ms: u64) -> (r: Result<Dispatcher, RpcError>)
        ensures
            !config.valid() <==> r matches Err(RpcError::InvalidConfig(_)),
            config.valid() && !config.has_enabled() <==> r matches Err(RpcError::NoEnabledEndpoints),
            config.valid() && config.has_enabled() ==> r is Ok,
            r matches Ok(d) ==> {
                &&& d.wf()
                &&& d.cfg() == config
                &&& d.is_fresh(now_ms)
            },
    {
        let n = config.endpoints.len();
        if n == 0 {
            return Err(RpcError::InvalidConfig(String::from_str("endpoint list is empty")));
        }
        if config.max_concurrent_requests < 1 {
            return Err(
                RpcError::InvalidConfig(String::from_str("max_concurrent_requests must be >= 1")),
            );
        }
        if config.retry.max_retries < 1 {
            return Err(RpcError::InvalidConfig(String::from_str("max_retries must be >= 1")));
        }
        if config.rate_limit.max_rps == 0 || config.rate_limit.burst_size == 0 {
            return Err(RpcError::InvalidConfig(String::from_str("rate limit must be positive")));
        }
        let mut i: usize = 0;
        let mut count: usize = 0;
        let mut weights: Vec<u32> = Vec::new();
        let mut limiters: Vec<RateLimiter> = Vec::new();
        while i < n
            invariant
                n == config.endpoints@.len(),
                i <= n,
                config.rate_limit.max_rps > 0,
                config.rate_limit.burst_size > 0,
                forall|j: int| 0 <= j < i ==> #[trigger] config.endpoints@[j].valid(config.rate_limit),
                count == enabled_upto(config.endpoints@, i as int),
                count <= i,
                weights@.len() == i,
                forall|j: int| 0 <= j < i ==> #[trigger] weights@[j] == config.endpoints@[j].weight,
                limiters@.len() == i,
                forall|j: int|
                    0 <= j < i ==> {
                        let b = #[trigger] limiters@[j]@;
                        &&& limiters@[j].wf()
                        &&& b.max_rps == config.endpoints@[j].rps(config.rate_limit)
                        &&& b.burst_size == config.rate_limit.burst_size
                        &&& b.milli_tokens == b.capacity()
                        &&& b.last_refill_ms == now_ms
                    },
            decreases n - i,
        {
            let e = &config.endpoints[i];
            if e.weight < 1 {
                assert(!config.endpoints@[i as int].valid(config.rate_limit));
                return Err(RpcError::InvalidConfig(String::from_str("endpoint weight must be >= 1")));
            }
            let rps: u32 = match e.requests_per_second {
                Some(r) => r,
                None => config.rate_limit.max_rps,
            };
            if rps == 0 {
                assert(!config.endpoints@[i as int].valid(config.rate_limit));
                return Err(
                    RpcError::InvalidConfig(String::from_str("endpoint requests_per_second must be > 0")),
                );
            }
            if !is_http_url(e.url.as_str()) {
                assert(!config.endpoints@[i as int].valid(config.rate_limit));
                return Err(
                    RpcError::InvalidConfig(String::from_str("invalid endpoint URL: must be http(s)")),
                );
            }
            let quota = RateLimitConfig { max_rps: rps, burst_size: config.rate_limit.burst_size };
            let limiter = match RateLimiter::new(&quota, now_ms) {
                Ok(l) => l,
                Err(err) => {
                    return Err(err);
                },
            };
            if e.enabled {
                count = count + 1;
            }
            weights.push(e.weight);
            limiters.push(limiter);
            i = i + 1;
        }
        if count == 0 {
            proof {
                assert forall|j: int| 0 <= j < n implies !#[trigger] config.endpoints@[j].enabled by {
                    lemma_enabled_upto_zero(config.endpoints@, n as int, j);
                }
            }
            return Err(RpcError::NoEnabledEndpoints);
        }
        proof {
            lemma_enabled_upto_positive(config.endpoints@, n as int);
        }
        let health = HealthMonitor::new(n, config.freshness_window_ms);
        Ok(Dispatcher { config, health, limiters, weights, enabled_count: count, next_id: 1 })
    }

    pub fn get_config(&self) -> (r: &RpcConfig)
        ensures
            *r == self.cfg(),
    {
        &self.config
    }

    pub fn health_monitor(&self) -> (r: &HealthMonitor)
        ensures
            *r == self.health(),
    {
        &self.health
    }

    pub fn rate_limiter(&self, endpoint_idx: usize) -> (r: &RateLimiter)
        requires
            endpoint_idx < self.limiters().len(),
        ensures
            *r == self.limiters()[endpoint_idx as int],
    {
        &self.limiters[endpoint_idx]
    }

    /// One more outcome of endpoint `e` can be counted without overflow.
    pub fn can_record(&self, endpoint_idx: usize) -> (r: bool)
        requires
            self.wf(),
        ensures
            r == self.health().can_record(endpoint_idx),
    {
        if endpoint_idx >= self.health.len() {
            return true;
        }
        let s = self.health.endpoint_stats(endpoint_idx);
        (s.successful_requests as u128) + (s.failed_requests as u128) < u64::MAX as u128
    }

    /// A fresh `id` for a request envelope; ids increase until they wrap.
    pub fn next_request_id(&mut self) -> (r: u64)
        ensures
            r == old(self).pending_id(),
            final(self).pending_id() == if old(self).pending_id() == u64::MAX {
                1
            } else {
                (old(self).pending_id() + 1) as u64
            },
            final(self).same_setup(old(self)),
            final(self).health() == old(self).health(),
            final(self).limiters() == old(self).limiters(),
    {
        let id = self.next_id;
        self.next_id = if id == u64::MAX {
            1
        } else {
            id + 1
        };
        id
    }

    /// The state of a new call: nothing tried, nothing failed.
    pub fn begin_call(&self) -> (r: CallState)
        requires
            self.wf(),
        ensures
            r.wf(self),
            r.attempts_made() == 0,
            r.failure_log() == Seq::<EndpointFailure>::empty(),
            forall|i: int| 0 <= i < self.n() ==> !#[trigger] r.tried_set()[i],
    {
        let n = self.config.endpoints.len();
        let mut tried: Vec<bool> = Vec::new();
        let mut i: usize = 0;
        while i < n
            invariant
                i <= n,
                tried@.len() == i,
                forall|j: int| 0 <= j < i ==> !#[trigger] tried@[j],
            decreases n - i,
        {
            tried.push(false);
            i = i + 1;
        }
        CallState { attempts: 0, tried, failures: Vec::new() }
    }

    /// The endpoint to try next in `call`: among those that may be tried,
    /// the best healthy one, or the least recently tried when none is
    /// healthy. When none may be tried the call ends with
    /// `AllEndpointsFailed`, carrying every failure of the call.
    pub fn select_endpoint(&self, call: &mut CallState, now_ms: u64) -> (r: Result<usize, RpcError>)
        requires
            self.wf(),
            old(call).tried_set().len() == self.n(),
        ensures
            r is Err <==> forall|i: int| 0 <= i < self.n() ==> !self.may_try(old(call).tried_set(), i),
            r matches Ok(k) ==> {
                &&& is_choice(
                    self.health().stats(),
                    self.weights(),
                    self.eligible(old(call).tried_set()),
                    now_ms as int,
                    self.health().window() as int,
                    k as int,
                )
                &&& *final(call) == *old(call)
            },
            r is Err ==> (r matches Err(RpcError::AllEndpointsFailed(v)) && v@ == old(
                call,
            ).failure_log()),
    {
        let n = self.config.endpoints.len();
        let mut eligible: Vec<bool> = Vec::new();
        let mut i: usize = 0;
        while i < n
            invariant
                self.wf(),
                n == self.n(),
                call.tried_set().len() == n,
                i <= n,
                eligible@.len() == i,
                forall|j: int| 0 <= j < i ==> #[trigger] eligible@[j] == self.may_try(call.tried_set(), j),
            decreases n - i,
        {
            let ok = self.config.endpoints[i].enabled && (self.enabled_count == 1 || !call.tried[i]);
            eligible.push(ok);
            i = i + 1;
        }
        proof {
            assert(eligible@ =~= self.eligible(call.tried_set()));
        }
        match self.health.next_endpoint(&self.weights, &eligible, now_ms) {
            Some(k) => {
                assert(self.may_try(call.tried_set(), k as int));
                Ok(k)
            },
            None => {
                assert forall|j: int| 0 <= j < n implies !self.may_try(call.tried_set(), j) by {
                    assert(eligible@[j] == self.may_try(call.tried_set(), j));
                }
                let mut failures: Vec<EndpointFailure> = Vec::new();
                std::mem::swap(&mut failures, &mut call.failures);
                Err(RpcError::AllEndpointsFailed(failures))
            },
        }
    }

    /// Takes a permit from the bucket of `endpoint_idx` at `now_ms`, or says
    /// how long to wait.
    pub fn acquire_permit(&mut self, endpoint_idx: usize, now_ms: u64) -> (r: Result<Admission, RpcError>)
        requires
            old(self).wf(),
        ensures
            final(self).wf(),
            final(self).same_setup(old(self)),
            final(self).health() == old(self).health(),
            endpoint_idx >= old(self).n() ==> {
                &&& r == Err::<Admission, RpcError>(RpcError::InvalidEndpoint(endpoint_idx))
                &&& final(self).limiters() == old(self).limiters()
            },
            endpoint_idx < old(self).n() ==> {
                let (b, a) = old(self).limiters()[endpoint_idx as int]@.acquire(now_ms as nat);
                &&& r == Ok::<Admission, RpcError>(a)
                &&& final(self).limiters()[endpoint_idx as int]@ == b
                &&& forall|j: int|
                    0 <= j < old(self).n() && j != endpoint_idx ==> #[trigger] final(self).limiters()[j]
                        == old(self).limiters()[j]
            },
    {
        if endpoint_idx >= self.limiters.len() {
            return Err(RpcError::InvalidEndpoint(endpoint_idx));
        }
        let a = self.limiters[endpoint_idx].try_acquire(now_ms);
        Ok(a)
    }

    /// Records the success of an attempt on `endpoint_idx` that completed at
    /// `now_ms`, `elapsed_ms` after the call began, moving `bytes`.
    pub fn record_success(
        &mut self,
        endpoint_idx: usize,
        elapsed_ms: u64,
        bytes: u64,
        now_ms: u64,
    ) -> (r: Result<(), RpcError>)
        requires
            old(self).wf(),
            old(self).health().can_record(endpoint_idx),
        ensures
            final(self).wf(),
            final(self).same_setup(old(self)),
            final(self).limiters() == old(self).limiters(),
            endpoint_idx >= old(self).n() ==> {
                &&& r == Err::<(), RpcError>(RpcError::InvalidEndpoint(endpoint_idx))
                &&& final(self).health() == old(self).health()
            },
            endpoint_idx < old(self).n() ==> {
                &&& r is Ok
                &&& final(self).health().stats() == old(self).health().stats().update(
                    endpoint_idx as int,
                    old(self).health().stats()[endpoint_idx as int].after_success(
                        elapsed_ms,
                        bytes,
                        now_ms,
                    ),
                )
                &&& final(self).health().observed() == old(self).health().observed().push(
                    endpoint_idx,
                )
                &&& final(self).health().stats()[endpoint_idx as int].last_success == Some(now_ms)
            },
    {
        if endpoint_idx >= self.config.endpoints.len() {
            return Err(RpcError::InvalidEndpoint(endpoint_idx));
        }
        self.health.record_success(endpoint_idx, elapsed_ms, bytes, now_ms)
    }

    /// Records the failure of an attempt of `call` on `endpoint_idx` at
    /// `now_ms` and decides what follows. A 429 also pauses that endpoint's
    /// bucket. `jitter` is any number; the part of it below the base delay is
    /// added to the backoff. An endpoint that `call` may not try is refused
    /// with `InvalidEndpoint`, and nothing is recorded.
    pub fn record_failure(
        &mut self,
        call: &mut CallState,
        endpoint_idx: usize,
        error: TransportError,
        now_ms: u64,
        jitter: u64,
    ) -> (r: Step)
        requires
            old(self).wf(),
            old(call).wf(old(self)),
            old(self).health().can_record(endpoint_idx),
        ensures
            final(self).wf(),
            final(self).same_setup(old(self)),
            !old(self).may_try(old(call).tried_set(), endpoint_idx as int) ==> {
                &&& r == Step::Fail(RpcError::InvalidEndpoint(endpoint_idx))
                &&& final(self).health() == old(self).health()
                &&& final(self).limiters() == old(self).limiters()
                &&& *final(call) == *old(call)
            },
            old(self).may_try(old(call).tried_set(), endpoint_idx as int) ==> {
                let e = endpoint_idx as int;
                let cfg = old(self).cfg();
                &&& r == failure_step(
                    old(call).attempts_made(),
                    cfg.retry.max_retries,
                    cfg.retry.base_delay_ms,
                    cfg.retry.max_delay_ms,
                    error,
                    jitter,
                )
                &&& exists|m: String|
                    m@ == error.detail() && final(self).health().stats()
                        == old(self).health().stats().update(
                        e,
                        old(self).health().stats()[e].after_failure(m, now_ms),
                    )
                &&& final(self).health().observed() == old(self).health().observed().push(
                    endpoint_idx,
                )
                &&& final(self).limiters()[e]@ == if error.rate_limited() {
                    old(self).limiters()[e]@.penalized(now_ms as nat)
                } else {
                    old(self).limiters()[e]@
                }
                &&& forall|j: int|
                    0 <= j < old(self).n() && j != e ==> #[trigger] final(self).limiters()[j]
                        == old(self).limiters()[j]
                &&& r is Retry ==> {
                    &&& final(call).wf(final(self))
                    &&& final(call).attempts_made() == old(call).attempts_made() + 1
                    &&& final(call).failure_log() == old(call).failure_log().push(
                        EndpointFailure { endpoint: endpoint_idx, error },
                    )
                    &&& final(call).tried_set() == old(call).tried_set().update(e, true)
                }
            },
    {
        if endpoint_idx >= self.config.endpoints.len() || !self.config.endpoints[endpoint_idx].enabled
            || (self.enabled_count != 1 && call.tried[endpoint_idx]) {
            return Step::Fail(RpcError::InvalidEndpoint(endpoint_idx));
        }
        let ghost old_call = *call;
        let ghost old_self = *self;
        let message = error.message();
        let ghost m = message;
        let recorded = self.health.record_failure(endpoint_idx, message, now_ms);
        assert(recorded is Ok);
        if error.is_rate_limit() {
            self.limiters[endpoint_idx].penalize(now_ms);
        }
        assert(self.wf()) by {
            assert forall|i: int| 0 <= i < self.n() implies #[trigger] self.limiters()[i].wf() by {
                assert(old_self.limiters()[i].wf());
            }
        }
        if !error.is_retryable() {
            return Step::Fail(RpcError::from_transport(error));
        }
        let attempts: u32 = call.attempts + 1;
        if attempts >= self.config.retry.max_retries {
            if error.is_rate_limit() {
                return Step::Fail(RpcError::RateLimitExceeded);
            }
            return Step::Fail(RpcError::RetryExhausted(error));
        }
        let delay = backoff_delay_ms(
            self.config.retry.base_delay_ms,
            self.config.retry.max_delay_ms,
            attempts,
        );
        let base = self.config.retry.base_delay_ms;
        let jit: u64 = if base > 0 {
            jitter % base
        } else {
            0
        };
        call.attempts = attempts;
        call.tried.set(endpoint_idx, true);
        call.failures.push(EndpointFailure { endpoint: endpoint_idx, error });
        proof {
            let c = *call;
            assert(c.failure_log() == old_call.failure_log().push(
                EndpointFailure { endpoint: endpoint_idx, error },
            ));
            assert forall|k: int| 0 <= k < c.failure_log().len() implies {
                &&& #[trigger] c.failure_log()[k].endpoint < c.tried_set().len()
                &&& c.tried_set()[c.failure_log()[k].endpoint as int]
                &&& c.failure_log()[k].error.retryable()
            } by {
                if k < old_call.failure_log().len() {
                    assert(old_call.failure_log()[k] == c.failure_log()[k]);
                }
            }
            if self.enabled_count() != 1 {
                assert forall|k1: int, k2: int|
                    0 <= k1 < k2 < c.failure_log().len() implies #[trigger] c.failure_log()[k1].endpoint
                    != #[trigger] c.failure_log()[k2].endpoint by {
                    if k2 == c.failure_log().len() - 1 {
                        assert(old_call.tried_set()[old_call.failure_log()[k1].endpoint as int]);
                    } else {
                        assert(old_call.failure_log()[k1] == c.failure_log()[k1]);
                        assert(old_call.failure_log()[k2] == c.failure_log()[k2]);
                    }
                }
            }
        }
        Step::Retry(delay.saturating_add(jit))
    }

    /// One report per endpoint, in configuration order.
    pub fn health_snapshot(&self, now_ms: u64) -> (r: Vec<EndpointReport>)
        requires
            self.wf(),
        ensures
            r@.len() == self.n(),
            forall|i: int|
                0 <= i < self.n() ==> report_matches(
                    #[trigger] r@[i],
                    self.cfg().endpoints@[i].url,
                    self.health().stats()[i],
                    now_ms,
                    self.health().window(),
                ),
    {
        let n = self.config.endpoints.len();
        let w = self.health.freshness_window_ms();
        let mut out: Vec<EndpointReport> = Vec::new();
        let mut i: usize = 0;
        while i < n
            invariant
                self.wf(),
                n == self.n(),
                w == self.health().window(),
                i <= n,
                out@.len() == i,
                forall|j: int|
                    0 <= j < i ==> report_matches(
                        #[trigger] out@[j],
                        self.cfg().endpoints@[j].url,
                        self.health().stats()[j],
                        now_ms,
                        w,
                    ),
            decreases n - i,
        {
            let s = self.health.endpoint_stats(i);
            let report = EndpointReport {
                url: self.config.endpoints[i].url.clone(),
                success_count: s.successful_requests,
                failure_count: s.failed_requests,
                avg_ms: s.avg_response_time_ms,
                last_success_age_ms: age_of(s.last_success, now_ms),
                last_failure_age_ms: age_of(s.last_failure, now_ms),
                healthy: s.is_healthy(now_ms, w),
            };
            out.push(report);
            i = i + 1;
        }
        out
    }
}

proof fn lemma_enabled_upto_zero(endpoints: Seq<EndpointConfig>, k: int, j: int)
    requires
        0 <= j < k <= endpoints.len(),
        enabled_upto(endpoints, k) == 0,
    ensures
        !endpoints[j].enabled,
    decreases k,
{
    if j < k - 1 {
        lemma_enabled_upto_zero(endpoints, k - 1, j);
    }
}

proof fn lemma_enabled_upto_positive(endpoints: Seq<EndpointConfig>, k: int)
    requires
        0 <= k <= endpoints.len(),
        enabled_upto(endpoints, k) > 0,
    ensures
        exists|i: int| 0 <= i < k && #[trigger] endpoints[i].enabled,
    decreases k,
{
    if !endpoints[k - 1].enabled {
        lemma_enabled_upto_positive(endpoints, k - 1);
    }
}

/// A call in progress has failed fewer times than its retry budget, so the
/// transport is invoked at most `max_retries` times per call. With more than
/// one enabled endpoint no endpoint has failed twice in the call, and every
/// endpoint that may still be tried is one that has not failed in it.
pub proof fn lemma_attempts_within_budget(d: &Dispatcher, call: &CallState)
    requires
        d.wf(),
        call.wf(d),
    ensures
        call.failure_log().len() + 1 <= d.cfg().retry.max_retries,
        d.enabled_count() != 1 ==> forall|k1: int, k2: int|
            0 <= k1 < k2 < call.failure_log().len() ==> #[trigger] call.failure_log()[k1].endpoint
                != #[trigger] call.failure_log()[k2].endpoint,
        d.enabled_count() != 1 ==> forall|i: int, k: int|
            #[trigger] d.may_try(call.tried_set(), i) && 0 <= k < call.failure_log().len()
                ==> #[trigger] call.failure_log()[k].endpoint != i,
{
    if d.enabled_count() != 1 {
        assert forall|i: int, k: int|
            #[trigger] d.may_try(call.tried_set(), i) && 0 <= k < call.failure_log().len()
                implies #[trigger] call.failure_log()[k].endpoint != i by {
            assert(call.tried_set()[call.failure_log()[k].endpoint as int]);
        }
    }
}

/// A dispatcher just built reports one entry per endpoint, each with zero
/// counts, no success or failure yet, and healthy.
pub proof fn lemma_fresh_snapshot(d: &Dispatcher, built_at: u64, now: u64, reports: Seq<EndpointReport>)
    requires
        d.wf(),
        d.is_fresh(built_at),
        reports.len() == d.n(),
        forall|i: int|
            0 <= i < d.n() ==> report_matches(
                #[trigger] reports[i],
                d.cfg().endpoints@[i].url,
                d.health().stats()[i],
                now,
                d.health().window(),
            ),
    ensures
        forall|i: int|
            0 <= i < reports.len() ==> {
                &&& #[trigger] reports[i].success_count == 0
                &&& reports[i].failure_count == 0
                &&& reports[i].avg_ms == 0
                &&& reports[i].last_success_age_ms is None
                &&& reports[i].last_failure_age_ms is None
                &&& reports[i].healthy
            },
{
    assert forall|i: int| 0 <= i < reports.len() implies {
        &&& #[trigger] reports[i].success_count == 0
        &&& reports[i].failure_count == 0
        &&& reports[i].avg_ms == 0
        &&& reports[i].last_success_age_ms is None
        &&& reports[i].last_failure_age_ms is None
        &&& reports[i].healthy
    } by {
        assert(d.health().stats()[i].zeroed());
    }
}

/// With a retry budget of one, a failed attempt is never retried.
pub proof fn lemma_budget_of_one_never_retries(
    attempts: nat,
    base_delay: u64,
    max_delay: u64,
    error: TransportError,
    jitter: u64,
)
    ensures
        !(failure_step(attempts, 1, base_delay, max_delay, error, jitter) is Retry),
{
}

/// With a single enabled endpoint that fails every attempt with a retryable
/// error other than 429, selection always finds that endpoint, every failure
/// but the one that uses up the budget is retried, and that one ends the call
/// with `RetryExhausted`.
pub proof fn lemma_single_failing_endpoint_exhausts(
    d: &Dispatcher,
    call: &CallState,
    error: TransportError,
    jitter: u64,
)
    requires
        d.wf(),
        d.enabled_count() == 1,
        call.wf(d),
        error.retryable(),
        !error.rate_limited(),
    ensures
        exists|i: int| d.may_try(call.tried_set(), i),
        ({
            let r = d.cfg().retry;
            let step = failure_step(
                call.attempts_made(),
                r.max_retries,
                r.base_delay_ms,
                r.max_delay_ms,
                error,
                jitter,
            );
            if call.attempts_made() + 1 >= r.max_retries {
                step == Step::Fail(RpcError::RetryExhausted(error))
            } else {
                step is Retry
            }
        }),
{
    let i = choose|i: int| 0 <= i < d.cfg().endpoints@.len() && #[trigger] d.cfg().endpoints@[i].enabled;
    assert(d.may_try(call.tried_set(), i));
}

/// When the delay cap is at least the base delay, every pause before a
/// retry lasts at least the base delay.
pub proof fn lemma_retry_pause_at_least_base(
    base_delay: u64,
    max_delay: u64,
    attempts: nat,
    jitter: u64,
)
    requires
        base_delay <= max_delay,
    ensures
        retry_delay(base_delay, max_delay, attempts, jitter) >= base_delay,
{
    lemma_two_pow_monotone(0, attempts);
    assert(base_delay * two_pow(attempts) >= base_delay) by (nonlinear_arith)
        requires
            two_pow(attempts) >= 1,
    ;
}

} // verus!
