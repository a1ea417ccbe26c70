//! Per-endpoint statistics, health verdicts, health scores and the choice of
//! the next endpoint to try.
use vstd::prelude::*;
use crate::error::RpcError;

verus! {

/// Default freshness window W, in milliseconds.
pub const DEFAULT_FRESHNESS_WINDOW_MS: u64 = 30_000;

/// A health score of 1.0, in the fixed-point unit that scores are given in.
pub const SCORE_UNIT: u128 = 1_000_000;

/// Success rates are given in parts per million.
pub const RATE_UNIT: u128 = 1_000_000;

/// Statistics of one endpoint. Times are milliseconds of a monotonic clock.
#[derive(Debug, Clone)]
pub struct EndpointStats {
    pub successful_requests: u64,
    pub failed_requests: u64,
    /// Sum of the response times of all successful requests.
    pub total_response_time_ms: u128,
    /// Running mean of the response times of successful requests (rounded down).
    pub avg_response_time_ms: u64,
    pub total_bytes_transferred: u64,
    pub last_success: Option<u64>,
    pub last_failure: Option<u64>,
    pub last_error: Option<String>,
}

/// Number of times `e` occurs in `s`.
pub open spec fn occurrences(s: Seq<usize>, e: usize) -> nat
    decreases s.len(),
{
    if s.len() == 0 {
        0
    } else {
        occurrences(s.drop_last(), e) + if s.last() == e {
            1nat
        } else {
            0nat
        }
    }
}

proof fn lemma_occurrences_push(s: Seq<usize>, x: usize, e: usize)
    ensures
        occurrences(s.push(x), e) == occurrences(s, e) + if x == e {
            1nat
        } else {
            0nat
        },
{
    assert(s.push(x).drop_last() =~= s);
}

impl EndpointStats {
    pub open spec fn attempts(&self) -> nat {
        (self.successful_requests + self.failed_requests) as nat
    }

    /// The last success lies within the freshness window `w` of `now`.
    pub open spec fn fresh(&self, now: int, w: int) -> bool {
        match self.last_success {
            Some(t) => now - t <= w,
            None => false,
        }
    }

    /// Healthy: no attempt yet (grace), or a success within the window.
    pub open spec fn healthy(&self, now: int, w: int) -> bool {
        self.attempts() == 0 || self.fresh(now, w)
    }

    /// `success_rate × 1000 / (avg_response_ms + 1) × staleness`, in
    /// millionths, with the success rate in parts per million; an endpoint
    /// with no attempts scores 1.0.
    pub open spec fn score(&self, now: int, w: int) -> nat {
        if self.attempts() == 0 {
            SCORE_UNIT as nat
        } else {
            let rate: int = (self.successful_requests * RATE_UNIT) as int / self.attempts() as int;
            let staleness: int = if self.fresh(now, w) {
                2
            } else {
                1
            };
            (rate * 1000 * staleness / ((self.avg_response_time_ms + 1) * 2) as int) as nat
        }
    }

    /// When the endpoint was last tried, successfully or not.
    pub open spec fn last_attempt(&self) -> int {
        match (self.last_success, self.last_failure) {
            (Some(a), Some(b)) => if a >= b {
                a as int
            } else {
                b as int
            },
            (Some(a), None) => a as int,
            (None, Some(b)) => b as int,
            (None, None) => -1,
        }
    }

    /// Totals consistent with each other.
    pub open spec fn consistent(&self) -> bool {
        &&& self.avg_response_time_ms == if self.successful_requests == 0 {
            0
        } else {
            self.total_response_time_ms as int / self.successful_requests as int
        }
        &&& self.total_response_time_ms <= self.successful_requests * u64::MAX
    }

    pub open spec fn zeroed(&self) -> bool {
        &&& self.successful_requests == 0
        &&& self.failed_requests == 0
        &&& self.total_response_time_ms == 0
        &&& self.avg_response_time_ms == 0
        &&& self.total_bytes_transferred == 0
        &&& self.last_success is None
        &&& self.last_failure is None
        &&& self.last_error is None
    }

    /// Statistics of an endpoint that has not been tried.
    pub fn new() -> (r: EndpointStats)
        ensures
            r.zeroed(),
            r.consistent(),
    {
        EndpointStats {
            successful_requests: 0,
            failed_requests: 0,
            total_response_time_ms: 0,
            avg_response_time_ms: 0,
            total_bytes_transferred: 0,
            last_success: None,
            last_failure: None,
            last_error: None,
        }
    }

    /// A deep copy.
    pub fn copy(&self) -> (r: EndpointStats)
        ensures
            r == *self,
    {
        let last_error = match &self.last_error {
            Some(m) => Some(m.clone()),
            None => None,
        };
        EndpointStats {
            successful_requests: self.successful_requests,
            failed_requests: self.failed_requests,
            total_response_time_ms: self.total_response_time_ms,
            avg_response_time_ms: self.avg_response_time_ms,
            total_bytes_transferred: self.total_bytes_transferred,
            last_success: self.last_success,
            last_failure: self.last_failure,
            last_error,
        }
    }

    pub fn is_healthy(&self, now_ms: u64, window_ms: u64) -> (r: bool)
        ensures
            r == self.healthy(now_ms as int, window_ms as int),
    {
        self.successful_requests == 0 && self.failed_requests == 0 || self.is_fresh(
            now_ms,
            window_ms,
        )
    }

    fn is_fresh(&self, now_ms: u64, window_ms: u64) -> (r: bool)
        ensures
            r == self.fresh(now_ms as int, window_ms as int),
    {
        match self.last_success {
            Some(t) => now_ms < t || now_ms - t <= window_ms,
            None => false,
        }
    }

    pub fn health_score(&self, now_ms: u64, window_ms: u64) -> (r: u128)
        ensures
            r == self.score(now_ms as int, window_ms as int),
    {
        if self.successful_requests == 0 && self.failed_requests == 0 {
            return SCORE_UNIT;
        }
        let total: u128 = self.successful_requests as u128 + self.failed_requests as u128;
        let s: u128 = self.successful_requests as u128;
        assert(s * RATE_UNIT <= u64::MAX as u128 * RATE_UNIT) by (nonlinear_arith)
            requires
                s <= u64::MAX,
        ;
        let rate: u128 = s * RATE_UNIT / total;
        assert(rate <= RATE_UNIT) by (nonlinear_arith)
            requires
                rate as int == (s * RATE_UNIT) as int / total as int,
                s <= total,
                total > 0,
        ;
        let staleness: u128 = if self.is_fresh(now_ms, window_ms) {
            2
        } else {
            1
        };
        let den: u128 = (self.avg_response_time_ms as u128 + 1) * 2;
        rate * 1000 * staleness / den
    }

    /// The statistics after a success at `now` that took `response_ms` and
    /// moved `bytes` (the byte total saturates).
    pub open spec fn after_success(self, response_ms: u64, bytes: u64, now: u64) -> EndpointStats {
        let succ = self.successful_requests + 1;
        let total = self.total_response_time_ms + response_ms;
        EndpointStats {
            successful_requests: succ as u64,
            total_response_time_ms: total as u128,
            avg_response_time_ms: (total / succ) as u64,
            total_bytes_transferred: if self.total_bytes_transferred + bytes > u64::MAX {
                u64::MAX
            } else {
                (self.total_bytes_transferred + bytes) as u64
            },
            last_success: Some(now),
            ..self
        }
    }

    /// The statistics after a failure at `now` with `message`.
    pub open spec fn after_failure(self, message: String, now: u64) -> EndpointStats {
        EndpointStats {
            failed_requests: (self.failed_requests + 1) as u64,
            last_failure: Some(now),
            last_error: Some(message),
            ..self
        }
    }

    pub fn last_attempt_ms(&self) -> (r: Option<u64>)
        ensures
            r matches Some(t) ==> t as int == self.last_attempt(),
            r is None <==> self.last_attempt() == -1,
    {
        match (self.last_success, self.last_failure) {
            (Some(a), Some(b)) => if a >= b {
                Some(a)
            } else {
                Some(b)
            },
            (Some(a), None) => Some(a),
            (None, Some(b)) => Some(b),
            (None, None) => None,
        }
    }
}

/// Whether endpoint `i` is to be tried before endpoint `j`. Healthy
/// endpoints come first, by score descending, then weight descending, then
/// index ascending. Among unhealthy endpoints the least recently tried comes
/// first, then the lower index.
pub open spec fn prefers(
    stats: Seq<EndpointStats>,
    weights: Seq<u32>,
    now: int,
    w: int,
    i: int,
    j: int,
) -> bool {
    let a = stats[i];
    let b = stats[j];
    if a.healthy(now, w) != b.healthy(now, w) {
        a.healthy(now, w)
    } else if a.healthy(now, w) {
        a.score(now, w) > b.score(now, w) || (a.score(now, w) == b.score(now, w) && (weights[i]
            > weights[j] || (weights[i] == weights[j] && i < j)))
    } else {
        a.last_attempt() < b.last_attempt() || (a.last_attempt() == b.last_attempt() && i < j)
    }
}

/// `k` is the eligible endpoint that comes before every other eligible one.
pub open spec fn is_choice(
    stats: Seq<EndpointStats>,
    weights: Seq<u32>,
    eligible: Seq<bool>,
    now: int,
    w: int,
    k: int,
) -> bool {
    &&& 0 <= k < eligible.len()
    &&& eligible[k]
    &&& forall|j: int|
        0 <= j < eligible.len() && eligible[j] && j != k ==> #[trigger] prefers(
            stats,
            weights,
            now,
            w,
            k,
            j,
        )
}

proof fn lemma_prefers_order(
    stats: Seq<EndpointStats>,
    weights: Seq<u32>,
    now: int,
    w: int,
    a: int,
    b: int,
    c: int,
)
    ensures
        prefers(stats, weights, now, w, a, b) && prefers(stats, weights, now, w, b, c) ==> prefers(
            stats,
            weights,
            now,
            w,
            a,
            c,
        ),
        a != b ==> prefers(stats, weights, now, w, a, b) || prefers(stats, weights, now, w, b, a),
{
}

/// Statistics of every configured endpoint, indexed like the endpoint list.
///
/// Each endpoint's successes and failures add up to the number of transport
/// outcomes recorded for it.
pub struct HealthMonitor {
    stats: Vec<EndpointStats>,
    freshness_window_ms: u64,
    /// The endpoint of every outcome recorded so far, in order.
    observed: Ghost<Seq<usize>>,
}

impl HealthMonitor {
    pub closed spec fn stats(&self) -> Seq<EndpointStats> {
        self.stats@
    }

    pub closed spec fn window(&self) -> u64 {
        self.freshness_window_ms
    }

    /// The endpoint of each transport outcome recorded, in order.
    pub closed spec fn observed(&self) -> Seq<usize> {
        self.observed@
    }

    pub open spec fn wf(&self) -> bool {
        &&& forall|i: int| 0 <= i < self.stats().len() ==> #[trigger] self.stats()[i].consistent()
        &&& forall|i: int|
            0 <= i < self.stats().len() ==> #[trigger] self.stats()[i].attempts() == occurrences(
                self.observed(),
                i as usize,
            )
    }

    /// One more outcome can be counted for endpoint `i` without overflow.
    pub open spec fn can_record(&self, i: usize) -> bool {
        i < self.stats().len() ==> self.stats()[i as int].attempts() < u64::MAX
    }

    /// Statistics for `n_endpoints` untried endpoints, with freshness window `window_ms`.
    pub fn new(n_endpoints: usize, window_ms: u64) -> (r: HealthMonitor)
        ensures
            r.wf(),
            r.stats().len() == n_endpoints,
            r.window() == window_ms,
            r.observed() == Seq::<usize>::empty(),
            forall|i: int| 0 <= i < n_endpoints ==> #[trigger] r.stats()[i].zeroed(),
    {
        let mut stats: Vec<EndpointStats> = Vec::new();
        let mut k: usize = 0;
        while k < n_endpoints
            invariant
                k <= n_endpoints,
                stats@.len() == k,
                forall|i: int| 0 <= i < k ==> #[trigger] stats@[i].zeroed(),
            decreases n_endpoints - k,
        {
            stats.push(EndpointStats::new());
            k = k + 1;
        }
        let r = HealthMonitor { stats, freshness_window_ms: window_ms, observed: Ghost(Seq::empty()) };
        assert forall|i: int| 0 <= i < r.stats().len() implies #[trigger] r.stats()[i].attempts()
            == occurrences(r.observed(), i as usize) by {
            assert(r.stats()[i].zeroed());
            assert(occurrences(Seq::<usize>::empty(), i as usize) == 0);
        }
        assert forall|i: int| 0 <= i < r.stats().len() implies #[trigger] r.stats()[i].consistent() by {
            assert(r.stats()[i].zeroed());
        }
        r
    }

    pub fn len(&self) -> (r: usize)
        ensures
            r == self.stats().len(),
    {
        self.stats.len()
    }

    pub fn freshness_window_ms(&self) -> (r: u64)
        ensures
            r == self.window(),
    {
        self.freshness_window_ms
    }

    /// The statistics of one endpoint.
    pub fn endpoint_stats(&self, endpoint_idx: usize) -> (r: &EndpointStats)
        requires
            endpoint_idx < self.stats().len(),
        ensures
            *r == self.stats()[endpoint_idx as int],
    {
        &self.stats[endpoint_idx]
    }

    /// A copy of the statistics of every endpoint.
    pub fn get_stats(&self) -> (r: Vec<EndpointStats>)
        ensures
            r@ == self.stats(),
    {
        let mut out: Vec<EndpointStats> = Vec::new();
        let mut i: usize = 0;
        while i < self.stats.len()
            invariant
                i <= self.stats@.len(),
                out@ =~= self.stats@.subrange(0, i as int),
            decreases self.stats@.len() - i,
        {
            out.push(self.stats[i].copy());
            i = i + 1;
        }
        out
    }

    /// Counts a success of `endpoint_idx` at `now_ms`.
    pub fn record_success(
        &mut self,
        endpoint_idx: usize,
        response_time_ms: u64,
        bytes_transferred: u64,
        now_ms: u64,
    ) -> (r: Result<(), RpcError>)
        requires
            old(self).wf(),
            old(self).can_record(endpoint_idx),
        ensures
            final(self).wf(),
            final(self).window() == old(self).window(),
            endpoint_idx >= old(self).stats().len() ==> {
                &&& r == Err::<(), RpcError>(RpcError::InvalidEndpoint(endpoint_idx))
                &&& final(self).stats() == old(self).stats()
                &&& final(self).observed() == old(self).observed()
            },
            endpoint_idx < old(self).stats().len() ==> {
                &&& r is Ok
                &&& final(self).stats() == old(self).stats().update(
                    endpoint_idx as int,
                    old(self).stats()[endpoint_idx as int].after_success(
                        response_time_ms,
                        bytes_transferred,
                        now_ms,
                    ),
                )
                &&& final(self).observed() == old(self).observed().push(endpoint_idx)
            },
    {
        if endpoint_idx >= self.stats.len() {
            return Err(RpcError::InvalidEndpoint(endpoint_idx));
        }
        let ghost old_stats = self.stats@;
        let ghost before = self.stats@[endpoint_idx as int];
        assert(before.consistent());
        let succ: u64 = self.stats[endpoint_idx].successful_requests + 1;
        let prev_total: u128 = self.stats[endpoint_idx].total_response_time_ms;
        assert(prev_total + response_time_ms <= succ * u64::MAX) by (nonlinear_arith)
            requires
                prev_total <= (succ - 1) * u64::MAX,
                response_time_ms <= u64::MAX,
        ;
        assert(succ * u64::MAX <= u64::MAX * u64::MAX) by (nonlinear_arith)
            requires
                succ <= u64::MAX,
        ;
        let total: u128 = prev_total + response_time_ms as u128;
        let avg: u128 = total / succ as u128;
        assert(avg <= u64::MAX) by (nonlinear_arith)
            requires
                avg as int == total as int / succ as int,
                total <= succ * u64::MAX,
                succ > 0,
        ;
        let bytes: u64 = self.stats[endpoint_idx].total_bytes_transferred.saturating_add(
            bytes_transferred,
        );
        self.stats[endpoint_idx].successful_requests = succ;
        self.stats[endpoint_idx].total_response_time_ms = total;
        self.stats[endpoint_idx].avg_response_time_ms = avg as u64;
        self.stats[endpoint_idx].total_bytes_transferred = bytes;
        self.stats[endpoint_idx].last_success = Some(now_ms);
        proof {
            let pushed = self.observed@.push(endpoint_idx);
            assert forall|i: int| 0 <= i < self.stats@.len() implies #[trigger] self.stats@[i].attempts()
                == occurrences(pushed, i as usize) by {
                lemma_occurrences_push(self.observed@, endpoint_idx, i as usize);
                assert(old_stats[i].attempts() == occurrences(self.observed@, i as usize));
            }
            self.observed = Ghost(pushed);
            assert(self.stats@ =~= old_stats.update(
                endpoint_idx as int,
                before.after_success(response_time_ms, bytes_transferred, now_ms),
            ));
            assert forall|i: int| 0 <= i < self.stats@.len() implies #[trigger] self.stats@[i].consistent() by {
                assert(old_stats[i].consistent());
            }
        }
        Ok(())
    }

    /// Counts a failure of `endpoint_idx` at `now_ms`, keeping its message.
    pub fn record_failure(&mut self, endpoint_idx: usize, message: String, now_ms: u64) -> (r:
        Result<(), RpcError>)
        requires
            old(self).wf(),
            old(self).can_record(endpoint_idx),
        ensures
            final(self).wf(),
            final(self).window() == old(self).window(),
            endpoint_idx >= old(self).stats().len() ==> {
                &&& r == Err::<(), RpcError>(RpcError::InvalidEndpoint(endpoint_idx))
                &&& final(self).stats() == old(self).stats()
                &&& final(self).observed() == old(self).observed()
            },
            endpoint_idx < old(self).stats().len() ==> {
                &&& r is Ok
                &&& final(self).stats() == old(self).stats().update(
                    endpoint_idx as int,
                    old(self).stats()[endpoint_idx as int].after_failure(message, now_ms),
                )
                &&& final(self).observed() == old(self).observed().push(endpoint_idx)
            },
    {
        if endpoint_idx >= self.stats.len() {
            return Err(RpcError::InvalidEndpoint(endpoint_idx));
        }
        let ghost old_stats = self.stats@;
        let ghost before = self.stats@[endpoint_idx as int];
        let ghost msg = message;
        let failed: u64 = self.stats[endpoint_idx].failed_requests + 1;
        self.stats[endpoint_idx].failed_requests = failed;
        self.stats[endpoint_idx].last_failure = Some(now_ms);
        self.stats[endpoint_idx].last_error = Some(message);
        proof {
            let pushed = self.observed@.push(endpoint_idx);
            assert forall|i: int| 0 <= i < self.stats@.len() implies #[trigger] self.stats@[i].attempts()
                == occurrences(pushed, i as usize) by {
                lemma_occurrences_push(self.observed@, endpoint_idx, i as usize);
                assert(old_stats[i].attempts() == occurrences(self.observed@, i as usize));
            }
            self.observed = Ghost(pushed);
            assert(self.stats@ =~= old_stats.update(
                endpoint_idx as int,
                before.after_failure(msg, now_ms),
            ));
            assert forall|i: int| 0 <= i < self.stats@.len() implies #[trigger] self.stats@[i].consistent() by {
                assert(old_stats[i].consistent());
            }
        }
        Ok(())
    }

    /// The health verdict of an endpoint at `now_ms`.
    pub fn is_healthy(&self, endpoint_idx: usize, now_ms: u64) -> (r: Result<bool, RpcError>)
        ensures
            endpoint_idx >= self.stats().len() ==> r == Err::<bool, RpcError>(
                RpcError::InvalidEndpoint(endpoint_idx),
            ),
            endpoint_idx < self.stats().len() ==> r == Ok::<bool, RpcError>(
                self.stats()[endpoint_idx as int].healthy(now_ms as int, self.window() as int),
            ),
    {
        if endpoint_idx >= self.stats.len() {
            return Err(RpcError::InvalidEndpoint(endpoint_idx));
        }
        Ok(self.stats[endpoint_idx].is_healthy(now_ms, self.freshness_window_ms))
    }

    /// The health score of an endpoint at `now_ms`, in millionths.
    pub fn score(&self, endpoint_idx: usize, now_ms: u64) -> (r: Result<u128, RpcError>)
        ensures
            endpoint_idx >= self.stats().len() ==> r == Err::<u128, RpcError>(
                RpcError::InvalidEndpoint(endpoint_idx),
            ),
            endpoint_idx < self.stats().len() ==> r == Ok::<u128, RpcError>(
                self.stats()[endpoint_idx as int].score(now_ms as int, self.window() as int) as u128,
            ),
    {
        if endpoint_idx >= self.stats.len() {
            return Err(RpcError::InvalidEndpoint(endpoint_idx));
        }
        Ok(self.stats[endpoint_idx].health_score(now_ms, self.freshness_window_ms))
    }

    fn prefers_exec(&self, weights: &Vec<u32>, i: usize, j: usize, now_ms: u64) -> (r: bool)
        requires
            i < self.stats().len(),
            j < self.stats().len(),
            weights@.len() == self.stats().len(),
        ensures
            r == prefers(self.stats(), weights@, now_ms as int, self.window() as int, i as int, j as int),
    {
        let w = self.freshness_window_ms;
        let a = &self.stats[i];
        let b = &self.stats[j];
        let ha = a.is_healthy(now_ms, w);
        let hb = b.is_healthy(now_ms, w);
        if ha != hb {
            ha
        } else if ha {
            let sa = a.health_score(now_ms, w);
            let sb = b.health_score(now_ms, w);
            sa > sb || (sa == sb && (weights[i] > weights[j] || (weights[i] == weights[j] && i < j)))
        } else {
            match (a.last_attempt_ms(), b.last_attempt_ms()) {
                (Some(x), Some(y)) => x < y || (x == y && i < j),
                (None, Some(_)) => true,
                (Some(_), None) => false,
                (None, None) => i < j,
            }
        }
    }

    /// The eligible endpoint to try next: the best healthy one by score,
    /// weight and index, or, when none of them is healthy, the least
    /// recently tried. `None` when no endpoint is eligible.
    pub fn next_endpoint(&self, weights: &Vec<u32>, eligible: &Vec<bool>, now_ms: u64) -> (r:
        Option<usize>)
        requires
            weights@.len() == self.stats().len(),
            eligible@.len() == self.stats().len(),
        ensures
            r is None <==> forall|j: int| 0 <= j < eligible@.len() ==> !eligible@[j],
            r matches Some(k) ==> is_choice(
                self.stats(),
                weights@,
                eligible@,
                now_ms as int,
                self.window() as int,
                k as int,
            ),
    {
        let n = eligible.len();
        let mut best: Option<usize> = None;
        let mut k: usize = 0;
        let ghost st = self.stats();
        let ghost now = now_ms as int;
        let ghost w = self.window() as int;
        while k < n
            invariant
                n == eligible@.len(),
                n == self.stats().len(),
                weights@.len() == n,
                st == self.stats(),
                now == now_ms as int,
                w == self.window() as int,
                k <= n,
                best is None ==> forall|j: int| 0 <= j < k ==> !eligible@[j],
                best matches Some(b) ==> {
                    &&& b < k
                    &&& eligible@[b as int]
                    &&& forall|j: int|
                        0 <= j < k && eligible@[j] && j != b ==> #[trigger] prefers(
                            st,
                            weights@,
                            now,
                            w,
                            b as int,
                            j,
                        )
                },
            decreases n - k,
        {
            if eligible[k] {
                match best {
                    None => {
                        best = Some(k);
                    },
                    Some(b) => {
                        if self.prefers_exec(weights, k, b, now_ms) {
                            proof {
                                assert forall|j: int|
                                    0 <= j < k + 1 && eligible@[j] && j != k implies #[trigger] prefers(
                                    st,
                                    weights@,
                                    now,
                                    w,
                                    k as int,
                                    j,
                                ) by {
                                    lemma_prefers_order(st, weights@, now, w, k as int, b as int, j);
                                }
                            }
                            best = Some(k);
                        } else {
                            proof {
                                lemma_prefers_order(st, weights@, now, w, k as int, b as int, k as int);
                            }
                        }
                    },
                }
            }
            k = k + 1;
        }
        best
    }
}

/// The successes and failures of an endpoint add up to the number of
/// transport outcomes recorded for it.
pub proof fn lemma_attempts_are_outcomes(m: &HealthMonitor, e: usize)
    requires
        m.wf(),
        e < m.stats().len(),
    ensures
        m.stats()[e as int].attempts() == occurrences(m.observed(), e),
{
}

/// After a success recorded at `now`, the endpoint's last success is `now`
/// itself: no time has passed since it, so it lies within any request
/// timeout, and the endpoint is healthy for any freshness window.
pub proof fn lemma_success_is_recent(
    st: EndpointStats,
    response_ms: u64,
    bytes: u64,
    now: u64,
    request_timeout_ms: u64,
    w: u64,
)
    ensures
        st.after_success(response_ms, bytes, now).last_success == Some(now),
        now - st.after_success(response_ms, bytes, now).last_success->Some_0 <= request_timeout_ms,
        st.after_success(response_ms, bytes, now).healthy(now as int, w as int),
{
}

/// A healthy endpoint is tried before an unhealthy one, whatever their
/// scores and weights: after a call in which one endpoint failed without any
/// success and another served, the next call starts with the one that served.
pub proof fn lemma_healthy_first(
    stats: Seq<EndpointStats>,
    weights: Seq<u32>,
    eligible: Seq<bool>,
    now: int,
    w: int,
    i: int,
    j: int,
)
    requires
        eligible.len() == stats.len(),
        eligible =~= Seq::new(stats.len(), |k: int| k == i || k == j),
        0 <= i < stats.len(),
        0 <= j < stats.len(),
        i != j,
        stats[i].healthy(now, w),
        !stats[j].healthy(now, w),
    ensures
        prefers(stats, weights, now, w, i, j),
        is_choice(stats, weights, eligible, now, w, i),
{
}

} // verus!
