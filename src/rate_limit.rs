//! Per-endpoint token bucket.
//!
//! Tokens are counted in thousandths so that a refill of `max_rps` tokens per
//! second is exactly `max_rps` thousandths per millisecond. Time is a
//! monotonic millisecond count handed in by the caller.
use vstd::prelude::*;
use crate::error::RpcError;

verus! {

/// Thousandths of a token in one token.
pub const MILLI: u64 = 1000;

/// The length of the pause after an upstream 429, in milliseconds.
pub const PENALTY_MS: u64 = 1000;

/// Default rate-limit quota of an endpoint.
#[derive(Debug, Clone, Copy, PartialEq, Eq, Structural)]
pub struct RateLimitConfig {
    /// Tokens added per second.
    pub max_rps: u32,
    /// Capacity of the bucket, in tokens.
    pub burst_size: u32,
}

/// What an attempt to take a permit gives.
#[derive(Debug, Clone, Copy, PartialEq, Eq, Structural)]
pub enum Admission {
    /// A token was consumed; the request may go.
    Granted,
    /// No token; one will be there after this many milliseconds.
    Wait(u64),
}

/// The bucket as plain numbers.
pub struct BucketModel {
    pub max_rps: nat,
    pub burst_size: nat,
    pub milli_tokens: nat,
    pub last_refill_ms: nat,
}

impl BucketModel {
    pub open spec fn capacity(self) -> nat {
        self.burst_size * MILLI as nat
    }

    pub open spec fn wf(self) -> bool {
        &&& self.max_rps > 0
        &&& self.burst_size > 0
        &&& self.milli_tokens <= self.capacity()
    }

    /// Whole tokens in the bucket.
    pub open spec fn tokens(self) -> nat {
        self.milli_tokens / MILLI as nat
    }

    /// The bucket brought forward to `now`; nothing accrues before the last refill time.
    pub open spec fn refilled(self, now: nat) -> BucketModel {
        if now > self.last_refill_ms {
            let gained = (now - self.last_refill_ms) as nat * self.max_rps;
            BucketModel {
                milli_tokens: if self.milli_tokens + gained > self.capacity() {
                    self.capacity()
                } else {
                    self.milli_tokens + gained
                },
                last_refill_ms: now,
                ..self
            }
        } else {
            self
        }
    }

    /// Milliseconds from `now` until a bucket holding `self.milli_tokens` at
    /// `self.last_refill_ms` holds a whole token.
    pub open spec fn wait_ms(self, now: nat) -> nat {
        let deficit = (MILLI - self.milli_tokens) as nat;
        let pause = if self.last_refill_ms > now { (self.last_refill_ms - now) as nat } else { 0 };
        pause + (deficit + self.max_rps - 1) as nat / self.max_rps
    }

    /// One acquisition at `now`: the next bucket and the answer.
    pub open spec fn acquire(self, now: nat) -> (BucketModel, Admission) {
        let r = self.refilled(now);
        if r.milli_tokens >= MILLI {
            (BucketModel { milli_tokens: (r.milli_tokens - MILLI) as nat, ..r }, Admission::Granted)
        } else {
            let w = r.wait_ms(now);
            (r, Admission::Wait(if w > u64::MAX { u64::MAX } else { w as u64 }))
        }
    }

    /// The bucket after an upstream 429 at `now`: empty, and refilling one
    /// pause later than it otherwise would (the clock value saturates).
    pub open spec fn penalized(self, now: nat) -> BucketModel {
        let from = if self.last_refill_ms > now { self.last_refill_ms } else { now };
        let until = if from + PENALTY_MS > u64::MAX { u64::MAX as nat } else { from + PENALTY_MS as nat };
        BucketModel { milli_tokens: 0, last_refill_ms: until, ..self }
    }
}

/// The bucket after `n` acquisitions in a row at the same instant.
pub open spec fn acquired_n(s: BucketModel, now: nat, n: nat) -> BucketModel
    decreases n,
{
    if n == 0 {
        s
    } else {
        acquired_n(s, now, (n - 1) as nat).acquire(now).0
    }
}

/// A well-formed bucket holds between zero and `burst_size` tokens, and
/// refilling, acquiring and pausing at any time keep it well formed; so the
/// token count of a bucket stays within those bounds at all times.
pub proof fn lemma_tokens_within_burst(s: BucketModel)
    requires
        s.wf(),
    ensures
        0 <= s.tokens() <= s.burst_size,
        forall|now: nat| #[trigger] s.refilled(now).wf(),
        forall|now: nat| #[trigger] s.acquire(now).0.wf(),
        forall|now: nat| #[trigger] s.penalized(now).wf(),
{
    assert(s.milli_tokens / 1000 <= s.burst_size) by (nonlinear_arith)
        requires
            s.milli_tokens <= s.burst_size * 1000,
    ;
}

proof fn lemma_drain(s: BucketModel, now: nat, k: nat)
    requires
        s.wf(),
        s.milli_tokens == s.capacity(),
        s.last_refill_ms <= now,
        k <= s.burst_size,
    ensures
        acquired_n(s, now, k).refilled(now) == (BucketModel {
            milli_tokens: (s.capacity() - k * MILLI) as nat,
            last_refill_ms: now,
            ..s
        }),
    decreases k,
{
    if k > 0 {
        lemma_drain(s, now, (k - 1) as nat);
        assert((k - 1) * MILLI + MILLI == k * MILLI) by (nonlinear_arith);
        assert(k * MILLI <= s.burst_size * MILLI) by (nonlinear_arith)
            requires
                k <= s.burst_size,
        ;
    }
}

/// From a full bucket, up to `burst_size` acquisitions in a row at one
/// instant are all granted without delay, and the next one has to wait
/// `ceil(1000 / max_rps)` ms for a refill.
pub proof fn lemma_full_bucket_burst(s: BucketModel, now: nat, n: nat)
    requires
        s.wf(),
        s.milli_tokens == s.capacity(),
        s.last_refill_ms <= now,
        n <= s.burst_size,
    ensures
        n < s.burst_size ==> acquired_n(s, now, n).acquire(now).1 == Admission::Granted,
        n == s.burst_size ==> acquired_n(s, now, n).acquire(now).1 == Admission::Wait(
            ((MILLI + s.max_rps - 1) as nat / s.max_rps) as u64,
        ),
{
    lemma_drain(s, now, n);
    assert((MILLI + s.max_rps - 1) as nat / s.max_rps <= MILLI) by (nonlinear_arith)
        requires
            s.max_rps >= 1,
    ;
    assert(n < s.burst_size ==> n * MILLI + MILLI <= s.burst_size * MILLI) by (nonlinear_arith);
}

/// With one token of capacity and one token per second, a grant at `t` is
/// followed by no other grant before `t + 1000` ms; and when the grant's
/// refill time was `t` itself, the next permit comes exactly at `t + 1000`.
pub proof fn lemma_one_per_second(s: BucketModel, t: nat, t2: nat)
    requires
        s.wf(),
        s.max_rps == 1,
        s.burst_size == 1,
        s.acquire(t).1 == Admission::Granted,
        t <= t2,
    ensures
        t2 < t + MILLI ==> s.acquire(t).0.acquire(t2).1 is Wait,
        s.refilled(t).last_refill_ms == t && t2 == t + MILLI ==> s.acquire(t).0.acquire(t2).1
            == Admission::Granted,
{
    let r = s.refilled(t);
    assert(r.capacity() == MILLI);
    assert(r.milli_tokens == MILLI);
    assert(r.last_refill_ms >= t);
    let a = s.acquire(t).0;
    assert(a.milli_tokens == 0);
    assert(a.last_refill_ms == r.last_refill_ms);
    let b = a.refilled(t2);
    if t2 > a.last_refill_ms {
        assert(b.milli_tokens <= (t2 - a.last_refill_ms) as nat * 1);
    }
}

/// A token bucket parameterized by refill rate and capacity.
#[derive(Debug)]
pub struct RateLimiter {
    max_rps: u32,
    burst_size: u32,
    milli_tokens: u64,
    last_refill_ms: u64,
}

impl View for RateLimiter {
    type V = BucketModel;

    closed spec fn view(&self) -> BucketModel {
        BucketModel {
            max_rps: self.max_rps as nat,
            burst_size: self.burst_size as nat,
            milli_tokens: self.milli_tokens as nat,
            last_refill_ms: self.last_refill_ms as nat,
        }
    }
}

impl RateLimiter {
    pub open spec fn wf(&self) -> bool {
        &&& self@.wf()
        &&& self@.last_refill_ms <= u64::MAX
    }

    /// A full bucket; fails when either rate parameter is zero.
    pub fn new(config: &RateLimitConfig, now_ms: u64) -> (r: Result<RateLimiter, RpcError>)
        ensures
            r is Err <==> (config.max_rps == 0 || config.burst_size == 0),
            r is Err ==> r->Err_0 is InvalidConfig,
            r matches Ok(l) ==> {
                &&& l.wf()
                &&& l@.max_rps == config.max_rps
                &&& l@.burst_size == config.burst_size
                &&& l@.milli_tokens == l@.capacity()
                &&& l@.last_refill_ms == now_ms
            },
    {
        if config.max_rps == 0 {
            return Err(RpcError::InvalidConfig(String::from_str("max_rps must be greater than 0")));
        }
        if config.burst_size == 0 {
            return Err(
                RpcError::InvalidConfig(String::from_str("burst_size must be greater than 0")),
            );
        }
        let full: u64 = config.burst_size as u64 * MILLI;
        Ok(RateLimiter {
            max_rps: config.max_rps,
            burst_size: config.burst_size,
            milli_tokens: full,
            last_refill_ms: now_ms,
        })
    }

    pub fn max_rps(&self) -> (r: u32)
        ensures
            r == self@.max_rps,
    {
        self.max_rps
    }

    pub fn burst_size(&self) -> (r: u32)
        ensures
            r == self@.burst_size,
    {
        self.burst_size
    }

    /// Thousandths of a token held at the last refill.
    pub fn milli_tokens(&self) -> (r: u64)
        ensures
            r == self@.milli_tokens,
    {
        self.milli_tokens
    }

    fn refill(&mut self, now_ms: u64)
        requires
            old(self).wf(),
        ensures
            final(self).wf(),
            final(self)@ == old(self)@.refilled(now_ms as nat),
    {
        if now_ms > self.last_refill_ms {
            let elapsed: u64 = now_ms - self.last_refill_ms;
            let rps: u128 = self.max_rps as u128;
            assert(elapsed as u128 * rps <= u64::MAX as u128 * u32::MAX as u128) by (nonlinear_arith)
                requires
                    elapsed <= u64::MAX,
                    rps <= u32::MAX,
            ;
            let gained: u128 = elapsed as u128 * rps;
            let cap: u64 = self.burst_size as u64 * MILLI;
            let sum: u128 = self.milli_tokens as u128 + gained;
            if sum > cap as u128 {
                self.milli_tokens = cap;
            } else {
                self.milli_tokens = sum as u64;
            }
            self.last_refill_ms = now_ms;
        }
    }

    /// Takes one token if there is one at `now_ms`; otherwise says how long
    /// until there is. Refill is computed from the last refill time.
    pub fn try_acquire(&mut self, now_ms: u64) -> (r: Admission)
        requires
            old(self).wf(),
        ensures
            final(self).wf(),
            (final(self)@, r) == old(self)@.acquire(now_ms as nat),
    {
        self.refill(now_ms);
        if self.milli_tokens >= MILLI {
            self.milli_tokens = self.milli_tokens - MILLI;
            Admission::Granted
        } else {
            let deficit: u64 = MILLI - self.milli_tokens;
            let rps: u64 = self.max_rps as u64;
            let pause: u64 = if self.last_refill_ms > now_ms {
                self.last_refill_ms - now_ms
            } else {
                0
            };
            let fill: u64 = (deficit + rps - 1) / rps;
            assert(fill <= MILLI) by (nonlinear_arith)
                requires
                    fill as int == (deficit + rps - 1) as int / rps as int,
                    1 <= rps,
                    deficit <= MILLI,
            ;
            Admission::Wait(pause.saturating_add(fill))
        }
    }

    /// Empties the bucket after an upstream 429 and moves its next refill a
    /// full pause later.
    pub fn penalize(&mut self, now_ms: u64)
        requires
            old(self).wf(),
        ensures
            final(self).wf(),
            final(self)@ == old(self)@.penalized(now_ms as nat),
    {
        let from: u64 = if self.last_refill_ms > now_ms {
            self.last_refill_ms
        } else {
            now_ms
        };
        self.milli_tokens = 0;
        self.last_refill_ms = from.saturating_add(PENALTY_MS);
    }
}

} // verus!
