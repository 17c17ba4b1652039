//! Token buckets with lazy refill, and a rate limiter that arms a one-shot
//! timer fd whenever a consume attempt is refused.
//!
//! A bucket is a quintuple (size, one-time burst, refill time in ms, budget,
//! last-update timestamp in ns) plus two preprocessed constants chosen so that
//! `refill = elapsed_ns * processed_capacity / processed_refill_time` holds
//! exactly with the smallest possible factors.

use vstd::prelude::*;
use vstd::arithmetic::div_mod::{lemma_fundamental_div_mod, lemma_mod_multiples_basic};

verus! {

/// Greatest common divisor, by Euclid's algorithm.
pub open spec fn spec_gcd(x: nat, y: nat) -> nat
    decreases y,
{
    if y == 0 {
        x
    } else {
        spec_gcd(y, x % y)
    }
}

/// The gcd divides both of its arguments and is positive unless both are zero.
pub proof fn lemma_gcd_divides(x: nat, y: nat)
    ensures
        x > 0 || y > 0 ==> spec_gcd(x, y) > 0,
        spec_gcd(x, y) > 0 ==> x % spec_gcd(x, y) == 0,
        spec_gcd(x, y) > 0 ==> y % spec_gcd(x, y) == 0,
        spec_gcd(x, y) <= x || x == 0,
    decreases y,
{
    if y == 0 {
    } else {
        lemma_gcd_divides(y, x % y);
        let g = spec_gcd(y, x % y);
        assert(g > 0);
        let r = x % y;
        lemma_fundamental_div_mod(x as int, y as int);
        let q = x as int / y as int;
        // y and r are both multiples of g, so x = y*q + r is one too.
        lemma_fundamental_div_mod(y as int, g as int);
        lemma_fundamental_div_mod(r as int, g as int);
        let yk = y as int / g as int;
        let rk = r as int / g as int;
        assert(x as int == (yk * q + rk) * g) by (nonlinear_arith)
            requires
                x as int == y as int * q + r,
                y as int == g as int * yk + 0,
                r as int == g as int * rk + 0,
                g == spec_gcd(y, x % y),
                r == x % y,
                yk == y as int / g as int,
                rk == r as int / g as int,
        ;
        lemma_mod_multiples_basic(yk * q + rk, g as int);
        // g divides x, hence g <= x when x > 0.
        if x > 0 {
            lemma_fundamental_div_mod(x as int, g as int);
            assert(g <= x) by (nonlinear_arith)
                requires
                    x as int == g as int * (x as int / g as int) + 0,
                    g > 0,
                    x > 0,
            ;
        }
    }
}

/// A quantity divisible by a positive `d` is reassembled exactly by `(x / d) * d`.
pub proof fn lemma_div_exact(x: nat, d: nat)
    requires
        d > 0,
        x % d == 0,
    ensures
        (x / d) * d == x,
{
    lemma_fundamental_div_mod(x as int, d as int);
    let q = x as int / d as int;
    assert(x as int == d as int * q);
    assert((x / d) as int == q);
    assert((x / d) * d == x) by (nonlinear_arith)
        requires
            (x / d) as int == x as int / d as int,
            x as int == d as int * (x as int / d as int),
    ;
}

pub const NANOSEC_IN_ONE_MILLISEC: u64 = 1_000_000;

/// The reduced capacity factor a bucket of the given parameters is built with.
pub open spec fn spec_processed_capacity(size: u64, refill_ms: u64) -> nat {
    let g1 = spec_gcd(size as nat, refill_ms as nat);
    let c1 = (size as nat) / g1;
    c1 / spec_gcd(c1, NANOSEC_IN_ONE_MILLISEC as nat)
}

/// The reduced refill-time factor (in ns) a bucket of the given parameters is built with.
pub open spec fn spec_processed_refill_time(size: u64, refill_ms: u64) -> nat {
    let g1 = spec_gcd(size as nat, refill_ms as nat);
    let c1 = (size as nat) / g1;
    let g2 = spec_gcd(c1, NANOSEC_IN_ONE_MILLISEC as nat);
    ((refill_ms as nat) / g1) * ((NANOSEC_IN_ONE_MILLISEC as nat) / g2)
}

/// The two processed factors keep the refill ratio exact:
/// `capacity / refill_time_ns == processed_capacity / processed_refill_time`,
/// cross-multiplied to avoid fractions.
pub proof fn lemma_preprocess_exact(size: u64, refill_ms: u64)
    requires
        size > 0 || refill_ms > 0,
    ensures
        spec_processed_capacity(size, refill_ms) * (refill_ms as nat) * (NANOSEC_IN_ONE_MILLISEC as nat)
            == (size as nat) * spec_processed_refill_time(size, refill_ms),
        size > 0 ==> spec_processed_capacity(size, refill_ms) > 0,
        refill_ms > 0 ==> spec_processed_refill_time(size, refill_ms) > 0,
        spec_processed_capacity(size, refill_ms) <= size,
{
    let million: nat = NANOSEC_IN_ONE_MILLISEC as nat;
    let g1 = spec_gcd(size as nat, refill_ms as nat);
    lemma_gcd_divides(size as nat, refill_ms as nat);
    let c1 = (size as nat) / g1;
    let r1 = (refill_ms as nat) / g1;
    lemma_div_exact(size as nat, g1);
    lemma_div_exact(refill_ms as nat, g1);
    let g2 = spec_gcd(c1, million);
    lemma_gcd_divides(c1, million);
    let pc = c1 / g2;
    let m = million / g2;
    lemma_div_exact(c1, g2);
    lemma_div_exact(million, g2);
    assert(pc * (refill_ms as nat) * million == (size as nat) * (r1 * m)) by (nonlinear_arith)
        requires
            c1 * g1 == size as nat,
            r1 * g1 == refill_ms as nat,
            pc * g2 == c1,
            m * g2 == million,
    ;
    if size > 0 {
        // c1 >= 1 and g2 divides c1, so pc = c1 / g2 >= 1.
        assert(c1 > 0) by (nonlinear_arith)
            requires
                c1 * g1 == size as nat,
                size > 0,
        ;
        assert(pc > 0) by (nonlinear_arith)
            requires
                pc * g2 == c1,
                c1 > 0,
        ;
        assert(pc <= c1) by (nonlinear_arith)
            requires
                pc * g2 == c1,
                g2 > 0,
                pc > 0,
        ;
        assert(c1 <= size) by (nonlinear_arith)
            requires
                c1 * g1 == size as nat,
                g1 > 0,
                c1 > 0,
        ;
    }
    if refill_ms > 0 {
        assert(r1 > 0) by (nonlinear_arith)
            requires
                r1 * g1 == refill_ms as nat,
                refill_ms > 0,
        ;
        assert(m > 0) by (nonlinear_arith)
            requires
                m * g2 == million,
                million > 0,
        ;
        assert(r1 * m > 0) by (nonlinear_arith)
            requires
                r1 > 0,
                m > 0,
        ;
    }
}

/// Mathematical image of a token bucket.
pub struct TokenBucketView {
    pub size: u64,
    pub one_time_burst: Option<u64>,
    pub refill_time: u64,
    pub budget: u64,
    pub last_update: u64,
    pub processed_capacity: u64,
    pub processed_refill_time: u64,
}

/// TokenBucket provides a lower level interface to rate limiting with a
/// configurable capacity, refill-rate and initial burst.
#[derive(Clone, Debug, PartialEq)]
pub struct TokenBucket {
    // Bucket defining traits.
    size: u64,
    // Initial burst size (number of free initial tokens, that can be consumed at no cost).
    one_time_burst: Option<u64>,
    // Complete refill time in milliseconds.
    refill_time: u64,
    // Internal state descriptors.
    budget: u64,
    last_update: u64,
    // Fields used for pre-processing optimizations.
    processed_capacity: u64,
    processed_refill_time: u64,
}

impl View for TokenBucket {
    type V = TokenBucketView;

    closed spec fn view(&self) -> TokenBucketView {
        TokenBucketView {
            size: self.size,
            one_time_burst: self.one_time_burst,
            refill_time: self.refill_time,
            budget: self.budget,
            last_update: self.last_update,
            processed_capacity: self.processed_capacity,
            processed_refill_time: self.processed_refill_time,
        }
    }
}

/// The remaining one-time-burst credit, zero when absent.
pub open spec fn spec_burst(v: TokenBucketView) -> u64 {
    match v.one_time_burst {
        Option::Some(b) => b,
        Option::None => 0,
    }
}

/// Well-formedness: the budget never exceeds the capacity, the processed
/// factors are exactly the reduced ones, and the exact cross-multiplied
/// refill ratio holds.
pub open spec fn token_bucket_wf(v: TokenBucketView) -> bool {
    &&& v.budget <= v.size
    &&& (v.size > 0 || v.refill_time > 0)
    &&& v.processed_capacity as nat == spec_processed_capacity(v.size, v.refill_time)
    &&& v.processed_refill_time as nat == spec_processed_refill_time(v.size, v.refill_time)
    &&& v.processed_capacity * v.refill_time * NANOSEC_IN_ONE_MILLISEC
        == v.size * v.processed_refill_time
}

/// Relies on time::precise_time_ns: the current value of the host's
/// monotonic high-resolution counter, in nanoseconds since an unspecified
/// epoch. Nothing is assumed of the value.
#[verifier::external_body]
fn now_ns() -> u64 {
    time::precise_time_ns()
}

/// The bucket state a fresh bucket of the given parameters has, stamped `now`.
pub open spec fn spec_fresh_bucket(
    size: u64,
    one_time_burst: Option<u64>,
    refill_ms: u64,
    now: u64,
) -> TokenBucketView {
    TokenBucketView {
        size,
        one_time_burst,
        refill_time: refill_ms,
        budget: size,
        last_update: now,
        processed_capacity: spec_processed_capacity(size, refill_ms) as u64,
        processed_refill_time: spec_processed_refill_time(size, refill_ms) as u64,
    }
}

impl TokenBucket {
    /// Creates a TokenBucket of `size` total capacity that takes `complete_refill_time_ms`
    /// milliseconds to go from zero tokens to total capacity. The `one_time_burst` is initial
    /// extra credit on top of total capacity, that does not replenish and which can be used
    /// for an initial burst of data.
    ///
    /// The bucket starts off full, stamped with the current time; the
    /// reduced refill factor must fit the machine word that stores it.
    pub fn new(size: u64, one_time_burst: Option<u64>, complete_refill_time_ms: u64) -> (r:
        TokenBucket)
        requires
            size > 0 || complete_refill_time_ms > 0,
            spec_processed_refill_time(size, complete_refill_time_ms) <= u64::MAX,
        ensures
            exists|now: u64|
                r@ == spec_fresh_bucket(size, one_time_burst, complete_refill_time_ms, now),
            token_bucket_wf(r@),
            r@.size == size,
            r@.one_time_burst == one_time_burst,
            r@.refill_time == complete_refill_time_ms,
            r@.budget == size,
    {
        proof {
            lemma_preprocess_exact(size, complete_refill_time_ms);
            lemma_gcd_divides(size as nat, complete_refill_time_ms as nat);
        }
        // Get the greatest common factor between `size` and `complete_refill_time_ms`.
        let common_factor = gcd(size, complete_refill_time_ms);
        // The division is exact since `common_factor` divides `size`.
        let processed_capacity_0: u64 = size / common_factor;
        // Likewise exact for `complete_refill_time_ms`.
        let processed_refill_time_0: u64 = complete_refill_time_ms / common_factor;
        proof {
            lemma_gcd_divides(processed_capacity_0 as nat, NANOSEC_IN_ONE_MILLISEC as nat);
        }
        // Reduce the capacity factor further by its common factor with one
        // million, and carry that factor into the refill time, now in ns.
        let common_factor_2 = gcd(processed_capacity_0, NANOSEC_IN_ONE_MILLISEC);
        let processed_capacity: u64 = processed_capacity_0 / common_factor_2;
        let factor_ns: u64 = NANOSEC_IN_ONE_MILLISEC / common_factor_2;
        assert(processed_refill_time_0 as nat * factor_ns as nat == spec_processed_refill_time(
            size,
            complete_refill_time_ms,
        ));
        let processed_refill_time: u64 = processed_refill_time_0 * factor_ns;
        let now = now_ns();
        let r = TokenBucket {
            size,
            one_time_burst,
            refill_time: complete_refill_time_ms,
            // Start off full.
            budget: size,
            // Last updated is now.
            last_update: now,
            processed_capacity,
            processed_refill_time,
        };
        proof {
            assert(r@ == spec_fresh_bucket(size, one_time_burst, complete_refill_time_ms, now));
        }
        r
    }
}

/// The budget after crediting the refill earned between `v.last_update` and
/// `now`, clamped to the capacity. A clock reading older than the stamp earns
/// nothing.
pub open spec fn spec_refilled_budget(v: TokenBucketView, now: u64) -> u64 {
    let delta: int = if now >= v.last_update {
        now - v.last_update
    } else {
        0
    };
    let refill: int = (delta * v.processed_capacity) / (v.processed_refill_time as int);
    if v.budget + refill >= v.size {
        v.size
    } else {
        (v.budget + refill) as u64
    }
}

/// One consume attempt against the bucket, at clock reading `now`: burst
/// credit first, then the lazily refilled budget; an over-sized request
/// drains a full bucket as a best-effort workaround.
pub open spec fn spec_reduce(v: TokenBucketView, tokens: u64, now: u64) -> (TokenBucketView, bool) {
    if spec_burst(v) > 0 && spec_burst(v) >= tokens {
        (
            TokenBucketView {
                one_time_burst: Option::Some((spec_burst(v) - tokens) as u64),
                last_update: now,
                ..v
            },
            true,
        )
    } else {
        let residual: u64 = if spec_burst(v) > 0 {
            (tokens - spec_burst(v)) as u64
        } else {
            tokens
        };
        let burst_after: Option<u64> = if spec_burst(v) > 0 {
            Option::Some(0u64)
        } else {
            v.one_time_burst
        };
        let b1 = spec_refilled_budget(v, now);
        if residual > b1 {
            if residual > v.size && b1 == v.size {
                (
                    TokenBucketView { one_time_burst: burst_after, budget: 0, last_update: now, ..v },
                    true,
                )
            } else {
                (
                    TokenBucketView { one_time_burst: burst_after, budget: b1, last_update: now, ..v },
                    false,
                )
            }
        } else {
            (
                TokenBucketView {
                    one_time_burst: burst_after,
                    budget: (b1 - residual) as u64,
                    last_update: now,
                    ..v
                },
                true,
            )
        }
    }
}

/// A consume attempt keeps the bucket well formed, never grows the burst,
/// and leaves the configuration fields alone.
pub proof fn lemma_spec_reduce_props(v: TokenBucketView, tokens: u64, now: u64)
    requires
        token_bucket_wf(v),
        v.processed_refill_time > 0,
    ensures
        token_bucket_wf(spec_reduce(v, tokens, now).0),
        spec_reduce(v, tokens, now).0.size == v.size,
        spec_reduce(v, tokens, now).0.refill_time == v.refill_time,
        spec_reduce(v, tokens, now).0.processed_capacity == v.processed_capacity,
        spec_reduce(v, tokens, now).0.processed_refill_time == v.processed_refill_time,
        spec_burst(spec_reduce(v, tokens, now).0) <= spec_burst(v),
        spec_reduce(v, tokens, now).0.budget <= v.size,
{
    let delta: int = if now >= v.last_update {
        now - v.last_update
    } else {
        0
    };
    let refill: int = (delta * v.processed_capacity) / (v.processed_refill_time as int);
    vstd::arithmetic::mul::lemma_mul_nonnegative(delta, v.processed_capacity as int);
    vstd::arithmetic::div_mod::lemma_div_pos_is_pos(
        delta * v.processed_capacity,
        v.processed_refill_time as int,
    );
}

impl TokenBucket {
    /// One consume attempt, with the clock reading supplied by the caller;
    /// the whole algorithm of `reduce` except for reading the clock.
    pub fn reduce_at(&mut self, tokens: u64, now: u64) -> (r: bool)
        requires
            token_bucket_wf(old(self)@),
            old(self)@.refill_time > 0,
        ensures
            token_bucket_wf(final(self)@),
            final(self)@.refill_time > 0,
            final(self)@ == spec_reduce(old(self)@, tokens, now).0,
            r == spec_reduce(old(self)@, tokens, now).1,
    {
        proof {
            lemma_preprocess_exact(old(self)@.size, old(self)@.refill_time);
            lemma_spec_reduce_props(old(self)@, tokens, now);
        }
        let mut tokens = tokens;
        // First things first: consume the one-time-burst budget.
        let burst: u64 = match self.one_time_burst {
            Option::Some(b) => b,
            Option::None => 0,
        };
        if burst > 0 {
            if burst >= tokens {
                // Burst budget covers the whole request; no refill needed.
                self.one_time_burst = Option::Some(burst - tokens);
                self.last_update = now;
                return true;
            } else {
                // Burst budget covers only part; the rest comes from `budget`.
                tokens = tokens - burst;
                self.one_time_burst = Option::Some(0);
            }
        }
        // Compute time passed since last refill/update.
        let time_delta: u64 = if now >= self.last_update {
            now - self.last_update
        } else {
            0
        };
        self.last_update = now;
        // At each `time_delta` nanoseconds the bucket refills with
        // `time_delta * size / (refill_time_ms * 1_000_000)`, expressed with
        // the reduced factors; the product is taken wide so the exact
        // quotient is credited for every delta.
        proof {
            vstd::arithmetic::mul::lemma_mul_upper_bound(
                time_delta as int,
                u64::MAX as int,
                self.processed_capacity as int,
                u64::MAX as int,
            );
        }
        let refill: u128 = ((time_delta as u128) * (self.processed_capacity as u128)) / (
        self.processed_refill_time as u128);
        let total: u128 = (self.budget as u128) + refill;
        if total >= self.size as u128 {
            self.budget = self.size;
        } else {
            self.budget = total as u64;
        }
        if tokens > self.budget {
            if tokens > self.size {
                // A request larger than the full capacity: best-effort
                // workaround that drains a full bucket (known issue kept).
                if self.budget == self.size {
                    self.budget = 0;
                    return true;
                }
            }
            // Not enough tokens: the attempt fails, the refill stays.
            return false;
        }
        self.budget = self.budget - tokens;
        true
    }

    /// Attempts to consume `tokens` from the bucket and returns whether the
    /// action succeeded, refilling lazily from the monotonic clock first.
    ///
    /// A request larger than the whole capacity that finds the bucket full
    /// succeeds and drains it: a best-effort workaround, kept as it is. A
    /// true result with `tokens` above `capacity()` is that case, and worth
    /// an error in the embedder's log.
    pub fn reduce(&mut self, tokens: u64) -> (r: bool)
        requires
            token_bucket_wf(old(self)@),
            old(self)@.refill_time > 0,
        ensures
            token_bucket_wf(final(self)@),
            final(self)@.refill_time > 0,
            exists|now: u64|
                #![auto]
                final(self)@ == spec_reduce(old(self)@, tokens, now).0 && r == spec_reduce(
                    old(self)@,
                    tokens,
                    now,
                ).1,
            final(self)@.size == old(self)@.size,
            final(self)@.refill_time == old(self)@.refill_time,
            final(self)@.processed_capacity == old(self)@.processed_capacity,
            final(self)@.processed_refill_time == old(self)@.processed_refill_time,
            spec_burst(final(self)@) <= spec_burst(old(self)@),
            final(self)@.budget <= old(self)@.size,
    {
        let now = now_ns();
        proof {
            lemma_preprocess_exact(old(self)@.size, old(self)@.refill_time);
            lemma_spec_reduce_props(old(self)@, tokens, now);
        }
        let r = self.reduce_at(tokens, now);
        r
    }

    /// "Manually" adds tokens to the bucket: a non-empty burst is credited
    /// (even when the last consume drew from the budget: an intentional
    /// simplification), otherwise the budget grows, clamped to the capacity.
    pub fn replenish(&mut self, tokens: u64)
        requires
            token_bucket_wf(old(self)@),
            spec_burst(old(self)@) > 0 ==> spec_burst(old(self)@) + tokens <= u64::MAX,
        ensures
            token_bucket_wf(final(self)@),
            final(self)@ == spec_replenished(old(self)@, tokens),
    {
        let burst: u64 = match self.one_time_burst {
            Option::Some(b) => b,
            Option::None => 0,
        };
        if burst > 0 {
            self.one_time_burst = Option::Some(burst + tokens);
            return ;
        }
        // budget + tokens clamped to size, computed without overflowing.
        if tokens >= self.size - self.budget {
            self.budget = self.size;
        } else {
            self.budget = self.budget + tokens;
        }
    }

    /// Returns the capacity of the token bucket.
    pub fn capacity(&self) -> (r: u64)
        ensures
            r == self@.size,
    {
        self.size
    }

    /// Returns the remaining one time burst budget.
    pub fn one_time_burst(&self) -> (r: u64)
        ensures
            r == spec_burst(self@),
    {
        match self.one_time_burst {
            Option::Some(b) => b,
            Option::None => 0,
        }
    }

    /// Returns the time in milliseconds required to completely fill the bucket.
    pub fn refill_time_ms(&self) -> (r: u64)
        ensures
            r == self@.refill_time,
    {
        self.refill_time
    }

    /// Returns the current budget (one time burst allowance notwithstanding).
    pub fn budget(&self) -> (r: u64)
        ensures
            r == self@.budget,
    {
        self.budget
    }

    /// Returns the timestamp of the last budget update, in nanoseconds.
    pub fn get_last_update(&self) -> (r: u64)
        ensures
            r == self@.last_update,
    {
        self.last_update
    }

    /// Returns the reduced capacity factor.
    pub fn get_processed_capacity(&self) -> (r: u64)
        ensures
            r == self@.processed_capacity,
    {
        self.processed_capacity
    }

    /// Returns the reduced refill-time factor, in nanoseconds.
    pub fn get_processed_refill_time(&self) -> (r: u64)
        ensures
            r == self@.processed_refill_time,
    {
        self.processed_refill_time
    }

    /// Resets the token bucket: budget set to max capacity and last-updated set to now.
    pub fn reset(&mut self)
        requires
            token_bucket_wf(old(self)@),
        ensures
            token_bucket_wf(final(self)@),
            final(self)@.budget == old(self)@.size,
            final(self)@.size == old(self)@.size,
            final(self)@.one_time_burst == old(self)@.one_time_burst,
            final(self)@.refill_time == old(self)@.refill_time,
            final(self)@.processed_capacity == old(self)@.processed_capacity,
            final(self)@.processed_refill_time == old(self)@.processed_refill_time,
    {
        self.budget = self.size;
        self.last_update = now_ns();
    }

    /// Overwrites the last-update stamp; the other fields stay.
    pub fn set_last_update(&mut self, ts: u64)
        ensures
            final(self)@ == (TokenBucketView { last_update: ts, ..old(self)@ }),
    {
        self.last_update = ts;
    }
}

/// The bucket after a manual replenish: a non-empty burst is credited,
/// otherwise the budget grows, clamped to the capacity.
pub open spec fn spec_replenished(v: TokenBucketView, tokens: u64) -> TokenBucketView {
    if spec_burst(v) > 0 {
        TokenBucketView { one_time_burst: Option::Some((spec_burst(v) + tokens) as u64), ..v }
    } else {
        TokenBucketView {
            budget: if v.budget + tokens >= v.size {
                v.size
            } else {
                (v.budget + tokens) as u64
            },
            ..v
        }
    }
}

/// In every well-formed bucket state — and the constructor and every mutator
/// keep a bucket well formed — the budget lies between zero and the capacity.
pub proof fn lemma_budget_within_capacity(v: TokenBucketView)
    requires
        token_bucket_wf(v),
    ensures
        0 <= v.budget <= v.size,
{
}

/// The preprocessed factors of a well-formed bucket satisfy the exact
/// integer equality `processed_capacity * refill_time_ms * 1_000_000
/// == size * processed_refill_time`.
pub proof fn lemma_exact_refill_ratio(v: TokenBucketView)
    requires
        token_bucket_wf(v),
    ensures
        v.processed_capacity * v.refill_time * 1_000_000 == v.size * v.processed_refill_time,
{
}

/// Describes the errors that may occur while handling rate limiter events.
#[derive(Debug)]
pub enum Error {
    /// The event handler was called spuriously.
    SpuriousRateLimiterEvent(&'static str),
}

/// Enum that describes the type of token used.
pub enum TokenType {
    /// Token type used for bandwidth limiting.
    Bytes,
    /// Token type used for operations/second limiting.
    Ops,
}

/// Interval at which the refill timer runs when the limiter is at capacity.
pub const REFILL_TIMER_INTERVAL_MS: u64 = 100;

#[verifier::external_type_specification]
#[verifier::external_body]
pub struct ExTimerFd(timerfd::TimerFd);

/// Relies on timerfd::TimerFd::new_custom: creates a kernel timer fd on the
/// monotonic clock, non-blocking and close-on-exec; fails only on resource
/// exhaustion, whose OS error number is handed back.
#[verifier::external_body]
fn timer_create() -> Result<timerfd::TimerFd, i32> {
    match timerfd::TimerFd::new_custom(timerfd::ClockId::Monotonic, true, true) {
        Ok(t) => Ok(t),
        Err(e) => Err(e.raw_os_error().unwrap_or(-1)),
    }
}

/// Relies on timerfd::TimerFd::set_state: arms the kernel timer to fire once
/// after `ms` milliseconds, replacing whatever state it had.
#[verifier::external_body]
fn timer_arm_oneshot(t: &mut timerfd::TimerFd, ms: u64) {
    t.set_state(
        timerfd::TimerState::Oneshot(std::time::Duration::from_millis(ms)),
        timerfd::SetTimeFlags::Default,
    );
}

/// Relies on timerfd::TimerFd::read: the number of expirations since the
/// last read, zero when the non-blocking timer has not fired.
#[verifier::external_body]
fn timer_read(t: &timerfd::TimerFd) -> u64 {
    t.read()
}

/// Relies on timerfd::TimerFd::get_state: whether the kernel timer is
/// currently armed (a one-shot timer disarms itself when it fires).
#[verifier::external_body]
fn timer_armed(t: &timerfd::TimerFd) -> bool {
    match t.get_state() {
        timerfd::TimerState::Disarmed => false,
        timerfd::TimerState::Oneshot(_) => true,
        timerfd::TimerState::Periodic { .. } => true,
    }
}

/// Relies on timerfd::TimerFd's raw-fd accessor: the number of the kernel
/// timer's file descriptor, for poll integration.
#[verifier::external_body]
fn timer_raw_fd(t: &timerfd::TimerFd) -> i32 {
    rustix::fd::AsRawFd::as_raw_fd(t)
}

/// Mathematical image of a rate limiter: the two optional buckets and the
/// blocked flag.
pub struct RateLimiterView {
    pub bandwidth: Option<TokenBucketView>,
    pub ops: Option<TokenBucketView>,
    pub timer_active: bool,
}

/// Rate Limiter that works on both bandwidth and ops/s limiting.
///
/// Bandwidth (bytes/s) and ops/s limiting can be used at the same time or
/// individually. A single timer fd serves both token buckets: it is armed
/// for one `REFILL_TIMER_INTERVAL_MS` period whenever a consume attempt is
/// refused, and the embedder calls `event_handler()` when it fires.
pub struct RateLimiter {
    bandwidth: Option<TokenBucket>,
    ops: Option<TokenBucket>,
    timer_fd: timerfd::TimerFd,
    // Internal flag that quickly determines timer state.
    timer_active: bool,
}

impl View for RateLimiter {
    type V = RateLimiterView;

    closed spec fn view(&self) -> RateLimiterView {
        RateLimiterView {
            bandwidth: match self.bandwidth {
                Option::Some(b) => Option::Some(b@),
                Option::None => Option::None,
            },
            ops: match self.ops {
                Option::Some(b) => Option::Some(b@),
                Option::None => Option::None,
            },
            timer_active: self.timer_active,
        }
    }
}

/// An optional bucket is either absent or a well-formed bucket that a
/// consume attempt may refill, so with a positive refill time.
pub open spec fn opt_bucket_wf(b: Option<TokenBucketView>) -> bool {
    match b {
        Option::Some(v) => token_bucket_wf(v) && v.size > 0 && v.refill_time > 0,
        Option::None => true,
    }
}

/// Well-formedness of the whole limiter.
pub open spec fn rate_limiter_wf(v: RateLimiterView) -> bool {
    opt_bucket_wf(v.bandwidth) && opt_bucket_wf(v.ops)
}

/// The bucket an optional configuration triple yields: absent when either
/// the capacity or the refill time is zero, else fresh and full at `now`.
pub open spec fn spec_made_bucket(
    size: u64,
    one_time_burst: Option<u64>,
    refill_ms: u64,
    now: u64,
) -> Option<TokenBucketView> {
    if size != 0 && refill_ms != 0 {
        Option::Some(spec_fresh_bucket(size, one_time_burst, refill_ms, now))
    } else {
        Option::None
    }
}

/// Whether two buckets agree in every field.
fn bucket_eq(a: &TokenBucket, b: &TokenBucket) -> (r: bool)
    ensures
        r == (a@ == b@),
{
    let burst_eq = match (a.one_time_burst, b.one_time_burst) {
        (Option::Some(x), Option::Some(y)) => x == y,
        (Option::None, Option::None) => true,
        _ => false,
    };
    burst_eq && a.size == b.size && a.refill_time == b.refill_time && a.budget == b.budget
        && a.last_update == b.last_update && a.processed_capacity == b.processed_capacity
        && a.processed_refill_time == b.processed_refill_time
}

impl PartialEq for RateLimiter {
    /// Two limiters are equal when their buckets are; the timer is not
    /// compared.
    fn eq(&self, other: &RateLimiter) -> (r: bool) {
        let bandwidth_eq = match (&self.bandwidth, &other.bandwidth) {
            (Option::Some(a), Option::Some(b)) => bucket_eq(a, b),
            (Option::None, Option::None) => true,
            _ => false,
        };
        let ops_eq = match (&self.ops, &other.ops) {
            (Option::Some(a), Option::Some(b)) => bucket_eq(a, b),
            (Option::None, Option::None) => true,
            _ => false,
        };
        bandwidth_eq && ops_eq
    }
}

impl vstd::std_specs::cmp::PartialEqSpecImpl for RateLimiter {
    open spec fn obeys_eq_spec() -> bool {
        true
    }

    open spec fn eq_spec(&self, other: &RateLimiter) -> bool {
        self@.bandwidth == other@.bandwidth && self@.ops == other@.ops
    }
}

impl RateLimiter {
    /// If either token bucket capacity or refill time is 0, limiting is
    /// disabled for that token type and no bucket is built.
    fn make_bucket(
        total_capacity: u64,
        one_time_burst: Option<u64>,
        complete_refill_time_ms: u64,
    ) -> (r: Option<TokenBucket>)
        requires
            total_capacity != 0 && complete_refill_time_ms != 0
                ==> spec_processed_refill_time(total_capacity, complete_refill_time_ms)
                <= u64::MAX,
        ensures
            exists|now: u64|
                #![auto]
                (match r {
                    Option::Some(b) => Option::Some(b@),
                    Option::None => Option::None,
                }) == spec_made_bucket(
                    total_capacity,
                    one_time_burst,
                    complete_refill_time_ms,
                    now,
                ),
            r.is_some() <==> (total_capacity != 0 && complete_refill_time_ms != 0),
            opt_bucket_wf(
                match r {
                    Option::Some(b) => Option::Some(b@),
                    Option::None => Option::None,
                },
            ),
    {
        if total_capacity != 0 && complete_refill_time_ms != 0 {
            let b = TokenBucket::new(total_capacity, one_time_burst, complete_refill_time_ms);
            proof {
                let now = choose|now: u64|
                    b@ == spec_fresh_bucket(
                        total_capacity,
                        one_time_burst,
                        complete_refill_time_ms,
                        now,
                    );
                assert(Option::Some(b@) == spec_made_bucket(
                    total_capacity,
                    one_time_burst,
                    complete_refill_time_ms,
                    now,
                ));
            }
            Some(b)
        } else {
            proof {
                assert(spec_made_bucket(
                    total_capacity,
                    one_time_burst,
                    complete_refill_time_ms,
                    0,
                ) is None);
            }
            None
        }
    }

    /// Creates a new Rate Limiter that can limit on both bytes/s and ops/s.
    ///
    /// A token type whose capacity or refill time is zero is disabled. The
    /// timer fd is created even when both types are disabled, so that a
    /// later `update_buckets` can re-enable limiting under a seccomp policy
    /// that forbids creating one. Fails only when the timer fd cannot be
    /// created, with the OS error number.
    pub fn new(
        bytes_total_capacity: u64,
        bytes_one_time_burst: Option<u64>,
        bytes_complete_refill_time_ms: u64,
        ops_total_capacity: u64,
        ops_one_time_burst: Option<u64>,
        ops_complete_refill_time_ms: u64,
    ) -> (r: Result<Self, i32>)
        requires
            bytes_total_capacity != 0 && bytes_complete_refill_time_ms != 0
                ==> spec_processed_refill_time(bytes_total_capacity, bytes_complete_refill_time_ms)
                <= u64::MAX,
            ops_total_capacity != 0 && ops_complete_refill_time_ms != 0
                ==> spec_processed_refill_time(ops_total_capacity, ops_complete_refill_time_ms)
                <= u64::MAX,
        ensures
            match r {
                Ok(l) => {
                    &&& rate_limiter_wf(l@)
                    &&& !l@.timer_active
                    &&& exists|now: u64|
                        #![auto]
                        l@.bandwidth == spec_made_bucket(
                            bytes_total_capacity,
                            bytes_one_time_burst,
                            bytes_complete_refill_time_ms,
                            now,
                        )
                    &&& exists|now: u64|
                        #![auto]
                        l@.ops == spec_made_bucket(
                            ops_total_capacity,
                            ops_one_time_burst,
                            ops_complete_refill_time_ms,
                            now,
                        )
                    &&& (l@.bandwidth.is_some() <==> (bytes_total_capacity != 0
                        && bytes_complete_refill_time_ms != 0))
                    &&& (l@.ops.is_some() <==> (ops_total_capacity != 0
                        && ops_complete_refill_time_ms != 0))
                },
                Err(_) => true,
            },
    {
        let bytes_token_bucket = Self::make_bucket(
            bytes_total_capacity,
            bytes_one_time_burst,
            bytes_complete_refill_time_ms,
        );
        let ops_token_bucket = Self::make_bucket(
            ops_total_capacity,
            ops_one_time_burst,
            ops_complete_refill_time_ms,
        );
        let timer_fd = match timer_create() {
            Ok(t) => t,
            Err(e) => { return Err(e) },
        };
        Ok(
            RateLimiter {
                bandwidth: bytes_token_bucket,
                ops: ops_token_bucket,
                timer_fd,
                timer_active: false,
            },
        )
    }

    /// Attempts to consume tokens and returns whether that is possible.
    ///
    /// If rate limiting is disabled on the provided `token_type`, the call
    /// always succeeds and changes nothing. On a refused attempt the refill
    /// timer is armed, if it was not already, and the limiter blocks.
    pub fn consume(&mut self, tokens: u64, token_type: TokenType) -> (r: bool)
        requires
            rate_limiter_wf(old(self)@),
        ensures
            rate_limiter_wf(final(self)@),
            r ==> final(self)@.timer_active == old(self)@.timer_active,
            !r ==> final(self)@.timer_active,
            match token_type {
                TokenType::Bytes => {
                    &&& final(self)@.ops == old(self)@.ops
                    &&& match old(self)@.bandwidth {
                        Option::None => r && final(self)@.bandwidth == old(self)@.bandwidth,
                        Option::Some(b) => exists|now: u64|
                            #![auto]
                            final(self)@.bandwidth == Option::Some(spec_reduce(b, tokens, now).0)
                                && r == spec_reduce(b, tokens, now).1,
                    }
                },
                TokenType::Ops => {
                    &&& final(self)@.bandwidth == old(self)@.bandwidth
                    &&& match old(self)@.ops {
                        Option::None => r && final(self)@.ops == old(self)@.ops,
                        Option::Some(b) => exists|now: u64|
                            #![auto]
                            final(self)@.ops == Option::Some(spec_reduce(b, tokens, now).0) && r
                                == spec_reduce(b, tokens, now).1,
                    }
                },
            },
    {
        // Try to consume from the required token bucket; a missing bucket
        // means rate limiting is disabled on that token type.
        let success = match token_type {
            TokenType::Bytes => match &mut self.bandwidth {
                Option::Some(bucket) => bucket.reduce(tokens),
                Option::None => true,
            },
            TokenType::Ops => match &mut self.ops {
                Option::Some(bucket) => bucket.reduce(tokens),
                Option::None => true,
            },
        };
        // When we report budget is over, there will be no further calls here;
        // register a timer to replenish the bucket and resume processing, and
        // make sure there is only one running timer for this limiter.
        if !success && !self.timer_active {
            timer_arm_oneshot(&mut self.timer_fd, REFILL_TIMER_INTERVAL_MS);
            self.timer_active = true;
        }
        success
    }

    /// Adds tokens of `token_type` to their respective bucket.
    ///
    /// Can be used to *manually* add tokens to a bucket. Useful for
    /// reverting a `consume()` if needed.
    pub fn manual_replenish(&mut self, tokens: u64, token_type: TokenType)
        requires
            rate_limiter_wf(old(self)@),
            match token_type {
                TokenType::Bytes => match old(self)@.bandwidth {
                    Option::Some(b) => spec_burst(b) > 0 ==> spec_burst(b) + tokens <= u64::MAX,
                    Option::None => true,
                },
                TokenType::Ops => match old(self)@.ops {
                    Option::Some(b) => spec_burst(b) > 0 ==> spec_burst(b) + tokens <= u64::MAX,
                    Option::None => true,
                },
            },
        ensures
            rate_limiter_wf(final(self)@),
            final(self)@.timer_active == old(self)@.timer_active,
            match token_type {
                TokenType::Bytes => {
                    &&& final(self)@.ops == old(self)@.ops
                    &&& match old(self)@.bandwidth {
                        Option::None => final(self)@.bandwidth.is_none(),
                        Option::Some(b) => final(self)@.bandwidth == Option::Some(
                            spec_replenished(b, tokens),
                        ),
                    }
                },
                TokenType::Ops => {
                    &&& final(self)@.bandwidth == old(self)@.bandwidth
                    &&& match old(self)@.ops {
                        Option::None => final(self)@.ops.is_none(),
                        Option::Some(b) => final(self)@.ops == Option::Some(
                            spec_replenished(b, tokens),
                        ),
                    }
                },
            },
    {
        match token_type {
            TokenType::Bytes => match &mut self.bandwidth {
                Option::Some(bucket) => bucket.replenish(tokens),
                Option::None => {},
            },
            TokenType::Ops => match &mut self.ops {
                Option::Some(bucket) => bucket.replenish(tokens),
                Option::None => {},
            },
        }
    }

    /// Returns whether this rate limiter is blocked.
    ///
    /// The limiter blocks when a `consume()` fails because there was not
    /// enough budget for it; an event is generated on the timer fd when it
    /// unblocks.
    pub fn is_blocked(&self) -> (r: bool)
        ensures
            r == self@.timer_active,
    {
        self.timer_active
    }

    /// Reports whether the kernel-side refill timer is currently armed. The
    /// kernel disarms a one-shot timer when it fires, so this agrees with
    /// `is_blocked` from a refused consume until the timer expires.
    pub fn timer_fd_armed(&self) -> bool {
        timer_armed(&self.timer_fd)
    }

    /// Digests the expiration count the timer fd reported: no expirations
    /// give the spurious-event error and change nothing; one or more
    /// unblock the limiter.
    pub fn note_expirations(&mut self, expirations: u64) -> (r: Result<(), Error>)
        ensures
            expirations == 0 ==> final(self)@ == old(self)@ && (r matches Err(
                Error::SpuriousRateLimiterEvent(m),
            ) && m@ == "Rate limiter event handler called without a present timer"@),
            expirations > 0 ==> r is Ok && final(self)@ == (RateLimiterView {
                timer_active: false,
                ..old(self)@
            }),
    {
        match expirations {
            0 => Err(
                Error::SpuriousRateLimiterEvent(
                    "Rate limiter event handler called without a present timer",
                ),
            ),
            _ => {
                self.timer_active = false;
                Ok(())
            },
        }
    }

    /// This function needs to be called every time the timer fd fires.
    ///
    /// Reads the timer fd and hands the expiration count to
    /// `note_expirations`: zero expirations fail with the spurious-event
    /// error and change nothing, one or more unblock the limiter.
    pub fn event_handler(&mut self) -> (r: Result<(), Error>)
        ensures
            final(self)@.bandwidth == old(self)@.bandwidth,
            final(self)@.ops == old(self)@.ops,
            r.is_ok() ==> final(self)@ == (RateLimiterView {
                timer_active: false,
                ..old(self)@
            }),
            r.is_err() ==> final(self)@ == old(self)@,
            r.is_err() ==> (r matches Err(Error::SpuriousRateLimiterEvent(m)) && m@
                == "Rate limiter event handler called without a present timer"@),
    {
        let expirations = timer_read(&self.timer_fd);
        self.note_expirations(expirations)
    }

    /// The timer fd, for poll integration: the embedder watches it for
    /// readability and calls `event_handler` on each such event. Valid
    /// even while both token types are disabled, since the timer fd is
    /// always created.
    pub fn as_raw_fd(&self) -> i32 {
        timer_raw_fd(&self.timer_fd)
    }

    /// Updates the parameters of the token buckets associated with this RateLimiter.
    ///
    /// An absent argument leaves that bucket untouched; a supplied bucket is
    /// rebuilt through the same validation as the constructor, so a
    /// zero-sized or zero-refill bucket disables that token type. A rebuilt
    /// bucket starts off full: in-flight budget is not carried over (known
    /// issue kept).
    pub fn update_buckets(&mut self, bytes: Option<TokenBucket>, ops: Option<TokenBucket>)
        requires
            rate_limiter_wf(old(self)@),
            match bytes {
                Option::Some(b) => token_bucket_wf(b@),
                Option::None => true,
            },
            match ops {
                Option::Some(b) => token_bucket_wf(b@),
                Option::None => true,
            },
        ensures
            rate_limiter_wf(final(self)@),
            final(self)@.timer_active == old(self)@.timer_active,
            bytes.is_none() ==> final(self)@.bandwidth == old(self)@.bandwidth,
            ops.is_none() ==> final(self)@.ops == old(self)@.ops,
            match bytes {
                Option::Some(b) => exists|now: u64|
                    #![auto]
                    final(self)@.bandwidth == spec_made_bucket(
                        b@.size,
                        b@.one_time_burst,
                        b@.refill_time,
                        now,
                    ),
                Option::None => true,
            },
            match ops {
                Option::Some(b) => exists|now: u64|
                    #![auto]
                    final(self)@.ops == spec_made_bucket(
                        b@.size,
                        b@.one_time_burst,
                        b@.refill_time,
                        now,
                    ),
                Option::None => true,
            },
    {
        if let Option::Some(b) = bytes {
            self.bandwidth = Self::make_bucket(b.size, b.one_time_burst, b.refill_time);
        }
        if let Option::Some(b) = ops {
            self.ops = Self::make_bucket(b.size, b.one_time_burst, b.refill_time);
        }
    }

    /// Returns an immutable view of the inner bandwidth token bucket.
    pub fn bandwidth(&self) -> (r: Option<&TokenBucket>)
        ensures
            match r {
                Option::Some(b) => self@.bandwidth == Option::Some(b@),
                Option::None => self@.bandwidth.is_none(),
            },
    {
        match &self.bandwidth {
            Option::Some(b) => Option::Some(b),
            Option::None => Option::None,
        }
    }

    /// Returns an immutable view of the inner ops token bucket.
    pub fn ops(&self) -> (r: Option<&TokenBucket>)
        ensures
            match r {
                Option::Some(b) => self@.ops == Option::Some(b@),
                Option::None => self@.ops.is_none(),
            },
    {
        match &self.ops {
            Option::Some(b) => Option::Some(b),
            Option::None => Option::None,
        }
    }

    /// Returns the bucket serving the given token type.
    pub fn get_token_bucket(&self, token_type: TokenType) -> (r: Option<&TokenBucket>)
        ensures
            match token_type {
                TokenType::Bytes => match r {
                    Option::Some(b) => self@.bandwidth == Option::Some(b@),
                    Option::None => self@.bandwidth.is_none(),
                },
                TokenType::Ops => match r {
                    Option::Some(b) => self@.ops == Option::Some(b@),
                    Option::None => self@.ops.is_none(),
                },
            },
    {
        match token_type {
            TokenType::Bytes => self.bandwidth(),
            TokenType::Ops => self.ops(),
        }
    }
}

/// Euclid's algorithm, executable form.
pub fn gcd(x: u64, y: u64) -> (r: u64)
    ensures
        r as nat == spec_gcd(x as nat, y as nat),
{
    let ghost gx: nat = x as nat;
    let ghost gy: nat = y as nat;
    let mut x = x;
    let mut y = y;
    while y != 0
        invariant
            spec_gcd(x as nat, y as nat) == spec_gcd(gx, gy),
        decreases y,
    {
        let t = y;
        y = x % y;
        x = t;
    }
    x
}

} // verus!
