//! Constructive reals: numbers given by an algorithm that approximates
//! them to any requested precision.
use crate::bigint::{trunc_div, BigInt};
use core::ops::Neg;
use crate::evaluation::constants::{one, zero};
use vstd::arithmetic::power2::pow2;
use vstd::prelude::*;
use vstd::string::StringExecFns;

verus! {

/// Errors that can occur while evaluating a constructive real.
#[derive(Debug, Clone, Copy, PartialEq, Eq, Structural)]
pub enum CRError {
    /// A long-running approximation was cancelled from another thread.
    Aborted,
    /// The requested precision needed more than 28 bits, which usually
    /// means a computation is diverging (e.g. division by zero).
    PrecisionOverflow,
}

impl CRError {
    /// The message of this error.
    pub fn to_string(&self) -> (r: String)
        ensures
            r@ == (match self {
                CRError::Aborted => "constructive real computation was aborted"@,
                CRError::PrecisionOverflow => "requested precision overflowed safe range"@,
            }),
    {
        match self {
            CRError::Aborted => String::from_str("constructive real computation was aborted"),
            CRError::PrecisionOverflow => String::from_str(
                "requested precision overflowed safe range",
            ),
        }
    }
}

/// A constructive real: a number given by an algorithm that produces an
/// approximation on demand.
///
/// `approximate(precision)` is meant to return a `result` with
/// `|true_value - result * 2^precision| <= 1`; `precision` is a (typically
/// negative) power-of-two exponent.
pub trait CR: Send + Sync {
    /// An approximation of the constructive real at the requested precision.
    fn approximate(&self, precision: i32) -> BigInt;
}

/// The precision `n` is at least a factor of 8 (3 bits) away from
/// overflowing an `i32`: `-2^28 <= n < 2^28`.
pub open spec fn precision_ok(n: i32) -> bool {
    -0x1000_0000 <= n < 0x1000_0000
}

/// Checks that `n` is at least a factor of 8 (3 bits) away from overflowing
/// the `i32` that holds a precision: bits 28 and 29 of `n` must agree.
pub fn check_prec(n: i32) -> (r: Result<(), CRError>)
    ensures
        r is Ok <==> precision_ok(n),
        r matches Err(e) ==> e == CRError::PrecisionOverflow,
{
    let high = n >> 28;
    let high_shifted = n >> 29;
    assert((n >> 28) ^ (n >> 29) == 0 <==> -0x1000_0000 <= n < 0x1000_0000) by (bit_vector);
    if high ^ high_shifted != 0 {
        Err(CRError::PrecisionOverflow)
    } else {
        Ok(())
    }
}

/// Multiplies `k` by `2^n`: exact when `n >= 0`, truncated toward zero
/// (no rounding) when `n < 0`.
pub fn shift(k: BigInt, n: i32) -> (r: BigInt)
    requires
        n > i32::MIN,
    ensures
        n >= 0 ==> r@ == k@ * pow2(n as nat),
        n < 0 ==> r@ == trunc_div(k@, pow2((-n) as nat) as int),
{
    if n >= 0 {
        k << (n as usize)
    } else if k < zero() {
        let magnitude = (&k).neg();
        let shifted = magnitude >> ((-n) as usize);
        (&shifted).neg()
    } else {
        k >> ((-n) as usize)
    }
}

/// `k * 2^n`, rounded to the nearest integer with ties up when `n < 0`.
pub open spec fn scaled_appr(k: int, n: int) -> int {
    if n >= 0 {
        k * pow2(n as nat)
    } else {
        (k + pow2((-n - 1) as nat)) / (pow2((-n) as nat) as int)
    }
}

/// Multiplies `k` by `2^n` like `shift`, but rounds to the nearest integer
/// (ties up) rather than down when `n < 0`.
pub fn scale(k: BigInt, n: i32) -> (r: BigInt)
    ensures
        r@ == scaled_appr(k@, n as int),
{
    if n >= 0 {
        k << (n as usize)
    } else {
        // `k` divided by `2^(-n-1)`, rounded down; then plus one, halved.
        let shifted = &k >> ((-(n + 1)) as usize);
        let adjusted = &shifted + &one();
        proof {
            let m = (-n - 1) as nat;
            let p = pow2(m) as int;
            vstd::arithmetic::power2::lemma_pow2_unfold((m + 1) as nat);
            vstd::arithmetic::power2::lemma_pow2_pos(m);
            vstd::arithmetic::power2::lemma2_to64();
            vstd::arithmetic::div_mod::lemma_fundamental_div_mod(k@, p);
            let q = k@ / p;
            let r = k@ % p;
            assert((-(n + 1)) as nat == m);
            assert(shifted@ == q);
            vstd::arithmetic::div_mod::lemma_fundamental_div_mod(q + 1, 2);
            let a = (q + 1) / 2;
            let b = (q + 1) % 2;
            assert(k@ + p == a * (2 * p) + (b * p + r) && 0 <= b * p + r < 2 * p)
                by (nonlinear_arith)
                requires
                    k@ == p * q + r,
                    q + 1 == 2 * a + b,
                    0 <= b < 2,
                    0 <= r < p,
            ;
            vstd::arithmetic::div_mod::lemma_fundamental_div_mod_converse(
                k@ + p,
                2 * p,
                a,
                b * p + r,
            );
        }
        adjusted >> 1usize
    }
}

/// The memoized approximation of a constructive real: the finest precision
/// computed so far and the approximation there.
#[derive(Debug)]
pub struct ApprCache {
    /// The finest (most negative) precision computed so far.
    pub min_prec: i32,
    /// The cached approximation at `min_prec`.
    pub max_appr: BigInt,
    /// Whether `min_prec` / `max_appr` currently hold a usable value.
    pub appr_valid: bool,
}

impl Default for ApprCache {
    fn default() -> (r: ApprCache)
        ensures
            r.min_prec == 0,
            r.max_appr@ == 0,
            !r.appr_valid,
    {
        ApprCache { min_prec: 0, max_appr: zero(), appr_valid: false }
    }
}

impl ApprCache {
    /// The approximation at `precision` that the cache can give: when it
    /// holds one at a precision at least as fine, that approximation scaled
    /// (rounded) to `precision`; `None` otherwise.
    pub fn lookup(&self, precision: i32) -> (r: Option<BigInt>)
        requires
            precision_ok(precision),
            self.appr_valid ==> precision_ok(self.min_prec),
        ensures
            (self.appr_valid && precision >= self.min_prec) <==> r is Some,
            r matches Some(v) ==> v@ == scaled_appr(self.max_appr@, self.min_prec - precision),
    {
        if self.appr_valid && precision >= self.min_prec {
            Some(scale(self.max_appr.clone(), self.min_prec - precision))
        } else {
            None
        }
    }

    /// Remembers `appr` as the approximation at `precision`.
    pub fn store(&mut self, precision: i32, appr: BigInt)
        ensures
            final(self).min_prec == precision,
            final(self).max_appr@ == appr@,
            final(self).appr_valid,
    {
        self.min_prec = precision;
        self.max_appr = appr;
        self.appr_valid = true;
    }

    /// The approximation of `inner` at `precision`, through the cache: when
    /// the cache holds one at a precision at least as fine, that one scaled
    /// (rounded) to `precision`, and the cache is left as it is; otherwise
    /// `inner.approximate(precision)`, which the cache then remembers.
    pub fn get_appr<T: CR>(&mut self, inner: &T, precision: i32) -> (r: BigInt)
        requires
            precision_ok(precision),
            old(self).appr_valid ==> precision_ok(old(self).min_prec),
        ensures
            get_appr_step(*old(self), precision as int, r@, *final(self)),
            !cache_hit(*old(self), precision as int) ==> call_ensures(
                T::approximate,
                (inner, precision),
                r,
            ),
    {
        match self.lookup(precision) {
            Some(v) => v,
            None => {
                let result = inner.approximate(precision);
                self.store(precision, result.clone());
                result
            },
        }
    }
}

/// The cache holds an approximation at `precision` or finer.
pub open spec fn cache_hit(c: ApprCache, precision: int) -> bool {
    c.appr_valid && precision >= c.min_prec
}

/// What a call of `get_appr` at `precision` that returned `r` did to the
/// cache, as its contract states it (apart from the call of `approximate`
/// on a miss).
pub open spec fn get_appr_step(before: ApprCache, precision: int, r: int, after: ApprCache) -> bool {
    &&& cache_hit(before, precision) ==> r == scaled_appr(
        before.max_appr@,
        before.min_prec - precision,
    ) && after == before
    &&& !cache_hit(before, precision) ==> after.min_prec == precision && after.max_appr@ == r
        && after.appr_valid
}

/// The least element of a non-empty sequence.
pub open spec fn seq_min(s: Seq<int>) -> int
    decreases s.len(),
{
    if s.len() <= 1 {
        s[0]
    } else if s.last() < seq_min(s.drop_last()) {
        s.last()
    } else {
        seq_min(s.drop_last())
    }
}

/// The first `n` calls of a sequence leave the cache holding the value
/// computed at the finest precision among them.
proof fn lemma_calls_prefix(
    caches: Seq<ApprCache>,
    precs: Seq<int>,
    results: Seq<int>,
    n: int,
)
    requires
        1 <= n <= precs.len(),
        caches.len() == precs.len() + 1,
        results.len() == precs.len(),
        !caches[0].appr_valid,
        forall|i: int|
            0 <= i < precs.len() ==> #[trigger] get_appr_step(
                caches[i],
                precs[i],
                results[i],
                caches[i + 1],
            ),
    ensures
        caches[n].appr_valid,
        caches[n].min_prec == seq_min(precs.take(n)),
        exists|j: int|
            0 <= j < n && precs[j] == seq_min(precs.take(n)) && !cache_hit(caches[j], precs[j])
                && #[trigger] results[j] == caches[n].max_appr@,
    decreases n,
{
    let i = n - 1;
    assert(get_appr_step(caches[i], precs[i], results[i], caches[i + 1]));
    assert(i + 1 == n);
    assert(precs.take(n).drop_last() =~= precs.take(n - 1));
    assert(precs.take(n).last() == precs[n - 1]);
    if n == 1 {
        assert(results[0] == caches[1].max_appr@);
    } else {
        lemma_calls_prefix(caches, precs, results, n - 1);
        let j = choose|j: int|
            0 <= j < n - 1 && precs[j] == seq_min(precs.take(n - 1)) && !cache_hit(
                caches[j],
                precs[j],
            ) && #[trigger] results[j] == caches[n - 1].max_appr@;
        if cache_hit(caches[n - 1], precs[n - 1]) {
            assert(results[j] == caches[n].max_appr@);
        } else {
            assert(results[n - 1] == caches[n].max_appr@);
        }
    }
}

/// Over any sequence of `get_appr` calls on a cache that held nothing, the
/// cache ends holding the approximation computed (by a call of
/// `approximate`, on a miss) at the finest precision requested. So a later
/// request at that precision or a coarser one is a hit, answered by
/// rescaling that approximation without calling `approximate`; a finer
/// request is a miss.
pub proof fn get_appr_calls_keep_the_finest(
    caches: Seq<ApprCache>,
    precs: Seq<int>,
    results: Seq<int>,
)
    requires
        precs.len() >= 1,
        caches.len() == precs.len() + 1,
        results.len() == precs.len(),
        !caches[0].appr_valid,
        forall|i: int|
            0 <= i < precs.len() ==> #[trigger] get_appr_step(
                caches[i],
                precs[i],
                results[i],
                caches[i + 1],
            ),
    ensures
        caches.last().appr_valid,
        caches.last().min_prec == seq_min(precs),
        exists|j: int|
            0 <= j < precs.len() && precs[j] == seq_min(precs) && !cache_hit(caches[j], precs[j])
                && #[trigger] results[j] == caches.last().max_appr@,
        forall|p: int| #[trigger] cache_hit(caches.last(), p) <==> p >= seq_min(precs),
{
    lemma_calls_prefix(caches, precs, results, precs.len() as int);
    assert(precs.take(precs.len() as int) =~= precs);
}

/// After an approximation at `precision` is obtained through the cache,
/// the cache holds one at `precision` or finer that scales to the same
/// value: a repeated call at `precision` returns the same approximation
/// without calling `approximate` again.
pub proof fn repeated_get_appr_hits_the_cache(
    before: ApprCache,
    after: ApprCache,
    precision: int,
    r: int,
)
    requires
        cache_hit(before, precision) ==> r == scaled_appr(
            before.max_appr@,
            before.min_prec - precision,
        ) && after == before,
        !cache_hit(before, precision) ==> after.min_prec == precision && after.max_appr@ == r
            && after.appr_valid,
    ensures
        cache_hit(after, precision),
        scaled_appr(after.max_appr@, after.min_prec - precision) == r,
{
    if !cache_hit(before, precision) {
        vstd::arithmetic::power2::lemma2_to64();
        assert(after.min_prec - precision == 0);
        assert(scaled_appr(r, 0) == r * 1);
    }
}

} // verus!
