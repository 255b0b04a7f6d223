//! The exponential function in fixed-point arithmetic.
//!
//! A value `v` stands for the real number `v / RATIO_ONE`. The exponential is
//! the Taylor polynomial of degree [`SERIES_TERMS`], evaluated by Horner's rule
//! at one sixty-fourth of the argument and squared six times; every division
//! rounds down. It is defined for every argument, and computed wherever its
//! value is at most [`RATIO_CAP`].

use vstd::prelude::*;
use vstd::arithmetic::div_mod::{lemma_div_multiples_vanish, lemma_fundamental_div_mod, lemma_fundamental_div_mod_converse};
use crate::rounding::{lemma_floor_div_monotonic, lemma_product_bound};

verus! {

/// The fixed-point representation of the number one.
pub const RATIO_ONE: u64 = 1_000_000_000_000_000;

/// The degree of the Taylor polynomial.
pub const SERIES_TERMS: u64 = 18;

/// The number by which the argument is divided before the series, two to the
/// number of squarings.
pub const REDUCTION: u64 = 64;

/// The number of squarings after the series.
pub const SQUARINGS: u64 = 6;

/// The largest value of the exponential that [`exp`] returns, the
/// fixed-point representation of ten to the twenty-second.
pub const RATIO_CAP: u128 = 10_000_000_000_000_000_000_000_000_000_000_000_000;

/// The largest number whose fixed-point square is at most the cap.
pub const SQUARE_LIMIT: u128 = 100_000_000_000_000_000_000_000_000;

/// The part of the Horner evaluation inside the `k`-th nesting level:
/// `1 + y/(k+1) * (1 + y/(k+2) * (... (1 + y/SERIES_TERMS)))`, in fixed point.
pub open spec fn series_tail(y: nat, k: nat) -> nat
    decreases SERIES_TERMS - k,
{
    if k >= SERIES_TERMS {
        RATIO_ONE as nat
    } else {
        RATIO_ONE as nat + (y * series_tail(y, k + 1)) / ((k + 1) * RATIO_ONE as nat)
    }
}

/// The fixed-point square `s * s`.
pub open spec fn square_fixed(s: nat) -> nat {
    (s * s) / (RATIO_ONE as nat)
}

/// `s` squared `times` times in fixed point.
pub open spec fn squared(s: nat, times: nat) -> nat
    decreases times,
{
    if times == 0 {
        s
    } else {
        squared(square_fixed(s), (times - 1) as nat)
    }
}

/// The fixed-point exponential of `x`: the series at `x / 64`, squared six
/// times.
pub open spec fn exp_fixed(x: nat) -> nat {
    squared(series_tail(x / (REDUCTION as nat), 0), SQUARINGS as nat)
}

/// Every level of the series is at least one.
pub proof fn lemma_series_at_least_one(y: nat, k: nat)
    ensures
        RATIO_ONE <= series_tail(y, k),
{
}

/// For an argument up to one the series stays at or below three, and every
/// inner level at or below two.
pub proof fn lemma_series_bounds(y: nat, k: nat)
    requires
        y <= RATIO_ONE,
    ensures
        series_tail(y, k) <= 3 * RATIO_ONE,
        k >= 1 ==> series_tail(y, k) <= 2 * RATIO_ONE,
    decreases SERIES_TERMS - k,
{
    if k < SERIES_TERMS {
        lemma_series_bounds(y, k + 1);
        let s: nat = series_tail(y, k + 1);
        let one: nat = RATIO_ONE as nat;
        let d: nat = (k + 1) * one;
        let t: nat = (y * s) / d;
        lemma_product_bound(y, one, s, 2 * one);
        assert(d > 0) by (nonlinear_arith)
            requires
                d == (k + 1) * one,
                one > 0,
        ;
        lemma_fundamental_div_mod((y * s) as int, d as int);
        assert(t * d <= y * s) by (nonlinear_arith)
            requires
                y * s == d * t + (y * s) % d,
                (y * s) % d >= 0,
        ;
        assert(t * (k + 1) <= 2 * one) by (nonlinear_arith)
            requires
                t * d <= y * s,
                y * s <= one * (2 * one),
                d == (k + 1) * one,
                one > 0,
        ;
        assert(t <= 2 * one && (k >= 1 ==> t <= one)) by (nonlinear_arith)
            requires
                t * (k + 1) <= 2 * one,
        ;
    }
}

/// The series grows with its argument.
pub proof fn lemma_series_monotonic(y1: nat, y2: nat, k: nat)
    requires
        y1 <= y2,
    ensures
        series_tail(y1, k) <= series_tail(y2, k),
    decreases SERIES_TERMS - k,
{
    if k < SERIES_TERMS {
        lemma_series_monotonic(y1, y2, k + 1);
        let one: nat = RATIO_ONE as nat;
        let d: nat = (k + 1) * one;
        assert(d > 0) by (nonlinear_arith)
            requires
                d == (k + 1) * one,
                one > 0,
        ;
        lemma_product_bound(y1, y2, series_tail(y1, k + 1), series_tail(y2, k + 1));
        lemma_floor_div_monotonic(
            y1 * series_tail(y1, k + 1),
            y2 * series_tail(y2, k + 1),
            d,
        );
    }
}

/// At zero every level of the series is one.
pub proof fn lemma_series_of_zero(k: nat)
    ensures
        series_tail(0, k) == RATIO_ONE,
    decreases SERIES_TERMS - k,
{
    if k < SERIES_TERMS {
        lemma_series_of_zero(k + 1);
        let one: nat = RATIO_ONE as nat;
        let d: nat = (k + 1) * one;
        assert(0 * series_tail(0, k + 1) == 0) by (nonlinear_arith);
        assert(d > 0) by (nonlinear_arith)
            requires
                d == (k + 1) * one,
                one > 0,
        ;
        assert(0nat / d == 0) by (nonlinear_arith)
            requires
                d > 0,
        ;
    }
}

/// From one upward the series is at least two and a half.
pub proof fn lemma_series_from_one(y: nat)
    requires
        y >= RATIO_ONE,
    ensures
        series_tail(y, 0) >= 5 * (RATIO_ONE / 2),
{
    let one: nat = RATIO_ONE as nat;
    let half: nat = (RATIO_ONE / 2) as nat;
    let h2: nat = series_tail(y, 2);
    let h1: nat = series_tail(y, 1);
    lemma_series_at_least_one(y, 2);
    lemma_product_bound(one, y, one, h2);
    lemma_floor_div_monotonic(one * one, y * h2, 2 * one);
    assert(one * one == (2 * one) * half) by (nonlinear_arith)
        requires
            one == 2 * half,
    ;
    lemma_div_multiples_vanish(half as int, (2 * one) as int);
    assert(h1 >= one + half);
    lemma_product_bound(one, y, 3 * half, h1);
    lemma_floor_div_monotonic(one * (3 * half), y * h1, one);
    lemma_div_multiples_vanish((3 * half) as int, one as int);
    assert((0 + 1) * one == one) by (nonlinear_arith);
}

/// Squaring keeps the order and, from one upward, never falls below its
/// argument.
pub proof fn lemma_square_fixed(s1: nat, s2: nat)
    requires
        s1 <= s2,
    ensures
        square_fixed(s1) <= square_fixed(s2),
        RATIO_ONE <= s1 ==> s1 <= square_fixed(s1),
{
    let one: nat = RATIO_ONE as nat;
    lemma_product_bound(s1, s2, s1, s2);
    lemma_floor_div_monotonic(s1 * s1, s2 * s2, one);
    if one <= s1 {
        lemma_product_bound(s1, s1, one, s1);
        lemma_floor_div_monotonic(s1 * one, s1 * s1, one);
        lemma_div_multiples_vanish(s1 as int, one as int);
        assert(s1 * one == one * s1) by (nonlinear_arith);
    }
}

/// The square of a whole number is the whole number squared.
pub proof fn lemma_square_of_whole(n: nat)
    ensures
        square_fixed(n * RATIO_ONE as nat) == n * n * RATIO_ONE as nat,
{
    let one: nat = RATIO_ONE as nat;
    assert((n * one) * (n * one) == one * (n * n * one)) by (nonlinear_arith);
    lemma_div_multiples_vanish((n * n * one) as int, one as int);
}

/// Repeated squaring keeps the order and, from one upward, never falls below
/// its argument.
pub proof fn lemma_squared(s1: nat, s2: nat, times: nat)
    requires
        s1 <= s2,
    ensures
        squared(s1, times) <= squared(s2, times),
        RATIO_ONE <= s1 ==> s1 <= squared(s1, times),
    decreases times,
{
    if times > 0 {
        lemma_square_fixed(s1, s2);
        lemma_squared(square_fixed(s1), square_fixed(s2), (times - 1) as nat);
    }
}

/// One squared any number of times is one.
pub proof fn lemma_squared_one(times: nat)
    ensures
        squared(RATIO_ONE as nat, times) == RATIO_ONE,
    decreases times,
{
    if times > 0 {
        lemma_square_of_whole(1);
        lemma_squared_one((times - 1) as nat);
    }
}

/// The exponential grows with its argument.
pub proof fn lemma_exp_monotonic(x1: nat, x2: nat)
    requires
        x1 <= x2,
    ensures
        exp_fixed(x1) <= exp_fixed(x2),
{
    lemma_floor_div_monotonic(x1, x2, REDUCTION as nat);
    lemma_series_monotonic(x1 / (REDUCTION as nat), x2 / (REDUCTION as nat), 0);
    lemma_squared(
        series_tail(x1 / (REDUCTION as nat), 0),
        series_tail(x2 / (REDUCTION as nat), 0),
        SQUARINGS as nat,
    );
}

/// The exponential is at least one.
pub proof fn lemma_exp_at_least_one(x: nat)
    ensures
        RATIO_ONE <= exp_fixed(x),
{
    let s: nat = series_tail(x / (REDUCTION as nat), 0);
    lemma_series_at_least_one(x / (REDUCTION as nat), 0);
    lemma_squared(s, s, SQUARINGS as nat);
}

/// The exponential of zero is one.
pub proof fn lemma_exp_of_zero()
    ensures
        exp_fixed(0) == RATIO_ONE,
{
    lemma_series_of_zero(0);
    lemma_squared_one(SQUARINGS as nat);
}

/// From sixty-four upward the exponential exceeds the cap.
pub proof fn lemma_exp_beyond_cap(x: nat)
    requires
        x >= REDUCTION * RATIO_ONE,
    ensures
        exp_fixed(x) > RATIO_CAP,
{
    let one: nat = RATIO_ONE as nat;
    let y: nat = x / (REDUCTION as nat);
    let s: nat = series_tail(y, 0);
    lemma_floor_div_monotonic(REDUCTION as nat * one, x, REDUCTION as nat);
    lemma_series_from_one(y);
    let low: nat = 5 * (RATIO_ONE / 2) as nat;
    lemma_squared(low, s, 6);
    assert(square_fixed(low) >= 6 * one) by {
        assert(low * low == one * (6 * one) + 250_000_000_000_000 * one) by (nonlinear_arith)
            requires
                low == 2_500_000_000_000_000,
                one == 1_000_000_000_000_000,
        ;
        lemma_floor_div_monotonic(one * (6 * one), low * low, one);
        lemma_div_multiples_vanish((6 * one) as int, one as int);
    }
    lemma_squared(6 * one, square_fixed(low), 5);
    lemma_square_of_whole(6);
    lemma_square_of_whole(36);
    lemma_square_of_whole(1_296);
    lemma_square_of_whole(1_679_616);
    lemma_square_of_whole(2_821_109_907_456);
    assert(squared(low, 6) == squared(square_fixed(low), 5));
    assert(squared(6 * one, 5) == squared(36 * one, 4));
    assert(squared(36 * one, 4) == squared(1_296 * one, 3)) by {
        assert(36 * 36 * one == 1_296 * one);
    }
    assert(squared(1_296 * one, 3) == squared(1_679_616 * one, 2)) by {
        assert(1_296 * 1_296 * one == 1_679_616 * one);
    }
    assert(squared(1_679_616 * one, 2) == squared(2_821_109_907_456 * one, 1)) by {
        assert(1_679_616 * 1_679_616 * one == 2_821_109_907_456 * one);
    }
    assert(squared(2_821_109_907_456 * one, 1) == squared(
        2_821_109_907_456 * 2_821_109_907_456 * one,
        0,
    ));
    assert(2_821_109_907_456 * 2_821_109_907_456 * one > RATIO_CAP);
}

/// Squares a fixed-point number.
fn square(s: u128) -> (r: u128)
    requires
        s <= SQUARE_LIMIT,
    ensures
        r == square_fixed(s as nat),
        r <= RATIO_CAP,
{
    let one: u128 = RATIO_ONE as u128;
    let whole: u128 = s / one;
    let part: u128 = s % one;
    proof {
        let q: nat = whole as nat;
        let p: nat = part as nat;
        let n: nat = one as nat;
        lemma_fundamental_div_mod(s as int, one as int);
        lemma_product_bound(q, 100_000_000_000, q, 100_000_000_000);
        lemma_product_bound(q * q, 100_000_000_000 * 100_000_000_000, n, n);
        lemma_product_bound(q, 100_000_000_000, p, n);
        lemma_product_bound(p, n, p, n);
        assert(s * s == (q * q * n + 2 * q * p) * n + p * p) by (nonlinear_arith)
            requires
                s == n * q + p,
        ;
        lemma_fundamental_div_mod((p * p) as int, n as int);
        lemma_fundamental_div_mod_converse(
            (s * s) as int,
            n as int,
            (q * q * n + 2 * q * p + (p * p) / n) as int,
            ((p * p) % n) as int,
        );
        lemma_square_fixed(s as nat, SQUARE_LIMIT as nat);
        lemma_square_of_whole(100_000_000_000);
    }
    whole * whole * one + 2 * whole * part + part * part / one
}

/// The fixed-point exponential of `x`, or `None` where it exceeds the cap.
pub fn exp(x: u128) -> (r: Option<u128>)
    ensures
        match r {
            Some(k) => k == exp_fixed(x as nat) && RATIO_ONE <= k <= RATIO_CAP,
            None => exp_fixed(x as nat) > RATIO_CAP,
        },
{
    let y: u128 = x / (REDUCTION as u128);
    if y > RATIO_ONE as u128 {
        proof {
            lemma_fundamental_div_mod(x as int, REDUCTION as int);
            assert(x >= REDUCTION * RATIO_ONE) by (nonlinear_arith)
                requires
                    x == REDUCTION * (x as int / REDUCTION as int) + x as int % REDUCTION as int,
                    x as int % REDUCTION as int >= 0,
                    x as int / REDUCTION as int > RATIO_ONE,
            ;
            lemma_exp_beyond_cap(x as nat);
        }
        return None;
    }
    let mut acc: u128 = RATIO_ONE as u128;
    let mut k: u128 = SERIES_TERMS as u128;
    while k > 0
        invariant
            k <= SERIES_TERMS,
            y <= RATIO_ONE,
            acc == series_tail(y as nat, k as nat),
        decreases k,
    {
        proof {
            lemma_series_bounds(y as nat, k as nat);
            lemma_series_bounds(y as nat, (k - 1) as nat);
            lemma_product_bound(y as nat, RATIO_ONE as nat, acc as nat, 2 * RATIO_ONE as nat);
        }
        acc = RATIO_ONE as u128 + y * acc / (k * (RATIO_ONE as u128));
        k = k - 1;
    }
    proof {
        lemma_series_bounds(y as nat, 0);
        lemma_series_at_least_one(y as nat, 0);
    }
    let mut s: u128 = acc;
    let mut done: u64 = 0;
    while done < SQUARINGS
        invariant
            done <= SQUARINGS,
            RATIO_ONE <= s <= RATIO_CAP,
            exp_fixed(x as nat) == squared(s as nat, (SQUARINGS - done) as nat),
        decreases SQUARINGS - done,
    {
        if s > SQUARE_LIMIT {
            proof {
                let next: nat = square_fixed(s as nat);
                lemma_square_fixed((SQUARE_LIMIT + 1) as nat, s as nat);
                lemma_square_fixed(s as nat, s as nat);
                assert(square_fixed((SQUARE_LIMIT + 1) as nat) > RATIO_CAP) by {
                    let one: nat = RATIO_ONE as nat;
                    let limit: nat = SQUARE_LIMIT as nat;
                    assert((limit + 1) * (limit + 1) >= one * (RATIO_CAP + 1)) by (nonlinear_arith)
                        requires
                            limit == 100_000_000_000_000_000_000_000_000,
                            one == 1_000_000_000_000_000,
                            RATIO_CAP == 10_000_000_000_000_000_000_000_000_000_000_000_000,
                    ;
                    lemma_floor_div_monotonic(
                        one * (RATIO_CAP + 1) as nat,
                        (limit + 1) * (limit + 1),
                        one,
                    );
                    lemma_div_multiples_vanish((RATIO_CAP + 1) as int, one as int);
                }
                lemma_squared(next, next, (SQUARINGS - done - 1) as nat);
            }
            return None;
        }
        proof {
            lemma_square_fixed(s as nat, s as nat);
        }
        s = square(s);
        done = done + 1;
    }
    Some(s)
}

} // verus!
