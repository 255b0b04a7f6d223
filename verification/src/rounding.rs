//! Integer division that rounds up or to the nearest whole number.

use vstd::prelude::*;
use vstd::arithmetic::div_mod::{lemma_div_is_ordered, lemma_fundamental_div_mod};
use vstd::arithmetic::mul::lemma_mul_inequality;

verus! {

/// The quotient `a / b` rounded toward positive infinity: zero stays zero, and
/// any remainder counts as one more.
pub open spec fn ceil_div(a: nat, b: nat) -> nat
    recommends
        b > 0,
{
    if a % b == 0 {
        a / b
    } else {
        a / b + 1
    }
}

/// The quotient `a / b` rounded to the nearest whole number, halves upward.
pub open spec fn round_div(a: nat, b: nat) -> nat
    recommends
        b > 0,
{
    (2 * a + b) / (2 * b)
}

/// `ceil_div(a, b)` is the least `n` with `a <= n * b`.
pub proof fn lemma_ceil_div_is_least(a: nat, b: nat, n: nat)
    requires
        b > 0,
    ensures
        a <= ceil_div(a, b) * b,
        a <= n * b <==> ceil_div(a, b) <= n,
        a > 0 ==> (ceil_div(a, b) - 1) * b < a,
{
    let q: int = a as int / b as int;
    let r: int = a as int % b as int;
    lemma_fundamental_div_mod(a as int, b as int);
    assert(a == b * q + r);
    assert(0 <= r < b);
    assert(b * q == q * b) by (nonlinear_arith);
    assert((q + 1) * b == q * b + b) by (nonlinear_arith);
    assert((q - 1) * b == q * b - b) by (nonlinear_arith);
    let c: int = ceil_div(a, b) as int;
    if c <= n {
        assert(c * b <= n * b) by (nonlinear_arith)
            requires
                c <= n,
                b > 0,
        ;
    }
    if a <= n * b && c > n {
        assert(n * b <= (c - 1) * b) by (nonlinear_arith)
            requires
                n <= c - 1,
                b > 0,
        ;
    }
}

/// Rounding up keeps the order of the dividends.
pub proof fn lemma_ceil_div_monotonic(a1: nat, a2: nat, b: nat)
    requires
        b > 0,
        a1 <= a2,
    ensures
        ceil_div(a1, b) <= ceil_div(a2, b),
{
    lemma_ceil_div_is_least(a2, b, 0);
    lemma_ceil_div_is_least(a1, b, ceil_div(a2, b));
}

/// Rounding down keeps the order of the dividends.
pub proof fn lemma_floor_div_monotonic(a1: nat, a2: nat, b: nat)
    requires
        b > 0,
        a1 <= a2,
    ensures
        a1 / b <= a2 / b,
{
    lemma_div_is_ordered(a1 as int, a2 as int, b as int);
}

/// The product of two bounded factors is bounded by the product of the bounds.
pub proof fn lemma_product_bound(x: nat, x_max: nat, y: nat, y_max: nat)
    requires
        x <= x_max,
        y <= y_max,
    ensures
        x * y <= x_max * y_max,
{
    lemma_mul_inequality(x as int, x_max as int, y as int);
    assert(y * x_max == x_max * y) by (nonlinear_arith);
    lemma_mul_inequality(y as int, y_max as int, x_max as int);
    assert(y_max * x_max == x_max * y_max) by (nonlinear_arith);
}

/// Divides rounding toward positive infinity.
pub fn div_ceil(a: u128, b: u128) -> (q: u128)
    requires
        b > 0,
    ensures
        q == ceil_div(a as nat, b as nat),
{
    let whole: u128 = a / b;
    if a % b == 0 {
        whole
    } else {
        proof {
            lemma_fundamental_div_mod(a as int, b as int);
            assert(b * (a as int / b as int) >= a as int / b as int) by (nonlinear_arith)
                requires
                    b >= 1,
                    a as int / b as int >= 0,
            ;
        }
        whole + 1
    }
}

/// Divides rounding to the nearest whole number, halves upward.
pub fn div_round(a: u128, b: u128) -> (q: u128)
    requires
        b > 0,
        2 * a + 2 * b <= u128::MAX,
    ensures
        q == round_div(a as nat, b as nat),
{
    (2 * a + b) / (2 * b)
}

} // verus!
