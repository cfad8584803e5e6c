//! Arithmetic on coefficients in a wider integer, so that only results have
//! to fit.
use crate::algebra::fits;
use vstd::arithmetic::power::{lemma0_pow, lemma_pow0, pow};
use vstd::prelude::*;

verus! {

/// The absolute value of `v`.
pub open spec fn magnitude(v: int) -> int {
    if v < 0 {
        -v
    } else {
        v
    }
}

/// The product of two integers that are no further from zero than a
/// coefficient can be is far inside the wide range.
pub proof fn lemma_product_bound(x: int, y: int)
    requires
        magnitude(x) <= 0x8000_0000_0000_0000,
        magnitude(y) <= 0x8000_0000_0000_0000,
    ensures
        -0x4000_0000_0000_0000_0000_0000_0000_0000 <= x * y
            <= 0x4000_0000_0000_0000_0000_0000_0000_0000,
{
    assert(-0x4000_0000_0000_0000_0000_0000_0000_0000 <= x * y
        <= 0x4000_0000_0000_0000_0000_0000_0000_0000) by (nonlinear_arith)
        requires
            -0x8000_0000_0000_0000 <= x <= 0x8000_0000_0000_0000,
            -0x8000_0000_0000_0000 <= y <= 0x8000_0000_0000_0000,
    ;
}

/// Multiplying by a non-zero integer never brings a value closer to zero.
pub proof fn lemma_product_grows(v: int, x: int)
    requires
        x != 0,
    ensures
        magnitude(v) <= magnitude(v * x),
{
    assert(magnitude(v) <= magnitude(v * x)) by (nonlinear_arith)
        requires
            x != 0,
    ;
}

/// For a non-zero `x`, `c * x^k` is no further from zero than `c * x^e`
/// when `k <= e`.
pub proof fn lemma_power_term_grows(c: int, x: int, k: nat, e: nat)
    requires
        x != 0,
        k <= e,
    ensures
        magnitude(c * pow(x, k)) <= magnitude(c * pow(x, e)),
    decreases e - k,
{
    if k < e {
        lemma_power_term_grows(c, x, k + 1, e);
        lemma_power_step(c, x, k);
        lemma_product_grows(c * pow(x, k), x);
    }
}

/// `c * x^(k + 1)` is `c * x^k` times `x`.
pub proof fn lemma_power_step(c: int, x: int, k: nat)
    ensures
        c * pow(x, k + 1) == (c * pow(x, k)) * x,
{
    reveal(pow);
    let lower = pow(x, k);
    assert(pow(x, k + 1) == x * lower);
    assert(c * (x * lower) == (c * lower) * x) by (nonlinear_arith);
}

/// `c * x`, `c * x^2`, `c * x^3` and `c * x^4` written as plain products.
pub proof fn lemma_power_terms(c: int, x: int)
    ensures
        c * pow(x, 0) == c,
        c * pow(x, 1) == c * x,
        c * pow(x, 2) == c * x * x,
        c * pow(x, 3) == c * x * x * x,
        c * pow(x, 4) == c * x * x * x * x,
{
    lemma_pow0(x);
    lemma_power_step(c, x, 0);
    lemma_power_step(c, x, 1);
    lemma_power_step(c, x, 2);
    lemma_power_step(c, x, 3);
}

/// The exact product of two coefficients.
pub fn mul_wide(x: i64, y: i64) -> (p: i128)
    ensures
        p == x * y,
        -0x4000_0000_0000_0000_0000_0000_0000_0000 <= p
            <= 0x4000_0000_0000_0000_0000_0000_0000_0000,
{
    proof {
        lemma_product_bound(x as int, y as int);
    }
    (x as i128) * (y as i128)
}

/// Brings a wide value that fits back to a coefficient.
pub fn narrow(v: i128) -> (c: i64)
    requires
        fits(v as int),
    ensures
        c == v,
{
    v as i64
}

/// The term `c * x^e`, computed by repeated multiplication.
pub fn power_term(c: i64, x: i64, e: u8) -> (t: i128)
    requires
        fits(c * pow(x as int, e as nat)),
    ensures
        t == c * pow(x as int, e as nat),
{
    if x == 0 {
        proof {
            lemma_pow0(0);
            if e > 0 {
                lemma0_pow(e as nat);
            }
        }
        return if e == 0 {
            c as i128
        } else {
            0
        };
    }
    let mut t: i128 = c as i128;
    let mut k: u8 = 0;
    proof {
        lemma_pow0(x as int);
    }
    while k < e
        invariant
            x != 0,
            k <= e,
            t == c * pow(x as int, k as nat),
            fits(c * pow(x as int, e as nat)),
        decreases e - k,
    {
        proof {
            lemma_power_term_grows(c as int, x as int, k as nat, e as nat);
            lemma_product_bound(t as int, x as int);
            lemma_power_step(c as int, x as int, k as nat);
        }
        t = t * (x as i128);
        k = k + 1;
    }
    t
}

} // verus!
