//! The mathematics of coefficient sequences.
//!
//! Every polynomial kind is modelled by the sequence of its coefficients,
//! highest power first. The functions here say what sums, differences,
//! products and values of such sequences are; the kinds state their
//! contracts over them.
use vstd::arithmetic::power::{lemma_pow_adds, pow};
use vstd::prelude::*;

verus! {

/// Whether `v` can be held by a coefficient.
pub open spec fn fits(v: int) -> bool {
    i64::MIN <= v <= i64::MAX
}

/// The coefficient of `q` that lines up with position `i` of a sequence of
/// `n` coefficients when both end at the constant term; zero where `q` has
/// no such coefficient.
pub open spec fn aligned(q: Seq<int>, n: nat, i: int) -> int {
    let shift = n - q.len();
    if shift <= i < n {
        q[i - shift]
    } else {
        0
    }
}

/// The sum of `p` and a sequence `q` that is no longer than `p`.
pub open spec fn plus(p: Seq<int>, q: Seq<int>) -> Seq<int> {
    Seq::new(p.len(), |i: int| p[i] + aligned(q, p.len(), i))
}

/// The difference of `p` and a sequence `q` that is no longer than `p`.
pub open spec fn minus(p: Seq<int>, q: Seq<int>) -> Seq<int> {
    Seq::new(p.len(), |i: int| p[i] - aligned(q, p.len(), i))
}

/// The sum of the products `p[i] * q[k - i]` over the first `n` positions
/// `i` of `p` for which `q` has a position `k - i`.
pub open spec fn convolution_sum(p: Seq<int>, q: Seq<int>, k: int, n: nat) -> int
    decreases n,
{
    if n == 0 {
        0
    } else {
        let i = n - 1;
        convolution_sum(p, q, k, i as nat) + if 0 <= k - i < q.len() {
            p[i] * q[k - i]
        } else {
            0
        }
    }
}

/// The product of two non-empty sequences: their discrete convolution.
pub open spec fn product(p: Seq<int>, q: Seq<int>) -> Seq<int> {
    Seq::new((p.len() + q.len() - 1) as nat, |k: int| convolution_sum(p, q, k, p.len()))
}

/// The term of `p` at position `i`, taken at `x`.
pub open spec fn term_at(p: Seq<int>, x: int, i: int) -> int {
    p[i] * pow(x, (p.len() - 1 - i) as nat)
}

/// The sum of the first `n` terms of `p`, taken at `x`.
pub open spec fn partial_value(p: Seq<int>, x: int, n: nat) -> int
    decreases n,
{
    if n == 0 {
        0
    } else {
        partial_value(p, x, (n - 1) as nat) + term_at(p, x, n - 1)
    }
}

/// The value of the polynomial with coefficients `p` at `x`.
pub open spec fn value_at(p: Seq<int>, x: int) -> int {
    partial_value(p, x, p.len())
}

/// The coefficients of the derivative of a non-empty `p`, by the power
/// rule: each coefficient times its power, the constant term dropped.
pub open spec fn derived(p: Seq<int>) -> Seq<int> {
    Seq::new((p.len() - 1) as nat, |i: int| p[i] * (p.len() - 1 - i))
}

/// Whether every coefficient of `p` is zero.
pub open spec fn all_zero(p: Seq<int>) -> bool {
    forall|i: int| 0 <= i < p.len() ==> p[i] == 0
}

/// Whether every coefficient of `p` can be held.
pub open spec fn representable(p: Seq<int>) -> bool {
    forall|i: int| 0 <= i < p.len() ==> fits(#[trigger] p[i])
}

/// Whether the value of `p` at `x` can be computed term by term: every
/// term and the value itself can be held.
pub open spec fn evaluable(p: Seq<int>, x: int) -> bool {
    &&& forall|i: int| 0 <= i < p.len() ==> fits(#[trigger] term_at(p, x, i))
    &&& fits(value_at(p, x))
}

/// Subtracting what was added gives back the sequence.
pub proof fn lemma_minus_undoes_plus(p: Seq<int>, q: Seq<int>)
    ensures
        minus(plus(p, q), q) == p,
{
    assert(minus(plus(p, q), q) =~= p);
}

/// Adding what was subtracted gives back the sequence.
pub proof fn lemma_plus_undoes_minus(p: Seq<int>, q: Seq<int>)
    ensures
        plus(minus(p, q), q) == p,
{
    assert(plus(minus(p, q), q) =~= p);
}

/// Sums and differences have the length, and so the degree, of their
/// first operand.
pub proof fn lemma_sum_keeps_degree(p: Seq<int>, q: Seq<int>)
    ensures
        plus(p, q).len() == p.len(),
        minus(p, q).len() == p.len(),
{
}

/// The degree of a product is the sum of the degrees of its factors.
pub proof fn lemma_product_degree(p: Seq<int>, q: Seq<int>)
    requires
        p.len() >= 1,
        q.len() >= 1,
    ensures
        product(p, q).len() - 1 == (p.len() - 1) + (q.len() - 1),
{
}

/// A sequence with a coefficient that is not zero is not all zero.
pub proof fn lemma_nonzero_coefficient(p: Seq<int>, i: int)
    requires
        0 <= i < p.len(),
        p[i] != 0,
    ensures
        !all_zero(p),
{
}

/// The value of a sum is the sum of the values.
pub proof fn lemma_value_of_plus(p: Seq<int>, q: Seq<int>, x: int)
    requires
        q.len() <= p.len(),
    ensures
        value_at(plus(p, q), x) == value_at(p, x) + value_at(q, x),
{
    lemma_partial_value_of_plus(p, q, x, p.len());
}

/// The value of a difference is the difference of the values.
pub proof fn lemma_value_of_minus(p: Seq<int>, q: Seq<int>, x: int)
    requires
        q.len() <= p.len(),
    ensures
        value_at(minus(p, q), x) == value_at(p, x) - value_at(q, x),
{
    lemma_value_of_plus(minus(p, q), q, x);
    lemma_plus_undoes_minus(p, q);
}

/// The first `k` terms of a sum are the first `k` terms of `p` and those
/// terms of `q` that line up with them.
proof fn lemma_partial_value_of_plus(p: Seq<int>, q: Seq<int>, x: int, k: nat)
    requires
        q.len() <= p.len(),
        k <= p.len(),
    ensures
        partial_value(plus(p, q), x, k) == partial_value(p, x, k) + partial_value(
            q,
            x,
            if k >= p.len() - q.len() {
                (k - (p.len() - q.len())) as nat
            } else {
                0
            },
        ),
    decreases k,
{
    if k > 0 {
        lemma_partial_value_of_plus(p, q, x, (k - 1) as nat);
        let i = k - 1;
        let shift = p.len() - q.len();
        let power = pow(x, (p.len() - 1 - i) as nat);
        assert((p[i] + aligned(q, p.len(), i)) * power == p[i] * power + aligned(q, p.len(), i)
            * power) by (nonlinear_arith);
        if i >= shift {
            assert(term_at(q, x, i - shift) == q[i - shift] * power);
        } else {
            assert(0 * power == 0);
        }
    }
}

/// The value of a product is the product of the values.
pub proof fn lemma_value_of_product(p: Seq<int>, q: Seq<int>, x: int)
    requires
        p.len() >= 1,
        q.len() >= 1,
    ensures
        value_at(product(p, q), x) == value_at(p, x) * value_at(q, x),
{
    lemma_value_of_partial_product(p, q, x, p.len());
    assert(partial_product(p, q, p.len()) =~= product(p, q));
}

/// `q` times `c`, placed at position `s` of a sequence of `len` zeros.
spec fn embedded(q: Seq<int>, c: int, s: int, len: nat) -> Seq<int> {
    Seq::new(
        len,
        |k: int|
            if s <= k < s + q.len() {
                c * q[k - s]
            } else {
                0
            },
    )
}

/// The product in which only the first `t` coefficients of `p` take part.
spec fn partial_product(p: Seq<int>, q: Seq<int>, t: nat) -> Seq<int> {
    Seq::new((p.len() + q.len() - 1) as nat, |k: int| convolution_sum(p, q, k, t))
}

/// How many of the first `k` positions of a sequence lie in the `n`
/// positions from `s` on.
spec fn overlap(k: nat, s: nat, n: nat) -> nat {
    if k <= s {
        0
    } else if k >= s + n {
        n
    } else {
        (k - s) as nat
    }
}

/// The first `k` terms of an embedded sequence are the terms of `q` among
/// them, times `c` and the power of `x` that the embedding adds.
proof fn lemma_partial_value_of_embedded(q: Seq<int>, c: int, s: nat, len: nat, x: int, k: nat)
    requires
        s + q.len() <= len,
        k <= len,
    ensures
        partial_value(embedded(q, c, s as int, len), x, k) == c * pow(
            x,
            (len - s - q.len()) as nat,
        ) * partial_value(q, x, overlap(k, s, q.len())),
    decreases k,
{
    let e = embedded(q, c, s as int, len);
    let lift = pow(x, (len - s - q.len()) as nat);
    if k == 0 {
        assert(c * lift * 0 == 0);
    } else {
        lemma_partial_value_of_embedded(q, c, s, len, x, (k - 1) as nat);
        let i = k - 1;
        let before = partial_value(q, x, overlap(i as nat, s, q.len()));
        if s <= i < s + q.len() {
            let j = i - s;
            let low = pow(x, (q.len() - 1 - j) as nat);
            lemma_pow_adds(x, (len - s - q.len()) as nat, (q.len() - 1 - j) as nat);
            assert(pow(x, (len - 1 - i) as nat) == lift * low);
            assert(term_at(e, x, i) == (c * q[j]) * (lift * low));
            assert(term_at(q, x, j) == q[j] * low);
            assert(c * lift * before + (c * q[j]) * (lift * low) == c * lift * (before + q[j]
                * low)) by (nonlinear_arith);
        } else {
            assert(0 * pow(x, (len - 1 - i) as nat) == 0);
        }
    }
}

/// The value of a partial product is the value of the terms of `p` that
/// take part, times the value of `q`.
proof fn lemma_value_of_partial_product(p: Seq<int>, q: Seq<int>, x: int, t: nat)
    requires
        p.len() >= 1,
        q.len() >= 1,
        t <= p.len(),
    ensures
        value_at(partial_product(p, q, t), x) == partial_value(p, x, t) * value_at(q, x),
    decreases t,
{
    let len = (p.len() + q.len() - 1) as nat;
    let whole = value_at(q, x);
    if t == 0 {
        assert(partial_product(p, q, 0) =~= embedded(q, 0, 0, len));
        lemma_partial_value_of_embedded(q, 0, 0, len, x, len);
        assert(0 * pow(x, (len - q.len()) as nat) * whole == 0) by (nonlinear_arith);
        assert(0 * whole == 0);
    } else {
        let i = (t - 1) as nat;
        lemma_value_of_partial_product(p, q, x, i);
        let part = embedded(q, p[i as int], i as int, len);
        assert(partial_product(p, q, t) =~= plus(partial_product(p, q, i), part));
        lemma_value_of_plus(partial_product(p, q, i), part, x);
        lemma_partial_value_of_embedded(q, p[i as int], i, len, x, len);
        let lift = pow(x, (p.len() - 1 - i) as nat);
        assert(term_at(p, x, i as int) == p[i as int] * lift);
        assert(partial_value(p, x, i) * whole + p[i as int] * lift * whole == (partial_value(
            p,
            x,
            i,
        ) + p[i as int] * lift) * whole) by (nonlinear_arith);
    }
}

} // verus!
