//! Polynomials of degree four.
use crate::algebra::{
    all_zero,
    convolution_sum,
    derived,
    evaluable,
    fits,
    minus,
    partial_value,
    plus,
    product,
    representable,
    term_at,
    value_at,
};
use crate::cubic::Cubic;
use crate::format::{
    constant_term,
    leading_term,
    lemma_zero_renders_empty,
    middle_term,
    numeral_of,
    numerals_of,
    render,
    rendered,
    rendered_prefix,
    suffix_of,
    views_of,
    Numeral,
};
use crate::linear::Linear;
use crate::polynomial::{Differentiable, Polynomial};
use crate::quadratic::Quadratic;
use crate::wide::{lemma_power_terms, mul_wide, narrow, power_term};
use vstd::prelude::*;
use vstd::std_specs::ops::{AddSpec, SubSpec};

verus! {

/// The polynomial `ax^4 + bx^3 + cx^2 + dx + e`.
#[derive(Debug, Clone, Copy, PartialEq, Eq, Structural)]
pub struct Quartic {
    pub a: i64,
    pub b: i64,
    pub c: i64,
    pub d: i64,
    pub e: i64,
}

impl View for Quartic {
    type V = Seq<int>;

    open spec fn view(&self) -> Seq<int> {
        seq![self.a as int, self.b as int, self.c as int, self.d as int, self.e as int]
    }
}

impl core::ops::Add<Quartic> for Quartic {
    type Output = Quartic;

    /// Adds coefficient by coefficient.
    fn add(self, other: Quartic) -> (sum: Quartic)
        ensures
            sum@ == plus(self@, other@),
    {
        Quartic {
            a: self.a + other.a,
            b: self.b + other.b,
            c: self.c + other.c,
            d: self.d + other.d,
            e: self.e + other.e,
        }
    }
}

impl vstd::std_specs::ops::AddSpecImpl<Quartic> for Quartic {
    open spec fn obeys_add_spec() -> bool {
        true
    }

    /// Every coefficient of the sum can be held.
    open spec fn add_req(self, other: Quartic) -> bool {
        &&& fits(self.a + other.a)
        &&& fits(self.b + other.b)
        &&& fits(self.c + other.c)
        &&& fits(self.d + other.d)
        &&& fits(self.e + other.e)
    }

    open spec fn add_spec(self, other: Quartic) -> Quartic {
        Quartic {
            a: (self.a + other.a) as i64,
            b: (self.b + other.b) as i64,
            c: (self.c + other.c) as i64,
            d: (self.d + other.d) as i64,
            e: (self.e + other.e) as i64,
        }
    }
}

impl core::ops::Add<Cubic> for Quartic {
    type Output = Quartic;

    /// Adds a cubic to the low-order terms.
    fn add(self, other: Cubic) -> (sum: Quartic)
        ensures
            sum@ == plus(self@, other@),
    {
        Quartic {
            a: self.a,
            b: self.b + other.a,
            c: self.c + other.b,
            d: self.d + other.c,
            e: self.e + other.d,
        }
    }
}

impl vstd::std_specs::ops::AddSpecImpl<Cubic> for Quartic {
    open spec fn obeys_add_spec() -> bool {
        true
    }

    /// Every changed coefficient of the sum can be held.
    open spec fn add_req(self, other: Cubic) -> bool {
        &&& fits(self.b + other.a)
        &&& fits(self.c + other.b)
        &&& fits(self.d + other.c)
        &&& fits(self.e + other.d)
    }

    open spec fn add_spec(self, other: Cubic) -> Quartic {
        Quartic {
            a: self.a,
            b: (self.b + other.a) as i64,
            c: (self.c + other.b) as i64,
            d: (self.d + other.c) as i64,
            e: (self.e + other.d) as i64,
        }
    }
}

impl core::ops::Add<Quadratic> for Quartic {
    type Output = Quartic;

    /// Adds a quadratic to the low-order terms.
    fn add(self, other: Quadratic) -> (sum: Quartic)
        ensures
            sum@ == plus(self@, other@),
    {
        Quartic {
            a: self.a,
            b: self.b,
            c: self.c + other.a,
            d: self.d + other.b,
            e: self.e + other.c,
        }
    }
}

impl vstd::std_specs::ops::AddSpecImpl<Quadratic> for Quartic {
    open spec fn obeys_add_spec() -> bool {
        true
    }

    /// Every changed coefficient of the sum can be held.
    open spec fn add_req(self, other: Quadratic) -> bool {
        &&& fits(self.c + other.a)
        &&& fits(self.d + other.b)
        &&& fits(self.e + other.c)
    }

    open spec fn add_spec(self, other: Quadratic) -> Quartic {
        Quartic {
            a: self.a,
            b: self.b,
            c: (self.c + other.a) as i64,
            d: (self.d + other.b) as i64,
            e: (self.e + other.c) as i64,
        }
    }
}

impl core::ops::Add<Linear> for Quartic {
    type Output = Quartic;

    /// Adds a linear to the low-order terms.
    fn add(self, other: Linear) -> (sum: Quartic)
        ensures
            sum@ == plus(self@, other@),
    {
        Quartic { a: self.a, b: self.b, c: self.c, d: self.d + other.a, e: self.e + other.b }
    }
}

impl vstd::std_specs::ops::AddSpecImpl<Linear> for Quartic {
    open spec fn obeys_add_spec() -> bool {
        true
    }

    /// Every changed coefficient of the sum can be held.
    open spec fn add_req(self, other: Linear) -> bool {
        &&& fits(self.d + other.a)
        &&& fits(self.e + other.b)
    }

    open spec fn add_spec(self, other: Linear) -> Quartic {
        Quartic {
            a: self.a,
            b: self.b,
            c: self.c,
            d: (self.d + other.a) as i64,
            e: (self.e + other.b) as i64,
        }
    }
}

impl core::ops::Add<i64> for Quartic {
    type Output = Quartic;

    /// Adds a number to the constant term.
    fn add(self, other: i64) -> (sum: Quartic)
        ensures
            sum@ == plus(self@, seq![other as int]),
    {
        Quartic { a: self.a, b: self.b, c: self.c, d: self.d, e: self.e + other }
    }
}

impl vstd::std_specs::ops::AddSpecImpl<i64> for Quartic {
    open spec fn obeys_add_spec() -> bool {
        true
    }

    /// The constant term of the sum can be held.
    open spec fn add_req(self, other: i64) -> bool {
        fits(self.e + other)
    }

    open spec fn add_spec(self, other: i64) -> Quartic {
        Quartic { a: self.a, b: self.b, c: self.c, d: self.d, e: (self.e + other) as i64 }
    }
}

impl core::ops::Sub<Quartic> for Quartic {
    type Output = Quartic;

    /// Subtracts coefficient by coefficient.
    fn sub(self, other: Quartic) -> (difference: Quartic)
        ensures
            difference@ == minus(self@, other@),
    {
        Quartic {
            a: self.a - other.a,
            b: self.b - other.b,
            c: self.c - other.c,
            d: self.d - other.d,
            e: self.e - other.e,
        }
    }
}

impl vstd::std_specs::ops::SubSpecImpl<Quartic> for Quartic {
    open spec fn obeys_sub_spec() -> bool {
        true
    }

    /// Every coefficient of the difference can be held.
    open spec fn sub_req(self, other: Quartic) -> bool {
        &&& fits(self.a - other.a)
        &&& fits(self.b - other.b)
        &&& fits(self.c - other.c)
        &&& fits(self.d - other.d)
        &&& fits(self.e - other.e)
    }

    open spec fn sub_spec(self, other: Quartic) -> Quartic {
        Quartic {
            a: (self.a - other.a) as i64,
            b: (self.b - other.b) as i64,
            c: (self.c - other.c) as i64,
            d: (self.d - other.d) as i64,
            e: (self.e - other.e) as i64,
        }
    }
}

impl core::ops::Sub<Cubic> for Quartic {
    type Output = Quartic;

    /// Subtracts a cubic from the low-order terms.
    fn sub(self, other: Cubic) -> (difference: Quartic)
        ensures
            difference@ == minus(self@, other@),
    {
        Quartic {
            a: self.a,
            b: self.b - other.a,
            c: self.c - other.b,
            d: self.d - other.c,
            e: self.e - other.d,
        }
    }
}

impl vstd::std_specs::ops::SubSpecImpl<Cubic> for Quartic {
    open spec fn obeys_sub_spec() -> bool {
        true
    }

    /// Every changed coefficient of the difference can be held.
    open spec fn sub_req(self, other: Cubic) -> bool {
        &&& fits(self.b - other.a)
        &&& fits(self.c - other.b)
        &&& fits(self.d - other.c)
        &&& fits(self.e - other.d)
    }

    open spec fn sub_spec(self, other: Cubic) -> Quartic {
        Quartic {
            a: self.a,
            b: (self.b - other.a) as i64,
            c: (self.c - other.b) as i64,
            d: (self.d - other.c) as i64,
            e: (self.e - other.d) as i64,
        }
    }
}

impl core::ops::Sub<Quadratic> for Quartic {
    type Output = Quartic;

    /// Subtracts a quadratic from the low-order terms.
    fn sub(self, other: Quadratic) -> (difference: Quartic)
        ensures
            difference@ == minus(self@, other@),
    {
        Quartic {
            a: self.a,
            b: self.b,
            c: self.c - other.a,
            d: self.d - other.b,
            e: self.e - other.c,
        }
    }
}

impl vstd::std_specs::ops::SubSpecImpl<Quadratic> for Quartic {
    open spec fn obeys_sub_spec() -> bool {
        true
    }

    /// Every changed coefficient of the difference can be held.
    open spec fn sub_req(self, other: Quadratic) -> bool {
        &&& fits(self.c - other.a)
        &&& fits(self.d - other.b)
        &&& fits(self.e - other.c)
    }

    open spec fn sub_spec(self, other: Quadratic) -> Quartic {
        Quartic {
            a: self.a,
            b: self.b,
            c: (self.c - other.a) as i64,
            d: (self.d - other.b) as i64,
            e: (self.e - other.c) as i64,
        }
    }
}

impl core::ops::Sub<Linear> for Quartic {
    type Output = Quartic;

    /// Subtracts a linear from the low-order terms.
    fn sub(self, other: Linear) -> (difference: Quartic)
        ensures
            difference@ == minus(self@, other@),
    {
        Quartic { a: self.a, b: self.b, c: self.c, d: self.d - other.a, e: self.e - other.b }
    }
}

impl vstd::std_specs::ops::SubSpecImpl<Linear> for Quartic {
    open spec fn obeys_sub_spec() -> bool {
        true
    }

    /// Every changed coefficient of the difference can be held.
    open spec fn sub_req(self, other: Linear) -> bool {
        &&& fits(self.d - other.a)
        &&& fits(self.e - other.b)
    }

    open spec fn sub_spec(self, other: Linear) -> Quartic {
        Quartic {
            a: self.a,
            b: self.b,
            c: self.c,
            d: (self.d - other.a) as i64,
            e: (self.e - other.b) as i64,
        }
    }
}

impl core::ops::Sub<i64> for Quartic {
    type Output = Quartic;

    /// Subtracts a number from the constant term.
    fn sub(self, other: i64) -> (difference: Quartic)
        ensures
            difference@ == minus(self@, seq![other as int]),
    {
        Quartic { a: self.a, b: self.b, c: self.c, d: self.d, e: self.e - other }
    }
}

impl vstd::std_specs::ops::SubSpecImpl<i64> for Quartic {
    open spec fn obeys_sub_spec() -> bool {
        true
    }

    /// The constant term of the difference can be held.
    open spec fn sub_req(self, other: i64) -> bool {
        fits(self.e - other)
    }

    open spec fn sub_spec(self, other: i64) -> Quartic {
        Quartic { a: self.a, b: self.b, c: self.c, d: self.d, e: (self.e - other) as i64 }
    }
}

impl core::ops::Mul<i64> for Quartic {
    type Output = Quartic;

    /// Multiplies every coefficient by a number.
    fn mul(self, other: i64) -> (prod: Quartic)
        ensures
            prod@ == product(self@, seq![other as int]),
    {
        let a = narrow(mul_wide(self.a, other));
        let b = narrow(mul_wide(self.b, other));
        let c = narrow(mul_wide(self.c, other));
        let d = narrow(mul_wide(self.d, other));
        let e = narrow(mul_wide(self.e, other));
        proof {
            reveal_with_fuel(convolution_sum, 6);
        }
        Quartic { a, b, c, d, e }
    }
}

impl vstd::std_specs::ops::MulSpecImpl<i64> for Quartic {
    open spec fn obeys_mul_spec() -> bool {
        true
    }

    /// Every coefficient of the product can be held.
    open spec fn mul_req(self, other: i64) -> bool {
        &&& fits(self.a * other)
        &&& fits(self.b * other)
        &&& fits(self.c * other)
        &&& fits(self.d * other)
        &&& fits(self.e * other)
    }

    open spec fn mul_spec(self, other: i64) -> Quartic {
        Quartic {
            a: (self.a * other) as i64,
            b: (self.b * other) as i64,
            c: (self.c * other) as i64,
            d: (self.d * other) as i64,
            e: (self.e * other) as i64,
        }
    }
}

impl Polynomial for Quartic {
    /// Evaluates `ax^4 + bx^3 + cx^2 + dx + e` by substituting `x`.
    fn evaluate(&self, x: i64) -> (y: i64)
        ensures
            y == self.value(x as int),
    {
        proof {
            self.lemma_evaluate(x as int);
            lemma_power_terms(self.a as int, x as int);
            lemma_power_terms(self.b as int, x as int);
            lemma_power_terms(self.c as int, x as int);
            lemma_power_terms(self.d as int, x as int);
        }
        let t4 = power_term(self.a, x, 4);
        let t3 = power_term(self.b, x, 3);
        let t2 = power_term(self.c, x, 2);
        let t1 = power_term(self.d, x, 1);
        narrow(t4 + t3 + t2 + t1 + self.e as i128)
    }

    fn is_zero(&self) -> (zero: bool)
        ensures
            zero <==> self.a == 0 && self.b == 0 && self.c == 0 && self.d == 0 && self.e == 0,
    {
        proof {
            if all_zero(self@) {
                assert(self@[0] == 0 && self@[1] == 0 && self@[2] == 0);
                assert(self@[3] == 0 && self@[4] == 0);
            }
        }
        self.a == 0 && self.b == 0 && self.c == 0 && self.d == 0 && self.e == 0
    }

    fn degree(&self) -> (d: u8)
        ensures
            d == 4,
    {
        4
    }
}

impl Differentiable for Quartic {
    type Derivative = Cubic;

    open spec fn coefficients_of(d: Cubic) -> Seq<int> {
        d@
    }

    /// The cubic `4ax^3 + 3bx^2 + 2cx + d`.
    fn derivative(&self) -> (d: Cubic)
        ensures
            d.a == 4 * self.a,
            d.b == 3 * self.b,
            d.c == 2 * self.c,
            d.d == self.d,
    {
        proof {
            let slopes = derived(self@);
            assert(fits(slopes[0]) && fits(slopes[1]) && fits(slopes[2]));
            assert(slopes[0] == self.a * 4 && slopes[1] == self.b * 3);
            assert(slopes[2] == self.c * 2 && slopes[3] == self.d * 1);
        }
        Cubic { a: self.a * 4, b: self.b * 3, c: self.c * 2, d: self.d }
    }
}

impl Quartic {
    /// Creates the quartic with the given coefficients.
    pub fn new(a: i64, b: i64, c: i64, d: i64, e: i64) -> (p: Quartic)
        ensures
            p.a == a,
            p.b == b,
            p.c == c,
            p.d == d,
            p.e == e,
    {
        Quartic { a, b, c, d, e }
    }

    /// Creates the quartic with the given coefficients, widened.
    pub fn new_i(a: i32, b: i32, c: i32, d: i32, e: i32) -> (p: Quartic)
        ensures
            p.a == a,
            p.b == b,
            p.c == c,
            p.d == d,
            p.e == e,
    {
        Quartic { a: a as i64, b: b as i64, c: c as i64, d: d as i64, e: e as i64 }
    }

    /// Writes the quartic in the form `ax^4 + bx^3 + cx^2 + dx + e`, without the terms
    /// whose coefficient is zero.
    pub fn to_string(&self) -> (text: String)
        ensures
            text@ == rendered(numerals_of(self@)),
            text@ == leading_term(numeral_of(self.a as int), suffix_of(4))
                + middle_term(numeral_of(self.b as int), suffix_of(3))
                + middle_term(numeral_of(self.c as int), suffix_of(2))
                + middle_term(numeral_of(self.d as int), suffix_of(1))
                + constant_term(numeral_of(self.e as int)),
            all_zero(self@) ==> text@.len() == 0,
    {
        let terms = vec![
            Numeral::of(self.a),
            Numeral::of(self.b),
            Numeral::of(self.c),
            Numeral::of(self.d),
            Numeral::of(self.e),
        ];
        proof {
            assert(views_of(terms@) =~= numerals_of(self@));
            reveal_with_fuel(rendered_prefix, 6);
            if all_zero(self@) {
                assert(self@[0] == 0 && self@[1] == 0 && self@[2] == 0);
                assert(self@[3] == 0 && self@[4] == 0);
                lemma_zero_renders_empty(numerals_of(self@));
            }
        }
        render(&terms)
    }

    /// The value at `x` by substitution.
    pub open spec fn value(self, x: int) -> int {
        self.a * x * x * x * x
            + self.b * x * x * x
            + self.c * x * x
            + self.d * x
            + self.e
    }

    /// What evaluating at `x` asks for and gives, written out.
    pub proof fn lemma_evaluate(self, x: int)
        ensures
            evaluable(self@, x) <==> {
                &&& fits(self.a * x * x * x * x)
                &&& fits(self.b * x * x * x)
                &&& fits(self.c * x * x)
                &&& fits(self.d * x)
                &&& fits(self.value(x))
            },
            value_at(self@, x) == self.value(x),
    {
        reveal_with_fuel(partial_value, 6);
        lemma_power_terms(self.a as int, x);
        lemma_power_terms(self.b as int, x);
        lemma_power_terms(self.c as int, x);
        lemma_power_terms(self.d as int, x);
        lemma_power_terms(self.e as int, x);
        assert(term_at(self@, x, 0) == self.a * x * x * x * x);
        assert(term_at(self@, x, 1) == self.b * x * x * x);
        assert(term_at(self@, x, 2) == self.c * x * x);
        assert(term_at(self@, x, 3) == self.d * x);
        assert(term_at(self@, x, 4) == self.e);
    }

    /// The products of the quartic, coefficient by coefficient: the discrete
    /// convolution of the coefficient sequences, whether or not it can be
    /// held.
    pub proof fn lemma_product(self, k: i64)
        ensures
            product(self@, seq![k as int]) == seq![
                self.a * k,
                self.b * k,
                self.c * k,
                self.d * k,
                self.e * k,
            ],
    {
        reveal_with_fuel(convolution_sum, 6);
    }

    /// Subtracting what was added gives back the quartic, whatever kind
    /// or number was added: the subtraction can be made, and is exact.
    pub proof fn lemma_sub_undoes_add(self, r: Quartic, c: Cubic, q: Quadratic, l: Linear, k: i64)
        ensures
            self.add_req(r) ==> self.add_spec(r).sub_req(r) && self.add_spec(r).sub_spec(r)
                == self,
            self.add_req(c) ==> self.add_spec(c).sub_req(c) && self.add_spec(c).sub_spec(c)
                == self,
            self.add_req(q) ==> self.add_spec(q).sub_req(q) && self.add_spec(q).sub_spec(q)
                == self,
            self.add_req(l) ==> self.add_spec(l).sub_req(l) && self.add_spec(l).sub_spec(l)
                == self,
            self.add_req(k) ==> self.add_spec(k).sub_req(k) && self.add_spec(k).sub_spec(k)
                == self,
    {
    }

    /// Adding what was subtracted gives back the quartic.
    pub proof fn lemma_add_undoes_sub(self, r: Quartic, c: Cubic, q: Quadratic, l: Linear, k: i64)
        ensures
            self.sub_req(r) ==> self.sub_spec(r).add_req(r) && self.sub_spec(r).add_spec(r)
                == self,
            self.sub_req(c) ==> self.sub_spec(c).add_req(c) && self.sub_spec(c).add_spec(c)
                == self,
            self.sub_req(q) ==> self.sub_spec(q).add_req(q) && self.sub_spec(q).add_spec(q)
                == self,
            self.sub_req(l) ==> self.sub_spec(l).add_req(l) && self.sub_spec(l).add_spec(l)
                == self,
            self.sub_req(k) ==> self.sub_spec(k).add_req(k) && self.sub_spec(k).add_spec(k)
                == self,
    {
    }
}

} // verus!
