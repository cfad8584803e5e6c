//! Polynomials of degree one.
use crate::algebra::{
    all_zero,
    convolution_sum,
    derived,
    evaluable,
    fits,
    minus,
    partial_value,
    plus,
    product,
    term_at,
    value_at,
};
use crate::format::{
    constant_term,
    leading_term,
    lemma_zero_renders_empty,
    middle_term,
    numeral_of,
    numerals_of,
    render,
    rendered,
    rendered_prefix,
    suffix_of,
    views_of,
    Numeral,
};
use crate::polynomial::{Differentiable, Polynomial};
use crate::quadratic::Quadratic;
use crate::solve::{Ratio, SolveError};
use crate::wide::{lemma_power_terms, mul_wide, narrow, power_term};
use vstd::prelude::*;
use vstd::std_specs::ops::{AddSpec, SubSpec};

verus! {

/// The polynomial `ax + b`.
#[derive(Debug, Clone, Copy, PartialEq, Eq, Structural)]
pub struct Linear {
    pub a: i64,
    pub b: i64,
}

impl View for Linear {
    type V = Seq<int>;

    open spec fn view(&self) -> Seq<int> {
        seq![self.a as int, self.b as int]
    }
}

impl core::ops::Add<Linear> for Linear {
    type Output = Linear;

    /// Adds coefficient by coefficient.
    fn add(self, other: Linear) -> (sum: Linear)
        ensures
            sum@ == plus(self@, other@),
    {
        Linear { a: self.a + other.a, b: self.b + other.b }
    }
}

impl vstd::std_specs::ops::AddSpecImpl<Linear> for Linear {
    open spec fn obeys_add_spec() -> bool {
        true
    }

    /// Every coefficient of the sum can be held.
    open spec fn add_req(self, other: Linear) -> bool {
        &&& fits(self.a + other.a)
        &&& fits(self.b + other.b)
    }

    open spec fn add_spec(self, other: Linear) -> Linear {
        Linear { a: (self.a + other.a) as i64, b: (self.b + other.b) as i64 }
    }
}

impl core::ops::Add<i64> for Linear {
    type Output = Linear;

    /// Adds a number to the constant term.
    fn add(self, other: i64) -> (sum: Linear)
        ensures
            sum@ == plus(self@, seq![other as int]),
    {
        Linear { a: self.a, b: self.b + other }
    }
}

impl vstd::std_specs::ops::AddSpecImpl<i64> for Linear {
    open spec fn obeys_add_spec() -> bool {
        true
    }

    /// The constant term of the sum can be held.
    open spec fn add_req(self, other: i64) -> bool {
        fits(self.b + other)
    }

    open spec fn add_spec(self, other: i64) -> Linear {
        Linear { a: self.a, b: (self.b + other) as i64 }
    }
}

impl core::ops::Sub<Linear> for Linear {
    type Output = Linear;

    /// Subtracts coefficient by coefficient.
    fn sub(self, other: Linear) -> (difference: Linear)
        ensures
            difference@ == minus(self@, other@),
    {
        Linear { a: self.a - other.a, b: self.b - other.b }
    }
}

impl vstd::std_specs::ops::SubSpecImpl<Linear> for Linear {
    open spec fn obeys_sub_spec() -> bool {
        true
    }

    /// Every coefficient of the difference can be held.
    open spec fn sub_req(self, other: Linear) -> bool {
        &&& fits(self.a - other.a)
        &&& fits(self.b - other.b)
    }

    open spec fn sub_spec(self, other: Linear) -> Linear {
        Linear { a: (self.a - other.a) as i64, b: (self.b - other.b) as i64 }
    }
}

impl core::ops::Sub<i64> for Linear {
    type Output = Linear;

    /// Subtracts a number from the constant term.
    fn sub(self, other: i64) -> (difference: Linear)
        ensures
            difference@ == minus(self@, seq![other as int]),
    {
        Linear { a: self.a, b: self.b - other }
    }
}

impl vstd::std_specs::ops::SubSpecImpl<i64> for Linear {
    open spec fn obeys_sub_spec() -> bool {
        true
    }

    /// The constant term of the difference can be held.
    open spec fn sub_req(self, other: i64) -> bool {
        fits(self.b - other)
    }

    open spec fn sub_spec(self, other: i64) -> Linear {
        Linear { a: self.a, b: (self.b - other) as i64 }
    }
}

impl core::ops::Mul<Linear> for Linear {
    type Output = Quadratic;

    /// Multiplies two linears into a quadratic.
    fn mul(self, other: Linear) -> (prod: Quadratic)
        ensures
            prod@ == product(self@, other@),
    {
        let a = narrow(mul_wide(self.a, other.a));
        let b = narrow(mul_wide(self.a, other.b) + mul_wide(self.b, other.a));
        let c = narrow(mul_wide(self.b, other.b));
        proof {
            reveal_with_fuel(convolution_sum, 3);
        }
        Quadratic { a, b, c }
    }
}

impl vstd::std_specs::ops::MulSpecImpl<Linear> for Linear {
    open spec fn obeys_mul_spec() -> bool {
        true
    }

    /// Every coefficient of the product can be held.
    open spec fn mul_req(self, other: Linear) -> bool {
        &&& fits(self.a * other.a)
        &&& fits(self.a * other.b + self.b * other.a)
        &&& fits(self.b * other.b)
    }

    open spec fn mul_spec(self, other: Linear) -> Quadratic {
        Quadratic {
            a: (self.a * other.a) as i64,
            b: (self.a * other.b + self.b * other.a) as i64,
            c: (self.b * other.b) as i64,
        }
    }
}

impl core::ops::Mul<i64> for Linear {
    type Output = Linear;

    /// Multiplies every coefficient by a number.
    fn mul(self, other: i64) -> (prod: Linear)
        ensures
            prod@ == product(self@, seq![other as int]),
    {
        let a = narrow(mul_wide(self.a, other));
        let b = narrow(mul_wide(self.b, other));
        proof {
            reveal_with_fuel(convolution_sum, 3);
        }
        Linear { a, b }
    }
}

impl vstd::std_specs::ops::MulSpecImpl<i64> for Linear {
    open spec fn obeys_mul_spec() -> bool {
        true
    }

    /// Every coefficient of the product can be held.
    open spec fn mul_req(self, other: i64) -> bool {
        &&& fits(self.a * other)
        &&& fits(self.b * other)
    }

    open spec fn mul_spec(self, other: i64) -> Linear {
        Linear { a: (self.a * other) as i64, b: (self.b * other) as i64 }
    }
}

impl Polynomial for Linear {
    /// Evaluates `ax + b` by substituting `x`.
    fn evaluate(&self, x: i64) -> (y: i64)
        ensures
            y == self.value(x as int),
    {
        proof {
            self.lemma_evaluate(x as int);
            lemma_power_terms(self.a as int, x as int);
        }
        let t1 = power_term(self.a, x, 1);
        narrow(t1 + self.b as i128)
    }

    fn is_zero(&self) -> (zero: bool)
        ensures
            zero <==> self.a == 0 && self.b == 0,
    {
        proof {
            if all_zero(self@) {
                assert(self@[0] == 0 && self@[1] == 0);
            }
        }
        self.a == 0 && self.b == 0
    }

    fn degree(&self) -> (d: u8)
        ensures
            d == 1,
    {
        1
    }
}

impl Differentiable for Linear {
    type Derivative = i64;

    open spec fn coefficients_of(d: i64) -> Seq<int> {
        seq![d as int]
    }

    /// The slope.
    fn derivative(&self) -> (d: i64)
        ensures
            d == self.a,
    {
        self.a
    }
}

impl Linear {
    /// Creates the linear with the given coefficients.
    pub fn new(a: i64, b: i64) -> (p: Linear)
        ensures
            p.a == a,
            p.b == b,
    {
        Linear { a, b }
    }

    /// Creates the linear with the given coefficients, widened.
    pub fn new_i(a: i32, b: i32) -> (p: Linear)
        ensures
            p.a == a,
            p.b == b,
    {
        Linear { a: a as i64, b: b as i64 }
    }

    /// Writes the linear in the form `ax + b`, without the terms
    /// whose coefficient is zero.
    pub fn to_string(&self) -> (text: String)
        ensures
            text@ == rendered(numerals_of(self@)),
            text@ == leading_term(numeral_of(self.a as int), suffix_of(1))
                + constant_term(numeral_of(self.b as int)),
            all_zero(self@) ==> text@.len() == 0,
    {
        let terms = vec![Numeral::of(self.a), Numeral::of(self.b)];
        proof {
            assert(views_of(terms@) =~= numerals_of(self@));
            reveal_with_fuel(rendered_prefix, 3);
            if all_zero(self@) {
                assert(self@[0] == 0 && self@[1] == 0);
                lemma_zero_renders_empty(numerals_of(self@));
            }
        }
        render(&terms)
    }

    /// The value at `x` by substitution.
    pub open spec fn value(self, x: int) -> int {
        self.a * x + self.b
    }

    /// Finds the root: the one `x` with `ax + b = 0`, as the quotient
    /// `-b / a`.
    ///
    /// With `a = 0` there is no root, or every number is one: that is an
    /// error.
    pub fn root(&self) -> (found: Result<Ratio, SolveError>)
        ensures
            self.a == 0 ==> found == Err::<Ratio, SolveError>(SolveError::Degenerate),
            self.a != 0 ==> found == Ok::<Ratio, SolveError>(
                Ratio { num: (-self.b) as i128, den: self.a as i128 },
            ),
            found matches Ok(x) ==> self.a * x.num + self.b * x.den == 0,
    {
        if self.a == 0 {
            return Err(SolveError::Degenerate);
        }
        assert(self.a * (-self.b) + self.b * self.a == 0) by (nonlinear_arith);
        Ok(Ratio { num: -(self.b as i128), den: self.a as i128 })
    }

    /// What evaluating at `x` asks for and gives, written out.
    pub proof fn lemma_evaluate(self, x: int)
        ensures
            evaluable(self@, x) <==> {
                &&& fits(self.a * x)
                &&& fits(self.value(x))
            },
            value_at(self@, x) == self.value(x),
    {
        reveal_with_fuel(partial_value, 3);
        lemma_power_terms(self.a as int, x);
        lemma_power_terms(self.b as int, x);
        assert(term_at(self@, x, 0) == self.a * x);
        assert(term_at(self@, x, 1) == self.b);
    }

    /// The products of the linear, coefficient by coefficient: the discrete
    /// convolution of the coefficient sequences, whether or not it can be
    /// held.
    pub proof fn lemma_product(self, l: Linear, k: i64)
        ensures
            product(self@, l@) == seq![
                self.a * l.a,
                self.a * l.b + self.b * l.a,
                self.b * l.b,
            ],
            product(self@, seq![k as int]) == seq![self.a * k, self.b * k],
    {
        reveal_with_fuel(convolution_sum, 3);
    }

    /// Subtracting what was added gives back the linear, whatever kind
    /// or number was added: the subtraction can be made, and is exact.
    pub proof fn lemma_sub_undoes_add(self, l: Linear, k: i64)
        ensures
            self.add_req(l) ==> self.add_spec(l).sub_req(l) && self.add_spec(l).sub_spec(l)
                == self,
            self.add_req(k) ==> self.add_spec(k).sub_req(k) && self.add_spec(k).sub_spec(k)
                == self,
    {
    }

    /// Adding what was subtracted gives back the linear.
    pub proof fn lemma_add_undoes_sub(self, l: Linear, k: i64)
        ensures
            self.sub_req(l) ==> self.sub_spec(l).add_req(l) && self.sub_spec(l).add_spec(l)
                == self,
            self.sub_req(k) ==> self.sub_spec(k).add_req(k) && self.sub_spec(k).add_spec(k)
                == self,
    {
    }
}

} // verus!
