//! Polynomials of degree two.
use crate::algebra::{
    all_zero,
    convolution_sum,
    evaluable,
    fits,
    minus,
    partial_value,
    plus,
    product,
    term_at,
    value_at,
};
use crate::cubic::Cubic;
use crate::format::{
    constant_term,
    leading_term,
    lemma_zero_renders_empty,
    middle_term,
    numeral_of,
    numerals_of,
    render,
    rendered,
    rendered_prefix,
    suffix_of,
    views_of,
    Numeral,
};
use crate::linear::Linear;
use crate::polynomial::Polynomial;
use crate::quartic::Quartic;
use crate::solve::{fits_wide, QuadraticRoots, Ratio, SolveError};
use crate::wide::{lemma_power_terms, mul_wide, narrow, power_term};
use vstd::prelude::*;
use vstd::std_specs::ops::{AddSpec, SubSpec};

verus! {

/// The polynomial `ax^2 + bx + c`.
#[derive(Debug, Clone, Copy, PartialEq, Eq, Structural)]
pub struct Quadratic {
    pub a: i64,
    pub b: i64,
    pub c: i64,
}

impl View for Quadratic {
    type V = Seq<int>;

    open spec fn view(&self) -> Seq<int> {
        seq![self.a as int, self.b as int, self.c as int]
    }
}

impl core::ops::Add<Quadratic> for Quadratic {
    type Output = Quadratic;

    /// Adds coefficient by coefficient.
    fn add(self, other: Quadratic) -> (sum: Quadratic)
        ensures
            sum@ == plus(self@, other@),
    {
        Quadratic { a: self.a + other.a, b: self.b + other.b, c: self.c + other.c }
    }
}

impl vstd::std_specs::ops::AddSpecImpl<Quadratic> for Quadratic {
    open spec fn obeys_add_spec() -> bool {
        true
    }

    /// Every coefficient of the sum can be held.
    open spec fn add_req(self, other: Quadratic) -> bool {
        &&& fits(self.a + other.a)
        &&& fits(self.b + other.b)
        &&& fits(self.c + other.c)
    }

    open spec fn add_spec(self, other: Quadratic) -> Quadratic {
        Quadratic {
            a: (self.a + other.a) as i64,
            b: (self.b + other.b) as i64,
            c: (self.c + other.c) as i64,
        }
    }
}

impl core::ops::Add<Linear> for Quadratic {
    type Output = Quadratic;

    /// Adds a linear to the low-order terms.
    fn add(self, other: Linear) -> (sum: Quadratic)
        ensures
            sum@ == plus(self@, other@),
    {
        Quadratic { a: self.a, b: self.b + other.a, c: self.c + other.b }
    }
}

impl vstd::std_specs::ops::AddSpecImpl<Linear> for Quadratic {
    open spec fn obeys_add_spec() -> bool {
        true
    }

    /// Every changed coefficient of the sum can be held.
    open spec fn add_req(self, other: Linear) -> bool {
        &&& fits(self.b + other.a)
        &&& fits(self.c + other.b)
    }

    open spec fn add_spec(self, other: Linear) -> Quadratic {
        Quadratic { a: self.a, b: (self.b + other.a) as i64, c: (self.c + other.b) as i64 }
    }
}

impl core::ops::Add<i64> for Quadratic {
    type Output = Quadratic;

    /// Adds a number to the constant term.
    fn add(self, other: i64) -> (sum: Quadratic)
        ensures
            sum@ == plus(self@, seq![other as int]),
    {
        Quadratic { a: self.a, b: self.b, c: self.c + other }
    }
}

impl vstd::std_specs::ops::AddSpecImpl<i64> for Quadratic {
    open spec fn obeys_add_spec() -> bool {
        true
    }

    /// The constant term of the sum can be held.
    open spec fn add_req(self, other: i64) -> bool {
        fits(self.c + other)
    }

    open spec fn add_spec(self, other: i64) -> Quadratic {
        Quadratic { a: self.a, b: self.b, c: (self.c + other) as i64 }
    }
}

impl core::ops::Sub<Quadratic> for Quadratic {
    type Output = Quadratic;

    /// Subtracts coefficient by coefficient.
    fn sub(self, other: Quadratic) -> (difference: Quadratic)
        ensures
            difference@ == minus(self@, other@),
    {
        Quadratic { a: self.a - other.a, b: self.b - other.b, c: self.c - other.c }
    }
}

impl vstd::std_specs::ops::SubSpecImpl<Quadratic> for Quadratic {
    open spec fn obeys_sub_spec() -> bool {
        true
    }

    /// Every coefficient of the difference can be held.
    open spec fn sub_req(self, other: Quadratic) -> bool {
        &&& fits(self.a - other.a)
        &&& fits(self.b - other.b)
        &&& fits(self.c - other.c)
    }

    open spec fn sub_spec(self, other: Quadratic) -> Quadratic {
        Quadratic {
            a: (self.a - other.a) as i64,
            b: (self.b - other.b) as i64,
            c: (self.c - other.c) as i64,
        }
    }
}

impl core::ops::Sub<Linear> for Quadratic {
    type Output = Quadratic;

    /// Subtracts a linear from the low-order terms.
    fn sub(self, other: Linear) -> (difference: Quadratic)
        ensures
            difference@ == minus(self@, other@),
    {
        Quadratic { a: self.a, b: self.b - other.a, c: self.c - other.b }
    }
}

impl vstd::std_specs::ops::SubSpecImpl<Linear> for Quadratic {
    open spec fn obeys_sub_spec() -> bool {
        true
    }

    /// Every changed coefficient of the difference can be held.
    open spec fn sub_req(self, other: Linear) -> bool {
        &&& fits(self.b - other.a)
        &&& fits(self.c - other.b)
    }

    open spec fn sub_spec(self, other: Linear) -> Quadratic {
        Quadratic { a: self.a, b: (self.b - other.a) as i64, c: (self.c - other.b) as i64 }
    }
}

impl core::ops::Sub<i64> for Quadratic {
    type Output = Quadratic;

    /// Subtracts a number from the constant term.
    fn sub(self, other: i64) -> (difference: Quadratic)
        ensures
            difference@ == minus(self@, seq![other as int]),
    {
        Quadratic { a: self.a, b: self.b, c: self.c - other }
    }
}

impl vstd::std_specs::ops::SubSpecImpl<i64> for Quadratic {
    open spec fn obeys_sub_spec() -> bool {
        true
    }

    /// The constant term of the difference can be held.
    open spec fn sub_req(self, other: i64) -> bool {
        fits(self.c - other)
    }

    open spec fn sub_spec(self, other: i64) -> Quadratic {
        Quadratic { a: self.a, b: self.b, c: (self.c - other) as i64 }
    }
}

impl core::ops::Mul<Quadratic> for Quadratic {
    type Output = Quartic;

    /// Multiplies two quadratics into a quartic.
    fn mul(self, other: Quadratic) -> (prod: Quartic)
        ensures
            prod@ == product(self@, other@),
    {
        let a = narrow(mul_wide(self.a, other.a));
        let b = narrow(mul_wide(self.a, other.b) + mul_wide(self.b, other.a));
        let ac = mul_wide(self.a, other.c);
        let bb = mul_wide(self.b, other.b);
        let ca = mul_wide(self.c, other.a);
        let c = narrow(ac + bb + ca);
        let d = narrow(mul_wide(self.b, other.c) + mul_wide(self.c, other.b));
        let e = narrow(mul_wide(self.c, other.c));
        proof {
            reveal_with_fuel(convolution_sum, 4);
        }
        Quartic { a, b, c, d, e }
    }
}

impl vstd::std_specs::ops::MulSpecImpl<Quadratic> for Quadratic {
    open spec fn obeys_mul_spec() -> bool {
        true
    }

    /// Every coefficient of the product can be held.
    open spec fn mul_req(self, other: Quadratic) -> bool {
        &&& fits(self.a * other.a)
        &&& fits(self.a * other.b + self.b * other.a)
        &&& fits(self.a * other.c + self.b * other.b + self.c * other.a)
        &&& fits(self.b * other.c + self.c * other.b)
        &&& fits(self.c * other.c)
    }

    open spec fn mul_spec(self, other: Quadratic) -> Quartic {
        Quartic {
            a: (self.a * other.a) as i64,
            b: (self.a * other.b + self.b * other.a) as i64,
            c: (self.a * other.c + self.b * other.b + self.c * other.a) as i64,
            d: (self.b * other.c + self.c * other.b) as i64,
            e: (self.c * other.c) as i64,
        }
    }
}

impl core::ops::Mul<Linear> for Quadratic {
    type Output = Cubic;

    /// Multiplies a quadratic by a linear into a cubic.
    fn mul(self, other: Linear) -> (prod: Cubic)
        ensures
            prod@ == product(self@, other@),
    {
        let a = narrow(mul_wide(self.a, other.a));
        let b = narrow(mul_wide(self.a, other.b) + mul_wide(self.b, other.a));
        let c = narrow(mul_wide(self.b, other.b) + mul_wide(self.c, other.a));
        let d = narrow(mul_wide(self.c, other.b));
        proof {
            reveal_with_fuel(convolution_sum, 4);
        }
        Cubic { a, b, c, d }
    }
}

impl vstd::std_specs::ops::MulSpecImpl<Linear> for Quadratic {
    open spec fn obeys_mul_spec() -> bool {
        true
    }

    /// Every coefficient of the product can be held.
    open spec fn mul_req(self, other: Linear) -> bool {
        &&& fits(self.a * other.a)
        &&& fits(self.a * other.b + self.b * other.a)
        &&& fits(self.b * other.b + self.c * other.a)
        &&& fits(self.c * other.b)
    }

    open spec fn mul_spec(self, other: Linear) -> Cubic {
        Cubic {
            a: (self.a * other.a) as i64,
            b: (self.a * other.b + self.b * other.a) as i64,
            c: (self.b * other.b + self.c * other.a) as i64,
            d: (self.c * other.b) as i64,
        }
    }
}

impl core::ops::Mul<i64> for Quadratic {
    type Output = Quadratic;

    /// Multiplies every coefficient by a number.
    fn mul(self, other: i64) -> (prod: Quadratic)
        ensures
            prod@ == product(self@, seq![other as int]),
    {
        let a = narrow(mul_wide(self.a, other));
        let b = narrow(mul_wide(self.b, other));
        let c = narrow(mul_wide(self.c, other));
        proof {
            reveal_with_fuel(convolution_sum, 4);
        }
        Quadratic { a, b, c }
    }
}

impl vstd::std_specs::ops::MulSpecImpl<i64> for Quadratic {
    open spec fn obeys_mul_spec() -> bool {
        true
    }

    /// Every coefficient of the product can be held.
    open spec fn mul_req(self, other: i64) -> bool {
        &&& fits(self.a * other)
        &&& fits(self.b * other)
        &&& fits(self.c * other)
    }

    open spec fn mul_spec(self, other: i64) -> Quadratic {
        Quadratic {
            a: (self.a * other) as i64,
            b: (self.b * other) as i64,
            c: (self.c * other) as i64,
        }
    }
}

impl Polynomial for Quadratic {
    /// Evaluates `ax^2 + bx + c` by substituting `x`.
    fn evaluate(&self, x: i64) -> (y: i64)
        ensures
            y == self.value(x as int),
    {
        proof {
            self.lemma_evaluate(x as int);
            lemma_power_terms(self.a as int, x as int);
            lemma_power_terms(self.b as int, x as int);
        }
        let t2 = power_term(self.a, x, 2);
        let t1 = power_term(self.b, x, 1);
        narrow(t2 + t1 + self.c as i128)
    }

    fn is_zero(&self) -> (zero: bool)
        ensures
            zero <==> self.a == 0 && self.b == 0 && self.c == 0,
    {
        proof {
            if all_zero(self@) {
                assert(self@[0] == 0 && self@[1] == 0 && self@[2] == 0);
            }
        }
        self.a == 0 && self.b == 0 && self.c == 0
    }

    fn degree(&self) -> (d: u8)
        ensures
            d == 2,
    {
        2
    }
}

impl Quadratic {
    /// Creates the quadratic with the given coefficients.
    pub fn new(a: i64, b: i64, c: i64) -> (p: Quadratic)
        ensures
            p.a == a,
            p.b == b,
            p.c == c,
    {
        Quadratic { a, b, c }
    }

    /// Creates the quadratic with the given coefficients, widened.
    pub fn new_i(a: i32, b: i32, c: i32) -> (p: Quadratic)
        ensures
            p.a == a,
            p.b == b,
            p.c == c,
    {
        Quadratic { a: a as i64, b: b as i64, c: c as i64 }
    }

    /// Writes the quadratic in the form `ax^2 + bx + c`, without the terms
    /// whose coefficient is zero.
    pub fn to_string(&self) -> (text: String)
        ensures
            text@ == rendered(numerals_of(self@)),
            text@ == leading_term(numeral_of(self.a as int), suffix_of(2))
                + middle_term(numeral_of(self.b as int), suffix_of(1))
                + constant_term(numeral_of(self.c as int)),
            all_zero(self@) ==> text@.len() == 0,
    {
        let terms = vec![Numeral::of(self.a), Numeral::of(self.b), Numeral::of(self.c)];
        proof {
            assert(views_of(terms@) =~= numerals_of(self@));
            reveal_with_fuel(rendered_prefix, 4);
            if all_zero(self@) {
                assert(self@[0] == 0 && self@[1] == 0 && self@[2] == 0);
                lemma_zero_renders_empty(numerals_of(self@));
            }
        }
        render(&terms)
    }

    /// The value at `x` by substitution.
    pub open spec fn value(self, x: int) -> int {
        self.a * x * x + self.b * x + self.c
    }

    /// The discriminant `b^2 - 4ac`.
    pub open spec fn discriminant_value(self) -> int {
        self.b * self.b - 4 * self.a * self.c
    }

    /// Whether the discriminant can be computed: `4ac` and the discriminant
    /// can be held by a wide integer.
    pub open spec fn discriminant_fits(self) -> bool {
        &&& fits_wide(4 * self.a * self.c)
        &&& fits_wide(self.discriminant_value())
    }

    /// Computes the discriminant where it can be held.
    pub fn checked_discriminant(&self) -> (found: Option<i128>)
        ensures
            self.discriminant_fits() ==> found == Some(self.discriminant_value() as i128),
            !self.discriminant_fits() ==> found.is_none(),
    {
        let ac = mul_wide(self.a, self.c);
        let bb = mul_wide(self.b, self.b);
        assert(4 * self.a * self.c == 4 * (self.a * self.c)) by (nonlinear_arith);
        assert(self.b * self.b >= 0) by (nonlinear_arith);
        if ac > i128::MAX / 4 || ac < -(i128::MAX / 4) {
            return None;
        }
        let four_ac = 4 * ac;
        if four_ac < 0 && bb > i128::MAX + four_ac {
            return None;
        }
        Some(bb - four_ac)
    }

    /// Computes the discriminant.
    pub fn discriminant(&self) -> (d: i128)
        requires
            self.discriminant_fits(),
        ensures
            d == self.discriminant_value(),
    {
        let ac = mul_wide(self.a, self.c);
        let bb = mul_wide(self.b, self.b);
        assert(4 * self.a * self.c == 4 * (self.a * self.c)) by (nonlinear_arith);
        bb - 4 * ac
    }

    /// Finds the vertex of the parabola: the point `(x, y)` with
    /// `x = -b / 2a` and `y` the value at `x`, which is `(4ac - b^2) / 4a`.
    ///
    /// With `a = 0` there is no parabola: that is an error.
    pub fn vertex(&self) -> (found: Result<[Ratio; 2], SolveError>)
        requires
            self.discriminant_fits(),
        ensures
            self.a == 0 ==> found == Err::<[Ratio; 2], SolveError>(SolveError::Degenerate),
            self.a != 0 ==> found.is_ok(),
            found matches Ok(point) ==> point[0] == (Ratio {
                num: (-self.b) as i128,
                den: (2 * self.a) as i128,
            }),
            found matches Ok(point) ==> point[1] == (Ratio {
                num: (-self.discriminant_value()) as i128,
                den: (4 * self.a) as i128,
            }),
    {
        if self.a == 0 {
            return Err(SolveError::Degenerate);
        }
        let x = Ratio { num: -(self.b as i128), den: 2 * (self.a as i128) };
        let y = Ratio { num: -self.discriminant(), den: 4 * (self.a as i128) };
        Ok([x, y])
    }

    /// The real roots in exact form: `-b / 2a` plus and minus the square
    /// root of the discriminant over `2|a|`, written over the denominator
    /// `2|a|`, the root with the plus first.
    pub open spec fn exact_roots(self) -> QuadraticRoots {
        QuadraticRoots {
            center: (if self.a < 0 {
                self.b as int
            } else {
                -self.b
            }) as i128,
            discriminant: self.discriminant_value() as i128,
            denominator: (if self.a < 0 {
                -2 * self.a
            } else {
                2 * self.a
            }) as i128,
        }
    }

    /// Finds the real roots, in exact form, the greater one first.
    ///
    /// With a negative discriminant there are none: that is an error. With
    /// `a = 0` and no such error the answer has the denominator zero: the
    /// division is left to the caller.
    pub fn solver(&self) -> (found: Result<QuadraticRoots, SolveError>)
        requires
            self.discriminant_fits(),
        ensures
            self.discriminant_value() < 0 ==> found == Err::<QuadraticRoots, SolveError>(
                SolveError::NoRealRoots,
            ),
            self.discriminant_value() >= 0 ==> found == Ok::<QuadraticRoots, SolveError>(
                self.exact_roots(),
            ),
    {
        let discriminant = self.discriminant();
        if discriminant < 0 {
            Err(SolveError::NoRealRoots)
        } else if self.a < 0 {
            Ok(
                QuadraticRoots {
                    center: self.b as i128,
                    discriminant,
                    denominator: -(2 * (self.a as i128)),
                },
            )
        } else {
            Ok(
                QuadraticRoots {
                    center: -(self.b as i128),
                    discriminant,
                    denominator: 2 * (self.a as i128),
                },
            )
        }
    }

    /// The value of the quadratic at `num / den`, times `den^2`.
    pub open spec fn scaled_value(self, num: int, den: int) -> int {
        self.a * num * num + self.b * num * den + self.c * den * den
    }

    /// The vertex lies where the slope `2ax + b` is zero, and its `y` is
    /// the value of the quadratic at its `x`.
    pub proof fn lemma_vertex(self, x: Ratio, y: Ratio)
        requires
            x == (Ratio { num: (-self.b) as i128, den: (2 * self.a) as i128 }),
            y == (Ratio { num: (-self.discriminant_value()) as i128, den: (4 * self.a) as i128 }),
            self.discriminant_fits(),
        ensures
            2 * self.a * x.num + self.b * x.den == 0,
            self.scaled_value(x.num as int, x.den as int) * y.den == y.num * x.den * x.den,
    {
        let (a, b, c) = (self.a as int, self.b as int, self.c as int);
        assert(2 * a * (-b) + b * (2 * a) == 0) by (nonlinear_arith);
        assert((a * (-b) * (-b) + b * (-b) * (2 * a) + c * (2 * a) * (2 * a)) * (4 * a) == (-(b * b
            - 4 * a * c)) * (2 * a) * (2 * a)) by (nonlinear_arith);
    }

    /// Both numbers that the exact roots stand for are roots of the
    /// quadratic: with `s` a square root of the discriminant, the quadratic
    /// is zero at `(center + s) / denominator` and at
    /// `(center - s) / denominator`.
    pub proof fn lemma_roots_solve(self, s: int)
        requires
            self.discriminant_fits(),
            s * s == self.discriminant_value(),
        ensures
            self.scaled_value(
                self.exact_roots().center + s,
                self.exact_roots().denominator as int,
            ) == 0,
            self.scaled_value(
                self.exact_roots().center - s,
                self.exact_roots().denominator as int,
            ) == 0,
    {
        let (a, b, c) = (self.a as int, self.b as int, self.c as int);
        assert(a * (-b + s) * (-b + s) + b * (-b + s) * (2 * a) + c * (2 * a) * (2 * a) == 0)
            by (nonlinear_arith)
            requires
                s * s == b * b - 4 * a * c,
        ;
        assert(a * (-b - s) * (-b - s) + b * (-b - s) * (2 * a) + c * (2 * a) * (2 * a) == 0)
            by (nonlinear_arith)
            requires
                s * s == b * b - 4 * a * c,
        ;
        if a < 0 {
            self.lemma_scaled_value_is_even(b + s, -2 * a);
            self.lemma_scaled_value_is_even(b - s, -2 * a);
        }
    }

    /// The scaled value is the same at `-num / -den` as at `num / den`.
    pub proof fn lemma_scaled_value_is_even(self, num: int, den: int)
        ensures
            self.scaled_value(-num, -den) == self.scaled_value(num, den),
    {
        let (a, b, c) = (self.a as int, self.b as int, self.c as int);
        assert(a * (-num) * (-num) == a * num * num) by (nonlinear_arith);
        assert(b * (-num) * (-den) == b * num * den) by (nonlinear_arith);
        assert(c * (-den) * (-den) == c * den * den) by (nonlinear_arith);
    }

    /// The first of the exact roots is never the smaller one, whatever the
    /// sign of `a`: the two share a denominator that is positive where
    /// `a` is not zero, and for a square root `s` that is not negative the
    /// first numerator is at least the second. They are equal exactly
    /// where `s` is zero.
    pub proof fn lemma_roots_ordered(self, s: int)
        requires
            s >= 0,
        ensures
            self.exact_roots().denominator >= 0,
            self.a != 0 ==> self.exact_roots().denominator > 0,
            self.exact_roots().center + s >= self.exact_roots().center - s,
            self.exact_roots().center + s == self.exact_roots().center - s <==> s == 0,
            (self.exact_roots().center + s) * self.exact_roots().denominator
                >= (self.exact_roots().center - s) * self.exact_roots().denominator,
    {
        let roots = self.exact_roots();
        let (n, d) = (roots.center as int, roots.denominator as int);
        assert((n + s) * d >= (n - s) * d) by (nonlinear_arith)
            requires
                s >= 0,
                d >= 0,
        ;
    }

    /// The exact roots are `-b / 2a` plus and minus the square root over
    /// `2|a|`: the center over the denominator is `-b / 2a`, and the
    /// denominator is `2|a|`.
    pub proof fn lemma_roots_center(self)
        ensures
            self.exact_roots().center * (2 * self.a) == -self.b * self.exact_roots().denominator,
            self.exact_roots().denominator * self.exact_roots().denominator == 4 * self.a
                * self.a,
    {
        let (a, b) = (self.a as int, self.b as int);
        assert(b * (2 * a) == -b * (-2 * a)) by (nonlinear_arith);
        assert((-2 * a) * (-2 * a) == 4 * a * a) by (nonlinear_arith);
        assert((2 * a) * (2 * a) == 4 * a * a) by (nonlinear_arith);
    }

    /// What evaluating at `x` asks for and gives, written out.
    pub proof fn lemma_evaluate(self, x: int)
        ensures
            evaluable(self@, x) <==> {
                &&& fits(self.a * x * x)
                &&& fits(self.b * x)
                &&& fits(self.value(x))
            },
            value_at(self@, x) == self.value(x),
    {
        reveal_with_fuel(partial_value, 4);
        lemma_power_terms(self.a as int, x);
        lemma_power_terms(self.b as int, x);
        lemma_power_terms(self.c as int, x);
        assert(term_at(self@, x, 0) == self.a * x * x);
        assert(term_at(self@, x, 1) == self.b * x);
        assert(term_at(self@, x, 2) == self.c);
    }

    /// The products of the quadratic, coefficient by coefficient: the discrete
    /// convolution of the coefficient sequences, whether or not it can be
    /// held.
    pub proof fn lemma_product(self, q: Quadratic, l: Linear, k: i64)
        ensures
            product(self@, q@) == seq![
                self.a * q.a,
                self.a * q.b + self.b * q.a,
                self.a * q.c + self.b * q.b + self.c * q.a,
                self.b * q.c + self.c * q.b,
                self.c * q.c,
            ],
            product(self@, l@) == seq![
                self.a * l.a,
                self.a * l.b + self.b * l.a,
                self.b * l.b + self.c * l.a,
                self.c * l.b,
            ],
            product(self@, seq![k as int]) == seq![self.a * k, self.b * k, self.c * k],
    {
        reveal_with_fuel(convolution_sum, 4);
    }

    /// Subtracting what was added gives back the quadratic, whatever kind
    /// or number was added: the subtraction can be made, and is exact.
    pub proof fn lemma_sub_undoes_add(self, q: Quadratic, l: Linear, k: i64)
        ensures
            self.add_req(q) ==> self.add_spec(q).sub_req(q) && self.add_spec(q).sub_spec(q)
                == self,
            self.add_req(l) ==> self.add_spec(l).sub_req(l) && self.add_spec(l).sub_spec(l)
                == self,
            self.add_req(k) ==> self.add_spec(k).sub_req(k) && self.add_spec(k).sub_spec(k)
                == self,
    {
    }

    /// Adding what was subtracted gives back the quadratic.
    pub proof fn lemma_add_undoes_sub(self, q: Quadratic, l: Linear, k: i64)
        ensures
            self.sub_req(q) ==> self.sub_spec(q).add_req(q) && self.sub_spec(q).add_spec(q)
                == self,
            self.sub_req(l) ==> self.sub_spec(l).add_req(l) && self.sub_spec(l).add_spec(l)
                == self,
            self.sub_req(k) ==> self.sub_spec(k).add_req(k) && self.sub_spec(k).add_spec(k)
                == self,
    {
    }
}

} // verus!
