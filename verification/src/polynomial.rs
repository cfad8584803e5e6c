//! What every polynomial kind can do.
use crate::algebra::{all_zero, derived, evaluable, representable, value_at};
use vstd::prelude::*;

verus! {

/// A polynomial in one variable with a fixed number of coefficients, viewed
/// as the sequence of its coefficients, highest power first.
pub trait Polynomial: View<V = Seq<int>> + Sized {
    /// Evaluates the polynomial at `x`.
    fn evaluate(&self, x: i64) -> (y: i64)
        requires
            evaluable(self@, x as int),
        ensures
            y == value_at(self@, x as int),
    ;

    /// Tells whether every coefficient is zero.
    fn is_zero(&self) -> (zero: bool)
        ensures
            zero <==> all_zero(self@),
    ;

    /// The degree of the kind: one less than its number of coefficients,
    /// whatever the coefficients are.
    fn degree(&self) -> (d: u8)
        ensures
            d == self@.len() - 1,
    ;
}

/// A polynomial kind whose derivative has a kind of its own.
pub trait Differentiable: Polynomial {
    /// What the derivative is given as.
    type Derivative;

    /// The coefficients that a derivative stands for, highest power first.
    spec fn coefficients_of(d: Self::Derivative) -> Seq<int>;

    /// Differentiates term by term.
    fn derivative(&self) -> (d: Self::Derivative)
        requires
            representable(derived(self@)),
        ensures
            Self::coefficients_of(d) == derived(self@),
    ;
}

} // verus!
