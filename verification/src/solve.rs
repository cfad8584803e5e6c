//! What the solvers answer with.
use vstd::prelude::*;
use vstd::string::*;

verus! {

/// Why a solver has no answer.
#[derive(Debug, Clone, Copy, PartialEq, Eq, Structural)]
pub enum SolveError {
    /// The leading coefficient is zero, so that what was asked for is not
    /// defined.
    Degenerate,
    /// The discriminant is negative: the roots are not real numbers.
    NoRealRoots,
}

impl SolveError {
    /// What went wrong, in words.
    pub fn message(&self) -> (text: String)
        ensures
            text@ == match *self {
                SolveError::Degenerate => "a must be non-zero"@,
                SolveError::NoRealRoots => "Complex numbers are not supported"@,
            },
    {
        match self {
            SolveError::Degenerate => "a must be non-zero".to_owned(),
            SolveError::NoRealRoots => "Complex numbers are not supported".to_owned(),
        }
    }
}

/// The exact quotient `num / den`, left undivided and unreduced.
#[derive(Debug, Clone, Copy, PartialEq, Eq, Structural)]
pub struct Ratio {
    pub num: i128,
    pub den: i128,
}

/// The real roots of a quadratic in exact form: the two numbers
/// `(center + s) / denominator` and `(center - s) / denominator`, in this
/// order, where `s` is the square root of `discriminant` that is not
/// negative. The denominator is never negative, so that the first number is
/// never the smaller one.
#[derive(Debug, Clone, Copy, PartialEq, Eq, Structural)]
pub struct QuadraticRoots {
    pub center: i128,
    pub discriminant: i128,
    pub denominator: i128,
}

/// Whether `v` and `-v` can be held by a wide integer.
pub open spec fn fits_wide(v: int) -> bool {
    -i128::MAX <= v <= i128::MAX
}

} // verus!
