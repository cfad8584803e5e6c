//! Polynomials of degree one to four in one variable, with exact integer
//! coefficients.
//!
//! There are four kinds, [`Linear`], [`Quadratic`], [`Cubic`] and
//! [`Quartic`], each a record of its coefficients, highest power first. The
//! degree of a value is that of its kind, whatever its coefficients are.
//!
//! A kind can be added to and subtracted from with a number or a kind of the
//! same or a lower degree, and multiplied by a number or by a kind such that
//! the degrees add up to four at most; the product has the kind of the
//! summed degrees. All arithmetic is exact: an operation asks that its
//! result can be held, and then gives the mathematical result.
//!
//! Every kind is viewed as the sequence of its coefficients. The module
//! [`algebra`] says what sums, products and values of such sequences are and
//! proves the laws that hold of them; [`format`] holds the rules by which a
//! polynomial is written as text; [`solve`] holds what roots and vertices
//! are given as.
pub mod algebra;
pub mod cubic;
pub mod format;
pub mod linear;
pub mod polynomial;
pub mod quadratic;
pub mod quartic;
pub mod solve;
mod wide;

pub use cubic::Cubic;
pub use linear::Linear;
pub use polynomial::{Differentiable, Polynomial};
pub use quadratic::Quadratic;
pub use quartic::Quartic;
pub use solve::{QuadraticRoots, Ratio, SolveError};
