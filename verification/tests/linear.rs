use polynomials::format::{render, Numeral, Sign};
use polynomials::{Differentiable, Linear, Polynomial, Quadratic, Ratio, SolveError};

fn numeral(value: f64) -> Numeral {
    let sign = if value > 0.0 {
        Sign::Positive
    } else if value < 0.0 {
        Sign::Negative
    } else if value == 0.0 {
        Sign::Zero
    } else {
        Sign::Undefined
    };
    Numeral::new(sign, value.abs().to_string())
}

#[test]
fn linear_eval() {
    let linear = Linear::new(2, 1);
    let result = linear.evaluate(3);
    assert_eq!(result, 7);
}

#[test]
fn linear_to_string() {
    let linear = vec![numeral(2.3), numeral(1.0)];
    let result = render(&linear);
    assert_eq!(String::from("2.3x + 1"), result);
}

#[test]
fn linear_to_string_whole() {
    assert_eq!(Linear::new(2, 1).to_string(), "2x + 1");
    assert_eq!(Linear::new(-1, -1).to_string(), "-x - 1");
    assert_eq!(Linear::new(0, 0).to_string(), "");
}

#[test]
fn linear_add_lin_tenths() {
    let l1 = Linear::new(10, 74);
    let l2 = Linear::new(15, 26);
    assert_eq!(l1 + l2, Linear::new(25, 100));
}

#[test]
fn linear_add_f64() {
    let l = Linear::new(1, 3);
    assert_eq!(l + 7, Linear::new(1, 10));
}

#[test]
fn linear_sub_lin() {
    let l1 = Linear::new(10, 5);
    let l2 = Linear::new(15, 3);
    assert_eq!(l1 - l2, Linear::new(-5, 2));
}

#[test]
fn linear_sub_f64() {
    let l = Linear::new(1, 7);
    assert_eq!(l - 5, Linear::new(1, 2));
}

#[test]
fn linear_mul_lin() {
    let l = Linear::new(2, 3);
    let l2 = Linear::new(4, 5);
    assert_eq!(l * l2, Quadratic::new(8, 22, 15));
}

#[test]
fn linear_mul_f64() {
    let l = Linear::new(2, 3);
    assert_eq!(l * 4, Linear::new(8, 12));
}

#[test]
fn linear_degree() {
    let l = Linear::new(0, 0);
    assert_eq!(l.degree(), 1);
}

#[test]
fn linear_is_zero() {
    let l = Linear::new(0, 0);
    let l2 = Linear::new(1, 0);
    assert!(l.is_zero());
    assert!(!l2.is_zero());
    assert!(!Linear::new(0, -1).is_zero());
}

#[test]
fn linear_new_i_widens() {
    assert_eq!(Linear::new_i(i32::MIN, i32::MAX), Linear::new(-2147483648, 2147483647));
}

#[test]
fn linear_derivative() {
    assert_eq!(Linear::new(7, 3).derivative(), 7);
    assert_eq!(Linear::new(0, 3).derivative(), 0);
}

#[test]
fn linear_root_degenerate() {
    assert_eq!(Linear::new(0, 5).root(), Err(SolveError::Degenerate));
    assert_eq!(Linear::new(0, 0).root(), Err(SolveError::Degenerate));
}

#[test]
fn linear_root() {
    let root = Linear::new(2, -4).root().unwrap();
    assert_eq!(root, Ratio { num: 4, den: 2 });
    assert_eq!(root.num as f64 / root.den as f64, 2.0);
}

#[test]
fn linear_root_of_extreme_constant() {
    let root = Linear::new(-1, i64::MIN).root().unwrap();
    assert_eq!(root, Ratio { num: 9223372036854775808, den: -1 });
}

#[test]
fn linear_evaluate_extremes() {
    assert_eq!(Linear::new(i64::MIN, 0).evaluate(1), i64::MIN);
    assert_eq!(Linear::new(i64::MAX, 0).evaluate(-1), -i64::MAX);
    assert_eq!(Linear::new(i64::MAX, i64::MIN).evaluate(1), -1);
    assert_eq!(Linear::new(5, -3).evaluate(0), -3);
}
