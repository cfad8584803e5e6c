use polynomials::{Cubic, Differentiable, Linear, Polynomial, Quadratic, Quartic};

fn bq() -> Quartic {
    Quartic { a: 1, b: 2, c: 3, d: 4, e: 5 }
}

#[test]
fn lib_eval() {
    assert_eq!(bq().evaluate(6), 1296 + 432 + 108 + 24 + 5);
}

#[test]
fn lib_to_string() {
    assert_eq!(bq().to_string(), String::from("x^4 + 2x^3 + 3x^2 + 4x + 5"));
}

#[test]
fn add_qrt() {
    let q = Quartic::new_i(6, 7, 8, 9, 10);
    assert_eq!(bq() + q, Quartic::new_i(7, 9, 11, 13, 15));
}

#[test]
fn lib_add_cub() {
    let c = Cubic::new_i(6, 7, 8, 9);
    assert_eq!(bq() + c, Quartic::new_i(1, 8, 10, 12, 14));
}

#[test]
fn lib_add_qad() {
    let q = Quadratic::new_i(6, 7, 8);
    assert_eq!(bq() + q, Quartic::new_i(1, 2, 9, 11, 13));
}

#[test]
fn lib_add_lin() {
    let l = Linear::new_i(6, 7);
    assert_eq!(bq() + l, Quartic::new_i(1, 2, 3, 10, 12));
}

#[test]
fn lib_add_f64() {
    assert_eq!(bq() + 6, Quartic::new_i(1, 2, 3, 4, 11));
}

#[test]
fn sub_qrt() {
    let q = Quartic::new_i(6, 7, 8, 9, 10);
    assert_eq!(bq() - q, Quartic::new_i(-5, -5, -5, -5, -5));
}

#[test]
fn lib_sub_cub() {
    let c = Cubic::new_i(6, 7, 8, 9);
    assert_eq!(bq() - c, Quartic::new_i(1, -4, -4, -4, -4));
}

#[test]
fn lib_sub_qad() {
    let q = Quadratic::new_i(6, 7, 8);
    assert_eq!(bq() - q, Quartic::new_i(1, 2, -3, -3, -3));
}

#[test]
fn lib_sub_lin() {
    let l = Linear::new_i(6, 7);
    assert_eq!(bq() - l, Quartic::new_i(1, 2, 3, -2, -2));
}

#[test]
fn lib_mul_f64() {
    assert_eq!(bq() * 6, Quartic::new_i(6, 12, 18, 24, 30));
}

#[test]
fn lib_sub_f64() {
    assert_eq!(bq() - 6, Quartic::new_i(1, 2, 3, 4, -1));
}

#[test]
fn lib_degree() {
    assert_eq!(bq().degree(), 4);
}

#[test]
fn lib_is_zero() {
    let q = Quartic::new_i(0, 0, 0, 0, 0);
    assert!(q.is_zero());
    assert!(!bq().is_zero());
}

#[test]
fn quartic_is_zero_needs_every_coefficient() {
    assert!(!Quartic::new(0, 0, 0, 0, 1).is_zero());
    assert!(!Quartic::new(0, 0, 0, -1, 0).is_zero());
    assert!(!Quartic::new(0, 0, 2, 0, 0).is_zero());
    assert!(!Quartic::new(0, 3, 0, 0, 0).is_zero());
    assert!(!Quartic::new(4, 0, 0, 0, 0).is_zero());
}

#[test]
fn quartic_derivative() {
    assert_eq!(bq().derivative(), Cubic::new(4, 6, 6, 4));
    assert_eq!(Quartic::new(-2, 0, 5, -1, 9).derivative(), Cubic::new(-8, 0, 10, -1));
}

#[test]
fn quartic_evaluate_at_negative() {
    assert_eq!(bq().evaluate(-1), 1 - 2 + 3 - 4 + 5);
    assert_eq!(bq().evaluate(0), 5);
    assert_eq!(Quartic::new(-2, 0, 0, 0, 0).evaluate(-46340), -2 * 46340i64.pow(4));
}

#[test]
fn quartic_to_string_zero_and_units() {
    assert_eq!(Quartic::new(0, 0, 0, 0, 0).to_string(), "");
    assert_eq!(Quartic::new(-1, 1, -1, 1, -1).to_string(), "-x^4 + x^3 - x^2 + x - 1");
    assert_eq!(Quartic::new(10, 0, 0, 0, 100).to_string(), "10x^4 + 100");
    assert_eq!(
        Quartic::new(i64::MIN, 0, 0, i64::MAX, i64::MIN).to_string(),
        "-9223372036854775808x^4 + 9223372036854775807x - 9223372036854775808"
    );
}
