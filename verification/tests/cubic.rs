use polynomials::{Cubic, Linear, Polynomial, Quadratic, Quartic};

fn bc() -> Cubic {
    Cubic { a: 1, b: 2, c: 3, d: 4 }
}

#[test]
fn eval() {
    let c = bc();
    let result = c.evaluate(5);
    assert_eq!(result, 125 + 50 + 15 + 4);
}

#[test]
fn to_string() {
    let c = bc();
    assert_eq!(String::from("x^3 + 2x^2 + 3x + 4"), c.to_string());
}

#[test]
fn add_cub() {
    let c1 = bc();
    let c2 = Cubic::new(8, 7, 6, 5);
    assert_eq!(c1 + c2, Cubic::new(9, 9, 9, 9));
}

#[test]
fn add_qad() {
    let c = bc();
    let q = Quadratic::new(5, 6, 7);
    assert_eq!(c + q, Cubic::new(1, 7, 9, 11));
}

#[test]
fn add_lin() {
    let c = bc();
    let l = Linear::new(4, 5);
    assert_eq!(c + l, Cubic::new(1, 2, 7, 9));
}

#[test]
fn add_f64() {
    let c = bc();
    assert_eq!(c + 5, Cubic::new(1, 2, 3, 9));
}

#[test]
fn sub_cub_tenths() {
    let c1 = Cubic::new(10, 20, 30, 40);
    let c2 = Cubic::new(10, 70, 55, -60);
    assert_eq!(c1 - c2, Cubic::new(0, -50, -25, 100));
}

#[test]
fn sub_qad() {
    let c = bc();
    let q = Quadratic::new(5, 6, 7);
    assert_eq!(c - q, Cubic::new(1, -3, -3, -3));
}

#[test]
fn sub_lin() {
    let c = bc();
    let l = Linear::new(4, 5);
    assert_eq!(c - l, Cubic::new(1, 2, -1, -1));
}

#[test]
fn sub_f64() {
    let c = bc();
    assert_eq!(c - 5, Cubic::new(1, 2, 3, -1));
}

#[test]
fn mul_lin() {
    let l = Linear::new_i(5, 6);
    assert_eq!(bc() * l, Quartic::new_i(5, 16, 27, 38, 24));
}

#[test]
fn mul_f64() {
    let c = bc();
    assert_eq!(c * 5, Cubic::new(5, 10, 15, 20));
}

#[test]
fn degree() {
    assert_eq!(bc().degree(), 3);
}

#[test]
fn is_zero() {
    let c = Cubic::new(0, 0, 0, 0);
    assert!(c.is_zero());
    assert!(!bc().is_zero());
}

#[test]
fn cubic_is_zero_needs_every_coefficient() {
    assert!(!Cubic::new(1, 0, 0, 0).is_zero());
    assert!(!Cubic::new(0, 1, 0, 0).is_zero());
    assert!(!Cubic::new(0, 0, 1, 0).is_zero());
    assert!(!Cubic::new(0, 0, 0, 1).is_zero());
}

#[test]
fn cubic_evaluate_at_negative() {
    assert_eq!(bc().evaluate(-2), -8 + 8 - 6 + 4);
    assert_eq!(bc().evaluate(0), 4);
    assert_eq!(Cubic::new(1, 0, 0, 0).evaluate(-2097152), i64::MIN);
}

#[test]
fn cubic_to_string_skips_zero_terms() {
    assert_eq!(Cubic::new(-1, 0, 1, 0).to_string(), "-x^3 + x");
    assert_eq!(Cubic::new(3, -1, 0, -12).to_string(), "3x^3 - x^2 - 12");
    assert_eq!(Cubic::new(0, 0, 0, 0).to_string(), "");
}

#[test]
fn cubic_degree_ignores_leading_zero() {
    assert_eq!(Cubic::new(0, 0, 0, 0).degree(), 3);
    let sum = Cubic::new(1, 1, 1, 1) + Cubic::new(-1, 0, 0, 0);
    assert_eq!(sum, Cubic::new(0, 1, 1, 1));
    assert_eq!(sum.degree(), 3);
}
