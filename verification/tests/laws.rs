use polynomials::{Cubic, Linear, Polynomial, Quadratic, Quartic};

#[test]
fn evaluate_matches_substitution() {
    let c = Cubic::new(1, 2, 3, 4);
    assert_eq!(c.evaluate(5), 1 * 125 + 2 * 25 + 3 * 5 + 4);
    assert_eq!(c.evaluate(5), 194);
    let q = Quartic::new(-3, 0, 2, -7, 11);
    for x in -9i64..10 {
        assert_eq!(q.evaluate(x), -3 * x * x * x * x + 2 * x * x - 7 * x + 11);
    }
}

#[test]
fn subtraction_undoes_addition() {
    let l = Linear::new(-7, 12);
    let q = Quadratic::new(3, -4, 5);
    let c = Cubic::new(9, 8, -7, 6);
    let r = Quartic::new(-1, 2, -3, 4, -5);
    assert_eq!((l + l) - l, l);
    assert_eq!((l + 5) - 5, l);
    assert_eq!((q + q) - q, q);
    assert_eq!((q + l) - l, q);
    assert_eq!((q + -9) - -9, q);
    assert_eq!((c + c) - c, c);
    assert_eq!((c + q) - q, c);
    assert_eq!((c + l) - l, c);
    assert_eq!((c + 1) - 1, c);
    assert_eq!((r + r) - r, r);
    assert_eq!((r + c) - c, r);
    assert_eq!((r + q) - q, r);
    assert_eq!((r + l) - l, r);
    assert_eq!((r + 100) - 100, r);
    assert_eq!((r - c) + c, r);
}

#[test]
fn addition_at_the_limits() {
    let top = Linear::new(i64::MAX, i64::MIN);
    assert_eq!(top + Linear::new(0, 0), top);
    assert_eq!(top - Linear::new(i64::MAX, i64::MIN), Linear::new(0, 0));
    assert_eq!((top + Linear::new(-1, 1)) - Linear::new(-1, 1), top);
}

#[test]
fn product_has_the_sum_of_the_degrees() {
    let l = Linear::new(2, 3);
    let q = Quadratic::new(1, 2, 3);
    let c = Cubic::new(1, 2, 3, 4);
    assert_eq!((l * l).degree(), l.degree() + l.degree());
    assert_eq!((q * l).degree(), q.degree() + l.degree());
    assert_eq!((q * q).degree(), q.degree() + q.degree());
    assert_eq!((c * l).degree(), c.degree() + l.degree());
    assert_eq!((c * 0).degree(), c.degree());
}

#[test]
fn product_is_the_convolution() {
    assert_eq!(
        Quadratic::new(1, 2, 3) * Quadratic::new(4, 5, 6),
        Quartic::new(4, 13, 28, 27, 18)
    );
    assert_eq!(Linear::new(1, -1) * Linear::new(1, 1), Quadratic::new(1, 0, -1));
    assert_eq!(Quadratic::new(1, 1, 1) * Linear::new(1, -1), Cubic::new(1, 0, 0, -1));
    assert_eq!(Cubic::new(1, -1, 1, -1) * Linear::new(1, 1), Quartic::new(1, 0, 0, 0, -1));
}

#[test]
fn value_of_product_is_product_of_values() {
    let p = Quadratic::new(2, -3, 4);
    let q = Quadratic::new(-1, 5, 6);
    let l = Linear::new(7, -2);
    let c = Cubic::new(1, 0, -2, 3);
    for x in -6i64..7 {
        assert_eq!((p * q).evaluate(x), p.evaluate(x) * q.evaluate(x));
        assert_eq!((p * l).evaluate(x), p.evaluate(x) * l.evaluate(x));
        assert_eq!((l * l).evaluate(x), l.evaluate(x) * l.evaluate(x));
        assert_eq!((c * l).evaluate(x), c.evaluate(x) * l.evaluate(x));
        assert_eq!((c * 3).evaluate(x), c.evaluate(x) * 3);
        assert_eq!((c + p).evaluate(x), c.evaluate(x) + p.evaluate(x));
        assert_eq!((c - l).evaluate(x), c.evaluate(x) - l.evaluate(x));
    }
}

#[test]
fn zero_test_and_zero_text_agree() {
    assert!(Linear::new(0, 0).is_zero());
    assert!(Quadratic::new(0, 0, 0).is_zero());
    assert!(Cubic::new(0, 0, 0, 0).is_zero());
    assert!(Quartic::new(0, 0, 0, 0, 0).is_zero());
    assert_eq!(Linear::new(0, 0).to_string(), "");
    assert_eq!(Quadratic::new(0, 0, 0).to_string(), "");
    assert_eq!(Cubic::new(0, 0, 0, 0).to_string(), "");
    assert_eq!(Quartic::new(0, 0, 0, 0, 0).to_string(), "");
}
