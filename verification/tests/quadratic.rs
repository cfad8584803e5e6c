use polynomials::format::{render, Numeral, Sign};
use polynomials::{Cubic, Linear, Polynomial, Quadratic, QuadraticRoots, Quartic, Ratio, SolveError};

fn read(value: f64) -> Numeral {
    let sign = if value > 0.0 {
        Sign::Positive
    } else if value < 0.0 {
        Sign::Negative
    } else if value == 0.0 {
        Sign::Zero
    } else {
        Sign::Undefined
    };
    Numeral::new(sign, value.abs().to_string())
}

fn value_of(q: &Quadratic, x: f64) -> f64 {
    (q.a as f64 * x * x) + (q.b as f64 * x) + q.c as f64
}

#[test]
fn quadratic_eval() {
    let q = Quadratic::new(2, 3, -1);
    assert_eq!(q.evaluate(5), 64);
}

#[test]
fn quadratic_to_string() {
    let q = vec![read(-2.5), read(-1.0), read(1.0)];
    assert_eq!(render(&q), String::from("-2.5x^2 - x + 1"));
}

#[test]
fn quadratic_to_string_whole() {
    assert_eq!(Quadratic::new(-2, -1, 1).to_string(), "-2x^2 - x + 1");
    assert_eq!(Quadratic::new(0, 1, 2).to_string(), " + x + 2");
    assert_eq!(Quadratic::new(0, 0, -7).to_string(), " - 7");
    assert_eq!(Quadratic::new(0, 0, 0).to_string(), "");
}

#[test]
fn quadratic_add_qad_tenths() {
    let q1 = Quadratic::new(36, 20, 10);
    let q2 = Quadratic::new(14, 30, 40);
    assert_eq!(q1 + q2, Quadratic::new(50, 50, 50));
}

#[test]
fn quadratic_add_lin() {
    let q = Quadratic::new(1, 2, 3);
    assert_eq!(q + Linear::new(4, 5), Quadratic::new(1, 6, 8));
}

#[test]
fn quadratic_add_f64() {
    let q = Quadratic::new(1, 2, 3);
    assert_eq!(q + 4, Quadratic::new(1, 2, 7));
}

#[test]
fn quadratic_sub_qad() {
    let q1 = Quadratic::new(-5, -5, -5);
    let q2 = Quadratic::new(5, 10, 20);
    assert_eq!(q1 - q2, Quadratic::new(-10, -15, -25));
}

#[test]
fn quadratic_sub_lin() {
    let q = Quadratic::new(0, 1, 2);
    assert_eq!(q - Linear::new(3, 5), Quadratic::new(0, -2, -3));
}

#[test]
fn quadratic_sub_f64() {
    let q = Quadratic::new(0, 1, 2);
    assert_eq!(q - 5, Quadratic::new(0, 1, -3));
}

#[test]
fn mul_qad() {
    let q1 = Quadratic::new_i(1, 2, 3);
    let q2 = Quadratic::new_i(4, 5, 6);
    assert_eq!(q1 * q2, Quartic::new_i(4, 13, 28, 27, 18));
}

#[test]
fn quadratic_mul_lin() {
    let q = Quadratic::new(2, 3, 4);
    let l = Linear::new(5, 6);
    assert_eq!(q * l, Cubic::new(10, 27, 38, 24));
}

#[test]
fn quadratic_mul_f64() {
    let q = Quadratic::new(2, 3, 4);
    assert_eq!(q * 5, Quadratic::new(10, 15, 20));
}

#[test]
fn quadratic_degree() {
    let q = Quadratic::new(0, 0, 0);
    assert_eq!(q.degree(), 2);
}

#[test]
fn quadratic_is_zero() {
    let q = Quadratic::new(0, 0, 0);
    let q2 = Quadratic::new(0, 1, 0);
    assert!(q.is_zero());
    assert!(!q2.is_zero());
    assert!(!Quadratic::new(1, 0, 0).is_zero());
    assert!(!Quadratic::new(0, 0, 1).is_zero());
}

#[test]
fn quadratic_mul_extremes() {
    let q = Quadratic::new(i64::MIN, 0, 0);
    assert_eq!(q * Quadratic::new(0, 0, 1), Quartic::new(0, 0, i64::MIN, 0, 0));
    let r = Quadratic::new(i64::MAX, i64::MAX, i64::MAX) * Quadratic::new(0, 1, -1);
    assert_eq!(r, Quartic::new(0, i64::MAX, 0, 0, -i64::MAX));
}

#[test]
fn quadratic_discriminant() {
    assert_eq!(Quadratic::new(2, 3, -1).discriminant(), 17);
    assert_eq!(Quadratic::new(1, 0, 1).discriminant(), -4);
    assert_eq!(Quadratic::new(1, 2, 1).checked_discriminant(), Some(0));
    assert_eq!(Quadratic::new(0, i64::MIN, 0).checked_discriminant(), Some(1 << 126));
}

#[test]
fn quadratic_discriminant_too_large() {
    assert_eq!(Quadratic::new(i64::MIN, 0, i64::MIN).checked_discriminant(), None);
    assert_eq!(Quadratic::new(i64::MIN, i64::MIN, i64::MAX).checked_discriminant(), None);
    let widest = Quadratic::new(i64::MAX, 0, -i64::MAX);
    assert_eq!(widest.checked_discriminant(), None);
    let wide = Quadratic::new(1 << 62, 0, -(1 << 62));
    assert_eq!(wide.checked_discriminant(), Some(1 << 126));
}

#[test]
fn quadratic_vertex() {
    let point = Quadratic::new(1, -2, 3).vertex().unwrap();
    assert_eq!(point[0], Ratio { num: 2, den: 2 });
    assert_eq!(point[1], Ratio { num: 8, den: 4 });
    let q = Quadratic::new(2, 3, -1);
    let point = q.vertex().unwrap();
    assert_eq!(point, [Ratio { num: -3, den: 4 }, Ratio { num: -17, den: 8 }]);
    let x = point[0].num as f64 / point[0].den as f64;
    let y = point[1].num as f64 / point[1].den as f64;
    assert_eq!(value_of(&q, x), y);
}

#[test]
fn quadratic_vertex_degenerate() {
    assert_eq!(Quadratic::new(0, 3, 1).vertex(), Err(SolveError::Degenerate));
}

fn numbers(roots: &QuadraticRoots) -> [f64; 2] {
    let s = (roots.discriminant as f64).sqrt();
    let (center, denominator) = (roots.center as f64, roots.denominator as f64);
    [(center + s) / denominator, (center - s) / denominator]
}

fn by_formula(a: f64, b: f64, c: f64) -> [f64; 2] {
    let b2a = b / (2.0 * a);
    let root = (b2a.powi(2) - c / a).sqrt();
    [-(b2a) + root, -(b2a) - root]
}

#[test]
fn quadratic_solver() {
    let q = Quadratic::new(2, 3, -1);
    let roots = q.solver().unwrap();
    assert_eq!(roots, QuadraticRoots { center: -3, discriminant: 17, denominator: 4 });
    let [first, second] = numbers(&roots);
    assert!(first > second);
    assert!(value_of(&q, first).abs() < 1e-12);
    assert!(value_of(&q, second).abs() < 1e-12);
}

#[test]
fn quadratic_solver_negative_leading_coefficient() {
    let q = Quadratic::new(-1, 1, 2);
    let roots = q.solver().unwrap();
    assert_eq!(roots, QuadraticRoots { center: 1, discriminant: 9, denominator: 2 });
    assert_eq!(numbers(&roots), [2.0, -1.0]);
    assert_eq!(numbers(&roots), by_formula(-1.0, 1.0, 2.0));
}

#[test]
fn quadratic_solver_gives_the_greater_root_first() {
    let cases = [(1, -3, 2), (-1, 3, -2), (2, 3, -1), (-2, -3, 1), (-4, 0, 16), (3, 0, -12)];
    for (a, b, c) in cases {
        let q = Quadratic::new(a, b, c);
        let [first, second] = numbers(&q.solver().unwrap());
        let [plus, minus] = by_formula(a as f64, b as f64, c as f64);
        assert!(first > second);
        assert!((first - plus).abs() < 1e-12);
        assert!((second - minus).abs() < 1e-12);
    }
}

#[test]
fn quadratic_solver_double_root() {
    let roots = Quadratic::new(1, -4, 4).solver().unwrap();
    assert_eq!(roots, QuadraticRoots { center: 4, discriminant: 0, denominator: 2 });
    assert_eq!(numbers(&roots), [2.0, 2.0]);
    let roots = Quadratic::new(-1, 4, -4).solver().unwrap();
    assert_eq!(roots, QuadraticRoots { center: 4, discriminant: 0, denominator: 2 });
}

#[test]
fn quadratic_solver_at_the_limits() {
    let roots = Quadratic::new(i64::MIN, i64::MIN, 0).solver().unwrap();
    assert_eq!(
        roots,
        QuadraticRoots { center: -(1 << 63), discriminant: 1 << 126, denominator: 1 << 64 }
    );
    assert_eq!(numbers(&roots), [0.0, -1.0]);
}

#[test]
fn quadratic_solver_no_real_roots() {
    assert_eq!(Quadratic::new(1, 0, 1).solver(), Err(SolveError::NoRealRoots));
}

#[test]
fn quadratic_solver_without_square_term() {
    let roots = Quadratic::new(0, 2, 1).solver().unwrap();
    assert_eq!(roots, QuadraticRoots { center: -2, discriminant: 4, denominator: 0 });
}
