// Scalar operations, driven the way a host drives them: evaluate the
// IEEE-754 arithmetic here, hand each result in as an Fp, and check what
// the core records and refuses.

use unified_uncertainty::Fp;
use unified_uncertainty::UnifiedNumber;

fn fp(x: f64) -> Fp {
    Fp::new(x.to_bits(), format!("{}", x))
}

fn num(value: f64, uncertainty: f64) -> UnifiedNumber {
    UnifiedNumber::new(fp(value), fp(uncertainty))
}

fn val(n: &UnifiedNumber) -> f64 {
    f64::from_bits(n.value.bits)
}

fn unc(n: &UnifiedNumber) -> f64 {
    f64::from_bits(n.uncertainty.bits)
}

fn sum_of(a: &UnifiedNumber, b: &UnifiedNumber) -> UnifiedNumber {
    let v = val(a) + val(b);
    let u = (unc(a).powi(2) + unc(b).powi(2)).sqrt();
    a.add(b, fp(v), fp(u))
}

fn difference_of(a: &UnifiedNumber, b: &UnifiedNumber) -> UnifiedNumber {
    let v = val(a) - val(b);
    let u = (unc(a).powi(2) + unc(b).powi(2)).sqrt();
    a.subtract(b, fp(v), fp(u))
}

fn product_of(a: &UnifiedNumber, b: &UnifiedNumber) -> UnifiedNumber {
    let v = val(a) * val(b);
    let rel = (unc(a) / val(a)).powi(2) + (unc(b) / val(b)).powi(2);
    a.multiply(b, fp(v), fp(v * rel.sqrt()))
}

fn quotient_of(a: &UnifiedNumber, b: &UnifiedNumber) -> Option<UnifiedNumber> {
    let v = val(a) / val(b);
    let rel = (unc(a) / val(a)).powi(2) + (unc(b) / val(b)).powi(2);
    a.divide(b, fp(v), fp(v * rel.sqrt()))
}

#[test]
fn uncertainty_adds_in_quadrature_and_sum_is_symmetric() {
    let a = num(2.0, 0.1);
    let b = num(3.0, 0.2);
    let r = sum_of(&a, &b);
    assert_eq!(val(&r), 5.0);
    assert_eq!(r.uncertainty.bits, (0.1f64.powi(2) + 0.2f64.powi(2)).sqrt().to_bits());
    let s = sum_of(&b, &a);
    assert_eq!(r.value.bits, s.value.bits);
    assert_eq!(r.uncertainty.bits, s.uncertainty.bits);
    assert_eq!(r.symbolic, "(2±0.1) + (3±0.2)");
}

#[test]
fn subtraction_also_adds_uncertainty_in_quadrature() {
    let a = num(5.0, 0.3);
    let b = num(2.0, 0.4);
    let r = difference_of(&a, &b);
    assert_eq!(val(&r), 3.0);
    assert_eq!(r.uncertainty.bits, (0.3f64.powi(2) + 0.4f64.powi(2)).sqrt().to_bits());
    assert_eq!(r.symbolic, "(5±0.3) - (2±0.4)");
}

#[test]
fn product_carries_relative_uncertainty() {
    let a = num(4.0, 0.1);
    let b = num(5.0, 0.2);
    let r = product_of(&a, &b);
    assert_eq!(val(&r), 20.0);
    let expected = 20.0f64 * ((0.1f64 / 4.0).powi(2) + (0.2f64 / 5.0).powi(2)).sqrt();
    assert_eq!(r.uncertainty.bits, expected.to_bits());
    assert_eq!(r.symbolic, "(4±0.1) * (5±0.2)");
}

#[test]
fn divide_by_zero_is_absent_and_quotient_is_exact() {
    let a = num(10.0, 0.1);
    let zero = num(0.0, 0.5);
    assert!(quotient_of(&a, &zero).is_none());
    let negative_zero = num(-0.0, 0.5);
    assert!(quotient_of(&a, &negative_zero).is_none());
    let b = num(4.0, 0.2);
    let r = quotient_of(&a, &b).unwrap();
    assert_eq!(val(&r), 2.5);
    assert_eq!(r.symbolic, "(10±0.1) / (4±0.2)");
}

#[test]
fn power_records_exponent_in_the_trail() {
    let a = num(3.0, 0.1);
    let e = 2.0f64;
    let v = 3.0f64.powf(e);
    let u = 0.1 * e * v / 3.0;
    let r = a.power(fp(e), fp(v), fp(u));
    assert_eq!(val(&r), 9.0);
    assert_eq!(r.symbolic, "(3±0.1)^2");
}

#[test]
fn even_root_of_negative_is_absent_odd_root_is_not() {
    let minus_eight = num(-8.0, 0.5);
    let square = 2.0f64;
    let cube = 3.0f64;
    assert!(minus_eight.root(fp(square), fp(0.0), fp(0.0)).is_none());
    let odd = minus_eight.root(fp(cube), fp((-8.0f64).powf(1.0 / cube)), fp(0.0));
    assert!(odd.is_some());
    assert_eq!(odd.unwrap().symbolic, "root(-8±0.5, 3)");
    let four = num(4.0, 0.1);
    let v = 4.0f64.powf(1.0 / square);
    let u = 0.1 / (square * v.powf(1.0 - 1.0 / square));
    let r = four.root(fp(square), fp(v), fp(u)).unwrap();
    assert_eq!(val(&r), 2.0);
    assert_eq!(r.symbolic, "root(4±0.1, 2)");
}

#[test]
fn log_domain_violations_are_absent() {
    let base_ten = 10.0f64;
    assert!(num(0.0, 0.1).log(fp(base_ten), fp(0.0), fp(0.0)).is_none());
    assert!(num(-3.0, 0.1).log(fp(base_ten), fp(0.0), fp(0.0)).is_none());
    let hundred = num(100.0, 0.1);
    assert!(hundred.log(fp(0.0), fp(0.0), fp(0.0)).is_none());
    assert!(hundred.log(fp(-2.0), fp(0.0), fp(0.0)).is_none());
    assert!(hundred.log(fp(1.0), fp(0.0), fp(0.0)).is_none());
}

#[test]
fn log_of_hundred_in_base_ten_is_two_with_no_uncertainty() {
    let a = num(100.0, 0.0);
    let base = 10.0f64;
    let v = 100.0f64.log(base);
    let u = 0.0 / (100.0 * base.ln());
    let r = a.log(fp(base), fp(v), fp(u)).unwrap();
    assert!((val(&r) - 2.0).abs() < 1e-12);
    assert_eq!(unc(&r), 0.0);
    assert_eq!(r.symbolic, "log(100±0, 10)");
}

#[test]
fn ln_of_non_positive_is_absent() {
    assert!(num(0.0, 0.1).ln(fp(0.0), fp(0.0)).is_none());
    assert!(num(-1.0, 0.1).ln(fp(0.0), fp(0.0)).is_none());
    let e = std::f64::consts::E;
    let a = num(e, 0.1);
    let r = a.ln(fp(e.ln()), fp(0.1 / e)).unwrap();
    assert_eq!(val(&r), 1.0);
}

#[test]
fn tangent_pole_is_absent_and_tangent_of_zero_is_zero() {
    // The exact pole is not representable as a double, so the diverging
    // tangent itself stands for the pole case.
    let near_pole = num(std::f64::consts::FRAC_PI_2, 0.0);
    assert!(near_pole.tan(fp(f64::INFINITY), fp(f64::INFINITY)).is_none());
    assert!(near_pole.tan(fp(f64::NAN), fp(f64::NAN)).is_none());
    let zero = num(0.0, 0.0);
    let v = 0.0f64.tan();
    let u = 0.0 / 0.0f64.cos().powi(2);
    let r = zero.tan(fp(v), fp(u)).unwrap();
    assert_eq!(val(&r), 0.0);
    assert_eq!(r.symbolic, "tan(0±0)");
}

#[test]
fn transcendental_operations_record_their_trails() {
    let a = num(1.0, 0.1);
    let x = 1.0f64;
    let s = 0.1f64;
    let sin = a.sin(fp(x.sin()), fp(s * x.cos()));
    assert_eq!(sin.value.bits, x.sin().to_bits());
    assert_eq!(sin.symbolic, "sin(1±0.1)");
    let cos = a.cos(fp(x.cos()), fp(s * x.sin().abs()));
    assert_eq!(cos.symbolic, "cos(1±0.1)");
    let exp = a.exp(fp(x.exp()), fp(s * x.exp()));
    assert_eq!(exp.value.bits, x.exp().to_bits());
    assert_eq!(exp.symbolic, "exp(1±0.1)");
    let sinh = a.sinh(fp(x.sinh()), fp(s * x.cosh()));
    assert_eq!(sinh.symbolic, "sinh(1±0.1)");
    let cosh = a.cosh(fp(x.cosh()), fp(s * x.sinh()));
    assert_eq!(cosh.symbolic, "cosh(1±0.1)");
    let tanh = a.tanh(fp(x.tanh()), fp(s / x.cosh().powi(2)));
    assert_eq!(tanh.value.bits, x.tanh().to_bits());
    assert_eq!(tanh.symbolic, "tanh(1±0.1)");
}

#[test]
fn choice_selects_first_or_second_whole() {
    let a = num(2.0, 0.1);
    let b = num(7.0, 0.9);
    let kept = a.choice(&b, true);
    assert_eq!(kept.value.bits, a.value.bits);
    assert_eq!(kept.uncertainty.bits, a.uncertainty.bits);
    assert_eq!(kept.symbolic, "(2±0.1) if condition else [skipped]");
    let dropped = a.choice(&b, false);
    assert_eq!(dropped.value.bits, b.value.bits);
    assert_eq!(dropped.uncertainty.bits, b.uncertainty.bits);
    assert_eq!(dropped.symbolic, "[skipped] if condition else (7±0.9)");
}

#[test]
fn display_matches_the_documented_line() {
    let a = num(5.0, 0.1);
    assert_eq!(a.display(), "Value: 5, Uncertainty: 0.1, Symbolic: 5±0.1");
}

#[test]
fn trail_nests_one_shell_per_operation() {
    let a = num(2.0, 0.1);
    let b = num(3.0, 0.2);
    let one = sum_of(&a, &b);
    assert_eq!(one.symbolic, "(2±0.1) + (3±0.2)");
    let x = val(&one);
    let two = one.sin(fp(x.sin()), fp(unc(&one) * x.cos()));
    assert_eq!(two.symbolic, "sin((2±0.1) + (3±0.2))");
    let y = val(&two);
    let three = two.exp(fp(y.exp()), fp(unc(&two) * y.exp()));
    assert_eq!(three.symbolic, "exp(sin((2±0.1) + (3±0.2)))");
}
