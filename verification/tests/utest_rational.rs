use m3d::rational::Rational;

#[test]
fn rational_sign_normalisation() {
    let a = Rational::new(1, -2);
    let b = Rational::new(-1, 2);
    assert!(a.equals(&b));
    assert_eq!(a.denom(), 2);
}

#[test]
fn rational_sum_and_difference() {
    let half = Rational::new(1, 2);
    let third = Rational::new(1, 3);
    assert!(half.sum(third).equals(&Rational::new(5, 6)));
    assert!(half.difference(third).equals(&Rational::new(1, 6)));
}

#[test]
fn rational_product_and_quotient() {
    let a = Rational::new(2, 3);
    let b = Rational::new(3, 4);
    assert!(a.product(b).equals(&Rational::new(1, 2)));
    let c = Rational::new(1, 2);
    let d = Rational::new(-3, 4);
    assert!(c.quotient(d).equals(&Rational::new(-2, 3)));
}

#[test]
fn rational_negate_and_zero() {
    let a = Rational::new(2, 5);
    assert!(a.negate().equals(&Rational::new(-2, 5)));
    assert!(Rational::zero().is_zero());
    assert!(!Rational::one().is_zero());
    assert!(Rational::from_int(3).equals(&Rational::new(6, 2)));
}
