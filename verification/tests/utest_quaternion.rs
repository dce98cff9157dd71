use m3d::quaternion::Quaternion;
use m3d::rational::Rational;
use m3d::vectors::Vector3;

fn rat(n: i128) -> Rational {
    Rational::from_int(n)
}

fn approx(r: &Rational, expected: f64, tol: f64) -> bool {
    let v = (r.numer() as f64) / (r.denom() as f64);
    (v - expected).abs() < tol
}

#[test]
fn test_quaternion_new() {
    let q1 = Quaternion::new(rat(1), [rat(2), rat(3), rat(4)]);
    let q2 = Quaternion::new(rat(1), [rat(2), rat(3), rat(4)]);
    assert!(q1.equals(&q2));
}

#[test]
fn utest_quaternion_test_quaternion_identity() {
    let q1 = Quaternion::identity();
    let q2 = Quaternion::identity();
    assert!(q1.equals(&q2));
}

#[test]
fn test_quaternion_from_axis_angle() {
    // The half angle of 90 degrees is 45 degrees; its sine and cosine are
    // both the square root of one half, approximated here to eleven digits.
    let s = Rational::new(70710678119, 100000000000);
    let c = Rational::new(70710678119, 100000000000);
    let axis = Vector3::new(rat(1), rat(0), rat(0));
    let q1 = Quaternion::from_axis_angle(axis, s, c);
    assert!(approx(&q1.index(0), 0.7071067811865476, 1e-9));
    assert!(approx(&q1.index(1), 0.7071067811865475, 1e-9));
    assert_eq!(q1.index(2).numer(), 0);
    assert_eq!(q1.index(3).numer(), 0);
}

#[test]
fn test_quaternion_from_euler() {
    let s = Rational::new(70710678119, 100000000000);
    let c = Rational::new(70710678119, 100000000000);
    let q1 = Quaternion::from_euler_angles(
        s,
        c,
        Rational::zero(),
        Rational::one(),
        Rational::zero(),
        Rational::one(),
    );
    assert!(approx(&q1.index(0), 0.7071067811865476, 1e-9));
    assert!(approx(&q1.index(1), 0.7071067811865475, 1e-9));
    assert_eq!(q1.index(2).numer(), 0);
    assert_eq!(q1.index(3).numer(), 0);
}

#[test]
fn test_quaternion_product() {
    let q1 = Quaternion::new(rat(1), [rat(2), rat(3), rat(4)]);
    let q2 = Quaternion::new(rat(1), [rat(2), rat(3), rat(4)]);
    let expected = Quaternion::new(rat(-28), [rat(4), rat(6), rat(8)]);
    let q3 = q1.product(q2);
    assert!(q3.equals(&expected));
}

#[test]
fn test_quaternion_conjugate() {
    let q1 = Quaternion::new(rat(1), [rat(2), rat(3), rat(4)]);
    let expected = Quaternion::new(rat(1), [rat(-2), rat(-3), rat(-4)]);
    let q2 = q1.conjugate();
    assert!(q2.equals(&expected));
}

#[test]
fn test_quaternion_div() {
    // Dividing a quaternion by itself yields the multiplicative identity.
    let q1 = Quaternion::new(rat(1), [rat(2), rat(3), rat(4)]);
    let q2 = Quaternion::new(rat(1), [rat(2), rat(3), rat(4)]);
    let expected = Quaternion::identity();
    let q3 = q1.quotient(q2);
    assert!(q3.equals(&expected));
}

#[test]
fn utest_quaternion_test_quaternion_sum() {
    let q1 = Quaternion::new(rat(1), [rat(2), rat(3), rat(4)]);
    let q2 = Quaternion::new(rat(1), [rat(2), rat(3), rat(4)]);
    let expected = Quaternion::new(rat(2), [rat(4), rat(6), rat(8)]);
    let q3 = q1.sum(q2);
    assert!(q3.equals(&expected));
}

#[test]
fn utest_quaternion_test_quaternion_sub() {
    let q1 = Quaternion::new(rat(1), [rat(2), rat(3), rat(4)]);
    let q2 = Quaternion::new(rat(5), [rat(6), rat(7), rat(8)]);
    let expected = Quaternion::new(rat(-4), [rat(-4), rat(-4), rat(-4)]);
    let q3 = q1.difference(q2);
    assert!(q3.equals(&expected));
}

#[test]
fn test_quaternion_rotate_vector() {
    // Rotating the unit vector along the second axis by 90 degrees about
    // the first axis carries it onto the third axis.
    let s = Rational::new(707107, 1000000);
    let c = Rational::new(707107, 1000000);
    let axis = Vector3::new(rat(1), rat(0), rat(0));
    let q = Quaternion::from_axis_angle(axis, s, c);
    let v = Vector3::new(rat(0), rat(1), rat(0));
    let r = q.rotate_vector(v);
    assert!(approx(&r.x(), 0.0, 1e-5));
    assert!(approx(&r.y(), 0.0, 1e-5));
    assert!(approx(&r.z(), 1.0, 1e-5));
}
