use m3d::quaternion::Quaternion;
use m3d::rational::Rational;

fn rat(n: i128) -> Rational {
    Rational::from_int(n)
}

#[test]
fn lib_test_quaternion_identity() {
    let q1 = Quaternion::identity();
    let q2 = Quaternion::identity();
    assert!(q1.equals(&q2));
}

#[test]
fn lib_test_quaternion_sum() {
    let q1 = Quaternion::new(rat(1), [rat(2), rat(3), rat(4)]);
    let q2 = Quaternion::new(rat(1), [rat(2), rat(3), rat(4)]);
    let expected = Quaternion::new(rat(2), [rat(4), rat(6), rat(8)]);
    let q3 = q1.sum(q2);
    assert!(q3.equals(&expected));
}

#[test]
fn lib_test_quaternion_sub() {
    let q1 = Quaternion::new(rat(1), [rat(2), rat(3), rat(4)]);
    let q2 = Quaternion::new(rat(5), [rat(6), rat(7), rat(8)]);
    let expected = Quaternion::new(rat(-4), [rat(-4), rat(-4), rat(-4)]);
    let q3 = q1.difference(q2);
    assert!(q3.equals(&expected));
}

#[test]
fn test_quarternion_conjugate() {
    let q1 = Quaternion::new(rat(7), [rat(3), rat(23), rat(11)]);
    let expected = Quaternion::new(rat(7), [rat(-3), rat(-23), rat(-11)]);
    let q2 = q1.conjugate();
    assert!(q2.equals(&expected));
}

#[test]
fn test_quarternion_product() {
    let q1 = Quaternion::new(rat(1), [rat(2), rat(3), rat(4)]);
    let q2 = Quaternion::new(rat(5), [rat(6), rat(7), rat(8)]);
    let expected = Quaternion::new(rat(-60), [rat(12), rat(30), rat(24)]);
    let q3 = q1.product(q2);
    assert!(q3.equals(&expected));
}

#[test]
fn test_quarternion_div() {
    let q1 = Quaternion::new(rat(1), [rat(0), rat(1), rat(0)]);
    let q2 = Quaternion::new(
        rat(1),
        [Rational::new(1, 2), Rational::new(1, 2), Rational::new(3, 4)],
    );
    let q3 = q1.quotient(q2);
    // Dividing and then multiplying back returns the dividend.
    let back = q3.product(q2);
    assert!(back.equals(&q1));
}
