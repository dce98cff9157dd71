use m3d::rational::Rational;
use m3d::vectors::Vector3;

fn rat(n: i128) -> Rational {
    Rational::from_int(n)
}

#[test]
fn test_vector3_new() {
    let v = Vector3::new(rat(1), rat(2), rat(3));
    assert!(v.index(0).equals(&rat(1)));
    assert!(v.index(1).equals(&rat(2)));
}

#[test]
fn test_vector3_from_array() {
    let v = Vector3::from_array([rat(1), rat(2), rat(3)]);
    assert!(v.index(0).equals(&rat(1)));
    assert!(v.index(1).equals(&rat(2)));
}

#[test]
fn test_vector3_decompose() {
    let v = Vector3::new(rat(1), rat(2), rat(3));
    let (x, y, z) = v.decompose();
    assert!(x.equals(&rat(1)));
    assert!(y.equals(&rat(2)));
    assert!(z.equals(&rat(3)));
}

#[test]
fn test_vector3_x() {
    let v = Vector3::new(rat(1), rat(2), rat(3));
    assert!(v.x().equals(&rat(1)));
}

#[test]
fn test_vector3_y() {
    let v = Vector3::new(rat(1), rat(2), rat(3));
    assert!(v.y().equals(&rat(2)));
}

#[test]
fn test_vector3_z() {
    let v = Vector3::new(rat(1), rat(2), rat(3));
    assert!(v.z().equals(&rat(3)));
}

#[test]
fn test_vector3_add() {
    let v1 = Vector3::new(rat(1), rat(2), rat(3));
    let v2 = Vector3::new(rat(2), rat(3), rat(4));
    let v3 = v1.sum(v2);
    assert!(v3.index(0).equals(&rat(3)));
    assert!(v3.index(1).equals(&rat(5)));
    assert!(v3.index(2).equals(&rat(7)));
}

#[test]
fn test_vector3_sub() {
    let v1 = Vector3::new(rat(1), rat(2), rat(3));
    let v2 = Vector3::new(rat(2), rat(3), rat(4));
    let v3 = v1.difference(v2);
    assert!(v3.index(0).equals(&rat(-1)));
    assert!(v3.index(1).equals(&rat(-1)));
    assert!(v3.index(2).equals(&rat(-1)));
}

#[test]
fn test_vector3_mul() {
    let v1 = Vector3::new(rat(1), rat(2), rat(3));
    let v2 = Vector3::new(rat(2), rat(3), rat(4));
    let v3 = v1.product(v2);
    assert!(v3.index(0).equals(&rat(2)));
    assert!(v3.index(1).equals(&rat(6)));
    assert!(v3.index(2).equals(&rat(12)));
}

#[test]
fn test_vector3_div() {
    let v1 = Vector3::new(rat(1), rat(2), rat(3));
    let v2 = Vector3::new(rat(2), rat(4), rat(6));
    let v3 = v1.quotient(v2);
    assert!(v3.index(0).equals(&Rational::new(1, 2)));
    assert!(v3.index(1).equals(&Rational::new(1, 2)));
    assert!(v3.index(2).equals(&Rational::new(1, 2)));
}

#[test]
fn test_vector3_dot() {
    let v1 = Vector3::new(rat(1), rat(2), rat(3));
    let v2 = Vector3::new(rat(2), rat(3), rat(4));
    let v3 = v1.dot(v2);
    assert!(v3.equals(&rat(20)));
}

#[test]
fn test_vector3_cross() {
    let v1 = Vector3::new(rat(1), rat(2), rat(3));
    let v2 = Vector3::new(rat(2), rat(3), rat(4));
    let v3 = v1.cross(v2);
    assert!(v3.index(0).equals(&rat(-1)));
    assert!(v3.index(1).equals(&rat(2)));
    assert!(v3.index(2).equals(&rat(-1)));
}

#[test]
fn test_vector3_magnitude_squared() {
    let v = Vector3::new(rat(1), rat(2), rat(3));
    assert!(v.magnitude_squared().equals(&rat(14)));
}

#[test]
fn test_vector3_scalar_ops() {
    let v = Vector3::new(rat(1), rat(2), rat(3));
    let doubled = v.product_scalar(rat(2));
    assert!(doubled.index(0).equals(&rat(2)));
    assert!(doubled.index(2).equals(&rat(6)));
    let shifted = v.sum_scalar(rat(2));
    assert!(shifted.index(0).equals(&rat(3)));
    let lowered = v.difference_scalar(rat(2));
    assert!(lowered.index(2).equals(&rat(1)));
    let halved = v.quotient_scalar(rat(2));
    assert!(halved.index(1).equals(&rat(1)));
    let negated = v.opposite();
    assert!(negated.index(0).equals(&rat(-1)));
}
