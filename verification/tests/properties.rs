//! Concrete checks of the library's stated laws, on exactly representable
//! rotations: the quaternion (3/5, 4/5, 0, 0) has unit norm exactly.

use m3d::camera::Camera;
use m3d::camera::projection;
use m3d::camera::scale;
use m3d::camera::translation;
use m3d::matrices::Matrix4;
use m3d::points::Point3;
use m3d::quaternion::Quaternion;
use m3d::rational::Rational;
use m3d::vectors::Vector3;
use m3d::vectors::Vector4;

fn rat(n: i128) -> Rational {
    Rational::from_int(n)
}

fn unit_q() -> Quaternion {
    Quaternion::new(Rational::new(3, 5), [Rational::new(4, 5), rat(0), rat(0)])
}

#[test]
fn identity_laws() {
    let q = Quaternion::new(rat(1), [rat(2), rat(3), rat(4)]);
    let i = Quaternion::identity();
    assert!(q.product(i).equals(&q));
    assert!(i.product(q).equals(&q));
}

#[test]
fn conjugate_equals_inverse_for_unit_norm() {
    let q = unit_q();
    assert!(q.is_unit());
    assert!(q.conjugate().equals(&q.inverse()));
}

#[test]
fn rotation_preserves_magnitude() {
    let q = unit_q();
    let v = Vector3::new(rat(1), rat(2), rat(3));
    let r = q.rotate_vector(v);
    assert!(r.magnitude_squared().equals(&v.magnitude_squared()));
    assert!(v.magnitude_squared().equals(&rat(14)));
}

#[test]
fn rotation_matrix_agrees_with_sandwich() {
    let q = unit_q();
    let v = Vector3::new(rat(1), rat(2), rat(3));
    let by_sandwich = q.rotate_vector(v);
    let by_matrix = v.product_matrix(q.rotation_matrix());
    assert!(by_sandwich.equals(&by_matrix));
}

#[test]
fn axis_angle_agrees_with_single_axis_euler() {
    let s = Rational::new(4, 5);
    let c = Rational::new(3, 5);
    let axis = Vector3::new(rat(1), rat(0), rat(0));
    let from_axis = Quaternion::from_axis_angle(axis, s, c);
    let from_euler = Quaternion::from_euler_angles(
        s,
        c,
        Rational::zero(),
        Rational::one(),
        Rational::zero(),
        Rational::one(),
    );
    assert!(from_axis.equals(&from_euler));
}

#[test]
fn sandwich_real_part_vanishes() {
    let q = Quaternion::new(rat(2), [rat(1), rat(-3), rat(5)]);
    let p = Quaternion::new(rat(0), [rat(7), rat(11), rat(-2)]);
    let sandwich = q.product(p).product(q.conjugate());
    assert_eq!(sandwich.real_part().numer(), 0);
}

#[test]
fn norm_squared_is_multiplicative() {
    let a = Quaternion::new(rat(1), [rat(2), rat(3), rat(4)]);
    let b = Quaternion::new(rat(5), [rat(6), rat(7), rat(8)]);
    let lhs = a.product(b).norm_squared();
    let rhs = a.norm_squared().product(b.norm_squared());
    assert!(lhs.equals(&rhs));
}

#[test]
fn point_rotation_about_first_axis() {
    // The half-angle sines and cosines (4/5, 3/5) describe the rotation
    // whose full angle has sine 24/25 and cosine -7/25.
    let p = Point3::new(rat(0), rat(1), rat(0));
    let r = p.rotate_euler(
        Rational::new(4, 5),
        Rational::new(3, 5),
        Rational::zero(),
        Rational::one(),
        Rational::zero(),
        Rational::one(),
    );
    let expected = Point3::new(rat(0), Rational::new(-7, 25), Rational::new(24, 25));
    assert!(r.equals(&expected));
}

#[test]
fn point_distance_squared() {
    let p = Point3::new(rat(1), rat(2), rat(3));
    let other = Point3::new(rat(4), rat(5), rat(6));
    assert!(p.distance_squared_to(other).equals(&rat(27)));
}

#[test]
fn point_rotate_by_quaternion() {
    let q = unit_q();
    let p = Point3::new(rat(0), rat(1), rat(0));
    let r = p.rotate(q);
    let direct = Point3 { xyz: q.rotate_vector(Vector3::new(rat(0), rat(1), rat(0))) };
    assert!(r.equals(&direct));
}

#[test]
fn camera_view_with_identity_rotation_is_translation() {
    let cam = Camera::new(
        Point3::new(rat(1), rat(2), rat(3)),
        Quaternion::identity(),
        rat(90),
        rat(1),
        rat(1),
        rat(100),
    );
    let view = cam.view();
    let expected = translation(rat(1), rat(2), rat(3));
    assert!(view.equals(&expected));
}

#[test]
fn camera_projection_entries() {
    let cam = Camera::new(
        Point3::new(rat(0), rat(0), rat(0)),
        Quaternion::identity(),
        rat(90),
        rat(1),
        rat(1),
        rat(2),
    );
    // With the reciprocal tangent equal to one, an aspect of one, the near
    // plane at one and the far plane at two, the diagonal is
    // (1, 1, -3, 0), the last column holds -1 and the last row holds -4.
    let m = cam.projection(rat(1));
    assert!(m.index(0).equals(&rat(1)));
    assert!(m.index(5).equals(&rat(1)));
    assert!(m.index(10).equals(&rat(-3)));
    assert!(m.index(11).equals(&rat(-1)));
    assert!(m.index(14).equals(&rat(-4)));
    assert!(m.index(15).equals(&rat(0)));
}

#[test]
fn camera_getters_and_setters() {
    let mut cam = Camera::new(
        Point3::new(rat(0), rat(0), rat(0)),
        Quaternion::identity(),
        rat(90),
        rat(1),
        rat(1),
        rat(100),
    );
    cam.update_fov(rat(60));
    assert!(cam.fov().equals(&rat(60)));
    cam.update_aspect(rat(2));
    assert!(cam.aspect().equals(&rat(2)));
    cam.update_near(rat(2));
    assert!(cam.near().equals(&rat(2)));
    cam.update_far(rat(50));
    assert!(cam.far().equals(&rat(50)));
    cam.update_position(Point3::new(rat(1), rat(1), rat(1)));
    assert!(cam.position().equals(&Point3::new(rat(1), rat(1), rat(1))));
    cam.update_rotation(unit_q());
    assert!(cam.rotation().equals(&unit_q()));
}

#[test]
fn scale_matrix_entries() {
    let m = scale(rat(2), rat(3), rat(4));
    assert!(m.index(0).equals(&rat(2)));
    assert!(m.index(5).equals(&rat(3)));
    assert!(m.index(10).equals(&rat(4)));
    assert!(m.index(15).equals(&rat(1)));
    assert!(m.index(1).equals(&rat(0)));
}

#[test]
fn translation_matrix_entries() {
    let m = translation(Rational::new(1, 2), rat(2), rat(3));
    assert!(m.index(0).equals(&rat(1)));
    assert!(m.index(12).equals(&Rational::new(1, 2)));
    assert!(m.index(13).equals(&rat(2)));
    assert!(m.index(14).equals(&rat(3)));
    assert!(m.index(15).equals(&rat(1)));
}

#[test]
fn projection_second_frustum() {
    // A second frustum, checking the two quotient entries exactly:
    // (far + near) / (near - far) and 2 * far * near / (near - far).
    let m = projection(rat(2), rat(2), rat(1), rat(3));
    assert!(m.index(0).equals(&rat(1)));
    assert!(m.index(5).equals(&rat(2)));
    assert!(m.index(10).equals(&rat(-2)));
    assert!(m.index(14).equals(&rat(-3)));
}

#[test]
fn vector4_operations() {
    let v1 = Vector4::new(rat(1), rat(2), rat(3), rat(4));
    let v2 = Vector4::new(rat(5), rat(6), rat(7), rat(8));
    let v3 = v1.sum(v2);
    assert!(v3.index(0).equals(&rat(6)));
    assert!(v3.index(3).equals(&rat(12)));
    let d = v1.dot(v2);
    assert!(d.equals(&rat(70)));
    assert!(v1.magnitude_squared().equals(&rat(30)));
    let diff = v2.difference(v1);
    assert!(diff.index(2).equals(&rat(4)));
    let prod = v1.product(v2);
    assert!(prod.index(1).equals(&rat(12)));
    let quot = v2.quotient(v1);
    assert!(quot.index(3).equals(&rat(2)));
    let through_identity = v1.product_matrix(Matrix4::identity());
    assert!(through_identity.equals(&v1));
}

#[test]
fn matrix4_product_with_identity() {
    let m = Matrix4::new(
        rat(1), rat(2), rat(3), rat(4),
        rat(5), rat(6), rat(7), rat(8),
        rat(9), rat(10), rat(11), rat(12),
        rat(13), rat(14), rat(15), rat(16),
    );
    let p = m.product(Matrix4::identity());
    assert!(p.equals(&m));
    let t = m.transpose();
    assert!(t.index(1).equals(&rat(5)));
    let rows = m.to_array_vectors();
    assert!(rows[3].index(3).equals(&rat(16)));
}
