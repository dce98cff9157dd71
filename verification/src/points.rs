//! Points in 3-space: a thin convenience layer over the vector type, with
//! rotation by quaternions.

use vstd::prelude::*;

use crate::arith::lemma_mul_fits;
use crate::arith::lemma_pos_mul;
use crate::quaternion::Quat;
use crate::quaternion::Quaternion;
use crate::quaternion::lemma_product_bounded2;
use crate::rational::LIMIT_CHAIN;
use crate::rational::LIMIT_COMPOSE;
use crate::rational::LIMIT_PAIR;
use crate::rational::LIMIT_TRIG;
use crate::rational::Rational;
use crate::vectors::Vec3;
use crate::vectors::Vector3;

verus! {

/// A point in 3-space, stored as its position vector.
#[derive(Clone, Copy, Debug)]
pub struct Point3 {
    /// The position vector of the point.
    pub xyz: Vector3,
}

impl View for Point3 {
    type V = Vec3;

    open spec fn view(&self) -> Vec3 {
        self.xyz@
    }
}

impl Point3 {
    /// Builds a point from its three coordinates.
    pub fn new(x: Rational, y: Rational, z: Rational) -> (r: Point3)
        requires
            x@.bounded(LIMIT_CHAIN as int),
            y@.bounded(LIMIT_CHAIN as int),
            z@.bounded(LIMIT_CHAIN as int),
        ensures
            r@ == Vec3::pack3(x@, y@, z@),
            r@.wf(),
    {
        Point3 { xyz: Vector3::new(x, y, z) }
    }

    /// Builds a point from its position vector.
    pub fn from_vector(vector: Vector3) -> (r: Point3)
        ensures
            r@ == vector@,
    {
        Point3 { xyz: vector }
    }

    /// The position vector of the point.
    pub fn to_vector(&self) -> (r: Vector3)
        ensures
            r@ == self@,
    {
        self.xyz
    }

    /// The square of the distance to another point. The distance itself is
    /// a square root and is left to the host's floating-point layer.
    pub fn distance_squared_to(&self, other: Point3) -> (r: Rational)
        requires
            self@.bounded(LIMIT_TRIG as int),
            other@.bounded(LIMIT_TRIG as int),
        ensures
            r@ == self@.difference(other@).magnitude_squared(),
            r@.wf(),
    {
        let diff = self.xyz.difference(other.xyz);
        proof {
            let m = LIMIT_TRIG as int;
            lemma_mul_fits(self@.x, other@.d, m, m);
            lemma_mul_fits(self@.y, other@.d, m, m);
            lemma_mul_fits(self@.z, other@.d, m, m);
            lemma_mul_fits(other@.x, self@.d, m, m);
            lemma_mul_fits(other@.y, self@.d, m, m);
            lemma_mul_fits(other@.z, self@.d, m, m);
            lemma_mul_fits(self@.d, other@.d, m, m);
        }
        diff.magnitude_squared()
    }

    /// The point rotated by a quaternion.
    pub fn rotate(&self, quaternion: Quaternion) -> (r: Point3)
        requires
            quaternion@.bounded(LIMIT_CHAIN as int),
            self@.bounded(LIMIT_CHAIN as int),
        ensures
            r@ == quaternion@.rotate(self@),
            r@.wf(),
    {
        Point3 { xyz: quaternion.rotate_vector(self.xyz) }
    }

    /// The point rotated by the composition of three Euler rotations,
    /// given the sines and cosines of the half-angles.
    pub fn rotate_euler(
        &self,
        sin_x: Rational,
        cos_x: Rational,
        sin_y: Rational,
        cos_y: Rational,
        sin_z: Rational,
        cos_z: Rational,
    ) -> (r: Point3)
        requires
            self@.bounded(LIMIT_CHAIN as int),
            sin_x@.bounded(LIMIT_COMPOSE as int),
            cos_x@.bounded(LIMIT_COMPOSE as int),
            sin_y@.bounded(LIMIT_COMPOSE as int),
            cos_y@.bounded(LIMIT_COMPOSE as int),
            sin_z@.bounded(LIMIT_COMPOSE as int),
            cos_z@.bounded(LIMIT_COMPOSE as int),
        ensures
            r@ == Quat::from_euler(sin_x@, cos_x@, sin_y@, cos_y@, sin_z@, cos_z@).rotate(self@),
            r@.wf(),
    {
        let q = Quaternion::from_euler_angles(sin_x, cos_x, sin_y, cos_y, sin_z, cos_z);
        proof {
            let m = LIMIT_COMPOSE as int;
            let qz = Quat::axis_z(sin_z@, cos_z@);
            let qy = Quat::axis_y(sin_y@, cos_y@);
            let qx = Quat::axis_x(sin_x@, cos_x@);
            lemma_mul_fits(cos_x@.n, sin_x@.d, m, m);
            lemma_mul_fits(sin_x@.n, cos_x@.d, m, m);
            lemma_mul_fits(cos_x@.d, sin_x@.d, m, m);
            lemma_pos_mul(cos_x@.d, sin_x@.d);
            lemma_mul_fits(cos_y@.n, sin_y@.d, m, m);
            lemma_mul_fits(sin_y@.n, cos_y@.d, m, m);
            lemma_mul_fits(cos_y@.d, sin_y@.d, m, m);
            lemma_pos_mul(cos_y@.d, sin_y@.d);
            lemma_mul_fits(cos_z@.n, sin_z@.d, m, m);
            lemma_mul_fits(sin_z@.n, cos_z@.d, m, m);
            lemma_mul_fits(cos_z@.d, sin_z@.d, m, m);
            lemma_pos_mul(cos_z@.d, sin_z@.d);
            lemma_product_bounded2(qz, qy, m * m, m * m);
            lemma_product_bounded2(qz.product(qy), qx, 4 * ((m * m) * (m * m)), m * m);
        }
        Point3 { xyz: q.rotate_vector(self.xyz) }
    }

    /// Exact value equality of the coordinates.
    pub fn equals(&self, other: &Point3) -> (b: bool)
        requires
            self@.bounded(LIMIT_PAIR as int),
            other@.bounded(LIMIT_PAIR as int),
        ensures
            b == self@.eqv(other@),
    {
        self.xyz.equals(&other.xyz)
    }
}

} // verus!
