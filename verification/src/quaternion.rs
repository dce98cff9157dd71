//! Quaternions: the rotation and composition engine of the library.
//!
//! A quaternion `(w, x, y, z)` over a shared positive denominator `d`
//! denotes the values `(w/d, x/d, y/d, z/d)`. The Hamilton product, the
//! conjugate, the inverse, the sandwich rotation of a vector and the
//! rotation matrix are all exact; the laws at the end of this module state
//! and prove their algebra. The transcendental constructors take the sine
//! and cosine of the half-angles as precomputed scalars: computing a sine
//! belongs to the host's floating-point layer, not to this library.

use vstd::prelude::*;

use crate::arith::lemma_distrib2;
use crate::arith::lemma_distrib3;
use crate::arith::lemma_distrib4;
use crate::arith::lemma_two_mul;
use crate::arith::lemma_four_square;
use crate::arith::lemma_mul3_comm;
use crate::arith::lemma_mul_fits;
use crate::arith::lemma_mul4_fits;
use crate::arith::lemma_neg_mul;
use crate::arith::lemma_pos_mul;
use crate::arith::lemma_pos_mul4;
use crate::arith::lemma_sq_mul;
use crate::arith::lemma_sum_squares_pos;
use crate::matrices::Mat3;
use crate::matrices::Matrix3;
use crate::rational::LIMIT_CHAIN;
use crate::rational::LIMIT_PAIR;
use crate::rational::LIMIT_TRIG;
use crate::rational::LIMIT_WIDE;
use crate::rational::Rat;
use crate::rational::Rational;
use crate::vectors::Vec3;
use crate::vectors::Vector3;

verus! {

/// Mathematical value of a quaternion: `(w/d, x/d, y/d, z/d)`.
pub struct Quat {
    pub w: int,
    pub x: int,
    pub y: int,
    pub z: int,
    pub d: int,
}

impl Quat {
    pub open spec fn wf(self) -> bool {
        self.d > 0
    }

    /// Componentwise value equality, by cross-multiplication.
    pub open spec fn eqv(self, o: Quat) -> bool {
        &&& self.w * o.d == o.w * self.d
        &&& self.x * o.d == o.x * self.d
        &&& self.y * o.d == o.y * self.d
        &&& self.z * o.d == o.z * self.d
    }

    pub open spec fn bounded(self, b: int) -> bool {
        &&& -b <= self.w <= b
        &&& -b <= self.x <= b
        &&& -b <= self.y <= b
        &&& -b <= self.z <= b
        &&& 0 < self.d <= b
    }

    pub open spec fn identity() -> Quat {
        Quat { w: 1, x: 0, y: 0, z: 0, d: 1 }
    }

    /// Four scalars brought over their common denominator.
    pub open spec fn pack4(w: Rat, x: Rat, y: Rat, z: Rat) -> Quat {
        Quat {
            w: ((w.n * x.d) * y.d) * z.d,
            x: ((x.n * w.d) * y.d) * z.d,
            y: ((y.n * w.d) * x.d) * z.d,
            z: ((z.n * w.d) * x.d) * y.d,
            d: ((w.d * x.d) * y.d) * z.d,
        }
    }

    /// A real part and a vector part brought over their common denominator.
    pub open spec fn from_parts(w: Rat, v: Vec3) -> Quat {
        Quat { w: w.n * v.d, x: v.x * w.d, y: v.y * w.d, z: v.z * w.d, d: w.d * v.d }
    }

    /// A vector embedded as a pure quaternion, with real part zero.
    pub open spec fn pure(v: Vec3) -> Quat {
        Quat { w: 0, x: v.x, y: v.y, z: v.z, d: v.d }
    }

    /// The real part as a scalar value.
    pub open spec fn real_part(self) -> Rat {
        Rat { n: self.w, d: self.d }
    }

    /// The vector part.
    pub open spec fn vector_part(self) -> Vec3 {
        Vec3 { x: self.x, y: self.y, z: self.z, d: self.d }
    }

    /// Component `i`, in the order `w, x, y, z`.
    pub open spec fn comp(self, i: int) -> Rat {
        if i == 0 {
            Rat { n: self.w, d: self.d }
        } else if i == 1 {
            Rat { n: self.x, d: self.d }
        } else if i == 2 {
            Rat { n: self.y, d: self.d }
        } else {
            Rat { n: self.z, d: self.d }
        }
    }

    pub open spec fn sum(self, o: Quat) -> Quat {
        Quat {
            w: self.w * o.d + o.w * self.d,
            x: self.x * o.d + o.x * self.d,
            y: self.y * o.d + o.y * self.d,
            z: self.z * o.d + o.z * self.d,
            d: self.d * o.d,
        }
    }

    pub open spec fn difference(self, o: Quat) -> Quat {
        Quat {
            w: self.w * o.d - o.w * self.d,
            x: self.x * o.d - o.x * self.d,
            y: self.y * o.d - o.y * self.d,
            z: self.z * o.d - o.z * self.d,
            d: self.d * o.d,
        }
    }

    /// The conjugate: the vector part negated.
    pub open spec fn conjugate(self) -> Quat {
        Quat { w: self.w, x: -self.x, y: -self.y, z: -self.z, d: self.d }
    }

    /// The Hamilton product: real parts multiply minus the dot product of
    /// the vector parts; the vector part is the cross product plus each
    /// vector part scaled by the other's real part.
    pub open spec fn product(self, o: Quat) -> Quat {
        Quat {
            w: self.w * o.w - self.x * o.x - self.y * o.y - self.z * o.z,
            x: self.y * o.z - self.z * o.y + self.x * o.w + self.w * o.x,
            y: self.z * o.x - self.x * o.z + self.y * o.w + self.w * o.y,
            z: self.x * o.y - self.y * o.x + self.z * o.w + self.w * o.z,
            d: self.d * o.d,
        }
    }

    pub open spec fn product_scalar(self, s: Rat) -> Quat {
        Quat {
            w: self.w * s.n,
            x: self.x * s.n,
            y: self.y * s.n,
            z: self.z * s.n,
            d: self.d * s.d,
        }
    }

    pub open spec fn quotient_scalar(self, s: Rat) -> Quat {
        if s.n > 0 {
            Quat {
                w: self.w * s.d,
                x: self.x * s.d,
                y: self.y * s.d,
                z: self.z * s.d,
                d: self.d * s.n,
            }
        } else {
            Quat {
                w: -(self.w * s.d),
                x: -(self.x * s.d),
                y: -(self.y * s.d),
                z: -(self.z * s.d),
                d: -(self.d * s.n),
            }
        }
    }

    /// Integer numerator of the squared norm.
    pub open spec fn norm_sq_numer(self) -> int {
        self.w * self.w + self.x * self.x + self.y * self.y + self.z * self.z
    }

    /// The square of the quaternion norm. The norm itself is a square root
    /// and is left to the host's floating-point layer.
    pub open spec fn norm_squared(self) -> Rat {
        Rat { n: self.norm_sq_numer(), d: self.d * self.d }
    }

    /// Whether the quaternion denotes zero in all four components.
    pub open spec fn is_zero(self) -> bool {
        self.w == 0 && self.x == 0 && self.y == 0 && self.z == 0
    }

    /// A quaternion of unit norm: the only form that represents a pure
    /// rotation.
    pub open spec fn unit(self) -> bool {
        self.norm_squared().eqv(Rat::one())
    }

    /// The multiplicative inverse: the conjugate divided by the squared
    /// norm. Meaningful only for a nonzero quaternion.
    pub open spec fn inverse(self) -> Quat {
        Quat {
            w: self.w * self.d,
            x: -(self.x * self.d),
            y: -(self.y * self.d),
            z: -(self.z * self.d),
            d: self.norm_sq_numer(),
        }
    }

    /// The quotient: the product with the inverse of the divisor.
    pub open spec fn quotient(self, o: Quat) -> Quat {
        self.product(o.inverse())
    }

    /// The sandwich rotation: the vector embedded as a pure quaternion,
    /// multiplied by the quaternion on the left and its conjugate on the
    /// right. A proper rotation when the quaternion has unit norm.
    pub open spec fn rotate(self, v: Vec3) -> Vec3 {
        self.product(Quat::pure(v)).product(self.conjugate()).vector_part()
    }

    /// The rotation matrix derived from the quaternion. Over the shared
    /// denominator `d * d`, the entry formulas are the classical ones,
    /// with `d * d` standing for the constant one.
    pub open spec fn rotation_matrix(self) -> Mat3 {
        Mat3 {
            m00: 2 * (self.w * self.w) - self.d * self.d + 2 * (self.x * self.x),
            m01: 2 * (self.x * self.y) + 2 * (self.w * self.z),
            m02: 2 * (self.x * self.z) - 2 * (self.w * self.y),
            m10: 2 * (self.x * self.y) - 2 * (self.w * self.z),
            m11: 2 * (self.w * self.w) - self.d * self.d + 2 * (self.y * self.y),
            m12: 2 * (self.y * self.z) + 2 * (self.w * self.x),
            m20: 2 * (self.x * self.z) + 2 * (self.w * self.y),
            m21: 2 * (self.y * self.z) - 2 * (self.w * self.x),
            m22: 2 * (self.w * self.w) - self.d * self.d + 2 * (self.z * self.z),
            d: self.d * self.d,
        }
    }

    /// The rotation quaternion for an angle about the first axis, given
    /// the sine and cosine of the half-angle.
    pub open spec fn axis_x(s: Rat, c: Rat) -> Quat {
        Quat { w: c.n * s.d, x: s.n * c.d, y: 0, z: 0, d: c.d * s.d }
    }

    /// The rotation quaternion for an angle about the second axis.
    pub open spec fn axis_y(s: Rat, c: Rat) -> Quat {
        Quat { w: c.n * s.d, x: 0, y: s.n * c.d, z: 0, d: c.d * s.d }
    }

    /// The rotation quaternion for an angle about the third axis.
    pub open spec fn axis_z(s: Rat, c: Rat) -> Quat {
        Quat { w: c.n * s.d, x: 0, y: 0, z: s.n * c.d, d: c.d * s.d }
    }

    /// Axis-angle construction: the real part is the cosine of the half
    /// angle, the vector part is the axis scaled by its sine. The axis is
    /// taken as given: a non-unit axis yields a non-unit quaternion.
    pub open spec fn from_axis_angle(axis: Vec3, sin_half: Rat, cos_half: Rat) -> Quat {
        Quat::from_parts(cos_half, axis.product_scalar(sin_half))
    }

    /// Euler-angle construction: the composition of the three single-axis
    /// rotations, applied in the order x, then y, then z.
    pub open spec fn from_euler(sx: Rat, cx: Rat, sy: Rat, cy: Rat, sz: Rat, cz: Rat) -> Quat {
        (Quat::axis_z(sz, cz).product(Quat::axis_y(sy, cy))).product(Quat::axis_x(sx, cx))
    }

    /// Bounds under which two quaternions can be multiplied without the
    /// 128-bit component arithmetic overflowing.
    pub open spec fn mul_compat(self, o: Quat) -> bool {
        ||| self.bounded(LIMIT_PAIR as int) && o.bounded(LIMIT_PAIR as int)
        ||| self.bounded(LIMIT_WIDE as int) && o.bounded(LIMIT_CHAIN as int)
        ||| self.bounded(LIMIT_CHAIN as int) && o.bounded(LIMIT_WIDE as int)
    }
}

/// A quaternion of exact scalars over one shared denominator.
#[derive(Clone, Copy, Debug)]
pub struct Quaternion {
    /// Numerator of the real part.
    pub w: i128,
    /// Numerator of the first vector component.
    pub x: i128,
    /// Numerator of the second vector component.
    pub y: i128,
    /// Numerator of the third vector component.
    pub z: i128,
    /// Shared denominator; positive in every well-formed quaternion.
    pub d: i128,
}

impl View for Quaternion {
    type V = Quat;

    open spec fn view(&self) -> Quat {
        Quat {
            w: self.w as int,
            x: self.x as int,
            y: self.y as int,
            z: self.z as int,
            d: self.d as int,
        }
    }
}

/// All sixteen pairwise products of the components of two bounded
/// quaternions fit within the product of the bounds.
proof fn lemma_pairwise_fits(a: Quat, b: Quat, ba: int, bb: int)
    requires
        a.bounded(ba),
        b.bounded(bb),
    ensures
        forall|p: int, q: int|
            -ba <= p <= ba && -bb <= q <= bb ==> -(ba * bb) <= #[trigger] (p * q) <= ba * bb,
{
    assert forall|p: int, q: int|
        -ba <= p <= ba && -bb <= q <= bb implies -(ba * bb) <= #[trigger] (p * q) <= ba * bb by {
        lemma_mul_fits(p, q, ba, bb);
    }
}

/// The Hamilton product of quaternions bounded by `m` is bounded by four
/// times the square of `m`.
proof fn lemma_product_bounded(a: Quat, b: Quat, m: int)
    requires
        a.bounded(m),
        b.bounded(m),
    ensures
        a.product(b).bounded(4 * (m * m)),
{
    lemma_pairwise_fits(a, b, m, m);
    lemma_pos_mul(a.d, b.d);
}

/// The Hamilton product of two differently bounded quaternions is bounded
/// by four times the product of the bounds.
pub proof fn lemma_product_bounded2(a: Quat, b: Quat, ma: int, mb: int)
    requires
        a.bounded(ma),
        b.bounded(mb),
    ensures
        a.product(b).bounded(4 * (ma * mb)),
{
    lemma_pairwise_fits(a, b, ma, mb);
    lemma_pos_mul(a.d, b.d);
}

impl Quaternion {
    /// Builds a quaternion from a real part and the three components of
    /// the vector part.
    pub fn new(w: Rational, v: [Rational; 3]) -> (r: Quaternion)
        requires
            w@.bounded(LIMIT_TRIG as int),
            v@[0]@.bounded(LIMIT_TRIG as int),
            v@[1]@.bounded(LIMIT_TRIG as int),
            v@[2]@.bounded(LIMIT_TRIG as int),
        ensures
            r@ == Quat::pack4(w@, v@[0]@, v@[1]@, v@[2]@),
            r@.wf(),
    {
        let x = v[0];
        let y = v[1];
        let z = v[2];
        proof {
            lemma_mul4_fits(w@.n, x@.d, y@.d, z@.d, LIMIT_TRIG as int);
            lemma_mul4_fits(x@.n, w@.d, y@.d, z@.d, LIMIT_TRIG as int);
            lemma_mul4_fits(y@.n, w@.d, x@.d, z@.d, LIMIT_TRIG as int);
            lemma_mul4_fits(z@.n, w@.d, x@.d, y@.d, LIMIT_TRIG as int);
            lemma_mul4_fits(w@.d, x@.d, y@.d, z@.d, LIMIT_TRIG as int);
            lemma_pos_mul4(w@.d, x@.d, y@.d, z@.d);
        }
        Quaternion {
            w: ((w.n * x.d) * y.d) * z.d,
            x: ((x.n * w.d) * y.d) * z.d,
            y: ((y.n * w.d) * x.d) * z.d,
            z: ((z.n * w.d) * x.d) * y.d,
            d: ((w.d * x.d) * y.d) * z.d,
        }
    }

    pub fn identity() -> (r: Quaternion)
        ensures
            r@ == Quat::identity(),
            r@.wf(),
    {
        Quaternion { w: 1, x: 0, y: 0, z: 0, d: 1 }
    }

    /// The real part as a scalar.
    pub fn real_part(&self) -> (r: Rational)
        ensures
            r@ == self@.real_part(),
    {
        Rational { n: self.w, d: self.d }
    }

    /// The vector part.
    pub fn vector(&self) -> (r: Vector3)
        ensures
            r@ == self@.vector_part(),
    {
        Vector3 { x: self.x, y: self.y, z: self.z, d: self.d }
    }

    /// The real part and the vector part together.
    pub fn vector_and_scalar(&self) -> (r: (Rational, Vector3))
        ensures
            r.0@ == self@.real_part(),
            r.1@ == self@.vector_part(),
    {
        (Rational { n: self.w, d: self.d }, Vector3 { x: self.x, y: self.y, z: self.z, d: self.d })
    }

    /// The four components as scalars, in the order `w, x, y, z`.
    pub fn decompose(&self) -> (r: (Rational, Rational, Rational, Rational))
        ensures
            r.0@ == self@.comp(0),
            r.1@ == self@.comp(1),
            r.2@ == self@.comp(2),
            r.3@ == self@.comp(3),
    {
        (
            Rational { n: self.w, d: self.d },
            Rational { n: self.x, d: self.d },
            Rational { n: self.y, d: self.d },
            Rational { n: self.z, d: self.d },
        )
    }

    /// Component `i`, in the order `w, x, y, z`; the index must be in
    /// bounds.
    pub fn index(&self, i: usize) -> (r: Rational)
        requires
            i < 4,
        ensures
            r@ == self@.comp(i as int),
    {
        if i == 0 {
            Rational { n: self.w, d: self.d }
        } else if i == 1 {
            Rational { n: self.x, d: self.d }
        } else if i == 2 {
            Rational { n: self.y, d: self.d }
        } else {
            Rational { n: self.z, d: self.d }
        }
    }

    /// Componentwise sum. Purely algebraic: a sum does not compose
    /// rotations.
    pub fn sum(self, other: Quaternion) -> (r: Quaternion)
        requires
            self@.bounded(LIMIT_PAIR as int),
            other@.bounded(LIMIT_PAIR as int),
        ensures
            r@ == self@.sum(other@),
            r@.wf(),
    {
        proof {
            lemma_pairwise_fits(self@, other@, LIMIT_PAIR as int, LIMIT_PAIR as int);
            lemma_pos_mul(self@.d, other@.d);
        }
        Quaternion {
            w: self.w * other.d + other.w * self.d,
            x: self.x * other.d + other.x * self.d,
            y: self.y * other.d + other.y * self.d,
            z: self.z * other.d + other.z * self.d,
            d: self.d * other.d,
        }
    }

    /// Componentwise difference.
    pub fn difference(self, other: Quaternion) -> (r: Quaternion)
        requires
            self@.bounded(LIMIT_PAIR as int),
            other@.bounded(LIMIT_PAIR as int),
        ensures
            r@ == self@.difference(other@),
            r@.wf(),
    {
        proof {
            lemma_pairwise_fits(self@, other@, LIMIT_PAIR as int, LIMIT_PAIR as int);
            lemma_pos_mul(self@.d, other@.d);
        }
        Quaternion {
            w: self.w * other.d - other.w * self.d,
            x: self.x * other.d - other.x * self.d,
            y: self.y * other.d - other.y * self.d,
            z: self.z * other.d - other.z * self.d,
            d: self.d * other.d,
        }
    }

    /// The conjugate: the vector part negated. For a unit quaternion this
    /// is the inverse rotation.
    pub fn conjugate(&self) -> (r: Quaternion)
        requires
            self@.bounded(LIMIT_PAIR as int),
        ensures
            r@ == self@.conjugate(),
            r@.wf(),
    {
        Quaternion { w: self.w, x: -self.x, y: -self.y, z: -self.z, d: self.d }
    }

    /// The Hamilton product, with bounds wide enough for one further
    /// multiplication by a small factor.
    fn product_raw(self, other: Quaternion) -> (r: Quaternion)
        requires
            self@.mul_compat(other@),
        ensures
            r@ == self@.product(other@),
            r@.wf(),
    {
        proof {
            if self@.bounded(LIMIT_PAIR as int) && other@.bounded(LIMIT_PAIR as int) {
                lemma_pairwise_fits(self@, other@, LIMIT_PAIR as int, LIMIT_PAIR as int);
            } else if self@.bounded(LIMIT_WIDE as int) && other@.bounded(LIMIT_CHAIN as int) {
                lemma_pairwise_fits(self@, other@, LIMIT_WIDE as int, LIMIT_CHAIN as int);
            } else {
                lemma_pairwise_fits(self@, other@, LIMIT_CHAIN as int, LIMIT_WIDE as int);
            }
            lemma_pos_mul(self@.d, other@.d);
        }
        Quaternion {
            w: self.w * other.w - self.x * other.x - self.y * other.y - self.z * other.z,
            x: self.y * other.z - self.z * other.y + self.x * other.w + self.w * other.x,
            y: self.z * other.x - self.x * other.z + self.y * other.w + self.w * other.y,
            z: self.x * other.y - self.y * other.x + self.z * other.w + self.w * other.z,
            d: self.d * other.d,
        }
    }

    /// The Hamilton product. Non-commutative: the order encodes the
    /// composition order of the rotations, the right factor applying
    /// first.
    pub fn product(self, other: Quaternion) -> (r: Quaternion)
        requires
            self@.bounded(LIMIT_PAIR as int),
            other@.bounded(LIMIT_PAIR as int),
        ensures
            r@ == self@.product(other@),
            r@.wf(),
    {
        self.product_raw(other)
    }

    /// The quaternion scaled by a scalar.
    pub fn product_scalar(self, scalar: Rational) -> (r: Quaternion)
        requires
            self@.bounded(LIMIT_PAIR as int),
            scalar@.bounded(LIMIT_PAIR as int),
        ensures
            r@ == self@.product_scalar(scalar@),
            r@.wf(),
    {
        proof {
            lemma_mul_fits(self@.w, scalar@.n, LIMIT_PAIR as int, LIMIT_PAIR as int);
            lemma_mul_fits(self@.x, scalar@.n, LIMIT_PAIR as int, LIMIT_PAIR as int);
            lemma_mul_fits(self@.y, scalar@.n, LIMIT_PAIR as int, LIMIT_PAIR as int);
            lemma_mul_fits(self@.z, scalar@.n, LIMIT_PAIR as int, LIMIT_PAIR as int);
            lemma_mul_fits(self@.d, scalar@.d, LIMIT_PAIR as int, LIMIT_PAIR as int);
            lemma_pos_mul(self@.d, scalar@.d);
        }
        Quaternion {
            w: self.w * scalar.n,
            x: self.x * scalar.n,
            y: self.y * scalar.n,
            z: self.z * scalar.n,
            d: self.d * scalar.d,
        }
    }

    /// The quaternion divided by a scalar, which must not denote zero.
    pub fn quotient_scalar(self, scalar: Rational) -> (r: Quaternion)
        requires
            self@.bounded(LIMIT_PAIR as int),
            scalar@.bounded(LIMIT_PAIR as int),
            scalar@.n != 0,
        ensures
            r@ == self@.quotient_scalar(scalar@),
            r@.wf(),
    {
        proof {
            lemma_mul_fits(self@.w, scalar@.d, LIMIT_PAIR as int, LIMIT_PAIR as int);
            lemma_mul_fits(self@.x, scalar@.d, LIMIT_PAIR as int, LIMIT_PAIR as int);
            lemma_mul_fits(self@.y, scalar@.d, LIMIT_PAIR as int, LIMIT_PAIR as int);
            lemma_mul_fits(self@.z, scalar@.d, LIMIT_PAIR as int, LIMIT_PAIR as int);
            lemma_mul_fits(self@.d, scalar@.n, LIMIT_PAIR as int, LIMIT_PAIR as int);
            if scalar@.n > 0 {
                lemma_pos_mul(self@.d, scalar@.n);
            } else {
                lemma_pos_mul(self@.d, -scalar@.n);
                assert(self@.d * (-scalar@.n) == -(self@.d * scalar@.n)) by (nonlinear_arith);
            }
        }
        if scalar.n > 0 {
            Quaternion {
                w: self.w * scalar.d,
                x: self.x * scalar.d,
                y: self.y * scalar.d,
                z: self.z * scalar.d,
                d: self.d * scalar.n,
            }
        } else {
            Quaternion {
                w: -(self.w * scalar.d),
                x: -(self.x * scalar.d),
                y: -(self.y * scalar.d),
                z: -(self.z * scalar.d),
                d: -(self.d * scalar.n),
            }
        }
    }

    /// The square of the quaternion norm. The norm itself is a square
    /// root and is left to the host's floating-point layer.
    pub fn norm_squared(&self) -> (r: Rational)
        requires
            self@.bounded(LIMIT_PAIR as int),
        ensures
            r@ == self@.norm_squared(),
            r@.wf(),
    {
        proof {
            lemma_pairwise_fits(self@, self@, LIMIT_PAIR as int, LIMIT_PAIR as int);
            lemma_pos_mul(self@.d, self@.d);
        }
        Rational {
            n: self.w * self.w + self.x * self.x + self.y * self.y + self.z * self.z,
            d: self.d * self.d,
        }
    }

    /// Whether the quaternion denotes zero.
    pub fn is_zero(&self) -> (b: bool)
        ensures
            b == self@.is_zero(),
    {
        self.w == 0 && self.x == 0 && self.y == 0 && self.z == 0
    }

    /// Whether the quaternion has unit norm exactly.
    pub fn is_unit(&self) -> (b: bool)
        requires
            self@.bounded(LIMIT_PAIR as int),
        ensures
            b == self@.unit(),
    {
        proof {
            lemma_pairwise_fits(self@, self@, LIMIT_PAIR as int, LIMIT_PAIR as int);
        }
        self.w * self.w + self.x * self.x + self.y * self.y + self.z * self.z == self.d * self.d
    }

    /// The multiplicative inverse: the conjugate divided by the squared
    /// norm. The quaternion must not denote zero: inverting zero is a
    /// numeric degeneracy that this library rules out rather than letting
    /// it poison the result.
    pub fn inverse(&self) -> (r: Quaternion)
        requires
            self@.bounded(LIMIT_PAIR as int),
            !self@.is_zero(),
        ensures
            r@ == self@.inverse(),
            r@.wf(),
    {
        proof {
            lemma_pairwise_fits(self@, self@, LIMIT_PAIR as int, LIMIT_PAIR as int);
            lemma_sum_squares_pos(self@.w, self@.x, self@.y, self@.z);
        }
        Quaternion {
            w: self.w * self.d,
            x: -(self.x * self.d),
            y: -(self.y * self.d),
            z: -(self.z * self.d),
            d: self.w * self.w + self.x * self.x + self.y * self.y + self.z * self.z,
        }
    }

    /// The quotient: the product with the inverse of the divisor, which
    /// must not denote zero.
    pub fn quotient(self, other: Quaternion) -> (r: Quaternion)
        requires
            self@.bounded(LIMIT_CHAIN as int),
            other@.bounded(LIMIT_CHAIN as int),
            !other@.is_zero(),
        ensures
            r@ == self@.quotient(other@),
            r@.wf(),
    {
        let inv = other.inverse();
        proof {
            lemma_pairwise_fits(other@, other@, LIMIT_CHAIN as int, LIMIT_CHAIN as int);
        }
        self.product_raw(inv)
    }

    /// Rotates a vector by the sandwich product: the vector embedded as a
    /// pure quaternion, multiplied by the quaternion on the left and its
    /// conjugate on the right. A proper rotation when the quaternion has
    /// unit norm; the laws below prove that the embedded real part comes
    /// back exactly zero and that a unit quaternion preserves the squared
    /// magnitude.
    pub fn rotate_vector(&self, v: Vector3) -> (r: Vector3)
        requires
            self@.bounded(LIMIT_CHAIN as int),
            v@.bounded(LIMIT_CHAIN as int),
        ensures
            r@ == self@.rotate(v@),
            r@.wf(),
    {
        let p = Quaternion { w: 0, x: v.x, y: v.y, z: v.z, d: v.d };
        let t = self.product_raw(p);
        proof {
            lemma_product_bounded(self@, p@, LIMIT_CHAIN as int);
        }
        let c = self.conjugate();
        let s = t.product_raw(c);
        Vector3 { x: s.x, y: s.y, z: s.z, d: s.d }
    }

    /// The rotation matrix of the quaternion. For a unit quaternion,
    /// applying this matrix to a row vector agrees with `rotate_vector`;
    /// the law below proves it.
    pub fn rotation_matrix(&self) -> (r: Matrix3)
        requires
            self@.bounded(LIMIT_PAIR as int),
        ensures
            r@ == self@.rotation_matrix(),
            r@.wf(),
    {
        proof {
            lemma_pairwise_fits(self@, self@, LIMIT_PAIR as int, LIMIT_PAIR as int);
            lemma_pos_mul(self@.d, self@.d);
        }
        Matrix3 {
            m00: 2 * (self.w * self.w) - self.d * self.d + 2 * (self.x * self.x),
            m01: 2 * (self.x * self.y) + 2 * (self.w * self.z),
            m02: 2 * (self.x * self.z) - 2 * (self.w * self.y),
            m10: 2 * (self.x * self.y) - 2 * (self.w * self.z),
            m11: 2 * (self.w * self.w) - self.d * self.d + 2 * (self.y * self.y),
            m12: 2 * (self.y * self.z) + 2 * (self.w * self.x),
            m20: 2 * (self.x * self.z) + 2 * (self.w * self.y),
            m21: 2 * (self.y * self.z) - 2 * (self.w * self.x),
            m22: 2 * (self.w * self.w) - self.d * self.d + 2 * (self.z * self.z),
            d: self.d * self.d,
        }
    }

    /// Builds the quaternion of the rotation about `axis` whose half-angle
    /// has the given sine and cosine. The axis is not normalised here: a
    /// non-unit axis yields a quaternion that is not a pure rotation,
    /// which is the caller's contract to avoid.
    pub fn from_axis_angle(axis: Vector3, sin_half: Rational, cos_half: Rational) -> (r:
        Quaternion)
        requires
            axis@.bounded(LIMIT_CHAIN as int),
            sin_half@.bounded(LIMIT_CHAIN as int),
            cos_half@.bounded(LIMIT_CHAIN as int),
        ensures
            r@ == Quat::from_axis_angle(axis@, sin_half@, cos_half@),
            r@.wf(),
    {
        let v = axis.product_scalar(sin_half);
        proof {
            let m = LIMIT_CHAIN as int;
            lemma_mul_fits(axis@.x, sin_half@.n, m, m);
            lemma_mul_fits(axis@.y, sin_half@.n, m, m);
            lemma_mul_fits(axis@.z, sin_half@.n, m, m);
            lemma_mul_fits(axis@.d, sin_half@.d, m, m);
            lemma_mul_fits(cos_half@.n, v@.d, m, m * m);
            lemma_mul_fits(v@.x, cos_half@.d, m * m, m);
            lemma_mul_fits(v@.y, cos_half@.d, m * m, m);
            lemma_mul_fits(v@.z, cos_half@.d, m * m, m);
            lemma_mul_fits(cos_half@.d, v@.d, m, m * m);
            lemma_pos_mul(cos_half@.d, v@.d);
        }
        Quaternion { w: cos_half.n * v.d, x: v.x * cos_half.d, y: v.y * cos_half.d, z: v.z
            * cos_half.d, d: cos_half.d * v.d }
    }

    /// Builds the quaternion of the rotation given by three Euler angles,
    /// from the sines and cosines of the half-angles. The result is the
    /// composition of the three single-axis rotations, applied in the
    /// order x, then y, then z; a single-axis call agrees exactly with
    /// `from_axis_angle`, which the law below proves.
    pub fn from_euler_angles(
        sin_x: Rational,
        cos_x: Rational,
        sin_y: Rational,
        cos_y: Rational,
        sin_z: Rational,
        cos_z: Rational,
    ) -> (r: Quaternion)
        requires
            sin_x@.bounded(LIMIT_TRIG as int),
            cos_x@.bounded(LIMIT_TRIG as int),
            sin_y@.bounded(LIMIT_TRIG as int),
            cos_y@.bounded(LIMIT_TRIG as int),
            sin_z@.bounded(LIMIT_TRIG as int),
            cos_z@.bounded(LIMIT_TRIG as int),
        ensures
            r@ == Quat::from_euler(sin_x@, cos_x@, sin_y@, cos_y@, sin_z@, cos_z@),
            r@.wf(),
    {
        proof {
            let m = LIMIT_TRIG as int;
            lemma_mul_fits(cos_x@.n, sin_x@.d, m, m);
            lemma_mul_fits(sin_x@.n, cos_x@.d, m, m);
            lemma_mul_fits(cos_x@.d, sin_x@.d, m, m);
            lemma_pos_mul(cos_x@.d, sin_x@.d);
            lemma_mul_fits(cos_y@.n, sin_y@.d, m, m);
            lemma_mul_fits(sin_y@.n, cos_y@.d, m, m);
            lemma_mul_fits(cos_y@.d, sin_y@.d, m, m);
            lemma_pos_mul(cos_y@.d, sin_y@.d);
            lemma_mul_fits(cos_z@.n, sin_z@.d, m, m);
            lemma_mul_fits(sin_z@.n, cos_z@.d, m, m);
            lemma_mul_fits(cos_z@.d, sin_z@.d, m, m);
            lemma_pos_mul(cos_z@.d, sin_z@.d);
        }
        let qx = Quaternion { w: cos_x.n * sin_x.d, x: sin_x.n * cos_x.d, y: 0, z: 0, d: cos_x.d
            * sin_x.d };
        let qy = Quaternion { w: cos_y.n * sin_y.d, x: 0, y: sin_y.n * cos_y.d, z: 0, d: cos_y.d
            * sin_y.d };
        let qz = Quaternion { w: cos_z.n * sin_z.d, x: 0, y: 0, z: sin_z.n * cos_z.d, d: cos_z.d
            * sin_z.d };
        let t = qz.product_raw(qy);
        proof {
            lemma_product_bounded(qz@, qy@, LIMIT_CHAIN as int);
        }
        t.product_raw(qx)
    }

    /// Exact value equality of the components.
    pub fn equals(&self, other: &Quaternion) -> (b: bool)
        requires
            self@.bounded(LIMIT_PAIR as int),
            other@.bounded(LIMIT_PAIR as int),
        ensures
            b == self@.eqv(other@),
    {
        proof {
            lemma_pairwise_fits(self@, other@, LIMIT_PAIR as int, LIMIT_PAIR as int);
            lemma_pairwise_fits(other@, self@, LIMIT_PAIR as int, LIMIT_PAIR as int);
        }
        self.w * other.d == other.w * self.d && self.x * other.d == other.x * self.d && self.y
            * other.d == other.y * self.d && self.z * other.d == other.z * self.d
    }
}

/// LAW: multiplying by the identity quaternion on either side returns the
/// quaternion unchanged, exactly.
pub proof fn lemma_product_identity(q: Quat)
    requires
        q.wf(),
    ensures
        q.product(Quat::identity()) == q,
        Quat::identity().product(q) == q,
{
}

/// LAW: for a quaternion of unit norm, the inverse equals the conjugate,
/// componentwise.
pub proof fn lemma_conjugate_inverse_unit(q: Quat)
    requires
        q.wf(),
        q.unit(),
    ensures
        q.inverse().eqv(q.conjugate()),
{
    assert(q.norm_sq_numer() == q.d * q.d);
    assert((q.w * q.d) * q.d == q.w * (q.d * q.d)) by (nonlinear_arith);
    assert((-(q.x * q.d)) * q.d == (-q.x) * (q.d * q.d)) by (nonlinear_arith);
    assert((-(q.y * q.d)) * q.d == (-q.y) * (q.d * q.d)) by (nonlinear_arith);
    assert((-(q.z * q.d)) * q.d == (-q.z) * (q.d * q.d)) by (nonlinear_arith);
}

/// LAW: the squared norm of a Hamilton product is the product of the
/// squared norms of the factors.
pub proof fn lemma_norm_squared_multiplicative(a: Quat, b: Quat)
    requires
        a.wf(),
        b.wf(),
    ensures
        a.product(b).norm_squared().eqv(a.norm_squared().product(b.norm_squared())),
{
    lemma_four_square(a.w, a.x, a.y, a.z, b.w, b.x, b.y, b.z);
    assert(a.product(b).norm_sq_numer() == a.norm_sq_numer() * b.norm_sq_numer());
    lemma_sq_mul(a.d, b.d);
}

/// LAW: the sandwich product of a pure quaternion comes back pure: its
/// real part is exactly zero, for every quaternion and vector.
pub proof fn lemma_rotate_pure(q: Quat, v: Vec3)
    ensures
        q.product(Quat::pure(v)).product(q.conjugate()).w == 0,
{
    let t = q.product(Quat::pure(v));
    let r = t.product(q.conjugate());

    // Distribute each product of a component of `t` with a component of `q`.
    lemma_distrib4(t.w, q.w, q.w * 0, -(q.x * v.x), -(q.y * v.y), -(q.z * v.z));
    lemma_distrib4(t.x, q.x, q.y * v.z, -(q.z * v.y), q.x * 0, q.w * v.x);
    lemma_distrib4(t.y, q.y, q.z * v.x, -(q.x * v.z), q.y * 0, q.w * v.y);
    lemma_distrib4(t.z, q.z, q.x * v.y, -(q.y * v.x), q.z * 0, q.w * v.z);

    // Push the negations out of the distributed terms.
    lemma_neg_mul(q.x * v.x, q.w);
    lemma_neg_mul(q.y * v.y, q.w);
    lemma_neg_mul(q.z * v.z, q.w);
    lemma_neg_mul(q.z * v.y, q.x);
    lemma_neg_mul(q.x * v.z, q.y);
    lemma_neg_mul(q.y * v.x, q.z);

    // Match the monomials that cancel against each other.
    lemma_mul3_comm(q.x, v.x, q.w);
    lemma_mul3_comm(q.w, v.x, q.x);
    lemma_mul3_comm(q.y, v.y, q.w);
    lemma_mul3_comm(q.w, v.y, q.y);
    lemma_mul3_comm(q.z, v.z, q.w);
    lemma_mul3_comm(q.w, v.z, q.z);
    lemma_mul3_comm(q.y, v.z, q.x);
    lemma_mul3_comm(q.x, v.z, q.y);
    lemma_mul3_comm(q.z, v.y, q.x);
    lemma_mul3_comm(q.x, v.y, q.z);
    lemma_mul3_comm(q.z, v.x, q.y);
    lemma_mul3_comm(q.y, v.x, q.z);
    assert(t.w * q.w + t.x * q.x + t.y * q.y + t.z * q.z == 0);

    assert(t.x * (-q.x) == -(t.x * q.x)) by (nonlinear_arith);
    assert(t.y * (-q.y) == -(t.y * q.y)) by (nonlinear_arith);
    assert(t.z * (-q.z) == -(t.z * q.z)) by (nonlinear_arith);
}

/// LAW: a unit quaternion preserves the squared magnitude of every vector
/// it rotates, exactly.
pub proof fn lemma_rotate_preserves_magnitude(q: Quat, v: Vec3)
    requires
        q.wf(),
        v.wf(),
        q.unit(),
    ensures
        q.rotate(v).magnitude_squared().eqv(v.magnitude_squared()),
{
    let p = Quat::pure(v);
    let t = q.product(p);
    let cq = q.conjugate();
    let r = t.product(cq);
    lemma_rotate_pure(q, v);
    lemma_four_square(q.w, q.x, q.y, q.z, p.w, p.x, p.y, p.z);
    lemma_four_square(t.w, t.x, t.y, t.z, cq.w, cq.x, cq.y, cq.z);
    assert((-q.x) * (-q.x) == q.x * q.x) by (nonlinear_arith);
    assert((-q.y) * (-q.y) == q.y * q.y) by (nonlinear_arith);
    assert((-q.z) * (-q.z) == q.z * q.z) by (nonlinear_arith);
    assert(cq.norm_sq_numer() == q.norm_sq_numer());
    let s = q.norm_sq_numer();
    let nsp = p.norm_sq_numer();
    assert(s == q.d * q.d);
    assert(r.norm_sq_numer() == (s * nsp) * s);
    assert(r.w * r.w == 0);
    assert(r.x * r.x + r.y * r.y + r.z * r.z == (s * nsp) * s);
    assert(((s * nsp) * s) * (v.d * v.d) == nsp * ((((q.d * v.d) * q.d)) * ((q.d * v.d) * q.d)))
        by (nonlinear_arith)
        requires
            s == q.d * q.d,
    ;
}

/// LAW: for a unit quaternion, rotating a vector by the sandwich product
/// and transforming it by the rotation matrix give the same vector,
/// componentwise and exactly.
pub proof fn lemma_rotate_matches_matrix(q: Quat, v: Vec3)
    requires
        q.wf(),
        v.wf(),
        q.unit(),
    ensures
        q.rotate(v).eqv(v.product_matrix(q.rotation_matrix())),
{
    let t = q.product(Quat::pure(v));
    let r = t.product(q.conjugate());
    let m = q.rotation_matrix();
    let s = q.norm_sq_numer();
    assert(s == q.d * q.d);

    // Distribute every product of a component of `t` with a component of `q`.
    lemma_distrib4(t.w, q.w, q.w * 0, -(q.x * v.x), -(q.y * v.y), -(q.z * v.z));
    lemma_distrib4(t.w, q.x, q.w * 0, -(q.x * v.x), -(q.y * v.y), -(q.z * v.z));
    lemma_distrib4(t.w, q.y, q.w * 0, -(q.x * v.x), -(q.y * v.y), -(q.z * v.z));
    lemma_distrib4(t.w, q.z, q.w * 0, -(q.x * v.x), -(q.y * v.y), -(q.z * v.z));
    lemma_distrib4(t.x, q.w, q.y * v.z, -(q.z * v.y), q.x * 0, q.w * v.x);
    lemma_distrib4(t.x, q.x, q.y * v.z, -(q.z * v.y), q.x * 0, q.w * v.x);
    lemma_distrib4(t.x, q.y, q.y * v.z, -(q.z * v.y), q.x * 0, q.w * v.x);
    lemma_distrib4(t.x, q.z, q.y * v.z, -(q.z * v.y), q.x * 0, q.w * v.x);
    lemma_distrib4(t.y, q.w, q.z * v.x, -(q.x * v.z), q.y * 0, q.w * v.y);
    lemma_distrib4(t.y, q.x, q.z * v.x, -(q.x * v.z), q.y * 0, q.w * v.y);
    lemma_distrib4(t.y, q.y, q.z * v.x, -(q.x * v.z), q.y * 0, q.w * v.y);
    lemma_distrib4(t.y, q.z, q.z * v.x, -(q.x * v.z), q.y * 0, q.w * v.y);
    lemma_distrib4(t.z, q.w, q.x * v.y, -(q.y * v.x), q.z * 0, q.w * v.z);
    lemma_distrib4(t.z, q.x, q.x * v.y, -(q.y * v.x), q.z * 0, q.w * v.z);
    lemma_distrib4(t.z, q.y, q.x * v.y, -(q.y * v.x), q.z * 0, q.w * v.z);
    lemma_distrib4(t.z, q.z, q.x * v.y, -(q.y * v.x), q.z * 0, q.w * v.z);

    // Push the negations out of the distributed terms.
    lemma_neg_mul(q.x * v.x, q.w);
    lemma_neg_mul(q.x * v.x, q.x);
    lemma_neg_mul(q.x * v.x, q.y);
    lemma_neg_mul(q.x * v.x, q.z);
    lemma_neg_mul(q.y * v.y, q.w);
    lemma_neg_mul(q.y * v.y, q.x);
    lemma_neg_mul(q.y * v.y, q.y);
    lemma_neg_mul(q.y * v.y, q.z);
    lemma_neg_mul(q.z * v.z, q.w);
    lemma_neg_mul(q.z * v.z, q.x);
    lemma_neg_mul(q.z * v.z, q.y);
    lemma_neg_mul(q.z * v.z, q.z);
    lemma_neg_mul(q.z * v.y, q.w);
    lemma_neg_mul(q.z * v.y, q.x);
    lemma_neg_mul(q.z * v.y, q.y);
    lemma_neg_mul(q.z * v.y, q.z);
    lemma_neg_mul(q.x * v.z, q.w);
    lemma_neg_mul(q.x * v.z, q.x);
    lemma_neg_mul(q.x * v.z, q.y);
    lemma_neg_mul(q.x * v.z, q.z);
    lemma_neg_mul(q.y * v.x, q.w);
    lemma_neg_mul(q.y * v.x, q.x);
    lemma_neg_mul(q.y * v.x, q.y);
    lemma_neg_mul(q.y * v.x, q.z);
    lemma_neg_mul(t.x, q.x);
    lemma_neg_mul(t.y, q.y);
    lemma_neg_mul(t.z, q.z);

    // The conjugate negates the vector part of `q` in the second product.
    lemma_neg_mul(t.w, q.x);
    lemma_neg_mul(t.w, q.y);
    lemma_neg_mul(t.w, q.z);
    lemma_neg_mul(t.x, q.x);
    lemma_neg_mul(t.x, q.y);
    lemma_neg_mul(t.x, q.z);
    lemma_neg_mul(t.y, q.x);
    lemma_neg_mul(t.y, q.y);
    lemma_neg_mul(t.y, q.z);
    lemma_neg_mul(t.z, q.x);
    lemma_neg_mul(t.z, q.y);
    lemma_neg_mul(t.z, q.z);

    // Bring every monomial to the shape (q-part * q-part) * v-part.
    lemma_mul3_comm(q.w, v.x, q.w);
    lemma_mul3_comm(q.w, v.y, q.w);
    lemma_mul3_comm(q.w, v.z, q.w);
    lemma_mul3_comm(q.w, v.x, q.x);
    lemma_mul3_comm(q.w, v.y, q.x);
    lemma_mul3_comm(q.w, v.z, q.x);
    lemma_mul3_comm(q.w, v.x, q.y);
    lemma_mul3_comm(q.w, v.y, q.y);
    lemma_mul3_comm(q.w, v.z, q.y);
    lemma_mul3_comm(q.w, v.x, q.z);
    lemma_mul3_comm(q.w, v.y, q.z);
    lemma_mul3_comm(q.w, v.z, q.z);
    lemma_mul3_comm(q.x, v.x, q.w);
    lemma_mul3_comm(q.x, v.y, q.w);
    lemma_mul3_comm(q.x, v.z, q.w);
    lemma_mul3_comm(q.x, v.x, q.x);
    lemma_mul3_comm(q.x, v.y, q.x);
    lemma_mul3_comm(q.x, v.z, q.x);
    lemma_mul3_comm(q.x, v.x, q.y);
    lemma_mul3_comm(q.x, v.y, q.y);
    lemma_mul3_comm(q.x, v.z, q.y);
    lemma_mul3_comm(q.x, v.x, q.z);
    lemma_mul3_comm(q.x, v.y, q.z);
    lemma_mul3_comm(q.x, v.z, q.z);
    lemma_mul3_comm(q.y, v.x, q.w);
    lemma_mul3_comm(q.y, v.y, q.w);
    lemma_mul3_comm(q.y, v.z, q.w);
    lemma_mul3_comm(q.y, v.x, q.x);
    lemma_mul3_comm(q.y, v.y, q.x);
    lemma_mul3_comm(q.y, v.z, q.x);
    lemma_mul3_comm(q.y, v.x, q.y);
    lemma_mul3_comm(q.y, v.y, q.y);
    lemma_mul3_comm(q.y, v.z, q.y);
    lemma_mul3_comm(q.y, v.x, q.z);
    lemma_mul3_comm(q.y, v.y, q.z);
    lemma_mul3_comm(q.y, v.z, q.z);
    lemma_mul3_comm(q.z, v.x, q.w);
    lemma_mul3_comm(q.z, v.y, q.w);
    lemma_mul3_comm(q.z, v.z, q.w);
    lemma_mul3_comm(q.z, v.x, q.x);
    lemma_mul3_comm(q.z, v.y, q.x);
    lemma_mul3_comm(q.z, v.z, q.x);
    lemma_mul3_comm(q.z, v.x, q.y);
    lemma_mul3_comm(q.z, v.y, q.y);
    lemma_mul3_comm(q.z, v.z, q.y);
    lemma_mul3_comm(q.z, v.x, q.z);
    lemma_mul3_comm(q.z, v.y, q.z);
    lemma_mul3_comm(q.z, v.z, q.z);

    // Distribute the matrix entries over the vector components.
    lemma_distrib3(m.m00, v.x, 2 * (q.w * q.w), -(q.d * q.d), 2 * (q.x * q.x));
    lemma_distrib3(m.m11, v.y, 2 * (q.w * q.w), -(q.d * q.d), 2 * (q.y * q.y));
    lemma_distrib3(m.m22, v.z, 2 * (q.w * q.w), -(q.d * q.d), 2 * (q.z * q.z));
    lemma_distrib2(m.m10, v.y, 2 * (q.x * q.y), -(2 * (q.w * q.z)));
    lemma_distrib2(m.m20, v.z, 2 * (q.x * q.z), 2 * (q.w * q.y));
    lemma_distrib2(m.m01, v.x, 2 * (q.x * q.y), 2 * (q.w * q.z));
    lemma_distrib2(m.m21, v.z, 2 * (q.y * q.z), -(2 * (q.w * q.x)));
    lemma_distrib2(m.m02, v.x, 2 * (q.x * q.z), -(2 * (q.w * q.y)));
    lemma_distrib2(m.m12, v.y, 2 * (q.y * q.z), 2 * (q.w * q.x));

    // Halved and doubled monomials, and the negated doubles.
    lemma_two_mul(q.w * q.w, v.x);
    lemma_two_mul(q.w * q.w, v.y);
    lemma_two_mul(q.w * q.w, v.z);
    lemma_two_mul(q.w * q.x, v.x);
    lemma_two_mul(q.w * q.x, v.y);
    lemma_two_mul(q.w * q.x, v.z);
    lemma_two_mul(q.w * q.y, v.x);
    lemma_two_mul(q.w * q.y, v.y);
    lemma_two_mul(q.w * q.y, v.z);
    lemma_two_mul(q.w * q.z, v.x);
    lemma_two_mul(q.w * q.z, v.y);
    lemma_two_mul(q.w * q.z, v.z);
    lemma_two_mul(q.x * q.w, v.x);
    lemma_two_mul(q.x * q.w, v.y);
    lemma_two_mul(q.x * q.w, v.z);
    lemma_two_mul(q.x * q.x, v.x);
    lemma_two_mul(q.x * q.x, v.y);
    lemma_two_mul(q.x * q.x, v.z);
    lemma_two_mul(q.x * q.y, v.x);
    lemma_two_mul(q.x * q.y, v.y);
    lemma_two_mul(q.x * q.y, v.z);
    lemma_two_mul(q.x * q.z, v.x);
    lemma_two_mul(q.x * q.z, v.y);
    lemma_two_mul(q.x * q.z, v.z);
    lemma_two_mul(q.y * q.w, v.x);
    lemma_two_mul(q.y * q.w, v.y);
    lemma_two_mul(q.y * q.w, v.z);
    lemma_two_mul(q.y * q.x, v.x);
    lemma_two_mul(q.y * q.x, v.y);
    lemma_two_mul(q.y * q.x, v.z);
    lemma_two_mul(q.y * q.y, v.x);
    lemma_two_mul(q.y * q.y, v.y);
    lemma_two_mul(q.y * q.y, v.z);
    lemma_two_mul(q.y * q.z, v.x);
    lemma_two_mul(q.y * q.z, v.y);
    lemma_two_mul(q.y * q.z, v.z);
    lemma_two_mul(q.z * q.w, v.x);
    lemma_two_mul(q.z * q.w, v.y);
    lemma_two_mul(q.z * q.w, v.z);
    lemma_two_mul(q.z * q.x, v.x);
    lemma_two_mul(q.z * q.x, v.y);
    lemma_two_mul(q.z * q.x, v.z);
    lemma_two_mul(q.z * q.y, v.x);
    lemma_two_mul(q.z * q.y, v.y);
    lemma_two_mul(q.z * q.y, v.z);
    lemma_two_mul(q.z * q.z, v.x);
    lemma_two_mul(q.z * q.z, v.y);
    lemma_two_mul(q.z * q.z, v.z);
    lemma_neg_mul(2 * (q.w * q.z), v.x);
    lemma_neg_mul(2 * (q.w * q.z), v.y);
    lemma_neg_mul(2 * (q.w * q.z), v.z);
    lemma_neg_mul(2 * (q.w * q.x), v.x);
    lemma_neg_mul(2 * (q.w * q.x), v.y);
    lemma_neg_mul(2 * (q.w * q.x), v.z);
    lemma_neg_mul(2 * (q.w * q.y), v.x);
    lemma_neg_mul(2 * (q.w * q.y), v.y);
    lemma_neg_mul(2 * (q.w * q.y), v.z);
    lemma_neg_mul(q.d * q.d, v.x);
    lemma_neg_mul(q.d * q.d, v.y);
    lemma_neg_mul(q.d * q.d, v.z);

    // Replace the squared denominator by the squared norm and expand it.
    lemma_distrib4(s, v.x, q.w * q.w, q.x * q.x, q.y * q.y, q.z * q.z);
    lemma_distrib4(s, v.y, q.w * q.w, q.x * q.x, q.y * q.y, q.z * q.z);
    lemma_distrib4(s, v.z, q.w * q.w, q.x * q.x, q.y * q.y, q.z * q.z);

    assert(r.x == v.x * m.m00 + v.y * m.m10 + v.z * m.m20);
    assert(r.y == v.x * m.m01 + v.y * m.m11 + v.z * m.m21);
    assert(r.z == v.x * m.m02 + v.y * m.m12 + v.z * m.m22);
    assert((q.d * v.d) * q.d == v.d * (q.d * q.d)) by (nonlinear_arith);
}

/// LAW: a single-axis Euler construction agrees exactly with the
/// axis-angle construction about the first axis.
pub proof fn lemma_euler_single_axis(s: Rat, c: Rat)
    requires
        s.wf(),
        c.wf(),
    ensures
        Quat::from_euler(s, c, Rat::zero(), Rat::one(), Rat::zero(), Rat::one())
            == Quat::from_axis_angle(Vec3::identity(), s, c),
{
    let qz = Quat::axis_z(Rat::zero(), Rat::one());
    let qy = Quat::axis_y(Rat::zero(), Rat::one());
    let qx = Quat::axis_x(s, c);
    assert(qz == Quat::identity());
    assert(qy == Quat::identity());
    lemma_product_identity(Quat::identity());
    assert(qz.product(qy) == Quat::identity());
    lemma_pos_mul(c.d, s.d);
    lemma_product_identity(qx);
    assert(Quat::from_euler(s, c, Rat::zero(), Rat::one(), Rat::zero(), Rat::one()) == qx);
    let a = Quat::from_axis_angle(Vec3::identity(), s, c);
    assert(1 * s.n == s.n && 0 * s.n == 0 && 1 * s.d == s.d);
    assert(a.w == c.n * s.d);
    assert(a.x == s.n * c.d);
    assert(a.y == 0 * c.d && 0 * c.d == 0);
    assert(a.d == c.d * s.d);
    assert(a == qx);
}

} // verus!
