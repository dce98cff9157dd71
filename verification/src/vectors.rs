//! Vector types `Vector3` and `Vector4`.
//!
//! A vector keeps its components over one shared positive denominator `d`:
//! the vector `(x / d, y / d, z / d)` is stored as the four integers
//! `x, y, z, d`. Componentwise operations then stay exact, and two vectors
//! are compared by the values of their components.

use vstd::prelude::*;

use crate::arith::lemma_mul_fits;
use crate::arith::lemma_mul3_fits;
use crate::arith::lemma_mul4_fits;
use crate::arith::lemma_pos_mul;
use crate::arith::lemma_pos_mul3;
use crate::arith::lemma_pos_mul4;
use crate::matrices::Mat3;
use crate::matrices::Matrix3;
use crate::matrices::Mat4;
use crate::matrices::Matrix4;
use crate::rational::LIMIT_CHAIN;
use crate::rational::LIMIT_PAIR;
use crate::rational::LIMIT_QUOT;
use crate::rational::LIMIT_TRIG;
use crate::rational::Rat;
use crate::rational::Rational;

verus! {

/// Mathematical value of a 3-vector: `(x / d, y / d, z / d)`.
pub struct Vec3 {
    pub x: int,
    pub y: int,
    pub z: int,
    pub d: int,
}

impl Vec3 {
    pub open spec fn wf(self) -> bool {
        self.d > 0
    }

    /// Componentwise value equality, by cross-multiplication.
    pub open spec fn eqv(self, other: Vec3) -> bool {
        &&& self.x * other.d == other.x * self.d
        &&& self.y * other.d == other.y * self.d
        &&& self.z * other.d == other.z * self.d
    }

    pub open spec fn bounded(self, b: int) -> bool {
        &&& -b <= self.x <= b
        &&& -b <= self.y <= b
        &&& -b <= self.z <= b
        &&& 0 < self.d <= b
    }

    /// Three scalars brought over their common denominator.
    pub open spec fn pack3(a: Rat, b: Rat, c: Rat) -> Vec3 {
        Vec3 {
            x: a.n * b.d * c.d,
            y: b.n * a.d * c.d,
            z: c.n * a.d * b.d,
            d: a.d * b.d * c.d,
        }
    }

    pub open spec fn zero() -> Vec3 {
        Vec3 { x: 0, y: 0, z: 0, d: 1 }
    }

    pub open spec fn identity() -> Vec3 {
        Vec3 { x: 1, y: 0, z: 0, d: 1 }
    }

    /// Component `i` (0, 1 or 2) as a scalar value.
    pub open spec fn comp(self, i: int) -> Rat {
        if i == 0 {
            Rat { n: self.x, d: self.d }
        } else if i == 1 {
            Rat { n: self.y, d: self.d }
        } else {
            Rat { n: self.z, d: self.d }
        }
    }

    pub open spec fn sum(self, o: Vec3) -> Vec3 {
        Vec3 {
            x: self.x * o.d + o.x * self.d,
            y: self.y * o.d + o.y * self.d,
            z: self.z * o.d + o.z * self.d,
            d: self.d * o.d,
        }
    }

    pub open spec fn sum_scalar(self, s: Rat) -> Vec3 {
        Vec3 {
            x: self.x * s.d + s.n * self.d,
            y: self.y * s.d + s.n * self.d,
            z: self.z * s.d + s.n * self.d,
            d: self.d * s.d,
        }
    }

    pub open spec fn difference(self, o: Vec3) -> Vec3 {
        Vec3 {
            x: self.x * o.d - o.x * self.d,
            y: self.y * o.d - o.y * self.d,
            z: self.z * o.d - o.z * self.d,
            d: self.d * o.d,
        }
    }

    pub open spec fn difference_scalar(self, s: Rat) -> Vec3 {
        Vec3 {
            x: self.x * s.d - s.n * self.d,
            y: self.y * s.d - s.n * self.d,
            z: self.z * s.d - s.n * self.d,
            d: self.d * s.d,
        }
    }

    /// Componentwise product.
    pub open spec fn product(self, o: Vec3) -> Vec3 {
        Vec3 { x: self.x * o.x, y: self.y * o.y, z: self.z * o.z, d: self.d * o.d }
    }

    pub open spec fn product_scalar(self, s: Rat) -> Vec3 {
        Vec3 { x: self.x * s.n, y: self.y * s.n, z: self.z * s.n, d: self.d * s.d }
    }

    /// Componentwise quotient.
    pub open spec fn quotient(self, o: Vec3) -> Vec3 {
        Vec3::pack3(
            (Rat { n: self.x, d: self.d }).quotient(Rat { n: o.x, d: o.d }),
            (Rat { n: self.y, d: self.d }).quotient(Rat { n: o.y, d: o.d }),
            (Rat { n: self.z, d: self.d }).quotient(Rat { n: o.z, d: o.d }),
        )
    }

    pub open spec fn quotient_scalar(self, s: Rat) -> Vec3 {
        if s.n > 0 {
            Vec3 { x: self.x * s.d, y: self.y * s.d, z: self.z * s.d, d: self.d * s.n }
        } else {
            Vec3 { x: -(self.x * s.d), y: -(self.y * s.d), z: -(self.z * s.d), d: -(self.d * s.n) }
        }
    }

    pub open spec fn dot(self, o: Vec3) -> Rat {
        Rat { n: self.x * o.x + self.y * o.y + self.z * o.z, d: self.d * o.d }
    }

    pub open spec fn cross(self, o: Vec3) -> Vec3 {
        Vec3 {
            x: self.y * o.z - self.z * o.y,
            y: self.z * o.x - self.x * o.z,
            z: self.x * o.y - self.y * o.x,
            d: self.d * o.d,
        }
    }

    /// The square of the Euclidean magnitude.
    pub open spec fn magnitude_squared(self) -> Rat {
        Rat { n: self.x * self.x + self.y * self.y + self.z * self.z, d: self.d * self.d }
    }

    pub open spec fn opposite(self) -> Vec3 {
        Vec3 { x: -self.x, y: -self.y, z: -self.z, d: self.d }
    }

    /// The row vector times a matrix: component `i` of the result is the
    /// dot product of the vector with column `i` of the matrix.
    pub open spec fn product_matrix(self, m: Mat3) -> Vec3 {
        Vec3 {
            x: self.x * m.m00 + self.y * m.m10 + self.z * m.m20,
            y: self.x * m.m01 + self.y * m.m11 + self.z * m.m21,
            z: self.x * m.m02 + self.y * m.m12 + self.z * m.m22,
            d: self.d * m.d,
        }
    }
}

/// A 3-component vector of exact scalars over one shared denominator.
#[derive(Clone, Copy, Debug)]
pub struct Vector3 {
    /// Numerator of the first component.
    pub x: i128,
    /// Numerator of the second component.
    pub y: i128,
    /// Numerator of the third component.
    pub z: i128,
    /// Shared denominator; positive in every well-formed vector.
    pub d: i128,
}

impl View for Vector3 {
    type V = Vec3;

    open spec fn view(&self) -> Vec3 {
        Vec3 { x: self.x as int, y: self.y as int, z: self.z as int, d: self.d as int }
    }
}

impl Vector3 {
    /// Builds the vector `(x, y, z)` over the common denominator of the
    /// three scalars.
    pub fn new(x: Rational, y: Rational, z: Rational) -> (r: Vector3)
        requires
            x@.bounded(LIMIT_CHAIN as int),
            y@.bounded(LIMIT_CHAIN as int),
            z@.bounded(LIMIT_CHAIN as int),
        ensures
            r@ == Vec3::pack3(x@, y@, z@),
            r@.wf(),
    {
        proof {
            lemma_mul3_fits(x@.n, y@.d, z@.d, LIMIT_CHAIN as int);
            lemma_mul3_fits(y@.n, x@.d, z@.d, LIMIT_CHAIN as int);
            lemma_mul3_fits(z@.n, x@.d, y@.d, LIMIT_CHAIN as int);
            lemma_mul3_fits(x@.d, y@.d, z@.d, LIMIT_CHAIN as int);
            lemma_pos_mul3(x@.d, y@.d, z@.d);
        }
        Vector3 { x: x.n * y.d * z.d, y: y.n * x.d * z.d, z: z.n * x.d * y.d, d: x.d * y.d * z.d }
    }

    pub fn zero() -> (r: Vector3)
        ensures
            r@ == Vec3::zero(),
            r@.wf(),
    {
        Vector3 { x: 0, y: 0, z: 0, d: 1 }
    }

    pub fn identity() -> (r: Vector3)
        ensures
            r@ == Vec3::identity(),
            r@.wf(),
    {
        Vector3 { x: 1, y: 0, z: 0, d: 1 }
    }

    /// Builds a vector from an array of three scalars.
    pub fn from_array(a: [Rational; 3]) -> (r: Vector3)
        requires
            a@[0]@.bounded(LIMIT_CHAIN as int),
            a@[1]@.bounded(LIMIT_CHAIN as int),
            a@[2]@.bounded(LIMIT_CHAIN as int),
        ensures
            r@ == Vec3::pack3(a@[0]@, a@[1]@, a@[2]@),
            r@.wf(),
    {
        Vector3::new(a[0], a[1], a[2])
    }

    /// The three components as scalar values.
    pub fn decompose(&self) -> (r: (Rational, Rational, Rational))
        ensures
            r.0@ == self@.comp(0),
            r.1@ == self@.comp(1),
            r.2@ == self@.comp(2),
    {
        (
            Rational { n: self.x, d: self.d },
            Rational { n: self.y, d: self.d },
            Rational { n: self.z, d: self.d },
        )
    }

    pub fn x(&self) -> (r: Rational)
        ensures
            r@ == self@.comp(0),
    {
        Rational { n: self.x, d: self.d }
    }

    pub fn y(&self) -> (r: Rational)
        ensures
            r@ == self@.comp(1),
    {
        Rational { n: self.y, d: self.d }
    }

    pub fn z(&self) -> (r: Rational)
        ensures
            r@ == self@.comp(2),
    {
        Rational { n: self.z, d: self.d }
    }

    /// Component `i`; the index must be in bounds.
    pub fn index(&self, i: usize) -> (r: Rational)
        requires
            i < 3,
        ensures
            r@ == self@.comp(i as int),
    {
        if i == 0 {
            Rational { n: self.x, d: self.d }
        } else if i == 1 {
            Rational { n: self.y, d: self.d }
        } else {
            Rational { n: self.z, d: self.d }
        }
    }

    pub fn sum(&self, other: Vector3) -> (r: Vector3)
        requires
            self@.bounded(LIMIT_PAIR as int),
            other@.bounded(LIMIT_PAIR as int),
        ensures
            r@ == self@.sum(other@),
            r@.wf(),
    {
        proof {
            lemma_mul_fits(self@.x, other@.d, LIMIT_PAIR as int, LIMIT_PAIR as int);
            lemma_mul_fits(self@.y, other@.d, LIMIT_PAIR as int, LIMIT_PAIR as int);
            lemma_mul_fits(self@.z, other@.d, LIMIT_PAIR as int, LIMIT_PAIR as int);
            lemma_mul_fits(other@.x, self@.d, LIMIT_PAIR as int, LIMIT_PAIR as int);
            lemma_mul_fits(other@.y, self@.d, LIMIT_PAIR as int, LIMIT_PAIR as int);
            lemma_mul_fits(other@.z, self@.d, LIMIT_PAIR as int, LIMIT_PAIR as int);
            lemma_mul_fits(self@.d, other@.d, LIMIT_PAIR as int, LIMIT_PAIR as int);
            lemma_pos_mul(self@.d, other@.d);
        }
        Vector3 {
            x: self.x * other.d + other.x * self.d,
            y: self.y * other.d + other.y * self.d,
            z: self.z * other.d + other.z * self.d,
            d: self.d * other.d,
        }
    }

    pub fn sum_scalar(&self, scalar: Rational) -> (r: Vector3)
        requires
            self@.bounded(LIMIT_PAIR as int),
            scalar@.bounded(LIMIT_PAIR as int),
        ensures
            r@ == self@.sum_scalar(scalar@),
            r@.wf(),
    {
        proof {
            lemma_mul_fits(self@.x, scalar@.d, LIMIT_PAIR as int, LIMIT_PAIR as int);
            lemma_mul_fits(self@.y, scalar@.d, LIMIT_PAIR as int, LIMIT_PAIR as int);
            lemma_mul_fits(self@.z, scalar@.d, LIMIT_PAIR as int, LIMIT_PAIR as int);
            lemma_mul_fits(scalar@.n, self@.d, LIMIT_PAIR as int, LIMIT_PAIR as int);
            lemma_mul_fits(self@.d, scalar@.d, LIMIT_PAIR as int, LIMIT_PAIR as int);
            lemma_pos_mul(self@.d, scalar@.d);
        }
        Vector3 {
            x: self.x * scalar.d + scalar.n * self.d,
            y: self.y * scalar.d + scalar.n * self.d,
            z: self.z * scalar.d + scalar.n * self.d,
            d: self.d * scalar.d,
        }
    }

    pub fn difference(&self, other: Vector3) -> (r: Vector3)
        requires
            self@.bounded(LIMIT_PAIR as int),
            other@.bounded(LIMIT_PAIR as int),
        ensures
            r@ == self@.difference(other@),
            r@.wf(),
    {
        proof {
            lemma_mul_fits(self@.x, other@.d, LIMIT_PAIR as int, LIMIT_PAIR as int);
            lemma_mul_fits(self@.y, other@.d, LIMIT_PAIR as int, LIMIT_PAIR as int);
            lemma_mul_fits(self@.z, other@.d, LIMIT_PAIR as int, LIMIT_PAIR as int);
            lemma_mul_fits(other@.x, self@.d, LIMIT_PAIR as int, LIMIT_PAIR as int);
            lemma_mul_fits(other@.y, self@.d, LIMIT_PAIR as int, LIMIT_PAIR as int);
            lemma_mul_fits(other@.z, self@.d, LIMIT_PAIR as int, LIMIT_PAIR as int);
            lemma_mul_fits(self@.d, other@.d, LIMIT_PAIR as int, LIMIT_PAIR as int);
            lemma_pos_mul(self@.d, other@.d);
        }
        Vector3 {
            x: self.x * other.d - other.x * self.d,
            y: self.y * other.d - other.y * self.d,
            z: self.z * other.d - other.z * self.d,
            d: self.d * other.d,
        }
    }

    pub fn difference_scalar(&self, scalar: Rational) -> (r: Vector3)
        requires
            self@.bounded(LIMIT_PAIR as int),
            scalar@.bounded(LIMIT_PAIR as int),
        ensures
            r@ == self@.difference_scalar(scalar@),
            r@.wf(),
    {
        proof {
            lemma_mul_fits(self@.x, scalar@.d, LIMIT_PAIR as int, LIMIT_PAIR as int);
            lemma_mul_fits(self@.y, scalar@.d, LIMIT_PAIR as int, LIMIT_PAIR as int);
            lemma_mul_fits(self@.z, scalar@.d, LIMIT_PAIR as int, LIMIT_PAIR as int);
            lemma_mul_fits(scalar@.n, self@.d, LIMIT_PAIR as int, LIMIT_PAIR as int);
            lemma_mul_fits(self@.d, scalar@.d, LIMIT_PAIR as int, LIMIT_PAIR as int);
            lemma_pos_mul(self@.d, scalar@.d);
        }
        Vector3 {
            x: self.x * scalar.d - scalar.n * self.d,
            y: self.y * scalar.d - scalar.n * self.d,
            z: self.z * scalar.d - scalar.n * self.d,
            d: self.d * scalar.d,
        }
    }

    /// Componentwise product.
    pub fn product(&self, other: Vector3) -> (r: Vector3)
        requires
            self@.bounded(LIMIT_PAIR as int),
            other@.bounded(LIMIT_PAIR as int),
        ensures
            r@ == self@.product(other@),
            r@.wf(),
    {
        proof {
            lemma_mul_fits(self@.x, other@.x, LIMIT_PAIR as int, LIMIT_PAIR as int);
            lemma_mul_fits(self@.y, other@.y, LIMIT_PAIR as int, LIMIT_PAIR as int);
            lemma_mul_fits(self@.z, other@.z, LIMIT_PAIR as int, LIMIT_PAIR as int);
            lemma_mul_fits(self@.d, other@.d, LIMIT_PAIR as int, LIMIT_PAIR as int);
            lemma_pos_mul(self@.d, other@.d);
        }
        Vector3 { x: self.x * other.x, y: self.y * other.y, z: self.z * other.z, d: self.d * other.d }
    }

    pub fn product_scalar(&self, s: Rational) -> (r: Vector3)
        requires
            self@.bounded(LIMIT_PAIR as int),
            s@.bounded(LIMIT_PAIR as int),
        ensures
            r@ == self@.product_scalar(s@),
            r@.wf(),
    {
        proof {
            lemma_mul_fits(self@.x, s@.n, LIMIT_PAIR as int, LIMIT_PAIR as int);
            lemma_mul_fits(self@.y, s@.n, LIMIT_PAIR as int, LIMIT_PAIR as int);
            lemma_mul_fits(self@.z, s@.n, LIMIT_PAIR as int, LIMIT_PAIR as int);
            lemma_mul_fits(self@.d, s@.d, LIMIT_PAIR as int, LIMIT_PAIR as int);
            lemma_pos_mul(self@.d, s@.d);
        }
        Vector3 { x: self.x * s.n, y: self.y * s.n, z: self.z * s.n, d: self.d * s.d }
    }

    /// Componentwise quotient. Every component of the divisor must be
    /// nonzero: division by a zero component is a numeric degeneracy that
    /// this library rules out.
    pub fn quotient(&self, other: Vector3) -> (r: Vector3)
        requires
            self@.bounded(LIMIT_TRIG as int),
            other@.bounded(LIMIT_TRIG as int),
            other@.x != 0,
            other@.y != 0,
            other@.z != 0,
        ensures
            r@ == self@.quotient(other@),
            r@.wf(),
    {
        let cx = Rational { n: self.x, d: self.d }.quotient(
            Rational { n: other.x, d: other.d },
        );
        let cy = Rational { n: self.y, d: self.d }.quotient(
            Rational { n: other.y, d: other.d },
        );
        let cz = Rational { n: self.z, d: self.d }.quotient(
            Rational { n: other.z, d: other.d },
        );
        proof {
            lemma_mul_fits(self@.x, other@.d, LIMIT_TRIG as int, LIMIT_TRIG as int);
            lemma_mul_fits(self@.y, other@.d, LIMIT_TRIG as int, LIMIT_TRIG as int);
            lemma_mul_fits(self@.z, other@.d, LIMIT_TRIG as int, LIMIT_TRIG as int);
            lemma_mul_fits(self@.d, other@.x, LIMIT_TRIG as int, LIMIT_TRIG as int);
            lemma_mul_fits(self@.d, other@.y, LIMIT_TRIG as int, LIMIT_TRIG as int);
            lemma_mul_fits(self@.d, other@.z, LIMIT_TRIG as int, LIMIT_TRIG as int);
        }
        Vector3::new(cx, cy, cz)
    }

    pub fn quotient_scalar(&self, s: Rational) -> (r: Vector3)
        requires
            self@.bounded(LIMIT_PAIR as int),
            s@.bounded(LIMIT_PAIR as int),
            s@.n != 0,
        ensures
            r@ == self@.quotient_scalar(s@),
            r@.wf(),
    {
        proof {
            lemma_mul_fits(self@.x, s@.d, LIMIT_PAIR as int, LIMIT_PAIR as int);
            lemma_mul_fits(self@.y, s@.d, LIMIT_PAIR as int, LIMIT_PAIR as int);
            lemma_mul_fits(self@.z, s@.d, LIMIT_PAIR as int, LIMIT_PAIR as int);
            lemma_mul_fits(self@.d, s@.n, LIMIT_PAIR as int, LIMIT_PAIR as int);
            if s@.n > 0 {
                lemma_pos_mul(self@.d, s@.n);
            } else {
                lemma_pos_mul(self@.d, -s@.n);
                assert(self@.d * (-s@.n) == -(self@.d * s@.n)) by (nonlinear_arith);
            }
        }
        if s.n > 0 {
            Vector3 { x: self.x * s.d, y: self.y * s.d, z: self.z * s.d, d: self.d * s.n }
        } else {
            Vector3 {
                x: -(self.x * s.d),
                y: -(self.y * s.d),
                z: -(self.z * s.d),
                d: -(self.d * s.n),
            }
        }
    }

    /// Dot product.
    pub fn dot(&self, other: Vector3) -> (r: Rational)
        requires
            self@.bounded(LIMIT_PAIR as int),
            other@.bounded(LIMIT_PAIR as int),
        ensures
            r@ == self@.dot(other@),
            r@.wf(),
    {
        proof {
            lemma_mul_fits(self@.x, other@.x, LIMIT_PAIR as int, LIMIT_PAIR as int);
            lemma_mul_fits(self@.y, other@.y, LIMIT_PAIR as int, LIMIT_PAIR as int);
            lemma_mul_fits(self@.z, other@.z, LIMIT_PAIR as int, LIMIT_PAIR as int);
            lemma_mul_fits(self@.d, other@.d, LIMIT_PAIR as int, LIMIT_PAIR as int);
            lemma_pos_mul(self@.d, other@.d);
        }
        Rational { n: self.x * other.x + self.y * other.y + self.z * other.z, d: self.d * other.d }
    }

    /// Cross product.
    pub fn cross(&self, other: Vector3) -> (r: Vector3)
        requires
            self@.bounded(LIMIT_PAIR as int),
            other@.bounded(LIMIT_PAIR as int),
        ensures
            r@ == self@.cross(other@),
            r@.wf(),
    {
        proof {
            lemma_mul_fits(self@.y, other@.z, LIMIT_PAIR as int, LIMIT_PAIR as int);
            lemma_mul_fits(self@.z, other@.y, LIMIT_PAIR as int, LIMIT_PAIR as int);
            lemma_mul_fits(self@.z, other@.x, LIMIT_PAIR as int, LIMIT_PAIR as int);
            lemma_mul_fits(self@.x, other@.z, LIMIT_PAIR as int, LIMIT_PAIR as int);
            lemma_mul_fits(self@.x, other@.y, LIMIT_PAIR as int, LIMIT_PAIR as int);
            lemma_mul_fits(self@.y, other@.x, LIMIT_PAIR as int, LIMIT_PAIR as int);
            lemma_mul_fits(self@.d, other@.d, LIMIT_PAIR as int, LIMIT_PAIR as int);
            lemma_pos_mul(self@.d, other@.d);
        }
        Vector3 {
            x: self.y * other.z - self.z * other.y,
            y: self.z * other.x - self.x * other.z,
            z: self.x * other.y - self.y * other.x,
            d: self.d * other.d,
        }
    }

    /// The square of the Euclidean magnitude. The magnitude itself is a
    /// square root and is left to the host's floating-point layer.
    pub fn magnitude_squared(&self) -> (r: Rational)
        requires
            self@.bounded(LIMIT_PAIR as int),
        ensures
            r@ == self@.magnitude_squared(),
            r@.wf(),
    {
        proof {
            lemma_mul_fits(self@.x, self@.x, LIMIT_PAIR as int, LIMIT_PAIR as int);
            lemma_mul_fits(self@.y, self@.y, LIMIT_PAIR as int, LIMIT_PAIR as int);
            lemma_mul_fits(self@.z, self@.z, LIMIT_PAIR as int, LIMIT_PAIR as int);
            lemma_mul_fits(self@.d, self@.d, LIMIT_PAIR as int, LIMIT_PAIR as int);
            lemma_pos_mul(self@.d, self@.d);
        }
        Rational { n: self.x * self.x + self.y * self.y + self.z * self.z, d: self.d * self.d }
    }

    /// The vector negated.
    pub fn opposite(&self) -> (r: Vector3)
        requires
            self@.bounded(LIMIT_PAIR as int),
        ensures
            r@ == self@.opposite(),
            r@.wf(),
    {
        Vector3 { x: -self.x, y: -self.y, z: -self.z, d: self.d }
    }

    /// The row vector times a matrix.
    pub fn product_matrix(&self, other: Matrix3) -> (r: Vector3)
        requires
            self@.bounded(LIMIT_PAIR as int),
            other@.bounded(LIMIT_PAIR as int),
        ensures
            r@ == self@.product_matrix(other@),
            r@.wf(),
    {
        proof {
            lemma_mul_fits(self@.x, other@.m00, LIMIT_PAIR as int, LIMIT_PAIR as int);
            lemma_mul_fits(self@.y, other@.m10, LIMIT_PAIR as int, LIMIT_PAIR as int);
            lemma_mul_fits(self@.z, other@.m20, LIMIT_PAIR as int, LIMIT_PAIR as int);
            lemma_mul_fits(self@.x, other@.m01, LIMIT_PAIR as int, LIMIT_PAIR as int);
            lemma_mul_fits(self@.y, other@.m11, LIMIT_PAIR as int, LIMIT_PAIR as int);
            lemma_mul_fits(self@.z, other@.m21, LIMIT_PAIR as int, LIMIT_PAIR as int);
            lemma_mul_fits(self@.x, other@.m02, LIMIT_PAIR as int, LIMIT_PAIR as int);
            lemma_mul_fits(self@.y, other@.m12, LIMIT_PAIR as int, LIMIT_PAIR as int);
            lemma_mul_fits(self@.z, other@.m22, LIMIT_PAIR as int, LIMIT_PAIR as int);
            lemma_mul_fits(self@.d, other@.d, LIMIT_PAIR as int, LIMIT_PAIR as int);
            lemma_pos_mul(self@.d, other@.d);
        }
        Vector3 {
            x: self.x * other.m00 + self.y * other.m10 + self.z * other.m20,
            y: self.x * other.m01 + self.y * other.m11 + self.z * other.m21,
            z: self.x * other.m02 + self.y * other.m12 + self.z * other.m22,
            d: self.d * other.d,
        }
    }

    /// Exact value equality of the components.
    pub fn equals(&self, other: &Vector3) -> (b: bool)
        requires
            self@.bounded(LIMIT_PAIR as int),
            other@.bounded(LIMIT_PAIR as int),
        ensures
            b == self@.eqv(other@),
    {
        proof {
            lemma_mul_fits(self@.x, other@.d, LIMIT_PAIR as int, LIMIT_PAIR as int);
            lemma_mul_fits(self@.y, other@.d, LIMIT_PAIR as int, LIMIT_PAIR as int);
            lemma_mul_fits(self@.z, other@.d, LIMIT_PAIR as int, LIMIT_PAIR as int);
            lemma_mul_fits(other@.x, self@.d, LIMIT_PAIR as int, LIMIT_PAIR as int);
            lemma_mul_fits(other@.y, self@.d, LIMIT_PAIR as int, LIMIT_PAIR as int);
            lemma_mul_fits(other@.z, self@.d, LIMIT_PAIR as int, LIMIT_PAIR as int);
        }
        self.x * other.d == other.x * self.d && self.y * other.d == other.y * self.d && self.z
            * other.d == other.z * self.d
    }
}

/// Mathematical value of a 4-vector: `(x / d, y / d, z / d, w / d)`.
pub struct Vec4 {
    pub x: int,
    pub y: int,
    pub z: int,
    pub w: int,
    pub d: int,
}

impl Vec4 {
    pub open spec fn wf(self) -> bool {
        self.d > 0
    }

    pub open spec fn eqv(self, other: Vec4) -> bool {
        &&& self.x * other.d == other.x * self.d
        &&& self.y * other.d == other.y * self.d
        &&& self.z * other.d == other.z * self.d
        &&& self.w * other.d == other.w * self.d
    }

    pub open spec fn bounded(self, b: int) -> bool {
        &&& -b <= self.x <= b
        &&& -b <= self.y <= b
        &&& -b <= self.z <= b
        &&& -b <= self.w <= b
        &&& 0 < self.d <= b
    }

    /// Four scalars brought over their common denominator.
    pub open spec fn pack4(a: Rat, b: Rat, c: Rat, e: Rat) -> Vec4 {
        Vec4 {
            x: ((a.n * b.d) * c.d) * e.d,
            y: ((b.n * a.d) * c.d) * e.d,
            z: ((c.n * a.d) * b.d) * e.d,
            w: ((e.n * a.d) * b.d) * c.d,
            d: ((a.d * b.d) * c.d) * e.d,
        }
    }

    /// A 3-vector extended with a fourth component.
    pub open spec fn from_vec3(v: Vec3, w: Rat) -> Vec4 {
        Vec4 { x: v.x * w.d, y: v.y * w.d, z: v.z * w.d, w: w.n * v.d, d: v.d * w.d }
    }

    pub open spec fn zero() -> Vec4 {
        Vec4 { x: 0, y: 0, z: 0, w: 0, d: 1 }
    }

    pub open spec fn identity() -> Vec4 {
        Vec4 { x: 1, y: 1, z: 1, w: 1, d: 1 }
    }

    pub open spec fn comp(self, i: int) -> Rat {
        if i == 0 {
            Rat { n: self.x, d: self.d }
        } else if i == 1 {
            Rat { n: self.y, d: self.d }
        } else if i == 2 {
            Rat { n: self.z, d: self.d }
        } else {
            Rat { n: self.w, d: self.d }
        }
    }

    pub open spec fn sum(self, o: Vec4) -> Vec4 {
        Vec4 {
            x: self.x * o.d + o.x * self.d,
            y: self.y * o.d + o.y * self.d,
            z: self.z * o.d + o.z * self.d,
            w: self.w * o.d + o.w * self.d,
            d: self.d * o.d,
        }
    }

    pub open spec fn sum_scalar(self, s: Rat) -> Vec4 {
        Vec4 {
            x: self.x * s.d + s.n * self.d,
            y: self.y * s.d + s.n * self.d,
            z: self.z * s.d + s.n * self.d,
            w: self.w * s.d + s.n * self.d,
            d: self.d * s.d,
        }
    }

    pub open spec fn difference(self, o: Vec4) -> Vec4 {
        Vec4 {
            x: self.x * o.d - o.x * self.d,
            y: self.y * o.d - o.y * self.d,
            z: self.z * o.d - o.z * self.d,
            w: self.w * o.d - o.w * self.d,
            d: self.d * o.d,
        }
    }

    pub open spec fn difference_scalar(self, s: Rat) -> Vec4 {
        Vec4 {
            x: self.x * s.d - s.n * self.d,
            y: self.y * s.d - s.n * self.d,
            z: self.z * s.d - s.n * self.d,
            w: self.w * s.d - s.n * self.d,
            d: self.d * s.d,
        }
    }

    pub open spec fn product(self, o: Vec4) -> Vec4 {
        Vec4 {
            x: self.x * o.x,
            y: self.y * o.y,
            z: self.z * o.z,
            w: self.w * o.w,
            d: self.d * o.d,
        }
    }

    pub open spec fn product_scalar(self, s: Rat) -> Vec4 {
        Vec4 {
            x: self.x * s.n,
            y: self.y * s.n,
            z: self.z * s.n,
            w: self.w * s.n,
            d: self.d * s.d,
        }
    }

    pub open spec fn quotient(self, o: Vec4) -> Vec4 {
        Vec4::pack4(
            (Rat { n: self.x, d: self.d }).quotient(Rat { n: o.x, d: o.d }),
            (Rat { n: self.y, d: self.d }).quotient(Rat { n: o.y, d: o.d }),
            (Rat { n: self.z, d: self.d }).quotient(Rat { n: o.z, d: o.d }),
            (Rat { n: self.w, d: self.d }).quotient(Rat { n: o.w, d: o.d }),
        )
    }

    pub open spec fn quotient_scalar(self, s: Rat) -> Vec4 {
        if s.n > 0 {
            Vec4 {
                x: self.x * s.d,
                y: self.y * s.d,
                z: self.z * s.d,
                w: self.w * s.d,
                d: self.d * s.n,
            }
        } else {
            Vec4 {
                x: -(self.x * s.d),
                y: -(self.y * s.d),
                z: -(self.z * s.d),
                w: -(self.w * s.d),
                d: -(self.d * s.n),
            }
        }
    }

    pub open spec fn dot(self, o: Vec4) -> Rat {
        Rat {
            n: self.x * o.x + self.y * o.y + self.z * o.z + self.w * o.w,
            d: self.d * o.d,
        }
    }

    pub open spec fn magnitude_squared(self) -> Rat {
        Rat {
            n: self.x * self.x + self.y * self.y + self.z * self.z + self.w * self.w,
            d: self.d * self.d,
        }
    }

    /// The row vector times a matrix: component `i` of the result is the
    /// dot product of the vector with row `i` of the matrix.
    pub open spec fn product_matrix(self, m: Mat4) -> Vec4 {
        Vec4 {
            x: self.x * m.m00 + self.y * m.m01 + self.z * m.m02 + self.w * m.m03,
            y: self.x * m.m10 + self.y * m.m11 + self.z * m.m12 + self.w * m.m13,
            z: self.x * m.m20 + self.y * m.m21 + self.z * m.m22 + self.w * m.m23,
            w: self.x * m.m30 + self.y * m.m31 + self.z * m.m32 + self.w * m.m33,
            d: self.d * m.d,
        }
    }
}

/// A 4-component vector of exact scalars over one shared denominator.
#[derive(Clone, Copy, Debug)]
pub struct Vector4 {
    /// Numerator of the first component.
    pub x: i128,
    /// Numerator of the second component.
    pub y: i128,
    /// Numerator of the third component.
    pub z: i128,
    /// Numerator of the fourth component.
    pub w: i128,
    /// Shared denominator; positive in every well-formed vector.
    pub d: i128,
}

impl View for Vector4 {
    type V = Vec4;

    open spec fn view(&self) -> Vec4 {
        Vec4 {
            x: self.x as int,
            y: self.y as int,
            z: self.z as int,
            w: self.w as int,
            d: self.d as int,
        }
    }
}

impl Vector4 {
    /// Builds the vector `(x, y, z, w)` over the common denominator of the
    /// four scalars.
    pub fn new(x: Rational, y: Rational, z: Rational, w: Rational) -> (r: Vector4)
        requires
            x@.bounded(LIMIT_TRIG as int),
            y@.bounded(LIMIT_TRIG as int),
            z@.bounded(LIMIT_TRIG as int),
            w@.bounded(LIMIT_TRIG as int),
        ensures
            r@ == Vec4::pack4(x@, y@, z@, w@),
            r@.wf(),
    {
        proof {
            lemma_mul4_fits(x@.n, y@.d, z@.d, w@.d, LIMIT_TRIG as int);
            lemma_mul4_fits(y@.n, x@.d, z@.d, w@.d, LIMIT_TRIG as int);
            lemma_mul4_fits(z@.n, x@.d, y@.d, w@.d, LIMIT_TRIG as int);
            lemma_mul4_fits(w@.n, x@.d, y@.d, z@.d, LIMIT_TRIG as int);
            lemma_mul4_fits(x@.d, y@.d, z@.d, w@.d, LIMIT_TRIG as int);
            lemma_pos_mul4(x@.d, y@.d, z@.d, w@.d);
        }
        Vector4 {
            x: ((x.n * y.d) * z.d) * w.d,
            y: ((y.n * x.d) * z.d) * w.d,
            z: ((z.n * x.d) * y.d) * w.d,
            w: ((w.n * x.d) * y.d) * z.d,
            d: ((x.d * y.d) * z.d) * w.d,
        }
    }

    /// Extends a 3-vector with a fourth component.
    pub fn new_from_vector3(v: Vector3, w: Rational) -> (r: Vector4)
        requires
            v@.bounded(LIMIT_PAIR as int),
            w@.bounded(LIMIT_PAIR as int),
        ensures
            r@ == Vec4::from_vec3(v@, w@),
            r@.wf(),
    {
        proof {
            lemma_mul_fits(v@.x, w@.d, LIMIT_PAIR as int, LIMIT_PAIR as int);
            lemma_mul_fits(v@.y, w@.d, LIMIT_PAIR as int, LIMIT_PAIR as int);
            lemma_mul_fits(v@.z, w@.d, LIMIT_PAIR as int, LIMIT_PAIR as int);
            lemma_mul_fits(w@.n, v@.d, LIMIT_PAIR as int, LIMIT_PAIR as int);
            lemma_mul_fits(v@.d, w@.d, LIMIT_PAIR as int, LIMIT_PAIR as int);
            lemma_pos_mul(v@.d, w@.d);
        }
        Vector4 { x: v.x * w.d, y: v.y * w.d, z: v.z * w.d, w: w.n * v.d, d: v.d * w.d }
    }

    pub fn zero() -> (r: Vector4)
        ensures
            r@ == Vec4::zero(),
            r@.wf(),
    {
        Vector4 { x: 0, y: 0, z: 0, w: 0, d: 1 }
    }

    pub fn identity() -> (r: Vector4)
        ensures
            r@ == Vec4::identity(),
            r@.wf(),
    {
        Vector4 { x: 1, y: 1, z: 1, w: 1, d: 1 }
    }

    /// Component `i`; the index must be in bounds.
    pub fn index(&self, i: usize) -> (r: Rational)
        requires
            i < 4,
        ensures
            r@ == self@.comp(i as int),
    {
        if i == 0 {
            Rational { n: self.x, d: self.d }
        } else if i == 1 {
            Rational { n: self.y, d: self.d }
        } else if i == 2 {
            Rational { n: self.z, d: self.d }
        } else {
            Rational { n: self.w, d: self.d }
        }
    }

    pub fn sum(self, other: Vector4) -> (r: Vector4)
        requires
            self@.bounded(LIMIT_PAIR as int),
            other@.bounded(LIMIT_PAIR as int),
        ensures
            r@ == self@.sum(other@),
            r@.wf(),
    {
        proof {
            lemma_mul_fits(self@.x, other@.d, LIMIT_PAIR as int, LIMIT_PAIR as int);
            lemma_mul_fits(self@.y, other@.d, LIMIT_PAIR as int, LIMIT_PAIR as int);
            lemma_mul_fits(self@.z, other@.d, LIMIT_PAIR as int, LIMIT_PAIR as int);
            lemma_mul_fits(self@.w, other@.d, LIMIT_PAIR as int, LIMIT_PAIR as int);
            lemma_mul_fits(other@.x, self@.d, LIMIT_PAIR as int, LIMIT_PAIR as int);
            lemma_mul_fits(other@.y, self@.d, LIMIT_PAIR as int, LIMIT_PAIR as int);
            lemma_mul_fits(other@.z, self@.d, LIMIT_PAIR as int, LIMIT_PAIR as int);
            lemma_mul_fits(other@.w, self@.d, LIMIT_PAIR as int, LIMIT_PAIR as int);
            lemma_mul_fits(self@.d, other@.d, LIMIT_PAIR as int, LIMIT_PAIR as int);
            lemma_pos_mul(self@.d, other@.d);
        }
        Vector4 {
            x: self.x * other.d + other.x * self.d,
            y: self.y * other.d + other.y * self.d,
            z: self.z * other.d + other.z * self.d,
            w: self.w * other.d + other.w * self.d,
            d: self.d * other.d,
        }
    }

    pub fn sum_scalar(self, scalar: Rational) -> (r: Vector4)
        requires
            self@.bounded(LIMIT_PAIR as int),
            scalar@.bounded(LIMIT_PAIR as int),
        ensures
            r@ == self@.sum_scalar(scalar@),
            r@.wf(),
    {
        proof {
            lemma_mul_fits(self@.x, scalar@.d, LIMIT_PAIR as int, LIMIT_PAIR as int);
            lemma_mul_fits(self@.y, scalar@.d, LIMIT_PAIR as int, LIMIT_PAIR as int);
            lemma_mul_fits(self@.z, scalar@.d, LIMIT_PAIR as int, LIMIT_PAIR as int);
            lemma_mul_fits(self@.w, scalar@.d, LIMIT_PAIR as int, LIMIT_PAIR as int);
            lemma_mul_fits(scalar@.n, self@.d, LIMIT_PAIR as int, LIMIT_PAIR as int);
            lemma_mul_fits(self@.d, scalar@.d, LIMIT_PAIR as int, LIMIT_PAIR as int);
            lemma_pos_mul(self@.d, scalar@.d);
        }
        Vector4 {
            x: self.x * scalar.d + scalar.n * self.d,
            y: self.y * scalar.d + scalar.n * self.d,
            z: self.z * scalar.d + scalar.n * self.d,
            w: self.w * scalar.d + scalar.n * self.d,
            d: self.d * scalar.d,
        }
    }

    pub fn difference(self, other: Vector4) -> (r: Vector4)
        requires
            self@.bounded(LIMIT_PAIR as int),
            other@.bounded(LIMIT_PAIR as int),
        ensures
            r@ == self@.difference(other@),
            r@.wf(),
    {
        proof {
            lemma_mul_fits(self@.x, other@.d, LIMIT_PAIR as int, LIMIT_PAIR as int);
            lemma_mul_fits(self@.y, other@.d, LIMIT_PAIR as int, LIMIT_PAIR as int);
            lemma_mul_fits(self@.z, other@.d, LIMIT_PAIR as int, LIMIT_PAIR as int);
            lemma_mul_fits(self@.w, other@.d, LIMIT_PAIR as int, LIMIT_PAIR as int);
            lemma_mul_fits(other@.x, self@.d, LIMIT_PAIR as int, LIMIT_PAIR as int);
            lemma_mul_fits(other@.y, self@.d, LIMIT_PAIR as int, LIMIT_PAIR as int);
            lemma_mul_fits(other@.z, self@.d, LIMIT_PAIR as int, LIMIT_PAIR as int);
            lemma_mul_fits(other@.w, self@.d, LIMIT_PAIR as int, LIMIT_PAIR as int);
            lemma_mul_fits(self@.d, other@.d, LIMIT_PAIR as int, LIMIT_PAIR as int);
            lemma_pos_mul(self@.d, other@.d);
        }
        Vector4 {
            x: self.x * other.d - other.x * self.d,
            y: self.y * other.d - other.y * self.d,
            z: self.z * other.d - other.z * self.d,
            w: self.w * other.d - other.w * self.d,
            d: self.d * other.d,
        }
    }

    pub fn difference_scalar(self, scalar: Rational) -> (r: Vector4)
        requires
            self@.bounded(LIMIT_PAIR as int),
            scalar@.bounded(LIMIT_PAIR as int),
        ensures
            r@ == self@.difference_scalar(scalar@),
            r@.wf(),
    {
        proof {
            lemma_mul_fits(self@.x, scalar@.d, LIMIT_PAIR as int, LIMIT_PAIR as int);
            lemma_mul_fits(self@.y, scalar@.d, LIMIT_PAIR as int, LIMIT_PAIR as int);
            lemma_mul_fits(self@.z, scalar@.d, LIMIT_PAIR as int, LIMIT_PAIR as int);
            lemma_mul_fits(self@.w, scalar@.d, LIMIT_PAIR as int, LIMIT_PAIR as int);
            lemma_mul_fits(scalar@.n, self@.d, LIMIT_PAIR as int, LIMIT_PAIR as int);
            lemma_mul_fits(self@.d, scalar@.d, LIMIT_PAIR as int, LIMIT_PAIR as int);
            lemma_pos_mul(self@.d, scalar@.d);
        }
        Vector4 {
            x: self.x * scalar.d - scalar.n * self.d,
            y: self.y * scalar.d - scalar.n * self.d,
            z: self.z * scalar.d - scalar.n * self.d,
            w: self.w * scalar.d - scalar.n * self.d,
            d: self.d * scalar.d,
        }
    }

    /// Componentwise product.
    pub fn product(self, other: Vector4) -> (r: Vector4)
        requires
            self@.bounded(LIMIT_PAIR as int),
            other@.bounded(LIMIT_PAIR as int),
        ensures
            r@ == self@.product(other@),
            r@.wf(),
    {
        proof {
            lemma_mul_fits(self@.x, other@.x, LIMIT_PAIR as int, LIMIT_PAIR as int);
            lemma_mul_fits(self@.y, other@.y, LIMIT_PAIR as int, LIMIT_PAIR as int);
            lemma_mul_fits(self@.z, other@.z, LIMIT_PAIR as int, LIMIT_PAIR as int);
            lemma_mul_fits(self@.w, other@.w, LIMIT_PAIR as int, LIMIT_PAIR as int);
            lemma_mul_fits(self@.d, other@.d, LIMIT_PAIR as int, LIMIT_PAIR as int);
            lemma_pos_mul(self@.d, other@.d);
        }
        Vector4 {
            x: self.x * other.x,
            y: self.y * other.y,
            z: self.z * other.z,
            w: self.w * other.w,
            d: self.d * other.d,
        }
    }

    pub fn product_scalar(self, scalar: Rational) -> (r: Vector4)
        requires
            self@.bounded(LIMIT_PAIR as int),
            scalar@.bounded(LIMIT_PAIR as int),
        ensures
            r@ == self@.product_scalar(scalar@),
            r@.wf(),
    {
        proof {
            lemma_mul_fits(self@.x, scalar@.n, LIMIT_PAIR as int, LIMIT_PAIR as int);
            lemma_mul_fits(self@.y, scalar@.n, LIMIT_PAIR as int, LIMIT_PAIR as int);
            lemma_mul_fits(self@.z, scalar@.n, LIMIT_PAIR as int, LIMIT_PAIR as int);
            lemma_mul_fits(self@.w, scalar@.n, LIMIT_PAIR as int, LIMIT_PAIR as int);
            lemma_mul_fits(self@.d, scalar@.d, LIMIT_PAIR as int, LIMIT_PAIR as int);
            lemma_pos_mul(self@.d, scalar@.d);
        }
        Vector4 {
            x: self.x * scalar.n,
            y: self.y * scalar.n,
            z: self.z * scalar.n,
            w: self.w * scalar.n,
            d: self.d * scalar.d,
        }
    }

    /// Componentwise quotient. Every component of the divisor must be nonzero.
    pub fn quotient(self, other: Vector4) -> (r: Vector4)
        requires
            self@.bounded(LIMIT_QUOT as int),
            other@.bounded(LIMIT_QUOT as int),
            other@.x != 0,
            other@.y != 0,
            other@.z != 0,
            other@.w != 0,
        ensures
            r@ == self@.quotient(other@),
            r@.wf(),
    {
        let cx = Rational { n: self.x, d: self.d }.quotient(
            Rational { n: other.x, d: other.d },
        );
        let cy = Rational { n: self.y, d: self.d }.quotient(
            Rational { n: other.y, d: other.d },
        );
        let cz = Rational { n: self.z, d: self.d }.quotient(
            Rational { n: other.z, d: other.d },
        );
        let cw = Rational { n: self.w, d: self.d }.quotient(
            Rational { n: other.w, d: other.d },
        );
        proof {
            lemma_mul_fits(self@.x, other@.d, LIMIT_QUOT as int, LIMIT_QUOT as int);
            lemma_mul_fits(self@.y, other@.d, LIMIT_QUOT as int, LIMIT_QUOT as int);
            lemma_mul_fits(self@.z, other@.d, LIMIT_QUOT as int, LIMIT_QUOT as int);
            lemma_mul_fits(self@.w, other@.d, LIMIT_QUOT as int, LIMIT_QUOT as int);
            lemma_mul_fits(self@.d, other@.x, LIMIT_QUOT as int, LIMIT_QUOT as int);
            lemma_mul_fits(self@.d, other@.y, LIMIT_QUOT as int, LIMIT_QUOT as int);
            lemma_mul_fits(self@.d, other@.z, LIMIT_QUOT as int, LIMIT_QUOT as int);
            lemma_mul_fits(self@.d, other@.w, LIMIT_QUOT as int, LIMIT_QUOT as int);
        }
        Vector4::new(cx, cy, cz, cw)
    }

    pub fn quotient_scalar(self, scalar: Rational) -> (r: Vector4)
        requires
            self@.bounded(LIMIT_PAIR as int),
            scalar@.bounded(LIMIT_PAIR as int),
            scalar@.n != 0,
        ensures
            r@ == self@.quotient_scalar(scalar@),
            r@.wf(),
    {
        proof {
            lemma_mul_fits(self@.x, scalar@.d, LIMIT_PAIR as int, LIMIT_PAIR as int);
            lemma_mul_fits(self@.y, scalar@.d, LIMIT_PAIR as int, LIMIT_PAIR as int);
            lemma_mul_fits(self@.z, scalar@.d, LIMIT_PAIR as int, LIMIT_PAIR as int);
            lemma_mul_fits(self@.w, scalar@.d, LIMIT_PAIR as int, LIMIT_PAIR as int);
            lemma_mul_fits(self@.d, scalar@.n, LIMIT_PAIR as int, LIMIT_PAIR as int);
            if scalar@.n > 0 {
                lemma_pos_mul(self@.d, scalar@.n);
            } else {
                lemma_pos_mul(self@.d, -scalar@.n);
                assert(self@.d * (-scalar@.n) == -(self@.d * scalar@.n)) by (nonlinear_arith);
            }
        }
        if scalar.n > 0 {
            Vector4 {
                x: self.x * scalar.d,
                y: self.y * scalar.d,
                z: self.z * scalar.d,
                w: self.w * scalar.d,
                d: self.d * scalar.n,
            }
        } else {
            Vector4 {
                x: -(self.x * scalar.d),
                y: -(self.y * scalar.d),
                z: -(self.z * scalar.d),
                w: -(self.w * scalar.d),
                d: -(self.d * scalar.n),
            }
        }
    }

    /// Dot product.
    pub fn dot(self, other: Vector4) -> (r: Rational)
        requires
            self@.bounded(LIMIT_PAIR as int),
            other@.bounded(LIMIT_PAIR as int),
        ensures
            r@ == self@.dot(other@),
            r@.wf(),
    {
        proof {
            lemma_mul_fits(self@.x, other@.x, LIMIT_PAIR as int, LIMIT_PAIR as int);
            lemma_mul_fits(self@.y, other@.y, LIMIT_PAIR as int, LIMIT_PAIR as int);
            lemma_mul_fits(self@.z, other@.z, LIMIT_PAIR as int, LIMIT_PAIR as int);
            lemma_mul_fits(self@.w, other@.w, LIMIT_PAIR as int, LIMIT_PAIR as int);
            lemma_mul_fits(self@.d, other@.d, LIMIT_PAIR as int, LIMIT_PAIR as int);
            lemma_pos_mul(self@.d, other@.d);
        }
        Rational {
            n: self.x * other.x + self.y * other.y + self.z * other.z + self.w * other.w,
            d: self.d * other.d,
        }
    }

    /// The square of the Euclidean magnitude.
    pub fn magnitude_squared(self) -> (r: Rational)
        requires
            self@.bounded(LIMIT_PAIR as int),
        ensures
            r@ == self@.magnitude_squared(),
            r@.wf(),
    {
        proof {
            lemma_mul_fits(self@.x, self@.x, LIMIT_PAIR as int, LIMIT_PAIR as int);
            lemma_mul_fits(self@.y, self@.y, LIMIT_PAIR as int, LIMIT_PAIR as int);
            lemma_mul_fits(self@.z, self@.z, LIMIT_PAIR as int, LIMIT_PAIR as int);
            lemma_mul_fits(self@.w, self@.w, LIMIT_PAIR as int, LIMIT_PAIR as int);
            lemma_mul_fits(self@.d, self@.d, LIMIT_PAIR as int, LIMIT_PAIR as int);
            lemma_pos_mul(self@.d, self@.d);
        }
        Rational {
            n: self.x * self.x + self.y * self.y + self.z * self.z + self.w * self.w,
            d: self.d * self.d,
        }
    }

    /// The row vector times a matrix.
    pub fn product_matrix(self, matrix: Matrix4) -> (r: Vector4)
        requires
            self@.bounded(LIMIT_PAIR as int),
            matrix@.bounded(LIMIT_PAIR as int),
        ensures
            r@ == self@.product_matrix(matrix@),
            r@.wf(),
    {
        proof {
            lemma_mul_fits(self@.x, matrix@.m00, LIMIT_PAIR as int, LIMIT_PAIR as int);
            lemma_mul_fits(self@.y, matrix@.m01, LIMIT_PAIR as int, LIMIT_PAIR as int);
            lemma_mul_fits(self@.z, matrix@.m02, LIMIT_PAIR as int, LIMIT_PAIR as int);
            lemma_mul_fits(self@.w, matrix@.m03, LIMIT_PAIR as int, LIMIT_PAIR as int);
            lemma_mul_fits(self@.x, matrix@.m10, LIMIT_PAIR as int, LIMIT_PAIR as int);
            lemma_mul_fits(self@.y, matrix@.m11, LIMIT_PAIR as int, LIMIT_PAIR as int);
            lemma_mul_fits(self@.z, matrix@.m12, LIMIT_PAIR as int, LIMIT_PAIR as int);
            lemma_mul_fits(self@.w, matrix@.m13, LIMIT_PAIR as int, LIMIT_PAIR as int);
            lemma_mul_fits(self@.x, matrix@.m20, LIMIT_PAIR as int, LIMIT_PAIR as int);
            lemma_mul_fits(self@.y, matrix@.m21, LIMIT_PAIR as int, LIMIT_PAIR as int);
            lemma_mul_fits(self@.z, matrix@.m22, LIMIT_PAIR as int, LIMIT_PAIR as int);
            lemma_mul_fits(self@.w, matrix@.m23, LIMIT_PAIR as int, LIMIT_PAIR as int);
            lemma_mul_fits(self@.x, matrix@.m30, LIMIT_PAIR as int, LIMIT_PAIR as int);
            lemma_mul_fits(self@.y, matrix@.m31, LIMIT_PAIR as int, LIMIT_PAIR as int);
            lemma_mul_fits(self@.z, matrix@.m32, LIMIT_PAIR as int, LIMIT_PAIR as int);
            lemma_mul_fits(self@.w, matrix@.m33, LIMIT_PAIR as int, LIMIT_PAIR as int);
            lemma_mul_fits(self@.d, matrix@.d, LIMIT_PAIR as int, LIMIT_PAIR as int);
            lemma_pos_mul(self@.d, matrix@.d);
        }
        Vector4 {
            x: self.x * matrix.m00 + self.y * matrix.m01 + self.z * matrix.m02 + self.w
                * matrix.m03,
            y: self.x * matrix.m10 + self.y * matrix.m11 + self.z * matrix.m12 + self.w
                * matrix.m13,
            z: self.x * matrix.m20 + self.y * matrix.m21 + self.z * matrix.m22 + self.w
                * matrix.m23,
            w: self.x * matrix.m30 + self.y * matrix.m31 + self.z * matrix.m32 + self.w
                * matrix.m33,
            d: self.d * matrix.d,
        }
    }

    /// Exact value equality of the components.
    pub fn equals(&self, other: &Vector4) -> (b: bool)
        requires
            self@.bounded(LIMIT_PAIR as int),
            other@.bounded(LIMIT_PAIR as int),
        ensures
            b == self@.eqv(other@),
    {
        proof {
            lemma_mul_fits(self@.x, other@.d, LIMIT_PAIR as int, LIMIT_PAIR as int);
            lemma_mul_fits(self@.y, other@.d, LIMIT_PAIR as int, LIMIT_PAIR as int);
            lemma_mul_fits(self@.z, other@.d, LIMIT_PAIR as int, LIMIT_PAIR as int);
            lemma_mul_fits(self@.w, other@.d, LIMIT_PAIR as int, LIMIT_PAIR as int);
            lemma_mul_fits(other@.x, self@.d, LIMIT_PAIR as int, LIMIT_PAIR as int);
            lemma_mul_fits(other@.y, self@.d, LIMIT_PAIR as int, LIMIT_PAIR as int);
            lemma_mul_fits(other@.z, self@.d, LIMIT_PAIR as int, LIMIT_PAIR as int);
            lemma_mul_fits(other@.w, self@.d, LIMIT_PAIR as int, LIMIT_PAIR as int);
        }
        self.x * other.d == other.x * self.d && self.y * other.d == other.y * self.d && self.z
            * other.d == other.z * self.d && self.w * other.d == other.w * self.d
    }
}

} // verus!
