//! Matrix types `Matrix3` and `Matrix4`.
//!
//! A matrix keeps its entries over one shared positive denominator `d`,
//! exactly as the vector types do. The 3x3 matrix offers multiplication,
//! transposition, determinant and inverse; the inverse of a singular matrix
//! is the identity matrix, an explicit documented fallback rather than an
//! error.

use vstd::prelude::*;

use crate::arith::lemma_mul_fits;
use crate::arith::lemma_mul3_fits;
use crate::arith::lemma_pos_mul;
use crate::arith::lemma_pos_mul3;
use crate::arith::lemma_pos_mul4;
use crate::rational::LIMIT_CELL;
use crate::rational::LIMIT_CHAIN;
use crate::rational::LIMIT_DIV;
use crate::rational::LIMIT_PAIR;
use crate::rational::LIMIT_TRIG;
use crate::rational::Rat;
use crate::rational::Rational;
use crate::vectors::Vec3;
use crate::vectors::Vector3;
use crate::vectors::Vec4;
use crate::vectors::Vector4;

verus! {

/// Mathematical value of a 3x3 matrix: each entry `mij / d`.
pub struct Mat3 {
    pub m00: int,
    pub m01: int,
    pub m02: int,
    pub m10: int,
    pub m11: int,
    pub m12: int,
    pub m20: int,
    pub m21: int,
    pub m22: int,
    pub d: int,
}

impl Mat3 {
    pub open spec fn wf(self) -> bool {
        self.d > 0
    }

    pub open spec fn eqv(self, o: Mat3) -> bool {
        &&& self.m00 * o.d == o.m00 * self.d
        &&& self.m01 * o.d == o.m01 * self.d
        &&& self.m02 * o.d == o.m02 * self.d
        &&& self.m10 * o.d == o.m10 * self.d
        &&& self.m11 * o.d == o.m11 * self.d
        &&& self.m12 * o.d == o.m12 * self.d
        &&& self.m20 * o.d == o.m20 * self.d
        &&& self.m21 * o.d == o.m21 * self.d
        &&& self.m22 * o.d == o.m22 * self.d
    }

    pub open spec fn bounded(self, b: int) -> bool {
        &&& -b <= self.m00 <= b
        &&& -b <= self.m01 <= b
        &&& -b <= self.m02 <= b
        &&& -b <= self.m10 <= b
        &&& -b <= self.m11 <= b
        &&& -b <= self.m12 <= b
        &&& -b <= self.m20 <= b
        &&& -b <= self.m21 <= b
        &&& -b <= self.m22 <= b
        &&& 0 < self.d <= b
    }

    pub open spec fn identity() -> Mat3 {
        Mat3 { m00: 1, m01: 0, m02: 0, m10: 0, m11: 1, m12: 0, m20: 0, m21: 0, m22: 1, d: 1 }
    }

    /// Three row vectors brought over their common denominator.
    pub open spec fn from_rows(a: Vec3, b: Vec3, c: Vec3) -> Mat3 {
        Mat3 {
            m00: a.x * b.d * c.d,
            m01: a.y * b.d * c.d,
            m02: a.z * b.d * c.d,
            m10: b.x * a.d * c.d,
            m11: b.y * a.d * c.d,
            m12: b.z * a.d * c.d,
            m20: c.x * a.d * b.d,
            m21: c.y * a.d * b.d,
            m22: c.z * a.d * b.d,
            d: a.d * b.d * c.d,
        }
    }

    /// Row `i` (0, 1 or 2) as a vector.
    pub open spec fn row(self, i: int) -> Vec3 {
        if i == 0 {
            Vec3 { x: self.m00, y: self.m01, z: self.m02, d: self.d }
        } else if i == 1 {
            Vec3 { x: self.m10, y: self.m11, z: self.m12, d: self.d }
        } else {
            Vec3 { x: self.m20, y: self.m21, z: self.m22, d: self.d }
        }
    }

    /// Entry `i` of the matrix in row-major order (0 up to 8) as a scalar.
    pub open spec fn entry(self, i: int) -> Rat {
        Rat {
            n: if i == 0 {
                self.m00
            } else if i == 1 {
                self.m01
            } else if i == 2 {
                self.m02
            } else if i == 3 {
                self.m10
            } else if i == 4 {
                self.m11
            } else if i == 5 {
                self.m12
            } else if i == 6 {
                self.m20
            } else if i == 7 {
                self.m21
            } else {
                self.m22
            },
            d: self.d,
        }
    }

    /// Matrix product.
    pub open spec fn product(self, o: Mat3) -> Mat3 {
        Mat3 {
            m00: self.m00 * o.m00 + self.m01 * o.m10 + self.m02 * o.m20,
            m01: self.m00 * o.m01 + self.m01 * o.m11 + self.m02 * o.m21,
            m02: self.m00 * o.m02 + self.m01 * o.m12 + self.m02 * o.m22,
            m10: self.m10 * o.m00 + self.m11 * o.m10 + self.m12 * o.m20,
            m11: self.m10 * o.m01 + self.m11 * o.m11 + self.m12 * o.m21,
            m12: self.m10 * o.m02 + self.m11 * o.m12 + self.m12 * o.m22,
            m20: self.m20 * o.m00 + self.m21 * o.m10 + self.m22 * o.m20,
            m21: self.m20 * o.m01 + self.m21 * o.m11 + self.m22 * o.m21,
            m22: self.m20 * o.m02 + self.m21 * o.m12 + self.m22 * o.m22,
            d: self.d * o.d,
        }
    }

    pub open spec fn product_scalar(self, s: Rat) -> Mat3 {
        Mat3 {
            m00: self.m00 * s.n,
            m01: self.m01 * s.n,
            m02: self.m02 * s.n,
            m10: self.m10 * s.n,
            m11: self.m11 * s.n,
            m12: self.m12 * s.n,
            m20: self.m20 * s.n,
            m21: self.m21 * s.n,
            m22: self.m22 * s.n,
            d: self.d * s.d,
        }
    }

    pub open spec fn quotient_scalar(self, s: Rat) -> Mat3 {
        if s.n > 0 {
            Mat3 {
                m00: self.m00 * s.d,
                m01: self.m01 * s.d,
                m02: self.m02 * s.d,
                m10: self.m10 * s.d,
                m11: self.m11 * s.d,
                m12: self.m12 * s.d,
                m20: self.m20 * s.d,
                m21: self.m21 * s.d,
                m22: self.m22 * s.d,
                d: self.d * s.n,
            }
        } else {
            Mat3 {
                m00: -(self.m00 * s.d),
                m01: -(self.m01 * s.d),
                m02: -(self.m02 * s.d),
                m10: -(self.m10 * s.d),
                m11: -(self.m11 * s.d),
                m12: -(self.m12 * s.d),
                m20: -(self.m20 * s.d),
                m21: -(self.m21 * s.d),
                m22: -(self.m22 * s.d),
                d: -(self.d * s.n),
            }
        }
    }

    pub open spec fn transpose(self) -> Mat3 {
        Mat3 {
            m00: self.m00,
            m01: self.m10,
            m02: self.m20,
            m10: self.m01,
            m11: self.m11,
            m12: self.m21,
            m20: self.m02,
            m21: self.m12,
            m22: self.m22,
            d: self.d,
        }
    }

    /// Integer numerator of the determinant; the determinant's value is
    /// this over `d` cubed.
    pub open spec fn det_numer(self) -> int {
        self.m00 * (self.m11 * self.m22 - self.m12 * self.m21) - self.m01 * (self.m10 * self.m22
            - self.m12 * self.m20) + self.m02 * (self.m10 * self.m21 - self.m11 * self.m20)
    }

    pub open spec fn determinant(self) -> Rat {
        Rat { n: self.det_numer(), d: (self.d * self.d) * self.d }
    }

    /// The inverse, from the adjugate and the determinant. A singular
    /// matrix has no inverse; the identity matrix is returned instead as an
    /// explicit, documented fallback.
    pub open spec fn inverse(self) -> Mat3 {
        let dt = self.det_numer();
        if dt == 0 {
            Mat3::identity()
        } else if dt > 0 {
            Mat3 {
                m00: (self.m11 * self.m22 - self.m12 * self.m21) * self.d,
                m01: (self.m02 * self.m21 - self.m01 * self.m22) * self.d,
                m02: (self.m01 * self.m12 - self.m02 * self.m11) * self.d,
                m10: (self.m12 * self.m20 - self.m10 * self.m22) * self.d,
                m11: (self.m00 * self.m22 - self.m02 * self.m20) * self.d,
                m12: (self.m02 * self.m10 - self.m00 * self.m12) * self.d,
                m20: (self.m10 * self.m21 - self.m11 * self.m20) * self.d,
                m21: (self.m01 * self.m20 - self.m00 * self.m21) * self.d,
                m22: (self.m00 * self.m11 - self.m01 * self.m10) * self.d,
                d: dt,
            }
        } else {
            Mat3 {
                m00: -((self.m11 * self.m22 - self.m12 * self.m21) * self.d),
                m01: -((self.m02 * self.m21 - self.m01 * self.m22) * self.d),
                m02: -((self.m01 * self.m12 - self.m02 * self.m11) * self.d),
                m10: -((self.m12 * self.m20 - self.m10 * self.m22) * self.d),
                m11: -((self.m00 * self.m22 - self.m02 * self.m20) * self.d),
                m12: -((self.m02 * self.m10 - self.m00 * self.m12) * self.d),
                m20: -((self.m10 * self.m21 - self.m11 * self.m20) * self.d),
                m21: -((self.m01 * self.m20 - self.m00 * self.m21) * self.d),
                m22: -((self.m00 * self.m11 - self.m01 * self.m10) * self.d),
                d: -dt,
            }
        }
    }
}

/// A 3x3 matrix of exact scalars over one shared denominator.
#[derive(Clone, Copy, Debug)]
pub struct Matrix3 {
    /// Numerators of the entries, row-major.
    pub m00: i128,
    pub m01: i128,
    pub m02: i128,
    pub m10: i128,
    pub m11: i128,
    pub m12: i128,
    pub m20: i128,
    pub m21: i128,
    pub m22: i128,
    /// Shared denominator; positive in every well-formed matrix.
    pub d: i128,
}

impl View for Matrix3 {
    type V = Mat3;

    open spec fn view(&self) -> Mat3 {
        Mat3 {
            m00: self.m00 as int,
            m01: self.m01 as int,
            m02: self.m02 as int,
            m10: self.m10 as int,
            m11: self.m11 as int,
            m12: self.m12 as int,
            m20: self.m20 as int,
            m21: self.m21 as int,
            m22: self.m22 as int,
            d: self.d as int,
        }
    }
}

impl Matrix3 {
    /// Builds a matrix from nine scalars, row-major.
    pub fn new(
        m00: Rational,
        m01: Rational,
        m02: Rational,
        m10: Rational,
        m11: Rational,
        m12: Rational,
        m20: Rational,
        m21: Rational,
        m22: Rational,
    ) -> (r: Matrix3)
        requires
            m00@.bounded(LIMIT_CELL as int),
            m01@.bounded(LIMIT_CELL as int),
            m02@.bounded(LIMIT_CELL as int),
            m10@.bounded(LIMIT_CELL as int),
            m11@.bounded(LIMIT_CELL as int),
            m12@.bounded(LIMIT_CELL as int),
            m20@.bounded(LIMIT_CELL as int),
            m21@.bounded(LIMIT_CELL as int),
            m22@.bounded(LIMIT_CELL as int),
        ensures
            r@ == Mat3::from_rows(
                Vec3::pack3(m00@, m01@, m02@),
                Vec3::pack3(m10@, m11@, m12@),
                Vec3::pack3(m20@, m21@, m22@),
            ),
            r@.wf(),
    {
        let r0 = Vector3::new(m00, m01, m02);
        let r1 = Vector3::new(m10, m11, m12);
        let r2 = Vector3::new(m20, m21, m22);
        proof {
            lemma_mul3_fits(m00@.n, m01@.d, m02@.d, LIMIT_CELL as int);
            lemma_mul3_fits(m01@.n, m00@.d, m02@.d, LIMIT_CELL as int);
            lemma_mul3_fits(m02@.n, m00@.d, m01@.d, LIMIT_CELL as int);
            lemma_mul3_fits(m00@.d, m01@.d, m02@.d, LIMIT_CELL as int);
            lemma_mul3_fits(m10@.n, m11@.d, m12@.d, LIMIT_CELL as int);
            lemma_mul3_fits(m11@.n, m10@.d, m12@.d, LIMIT_CELL as int);
            lemma_mul3_fits(m12@.n, m10@.d, m11@.d, LIMIT_CELL as int);
            lemma_mul3_fits(m10@.d, m11@.d, m12@.d, LIMIT_CELL as int);
            lemma_mul3_fits(m20@.n, m21@.d, m22@.d, LIMIT_CELL as int);
            lemma_mul3_fits(m21@.n, m20@.d, m22@.d, LIMIT_CELL as int);
            lemma_mul3_fits(m22@.n, m20@.d, m21@.d, LIMIT_CELL as int);
            lemma_mul3_fits(m20@.d, m21@.d, m22@.d, LIMIT_CELL as int);
        }
        Matrix3::from_vectors(r0, r1, r2)
    }

    pub fn identity() -> (r: Matrix3)
        ensures
            r@ == Mat3::identity(),
            r@.wf(),
    {
        Matrix3 { m00: 1, m01: 0, m02: 0, m10: 0, m11: 1, m12: 0, m20: 0, m21: 0, m22: 1, d: 1 }
    }

    /// Builds a matrix from three row vectors.
    pub fn from_vectors(v0: Vector3, v1: Vector3, v2: Vector3) -> (r: Matrix3)
        requires
            v0@.bounded(LIMIT_PAIR as int),
            v1@.bounded(LIMIT_PAIR as int),
            v2@.bounded(LIMIT_PAIR as int),
            Mat3::from_rows(v0@, v1@, v2@).bounded(LIMIT_PAIR as int) || v0@.bounded(
                LIMIT_CHAIN as int,
            ) && v1@.bounded(LIMIT_CHAIN as int) && v2@.bounded(LIMIT_CHAIN as int),
        ensures
            r@ == Mat3::from_rows(v0@, v1@, v2@),
            r@.wf(),
    {
        proof {
            if v0@.bounded(LIMIT_CHAIN as int) && v1@.bounded(LIMIT_CHAIN as int) && v2@.bounded(
                LIMIT_CHAIN as int,
            ) {
                lemma_mul3_fits(v0@.x, v1@.d, v2@.d, LIMIT_CHAIN as int);
                lemma_mul3_fits(v0@.y, v1@.d, v2@.d, LIMIT_CHAIN as int);
                lemma_mul3_fits(v0@.z, v1@.d, v2@.d, LIMIT_CHAIN as int);
                lemma_mul3_fits(v1@.x, v0@.d, v2@.d, LIMIT_CHAIN as int);
                lemma_mul3_fits(v1@.y, v0@.d, v2@.d, LIMIT_CHAIN as int);
                lemma_mul3_fits(v1@.z, v0@.d, v2@.d, LIMIT_CHAIN as int);
                lemma_mul3_fits(v2@.x, v0@.d, v1@.d, LIMIT_CHAIN as int);
                lemma_mul3_fits(v2@.y, v0@.d, v1@.d, LIMIT_CHAIN as int);
                lemma_mul3_fits(v2@.z, v0@.d, v1@.d, LIMIT_CHAIN as int);
                lemma_mul3_fits(v0@.d, v1@.d, v2@.d, LIMIT_CHAIN as int);
            } else {
                lemma_mul3_fits(v0@.x, v1@.d, v2@.d, LIMIT_PAIR as int);
                lemma_mul3_fits(v0@.y, v1@.d, v2@.d, LIMIT_PAIR as int);
                lemma_mul3_fits(v0@.z, v1@.d, v2@.d, LIMIT_PAIR as int);
                lemma_mul3_fits(v1@.x, v0@.d, v2@.d, LIMIT_PAIR as int);
                lemma_mul3_fits(v1@.y, v0@.d, v2@.d, LIMIT_PAIR as int);
                lemma_mul3_fits(v1@.z, v0@.d, v2@.d, LIMIT_PAIR as int);
                lemma_mul3_fits(v2@.x, v0@.d, v1@.d, LIMIT_PAIR as int);
                lemma_mul3_fits(v2@.y, v0@.d, v1@.d, LIMIT_PAIR as int);
                lemma_mul3_fits(v2@.z, v0@.d, v1@.d, LIMIT_PAIR as int);
                lemma_mul3_fits(v0@.d, v1@.d, v2@.d, LIMIT_PAIR as int);
            }
            lemma_pos_mul3(v0@.d, v1@.d, v2@.d);
        }
        Matrix3 {
            m00: v0.x * v1.d * v2.d,
            m01: v0.y * v1.d * v2.d,
            m02: v0.z * v1.d * v2.d,
            m10: v1.x * v0.d * v2.d,
            m11: v1.y * v0.d * v2.d,
            m12: v1.z * v0.d * v2.d,
            m20: v2.x * v0.d * v1.d,
            m21: v2.y * v0.d * v1.d,
            m22: v2.z * v0.d * v1.d,
            d: v0.d * v1.d * v2.d,
        }
    }

    /// Builds a matrix from an array of nine scalars, row-major.
    pub fn from_array(arr: [Rational; 9]) -> (r: Matrix3)
        requires
            arr@[0]@.bounded(LIMIT_CELL as int),
            arr@[1]@.bounded(LIMIT_CELL as int),
            arr@[2]@.bounded(LIMIT_CELL as int),
            arr@[3]@.bounded(LIMIT_CELL as int),
            arr@[4]@.bounded(LIMIT_CELL as int),
            arr@[5]@.bounded(LIMIT_CELL as int),
            arr@[6]@.bounded(LIMIT_CELL as int),
            arr@[7]@.bounded(LIMIT_CELL as int),
            arr@[8]@.bounded(LIMIT_CELL as int),
        ensures
            r@ == Mat3::from_rows(
                Vec3::pack3(arr@[0]@, arr@[1]@, arr@[2]@),
                Vec3::pack3(arr@[3]@, arr@[4]@, arr@[5]@),
                Vec3::pack3(arr@[6]@, arr@[7]@, arr@[8]@),
            ),
            r@.wf(),
    {
        Matrix3::new(
            arr[0],
            arr[1],
            arr[2],
            arr[3],
            arr[4],
            arr[5],
            arr[6],
            arr[7],
            arr[8],
        )
    }

    /// Builds a matrix from a two-dimensional array of scalars.
    pub fn from_array_2d(arr: [[Rational; 3]; 3]) -> (r: Matrix3)
        requires
            arr@[0]@[0]@.bounded(LIMIT_CELL as int),
            arr@[0]@[1]@.bounded(LIMIT_CELL as int),
            arr@[0]@[2]@.bounded(LIMIT_CELL as int),
            arr@[1]@[0]@.bounded(LIMIT_CELL as int),
            arr@[1]@[1]@.bounded(LIMIT_CELL as int),
            arr@[1]@[2]@.bounded(LIMIT_CELL as int),
            arr@[2]@[0]@.bounded(LIMIT_CELL as int),
            arr@[2]@[1]@.bounded(LIMIT_CELL as int),
            arr@[2]@[2]@.bounded(LIMIT_CELL as int),
        ensures
            r@ == Mat3::from_rows(
                Vec3::pack3(arr@[0]@[0]@, arr@[0]@[1]@, arr@[0]@[2]@),
                Vec3::pack3(arr@[1]@[0]@, arr@[1]@[1]@, arr@[1]@[2]@),
                Vec3::pack3(arr@[2]@[0]@, arr@[2]@[1]@, arr@[2]@[2]@),
            ),
            r@.wf(),
    {
        Matrix3::new(
            arr[0][0],
            arr[0][1],
            arr[0][2],
            arr[1][0],
            arr[1][1],
            arr[1][2],
            arr[2][0],
            arr[2][1],
            arr[2][2],
        )
    }

    /// The nine entries as scalars, row-major.
    pub fn to_array(&self) -> (r: [Rational; 9])
        ensures
            r@[0]@ == self@.entry(0),
            r@[1]@ == self@.entry(1),
            r@[2]@ == self@.entry(2),
            r@[3]@ == self@.entry(3),
            r@[4]@ == self@.entry(4),
            r@[5]@ == self@.entry(5),
            r@[6]@ == self@.entry(6),
            r@[7]@ == self@.entry(7),
            r@[8]@ == self@.entry(8),
    {
        [
            Rational { n: self.m00, d: self.d },
            Rational { n: self.m01, d: self.d },
            Rational { n: self.m02, d: self.d },
            Rational { n: self.m10, d: self.d },
            Rational { n: self.m11, d: self.d },
            Rational { n: self.m12, d: self.d },
            Rational { n: self.m20, d: self.d },
            Rational { n: self.m21, d: self.d },
            Rational { n: self.m22, d: self.d },
        ]
    }

    /// The entries as a two-dimensional array of scalars.
    pub fn to_array_2d(&self) -> (r: [[Rational; 3]; 3])
        ensures
            r@[0]@[0]@ == self@.entry(0),
            r@[0]@[1]@ == self@.entry(1),
            r@[0]@[2]@ == self@.entry(2),
            r@[1]@[0]@ == self@.entry(3),
            r@[1]@[1]@ == self@.entry(4),
            r@[1]@[2]@ == self@.entry(5),
            r@[2]@[0]@ == self@.entry(6),
            r@[2]@[1]@ == self@.entry(7),
            r@[2]@[2]@ == self@.entry(8),
    {
        [
            [
                Rational { n: self.m00, d: self.d },
                Rational { n: self.m01, d: self.d },
                Rational { n: self.m02, d: self.d },
            ],
            [
                Rational { n: self.m10, d: self.d },
                Rational { n: self.m11, d: self.d },
                Rational { n: self.m12, d: self.d },
            ],
            [
                Rational { n: self.m20, d: self.d },
                Rational { n: self.m21, d: self.d },
                Rational { n: self.m22, d: self.d },
            ],
        ]
    }

    /// Entry `i` in row-major order; the index must be in bounds.
    pub fn index(&self, i: usize) -> (r: Rational)
        requires
            i < 9,
        ensures
            r@ == self@.entry(i as int),
    {
        let n = if i == 0 {
            self.m00
        } else if i == 1 {
            self.m01
        } else if i == 2 {
            self.m02
        } else if i == 3 {
            self.m10
        } else if i == 4 {
            self.m11
        } else if i == 5 {
            self.m12
        } else if i == 6 {
            self.m20
        } else if i == 7 {
            self.m21
        } else {
            self.m22
        };
        Rational { n, d: self.d }
    }

    /// Row `i` as a vector; the index must be in bounds.
    pub fn row(&self, i: usize) -> (r: Vector3)
        requires
            i < 3,
        ensures
            r@ == self@.row(i as int),
    {
        if i == 0 {
            Vector3 { x: self.m00, y: self.m01, z: self.m02, d: self.d }
        } else if i == 1 {
            Vector3 { x: self.m10, y: self.m11, z: self.m12, d: self.d }
        } else {
            Vector3 { x: self.m20, y: self.m21, z: self.m22, d: self.d }
        }
    }

    /// Matrix product.
    pub fn mul(self, other: Matrix3) -> (r: Matrix3)
        requires
            self@.bounded(LIMIT_PAIR as int),
            other@.bounded(LIMIT_PAIR as int),
        ensures
            r@ == self@.product(other@),
            r@.wf(),
    {
        proof {
            lemma_mul_fits(self@.m00, other@.m00, LIMIT_PAIR as int, LIMIT_PAIR as int);
            lemma_mul_fits(self@.m01, other@.m10, LIMIT_PAIR as int, LIMIT_PAIR as int);
            lemma_mul_fits(self@.m02, other@.m20, LIMIT_PAIR as int, LIMIT_PAIR as int);
            lemma_mul_fits(self@.m00, other@.m01, LIMIT_PAIR as int, LIMIT_PAIR as int);
            lemma_mul_fits(self@.m01, other@.m11, LIMIT_PAIR as int, LIMIT_PAIR as int);
            lemma_mul_fits(self@.m02, other@.m21, LIMIT_PAIR as int, LIMIT_PAIR as int);
            lemma_mul_fits(self@.m00, other@.m02, LIMIT_PAIR as int, LIMIT_PAIR as int);
            lemma_mul_fits(self@.m01, other@.m12, LIMIT_PAIR as int, LIMIT_PAIR as int);
            lemma_mul_fits(self@.m02, other@.m22, LIMIT_PAIR as int, LIMIT_PAIR as int);
            lemma_mul_fits(self@.m10, other@.m00, LIMIT_PAIR as int, LIMIT_PAIR as int);
            lemma_mul_fits(self@.m11, other@.m10, LIMIT_PAIR as int, LIMIT_PAIR as int);
            lemma_mul_fits(self@.m12, other@.m20, LIMIT_PAIR as int, LIMIT_PAIR as int);
            lemma_mul_fits(self@.m10, other@.m01, LIMIT_PAIR as int, LIMIT_PAIR as int);
            lemma_mul_fits(self@.m11, other@.m11, LIMIT_PAIR as int, LIMIT_PAIR as int);
            lemma_mul_fits(self@.m12, other@.m21, LIMIT_PAIR as int, LIMIT_PAIR as int);
            lemma_mul_fits(self@.m10, other@.m02, LIMIT_PAIR as int, LIMIT_PAIR as int);
            lemma_mul_fits(self@.m11, other@.m12, LIMIT_PAIR as int, LIMIT_PAIR as int);
            lemma_mul_fits(self@.m12, other@.m22, LIMIT_PAIR as int, LIMIT_PAIR as int);
            lemma_mul_fits(self@.m20, other@.m00, LIMIT_PAIR as int, LIMIT_PAIR as int);
            lemma_mul_fits(self@.m21, other@.m10, LIMIT_PAIR as int, LIMIT_PAIR as int);
            lemma_mul_fits(self@.m22, other@.m20, LIMIT_PAIR as int, LIMIT_PAIR as int);
            lemma_mul_fits(self@.m20, other@.m01, LIMIT_PAIR as int, LIMIT_PAIR as int);
            lemma_mul_fits(self@.m21, other@.m11, LIMIT_PAIR as int, LIMIT_PAIR as int);
            lemma_mul_fits(self@.m22, other@.m21, LIMIT_PAIR as int, LIMIT_PAIR as int);
            lemma_mul_fits(self@.m20, other@.m02, LIMIT_PAIR as int, LIMIT_PAIR as int);
            lemma_mul_fits(self@.m21, other@.m12, LIMIT_PAIR as int, LIMIT_PAIR as int);
            lemma_mul_fits(self@.m22, other@.m22, LIMIT_PAIR as int, LIMIT_PAIR as int);
            lemma_mul_fits(self@.d, other@.d, LIMIT_PAIR as int, LIMIT_PAIR as int);
            lemma_pos_mul(self@.d, other@.d);
        }
        Matrix3 {
            m00: self.m00 * other.m00 + self.m01 * other.m10 + self.m02 * other.m20,
            m01: self.m00 * other.m01 + self.m01 * other.m11 + self.m02 * other.m21,
            m02: self.m00 * other.m02 + self.m01 * other.m12 + self.m02 * other.m22,
            m10: self.m10 * other.m00 + self.m11 * other.m10 + self.m12 * other.m20,
            m11: self.m10 * other.m01 + self.m11 * other.m11 + self.m12 * other.m21,
            m12: self.m10 * other.m02 + self.m11 * other.m12 + self.m12 * other.m22,
            m20: self.m20 * other.m00 + self.m21 * other.m10 + self.m22 * other.m20,
            m21: self.m20 * other.m01 + self.m21 * other.m11 + self.m22 * other.m21,
            m22: self.m20 * other.m02 + self.m21 * other.m12 + self.m22 * other.m22,
            d: self.d * other.d,
        }
    }

    /// The matrix scaled by a scalar.
    pub fn mul_scalar(self, scalar: Rational) -> (r: Matrix3)
        requires
            self@.bounded(LIMIT_PAIR as int),
            scalar@.bounded(LIMIT_PAIR as int),
        ensures
            r@ == self@.product_scalar(scalar@),
            r@.wf(),
    {
        proof {
            lemma_mul_fits(self@.m00, scalar@.n, LIMIT_PAIR as int, LIMIT_PAIR as int);
            lemma_mul_fits(self@.m01, scalar@.n, LIMIT_PAIR as int, LIMIT_PAIR as int);
            lemma_mul_fits(self@.m02, scalar@.n, LIMIT_PAIR as int, LIMIT_PAIR as int);
            lemma_mul_fits(self@.m10, scalar@.n, LIMIT_PAIR as int, LIMIT_PAIR as int);
            lemma_mul_fits(self@.m11, scalar@.n, LIMIT_PAIR as int, LIMIT_PAIR as int);
            lemma_mul_fits(self@.m12, scalar@.n, LIMIT_PAIR as int, LIMIT_PAIR as int);
            lemma_mul_fits(self@.m20, scalar@.n, LIMIT_PAIR as int, LIMIT_PAIR as int);
            lemma_mul_fits(self@.m21, scalar@.n, LIMIT_PAIR as int, LIMIT_PAIR as int);
            lemma_mul_fits(self@.m22, scalar@.n, LIMIT_PAIR as int, LIMIT_PAIR as int);
            lemma_mul_fits(self@.d, scalar@.d, LIMIT_PAIR as int, LIMIT_PAIR as int);
            lemma_pos_mul(self@.d, scalar@.d);
        }
        Matrix3 {
            m00: self.m00 * scalar.n,
            m01: self.m01 * scalar.n,
            m02: self.m02 * scalar.n,
            m10: self.m10 * scalar.n,
            m11: self.m11 * scalar.n,
            m12: self.m12 * scalar.n,
            m20: self.m20 * scalar.n,
            m21: self.m21 * scalar.n,
            m22: self.m22 * scalar.n,
            d: self.d * scalar.d,
        }
    }

    /// The matrix divided by a scalar, which must not denote zero.
    pub fn div_scalar(self, scalar: Rational) -> (r: Matrix3)
        requires
            self@.bounded(LIMIT_PAIR as int),
            scalar@.bounded(LIMIT_PAIR as int),
            scalar@.n != 0,
        ensures
            r@ == self@.quotient_scalar(scalar@),
            r@.wf(),
    {
        proof {
            lemma_mul_fits(self@.m00, scalar@.d, LIMIT_PAIR as int, LIMIT_PAIR as int);
            lemma_mul_fits(self@.m01, scalar@.d, LIMIT_PAIR as int, LIMIT_PAIR as int);
            lemma_mul_fits(self@.m02, scalar@.d, LIMIT_PAIR as int, LIMIT_PAIR as int);
            lemma_mul_fits(self@.m10, scalar@.d, LIMIT_PAIR as int, LIMIT_PAIR as int);
            lemma_mul_fits(self@.m11, scalar@.d, LIMIT_PAIR as int, LIMIT_PAIR as int);
            lemma_mul_fits(self@.m12, scalar@.d, LIMIT_PAIR as int, LIMIT_PAIR as int);
            lemma_mul_fits(self@.m20, scalar@.d, LIMIT_PAIR as int, LIMIT_PAIR as int);
            lemma_mul_fits(self@.m21, scalar@.d, LIMIT_PAIR as int, LIMIT_PAIR as int);
            lemma_mul_fits(self@.m22, scalar@.d, LIMIT_PAIR as int, LIMIT_PAIR as int);
            lemma_mul_fits(self@.d, scalar@.n, LIMIT_PAIR as int, LIMIT_PAIR as int);
            if scalar@.n > 0 {
                lemma_pos_mul(self@.d, scalar@.n);
            } else {
                lemma_pos_mul(self@.d, -scalar@.n);
                assert(self@.d * (-scalar@.n) == -(self@.d * scalar@.n)) by (nonlinear_arith);
            }
        }
        if scalar.n > 0 {
            Matrix3 {
                m00: self.m00 * scalar.d,
                m01: self.m01 * scalar.d,
                m02: self.m02 * scalar.d,
                m10: self.m10 * scalar.d,
                m11: self.m11 * scalar.d,
                m12: self.m12 * scalar.d,
                m20: self.m20 * scalar.d,
                m21: self.m21 * scalar.d,
                m22: self.m22 * scalar.d,
                d: self.d * scalar.n,
            }
        } else {
            Matrix3 {
                m00: -(self.m00 * scalar.d),
                m01: -(self.m01 * scalar.d),
                m02: -(self.m02 * scalar.d),
                m10: -(self.m10 * scalar.d),
                m11: -(self.m11 * scalar.d),
                m12: -(self.m12 * scalar.d),
                m20: -(self.m20 * scalar.d),
                m21: -(self.m21 * scalar.d),
                m22: -(self.m22 * scalar.d),
                d: -(self.d * scalar.n),
            }
        }
    }

    /// The matrix divided by another matrix: the product with the
    /// divisor's inverse. A singular divisor is inverted to the identity
    /// matrix, the documented fallback of `inverse`.
    pub fn div(self, other: Matrix3) -> (r: Matrix3)
        requires
            self@.bounded(LIMIT_DIV as int),
            other@.bounded(LIMIT_DIV as int),
        ensures
            r@ == self@.product(other@.inverse()),
            r@.wf(),
    {
        let inv = other.inverse();
        proof {
            let b = LIMIT_DIV as int;
            let c = 2 * (b * b);
            lemma_mul_fits(other@.m11, other@.m22, b, b);
            lemma_mul_fits(other@.m12, other@.m21, b, b);
            lemma_mul_fits(other@.m10, other@.m22, b, b);
            lemma_mul_fits(other@.m12, other@.m20, b, b);
            lemma_mul_fits(other@.m10, other@.m21, b, b);
            lemma_mul_fits(other@.m11, other@.m20, b, b);
            lemma_mul_fits(other@.m02, other@.m21, b, b);
            lemma_mul_fits(other@.m01, other@.m22, b, b);
            lemma_mul_fits(other@.m01, other@.m12, b, b);
            lemma_mul_fits(other@.m02, other@.m11, b, b);
            lemma_mul_fits(other@.m00, other@.m22, b, b);
            lemma_mul_fits(other@.m02, other@.m20, b, b);
            lemma_mul_fits(other@.m02, other@.m10, b, b);
            lemma_mul_fits(other@.m00, other@.m12, b, b);
            lemma_mul_fits(other@.m01, other@.m20, b, b);
            lemma_mul_fits(other@.m00, other@.m21, b, b);
            lemma_mul_fits(other@.m00, other@.m11, b, b);
            lemma_mul_fits(other@.m01, other@.m10, b, b);
            lemma_mul_fits(other@.m11 * other@.m22 - other@.m12 * other@.m21, other@.d, c, b);
            lemma_mul_fits(other@.m02 * other@.m21 - other@.m01 * other@.m22, other@.d, c, b);
            lemma_mul_fits(other@.m01 * other@.m12 - other@.m02 * other@.m11, other@.d, c, b);
            lemma_mul_fits(other@.m12 * other@.m20 - other@.m10 * other@.m22, other@.d, c, b);
            lemma_mul_fits(other@.m00 * other@.m22 - other@.m02 * other@.m20, other@.d, c, b);
            lemma_mul_fits(other@.m02 * other@.m10 - other@.m00 * other@.m12, other@.d, c, b);
            lemma_mul_fits(other@.m10 * other@.m21 - other@.m11 * other@.m20, other@.d, c, b);
            lemma_mul_fits(other@.m01 * other@.m20 - other@.m00 * other@.m21, other@.d, c, b);
            lemma_mul_fits(other@.m00 * other@.m11 - other@.m01 * other@.m10, other@.d, c, b);
            lemma_mul_fits(other@.m00, other@.m11 * other@.m22 - other@.m12 * other@.m21, b, c);
            lemma_mul_fits(other@.m01, other@.m10 * other@.m22 - other@.m12 * other@.m20, b, c);
            lemma_mul_fits(other@.m02, other@.m10 * other@.m21 - other@.m11 * other@.m20, b, c);
        }
        self.mul(inv)
    }

    /// The transposed matrix.
    pub fn transpose(self) -> (r: Matrix3)
        ensures
            r@ == self@.transpose(),
            r@.wf() == self@.wf(),
    {
        Matrix3 {
            m00: self.m00,
            m01: self.m10,
            m02: self.m20,
            m10: self.m01,
            m11: self.m11,
            m12: self.m21,
            m20: self.m02,
            m21: self.m12,
            m22: self.m22,
            d: self.d,
        }
    }

    /// The determinant.
    pub fn determinant(self) -> (r: Rational)
        requires
            self@.bounded(LIMIT_CHAIN as int),
        ensures
            r@ == self@.determinant(),
            r@.wf(),
    {
        proof {
            lemma_mul_fits(self@.m11, self@.m22, LIMIT_CHAIN as int, LIMIT_CHAIN as int);
            lemma_mul_fits(self@.m12, self@.m21, LIMIT_CHAIN as int, LIMIT_CHAIN as int);
            lemma_mul_fits(self@.m10, self@.m22, LIMIT_CHAIN as int, LIMIT_CHAIN as int);
            lemma_mul_fits(self@.m12, self@.m20, LIMIT_CHAIN as int, LIMIT_CHAIN as int);
            lemma_mul_fits(self@.m10, self@.m21, LIMIT_CHAIN as int, LIMIT_CHAIN as int);
            lemma_mul_fits(self@.m11, self@.m20, LIMIT_CHAIN as int, LIMIT_CHAIN as int);
            let c = 2 * ((LIMIT_CHAIN as int) * (LIMIT_CHAIN as int));
            lemma_mul_fits(self@.m00, self@.m11 * self@.m22 - self@.m12 * self@.m21,
                LIMIT_CHAIN as int, c);
            lemma_mul_fits(self@.m01, self@.m10 * self@.m22 - self@.m12 * self@.m20,
                LIMIT_CHAIN as int, c);
            lemma_mul_fits(self@.m02, self@.m10 * self@.m21 - self@.m11 * self@.m20,
                LIMIT_CHAIN as int, c);
            lemma_mul_fits(self@.d, self@.d, LIMIT_CHAIN as int, LIMIT_CHAIN as int);
            lemma_mul_fits(self@.d * self@.d, self@.d,
                (LIMIT_CHAIN as int) * (LIMIT_CHAIN as int), LIMIT_CHAIN as int);
            lemma_pos_mul3(self@.d, self@.d, self@.d);
        }
        Rational {
            n: self.m00 * (self.m11 * self.m22 - self.m12 * self.m21) - self.m01 * (self.m10
                * self.m22 - self.m12 * self.m20) + self.m02 * (self.m10 * self.m21 - self.m11
                * self.m20),
            d: (self.d * self.d) * self.d,
        }
    }

    /// The inverse of the matrix, when its determinant is nonzero. The
    /// inverse of a singular matrix is the identity matrix: an explicit,
    /// documented fallback, not a real inverse.
    pub fn inverse(self) -> (r: Matrix3)
        requires
            self@.bounded(LIMIT_CHAIN as int),
        ensures
            r@ == self@.inverse(),
            r@.wf(),
    {
        proof {
            lemma_mul_fits(self@.m11, self@.m22, LIMIT_CHAIN as int, LIMIT_CHAIN as int);
            lemma_mul_fits(self@.m12, self@.m21, LIMIT_CHAIN as int, LIMIT_CHAIN as int);
            lemma_mul_fits(self@.m10, self@.m22, LIMIT_CHAIN as int, LIMIT_CHAIN as int);
            lemma_mul_fits(self@.m12, self@.m20, LIMIT_CHAIN as int, LIMIT_CHAIN as int);
            lemma_mul_fits(self@.m10, self@.m21, LIMIT_CHAIN as int, LIMIT_CHAIN as int);
            lemma_mul_fits(self@.m11, self@.m20, LIMIT_CHAIN as int, LIMIT_CHAIN as int);
            lemma_mul_fits(self@.m02, self@.m21, LIMIT_CHAIN as int, LIMIT_CHAIN as int);
            lemma_mul_fits(self@.m01, self@.m22, LIMIT_CHAIN as int, LIMIT_CHAIN as int);
            lemma_mul_fits(self@.m01, self@.m12, LIMIT_CHAIN as int, LIMIT_CHAIN as int);
            lemma_mul_fits(self@.m02, self@.m11, LIMIT_CHAIN as int, LIMIT_CHAIN as int);
            lemma_mul_fits(self@.m00, self@.m22, LIMIT_CHAIN as int, LIMIT_CHAIN as int);
            lemma_mul_fits(self@.m02, self@.m20, LIMIT_CHAIN as int, LIMIT_CHAIN as int);
            lemma_mul_fits(self@.m02, self@.m10, LIMIT_CHAIN as int, LIMIT_CHAIN as int);
            lemma_mul_fits(self@.m00, self@.m12, LIMIT_CHAIN as int, LIMIT_CHAIN as int);
            lemma_mul_fits(self@.m01, self@.m20, LIMIT_CHAIN as int, LIMIT_CHAIN as int);
            lemma_mul_fits(self@.m00, self@.m21, LIMIT_CHAIN as int, LIMIT_CHAIN as int);
            lemma_mul_fits(self@.m00, self@.m11, LIMIT_CHAIN as int, LIMIT_CHAIN as int);
            lemma_mul_fits(self@.m01, self@.m10, LIMIT_CHAIN as int, LIMIT_CHAIN as int);
            let c = 2 * ((LIMIT_CHAIN as int) * (LIMIT_CHAIN as int));
            lemma_mul_fits(self@.m00, self@.m11 * self@.m22 - self@.m12 * self@.m21,
                LIMIT_CHAIN as int, c);
            lemma_mul_fits(self@.m01, self@.m10 * self@.m22 - self@.m12 * self@.m20,
                LIMIT_CHAIN as int, c);
            lemma_mul_fits(self@.m02, self@.m10 * self@.m21 - self@.m11 * self@.m20,
                LIMIT_CHAIN as int, c);
            lemma_mul_fits(self@.m11 * self@.m22 - self@.m12 * self@.m21, self@.d, c,
                LIMIT_CHAIN as int);
            lemma_mul_fits(self@.m02 * self@.m21 - self@.m01 * self@.m22, self@.d, c,
                LIMIT_CHAIN as int);
            lemma_mul_fits(self@.m01 * self@.m12 - self@.m02 * self@.m11, self@.d, c,
                LIMIT_CHAIN as int);
            lemma_mul_fits(self@.m12 * self@.m20 - self@.m10 * self@.m22, self@.d, c,
                LIMIT_CHAIN as int);
            lemma_mul_fits(self@.m00 * self@.m22 - self@.m02 * self@.m20, self@.d, c,
                LIMIT_CHAIN as int);
            lemma_mul_fits(self@.m02 * self@.m10 - self@.m00 * self@.m12, self@.d, c,
                LIMIT_CHAIN as int);
            lemma_mul_fits(self@.m10 * self@.m21 - self@.m11 * self@.m20, self@.d, c,
                LIMIT_CHAIN as int);
            lemma_mul_fits(self@.m01 * self@.m20 - self@.m00 * self@.m21, self@.d, c,
                LIMIT_CHAIN as int);
            lemma_mul_fits(self@.m00 * self@.m11 - self@.m01 * self@.m10, self@.d, c,
                LIMIT_CHAIN as int);
        }
        let dt = self.m00 * (self.m11 * self.m22 - self.m12 * self.m21) - self.m01 * (self.m10
            * self.m22 - self.m12 * self.m20) + self.m02 * (self.m10 * self.m21 - self.m11
            * self.m20);
        if dt == 0 {
            Matrix3::identity()
        } else {
            let a00 = (self.m11 * self.m22 - self.m12 * self.m21) * self.d;
            let a01 = (self.m02 * self.m21 - self.m01 * self.m22) * self.d;
            let a02 = (self.m01 * self.m12 - self.m02 * self.m11) * self.d;
            let a10 = (self.m12 * self.m20 - self.m10 * self.m22) * self.d;
            let a11 = (self.m00 * self.m22 - self.m02 * self.m20) * self.d;
            let a12 = (self.m02 * self.m10 - self.m00 * self.m12) * self.d;
            let a20 = (self.m10 * self.m21 - self.m11 * self.m20) * self.d;
            let a21 = (self.m01 * self.m20 - self.m00 * self.m21) * self.d;
            let a22 = (self.m00 * self.m11 - self.m01 * self.m10) * self.d;
            if dt > 0 {
                Matrix3 {
                    m00: a00,
                    m01: a01,
                    m02: a02,
                    m10: a10,
                    m11: a11,
                    m12: a12,
                    m20: a20,
                    m21: a21,
                    m22: a22,
                    d: dt,
                }
            } else {
                Matrix3 {
                    m00: -a00,
                    m01: -a01,
                    m02: -a02,
                    m10: -a10,
                    m11: -a11,
                    m12: -a12,
                    m20: -a20,
                    m21: -a21,
                    m22: -a22,
                    d: -dt,
                }
            }
        }
    }

    /// Exact value equality of the entries.
    pub fn equals(&self, other: &Matrix3) -> (b: bool)
        requires
            self@.bounded(LIMIT_PAIR as int),
            other@.bounded(LIMIT_PAIR as int),
        ensures
            b == self@.eqv(other@),
    {
        proof {
            lemma_mul_fits(self@.m00, other@.d, LIMIT_PAIR as int, LIMIT_PAIR as int);
            lemma_mul_fits(self@.m01, other@.d, LIMIT_PAIR as int, LIMIT_PAIR as int);
            lemma_mul_fits(self@.m02, other@.d, LIMIT_PAIR as int, LIMIT_PAIR as int);
            lemma_mul_fits(self@.m10, other@.d, LIMIT_PAIR as int, LIMIT_PAIR as int);
            lemma_mul_fits(self@.m11, other@.d, LIMIT_PAIR as int, LIMIT_PAIR as int);
            lemma_mul_fits(self@.m12, other@.d, LIMIT_PAIR as int, LIMIT_PAIR as int);
            lemma_mul_fits(self@.m20, other@.d, LIMIT_PAIR as int, LIMIT_PAIR as int);
            lemma_mul_fits(self@.m21, other@.d, LIMIT_PAIR as int, LIMIT_PAIR as int);
            lemma_mul_fits(self@.m22, other@.d, LIMIT_PAIR as int, LIMIT_PAIR as int);
            lemma_mul_fits(other@.m00, self@.d, LIMIT_PAIR as int, LIMIT_PAIR as int);
            lemma_mul_fits(other@.m01, self@.d, LIMIT_PAIR as int, LIMIT_PAIR as int);
            lemma_mul_fits(other@.m02, self@.d, LIMIT_PAIR as int, LIMIT_PAIR as int);
            lemma_mul_fits(other@.m10, self@.d, LIMIT_PAIR as int, LIMIT_PAIR as int);
            lemma_mul_fits(other@.m11, self@.d, LIMIT_PAIR as int, LIMIT_PAIR as int);
            lemma_mul_fits(other@.m12, self@.d, LIMIT_PAIR as int, LIMIT_PAIR as int);
            lemma_mul_fits(other@.m20, self@.d, LIMIT_PAIR as int, LIMIT_PAIR as int);
            lemma_mul_fits(other@.m21, self@.d, LIMIT_PAIR as int, LIMIT_PAIR as int);
            lemma_mul_fits(other@.m22, self@.d, LIMIT_PAIR as int, LIMIT_PAIR as int);
        }
        self.m00 * other.d == other.m00 * self.d && self.m01 * other.d == other.m01 * self.d
            && self.m02 * other.d == other.m02 * self.d && self.m10 * other.d == other.m10 * self.d
            && self.m11 * other.d == other.m11 * self.d && self.m12 * other.d == other.m12 * self.d
            && self.m20 * other.d == other.m20 * self.d && self.m21 * other.d == other.m21 * self.d
            && self.m22 * other.d == other.m22 * self.d
    }
}

/// Mathematical value of a 4x4 matrix: each entry `mij / d`.
pub struct Mat4 {
    pub m00: int,
    pub m01: int,
    pub m02: int,
    pub m03: int,
    pub m10: int,
    pub m11: int,
    pub m12: int,
    pub m13: int,
    pub m20: int,
    pub m21: int,
    pub m22: int,
    pub m23: int,
    pub m30: int,
    pub m31: int,
    pub m32: int,
    pub m33: int,
    pub d: int,
}

impl Mat4 {
    pub open spec fn wf(self) -> bool {
        self.d > 0
    }

    pub open spec fn eqv(self, o: Mat4) -> bool {
        &&& self.m00 * o.d == o.m00 * self.d
        &&& self.m01 * o.d == o.m01 * self.d
        &&& self.m02 * o.d == o.m02 * self.d
        &&& self.m03 * o.d == o.m03 * self.d
        &&& self.m10 * o.d == o.m10 * self.d
        &&& self.m11 * o.d == o.m11 * self.d
        &&& self.m12 * o.d == o.m12 * self.d
        &&& self.m13 * o.d == o.m13 * self.d
        &&& self.m20 * o.d == o.m20 * self.d
        &&& self.m21 * o.d == o.m21 * self.d
        &&& self.m22 * o.d == o.m22 * self.d
        &&& self.m23 * o.d == o.m23 * self.d
        &&& self.m30 * o.d == o.m30 * self.d
        &&& self.m31 * o.d == o.m31 * self.d
        &&& self.m32 * o.d == o.m32 * self.d
        &&& self.m33 * o.d == o.m33 * self.d
    }

    pub open spec fn bounded(self, b: int) -> bool {
        &&& -b <= self.m00 <= b
        &&& -b <= self.m01 <= b
        &&& -b <= self.m02 <= b
        &&& -b <= self.m03 <= b
        &&& -b <= self.m10 <= b
        &&& -b <= self.m11 <= b
        &&& -b <= self.m12 <= b
        &&& -b <= self.m13 <= b
        &&& -b <= self.m20 <= b
        &&& -b <= self.m21 <= b
        &&& -b <= self.m22 <= b
        &&& -b <= self.m23 <= b
        &&& -b <= self.m30 <= b
        &&& -b <= self.m31 <= b
        &&& -b <= self.m32 <= b
        &&& -b <= self.m33 <= b
        &&& 0 < self.d <= b
    }

    pub open spec fn identity() -> Mat4 {
        Mat4 {
            m00: 1,
            m01: 0,
            m02: 0,
            m03: 0,
            m10: 0,
            m11: 1,
            m12: 0,
            m13: 0,
            m20: 0,
            m21: 0,
            m22: 1,
            m23: 0,
            m30: 0,
            m31: 0,
            m32: 0,
            m33: 1,
            d: 1,
        }
    }

    pub open spec fn zero() -> Mat4 {
        Mat4 {
            m00: 0,
            m01: 0,
            m02: 0,
            m03: 0,
            m10: 0,
            m11: 0,
            m12: 0,
            m13: 0,
            m20: 0,
            m21: 0,
            m22: 0,
            m23: 0,
            m30: 0,
            m31: 0,
            m32: 0,
            m33: 0,
            d: 1,
        }
    }

    /// Four row vectors brought over their common denominator.
    pub open spec fn from_rows(a: Vec4, b: Vec4, c: Vec4, e: Vec4) -> Mat4 {
        Mat4 {
            m00: ((a.x * b.d) * c.d) * e.d,
            m01: ((a.y * b.d) * c.d) * e.d,
            m02: ((a.z * b.d) * c.d) * e.d,
            m03: ((a.w * b.d) * c.d) * e.d,
            m10: ((b.x * a.d) * c.d) * e.d,
            m11: ((b.y * a.d) * c.d) * e.d,
            m12: ((b.z * a.d) * c.d) * e.d,
            m13: ((b.w * a.d) * c.d) * e.d,
            m20: ((c.x * a.d) * b.d) * e.d,
            m21: ((c.y * a.d) * b.d) * e.d,
            m22: ((c.z * a.d) * b.d) * e.d,
            m23: ((c.w * a.d) * b.d) * e.d,
            m30: ((e.x * a.d) * b.d) * c.d,
            m31: ((e.y * a.d) * b.d) * c.d,
            m32: ((e.z * a.d) * b.d) * c.d,
            m33: ((e.w * a.d) * b.d) * c.d,
            d: ((a.d * b.d) * c.d) * e.d,
        }
    }

    /// Row `i` (0 up to 3) as a vector.
    pub open spec fn row(self, i: int) -> Vec4 {
        if i == 0 {
            Vec4 { x: self.m00, y: self.m01, z: self.m02, w: self.m03, d: self.d }
        } else if i == 1 {
            Vec4 { x: self.m10, y: self.m11, z: self.m12, w: self.m13, d: self.d }
        } else if i == 2 {
            Vec4 { x: self.m20, y: self.m21, z: self.m22, w: self.m23, d: self.d }
        } else {
            Vec4 { x: self.m30, y: self.m31, z: self.m32, w: self.m33, d: self.d }
        }
    }

    /// Entry `i` of the matrix in row-major order (0 up to 15) as a scalar.
    pub open spec fn entry(self, i: int) -> Rat {
        self.row(i / 4).comp(i % 4)
    }

    /// Matrix product.
    pub open spec fn product(self, o: Mat4) -> Mat4 {
        Mat4 {
            m00: self.m00 * o.m00 + self.m01 * o.m10 + self.m02 * o.m20 + self.m03 * o.m30,
            m01: self.m00 * o.m01 + self.m01 * o.m11 + self.m02 * o.m21 + self.m03 * o.m31,
            m02: self.m00 * o.m02 + self.m01 * o.m12 + self.m02 * o.m22 + self.m03 * o.m32,
            m03: self.m00 * o.m03 + self.m01 * o.m13 + self.m02 * o.m23 + self.m03 * o.m33,
            m10: self.m10 * o.m00 + self.m11 * o.m10 + self.m12 * o.m20 + self.m13 * o.m30,
            m11: self.m10 * o.m01 + self.m11 * o.m11 + self.m12 * o.m21 + self.m13 * o.m31,
            m12: self.m10 * o.m02 + self.m11 * o.m12 + self.m12 * o.m22 + self.m13 * o.m32,
            m13: self.m10 * o.m03 + self.m11 * o.m13 + self.m12 * o.m23 + self.m13 * o.m33,
            m20: self.m20 * o.m00 + self.m21 * o.m10 + self.m22 * o.m20 + self.m23 * o.m30,
            m21: self.m20 * o.m01 + self.m21 * o.m11 + self.m22 * o.m21 + self.m23 * o.m31,
            m22: self.m20 * o.m02 + self.m21 * o.m12 + self.m22 * o.m22 + self.m23 * o.m32,
            m23: self.m20 * o.m03 + self.m21 * o.m13 + self.m22 * o.m23 + self.m23 * o.m33,
            m30: self.m30 * o.m00 + self.m31 * o.m10 + self.m32 * o.m20 + self.m33 * o.m30,
            m31: self.m30 * o.m01 + self.m31 * o.m11 + self.m32 * o.m21 + self.m33 * o.m31,
            m32: self.m30 * o.m02 + self.m31 * o.m12 + self.m32 * o.m22 + self.m33 * o.m32,
            m33: self.m30 * o.m03 + self.m31 * o.m13 + self.m32 * o.m23 + self.m33 * o.m33,
            d: self.d * o.d,
        }
    }

    pub open spec fn transpose(self) -> Mat4 {
        Mat4 {
            m00: self.m00,
            m01: self.m10,
            m02: self.m20,
            m03: self.m30,
            m10: self.m01,
            m11: self.m11,
            m12: self.m21,
            m13: self.m31,
            m20: self.m02,
            m21: self.m12,
            m22: self.m22,
            m23: self.m32,
            m30: self.m03,
            m31: self.m13,
            m32: self.m23,
            m33: self.m33,
            d: self.d,
        }
    }

    /// A 3x3 rotation block in the upper left corner, a unit in the lower
    /// right corner, zeroes elsewhere.
    pub open spec fn embed(m: Mat3) -> Mat4 {
        Mat4 {
            m00: m.m00,
            m01: m.m01,
            m02: m.m02,
            m03: 0,
            m10: m.m10,
            m11: m.m11,
            m12: m.m12,
            m13: 0,
            m20: m.m20,
            m21: m.m21,
            m22: m.m22,
            m23: 0,
            m30: 0,
            m31: 0,
            m32: 0,
            m33: m.d,
            d: m.d,
        }
    }
}

/// A 4x4 matrix of exact scalars over one shared denominator.
#[derive(Clone, Copy, Debug)]
pub struct Matrix4 {
    /// Numerators of the entries, row-major.
    pub m00: i128,
    pub m01: i128,
    pub m02: i128,
    pub m03: i128,
    pub m10: i128,
    pub m11: i128,
    pub m12: i128,
    pub m13: i128,
    pub m20: i128,
    pub m21: i128,
    pub m22: i128,
    pub m23: i128,
    pub m30: i128,
    pub m31: i128,
    pub m32: i128,
    pub m33: i128,
    /// Shared denominator; positive in every well-formed matrix.
    pub d: i128,
}

impl View for Matrix4 {
    type V = Mat4;

    open spec fn view(&self) -> Mat4 {
        Mat4 {
            m00: self.m00 as int,
            m01: self.m01 as int,
            m02: self.m02 as int,
            m03: self.m03 as int,
            m10: self.m10 as int,
            m11: self.m11 as int,
            m12: self.m12 as int,
            m13: self.m13 as int,
            m20: self.m20 as int,
            m21: self.m21 as int,
            m22: self.m22 as int,
            m23: self.m23 as int,
            m30: self.m30 as int,
            m31: self.m31 as int,
            m32: self.m32 as int,
            m33: self.m33 as int,
            d: self.d as int,
        }
    }
}

impl Matrix4 {
    pub fn identity() -> (r: Matrix4)
        ensures
            r@ == Mat4::identity(),
            r@.wf(),
    {
        Matrix4 {
            m00: 1,
            m01: 0,
            m02: 0,
            m03: 0,
            m10: 0,
            m11: 1,
            m12: 0,
            m13: 0,
            m20: 0,
            m21: 0,
            m22: 1,
            m23: 0,
            m30: 0,
            m31: 0,
            m32: 0,
            m33: 1,
            d: 1,
        }
    }

    pub fn zero() -> (r: Matrix4)
        ensures
            r@ == Mat4::zero(),
            r@.wf(),
    {
        Matrix4 {
            m00: 0,
            m01: 0,
            m02: 0,
            m03: 0,
            m10: 0,
            m11: 0,
            m12: 0,
            m13: 0,
            m20: 0,
            m21: 0,
            m22: 0,
            m23: 0,
            m30: 0,
            m31: 0,
            m32: 0,
            m33: 0,
            d: 1,
        }
    }

    /// Builds a matrix from four row vectors.
    pub fn from_vectors(v0: Vector4, v1: Vector4, v2: Vector4, v3: Vector4) -> (r: Matrix4)
        requires
            v0@.bounded(LIMIT_TRIG as int),
            v1@.bounded(LIMIT_TRIG as int),
            v2@.bounded(LIMIT_TRIG as int),
            v3@.bounded(LIMIT_TRIG as int),
        ensures
            r@ == Mat4::from_rows(v0@, v1@, v2@, v3@),
            r@.wf(),
    {
        proof {
            crate::arith::lemma_mul4_fits(v0@.x, v1@.d, v2@.d, v3@.d, LIMIT_TRIG as int);
            crate::arith::lemma_mul4_fits(v0@.y, v1@.d, v2@.d, v3@.d, LIMIT_TRIG as int);
            crate::arith::lemma_mul4_fits(v0@.z, v1@.d, v2@.d, v3@.d, LIMIT_TRIG as int);
            crate::arith::lemma_mul4_fits(v0@.w, v1@.d, v2@.d, v3@.d, LIMIT_TRIG as int);
            crate::arith::lemma_mul4_fits(v1@.x, v0@.d, v2@.d, v3@.d, LIMIT_TRIG as int);
            crate::arith::lemma_mul4_fits(v1@.y, v0@.d, v2@.d, v3@.d, LIMIT_TRIG as int);
            crate::arith::lemma_mul4_fits(v1@.z, v0@.d, v2@.d, v3@.d, LIMIT_TRIG as int);
            crate::arith::lemma_mul4_fits(v1@.w, v0@.d, v2@.d, v3@.d, LIMIT_TRIG as int);
            crate::arith::lemma_mul4_fits(v2@.x, v0@.d, v1@.d, v3@.d, LIMIT_TRIG as int);
            crate::arith::lemma_mul4_fits(v2@.y, v0@.d, v1@.d, v3@.d, LIMIT_TRIG as int);
            crate::arith::lemma_mul4_fits(v2@.z, v0@.d, v1@.d, v3@.d, LIMIT_TRIG as int);
            crate::arith::lemma_mul4_fits(v2@.w, v0@.d, v1@.d, v3@.d, LIMIT_TRIG as int);
            crate::arith::lemma_mul4_fits(v3@.x, v0@.d, v1@.d, v2@.d, LIMIT_TRIG as int);
            crate::arith::lemma_mul4_fits(v3@.y, v0@.d, v1@.d, v2@.d, LIMIT_TRIG as int);
            crate::arith::lemma_mul4_fits(v3@.z, v0@.d, v1@.d, v2@.d, LIMIT_TRIG as int);
            crate::arith::lemma_mul4_fits(v3@.w, v0@.d, v1@.d, v2@.d, LIMIT_TRIG as int);
            crate::arith::lemma_mul4_fits(v0@.d, v1@.d, v2@.d, v3@.d, LIMIT_TRIG as int);
            lemma_pos_mul4(v0@.d, v1@.d, v2@.d, v3@.d);
        }
        Matrix4 {
            m00: ((v0.x * v1.d) * v2.d) * v3.d,
            m01: ((v0.y * v1.d) * v2.d) * v3.d,
            m02: ((v0.z * v1.d) * v2.d) * v3.d,
            m03: ((v0.w * v1.d) * v2.d) * v3.d,
            m10: ((v1.x * v0.d) * v2.d) * v3.d,
            m11: ((v1.y * v0.d) * v2.d) * v3.d,
            m12: ((v1.z * v0.d) * v2.d) * v3.d,
            m13: ((v1.w * v0.d) * v2.d) * v3.d,
            m20: ((v2.x * v0.d) * v1.d) * v3.d,
            m21: ((v2.y * v0.d) * v1.d) * v3.d,
            m22: ((v2.z * v0.d) * v1.d) * v3.d,
            m23: ((v2.w * v0.d) * v1.d) * v3.d,
            m30: ((v3.x * v0.d) * v1.d) * v2.d,
            m31: ((v3.y * v0.d) * v1.d) * v2.d,
            m32: ((v3.z * v0.d) * v1.d) * v2.d,
            m33: ((v3.w * v0.d) * v1.d) * v2.d,
            d: ((v0.d * v1.d) * v2.d) * v3.d,
        }
    }

    /// Builds a matrix from sixteen scalars, row-major.
    pub fn new(
        m00: Rational,
        m01: Rational,
        m02: Rational,
        m03: Rational,
        m10: Rational,
        m11: Rational,
        m12: Rational,
        m13: Rational,
        m20: Rational,
        m21: Rational,
        m22: Rational,
        m23: Rational,
        m30: Rational,
        m31: Rational,
        m32: Rational,
        m33: Rational,
    ) -> (r: Matrix4)
        requires
            m00@.bounded(LIMIT_TRIG as int),
            m01@.bounded(LIMIT_TRIG as int),
            m02@.bounded(LIMIT_TRIG as int),
            m03@.bounded(LIMIT_TRIG as int),
            m10@.bounded(LIMIT_TRIG as int),
            m11@.bounded(LIMIT_TRIG as int),
            m12@.bounded(LIMIT_TRIG as int),
            m13@.bounded(LIMIT_TRIG as int),
            m20@.bounded(LIMIT_TRIG as int),
            m21@.bounded(LIMIT_TRIG as int),
            m22@.bounded(LIMIT_TRIG as int),
            m23@.bounded(LIMIT_TRIG as int),
            m30@.bounded(LIMIT_TRIG as int),
            m31@.bounded(LIMIT_TRIG as int),
            m32@.bounded(LIMIT_TRIG as int),
            m33@.bounded(LIMIT_TRIG as int),
            Vec4::pack4(m00@, m01@, m02@, m03@).bounded(LIMIT_TRIG as int),
            Vec4::pack4(m10@, m11@, m12@, m13@).bounded(LIMIT_TRIG as int),
            Vec4::pack4(m20@, m21@, m22@, m23@).bounded(LIMIT_TRIG as int),
            Vec4::pack4(m30@, m31@, m32@, m33@).bounded(LIMIT_TRIG as int),
        ensures
            r@ == Mat4::from_rows(
                Vec4::pack4(m00@, m01@, m02@, m03@),
                Vec4::pack4(m10@, m11@, m12@, m13@),
                Vec4::pack4(m20@, m21@, m22@, m23@),
                Vec4::pack4(m30@, m31@, m32@, m33@),
            ),
            r@.wf(),
    {
        let r0 = Vector4::new(m00, m01, m02, m03);
        let r1 = Vector4::new(m10, m11, m12, m13);
        let r2 = Vector4::new(m20, m21, m22, m23);
        let r3 = Vector4::new(m30, m31, m32, m33);
        Matrix4::from_vectors(r0, r1, r2, r3)
    }

    /// Builds a matrix from an array of sixteen scalars, row-major.
    pub fn from_array(m: [Rational; 16]) -> (r: Matrix4)
        requires
            m@[0]@.bounded(LIMIT_TRIG as int),
            m@[1]@.bounded(LIMIT_TRIG as int),
            m@[2]@.bounded(LIMIT_TRIG as int),
            m@[3]@.bounded(LIMIT_TRIG as int),
            m@[4]@.bounded(LIMIT_TRIG as int),
            m@[5]@.bounded(LIMIT_TRIG as int),
            m@[6]@.bounded(LIMIT_TRIG as int),
            m@[7]@.bounded(LIMIT_TRIG as int),
            m@[8]@.bounded(LIMIT_TRIG as int),
            m@[9]@.bounded(LIMIT_TRIG as int),
            m@[10]@.bounded(LIMIT_TRIG as int),
            m@[11]@.bounded(LIMIT_TRIG as int),
            m@[12]@.bounded(LIMIT_TRIG as int),
            m@[13]@.bounded(LIMIT_TRIG as int),
            m@[14]@.bounded(LIMIT_TRIG as int),
            m@[15]@.bounded(LIMIT_TRIG as int),
            Vec4::pack4(m@[0]@, m@[1]@, m@[2]@, m@[3]@).bounded(LIMIT_TRIG as int),
            Vec4::pack4(m@[4]@, m@[5]@, m@[6]@, m@[7]@).bounded(LIMIT_TRIG as int),
            Vec4::pack4(m@[8]@, m@[9]@, m@[10]@, m@[11]@).bounded(LIMIT_TRIG as int),
            Vec4::pack4(m@[12]@, m@[13]@, m@[14]@, m@[15]@).bounded(LIMIT_TRIG as int),
        ensures
            r@ == Mat4::from_rows(
                Vec4::pack4(m@[0]@, m@[1]@, m@[2]@, m@[3]@),
                Vec4::pack4(m@[4]@, m@[5]@, m@[6]@, m@[7]@),
                Vec4::pack4(m@[8]@, m@[9]@, m@[10]@, m@[11]@),
                Vec4::pack4(m@[12]@, m@[13]@, m@[14]@, m@[15]@),
            ),
            r@.wf(),
    {
        Matrix4::new(
            m[0],
            m[1],
            m[2],
            m[3],
            m[4],
            m[5],
            m[6],
            m[7],
            m[8],
            m[9],
            m[10],
            m[11],
            m[12],
            m[13],
            m[14],
            m[15],
        )
    }

    /// Entry `i` in row-major order; the index must be in bounds.
    pub fn index(&self, i: usize) -> (r: Rational)
        requires
            i < 16,
        ensures
            r@ == self@.entry(i as int),
    {
        let row = i / 4;
        let col = i % 4;
        let n = if row == 0 {
            if col == 0 {
                self.m00
            } else if col == 1 {
                self.m01
            } else if col == 2 {
                self.m02
            } else {
                self.m03
            }
        } else if row == 1 {
            if col == 0 {
                self.m10
            } else if col == 1 {
                self.m11
            } else if col == 2 {
                self.m12
            } else {
                self.m13
            }
        } else if row == 2 {
            if col == 0 {
                self.m20
            } else if col == 1 {
                self.m21
            } else if col == 2 {
                self.m22
            } else {
                self.m23
            }
        } else {
            if col == 0 {
                self.m30
            } else if col == 1 {
                self.m31
            } else if col == 2 {
                self.m32
            } else {
                self.m33
            }
        };
        Rational { n, d: self.d }
    }

    /// The four rows as vectors.
    pub fn to_array_vectors(&self) -> (r: [Vector4; 4])
        ensures
            r@[0]@ == self@.row(0),
            r@[1]@ == self@.row(1),
            r@[2]@ == self@.row(2),
            r@[3]@ == self@.row(3),
    {
        [
            Vector4 { x: self.m00, y: self.m01, z: self.m02, w: self.m03, d: self.d },
            Vector4 { x: self.m10, y: self.m11, z: self.m12, w: self.m13, d: self.d },
            Vector4 { x: self.m20, y: self.m21, z: self.m22, w: self.m23, d: self.d },
            Vector4 { x: self.m30, y: self.m31, z: self.m32, w: self.m33, d: self.d },
        ]
    }

    /// Row `i` as a vector; the index must be in bounds.
    pub fn row(&self, i: usize) -> (r: Vector4)
        requires
            i < 4,
        ensures
            r@ == self@.row(i as int),
    {
        if i == 0 {
            Vector4 { x: self.m00, y: self.m01, z: self.m02, w: self.m03, d: self.d }
        } else if i == 1 {
            Vector4 { x: self.m10, y: self.m11, z: self.m12, w: self.m13, d: self.d }
        } else if i == 2 {
            Vector4 { x: self.m20, y: self.m21, z: self.m22, w: self.m23, d: self.d }
        } else {
            Vector4 { x: self.m30, y: self.m31, z: self.m32, w: self.m33, d: self.d }
        }
    }

    /// Matrix product.
    pub fn product(&self, other: Matrix4) -> (r: Matrix4)
        requires
            self@.bounded(LIMIT_PAIR as int),
            other@.bounded(LIMIT_PAIR as int),
        ensures
            r@ == self@.product(other@),
            r@.wf(),
    {
        proof {
            assert forall|a: int, b: int|
                -(LIMIT_PAIR as int) <= a <= (LIMIT_PAIR as int) && -(LIMIT_PAIR as int) <= b <= (
                LIMIT_PAIR as int) implies -((LIMIT_PAIR as int) * (LIMIT_PAIR as int)) <= #[trigger] (a
                * b) <= (LIMIT_PAIR as int) * (LIMIT_PAIR as int) by {
                lemma_mul_fits(a, b, LIMIT_PAIR as int, LIMIT_PAIR as int);
            }
            lemma_pos_mul(self@.d, other@.d);
        }
        Matrix4 {
            m00: self.m00 * other.m00 + self.m01 * other.m10 + self.m02 * other.m20 + self.m03
                * other.m30,
            m01: self.m00 * other.m01 + self.m01 * other.m11 + self.m02 * other.m21 + self.m03
                * other.m31,
            m02: self.m00 * other.m02 + self.m01 * other.m12 + self.m02 * other.m22 + self.m03
                * other.m32,
            m03: self.m00 * other.m03 + self.m01 * other.m13 + self.m02 * other.m23 + self.m03
                * other.m33,
            m10: self.m10 * other.m00 + self.m11 * other.m10 + self.m12 * other.m20 + self.m13
                * other.m30,
            m11: self.m10 * other.m01 + self.m11 * other.m11 + self.m12 * other.m21 + self.m13
                * other.m31,
            m12: self.m10 * other.m02 + self.m11 * other.m12 + self.m12 * other.m22 + self.m13
                * other.m32,
            m13: self.m10 * other.m03 + self.m11 * other.m13 + self.m12 * other.m23 + self.m13
                * other.m33,
            m20: self.m20 * other.m00 + self.m21 * other.m10 + self.m22 * other.m20 + self.m23
                * other.m30,
            m21: self.m20 * other.m01 + self.m21 * other.m11 + self.m22 * other.m21 + self.m23
                * other.m31,
            m22: self.m20 * other.m02 + self.m21 * other.m12 + self.m22 * other.m22 + self.m23
                * other.m32,
            m23: self.m20 * other.m03 + self.m21 * other.m13 + self.m22 * other.m23 + self.m23
                * other.m33,
            m30: self.m30 * other.m00 + self.m31 * other.m10 + self.m32 * other.m20 + self.m33
                * other.m30,
            m31: self.m30 * other.m01 + self.m31 * other.m11 + self.m32 * other.m21 + self.m33
                * other.m31,
            m32: self.m30 * other.m02 + self.m31 * other.m12 + self.m32 * other.m22 + self.m33
                * other.m32,
            m33: self.m30 * other.m03 + self.m31 * other.m13 + self.m32 * other.m23 + self.m33
                * other.m33,
            d: self.d * other.d,
        }
    }

    /// The transposed matrix.
    pub fn transpose(&self) -> (r: Matrix4)
        ensures
            r@ == self@.transpose(),
            r@.wf() == self@.wf(),
    {
        Matrix4 {
            m00: self.m00,
            m01: self.m10,
            m02: self.m20,
            m03: self.m30,
            m10: self.m01,
            m11: self.m11,
            m12: self.m21,
            m13: self.m31,
            m20: self.m02,
            m21: self.m12,
            m22: self.m22,
            m23: self.m32,
            m30: self.m03,
            m31: self.m13,
            m32: self.m23,
            m33: self.m33,
            d: self.d,
        }
    }

    /// Embeds a 3x3 rotation matrix in the upper left corner of a 4x4
    /// matrix whose last diagonal entry is one.
    pub fn embed_rotation(m: &Matrix3) -> (r: Matrix4)
        requires
            m@.wf(),
        ensures
            r@ == Mat4::embed(m@),
            r@.wf(),
    {
        Matrix4 {
            m00: m.m00,
            m01: m.m01,
            m02: m.m02,
            m03: 0,
            m10: m.m10,
            m11: m.m11,
            m12: m.m12,
            m13: 0,
            m20: m.m20,
            m21: m.m21,
            m22: m.m22,
            m23: 0,
            m30: 0,
            m31: 0,
            m32: 0,
            m33: m.d,
            d: m.d,
        }
    }

    /// Exact value equality of the entries.
    pub fn equals(&self, other: &Matrix4) -> (b: bool)
        requires
            self@.bounded(LIMIT_PAIR as int),
            other@.bounded(LIMIT_PAIR as int),
        ensures
            b == self@.eqv(other@),
    {
        proof {
            assert forall|a: int, b: int|
                -(LIMIT_PAIR as int) <= a <= (LIMIT_PAIR as int) && -(LIMIT_PAIR as int) <= b <= (
                LIMIT_PAIR as int) implies -((LIMIT_PAIR as int) * (LIMIT_PAIR as int)) <= #[trigger] (a
                * b) <= (LIMIT_PAIR as int) * (LIMIT_PAIR as int) by {
                lemma_mul_fits(a, b, LIMIT_PAIR as int, LIMIT_PAIR as int);
            }
        }
        self.m00 * other.d == other.m00 * self.d && self.m01 * other.d == other.m01 * self.d
            && self.m02 * other.d == other.m02 * self.d && self.m03 * other.d == other.m03 * self.d
            && self.m10 * other.d == other.m10 * self.d && self.m11 * other.d == other.m11 * self.d
            && self.m12 * other.d == other.m12 * self.d && self.m13 * other.d == other.m13 * self.d
            && self.m20 * other.d == other.m20 * self.d && self.m21 * other.d == other.m21 * self.d
            && self.m22 * other.d == other.m22 * self.d && self.m23 * other.d == other.m23 * self.d
            && self.m30 * other.d == other.m30 * self.d && self.m31 * other.d == other.m31 * self.d
            && self.m32 * other.d == other.m32 * self.d && self.m33 * other.d == other.m33 * self.d
    }
}

} // verus!
