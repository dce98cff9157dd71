//! Exact scalar arithmetic.
//!
//! Every scalar in this library is an exact fraction `n / d` of 128-bit
//! integers with a positive denominator. Fractions are not reduced, so two
//! scalars are equal exactly when they denote the same fraction, which the
//! spec relation [`Rat::eqv`] states by cross-multiplication.

use vstd::prelude::*;

use crate::arith::lemma_mul_fits;
use crate::arith::lemma_pos_mul;

verus! {

/// Magnitude limit on the components of the operands of a pairwise
/// operation (sum, product, dot, ...): two to the sixtieth power.
pub const LIMIT_PAIR: i128 = 0x1000_0000_0000_0000;

/// Magnitude limit on the components of the operands of a chained
/// operation (a sandwich product, a quotient, a determinant, ...):
/// two to the fortieth power.
pub const LIMIT_CHAIN: i128 = 0x100_0000_0000;

/// Magnitude limit on the components of scalars that are packed four or
/// more at a time over a common denominator: two to the twentieth power.
pub const LIMIT_TRIG: i128 = 0x10_0000;

/// Magnitude limit on the components of scalars that enter a projection
/// matrix, which packs four quotients at once: two to the thirteenth power.
pub const LIMIT_CELL: i128 = 0x2000;

/// Magnitude limit on the components of the operands of a componentwise
/// quotient of 4-vectors, which packs four quotients at once: two to the
/// tenth power.
pub const LIMIT_QUOT: i128 = 0x400;

/// Magnitude limit on the entries of the operands of a matrix division,
/// which inverts one matrix and multiplies by the other: two to the
/// nineteenth power.
pub const LIMIT_DIV: i128 = 0x8_0000;

/// Magnitude limit on the components of scalars that enter a perspective
/// projection matrix, which divides and then packs four quotients at
/// once: two to the eighth power.
pub const LIMIT_PROJ: i128 = 0x100;

/// Magnitude limit on the components of the half-angle sines and cosines
/// of an Euler rotation that is composed and then applied in one call:
/// two to the sixth power.
pub const LIMIT_COMPOSE: i128 = 0x40;

/// Magnitude limit under which an intermediate quaternion may still be
/// multiplied once more: two to the eighty-fourth power.
pub const LIMIT_WIDE: i128 = 0x10_0000_0000_0000_0000_0000;

/// Mathematical value of a scalar: the fraction `n / d`.
pub struct Rat {
    pub n: int,
    pub d: int,
}

impl Rat {
    /// A well-formed fraction has a positive denominator.
    pub open spec fn wf(self) -> bool {
        self.d > 0
    }

    /// Two fractions denote the same value exactly when they
    /// cross-multiply to the same product.
    pub open spec fn eqv(self, other: Rat) -> bool {
        self.n * other.d == other.n * self.d
    }

    /// Both components have magnitude at most `b` and the denominator is positive.
    pub open spec fn bounded(self, b: int) -> bool {
        -b <= self.n <= b && 0 < self.d <= b
    }

    pub open spec fn from_int(n: int) -> Rat {
        Rat { n, d: 1 }
    }

    pub open spec fn zero() -> Rat {
        Rat { n: 0, d: 1 }
    }

    pub open spec fn one() -> Rat {
        Rat { n: 1, d: 1 }
    }

    /// Sign-normalised fraction `n / d` for a nonzero `d` of either sign.
    pub open spec fn make(n: int, d: int) -> Rat {
        if d > 0 {
            Rat { n, d }
        } else {
            Rat { n: -n, d: -d }
        }
    }

    pub open spec fn sum(self, other: Rat) -> Rat {
        Rat { n: self.n * other.d + other.n * self.d, d: self.d * other.d }
    }

    pub open spec fn difference(self, other: Rat) -> Rat {
        Rat { n: self.n * other.d - other.n * self.d, d: self.d * other.d }
    }

    pub open spec fn product(self, other: Rat) -> Rat {
        Rat { n: self.n * other.n, d: self.d * other.d }
    }

    pub open spec fn quotient(self, other: Rat) -> Rat {
        Rat::make(self.n * other.d, self.d * other.n)
    }

    pub open spec fn negate(self) -> Rat {
        Rat { n: -self.n, d: self.d }
    }
}

/// An exact scalar: the fraction `n / d` with `d > 0`.
#[derive(Clone, Copy, Debug)]
pub struct Rational {
    /// Numerator.
    pub n: i128,
    /// Denominator; positive in every well-formed scalar.
    pub d: i128,
}

impl View for Rational {
    type V = Rat;

    open spec fn view(&self) -> Rat {
        Rat { n: self.n as int, d: self.d as int }
    }
}

impl Rational {
    /// Builds the fraction `n / d`, normalising the sign so that the
    /// denominator is positive.
    pub fn new(n: i128, d: i128) -> (r: Rational)
        requires
            d != 0,
            n != i128::MIN,
            d != i128::MIN,
        ensures
            r@ == Rat::make(n as int, d as int),
            r@.wf(),
    {
        if d > 0 {
            Rational { n, d }
        } else {
            Rational { n: -n, d: -d }
        }
    }

    /// The integer `n` as a scalar.
    pub fn from_int(n: i128) -> (r: Rational)
        ensures
            r@ == Rat::from_int(n as int),
            r@.wf(),
    {
        Rational { n, d: 1 }
    }

    pub fn zero() -> (r: Rational)
        ensures
            r@ == Rat::zero(),
            r@.wf(),
    {
        Rational { n: 0, d: 1 }
    }

    pub fn one() -> (r: Rational)
        ensures
            r@ == Rat::one(),
            r@.wf(),
    {
        Rational { n: 1, d: 1 }
    }

    /// The numerator of the fraction as stored.
    pub fn numer(&self) -> (n: i128)
        ensures
            n as int == self@.n,
    {
        self.n
    }

    /// The denominator of the fraction as stored.
    pub fn denom(&self) -> (d: i128)
        ensures
            d as int == self@.d,
    {
        self.d
    }

    /// Whether the scalar denotes zero.
    pub fn is_zero(&self) -> (b: bool)
        ensures
            b == (self@.n == 0),
    {
        self.n == 0
    }

    pub fn sum(self, other: Rational) -> (r: Rational)
        requires
            self@.bounded(LIMIT_PAIR as int),
            other@.bounded(LIMIT_PAIR as int),
        ensures
            r@ == self@.sum(other@),
            r@.wf(),
    {
        proof {
            lemma_mul_fits(self@.n, other@.d, LIMIT_PAIR as int, LIMIT_PAIR as int);
            lemma_mul_fits(other@.n, self@.d, LIMIT_PAIR as int, LIMIT_PAIR as int);
            lemma_mul_fits(self@.d, other@.d, LIMIT_PAIR as int, LIMIT_PAIR as int);
            lemma_pos_mul(self@.d, other@.d);
        }
        Rational { n: self.n * other.d + other.n * self.d, d: self.d * other.d }
    }

    pub fn difference(self, other: Rational) -> (r: Rational)
        requires
            self@.bounded(LIMIT_PAIR as int),
            other@.bounded(LIMIT_PAIR as int),
        ensures
            r@ == self@.difference(other@),
            r@.wf(),
    {
        proof {
            lemma_mul_fits(self@.n, other@.d, LIMIT_PAIR as int, LIMIT_PAIR as int);
            lemma_mul_fits(other@.n, self@.d, LIMIT_PAIR as int, LIMIT_PAIR as int);
            lemma_mul_fits(self@.d, other@.d, LIMIT_PAIR as int, LIMIT_PAIR as int);
            lemma_pos_mul(self@.d, other@.d);
        }
        Rational { n: self.n * other.d - other.n * self.d, d: self.d * other.d }
    }

    pub fn product(self, other: Rational) -> (r: Rational)
        requires
            self@.bounded(LIMIT_PAIR as int),
            other@.bounded(LIMIT_PAIR as int),
        ensures
            r@ == self@.product(other@),
            r@.wf(),
    {
        proof {
            lemma_mul_fits(self@.n, other@.n, LIMIT_PAIR as int, LIMIT_PAIR as int);
            lemma_mul_fits(self@.d, other@.d, LIMIT_PAIR as int, LIMIT_PAIR as int);
            lemma_pos_mul(self@.d, other@.d);
        }
        Rational { n: self.n * other.n, d: self.d * other.d }
    }

    /// Division. The divisor must not denote zero: a zero divisor is a
    /// numeric degeneracy that this library rules out rather than letting
    /// it poison the result.
    pub fn quotient(self, other: Rational) -> (r: Rational)
        requires
            self@.bounded(LIMIT_PAIR as int),
            other@.bounded(LIMIT_PAIR as int),
            other@.n != 0,
        ensures
            r@ == self@.quotient(other@),
            r@.wf(),
    {
        proof {
            lemma_mul_fits(self@.n, other@.d, LIMIT_PAIR as int, LIMIT_PAIR as int);
            lemma_mul_fits(self@.d, other@.n, LIMIT_PAIR as int, LIMIT_PAIR as int);
            if other@.n > 0 {
                lemma_pos_mul(self@.d, other@.n);
            } else {
                lemma_pos_mul(self@.d, -other@.n);
                assert(self@.d * (-other@.n) == -(self@.d * other@.n)) by (nonlinear_arith);
            }
        }
        let n = self.n * other.d;
        let d = self.d * other.n;
        if d > 0 {
            Rational { n, d }
        } else {
            Rational { n: -n, d: -d }
        }
    }

    pub fn negate(self) -> (r: Rational)
        requires
            self@.n != i128::MIN,
        ensures
            r@ == self@.negate(),
    {
        Rational { n: -self.n, d: self.d }
    }

    /// Exact value equality: whether the two fractions denote the same number.
    pub fn equals(&self, other: &Rational) -> (b: bool)
        requires
            self@.bounded(LIMIT_PAIR as int),
            other@.bounded(LIMIT_PAIR as int),
        ensures
            b == self@.eqv(other@),
    {
        proof {
            lemma_mul_fits(self@.n, other@.d, LIMIT_PAIR as int, LIMIT_PAIR as int);
            lemma_mul_fits(other@.n, self@.d, LIMIT_PAIR as int, LIMIT_PAIR as int);
        }
        self.n * other.d == other.n * self.d
    }
}

} // verus!
