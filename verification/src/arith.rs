//! Small arithmetic lemmas shared by the numeric types: bounds on products
//! (used to rule out overflow of the `i128` component arithmetic) and the
//! ring identities behind the quaternion laws.

use vstd::prelude::*;

verus! {

/// A product of values bounded in magnitude is bounded by the product of the bounds.
pub proof fn lemma_mul_fits(a: int, b: int, ba: int, bb: int) by (nonlinear_arith)
    requires
        -ba <= a <= ba,
        -bb <= b <= bb,
        0 <= ba,
        0 <= bb,
    ensures
        -(ba * bb) <= a * b <= ba * bb,
{
}

/// A product of positive values is positive.
pub proof fn lemma_pos_mul(a: int, b: int) by (nonlinear_arith)
    requires
        a > 0,
        b > 0,
    ensures
        a * b > 0,
{
}

/// A product of three positive values is positive.
pub proof fn lemma_pos_mul3(a: int, b: int, c: int) by (nonlinear_arith)
    requires
        a > 0,
        b > 0,
        c > 0,
    ensures
        (a * b) * c > 0,
{
}

/// A product of four positive values is positive.
pub proof fn lemma_pos_mul4(a: int, b: int, c: int, d: int) by (nonlinear_arith)
    requires
        a > 0,
        b > 0,
        c > 0,
        d > 0,
    ensures
        ((a * b) * c) * d > 0,
{
}

/// A product of three bounded values is bounded by the cube of the bound.
pub proof fn lemma_mul3_fits(a: int, b: int, c: int, m: int) by (nonlinear_arith)
    requires
        -m <= a <= m,
        -m <= b <= m,
        -m <= c <= m,
        0 <= m,
    ensures
        -(m * m) <= a * b <= m * m,
        -((m * m) * m) <= (a * b) * c <= (m * m) * m,
{
}

/// A product of four bounded values is bounded by the fourth power of the bound.
pub proof fn lemma_mul4_fits(a: int, b: int, c: int, d: int, m: int) by (nonlinear_arith)
    requires
        -m <= a <= m,
        -m <= b <= m,
        -m <= c <= m,
        -m <= d <= m,
        0 <= m,
    ensures
        -(m * m) <= a * b <= m * m,
        -((m * m) * m) <= (a * b) * c <= (m * m) * m,
        -(((m * m) * m) * m) <= ((a * b) * c) * d <= ((m * m) * m) * m,
{
}

/// A sum of four squares is positive unless all four values are zero.
pub proof fn lemma_sum_squares_pos(w: int, x: int, y: int, z: int) by (nonlinear_arith)
    requires
        w != 0 || x != 0 || y != 0 || z != 0,
    ensures
        w * w + x * x + y * y + z * z > 0,
{
}

/// Regrouping of a product of four factors, used to match up monomials
/// that cancel against each other in expanded polynomial identities.
pub proof fn lemma_prod_swap(a: int, b: int, c: int, d: int) by (nonlinear_arith)
    ensures
        (a * b) * (c * d) == (a * d) * (c * b),
{
}

/// Reassociations and transpositions of a product of three factors.
pub proof fn lemma_mul3_comm(a: int, b: int, c: int) by (nonlinear_arith)
    ensures
        (a * b) * c == (a * c) * b,
        (a * b) * c == (c * b) * a,
        (a * b) * c == a * (b * c),
{
}

/// A negated left factor negates the product.
pub proof fn lemma_neg_mul(a: int, b: int) by (nonlinear_arith)
    ensures
        (-a) * b == -(a * b),
        a * (-b) == -(a * b),
{
}

/// A product of two squares is the square of the product.
pub proof fn lemma_sq_mul(a: int, b: int) by (nonlinear_arith)
    ensures
        (a * a) * (b * b) == (a * b) * (a * b),
{
}

/// Square of `e - f - g - h`, expanded.
pub proof fn lemma_sq_wpat(s: int, e: int, f: int, g: int, h: int) by (nonlinear_arith)
    requires
        s == e - f - g - h,
    ensures
        s * s == e * e + f * f + g * g + h * h - 2 * (e * f) - 2 * (e * g) - 2 * (e * h) + 2 * (f
            * g) + 2 * (f * h) + 2 * (g * h),
{
}

/// Square of `e - f + g + h`, expanded.
pub proof fn lemma_sq_vpat(s: int, e: int, f: int, g: int, h: int) by (nonlinear_arith)
    requires
        s == e - f + g + h,
    ensures
        s * s == e * e + f * f + g * g + h * h - 2 * (e * f) + 2 * (e * g) + 2 * (e * h) - 2 * (f
            * g) - 2 * (f * h) + 2 * (g * h),
{
}

/// Distribution of a two-term sum over one factor.
pub proof fn lemma_distrib2(s: int, t: int, a: int, b: int) by (nonlinear_arith)
    requires
        s == a + b,
    ensures
        s * t == a * t + b * t,
{
}

/// Distribution of a three-term sum over one factor.
pub proof fn lemma_distrib3(s: int, t: int, a: int, b: int, c: int) by (nonlinear_arith)
    requires
        s == a + b + c,
    ensures
        s * t == a * t + b * t + c * t,
{
}

/// A doubled factor doubles the product.
pub proof fn lemma_two_mul(a: int, b: int) by (nonlinear_arith)
    ensures
        (2 * a) * b == 2 * (a * b),
{
}

/// Distribution of a four-term sum over one factor.
pub proof fn lemma_distrib4(s: int, t: int, a: int, b: int, c: int, d: int) by (nonlinear_arith)
    requires
        s == a + b + c + d,
    ensures
        s * t == a * t + b * t + c * t + d * t,
{
}

/// Expansion of a product of two four-term sums.
pub proof fn lemma_distrib44(
    p: int,
    q: int,
    a: int,
    b: int,
    c: int,
    d: int,
    e: int,
    f: int,
    g: int,
    h: int,
)
    requires
        p == a + b + c + d,
        q == e + f + g + h,
    ensures
        p * q == a * e + a * f + a * g + a * h + b * e + b * f + b * g + b * h + c * e + c * f + c
            * g + c * h + d * e + d * f + d * g + d * h,
{
    lemma_distrib4(p, q, a, b, c, d);
    lemma_distrib4(q, a, e, f, g, h);
    lemma_distrib4(q, b, e, f, g, h);
    lemma_distrib4(q, c, e, f, g, h);
    lemma_distrib4(q, d, e, f, g, h);
    assert(a * e == e * a && a * f == f * a && a * g == g * a && a * h == h * a);
    assert(b * e == e * b && b * f == f * b && b * g == g * b && b * h == h * b);
    assert(c * e == e * c && c * f == f * c && c * g == g * c && c * h == h * c);
    assert(d * e == e * d && d * f == f * d && d * g == g * d && d * h == h * d);
}

/// Euler's four-square identity: the squared norm of a Hamilton product
/// is the product of the squared norms of its factors.
pub proof fn lemma_four_square(
    a0: int,
    a1: int,
    a2: int,
    a3: int,
    b0: int,
    b1: int,
    b2: int,
    b3: int,
)
    ensures
        ({
            let w = a0 * b0 - a1 * b1 - a2 * b2 - a3 * b3;
            let x = a2 * b3 - a3 * b2 + a1 * b0 + a0 * b1;
            let y = a3 * b1 - a1 * b3 + a2 * b0 + a0 * b2;
            let z = a1 * b2 - a2 * b1 + a3 * b0 + a0 * b3;
            w * w + x * x + y * y + z * z == (a0 * a0 + a1 * a1 + a2 * a2 + a3 * a3) * (b0 * b0 + b1
                * b1 + b2 * b2 + b3 * b3)
        }),
{
    let w = a0 * b0 - a1 * b1 - a2 * b2 - a3 * b3;
    let x = a2 * b3 - a3 * b2 + a1 * b0 + a0 * b1;
    let y = a3 * b1 - a1 * b3 + a2 * b0 + a0 * b2;
    let z = a1 * b2 - a2 * b1 + a3 * b0 + a0 * b3;

    let p00 = a0 * b0;
    let p01 = a0 * b1;
    let p02 = a0 * b2;
    let p03 = a0 * b3;
    let p10 = a1 * b0;
    let p11 = a1 * b1;
    let p12 = a1 * b2;
    let p13 = a1 * b3;
    let p20 = a2 * b0;
    let p21 = a2 * b1;
    let p22 = a2 * b2;
    let p23 = a2 * b3;
    let p30 = a3 * b0;
    let p31 = a3 * b1;
    let p32 = a3 * b2;
    let p33 = a3 * b3;

    // Expand the four squares over the pairwise products.
    lemma_sq_wpat(w, p00, p11, p22, p33);
    lemma_sq_vpat(x, p23, p32, p10, p01);
    lemma_sq_vpat(y, p31, p13, p20, p02);
    lemma_sq_vpat(z, p12, p21, p30, p03);

    // Expand the right-hand side over the squared components.
    lemma_distrib44(
        a0 * a0 + a1 * a1 + a2 * a2 + a3 * a3,
        b0 * b0 + b1 * b1 + b2 * b2 + b3 * b3,
        a0 * a0,
        a1 * a1,
        a2 * a2,
        a3 * a3,
        b0 * b0,
        b1 * b1,
        b2 * b2,
        b3 * b3,
    );

    // Each diagonal term of the expansion is the square of one pairwise product.
    lemma_sq_mul(a0, b0);
    lemma_sq_mul(a0, b1);
    lemma_sq_mul(a0, b2);
    lemma_sq_mul(a0, b3);
    lemma_sq_mul(a1, b0);
    lemma_sq_mul(a1, b1);
    lemma_sq_mul(a1, b2);
    lemma_sq_mul(a1, b3);
    lemma_sq_mul(a2, b0);
    lemma_sq_mul(a2, b1);
    lemma_sq_mul(a2, b2);
    lemma_sq_mul(a2, b3);
    lemma_sq_mul(a3, b0);
    lemma_sq_mul(a3, b1);
    lemma_sq_mul(a3, b2);
    lemma_sq_mul(a3, b3);

    // The cross terms cancel in pairs once regrouped.
    lemma_prod_swap(a1, b0, a0, b1);
    lemma_prod_swap(a2, b0, a0, b2);
    lemma_prod_swap(a3, b0, a0, b3);
    lemma_prod_swap(a1, b2, a2, b1);
    lemma_prod_swap(a3, b1, a1, b3);
    lemma_prod_swap(a2, b3, a3, b2);
    lemma_prod_swap(a2, b3, a1, b0);
    lemma_prod_swap(a3, b2, a1, b0);
    lemma_prod_swap(a2, b3, a0, b1);
    lemma_prod_swap(a3, b2, a0, b1);
    lemma_prod_swap(a1, b3, a0, b2);
    lemma_prod_swap(a3, b1, a2, b0);
}

} // verus!
