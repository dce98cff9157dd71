//! A camera: a position, an orientation and a perspective frustum, with
//! the view and projection matrices built from them.

use vstd::prelude::*;

use crate::arith::lemma_mul_fits;
use crate::arith::lemma_mul3_fits;
use crate::arith::lemma_pos_mul3;
use crate::arith::lemma_pos_mul4;
use crate::matrices::Mat4;
use crate::matrices::Matrix4;
use crate::points::Point3;
use crate::quaternion::Quat;
use crate::quaternion::Quaternion;
use crate::rational::LIMIT_PAIR;
use crate::rational::LIMIT_PROJ;
use crate::rational::LIMIT_TRIG;
use crate::rational::Rat;
use crate::rational::Rational;
use crate::vectors::Vec3;

verus! {

/// The translation matrix that moves a point by `(x, y, z)`: the identity
/// with the offset in its last row, for row vectors multiplied from the
/// left.
pub open spec fn translation_matrix(x: Rat, y: Rat, z: Rat) -> Mat4 {
    let dd = (x.d * y.d) * z.d;
    Mat4 {
        m00: dd,
        m01: 0,
        m02: 0,
        m03: 0,
        m10: 0,
        m11: dd,
        m12: 0,
        m13: 0,
        m20: 0,
        m21: 0,
        m22: dd,
        m23: 0,
        m30: (x.n * y.d) * z.d,
        m31: (y.n * x.d) * z.d,
        m32: (z.n * x.d) * y.d,
        m33: dd,
        d: dd,
    }
}

/// The scale matrix with factors `(x, y, z)` on its diagonal.
pub open spec fn scale_matrix(x: Rat, y: Rat, z: Rat) -> Mat4 {
    let dd = (x.d * y.d) * z.d;
    Mat4 {
        m00: (x.n * y.d) * z.d,
        m01: 0,
        m02: 0,
        m03: 0,
        m10: 0,
        m11: (y.n * x.d) * z.d,
        m12: 0,
        m13: 0,
        m20: 0,
        m21: 0,
        m22: (z.n * x.d) * y.d,
        m23: 0,
        m30: 0,
        m31: 0,
        m32: 0,
        m33: dd,
        d: dd,
    }
}

/// The perspective projection matrix, from the reciprocal of the tangent
/// of half the field of view, the aspect ratio and the near and far
/// planes.
pub open spec fn projection_matrix(f: Rat, aspect: Rat, near: Rat, far: Rat) -> Mat4 {
    let r0 = f.quotient(aspect);
    let r2 = far.sum(near).quotient(near.difference(far));
    let r3 = Rat::from_int(2).product(far).product(near).quotient(near.difference(far));
    let dd = ((r0.d * f.d) * r2.d) * r3.d;
    Mat4 {
        m00: ((r0.n * f.d) * r2.d) * r3.d,
        m01: 0,
        m02: 0,
        m03: 0,
        m10: 0,
        m11: ((f.n * r0.d) * r2.d) * r3.d,
        m12: 0,
        m13: 0,
        m20: 0,
        m21: 0,
        m22: ((r2.n * r0.d) * f.d) * r3.d,
        m23: -dd,
        m30: 0,
        m31: 0,
        m32: ((r3.n * r0.d) * f.d) * r2.d,
        m33: 0,
        d: dd,
    }
}

/// Builds the translation matrix for the offset `(x, y, z)`.
pub fn translation(x: Rational, y: Rational, z: Rational) -> (r: Matrix4)
    requires
        x@.bounded(LIMIT_TRIG as int),
        y@.bounded(LIMIT_TRIG as int),
        z@.bounded(LIMIT_TRIG as int),
    ensures
        r@ == translation_matrix(x@, y@, z@),
        r@.bounded(LIMIT_PAIR as int),
{
    proof {
        lemma_mul3_fits(x@.n, y@.d, z@.d, LIMIT_TRIG as int);
        lemma_mul3_fits(y@.n, x@.d, z@.d, LIMIT_TRIG as int);
        lemma_mul3_fits(z@.n, x@.d, y@.d, LIMIT_TRIG as int);
        lemma_mul3_fits(x@.d, y@.d, z@.d, LIMIT_TRIG as int);
        lemma_pos_mul3(x@.d, y@.d, z@.d);
    }
    let dd = (x.d * y.d) * z.d;
    Matrix4 {
        m00: dd,
        m01: 0,
        m02: 0,
        m03: 0,
        m10: 0,
        m11: dd,
        m12: 0,
        m13: 0,
        m20: 0,
        m21: 0,
        m22: dd,
        m23: 0,
        m30: (x.n * y.d) * z.d,
        m31: (y.n * x.d) * z.d,
        m32: (z.n * x.d) * y.d,
        m33: dd,
        d: dd,
    }
}

/// Builds the scale matrix with factors `(x, y, z)`.
pub fn scale(x: Rational, y: Rational, z: Rational) -> (r: Matrix4)
    requires
        x@.bounded(LIMIT_TRIG as int),
        y@.bounded(LIMIT_TRIG as int),
        z@.bounded(LIMIT_TRIG as int),
    ensures
        r@ == scale_matrix(x@, y@, z@),
        r@.bounded(LIMIT_PAIR as int),
{
    proof {
        lemma_mul3_fits(x@.n, y@.d, z@.d, LIMIT_TRIG as int);
        lemma_mul3_fits(y@.n, x@.d, z@.d, LIMIT_TRIG as int);
        lemma_mul3_fits(z@.n, x@.d, y@.d, LIMIT_TRIG as int);
        lemma_mul3_fits(x@.d, y@.d, z@.d, LIMIT_TRIG as int);
        lemma_pos_mul3(x@.d, y@.d, z@.d);
    }
    let dd = (x.d * y.d) * z.d;
    Matrix4 {
        m00: (x.n * y.d) * z.d,
        m01: 0,
        m02: 0,
        m03: 0,
        m10: 0,
        m11: (y.n * x.d) * z.d,
        m12: 0,
        m13: 0,
        m20: 0,
        m21: 0,
        m22: (z.n * x.d) * y.d,
        m23: 0,
        m30: 0,
        m31: 0,
        m32: 0,
        m33: dd,
        d: dd,
    }
}

/// Builds the perspective projection matrix. `f` is the reciprocal of the
/// tangent of half the field of view, which the host computes in floating
/// point; the aspect ratio must not denote zero and the near and far
/// planes must denote different values.
pub fn projection(f: Rational, aspect: Rational, near: Rational, far: Rational) -> (r: Matrix4)
    requires
        f@.bounded(LIMIT_PROJ as int),
        aspect@.bounded(LIMIT_PROJ as int),
        near@.bounded(LIMIT_PROJ as int),
        far@.bounded(LIMIT_PROJ as int),
        aspect@.n != 0,
        !near@.eqv(far@),
    ensures
        r@ == projection_matrix(f@, aspect@, near@, far@),
        r@.wf(),
{
    let b: Ghost<int> = Ghost(LIMIT_PROJ as int);
    proof {
        lemma_mul_fits(near@.n, far@.d, b@, b@);
        lemma_mul_fits(far@.n, near@.d, b@, b@);
        lemma_mul_fits(near@.d, far@.d, b@, b@);
    }
    let r0 = f.quotient(aspect);
    let total = far.sum(near);
    let diff = near.difference(far);
    let r2 = total.quotient(diff);
    let two_far = Rational::from_int(2).product(far);
    let two_far_near = two_far.product(near);
    proof {
        lemma_mul_fits(two_far@.n, near@.n, 2 * b@, b@);
        lemma_mul_fits(two_far@.d, near@.d, b@, b@);
    }
    let r3 = two_far_near.quotient(diff);
    proof {
        lemma_mul_fits(f@.n, aspect@.d, b@, b@);
        lemma_mul_fits(f@.d, aspect@.n, b@, b@);
        lemma_mul_fits(total@.n, diff@.d, 2 * (b@ * b@), b@ * b@);
        lemma_mul_fits(total@.d, diff@.n, b@ * b@, 2 * (b@ * b@));
        lemma_mul_fits(two_far_near@.n, diff@.d, 2 * (b@ * b@), b@ * b@);
        lemma_mul_fits(two_far_near@.d, diff@.n, b@ * b@, 2 * (b@ * b@));
        let b4 = 2 * ((b@ * b@) * (b@ * b@));
        // The packed entries, factor by factor.
        lemma_mul_fits(r0@.n, f@.d, b@ * b@, b@);
        lemma_mul_fits((r0@.n * f@.d), r2@.d, (b@ * b@) * b@, b4);
        lemma_mul_fits(((r0@.n * f@.d) * r2@.d), r3@.d, ((b@ * b@) * b@) * b4, b4);
        lemma_mul_fits(f@.n, r0@.d, b@, b@ * b@);
        lemma_mul_fits((f@.n * r0@.d), r2@.d, b@ * (b@ * b@), b4);
        lemma_mul_fits(((f@.n * r0@.d) * r2@.d), r3@.d, (b@ * (b@ * b@)) * b4, b4);
        lemma_mul_fits(r2@.n, r0@.d, b4, b@ * b@);
        lemma_mul_fits((r2@.n * r0@.d), f@.d, b4 * (b@ * b@), b@);
        lemma_mul_fits(((r2@.n * r0@.d) * f@.d), r3@.d, (b4 * (b@ * b@)) * b@, b4);
        lemma_mul_fits(r3@.n, r0@.d, b4, b@ * b@);
        lemma_mul_fits((r3@.n * r0@.d), f@.d, b4 * (b@ * b@), b@);
        lemma_mul_fits(((r3@.n * r0@.d) * f@.d), r2@.d, (b4 * (b@ * b@)) * b@, b4);
        lemma_mul_fits(r0@.d, f@.d, b@ * b@, b@);
        lemma_mul_fits((r0@.d * f@.d), r2@.d, (b@ * b@) * b@, b4);
        lemma_mul_fits(((r0@.d * f@.d) * r2@.d), r3@.d, ((b@ * b@) * b@) * b4, b4);
        lemma_pos_mul4(r0@.d, f@.d, r2@.d, r3@.d);
    }
    let dd = ((r0.d * f.d) * r2.d) * r3.d;
    Matrix4 {
        m00: ((r0.n * f.d) * r2.d) * r3.d,
        m01: 0,
        m02: 0,
        m03: 0,
        m10: 0,
        m11: ((f.n * r0.d) * r2.d) * r3.d,
        m12: 0,
        m13: 0,
        m20: 0,
        m21: 0,
        m22: ((r2.n * r0.d) * f.d) * r3.d,
        m23: -dd,
        m30: 0,
        m31: 0,
        m32: ((r3.n * r0.d) * f.d) * r2.d,
        m33: 0,
        d: dd,
    }
}

/// Mathematical value of a camera.
pub struct Cam {
    pub position: Vec3,
    pub rotation: Quat,
    pub fov: Rat,
    pub aspect: Rat,
    pub near: Rat,
    pub far: Rat,
}

impl Cam {
    /// The view matrix: the translation by the camera position, composed
    /// with the camera rotation embedded as a 4x4 matrix.
    pub open spec fn view_matrix(self) -> Mat4 {
        translation_matrix(
            Rat { n: self.position.x, d: self.position.d },
            Rat { n: self.position.y, d: self.position.d },
            Rat { n: self.position.z, d: self.position.d },
        ).product(Mat4::embed(self.rotation.rotation_matrix()))
    }
}

/// A camera: a position, a rotation, a field of view in degrees, an
/// aspect ratio, and the near and far planes.
#[derive(Clone, Copy, Debug)]
pub struct Camera {
    /// Where the camera stands.
    pub position: Point3,
    /// The camera's orientation.
    pub rotation: Quaternion,
    /// Field of view, in degrees.
    pub fov: Rational,
    /// Width over height of the viewport.
    pub aspect: Rational,
    /// Distance of the near clipping plane.
    pub near: Rational,
    /// Distance of the far clipping plane.
    pub far: Rational,
}

impl Camera {
    /// Mathematical value of the camera. (Named explicitly: the view
    /// matrix method below already carries the conventional name `view`.)
    pub open spec fn model(self) -> Cam {
        Cam {
            position: self.position@,
            rotation: self.rotation@,
            fov: self.fov@,
            aspect: self.aspect@,
            near: self.near@,
            far: self.far@,
        }
    }

    /// Builds a camera.
    pub fn new(
        position: Point3,
        rotation: Quaternion,
        fov: Rational,
        aspect: Rational,
        near: Rational,
        far: Rational,
    ) -> (r: Camera)
        ensures
            r.model() == (Cam {
                position: position@,
                rotation: rotation@,
                fov: fov@,
                aspect: aspect@,
                near: near@,
                far: far@,
            }),
    {
        Camera { position, rotation, fov, aspect, near, far }
    }

    /// The camera's position.
    pub fn position(&self) -> (r: Point3)
        ensures
            r@ == self.model().position,
    {
        self.position
    }

    /// Moves the camera.
    pub fn update_position(&mut self, position: Point3)
        ensures
            final(self).model() == (Cam { position: position@, ..old(self).model() }),
    {
        self.position = position;
    }

    /// The camera's rotation.
    pub fn rotation(&self) -> (r: Quaternion)
        ensures
            r@ == self.model().rotation,
    {
        self.rotation
    }

    /// Turns the camera.
    pub fn update_rotation(&mut self, rotation: Quaternion)
        ensures
            final(self).model() == (Cam { rotation: rotation@, ..old(self).model() }),
    {
        self.rotation = rotation;
    }

    /// The camera's field of view.
    pub fn fov(&self) -> (r: Rational)
        ensures
            r@ == self.model().fov,
    {
        self.fov
    }

    /// Changes the camera's field of view.
    pub fn update_fov(&mut self, fov: Rational)
        ensures
            final(self).model() == (Cam { fov: fov@, ..old(self).model() }),
    {
        self.fov = fov;
    }

    /// The camera's aspect ratio.
    pub fn aspect(&self) -> (r: Rational)
        ensures
            r@ == self.model().aspect,
    {
        self.aspect
    }

    /// Changes the camera's aspect ratio.
    pub fn update_aspect(&mut self, aspect: Rational)
        ensures
            final(self).model() == (Cam { aspect: aspect@, ..old(self).model() }),
    {
        self.aspect = aspect;
    }

    /// The camera's near plane.
    pub fn near(&self) -> (r: Rational)
        ensures
            r@ == self.model().near,
    {
        self.near
    }

    /// Changes the camera's near plane.
    pub fn update_near(&mut self, near: Rational)
        ensures
            final(self).model() == (Cam { near: near@, ..old(self).model() }),
    {
        self.near = near;
    }

    /// The camera's far plane.
    pub fn far(&self) -> (r: Rational)
        ensures
            r@ == self.model().far,
    {
        self.far
    }

    /// Changes the camera's far plane.
    pub fn update_far(&mut self, far: Rational)
        ensures
            final(self).model() == (Cam { far: far@, ..old(self).model() }),
    {
        self.far = far;
    }

    /// The camera's view matrix: the translation to its position composed
    /// with its rotation.
    pub fn view(&self) -> (r: Matrix4)
        requires
            self.model().position.bounded(LIMIT_TRIG as int),
            self.model().rotation.bounded(LIMIT_TRIG as int),
        ensures
            r@ == self.model().view_matrix(),
            r@.wf(),
    {
        let (px, py, pz) = self.position.to_vector().decompose();
        let tr = translation(px, py, pz);
        let rot = self.rotation.rotation_matrix();
        proof {
            let q = self.model().rotation;
            let m = LIMIT_TRIG as int;
            lemma_mul_fits(q.w, q.w, m, m);
            lemma_mul_fits(q.x, q.x, m, m);
            lemma_mul_fits(q.y, q.y, m, m);
            lemma_mul_fits(q.z, q.z, m, m);
            lemma_mul_fits(q.x, q.y, m, m);
            lemma_mul_fits(q.w, q.z, m, m);
            lemma_mul_fits(q.x, q.z, m, m);
            lemma_mul_fits(q.w, q.y, m, m);
            lemma_mul_fits(q.y, q.z, m, m);
            lemma_mul_fits(q.w, q.x, m, m);
            lemma_mul_fits(q.d, q.d, m, m);
        }
        let rot4 = Matrix4::embed_rotation(&rot);
        tr.product(rot4)
    }

    /// The camera's projection matrix. `inv_tan_half_fov` is the
    /// reciprocal of the tangent of half the field of view, which the
    /// host computes in floating point from the stored `fov`.
    pub fn projection(&self, inv_tan_half_fov: Rational) -> (r: Matrix4)
        requires
            inv_tan_half_fov@.bounded(LIMIT_PROJ as int),
            self.model().aspect.bounded(LIMIT_PROJ as int),
            self.model().near.bounded(LIMIT_PROJ as int),
            self.model().far.bounded(LIMIT_PROJ as int),
            self.model().aspect.n != 0,
            !self.model().near.eqv(self.model().far),
        ensures
            r@ == projection_matrix(
                inv_tan_half_fov@,
                self.model().aspect,
                self.model().near,
                self.model().far,
            ),
            r@.wf(),
    {
        projection(inv_tan_half_fov, self.aspect, self.near, self.far)
    }
}

} // verus!
