use vstd::prelude::*;

use crate::matrix::{Mat4Model, Matrix4, Vec4Model, Vector4};
use crate::rat::{rat_one, rat_zero, Rat, RatModel};
use crate::transform::{view_matrix_model, Transform};

verus! {

/// The camera: a transform whose inverse matrix serves as the view transform
/// of the render pass.
#[derive(Clone, Copy, PartialEq, Eq, Structural, Debug)]
pub struct Camera {
    pub transform: Transform,
}

/// The perspective projection for a given aspect ratio, with the field of
/// view fixed at a quarter turn, the near plane at one tenth and the far
/// plane at 1024. With that field of view the focal factor is exactly one,
/// so every entry is an exact rational:
/// `(far + near) / (near - far) = -10241/10239` and
/// `2 * far * near / (near - far) = -2048/10239`.
pub open spec fn perspective_model(aspect: RatModel) -> Mat4Model {
    Mat4Model {
        c0: Vec4Model { x: aspect.recip(), y: rat_zero(), z: rat_zero(), w: rat_zero() },
        c1: Vec4Model { x: rat_zero(), y: rat_one(), z: rat_zero(), w: rat_zero() },
        c2: Vec4Model {
            x: rat_zero(),
            y: rat_zero(),
            z: RatModel { num: -10241, den: 10239 },
            w: RatModel { num: -1, den: 1 },
        },
        c3: Vec4Model {
            x: rat_zero(),
            y: rat_zero(),
            z: RatModel { num: -2048, den: 10239 },
            w: rat_zero(),
        },
    }
}

impl Camera {
    /// The view matrix of the camera's transform.
    pub fn view_transform(&self) -> (m: Matrix4)
        requires
            self.transform.wf(),
            self.transform.scale_nonzero(),
        ensures
            m@ == view_matrix_model(self.transform),
            m.wf(),
    {
        self.transform.as_view_matrix()
    }

    /// The perspective projection matrix. A degenerate aspect ratio (zero
    /// width or height) must be rejected by the caller.
    pub fn perspective_transform(&self, aspect_ratio: Rat) -> (m: Matrix4)
        requires
            aspect_ratio.wf(),
            !aspect_ratio@.is_zero(),
        ensures
            m@ == perspective_model(aspect_ratio@),
            m.wf(),
    {
        Matrix4 {
            c0: Vector4 {
                x: aspect_ratio.recip(),
                y: Rat { num: 0, den: 1 },
                z: Rat { num: 0, den: 1 },
                w: Rat { num: 0, den: 1 },
            },
            c1: Vector4 {
                x: Rat { num: 0, den: 1 },
                y: Rat { num: 1, den: 1 },
                z: Rat { num: 0, den: 1 },
                w: Rat { num: 0, den: 1 },
            },
            c2: Vector4 {
                x: Rat { num: 0, den: 1 },
                y: Rat { num: 0, den: 1 },
                z: Rat { num: -10241, den: 10239 },
                w: Rat { num: -1, den: 1 },
            },
            c3: Vector4 {
                x: Rat { num: 0, den: 1 },
                y: Rat { num: 0, den: 1 },
                z: Rat { num: -2048, den: 10239 },
                w: Rat { num: 0, den: 1 },
            },
        }
    }
}

} // verus!
