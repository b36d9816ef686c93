use vstd::prelude::*;

use crate::rat::{Rat, RatModel};

verus! {

/// Mathematical value of a three-component vector.
pub ghost struct Vec3Model {
    pub x: RatModel,
    pub y: RatModel,
    pub z: RatModel,
}

impl Vec3Model {
    pub open spec fn wf(self) -> bool {
        self.x.wf() && self.y.wf() && self.z.wf()
    }

    /// Componentwise rational equality.
    pub open spec fn eqv(self, other: Vec3Model) -> bool {
        self.x.eqv(other.x) && self.y.eqv(other.y) && self.z.eqv(other.z)
    }
}

/// Mathematical value of a matrix column.
pub ghost struct Vec4Model {
    pub x: RatModel,
    pub y: RatModel,
    pub z: RatModel,
    pub w: RatModel,
}

impl Vec4Model {
    pub open spec fn wf(self) -> bool {
        self.x.wf() && self.y.wf() && self.z.wf() && self.w.wf()
    }
}

/// Mathematical value of a column-major four-by-four matrix.
pub ghost struct Mat4Model {
    pub c0: Vec4Model,
    pub c1: Vec4Model,
    pub c2: Vec4Model,
    pub c3: Vec4Model,
}

impl Mat4Model {
    pub open spec fn wf(self) -> bool {
        self.c0.wf() && self.c1.wf() && self.c2.wf() && self.c3.wf()
    }

    /// Apply the matrix to a point with an implicit fourth component of one,
    /// yielding the first three components of the product.
    pub open spec fn apply_affine(self, p: Vec3Model) -> Vec3Model {
        Vec3Model {
            x: self.c0.x.mul(p.x).add(self.c1.x.mul(p.y)).add(self.c2.x.mul(p.z)).add(self.c3.x),
            y: self.c0.y.mul(p.x).add(self.c1.y.mul(p.y)).add(self.c2.y.mul(p.z)).add(self.c3.y),
            z: self.c0.z.mul(p.x).add(self.c1.z.mul(p.y)).add(self.c2.z.mul(p.z)).add(self.c3.z),
        }
    }
}

/// A three-component vector of rational scalars.
#[derive(Clone, Copy, PartialEq, Eq, Structural, Debug)]
pub struct Vector3 {
    pub x: Rat,
    pub y: Rat,
    pub z: Rat,
}

impl View for Vector3 {
    type V = Vec3Model;

    open spec fn view(&self) -> Vec3Model {
        Vec3Model { x: self.x@, y: self.y@, z: self.z@ }
    }
}

impl Vector3 {
    pub open spec fn wf(self) -> bool {
        self.x.wf() && self.y.wf() && self.z.wf()
    }

    pub fn new(x: Rat, y: Rat, z: Rat) -> (v: Vector3)
        ensures
            v == (Vector3 { x, y, z }),
    {
        Vector3 { x, y, z }
    }
}

/// One column of a four-by-four matrix.
#[derive(Clone, Copy, PartialEq, Eq, Structural, Debug)]
pub struct Vector4 {
    pub x: Rat,
    pub y: Rat,
    pub z: Rat,
    pub w: Rat,
}

impl View for Vector4 {
    type V = Vec4Model;

    open spec fn view(&self) -> Vec4Model {
        Vec4Model { x: self.x@, y: self.y@, z: self.z@, w: self.w@ }
    }
}

impl Vector4 {
    pub open spec fn wf(self) -> bool {
        self.x.wf() && self.y.wf() && self.z.wf() && self.w.wf()
    }
}

/// A column-major four-by-four matrix of rational scalars: `c0` through `c3`
/// are the columns, so a translation sits in `c3`.
#[derive(Clone, Copy, PartialEq, Eq, Structural, Debug)]
pub struct Matrix4 {
    pub c0: Vector4,
    pub c1: Vector4,
    pub c2: Vector4,
    pub c3: Vector4,
}

impl View for Matrix4 {
    type V = Mat4Model;

    open spec fn view(&self) -> Mat4Model {
        Mat4Model { c0: self.c0@, c1: self.c1@, c2: self.c2@, c3: self.c3@ }
    }
}

impl Matrix4 {
    pub open spec fn wf(self) -> bool {
        self.c0.wf() && self.c1.wf() && self.c2.wf() && self.c3.wf()
    }
}

} // verus!
