use vstd::prelude::*;

use crate::matrix::{Mat4Model, Matrix4, Vec3Model, Vec4Model, Vector3, Vector4};
use crate::rat::{
    add_fits, lemma_add_congr_left, lemma_add_wf, lemma_add_zero, lemma_add_zero_left,
    lemma_eqv_trans, lemma_mul_congr_right, lemma_mul_wf, lemma_recip_wf,
    lemma_scale_translate_roundtrip, lemma_zero_mul, rat_one, rat_zero, Rat, RatModel,
};

verus! {

/// A spatial record: position, rotation and scale, with a visibility flag.
/// Rotation is stored but not yet incorporated into the derived matrices;
/// it is reserved for a later feature set.
#[derive(Clone, Copy, PartialEq, Eq, Structural, Debug)]
pub struct Transform {
    pub position: Vector3,
    pub rotation: Vector3,
    pub scale: Vector3,
    pub visible: bool,
}

/// The model matrix of a transform: scale on the diagonal, position in the
/// translation column.
pub open spec fn model_matrix_rats(t: Transform) -> Matrix4 {
    Matrix4 {
        c0: Vector4 {
            x: t.scale.x,
            y: Rat { num: 0, den: 1 },
            z: Rat { num: 0, den: 1 },
            w: Rat { num: 0, den: 1 },
        },
        c1: Vector4 {
            x: Rat { num: 0, den: 1 },
            y: t.scale.y,
            z: Rat { num: 0, den: 1 },
            w: Rat { num: 0, den: 1 },
        },
        c2: Vector4 {
            x: Rat { num: 0, den: 1 },
            y: Rat { num: 0, den: 1 },
            z: t.scale.z,
            w: Rat { num: 0, den: 1 },
        },
        c3: Vector4 { x: t.position.x, y: t.position.y, z: t.position.z, w: Rat { num: 1, den: 1 } },
    }
}

pub open spec fn model_matrix_model(t: Transform) -> Mat4Model {
    model_matrix_rats(t)@
}

/// The view matrix of a transform: reciprocal scale on the diagonal, negated
/// position in the translation column.
pub open spec fn view_matrix_model(t: Transform) -> Mat4Model {
    Mat4Model {
        c0: Vec4Model {
            x: t.scale.x@.recip(),
            y: rat_zero(),
            z: rat_zero(),
            w: rat_zero(),
        },
        c1: Vec4Model {
            x: rat_zero(),
            y: t.scale.y@.recip(),
            z: rat_zero(),
            w: rat_zero(),
        },
        c2: Vec4Model {
            x: rat_zero(),
            y: rat_zero(),
            z: t.scale.z@.recip(),
            w: rat_zero(),
        },
        c3: Vec4Model {
            x: t.position.x@.neg(),
            y: t.position.y@.neg(),
            z: t.position.z@.neg(),
            w: rat_one(),
        },
    }
}

impl Transform {
    pub open spec fn wf(self) -> bool {
        self.position.wf() && self.rotation.wf() && self.scale.wf()
    }

    /// Every scale component is nonzero, so a view matrix can be derived.
    pub open spec fn scale_nonzero(self) -> bool {
        !self.scale.x@.is_zero() && !self.scale.y@.is_zero() && !self.scale.z@.is_zero()
    }

    pub fn new(
        position_x: Rat,
        position_y: Rat,
        position_z: Rat,
        rotation_x: Rat,
        rotation_y: Rat,
        rotation_z: Rat,
        scale_x: Rat,
        scale_y: Rat,
        scale_z: Rat,
        visible: bool,
    ) -> (t: Transform)
        requires
            position_x.wf(),
            position_y.wf(),
            position_z.wf(),
            rotation_x.wf(),
            rotation_y.wf(),
            rotation_z.wf(),
            scale_x.wf(),
            scale_y.wf(),
            scale_z.wf(),
        ensures
            t == (Transform {
                position: Vector3 { x: position_x, y: position_y, z: position_z },
                rotation: Vector3 { x: rotation_x, y: rotation_y, z: rotation_z },
                scale: Vector3 { x: scale_x, y: scale_y, z: scale_z },
                visible,
            }),
            t.wf(),
    {
        Transform {
            position: Vector3 { x: position_x, y: position_y, z: position_z },
            rotation: Vector3 { x: rotation_x, y: rotation_y, z: rotation_z },
            scale: Vector3 { x: scale_x, y: scale_y, z: scale_z },
            visible,
        }
    }

    /// Add the given delta to the position; every other field is kept.
    pub fn translate(&mut self, x: Rat, y: Rat, z: Rat)
        requires
            old(self).wf(),
            x.wf(),
            y.wf(),
            z.wf(),
            add_fits(old(self).position.x, x),
            add_fits(old(self).position.y, y),
            add_fits(old(self).position.z, z),
        ensures
            final(self).position.x@ == old(self).position.x@.add(x@),
            final(self).position.y@ == old(self).position.y@.add(y@),
            final(self).position.z@ == old(self).position.z@.add(z@),
            final(self).rotation == old(self).rotation,
            final(self).scale == old(self).scale,
            final(self).visible == old(self).visible,
            final(self).wf(),
    {
        self.position = Vector3 {
            x: self.position.x.add(x),
            y: self.position.y.add(y),
            z: self.position.z.add(z),
        };
    }

    /// The matrix placing an instance of this transform in world space.
    pub fn as_matrix(&self) -> (m: Matrix4)
        requires
            self.wf(),
        ensures
            m == model_matrix_rats(*self),
            m@ == model_matrix_model(*self),
            m.wf(),
    {
        Matrix4 {
            c0: Vector4 {
                x: self.scale.x,
                y: Rat { num: 0, den: 1 },
                z: Rat { num: 0, den: 1 },
                w: Rat { num: 0, den: 1 },
            },
            c1: Vector4 {
                x: Rat { num: 0, den: 1 },
                y: self.scale.y,
                z: Rat { num: 0, den: 1 },
                w: Rat { num: 0, den: 1 },
            },
            c2: Vector4 {
                x: Rat { num: 0, den: 1 },
                y: Rat { num: 0, den: 1 },
                z: self.scale.z,
                w: Rat { num: 0, den: 1 },
            },
            c3: Vector4 {
                x: self.position.x,
                y: self.position.y,
                z: self.position.z,
                w: Rat { num: 1, den: 1 },
            },
        }
    }

    /// The inverse convention, used when this transform serves as a camera:
    /// reciprocal scale, negated position.
    pub fn as_view_matrix(&self) -> (m: Matrix4)
        requires
            self.wf(),
            self.scale_nonzero(),
        ensures
            m@ == view_matrix_model(*self),
            m.wf(),
    {
        Matrix4 {
            c0: Vector4 {
                x: self.scale.x.recip(),
                y: Rat { num: 0, den: 1 },
                z: Rat { num: 0, den: 1 },
                w: Rat { num: 0, den: 1 },
            },
            c1: Vector4 {
                x: Rat { num: 0, den: 1 },
                y: self.scale.y.recip(),
                z: Rat { num: 0, den: 1 },
                w: Rat { num: 0, den: 1 },
            },
            c2: Vector4 {
                x: Rat { num: 0, den: 1 },
                y: Rat { num: 0, den: 1 },
                z: self.scale.z.recip(),
                w: Rat { num: 0, den: 1 },
            },
            c3: Vector4 {
                x: self.position.x.neg(),
                y: self.position.y.neg(),
                z: self.position.z.neg(),
                w: Rat { num: 1, den: 1 },
            },
        }
    }
}

/// The engine's shared spatial state: every transform lives here, and is
/// identified by the index at which it was added. Behaviours and render
/// objects refer to transforms through those indices, never through aliased
/// references.
pub struct TransformStore {
    transforms: Vec<Transform>,
}

impl View for TransformStore {
    type V = Seq<Transform>;

    closed spec fn view(&self) -> Seq<Transform> {
        self.transforms@
    }
}

impl TransformStore {
    /// Every transform held is well-formed.
    pub open spec fn all_wf(self) -> bool {
        forall|i: int| 0 <= i < self@.len() ==> (#[trigger] self@[i]).wf()
    }

    pub fn new() -> (store: TransformStore)
        ensures
            store@ == Seq::<Transform>::empty(),
            store.all_wf(),
    {
        TransformStore { transforms: Vec::new() }
    }

    pub fn len(&self) -> (n: usize)
        ensures
            n == self@.len(),
    {
        self.transforms.len()
    }

    /// Store a transform and hand back its identifier.
    pub fn add(&mut self, t: Transform) -> (id: usize)
        requires
            t.wf(),
            old(self).all_wf(),
        ensures
            id == old(self)@.len(),
            final(self)@ == old(self)@.push(t),
            final(self).all_wf(),
    {
        let id = self.transforms.len();
        self.transforms.push(t);
        id
    }

    pub fn get(&self, id: usize) -> (t: &Transform)
        requires
            id < self@.len(),
        ensures
            *t == self@[id as int],
    {
        &self.transforms[id]
    }

    /// Replace the transform under `id`.
    pub fn set(&mut self, id: usize, t: Transform)
        requires
            id < old(self)@.len(),
            t.wf(),
            old(self).all_wf(),
        ensures
            final(self)@ == old(self)@.update(id as int, t),
            final(self).all_wf(),
    {
        self.transforms[id] = t;
    }
}

proof fn lemma_pad_first(a: RatModel, z1: RatModel, z2: RatModel, t: RatModel)
    requires
        a.wf(),
        z1.wf(),
        z2.wf(),
        t.wf(),
        z1.is_zero(),
        z2.is_zero(),
    ensures
        a.add(z1).add(z2).add(t).eqv(a.add(t)),
        a.add(z1).add(z2).add(t).wf(),
{
    lemma_add_zero(a, z1);
    lemma_add_wf(a, z1);
    lemma_add_zero(a.add(z1), z2);
    lemma_add_wf(a.add(z1), z2);
    lemma_eqv_trans(a.add(z1).add(z2), a.add(z1), a);
    lemma_add_congr_left(a.add(z1).add(z2), a, t);
    lemma_add_wf(a.add(z1).add(z2), t);
}

proof fn lemma_pad_mid(z1: RatModel, a: RatModel, z2: RatModel, t: RatModel)
    requires
        a.wf(),
        z1.wf(),
        z2.wf(),
        t.wf(),
        z1.is_zero(),
        z2.is_zero(),
    ensures
        z1.add(a).add(z2).add(t).eqv(a.add(t)),
        z1.add(a).add(z2).add(t).wf(),
{
    lemma_add_zero_left(z1, a);
    lemma_add_wf(z1, a);
    lemma_add_zero(z1.add(a), z2);
    lemma_add_wf(z1.add(a), z2);
    lemma_eqv_trans(z1.add(a).add(z2), z1.add(a), a);
    lemma_add_congr_left(z1.add(a).add(z2), a, t);
    lemma_add_wf(z1.add(a).add(z2), t);
}

proof fn lemma_pad_last(z1: RatModel, z2: RatModel, a: RatModel, t: RatModel)
    requires
        a.wf(),
        z1.wf(),
        z2.wf(),
        t.wf(),
        z1.is_zero(),
        z2.is_zero(),
    ensures
        z1.add(z2).add(a).add(t).eqv(a.add(t)),
        z1.add(z2).add(a).add(t).wf(),
{
    lemma_add_wf(z1, z2);
    lemma_add_zero_left(z1.add(z2), a);
    lemma_add_wf(z1.add(z2), a);
    lemma_add_congr_left(z1.add(z2).add(a), a, t);
    lemma_add_wf(z1.add(z2).add(a), t);
}

proof fn lemma_axis_finish(s: RatModel, tr: RatModel, p_ax: RatModel, q_ax: RatModel, r_ax: RatModel)
    requires
        s.wf(),
        tr.wf(),
        p_ax.wf(),
        q_ax.wf(),
        r_ax.wf(),
        !s.is_zero(),
        tr.is_zero() || s.is_one(),
        q_ax.eqv(s.mul(p_ax).add(tr)),
        r_ax.eqv(s.recip().mul(q_ax).add(tr.neg())),
    ensures
        r_ax.eqv(p_ax),
{
    let core = s.mul(p_ax).add(tr);
    lemma_mul_wf(s, p_ax);
    lemma_add_wf(s.mul(p_ax), tr);
    lemma_recip_wf(s);
    lemma_mul_congr_right(s.recip(), q_ax, core);
    lemma_mul_wf(s.recip(), q_ax);
    lemma_mul_wf(s.recip(), core);
    lemma_add_congr_left(s.recip().mul(q_ax), s.recip().mul(core), tr.neg());
    lemma_add_wf(s.recip().mul(q_ax), tr.neg());
    lemma_add_wf(s.recip().mul(core), tr.neg());
    lemma_scale_translate_roundtrip(p_ax, s, tr);
    lemma_eqv_trans(r_ax, s.recip().mul(q_ax).add(tr.neg()), s.recip().mul(core).add(tr.neg()));
    lemma_eqv_trans(r_ax, s.recip().mul(core).add(tr.neg()), p_ax);
}

/// The model and view matrices are inverse-consistent: applying the view
/// matrix of `t` to a point already transformed by the model matrix of `t`
/// returns the original point. This holds on every axis whose translation
/// is zero or whose scale is one; the scale must be nonzero throughout.
pub proof fn lemma_model_view_inverse(t: Transform, p: Vec3Model)
    requires
        t.wf(),
        p.wf(),
        t.scale_nonzero(),
        t.position.x@.is_zero() || t.scale.x@.is_one(),
        t.position.y@.is_zero() || t.scale.y@.is_one(),
        t.position.z@.is_zero() || t.scale.z@.is_one(),
    ensures
        view_matrix_model(t).apply_affine(model_matrix_model(t).apply_affine(p)).eqv(p),
{
    let sx = t.scale.x@;
    let sy = t.scale.y@;
    let sz = t.scale.z@;
    let tx = t.position.x@;
    let ty = t.position.y@;
    let tz = t.position.z@;
    let q = model_matrix_model(t).apply_affine(p);
    let out = view_matrix_model(t).apply_affine(q);

    // Forward pass: each component of q denotes scale * p + position.
    lemma_mul_wf(sx, p.x);
    lemma_mul_wf(sy, p.y);
    lemma_mul_wf(sz, p.z);
    lemma_zero_mul(p.x);
    lemma_zero_mul(p.y);
    lemma_zero_mul(p.z);
    lemma_pad_first(sx.mul(p.x), rat_zero().mul(p.y), rat_zero().mul(p.z), tx);
    lemma_pad_mid(rat_zero().mul(p.x), sy.mul(p.y), rat_zero().mul(p.z), ty);
    lemma_pad_last(rat_zero().mul(p.x), rat_zero().mul(p.y), sz.mul(p.z), tz);
    assert(q.x.eqv(sx.mul(p.x).add(tx)) && q.x.wf());
    assert(q.y.eqv(sy.mul(p.y).add(ty)) && q.y.wf());
    assert(q.z.eqv(sz.mul(p.z).add(tz)) && q.z.wf());

    // Backward pass: each component of out denotes recip(scale) * q - position.
    lemma_recip_wf(sx);
    lemma_recip_wf(sy);
    lemma_recip_wf(sz);
    lemma_mul_wf(sx.recip(), q.x);
    lemma_mul_wf(sy.recip(), q.y);
    lemma_mul_wf(sz.recip(), q.z);
    lemma_zero_mul(q.x);
    lemma_zero_mul(q.y);
    lemma_zero_mul(q.z);
    lemma_pad_first(sx.recip().mul(q.x), rat_zero().mul(q.y), rat_zero().mul(q.z), tx.neg());
    lemma_pad_mid(rat_zero().mul(q.x), sy.recip().mul(q.y), rat_zero().mul(q.z), ty.neg());
    lemma_pad_last(rat_zero().mul(q.x), rat_zero().mul(q.y), sz.recip().mul(q.z), tz.neg());

    lemma_axis_finish(sx, tx, p.x, q.x, out.x);
    lemma_axis_finish(sy, ty, p.y, q.y, out.y);
    lemma_axis_finish(sz, tz, p.z, q.z, out.z);
}

} // verus!
