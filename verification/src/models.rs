use vstd::prelude::*;

use crate::render_object::RenderObject;

pub mod cube;
pub mod square;

verus! {

/// The built-in square mesh.
pub fn square() -> (r: RenderObject)
    ensures
        r.transforms@ == Seq::<usize>::empty(),
        r.vertices@ == crate::models::square::vertices_spec(),
        r.indices@ == crate::models::square::indices_spec(),
        r.wf(),
{
    crate::models::square::square()
}

/// The built-in cube mesh.
pub fn cube() -> (r: RenderObject)
    ensures
        r.transforms@ == Seq::<usize>::empty(),
        r.vertices@ == crate::models::cube::vertices_spec(),
        r.indices@ == crate::models::cube::indices_spec(),
        r.wf(),
{
    crate::models::cube::cube()
}

} // verus!
