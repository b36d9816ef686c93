use vstd::prelude::*;

use crate::matrix::Vector3;
use crate::rat::Rat;
use crate::render_object::{RenderObject, Vertex};

verus! {

/// The grey used for the built-in meshes: one fifth on each channel.
pub open spec fn mesh_grey() -> Vector3 {
    Vector3 {
        x: Rat { num: 1, den: 5 },
        y: Rat { num: 1, den: 5 },
        z: Rat { num: 1, den: 5 },
    }
}

/// A unit-square corner: coordinates are halves, so `nx` and `ny` pick the
/// corner as plus or minus one.
pub open spec fn corner(nx: i128, ny: i128) -> Vertex {
    Vertex {
        vertex_position: Vector3 {
            x: Rat { num: nx, den: 2 },
            y: Rat { num: ny, den: 2 },
            z: Rat { num: 0, den: 1 },
        },
        vertex_color: mesh_grey(),
    }
}

pub open spec fn vertices_spec() -> Seq<Vertex> {
    seq![corner(-1i128, 1i128), corner(1i128, 1i128), corner(1i128, -1i128), corner(-1i128, -1i128)]
}

pub open spec fn indices_spec() -> Seq<u16> {
    seq![0u16, 1u16, 2u16, 0u16, 2u16, 3u16]
}

fn make_corner(nx: i128, ny: i128) -> (v: Vertex)
    requires
        nx == -1 || nx == 1,
        ny == -1 || ny == 1,
    ensures
        v == corner(nx, ny),
        v.wf(),
{
    Vertex {
        vertex_position: Vector3 {
            x: Rat { num: nx, den: 2 },
            y: Rat { num: ny, den: 2 },
            z: Rat { num: 0, den: 1 },
        },
        vertex_color: Vector3 {
            x: Rat { num: 1, den: 5 },
            y: Rat { num: 1, den: 5 },
            z: Rat { num: 1, den: 5 },
        },
    }
}

fn vertices() -> (v: Vec<Vertex>)
    ensures
        v@ == vertices_spec(),
{
    let mut v: Vec<Vertex> = Vec::new();
    v.push(make_corner(-1i128, 1i128));
    v.push(make_corner(1i128, 1i128));
    v.push(make_corner(1i128, -1i128));
    v.push(make_corner(-1i128, -1i128));
    proof {
        assert(v@ =~= vertices_spec());
    }
    v
}

fn indices() -> (v: Vec<u16>)
    ensures
        v@ == indices_spec(),
{
    let mut v: Vec<u16> = Vec::new();
    v.push(0);
    v.push(1);
    v.push(2);
    v.push(0);
    v.push(2);
    v.push(3);
    proof {
        assert(v@ =~= indices_spec());
    }
    v
}

/// The built-in square mesh, with no instances attached yet.
pub fn square() -> (r: RenderObject)
    ensures
        r.transforms@ == Seq::<usize>::empty(),
        r.vertices@ == vertices_spec(),
        r.indices@ == indices_spec(),
        r.wf(),
{
    let r = RenderObject { transforms: Vec::new(), vertices: vertices(), indices: indices() };
    proof {
        assert forall|k: int| 0 <= k < r.indices@.len() implies r.indices@[k]
            < r.vertices@.len() by {
            assert(r.indices@.len() == 6);
            assert(r.vertices@.len() == 4);
        }
        assert forall|k: int| 0 <= k < r.vertices@.len() implies (#[trigger] r.vertices@[k]).wf()
            by {
            assert(r.vertices@.len() == 4);
        }
    }
    r
}

} // verus!
