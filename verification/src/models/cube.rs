use vstd::prelude::*;

use crate::matrix::Vector3;
use crate::models::square::mesh_grey;
use crate::rat::Rat;
use crate::render_object::{RenderObject, Vertex};

verus! {

/// A unit-cube corner: coordinates are halves, so each of `nx`, `ny`, `nz`
/// picks the corner as plus or minus one.
pub open spec fn corner(nx: i128, ny: i128, nz: i128) -> Vertex {
    Vertex {
        vertex_position: Vector3 {
            x: Rat { num: nx, den: 2 },
            y: Rat { num: ny, den: 2 },
            z: Rat { num: nz, den: 2 },
        },
        vertex_color: mesh_grey(),
    }
}

/// Corners 0 to 3 lie on the near plane, 4 to 7 on the far plane; each
/// plane is ordered top-left, top-right, bottom-left, bottom-right.
pub open spec fn vertices_spec() -> Seq<Vertex> {
    seq![
        corner(-1i128, 1i128, -1i128),
        corner(1i128, 1i128, -1i128),
        corner(-1i128, -1i128, -1i128),
        corner(1i128, -1i128, -1i128),
        corner(-1i128, 1i128, 1i128),
        corner(1i128, 1i128, 1i128),
        corner(-1i128, -1i128, 1i128),
        corner(1i128, -1i128, 1i128),
    ]
}

/// Two triangles for each of the six faces.
pub open spec fn indices_spec() -> Seq<u16> {
    seq![
        0u16, 1u16, 2u16, 1u16, 3u16, 2u16,
        1u16, 5u16, 3u16, 5u16, 7u16, 3u16,
        5u16, 4u16, 7u16, 4u16, 6u16, 7u16,
        4u16, 0u16, 6u16, 0u16, 2u16, 6u16,
        4u16, 5u16, 0u16, 5u16, 1u16, 0u16,
        2u16, 3u16, 6u16, 3u16, 7u16, 6u16,
    ]
}

fn make_corner(nx: i128, ny: i128, nz: i128) -> (v: Vertex)
    requires
        nx == -1 || nx == 1,
        ny == -1 || ny == 1,
        nz == -1 || nz == 1,
    ensures
        v == corner(nx, ny, nz),
        v.wf(),
{
    Vertex {
        vertex_position: Vector3 {
            x: Rat { num: nx, den: 2 },
            y: Rat { num: ny, den: 2 },
            z: Rat { num: nz, den: 2 },
        },
        vertex_color: Vector3 {
            x: Rat { num: 1, den: 5 },
            y: Rat { num: 1, den: 5 },
            z: Rat { num: 1, den: 5 },
        },
    }
}

fn vertices() -> (v: Vec<Vertex>)
    ensures
        v@ == vertices_spec(),
{
    let mut v: Vec<Vertex> = Vec::new();
    v.push(make_corner(-1i128, 1i128, -1i128));
    v.push(make_corner(1i128, 1i128, -1i128));
    v.push(make_corner(-1i128, -1i128, -1i128));
    v.push(make_corner(1i128, -1i128, -1i128));
    v.push(make_corner(-1i128, 1i128, 1i128));
    v.push(make_corner(1i128, 1i128, 1i128));
    v.push(make_corner(-1i128, -1i128, 1i128));
    v.push(make_corner(1i128, -1i128, 1i128));
    proof {
        assert(v@ =~= vertices_spec());
    }
    v
}

fn push_triangle(v: &mut Vec<u16>, a: u16, b: u16, c: u16)
    ensures
        final(v)@ == old(v)@.push(a).push(b).push(c),
{
    v.push(a);
    v.push(b);
    v.push(c);
}

fn indices() -> (v: Vec<u16>)
    ensures
        v@ == indices_spec(),
{
    let mut v: Vec<u16> = Vec::new();
    push_triangle(&mut v, 0, 1, 2);
    push_triangle(&mut v, 1, 3, 2);
    push_triangle(&mut v, 1, 5, 3);
    push_triangle(&mut v, 5, 7, 3);
    push_triangle(&mut v, 5, 4, 7);
    push_triangle(&mut v, 4, 6, 7);
    push_triangle(&mut v, 4, 0, 6);
    push_triangle(&mut v, 0, 2, 6);
    push_triangle(&mut v, 4, 5, 0);
    push_triangle(&mut v, 5, 1, 0);
    push_triangle(&mut v, 2, 3, 6);
    push_triangle(&mut v, 3, 7, 6);
    proof {
        assert(v@ =~= indices_spec());
    }
    v
}

/// The built-in cube mesh, with no instances attached yet.
pub fn cube() -> (r: RenderObject)
    ensures
        r.transforms@ == Seq::<usize>::empty(),
        r.vertices@ == vertices_spec(),
        r.indices@ == indices_spec(),
        r.wf(),
{
    let r = RenderObject { transforms: Vec::new(), vertices: vertices(), indices: indices() };
    proof {
        assert forall|k: int| 0 <= k < r.indices@.len() implies r.indices@[k]
            < r.vertices@.len() by {
            assert(r.indices@.len() == 36);
            assert(r.vertices@.len() == 8);
        }
        assert forall|k: int| 0 <= k < r.vertices@.len() implies (#[trigger] r.vertices@[k]).wf()
            by {
            assert(r.vertices@.len() == 8);
        }
    }
    r
}

} // verus!
