use vstd::prelude::*;

use crate::matrix::Vector3;

verus! {

/// One mesh vertex: a position and a colour.
#[derive(Clone, Copy, PartialEq, Eq, Structural, Debug)]
pub struct Vertex {
    pub vertex_position: Vector3,
    pub vertex_color: Vector3,
}

impl Vertex {
    pub open spec fn wf(self) -> bool {
        self.vertex_position.wf() && self.vertex_color.wf()
    }
}

/// Mathematical value of a render object.
pub ghost struct RenderObjectModel {
    pub transforms: Seq<usize>,
    pub vertices: Seq<Vertex>,
    pub indices: Seq<u16>,
}

/// A drawable object: mesh data fixed at construction, plus the growing list
/// of identifiers of the transforms currently instancing the mesh. The GPU
/// upload of the mesh and the compiled shader program are the embedder's
/// concern; this record is the data they are built from.
pub struct RenderObject {
    pub transforms: Vec<usize>,
    pub vertices: Vec<Vertex>,
    pub indices: Vec<u16>,
}

impl View for RenderObject {
    type V = RenderObjectModel;

    open spec fn view(&self) -> RenderObjectModel {
        RenderObjectModel {
            transforms: self.transforms@,
            vertices: self.vertices@,
            indices: self.indices@,
        }
    }
}

impl RenderObject {
    /// Every index points at a vertex of this mesh.
    pub open spec fn indices_ok(self) -> bool {
        forall|k: int| 0 <= k < self.indices@.len() ==> self.indices@[k] < self.vertices@.len()
    }

    /// Every vertex is well-formed.
    pub open spec fn vertices_wf(self) -> bool {
        forall|k: int| 0 <= k < self.vertices@.len() ==> (#[trigger] self.vertices@[k]).wf()
    }

    pub open spec fn wf(self) -> bool {
        self.indices_ok() && self.vertices_wf()
    }
}

} // verus!
