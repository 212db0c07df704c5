//! The mesh as the draw call sees it: how many vertices there are and which
//! of them each triangle joins.

use vstd::prelude::*;
use crate::layout::VERTEX_STRIDE;

verus! {

/// The number of bytes one index takes in the index buffer.
pub const INDEX_BYTES: u64 = 4;

/// Why a list of indices is no mesh.
#[derive(Clone, Copy, Debug, PartialEq, Eq, Structural)]
pub enum MeshError {
    /// There are more indices than one draw call can count.
    TooManyIndices,
    /// The number of indices is no multiple of three.
    IncompleteTriangle,
    /// The index at `position` names no vertex.
    IndexOutOfRange { position: usize, index: u32 },
}

/// Whether `indices` describe triangles over `vertex_count` vertices: their
/// number fits a draw call and is a multiple of three, and each names a
/// vertex.
pub open spec fn well_formed(vertex_count: nat, indices: Seq<u32>) -> bool {
    &&& indices.len() <= u32::MAX
    &&& indices.len() % 3 == 0
    &&& forall|i: int| 0 <= i < indices.len() ==> (#[trigger] indices[i]) < vertex_count
}

/// Whether `position` is the first place in `indices` that names no vertex.
pub open spec fn first_out_of_range(vertex_count: nat, indices: Seq<u32>, position: int) -> bool {
    &&& 0 <= position < indices.len()
    &&& indices[position] >= vertex_count
    &&& forall|i: int| 0 <= i < position ==> (#[trigger] indices[i]) < vertex_count
}

/// A triangle mesh: the number of its vertices and its index list. It is
/// never changed once made.
#[derive(Debug)]
pub struct Mesh {
    vertex_count: u32,
    indices: Vec<u32>,
}

impl Mesh {
    #[verifier::type_invariant]
    spec fn checked(self) -> bool {
        well_formed(self.vertex_count as nat, self.indices@)
    }

    /// The number of vertices.
    pub closed spec fn vertices(self) -> nat {
        self.vertex_count as nat
    }

    /// The indices, three to a triangle.
    pub closed spec fn indices(self) -> Seq<u32> {
        self.indices@
    }

    /// Makes a mesh of `vertex_count` vertices and the triangles `indices`,
    /// or says what is wrong with them. Of several faults the first in the
    /// order of `MeshError` is reported.
    pub fn new(vertex_count: u32, indices: Vec<u32>) -> (result: Result<Mesh, MeshError>)
        ensures
            match result {
                Ok(mesh) => {
                    &&& well_formed(vertex_count as nat, indices@)
                    &&& mesh.vertices() == vertex_count
                    &&& mesh.indices() == indices@
                },
                Err(MeshError::TooManyIndices) => indices.len() > u32::MAX,
                Err(MeshError::IncompleteTriangle) => {
                    &&& indices.len() <= u32::MAX
                    &&& indices.len() % 3 != 0
                },
                Err(MeshError::IndexOutOfRange { position, index }) => {
                    &&& indices.len() <= u32::MAX
                    &&& indices.len() % 3 == 0
                    &&& first_out_of_range(vertex_count as nat, indices@, position as int)
                    &&& index == indices[position as int]
                },
            },
    {
        if indices.len() > 0xffff_ffff {
            return Err(MeshError::TooManyIndices);
        }
        if indices.len() % 3 != 0 {
            return Err(MeshError::IncompleteTriangle);
        }
        let mut position: usize = 0;
        while position < indices.len()
            invariant
                position <= indices.len() <= u32::MAX,
                indices.len() % 3 == 0,
                forall|i: int| 0 <= i < position ==> (#[trigger] indices[i]) < vertex_count,
            decreases indices.len() - position,
        {
            let index: u32 = indices[position];
            if index >= vertex_count {
                return Err(MeshError::IndexOutOfRange { position, index });
            }
            position += 1;
        }
        Ok(Mesh { vertex_count, indices })
    }

    /// The number of vertices.
    pub fn vertex_count(&self) -> (count: u32)
        ensures
            count == self.vertices(),
    {
        self.vertex_count
    }

    /// The number of indices one draw call covers.
    pub fn index_count(&self) -> (count: u32)
        ensures
            count == self.indices().len(),
            count % 3 == 0,
    {
        proof {
            use_type_invariant(self);
        }
        self.indices.len() as u32
    }

    /// The number of triangles.
    pub fn triangle_count(&self) -> (count: u32)
        ensures
            3 * count == self.indices().len(),
    {
        proof {
            use_type_invariant(self);
        }
        (self.indices.len() / 3) as u32
    }

    /// The indices, three to a triangle, each less than the vertex count.
    pub fn index_list(&self) -> (list: &Vec<u32>)
        ensures
            list@ == self.indices(),
            well_formed(self.vertices(), list@),
    {
        proof {
            use_type_invariant(self);
        }
        &self.indices
    }

    /// The size of the vertex buffer in bytes.
    pub fn vertex_buffer_size(&self) -> (size: u64)
        ensures
            size == VERTEX_STRIDE * self.vertices(),
    {
        VERTEX_STRIDE * (self.vertex_count as u64)
    }

    /// The size of the index buffer in bytes.
    pub fn index_buffer_size(&self) -> (size: u64)
        ensures
            size == INDEX_BYTES * self.indices().len(),
    {
        proof {
            use_type_invariant(self);
        }
        INDEX_BYTES * (self.indices.len() as u64)
    }
}

} // verus!
