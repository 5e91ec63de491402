use crate::mesh::MeshView;
use crate::semantic_class::CityObjectClass;
use vstd::prelude::*;

verus! {

/// Where a piece of geometry comes from.
#[derive(Clone, Debug)]
pub struct SourceIds {
    pub building_id: String,
    /// The semantic surface (wall, roof, ...) that the polygon bounds.
    pub surface_id: String,
    pub multi_surface_id: String,
    pub polygon_id: String,
    pub semantic_class: CityObjectClass,
}

/// Why a vertex list and an index list do not make a mesh.
#[derive(Clone, Copy, Debug, PartialEq, Eq, Structural)]
pub enum FragmentError {
    /// The number of indices is not a multiple of three.
    NotTriangles,
    /// The indices come in triples, but one of them names no vertex.
    IndexOutOfRange,
}

/// The indices of a list, as mathematical integers.
pub open spec fn index_values(indices: Seq<u32>) -> Seq<int> {
    indices.map_values(|i: u32| i as int)
}

/// The mesh that a vertex list and an index list stand for.
pub open spec fn mesh_of<P>(vertices: Seq<P>, indices: Seq<u32>) -> MeshView<P> {
    MeshView { vertices, indices: index_values(indices) }
}

/// Whether every index of the list is below `vertex_count`.
pub fn indices_in_range(indices: &Vec<u32>, vertex_count: usize) -> (ok: bool)
    ensures
        ok <==> forall|i: int| 0 <= i < indices@.len() ==> (#[trigger] indices@[i]) < vertex_count,
{
    let mut i: usize = 0;
    while i < indices.len()
        invariant
            i <= indices@.len(),
            forall|j: int| 0 <= j < i ==> (#[trigger] indices@[j]) < vertex_count,
        decreases indices@.len() - i,
    {
        if indices[i] as usize >= vertex_count {
            return false;
        }
        i += 1;
    }
    true
}

/// The triangulation of one polygon: its vertices, and triangles over them
/// given by indices that count from zero within this fragment.
#[derive(Debug)]
pub struct TriangulatedFragment<P> {
    vertices: Vec<P>,
    triangle_indices: Vec<u32>,
    source: SourceIds,
}

impl<P> TriangulatedFragment<P> {
    #[verifier::type_invariant]
    spec fn inv(self) -> bool {
        mesh_of(self.vertices@, self.triangle_indices@).wf()
    }

    /// The fragment's mesh.
    pub closed spec fn mesh(self) -> MeshView<P> {
        mesh_of(self.vertices@, self.triangle_indices@)
    }

    /// The fragment's indices as they are stored.
    pub closed spec fn stored_indices(self) -> Seq<u32> {
        self.triangle_indices@
    }

    /// Where the fragment comes from.
    pub closed spec fn origin(self) -> SourceIds {
        self.source
    }

    /// Makes a fragment of the output of a triangulation, after checking that
    /// the indices come in triples and that each of them names a vertex.
    pub fn new(vertices: Vec<P>, triangle_indices: Vec<u32>, source: SourceIds) -> (made: Result<
        Self,
        FragmentError,
    >)
        ensures
            match made {
                Ok(fragment) => {
                    &&& mesh_of(vertices@, triangle_indices@).wf()
                    &&& fragment.mesh() == mesh_of(vertices@, triangle_indices@)
                    &&& fragment.stored_indices() == triangle_indices@
                    &&& fragment.origin() == source
                },
                Err(FragmentError::NotTriangles) => triangle_indices@.len() % 3 != 0,
                Err(FragmentError::IndexOutOfRange) => {
                    &&& triangle_indices@.len() % 3 == 0
                    &&& exists|i: int|
                        0 <= i < triangle_indices@.len() && (#[trigger] triangle_indices@[i])
                            >= vertices@.len()
                },
            },
    {
        if triangle_indices.len() % 3 != 0 {
            return Err(FragmentError::NotTriangles);
        }
        if !indices_in_range(&triangle_indices, vertices.len()) {
            return Err(FragmentError::IndexOutOfRange);
        }
        Ok(TriangulatedFragment { vertices, triangle_indices, source })
    }

    /// The vertices.
    pub fn vertices(&self) -> (vertices: &Vec<P>)
        ensures
            vertices@ == self.mesh().vertices,
            self.mesh().wf(),
    {
        proof {
            use_type_invariant(self);
        }
        &self.vertices
    }

    /// The indices, three for each triangle, each below the number of
    /// vertices.
    pub fn triangle_indices(&self) -> (indices: &Vec<u32>)
        ensures
            indices@ == self.stored_indices(),
            index_values(indices@) == self.mesh().indices,
            self.mesh().wf(),
    {
        proof {
            use_type_invariant(self);
        }
        &self.triangle_indices
    }

    /// Where the fragment comes from.
    pub fn source(&self) -> (source: &SourceIds)
        ensures
            *source == self.origin(),
            self.mesh().wf(),
    {
        proof {
            use_type_invariant(self);
        }
        &self.source
    }

    /// The number of triangles.
    pub fn triangle_count(&self) -> (count: usize)
        ensures
            count == self.mesh().triangle_count(),
    {
        self.triangle_indices.len() / 3
    }

    /// Takes the fragment apart into vertices, indices and origin.
    pub fn into_parts(self) -> (parts: (Vec<P>, Vec<u32>, SourceIds))
        ensures
            mesh_of(parts.0@, parts.1@) == self.mesh(),
            parts.1@ == self.stored_indices(),
            parts.2 == self.origin(),
            self.mesh().wf(),
    {
        proof {
            use_type_invariant(&self);
        }
        (self.vertices, self.triangle_indices, self.source)
    }
}

} // verus!
