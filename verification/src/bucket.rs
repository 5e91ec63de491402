use crate::fragment::{index_values, mesh_of, TriangulatedFragment};
use crate::mesh::MeshView;
use vstd::prelude::*;

verus! {

/// The most vertices that one bucket holds: an index is a `u32`.
pub const MAX_BUCKET_VERTICES: usize = 0xffff_ffff;

/// Why a bucket did not take a fragment in.
#[derive(Clone, Copy, Debug, PartialEq, Eq, Structural)]
pub enum AbsorbError {
    /// With the fragment's vertices the bucket would hold more than
    /// `MAX_BUCKET_VERTICES`.
    CapacityExceeded,
}

/// Each index of a list, raised by `offset`.
pub open spec fn shifted(indices: Seq<u32>, offset: nat) -> Seq<int> {
    indices.map_values(|i: u32| i + offset)
}

/// Raises each index of a fragment by the number of vertices that already lie
/// before the fragment's own.
pub fn shift_indices(indices: &Vec<u32>, offset: u32) -> (out: Vec<u32>)
    requires
        forall|i: int| 0 <= i < indices@.len() ==> (#[trigger] indices@[i]) + offset <= u32::MAX,
    ensures
        index_values(out@) == shifted(indices@, offset as nat),
        out@.len() == indices@.len(),
        forall|i: int| 0 <= i < out@.len() ==> (#[trigger] out@[i]) == indices@[i] + offset,
{
    let mut out: Vec<u32> = Vec::with_capacity(indices.len());
    let mut i: usize = 0;
    while i < indices.len()
        invariant
            i <= indices@.len(),
            out@.len() == i,
            forall|j: int| 0 <= j < indices@.len() ==> (#[trigger] indices@[j]) + offset <= u32::MAX,
            forall|j: int| 0 <= j < i ==> (#[trigger] out@[j]) == indices@[j] + offset,
        decreases indices@.len() - i,
    {
        out.push(indices[i] + offset);
        i += 1;
    }
    assert(index_values(out@) =~= shifted(indices@, offset as nat));
    out
}

/// A bucket as a mathematical value: the key by which fragments are routed to
/// it, the class name that it remembers for naming its output, and the mesh
/// gathered so far.
pub struct BucketView<P> {
    pub key: Seq<char>,
    pub class_name: Option<Seq<char>>,
    pub mesh: MeshView<P>,
}

impl<P> BucketView<P> {
    /// The mesh is well formed and within the capacity of a bucket.
    pub open spec fn wf(self) -> bool {
        &&& self.mesh.wf()
        &&& self.mesh.vertices.len() <= MAX_BUCKET_VERTICES
    }
}

/// The text of an optional string.
pub open spec fn text_of(name: Option<String>) -> Option<Seq<char>> {
    match name {
        Some(text) => Some(text@),
        None => None,
    }
}

/// A mesh that grows by taking in fragments, under the key by which
/// fragments are routed to it.
pub struct MeshBucket<P> {
    key: String,
    class_name: Option<String>,
    vertices: Vec<P>,
    triangle_indices: Vec<u32>,
}

impl<P> View for MeshBucket<P> {
    type V = BucketView<P>;

    closed spec fn view(&self) -> BucketView<P> {
        BucketView {
            key: self.key@,
            class_name: text_of(self.class_name),
            mesh: mesh_of(self.vertices@, self.triangle_indices@),
        }
    }
}

impl<P> MeshBucket<P> {
    #[verifier::type_invariant]
    spec fn inv(self) -> bool {
        &&& mesh_of(self.vertices@, self.triangle_indices@).wf()
        &&& self.vertices@.len() <= MAX_BUCKET_VERTICES
    }

    /// The indices as they are stored.
    pub closed spec fn stored_indices(self) -> Seq<u32> {
        self.triangle_indices@
    }

    /// What holds of every bucket: its indices come in triples, each names one
    /// of its vertices, it holds no more vertices than an index can name, and
    /// the stored indices are those of its mesh.
    pub open spec fn wf(self) -> bool {
        &&& self@.wf()
        &&& self@.mesh.indices == index_values(self.stored_indices())
    }

    /// An empty bucket.
    pub fn new(key: String, class_name: Option<String>) -> (bucket: Self)
        ensures
            bucket.wf(),
            bucket@ == (BucketView {
                key: key@,
                class_name: text_of(class_name),
                mesh: MeshView::<P>::empty(),
            }),
    {
        let bucket = MeshBucket {
            key,
            class_name,
            vertices: Vec::new(),
            triangle_indices: Vec::new(),
        };
        assert(bucket@.mesh.indices =~= MeshView::<P>::empty().indices);
        bucket
    }

    /// Takes a fragment in: its vertices go behind those of the bucket, and
    /// its triangles behind the bucket's, each index raised by the number of
    /// vertices that the bucket held before.
    ///
    /// Fails, and leaves the bucket as it was, where the bucket would then
    /// hold more than `MAX_BUCKET_VERTICES` vertices.
    pub fn absorb(&mut self, fragment: TriangulatedFragment<P>) -> (done: Result<(), AbsorbError>)
        ensures
            old(self).wf(),
            final(self).wf(),
            final(self)@.key == old(self)@.key,
            final(self)@.class_name == old(self)@.class_name,
            match done {
                Ok(()) => {
                    &&& old(self)@.mesh.vertices.len() + fragment.mesh().vertices.len()
                        <= MAX_BUCKET_VERTICES
                    &&& final(self)@.mesh == old(self)@.mesh.append(fragment.mesh())
                },
                Err(AbsorbError::CapacityExceeded) => {
                    &&& old(self)@.mesh.vertices.len() + fragment.mesh().vertices.len()
                        > MAX_BUCKET_VERTICES
                    &&& *final(self) == *old(self)
                },
            },
    {
        proof {
            use_type_invariant(&*self);
        }
        let ghost before = self@.mesh;
        let ghost added = fragment.mesh();
        let (mut vertices, indices, _) = fragment.into_parts();
        let offset = self.vertices.len();
        if vertices.len() > MAX_BUCKET_VERTICES - offset {
            return Err(AbsorbError::CapacityExceeded);
        }
        assert forall|i: int| 0 <= i < indices@.len() implies (#[trigger] indices@[i]) + (
        offset as u32) <= u32::MAX by {
            assert(0 <= added.indices[i] < added.vertices.len());
        }
        let mut raised = shift_indices(&indices, offset as u32);
        // The bucket is taken out whole and put back whole, so that it is
        // well formed at every moment in between.
        let mut taken = MeshBucket {
            key: String::new(),
            class_name: None,
            vertices: Vec::new(),
            triangle_indices: Vec::new(),
        };
        core::mem::swap(self, &mut taken);
        let MeshBucket { key, class_name, vertices: mut all_vertices, triangle_indices: mut all_indices } =
            taken;
        all_vertices.append(&mut vertices);
        all_indices.append(&mut raised);
        proof {
            let joined = mesh_of(all_vertices@, all_indices@);
            assert(joined.vertices =~= before.append(added).vertices);
            assert(joined.indices =~= before.append(added).indices);
            before.lemma_append_wf(added);
        }
        *self = MeshBucket { key, class_name, vertices: all_vertices, triangle_indices: all_indices };
        Ok(())
    }

    /// The key of the bucket.
    pub fn key(&self) -> (key: &String)
        ensures
            key@ == self@.key,
    {
        &self.key
    }

    /// The class name that the bucket remembers.
    pub fn class_name(&self) -> (name: &Option<String>)
        ensures
            text_of(*name) == self@.class_name,
    {
        &self.class_name
    }

    /// The vertices gathered so far.
    pub fn vertices(&self) -> (vertices: &Vec<P>)
        ensures
            vertices@ == self@.mesh.vertices,
    {
        &self.vertices
    }

    /// The indices gathered so far, three for each triangle; each names a
    /// vertex of the bucket.
    pub fn triangle_indices(&self) -> (indices: &Vec<u32>)
        ensures
            indices@ == self.stored_indices(),
            self.wf(),
    {
        proof {
            use_type_invariant(self);
        }
        &self.triangle_indices
    }

    /// Takes the bucket apart into key, class name, vertices and indices.
    pub fn into_parts(self) -> (parts: (String, Option<String>, Vec<P>, Vec<u32>))
        ensures
            self.wf(),
            parts.0@ == self@.key,
            text_of(parts.1) == self@.class_name,
            mesh_of(parts.2@, parts.3@) == self@.mesh,
    {
        proof {
            use_type_invariant(&self);
        }
        (self.key, self.class_name, self.vertices, self.triangle_indices)
    }
}

} // verus!
