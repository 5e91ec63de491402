use vstd::prelude::*;

verus! {

/// An indexed triangle mesh as a mathematical value: a list of vertices and a
/// flat list of vertex indices, three for each triangle.
pub struct MeshView<P> {
    pub vertices: Seq<P>,
    pub indices: Seq<int>,
}

impl<P> MeshView<P> {
    /// The mesh without vertices and triangles.
    pub open spec fn empty() -> MeshView<P> {
        MeshView { vertices: Seq::empty(), indices: Seq::empty() }
    }

    /// The indices come in triples, and each names a vertex of the mesh.
    pub open spec fn wf(self) -> bool {
        &&& self.indices.len() % 3 == 0
        &&& forall|i: int|
            0 <= i < self.indices.len() ==> 0 <= #[trigger] self.indices[i] < self.vertices.len()
    }

    /// The number of triangles.
    pub open spec fn triangle_count(self) -> nat {
        self.indices.len() / 3
    }

    /// This mesh followed by `other`: the vertices of `other` come after those
    /// of `self`, and each index of `other` is raised by the number of vertices
    /// that `self` had, so that it names the same vertex as before.
    pub open spec fn append(self, other: MeshView<P>) -> MeshView<P> {
        MeshView {
            vertices: self.vertices + other.vertices,
            indices: self.indices + other.indices.map_values(
                |i: int| i + self.vertices.len(),
            ),
        }
    }

    /// The meshes of a list, appended one after another from the first on.
    pub open spec fn merge(parts: Seq<MeshView<P>>) -> MeshView<P>
        decreases parts.len(),
    {
        if parts.len() == 0 {
            Self::empty()
        } else {
            Self::merge(parts.drop_last()).append(parts.last())
        }
    }

    /// The number of vertices that the first `k` meshes of a list hold
    /// together: where the vertices of the mesh at `k` begin in the merged
    /// mesh.
    pub open spec fn vertex_base(parts: Seq<MeshView<P>>, k: int) -> nat
        decreases k,
    {
        if k <= 0 {
            0
        } else {
            Self::vertex_base(parts, k - 1) + parts[k - 1].vertices.len()
        }
    }

    /// The number of indices that the first `k` meshes of a list hold
    /// together: where the indices of the mesh at `k` begin in the merged mesh.
    pub open spec fn index_base(parts: Seq<MeshView<P>>, k: int) -> nat
        decreases k,
    {
        if k <= 0 {
            0
        } else {
            Self::index_base(parts, k - 1) + parts[k - 1].indices.len()
        }
    }

    /// Appending the empty mesh, on either side, changes nothing.
    pub proof fn lemma_append_empty(self)
        ensures
            self.append(Self::empty()) == self,
            Self::empty().append(self) == self,
    {
        assert(self.append(Self::empty()).vertices =~= self.vertices);
        assert(self.append(Self::empty()).indices =~= self.indices);
        assert(Self::empty().append(self).vertices =~= self.vertices);
        assert(Self::empty().append(self).indices =~= self.indices);
    }

    /// Appending is associative: how a run of meshes is grouped does not
    /// matter, only their order.
    pub proof fn lemma_append_assoc(self, b: MeshView<P>, c: MeshView<P>)
        ensures
            self.append(b).append(c) == self.append(b.append(c)),
    {
        let left = self.append(b).append(c);
        let right = self.append(b.append(c));
        assert(left.vertices =~= right.vertices);
        assert(left.indices =~= right.indices);
    }

    /// Appending keeps every index in range: the indices of `self` still name
    /// the vertices they named, and the raised indices of `other` name the
    /// vertices that came with it.
    pub proof fn lemma_append_wf(self, other: MeshView<P>)
        requires
            self.wf(),
            other.wf(),
        ensures
            self.append(other).wf(),
            self.append(other).vertices.len() == self.vertices.len() + other.vertices.len(),
            self.append(other).indices.len() == self.indices.len() + other.indices.len(),
            self.append(other).triangle_count() == self.triangle_count() + other.triangle_count(),
    {
        let joined = self.append(other);
        assert forall|i: int| 0 <= i < joined.indices.len() implies 0 <= #[trigger] joined.indices[i]
            < joined.vertices.len() by {
            if i < self.indices.len() {
                assert(joined.indices[i] == self.indices[i]);
            } else {
                assert(joined.indices[i] == other.indices[i - self.indices.len()]
                    + self.vertices.len());
            }
        }
    }

    /// Every mesh of a list is well formed.
    pub open spec fn all_wf(parts: Seq<MeshView<P>>) -> bool {
        forall|k: int| 0 <= k < parts.len() ==> (#[trigger] parts[k]).wf()
    }

    /// Where a mesh begins in the merged mesh depends only on the meshes
    /// before it, and no mesh begins before an earlier one ends.
    pub proof fn lemma_bases(parts: Seq<MeshView<P>>, shorter: Seq<MeshView<P>>, k: int)
        requires
            0 <= k <= shorter.len() <= parts.len(),
            forall|j: int| 0 <= j < shorter.len() ==> shorter[j] == parts[j],
        ensures
            Self::vertex_base(shorter, k) == Self::vertex_base(parts, k),
            Self::index_base(shorter, k) == Self::index_base(parts, k),
            forall|j: int| 0 <= j <= k ==> Self::vertex_base(parts, j) <= Self::vertex_base(parts, k),
            forall|j: int| 0 <= j <= k ==> Self::index_base(parts, j) <= Self::index_base(parts, k),
        decreases k,
    {
        if k > 0 {
            Self::lemma_bases(parts, shorter, k - 1);
        }
    }

    /// The merged mesh of well-formed meshes is well formed, and holds as many
    /// vertices and indices as the meshes together.
    pub proof fn lemma_merge_wf(parts: Seq<MeshView<P>>)
        requires
            Self::all_wf(parts),
        ensures
            Self::merge(parts).wf(),
            Self::merge(parts).vertices.len() == Self::vertex_base(parts, parts.len() as int),
            Self::merge(parts).indices.len() == Self::index_base(parts, parts.len() as int),
        decreases parts.len(),
    {
        if parts.len() > 0 {
            let front = parts.drop_last();
            Self::lemma_merge_wf(front);
            Self::lemma_bases(parts, front, front.len() as int);
            Self::merge(front).lemma_append_wf(parts.last());
        }
    }

    /// In the merged mesh each mesh of the list has a range of vertices to
    /// itself, which holds its vertices in their order, and a range of indices
    /// to itself, which holds its indices, each raised by the place at which
    /// its vertices begin. So every index that came with a mesh names a vertex
    /// that came with the same mesh, and the ranges of two meshes do not
    /// overlap.
    pub proof fn lemma_merge_places(parts: Seq<MeshView<P>>, k: int)
        requires
            Self::all_wf(parts),
            0 <= k < parts.len(),
        ensures
            Self::vertex_base(parts, k + 1) == Self::vertex_base(parts, k) + parts[k].vertices.len(),
            Self::index_base(parts, k + 1) == Self::index_base(parts, k) + parts[k].indices.len(),
            Self::vertex_base(parts, k + 1) <= Self::merge(parts).vertices.len(),
            Self::index_base(parts, k + 1) <= Self::merge(parts).indices.len(),
            Self::merge(parts).vertices.subrange(
                Self::vertex_base(parts, k) as int,
                Self::vertex_base(parts, k + 1) as int,
            ) == parts[k].vertices,
            forall|j: int|
                0 <= j < parts[k].indices.len() ==> {
                    &&& (#[trigger] Self::merge(parts).indices[Self::index_base(parts, k) + j])
                        == parts[k].indices[j] + Self::vertex_base(parts, k)
                    &&& Self::vertex_base(parts, k) <= Self::merge(parts).indices[Self::index_base(
                        parts,
                        k,
                    ) + j] < Self::vertex_base(parts, k + 1)
                },
        decreases parts.len(),
    {
        let front = parts.drop_last();
        let merged = Self::merge(parts);
        Self::lemma_merge_wf(front);
        Self::lemma_merge_wf(parts);
        Self::lemma_bases(parts, front, front.len() as int);
        Self::lemma_bases(parts, parts, parts.len() as int);
        if k < front.len() {
            Self::lemma_merge_places(front, k);
            Self::lemma_bases(parts, front, k);
            Self::lemma_bases(parts, front, k + 1);
            assert(merged.vertices.subrange(
                Self::vertex_base(parts, k) as int,
                Self::vertex_base(parts, k + 1) as int,
            ) =~= Self::merge(front).vertices.subrange(
                Self::vertex_base(front, k) as int,
                Self::vertex_base(front, k + 1) as int,
            ));
            assert forall|j: int| 0 <= j < parts[k].indices.len() implies {
                &&& (#[trigger] merged.indices[Self::index_base(parts, k) + j])
                    == parts[k].indices[j] + Self::vertex_base(parts, k)
                &&& Self::vertex_base(parts, k) <= merged.indices[Self::index_base(parts, k) + j]
                    < Self::vertex_base(parts, k + 1)
            } by {
                assert(merged.indices[Self::index_base(parts, k) + j] == Self::merge(
                    front,
                ).indices[Self::index_base(front, k) + j]);
            }
        } else {
            assert(merged.vertices.subrange(
                Self::vertex_base(parts, k) as int,
                Self::vertex_base(parts, k + 1) as int,
            ) =~= parts[k].vertices);
            assert forall|j: int| 0 <= j < parts[k].indices.len() implies {
                &&& (#[trigger] merged.indices[Self::index_base(parts, k) + j])
                    == parts[k].indices[j] + Self::vertex_base(parts, k)
                &&& Self::vertex_base(parts, k) <= merged.indices[Self::index_base(parts, k) + j]
                    < Self::vertex_base(parts, k + 1)
            } by {
                assert(0 <= parts[k].indices[j] < parts[k].vertices.len());
            }
        }
    }

    /// The ranges of two meshes of a list do not overlap in the merged mesh:
    /// the earlier one ends before the later one begins, for the vertices and
    /// for the indices.
    pub proof fn lemma_ranges_apart(parts: Seq<MeshView<P>>, a: int, b: int)
        requires
            0 <= a < b < parts.len(),
        ensures
            Self::vertex_base(parts, a + 1) <= Self::vertex_base(parts, b),
            Self::index_base(parts, a + 1) <= Self::index_base(parts, b),
    {
        Self::lemma_bases(parts, parts, b);
    }
}

} // verus!
