use crate::model::Polygon;
use vstd::prelude::*;
use vstd::seq_lib::lemma_flatten_concat;

verus! {

/// Why a polygon cannot be handed to a triangulation.
#[derive(Clone, Copy, Debug, PartialEq, Eq, Structural)]
pub enum GeometryError {
    /// The polygon has more than `u32::MAX` points, so that the place of a
    /// point does not fit an index.
    TooManyPoints,
}

/// A polygon laid out for a planar triangulation that takes one flat point
/// list and the places at which the holes begin in it.
#[derive(Clone, Debug)]
pub struct TriangulationInput<P> {
    /// The outer boundary's points, then each hole's points in turn.
    pub points: Vec<P>,
    /// The number of points of the outer boundary.
    pub exterior_len: usize,
    /// For each hole, in order, the place of its first point in `points`.
    pub hole_indices: Vec<u32>,
}

impl<P> Polygon<P> {
    /// The number of points that lie before hole `k` in the flat point list:
    /// those of the outer boundary and of the holes before it. For `k` the
    /// number of holes, this is the number of all points.
    pub open spec fn hole_start(self, k: int) -> nat {
        (self.exterior@ + self.interior_rings().take(k).flatten()).len()
    }

    /// The number of all points of the polygon.
    pub open spec fn point_count(self) -> nat {
        self.all_points().len()
    }

    /// The places at which the holes begin in the flat point list.
    pub open spec fn hole_starts(self) -> Seq<nat> {
        Seq::new(self.interior@.len(), |k: int| self.hole_start(k))
    }

    /// The flat point list holds every point of every ring. The outer boundary
    /// stands first. Each hole stands as a whole at its start, which is where
    /// the ring before it ends; so the starts never decrease, and none lies
    /// beyond the end of the list.
    pub proof fn lemma_ring_places(self, k: int)
        requires
            0 <= k < self.interior@.len(),
        ensures
            self.all_points().subrange(0, self.exterior@.len() as int) == self.exterior@,
            self.hole_start(0) == self.exterior@.len(),
            self.hole_start(k + 1) == self.hole_start(k) + self.interior@[k]@.len(),
            self.hole_start(k + 1) <= self.point_count(),
            self.hole_start(self.interior@.len() as int) == self.point_count(),
            self.all_points().subrange(self.hole_start(k) as int, self.hole_start(k + 1) as int)
                == self.interior@[k]@,
    {
        let rings = self.interior_rings();
        let before = rings.take(k);
        let upto = rings.take(k + 1);
        let after = rings.skip(k + 1);
        assert(rings.take(0).flatten() =~= Seq::<P>::empty());
        assert(rings.take(rings.len() as int) =~= rings);
        assert(upto =~= before.push(rings[k]));
        before.lemma_flatten_push(rings[k]);
        assert(rings =~= upto + after);
        lemma_flatten_concat(upto, after);
        assert(self.all_points().subrange(0, self.exterior@.len() as int) =~= self.exterior@);
        assert(self.all_points().subrange(self.hole_start(k) as int, self.hole_start(k + 1) as int)
            =~= self.interior@[k]@);
    }

    /// The starts of the holes never decrease along the list of holes.
    pub proof fn lemma_hole_starts_ordered(self, j: int, k: int)
        requires
            0 <= j <= k <= self.interior@.len(),
        ensures
            self.exterior@.len() <= self.hole_start(j) <= self.hole_start(k) <= self.point_count(),
            self.hole_start(self.interior@.len() as int) == self.point_count(),
        decreases k - j,
    {
        let rings = self.interior_rings();
        assert(rings.take(rings.len() as int) =~= rings);
        if j < k {
            self.lemma_ring_places(k - 1);
            self.lemma_hole_starts_ordered(j, k - 1);
        } else if k < rings.len() {
            self.lemma_ring_places(k);
        }
    }
}

/// Puts copies of the points of a ring behind those that a list already holds.
pub fn append_ring<P: Copy>(points: &mut Vec<P>, ring: &Vec<P>)
    ensures
        final(points)@ == old(points)@ + ring@,
{
    let mut i: usize = 0;
    while i < ring.len()
        invariant
            i <= ring@.len(),
            points@ == old(points)@ + ring@.take(i as int),
        decreases ring@.len() - i,
    {
        points.push(ring[i]);
        assert(ring@.take(i + 1) =~= ring@.take(i as int).push(ring@[i as int]));
        i += 1;
    }
    assert(ring@.take(ring@.len() as int) =~= ring@);
}

/// The points of a polygon in one list: the outer boundary first, then each
/// hole in turn.
pub fn flatten_rings<P: Copy>(polygon: &Polygon<P>) -> (points: Vec<P>)
    ensures
        points@ == polygon.all_points(),
{
    let mut points: Vec<P> = Vec::new();
    append_ring(&mut points, &polygon.exterior);
    let ghost rings = polygon.interior_rings();
    assert(rings.take(0).flatten() =~= Seq::<P>::empty());
    let mut k: usize = 0;
    while k < polygon.interior.len()
        invariant
            k <= polygon.interior@.len(),
            rings == polygon.interior_rings(),
            points@ == polygon.exterior@ + rings.take(k as int).flatten(),
        decreases polygon.interior@.len() - k,
    {
        append_ring(&mut points, &polygon.interior[k]);
        proof {
            assert(rings.take(k + 1) =~= rings.take(k as int).push(rings[k as int]));
            rings.take(k as int).lemma_flatten_push(rings[k as int]);
        }
        k += 1;
    }
    assert(rings.take(rings.len() as int) =~= rings);
    points
}

/// For each hole of a polygon, in order, the place in the flat point list at
/// which the hole's first point stands.
///
/// Fails where the polygon has more points than an index can count.
pub fn hole_indices<P>(polygon: &Polygon<P>) -> (starts: Result<Vec<u32>, GeometryError>)
    ensures
        match starts {
            Ok(starts) => {
                &&& polygon.point_count() <= u32::MAX
                &&& starts@.map_values(|start: u32| start as nat) == polygon.hole_starts()
                &&& starts@.len() == polygon.interior@.len()
                &&& forall|k: int|
                    0 <= k < starts@.len() ==> (#[trigger] starts@[k]) == polygon.hole_start(k)
            },
            Err(GeometryError::TooManyPoints) => polygon.point_count() > u32::MAX,
        },
{
    let ghost rings = polygon.interior_rings();
    let mut starts: Vec<u32> = Vec::new();
    let mut offset: usize = polygon.exterior.len();
    proof {
        polygon.lemma_hole_starts_ordered(0, 0);
        assert(rings.take(0).flatten() =~= Seq::<P>::empty());
    }
    if offset > u32::MAX as usize {
        return Err(GeometryError::TooManyPoints);
    }
    let mut k: usize = 0;
    while k < polygon.interior.len()
        invariant
            k <= polygon.interior@.len(),
            offset == polygon.hole_start(k as int),
            offset <= u32::MAX,
            starts@.len() == k,
            forall|j: int| 0 <= j < k ==> (#[trigger] starts@[j]) == polygon.hole_start(j),
        decreases polygon.interior@.len() - k,
    {
        let ring_len = polygon.interior[k].len();
        proof {
            polygon.lemma_ring_places(k as int);
        }
        if ring_len > u32::MAX as usize - offset {
            return Err(GeometryError::TooManyPoints);
        }
        starts.push(offset as u32);
        offset = offset + ring_len;
        k += 1;
    }
    proof {
        polygon.lemma_hole_starts_ordered(k as int, k as int);
        assert(starts@.map_values(|start: u32| start as nat) =~= polygon.hole_starts());
    }
    Ok(starts)
}

/// Lays a polygon out for triangulation: the flat point list, the length of
/// the outer boundary, and the start of each hole.
///
/// Fails where the polygon has more points than an index can count.
pub fn prepare<P: Copy>(polygon: &Polygon<P>) -> (input: Result<
    TriangulationInput<P>,
    GeometryError,
>)
    ensures
        match input {
            Ok(input) => {
                &&& polygon.point_count() <= u32::MAX
                &&& input.points@ == polygon.all_points()
                &&& input.exterior_len == polygon.exterior@.len()
                &&& input.hole_indices@.map_values(|start: u32| start as nat)
                    == polygon.hole_starts()
                &&& input.hole_indices@.len() == polygon.interior@.len()
                &&& forall|k: int|
                    0 <= k < input.hole_indices@.len() ==> (#[trigger] input.hole_indices@[k])
                        == polygon.hole_start(k)
            },
            Err(GeometryError::TooManyPoints) => polygon.point_count() > u32::MAX,
        },
{
    match hole_indices(polygon) {
        Ok(starts) => Ok(
            TriangulationInput {
                points: flatten_rings(polygon),
                exterior_len: polygon.exterior.len(),
                hole_indices: starts,
            },
        ),
        Err(error) => Err(error),
    }
}

} // verus!
