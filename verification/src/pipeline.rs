use crate::aggregator::{
    absorb_all, all_meshes_wf, bucket_output, distinct_keys, has_room, routed, standalone,
    AggregationMode, Aggregator, OutputMesh, OutputView,
};
use crate::bucket::{AbsorbError, BucketView};
use crate::grouping::{
    all_items_wf, keys, lemma_absorb_all, lemma_bucket_content, lemma_bucket_count, meshes,
    total_triangles, total_vertices, with_key,
};
use crate::mesh::MeshView;
use crate::collector::{collect, collected, Collected, CollectedSurface};
use crate::fragment::{SourceIds, TriangulatedFragment};
use crate::model::{Building, LevelOfDetail, Polygon};
use crate::rings::{prepare, GeometryError, TriangulationInput};
use crate::semantic_class::CityObjectClass;
use vstd::prelude::*;

verus! {

/// One polygon of a building, laid out for triangulation, with its origin.
#[derive(Clone, Debug)]
pub struct TriangulationJob<P> {
    pub source: SourceIds,
    pub input: TriangulationInput<P>,
}

/// A job as a mathematical value.
pub struct JobView<P> {
    pub building_id: Seq<char>,
    pub surface_id: Seq<char>,
    pub multi_surface_id: Seq<char>,
    pub polygon_id: Seq<char>,
    pub semantic_class: CityObjectClass,
    pub points: Seq<P>,
    pub exterior_len: nat,
    pub hole_starts: Seq<nat>,
}

impl<P> View for TriangulationJob<P> {
    type V = JobView<P>;

    open spec fn view(&self) -> JobView<P> {
        JobView {
            building_id: self.source.building_id@,
            surface_id: self.source.surface_id@,
            multi_surface_id: self.source.multi_surface_id@,
            polygon_id: self.source.polygon_id@,
            semantic_class: self.source.semantic_class,
            points: self.input.points@,
            exterior_len: self.input.exterior_len as nat,
            hole_starts: self.input.hole_indices@.map_values(|start: u32| start as nat),
        }
    }
}

/// A list of jobs as mathematical values.
pub open spec fn job_views<P>(jobs: Seq<TriangulationJob<P>>) -> Seq<JobView<P>> {
    jobs.map_values(|job: TriangulationJob<P>| job@)
}

/// The job that one polygon of a found multi-surface makes.
pub open spec fn job_of<P>(building_id: Seq<char>, found: Collected<P>, polygon: Polygon<P>) -> JobView<
    P,
> {
    JobView {
        building_id,
        surface_id: found.surface_id,
        multi_surface_id: found.multi_surface.id@,
        polygon_id: polygon.id@,
        semantic_class: found.semantic_class,
        points: polygon.all_points(),
        exterior_len: polygon.exterior@.len(),
        hole_starts: polygon.hole_starts(),
    }
}

/// The jobs of the first `n` polygons of a found multi-surface.
pub open spec fn surface_jobs_upto<P>(building_id: Seq<char>, found: Collected<P>, n: int) -> Seq<
    JobView<P>,
> {
    Seq::new(
        n as nat,
        |i: int| job_of(building_id, found, found.multi_surface.surface_member@[i]),
    )
}

/// The jobs of a found multi-surface, one for each polygon, in order.
pub open spec fn surface_jobs<P>(building_id: Seq<char>, found: Collected<P>) -> Seq<JobView<P>> {
    surface_jobs_upto(building_id, found, found.multi_surface.surface_member@.len() as int)
}

/// The jobs of each multi-surface of a list.
pub open spec fn job_parts<P>(building_id: Seq<char>, found: Seq<Collected<P>>) -> Seq<
    Seq<JobView<P>>,
> {
    found.map_values(|one: Collected<P>| surface_jobs(building_id, one))
}

/// The jobs of a building at a level of detail: for each multi-surface in the
/// order of the depth-first walk, its polygons in order.
pub open spec fn building_jobs<P>(building: Building<P>, lod: LevelOfDetail) -> Seq<JobView<P>> {
    job_parts(building.id@, collected(building, lod)).flatten()
}

/// Whether every polygon of a found multi-surface can be laid out.
pub open spec fn surface_fits<P>(found: Collected<P>) -> bool {
    forall|i: int|
        0 <= i < found.multi_surface.surface_member@.len() ==> (
        #[trigger] found.multi_surface.surface_member@[i]).point_count() <= u32::MAX
}

/// Whether every polygon that the walk of a building finds can be laid out.
pub open spec fn building_fits<P>(building: Building<P>, lod: LevelOfDetail) -> bool {
    forall|s: int|
        0 <= s < collected(building, lod).len() ==> surface_fits(
            #[trigger] collected(building, lod)[s],
        )
}

/// Adds the jobs of one found multi-surface.
fn surface_triangulation_jobs<'a, P: Copy>(
    jobs: &mut Vec<TriangulationJob<P>>,
    building_id: &String,
    found: &CollectedSurface<'a, P>,
) -> (done: Result<(), GeometryError>)
    ensures
        match done {
            Ok(()) => {
                &&& surface_fits(found@)
                &&& job_views(final(jobs)@) == job_views(old(jobs)@) + surface_jobs(
                    building_id@,
                    found@,
                )
            },
            Err(GeometryError::TooManyPoints) => !surface_fits(found@),
        },
{
    let ghost start = job_views(jobs@);
    let polygons = &found.multi_surface.surface_member;
    let mut i: usize = 0;
    assert(job_views(jobs@) =~= start + surface_jobs_upto(building_id@, found@, 0));
    while i < polygons.len()
        invariant
            i <= polygons@.len(),
            polygons@ == found@.multi_surface.surface_member@,
            start == job_views(old(jobs)@),
            job_views(jobs@) == start + surface_jobs_upto(building_id@, found@, i as int),
            forall|j: int| 0 <= j < i ==> (#[trigger] polygons@[j]).point_count() <= u32::MAX,
        decreases polygons@.len() - i,
    {
        let polygon = &polygons[i];
        match prepare(polygon) {
            Ok(input) => {
                let job = TriangulationJob { source: found.source_of(building_id, polygon), input };
                let ghost before = jobs@;
                let ghost made = job@;
                assert(made == job_of(building_id@, found@, polygons@[i as int]));
                jobs.push(job);
                proof {
                    assert(job_views(jobs@) =~= job_views(before).push(made));
                    assert(surface_jobs_upto(building_id@, found@, i + 1) =~= surface_jobs_upto(
                        building_id@,
                        found@,
                        i as int,
                    ).push(made));
                    assert(job_views(jobs@) =~= start + surface_jobs_upto(
                        building_id@,
                        found@,
                        i + 1,
                    ));
                }
            },
            Err(error) => {
                assert(polygons@[i as int].point_count() > u32::MAX);
                return Err(error);
            },
        }
        i += 1;
    }
    Ok(())
}

/// Walks a building and lays out every polygon of every multi-surface found
/// at the level of detail, in the order of the walk.
///
/// Fails where one of those polygons has more points than an index can count.
pub fn triangulation_jobs<P: Copy>(building: &Building<P>, lod: LevelOfDetail) -> (jobs: Result<
    Vec<TriangulationJob<P>>,
    GeometryError,
>)
    ensures
        match jobs {
            Ok(jobs) => {
                &&& building_fits(*building, lod)
                &&& job_views(jobs@) == building_jobs(*building, lod)
            },
            Err(GeometryError::TooManyPoints) => !building_fits(*building, lod),
        },
{
    let found = collect(building, lod);
    let ghost all = collected(*building, lod);
    let mut jobs: Vec<TriangulationJob<P>> = Vec::new();
    assert(job_views(jobs@) =~= job_parts(building.id@, all.take(0)).flatten());
    let mut s: usize = 0;
    while s < found.len()
        invariant
            s <= found@.len(),
            all == collected(*building, lod),
            all == crate::collector::views(found@),
            job_views(jobs@) == job_parts(building.id@, all.take(s as int)).flatten(),
            forall|t: int| 0 <= t < s ==> surface_fits(#[trigger] all[t]),
        decreases found@.len() - s,
    {
        assert(found@[s as int]@ == all[s as int]);
        match surface_triangulation_jobs(&mut jobs, &building.id, &found[s]) {
            Ok(()) => {
                proof {
                    let done = job_parts(building.id@, all.take(s as int));
                    let next = surface_jobs(building.id@, all[s as int]);
                    assert(job_parts(building.id@, all.take(s + 1)) =~= done.push(next));
                    done.lemma_flatten_push(next);
                }
            },
            Err(error) => {
                assert(!surface_fits(all[s as int]));
                return Err(error);
            },
        }
        s += 1;
    }
    assert(all.take(all.len() as int) =~= all);
    Ok(jobs)
}

/// The fragments of a run as the buckets that each would make alone.
pub open spec fn items_of<P>(mode: AggregationMode, fragments: Seq<TriangulatedFragment<P>>) -> Seq<
    BucketView<P>,
> {
    fragments.map_values(|fragment: TriangulatedFragment<P>| routed(mode, fragment))
}

/// The fragments of a run as meshes of their own.
pub open spec fn standalone_outputs<P>(fragments: Seq<TriangulatedFragment<P>>) -> Seq<
    OutputView<P>,
> {
    fragments.map_values(|fragment: TriangulatedFragment<P>| standalone(fragment))
}

/// The buckets of a list as finished meshes.
pub open spec fn bucket_outputs<P>(
    mode: AggregationMode,
    building_id: Seq<char>,
    buckets: Seq<BucketView<P>>,
) -> Seq<OutputView<P>> {
    buckets.map_values(|bucket: BucketView<P>| bucket_output(mode, building_id, bucket))
}

/// A list of finished meshes as mathematical values.
pub open spec fn output_views<P>(outputs: Seq<OutputMesh<P>>) -> Seq<OutputView<P>> {
    outputs.map_values(|output: OutputMesh<P>| output@)
}

/// Whether each item of a run finds room in its bucket at the moment it is
/// taken in.
pub open spec fn all_fit<P>(buckets: Seq<BucketView<P>>, items: Seq<BucketView<P>>) -> bool
    decreases items.len(),
{
    items.len() == 0 || (all_fit(buckets, items.drop_last()) && has_room(
        absorb_all(buckets, items.drop_last()),
        items.last(),
    ))
}

/// Where a run of items fits, so does every run that it begins with.
pub proof fn lemma_all_fit_prefix<P>(buckets: Seq<BucketView<P>>, items: Seq<BucketView<P>>, n: int)
    requires
        0 <= n <= items.len(),
        all_fit(buckets, items),
    ensures
        all_fit(buckets, items.take(n)),
    decreases items.len(),
{
    if n == items.len() {
        assert(items.take(n) =~= items);
    } else {
        assert(items.drop_last().take(n) =~= items.take(n));
        lemma_all_fit_prefix(buckets, items.drop_last(), n);
    }
}

/// What a run of fragments makes under a mode: without grouping each fragment
/// as a mesh of its own, in order; with grouping the buckets that the run
/// leaves, as finished meshes in the order in which their keys first came.
pub open spec fn aggregated<P>(
    building_id: Seq<char>,
    mode: AggregationMode,
    fragments: Seq<TriangulatedFragment<P>>,
) -> Seq<OutputView<P>> {
    if mode == AggregationMode::Ungrouped {
        standalone_outputs(fragments)
    } else {
        bucket_outputs(
            mode,
            building_id,
            absorb_all(Seq::<BucketView<P>>::empty(), items_of(mode, fragments)),
        )
    }
}

/// Gathers the fragments of one building into its output meshes.
///
/// Fails where grouping would put more vertices into one bucket than an
/// index can name.
pub fn aggregate<P>(building_id: String, mode: AggregationMode, fragments: Vec<
    TriangulatedFragment<P>,
>) -> (done: Result<Vec<OutputMesh<P>>, AbsorbError>)
    ensures
        match done {
            Ok(outputs) => {
                &&& mode != AggregationMode::Ungrouped ==> all_fit(
                    Seq::<BucketView<P>>::empty(),
                    items_of(mode, fragments@),
                )
                &&& output_views(outputs@) == aggregated(building_id@, mode, fragments@)
                &&& forall|i: int| 0 <= i < outputs@.len() ==> (#[trigger] outputs@[i])@.mesh.wf()
            },
            Err(AbsorbError::CapacityExceeded) => {
                &&& mode != AggregationMode::Ungrouped
                &&& !all_fit(Seq::<BucketView<P>>::empty(), items_of(mode, fragments@))
            },
        },
{
    let ghost all = fragments@;
    let ghost start = Seq::<BucketView<P>>::empty();
    let mut aggregator: Aggregator<P> = Aggregator::new(building_id, mode);
    let mut outputs: Vec<OutputMesh<P>> = Vec::new();
    assert(output_views(outputs@) =~= standalone_outputs(all.take(0)));
    assert(items_of(mode, all.take(0)) =~= Seq::<BucketView<P>>::empty());
    for fragment in it: fragments
        invariant
            it.seq() == all,
            all == fragments@,
            start == Seq::<BucketView<P>>::empty(),
            aggregator.wf(),
            aggregator.mode() == mode,
            aggregator.building() == building_id@,
            forall|i: int| 0 <= i < outputs@.len() ==> (#[trigger] outputs@[i])@.mesh.wf(),
            mode == AggregationMode::Ungrouped ==> {
                &&& aggregator.buckets() == start
                &&& output_views(outputs@) == standalone_outputs(all.take(it.index() as int))
            },
            mode != AggregationMode::Ungrouped ==> {
                &&& outputs@.len() == 0
                &&& all_fit(start, items_of(mode, all.take(it.index() as int)))
                &&& aggregator.buckets() == absorb_all(
                    start,
                    items_of(mode, all.take(it.index() as int)),
                )
            },
    {
        let ghost n = it.index() as int;
        let ghost done_items = items_of(mode, all.take(n));
        let ghost next_items = items_of(mode, all.take(n + 1));
        proof {
            assert(next_items =~= done_items.push(routed(mode, fragment)));
            assert(next_items.drop_last() =~= done_items);
        }
        let ghost before = outputs@;
        match aggregator.absorb(fragment) {
            Ok(Some(output)) => {
                let ghost made = output@;
                outputs.push(output);
                proof {
                    assert(output_views(outputs@) =~= output_views(before).push(made));
                    assert(standalone_outputs(all.take(n + 1)) =~= standalone_outputs(
                        all.take(n),
                    ).push(standalone(fragment)));
                }
            },
            Ok(None) => {
                assert(next_items.last() == routed(mode, fragment));
            },
            Err(error) => {
                proof {
                    let items = items_of(mode, all);
                    assert(items.take(n + 1) =~= next_items);
                    assert(next_items.last() == routed(mode, fragment));
                    assert(!all_fit(start, next_items));
                    if all_fit(start, items) {
                        lemma_all_fit_prefix(start, items, n + 1);
                    }
                }
                return Err(error);
            },
        }
    }
    assert(all.take(all.len() as int) =~= all);
    if mode == AggregationMode::Ungrouped {
        Ok(outputs)
    } else {
        let grouped = aggregator.finish();
        assert(output_views(grouped@) =~= aggregated(building_id@, mode, all));
        Ok(grouped)
    }
}

/// What grouping does to the fragments of a building, whatever they are and
/// in whatever order they arrive. No two buckets share a key, and there are as
/// many buckets as the fragments have different keys. Every index of a bucket
/// names a vertex of that bucket. Each bucket holds the fragments of its key
/// and no others, merged in the order in which they came. And the buckets
/// together hold as many vertices and as many triangles as the same fragments
/// hold when each is a mesh of its own.
pub proof fn lemma_grouping_partitions<P>(
    mode: AggregationMode,
    fragments: Seq<TriangulatedFragment<P>>,
)
    requires
        forall|i: int| 0 <= i < fragments.len() ==> (#[trigger] fragments[i]).mesh().wf(),
    ensures
        ({
            let items = items_of(mode, fragments);
            let buckets = absorb_all(Seq::<BucketView<P>>::empty(), items);
            let alone = standalone_outputs(fragments);
            &&& distinct_keys(buckets)
            &&& all_meshes_wf(buckets)
            &&& buckets.len() == keys(items).to_set().len()
            &&& buckets.len() <= fragments.len()
            &&& forall|b: int|
                0 <= b < buckets.len() ==> (#[trigger] buckets[b]).mesh == MeshView::merge(
                    meshes(with_key(items, buckets[b].key)),
                )
            &&& total_vertices(buckets) == output_vertices(alone)
            &&& total_triangles(buckets) == output_triangles(alone)
        }),
{
    let items = items_of(mode, fragments);
    let start = Seq::<BucketView<P>>::empty();
    let buckets = absorb_all(start, items);
    let alone = standalone_outputs(fragments);
    assert(all_items_wf(items)) by {
        assert forall|i: int| 0 <= i < items.len() implies (#[trigger] items[i]).mesh.wf() by {
            assert(fragments[i].mesh().wf());
        }
    }
    lemma_absorb_all(start, items);
    lemma_bucket_count(items);
    keys(items).lemma_cardinality_of_set();
    assert forall|b: int| 0 <= b < buckets.len() implies (#[trigger] buckets[b]).mesh
        == MeshView::merge(meshes(with_key(items, buckets[b].key))) by {
        lemma_bucket_content(items, b);
    }
    lemma_output_totals(fragments, mode);
}

/// The number of vertices in all the finished meshes of a list together.
pub open spec fn output_vertices<P>(outputs: Seq<OutputView<P>>) -> nat
    decreases outputs.len(),
{
    if outputs.len() == 0 {
        0
    } else {
        output_vertices(outputs.drop_last()) + outputs.last().mesh.vertices.len()
    }
}

/// The number of triangles in all the finished meshes of a list together.
pub open spec fn output_triangles<P>(outputs: Seq<OutputView<P>>) -> nat
    decreases outputs.len(),
{
    if outputs.len() == 0 {
        0
    } else {
        output_triangles(outputs.drop_last()) + outputs.last().mesh.triangle_count()
    }
}

/// Fragments hold the same vertices and triangles whether they are counted as
/// meshes of their own or as items on their way to a bucket.
proof fn lemma_output_totals<P>(fragments: Seq<TriangulatedFragment<P>>, mode: AggregationMode)
    ensures
        total_vertices(items_of(mode, fragments)) == output_vertices(
            standalone_outputs(fragments),
        ),
        total_triangles(items_of(mode, fragments)) == output_triangles(
            standalone_outputs(fragments),
        ),
    decreases fragments.len(),
{
    if fragments.len() > 0 {
        let front = fragments.drop_last();
        lemma_output_totals(front, mode);
        assert(items_of(mode, fragments).drop_last() =~= items_of(mode, front));
        assert(standalone_outputs(fragments).drop_last() =~= standalone_outputs(front));
    }
}

} // verus!
