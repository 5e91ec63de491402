use crate::bucket::{text_of, AbsorbError, BucketView, MeshBucket, MAX_BUCKET_VERTICES};
use crate::fragment::{mesh_of, SourceIds, TriangulatedFragment};
use crate::mesh::MeshView;
use crate::semantic_class::{city_object_class_to_str, class_name};
use vstd::prelude::*;

verus! {

/// How the fragments of one building are gathered into output meshes.
#[derive(Clone, Copy, Debug, PartialEq, Eq, Structural)]
pub enum AggregationMode {
    /// Every fragment is a mesh of its own.
    Ungrouped,
    /// One mesh for each semantic class.
    BySemanticClass,
    /// One mesh for each semantic surface.
    BySemanticSurface,
}

/// The mode that two grouping switches select. Grouping by surface takes
/// precedence where both are set; with neither, nothing is grouped.
pub fn aggregation_mode(group_by_semantic_class: bool, group_by_semantic_surface: bool) -> (mode:
    AggregationMode)
    ensures
        mode == if group_by_semantic_surface {
            AggregationMode::BySemanticSurface
        } else if group_by_semantic_class {
            AggregationMode::BySemanticClass
        } else {
            AggregationMode::Ungrouped
        },
{
    if group_by_semantic_surface {
        AggregationMode::BySemanticSurface
    } else if group_by_semantic_class {
        AggregationMode::BySemanticClass
    } else {
        AggregationMode::Ungrouped
    }
}

/// A finished mesh as a mathematical value, with the names under which it is
/// written out.
pub struct OutputView<P> {
    pub building_id: Seq<char>,
    pub output_id: Seq<char>,
    pub thematic_label: Seq<char>,
    pub mesh: MeshView<P>,
}

/// A finished mesh, ready to be written out.
#[derive(Clone, Debug)]
pub struct OutputMesh<P> {
    pub building_id: String,
    pub output_id: String,
    pub thematic_label: String,
    pub vertices: Vec<P>,
    pub triangle_indices: Vec<u32>,
}

impl<P> View for OutputMesh<P> {
    type V = OutputView<P>;

    open spec fn view(&self) -> OutputView<P> {
        OutputView {
            building_id: self.building_id@,
            output_id: self.output_id@,
            thematic_label: self.thematic_label@,
            mesh: mesh_of(self.vertices@, self.triangle_indices@),
        }
    }
}

/// The key under which a fragment is gathered: the name of its class, or the
/// identifier of its semantic surface.
pub open spec fn routing_key(mode: AggregationMode, source: SourceIds) -> Seq<char> {
    match mode {
        AggregationMode::BySemanticSurface => source.surface_id@,
        _ => class_name(source.semantic_class),
    }
}

/// A fragment as the bucket that it would make alone. Only a bucket for one
/// semantic surface remembers the name of the class.
pub open spec fn routed<P>(mode: AggregationMode, fragment: TriangulatedFragment<P>) -> BucketView<
    P,
> {
    BucketView {
        key: routing_key(mode, fragment.origin()),
        class_name: match mode {
            AggregationMode::BySemanticSurface => Some(
                class_name(fragment.origin().semantic_class),
            ),
            _ => None,
        },
        mesh: fragment.mesh(),
    }
}

/// A fragment as a mesh of its own, named after its building and its polygon.
pub open spec fn standalone<P>(fragment: TriangulatedFragment<P>) -> OutputView<P> {
    OutputView {
        building_id: fragment.origin().building_id@,
        output_id: fragment.origin().polygon_id@,
        thematic_label: class_name(fragment.origin().semantic_class),
        mesh: fragment.mesh(),
    }
}

/// Whether one of the buckets has the key.
pub open spec fn has_key<P>(buckets: Seq<BucketView<P>>, key: Seq<char>) -> bool {
    exists|i: int| 0 <= i < buckets.len() && (#[trigger] buckets[i]).key == key
}

/// The place of a bucket with the key, where there is one.
pub open spec fn key_index<P>(buckets: Seq<BucketView<P>>, key: Seq<char>) -> int {
    choose|i: int| 0 <= i < buckets.len() && (#[trigger] buckets[i]).key == key
}

/// No two buckets have the same key.
pub open spec fn distinct_keys<P>(buckets: Seq<BucketView<P>>) -> bool {
    forall|i: int, j: int|
        0 <= i < buckets.len() && 0 <= j < buckets.len() && i != j ==> (#[trigger] buckets[i]).key
            != (#[trigger] buckets[j]).key
}

/// Every bucket's mesh is well formed.
pub open spec fn all_meshes_wf<P>(buckets: Seq<BucketView<P>>) -> bool {
    forall|i: int| 0 <= i < buckets.len() ==> (#[trigger] buckets[i]).mesh.wf()
}

/// The buckets after one more item: the bucket with the item's key has the
/// item's mesh appended; where there is none, the item becomes a new bucket
/// behind the others.
pub open spec fn absorb_one<P>(buckets: Seq<BucketView<P>>, item: BucketView<P>) -> Seq<
    BucketView<P>,
> {
    if has_key(buckets, item.key) {
        let i = key_index(buckets, item.key);
        buckets.update(
            i,
            BucketView {
                key: buckets[i].key,
                class_name: buckets[i].class_name,
                mesh: buckets[i].mesh.append(item.mesh),
            },
        )
    } else {
        buckets.push(item)
    }
}

/// The buckets after a run of items, taken in from the first on.
pub open spec fn absorb_all<P>(buckets: Seq<BucketView<P>>, items: Seq<BucketView<P>>) -> Seq<
    BucketView<P>,
>
    decreases items.len(),
{
    if items.len() == 0 {
        buckets
    } else {
        absorb_one(absorb_all(buckets, items.drop_last()), items.last())
    }
}

/// Whether the bucket that an item goes to has room for the item's vertices.
pub open spec fn has_room<P>(buckets: Seq<BucketView<P>>, item: BucketView<P>) -> bool {
    if has_key(buckets, item.key) {
        buckets[key_index(buckets, item.key)].mesh.vertices.len() + item.mesh.vertices.len()
            <= MAX_BUCKET_VERTICES
    } else {
        item.mesh.vertices.len() <= MAX_BUCKET_VERTICES
    }
}

/// The name under which the mesh of one semantic class is written out.
pub open spec fn class_output_id(building_id: Seq<char>, class_key: Seq<char>) -> Seq<char> {
    building_id + "_"@ + class_key + ".obj"@
}

/// The name under which the mesh of one semantic surface is written out.
pub open spec fn surface_output_id(
    building_id: Seq<char>,
    class_label: Seq<char>,
    surface_id: Seq<char>,
) -> Seq<char> {
    building_id + "_"@ + class_label + "_"@ + surface_id
}

/// The thematic label of a bucket: its key where buckets are made by class,
/// else the class name that it remembers, or `UnknownSurface` for want of one.
pub open spec fn bucket_label<P>(mode: AggregationMode, bucket: BucketView<P>) -> Seq<char> {
    match mode {
        AggregationMode::BySemanticSurface => match bucket.class_name {
            Some(name) => name,
            None => "UnknownSurface"@,
        },
        _ => bucket.key,
    }
}

/// A bucket as a finished mesh.
pub open spec fn bucket_output<P>(
    mode: AggregationMode,
    building_id: Seq<char>,
    bucket: BucketView<P>,
) -> OutputView<P> {
    OutputView {
        building_id,
        output_id: match mode {
            AggregationMode::BySemanticSurface => surface_output_id(
                building_id,
                bucket_label(mode, bucket),
                bucket.key,
            ),
            _ => class_output_id(building_id, bucket.key),
        },
        thematic_label: bucket_label(mode, bucket),
        mesh: bucket.mesh,
    }
}

/// The name of a class-wide mesh: building, underscore, class, `.obj`.
pub fn make_class_output_id(building_id: &String, class_key: &String) -> (name: String)
    ensures
        name@ == class_output_id(building_id@, class_key@),
{
    let mut name = building_id.clone();
    name.append("_");
    name.append(class_key.as_str());
    name.append(".obj");
    name
}

/// The name of a surface-wide mesh: building, underscore, class, underscore,
/// surface.
pub fn make_surface_output_id(building_id: &String, class_label: &String, surface_id: &String) -> (name:
    String)
    ensures
        name@ == surface_output_id(building_id@, class_label@, surface_id@),
{
    let mut name = building_id.clone();
    name.append("_");
    name.append(class_label.as_str());
    name.append("_");
    name.append(surface_id.as_str());
    name
}

/// The meshes of one building in the making.
///
/// Fragments are taken in one at a time through `&mut self`, so that reading
/// a bucket's vertex count and appending to the bucket cannot be separated by
/// another fragment.
pub struct Aggregator<P> {
    building_id: String,
    mode: AggregationMode,
    buckets: Vec<MeshBucket<P>>,
}

impl<P> Aggregator<P> {
    #[verifier::type_invariant]
    spec fn inv(self) -> bool {
        self.wf()
    }

    /// The buckets, in the order in which their keys first came.
    pub closed spec fn buckets(self) -> Seq<BucketView<P>> {
        self.buckets@.map_values(|bucket: MeshBucket<P>| bucket@)
    }

    /// The mode that the aggregator was made with.
    pub closed spec fn mode(self) -> AggregationMode {
        self.mode
    }

    /// The identifier of the building.
    pub closed spec fn building(self) -> Seq<char> {
        self.building_id@
    }

    /// What holds of every aggregator: no two buckets share a key, every
    /// bucket is well formed, and without grouping there are no buckets.
    pub closed spec fn wf(self) -> bool {
        &&& distinct_keys(self.buckets())
        &&& forall|i: int| 0 <= i < self.buckets@.len() ==> (#[trigger] self.buckets@[i]).wf()
        &&& self.mode == AggregationMode::Ungrouped ==> self.buckets@.len() == 0
    }

    /// In a well-formed aggregator the keys are distinct and every index of
    /// every bucket names a vertex of that bucket.
    pub proof fn lemma_wf(self)
        requires
            self.wf(),
        ensures
            distinct_keys(self.buckets()),
            all_meshes_wf(self.buckets()),
            self.mode() == AggregationMode::Ungrouped ==> self.buckets().len() == 0,
    {
        assert forall|i: int| 0 <= i < self.buckets().len() implies (
        #[trigger] self.buckets()[i]).mesh.wf() by {
            assert(self.buckets@[i].wf());
        }
    }

    /// An aggregator without buckets.
    pub fn new(building_id: String, mode: AggregationMode) -> (made: Self)
        ensures
            made.wf(),
            made.buckets() == Seq::<BucketView<P>>::empty(),
            made.mode() == mode,
            made.building() == building_id@,
    {
        let made = Aggregator { building_id, mode, buckets: Vec::new() };
        assert(made.buckets() =~= Seq::<BucketView<P>>::empty());
        made
    }

    /// Takes one fragment in.
    ///
    /// Without grouping the fragment comes straight back as a finished mesh
    /// and nothing is kept. With grouping it goes to the bucket of its key,
    /// which is made first where the key is new, and nothing comes back.
    /// Where that bucket has no room for the fragment's vertices the call
    /// fails and every bucket stays as it was.
    pub fn absorb(&mut self, fragment: TriangulatedFragment<P>) -> (done: Result<
        Option<OutputMesh<P>>,
        AbsorbError,
    >)
        ensures
            old(self).wf(),
            final(self).wf(),
            final(self).mode() == old(self).mode(),
            final(self).building() == old(self).building(),
            fragment.mesh().wf(),
            match done {
                Ok(Some(output)) => {
                    &&& old(self).mode() == AggregationMode::Ungrouped
                    &&& final(self).buckets() == old(self).buckets()
                    &&& output@ == standalone(fragment)
                },
                Ok(None) => {
                    &&& old(self).mode() != AggregationMode::Ungrouped
                    &&& has_room(old(self).buckets(), routed(old(self).mode(), fragment))
                    &&& final(self).buckets() == absorb_one(
                        old(self).buckets(),
                        routed(old(self).mode(), fragment),
                    )
                },
                Err(AbsorbError::CapacityExceeded) => {
                    &&& old(self).mode() != AggregationMode::Ungrouped
                    &&& !has_room(old(self).buckets(), routed(old(self).mode(), fragment))
                    &&& final(self).buckets() == old(self).buckets()
                },
            },
    {
        proof {
            use_type_invariant(&*self);
        }
        let mode = self.mode;
        if mode == AggregationMode::Ungrouped {
            let (vertices, triangle_indices, source) = fragment.into_parts();
            let thematic_label = String::from_str(city_object_class_to_str(source.semantic_class));
            return Ok(
                Some(
                    OutputMesh {
                        building_id: source.building_id,
                        output_id: source.polygon_id,
                        thematic_label,
                        vertices,
                        triangle_indices,
                    },
                ),
            );
        }
        let class_key = String::from_str(
            city_object_class_to_str(fragment.source().semantic_class),
        );
        let (key, hint) = if mode == AggregationMode::BySemanticSurface {
            (fragment.source().surface_id.clone(), Some(class_key))
        } else {
            (class_key, None)
        };
        let ghost item = routed(mode, fragment);
        let ghost before = self.buckets();
        assert(item.key == key@ && item.class_name == text_of(hint));

        // The buckets are taken out as a list and put back as a list, so
        // that the aggregator is well formed at every moment in between.
        let mut buckets: Vec<MeshBucket<P>> = Vec::new();
        core::mem::swap(&mut self.buckets, &mut buckets);
        assert(buckets@.map_values(|bucket: MeshBucket<P>| bucket@) == before);

        let done = match find_bucket(&buckets, &key) {
            Some(i) => {
                assert(has_key(before, item.key)) by {
                    assert(before[i as int].key == item.key);
                }
                assert(key_index(before, item.key) == i);
                let taken = buckets[i].absorb(fragment);
                proof {
                    let after = buckets@.map_values(|bucket: MeshBucket<P>| bucket@);
                    if taken is Ok {
                        assert(after =~= absorb_one(before, item));
                    } else {
                        assert(after =~= before);
                    }
                }
                taken
            },
            None => {
                assert(!has_key(before, item.key)) by {
                    if has_key(before, item.key) {
                        let j = key_index(before, item.key);
                        assert(buckets@[j]@.key == key@);
                    }
                }
                if fragment.vertices().len() > MAX_BUCKET_VERTICES {
                    Err(AbsorbError::CapacityExceeded)
                } else {
                    let mut bucket = MeshBucket::new(key, hint);
                    let taken = bucket.absorb(fragment);
                    proof {
                        item.mesh.lemma_append_empty();
                    }
                    buckets.push(bucket);
                    proof {
                        let after = buckets@.map_values(|bucket: MeshBucket<P>| bucket@);
                        assert(after =~= absorb_one(before, item));
                    }
                    taken
                }
            },
        };
        proof {
            let after = buckets@.map_values(|bucket: MeshBucket<P>| bucket@);
            if done is Ok {
                lemma_absorb_one_keys(before, item);
            }
            assert(distinct_keys(after));
        }
        self.buckets = buckets;
        match done {
            Ok(()) => Ok(None),
            Err(error) => Err(error),
        }
    }

    /// Hands every bucket out as a finished mesh, in the order in which the
    /// keys first came, and ends the aggregator.
    pub fn finish(self) -> (outputs: Vec<OutputMesh<P>>)
        ensures
            self.wf(),
            outputs@.len() == self.buckets().len(),
            forall|i: int|
                0 <= i < outputs@.len() ==> (#[trigger] outputs@[i])@ == bucket_output(
                    self.mode(),
                    self.building(),
                    self.buckets()[i],
                ),
            forall|i: int| 0 <= i < outputs@.len() ==> (#[trigger] outputs@[i])@.mesh.wf(),
    {
        proof {
            use_type_invariant(&self);
        }
        let ghost views = self.buckets();
        let Aggregator { building_id, mode, buckets } = self;
        let ghost all = buckets@;
        let mut outputs: Vec<OutputMesh<P>> = Vec::new();
        for bucket in it: buckets
            invariant
                it.seq() == all,
                views == all.map_values(|bucket: MeshBucket<P>| bucket@),
                outputs@.len() == it.index(),
                forall|j: int|
                    0 <= j < it.index() ==> (#[trigger] outputs@[j])@ == bucket_output(
                        mode,
                        building_id@,
                        views[j],
                    ),
                forall|j: int| 0 <= j < it.index() ==> (#[trigger] outputs@[j])@.mesh.wf(),
        {
            let ghost view = bucket@;
            assert(view == views[it.index() as int]);
            let (key, class_name, vertices, triangle_indices) = bucket.into_parts();
            let output = if mode == AggregationMode::BySemanticSurface {
                let label = match class_name {
                    Some(name) => name,
                    None => String::from_str("UnknownSurface"),
                };
                OutputMesh {
                    building_id: building_id.clone(),
                    output_id: make_surface_output_id(&building_id, &label, &key),
                    thematic_label: label,
                    vertices,
                    triangle_indices,
                }
            } else {
                OutputMesh {
                    building_id: building_id.clone(),
                    output_id: make_class_output_id(&building_id, &key),
                    thematic_label: key,
                    vertices,
                    triangle_indices,
                }
            };
            assert(output@ == bucket_output(mode, building_id@, view));
            outputs.push(output);
        }
        outputs
    }

    /// The mode that the aggregator was made with.
    pub fn grouping(&self) -> (mode: AggregationMode)
        ensures
            mode == self.mode(),
    {
        self.mode
    }

    /// The number of buckets.
    pub fn bucket_count(&self) -> (count: usize)
        ensures
            count == self.buckets().len(),
    {
        self.buckets.len()
    }
}

/// The first bucket with the key, if there is one.
fn find_bucket<P>(buckets: &Vec<MeshBucket<P>>, key: &String) -> (found: Option<usize>)
    ensures
        match found {
            Some(i) => i < buckets@.len() && buckets@[i as int]@.key == key@,
            None => forall|j: int| 0 <= j < buckets@.len() ==> (#[trigger] buckets@[j])@.key != key@,
        },
{
    let mut i: usize = 0;
    while i < buckets.len()
        invariant
            i <= buckets@.len(),
            forall|j: int| 0 <= j < i ==> (#[trigger] buckets@[j])@.key != key@,
        decreases buckets@.len() - i,
    {
        if *buckets[i].key() == *key {
            return Some(i);
        }
        i += 1;
    }
    None
}

/// Taking an item in keeps the keys distinct, and adds the item's key to them
/// where it was not among them.
pub proof fn lemma_absorb_one_keys<P>(buckets: Seq<BucketView<P>>, item: BucketView<P>)
    requires
        distinct_keys(buckets),
    ensures
        distinct_keys(absorb_one(buckets, item)),
        has_key(absorb_one(buckets, item), item.key),
        forall|key: Seq<char>|
            has_key(absorb_one(buckets, item), key) <==> (has_key(buckets, key) || key == item.key),
        absorb_one(buckets, item).len() == buckets.len() + if has_key(buckets, item.key) {
            0int
        } else {
            1int
        },
{
    let after = absorb_one(buckets, item);
    if has_key(buckets, item.key) {
        let i = key_index(buckets, item.key);
        assert(after[i].key == item.key);
        assert forall|key: Seq<char>| has_key(after, key) <==> (has_key(buckets, key) || key
            == item.key) by {
            if has_key(after, key) {
                let j = key_index(after, key);
                assert(buckets[j].key == key);
            }
            if has_key(buckets, key) {
                let j = key_index(buckets, key);
                assert(after[j].key == key);
            }
        }
    } else {
        assert(after[buckets.len() as int].key == item.key);
        assert forall|key: Seq<char>| has_key(after, key) <==> (has_key(buckets, key) || key
            == item.key) by {
            if has_key(after, key) {
                let j = key_index(after, key);
                if j < buckets.len() {
                    assert(buckets[j].key == key);
                }
            }
            if has_key(buckets, key) {
                let j = key_index(buckets, key);
                assert(after[j].key == key);
            }
        }
    }
}

} // verus!
