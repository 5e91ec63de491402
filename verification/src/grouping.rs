use crate::aggregator::{
    absorb_all, absorb_one, all_meshes_wf, distinct_keys, has_key, key_index, lemma_absorb_one_keys,
};
use crate::bucket::BucketView;
use crate::mesh::MeshView;
use vstd::prelude::*;

verus! {

/// The keys of a run of items or of a list of buckets, in order.
pub open spec fn keys<P>(items: Seq<BucketView<P>>) -> Seq<Seq<char>> {
    items.map_values(|item: BucketView<P>| item.key)
}

/// The meshes of a run of items, in order.
pub open spec fn meshes<P>(items: Seq<BucketView<P>>) -> Seq<MeshView<P>> {
    items.map_values(|item: BucketView<P>| item.mesh)
}

/// The test for an item's key being `key`.
pub open spec fn key_is<P>(key: Seq<char>) -> spec_fn(BucketView<P>) -> bool {
    |item: BucketView<P>| item.key == key
}

/// The items of a run that have the key, in the order of the run.
pub open spec fn with_key<P>(items: Seq<BucketView<P>>, key: Seq<char>) -> Seq<BucketView<P>> {
    items.filter(key_is(key))
}

/// Every item's mesh is well formed.
pub open spec fn all_items_wf<P>(items: Seq<BucketView<P>>) -> bool {
    forall|i: int| 0 <= i < items.len() ==> (#[trigger] items[i]).mesh.wf()
}

/// The number of vertices in all the meshes together.
pub open spec fn total_vertices<P>(items: Seq<BucketView<P>>) -> nat
    decreases items.len(),
{
    if items.len() == 0 {
        0
    } else {
        total_vertices(items.drop_last()) + items.last().mesh.vertices.len()
    }
}

/// The number of indices in all the meshes together.
pub open spec fn total_indices<P>(items: Seq<BucketView<P>>) -> nat
    decreases items.len(),
{
    if items.len() == 0 {
        0
    } else {
        total_indices(items.drop_last()) + items.last().mesh.indices.len()
    }
}

/// The number of triangles in all the meshes together.
pub open spec fn total_triangles<P>(items: Seq<BucketView<P>>) -> nat
    decreases items.len(),
{
    if items.len() == 0 {
        0
    } else {
        total_triangles(items.drop_last()) + items.last().mesh.triangle_count()
    }
}

/// Replacing one mesh of a list changes the totals by the difference between
/// the two meshes.
proof fn lemma_totals_update<P>(items: Seq<BucketView<P>>, i: int, changed: BucketView<P>)
    requires
        0 <= i < items.len(),
    ensures
        total_vertices(items.update(i, changed)) + items[i].mesh.vertices.len() == total_vertices(
            items,
        ) + changed.mesh.vertices.len(),
        total_indices(items.update(i, changed)) + items[i].mesh.indices.len() == total_indices(
            items,
        ) + changed.mesh.indices.len(),
        total_triangles(items.update(i, changed)) + items[i].mesh.triangle_count()
            == total_triangles(items) + changed.mesh.triangle_count(),
    decreases items.len(),
{
    let after = items.update(i, changed);
    if i == items.len() - 1 {
        assert(after.drop_last() =~= items.drop_last());
    } else {
        assert(after.drop_last() =~= items.drop_last().update(i, changed));
        lemma_totals_update(items.drop_last(), i, changed);
    }
}

/// Taking an item in keeps every mesh well formed and adds the item's
/// vertices, indices and triangles to the totals.
pub proof fn lemma_absorb_one_meshes<P>(buckets: Seq<BucketView<P>>, item: BucketView<P>)
    requires
        all_meshes_wf(buckets),
        item.mesh.wf(),
    ensures
        all_meshes_wf(absorb_one(buckets, item)),
        total_vertices(absorb_one(buckets, item)) == total_vertices(buckets)
            + item.mesh.vertices.len(),
        total_indices(absorb_one(buckets, item)) == total_indices(buckets)
            + item.mesh.indices.len(),
        total_triangles(absorb_one(buckets, item)) == total_triangles(buckets)
            + item.mesh.triangle_count(),
{
    let after = absorb_one(buckets, item);
    if has_key(buckets, item.key) {
        let i = key_index(buckets, item.key);
        buckets[i].mesh.lemma_append_wf(item.mesh);
        lemma_totals_update(buckets, i, after[i]);
        assert forall|j: int| 0 <= j < after.len() implies (#[trigger] after[j]).mesh.wf() by {
            if j != i {
                assert(after[j] == buckets[j]);
            }
        }
    } else {
        assert(after.drop_last() =~= buckets);
        assert forall|j: int| 0 <= j < after.len() implies (#[trigger] after[j]).mesh.wf() by {
            if j < buckets.len() {
                assert(after[j] == buckets[j]);
            }
        }
    }
}

/// Whatever the items and in whatever order they come, taking them in one
/// after another keeps the keys distinct and every index of every bucket
/// within that bucket's vertices. A key is among the buckets afterwards if it
/// was before or one of the items had it, and the buckets hold what they held
/// before and what the items brought, no vertex and no triangle more or less.
pub proof fn lemma_absorb_all<P>(buckets: Seq<BucketView<P>>, items: Seq<BucketView<P>>)
    requires
        distinct_keys(buckets),
        all_meshes_wf(buckets),
        all_items_wf(items),
    ensures
        distinct_keys(absorb_all(buckets, items)),
        all_meshes_wf(absorb_all(buckets, items)),
        forall|key: Seq<char>|
            has_key(absorb_all(buckets, items), key) <==> (has_key(buckets, key) || has_key(
                items,
                key,
            )),
        total_vertices(absorb_all(buckets, items)) == total_vertices(buckets) + total_vertices(
            items,
        ),
        total_indices(absorb_all(buckets, items)) == total_indices(buckets) + total_indices(items),
        total_triangles(absorb_all(buckets, items)) == total_triangles(buckets) + total_triangles(
            items,
        ),
    decreases items.len(),
{
    let after = absorb_all(buckets, items);
    if items.len() == 0 {
        assert forall|key: Seq<char>| has_key(after, key) <==> (has_key(buckets, key) || has_key(
            items,
            key,
        )) by {}
    } else {
        let front = items.drop_last();
        let last = items.last();
        let before = absorb_all(buckets, front);
        assert(all_items_wf(front)) by {
            assert forall|i: int| 0 <= i < front.len() implies (#[trigger] front[i]).mesh.wf() by {
                assert(front[i] == items[i]);
            }
        }
        lemma_absorb_all(buckets, front);
        lemma_absorb_one_keys(before, last);
        lemma_absorb_one_meshes(before, last);
        assert forall|key: Seq<char>| has_key(after, key) <==> (has_key(buckets, key) || has_key(
            items,
            key,
        )) by {
            if has_key(front, key) {
                let j = key_index(front, key);
                assert(items[j].key == key);
            }
            if has_key(items, key) {
                let j = key_index(items, key);
                if j < front.len() {
                    assert(front[j].key == key);
                }
            }
            if key == last.key {
                assert(items[items.len() - 1].key == key);
            }
        }
    }
}

/// Starting without buckets, a run of items makes as many buckets as the run
/// has different keys.
pub proof fn lemma_bucket_count<P>(items: Seq<BucketView<P>>)
    requires
        all_items_wf(items),
    ensures
        absorb_all(Seq::<BucketView<P>>::empty(), items).len() == keys(items).to_set().len(),
{
    let start = Seq::<BucketView<P>>::empty();
    let after = absorb_all(start, items);
    lemma_absorb_all(start, items);
    assert(keys(after).no_duplicates()) by {
        assert forall|i: int, j: int|
            0 <= i < keys(after).len() && 0 <= j < keys(after).len() && i != j implies keys(
            after,
        )[i] != keys(after)[j] by {
            assert(after[i].key != after[j].key);
        }
    }
    keys(after).unique_seq_to_set();
    assert(keys(after).to_set() =~= keys(items).to_set()) by {
        assert forall|key: Seq<char>| keys(after).to_set().contains(key) <==> keys(
            items,
        ).to_set().contains(key) by {
            if keys(after).contains(key) {
                let i = choose|i: int| 0 <= i < keys(after).len() && keys(after)[i] == key;
                assert(after[i].key == key);
                assert(has_key(after, key));
                assert(!has_key(start, key));
                assert(has_key(items, key));
                let j = key_index(items, key);
                assert(keys(items)[j] == key);
            }
            if keys(items).contains(key) {
                let i = choose|i: int| 0 <= i < keys(items).len() && keys(items)[i] == key;
                assert(items[i].key == key);
                assert(has_key(items, key));
                assert(has_key(after, key));
                let j = key_index(after, key);
                assert(keys(after)[j] == key);
            }
        }
    }
}

/// Starting without buckets, each bucket ends up holding exactly the items of
/// its key: its mesh is the merged mesh of those items, in the order in which
/// they came. So every item has gone to one bucket and to no other.
pub proof fn lemma_bucket_content<P>(items: Seq<BucketView<P>>, i: int)
    requires
        all_items_wf(items),
        0 <= i < absorb_all(Seq::<BucketView<P>>::empty(), items).len(),
    ensures
        ({
            let bucket = absorb_all(Seq::<BucketView<P>>::empty(), items)[i];
            bucket.mesh == MeshView::merge(meshes(with_key(items, bucket.key)))
        }),
    decreases items.len(),
{
    let start = Seq::<BucketView<P>>::empty();
    let after = absorb_all(start, items);
    if items.len() > 0 {
        let front = items.drop_last();
        let last = items.last();
        let before = absorb_all(start, front);
        let key = after[i].key;
        assert(all_items_wf(front)) by {
            assert forall|j: int| 0 <= j < front.len() implies (#[trigger] front[j]).mesh.wf() by {
                assert(front[j] == items[j]);
            }
        }
        lemma_absorb_all(start, front);
        lemma_absorb_one_keys(before, last);
        assert(items =~= front.push(last));
        front.lemma_filter_push(last, key_is(key));
        if key == last.key {
            let chosen = with_key(front, key);
            assert(with_key(items, key) == chosen.push(last));
            assert(meshes(chosen.push(last)) =~= meshes(chosen).push(last.mesh));
            assert(meshes(chosen).push(last.mesh).drop_last() =~= meshes(chosen));
            assert(MeshView::merge(meshes(with_key(items, key))) == MeshView::merge(
                meshes(chosen),
            ).append(last.mesh));
            if has_key(before, last.key) {
                let at = key_index(before, last.key);
                assert(at == i) by {
                    assert(after[at].key == key);
                }
                lemma_bucket_content(front, i);
                assert(before[i].key == key);
                assert(after[i].mesh == before[i].mesh.append(last.mesh));
            } else {
                assert(i == before.len()) by {
                    if i < before.len() {
                        assert(after[i] == before[i]);
                        assert(before[i].key == key);
                    }
                }
                assert(chosen.len() == 0) by {
                    if chosen.len() > 0 {
                        front.lemma_filter_pred(key_is(key), 0);
                        assert(chosen.contains(chosen[0]));
                        front.lemma_filter_contains_rev(key_is(key), chosen[0]);
                        let j = choose|j: int| 0 <= j < front.len() && front[j] == chosen[0];
                        assert(front[j].key == key);
                        assert(has_key(front, key));
                        assert(has_key(before, key));
                    }
                }
                assert(meshes(chosen) =~= Seq::<MeshView<P>>::empty());
                last.mesh.lemma_append_empty();
                assert(after[i] == last);
            }
        } else {
            assert(with_key(items, key) == with_key(front, key));
            if has_key(before, last.key) {
                let at = key_index(before, last.key);
                assert(at != i) by {
                    assert(after[at].key == last.key);
                }
                assert(after[i] == before[i]);
            } else {
                assert(i < before.len()) by {
                    assert(after[before.len() as int].key == last.key);
                }
                assert(after[i] == before[i]);
            }
            lemma_bucket_content(front, i);
        }
    }
}

} // verus!
