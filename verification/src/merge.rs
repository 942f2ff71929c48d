use vstd::prelude::*;
use crate::items::{MergeItem, views, contains_item};
use crate::id_map::{IdMap, lemma_entries_concat, lemma_entries_empty};

verus! {

/// How the value of a task field combines with the value inherited so far.
#[derive(Clone, Copy, Debug, PartialEq, Eq, Structural)]
pub enum TaskMergeStrategy {
    Append,
    Prepend,
    Replace,
}

/// `list` followed by those of `items` that are kept: with `keep_all` every
/// item, otherwise each item that the list built so far does not hold yet.
pub open spec fn append_items<V>(list: Seq<V>, items: Seq<V>, keep_all: bool) -> Seq<V>
    decreases items.len(),
{
    if items.len() == 0 {
        list
    } else {
        let prev = append_items(list, items.drop_last(), keep_all);
        let x = items.last();
        if keep_all || !prev.contains(x) {
            prev.push(x)
        } else {
            prev
        }
    }
}

/// The list that merging `next` into `base` with `strategy` gives.
pub open spec fn merged_list<V>(base: Seq<V>, next: Seq<V>, strategy: TaskMergeStrategy, dedupe: bool) -> Seq<V> {
    match strategy {
        TaskMergeStrategy::Append => if next.len() == 0 {
            base
        } else {
            append_items(base, next, !dedupe)
        },
        TaskMergeStrategy::Prepend => if next.len() == 0 {
            base
        } else {
            append_items(next, base, !dedupe)
        },
        TaskMergeStrategy::Replace => next,
    }
}

fn append_into<T: MergeItem>(list: &mut Vec<T>, items: &Vec<T>, keep_all: bool)
    ensures
        views(final(list)@) == append_items(views(old(list)@), views(items@), keep_all),
{
    let ghost start = views(list@);
    let mut i: usize = 0;
    while i < items.len()
        invariant
            i <= items.len(),
            views(list@) == append_items(start, views(items@).take(i as int), keep_all),
        decreases items.len() - i,
    {
        let ghost prev = views(list@);
        assert(views(items@).take(i as int + 1).drop_last() =~= views(items@).take(i as int));
        let present = contains_item(list, &items[i]);
        if keep_all || !present {
            list.push(items[i].duplicate());
            assert(views(list@) =~= prev.push(items@[i as int]@));
        }
        i += 1;
    }
    assert(views(items@).take(items.len() as int) =~= views(items@));
}

/// Keeping every item of a list, starting from nothing, gives that list.
pub proof fn lemma_append_all_from_empty<V>(items: Seq<V>)
    ensures
        append_items(Seq::<V>::empty(), items, true) == items,
    decreases items.len(),
{
    if items.len() > 0 {
        lemma_append_all_from_empty(items.drop_last());
        assert(items.drop_last().push(items.last()) =~= items);
    }
}

/// Merges `next` into `base` as `strategy` says. With `dedupe`, an item of the
/// second list is left out when the merged list already holds it; the first
/// list is always copied whole.
pub fn merge_vec<T: MergeItem>(base: Vec<T>, next: Vec<T>, strategy: TaskMergeStrategy, dedupe: bool) -> (r: Vec<T>)
    ensures
        views(r@) == merged_list(views(base@), views(next@), strategy, dedupe),
{
    match strategy {
        TaskMergeStrategy::Append => {
            if next.len() == 0 {
                return base;
            }
            let mut list: Vec<T> = Vec::new();
            assert(views(list@) =~= Seq::<T::V>::empty());
            append_into(&mut list, &base, true);
            proof { lemma_append_all_from_empty(views(base@)); }
            append_into(&mut list, &next, !dedupe);
            list
        },
        TaskMergeStrategy::Prepend => {
            if next.len() == 0 {
                return base;
            }
            let mut list: Vec<T> = Vec::new();
            assert(views(list@) =~= Seq::<T::V>::empty());
            append_into(&mut list, &next, true);
            proof { lemma_append_all_from_empty(views(next@)); }
            append_into(&mut list, &base, !dedupe);
            list
        },
        TaskMergeStrategy::Replace => next,
    }
}

/// The map that merging `next` into `base` with `strategy` gives: appending
/// lets `next` override `base`, prepending lets `base` override `next`.
pub open spec fn merged_map<K, V>(base: Map<K, V>, next: Map<K, V>, strategy: TaskMergeStrategy) -> Map<K, V> {
    match strategy {
        TaskMergeStrategy::Append => base.union_prefer_right(next),
        TaskMergeStrategy::Prepend => next.union_prefer_right(base),
        TaskMergeStrategy::Replace => next,
    }
}

/// Merges the map `next` into `base` as `strategy` says.
pub fn merge_map<V: View>(base: IdMap<V>, next: IdMap<V>, strategy: TaskMergeStrategy) -> (r: IdMap<V>)
    ensures
        r@ == merged_map(base@, next@, strategy),
{
    proof {
        lemma_entries_empty(next.entries@);
        lemma_entries_empty(base.entries@);
    }
    match strategy {
        TaskMergeStrategy::Append => {
            if next.is_empty() {
                assert(next@ =~= Map::<Seq<char>, V::V>::empty());
                assert(base@.union_prefer_right(next@) =~= base@);
                return base;
            }
            let mut entries = base.entries;
            let mut rest = next.entries;
            let ghost a = entries@;
            let ghost b = rest@;
            entries.append(&mut rest);
            proof { lemma_entries_concat(a, b); }
            IdMap { entries }
        },
        TaskMergeStrategy::Prepend => {
            if next.is_empty() {
                assert(next@ =~= Map::<Seq<char>, V::V>::empty());
                assert(next@.union_prefer_right(base@) =~= base@);
                return base;
            }
            let mut entries = next.entries;
            let mut rest = base.entries;
            let ghost a = entries@;
            let ghost b = rest@;
            entries.append(&mut rest);
            proof { lemma_entries_concat(a, b); }
            IdMap { entries }
        },
        TaskMergeStrategy::Replace => next,
    }
}

} // verus!
