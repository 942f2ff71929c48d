use vstd::prelude::*;

verus! {

/// Values that can be copied; a copy has the view of the value it copies.
pub trait Copyable: View + Sized {
    fn duplicate(&self) -> (r: Self)
        ensures
            r@ == self@,
    ;
}

/// Items that the merge of two lists compares: two items are the same when
/// their views are equal.
pub trait MergeItem: Copyable {
    fn same_as(&self, other: &Self) -> (r: bool)
        ensures
            r == (self@ == other@),
    ;
}

/// The views of the items of a sequence, in order.
pub open spec fn views<T: View>(s: Seq<T>) -> Seq<T::V> {
    s.map_values(|t: T| t@)
}

impl Copyable for String {
    fn duplicate(&self) -> (r: Self) {
        self.clone()
    }
}

impl MergeItem for String {
    fn same_as(&self, other: &Self) -> (r: bool) {
        *self == *other
    }
}

/// A copy of a list, item by item.
pub fn copy_vec<T: Copyable>(v: &Vec<T>) -> (r: Vec<T>)
    ensures
        views(r@) == views(v@),
{
    let mut r: Vec<T> = Vec::new();
    let mut i: usize = 0;
    while i < v.len()
        invariant
            i <= v.len(),
            views(r@) == views(v@).take(i as int),
        decreases v.len() - i,
    {
        let ghost prev = r@;
        let x = v[i].duplicate();
        r.push(x);
        assert(r@ == prev.push(x));
        assert(views(r@) =~= views(prev).push(v@[i as int]@));
        assert(views(r@) =~= views(v@).take(i as int + 1));
        i += 1;
    }
    assert(views(v@).take(v.len() as int) =~= views(v@));
    r
}

/// Appends a copy of each item of `items` to `list`.
pub fn extend_copies<T: Copyable>(list: &mut Vec<T>, items: &Vec<T>)
    ensures
        views(final(list)@) == views(old(list)@) + views(items@),
{
    let ghost start = views(list@);
    let mut i: usize = 0;
    while i < items.len()
        invariant
            i <= items.len(),
            views(list@) == start + views(items@).take(i as int),
        decreases items.len() - i,
    {
        let ghost prev = list@;
        let x = items[i].duplicate();
        list.push(x);
        assert(list@ == prev.push(x));
        assert(views(list@) =~= views(prev).push(items@[i as int]@));
        assert(views(list@) =~= start + views(items@).take(i as int + 1));
        i += 1;
    }
    assert(views(items@).take(items.len() as int) =~= views(items@));
}

/// Whether `list` holds an item with the view of `item`.
pub fn contains_item<T: MergeItem>(list: &Vec<T>, item: &T) -> (r: bool)
    ensures
        r == views(list@).contains(item@),
{
    let mut i: usize = 0;
    while i < list.len()
        invariant
            i <= list.len(),
            forall|j: int| 0 <= j < i ==> list@[j]@ != item@,
        decreases list.len() - i,
    {
        if list[i].same_as(item) {
            assert(views(list@)[i as int] == item@);
            return true;
        }
        i += 1;
    }
    proof {
        if views(list@).contains(item@) {
            let j = choose|j: int| 0 <= j < views(list@).len() && views(list@)[j] == item@;
            assert(list@[j]@ == item@);
        }
    }
    false
}

} // verus!
