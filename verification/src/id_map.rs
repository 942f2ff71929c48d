use vstd::prelude::*;
use crate::items::Copyable;

verus! {

/// The map that a list of entries stands for: a later entry for a key
/// overrides an earlier one.
pub open spec fn entries_map<V: View>(s: Seq<(String, V)>) -> Map<Seq<char>, V::V>
    decreases s.len(),
{
    if s.len() == 0 {
        Map::empty()
    } else {
        entries_map(s.drop_last()).insert(s.last().0@, s.last().1@)
    }
}

/// A map keyed by identifiers, kept as the list of its entries in the order
/// they were written.
#[derive(Clone, Debug)]
pub struct IdMap<V> {
    pub entries: Vec<(String, V)>,
}

impl<V: View> View for IdMap<V> {
    type V = Map<Seq<char>, V::V>;

    open spec fn view(&self) -> Map<Seq<char>, V::V> {
        entries_map(self.entries@)
    }
}

/// The entries after position `i` do not hold `k`, so the whole list and its
/// first `i` entries agree on `k`.
pub proof fn lemma_entries_tail_without_key<V: View>(s: Seq<(String, V)>, i: int, k: Seq<char>)
    requires
        0 <= i <= s.len(),
        forall|j: int| i <= j < s.len() ==> s[j].0@ != k,
    ensures
        entries_map(s).contains_key(k) == entries_map(s.take(i)).contains_key(k),
        entries_map(s).contains_key(k) ==> entries_map(s)[k] == entries_map(s.take(i))[k],
    decreases s.len(),
{
    if s.len() > i {
        lemma_entries_tail_without_key(s.drop_last(), i, k);
        assert(s.drop_last().take(i) =~= s.take(i));
    } else {
        assert(s.take(i) =~= s);
    }
}

/// The map of a list is empty exactly when the list is.
pub proof fn lemma_entries_empty<V: View>(s: Seq<(String, V)>)
    ensures
        (entries_map(s).dom().len() == 0) == (s.len() == 0),
        entries_map(s).dom().finite(),
        s.len() > 0 ==> entries_map(s).contains_key(s.last().0@),
    decreases s.len(),
{
    if s.len() > 0 {
        lemma_entries_empty(s.drop_last());
        let m = entries_map(s.drop_last());
        assert(entries_map(s).contains_key(s.last().0@));
        if entries_map(s).dom().len() == 0 {
            assert(entries_map(s).dom().contains(s.last().0@));
            vstd::set_lib::lemma_set_empty_equivalency_len(entries_map(s).dom());
        }
    } else {
        assert(entries_map(s).dom() =~= Set::<Seq<char>>::empty());
    }
}

/// Appending entries gives the map of the first list overridden by that of the second.
pub proof fn lemma_entries_concat<V: View>(a: Seq<(String, V)>, b: Seq<(String, V)>)
    ensures
        entries_map(a + b) == entries_map(a).union_prefer_right(entries_map(b)),
    decreases b.len(),
{
    if b.len() == 0 {
        assert(a + b =~= a);
        assert(entries_map(a).union_prefer_right(entries_map(b)) =~= entries_map(a));
    } else {
        lemma_entries_concat(a, b.drop_last());
        assert((a + b).drop_last() =~= a + b.drop_last());
        assert((a + b).last() == b.last());
        assert(entries_map(a + b) =~= entries_map(a).union_prefer_right(entries_map(b)));
    }
}

impl<V: View> IdMap<V> {
    pub fn new() -> (r: Self)
        ensures
            r@ == Map::<Seq<char>, V::V>::empty(),
            r.entries@.len() == 0,
    {
        IdMap { entries: Vec::new() }
    }

    /// Whether the map holds no key.
    pub fn is_empty(&self) -> (r: bool)
        ensures
            r == (self@.dom().len() == 0),
            r == (self.entries@.len() == 0),
    {
        proof { lemma_entries_empty(self.entries@); }
        self.entries.len() == 0
    }

    /// Writes `value` under `key`.
    pub fn insert(&mut self, key: String, value: V)
        ensures
            final(self)@ == old(self)@.insert(key@, value@),
    {
        let ghost k = key@;
        let ghost v = value@;
        self.entries.push((key, value));
        proof {
            assert(self.entries@.drop_last() =~= old(self).entries@);
        }
    }

    /// The value under `key`, if any.
    pub fn get(&self, key: &String) -> (r: Option<&V>)
        ensures
            r is Some == self@.contains_key(key@),
            r matches Some(v) ==> v@ == self@[key@],
    {
        let mut i: usize = self.entries.len();
        while i > 0
            invariant
                i <= self.entries@.len(),
                forall|j: int| i <= j < self.entries@.len() ==> self.entries@[j].0@ != key@,
            decreases i,
        {
            if self.entries[i - 1].0 == *key {
                proof {
                    let s = self.entries@;
                    lemma_entries_tail_without_key(s, i as int, key@);
                    assert(s.take(i as int).drop_last() =~= s.take(i as int - 1));
                    assert(s.take(i as int).last() == s[i as int - 1]);
                }
                return Some(&self.entries[i - 1].1);
            }
            i -= 1;
        }
        proof {
            lemma_entries_tail_without_key(self.entries@, 0, key@);
            assert(self.entries@.take(0) =~= Seq::<(String, V)>::empty());
        }
        None
    }

    /// Whether the map holds `key`.
    pub fn contains_key(&self, key: &String) -> (r: bool)
        ensures
            r == self@.contains_key(key@),
    {
        self.get(key).is_some()
    }
}

impl<V: Copyable> Copyable for IdMap<V> {
    fn duplicate(&self) -> (r: Self) {
        let mut entries: Vec<(String, V)> = Vec::new();
        let mut i: usize = 0;
        while i < self.entries.len()
            invariant
                i <= self.entries@.len(),
                entries@.len() == i,
                forall|j: int| 0 <= j < i ==> #[trigger] entries@[j].0@ == self.entries@[j].0@
                    && entries@[j].1@ == self.entries@[j].1@,
            decreases self.entries@.len() - i,
        {
            let k = self.entries[i].0.clone();
            let v = self.entries[i].1.duplicate();
            entries.push((k, v));
            i += 1;
        }
        let r = IdMap { entries };
        proof { lemma_entries_same_views(r.entries@, self.entries@); }
        r
    }
}

/// Two lists whose entries have the same views stand for the same map.
pub proof fn lemma_entries_same_views<V: View>(a: Seq<(String, V)>, b: Seq<(String, V)>)
    requires
        a.len() == b.len(),
        forall|j: int| 0 <= j < a.len() ==> #[trigger] a[j].0@ == b[j].0@ && a[j].1@ == b[j].1@,
    ensures
        entries_map(a) == entries_map(b),
    decreases a.len(),
{
    if a.len() > 0 {
        lemma_entries_same_views(a.drop_last(), b.drop_last());
        assert(a.last().0@ == b.last().0@ && a.last().1@ == b.last().1@);
    }
}

} // verus!
