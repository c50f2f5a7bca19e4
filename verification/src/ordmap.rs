//! A map kept as a vector sorted by key.
//!
//! Entries are found by binary search and listed in ascending key order. Inserting under a
//! key that is present replaces its value.

use vstd::prelude::*;

use crate::key_order::{text_before, text_before_irreflexive, KeyOrder, MapKey};

verus! {

/// Some pair of `s` has the key `k`.
pub open spec fn has_key<A, B>(s: Seq<(A, B)>, k: A) -> bool {
    exists|i: int| 0 <= i < s.len() && (#[trigger] s[i]).0 == k
}

/// A position at which `s` holds the key `k`, where it does.
pub open spec fn position_of<A, B>(s: Seq<(A, B)>, k: A) -> int {
    choose|i: int| 0 <= i < s.len() && (#[trigger] s[i]).0 == k
}

/// The finite map that a sequence of pairs with distinct keys stands for.
pub open spec fn map_of<A, B>(s: Seq<(A, B)>) -> Map<A, B> {
    Map::new(|k: A| has_key(s, k), |k: A| s[position_of(s, k)].1)
}

/// The keys of `s` ascend strictly.
pub open spec fn ascending<K: MapKey, B>(s: Seq<(K::V, B)>) -> bool {
    forall|i: int, j: int|
        0 <= i < j < s.len() ==> K::before((#[trigger] s[i]).0, (#[trigger] s[j]).0)
}

/// A map from `K` to `V`, sorted by key.
#[derive(Debug)]
pub struct OrdMap<K: MapKey, V: View> {
    entries: Vec<(K, V)>,
}

impl<K: MapKey, V: View> View for OrdMap<K, V> {
    type V = Map<K::V, V::V>;

    open spec fn view(&self) -> Map<K::V, V::V> {
        map_of(self.pairs())
    }
}

/// In an ascending sequence a key stands at one position only, and the map has its value.
proof fn lookup_is_exact<K: MapKey, B>(s: Seq<(K::V, B)>, i: int)
    requires
        ascending::<K, B>(s),
        0 <= i < s.len(),
    ensures
        map_of(s).dom().contains(s[i].0),
        map_of(s)[s[i].0] == s[i].1,
        position_of(s, s[i].0) == i,
{
    let k = s[i].0;
    assert(has_key(s, k));
    let j = position_of(s, k);
    K::before_irreflexive(k);
    assert(s[j].0 == k);
}

impl<K: MapKey, V: View> OrdMap<K, V> {
    /// The entries in ascending key order.
    pub closed spec fn pairs(&self) -> Seq<(K::V, V::V)> {
        self.entries@.map_values(|e: (K, V)| (e.0@, e.1@))
    }

    #[verifier::type_invariant]
    spec fn sorted(self) -> bool {
        ascending::<K, V::V>(self.pairs())
    }

    /// The empty map.
    pub fn new() -> (map: Self)
        ensures
            map.pairs() == Seq::<(K::V, V::V)>::empty(),
            map@ == Map::<K::V, V::V>::empty(),
    {
        let map = OrdMap { entries: Vec::new() };
        assert(map@ =~= Map::<K::V, V::V>::empty());
        map
    }

    /// The number of entries.
    pub fn len(&self) -> (count: usize)
        ensures
            count == self.pairs().len(),
            count == self@.len(),
            self@.dom().finite(),
            ascending::<K, V::V>(self.pairs()),
    {
        proof {
            use_type_invariant(self);
            lemma_len::<K, V::V>(self.pairs());
        }
        self.entries.len()
    }

    /// The entry at position `at` of the ascending list.
    pub fn entry(&self, at: usize) -> (entry: (&K, &V))
        requires
            at < self.pairs().len(),
        ensures
            (entry.0@, entry.1@) == self.pairs()[at as int],
    {
        let entry = &self.entries[at];
        (&entry.0, &entry.1)
    }

    /// Where `key` stands, or where it would have to be put.
    fn find(&self, key: &K) -> (place: (bool, usize))
        requires
            ascending::<K, V::V>(self.pairs()),
        ensures
            place.1 <= self.pairs().len(),
            place.0 == has_key(self.pairs(), key@),
            place.0 ==> place.1 < self.pairs().len() && self.pairs()[place.1 as int].0 == key@,
            !place.0 ==> {
                &&& forall|i: int|
                    0 <= i < place.1 ==> K::before((#[trigger] self.pairs()[i]).0, key@)
                &&& forall|i: int|
                    place.1 <= i < self.pairs().len() ==> K::before(
                        key@,
                        (#[trigger] self.pairs()[i]).0,
                    )
            },
    {
        let mut low: usize = 0;
        let mut high: usize = self.entries.len();
        while low < high
            invariant
                low <= high <= self.entries@.len(),
                self.entries@.len() == self.pairs().len(),
                ascending::<K, V::V>(self.pairs()),
                forall|i: int| 0 <= i < low ==> K::before((#[trigger] self.pairs()[i]).0, key@),
                forall|i: int|
                    high <= i < self.pairs().len() ==> K::before(
                        key@,
                        (#[trigger] self.pairs()[i]).0,
                    ),
            decreases high - low,
        {
            let middle: usize = low + (high - low) / 2;
            let ghost here = self.pairs()[middle as int].0;
            match self.entries[middle].0.order(key) {
                KeyOrder::Same => {
                    assert(self.pairs()[middle as int].0 == key@);
                    return (true, middle);
                },
                KeyOrder::Before => {
                    assert forall|i: int| 0 <= i < middle + 1 implies K::before(
                        (#[trigger] self.pairs()[i]).0,
                        key@,
                    ) by {
                        if i < middle {
                            K::before_transitive(self.pairs()[i].0, here, key@);
                        }
                    }
                    low = middle + 1;
                },
                KeyOrder::After => {
                    assert forall|i: int| middle <= i < self.pairs().len() implies K::before(
                        key@,
                        (#[trigger] self.pairs()[i]).0,
                    ) by {
                        if middle < i {
                            K::before_transitive(key@, here, self.pairs()[i].0);
                        }
                    }
                    high = middle;
                },
            }
        }
        proof {
            K::before_irreflexive(key@);
        }
        (false, low)
    }

    /// Puts `value` under `key` and hands back the value that it replaces, if any.
    pub fn insert(&mut self, key: K, value: V) -> (replaced: Option<V>)
        ensures
            final(self)@ == old(self)@.insert(key@, value@),
            match replaced {
                Some(v) => old(self)@.dom().contains(key@) && v@ == old(self)@[key@],
                None => !old(self)@.dom().contains(key@),
            },
    {
        proof {
            use_type_invariant(&*self);
        }
        let ghost before = self.pairs();
        let (found, at) = self.find(&key);
        let mut entries: Vec<(K, V)> = Vec::new();
        std::mem::swap(&mut entries, &mut self.entries);
        assert(entries@.map_values(|e: (K, V)| (e.0@, e.1@)) == before);
        let ghost pair = (key@, value@);
        let mut replaced: Option<V> = None;
        if found {
            let (_, previous) = entries.remove(at);
            replaced = Some(previous);
            entries.insert(at, (key, value));
        } else {
            entries.insert(at, (key, value));
        }
        let ghost after = entries@.map_values(|e: (K, V)| (e.0@, e.1@));
        proof {
            if found {
                assert(after =~= before.update(at as int, pair));
                lemma_update::<K, V::V>(before, at as int, pair.1);
                lookup_is_exact::<K, V::V>(before, at as int);
            } else {
                assert(after =~= before.insert(at as int, pair));
                lemma_insert::<K, V::V>(before, at as int, pair);
            }
        }
        self.entries = entries;
        replaced
    }

    /// Takes the value under `key` out of the map, if there is one.
    pub fn remove(&mut self, key: &K) -> (removed: Option<V>)
        ensures
            final(self)@ == old(self)@.remove(key@),
            match removed {
                Some(v) => old(self)@.dom().contains(key@) && v@ == old(self)@[key@],
                None => !old(self)@.dom().contains(key@),
            },
    {
        proof {
            use_type_invariant(&*self);
        }
        let ghost before = self.pairs();
        let (found, at) = self.find(key);
        if !found {
            assert(map_of(before).remove(key@) =~= map_of(before));
            return None;
        }
        let mut entries: Vec<(K, V)> = Vec::new();
        std::mem::swap(&mut entries, &mut self.entries);
        assert(entries@.map_values(|e: (K, V)| (e.0@, e.1@)) == before);
        let (_, value) = entries.remove(at);
        let ghost after = entries@.map_values(|e: (K, V)| (e.0@, e.1@));
        proof {
            assert(after =~= before.remove(at as int));
            lemma_remove::<K, V::V>(before, at as int);
            lookup_is_exact::<K, V::V>(before, at as int);
        }
        self.entries = entries;
        Some(value)
    }
}

/// A map lists its entries in one way only: two ascending sequences that stand for the same
/// map are the same sequence.
pub proof fn ascending_is_canonical<K: MapKey, B>(s: Seq<(K::V, B)>, t: Seq<(K::V, B)>)
    requires
        ascending::<K, B>(s),
        ascending::<K, B>(t),
        map_of(s) == map_of(t),
    ensures
        s == t,
    decreases s.len(),
{
    lemma_len::<K, B>(s);
    lemma_len::<K, B>(t);
    if s.len() == 0 {
        assert(s =~= t);
    } else {
        let last = s.len() - 1;
        lookup_is_exact::<K, B>(s, last);
        lookup_is_exact::<K, B>(t, last);
        let i = position_of(t, s[last].0);
        let j = position_of(s, t[last].0);
        assert(has_key(t, s[last].0));
        assert(has_key(s, t[last].0));
        if i < last {
            assert(K::before(t[i].0, t[last].0));
            if j < last {
                assert(K::before(s[j].0, s[last].0));
                K::before_transitive(s[last].0, t[last].0, s[last].0);
            }
            K::before_irreflexive(s[last].0);
        }
        assert(s[last] == t[last]);
        lemma_remove::<K, B>(s, last);
        lemma_remove::<K, B>(t, last);
        ascending_is_canonical::<K, B>(s.remove(last), t.remove(last));
        assert(s =~= s.remove(last).push(s[last]));
        assert(t =~= t.remove(last).push(t[last]));
    }
}

/// Cloning a `T` gives a value with the same view.
pub open spec fn clone_keeps_view<T: View + Clone>() -> bool {
    forall|a: T, b: T| #[trigger] cloned(a, b) ==> a@ == b@
}

impl<K: MapKey + Clone, V: View + Clone> Clone for OrdMap<K, V> {
    /// A copy with the same entries, where keys and values clone to the same views.
    fn clone(&self) -> (copy: Self)
        ensures
            clone_keeps_view::<K>() && clone_keeps_view::<V>() ==> copy.pairs() == self.pairs(),
    {
        proof {
            use_type_invariant(self);
        }
        let ghost pairs = self.pairs();
        let ghost faithful = clone_keeps_view::<K>() && clone_keeps_view::<V>();
        let mut copy: OrdMap<K, V> = OrdMap::new();
        let mut at: usize = 0;
        assert(map_of(pairs.take(0)) =~= Map::<K::V, V::V>::empty());
        while at < self.entries.len()
            invariant
                at <= self.entries@.len(),
                pairs == self.pairs(),
                self.entries@.len() == pairs.len(),
                ascending::<K, V::V>(pairs),
                faithful == (clone_keeps_view::<K>() && clone_keeps_view::<V>()),
                faithful ==> copy@ == map_of(pairs.take(at as int)),
            decreases self.entries@.len() - at,
        {
            let entry = &self.entries[at];
            let key = entry.0.clone();
            let value = entry.1.clone();
            proof {
                assert(cloned(entry.0, key));
                assert(cloned(entry.1, value));
                assert((entry.0@, entry.1@) == pairs[at as int]);
                lemma_insert::<K, V::V>(pairs.take(at as int), at as int, pairs[at as int]);
                assert(pairs.take(at as int).insert(at as int, pairs[at as int]) =~= pairs.take(
                    at + 1,
                ));
            }
            copy.insert(key, value);
            at = at + 1;
        }
        proof {
            use_type_invariant(&copy);
            assert(pairs.take(at as int) =~= pairs);
            if faithful {
                ascending_is_canonical::<K, V::V>(copy.pairs(), pairs);
            }
        }
        copy
    }
}

/// Replacing a value in place replaces it in the map.
proof fn lemma_update<K: MapKey, B>(s: Seq<(K::V, B)>, at: int, value: B)
    requires
        ascending::<K, B>(s),
        0 <= at < s.len(),
    ensures
        ascending::<K, B>(s.update(at, (s[at].0, value))),
        map_of(s.update(at, (s[at].0, value))) == map_of(s).insert(s[at].0, value),
{
    let t = s.update(at, (s[at].0, value));
    assert forall|i: int, j: int| 0 <= i < j < t.len() implies K::before(
        (#[trigger] t[i]).0,
        (#[trigger] t[j]).0,
    ) by {
        assert(t[i].0 == s[i].0 && t[j].0 == s[j].0);
    }
    assert forall|k: K::V| #[trigger] has_key(t, k) == has_key(s, k) by {
        if has_key(t, k) {
            let i = position_of(t, k);
            assert(s[i].0 == k);
        }
        if has_key(s, k) {
            let i = position_of(s, k);
            assert(t[i].0 == k);
        }
    }
    assert(has_key(s, s[at].0));
    assert forall|k: K::V| has_key(t, k) implies #[trigger] map_of(t)[k] == map_of(s).insert(
        s[at].0,
        value,
    )[k] by {
        let i = position_of(t, k);
        lookup_is_exact::<K, B>(t, i);
        lookup_is_exact::<K, B>(s, i);
        lookup_is_exact::<K, B>(s, at);
    }
    assert(map_of(t) =~= map_of(s).insert(s[at].0, value));
}

/// Inserting a new key where it belongs adds it to the map.
proof fn lemma_insert<K: MapKey, B>(s: Seq<(K::V, B)>, at: int, pair: (K::V, B))
    requires
        ascending::<K, B>(s),
        0 <= at <= s.len(),
        forall|i: int| 0 <= i < at ==> K::before((#[trigger] s[i]).0, pair.0),
        forall|i: int| at <= i < s.len() ==> K::before(pair.0, (#[trigger] s[i]).0),
    ensures
        ascending::<K, B>(s.insert(at, pair)),
        map_of(s.insert(at, pair)) == map_of(s).insert(pair.0, pair.1),
{
    let t = s.insert(at, pair);
    assert forall|i: int, j: int| 0 <= i < j < t.len() implies K::before(
        (#[trigger] t[i]).0,
        (#[trigger] t[j]).0,
    ) by {
        if i < at {
            assert(t[i] == s[i]);
        } else if i > at {
            assert(t[i] == s[i - 1]);
        }
        if j < at {
            assert(t[j] == s[j]);
        } else if j > at {
            assert(t[j] == s[j - 1]);
        }
    }
    assert(t[at] == pair);
    assert forall|k: K::V| #[trigger] has_key(t, k) == (k == pair.0 || has_key(s, k)) by {
        if has_key(t, k) && k != pair.0 {
            let i = position_of(t, k);
            if i < at {
                assert(s[i].0 == k);
            } else {
                assert(s[i - 1].0 == k);
            }
        }
        if has_key(s, k) {
            let i = position_of(s, k);
            if i < at {
                assert(t[i].0 == k);
            } else {
                assert(t[i + 1].0 == k);
            }
        }
    }
    assert forall|k: K::V| has_key(t, k) implies #[trigger] map_of(t)[k] == map_of(s).insert(
        pair.0,
        pair.1,
    )[k] by {
        let i = position_of(t, k);
        lookup_is_exact::<K, B>(t, i);
        K::before_irreflexive(pair.0);
        if i < at {
            assert(t[i] == s[i]);
            lookup_is_exact::<K, B>(s, i);
        } else if i > at {
            assert(t[i] == s[i - 1]);
            lookup_is_exact::<K, B>(s, i - 1);
        }
    }
    assert(map_of(t) =~= map_of(s).insert(pair.0, pair.1));
}

/// Removing a position removes its key from the map.
proof fn lemma_remove<K: MapKey, B>(s: Seq<(K::V, B)>, at: int)
    requires
        ascending::<K, B>(s),
        0 <= at < s.len(),
    ensures
        ascending::<K, B>(s.remove(at)),
        map_of(s.remove(at)) == map_of(s).remove(s[at].0),
{
    let t = s.remove(at);
    assert forall|i: int, j: int| 0 <= i < j < t.len() implies K::before(
        (#[trigger] t[i]).0,
        (#[trigger] t[j]).0,
    ) by {
        let p = if i < at { i } else { i + 1 };
        let q = if j < at { j } else { j + 1 };
        assert(t[i] == s[p] && t[j] == s[q]);
    }
    K::before_irreflexive(s[at].0);
    assert forall|k: K::V| #[trigger] has_key(t, k) == (k != s[at].0 && has_key(s, k)) by {
        if has_key(t, k) {
            let i = position_of(t, k);
            let p = if i < at { i } else { i + 1 };
            assert(s[p].0 == k);
            lookup_is_exact::<K, B>(s, p);
            lookup_is_exact::<K, B>(s, at);
        }
        if has_key(s, k) && k != s[at].0 {
            let i = position_of(s, k);
            let p = if i < at { i } else { i - 1 };
            assert(t[p].0 == k);
        }
    }
    assert forall|k: K::V| has_key(t, k) implies #[trigger] map_of(t)[k] == map_of(s).remove(
        s[at].0,
    )[k] by {
        let i = position_of(t, k);
        let p = if i < at { i } else { i + 1 };
        assert(t[i] == s[p]);
        lookup_is_exact::<K, B>(t, i);
        lookup_is_exact::<K, B>(s, p);
    }
    assert(map_of(t) =~= map_of(s).remove(s[at].0));
}

/// An ascending sequence is as long as its map is large.
proof fn lemma_len<K: MapKey, B>(s: Seq<(K::V, B)>)
    requires
        ascending::<K, B>(s),
    ensures
        map_of(s).dom().finite(),
        map_of(s).len() == s.len(),
    decreases s.len(),
{
    if s.len() == 0 {
        assert(map_of(s).dom() =~= Set::<K::V>::empty());
    } else {
        let last = s.len() - 1;
        lemma_remove::<K, B>(s, last);
        lemma_len::<K, B>(s.remove(last));
        lookup_is_exact::<K, B>(s, last);
        assert(map_of(s).remove(s[last].0).dom() =~= map_of(s).dom().remove(s[last].0));
        assert(map_of(s).dom() =~= map_of(s).dom().remove(s[last].0).insert(s[last].0));
    }
}

/// A map holds exactly the pairs that its list holds, where no key is listed twice.
pub proof fn held_is_listed<A, B>(s: Seq<(A, B)>, k: A, v: B)
    requires
        forall|i: int, j: int|
            0 <= i < j < s.len() ==> (#[trigger] s[i]).0 != (#[trigger] s[j]).0,
    ensures
        map_of(s).contains_pair(k, v) <==> s.contains((k, v)),
        map_of(s).dom().contains(k) <==> exists|i: int|
            0 <= i < s.len() && (#[trigger] s[i]).0 == k,
{
    if s.contains((k, v)) {
        let i = choose|i: int| 0 <= i < s.len() && s[i] == (k, v);
        assert(s[i].0 == k);
        assert(has_key(s, k));
        assert(position_of(s, k) == i);
    }
    if map_of(s).contains_pair(k, v) {
        let i = position_of(s, k);
        assert(has_key(s, k));
        assert(s[i] == (k, v));
    }
}

/// A list in ascending order puts the keys in the order of their bytes, each once.
pub proof fn listed_in_key_order<B>(s: Seq<(Seq<char>, B)>, i: int, j: int)
    requires
        ascending::<String, B>(s),
        0 <= i < j < s.len(),
    ensures
        text_before(s[i].0, s[j].0),
        s[i].0 != s[j].0,
{
    assert(String::before(s[i].0, s[j].0));
    text_before_irreflexive(s[i].0);
}

/// The list of a map gives its entries one for one, in the order in which they are kept.
proof fn list_is_the_entries<K: MapKey, V: View>(map: OrdMap<K, V>, i: int)
    requires
        0 <= i < map.entries@.len(),
    ensures
        map.pairs().len() == map.entries@.len(),
        map.pairs()[i].0 == map.entries@[i].0@,
        map.pairs()[i].1 == map.entries@[i].1@,
{
}

} // verus!
