//! A map with text keys, kept in key order.

use vstd::prelude::*;

use crate::order;

verus! {

/// A map from text to `V`, whose entries are walked in ascending key order.
#[derive(Debug, PartialEq)]
pub struct TextMap<V> {
    entries: Vec<(String, V)>,
}

/// The keys of a list of entries, in the order of the list.
pub open spec fn keys_of<V>(entries: Seq<(String, V)>) -> Seq<Seq<char>> {
    Seq::new(entries.len(), |i: int| entries[i].0@)
}

/// The map that a list of entries without repeated keys stands for.
pub open spec fn map_of<V>(entries: Seq<(String, V)>) -> Map<Seq<char>, V> {
    Map::new(
        |k: Seq<char>| keys_of(entries).contains(k),
        |k: Seq<char>| entries[keys_of(entries).index_of(k)].1,
    )
}

impl<V> View for TextMap<V> {
    type V = Map<Seq<char>, V>;

    closed spec fn view(&self) -> Map<Seq<char>, V> {
        map_of(self.entries@)
    }
}

impl<V: DeepView> DeepView for TextMap<V> {
    type V = Map<Seq<char>, V::V>;

    open spec fn deep_view(&self) -> Map<Seq<char>, V::V> {
        self@.map_values(|v: V| v.deep_view())
    }
}

/// Every entry of an ascending list is what the map holds under its key.
proof fn lemma_entry<V>(entries: Seq<(String, V)>, i: int)
    requires
        order::ascending(keys_of(entries)),
        0 <= i < entries.len(),
    ensures
        map_of(entries).contains_key(entries[i].0@),
        map_of(entries)[entries[i].0@] == entries[i].1,
{
    let keys = keys_of(entries);
    let k = entries[i].0@;
    assert(keys[i] == k);
    let j = keys.index_of(k);
    assert(keys[j] == k);
    order::lemma_text_irreflexive(k);
}

/// An ascending list walks its map in key order.
proof fn lemma_walk<V>(entries: Seq<(String, V)>)
    requires
        order::ascending(keys_of(entries)),
    ensures
        order::lists(keys_of(entries), map_of(entries).dom()),
        order::in_order(map_of(entries).dom()) == keys_of(entries),
{
    order::lemma_in_order(keys_of(entries), map_of(entries).dom());
}

/// `key` belongs at `p`: what is in front comes before it, what follows does not.
spec fn place<V>(entries: Seq<(String, V)>, key: Seq<char>, p: int) -> bool {
    &&& 0 <= p <= entries.len()
    &&& forall|i: int| 0 <= i < p ==> order::text_before(#[trigger] keys_of(entries)[i], key)
    &&& p < entries.len() ==> !order::text_before(keys_of(entries)[p], key)
}

/// Behind its place a key does not occur.
proof fn lemma_place<V>(entries: Seq<(String, V)>, key: Seq<char>, p: int)
    requires
        order::ascending(keys_of(entries)),
        place(entries, key, p),
    ensures
        map_of(entries).contains_key(key) <==> p < entries.len() && entries[p].0@ == key,
        forall|i: int| 0 <= i < p ==> #[trigger] keys_of(entries)[i] != key,
        forall|i: int| p < i < entries.len() ==> order::text_before(key, #[trigger] keys_of(entries)[i]),
        p < entries.len() && entries[p].0@ != key ==> order::text_before(key, keys_of(entries)[p]),
{
    let keys = keys_of(entries);
    order::lemma_text_irreflexive(key);
    if p < entries.len() {
        order::lemma_text_total(keys[p], key);
        assert forall|i: int| p < i < entries.len() implies order::text_before(key, #[trigger] keys[i]) by {
            assert(order::text_before(keys[p], keys[i]));
            if keys[p] != key {
                order::lemma_text_transitive(key, keys[p], keys[i]);
            }
        }
    }
    if keys.contains(key) {
        let i = choose|i: int| 0 <= i < keys.len() && keys[i] == key;
        assert(i == p);
    }
    if p < entries.len() && entries[p].0@ == key {
        assert(keys[p] == key);
    }
}

/// Writing at the place of a key gives the map with that key written.
proof fn lemma_insert<V>(before: Seq<(String, V)>, after: Seq<(String, V)>, key: String, value: V, p: int)
    requires
        order::ascending(keys_of(before)),
        place(before, key@, p),
        after == if p < before.len() && before[p].0@ == key@ {
            before.update(p, (key, value))
        } else {
            before.insert(p, (key, value))
        },
    ensures
        order::ascending(keys_of(after)),
        map_of(after) == map_of(before).insert(key@, value),
{
    lemma_place(before, key@, p);
    let a = keys_of(before);
    let b = keys_of(after);
    let fresh = !(p < before.len() && before[p].0@ == key@);
    assert forall|i: int, j: int| 0 <= i < j < b.len() implies order::text_before(#[trigger] b[i], #[trigger] b[j]) by {
        if fresh {
            let i0 = if i < p { i } else { i - 1 };
            let j0 = if j < p { j } else { j - 1 };
            if i != p {
                assert(b[i] == a[i0]);
            }
            if j != p {
                assert(b[j] == a[j0]);
            }
        } else {
            assert(b[i] == a[i] && b[j] == a[j]);
        }
    }
    assert forall|k: Seq<char>| #[trigger] map_of(after).contains_key(k) <==> map_of(before).insert(key@, value).contains_key(k) by {
        if a.contains(k) {
            let i = choose|i: int| 0 <= i < a.len() && a[i] == k;
            let i1 = if fresh && i >= p { i + 1 } else { i };
            assert(b[i1] == k);
        }
        if k == key@ {
            assert(b[p] == k);
        }
        if b.contains(k) {
            let i = choose|i: int| 0 <= i < b.len() && b[i] == k;
            if i != p {
                let i0 = if fresh && i > p { i - 1 } else { i };
                assert(a[i0] == k);
            }
        }
    }
    assert forall|k: Seq<char>| #[trigger] map_of(after).contains_key(k) implies map_of(after)[k] == map_of(before).insert(key@, value)[k] by {
        let i = choose|i: int| 0 <= i < b.len() && b[i] == k;
        lemma_entry(after, i);
        if i != p {
            let i0 = if fresh && i > p { i - 1 } else { i };
            assert(a[i0] == k);
            lemma_entry(before, i0);
            assert(after[i] == before[i0]);
            order::lemma_text_irreflexive(k);
            assert(b[p] == key@);
            assert(k != key@);
        }
    }
    assert(map_of(after) =~= map_of(before).insert(key@, value));
}

/// Taking out the entry of a key gives the map without that key.
proof fn lemma_remove<V>(before: Seq<(String, V)>, key: Seq<char>, p: int)
    requires
        order::ascending(keys_of(before)),
        place(before, key, p),
        p < before.len(),
        before[p].0@ == key,
    ensures
        order::ascending(keys_of(before.remove(p))),
        map_of(before.remove(p)) == map_of(before).remove(key),
{
    lemma_place(before, key, p);
    let after = before.remove(p);
    let a = keys_of(before);
    let b = keys_of(after);
    assert forall|i: int, j: int| 0 <= i < j < b.len() implies order::text_before(#[trigger] b[i], #[trigger] b[j]) by {
        let i0 = if i < p { i } else { i + 1 };
        let j0 = if j < p { j } else { j + 1 };
        assert(b[i] == a[i0] && b[j] == a[j0]);
    }
    order::lemma_text_irreflexive(key);
    assert forall|k: Seq<char>| #[trigger] map_of(after).contains_key(k) <==> map_of(before).remove(key).contains_key(k) by {
        if a.contains(k) && k != key {
            let i = choose|i: int| 0 <= i < a.len() && a[i] == k;
            let i1 = if i > p { i - 1 } else { i };
            assert(b[i1] == k);
        }
        if b.contains(k) {
            let i = choose|i: int| 0 <= i < b.len() && b[i] == k;
            let i0 = if i < p { i } else { i + 1 };
            assert(a[i0] == k);
        }
    }
    assert forall|k: Seq<char>| #[trigger] map_of(after).contains_key(k) implies map_of(after)[k] == map_of(before)[k] by {
        let i = choose|i: int| 0 <= i < b.len() && b[i] == k;
        let i0 = if i < p { i } else { i + 1 };
        assert(a[i0] == k);
        lemma_entry(after, i);
        lemma_entry(before, i0);
        assert(after[i] == before[i0]);
    }
    assert(map_of(after) =~= map_of(before).remove(key));
}

impl<V> TextMap<V> {
    #[verifier::type_invariant]
    spec fn sorted(&self) -> bool {
        order::ascending(keys_of(self.entries@))
    }
}

impl<V: DeepView> TextMap<V> {
    /// The empty map.
    pub fn new() -> (r: Self)
        ensures
            r@ == Map::<Seq<char>, V>::empty(),
            r.deep_view() == Map::<Seq<char>, V::V>::empty(),
    {
        let r = TextMap { entries: Vec::new() };
        assert(r@ =~= Map::<Seq<char>, V>::empty());
        assert(r.deep_view() =~= Map::<Seq<char>, V::V>::empty());
        r
    }

    fn place_of(&self, key: &str) -> (p: usize)
        ensures
            place(self.entries@, key@, p as int),
            order::ascending(keys_of(self.entries@)),
    {
        proof {
            use_type_invariant(self);
        }
        let mut p: usize = 0;
        while p < self.entries.len()
            invariant
                p <= self.entries@.len(),
                order::ascending(keys_of(self.entries@)),
                forall|i: int| 0 <= i < p ==> order::text_before(#[trigger] keys_of(self.entries@)[i], key@),
            decreases self.entries@.len() - p,
        {
            assert(keys_of(self.entries@)[p as int] == self.entries@[p as int].0@);
            if !order::is_before(self.entries[p].0.as_str(), key) {
                return p;
            }
            p = p + 1;
        }
        p
    }

    /// What the map holds under `key`.
    pub fn get(&self, key: &str) -> (r: Option<&V>)
        ensures
            r == if self@.contains_key(key@) {
                Some(&self@[key@])
            } else {
                None
            },
    {
        let p = self.place_of(key);
        proof {
            lemma_place(self.entries@, key@, p as int);
        }
        if p < self.entries.len() && order::is_same(self.entries[p].0.as_str(), key) {
            proof {
                lemma_entry(self.entries@, p as int);
            }
            Some(&self.entries[p].1)
        } else {
            None
        }
    }

    /// Writes `value` under `key`, in place of what was there.
    pub fn insert(&mut self, key: String, value: V)
        ensures
            final(self)@ == old(self)@.insert(key@, value),
            final(self).deep_view() == old(self).deep_view().insert(key@, value.deep_view()),
    {
        let p = self.place_of(key.as_str());
        let mut entries: Vec<(String, V)> = Vec::new();
        std::mem::swap(&mut entries, &mut self.entries);
        let ghost before = entries@;
        let ghost k = key;
        if p < entries.len() && order::is_same(entries[p].0.as_str(), key.as_str()) {
            entries.set(p, (key, value));
        } else {
            entries.insert(p, (key, value));
        }
        proof {
            lemma_insert(before, entries@, k, value, p as int);
        }
        self.entries = entries;
        assert(self.deep_view() =~= old(self).deep_view().insert(k@, value.deep_view()));
    }

    /// Takes `key` out of the map.
    pub fn remove(&mut self, key: &str)
        ensures
            final(self)@ == old(self)@.remove(key@),
            final(self).deep_view() == old(self).deep_view().remove(key@),
    {
        let p = self.place_of(key);
        proof {
            lemma_place(self.entries@, key@, p as int);
        }
        if p < self.entries.len() && order::is_same(self.entries[p].0.as_str(), key) {
            let mut entries: Vec<(String, V)> = Vec::new();
            std::mem::swap(&mut entries, &mut self.entries);
            let ghost before = entries@;
            proof {
                lemma_remove(before, key@, p as int);
            }
            let _ = entries.remove(p);
            self.entries = entries;
        } else {
            assert(self@ =~= self@.remove(key@));
        }
        assert(self.deep_view() =~= old(self).deep_view().remove(key@));
    }

    /// The entries of the map, in ascending key order.
    pub fn entries(&self) -> (r: &Vec<(String, V)>)
        ensures
            keys_of(r@) == order::in_order(self@.dom()),
            map_of(r@) == self@,
            self@.dom().finite(),
            order::ascending(keys_of(r@)),
            forall|i: int| 0 <= i < r@.len() ==> self@.contains_key((#[trigger] r@[i]).0@) && self@[r@[i].0@] == r@[i].1,
    {
        proof {
            use_type_invariant(self);
            lemma_walk(self.entries@);
            vstd::seq_lib::seq_to_set_is_finite(keys_of(self.entries@));
            assert(self@.dom() =~= keys_of(self.entries@).to_set());
            assert forall|i: int| 0 <= i < self.entries@.len() implies self@.contains_key(
                (#[trigger] self.entries@[i]).0@,
            ) && self@[self.entries@[i].0@] == self.entries@[i].1 by {
                lemma_entry(self.entries@, i);
            }
        }
        &self.entries
    }
}

impl<V: Clone> Clone for TextMap<V> {
    fn clone(&self) -> (r: Self)
        ensures
            r@.dom() == self@.dom(),
            forall|k: Seq<char>| #[trigger] r@.contains_key(k) ==> cloned::<V>(self@[k], r@[k]),
    {
        proof {
            use_type_invariant(self);
        }
        let mut entries: Vec<(String, V)> = Vec::new();
        let mut i: usize = 0;
        while i < self.entries.len()
            invariant
                i <= self.entries@.len(),
                entries@.len() == i,
                forall|j: int| 0 <= j < i ==> (#[trigger] entries@[j]).0@ == self.entries@[j].0@,
                forall|j: int| 0 <= j < i ==> cloned::<V>(self.entries@[j].1, (#[trigger] entries@[j]).1),
            decreases self.entries@.len() - i,
        {
            let e = &self.entries[i];
            entries.push((e.0.clone(), e.1.clone()));
            i = i + 1;
        }
        proof {
            assert(keys_of(entries@) =~= keys_of(self.entries@));
            assert(map_of(entries@).dom() =~= map_of(self.entries@).dom());
            assert forall|k: Seq<char>| #[trigger] map_of(entries@).contains_key(k) implies cloned::<V>(
                map_of(self.entries@)[k], map_of(entries@)[k]) by {
                let j = choose|j: int| 0 <= j < keys_of(entries@).len() && keys_of(entries@)[j] == k;
                lemma_entry(entries@, j);
                lemma_entry(self.entries@, j);
                assert(entries@[j].0@ == k);
            }
        }
        TextMap { entries }
    }
}

} // verus!
