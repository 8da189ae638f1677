//! A map keyed by strings that keeps its keys in insertion order.
//!
//! The workflow model and the in-memory cache index their data by name.
//! Every key occurs once; the map is viewed as a `Map<Seq<char>, V>`.

use vstd::prelude::*;

verus! {

broadcast use vstd::seq_lib::group_seq_properties;

/// The keys of a sequence of entries, in order.
pub open spec fn keys_of<V>(entries: Seq<(String, V)>) -> Seq<Seq<char>> {
    entries.map_values(|e: (String, V)| e.0@)
}

/// A map from strings to values; keys are unique and keep their insertion order.
#[derive(Debug)]
pub struct StrMap<V> {
    entries: Vec<(String, V)>,
}

impl<V> StrMap<V> {
    /// The entries in order.
    pub closed spec fn entry_seq(self) -> Seq<(String, V)> {
        self.entries@
    }

    /// The keys in order.
    pub open spec fn key_order(self) -> Seq<Seq<char>> {
        keys_of(self.entry_seq())
    }

    #[verifier::type_invariant]
    closed spec fn unique_keys(self) -> bool {
        keys_of(self.entries@).no_duplicates()
    }

    /// Well-formedness, as a caller can see it: every key occurs once.
    pub open spec fn wf(self) -> bool {
        self.key_order().no_duplicates()
    }

    /// The position of `k`'s entry (meaningful when `k` is a key).
    pub open spec fn pos(self, k: Seq<char>) -> int {
        self.key_order().index_of(k)
    }

    /// The map that the entries describe.
    pub open spec fn as_map(self) -> Map<Seq<char>, V> {
        Map::new(
            |k: Seq<char>| self.key_order().contains(k),
            |k: Seq<char>| self.entry_seq()[self.pos(k)].1,
        )
    }

    proof fn lemma_pos(self, i: int)
        requires
            self.wf(),
            0 <= i < self.entry_seq().len(),
        ensures
            self.pos(self.entry_seq()[i].0@) == i,
            self.as_map().contains_key(self.entry_seq()[i].0@),
            self.as_map()[self.entry_seq()[i].0@] == self.entry_seq()[i].1,
    {
        let k = self.entry_seq()[i].0@;
        assert(self.key_order()[i] == k);
        assert(self.key_order().contains(k));
    }

    proof fn lemma_len(self)
        requires
            self.wf(),
        ensures
            self.as_map().dom().finite(),
            self.as_map().dom().len() == self.entry_seq().len(),
    {
        assert(self.as_map().dom() =~= self.key_order().to_set());
        self.key_order().unique_seq_to_set();
    }

    /// The map has finitely many keys.
    pub proof fn lemma_dom_finite(self)
        ensures
            self@.dom().finite(),
    {
        assert(self.as_map().dom() =~= self.key_order().to_set());
        self.key_order().lemma_cardinality_of_set();
    }

    /// The first key is a key.
    pub proof fn lemma_first_key_in_map(self)
        requires
            self.key_order().len() > 0,
        ensures
            self@.contains_key(self.key_order()[0]),
    {
        assert(self.key_order().contains(self.key_order()[0]));
    }

    /// Creates an empty map.
    pub fn new() -> (m: Self)
        ensures
            m@ == Map::<Seq<char>, V>::empty(),
            m.key_order() == Seq::<Seq<char>>::empty(),
    {
        let m = StrMap { entries: Vec::new() };
        assert(m.as_map() =~= Map::empty());
        assert(m.key_order() =~= Seq::empty());
        m
    }

    /// The number of keys.
    pub fn len(&self) -> (n: usize)
        ensures
            n == self@.dom().len(),
            n == self.key_order().len(),
            self@.dom().finite(),
    {
        proof {
            use_type_invariant(self);
            self.lemma_len();
        }
        self.entries.len()
    }

    /// Where `key` stands, if it is a key.
    fn find(&self, key: &str) -> (r: Option<usize>)
        ensures
            r is None ==> !self@.contains_key(key@),
            r matches Some(i) ==> i < self.key_order().len() && self.key_order()[i as int] == key@
                && self.pos(key@) == i,
    {
        proof {
            use_type_invariant(self);
        }
        let target = key.to_owned();
        let n = self.entries.len();
        for i in 0..n
            invariant
                n == self.entries@.len(),
                target@ == key@,
                self.wf(),
                forall|j: int| 0 <= j < i ==> self.key_order()[j] != key@,
        {
            if self.entries[i].0 == target {
                proof {
                    self.lemma_pos(i as int);
                }
                return Some(i);
            }
        }
        proof {
            if self.key_order().contains(key@) {
                let j = choose|j: int| 0 <= j < self.key_order().len() && self.key_order()[j] == key@;
                assert(self.key_order()[j] == key@);
            }
        }
        None
    }

    /// Whether `key` is a key.
    pub fn contains_key(&self, key: &str) -> (b: bool)
        ensures
            b == self@.contains_key(key@),
    {
        proof {
            use_type_invariant(self);
        }
        match self.find(key) {
            Some(i) => {
                proof {
                    self.lemma_pos(i as int);
                }
                true
            },
            None => false,
        }
    }

    /// The value stored under `key`, if any.
    pub fn get(&self, key: &str) -> (r: Option<&V>)
        ensures
            r is Some == self@.contains_key(key@),
            r matches Some(v) ==> *v == self@[key@],
    {
        proof {
            use_type_invariant(self);
        }
        match self.find(key) {
            Some(i) => {
                proof {
                    self.lemma_pos(i as int);
                }
                Some(&self.entries[i].1)
            },
            None => None,
        }
    }

    /// The key that comes first, if any.
    pub fn first_key(&self) -> (r: Option<String>)
        ensures
            r is None <==> self@.dom().is_empty(),
            r matches Some(k) ==> self@.contains_key(k@) && k@ == self.key_order()[0],
    {
        proof {
            use_type_invariant(self);
        }
        if self.entries.len() == 0 {
            proof {
                assert(self@.dom() =~= Set::empty());
            }
            None
        } else {
            proof {
                self.lemma_pos(0);
            }
            Some(self.entries[0].0.clone())
        }
    }

    /// Stores `value` under `key`. A key already present keeps its place and
    /// its old value is handed back; a new key goes last.
    pub fn insert(&mut self, key: String, value: V) -> (old_value: Option<V>)
        ensures
            final(self)@ == old(self)@.insert(key@, value),
            old_value is Some == old(self)@.contains_key(key@),
            old_value matches Some(v) ==> v == old(self)@[key@],
            old(self)@.contains_key(key@) ==> final(self).key_order() == old(self).key_order(),
            !old(self)@.contains_key(key@) ==> final(self).key_order() == old(self).key_order().push(key@),
    {
        proof {
            use_type_invariant(&*self);
        }
        let ghost pre = *self;
        match self.find(key.as_str()) {
            Some(i) => {
                proof {
                    pre.lemma_pos(i as int);
                }
                let mut entries = Vec::new();
                std::mem::swap(&mut entries, &mut self.entries);
                let (k, old_v) = entries.remove(i);
                entries.insert(i, (k, value));
                proof {
                    assert(keys_of(entries@) =~= pre.key_order());
                }
                self.entries = entries;
                proof {
                    assert(self.key_order() =~= pre.key_order());
                    assert(self.wf());
                    assert forall|j: int| 0 <= j < self.entry_seq().len() && j != i implies self.entry_seq()[j]
                        == pre.entry_seq()[j] by {}
                    assert(self.as_map() =~= pre.as_map().insert(key@, value)) by {
                        assert forall|k2: Seq<char>| #[trigger] self.as_map().contains_key(k2)
                            implies self.as_map()[k2] == pre.as_map().insert(key@, value)[k2] by {
                            let j = self.key_order().index_of(k2);
                            self.lemma_pos(j);
                            if j != i {
                                pre.lemma_pos(j);
                            }
                        }
                    }
                }
                Some(old_v)
            },
            None => {
                let mut entries = Vec::new();
                std::mem::swap(&mut entries, &mut self.entries);
                entries.push((key, value));
                proof {
                    let ks = keys_of(entries@);
                    assert(ks =~= pre.key_order().push(key@));
                    assert(ks.no_duplicates()) by {
                        assert forall|a: int, b: int|
                            0 <= a < ks.len() && 0 <= b < ks.len() && a != b
                            implies ks[a] != ks[b] by {
                            if a == pre.key_order().len() as int {
                                assert(pre.key_order()[b] == ks[b]);
                            } else if b == pre.key_order().len() as int {
                                assert(pre.key_order()[a] == ks[a]);
                            }
                        }
                    }
                }
                self.entries = entries;
                proof {
                    assert(self.key_order() =~= pre.key_order().push(key@));
                    assert(self.as_map() =~= pre.as_map().insert(key@, value)) by {
                        assert forall|k2: Seq<char>| #[trigger] self.as_map().contains_key(k2)
                            implies self.as_map()[k2] == pre.as_map().insert(key@, value)[k2] by {
                            let j = self.key_order().index_of(k2);
                            self.lemma_pos(j);
                            if j < pre.entry_seq().len() {
                                assert(self.entry_seq()[j] == pre.entry_seq()[j]);
                                pre.lemma_pos(j);
                            }
                        }
                        assert forall|k2: Seq<char>| #[trigger] pre.as_map().insert(key@, value).contains_key(k2)
                            implies self.as_map().contains_key(k2) by {
                            if k2 != key@ {
                                let j = pre.key_order().index_of(k2);
                                assert(self.key_order()[j] == pre.key_order()[j]);
                            } else {
                                assert(self.key_order()[pre.key_order().len() as int] == key@);
                            }
                        }
                    }
                }
                None
            },
        }
    }

    /// Replaces the value under an existing key, keeping its place; hands back
    /// the old value. A missing key leaves the map unchanged.
    pub fn replace(&mut self, key: &str, value: V) -> (old_value: Option<V>)
        ensures
            old_value is Some == old(self)@.contains_key(key@),
            old_value matches Some(v) ==> v == old(self)@[key@] && final(self)@ == old(self)@.insert(
                key@,
                value,
            ),
            old_value is None ==> final(self)@ == old(self)@,
            final(self).key_order() == old(self).key_order(),
    {
        if self.contains_key(key) {
            self.insert(key.to_owned(), value)
        } else {
            None
        }
    }

    /// Removes `key`, handing back its value; the other keys keep their order.
    pub fn remove(&mut self, key: &str) -> (old_value: Option<V>)
        ensures
            final(self)@ == old(self)@.remove(key@),
            old_value is Some == old(self)@.contains_key(key@),
            old_value matches Some(v) ==> v == old(self)@[key@],
            old(self)@.contains_key(key@) ==> final(self).key_order() == old(self).key_order().remove(
                old(self).pos(key@),
            ),
            !old(self)@.contains_key(key@) ==> final(self).key_order() == old(self).key_order(),
    {
        proof {
            use_type_invariant(&*self);
        }
        let ghost pre = *self;
        match self.find(key) {
            Some(i) => {
                proof {
                    pre.lemma_pos(i as int);
                }
                let mut entries = Vec::new();
                std::mem::swap(&mut entries, &mut self.entries);
                let (_k, v) = entries.remove(i);
                proof {
                    let ks = keys_of(entries@);
                    assert(ks =~= pre.key_order().remove(i as int));
                    assert(ks.no_duplicates()) by {
                        assert forall|a: int, b: int|
                            0 <= a < ks.len() && 0 <= b < ks.len() && a != b
                            implies ks[a] != ks[b] by {
                            let pa = if a < i { a } else { a + 1 };
                            let pb = if b < i { b } else { b + 1 };
                            assert(ks[a] == pre.key_order()[pa]);
                            assert(ks[b] == pre.key_order()[pb]);
                        }
                    }
                }
                self.entries = entries;
                proof {
                    assert(self.key_order() =~= pre.key_order().remove(i as int));
                    assert(self.as_map() =~= pre.as_map().remove(key@)) by {
                        assert forall|k2: Seq<char>| #[trigger] self.as_map().contains_key(k2)
                            implies pre.as_map().remove(key@).contains_key(k2) && self.as_map()[k2]
                            == pre.as_map().remove(key@)[k2] by {
                            let j = self.key_order().index_of(k2);
                            self.lemma_pos(j);
                            let pj = if j < i { j } else { j + 1 };
                            assert(self.entry_seq()[j] == pre.entry_seq()[pj]);
                            pre.lemma_pos(pj);
                        }
                        assert forall|k2: Seq<char>| #[trigger] pre.as_map().remove(key@).contains_key(k2)
                            implies self.as_map().contains_key(k2) by {
                            let pj = pre.key_order().index_of(k2);
                            pre.lemma_pos(pj);
                            assert(pj != i);
                            let j = if pj < i { pj } else { pj - 1 };
                            assert(self.key_order()[j] == k2);
                        }
                    }
                }
                Some(v)
            },
            None => {
                proof {
                    assert(pre.as_map().remove(key@) =~= pre.as_map());
                }
                None
            },
        }
    }

    /// Removes every entry.
    pub fn clear(&mut self)
        ensures
            final(self)@ == Map::<Seq<char>, V>::empty(),
            final(self).key_order() == Seq::<Seq<char>>::empty(),
    {
        self.entries = Vec::new();
        proof {
            assert(self.as_map() =~= Map::empty());
            assert(self.key_order() =~= Seq::empty());
        }
    }

    /// The keys, in order.
    pub fn keys(&self) -> (ks: Vec<String>)
        ensures
            ks@.map_values(|k: String| k@) == self.key_order(),
    {
        let mut ks: Vec<String> = Vec::new();
        let n = self.entries.len();
        for i in 0..n
            invariant
                n == self.entries@.len(),
                ks@.len() == i,
                forall|j: int| 0 <= j < i ==> #[trigger] ks@[j]@ == self.key_order()[j],
        {
            ks.push(self.entries[i].0.clone());
        }
        proof {
            assert(ks@.map_values(|k: String| k@) =~= self.key_order());
        }
        ks
    }

    /// The entry at position `i` in key order.
    pub fn entry_at(&self, i: usize) -> (r: (&String, &V))
        requires
            i < self.key_order().len(),
        ensures
            r.0@ == self.key_order()[i as int],
            self@.contains_key(r.0@),
            *r.1 == self@[r.0@],
    {
        proof {
            use_type_invariant(self);
            self.lemma_pos(i as int);
        }
        (&self.entries[i].0, &self.entries[i].1)
    }

    /// Consumes the map, handing out its entries in key order.
    pub fn into_entries(self) -> (v: Vec<(String, V)>)
        ensures
            keys_of(v@) == self.key_order(),
            forall|i: int| 0 <= i < v@.len() ==> #[trigger] self@[v@[i].0@] == v@[i].1,
    {
        proof {
            use_type_invariant(&self);
            assert forall|i: int| 0 <= i < self.entries@.len() implies #[trigger] self@[self.entries@[i].0@]
                == self.entries@[i].1 by {
                self.lemma_pos(i);
            }
        }
        self.entries
    }
}

impl<V: Clone> Clone for StrMap<V> {
    /// A copy with the same keys in the same order; values are cloned.
    fn clone(&self) -> (r: Self)
        ensures
            r.key_order() == self.key_order(),
    {
        proof {
            use_type_invariant(self);
        }
        let mut entries: Vec<(String, V)> = Vec::new();
        let n = self.entries.len();
        for i in 0..n
            invariant
                n == self.entries@.len(),
                keys_of(self.entries@).no_duplicates(),
                keys_of(entries@) == keys_of(self.entries@).take(i as int),
        {
            let k = self.entries[i].0.clone();
            let v = self.entries[i].1.clone();
            let ghost pre = entries@;
            entries.push((k, v));
            proof {
                assert(k@ == self.entries@[i as int].0@);
                assert(entries@ == pre.push((k, v)));
                assert(keys_of(entries@) =~= keys_of(pre).push(k@));
                assert(keys_of(entries@) =~= keys_of(self.entries@).take(i + 1));
            }
        }
        proof {
            assert(keys_of(entries@) =~= keys_of(self.entries@));
        }
        StrMap { entries }
    }
}

impl<V> View for StrMap<V> {
    type V = Map<Seq<char>, V>;

    open spec fn view(&self) -> Map<Seq<char>, V> {
        self.as_map()
    }
}

/// The map that a sequence of entries describes when they are inserted in
/// order: a later entry for a key overwrites an earlier one.
pub open spec fn entries_map<V>(entries: Seq<(String, V)>) -> Map<Seq<char>, V>
    decreases entries.len(),
{
    if entries.len() == 0 {
        Map::empty()
    } else {
        entries_map(entries.drop_last()).insert(entries.last().0@, entries.last().1)
    }
}

/// Builds a map from entries; a key that occurs again overwrites the value
/// given earlier and keeps its first place.
pub fn str_map_from_entries<V>(entries: Vec<(String, V)>) -> (m: StrMap<V>)
    ensures
        m@ == entries_map(entries@),
        m@.dom() == keys_of(entries@).to_set(),
{
    let mut m = StrMap::new();
    let mut rest = entries;
    let ghost all = rest@;
    let ghost mut done: int = 0;
    while rest.len() > 0
        invariant
            0 <= done <= all.len(),
            rest@ == all.subrange(done, all.len() as int),
            m@.dom() == keys_of(all.subrange(0, done)).to_set(),
            m@ == entries_map(all.subrange(0, done)),
        decreases rest@.len(),
    {
        let (k, v) = rest.remove(0);
        proof {
            assert(keys_of(all.subrange(0, done + 1)) =~= keys_of(all.subrange(0, done)).push(k@));
            assert(all[done].0@ == k@);
            assert(all.subrange(0, done + 1).drop_last() =~= all.subrange(0, done));
            assert(all.subrange(0, done + 1).last() == all[done]);
        }
        m.insert(k, v);
        proof {
            done = done + 1;
            assert(rest@ =~= all.subrange(done, all.len() as int));
            assert(m@.dom() =~= keys_of(all.subrange(0, done)).to_set());
        }
    }
    proof {
        assert(all.subrange(0, done) =~= all);
    }
    m
}

} // verus!
