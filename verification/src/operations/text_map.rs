use vstd::prelude::*;

use super::text::text_eq;

verus! {

/// Whether no key occurs twice in a list of keyed values.
pub open spec fn keys_distinct<V>(pairs: Seq<(Seq<char>, V)>) -> bool {
    forall|i: int, j: int| 0 <= i < j < pairs.len() ==> pairs[i].0 != pairs[j].0
}

/// Whether a key occurs in a list of keyed values.
pub open spec fn has_key<V>(pairs: Seq<(Seq<char>, V)>, key: Seq<char>) -> bool {
    exists|i: int| 0 <= i < pairs.len() && #[trigger] pairs[i].0 == key
}

/// A place at which a key occurs in a list of keyed values, if it occurs.
pub open spec fn index_of<V>(pairs: Seq<(Seq<char>, V)>, key: Seq<char>) -> int {
    choose|i: int| 0 <= i < pairs.len() && #[trigger] pairs[i].0 == key
}

/// The mapping that a list of keyed values stands for.
pub open spec fn pairs_to_map<V>(pairs: Seq<(Seq<char>, V)>) -> Map<Seq<char>, V> {
    Map::new(|key: Seq<char>| has_key(pairs, key), |key: Seq<char>| pairs[index_of(pairs, key)].1)
}

/// In a list without repeated keys, a key occurs at one place only.
pub proof fn lemma_index_of_unique<V>(pairs: Seq<(Seq<char>, V)>, i: int)
    requires
        keys_distinct(pairs),
        0 <= i < pairs.len(),
    ensures
        has_key(pairs, pairs[i].0),
        index_of(pairs, pairs[i].0) == i,
{
    let key = pairs[i].0;
    assert(pairs[i].0 == key);
    let j = index_of(pairs, key);
    assert(0 <= j < pairs.len() && pairs[j].0 == key);
    if j < i {
        assert(pairs[j].0 != pairs[i].0);
    } else if i < j {
        assert(pairs[i].0 != pairs[j].0);
    }
}

/// Appending a value under a key that does not occur yet extends the mapping
/// by that key.
pub proof fn lemma_push_inserts<V>(pairs: Seq<(Seq<char>, V)>, key: Seq<char>, value: V)
    requires
        keys_distinct(pairs),
        !has_key(pairs, key),
    ensures
        keys_distinct(pairs.push((key, value))),
        pairs_to_map(pairs.push((key, value))) == pairs_to_map(pairs).insert(key, value),
{
    let grown = pairs.push((key, value));
    assert forall|i: int, j: int| 0 <= i < j < grown.len() implies grown[i].0 != grown[j].0 by {
        if j == pairs.len() {
            assert(pairs[i].0 != key);
        }
    }
    assert forall|k: Seq<char>| #[trigger] has_key(grown, k) <==> (k == key || has_key(pairs, k)) by {
        if has_key(grown, k) {
            let i = index_of(grown, k);
            if i < pairs.len() {
                assert(pairs[i].0 == k);
            }
        }
        if k == key {
            assert(grown[pairs.len() as int].0 == k);
        }
        if has_key(pairs, k) {
            let i = index_of(pairs, k);
            assert(grown[i].0 == k);
        }
    }
    assert forall|k: Seq<char>| has_key(grown, k) implies #[trigger] pairs_to_map(grown)[k]
        == pairs_to_map(pairs).insert(key, value)[k] by {
        let i = index_of(grown, k);
        lemma_index_of_unique(grown, i);
        if i < pairs.len() {
            assert(pairs[i].0 == k);
            lemma_index_of_unique(pairs, i);
        }
    }
    assert(pairs_to_map(grown) =~= pairs_to_map(pairs).insert(key, value));
}

/// Replacing the value at a place, under the same key, replaces the value
/// that the mapping gives for that key.
pub proof fn lemma_update_inserts<V>(pairs: Seq<(Seq<char>, V)>, i: int, value: V)
    requires
        keys_distinct(pairs),
        0 <= i < pairs.len(),
    ensures
        keys_distinct(pairs.update(i, (pairs[i].0, value))),
        pairs_to_map(pairs.update(i, (pairs[i].0, value))) == pairs_to_map(pairs).insert(
            pairs[i].0,
            value,
        ),
{
    let key = pairs[i].0;
    let changed = pairs.update(i, (key, value));
    assert forall|a: int, b: int| 0 <= a < b < changed.len() implies changed[a].0 != changed[b].0 by {
        assert(pairs[a].0 != pairs[b].0);
    }
    assert forall|k: Seq<char>| #[trigger] has_key(changed, k) <==> has_key(pairs, k) by {
        if has_key(changed, k) {
            let j = index_of(changed, k);
            assert(pairs[j].0 == k);
        }
        if has_key(pairs, k) {
            let j = index_of(pairs, k);
            assert(changed[j].0 == k);
        }
    }
    assert(pairs[i].0 == key);
    assert forall|k: Seq<char>| has_key(changed, k) implies #[trigger] pairs_to_map(changed)[k]
        == pairs_to_map(pairs).insert(key, value)[k] by {
        let j = index_of(changed, k);
        lemma_index_of_unique(changed, j);
        assert(pairs[j].0 == k);
        lemma_index_of_unique(pairs, j);
    }
    assert(pairs_to_map(changed) =~= pairs_to_map(pairs).insert(key, value));
}

/// A mapping from text keys to values that remembers the order in which its
/// keys were first inserted.
#[derive(PartialEq, Eq, Debug)]
pub struct TextMap<V> {
    entries: Vec<(String, V)>,
}

impl<V> TextMap<V> {
    /// The keys with their values, in the order of first insertion.
    pub closed spec fn pairs(&self) -> Seq<(Seq<char>, V)> {
        self.entries@.map_values(|e: (String, V)| (e.0@, e.1))
    }

    #[verifier::type_invariant]
    spec fn no_key_twice(&self) -> bool {
        keys_distinct(self.pairs())
    }

    /// An empty mapping.
    pub fn new() -> (m: Self)
        ensures
            m.pairs() == Seq::<(Seq<char>, V)>::empty(),
            m@ == Map::<Seq<char>, V>::empty(),
    {
        let m = TextMap { entries: Vec::new() };
        assert(m.pairs() =~= Seq::<(Seq<char>, V)>::empty());
        assert(m@ =~= Map::<Seq<char>, V>::empty());
        m
    }

    /// The number of keys.
    pub fn len(&self) -> (n: usize)
        ensures
            n == self.pairs().len(),
    {
        self.entries.len()
    }

    /// The place at which a key is held, if it is held.
    pub fn position(&self, key: &str) -> (at: Option<usize>)
        ensures
            at is Some <==> self@.contains_key(key@),
            at matches Some(i) ==> i < self.pairs().len() && self.pairs()[i as int].0 == key@,
    {
        let mut i: usize = 0;
        while i < self.entries.len()
            invariant
                i <= self.entries.len(),
                forall|j: int| 0 <= j < i ==> self.pairs()[j].0 != key@,
            decreases self.entries.len() - i,
        {
            if text_eq(self.entries[i].0.as_str(), key) {
                assert(self.pairs()[i as int].0 == key@);
                return Some(i);
            }
            i += 1;
        }
        assert(!has_key(self.pairs(), key@));
        None
    }

    /// Whether a key is held.
    pub fn contains_key(&self, key: &str) -> (held: bool)
        ensures
            held == self@.contains_key(key@),
    {
        self.position(key).is_some()
    }

    /// The value held under a key, if the key is held.
    pub fn get(&self, key: &str) -> (value: Option<&V>)
        ensures
            value == (if self@.contains_key(key@) {
                Some(&self@[key@])
            } else {
                None
            }),
    {
        proof {
            use_type_invariant(self);
        }
        match self.position(key) {
            Some(i) => {
                proof {
                    lemma_index_of_unique(self.pairs(), i as int);
                }
                Some(&self.entries[i].1)
            },
            None => None,
        }
    }

    /// The key at a place.
    pub fn key_at(&self, i: usize) -> (key: &String)
        requires
            i < self.pairs().len(),
        ensures
            key@ == self.pairs()[i as int].0,
    {
        &self.entries[i].0
    }

    /// The value at a place.
    pub fn value_at(&self, i: usize) -> (value: &V)
        requires
            i < self.pairs().len(),
        ensures
            *value == self.pairs()[i as int].1,
    {
        &self.entries[i].1
    }

    /// Puts a value under a key and hands back the value it replaces, if any.
    /// A new key goes to the end; a key already held keeps its place.
    pub fn insert(&mut self, key: String, value: V) -> (previous: Option<V>)
        ensures
            final(self)@ == old(self)@.insert(key@, value),
            previous == (if old(self)@.contains_key(key@) {
                Some(old(self)@[key@])
            } else {
                None
            }),
            match old(self).place_of(key@) {
                Some(i) => final(self).pairs() == old(self).pairs().update(i, (key@, value)),
                None => final(self).pairs() == old(self).pairs().push((key@, value)),
            },
    {
        proof {
            use_type_invariant(&*self);
        }
        let found = self.position(key.as_str());
        let ghost before = self.pairs();
        let mut entries: Vec<(String, V)> = Vec::new();
        std::mem::swap(&mut entries, &mut self.entries);
        match found {
            Some(i) => {
                proof {
                    lemma_index_of_unique(before, i as int);
                    lemma_update_inserts(before, i as int, value);
                }
                let mut slot = (key, value);
                let ghost put = slot;
                std::mem::swap(&mut slot, &mut entries[i]);
                assert(entries@.map_values(|e: (String, V)| (e.0@, e.1)) =~= before.update(
                    i as int,
                    (put.0@, put.1),
                ));
                self.entries = entries;
                Some(slot.1)
            },
            None => {
                proof {
                    lemma_push_inserts(before, key@, value);
                }
                let ghost put = (key@, value);
                entries.push((key, value));
                assert(entries@.map_values(|e: (String, V)| (e.0@, e.1)) =~= before.push(put));
                self.entries = entries;
                None
            },
        }
    }

    /// Puts a value at a place, under the key that is there, and hands back
    /// the value it replaces.
    pub fn replace_at(&mut self, i: usize, value: V) -> (previous: V)
        requires
            i < old(self).pairs().len(),
        ensures
            final(self).pairs() == old(self).pairs().update(
                i as int,
                (old(self).pairs()[i as int].0, value),
            ),
            final(self)@ == old(self)@.insert(old(self).pairs()[i as int].0, value),
            previous == old(self).pairs()[i as int].1,
    {
        proof {
            use_type_invariant(&*self);
        }
        let ghost before = self.pairs();
        let mut entries: Vec<(String, V)> = Vec::new();
        std::mem::swap(&mut entries, &mut self.entries);
        proof {
            lemma_update_inserts(before, i as int, value);
        }
        let mut slot = (entries[i].0.clone(), value);
        let ghost put = slot;
        std::mem::swap(&mut slot, &mut entries[i]);
        assert(entries@.map_values(|e: (String, V)| (e.0@, e.1)) =~= before.update(
            i as int,
            (put.0@, put.1),
        ));
        self.entries = entries;
        slot.1
    }

    /// The place at which a key is held, if it is held.
    pub open spec fn place_of(&self, key: Seq<char>) -> Option<int> {
        if has_key(self.pairs(), key) {
            Some(index_of(self.pairs(), key))
        } else {
            None
        }
    }
}

impl<V> View for TextMap<V> {
    type V = Map<Seq<char>, V>;

    open spec fn view(&self) -> Map<Seq<char>, V> {
        pairs_to_map(self.pairs())
    }
}

} // verus!
