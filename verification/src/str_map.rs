//! A small map keyed by strings, kept as an association list.

use vstd::prelude::*;

verus! {

/// Whether some entry of `s` has key `k`.
pub open spec fn has_key<V>(s: Seq<(String, V)>, k: Seq<char>) -> bool {
    exists|i: int| 0 <= i < s.len() && #[trigger] s[i].0@ == k
}

/// The position of an entry with key `k` in `s` (meaningful when `has_key(s, k)`).
pub open spec fn key_index<V>(s: Seq<(String, V)>, k: Seq<char>) -> int {
    choose|i: int| 0 <= i < s.len() && #[trigger] s[i].0@ == k
}

/// The map that an association list denotes, each value taken by its view.
pub open spec fn map_of<V: View>(s: Seq<(String, V)>) -> Map<Seq<char>, V::V> {
    Map::new(|k: Seq<char>| has_key(s, k), |k: Seq<char>| s[key_index(s, k)].1@)
}

/// No two entries share a key.
pub open spec fn keys_unique<V>(s: Seq<(String, V)>) -> bool {
    forall|i: int, j: int|
        0 <= i < s.len() && 0 <= j < s.len() && i != j ==> #[trigger] s[i].0@ != #[trigger] s[j].0@
}

/// In an association list with unique keys, each entry is what the map gives for its key.
pub proof fn lemma_map_of_entry<V: View>(s: Seq<(String, V)>, i: int)
    requires
        keys_unique(s),
        0 <= i < s.len(),
    ensures
        map_of(s).contains_key(s[i].0@),
        map_of(s)[s[i].0@] == s[i].1@,
{
    assert(has_key(s, s[i].0@));
    let j = key_index(s, s[i].0@);
    assert(s[j].0@ == s[i].0@);
}

/// A map from strings to values, with at most one entry per key.
pub struct StrMap<V> {
    entries: Vec<(String, V)>,
}

impl<V: View> View for StrMap<V> {
    type V = Map<Seq<char>, V::V>;

    closed spec fn view(&self) -> Map<Seq<char>, V::V> {
        map_of(self.entries@)
    }
}

impl<V> StrMap<V> {
    #[verifier::type_invariant]
    closed spec fn unique(self) -> bool {
        keys_unique(self.entries@)
    }
}

impl<V: View> StrMap<V> {
    /// An empty map.
    pub fn new() -> (m: Self)
        ensures
            m@ == Map::<Seq<char>, V::V>::empty(),
    {
        let m = StrMap { entries: Vec::new() };
        assert(m@ =~= Map::<Seq<char>, V::V>::empty());
        m
    }

    /// The number of keys.
    pub fn len(&self) -> (n: usize)
        ensures
            n == self@.len(),
    {
        proof {
            use_type_invariant(self);
            self.lemma_dom_len();
        }
        self.entries.len()
    }

    /// The keys of the map are finitely many.
    pub proof fn lemma_finite(&self)
        ensures
            self@.dom().finite(),
    {
        let s = self.entries@;
        let keys = s.map_values(|e: (String, V)| e.0@);
        self.lemma_dom_is_keys();
        vstd::seq_lib::seq_to_set_is_finite(keys);
    }

    proof fn lemma_dom_is_keys(&self)
        ensures
            self@.dom() =~= self.entries@.map_values(|e: (String, V)| e.0@).to_set(),
    {
        let s = self.entries@;
        let keys = s.map_values(|e: (String, V)| e.0@);
        assert forall|k: Seq<char>| self@.dom().contains(k) implies keys.to_set().contains(k) by {
            let i = key_index(s, k);
            assert(keys[i] == k);
        }
        assert forall|k: Seq<char>| keys.to_set().contains(k) implies self@.dom().contains(k) by {
            let i = choose|i: int| 0 <= i < keys.len() && keys[i] == k;
            assert(s[i].0@ == k);
        }
    }

    proof fn lemma_dom_len(&self)
        requires
            keys_unique(self.entries@),
        ensures
            self@.dom().finite(),
            self@.dom().len() == self.entries@.len(),
        decreases self.entries@.len(),
    {
        let s = self.entries@;
        let keys = s.map_values(|e: (String, V)| e.0@);
        assert(self@.dom() =~= keys.to_set()) by {
            assert forall|k: Seq<char>| self@.dom().contains(k) implies keys.to_set().contains(k) by {
                let i = key_index(s, k);
                assert(keys[i] == k);
            }
            assert forall|k: Seq<char>| keys.to_set().contains(k) implies self@.dom().contains(k) by {
                let i = choose|i: int| 0 <= i < keys.len() && keys[i] == k;
                assert(s[i].0@ == k);
            }
        }
        assert(keys.no_duplicates());
        keys.unique_seq_to_set();
    }

    /// The position of `key`, if present.
    fn find(&self, key: &String) -> (r: Option<usize>)
        ensures
            match r {
                Some(i) => i < self.entries@.len() && self.entries@[i as int].0@ == key@,
                None => !has_key(self.entries@, key@),
            },
    {
        let mut i: usize = 0;
        while i < self.entries.len()
            invariant
                i <= self.entries@.len(),
                forall|j: int| 0 <= j < i ==> self.entries@[j].0@ != key@,
            decreases self.entries@.len() - i,
        {
            if self.entries[i].0 == *key {
                return Some(i);
            }
            i = i + 1;
        }
        None
    }

    /// Whether `key` has an entry.
    pub fn contains_key(&self, key: &String) -> (b: bool)
        ensures
            b == self@.contains_key(key@),
    {
        self.find(key).is_some()
    }

    /// The value stored under `key`, if any.
    pub fn get(&self, key: &String) -> (r: Option<&V>)
        ensures
            match r {
                Some(v) => self@.contains_key(key@) && v@ == self@[key@],
                None => !self@.contains_key(key@),
            },
    {
        proof {
            use_type_invariant(self);
        }
        match self.find(key) {
            Some(i) => {
                proof {
                    lemma_map_of_entry(self.entries@, i as int);
                }
                Some(&self.entries[i].1)
            },
            None => None,
        }
    }

    /// Stores `value` under `key`, replacing what was there.
    pub fn insert(&mut self, key: String, value: V)
        ensures
            final(self)@ == old(self)@.insert(key@, value@),
    {
        proof {
            use_type_invariant(&*self);
        }
        let ghost old_entries = self.entries@;
        let ghost k = key@;
        let ghost v = value@;
        let found = self.find(&key);
        let mut entries: Vec<(String, V)> = Vec::new();
        std::mem::swap(&mut entries, &mut self.entries);
        let ghost pos: int = match found {
            Some(i) => i as int,
            None => old_entries.len() as int,
        };
        match found {
            Some(i) => {
                entries.set(i, (key, value));
                proof {
                    let s = entries@;
                    assert(s == old_entries.update(i as int, s[i as int]));
                    assert(keys_unique(s));
                }
            },
            None => {
                entries.push((key, value));
            },
        }
        proof {
            assert(keys_unique(entries@));
        }
        self.entries = entries;
        proof {
            let s = self.entries@;
            assert(keys_unique(s));
            assert(0 <= pos < s.len() && s[pos].0@ == k && s[pos].1@ == v);
            assert(forall|j: int| 0 <= j < s.len() && j != pos ==> s[j] == old_entries[j]);
            assert forall|q: Seq<char>| #![auto]
                map_of(s).dom().contains(q) == map_of(old_entries).insert(k, v).dom().contains(q)
                by {
                if q != k {
                    if has_key(s, q) {
                        let j = key_index(s, q);
                        assert(old_entries[j].0@ == q);
                    }
                    if has_key(old_entries, q) {
                        let j = key_index(old_entries, q);
                        assert(s[j].0@ == q);
                    }
                } else {
                    assert(s[pos].0@ == k);
                }
            }
            assert forall|q: Seq<char>| #![auto] map_of(s).dom().contains(q) implies map_of(s)[q]
                == map_of(old_entries).insert(k, v)[q] by {
                let j = key_index(s, q);
                lemma_map_of_entry(s, j);
                if q != k {
                    assert(j != pos);
                    lemma_map_of_entry(old_entries, j);
                } else {
                    assert(j == pos);
                }
            }
            assert(map_of(s) =~= map_of(old_entries).insert(k, v));
        }
    }

    /// Removes the entry of `key`, if any.
    pub fn remove(&mut self, key: &String)
        ensures
            final(self)@ == old(self)@.remove(key@),
    {
        proof {
            use_type_invariant(&*self);
        }
        let ghost old_entries = self.entries@;
        let found = self.find(key);
        let mut entries: Vec<(String, V)> = Vec::new();
        std::mem::swap(&mut entries, &mut self.entries);
        match found {
            Some(i) => {
                let _ = entries.remove(i);
                proof {
                    let s = entries@;
                    assert(s =~= old_entries.remove(i as int));
                    assert forall|a: int, b: int|
                        0 <= a < s.len() && 0 <= b < s.len() && a != b implies #[trigger] s[a].0@
                        != #[trigger] s[b].0@ by {
                        let a0 = if a < i { a } else { a + 1 };
                        let b0 = if b < i { b } else { b + 1 };
                        assert(s[a] == old_entries[a0]);
                        assert(s[b] == old_entries[b0]);
                    }
                }
            },
            None => {},
        }
        self.entries = entries;
        proof {
            let s = self.entries@;
            let k = key@;
            assert(keys_unique(s));
            assert forall|q: Seq<char>| #![auto]
                map_of(s).dom().contains(q) == map_of(old_entries).remove(k).dom().contains(q)
                by {
                if has_key(s, q) {
                    let j = key_index(s, q);
                    if s.len() < old_entries.len() {
                        let ii = choose|ii: int| 0 <= ii < old_entries.len() && old_entries[ii].0@ == k;
                        let j0 = if j < ii { j } else { j + 1 };
                        assert(old_entries[j0].0@ == q);
                    } else {
                        assert(old_entries[j].0@ == q);
                    }
                }
                if has_key(old_entries, q) && q != k {
                    let j = key_index(old_entries, q);
                    if s.len() < old_entries.len() {
                        let ii = choose|ii: int| 0 <= ii < old_entries.len() && old_entries[ii].0@ == k;
                        assert(j != ii);
                        let j1 = if j < ii { j } else { j - 1 };
                        assert(s[j1].0@ == q);
                    } else {
                        assert(s[j].0@ == q);
                    }
                }
            }
            assert forall|q: Seq<char>| #![auto] map_of(s).dom().contains(q) implies map_of(s)[q]
                == map_of(old_entries).remove(k)[q] by {
                let j = key_index(s, q);
                lemma_map_of_entry(s, j);
                if s.len() < old_entries.len() {
                    let ii = choose|ii: int| 0 <= ii < old_entries.len() && old_entries[ii].0@ == k;
                    let j0 = if j < ii { j } else { j + 1 };
                    assert(old_entries[j0] == s[j]);
                    lemma_map_of_entry(old_entries, j0);
                } else {
                    lemma_map_of_entry(old_entries, j);
                }
            }
            assert(map_of(s) =~= map_of(old_entries).remove(k));
        }
    }
}

impl StrMap<String> {
    /// Whether some key maps to `value`.
    pub fn contains_value(&self, value: &String) -> (b: bool)
        ensures
            b == self@.values().contains(value@),
    {
        proof {
            use_type_invariant(self);
        }
        let mut i: usize = 0;
        while i < self.entries.len()
            invariant
                keys_unique(self.entries@),
                i <= self.entries@.len(),
                forall|j: int| 0 <= j < i ==> self.entries@[j].1@ != value@,
            decreases self.entries@.len() - i,
        {
            if self.entries[i].1 == *value {
                proof {
                    lemma_map_of_entry(self.entries@, i as int);
                    assert(self@.dom().contains(self.entries@[i as int].0@));
                }
                return true;
            }
            i = i + 1;
        }
        proof {
            if self@.values().contains(value@) {
                let k = choose|k: Seq<char>| self@.dom().contains(k) && self@[k] == value@;
                let j = key_index(self.entries@, k);
                lemma_map_of_entry(self.entries@, j);
            }
        }
        false
    }
}

} // verus!
