//! Label mappings: finite maps from label keys to label values.

use vstd::prelude::*;

verus! {

/// A finite mapping from label keys to label values in which no key occurs
/// twice.
///
/// The mathematical model of a value is its view, a
/// `Map<Seq<char>, Seq<char>>`; the order in which entries were inserted is
/// not observable through the contracts.
#[derive(Debug)]
pub struct Labels {
    entries: Vec<(String, String)>,
}

/// The mapping obtained by inserting the pairs of `pairs` from left to right,
/// a later pair replacing an earlier one with the same key.
pub open spec fn pairs_map(pairs: Seq<(Seq<char>, Seq<char>)>) -> Map<Seq<char>, Seq<char>>
    decreases pairs.len(),
{
    if pairs.len() == 0 {
        Map::empty()
    } else {
        pairs_map(pairs.drop_last()).insert(pairs.last().0, pairs.last().1)
    }
}

/// The pairs of strings of `v`, each string taken by its view.
pub open spec fn pairs_view(v: Seq<(String, String)>) -> Seq<(Seq<char>, Seq<char>)> {
    Seq::new(v.len(), |i: int| (v[i].0@, v[i].1@))
}

impl View for Labels {
    type V = Map<Seq<char>, Seq<char>>;

    closed spec fn view(&self) -> Map<Seq<char>, Seq<char>> {
        Map::new(
            |k: Seq<char>| self.keys().contains(k),
            |k: Seq<char>| self.entries@[self.keys().index_of(k)].1@,
        )
    }
}

impl Labels {
    spec fn keys(&self) -> Seq<Seq<char>> {
        Seq::new(self.entries@.len(), |i: int| self.entries@[i].0@)
    }

    #[verifier::type_invariant]
    spec fn keys_are_unique(&self) -> bool {
        self.keys().no_duplicates()
    }

    /// With unique keys, the entry at position `i` is what the view holds for
    /// its key.
    proof fn lemma_entry(&self, i: int)
        requires
            self.keys().no_duplicates(),
            0 <= i < self.entries@.len(),
        ensures
            self@.contains_key(self.entries@[i].0@),
            self@[self.entries@[i].0@] == self.entries@[i].1@,
    {
        let k = self.entries@[i].0@;
        assert(self.keys()[i] == k);
        assert(self.keys().contains(k));
        let j = self.keys().index_of(k);
        assert(self.keys()[j] == k);
        assert(i == j);
    }

    /// A key outside every entry is outside the view.
    proof fn lemma_absent(&self, key: Seq<char>)
        requires
            forall|i: int| 0 <= i < self.entries@.len() ==> self.entries@[i].0@ != key,
        ensures
            !self@.contains_key(key),
    {
        if self.keys().contains(key) {
            let j = choose|j: int| 0 <= j < self.keys().len() && self.keys()[j] == key;
            assert(self.entries@[j].0@ == key);
        }
    }

    /// The empty mapping.
    pub fn new() -> (labels: Self)
        ensures
            labels@ == Map::<Seq<char>, Seq<char>>::empty(),
    {
        let labels = Labels { entries: Vec::new() };
        assert(labels@ =~= Map::<Seq<char>, Seq<char>>::empty());
        labels
    }

    /// Position of `key` among the entries, if it is present.
    fn position(&self, key: &str) -> (found: Option<usize>)
        ensures
            match found {
                Some(i) => i < self.entries@.len() && self.entries@[i as int].0@ == key@,
                None => forall|i: int| 0 <= i < self.entries@.len() ==> self.entries@[i].0@ != key@,
            },
    {
        let wanted = key.to_owned();
        let mut i: usize = 0;
        while i < self.entries.len()
            invariant
                i <= self.entries@.len(),
                wanted@ == key@,
                forall|j: int| 0 <= j < i ==> self.entries@[j].0@ != key@,
            decreases self.entries@.len() - i,
        {
            if self.entries[i].0 == wanted {
                return Some(i);
            }
            i += 1;
        }
        None
    }

    /// Number of keys of the mapping.
    pub fn len(&self) -> (n: usize)
        ensures
            n == self@.len(),
            self@.dom().finite(),
    {
        proof {
            use_type_invariant(self);
            self.keys().unique_seq_to_set();
            assert(self@.dom() =~= self.keys().to_set());
        }
        self.entries.len()
    }

    /// Whether the mapping has no key.
    pub fn is_empty(&self) -> (empty: bool)
        ensures
            empty == (self@ == Map::<Seq<char>, Seq<char>>::empty()),
    {
        proof {
            use_type_invariant(self);
            if self.entries@.len() > 0 {
                self.lemma_entry(0);
            } else {
                assert(self@ =~= Map::<Seq<char>, Seq<char>>::empty());
            }
        }
        self.entries.len() == 0
    }

    /// The value stored under `key`, if any.
    pub fn get(&self, key: &str) -> (value: Option<&String>)
        ensures
            match value {
                Some(v) => self@.contains_key(key@) && self@[key@] == v@,
                None => !self@.contains_key(key@),
            },
    {
        proof {
            use_type_invariant(self);
        }
        match self.position(key) {
            Some(i) => {
                proof {
                    self.lemma_entry(i as int);
                }
                Some(&self.entries[i].1)
            },
            None => {
                proof {
                    self.lemma_absent(key@);
                }
                None
            },
        }
    }

    /// Stores `value` under `key`, replacing what was stored there, and returns
    /// the value that was replaced.
    pub fn insert(&mut self, key: String, value: String) -> (previous: Option<String>)
        ensures
            final(self)@ == old(self)@.insert(key@, value@),
            match previous {
                Some(p) => old(self)@.contains_key(key@) && old(self)@[key@] == p@,
                None => !old(self)@.contains_key(key@),
            },
    {
        proof {
            use_type_invariant(&*self);
        }
        let found = self.position(key.as_str());
        let mut before = Labels::new();
        std::mem::swap(self, &mut before);
        proof {
            use_type_invariant(&before);
        }
        let ghost earlier = before;
        let ghost k = key@;
        let ghost v = value@;
        match found {
            Some(i) => {
                let previous = before.entries[i].1.clone();
                let mut entries = before.entries;
                entries.set(i, (key, value));
                let ghost updated = Labels { entries };
                proof {
                    earlier.lemma_entry(i as int);
                    assert(updated.keys() =~= earlier.keys());
                    assert forall|q: Seq<char>| #[trigger] updated@.contains_key(q) implies updated@[q]
                        == earlier@.insert(k, v)[q] by {
                        let j = updated.keys().index_of(q);
                        assert(updated.keys()[j] == q);
                        updated.lemma_entry(j);
                        if j != i as int {
                            earlier.lemma_entry(j);
                            assert(earlier.keys()[j] != earlier.keys()[i as int]);
                            assert(updated.entries@[j] == earlier.entries@[j]);
                        } else {
                            assert(q == k);
                        }
                    }
                    assert(updated@ =~= earlier@.insert(k, v));
                }
                *self = Labels { entries };
                Some(previous)
            },
            None => {
                let mut entries = before.entries;
                entries.push((key, value));
                let ghost updated = Labels { entries };
                proof {
                    earlier.lemma_absent(k);
                    let n = earlier.entries@.len() as int;
                    assert(updated.keys() =~= earlier.keys().push(k));
                    assert forall|a: int, b: int|
                        0 <= a < updated.keys().len() && 0 <= b < updated.keys().len() && a
                            != b implies updated.keys()[a] != updated.keys()[b] by {
                        if a < n && b < n {
                            assert(earlier.keys()[a] != earlier.keys()[b]);
                        }
                    }
                    assert forall|q: Seq<char>| #[trigger]
                        updated@.contains_key(q) == earlier@.insert(k, v).contains_key(q) by {
                        if earlier.keys().contains(q) {
                            let j = earlier.keys().index_of(q);
                            assert(updated.keys()[j] == q);
                        }
                        if q == k {
                            assert(updated.keys()[n] == q);
                        }
                    }
                    assert forall|q: Seq<char>| #[trigger] updated@.contains_key(q) implies updated@[q]
                        == earlier@.insert(k, v)[q] by {
                        let j = updated.keys().index_of(q);
                        assert(updated.keys()[j] == q);
                        updated.lemma_entry(j);
                        if j < n {
                            earlier.lemma_entry(j);
                        }
                    }
                    assert(updated@ =~= earlier@.insert(k, v));
                }
                *self = Labels { entries };
                None
            },
        }
    }

    /// The keys of the first `n` entries.
    spec fn first_keys(&self, n: int) -> Set<Seq<char>> {
        Set::new(|k: Seq<char>| exists|j: int| 0 <= j < n && self.entries@[j].0@ == k)
    }

    /// Each entry adds its key to the keys before it, and all entries
    /// together have the keys of the view.
    proof fn lemma_first_keys(&self, n: int)
        requires
            self.keys().no_duplicates(),
            0 <= n <= self.entries@.len(),
        ensures
            n < self.entries@.len() ==> self.first_keys(n + 1) =~= self.first_keys(n).insert(
                self.entries@[n].0@,
            ),
            n == self.entries@.len() ==> self.first_keys(n) =~= self@.dom(),
    {
        if n < self.entries@.len() {
            let added = self.entries@[n].0@;
            assert forall|k: Seq<char>|
                self.first_keys(n + 1).contains(k) == self.first_keys(n).insert(added).contains(
                    k,
                ) by {
                if self.first_keys(n + 1).contains(k) {
                    let j = choose|j: int| 0 <= j < n + 1 && self.entries@[j].0@ == k;
                    if j < n {
                        assert(self.first_keys(n).contains(k));
                    }
                }
                if self.first_keys(n).contains(k) {
                    let j = choose|j: int| 0 <= j < n && self.entries@[j].0@ == k;
                    assert(0 <= j < n + 1 && self.entries@[j].0@ == k);
                }
                if k == added {
                    assert(0 <= n < n + 1 && self.entries@[n].0@ == k);
                }
            }
        } else {
            assert forall|k: Seq<char>| self.first_keys(n).contains(k) == self@.dom().contains(
                k,
            ) by {
                if self@.contains_key(k) {
                    let j = self.keys().index_of(k);
                    assert(self.keys()[j] == k);
                    assert(0 <= j < n && self.entries@[j].0@ == k);
                }
                if self.first_keys(n).contains(k) {
                    let j = choose|j: int| 0 <= j < n && self.entries@[j].0@ == k;
                    self.lemma_entry(j);
                }
            }
        }
    }

    /// Overlays `other` on the mapping: every entry of `other` is stored, and
    /// the keys that `other` does not have keep their values.
    pub fn extend(&mut self, other: &Labels)
        ensures
            final(self)@ == old(self)@.union_prefer_right(other@),
    {
        proof {
            use_type_invariant(other);
            other.lemma_first_keys(0);
            assert(other.first_keys(0) =~= Set::empty());
            assert(self@ =~= old(self)@.union_prefer_right(other@.restrict(other.first_keys(0))));
        }
        let mut i: usize = 0;
        while i < other.entries.len()
            invariant
                i <= other.entries@.len(),
                other.keys().no_duplicates(),
                self@ == old(self)@.union_prefer_right(other@.restrict(other.first_keys(i as int))),
            decreases other.entries@.len() - i,
        {
            let key = other.entries[i].0.clone();
            let value = other.entries[i].1.clone();
            self.insert(key, value);
            proof {
                other.lemma_entry(i as int);
                other.lemma_first_keys(i as int);
                assert(self@ =~= old(self)@.union_prefer_right(
                    other@.restrict(other.first_keys(i + 1)),
                ));
            }
            i += 1;
        }
        proof {
            other.lemma_first_keys(i as int);
            assert(other@.restrict(other.first_keys(i as int)) =~= other@);
        }
    }

    /// The mapping built from `pairs`, taken from first to last: where a key
    /// occurs more than once, its last value stays.
    pub fn from_pairs(pairs: Vec<(String, String)>) -> (labels: Self)
        ensures
            labels@ == pairs_map(pairs_view(pairs@)),
    {
        let mut labels = Labels::new();
        let mut i: usize = 0;
        while i < pairs.len()
            invariant
                i <= pairs@.len(),
                labels@ == pairs_map(pairs_view(pairs@).take(i as int)),
            decreases pairs@.len() - i,
        {
            let key = pairs[i].0.clone();
            let value = pairs[i].1.clone();
            labels.insert(key, value);
            proof {
                let all = pairs_view(pairs@);
                assert(all.take(i + 1).drop_last() =~= all.take(i as int));
                assert(all.take(i + 1).last() == all[i as int]);
            }
            i += 1;
        }
        proof {
            assert(pairs_view(pairs@).take(i as int) =~= pairs_view(pairs@));
        }
        labels
    }

    /// The entries of the mapping, each key once.
    pub fn to_pairs(&self) -> (pairs: Vec<(String, String)>)
        ensures
            pairs_map(pairs_view(pairs@)) == self@,
            pairs@.len() == self@.len(),
    {
        let mut pairs: Vec<(String, String)> = Vec::new();
        let mut i: usize = 0;
        while i < self.entries.len()
            invariant
                i <= self.entries@.len(),
                pairs@.len() == i,
                forall|j: int|
                    0 <= j < i ==> (#[trigger] pairs@[j]).0@ == self.entries@[j].0@ && pairs@[j].1@
                        == self.entries@[j].1@,
            decreases self.entries@.len() - i,
        {
            pairs.push((self.entries[i].0.clone(), self.entries[i].1.clone()));
            i += 1;
        }
        proof {
            use_type_invariant(self);
            let all = pairs_view(pairs@);
            self.lemma_pairs_map(all, all.len() as int);
            self.lemma_first_keys(all.len() as int);
            assert(all.take(all.len() as int) =~= all);
            assert(self@.restrict(self@.dom()) =~= self@);
            self.keys().unique_seq_to_set();
            assert(self@.dom() =~= self.keys().to_set());
        }
        pairs
    }

    /// Folding the first `n` entries gives the view restricted to their keys.
    proof fn lemma_pairs_map(&self, pairs: Seq<(Seq<char>, Seq<char>)>, n: int)
        requires
            self.keys().no_duplicates(),
            0 <= n <= pairs.len() == self.entries@.len(),
            forall|j: int|
                0 <= j < pairs.len() ==> (#[trigger] pairs[j]).0 == self.entries@[j].0@ && pairs[j].1
                    == self.entries@[j].1@,
        ensures
            pairs_map(pairs.take(n)) =~= self@.restrict(self.first_keys(n)),
        decreases n,
    {
        if n > 0 {
            self.lemma_pairs_map(pairs, n - 1);
            assert(pairs.take(n).drop_last() =~= pairs.take(n - 1));
            assert(pairs.take(n).last() == pairs[n - 1]);
            self.lemma_entry(n - 1);
            self.lemma_first_keys(n - 1);
        } else {
            assert(self.first_keys(0) =~= Set::empty());
        }
    }

    /// Whether every entry of `required` is an entry of this mapping, with the
    /// same value.
    pub fn covers(&self, required: &Labels) -> (covered: bool)
        ensures
            covered == required@.submap_of(self@),
    {
        proof {
            use_type_invariant(required);
        }
        let mut i: usize = 0;
        while i < required.entries.len()
            invariant
                i <= required.entries@.len(),
                required.keys().no_duplicates(),
                forall|j: int|
                    0 <= j < i ==> self@.contains_key(#[trigger] required.entries@[j].0@)
                        && self@[required.entries@[j].0@] == required.entries@[j].1@,
            decreases required.entries@.len() - i,
        {
            proof {
                required.lemma_entry(i as int);
            }
            match self.get(required.entries[i].0.as_str()) {
                Some(found) => {
                    if *found != required.entries[i].1 {
                        return false;
                    }
                },
                None => {
                    return false;
                },
            }
            i += 1;
        }
        proof {
            assert forall|k: Seq<char>| #[trigger] required@.dom().contains(k) implies self@.dom().contains(
                k,
            ) && self@[k] == required@[k] by {
                let j = required.keys().index_of(k);
                assert(required.keys()[j] == k);
                required.lemma_entry(j);
                assert(self@.contains_key(required.entries@[j].0@));
            }
        }
        true
    }

    /// Whether `key` is a key of the mapping.
    pub fn contains_key(&self, key: &str) -> (present: bool)
        ensures
            present == self@.contains_key(key@),
    {
        self.get(key).is_some()
    }
}

impl Clone for Labels {
    fn clone(&self) -> (copy: Self)
        ensures
            copy@ == self@,
    {
        let mut copy = Labels::new();
        copy.extend(self);
        proof {
            assert(copy@ =~= self@);
        }
        copy
    }
}

impl Default for Labels {
    fn default() -> (labels: Self)
        ensures
            labels@ == Map::<Seq<char>, Seq<char>>::empty(),
    {
        Labels::new()
    }
}

} // verus!
