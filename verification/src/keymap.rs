//! A string-keyed associative map with a mathematical `Map` view.
//!
//! The map is represented as a vector of key/value pairs whose keys are
//! pairwise distinct. It stands in for hash maps wherever the surrounding
//! logic needs exact contracts: the session store, the hub's notifier and
//! mailbox tables, a session's vote table, and HTTP header sets.

use vstd::prelude::*;

verus! {

/// An associative map from `String` keys to values of type `V`, viewed as a
/// `Map<Seq<char>, V>`.
#[derive(Debug)]
pub struct KeyMap<V> {
    entries: Vec<(String, V)>,
}

impl<V> View for KeyMap<V> {
    type V = Map<Seq<char>, V>;

    closed spec fn view(&self) -> Map<Seq<char>, V> {
        Map::new(
            |k: Seq<char>| exists|i: int| 0 <= i < self.entries@.len() && self.entries@[i].0@ == k,
            |k: Seq<char>| self.entries@[self.index_of_key(k)].1,
        )
    }
}

impl<V> KeyMap<V> {
    /// The keys are pairwise distinct, so each key names at most one entry.
    pub closed spec fn wf(&self) -> bool {
        forall|i: int, j: int|
            0 <= i < j < self.entries@.len() ==> self.entries@[i].0@ != self.entries@[j].0@
    }

    /// The entries as a ghost sequence of key view / value pairs.
    pub closed spec fn entry_seq(&self) -> Seq<(Seq<char>, V)> {
        self.entries@.map_values(|e: (String, V)| (e.0@, e.1))
    }

    closed spec fn index_of_key(&self, k: Seq<char>) -> int {
        choose|i: int| 0 <= i < self.entries@.len() && self.entries@[i].0@ == k
    }

    proof fn lemma_key_index(&self, i: int)
        requires
            self.wf(),
            0 <= i < self.entries@.len(),
        ensures
            self@.contains_key(self.entries@[i].0@),
            self@[self.entries@[i].0@] == self.entries@[i].1,
            self.index_of_key(self.entries@[i].0@) == i,
    {
        let k = self.entries@[i].0@;
        assert(exists|j: int| 0 <= j < self.entries@.len() && self.entries@[j].0@ == k);
        let j = self.index_of_key(k);
        if i < j {
            assert(self.entries@[i].0@ != self.entries@[j].0@);
        } else if j < i {
            assert(self.entries@[j].0@ != self.entries@[i].0@);
        }
    }

    proof fn lemma_dom_len(&self)
        requires
            self.wf(),
        ensures
            self@.dom().finite(),
            self@.dom().len() == self.entries@.len(),
    {
        let keys = self.entries@.map_values(|e: (String, V)| e.0@);
        assert(keys.no_duplicates()) by {
            assert forall|i: int, j: int|
                0 <= i < keys.len() && 0 <= j < keys.len() && i != j implies keys[i] != keys[j] by {
                if i < j {
                    assert(self.entries@[i].0@ != self.entries@[j].0@);
                } else {
                    assert(self.entries@[j].0@ != self.entries@[i].0@);
                }
            }
        }
        assert(self@.dom() =~= keys.to_set()) by {
            assert forall|k: Seq<char>| #[trigger] self@.dom().contains(k) implies keys.to_set()
                .contains(k) by {
                let i = self.index_of_key(k);
                assert(keys[i] == k);
            }
            assert forall|k: Seq<char>| #[trigger] keys.to_set().contains(k) implies self@.dom()
                .contains(k) by {
                let i = choose|i: int| 0 <= i < keys.len() && keys[i] == k;
                assert(self.entries@[i].0@ == k);
            }
        }
        keys.unique_seq_to_set();
    }

    /// Creates an empty map.
    pub fn new() -> (r: Self)
        ensures
            r.wf(),
            r@ == Map::<Seq<char>, V>::empty(),
    {
        let r = KeyMap { entries: Vec::new() };
        proof {
            assert(r@ =~= Map::<Seq<char>, V>::empty());
        }
        r
    }

    /// Looks a key up, returning a reference to its value if it is present.
    pub fn get(&self, key: &String) -> (r: Option<&V>)
        requires
            self.wf(),
        ensures
            match r {
                Some(v) => self@.contains_key(key@) && *v == self@[key@],
                None => !self@.contains_key(key@),
            },
    {
        let n = self.entries.len();
        let mut i: usize = 0;
        while i < n
            invariant
                self.wf(),
                n == self.entries@.len(),
                0 <= i <= n,
                forall|j: int| 0 <= j < i ==> self.entries@[j].0@ != key@,
            decreases n - i,
        {
            if self.entries[i].0 == *key {
                proof {
                    self.lemma_key_index(i as int);
                }
                return Some(&self.entries[i].1);
            }
            i += 1;
        }
        None
    }

    /// Tells whether a key is present.
    pub fn contains_key(&self, key: &String) -> (r: bool)
        requires
            self.wf(),
        ensures
            r == self@.contains_key(key@),
    {
        match self.get(key) {
            Some(_) => true,
            None => false,
        }
    }

    /// Removes a key, returning its value if it was present.
    pub fn remove(&mut self, key: &String) -> (r: Option<V>)
        requires
            old(self).wf(),
        ensures
            final(self).wf(),
            final(self)@ == old(self)@.remove(key@),
            match r {
                Some(v) => old(self)@.contains_key(key@) && v == old(self)@[key@],
                None => !old(self)@.contains_key(key@) && final(self)@ == old(self)@,
            },
    {
        let n = self.entries.len();
        let mut i: usize = 0;
        while i < n
            invariant
                *self == *old(self),
                self.wf(),
                n == self.entries@.len(),
                0 <= i <= n,
                forall|j: int| 0 <= j < i ==> self.entries@[j].0@ != key@,
            decreases n - i,
        {
            if self.entries[i].0 == *key {
                proof {
                    self.lemma_key_index(i as int);
                }
                let ghost pre = *self;
                let entry = self.entries.remove(i);
                proof {
                    Self::lemma_remove_entry(pre, *self, i as int);
                }
                return Some(entry.1);
            }
            i += 1;
        }
        proof {
            assert(!self@.contains_key(key@));
            assert(self@ =~= self@.remove(key@));
        }
        None
    }

    proof fn lemma_remove_entry(pre: Self, post: Self, i: int)
        requires
            pre.wf(),
            0 <= i < pre.entries@.len(),
            post.entries@ == pre.entries@.remove(i),
        ensures
            post.wf(),
            post@ == pre@.remove(pre.entries@[i].0@),
    {
        let k = pre.entries@[i].0@;
        pre.entries@.remove_ensures(i);
        assert(post.wf()) by {
            assert forall|a: int, b: int|
                0 <= a < b < post.entries@.len() implies post.entries@[a].0@
                != post.entries@[b].0@ by {
                let a0 = if a < i {
                    a
                } else {
                    a + 1
                };
                let b0 = if b < i {
                    b
                } else {
                    b + 1
                };
                assert(post.entries@[a] == pre.entries@[a0]);
                assert(post.entries@[b] == pre.entries@[b0]);
            }
        }
        assert(post@ =~= pre@.remove(k)) by {
            assert forall|x: Seq<char>| #[trigger] post@.contains_key(x) implies pre@.remove(
                k,
            ).contains_key(x) && post@[x] == pre@.remove(k)[x] by {
                let j = post.index_of_key(x);
                let j0 = if j < i {
                    j
                } else {
                    j + 1
                };
                assert(post.entries@[j] == pre.entries@[j0]);
                pre.lemma_key_index(j0);
                post.lemma_key_index(j);
                if j0 == i {
                } else {
                    if j0 < i {
                        assert(pre.entries@[j0].0@ != pre.entries@[i].0@);
                    } else {
                        assert(pre.entries@[i].0@ != pre.entries@[j0].0@);
                    }
                }
            }
            assert forall|x: Seq<char>| #[trigger] pre@.remove(k).contains_key(x) implies post@.contains_key(
                x,
            ) by {
                let j0 = pre.index_of_key(x);
                pre.lemma_key_index(j0);
                let j = if j0 < i {
                    j0
                } else {
                    j0 - 1
                };
                assert(j0 != i);
                assert(post.entries@[j] == pre.entries@[j0]);
            }
        }
    }

    proof fn lemma_push_entry(pre: Self, post: Self, key: String, value: V)
        requires
            pre.wf(),
            !pre@.contains_key(key@),
            post.entries@ == pre.entries@.push((key, value)),
        ensures
            post.wf(),
            post@ == pre@.insert(key@, value),
    {
        let n = pre.entries@.len();
        assert(post.wf()) by {
            assert forall|a: int, b: int|
                0 <= a < b < post.entries@.len() implies post.entries@[a].0@
                != post.entries@[b].0@ by {
                if b < n {
                    assert(post.entries@[a] == pre.entries@[a]);
                    assert(post.entries@[b] == pre.entries@[b]);
                } else {
                    assert(post.entries@[b].0@ == key@);
                    assert(post.entries@[a] == pre.entries@[a]);
                    pre.lemma_key_index(a);
                }
            }
        }
        assert(post@ =~= pre@.insert(key@, value)) by {
            assert forall|x: Seq<char>| #[trigger] post@.contains_key(x) implies pre@.insert(
                key@,
                value,
            ).contains_key(x) && post@[x] == pre@.insert(key@, value)[x] by {
                let j = post.index_of_key(x);
                post.lemma_key_index(j);
                if j < n {
                    assert(post.entries@[j] == pre.entries@[j]);
                    pre.lemma_key_index(j);
                    assert(x != key@) by {
                        if x == key@ {
                            assert(pre@.contains_key(key@));
                        }
                    }
                } else {
                    assert(post.entries@[j].0@ == key@);
                }
            }
            assert forall|x: Seq<char>|
                #[trigger] pre@.insert(key@, value).contains_key(x) implies post@.contains_key(
                x,
            ) by {
                if x == key@ {
                    assert(post.entries@[n as int].0@ == key@);
                } else {
                    let j = pre.index_of_key(x);
                    pre.lemma_key_index(j);
                    assert(post.entries@[j] == pre.entries@[j]);
                }
            }
        }
    }

    /// Binds a key to a value, replacing any earlier binding of the same key.
    pub fn insert(&mut self, key: String, value: V)
        requires
            old(self).wf(),
        ensures
            final(self).wf(),
            final(self)@ == old(self)@.insert(key@, value),
    {
        self.remove(&key);
        let ghost mid = *self;
        self.entries.push((key, value));
        proof {
            Self::lemma_push_entry(mid, *self, key, value);
            assert(old(self)@.remove(key@).insert(key@, value) =~= old(self)@.insert(key@, value));
        }
    }

    /// The entries as key/value pairs, one per key.
    pub fn entries(&self) -> (r: &Vec<(String, V)>)
        ensures
            r@.len() == self.entry_seq().len(),
            forall|i: int|
                0 <= i < r@.len() ==> ((#[trigger] r@[i]).0@, r@[i].1) == self.entry_seq()[i],
    {
        proof {
            assert forall|i: int|
                0 <= i < self.entries@.len() implies ((#[trigger] self.entries@[i]).0@,
            self.entries@[i].1) == self.entry_seq()[i] by {}
        }
        &self.entries
    }

    /// The number of keys in the map.
    pub fn len(&self) -> (r: usize)
        requires
            self.wf(),
        ensures
            r == self@.dom().len(),
    {
        proof {
            self.lemma_dom_len();
        }
        self.entries.len()
    }
}

impl<V: Copy> KeyMap<V> {
    /// Returns a copy of the map.
    pub fn duplicate(&self) -> (r: Self)
        ensures
            r@ == self@,
            r.wf() == self.wf(),
    {
        let n = self.entries.len();
        let mut entries: Vec<(String, V)> = Vec::new();
        let mut i: usize = 0;
        while i < n
            invariant
                n == self.entries@.len(),
                0 <= i <= n,
                entries@.len() == i,
                forall|j: int| 0 <= j < i ==> entries@[j] == self.entries@[j],
            decreases n - i,
        {
            let key = self.entries[i].0.clone();
            let value = self.entries[i].1;
            entries.push((key, value));
            i += 1;
        }
        proof {
            assert(entries@ =~= self.entries@);
        }
        let r = KeyMap { entries };
        proof {
            assert(r@ =~= self@);
        }
        r
    }
}

/// Holds when `v` is a clone of some value of the map `m`.
pub open spec fn cloned_from_value<V: Clone>(m: Map<Seq<char>, V>, v: V) -> bool {
    exists|k: Seq<char>| m.contains_key(k) && vstd::pervasive::cloned::<V>(m[k], v)
}

impl<V: Clone> KeyMap<V> {
    /// Returns clones of all values in the map.
    pub fn values(&self) -> (r: Vec<V>)
        requires
            self.wf(),
        ensures
            r@.len() == self@.dom().len(),
            forall|i: int| 0 <= i < r@.len() ==> cloned_from_value(self@, #[trigger] r@[i]),
    {
        proof {
            self.lemma_dom_len();
        }
        let n = self.entries.len();
        let mut r: Vec<V> = Vec::new();
        let mut i: usize = 0;
        while i < n
            invariant
                self.wf(),
                n == self.entries@.len(),
                self@.dom().len() == n,
                0 <= i <= n,
                r@.len() == i,
                forall|j: int| 0 <= j < i ==> cloned_from_value(self@, #[trigger] r@[j]),
            decreases n - i,
        {
            let v = self.entries[i].1.clone();
            proof {
                self.lemma_key_index(i as int);
                let ghost k = self.entries@[i as int].0@;
                assert(self@.contains_key(k) && vstd::pervasive::cloned::<V>(self@[k], v));
            }
            r.push(v);
            i += 1;
        }
        r
    }
}

} // verus!
