//! A map keyed by text, used for the per-instance settings, the error
//! records and the sets of instances whose selection is invalid.
use vstd::prelude::*;
use crate::text::same_text;

verus! {

/// A finite map from text keys to values; each key occurs once.
#[derive(Debug)]
pub struct StringMap<V> {
    entries: Vec<(String, V)>,
}

/// `i` holds the key `k` in `e`.
pub open spec fn key_at<V>(e: Seq<(String, V)>, k: Seq<char>, i: int) -> bool {
    0 <= i < e.len() && e[i].0@ == k
}

impl<V> StringMap<V> {
    #[verifier::type_invariant]
    spec fn keys_distinct(self) -> bool {
        forall|i: int, j: int|
            0 <= i < j < self.entries@.len() ==> self.entries@[i].0@ != self.entries@[j].0@
    }

    /// The map's contents.
    pub closed spec fn view(&self) -> Map<Seq<char>, V> {
        Map::new(
            |k: Seq<char>| exists|i: int| key_at(self.entries@, k, i),
            |k: Seq<char>| self.entries@[choose|i: int| key_at(self.entries@, k, i)].1,
        )
    }

    proof fn lemma_lookup(&self, k: Seq<char>, i: int)
        requires
            self.keys_distinct(),
            key_at(self.entries@, k, i),
        ensures
            self.view().contains_key(k),
            self.view()[k] == self.entries@[i].1,
    {
        let c = choose|c: int| key_at(self.entries@, k, c);
        assert(c == i);
    }

    /// An empty map.
    pub fn new() -> (m: Self)
        ensures
            m.view() == Map::<Seq<char>, V>::empty(),
    {
        let m = StringMap { entries: Vec::new() };
        assert(m.view() =~= Map::<Seq<char>, V>::empty());
        m
    }

    fn position(&self, key: &str) -> (r: Option<usize>)
        ensures
            match r {
                Some(i) => key_at(self.entries@, key@, i as int),
                None => forall|i: int| 0 <= i < self.entries@.len() ==> !key_at(self.entries@, key@, i),
            },
    {
        let mut i: usize = 0;
        while i < self.entries.len()
            invariant
                i <= self.entries@.len(),
                forall|j: int| 0 <= j < i ==> !key_at(self.entries@, key@, j),
            decreases self.entries.len() - i,
        {
            if same_text(self.entries[i].0.as_str(), key) {
                return Some(i);
            }
            i = i + 1;
        }
        None
    }

    /// The value under `key`.
    pub fn get(&self, key: &str) -> (r: Option<&V>)
        ensures
            match r {
                Some(v) => self.view().contains_key(key@) && *v == self.view()[key@],
                None => !self.view().contains_key(key@),
            },
    {
        proof {
            use_type_invariant(self);
        }
        match self.position(key) {
            Some(i) => {
                proof {
                    self.lemma_lookup(key@, i as int);
                }
                Some(&self.entries[i].1)
            },
            None => None,
        }
    }

    /// Whether the map has a value under `key`.
    pub fn contains_key(&self, key: &str) -> (r: bool)
        ensures
            r == self.view().contains_key(key@),
    {
        self.get(key).is_some()
    }

    /// Binds `key` to `value`, replacing what it held.
    pub fn insert(&mut self, key: String, value: V)
        ensures
            final(self).view() == old(self).view().insert(key@, value),
    {
        proof {
            use_type_invariant(&*self);
        }
        let ghost k = key@;
        let ghost before = *self;
        match self.position(key.as_str()) {
            Some(i) => {
                let mut entries: Vec<(String, V)> = Vec::new();
                std::mem::swap(&mut entries, &mut self.entries);
                entries.set(i, (key, value));
                assert(entries@ == before.entries@.update(i as int, (key, value)));
                self.entries = entries;
                proof {
                    assert(self.keys_distinct());
                    assert forall|q: Seq<char>| #![trigger self.view().dom().contains(q)]
                        self.view().dom().contains(q) == before.view().insert(k, value).dom().contains(q)
                        && (self.view().dom().contains(q) ==> self.view()[q] == before.view().insert(k, value)[q])
                    by {
                        if q == k {
                            self.lemma_lookup(q, i as int);
                        } else if exists|j: int| key_at(before.entries@, q, j) {
                            let j = choose|j: int| key_at(before.entries@, q, j);
                            before.lemma_lookup(q, j);
                            self.lemma_lookup(q, j);
                        } else {
                            assert forall|j: int| 0 <= j < self.entries@.len() implies !key_at(self.entries@, q, j) by {
                                if j != i {
                                    assert(!key_at(before.entries@, q, j));
                                }
                            }
                        }
                    }
                    assert(self.view() =~= before.view().insert(k, value));
                }
            },
            None => {
                let mut entries: Vec<(String, V)> = Vec::new();
                std::mem::swap(&mut entries, &mut self.entries);
                entries.push((key, value));
                assert forall|a: int, b: int| 0 <= a < b < entries@.len() implies entries@[a].0@
                    != entries@[b].0@ by {
                    if b == before.entries@.len() {
                        assert(!key_at(before.entries@, k, a));
                    }
                }
                self.entries = entries;
                proof {
                    let n = before.entries@.len() as int;
                    assert(self.keys_distinct());
                    assert forall|q: Seq<char>| #![trigger self.view().dom().contains(q)]
                        self.view().dom().contains(q) == before.view().insert(k, value).dom().contains(q)
                        && (self.view().dom().contains(q) ==> self.view()[q] == before.view().insert(k, value)[q])
                    by {
                        if q == k {
                            self.lemma_lookup(q, n);
                        } else if exists|j: int| key_at(before.entries@, q, j) {
                            let j = choose|j: int| key_at(before.entries@, q, j);
                            before.lemma_lookup(q, j);
                            self.lemma_lookup(q, j);
                        } else {
                            assert forall|j: int| 0 <= j < self.entries@.len() implies !key_at(self.entries@, q, j) by {
                                if j != n {
                                    assert(!key_at(before.entries@, q, j));
                                }
                            }
                        }
                    }
                    assert(self.view() =~= before.view().insert(k, value));
                }
            },
        }
    }

    /// Removes the value under `key` and returns it.
    pub fn remove(&mut self, key: &str) -> (r: Option<V>)
        ensures
            final(self).view() == old(self).view().remove(key@),
            match r {
                Some(v) => old(self).view().contains_key(key@) && v == old(self).view()[key@],
                None => !old(self).view().contains_key(key@),
            },
    {
        proof {
            use_type_invariant(&*self);
        }
        let ghost k = key@;
        let ghost before = *self;
        match self.position(key) {
            Some(i) => {
                proof {
                    before.lemma_lookup(k, i as int);
                }
                let mut entries: Vec<(String, V)> = Vec::new();
                std::mem::swap(&mut entries, &mut self.entries);
                let (_, v) = entries.remove(i);
                assert(entries@ =~= before.entries@.subrange(0, i as int) + before.entries@.subrange(
                    i + 1,
                    before.entries@.len() as int,
                ));
                assert forall|a: int, b: int| 0 <= a < b < entries@.len() implies entries@[a].0@
                    != entries@[b].0@ by {
                    let a0 = if a < i { a } else { a + 1 };
                    let b0 = if b < i { b } else { b + 1 };
                    assert(entries@[a] == before.entries@[a0]);
                    assert(entries@[b] == before.entries@[b0]);
                }
                self.entries = entries;
                proof {
                    let e0 = before.entries@;
                    let e1 = self.entries@;
                    assert(self.keys_distinct());
                    assert forall|q: Seq<char>| #![trigger self.view().dom().contains(q)]
                        self.view().dom().contains(q) == before.view().remove(k).dom().contains(q)
                        && (self.view().dom().contains(q) ==> self.view()[q] == before.view().remove(k)[q])
                    by {
                        if q == k {
                            assert forall|j: int| 0 <= j < e1.len() implies !key_at(e1, q, j) by {
                                if j < i {
                                    assert(e1[j] == e0[j]);
                                } else {
                                    assert(e1[j] == e0[j + 1]);
                                }
                            }
                        } else if exists|j: int| key_at(e0, q, j) {
                            let j = choose|j: int| key_at(e0, q, j);
                            before.lemma_lookup(q, j);
                            let j1 = if j < i { j } else { j - 1 };
                            assert(key_at(e1, q, j1));
                            self.lemma_lookup(q, j1);
                        } else {
                            assert forall|j: int| 0 <= j < e1.len() implies !key_at(e1, q, j) by {
                                if j < i {
                                    assert(!key_at(e0, q, j));
                                } else {
                                    assert(!key_at(e0, q, j + 1));
                                }
                            }
                        }
                    }
                    assert(self.view() =~= before.view().remove(k));
                }
                Some(v)
            },
            None => {
                assert(self.view() =~= before.view().remove(k));
                None
            },
        }
    }
}

} // verus!
