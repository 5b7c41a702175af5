//! A small string-to-string map with a fully specified model: an ordered
//! list of key/value pairs, updated in place on an existing key and grown
//! at the back on a new one. Entries keep their insertion order, which the
//! response serializer relies on for a deterministic wire image.

use vstd::prelude::*;
use vstd::pervasive::VecAdditionalExecFns;
use crate::text;

verus! {

/// The model of a [`StringMap`]: its entries in order.
pub type Entries = Seq<(Seq<char>, Seq<char>)>;

/// Index of the first entry of `m` whose key is `k`, if any.
pub open spec fn key_at(m: Entries, k: Seq<char>) -> Option<int>
    decreases m.len(),
{
    if m.len() == 0 {
        None
    } else if m[0].0 == k {
        Some(0)
    } else {
        match key_at(m.skip(1), k) {
            Some(i) => Some(i + 1),
            None => None,
        }
    }
}

/// Whether `m` has an entry with key `k`.
pub open spec fn map_has(m: Entries, k: Seq<char>) -> bool {
    key_at(m, k) is Some
}

/// The value stored under `k`, if any.
pub open spec fn map_get(m: Entries, k: Seq<char>) -> Option<Seq<char>> {
    match key_at(m, k) {
        Some(i) => if 0 <= i < m.len() {
            Some(m[i].1)
        } else {
            None
        },
        None => None,
    }
}

/// `m` with `v` stored under `k`: the first entry with key `k` is replaced
/// in place, or a new entry is appended.
pub open spec fn map_upsert(m: Entries, k: Seq<char>, v: Seq<char>) -> Entries {
    match key_at(m, k) {
        Some(i) => m.update(i, (k, v)),
        None => m.push((k, v)),
    }
}

pub proof fn lemma_key_at_bounds(m: Entries, k: Seq<char>)
    ensures
        match key_at(m, k) {
            Some(i) => 0 <= i < m.len() && m[i].0 == k && (forall|j: int|
                0 <= j < i ==> m[j].0 != k),
            None => forall|j: int| 0 <= j < m.len() ==> m[j].0 != k,
        },
    decreases m.len(),
{
    if m.len() > 0 && m[0].0 != k {
        let rest = m.skip(1);
        lemma_key_at_bounds(rest, k);
        match key_at(rest, k) {
            Some(i0) => {
                assert forall|j: int| 0 <= j < i0 + 1 implies m[j].0 != k by {
                    if j > 0 {
                        assert(rest[j - 1] == m[j]);
                    }
                }
            },
            None => {
                assert forall|j: int| 0 <= j < m.len() implies m[j].0 != k by {
                    if j > 0 {
                        assert(rest[j - 1] == m[j]);
                    }
                }
            },
        }
    }
}

/// A string-keyed map storing its entries in insertion order.
#[derive(Debug, PartialEq)]
pub struct StringMap {
    pairs: Vec<(String, String)>,
}

impl View for StringMap {
    type V = Entries;

    closed spec fn view(&self) -> Entries {
        self.pairs.deep_view()
    }
}

impl StringMap {
    /// An empty map.
    pub fn new() -> (r: StringMap)
        ensures
            r@ == Seq::<(Seq<char>, Seq<char>)>::empty(),
    {
        let r = StringMap { pairs: Vec::new() };
        proof {
            assert(r@ =~= Seq::<(Seq<char>, Seq<char>)>::empty());
        }
        r
    }

    /// How many entries the map holds.
    pub fn len(&self) -> (r: usize)
        ensures
            r == self@.len(),
    {
        proof {
            assert(self@.len() == self.pairs@.len());
        }
        self.pairs.len()
    }

    /// Whether the map holds no entry.
    pub fn is_empty(&self) -> (r: bool)
        ensures
            r == (self@.len() == 0),
    {
        self.len() == 0
    }

    /// Index of the first entry with key `k`, if any.
    fn index_of(&self, k: &str) -> (r: Option<usize>)
        ensures
            match r {
                Some(i) => key_at(self@, k@) == Some(i as int),
                None => key_at(self@, k@) is None,
            },
    {
        let n = self.pairs.len();
        let mut i: usize = 0;
        while i < n
            invariant
                n == self.pairs.len(),
                0 <= i <= n,
                self@.len() == n,
                forall|j: int| 0 <= j < i ==> self@[j].0 != k@,
            decreases n - i,
        {
            proof {
                assert(self@[i as int] == (self.pairs@[i as int].0@, self.pairs@[i as int].1@));
            }
            if text::str_eq(self.pairs[i].0.as_str(), k) {
                proof {
                    lemma_key_at_bounds(self@, k@);
                }
                return Some(i);
            }
            i += 1;
        }
        proof {
            lemma_key_at_bounds(self@, k@);
        }
        None
    }

    /// Whether the map has an entry under `k`.
    pub fn contains_key(&self, k: &str) -> (r: bool)
        ensures
            r == map_has(self@, k@),
    {
        self.index_of(k).is_some()
    }

    /// The value stored under `k`, if any.
    pub fn get(&self, k: &str) -> (r: Option<&String>)
        ensures
            match r {
                Some(v) => map_get(self@, k@) == Some(v@),
                None => map_get(self@, k@) is None,
            },
    {
        match self.index_of(k) {
            Some(i) => {
                proof {
                    lemma_key_at_bounds(self@, k@);
                }
                Some(&self.pairs[i].1)
            },
            None => None,
        }
    }

    /// Stores `value` under `key`, replacing any value already there while
    /// keeping the entry's position; a new key goes to the back.
    pub fn insert(&mut self, key: String, value: String)
        ensures
            final(self)@ == map_upsert(old(self)@, key@, value@),
    {
        let ghost m0 = self@;
        match self.index_of(key.as_str()) {
            Some(i) => {
                proof {
                    lemma_key_at_bounds(self@, key@);
                }
                self.pairs.set(i, (key, value));
                proof {
                    assert(self@ =~= m0.update(i as int, (key@, value@)));
                }
            },
            None => {
                self.pairs.push((key, value));
                proof {
                    assert(self@ =~= m0.push((key@, value@)));
                }
            },
        }
    }

    /// The entry at position `i`, in insertion order.
    pub fn pair_at(&self, i: usize) -> (r: (&String, &String))
        requires
            i < self@.len(),
        ensures
            r.0@ == self@[i as int].0 && r.1@ == self@[i as int].1,
    {
        proof {
            assert(self@.len() == self.pairs@.len());
            assert(self@[i as int] == (self.pairs@[i as int].0@, self.pairs@[i as int].1@));
        }
        let p = &self.pairs[i];
        (&p.0, &p.1)
    }

    /// An entry-for-entry copy of the map.
    pub fn duplicate(&self) -> (r: StringMap)
        ensures
            r@ == self@,
    {
        let n = self.pairs.len();
        let mut pairs: Vec<(String, String)> = Vec::new();
        let mut i: usize = 0;
        while i < n
            invariant
                n == self.pairs.len(),
                0 <= i <= n,
                pairs@.len() == i,
                pairs.deep_view() =~= self@.take(i as int),
            decreases n - i,
        {
            proof {
                assert(self@[i as int] == (self.pairs@[i as int].0@, self.pairs@[i as int].1@));
            }
            let p = &self.pairs[i];
            pairs.push((p.0.clone(), p.1.clone()));
            proof {
                assert(pairs.deep_view() =~= self@.take(i + 1));
            }
            i += 1;
        }
        let r = StringMap { pairs };
        proof {
            assert(self@.take(n as int) =~= self@);
        }
        r
    }
}

} // verus!
