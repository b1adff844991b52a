//! An insertion-ordered collection of values under unique string keys.
//!
//! Each deduplicated collection of the reconciliation run is kept in a
//! [`Registry`]: a vector of key/value entries whose key views are pairwise
//! distinct. Its mathematical value is the sequence of entries; the spec
//! functions below define lookup and insertion over that sequence.

use vstd::prelude::*;
use crate::strings::str_eq;

verus! {

/// True when `s` holds an entry under key `k`.
pub open spec fn seq_has_key<T>(s: Seq<(Seq<char>, T)>, k: Seq<char>) -> bool {
    exists|i: int| 0 <= i < s.len() && s[i].0 == k
}

/// The index of the entry under key `k`.
pub open spec fn seq_key_index<T>(s: Seq<(Seq<char>, T)>, k: Seq<char>) -> int {
    choose|i: int| 0 <= i < s.len() && s[i].0 == k
}

/// The value stored under key `k`.
pub open spec fn seq_lookup<T>(s: Seq<(Seq<char>, T)>, k: Seq<char>) -> T {
    s[seq_key_index(s, k)].1
}

/// Inserts `v` under key `k`: replaces the entry already under `k`, or
/// appends a new entry at the end.
pub open spec fn seq_upsert<T>(s: Seq<(Seq<char>, T)>, k: Seq<char>, v: T) -> Seq<(Seq<char>, T)> {
    if seq_has_key(s, k) {
        s.update(seq_key_index(s, k), (k, v))
    } else {
        s.push((k, v))
    }
}

/// Keys are pairwise distinct.
pub open spec fn unique_keys<T>(s: Seq<(Seq<char>, T)>) -> bool {
    forall|i: int, j: int| 0 <= i < j < s.len() ==> s[i].0 != s[j].0
}

/// With distinct keys, the index of a present key is the only one
/// carrying it.
pub proof fn lemma_key_index_unique<T>(s: Seq<(Seq<char>, T)>, k: Seq<char>, i: int)
    requires
        unique_keys(s),
        0 <= i < s.len(),
        s[i].0 == k,
    ensures
        seq_has_key(s, k),
        seq_key_index(s, k) == i,
{
    assert(seq_has_key(s, k)) by {
        assert(0 <= i < s.len() && s[i].0 == k);
    }
    let j = seq_key_index(s, k);
    if j < i {
        assert(s[j].0 != s[i].0);
    } else if j > i {
        assert(s[i].0 != s[j].0);
    }
}

/// What insertion does to presence, lookup, length and key uniqueness.
pub proof fn lemma_upsert_props<T>(s: Seq<(Seq<char>, T)>, k: Seq<char>, v: T)
    requires
        unique_keys(s),
    ensures
        unique_keys(seq_upsert(s, k, v)),
        seq_has_key(seq_upsert(s, k, v), k),
        seq_lookup(seq_upsert(s, k, v), k) == v,
        forall|k2: Seq<char>|
            k2 != k ==> (seq_has_key(seq_upsert(s, k, v), k2) <==> seq_has_key(s, k2)),
        forall|k2: Seq<char>|
            k2 != k && seq_has_key(s, k2) ==> seq_lookup(seq_upsert(s, k, v), k2) == seq_lookup(
                s,
                k2,
            ),
        seq_upsert(s, k, v).len() == if seq_has_key(s, k) {
            s.len()
        } else {
            s.len() + 1
        },
{
    let u = seq_upsert(s, k, v);
    if seq_has_key(s, k) {
        let i = seq_key_index(s, k);
        assert(0 <= i < s.len() && s[i].0 == k);
        assert forall|j: int| 0 <= j < u.len() implies u[j].0 == s[j].0 by {}
        lemma_key_index_unique(u, k, i);
        assert forall|k2: Seq<char>| k2 != k && seq_has_key(s, k2) implies seq_has_key(u, k2)
            && seq_lookup(u, k2) == seq_lookup(s, k2) by {
            let j2 = seq_key_index(s, k2);
            assert(0 <= j2 < s.len() && s[j2].0 == k2);
            lemma_key_index_unique(u, k2, j2);
            lemma_key_index_unique(s, k2, j2);
            assert(j2 != i);
        }
        assert forall|k2: Seq<char>| k2 != k && seq_has_key(u, k2) implies seq_has_key(s, k2) by {
            let j2 = seq_key_index(u, k2);
            assert(0 <= j2 < u.len() && u[j2].0 == k2);
            assert(s[j2].0 == k2);
        }
    } else {
        assert forall|j: int| 0 <= j < s.len() implies u[j] == s[j] by {}
        assert(u[s.len() as int] == (k, v));
        assert(unique_keys(u)) by {
            assert forall|a: int, b: int| 0 <= a < b < u.len() implies u[a].0 != u[b].0 by {
                if b < s.len() {
                } else {
                    assert(u[b].0 == k);
                    if u[a].0 == k {
                        assert(seq_has_key(s, k)) by {
                            assert(0 <= a < s.len() && s[a].0 == k);
                        }
                    }
                }
            }
        }
        lemma_key_index_unique(u, k, s.len() as int);
        assert forall|k2: Seq<char>| k2 != k && seq_has_key(s, k2) implies seq_has_key(u, k2)
            && seq_lookup(u, k2) == seq_lookup(s, k2) by {
            let j2 = seq_key_index(s, k2);
            assert(0 <= j2 < s.len() && s[j2].0 == k2);
            lemma_key_index_unique(u, k2, j2);
            lemma_key_index_unique(s, k2, j2);
        }
        assert forall|k2: Seq<char>| k2 != k && seq_has_key(u, k2) implies seq_has_key(s, k2) by {
            let j2 = seq_key_index(u, k2);
            assert(0 <= j2 < u.len() && u[j2].0 == k2);
            assert(j2 < s.len());
            assert(s[j2].0 == k2);
        }
    }
}

/// Inserting the value already stored under a key changes nothing.
pub proof fn lemma_upsert_noop<T>(s: Seq<(Seq<char>, T)>, k: Seq<char>, v: T)
    requires
        unique_keys(s),
        seq_has_key(s, k),
        seq_lookup(s, k) == v,
    ensures
        seq_upsert(s, k, v) == s,
{
    let i = seq_key_index(s, k);
    assert(0 <= i < s.len() && s[i].0 == k);
    assert(s[i] == (k, v));
    assert(s.update(i, (k, v)) =~= s);
}

/// An insertion-ordered collection of entries under unique string keys.
///
/// Plays the role of a map keyed by the raw package-url (or external id)
/// string; a second insertion under a present key replaces that entry
/// in place rather than appending.
pub struct Registry<V> {
    entries: Vec<(String, V)>,
}

impl<V: View> View for Registry<V> {
    type V = Seq<(Seq<char>, V::V)>;

    closed spec fn view(&self) -> Seq<(Seq<char>, V::V)> {
        self.entries@.map_values(|p: (String, V)| (p.0@, p.1@))
    }
}

impl<V: View> Registry<V> {
    /// Key views are pairwise distinct.
    pub open spec fn wf(&self) -> bool {
        unique_keys(self@)
    }

    /// An empty collection.
    pub fn new() -> (r: Self)
        ensures
            r@ == Seq::<(Seq<char>, V::V)>::empty(),
            r.wf(),
    {
        let r = Registry { entries: Vec::new() };
        proof {
            assert(r@ =~= Seq::<(Seq<char>, V::V)>::empty());
        }
        r
    }

    /// The number of entries.
    pub fn len(&self) -> (n: usize)
        ensures
            n == self@.len(),
    {
        self.entries.len()
    }

    /// The position of the entry under `key`, if one is present.
    fn index_of(&self, key: &str) -> (r: Option<usize>)
        ensures
            match r {
                Some(i) => i < self@.len() && self@[i as int].0 == key@,
                None => !seq_has_key(self@, key@),
            },
    {
        let n = self.entries.len();
        let mut i: usize = 0;
        while i < n
            invariant
                i <= n,
                n == self.entries@.len(),
                forall|j: int| 0 <= j < i ==> self@[j].0 != key@,
            decreases n - i,
        {
            if str_eq(self.entries[i].0.as_str(), key) {
                return Some(i);
            }
            i += 1;
        }
        None
    }

    /// The value stored under `key`, or nothing.
    pub fn get<'a>(&'a self, key: &str) -> (r: Option<&'a V>)
        requires
            self.wf(),
        ensures
            match r {
                Some(v) => seq_has_key(self@, key@) && v@ == seq_lookup(self@, key@),
                None => !seq_has_key(self@, key@),
            },
    {
        match self.index_of(key) {
            Some(i) => {
                proof {
                    lemma_key_index_unique(self@, key@, i as int);
                }
                Some(&self.entries[i].1)
            },
            None => None,
        }
    }

    /// Stores `value` under `key`, replacing the entry already there if
    /// one is present.
    pub fn insert(&mut self, key: String, value: V)
        requires
            old(self).wf(),
        ensures
            final(self)@ == seq_upsert(old(self)@, key@, value@),
            final(self).wf(),
    {
        proof {
            lemma_upsert_props(self@, key@, value@);
        }
        match self.index_of(key.as_str()) {
            Some(i) => {
                proof {
                    lemma_key_index_unique(self@, key@, i as int);
                }
                self.entries[i] = (key, value);
                proof {
                    assert(self@ =~= seq_upsert(old(self)@, key@, value@));
                }
            },
            None => {
                self.entries.push((key, value));
                proof {
                    assert(self@ =~= seq_upsert(old(self)@, key@, value@));
                }
            },
        }
    }

    /// The key of the entry at position `i`.
    pub fn key_at<'a>(&'a self, i: usize) -> (r: &'a String)
        requires
            i < self@.len(),
        ensures
            r@ == self@[i as int].0,
    {
        &self.entries[i].0
    }

    /// The value of the entry at position `i`.
    pub fn value_at<'a>(&'a self, i: usize) -> (r: &'a V)
        requires
            i < self@.len(),
        ensures
            r@ == self@[i as int].1,
    {
        &self.entries[i].1
    }
}

} // verus!
