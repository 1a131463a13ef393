//! A keyed store of classified values.
//!
//! `ClassifiedMap` maps string keys to [`ClassifiedData`] entries. All
//! inserted values are classified on the way in, so replacing or
//! removing an entry scrubs the old material when it is dropped. The
//! store behaves exactly like a mathematical map from key characters to
//! payload bytes, and every operation is specified against that map.

use vstd::prelude::*;
use crate::classified_data::ClassifiedData;

verus! {

/// No two entries share a key.
pub(crate) open spec fn unique_keys(s: Seq<(String, ClassifiedData)>) -> bool {
    forall|i: int, j: int| 0 <= i < j < s.len() ==> s[i].0@ != s[j].0@
}

/// Whether some entry of `s` has key `k`.
pub(crate) open spec fn has_key(s: Seq<(String, ClassifiedData)>, k: Seq<char>) -> bool {
    exists|i: int| 0 <= i < s.len() && #[trigger] s[i].0@ == k
}

/// An index of an entry of `s` with key `k`.
pub(crate) open spec fn key_index(s: Seq<(String, ClassifiedData)>, k: Seq<char>) -> int {
    choose|i: int| 0 <= i < s.len() && #[trigger] s[i].0@ == k
}

/// The payload stored under key `k`.
pub(crate) open spec fn value_of(s: Seq<(String, ClassifiedData)>, k: Seq<char>) -> Seq<u8> {
    s[key_index(s, k)].1@
}

/// The mathematical map an entry sequence stands for.
pub(crate) open spec fn map_of(s: Seq<(String, ClassifiedData)>) -> Map<Seq<char>, Seq<u8>> {
    Map::new(|k: Seq<char>| has_key(s, k), |k: Seq<char>| value_of(s, k))
}

/// With unique keys, any entry with key `k` determines the stored value.
pub(crate) proof fn lemma_value_at(s: Seq<(String, ClassifiedData)>, k: Seq<char>, i: int)
    requires
        unique_keys(s),
        0 <= i < s.len(),
        s[i].0@ == k,
    ensures
        has_key(s, k),
        value_of(s, k) == s[i].1@,
        key_index(s, k) == i,
{
    assert(has_key(s, k));
    let j = key_index(s, k);
    assert(0 <= j < s.len() && s[j].0@ == k);
}

/// A map from string keys to classified byte strings.
pub struct ClassifiedMap {
    inner: Vec<(String, ClassifiedData)>,
}

impl View for ClassifiedMap {
    type V = Map<Seq<char>, Seq<u8>>;

    closed spec fn view(&self) -> Map<Seq<char>, Seq<u8>> {
        map_of(self.inner@)
    }
}

impl ClassifiedMap {
    #[verifier::type_invariant]
    closed spec fn wf(self) -> bool {
        unique_keys(self.inner@)
    }

    /// Create an empty map.
    pub fn new() -> (r: Self)
        ensures
            r@ == Map::<Seq<char>, Seq<u8>>::empty(),
    {
        let r = ClassifiedMap { inner: Vec::new() };
        proof {
            assert(r@ =~= Map::<Seq<char>, Seq<u8>>::empty());
        }
        r
    }

    /// The index of the entry with the given key, if there is one.
    fn find_index(&self, key: &String) -> (r: Option<usize>)
        ensures
            (match r {
                Some(i) => i < self.inner@.len() && self.inner@[i as int].0@ == key@,
                None => forall|i: int|
                    0 <= i < self.inner@.len() ==> #[trigger] self.inner@[i].0@ != key@,
            }),
    {
        let mut i: usize = 0;
        while i < self.inner.len()
            invariant
                i <= self.inner@.len(),
                forall|j: int| 0 <= j < i ==> #[trigger] self.inner@[j].0@ != key@,
            decreases self.inner@.len() - i,
        {
            if self.inner[i].0.eq(key) {
                return Some(i);
            }
            i = i + 1;
        }
        None
    }

    /// Insert a value under a key, classifying it on the way in.
    ///
    /// If the key already exists, the new value replaces the old one,
    /// and the old classified value is dropped (and so zeroized).
    pub fn insert(&mut self, key: String, value: Vec<u8>)
        ensures
            final(self)@ == old(self)@.insert(key@, value@),
    {
        proof {
            use_type_invariant(&*self);
        }
        let idx = self.find_index(&key);
        let ghost s0 = self.inner@;
        let mut inner: Vec<(String, ClassifiedData)> = Vec::new();
        core::mem::swap(&mut inner, &mut self.inner);
        let entry = (key, ClassifiedData::new(value));
        match idx {
            Some(i) => {
                inner.set(i, entry);
            },
            None => {
                inner.push(entry);
            },
        }
        proof {
            let s1 = inner@;
            assert forall|a: int, b: int| 0 <= a < b < s1.len() implies s1[a].0@ != s1[b].0@ by {
                if idx matches Some(i) {
                    assert(s0[a].0@ != s0[b].0@);
                } else {
                    if b < s1.len() - 1 {
                        assert(s0[a].0@ != s0[b].0@);
                    } else {
                        assert(s1[a] == s0[a]);
                    }
                }
            }
            assert forall|k: Seq<char>| true implies #[trigger] map_of(s1).contains_key(k)
                == old(self)@.insert(key@, value@).contains_key(k) && (map_of(
                s1,
            ).contains_key(k) ==> map_of(s1)[k] == old(self)@.insert(key@, value@)[k]) by {
                match idx {
                    Some(i) => {
                        if k == key@ {
                            lemma_value_at(s1, k, i as int);
                        } else {
                            if has_key(s1, k) {
                                let w = key_index(s1, k);
                                assert(s0[w].0@ == k);
                                lemma_value_at(s0, k, w);
                                lemma_value_at(s1, k, w);
                            }
                            if has_key(s0, k) {
                                let w = key_index(s0, k);
                                assert(w != i);
                                assert(s1[w].0@ == k);
                            }
                        }
                    },
                    None => {
                    let n = s0.len() as int;
                    if k == key@ {
                        lemma_value_at(s1, k, n);
                    } else {
                        if has_key(s1, k) {
                            let w = key_index(s1, k);
                            assert(w != n);
                            assert(s0[w].0@ == k);
                            lemma_value_at(s0, k, w);
                            lemma_value_at(s1, k, w);
                        }
                        if has_key(s0, k) {
                            let w = key_index(s0, k);
                            assert(s1[w].0@ == k);
                        }
                    }
                    },
                }
            }
            assert(map_of(s1) =~= old(self)@.insert(key@, value@));
        }
        self.inner = inner;
    }

    /// Look up the classified value stored under a key.
    pub fn get(&self, key: &String) -> (r: Option<&ClassifiedData>)
        ensures
            (match r {
                Some(d) => self@.contains_key(key@) && d@ == self@[key@],
                None => !self@.contains_key(key@),
            }),
    {
        proof {
            use_type_invariant(&*self);
        }
        match self.find_index(key) {
            Some(i) => {
                proof {
                    lemma_value_at(self.inner@, key@, i as int);
                }
                Some(&self.inner[i].1)
            },
            None => None,
        }
    }

    /// Remove the entry stored under a key, if any; the removed
    /// classified value is dropped (and so zeroized).
    pub fn remove(&mut self, key: &String)
        ensures
            final(self)@ == old(self)@.remove(key@),
    {
        proof {
            use_type_invariant(&*self);
        }
        let idx = self.find_index(key);
        let ghost s0 = self.inner@;
        let mut inner: Vec<(String, ClassifiedData)> = Vec::new();
        core::mem::swap(&mut inner, &mut self.inner);
        match idx {
            Some(i) => {
                let _ = inner.remove(i);
                proof {
                    let s1 = inner@;
                    let n = i as int;
                    assert forall|a: int, b: int| 0 <= a < b < s1.len() implies s1[a].0@
                        != s1[b].0@ by {
                        let a0 = if a < n { a } else { a + 1 };
                        let b0 = if b < n { b } else { b + 1 };
                        assert(s1[a] == s0[a0]);
                        assert(s1[b] == s0[b0]);
                        assert(s0[a0].0@ != s0[b0].0@);
                    }
                    assert forall|k: Seq<char>| true implies #[trigger] map_of(s1).contains_key(k)
                        == old(self)@.remove(key@).contains_key(k) && (map_of(s1).contains_key(k)
                        ==> map_of(s1)[k] == old(self)@.remove(key@)[k]) by {
                        if k != key@ {
                            if has_key(s1, k) {
                                let w = key_index(s1, k);
                                let w0 = if w < n { w } else { w + 1 };
                                assert(s1[w] == s0[w0]);
                                lemma_value_at(s0, k, w0);
                                lemma_value_at(s1, k, w);
                            }
                            if has_key(s0, k) {
                                let w0 = key_index(s0, k);
                                assert(w0 != n);
                                let w = if w0 < n { w0 } else { w0 - 1 };
                                assert(s1[w] == s0[w0]);
                                assert(s1[w].0@ == k);
                            }
                        } else {
                            if has_key(s1, k) {
                                let w = key_index(s1, k);
                                let w0 = if w < n { w } else { w + 1 };
                                assert(s1[w] == s0[w0]);
                                assert(s0[w0].0@ == k);
                                lemma_value_at(s0, k, n);
                            }
                        }
                    }
                    assert(map_of(s1) =~= old(self)@.remove(key@));
                }
            },
            None => {
                proof {
                    assert(map_of(inner@) =~= old(self)@.remove(key@));
                }
            },
        }
        self.inner = inner;
    }

    /// All keys, in insertion order, without duplicates; together they
    /// are exactly the domain of the map.
    pub fn keys(&self) -> (r: Vec<String>)
        ensures
            r@.len() == self@.dom().len(),
            forall|i: int, j: int| 0 <= i < j < r@.len() ==> r@[i]@ != r@[j]@,
            forall|i: int| 0 <= i < r@.len() ==> self@.contains_key(#[trigger] r@[i]@),
            forall|k: Seq<char>|
                #[trigger] self@.contains_key(k) ==> exists|i: int|
                    0 <= i < r@.len() && #[trigger] r@[i]@ == k,
    {
        proof {
            use_type_invariant(&*self);
            lemma_dom_len(self.inner@);
        }
        let mut out: Vec<String> = Vec::new();
        let mut i: usize = 0;
        while i < self.inner.len()
            invariant
                i <= self.inner@.len(),
                unique_keys(self.inner@),
                out@.len() == i,
                forall|j: int| 0 <= j < i ==> #[trigger] out@[j]@ == self.inner@[j].0@,
            decreases self.inner@.len() - i,
        {
            out.push(self.inner[i].0.clone());
            i = i + 1;
        }
        proof {
            assert forall|a: int, b: int| 0 <= a < b < out@.len() implies out@[a]@ != out@[b]@ by {
                assert(self.inner@[a].0@ != self.inner@[b].0@);
            }
            assert forall|j: int| 0 <= j < out@.len() implies self@.contains_key(
                #[trigger] out@[j]@,
            ) by {
                assert(self.inner@[j].0@ == out@[j]@);
            }
            assert forall|k: Seq<char>| #[trigger] self@.contains_key(k) implies exists|i: int|
                0 <= i < out@.len() && #[trigger] out@[i]@ == k by {
                let w = key_index(self.inner@, k);
                assert(out@[w]@ == k);
            }
        }
        out
    }

    /// Explicit, auditable copies of all stored values, in insertion
    /// order; each is a value of the map.
    pub fn values(&self) -> (r: Vec<ClassifiedData>)
        ensures
            r@.len() == self@.dom().len(),
            forall|i: int| 0 <= i < r@.len() ==> self@.contains_value((#[trigger] r@[i])@),
    {
        proof {
            use_type_invariant(&*self);
            lemma_dom_len(self.inner@);
        }
        let mut out: Vec<ClassifiedData> = Vec::new();
        let mut i: usize = 0;
        while i < self.inner.len()
            invariant
                i <= self.inner@.len(),
                unique_keys(self.inner@),
                out@.len() == i,
                forall|j: int| 0 <= j < i ==> #[trigger] out@[j]@ == self.inner@[j].1@,
            decreases self.inner@.len() - i,
        {
            out.push(self.inner[i].1.duplicate());
            i = i + 1;
        }
        proof {
            assert forall|i: int| 0 <= i < out@.len() implies self@.contains_value(
                (#[trigger] out@[i])@,
            ) by {
                let k = self.inner@[i].0@;
                lemma_value_at(self.inner@, k, i);
                assert(self@.dom().contains(k) && self@[k] == out@[i]@);
            }
        }
        out
    }

    /// The number of entries.
    pub fn len(&self) -> (r: usize)
        ensures
            r == self@.dom().len(),
    {
        proof {
            use_type_invariant(&*self);
            lemma_dom_len(self.inner@);
        }
        self.inner.len()
    }

    /// Replace every stored value with a classified copy of `value`,
    /// keeping the key set as it is. Replaced values are dropped (and so
    /// zeroized).
    pub fn set_all_values(&mut self, value: &Vec<u8>)
        ensures
            final(self)@.dom() == old(self)@.dom(),
            forall|k: Seq<char>|
                old(self)@.contains_key(k) ==> #[trigger] final(self)@[k] == value@,
    {
        proof {
            use_type_invariant(&*self);
        }
        let ghost s0 = self.inner@;
        let mut inner: Vec<(String, ClassifiedData)> = Vec::new();
        core::mem::swap(&mut inner, &mut self.inner);
        let mut i: usize = 0;
        while i < inner.len()
            invariant
                i <= inner@.len(),
                inner@.len() == s0.len(),
                forall|j: int| 0 <= j < inner@.len() ==> #[trigger] inner@[j].0@ == s0[j].0@,
                forall|j: int| 0 <= j < i ==> #[trigger] inner@[j].1@ == value@,
            decreases inner@.len() - i,
        {
            let k = inner[i].0.clone();
            inner.set(i, (k, ClassifiedData::new(value.clone())));
            i = i + 1;
        }
        proof {
            let s1 = inner@;
            assert forall|a: int, b: int| 0 <= a < b < s1.len() implies s1[a].0@ != s1[b].0@ by {
                assert(s0[a].0@ != s0[b].0@);
            }
            assert(map_of(s1).dom() =~= map_of(s0).dom()) by {
                assert forall|k: Seq<char>| true implies has_key(s1, k) == has_key(s0, k) by {
                    if has_key(s1, k) {
                        let w = key_index(s1, k);
                        assert(s0[w].0@ == k);
                    }
                    if has_key(s0, k) {
                        let w = key_index(s0, k);
                        assert(s1[w].0@ == k);
                    }
                }
            }
            assert forall|k: Seq<char>| map_of(s0).contains_key(k) implies #[trigger] map_of(s1)[k]
                == value@ by {
                let w = key_index(s0, k);
                assert(s1[w].0@ == k);
                lemma_value_at(s1, k, w);
            }
        }
        self.inner = inner;
    }
}

/// With unique keys, the entry count is the size of the map's domain.
pub(crate) proof fn lemma_dom_len(s: Seq<(String, ClassifiedData)>)
    requires
        unique_keys(s),
    ensures
        map_of(s).dom().len() == s.len(),
        map_of(s).dom().finite(),
    decreases s.len(),
{
    if s.len() == 0 {
        assert(map_of(s).dom() =~= Set::<Seq<char>>::empty());
    } else {
        let butlast = s.drop_last();
        lemma_dom_len(butlast);
        let lastk = s.last().0@;
        assert(!has_key(butlast, lastk)) by {
            if has_key(butlast, lastk) {
                let w = key_index(butlast, lastk);
                assert(s[w].0@ == s[s.len() - 1].0@);
            }
        }
        assert(map_of(s).dom() =~= map_of(butlast).dom().insert(lastk)) by {
            assert forall|k: Seq<char>| true implies has_key(s, k) == (has_key(butlast, k) || k
                == lastk) by {
                if has_key(s, k) {
                    let w = key_index(s, k);
                    if w < s.len() - 1 {
                        assert(butlast[w].0@ == k);
                    }
                }
                if has_key(butlast, k) {
                    let w = key_index(butlast, k);
                    assert(s[w].0@ == k);
                }
                if k == lastk {
                    assert(s[s.len() - 1].0@ == k);
                }
            }
        }
        vstd::set::axiom_set_insert_finite(map_of(butlast).dom(), lastk);
        vstd::set::axiom_set_insert_len(map_of(butlast).dom(), lastk);
    }
}

} // verus!
