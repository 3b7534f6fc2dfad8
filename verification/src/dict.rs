//! A small map from names to values that remembers the order in which the
//! names were first inserted. Looking a name up finds the first entry that
//! carries it, so walking the entries is repeatable from run to run.

use vstd::prelude::*;
use crate::text::same_text;

verus! {

/// Entry `i` is the first one whose name reads `key`.
pub open spec fn is_first<V>(entries: Seq<(String, V)>, key: Seq<char>, i: int) -> bool {
    &&& 0 <= i < entries.len()
    &&& entries[i].0@ == key
    &&& forall|j: int| 0 <= j < i ==> entries[j].0@ != key
}

/// Some entry is named `key`.
pub open spec fn has_key<V>(entries: Seq<(String, V)>, key: Seq<char>) -> bool {
    exists|i: int| 0 <= i < entries.len() && entries[i].0@ == key
}

/// The index of the first entry named `key` (meaningful when there is one).
pub open spec fn first_index<V>(entries: Seq<(String, V)>, key: Seq<char>) -> int {
    choose|i: int| is_first(entries, key, i)
}

/// The value of the first entry named `key`.
pub open spec fn lookup<V>(entries: Seq<(String, V)>, key: Seq<char>) -> Option<V> {
    if has_key(entries, key) {
        Some(entries[first_index(entries, key)].1)
    } else {
        None
    }
}

/// No two entries share a name.
pub open spec fn distinct_keys<V>(entries: Seq<(String, V)>) -> bool {
    forall|i: int, j: int|
        0 <= i < j < entries.len() ==> entries[i].0@ != entries[j].0@
}

/// Where a name occurs it has a first occurrence, and only one index is first.
pub proof fn lemma_first_index<V>(entries: Seq<(String, V)>, key: Seq<char>)
    requires
        has_key(entries, key),
    ensures
        is_first(entries, key, first_index(entries, key)),
        forall|i: int| is_first(entries, key, i) ==> i == first_index(entries, key),
    decreases entries.len(),
{
    let w = choose|i: int| 0 <= i < entries.len() && entries[i].0@ == key;
    lemma_least(entries, key, w);
    let f = first_index(entries, key);
    assert forall|i: int| is_first(entries, key, i) implies i == f by {
        if i < f {
            assert(entries[i].0@ != key);
        } else if f < i {
            assert(entries[f].0@ != key);
        }
    }
}

/// Below any occurrence of a name there is a first one.
proof fn lemma_least<V>(entries: Seq<(String, V)>, key: Seq<char>, w: int)
    requires
        0 <= w < entries.len(),
        entries[w].0@ == key,
    ensures
        exists|i: int| is_first(entries, key, i),
    decreases w,
{
    if forall|j: int| 0 <= j < w ==> entries[j].0@ != key {
        assert(is_first(entries, key, w));
    } else {
        let j = choose|j: int| 0 <= j < w && entries[j].0@ == key;
        lemma_least(entries, key, j);
    }
}

/// Names and their values, in the order in which the names came.
#[derive(Debug)]
pub struct Dict<V> {
    pub entries: Vec<(String, V)>,
}

impl<V> View for Dict<V> {
    type V = Map<Seq<char>, V>;

    /// The map that sends each name to the value of its first entry.
    open spec fn view(&self) -> Map<Seq<char>, V> {
        Map::new(
            |k: Seq<char>| has_key(self.entries@, k),
            |k: Seq<char>| self.entries@[first_index(self.entries@, k)].1,
        )
    }
}

impl<V> Dict<V> {
    /// Every name occurs once.
    pub open spec fn wf(&self) -> bool {
        distinct_keys(self.entries@)
    }

    /// The value held under `key`.
    pub open spec fn value_of(&self, key: Seq<char>) -> Option<V> {
        lookup(self.entries@, key)
    }

    /// An empty map.
    pub fn new() -> (d: Self)
        ensures
            d.entries@.len() == 0,
            d.wf(),
            d@ == Map::<Seq<char>, V>::empty(),
    {
        let d = Dict { entries: Vec::new() };
        assert(d@ =~= Map::<Seq<char>, V>::empty());
        d
    }

    /// The number of entries.
    pub fn len(&self) -> (n: usize)
        ensures
            n == self.entries@.len(),
    {
        self.entries.len()
    }

    /// The index of the first entry named `key`.
    pub fn position(&self, key: &str) -> (r: Option<usize>)
        ensures
            match r {
                Some(i) => is_first(self.entries@, key@, i as int) && i as int == first_index(
                    self.entries@,
                    key@,
                ),
                None => !has_key(self.entries@, key@),
            },
    {
        let mut i: usize = 0;
        while i < self.entries.len()
            invariant
                i <= self.entries.len(),
                forall|j: int| 0 <= j < i ==> self.entries@[j].0@ != key@,
            decreases self.entries.len() - i,
        {
            if same_text(self.entries[i].0.as_str(), key) {
                proof {
                    assert(is_first(self.entries@, key@, i as int));
                    assert(has_key(self.entries@, key@));
                    lemma_first_index(self.entries@, key@);
                }
                return Some(i);
            }
            i += 1;
        }
        None
    }

    /// Is there an entry named `key`?
    pub fn contains_key(&self, key: &str) -> (r: bool)
        ensures
            r == has_key(self.entries@, key@),
            r == self@.dom().contains(key@),
    {
        self.position(key).is_some()
    }

    /// The value held under `key`.
    pub fn get(&self, key: &str) -> (r: Option<&V>)
        ensures
            match r {
                Some(v) => self.value_of(key@) == Some(*v),
                None => self.value_of(key@).is_none(),
            },
            r.is_some() == self@.dom().contains(key@),
            r matches Some(v) ==> self@[key@] == *v,
    {
        match self.position(key) {
            Some(i) => Some(&self.entries[i].1),
            None => None,
        }
    }

    /// The value held under `key`, to be changed in place.
    pub fn get_mut(&mut self, key: &str) -> (r: Option<&mut V>)
        ensures
            match r {
                Some(v) => {
                    let i = first_index(old(self).entries@, key@);
                    &&& is_first(old(self).entries@, key@, i)
                    &&& *v == old(self).entries@[i].1
                    &&& final(self).entries@ == old(self).entries@.update(
                        i,
                        (old(self).entries@[i].0, *final(v)),
                    )
                },
                None => !has_key(old(self).entries@, key@) && *final(self) == *old(self),
            },
    {
        match self.position(key) {
            Some(i) => {
                let entry = &mut self.entries[i];
                Some(&mut entry.1)
            },
            None => None,
        }
    }

    /// Puts `value` under `key`: in place of the value already there, or
    /// else as a new last entry.
    pub fn insert(&mut self, key: String, value: V)
        ensures
            final(self)@ == old(self)@.insert(key@, value),
            old(self).wf() ==> final(self).wf(),
            match lookup(old(self).entries@, key@) {
                Some(_) => {
                    let i = first_index(old(self).entries@, key@);
                    &&& final(self).entries@.len() == old(self).entries@.len()
                    &&& final(self).entries@[i].0@ == key@
                    &&& final(self).entries@[i].1 == value
                    &&& forall|j: int|
                        0 <= j < old(self).entries@.len() && j != i ==> final(self).entries@[j]
                            == old(self).entries@[j]
                },
                None => final(self).entries@ == old(self).entries@.push((key, value)),
            },
    {
        let ghost before = self.entries@;
        let ghost k = key@;
        match self.position(key.as_str()) {
            Some(i) => {
                self.entries.set(i, (key, value));
                proof {
                    let after = self.entries@;
                    assert forall|q: Seq<char>| has_key(after, q) == (has_key(before, q) || q
                        == k) by {
                        if has_key(after, q) {
                            let w = choose|w: int| 0 <= w < after.len() && after[w].0@ == q;
                            if w != i {
                                assert(before[w].0@ == q);
                            }
                        }
                        if has_key(before, q) {
                            let w = choose|w: int| 0 <= w < before.len() && before[w].0@ == q;
                            assert(after[w].0@ == q);
                        }
                        if q == k {
                            assert(after[i as int].0@ == q);
                        }
                    }
                    assert forall|q: Seq<char>| has_key(after, q) implies after[first_index(
                        after,
                        q,
                    )].1 == (if q == k {
                        value
                    } else {
                        before[first_index(before, q)].1
                    }) by {
                        lemma_first_index(after, q);
                        let f = first_index(after, q);
                        if q == k {
                            assert(is_first(after, q, i as int));
                        } else {
                            assert(before[f].0@ == q);
                            assert(has_key(before, q));
                            lemma_first_index(before, q);
                            assert forall|j: int| 0 <= j < f implies before[j].0@ != q by {
                                assert(after[j].0@ != q);
                            }
                            assert(is_first(before, q, f));
                        }
                    }
                    assert(self@ =~= old(self)@.insert(k, value));
                }
            },
            None => {
                self.entries.push((key, value));
                proof {
                    let after = self.entries@;
                    let last = before.len() as int;
                    assert forall|q: Seq<char>| has_key(after, q) == (has_key(before, q) || q
                        == k) by {
                        if has_key(after, q) {
                            let w = choose|w: int| 0 <= w < after.len() && after[w].0@ == q;
                            if w != last {
                                assert(before[w].0@ == q);
                            }
                        }
                        if has_key(before, q) {
                            let w = choose|w: int| 0 <= w < before.len() && before[w].0@ == q;
                            assert(after[w].0@ == q);
                        }
                        if q == k {
                            assert(after[last].0@ == q);
                        }
                    }
                    assert forall|q: Seq<char>| has_key(after, q) implies after[first_index(
                        after,
                        q,
                    )].1 == (if q == k {
                        value
                    } else {
                        before[first_index(before, q)].1
                    }) by {
                        lemma_first_index(after, q);
                        let f = first_index(after, q);
                        if q == k {
                            if f != last {
                                assert(before[f].0@ == q);
                            }
                        } else {
                            assert(before[f].0@ == q);
                            assert(has_key(before, q));
                            lemma_first_index(before, q);
                            assert forall|j: int| 0 <= j < f implies before[j].0@ != q by {
                                assert(after[j].0@ != q);
                            }
                            assert(is_first(before, q, f));
                        }
                    }
                    assert(self@ =~= old(self)@.insert(k, value));
                    assert forall|a: int, b: int|
                        0 <= a < b < after.len() && distinct_keys(before) implies after[a].0@
                        != after[b].0@ by {
                        if b == last {
                            assert(before[a].0@ != k);
                        }
                    }
                }
            },
        }
    }
}

} // verus!
