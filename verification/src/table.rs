//! A small map from keys to values, kept as a list without repeated keys.

use crate::identity::Identity;
use vstd::prelude::*;

verus! {

/// A key of a table: a value that can be told from any other.
pub trait Key: Copy {
    /// Whether `self` and `other` are the same key.
    fn same_key(&self, other: &Self) -> (res: bool)
        ensures
            res == (*self == *other),
    ;
}

impl Key for Identity {
    fn same_key(&self, other: &Identity) -> (res: bool) {
        self.same(other)
    }
}

/// The place of an asset with a holder: the holding account of an owner, or
/// the escrow of a marketplace.
#[derive(Clone, Copy, Debug)]
pub struct Slot {
    pub holder: Identity,
    pub asset: Identity,
}

impl Key for Slot {
    fn same_key(&self, other: &Slot) -> (res: bool) {
        self.holder.same(&other.holder) && self.asset.same(&other.asset)
    }
}

/// Whether no key occurs twice in `keys`.
pub open spec fn distinct<K>(keys: Seq<K>) -> bool {
    forall|i: int, j: int| 0 <= i < j < keys.len() ==> keys[i] != keys[j]
}

/// The map that sends each key to the value at its place.
pub open spec fn paired<K, V>(keys: Seq<K>, values: Seq<V>) -> Map<K, V> {
    Map::new(|k: K| keys.contains(k), |k: K| values[keys.index_of(k)])
}

/// Among distinct keys, the key at a place is found at that place.
proof fn lemma_paired_at<K, V>(keys: Seq<K>, values: Seq<V>, i: int)
    requires
        distinct(keys),
        0 <= i < keys.len(),
    ensures
        keys.contains(keys[i]),
        keys.index_of(keys[i]) == i,
        paired(keys, values).dom().contains(keys[i]),
        paired(keys, values)[keys[i]] == values[i],
{
    let j = keys.index_of(keys[i]);
    assert(0 <= j < keys.len() && keys[j] == keys[i]);
    if j < i {
        assert(keys[j] != keys[i]);
    } else if i < j {
        assert(keys[i] != keys[j]);
    }
}

/// A map from keys to values. It holds each key at most once.
pub struct Table<K, V> {
    keys: Vec<K>,
    values: Vec<V>,
}

impl<K, V> View for Table<K, V> {
    type V = Map<K, V>;

    closed spec fn view(&self) -> Map<K, V> {
        paired(self.keys@, self.values@)
    }
}

impl<K: Key, V: Copy> Table<K, V> {
    /// The invariant of the representation: a value for each key, and no key
    /// twice.
    pub closed spec fn wf(self) -> bool {
        &&& self.keys@.len() == self.values@.len()
        &&& distinct(self.keys@)
    }

    /// The empty table.
    pub fn new() -> (res: Self)
        ensures
            res.wf(),
            res@ == Map::<K, V>::empty(),
    {
        let res = Table { keys: Vec::new(), values: Vec::new() };
        proof {
            assert(res@ =~= Map::<K, V>::empty());
        }
        res
    }

    /// The place of `key`, if the table holds it.
    fn find(&self, key: &K) -> (res: Option<usize>)
        requires
            self.wf(),
        ensures
            match res {
                Some(i) => i < self.keys@.len() && self.keys@[i as int] == *key,
                None => !self.keys@.contains(*key),
            },
    {
        let mut i: usize = 0;
        while i < self.keys.len()
            invariant
                i <= self.keys@.len(),
                forall|j: int| 0 <= j < i ==> self.keys@[j] != *key,
            decreases self.keys@.len() - i,
        {
            if self.keys[i].same_key(key) {
                return Some(i);
            }
            i = i + 1;
        }
        None
    }

    /// The value recorded for `key`, if there is one.
    pub fn get(&self, key: &K) -> (res: Option<V>)
        requires
            self.wf(),
        ensures
            res == self@.get(*key),
    {
        match self.find(key) {
            Some(i) => {
                proof {
                    lemma_paired_at(self.keys@, self.values@, i as int);
                }
                Some(self.values[i])
            },
            None => None,
        }
    }

    /// Records `value` for `key`, in place of any value recorded before.
    pub fn put(&mut self, key: K, value: V)
        requires
            old(self).wf(),
        ensures
            final(self).wf(),
            final(self)@ == old(self)@.insert(key, value),
    {
        let ghost keys0 = self.keys@;
        let ghost values0 = self.values@;
        match self.find(&key) {
            Some(i) => {
                self.values.set(i, value);
                proof {
                    let values1 = self.values@;
                    assert forall|k: K| keys0.contains(k) implies #[trigger] paired(
                        keys0,
                        values1,
                    )[k] == paired(keys0, values0).insert(key, value)[k] by {
                        let p = keys0.index_of(k);
                        lemma_paired_at(keys0, values0, p);
                        lemma_paired_at(keys0, values0, i as int);
                    }
                    assert(paired(keys0, values1) =~= paired(keys0, values0).insert(key, value));
                }
            },
            None => {
                self.keys.push(key);
                self.values.push(value);
                proof {
                    let keys1 = self.keys@;
                    let values1 = self.values@;
                    let n = keys0.len() as int;
                    assert(distinct(keys1)) by {
                        assert forall|i: int, j: int| 0 <= i < j < keys1.len() implies keys1[i]
                            != keys1[j] by {
                            if j == n {
                                assert(keys0[i] == keys1[i]);
                            } else {
                                assert(keys0[i] == keys1[i] && keys0[j] == keys1[j]);
                            }
                        }
                    }
                    assert forall|k: K| keys1.contains(k) <==> (keys0.contains(k) || k == key) by {
                        if keys0.contains(k) {
                            let p = keys0.index_of(k);
                            assert(keys1[p] == k);
                        }
                        if k == key {
                            assert(keys1[n] == k);
                        }
                        if keys1.contains(k) {
                            let p = keys1.index_of(k);
                            if p < n {
                                assert(keys0[p] == k);
                            }
                        }
                    }
                    assert forall|k: K| keys1.contains(k) implies #[trigger] paired(
                        keys1,
                        values1,
                    )[k] == paired(keys0, values0).insert(key, value)[k] by {
                        let p = keys1.index_of(k);
                        lemma_paired_at(keys1, values1, p);
                        if p < n {
                            assert(keys0[p] == k);
                            lemma_paired_at(keys0, values0, p);
                        }
                    }
                    assert(paired(keys1, values1) =~= paired(keys0, values0).insert(key, value));
                }
            },
        }
    }

    /// Removes `key` and hands back the value that was recorded for it.
    pub fn take(&mut self, key: &K) -> (res: Option<V>)
        requires
            old(self).wf(),
        ensures
            final(self).wf(),
            res == old(self)@.get(*key),
            final(self)@ == old(self)@.remove(*key),
    {
        let ghost keys0 = self.keys@;
        let ghost values0 = self.values@;
        match self.find(key) {
            Some(i) => {
                let _ = self.keys.remove(i);
                let value = self.values.remove(i);
                proof {
                    let keys1 = self.keys@;
                    let values1 = self.values@;
                    let at = i as int;
                    keys0.remove_ensures(at);
                    values0.remove_ensures(at);
                    lemma_paired_at(keys0, values0, at);
                    assert(distinct(keys1)) by {
                        assert forall|a: int, b: int| 0 <= a < b < keys1.len() implies keys1[a]
                            != keys1[b] by {
                            let from_a = if a < at { a } else { a + 1 };
                            let from_b = if b < at { b } else { b + 1 };
                            assert(keys1[a] == keys0[from_a] && keys1[b] == keys0[from_b]);
                        }
                    }
                    assert forall|k: K| keys1.contains(k) <==> (keys0.contains(k) && k != *key) by {
                        if keys1.contains(k) {
                            let p = keys1.index_of(k);
                            let q = if p < at { p } else { p + 1 };
                            assert(keys0[q] == k);
                            lemma_paired_at(keys0, values0, q);
                        }
                        if keys0.contains(k) && k != *key {
                            let q = keys0.index_of(k);
                            let p = if q < at { q } else { q - 1 };
                            assert(keys1[p] == k);
                        }
                    }
                    assert forall|k: K| keys1.contains(k) implies #[trigger] paired(
                        keys1,
                        values1,
                    )[k] == paired(keys0, values0).remove(*key)[k] by {
                        let p = keys1.index_of(k);
                        lemma_paired_at(keys1, values1, p);
                        let q = if p < at { p } else { p + 1 };
                        assert(keys0[q] == k);
                        lemma_paired_at(keys0, values0, q);
                    }
                    assert(paired(keys1, values1) =~= paired(keys0, values0).remove(*key));
                }
                Some(value)
            },
            None => {
                proof {
                    assert(paired(keys0, values0) =~= paired(keys0, values0).remove(*key));
                }
                None
            },
        }
    }

    /// A copy of the table, to work on while this one stays as it is.
    pub fn snapshot(&self) -> (res: Self)
        requires
            self.wf(),
        ensures
            res.wf(),
            res@ == self@,
    {
        let mut keys: Vec<K> = Vec::new();
        let mut values: Vec<V> = Vec::new();
        let mut i: usize = 0;
        while i < self.keys.len()
            invariant
                self.keys@.len() == self.values@.len(),
                i <= self.keys@.len(),
                keys@ == self.keys@.subrange(0, i as int),
                values@ == self.values@.subrange(0, i as int),
            decreases self.keys@.len() - i,
        {
            keys.push(self.keys[i]);
            values.push(self.values[i]);
            proof {
                assert(keys@ =~= self.keys@.subrange(0, i + 1));
                assert(values@ =~= self.values@.subrange(0, i + 1));
            }
            i = i + 1;
        }
        proof {
            assert(keys@ =~= self.keys@);
            assert(values@ =~= self.values@);
        }
        Table { keys, values }
    }
}

} // verus!
