//! A table of values under unique text keys, kept in insertion order.

use crate::consensus::texts;
use vstd::prelude::*;

verus! {

/// The first index from `from` on that holds `key`, or -1 when none does.
pub open spec fn key_index_from(keys: Seq<Seq<char>>, key: Seq<char>, from: int) -> int
    decreases keys.len() - from,
{
    if from < 0 || from >= keys.len() {
        -1
    } else if keys[from] == key {
        from
    } else {
        key_index_from(keys, key, from + 1)
    }
}

/// The index that holds `key`, or -1 when none does.
pub open spec fn key_index(keys: Seq<Seq<char>>, key: Seq<char>) -> int {
    key_index_from(keys, key, 0)
}

proof fn lemma_key_index_from(keys: Seq<Seq<char>>, key: Seq<char>, from: int)
    requires
        0 <= from,
    ensures
        key_index_from(keys, key, from) == -1 ==> forall|j: int|
            from <= j < keys.len() ==> keys[j] != key,
        key_index_from(keys, key, from) != -1 ==> from <= key_index_from(keys, key, from)
            < keys.len() && keys[key_index_from(keys, key, from)] == key,
    decreases keys.len() - from,
{
    if from < keys.len() && keys[from] != key {
        lemma_key_index_from(keys, key, from + 1);
    }
}

/// Where `key` stands in `keys`: its index, or -1 when it is absent.
pub proof fn lemma_key_index(keys: Seq<Seq<char>>, key: Seq<char>)
    ensures
        key_index(keys, key) == -1 <==> forall|j: int| 0 <= j < keys.len() ==> keys[j] != key,
        key_index(keys, key) != -1 ==> 0 <= key_index(keys, key) < keys.len() && keys[key_index(
            keys,
            key,
        )] == key,
{
    lemma_key_index_from(keys, key, 0);
}

/// Values under unique keys.
pub struct KeyedTable<V> {
    pub keys: Vec<String>,
    pub values: Vec<V>,
}

impl<V> KeyedTable<V> {
    /// One value per key, and no key twice.
    pub open spec fn wf(&self) -> bool {
        &&& self.keys@.len() == self.values@.len()
        &&& forall|i: int, j: int|
            0 <= i < self.keys@.len() && 0 <= j < self.keys@.len() && #[trigger] self.keys@[i]@
                == #[trigger] self.keys@[j]@ ==> i == j
    }

    /// The keys, as texts.
    pub open spec fn key_seq(&self) -> Seq<Seq<char>> {
        texts(self.keys@)
    }

    /// Whether `key` is present.
    pub open spec fn has(&self, key: Seq<char>) -> bool {
        key_index(self.key_seq(), key) != -1
    }

    /// The value under a present key.
    pub open spec fn at(&self, key: Seq<char>) -> V {
        self.values@[key_index(self.key_seq(), key)]
    }

    /// Every key but `key` is present here as in `o`, under the same value.
    pub open spec fn same_except(&self, o: &Self, key: Seq<char>) -> bool {
        &&& forall|k: Seq<char>| k != key ==> (#[trigger] self.has(k) == o.has(k))
        &&& forall|k: Seq<char>| k != key && o.has(k) ==> #[trigger] self.at(k) == o.at(k)
    }

    /// An empty table.
    pub fn new() -> (r: Self)
        ensures
            r.wf(),
            r.keys@.len() == 0,
    {
        KeyedTable { keys: Vec::new(), values: Vec::new() }
    }

    /// The index of `key`, or `None` when it is absent.
    pub fn find(&self, key: &String) -> (r: Option<usize>)
        requires
            self.wf(),
        ensures
            r matches Some(i) ==> i == key_index(self.key_seq(), key@) && i < self.keys@.len(),
            r is None <==> !self.has(key@),
    {
        let ghost ks = self.key_seq();
        let mut i: usize = 0;
        while i < self.keys.len()
            invariant
                ks == self.key_seq(),
                i <= self.keys@.len(),
                key_index(ks, key@) == key_index_from(ks, key@, i as int),
            decreases self.keys.len() - i,
        {
            if self.keys[i] == *key {
                return Some(i);
            }
            i = i + 1;
        }
        None
    }

    /// The value under `key`, if any.
    pub fn get(&self, key: &String) -> (r: Option<&V>)
        requires
            self.wf(),
        ensures
            r is None <==> !self.has(key@),
            r matches Some(v) ==> *v == self.at(key@),
    {
        match self.find(key) {
            Some(i) => Some(&self.values[i]),
            None => None,
        }
    }

    /// Puts `value` under `key`, replacing what was there.
    pub fn insert(&mut self, key: String, value: V)
        requires
            old(self).wf(),
        ensures
            final(self).wf(),
            final(self).has(key@),
            final(self).at(key@) == value,
            final(self).same_except(old(self), key@),
    {
        proof {
            lemma_key_index(self.key_seq(), key@);
        }
        match self.find(&key) {
            Some(i) => {
                self.values.set(i, value);
                assert(self.key_seq() == old(self).key_seq());
                assert forall|k: Seq<char>| k != key@ && old(self).has(k) implies #[trigger] self.at(k) == old(self).at(k) by {
                    lemma_key_index(self.key_seq(), k);
                }
            },
            None => {
                let ghost ks = self.key_seq();
                self.keys.push(key);
                self.values.push(value);
                assert(self.key_seq() =~= ks.push(key@));
                assert forall|k: Seq<char>| k != key@ implies #[trigger] self.has(k) == old(self).has(k) by {
                    lemma_key_index(self.key_seq(), k);
                    lemma_key_index(ks, k);
                    if old(self).has(k) {
                        assert(self.key_seq()[key_index(ks, k)] == k);
                    }
                }
                assert forall|k: Seq<char>| k != key@ && old(self).has(k) implies #[trigger] self.at(k) == old(self).at(k) by {
                    lemma_key_index(self.key_seq(), k);
                    lemma_key_index(ks, k);
                    assert(self.key_seq()[key_index(ks, k)] == k);
                }
                let ghost n = ks.len() as int;
                assert(self.key_seq()[n] == key@);
                assert forall|a: int, b: int|
                    0 <= a < self.keys@.len() && 0 <= b < self.keys@.len() && #[trigger] self.keys@[a]@
                        == #[trigger] self.keys@[b]@ implies a == b by {
                    assert(self.keys@[a]@ == self.key_seq()[a]);
                    assert(self.keys@[b]@ == self.key_seq()[b]);
                    if a < n && b < n {
                        assert(old(self).keys@[a]@ == old(self).keys@[b]@);
                    } else if a < n {
                        assert(ks[a] != key@);
                    } else if b < n {
                        assert(ks[b] != key@);
                    }
                }
                proof {
                    lemma_key_index(self.key_seq(), key@);
                    let idx = key_index(self.key_seq(), key@);
                    assert(self.keys@[idx]@ == self.keys@[n]@);
                }
            },
        }
    }
}

} // verus!
