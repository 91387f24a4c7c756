//! A keyed store: the mathematical model is a finite `Map` from key views to
//! value views; the representation is a list of entries with distinct keys.

use vstd::prelude::*;
use crate::bytes::{bytes_clone, bytes_eq};

verus! {

/// What a type needs to serve as a key: a view by which entries are told
/// apart, a test of that view, and a copy that keeps it.
pub trait Key: View + Sized {
    /// Whether the two keys have the same view.
    fn same(&self, other: &Self) -> (same: bool)
        ensures
            same == (self@ == other@),
    ;

    /// A key with the same view.
    fn duplicate(&self) -> (copy: Self)
        ensures
            copy@ == self@,
    ;
}

impl Key for u32 {
    fn same(&self, other: &Self) -> (same: bool) {
        *self == *other
    }

    fn duplicate(&self) -> (copy: Self) {
        *self
    }
}

impl Key for (u32, u32) {
    fn same(&self, other: &Self) -> (same: bool) {
        self.0 == other.0 && self.1 == other.1
    }

    fn duplicate(&self) -> (copy: Self) {
        (self.0, self.1)
    }
}

impl Key for Vec<u8> {
    fn same(&self, other: &Self) -> (same: bool) {
        bytes_eq(self, other)
    }

    fn duplicate(&self) -> (copy: Self) {
        bytes_clone(self)
    }
}

/// An identifier within one application: `(app_id, id)`.
pub struct ScopedId {
    pub app_id: u32,
    pub id: Vec<u8>,
}

impl View for ScopedId {
    type V = (u32, Seq<u8>);

    open spec fn view(&self) -> (u32, Seq<u8>) {
        (self.app_id, self.id@)
    }
}

impl Key for ScopedId {
    fn same(&self, other: &Self) -> (same: bool) {
        self.app_id == other.app_id && bytes_eq(&self.id, &other.id)
    }

    fn duplicate(&self) -> (copy: Self) {
        ScopedId { app_id: self.app_id, id: bytes_clone(&self.id) }
    }
}

impl ScopedId {
    /// The key `(app_id, id)`, with a copy of `id`.
    pub fn new(app_id: u32, id: &Vec<u8>) -> (key: Self)
        ensures
            key@ == (app_id, id@),
    {
        ScopedId { app_id, id: bytes_clone(id) }
    }
}

/// One entry of a table.
pub struct Entry<K, V> {
    pub key: K,
    pub value: V,
}

/// A table: at most one value for each key.
pub struct Table<K: Key, V: View> {
    entries: Vec<Entry<K, V>>,
}

impl<K: Key, V: View> Table<K, V> {
    /// Whether some entry's key has view `k`.
    pub closed spec fn has(&self, k: K::V) -> bool {
        exists|i: int| 0 <= i < self.entries@.len() && #[trigger] self.entries@[i].key@ == k
    }

    /// The position of an entry whose key has view `k`.
    pub closed spec fn slot(&self, k: K::V) -> int {
        choose|i: int| 0 <= i < self.entries@.len() && #[trigger] self.entries@[i].key@ == k
    }

    /// No two entries share a key.
    pub closed spec fn wf(&self) -> bool {
        forall|i: int, j: int|
            0 <= i < j < self.entries@.len() ==> #[trigger] self.entries@[i].key@
                != #[trigger] self.entries@[j].key@
    }

    /// The keys of the entries, in storage order.
    pub closed spec fn keys(&self) -> Seq<K::V> {
        Seq::new(self.entries@.len(), |i: int| self.entries@[i].key@)
    }

    proof fn lemma_slot(&self, i: int)
        requires
            self.wf(),
            0 <= i < self.entries@.len(),
        ensures
            self.has(self.entries@[i].key@),
            self.slot(self.entries@[i].key@) == i,
    {
        let k = self.entries@[i].key@;
        let j = self.slot(k);
        assert(0 <= j < self.entries@.len() && self.entries@[j].key@ == k);
        if j < i {
            assert(self.entries@[j].key@ != self.entries@[i].key@);
        } else if i < j {
            assert(self.entries@[i].key@ != self.entries@[j].key@);
        }
    }

    /// An empty table.
    pub fn new() -> (table: Self)
        ensures
            table.wf(),
            table@ == Map::<K::V, V::V>::empty(),
            table.len() == 0,
    {
        let table = Table { entries: Vec::new() };
        assert(table@ =~= Map::<K::V, V::V>::empty());
        table
    }

    /// The number of entries.
    pub closed spec fn len(&self) -> nat {
        self.entries@.len()
    }

    fn find(&self, key: &K) -> (found: Option<usize>)
        requires
            self.wf(),
        ensures
            found is Some <==> self.has(key@),
            found is Some ==> found.unwrap() < self.entries@.len() && found.unwrap() == self.slot(
                key@,
            ) && self.entries@[found.unwrap() as int].key@ == key@,
    {
        let mut i: usize = 0;
        while i < self.entries.len()
            invariant
                self.wf(),
                i <= self.entries@.len(),
                forall|j: int| 0 <= j < i ==> self.entries@[j].key@ != key@,
            decreases self.entries@.len() - i,
        {
            if self.entries[i].key.same(key) {
                proof {
                    self.lemma_slot(i as int);
                }
                return Some(i);
            }
            i += 1;
        }
        None
    }

    /// Whether the table holds `key`.
    pub fn contains_key(&self, key: &K) -> (present: bool)
        requires
            self.wf(),
        ensures
            present == self@.dom().contains(key@),
    {
        self.find(key).is_some()
    }

    /// The value stored under `key`, if any.
    pub fn get(&self, key: &K) -> (value: Option<&V>)
        requires
            self.wf(),
        ensures
            value is Some <==> self@.dom().contains(key@),
            value is Some ==> value.unwrap()@ == self@[key@],
    {
        match self.find(key) {
            Some(i) => Some(&self.entries[i].value),
            None => None,
        }
    }

    /// Stores `value` under `key`, replacing what was there.
    pub fn insert(&mut self, key: K, value: V)
        requires
            old(self).wf(),
        ensures
            final(self).wf(),
            final(self)@ == old(self)@.insert(key@, value@),
            final(self).len() == old(self).len() + (if old(self)@.dom().contains(key@) {
                0nat
            } else {
                1nat
            }),
    {
        let found = self.find(&key);
        let ghost before = *self;
        let ghost kv = key@;
        let ghost vv = value@;
        match found {
            Some(i) => {
                self.entries[i] = Entry { key, value };
                proof {
                    assert forall|a: int, b: int| 0 <= a < b < self.entries@.len() implies self.entries@[a].key@
                        != self.entries@[b].key@ by {
                        assert(before.entries@[a].key@ != before.entries@[b].key@);
                    }
                    assert forall|k: K::V| self.has(k) == before.has(k) by {
                        if self.has(k) {
                            let j = self.slot(k);
                            assert(before.entries@[j].key@ == k);
                        }
                        if before.has(k) {
                            let j = before.slot(k);
                            assert(self.entries@[j].key@ == k);
                        }
                    }
                    assert forall|k: K::V| #[trigger] self.has(k) implies self@[k] == before@.insert(kv, vv)[k] by {
                        let j = self.slot(k);
                        self.lemma_slot(j);
                        assert(before.entries@[j].key@ == k);
                        before.lemma_slot(j);
                    }
                    assert(self@ =~= before@.insert(kv, vv));
                }
            },
            None => {
                self.entries.push(Entry { key, value });
                proof {
                    let n = before.entries@.len() as int;
                    assert forall|a: int, b: int| 0 <= a < b < self.entries@.len() implies self.entries@[a].key@
                        != self.entries@[b].key@ by {
                        if b < n {
                            assert(before.entries@[a].key@ != before.entries@[b].key@);
                        } else {
                            assert(before.entries@[a].key@ == self.entries@[a].key@);
                            assert(!before.has(kv));
                        }
                    }
                    assert(self.entries@[n].key@ == kv);
                    assert forall|k: K::V| self.has(k) == (before.has(k) || k == kv) by {
                        if self.has(k) {
                            let j = self.slot(k);
                            if j < n {
                                assert(before.entries@[j].key@ == k);
                            }
                        }
                        if before.has(k) {
                            let j = before.slot(k);
                            assert(self.entries@[j].key@ == k);
                        }
                    }
                    assert forall|k: K::V| #[trigger] self.has(k) implies self@[k] == before@.insert(kv, vv)[k] by {
                        let j = self.slot(k);
                        self.lemma_slot(j);
                        if j < n {
                            assert(before.entries@[j].key@ == k);
                            before.lemma_slot(j);
                        }
                    }
                    assert(self@ =~= before@.insert(kv, vv));
                }
            },
        }
    }

    /// Takes the entry of `key` out. Returns its value, if there was one.
    pub fn remove(&mut self, key: &K) -> (value: Option<V>)
        requires
            old(self).wf(),
        ensures
            final(self).wf(),
            final(self)@ == old(self)@.remove(key@),
            value is Some == old(self)@.dom().contains(key@),
            value is Some ==> value.unwrap()@ == old(self)@[key@],
    {
        let found = self.find(key);
        let ghost before = *self;
        let ghost kv = key@;
        match found {
            Some(i) => {
                let entry = self.entries.remove(i);
                proof {
                    let at = i as int;
                    assert forall|a: int, b: int| 0 <= a < b < self.entries@.len() implies self.entries@[a].key@
                        != self.entries@[b].key@ by {
                        let a0 = if a < at {
                            a
                        } else {
                            a + 1
                        };
                        let b0 = if b < at {
                            b
                        } else {
                            b + 1
                        };
                        assert(before.entries@[a0].key@ != before.entries@[b0].key@);
                    }
                    assert forall|k: K::V| self.has(k) == (before.has(k) && k != kv) by {
                        if self.has(k) {
                            let j = self.slot(k);
                            let j0 = if j < at {
                                j
                            } else {
                                j + 1
                            };
                            assert(before.entries@[j0].key@ == k);
                            if j0 < at {
                                assert(before.entries@[j0].key@ != before.entries@[at].key@);
                            } else {
                                assert(before.entries@[at].key@ != before.entries@[j0].key@);
                            }
                        }
                        if before.has(k) && k != kv {
                            let j0 = before.slot(k);
                            let j = if j0 < at {
                                j0
                            } else {
                                j0 - 1
                            };
                            assert(self.entries@[j].key@ == k);
                        }
                    }
                    assert forall|k: K::V| #[trigger] self.has(k) implies self@[k] == before@.remove(kv)[k] by {
                        let j = self.slot(k);
                        self.lemma_slot(j);
                        let j0 = if j < at {
                            j
                        } else {
                            j + 1
                        };
                        assert(before.entries@[j0].key@ == k);
                        before.lemma_slot(j0);
                    }
                    assert(self@ =~= before@.remove(kv));
                }
                Some(entry.value)
            },
            None => {
                proof {
                    assert(self@ =~= before@.remove(kv));
                }
                None
            },
        }
    }

    /// Copies of all keys, each once.
    pub fn key_list(&self) -> (keys: Vec<K>)
        requires
            self.wf(),
        ensures
            keys@.len() == self.len(),
            forall|i: int| 0 <= i < keys@.len() ==> self@.dom().contains(#[trigger] keys@[i]@),
            forall|k: K::V|
                self@.dom().contains(k) ==> exists|i: int|
                    0 <= i < keys@.len() && #[trigger] keys@[i]@ == k,
            forall|i: int, j: int|
                0 <= i < j < keys@.len() ==> #[trigger] keys@[i]@ != #[trigger] keys@[j]@,
    {
        let mut keys: Vec<K> = Vec::new();
        let mut i: usize = 0;
        while i < self.entries.len()
            invariant
                self.wf(),
                i <= self.entries@.len(),
                keys@.len() == i,
                forall|j: int| 0 <= j < i ==> (#[trigger] keys@[j])@ == self.entries@[j].key@,
            decreases self.entries@.len() - i,
        {
            keys.push(self.entries[i].key.duplicate());
            i += 1;
        }
        proof {
            assert forall|j: int| 0 <= j < keys@.len() implies self@.dom().contains(
                #[trigger] keys@[j]@,
            ) by {
                assert(self.entries@[j].key@ == keys@[j]@);
            }
            assert forall|k: K::V| self@.dom().contains(k) implies exists|j: int|
                0 <= j < keys@.len() && #[trigger] keys@[j]@ == k by {
                let j = self.slot(k);
                assert(keys@[j]@ == k);
            }
            assert forall|a: int, b: int| 0 <= a < b < keys@.len() implies #[trigger] keys@[a]@
                != #[trigger] keys@[b]@ by {
                assert(self.entries@[a].key@ != self.entries@[b].key@);
            }
        }
        keys
    }

    /// The domain of the model is finite and no larger than the table.
    pub proof fn lemma_finite(&self)
        requires
            self.wf(),
        ensures
            self@.dom().finite(),
            self@.dom().len() == self.len(),
            self.len() <= usize::MAX,
    {
        assert(self.entries@.len() == self.entries.len());
        self.lemma_finite_upto(self.entries@.len() as int);
        assert(self@.dom() =~= self.dom_upto(self.entries@.len() as int)) by {
            assert forall|k: K::V| self@.dom().contains(k) implies self.dom_upto(
                self.entries@.len() as int,
            ).contains(k) by {
                let j = self.slot(k);
                assert(self.entries@[j].key@ == k);
            }
        }
    }

    closed spec fn dom_upto(&self, n: int) -> Set<K::V> {
        Set::new(|k: K::V| exists|i: int| 0 <= i < n && #[trigger] self.entries@[i].key@ == k)
    }

    proof fn lemma_finite_upto(&self, n: int)
        requires
            self.wf(),
            0 <= n <= self.entries@.len(),
        ensures
            self.dom_upto(n).finite(),
            self.dom_upto(n).len() == n,
        decreases n,
    {
        if n == 0 {
            assert(self.dom_upto(0) =~= Set::<K::V>::empty());
        } else {
            self.lemma_finite_upto(n - 1);
            let k = self.entries@[n - 1].key@;
            assert(!self.dom_upto(n - 1).contains(k)) by {
                if self.dom_upto(n - 1).contains(k) {
                    let i = choose|i: int| 0 <= i < n - 1 && #[trigger] self.entries@[i].key@ == k;
                    assert(self.entries@[i].key@ != self.entries@[n - 1].key@);
                }
            }
            assert(self.dom_upto(n) =~= self.dom_upto(n - 1).insert(k)) by {
                assert forall|x: K::V| self.dom_upto(n - 1).insert(k).contains(x) implies self.dom_upto(
                    n,
                ).contains(x) by {
                    if x == k {
                        assert(self.entries@[n - 1].key@ == x);
                    } else {
                        let i = choose|i: int| 0 <= i < n - 1 && #[trigger] self.entries@[i].key@ == x;
                        assert(self.entries@[i].key@ == x);
                    }
                }
            }
        }
    }
}

impl<K: Key, V: View> View for Table<K, V> {
    type V = Map<K::V, V::V>;

    closed spec fn view(&self) -> Map<K::V, V::V> {
        Map::new(|k: K::V| self.has(k), |k: K::V| self.entries@[self.slot(k)].value@)
    }
}

} // verus!
