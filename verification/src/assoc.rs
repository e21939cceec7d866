//! A small map that keeps its entries in the order in which their keys were
//! first inserted. The registries of the engine are built on it.

use vstd::prelude::*;

verus! {

/// A key of an [`AssocList`]: it has a mathematical model, and two keys can
/// be compared for having the same model.
pub trait Key: Sized {
    type Model;

    spec fn model(&self) -> Self::Model;

    fn same(&self, other: &Self) -> (r: bool)
        ensures
            r == (self.model() == other.model()),
    ;
}

impl Key for String {
    type Model = Seq<char>;

    open spec fn model(&self) -> Seq<char> {
        self@
    }

    fn same(&self, other: &Self) -> (r: bool) {
        *self == *other
    }
}

/// One entry of an [`AssocList`].
pub struct Slot<K, V> {
    pub key: K,
    pub value: V,
}

/// A finite map from keys to values. No two entries have the same key, and
/// the entries stay in the order in which their keys first came in.
pub struct AssocList<K: Key, V> {
    slots: Vec<Slot<K, V>>,
}

/// The models of the keys of `slots`, in order.
pub open spec fn key_models<K: Key, V>(slots: Seq<Slot<K, V>>) -> Seq<K::Model> {
    Seq::new(slots.len(), |i: int| slots[i].key.model())
}

impl<K: Key, V> AssocList<K, V> {
    #[verifier::type_invariant]
    spec fn inv(&self) -> bool {
        key_models(self.slots@).no_duplicates()
    }

    /// The entries in insertion order.
    pub closed spec fn slots(&self) -> Seq<Slot<K, V>> {
        self.slots@
    }

    /// The keys in insertion order.
    pub open spec fn keys(&self) -> Seq<K::Model> {
        key_models(self.slots())
    }

    /// The position of the entry with key `k`, where there is one.
    pub open spec fn position(&self, k: K::Model) -> int {
        self.keys().index_of(k)
    }

    /// The list as a map from keys to values.
    pub open spec fn view(&self) -> Map<K::Model, V> {
        Map::new(
            |k: K::Model| self.keys().contains(k),
            |k: K::Model| self.slots()[self.position(k)].value,
        )
    }

    /// The map has as many entries as the list has keys.
    pub proof fn lemma_len(&self)
        requires
            self.keys().no_duplicates(),
        ensures
            self@.dom().finite(),
            self@.len() == self.keys().len(),
    {
        assert(self@.dom() =~= self.keys().to_set());
        self.keys().unique_seq_to_set();
    }

    /// The empty list.
    pub fn new() -> (r: Self)
        ensures
            r.slots() == Seq::<Slot<K, V>>::empty(),
            r@ == Map::<K::Model, V>::empty(),
    {
        let r = AssocList { slots: Vec::new() };
        assert(key_models(r.slots@) =~= Seq::<K::Model>::empty());
        assert(r@ =~= Map::<K::Model, V>::empty());
        r
    }

    /// The number of entries.
    pub fn len(&self) -> (n: usize)
        ensures
            n == self.slots().len(),
            n == self.keys().len(),
            n == self@.len(),
            self.keys().no_duplicates(),
    {
        proof {
            use_type_invariant(self);
            self.lemma_len();
        }
        self.slots.len()
    }

    /// The entry at position `i`. It is the one that the map holds under its
    /// key.
    pub fn slot(&self, i: usize) -> (r: &Slot<K, V>)
        requires
            i < self.slots().len(),
        ensures
            *r == self.slots()[i as int],
            r.key.model() == self.keys()[i as int],
            self@.contains_key(r.key.model()),
            self@[r.key.model()] == r.value,
    {
        proof {
            use_type_invariant(self);
            let k = self.keys()[i as int];
            assert(self.keys().contains(k));
            self.keys().index_of_first_ensures(k);
        }
        &self.slots[i]
    }

    /// The position of the entry with key `key`.
    pub fn find(&self, key: &K) -> (r: Option<usize>)
        ensures
            r is Some <==> self@.contains_key(key.model()),
            r matches Some(i) ==> i < self.slots().len() && i == self.position(key.model())
                && self.slots()[i as int].key.model() == key.model(),
    {
        proof {
            use_type_invariant(self);
        }
        let mut i: usize = 0;
        while i < self.slots.len()
            invariant
                i <= self.slots@.len(),
                forall|j: int| 0 <= j < i ==> self.slots@[j].key.model() != key.model(),
                key_models(self.slots@).no_duplicates(),
            decreases self.slots@.len() - i,
        {
            if self.slots[i].key.same(key) {
                proof {
                    let keys = key_models(self.slots@);
                    assert(keys[i as int] == key.model());
                    assert(keys.contains(key.model()));
                    keys.index_of_first_ensures(key.model());
                    let p = keys.index_of(key.model());
                    assert(keys[p] == keys[i as int]);
                }
                return Some(i);
            }
            i += 1;
        }
        proof {
            let keys = key_models(self.slots@);
            if keys.contains(key.model()) {
                let j = choose|j: int| 0 <= j < keys.len() && keys[j] == key.model();
                assert(self.slots@[j].key.model() == key.model());
            }
        }
        None
    }

    /// The value stored under `key`.
    pub fn get(&self, key: &K) -> (r: Option<&V>)
        ensures
            r is Some <==> self@.contains_key(key.model()),
            r matches Some(v) ==> *v == self@[key.model()],
    {
        match self.find(key) {
            Some(i) => Some(&self.slots[i].value),
            None => None,
        }
    }

    /// Stores `value` under `key`. An entry that had the same key is replaced
    /// and keeps its position; a new key goes to the end.
    pub fn insert(&mut self, key: K, value: V)
        ensures
            final(self)@ == old(self)@.insert(key.model(), value),
            old(self)@.contains_key(key.model()) ==> final(self).keys() == old(self).keys(),
            !old(self)@.contains_key(key.model()) ==> final(self).keys() == old(self).keys().push(
                key.model(),
            ),
    {
        proof {
            use_type_invariant(&*self);
        }
        let ghost before = self.slots@;
        let ghost km = key.model();
        let found = self.find(&key);
        let mut slots: Vec<Slot<K, V>> = Vec::new();
        proof {
            assert(key_models(slots@) =~= Seq::<K::Model>::empty());
        }
        core::mem::swap(&mut self.slots, &mut slots);
        match found {
            Some(i) => {
                slots[i] = Slot { key, value };
                proof {
                    assert(key_models(slots@) =~= key_models(before));
                }
            },
            None => {
                slots.push(Slot { key, value });
                proof {
                    assert(key_models(slots@) =~= key_models(before).push(km));
                    assert(!key_models(before).contains(km));
                }
            },
        }
        self.slots = slots;
        proof {
            let after = key_models(self.slots@);
            assert(after.no_duplicates());
            assert forall|k: K::Model| #[trigger] after.contains(k) <==> (k == km || key_models(
                before,
            ).contains(k)) by {
                if after.contains(k) {
                    let j = choose|j: int| 0 <= j < after.len() && after[j] == k;
                    if j < before.len() && key_models(before)[j] == k {
                    }
                }
                if key_models(before).contains(k) {
                    let j = choose|j: int| 0 <= j < before.len() && key_models(before)[j] == k;
                    assert(after[j] == k);
                }
                if k == km {
                    if key_models(before).contains(km) {
                        let j = key_models(before).index_of(km);
                        assert(after[j] == km);
                    } else {
                        assert(after[before.len() as int] == km);
                    }
                }
            }
            assert forall|k: K::Model| after.contains(k) implies #[trigger] self@[k] == old(self)@.insert(km, value)[k] by {
                let p = after.index_of(k);
                after.index_of_first_ensures(k);
                if k == km {
                    if key_models(before).contains(km) {
                        let j = key_models(before).index_of(km);
                        key_models(before).index_of_first_ensures(km);
                        assert(after[j] == km);
                    } else {
                        assert(after[before.len() as int] == km);
                    }
                } else {
                    let j = key_models(before).index_of(k);
                    key_models(before).index_of_first_ensures(k);
                    assert(after[j] == k);
                    assert(p == j);
                }
            }
            assert(self@ =~= old(self)@.insert(km, value));
        }
    }

    /// Takes the entry with key `key` out of the list, if there is one, and
    /// returns its value. The other entries keep their order.
    pub fn remove(&mut self, key: &K) -> (r: Option<V>)
        ensures
            final(self)@ == old(self)@.remove(key.model()),
            old(self)@.contains_key(key.model()) ==> r == Some(old(self)@[key.model()])
                && final(self).keys() == old(self).keys().remove(old(self).position(key.model())),
            !old(self)@.contains_key(key.model()) ==> r is None && final(self).keys() == old(self).keys(),
    {
        proof {
            use_type_invariant(&*self);
        }
        let ghost before = self.slots@;
        let ghost km = key.model();
        match self.find(key) {
            None => {
                assert(self@ =~= old(self)@.remove(km));
                None
            },
            Some(i) => {
                let mut slots: Vec<Slot<K, V>> = Vec::new();
                proof {
                    assert(key_models(slots@) =~= Seq::<K::Model>::empty());
                }
                core::mem::swap(&mut self.slots, &mut slots);
                let taken = slots.remove(i);
                proof {
                    let was = key_models(before);
                    let now = key_models(slots@);
                    assert(now =~= was.remove(i as int));
                    assert forall|a: int, b: int| 0 <= a < b < now.len() implies now[a] != now[b] by {
                        let a0 = if a < i { a } else { a + 1 };
                        let b0 = if b < i { b } else { b + 1 };
                        assert(now[a] == was[a0]);
                        assert(now[b] == was[b0]);
                    }
                    assert(now.no_duplicates());
                }
                self.slots = slots;
                proof {
                    let was = key_models(before);
                    let now = key_models(self.slots@);
                    assert forall|k: K::Model| #[trigger] now.contains(k) <==> (k != km
                        && was.contains(k)) by {
                        if now.contains(k) {
                            let j = choose|j: int| 0 <= j < now.len() && now[j] == k;
                            let j0 = if j < i { j } else { j + 1 };
                            assert(was[j0] == k);
                        }
                        if k != km && was.contains(k) {
                            let j = choose|j: int| 0 <= j < was.len() && was[j] == k;
                            let j1 = if j < i { j } else { j - 1 };
                            assert(now[j1] == k);
                        }
                    }
                    assert forall|k: K::Model| now.contains(k) implies #[trigger] self@[k] == old(self)@.remove(km)[k] by {
                        let p = now.index_of(k);
                        now.index_of_first_ensures(k);
                        let q = was.index_of(k);
                        was.index_of_first_ensures(k);
                        let p0 = if p < i { p } else { p + 1 };
                        assert(was[p0] == k);
                        assert(p0 == q);
                    }
                    assert(self@ =~= old(self)@.remove(km));
                }
                Some(taken.value)
            },
        }
    }

    /// Takes every entry out of the list.
    pub fn clear(&mut self)
        ensures
            final(self)@ == Map::<K::Model, V>::empty(),
            final(self).slots() == Seq::<Slot<K, V>>::empty(),
    {
        let slots: Vec<Slot<K, V>> = Vec::new();
        proof {
            assert(key_models(slots@) =~= Seq::<K::Model>::empty());
        }
        self.slots = slots;
        assert(self@ =~= Map::<K::Model, V>::empty());
    }
}

} // verus!
