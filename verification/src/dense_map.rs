//! An append-only arena addressed by typed identifiers.
use std::marker::PhantomData;

use vstd::prelude::*;

verus! {

/// An identifier that stands for a position in a [`DenseMap`].
pub trait EntityId: Sized {
    /// The position this identifier stands for.
    spec fn id_spec(&self) -> usize;

    /// The position this identifier stands for.
    fn get_id(&self) -> (id: usize)
        ensures
            id == self.id_spec(),
    ;

    /// The identifier of a position. Two identifiers of one position are equal.
    fn with_id(id: usize) -> (entity: Self)
        ensures
            entity.id_spec() == id,
            forall|other: Self| other.id_spec() == id ==> other == entity,
    ;
}

/// Values stored one after another; the identifier of a value is its position.
///
/// Nothing is ever removed, so an identifier stays valid, and keeps its value's
/// place, for as long as the map lives.
pub struct DenseMap<K, V> {
    data: Vec<V>,
    marker: PhantomData<K>,
}

impl<K, V> View for DenseMap<K, V> {
    type V = Seq<V>;

    closed spec fn view(&self) -> Seq<V> {
        self.data@
    }
}

impl<K: EntityId, V> DenseMap<K, V> {
    /// Whether `key` addresses a stored value.
    pub open spec fn has(&self, key: K) -> bool {
        (key.id_spec() as int) < self@.len()
    }

    /// The value that `key` addresses.
    pub open spec fn at(&self, key: K) -> V
        recommends
            self.has(key),
    {
        self@[key.id_spec() as int]
    }

    /// A map that holds nothing.
    pub fn new() -> (map: Self)
        ensures
            map@.len() == 0,
    {
        DenseMap { data: Vec::new(), marker: PhantomData }
    }

    /// The number of stored values.
    pub fn len(&self) -> (len: usize)
        ensures
            len == self@.len(),
    {
        self.data.len()
    }

    /// Whether nothing is stored.
    pub fn is_empty(&self) -> (empty: bool)
        ensures
            empty == (self@.len() == 0),
    {
        self.data.len() == 0
    }

    /// Appends `elem` and returns its identifier, which is the number of values
    /// stored before: larger than every identifier handed out earlier. The
    /// values stored can always be counted.
    pub fn push(&mut self, elem: V) -> (key: K)
        ensures
            final(self)@ == old(self)@.push(elem),
            key.id_spec() == old(self)@.len(),
            final(self)@.len() <= usize::MAX,
    {
        let curr_len = self.data.len();
        self.data.push(elem);
        proof {
            assert(self.data.len() == self.data@.len());
        }
        K::with_id(curr_len)
    }

    /// The value that `key` addresses, `None` for a key past the end.
    pub fn get(&self, key: K) -> (value: Option<&V>)
        ensures
            self.has(key) ==> value == Some(&self.at(key)),
            !self.has(key) ==> value is None,
    {
        let idx = key.get_id();
        if idx < self.data.len() {
            Some(&self.data[idx])
        } else {
            None
        }
    }

    /// The value that `key` addresses, for a key known to address one.
    pub fn index(&self, key: K) -> (value: &V)
        requires
            self.has(key),
        ensures
            *value == self.at(key),
    {
        &self.data[key.get_id()]
    }

    /// The place of the value that `key` addresses, `None` for a key past the
    /// end. Whatever is written through the place is what the map then holds
    /// there; every other value stays as it was.
    pub fn get_mut(&mut self, key: K) -> (value: Option<&mut V>)
        ensures
            old(self).has(key) ==> value is Some,
            !old(self).has(key) ==> value is None && final(self)@ == old(self)@,
            value matches Some(slot) ==> *slot == old(self).at(key) && final(self)@ == old(
                self,
            )@.update(key.id_spec() as int, *final(slot)),
    {
        let idx = key.get_id();
        if idx < self.data.len() {
            Some(&mut self.data[idx])
        } else {
            None
        }
    }

    /// Whether `key` addresses a stored value.
    pub fn contains_key(&self, key: K) -> (present: bool)
        ensures
            present == self.has(key),
    {
        key.get_id() < self.data.len()
    }

    /// The identifiers of all stored values, in ascending order.
    pub fn keys(&self) -> (keys: Vec<K>)
        ensures
            keys@.len() == self@.len(),
            forall|i: int| 0 <= i < keys@.len() ==> (#[trigger] keys@[i]).id_spec() == i,
    {
        let mut keys: Vec<K> = Vec::new();
        let mut i: usize = 0;
        while i < self.data.len()
            invariant
                i <= self.data@.len(),
                keys@.len() == i,
                forall|j: int| 0 <= j < keys@.len() ==> (#[trigger] keys@[j]).id_spec() == j,
            decreases self.data@.len() - i,
        {
            keys.push(K::with_id(i));
            i = i + 1;
        }
        keys
    }
}

} // verus!
