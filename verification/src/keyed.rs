//! A small insertion-ordered map, for the tables of pages, plugins and keys.

use vstd::pervasive::cloned;
use vstd::prelude::*;

verus! {

/// What can serve as a key: a type whose values can be compared and copied,
/// and whose view is what a key is told apart by.
pub trait Key: View + Sized {
    /// Whether two keys are the same key.
    fn same(&self, other: &Self) -> (same: bool)
        ensures
            same == (self@ == other@),
    ;

    /// A copy of the key.
    fn duplicate(&self) -> (copy: Self)
        ensures
            copy@ == self@,
    ;
}

impl Key for String {
    fn same(&self, other: &Self) -> (same: bool) {
        *self == *other
    }

    fn duplicate(&self) -> (copy: Self) {
        self.clone()
    }
}

/// A map that keeps its entries in the order in which their keys first came.
/// No key occurs twice.
#[derive(Debug)]
pub struct KeyedList<K, V> {
    keys: Vec<K>,
    values: Vec<V>,
}

impl<K: Key, V> KeyedList<K, V> {
    /// The keys, in order.
    pub closed spec fn ids(&self) -> Seq<K::V> {
        self.keys@.map_values(|k: K| k@)
    }

    /// The values, in the order of their keys.
    pub closed spec fn vals(&self) -> Seq<V> {
        self.values@
    }

    /// Every key has its value, and no key occurs twice.
    pub open spec fn wf(&self) -> bool {
        &&& self.ids().len() == self.vals().len()
        &&& self.ids().no_duplicates()
    }

    /// The list as a map.
    pub open spec fn view(&self) -> Map<K::V, V> {
        Map::new(|id: K::V| self.ids().contains(id), |id: K::V| self.vals()[self.ids().index_of(id)])
    }

    /// The keys after `id` was put into a list with the keys `ids`: a key
    /// that is there keeps its place, a new key goes to the end.
    pub open spec fn ids_with(ids: Seq<K::V>, id: K::V) -> Seq<K::V> {
        if ids.contains(id) {
            ids
        } else {
            ids.push(id)
        }
    }

    /// An empty list.
    pub fn new() -> (list: Self)
        ensures
            list.wf(),
            list.ids() == Seq::<K::V>::empty(),
            list.vals() == Seq::<V>::empty(),
    {
        KeyedList { keys: Vec::new(), values: Vec::new() }
    }

    /// Number of entries.
    pub fn len(&self) -> (len: usize)
        requires
            self.wf(),
        ensures
            len == self.ids().len(),
    {
        self.keys.len()
    }

    /// The key of the entry at `index`.
    pub fn key_at(&self, index: usize) -> (key: &K)
        requires
            self.wf(),
            index < self.ids().len(),
        ensures
            key@ == self.ids()[index as int],
    {
        &self.keys[index]
    }

    /// The value of the entry at `index`.
    pub fn value_at(&self, index: usize) -> (value: &V)
        requires
            self.wf(),
            index < self.ids().len(),
        ensures
            *value == self.vals()[index as int],
    {
        &self.values[index]
    }

    /// Where a key stands in the list, if it is there.
    pub fn find(&self, key: &K) -> (found: Option<usize>)
        requires
            self.wf(),
        ensures
            match found {
                Some(index) => index < self.ids().len() && self.ids()[index as int] == key@,
                None => !self.ids().contains(key@),
            },
    {
        let mut i: usize = 0;
        while i < self.keys.len()
            invariant
                i <= self.keys@.len(),
                forall|k: int| 0 <= k < i ==> self.ids()[k] != key@,
            decreases self.keys.len() - i,
        {
            if self.keys[i].same(key) {
                return Some(i);
            }
            i = i + 1;
        }
        None
    }

    /// The value under a key, if the key is there.
    pub fn get(&self, key: &K) -> (value: Option<&V>)
        requires
            self.wf(),
        ensures
            match value {
                Some(v) => self@.contains_key(key@) && *v == self@[key@],
                None => !self@.contains_key(key@),
            },
    {
        match self.find(key) {
            Some(index) => {
                proof {
                    self.lemma_entry(index as int);
                }
                Some(&self.values[index])
            },
            None => None,
        }
    }

    /// Puts a value under a key. A key that is there already keeps its place
    /// and gets the new value; a new key goes to the end.
    pub fn insert(&mut self, key: K, value: V)
        requires
            old(self).wf(),
        ensures
            final(self).wf(),
            final(self)@ == old(self)@.insert(key@, value),
            final(self).ids() == Self::ids_with(old(self).ids(), key@),
            final(self).vals() == if old(self).ids().contains(key@) {
                old(self).vals().update(old(self).ids().index_of(key@), value)
            } else {
                old(self).vals().push(value)
            },
    {
        match self.find(&key) {
            Some(index) => {
                self.values[index] = value;
                proof {
                    assert forall|id: K::V| final(self)@.contains_key(id) implies final(self)@[id]
                        == old(self)@.insert(key@, value)[id] by {
                        assert(self.ids()[self.ids().index_of(id)] == id);
                    }
                }
            },
            None => {
                self.keys.push(key);
                self.values.push(value);
                proof {
                    let last = old(self).ids().len() as int;
                    assert forall|i: int, j: int|
                        0 <= i < self.ids().len() && 0 <= j < self.ids().len() && i
                            != j implies self.ids()[i] != self.ids()[j] by {
                        if i < last && j < last {
                            assert(old(self).ids()[i] != old(self).ids()[j]);
                        } else if i == last {
                            assert(old(self).ids()[j] == self.ids()[j]);
                        } else {
                            assert(old(self).ids()[i] == self.ids()[i]);
                        }
                    }
                    assert forall|id: K::V|
                        final(self)@.contains_key(id) <==> old(self)@.insert(
                            key@,
                            value,
                        ).contains_key(id) by {
                        if old(self).ids().contains(id) {
                            let at = old(self).ids().index_of(id);
                            assert(self.ids()[at] == id);
                        }
                        if id == key@ {
                            assert(self.ids()[last] == id);
                        }
                        if self.ids().contains(id) && id != key@ {
                            let at = self.ids().index_of(id);
                            assert(old(self).ids()[at] == id);
                        }
                    }
                    assert forall|id: K::V| final(self)@.contains_key(id) implies final(self)@[id]
                        == old(self)@.insert(key@, value)[id] by {
                        if id == key@ {
                            assert(self.ids()[last] == id);
                        } else {
                            assert(old(self).ids()[self.ids().index_of(id)] == id);
                        }
                    }
                }
            },
        }
    }

    /// An entry's value is what the map holds under the entry's key.
    pub proof fn lemma_entry(&self, index: int)
        requires
            self.wf(),
            0 <= index < self.ids().len(),
        ensures
            self@.contains_key(self.ids()[index]),
            self@[self.ids()[index]] == self.vals()[index],
            self.ids().index_of(self.ids()[index]) == index,
    {
        let id = self.ids()[index];
        assert(self.ids()[self.ids().index_of(id)] == id);
    }
}

impl<K: Key, V: Clone> Clone for KeyedList<K, V> {
    /// A copy with the same keys in the same order, and a clone of each value.
    fn clone(&self) -> (copy: Self)
        ensures
            copy.ids() == self.ids(),
            copy.vals().len() == self.vals().len(),
            forall|i: int|
                0 <= i < self.vals().len() ==> cloned::<V>(self.vals()[i], #[trigger] copy.vals()[i]),
    {
        let mut keys: Vec<K> = Vec::new();
        let mut i: usize = 0;
        while i < self.keys.len()
            invariant
                i <= self.keys@.len(),
                keys@.len() == i,
                forall|k: int| 0 <= k < i ==> keys@[k]@ == self.keys@[k]@,
            decreases self.keys.len() - i,
        {
            keys.push(self.keys[i].duplicate());
            i = i + 1;
        }
        let mut values: Vec<V> = Vec::new();
        let mut j: usize = 0;
        while j < self.values.len()
            invariant
                j <= self.values@.len(),
                values@.len() == j,
                forall|k: int| 0 <= k < j ==> cloned::<V>(self.values@[k], #[trigger] values@[k]),
            decreases self.values.len() - j,
        {
            values.push(self.values[j].clone());
            j = j + 1;
        }
        KeyedList { keys, values }
    }
}

} // verus!
