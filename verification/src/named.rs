//! A small map from names to values that keeps the order of insertion.

use crate::text::{same_text, texts};
use vstd::prelude::*;

verus! {

/// Values under unique names, in the order in which the names were first
/// inserted.
#[derive(Debug)]
pub struct NamedMap<V> {
    names: Vec<String>,
    values: Vec<V>,
}

/// The map that takes each of `keys` to the item at its index.
pub open spec fn map_of<V>(keys: Seq<Seq<char>>, items: Seq<V>) -> Map<Seq<char>, V> {
    Map::new(|k: Seq<char>| keys.contains(k), |k: Seq<char>| items[keys.index_of(k)])
}

/// Where no key occurs twice, a key's index is the one place where it
/// stands.
pub proof fn lemma_index_of<A>(keys: Seq<A>, i: int)
    requires
        keys.no_duplicates(),
        0 <= i < keys.len(),
    ensures
        keys.contains(keys[i]),
        keys.index_of(keys[i]) == i,
{
    let j = keys.index_of(keys[i]);
    assert(0 <= j < keys.len() && keys[j] == keys[i]);
}

/// A new key behind the others adds one entry to the map.
pub proof fn lemma_map_of_push<V>(keys: Seq<Seq<char>>, items: Seq<V>, k: Seq<char>, v: V)
    requires
        keys.len() == items.len(),
        keys.no_duplicates(),
        !keys.contains(k),
    ensures
        keys.push(k).no_duplicates(),
        map_of(keys.push(k), items.push(v)) == map_of(keys, items).insert(k, v),
{
    let keys2 = keys.push(k);
    let items2 = items.push(v);
    assert forall|i: int, j: int| 0 <= i < keys2.len() && 0 <= j < keys2.len() && i != j implies keys2[i]
        != keys2[j] by {
        if i < keys.len() && j < keys.len() {
        } else if i < keys.len() {
            assert(keys.contains(keys[i]));
        } else {
            assert(keys.contains(keys[j]));
        }
    }
    assert forall|x: Seq<char>| keys2.contains(x) <==> (x == k || keys.contains(x)) by {
        if keys2.contains(x) {
            let i = keys2.index_of(x);
            if i < keys.len() {
                assert(keys[i] == x);
            }
        }
        if keys.contains(x) {
            let i = keys.index_of(x);
            assert(keys2[i] == x);
        }
        if x == k {
            assert(keys2[keys.len() as int] == x);
        }
    }
    assert forall|x: Seq<char>| keys.contains(x) implies items2[keys2.index_of(x)]
        == items[keys.index_of(x)] by {
        let i = keys.index_of(x);
        assert(keys2[i] == x);
        lemma_index_of(keys2, i);
    }
    lemma_index_of(keys2, keys.len() as int);
    assert(map_of(keys2, items2) =~= map_of(keys, items).insert(k, v));
}

/// A new item in the place of an old one changes one entry of the map.
pub proof fn lemma_map_of_update<V>(keys: Seq<Seq<char>>, items: Seq<V>, i: int, v: V)
    requires
        keys.len() == items.len(),
        keys.no_duplicates(),
        0 <= i < keys.len(),
    ensures
        map_of(keys, items.update(i, v)) == map_of(keys, items).insert(keys[i], v),
{
    lemma_index_of(keys, i);
    assert forall|x: Seq<char>| keys.contains(x) && x != keys[i] implies keys.index_of(x)
        != i by {
        let j = keys.index_of(x);
        assert(keys[j] == x);
    }
    assert(map_of(keys, items.update(i, v)) =~= map_of(keys, items).insert(keys[i], v));
}

/// Taking out a key and its item takes one entry out of the map.
pub proof fn lemma_map_of_remove<V>(keys: Seq<Seq<char>>, items: Seq<V>, i: int)
    requires
        keys.len() == items.len(),
        keys.no_duplicates(),
        0 <= i < keys.len(),
    ensures
        keys.remove(i).no_duplicates(),
        map_of(keys.remove(i), items.remove(i)) == map_of(keys, items).remove(keys[i]),
{
    let keys2 = keys.remove(i);
    let items2 = items.remove(i);
    assert forall|a: int, b: int| 0 <= a < keys2.len() && 0 <= b < keys2.len() && a != b implies keys2[a]
        != keys2[b] by {
        let a1 = if a < i {
            a
        } else {
            a + 1
        };
        let b1 = if b < i {
            b
        } else {
            b + 1
        };
        assert(keys2[a] == keys[a1]);
        assert(keys2[b] == keys[b1]);
    }
    assert forall|x: Seq<char>| keys2.contains(x) <==> (keys.contains(x) && x != keys[i]) by {
        if keys2.contains(x) {
            let a = keys2.index_of(x);
            let a1 = if a < i {
                a
            } else {
                a + 1
            };
            assert(keys[a1] == x);
        }
        if keys.contains(x) && x != keys[i] {
            let j = keys.index_of(x);
            assert(keys[j] == x);
            let a = if j < i {
                j
            } else {
                j - 1
            };
            assert(keys2[a] == x);
        }
    }
    assert forall|x: Seq<char>| keys2.contains(x) implies items2[keys2.index_of(x)]
        == items[keys.index_of(x)] by {
        let a = keys2.index_of(x);
        assert(keys2[a] == x);
        let a1 = if a < i {
            a
        } else {
            a + 1
        };
        assert(keys[a1] == x);
        lemma_index_of(keys, a1);
    }
    assert(map_of(keys2, items2) =~= map_of(keys, items).remove(keys[i]));
}

impl<V> NamedMap<V> {
    #[verifier::type_invariant]
    spec fn inv(&self) -> bool {
        &&& self.names.len() == self.values.len()
        &&& texts(self.names@).no_duplicates()
    }

    /// The names, in order of insertion.
    pub closed spec fn keys(&self) -> Seq<Seq<char>> {
        texts(self.names@)
    }

    /// The values, each at the index of its name in `keys`.
    pub closed spec fn items(&self) -> Seq<V> {
        self.values@
    }

    /// The map from each name to its value.
    pub open spec fn as_map(&self) -> Map<Seq<char>, V> {
        map_of(self.keys(), self.items())
    }

    /// Whether `name` has a value.
    pub open spec fn contains(&self, name: Seq<char>) -> bool {
        self.keys().contains(name)
    }

    /// The value under `name`, where it has one.
    pub open spec fn lookup(&self, name: Seq<char>) -> V {
        self.items()[self.keys().index_of(name)]
    }

    /// The empty map.
    pub fn new() -> (m: Self)
        ensures
            m.keys() == Seq::<Seq<char>>::empty(),
            m.items() == Seq::<V>::empty(),
    {
        let m = NamedMap { names: Vec::new(), values: Vec::new() };
        assert(texts(m.names@) =~= Seq::<Seq<char>>::empty());
        m
    }

    /// The number of names. Every map has one value per name, and no name
    /// twice.
    pub fn len(&self) -> (n: usize)
        ensures
            n == self.keys().len(),
            n == self.items().len(),
            self.keys().no_duplicates(),
    {
        proof {
            use_type_invariant(self);
        }
        self.names.len()
    }

    /// The index of `name`, if it has a value.
    pub fn position(&self, name: &str) -> (r: Option<usize>)
        ensures
            match r {
                Some(i) => i < self.keys().len() && self.keys()[i as int] == name@,
                None => !self.contains(name@),
            },
    {
        let mut i: usize = 0;
        while i < self.names.len()
            invariant
                i <= self.names.len(),
                forall|j: int| 0 <= j < i ==> self.keys()[j] != name@,
            decreases self.names.len() - i,
        {
            if same_text(self.names[i].as_str(), name) {
                return Some(i);
            }
            i += 1;
        }
        None
    }

    /// The value under `name`, if it has one.
    pub fn get(&self, name: &str) -> (r: Option<&V>)
        ensures
            match r {
                Some(v) => self.contains(name@) && *v == self.lookup(name@),
                None => !self.contains(name@),
            },
    {
        proof {
            use_type_invariant(self);
        }
        match self.position(name) {
            Some(i) => {
                proof {
                    lemma_index_of(self.keys(), i as int);
                }
                Some(&self.values[i])
            },
            None => None,
        }
    }

    /// Takes out `name` and its value, and returns the value; nothing
    /// happens where `name` has none.
    pub fn remove(&mut self, name: &str) -> (r: Option<V>)
        ensures
            final(self).as_map() == old(self).as_map().remove(name@),
            match r {
                Some(v) => old(self).contains(name@) && v == old(self).lookup(name@),
                None => !old(self).contains(name@) && final(self).keys() == old(self).keys()
                    && final(self).items() == old(self).items(),
            },
            old(self).contains(name@) ==> final(self).keys() == old(self).keys().remove(
                old(self).keys().index_of(name@),
            ),
            old(self).contains(name@) ==> final(self).items() == old(self).items().remove(
                old(self).keys().index_of(name@),
            ),
    {
        proof {
            use_type_invariant(&*self);
        }
        match self.position(name) {
            Some(i) => {
                let mut taken = NamedMap::new();
                core::mem::swap(self, &mut taken);
                let NamedMap { mut names, mut values } = taken;
                let ghost keys = texts(names@);
                let ghost items = values@;
                proof {
                    lemma_index_of(keys, i as int);
                    lemma_map_of_remove(keys, items, i as int);
                }
                names.remove(i);
                let v = values.remove(i);
                proof {
                    assert(texts(names@) =~= keys.remove(i as int));
                }
                *self = NamedMap { names, values };
                Some(v)
            },
            None => {
                assert(self.as_map().remove(name@) =~= self.as_map());
                None
            },
        }
    }

    /// The name at index `i`.
    pub fn name_at(&self, i: usize) -> (r: &String)
        requires
            i < self.keys().len(),
        ensures
            r@ == self.keys()[i as int],
    {
        &self.names[i]
    }

    /// The value at index `i`.
    pub fn value_at(&self, i: usize) -> (r: &V)
        requires
            i < self.items().len(),
        ensures
            *r == self.items()[i as int],
    {
        &self.values[i]
    }

    /// Puts `value` under `name`: in place of the value that `name` had, or
    /// behind all others where it had none.
    pub fn insert(&mut self, name: String, value: V)
        ensures
            old(self).contains(name@) ==> final(self).keys() == old(self).keys(),
            old(self).contains(name@) ==> final(self).items() == old(self).items().update(
                old(self).keys().index_of(name@),
                value,
            ),
            !old(self).contains(name@) ==> final(self).keys() == old(self).keys().push(name@),
            !old(self).contains(name@) ==> final(self).items() == old(self).items().push(value),
            final(self).as_map() == old(self).as_map().insert(name@, value),
    {
        proof {
            use_type_invariant(&*self);
        }
        let found = self.position(name.as_str());
        let mut taken = NamedMap::new();
        core::mem::swap(self, &mut taken);
        let NamedMap { mut names, mut values } = taken;
        let ghost keys = texts(names@);
        let ghost items = values@;
        match found {
            Some(i) => {
                proof {
                    lemma_index_of(keys, i as int);
                    lemma_map_of_update(keys, items, i as int, value);
                }
                values.set(i, value);
            },
            None => {
                names.push(name);
                values.push(value);
                proof {
                    assert(texts(names@) =~= keys.push(name@));
                    lemma_map_of_push(keys, items, name@, value);
                }
            },
        }
        *self = NamedMap { names, values };
    }
}

} // verus!
