//! A finite map keyed by location.

use crate::location::Location;
use vstd::prelude::*;

verus! {

/// One binding of a `LocationMap`.
struct Entry<V> {
    key: Location,
    value: V,
}

/// A finite map from locations to values.
///
/// The bindings are kept in a list in which no location occurs twice; the
/// view of the map is the mathematical map that the list stands for.
pub struct LocationMap<V> {
    entries: Vec<Entry<V>>,
}

/// Tells whether `key` is bound in `entries`.
spec fn binds<V>(entries: Seq<Entry<V>>, key: Location) -> bool {
    exists|i: int| 0 <= i < entries.len() && entries[i].key == key
}

/// Some index at which `key` is bound in `entries`.
spec fn index_of<V>(entries: Seq<Entry<V>>, key: Location) -> int {
    choose|i: int| 0 <= i < entries.len() && entries[i].key == key
}

/// No location is bound twice in `entries`.
spec fn distinct_keys<V>(entries: Seq<Entry<V>>) -> bool {
    forall|i: int, j: int| 0 <= i < j < entries.len() ==> entries[i].key != entries[j].key
}

/// The map that a list of bindings stands for.
spec fn bindings<V>(entries: Seq<Entry<V>>) -> Map<Location, V> {
    Map::new(
        |key: Location| binds(entries, key),
        |key: Location| entries[index_of(entries, key)].value,
    )
}

impl<V> View for LocationMap<V> {
    type V = Map<Location, V>;

    closed spec fn view(&self) -> Map<Location, V> {
        bindings(self.entries@)
    }
}

impl<V> LocationMap<V> {
    #[verifier::type_invariant]
    spec fn well_formed(self) -> bool {
        distinct_keys(self.entries@)
    }

    /// The map that binds no location.
    pub fn new() -> (map: Self)
        ensures
            map@ == Map::<Location, V>::empty(),
    {
        let map = LocationMap { entries: Vec::new() };
        assert(map@ =~= Map::<Location, V>::empty());
        map
    }

    /// The index of the binding of `key`, if there is one.
    fn position(&self, key: &Location) -> (found: Option<usize>)
        ensures
            match found {
                Some(i) => i < self.entries@.len() && self.entries@[i as int].key == *key,
                None => !binds(self.entries@, *key),
            },
    {
        let mut i: usize = 0;
        while i < self.entries.len()
            invariant
                i <= self.entries@.len(),
                forall|j: int| 0 <= j < i ==> self.entries@[j].key != *key,
            decreases self.entries@.len() - i,
        {
            if self.entries[i].key.same(key) {
                return Some(i);
            }
            i += 1;
        }
        None
    }

    /// The value bound to `key`, if any.
    pub fn get(&self, key: &Location) -> (found: Option<&V>)
        ensures
            found.is_some() == self@.contains_key(*key),
            found matches Some(value) ==> *value == self@[*key],
    {
        proof {
            use_type_invariant(self);
        }
        match self.position(key) {
            Some(i) => {
                proof {
                    lemma_index_of(self.entries@, i as int);
                }
                Some(&self.entries[i].value)
            },
            None => None,
        }
    }

    /// Binds `key` to `value`, replacing an earlier binding of `key`.
    pub fn insert(&mut self, key: Location, value: V)
        ensures
            final(self)@ == old(self)@.insert(key, value),
    {
        proof {
            use_type_invariant(&*self);
        }
        let found = self.position(&key);
        let mut entries: Vec<Entry<V>> = Vec::new();
        std::mem::swap(&mut entries, &mut self.entries);
        let ghost before = entries@;
        match found {
            Some(i) => {
                entries[i].value = value;
                proof {
                    lemma_replace(before, i as int, value);
                }
            },
            None => {
                entries.push(Entry { key, value });
                proof {
                    lemma_append(before, key, value);
                }
            },
        }
        self.entries = entries;
    }

    /// Takes the binding of `key` out of the map and hands its value back.
    pub fn remove(&mut self, key: &Location) -> (taken: Option<V>)
        ensures
            final(self)@ == old(self)@.remove(*key),
            taken.is_some() == old(self)@.contains_key(*key),
            taken matches Some(value) ==> value == old(self)@[*key],
    {
        proof {
            use_type_invariant(&*self);
        }
        let found = self.position(key);
        let mut entries: Vec<Entry<V>> = Vec::new();
        std::mem::swap(&mut entries, &mut self.entries);
        let ghost before = entries@;
        let taken = match found {
            Some(i) => {
                proof {
                    lemma_index_of(before, i as int);
                    lemma_take(before, i as int);
                }
                let entry = entries.swap_remove(i);
                Some(entry.value)
            },
            None => {
                assert(bindings(before).remove(*key) =~= bindings(before));
                None
            },
        };
        self.entries = entries;
        taken
    }
}

impl<V: Clone> Clone for LocationMap<V> {
    /// A map with the same locations bound, each to a clone of its value.
    fn clone(&self) -> (copy: Self)
        ensures
            copy@.dom() == self@.dom(),
            forall|key: Location| #[trigger]
                copy@.contains_key(key) ==> cloned(self@[key], copy@[key]),
    {
        proof {
            use_type_invariant(self);
        }
        let mut entries: Vec<Entry<V>> = Vec::new();
        let mut i: usize = 0;
        while i < self.entries.len()
            invariant
                i <= self.entries@.len(),
                entries@.len() == i,
                forall|j: int|
                    0 <= j < i ==> (#[trigger] entries@[j]).key == self.entries@[j].key && cloned(
                        self.entries@[j].value,
                        entries@[j].value,
                    ),
            decreases self.entries@.len() - i,
        {
            let key = self.entries[i].key.clone();
            let value = self.entries[i].value.clone();
            entries.push(Entry { key, value });
            i += 1;
        }
        proof {
            lemma_same_keys(self.entries@, entries@);
        }
        LocationMap { entries }
    }
}

/// Two lists with the same keys at the same places bind the same locations,
/// each of them at the same place.
proof fn lemma_same_keys<V>(first: Seq<Entry<V>>, second: Seq<Entry<V>>)
    requires
        distinct_keys(first),
        first.len() == second.len(),
        forall|j: int| 0 <= j < first.len() ==> (#[trigger] second[j]).key == first[j].key,
    ensures
        distinct_keys(second),
        bindings(second).dom() == bindings(first).dom(),
        forall|key: Location| #[trigger]
            binds(second, key) ==> index_of(second, key) == index_of(first, key) && 0 <= index_of(
                first,
                key,
            ) < first.len(),
{
    assert forall|i: int, j: int| 0 <= i < j < second.len() implies second[i].key
        != second[j].key by {
        assert(second[i].key == first[i].key);
        assert(second[j].key == first[j].key);
    }
    assert forall|key: Location| #[trigger] binds(second, key) == binds(first, key) by {
        if binds(first, key) {
            let j = index_of(first, key);
            assert(second[j].key == key);
        }
        if binds(second, key) {
            let j = index_of(second, key);
            assert(first[j].key == key);
        }
    }
    assert forall|key: Location| #[trigger] binds(second, key) implies index_of(second, key)
        == index_of(first, key) && 0 <= index_of(first, key) < first.len() by {
        let j = index_of(second, key);
        assert(first[j].key == key);
        lemma_index_of(first, j);
    }
    assert(bindings(second).dom() =~= bindings(first).dom());
}

/// Where no location is bound twice, a location bound at `i` is looked up at `i`.
proof fn lemma_index_of<V>(entries: Seq<Entry<V>>, i: int)
    requires
        distinct_keys(entries),
        0 <= i < entries.len(),
    ensures
        binds(entries, entries[i].key),
        index_of(entries, entries[i].key) == i,
        bindings(entries).contains_key(entries[i].key),
        bindings(entries)[entries[i].key] == entries[i].value,
{
}

/// Replacing the value bound at `i` rebinds the key found there and nothing else.
proof fn lemma_replace<V>(entries: Seq<Entry<V>>, i: int, value: V)
    requires
        distinct_keys(entries),
        0 <= i < entries.len(),
    ensures
        distinct_keys(entries.update(i, Entry { key: entries[i].key, value })),
        bindings(entries.update(i, Entry { key: entries[i].key, value })) == bindings(
            entries,
        ).insert(entries[i].key, value),
{
    let key = entries[i].key;
    let after = entries.update(i, Entry { key, value });
    assert forall|k: Location| #[trigger] binds(after, k) == (binds(entries, k) || k == key) by {
        if binds(entries, k) {
            let j = index_of(entries, k);
            assert(after[j].key == k);
        }
        if binds(after, k) {
            let j = index_of(after, k);
            assert(entries[j].key == k);
        }
        if k == key {
            assert(after[i].key == k);
        }
    }
    assert forall|k: Location| #[trigger] binds(after, k) implies after[index_of(after, k)].value
        == (if k == key {
        value
    } else {
        entries[index_of(entries, k)].value
    }) by {
        let j = index_of(after, k);
        assert(entries[j].key == k);
        lemma_index_of(entries, j);
        lemma_index_of(after, j);
    }
    assert(bindings(after) =~= bindings(entries).insert(key, value));
}

/// Appending a binding of a location that is not bound yet binds it and nothing else.
proof fn lemma_append<V>(entries: Seq<Entry<V>>, key: Location, value: V)
    requires
        distinct_keys(entries),
        !binds(entries, key),
    ensures
        distinct_keys(entries.push(Entry { key, value })),
        bindings(entries.push(Entry { key, value })) == bindings(entries).insert(key, value),
{
    let after = entries.push(Entry { key, value });
    assert forall|i: int, j: int| 0 <= i < j < after.len() implies after[i].key
        != after[j].key by {
        if j == entries.len() && after[i].key == key {
            assert(entries[i].key == key);
        }
    }
    assert forall|k: Location| #[trigger] binds(after, k) == (binds(entries, k) || k == key) by {
        if binds(entries, k) {
            let j = index_of(entries, k);
            assert(after[j].key == k);
        }
        if binds(after, k) {
            let j = index_of(after, k);
            if j < entries.len() {
                assert(entries[j].key == k);
            }
        }
        if k == key {
            assert(after[entries.len() as int].key == k);
        }
    }
    assert forall|k: Location| #[trigger] binds(after, k) implies after[index_of(after, k)].value
        == (if k == key {
        value
    } else {
        entries[index_of(entries, k)].value
    }) by {
        let j = index_of(after, k);
        lemma_index_of(after, j);
        if j < entries.len() {
            assert(entries[j].key == k);
            lemma_index_of(entries, j);
        }
    }
    assert(bindings(after) =~= bindings(entries).insert(key, value));
}

/// Moving the last binding into the place of the one at `i` unbinds the key
/// found at `i` and nothing else.
proof fn lemma_take<V>(entries: Seq<Entry<V>>, i: int)
    requires
        distinct_keys(entries),
        0 <= i < entries.len(),
    ensures
        distinct_keys(entries.update(i, entries.last()).drop_last()),
        bindings(entries.update(i, entries.last()).drop_last()) == bindings(entries).remove(
            entries[i].key,
        ),
{
    let key = entries[i].key;
    let last = entries.len() - 1;
    let after = entries.update(i, entries.last()).drop_last();
    // Where each binding of `after` comes from.
    let origin = |j: int| if j == i { last } else { j };
    assert forall|j: int| 0 <= j < after.len() implies after[j] == entries[#[trigger] origin(j)]
        && origin(j) != i by {
    }
    assert forall|a: int, b: int| 0 <= a < b < after.len() implies after[a].key
        != after[b].key by {
        assert(after[a] == entries[origin(a)]);
        assert(after[b] == entries[origin(b)]);
    }
    assert forall|k: Location| #[trigger] binds(after, k) == (binds(entries, k) && k != key) by {
        if binds(entries, k) && k != key {
            let j = index_of(entries, k);
            if j == last {
                assert(after[i].key == k);
            } else {
                assert(after[j].key == k);
            }
        }
        if binds(after, k) {
            let j = index_of(after, k);
            assert(entries[origin(j)].key == k);
        }
    }
    assert forall|k: Location| #[trigger] binds(after, k) implies after[index_of(after, k)].value
        == entries[index_of(entries, k)].value by {
        let j = index_of(after, k);
        assert(after[j] == entries[origin(j)]);
        lemma_index_of(entries, origin(j));
    }
    assert(bindings(after) =~= bindings(entries).remove(key));
}

} // verus!
