//! A small map keyed by strings, for the declarative tables of a build.
//!
//! The entries are kept in the order in which their keys first came, and no
//! key occurs twice.

use vstd::prelude::*;

verus! {

/// A finite map from strings to values of type `V`.
pub struct StringMap<V> {
    entries: Vec<(String, V)>,
}

/// Whether some entry has the key `key`.
spec fn has_key<V>(entries: Seq<(String, V)>, key: Seq<char>) -> bool {
    exists|i: int| 0 <= i < entries.len() && (#[trigger] entries[i]).0@ == key
}

/// The index of an entry with the key `key`.
spec fn index_of_key<V>(entries: Seq<(String, V)>, key: Seq<char>) -> int {
    choose|i: int| 0 <= i < entries.len() && (#[trigger] entries[i]).0@ == key
}

/// Whether no two entries have the same key.
spec fn keys_distinct<V>(entries: Seq<(String, V)>) -> bool {
    forall|i: int, j: int|
        0 <= i < j < entries.len() ==> (#[trigger] entries[i]).0@ != (#[trigger] entries[j]).0@
}

/// The map that a sequence of entries with distinct keys stands for.
spec fn map_of<V>(entries: Seq<(String, V)>) -> Map<Seq<char>, V> {
    Map::new(
        |key: Seq<char>| has_key(entries, key),
        |key: Seq<char>| entries[index_of_key(entries, key)].1,
    )
}

proof fn lemma_entry_is_mapped<V>(entries: Seq<(String, V)>, i: int)
    requires
        keys_distinct(entries),
        0 <= i < entries.len(),
    ensures
        map_of(entries).dom().contains(entries[i].0@),
        map_of(entries)[entries[i].0@] == entries[i].1,
{
    let key = entries[i].0@;
    let j = index_of_key(entries, key);
    assert(0 <= j < entries.len() && entries[j].0@ == key);
    if j < i {
    } else if i < j {
    }
}

impl<V> View for StringMap<V> {
    type V = Map<Seq<char>, V>;

    closed spec fn view(&self) -> Map<Seq<char>, V> {
        map_of(self.entries@)
    }
}

impl<V> StringMap<V> {
    #[verifier::type_invariant]
    spec fn well_formed(&self) -> bool {
        keys_distinct(self.entries@)
    }

    /// The empty map.
    pub fn new() -> (table: Self)
        ensures
            table@ == Map::<Seq<char>, V>::empty(),
    {
        let table = StringMap { entries: Vec::new() };
        assert(table@ =~= Map::<Seq<char>, V>::empty());
        table
    }

    fn position(&self, key: &String) -> (r: Option<usize>)
        ensures
            r is Some <==> has_key(self.entries@, key@),
            r matches Some(i) ==> i < self.entries@.len() && self.entries@[i as int].0@ == key@,
    {
        let mut i: usize = 0;
        while i < self.entries.len()
            invariant
                i <= self.entries@.len(),
                forall|j: int| 0 <= j < i ==> (#[trigger] self.entries@[j]).0@ != key@,
            decreases self.entries@.len() - i,
        {
            if self.entries[i].0 == *key {
                return Some(i);
            }
            i += 1;
        }
        None
    }

    /// The map with `key` mapped to `value`, in place of what `key` was
    /// mapped to before, and with every other key as it was.
    pub fn insert(self, key: String, value: V) -> (table: Self)
        ensures
            table@ == self@.insert(key@, value),
    {
        proof {
            use_type_invariant(&self);
        }
        let ghost before = self.entries@;
        let ghost name = key@;
        let found = self.position(&key);
        let mut entries = self.entries;
        match found {
            Some(i) => {
                entries.set(i, (key, value));
                proof {
                    let after = entries@;
                    assert(keys_distinct(after)) by {
                        assert forall|a: int, b: int| 0 <= a < b < after.len() implies (
                        #[trigger] after[a]).0@ != (#[trigger] after[b]).0@ by {
                            assert(before[a].0@ != before[b].0@);
                        }
                    }
                    assert forall|k: Seq<char>| has_key(after, k) == (has_key(before, k) || k
                        == name) by {
                        if has_key(before, k) {
                            let j = index_of_key(before, k);
                            assert(after[j].0@ == k);
                        }
                        if k == name {
                            assert(after[i as int].0@ == k);
                        }
                        if has_key(after, k) {
                            let j = index_of_key(after, k);
                            assert(before[j].0@ == k);
                        }
                    }
                    assert forall|k: Seq<char>| has_key(after, k) implies #[trigger] map_of(
                        after,
                    )[k] == map_of(before).insert(name, value)[k] by {
                        let j = index_of_key(after, k);
                        lemma_entry_is_mapped(after, j);
                        if k != name {
                            assert(before[j] == after[j]);
                            lemma_entry_is_mapped(before, j);
                        } else {
                            if j != i {
                                if j < i {
                                    assert(after[j].0@ != after[i as int].0@);
                                } else {
                                    assert(after[i as int].0@ != after[j].0@);
                                }
                            }
                        }
                    }
                    assert(map_of(after) =~= map_of(before).insert(name, value));
                }
            },
            None => {
                entries.push((key, value));
                proof {
                    let after = entries@;
                    let last = before.len() as int;
                    assert(keys_distinct(after)) by {
                        assert forall|a: int, b: int| 0 <= a < b < after.len() implies (
                        #[trigger] after[a]).0@ != (#[trigger] after[b]).0@ by {
                            if b < last {
                                assert(before[a].0@ != before[b].0@);
                            } else {
                                assert(before[a].0@ != name);
                            }
                        }
                    }
                    assert forall|k: Seq<char>| has_key(after, k) == (has_key(before, k) || k
                        == name) by {
                        if has_key(before, k) {
                            let j = index_of_key(before, k);
                            assert(after[j].0@ == k);
                        }
                        if k == name {
                            assert(after[last].0@ == k);
                        }
                        if has_key(after, k) {
                            let j = index_of_key(after, k);
                            if j < last {
                                assert(before[j].0@ == k);
                            }
                        }
                    }
                    assert forall|k: Seq<char>| has_key(after, k) implies #[trigger] map_of(
                        after,
                    )[k] == map_of(before).insert(name, value)[k] by {
                        let j = index_of_key(after, k);
                        lemma_entry_is_mapped(after, j);
                        if j < last {
                            assert(before[j] == after[j]);
                            lemma_entry_is_mapped(before, j);
                        }
                    }
                    assert(map_of(after) =~= map_of(before).insert(name, value));
                }
            },
        }
        StringMap { entries }
    }

    /// Whether `key` is mapped to anything.
    pub fn contains_key(&self, key: &str) -> (found: bool)
        ensures
            found == self@.dom().contains(key@),
    {
        let key = String::from_str(key);
        self.position(&key).is_some()
    }

    /// What `key` is mapped to, if anything.
    pub fn get(&self, key: &str) -> (value: Option<&V>)
        ensures
            value is Some <==> self@.dom().contains(key@),
            value matches Some(v) ==> *v == self@[key@],
    {
        proof {
            use_type_invariant(self);
        }
        let key = String::from_str(key);
        match self.position(&key) {
            Some(i) => {
                proof {
                    lemma_entry_is_mapped(self.entries@, i as int);
                }
                Some(&self.entries[i].1)
            },
            None => None,
        }
    }
}

} // verus!
