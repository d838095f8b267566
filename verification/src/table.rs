//! A table from texts to values, in which no key occurs twice.

use vstd::prelude::*;

use crate::text::same_text;

verus! {

/// A table from texts to values.
pub struct Table<V> {
    entries: Vec<(String, V)>,
}

/// That no key occurs twice.
pub open spec fn distinct_keys<V>(entries: Seq<(String, V)>) -> bool {
    forall|i: int, j: int|
        0 <= i < j < entries.len() ==> (#[trigger] entries[i]).0@ != (#[trigger] entries[j]).0@
}

/// That an entry with a key stands at an index.
pub open spec fn holds_at<V>(entries: Seq<(String, V)>, key: Seq<char>, i: int) -> bool {
    0 <= i < entries.len() && entries[i].0@ == key
}

/// The table that some entries make up.
pub open spec fn entries_map<V>(entries: Seq<(String, V)>) -> Map<Seq<char>, V> {
    Map::new(
        |key: Seq<char>| exists|i: int| holds_at(entries, key, i),
        |key: Seq<char>| entries[choose|i: int| holds_at(entries, key, i)].1,
    )
}

/// A table of strings as a table of their characters.
pub open spec fn text_map(table: Map<Seq<char>, String>) -> Map<Seq<char>, Seq<char>> {
    Map::new(|key: Seq<char>| table.contains_key(key), |key: Seq<char>| table[key]@)
}

/// The value under a key, where there is one.
pub open spec fn at<V>(table: Map<Seq<char>, V>, key: Seq<char>) -> Option<V> {
    if table.contains_key(key) {
        Some(table[key])
    } else {
        None
    }
}

/// What an entry says of the table.
proof fn entry_is_held<V>(entries: Seq<(String, V)>, i: int)
    requires
        distinct_keys(entries),
        0 <= i < entries.len(),
    ensures
        entries_map(entries).contains_key(entries[i].0@),
        entries_map(entries)[entries[i].0@] == entries[i].1,
{
    let key = entries[i].0@;
    assert(holds_at(entries, key, i));
    let j = choose|j: int| holds_at(entries, key, j);
    assert(holds_at(entries, key, j));
    assert(i == j) by {
        if i < j {
            assert(entries[i].0@ != entries[j].0@);
        } else if j < i {
            assert(entries[j].0@ != entries[i].0@);
        }
    }
}

/// Finds the entry with a key.
fn find_entry<V>(entries: &Vec<(String, V)>, key: &str) -> (found: Option<usize>)
    ensures
        match found {
            Some(i) => holds_at(entries@, key@, i as int),
            None => forall|i: int| !#[trigger] holds_at(entries@, key@, i),
        },
{
    let mut i: usize = 0;
    while i < entries.len()
        invariant
            i <= entries@.len(),
            forall|j: int| 0 <= j < i ==> !#[trigger] holds_at(entries@, key@, j),
        decreases entries@.len() - i,
    {
        if same_text(entries[i].0.as_str(), key) {
            return Some(i);
        }
        i = i + 1;
    }
    None
}

/// Takes the entry with a key out.
fn take_entry<V>(entries: &mut Vec<(String, V)>, key: &str) -> (taken: Option<V>)
    requires
        distinct_keys(old(entries)@),
    ensures
        distinct_keys(final(entries)@),
        entries_map(final(entries)@) == entries_map(old(entries)@).remove(key@),
        match taken {
            Some(value) => entries_map(old(entries)@).contains_key(key@) && entries_map(
                old(entries)@,
            )[key@] == value,
            None => !entries_map(old(entries)@).contains_key(key@),
        },
{
    let ghost before = entries@;
    match find_entry(entries, key) {
        Some(i) => {
            let (_, value) = entries.remove(i);
            let ghost after = entries@;
            proof {
                entry_is_held(before, i as int);
                assert(after == before.remove(i as int));
                assert forall|a: int, b: int| 0 <= a < b < after.len() implies (
                #[trigger] after[a]).0@ != (#[trigger] after[b]).0@ by {
                    let c = if a < i {
                        a
                    } else {
                        a + 1
                    };
                    let d = if b < i {
                        b
                    } else {
                        b + 1
                    };
                    assert(after[a] == before[c] && after[b] == before[d]);
                }
                removed_entry(before, i as int);
            }
            Some(value)
        },
        None => {
            assert(entries_map(before) =~= entries_map(before).remove(key@));
            None
        },
    }
}

/// What the table is after an entry was taken out.
proof fn removed_entry<V>(before: Seq<(String, V)>, i: int)
    requires
        distinct_keys(before),
        0 <= i < before.len(),
        distinct_keys(before.remove(i)),
    ensures
        entries_map(before.remove(i)) == entries_map(before).remove(before[i].0@),
{
    let after = before.remove(i);
    let key = before[i].0@;
    assert forall|k: Seq<char>|
        entries_map(after).contains_key(k) == entries_map(before).remove(key).contains_key(k) by {
        if entries_map(after).contains_key(k) {
            let a = choose|a: int| holds_at(after, k, a);
            assert(holds_at(after, k, a));
            let c = if a < i {
                a
            } else {
                a + 1
            };
            assert(after[a] == before[c]);
            assert(holds_at(before, k, c));
            if k == key {
                if c < i {
                    assert(before[c].0@ != before[i].0@);
                } else {
                    assert(before[i].0@ != before[c].0@);
                }
            }
        }
        if entries_map(before).remove(key).contains_key(k) {
            let c = choose|c: int| holds_at(before, k, c);
            assert(holds_at(before, k, c));
            let a = if c < i {
                c
            } else {
                c - 1
            };
            assert(after[a] == before[c]);
            assert(holds_at(after, k, a));
        }
    }
    assert forall|k: Seq<char>| #[trigger] entries_map(after).contains_key(k) implies entries_map(
        after,
    )[k] == entries_map(before)[k] by {
        let a = choose|a: int| holds_at(after, k, a);
        assert(holds_at(after, k, a));
        let c = if a < i {
            a
        } else {
            a + 1
        };
        assert(after[a] == before[c]);
        entry_is_held(after, a);
        entry_is_held(before, c);
    }
    assert(entries_map(after) =~= entries_map(before).remove(key));
}

/// What the table is after an entry with a new key was added.
proof fn added_entry<V>(before: Seq<(String, V)>, entry: (String, V))
    requires
        distinct_keys(before),
        !entries_map(before).contains_key(entry.0@),
    ensures
        distinct_keys(before.push(entry)),
        entries_map(before.push(entry)) == entries_map(before).insert(entry.0@, entry.1),
{
    let after = before.push(entry);
    let key = entry.0@;
    assert forall|a: int, b: int| 0 <= a < b < after.len() implies (#[trigger] after[a]).0@ != (
    #[trigger] after[b]).0@ by {
        if b == before.len() {
            assert(after[a] == before[a]);
            if before[a].0@ == key {
                assert(holds_at(before, key, a));
            }
        } else {
            assert(after[a] == before[a] && after[b] == before[b]);
        }
    }
    assert forall|k: Seq<char>|
        entries_map(after).contains_key(k) == entries_map(before).insert(key, entry.1).contains_key(
            k,
        ) by {
        if entries_map(after).contains_key(k) {
            let a = choose|a: int| holds_at(after, k, a);
            assert(holds_at(after, k, a));
            if a < before.len() {
                assert(holds_at(before, k, a));
            }
        }
        if k == key {
            assert(holds_at(after, k, before.len() as int));
        } else if entries_map(before).contains_key(k) {
            let c = choose|c: int| holds_at(before, k, c);
            assert(holds_at(before, k, c));
            assert(holds_at(after, k, c));
        }
    }
    assert forall|k: Seq<char>| #[trigger] entries_map(after).contains_key(k) implies entries_map(
        after,
    )[k] == entries_map(before).insert(key, entry.1)[k] by {
        let a = choose|a: int| holds_at(after, k, a);
        assert(holds_at(after, k, a));
        entry_is_held(after, a);
        if a < before.len() {
            entry_is_held(before, a);
            assert(after[a] == before[a]);
            if k == key {
                assert(holds_at(before, key, a));
            }
        }
    }
    assert(entries_map(after) =~= entries_map(before).insert(key, entry.1));
}

impl<V> View for Table<V> {
    type V = Map<Seq<char>, V>;

    closed spec fn view(&self) -> Map<Seq<char>, V> {
        entries_map(self.entries@)
    }
}

impl<V> Table<V> {
    #[verifier::type_invariant]
    spec fn keys_are_distinct(self) -> bool {
        distinct_keys(self.entries@)
    }

    /// An empty table.
    pub fn new() -> (table: Table<V>)
        ensures
            table@ == Map::<Seq<char>, V>::empty(),
    {
        let table = Table { entries: Vec::new() };
        assert(table@ =~= Map::<Seq<char>, V>::empty()) by {
            assert forall|k: Seq<char>| !table@.contains_key(k) by {
                if table@.contains_key(k) {
                    let i = choose|i: int| holds_at(table.entries@, k, i);
                    assert(holds_at(table.entries@, k, i));
                }
            }
        }
        table
    }

    /// The value under a key.
    pub fn get(&self, key: &str) -> (value: Option<&V>)
        ensures
            match value {
                Some(value) => self@.contains_key(key@) && self@[key@] == *value,
                None => !self@.contains_key(key@),
            },
    {
        proof {
            use_type_invariant(self);
        }
        match find_entry(&self.entries, key) {
            Some(i) => {
                proof {
                    entry_is_held(self.entries@, i as int);
                }
                Some(&self.entries[i].1)
            },
            None => None,
        }
    }

    /// Puts a value in, in place of the one under its key.
    pub fn insert(&mut self, key: &str, value: V)
        ensures
            final(self)@ == old(self)@.insert(key@, value),
    {
        proof {
            use_type_invariant(&*self);
        }
        let ghost before = self@;
        let mut entries: Vec<(String, V)> = Vec::new();
        std::mem::swap(&mut entries, &mut self.entries);
        let _replaced = take_entry(&mut entries, key);
        let entry = (key.to_owned(), value);
        proof {
            added_entry(entries@, entry);
        }
        entries.push(entry);
        self.entries = entries;
        assert(self@ =~= before.insert(key@, value));
    }

    /// Takes the value under a key out.
    pub fn remove(&mut self, key: &str) -> (value: Option<V>)
        ensures
            final(self)@ == old(self)@.remove(key@),
            match value {
                Some(value) => old(self)@.contains_key(key@) && old(self)@[key@] == value,
                None => !old(self)@.contains_key(key@),
            },
    {
        proof {
            use_type_invariant(&*self);
        }
        let mut entries: Vec<(String, V)> = Vec::new();
        std::mem::swap(&mut entries, &mut self.entries);
        let value = take_entry(&mut entries, key);
        self.entries = entries;
        value
    }

    /// Takes everything out.
    pub fn drain(&mut self) -> (entries: Vec<(String, V)>)
        ensures
            final(self)@ == Map::<Seq<char>, V>::empty(),
            distinct_keys(entries@),
            entries_map(entries@) == old(self)@,
    {
        proof {
            use_type_invariant(&*self);
        }
        let mut entries: Vec<(String, V)> = Vec::new();
        std::mem::swap(&mut entries, &mut self.entries);
        assert(self@ =~= Map::<Seq<char>, V>::empty()) by {
            assert forall|k: Seq<char>| !self@.contains_key(k) by {
                if self@.contains_key(k) {
                    let i = choose|i: int| holds_at(self.entries@, k, i);
                    assert(holds_at(self.entries@, k, i));
                }
            }
        }
        entries
    }
}

} // verus!
