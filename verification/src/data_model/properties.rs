//! A small string-to-string property map with last-write-wins updates and a
//! `Map` view. Entries keep their insertion order; a repeated key overwrites
//! the value in place.

use super::data_model_utilities::str_eq;
use vstd::prelude::*;

verus! {

/// The map denoted by a sequence of key/value entries, later entries winning.
pub open spec fn map_of_entries(entries: Seq<(String, String)>) -> Map<Seq<char>, Seq<char>>
    decreases entries.len(),
{
    if entries.len() == 0 {
        Map::empty()
    } else {
        map_of_entries(entries.drop_last()).insert(entries.last().0@, entries.last().1@)
    }
}

/// No two entries share a key.
pub open spec fn entry_keys_distinct(entries: Seq<(String, String)>) -> bool {
    forall|i: int, j: int| 0 <= i < j < entries.len() ==> entries[i].0@ != entries[j].0@
}

proof fn lemma_map_of_entry(entries: Seq<(String, String)>, i: int)
    requires
        entry_keys_distinct(entries),
        0 <= i < entries.len(),
    ensures
        map_of_entries(entries).contains_key(entries[i].0@),
        map_of_entries(entries)[entries[i].0@] == entries[i].1@,
    decreases entries.len(),
{
    if i < entries.len() - 1 {
        assert(entry_keys_distinct(entries.drop_last()));
        lemma_map_of_entry(entries.drop_last(), i);
    }
}

proof fn lemma_map_of_absent(entries: Seq<(String, String)>, key: Seq<char>)
    requires
        forall|i: int| 0 <= i < entries.len() ==> entries[i].0@ != key,
    ensures
        !map_of_entries(entries).contains_key(key),
    decreases entries.len(),
{
    if entries.len() > 0 {
        lemma_map_of_absent(entries.drop_last(), key);
    }
}

proof fn lemma_map_of_update(entries: Seq<(String, String)>, i: int, key: String, value: String)
    requires
        entry_keys_distinct(entries),
        0 <= i < entries.len(),
        entries[i].0@ == key@,
    ensures
        map_of_entries(entries.update(i, (key, value))) == map_of_entries(entries).insert(
            key@,
            value@,
        ),
    decreases entries.len(),
{
    let updated = entries.update(i, (key, value));
    if i == entries.len() - 1 {
        assert(updated.drop_last() =~= entries.drop_last());
        assert(map_of_entries(updated) =~= map_of_entries(entries).insert(key@, value@));
    } else {
        assert(updated.drop_last() =~= entries.drop_last().update(i, (key, value)));
        assert(entry_keys_distinct(entries.drop_last()));
        lemma_map_of_update(entries.drop_last(), i, key, value);
        assert(entries.last().0@ != key@);
        assert(map_of_entries(updated) =~= map_of_entries(entries).insert(key@, value@));
    }
}

/// A property mapping: string keys to string values, insertion-ordered, with
/// last-write-wins semantics on a repeated key.
#[derive(Debug)]
pub struct Properties {
    entries: Vec<(String, String)>,
}

impl View for Properties {
    type V = Map<Seq<char>, Seq<char>>;

    closed spec fn view(&self) -> Map<Seq<char>, Seq<char>> {
        map_of_entries(self.entries@)
    }
}

impl Properties {
    #[verifier::type_invariant]
    spec fn keys_distinct(self) -> bool {
        entry_keys_distinct(self.entries@)
    }

    /// An empty property mapping.
    pub fn new() -> (r: Properties)
        ensures
            r@ == Map::<Seq<char>, Seq<char>>::empty(),
    {
        Properties { entries: Vec::new() }
    }

    /// Sets `key` to `value`; an earlier value under the same key is
    /// overwritten.
    pub fn set(&mut self, key: String, value: String)
        ensures
            final(self)@ == old(self)@.insert(key@, value@),
    {
        proof {
            use_type_invariant(&*self);
        }
        let mut entries: Vec<(String, String)> = Vec::new();
        core::mem::swap(&mut entries, &mut self.entries);
        let n = entries.len();
        let mut i: usize = 0;
        while i < n
            invariant
                0 <= i <= n,
                n == entries@.len(),
                entry_keys_distinct(entries@),
                entries@ == old(self).entries@,
                forall|j: int| 0 <= j < i ==> entries@[j].0@ != key@,
            decreases n - i,
        {
            if str_eq(entries[i].0.as_str(), key.as_str()) {
                proof {
                    lemma_map_of_update(entries@, i as int, key, value);
                }
                entries.set(i, (key, value));
                self.entries = entries;
                return ;
            }
            i += 1;
        }
        proof {
            lemma_map_of_absent(entries@, key@);
        }
        entries.push((key, value));
        proof {
            assert(entries@.drop_last() =~= old(self).entries@);
        }
        self.entries = entries;
    }

    /// Looks `key` up.
    pub fn get(&self, key: &str) -> (r: Option<&String>)
        ensures
            match r {
                Some(value) => self@.contains_key(key@) && value@ == self@[key@],
                None => !self@.contains_key(key@),
            },
    {
        proof {
            use_type_invariant(self);
        }
        let n = self.entries.len();
        let mut i: usize = 0;
        while i < n
            invariant
                0 <= i <= n,
                n == self.entries@.len(),
                entry_keys_distinct(self.entries@),
                forall|j: int| 0 <= j < i ==> self.entries@[j].0@ != key@,
        decreases n - i,
        {
            if str_eq(self.entries[i].0.as_str(), key) {
                proof {
                    lemma_map_of_entry(self.entries@, i as int);
                }
                return Some(&self.entries[i].1);
            }
            i += 1;
        }
        proof {
            lemma_map_of_absent(self.entries@, key@);
        }
        None
    }

    /// The number of keys.
    pub fn len(&self) -> (r: usize)
        ensures
            r == self@.dom().len(),
    {
        proof {
            use_type_invariant(self);
            lemma_map_of_len(self.entries@);
        }
        self.entries.len()
    }
}

proof fn lemma_map_of_len(entries: Seq<(String, String)>)
    requires
        entry_keys_distinct(entries),
    ensures
        map_of_entries(entries).dom().len() == entries.len(),
        map_of_entries(entries).dom().finite(),
    decreases entries.len(),
{
    if entries.len() > 0 {
        assert(entry_keys_distinct(entries.drop_last()));
        lemma_map_of_len(entries.drop_last());
        lemma_map_of_absent(entries.drop_last(), entries.last().0@);
    }
}

} // verus!
