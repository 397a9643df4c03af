//! An insertion-ordered collection of key/value pairs with unique keys.

use vstd::prelude::*;

use crate::value::{clone_entries, eq_entries, eq_values, pairs, total_pair_size, Tree, Value};

verus! {

/// An ordered collection of pairs whose keys are pairwise different.
#[derive(Debug)]
pub struct Mapping {
    entries: Vec<(Value, Value)>,
}

/// Whether no key occurs twice among `entries`.
pub open spec fn distinct_keys(entries: Seq<(Tree, Tree)>) -> bool {
    forall|i: int, j: int|
        0 <= i < j < entries.len() ==> (#[trigger] entries[i]).0 != (#[trigger] entries[j]).0
}

/// Whether `key` is the key of an entry.
pub open spec fn has_key(entries: Seq<(Tree, Tree)>, key: Tree) -> bool {
    exists|i: int| 0 <= i < entries.len() && (#[trigger] entries[i]).0 == key
}

/// The place of an entry whose key is `key`, where there is one.
pub open spec fn key_index(entries: Seq<(Tree, Tree)>, key: Tree) -> int {
    choose|i: int| 0 <= i < entries.len() && (#[trigger] entries[i]).0 == key
}

/// The entries after `key` was given `value`: the entry of an equal key
/// keeps its place and takes the new value, a new key goes to the end.
pub open spec fn inserted(entries: Seq<(Tree, Tree)>, key: Tree, value: Tree) -> Seq<(Tree, Tree)> {
    if has_key(entries, key) {
        entries.update(key_index(entries, key), (key, value))
    } else {
        entries.push((key, value))
    }
}

/// Giving a key a value neither duplicates a key nor loses one: the keys
/// stay pairwise different, the key has the value afterwards, and the number
/// of entries grows by one for a new key and not at all for an equal one.
pub proof fn lemma_inserted(entries: Seq<(Tree, Tree)>, key: Tree, value: Tree)
    requires
        distinct_keys(entries),
    ensures
        distinct_keys(inserted(entries, key, value)),
        has_key(inserted(entries, key, value), key),
        inserted(entries, key, value)[key_index(inserted(entries, key, value), key)].1 == value,
        inserted(entries, key, value).len() == if has_key(entries, key) {
            entries.len()
        } else {
            entries.len() + 1
        },
{
    let after = inserted(entries, key, value);
    if has_key(entries, key) {
        let at = key_index(entries, key);
        assert(after[at].0 == key);
    } else {
        assert(after[entries.len() as int].0 == key);
    }
    let found = key_index(after, key);
}

impl View for Mapping {
    type V = Seq<(Tree, Tree)>;

    closed spec fn view(&self) -> Seq<(Tree, Tree)>
        decreases self,
    {
        pairs(self.entries@)
    }
}

impl Mapping {
    /// No key occurs twice.
    #[verifier::type_invariant]
    pub open spec fn well_formed(self) -> bool {
        distinct_keys(self@)
    }

    /// An empty mapping.
    pub fn new() -> (r: Mapping)
        ensures
            r@ == Seq::<(Tree, Tree)>::empty(),
    {
        Mapping { entries: Vec::new() }
    }

    /// Gives `key` the value `value` and returns the value that it had.
    pub fn insert(&mut self, key: Value, value: Value) -> (r: Option<Value>)
        ensures
            final(self)@ == inserted(old(self)@, key@, value@),
            match r {
                Some(previous) => has_key(old(self)@, key@) && previous@ == old(self)@[key_index(
                    old(self)@,
                    key@,
                )].1,
                None => !has_key(old(self)@, key@),
            },
    {
        proof {
            use_type_invariant(&*self);
        }
        let mut entries: Vec<(Value, Value)> = Vec::new();
        std::mem::swap(&mut entries, &mut self.entries);
        let ghost before = pairs(entries@);
        let mut i: usize = 0;
        let mut found: Option<usize> = None;
        while i < entries.len()
            invariant_except_break
                found is None,
                forall|j: int| 0 <= j < i ==> (#[trigger] pairs(entries@)[j]).0 != key@,
            invariant
                0 <= i <= entries.len(),
            ensures
                match found {
                    Some(at) => at < entries.len() && pairs(entries@)[at as int].0 == key@,
                    None => forall|j: int|
                        0 <= j < entries.len() ==> (#[trigger] pairs(entries@)[j]).0 != key@,
                },
            decreases entries.len() - i,
        {
            if eq_values(&entries[i].0, &key) {
                found = Some(i);
                break;
            }
            i += 1;
        }
        let previous = match found {
            Some(at) => {
                entries.push((key, value));
                let (_, old_value) = entries.swap_remove(at);
                proof {
                    assert(pairs(entries@) =~= before.update(at as int, (key@, value@)));
                    assert(key_index(before, key@) == at);
                }
                Some(old_value)
            },
            None => {
                entries.push((key, value));
                proof {
                    assert(pairs(entries@) =~= before.push((key@, value@)));
                }
                None
            },
        };
        self.entries = entries;
        previous
    }

    /// Gives up the entries, in the order in which their keys were first
    /// inserted.
    pub fn into_entries(self) -> (r: Vec<(Value, Value)>)
        ensures
            pairs(r@) == self@,
    {
        self.entries
    }

    /// The entries, in the order in which their keys were first inserted.
    pub fn entries(&self) -> (r: &Vec<(Value, Value)>)
        ensures
            pairs(r@) == self@,
    {
        &self.entries
    }

    /// The number of entries.
    pub fn len(&self) -> (r: usize)
        ensures
            r == self@.len(),
    {
        self.entries.len()
    }
}

impl Clone for Mapping {
    /// An independent copy of all the entries.
    fn clone(&self) -> (r: Mapping)
        ensures
            r@ == self@,
        decreases total_pair_size(self@), 2int,
    {
        proof {
            use_type_invariant(self);
        }
        Mapping { entries: clone_entries(&self.entries) }
    }
}

impl PartialEq for Mapping {
    fn eq(&self, other: &Mapping) -> (r: bool) {
        eq_entries(&self.entries, &other.entries)
    }
}

impl vstd::std_specs::cmp::PartialEqSpecImpl for Mapping {
    open spec fn obeys_eq_spec() -> bool {
        true
    }

    open spec fn eq_spec(&self, other: &Mapping) -> bool {
        self@ == other@
    }
}

} // verus!
