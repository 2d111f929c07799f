//! Lists of entries that are found by name.

use vstd::prelude::*;
use crate::text::str_eq;

verus! {

/// The position of the first occurrence of `name` at or after `start`.
pub open spec fn first_index_from(names: Seq<Seq<char>>, name: Seq<char>, start: int) -> Option<int>
    decreases names.len() - start,
{
    if start < 0 || start >= names.len() {
        None
    } else if names[start] == name {
        Some(start)
    } else {
        first_index_from(names, name, start + 1)
    }
}

/// The position of the first occurrence of `name`.
pub open spec fn first_index(names: Seq<Seq<char>>, name: Seq<char>) -> Option<int> {
    first_index_from(names, name, 0)
}

/// The names of a list of named entries.
pub open spec fn keys<V>(entries: Seq<(String, V)>) -> Seq<Seq<char>> {
    Seq::new(entries.len(), |i: int| entries[i].0@)
}

/// What `first_index_from` finds lies in range and holds the name, and no
/// position between `start` and it does; it finds nothing only where the
/// name does not occur from `start` on.
pub proof fn lemma_first_index_from(names: Seq<Seq<char>>, name: Seq<char>, start: int)
    requires
        0 <= start,
    ensures
        match first_index_from(names, name, start) {
            Some(i) => start <= i < names.len() && names[i] == name && forall|j: int|
                start <= j < i ==> names[j] != name,
            None => forall|j: int| start <= j < names.len() ==> names[j] != name,
        },
    decreases names.len() - start,
{
    if start < names.len() && names[start] != name {
        lemma_first_index_from(names, name, start + 1);
    }
}

/// Where no name occurs twice, each name is found at its own position.
pub proof fn lemma_first_index_unique(names: Seq<Seq<char>>, i: int)
    requires
        names.no_duplicates(),
        0 <= i < names.len(),
    ensures
        first_index(names, names[i]) == Some(i),
{
    lemma_first_index_from(names, names[i], 0);
}

/// The position of the first entry of that name.
pub fn find_entry<V>(entries: &Vec<(String, V)>, name: &str) -> (at: Option<usize>)
    ensures
        match first_index(keys(entries@), name@) {
            Some(i) => at.is_some() && at.unwrap() as int == i && i < entries@.len()
                && entries@[i].0@ == name@,
            None => at.is_none(),
        },
{
    let mut i: usize = 0;
    while i < entries.len()
        invariant
            i <= entries.len(),
            first_index(keys(entries@), name@) == first_index_from(keys(entries@), name@, i as int),
        decreases entries.len() - i,
    {
        if str_eq(entries[i].0.as_str(), name) {
            return Some(i);
        }
        i += 1;
    }
    None
}

} // verus!
