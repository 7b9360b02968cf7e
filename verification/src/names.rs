//! Finding a name in a list of names.

use vstd::prelude::*;

verus! {

/// The first index at or after `from` at which `names` holds `key`.
pub open spec fn first_of(names: Seq<Seq<char>>, key: Seq<char>, from: int) -> Option<int>
    decreases names.len() - from,
{
    if from < 0 || from >= names.len() {
        None
    } else if names[from] == key {
        Some(from)
    } else {
        first_of(names, key, from + 1)
    }
}

/// No name occurs twice.
pub open spec fn distinct(names: Seq<Seq<char>>) -> bool {
    forall|i: int, j: int| 0 <= i < j < names.len() ==> names[i] != names[j]
}

/// `first_of` finds the least index that holds the name, and finds none
/// exactly when no index at or after `from` holds it.
pub proof fn first_of_is_least(names: Seq<Seq<char>>, key: Seq<char>, from: int)
    requires
        0 <= from,
    ensures
        match first_of(names, key, from) {
            Some(i) => from <= i < names.len() && names[i] == key && forall|j: int|
                from <= j < i ==> names[j] != key,
            None => forall|j: int| from <= j < names.len() ==> names[j] != key,
        },
    decreases names.len() - from,
{
    if from < names.len() && names[from] != key {
        first_of_is_least(names, key, from + 1);
    }
}

/// A name is found exactly when the list contains it.
pub proof fn first_of_finds_contained(names: Seq<Seq<char>>, key: Seq<char>)
    ensures
        first_of(names, key, 0) is Some <==> names.contains(key),
{
    first_of_is_least(names, key, 0);
    if names.contains(key) {
        let i = choose|i: int| 0 <= i < names.len() && names[i] == key;
        assert(names[i] == key);
    }
}

/// In a list without repetition, a name is found at the one index that holds it.
pub proof fn first_of_in_distinct(names: Seq<Seq<char>>, key: Seq<char>, i: int)
    requires
        distinct(names),
        0 <= i < names.len(),
        names[i] == key,
    ensures
        first_of(names, key, 0) == Some(i),
{
    first_of_is_least(names, key, 0);
}

} // verus!
