//! Walking maps whose keys are identifiers.

use std::collections::HashMap;
use vstd::prelude::*;

verus! {

/// The keys of a map, in whatever order.
pub(crate) fn keys_of<V>(map: &HashMap<u128, V>) -> (r: Vec<u128>)
    ensures
        r@.no_duplicates(),
        r@.to_set() == map@.dom(),
        r@.len() == map@.dom().len(),
{
    let mut list: Vec<u128> = Vec::new();
    let ghost all: Seq<u128> = vstd::std_specs::iter::IteratorSpec::remaining(
        &vstd::std_specs::hash::spec_keys_iter(map),
    ).unref();
    for key in it: map.keys()
        invariant
            it.seq().unref() == all,
            list@ == all.take(it.index()),
    {
        list.push(*key);
        assert(all.take(it.index()).push(*key) =~= all.take(it.index() + 1));
    }
    assert(all.take(all.len() as int) =~= all);
    proof {
        let listed = vstd::std_specs::iter::IteratorSpec::remaining(
            &vstd::std_specs::hash::spec_keys_iter(map),
        );
        assert forall|i: int, j: int| 0 <= i < all.len() && 0 <= j < all.len() && i
            != j implies all[i] != all[j] by {
            assert(listed[i] != listed[j]);
        }
    }
    list
}

/// Tells whether some key of a map leads to `value`.
pub(crate) fn has_value(map: &HashMap<u128, u128>, value: u128) -> (r: bool)
    ensures
        r == exists|key: u128| #[trigger] map@.contains_key(key) && map@[key] == value,
{
    let keys: Vec<u128> = keys_of(map);
    let mut i: usize = 0;
    while i < keys.len()
        invariant
            i <= keys.len(),
            keys@.to_set() == map@.dom(),
            forall|j: int| 0 <= j < i ==> map@[#[trigger] keys@[j]] != value,
        decreases keys.len() - i,
    {
        assert(keys@.to_set().contains(keys@[i as int]));
        match map.get(&keys[i]) {
            Some(found) => {
                if *found == value {
                    assert(map@.contains_key(keys@[i as int]));
                    return true;
                }
            },
            None => {},
        }
        i = i + 1;
    }
    assert forall|key: u128| #[trigger] map@.contains_key(key) implies map@[key] != value by {
        assert(keys@.to_set().contains(key));
    }
    false
}

/// Tells whether some key of a map leads to something.
pub(crate) fn has_some<V>(map: &HashMap<u128, Option<V>>) -> (r: bool)
    ensures
        r == exists|key: u128| #[trigger] map@.contains_key(key) && map@[key] is Some,
{
    let keys: Vec<u128> = keys_of(map);
    let mut i: usize = 0;
    while i < keys.len()
        invariant
            i <= keys.len(),
            keys@.to_set() == map@.dom(),
            forall|j: int| 0 <= j < i ==> map@[#[trigger] keys@[j]] is None,
        decreases keys.len() - i,
    {
        assert(keys@.to_set().contains(keys@[i as int]));
        match map.get(&keys[i]) {
            Some(found) => {
                if found.is_some() {
                    assert(map@.contains_key(keys@[i as int]));
                    return true;
                }
            },
            None => {},
        }
        i = i + 1;
    }
    assert forall|key: u128| #[trigger] map@.contains_key(key) implies map@[key] is None by {
        assert(keys@.to_set().contains(key));
    }
    false
}

} // verus!
