//! Taking the extreme entries out of an ordered map.
use crate::command::PageNumber;
use std::collections::BTreeMap;
use vstd::prelude::*;

verus! {

/// `key` is in `keys` and no member of `keys` is below it.
pub open spec fn is_lowest(keys: Set<PageNumber>, key: PageNumber) -> bool {
    keys.contains(key) && forall|other: PageNumber| keys.contains(other) ==> key <= other
}

/// `key` is in `keys` and no member of `keys` is above it.
pub open spec fn is_highest(keys: Set<PageNumber>, key: PageNumber) -> bool {
    keys.contains(key) && forall|other: PageNumber| keys.contains(other) ==> other <= key
}

/// Calls [`BTreeMap::pop_first`]. Its contract is taken on trust from the
/// standard library's documentation: the entry with the minimum key leaves
/// the map and is returned; an empty map stays as it is and gives `None`.
#[verifier::external_body]
pub(crate) fn pop_first<V>(map: &mut BTreeMap<PageNumber, V>) -> (popped: Option<(PageNumber, V)>)
    ensures
        match popped {
            Some((key, value)) => {
                &&& is_lowest(old(map)@.dom(), key)
                &&& value == old(map)@[key]
                &&& final(map)@ == old(map)@.remove(key)
            },
            None => old(map)@.len() == 0 && final(map)@ == old(map)@,
        },
{
    map.pop_first()
}

/// Calls [`BTreeMap::pop_last`]. Its contract is taken on trust from the
/// standard library's documentation: the entry with the maximum key leaves
/// the map and is returned; an empty map stays as it is and gives `None`.
#[verifier::external_body]
pub(crate) fn pop_last<V>(map: &mut BTreeMap<PageNumber, V>) -> (popped: Option<(PageNumber, V)>)
    ensures
        match popped {
            Some((key, value)) => {
                &&& is_highest(old(map)@.dom(), key)
                &&& value == old(map)@[key]
                &&& final(map)@ == old(map)@.remove(key)
            },
            None => old(map)@.len() == 0 && final(map)@ == old(map)@,
        },
{
    map.pop_last()
}

} // verus!
