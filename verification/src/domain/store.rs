//! What any store of records does, the records told apart by their
//! identifiers.
//!
//! A store is dependable when it refuses an operation only for the reason
//! that the operation's contract names. The stores in memory are. One that
//! keeps its records elsewhere may fail for reasons of its own; for such a
//! store the contracts say what holds whether it failed or not.

use crate::keyed::{lists_all, views, Keyed};
use vstd::prelude::*;

verus! {

/// What saving `record` may do. The record is inserted under its
/// identifier, in place of an earlier one of that identifier; nothing in it
/// is checked. A store that is not dependable may refuse, and then holds
/// what it held.
pub open spec fn save_outcome<V: Keyed>(
    dependable: bool,
    before: Map<Seq<char>, V>,
    after: Map<Seq<char>, V>,
    record: V,
    saved: Result<(), String>,
) -> bool {
    match saved {
        Ok(_) => after == before.insert(record.key(), record),
        Err(_) => !dependable && after == before,
    }
}

/// What looking up `id` may return: the record of that identifier, or
/// nothing where the store holds none.
pub open spec fn find_outcome<T: View>(
    dependable: bool,
    held: Map<Seq<char>, T::V>,
    id: Seq<char>,
    found: Result<Option<T>, String>,
) -> bool {
    match found {
        Ok(Some(record)) => held.contains_key(id) && held[id] == record@,
        Ok(None) => !held.contains_key(id),
        Err(_) => !dependable,
    }
}

/// What listing may return: every record once, in any order.
pub open spec fn list_outcome<T: View>(
    dependable: bool,
    held: Map<Seq<char>, T::V>,
    found: Result<Vec<T>, String>,
) -> bool where T::V: Keyed {
    match found {
        Ok(list) => lists_all(views(list@), held),
        Err(_) => !dependable,
    }
}

/// What deleting `id` may do: the record is gone, and it is no error if
/// there was none.
pub open spec fn delete_outcome<V>(
    dependable: bool,
    before: Map<Seq<char>, V>,
    after: Map<Seq<char>, V>,
    id: Seq<char>,
    done: Result<(), String>,
) -> bool {
    match done {
        Ok(_) => after == before.remove(id),
        Err(_) => !dependable && after == before,
    }
}

} // verus!
