//! Records kept in a vector, told apart by their identifiers: what the
//! stores in memory share.

use crate::keyed::{
    as_map, distinct_keys, lemma_absent, lemma_record_at, lemma_with_record, lemma_without_key,
    views, with_record, without_key, Keyed,
};
use vstd::prelude::*;

verus! {

/// A record that a store in memory can keep.
pub(crate) trait Stored: View + Sized where Self::V: Keyed {
    /// The identifier under which the record is kept.
    fn identifier(&self) -> (id: &String)
        ensures
            id@ == self@.key(),
    ;

    /// A copy of the record.
    fn duplicate(&self) -> (copy: Self)
        ensures
            copy@ == self@,
    ;
}

/// The position of the record called `id`, if there is one.
pub(crate) fn position<T: Stored>(records: &Vec<T>, id: &String) -> (found: Option<usize>) where
    T::V: Keyed,

    ensures
        match found {
            Some(i) => i < records@.len() && records@[i as int]@.key() == id@,
            None => forall|k: int| 0 <= k < records@.len() ==> records@[k]@.key() != id@,
        },
{
    let mut k: usize = 0;
    while k < records.len()
        invariant
            k <= records.len(),
            forall|m: int| 0 <= m < k ==> records@[m]@.key() != id@,
        decreases records.len() - k,
    {
        if *records[k].identifier() == *id {
            return Some(k);
        }
        k += 1;
    }
    None
}

/// Puts a copy of `record` where the record of its identifier stands, or at
/// the end.
pub(crate) fn save_record<T: Stored>(records: &mut Vec<T>, record: &T) where T::V: Keyed
    requires
        distinct_keys(views(old(records)@)),
    ensures
        distinct_keys(views(final(records)@)),
        views(final(records)@) == with_record(views(old(records)@), record@),
{
    let ghost before = views(records@);
    let copy = record.duplicate();
    proof {
        lemma_with_record(before, record@);
    }
    match position(records, record.identifier()) {
        Some(i) => {
            proof {
                lemma_record_at(before, i as int);
                assert(views(records@.update(i as int, copy)) =~= before.update(i as int, record@));
            }
            records[i] = copy;
        },
        None => {
            proof {
                lemma_absent(before, record@.key());
                assert(views(records@.push(copy)) =~= before.push(record@));
            }
            records.push(copy);
        },
    }
}

/// A copy of the record called `id`, if there is one.
pub(crate) fn find_record<T: Stored>(records: &Vec<T>, id: &str) -> (found: Option<T>) where
    T::V: Keyed,

    requires
        distinct_keys(views(records@)),
    ensures
        match found {
            Some(record) => as_map(views(records@)).contains_key(id@) && as_map(
                views(records@),
            )[id@] == record@,
            None => !as_map(views(records@)).contains_key(id@),
        },
{
    let wanted = String::from_str(id);
    match position(records, &wanted) {
        Some(i) => {
            proof {
                lemma_record_at(views(records@), i as int);
            }
            Some(records[i].duplicate())
        },
        None => {
            proof {
                lemma_absent(views(records@), id@);
            }
            None
        },
    }
}

/// A copy of every record, in the order in which they are kept.
pub(crate) fn duplicate_all<T: Stored>(records: &Vec<T>) -> (copies: Vec<T>) where T::V: Keyed
    ensures
        views(copies@) == views(records@),
{
    let mut copies: Vec<T> = Vec::new();
    let mut k: usize = 0;
    while k < records.len()
        invariant
            k <= records.len(),
            copies@.len() == k,
            forall|m: int| 0 <= m < k ==> copies@[m]@ == records@[m]@,
        decreases records.len() - k,
    {
        copies.push(records[k].duplicate());
        k += 1;
    }
    copies
}

/// Takes out the record called `id`, if there is one.
pub(crate) fn delete_record<T: Stored>(records: &mut Vec<T>, id: &str) where T::V: Keyed
    requires
        distinct_keys(views(old(records)@)),
    ensures
        distinct_keys(views(final(records)@)),
        views(final(records)@) == without_key(views(old(records)@), id@),
{
    let ghost before = views(records@);
    let wanted = String::from_str(id);
    proof {
        lemma_without_key(before, id@);
    }
    match position(records, &wanted) {
        Some(i) => {
            proof {
                lemma_record_at(before, i as int);
                assert(views(records@.remove(i as int)) =~= before.remove(i as int));
            }
            let _ = records.remove(i);
        },
        None => {
            proof {
                lemma_absent(before, id@);
            }
        },
    }
}

} // verus!
