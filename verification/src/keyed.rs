//! Sequences of records that are told apart by a textual key, and the map
//! from key to record that such a sequence stands for.

use vstd::prelude::*;

verus! {

/// A record with a textual key.
pub trait Keyed: Sized {
    spec fn key(self) -> Seq<char>;
}

/// The value of each element of a list.
pub open spec fn views<T: View>(list: Seq<T>) -> Seq<T::V> {
    list.map_values(|t: T| t@)
}

/// No two records of the sequence share a key.
pub open spec fn distinct_keys<V: Keyed>(items: Seq<V>) -> bool {
    forall|i: int, j: int|
        0 <= i < j < items.len() ==> (#[trigger] items[i]).key() != (#[trigger] items[j]).key()
}

/// Some record of the sequence has the key `k`.
pub open spec fn has_key<V: Keyed>(items: Seq<V>, k: Seq<char>) -> bool {
    exists|i: int| 0 <= i < items.len() && (#[trigger] items[i]).key() == k
}

/// A position at which the key `k` stands.
pub open spec fn index_of<V: Keyed>(items: Seq<V>, k: Seq<char>) -> int {
    choose|i: int| 0 <= i < items.len() && (#[trigger] items[i]).key() == k
}

/// The map from each key of the sequence to its record.
pub open spec fn as_map<V: Keyed>(items: Seq<V>) -> Map<Seq<char>, V> {
    Map::new(|k: Seq<char>| has_key(items, k), |k: Seq<char>| items[index_of(items, k)])
}

/// The listing holds each entry of the map once, and nothing else.
pub open spec fn lists_all<V: Keyed>(listing: Seq<V>, entries: Map<Seq<char>, V>) -> bool {
    distinct_keys(listing) && as_map(listing) == entries
}

/// The sequence with `record` where the record of its key stood, or at the
/// end where no record had that key.
pub open spec fn with_record<V: Keyed>(items: Seq<V>, record: V) -> Seq<V> {
    if has_key(items, record.key()) {
        items.update(index_of(items, record.key()), record)
    } else {
        items.push(record)
    }
}

/// The sequence without the record of key `k`, if it had one.
pub open spec fn without_key<V: Keyed>(items: Seq<V>, k: Seq<char>) -> Seq<V> {
    if has_key(items, k) {
        items.remove(index_of(items, k))
    } else {
        items
    }
}

/// `found` is the first of `items` that is `wanted`, or nothing where none
/// of them is.
pub open spec fn is_first<T: View>(
    items: Seq<T::V>,
    wanted: spec_fn(T::V) -> bool,
    found: Option<T>,
) -> bool {
    match found {
        Some(record) => exists|k: int|
            {
                &&& 0 <= k < items.len()
                &&& #[trigger] items[k] == record@
                &&& wanted(items[k])
                &&& forall|m: int| 0 <= m < k ==> !wanted(#[trigger] items[m])
            },
        None => forall|k: int| 0 <= k < items.len() ==> !wanted(#[trigger] items[k]),
    }
}

/// With distinct keys, the map holds each record under its own key.
pub proof fn lemma_record_at<V: Keyed>(items: Seq<V>, i: int)
    requires
        distinct_keys(items),
        0 <= i < items.len(),
    ensures
        has_key(items, items[i].key()),
        index_of(items, items[i].key()) == i,
        as_map(items).contains_key(items[i].key()),
        as_map(items)[items[i].key()] == items[i],
{
}

/// The empty sequence stands for the empty map.
pub proof fn lemma_empty<V: Keyed>()
    ensures
        distinct_keys(Seq::<V>::empty()),
        as_map(Seq::<V>::empty()) == Map::<Seq<char>, V>::empty(),
{
}

/// Appending a record with a new key inserts it.
pub proof fn lemma_push<V: Keyed>(items: Seq<V>, record: V)
    requires
        distinct_keys(items),
        !has_key(items, record.key()),
    ensures
        distinct_keys(items.push(record)),
        as_map(items.push(record)) == as_map(items).insert(record.key(), record),
{
    let longer = items.push(record);
    assert forall|k: Seq<char>| has_key(longer, k) <==> (k == record.key() || has_key(
        items,
        k,
    )) by {
        if k == record.key() {
            assert(longer[items.len() as int].key() == k);
        }
        if has_key(items, k) {
            assert(longer[index_of(items, k)].key() == k);
        }
    }
    assert forall|k: Seq<char>| has_key(longer, k) implies #[trigger] as_map(longer)[k] == as_map(
        items,
    ).insert(record.key(), record)[k] by {
        let i = index_of(longer, k);
        lemma_record_at(longer, i);
        if i < items.len() {
            lemma_record_at(items, i);
        }
    }
}

/// Replacing a record by one with the same key overwrites it.
pub proof fn lemma_update<V: Keyed>(items: Seq<V>, i: int, record: V)
    requires
        distinct_keys(items),
        0 <= i < items.len(),
        items[i].key() == record.key(),
    ensures
        distinct_keys(items.update(i, record)),
        as_map(items.update(i, record)) == as_map(items).insert(record.key(), record),
{
    let changed = items.update(i, record);
    assert forall|k: Seq<char>| has_key(changed, k) <==> has_key(items, k) by {
        if has_key(items, k) {
            assert(changed[index_of(items, k)].key() == k);
        }
    }
    lemma_record_at(items, i);
    assert forall|k: Seq<char>| has_key(changed, k) implies #[trigger] as_map(changed)[k]
        == as_map(items).insert(record.key(), record)[k] by {
        let j = index_of(changed, k);
        lemma_record_at(changed, j);
        lemma_record_at(items, j);
    }
}

/// Taking a record out removes its key.
pub proof fn lemma_remove<V: Keyed>(items: Seq<V>, i: int)
    requires
        distinct_keys(items),
        0 <= i < items.len(),
    ensures
        distinct_keys(items.remove(i)),
        as_map(items.remove(i)) == as_map(items).remove(items[i].key()),
{
    let shorter = items.remove(i);
    lemma_record_at(items, i);
    assert forall|k: Seq<char>| has_key(shorter, k) <==> (has_key(items, k) && k
        != items[i].key()) by {
        if has_key(shorter, k) {
            let j = index_of(shorter, k);
            lemma_record_at(items, if j < i { j } else { j + 1 });
        }
        if has_key(items, k) && k != items[i].key() {
            let j = index_of(items, k);
            assert(shorter[if j < i { j } else { j - 1 }].key() == k);
        }
    }
    assert forall|k: Seq<char>| has_key(shorter, k) implies #[trigger] as_map(shorter)[k]
        == as_map(items).remove(items[i].key())[k] by {
        let j = index_of(shorter, k);
        lemma_record_at(shorter, j);
        lemma_record_at(items, if j < i { j } else { j + 1 });
    }
}

/// Putting a record into the sequence inserts it into the map.
pub proof fn lemma_with_record<V: Keyed>(items: Seq<V>, record: V)
    requires
        distinct_keys(items),
    ensures
        distinct_keys(with_record(items, record)),
        as_map(with_record(items, record)) == as_map(items).insert(record.key(), record),
{
    if has_key(items, record.key()) {
        lemma_update(items, index_of(items, record.key()), record);
    } else {
        lemma_push(items, record);
    }
}

/// Taking a key out of the sequence removes it from the map.
pub proof fn lemma_without_key<V: Keyed>(items: Seq<V>, k: Seq<char>)
    requires
        distinct_keys(items),
    ensures
        distinct_keys(without_key(items, k)),
        as_map(without_key(items, k)) == as_map(items).remove(k),
{
    if has_key(items, k) {
        lemma_remove(items, index_of(items, k));
    }
}

/// A key that no record has is no key of the map.
pub proof fn lemma_absent<V: Keyed>(items: Seq<V>, k: Seq<char>)
    requires
        forall|i: int| 0 <= i < items.len() ==> (#[trigger] items[i]).key() != k,
    ensures
        !has_key(items, k),
        !as_map(items).contains_key(k),
        as_map(items).remove(k) == as_map(items),
{
}

/// Changing every record in a way that keeps its key changes every value of
/// the map in that way.
pub proof fn lemma_change_each<V: Keyed>(items: Seq<V>, changed: Seq<V>, change: spec_fn(V) -> V)
    requires
        distinct_keys(items),
        changed.len() == items.len(),
        forall|i: int| 0 <= i < items.len() ==> #[trigger] changed[i] == change(items[i]),
        forall|v: V| (#[trigger] change(v)).key() == v.key(),
    ensures
        distinct_keys(changed),
        as_map(changed) == as_map(items).map_values(change),
{
    assert forall|k: Seq<char>| has_key(changed, k) <==> has_key(items, k) by {
        if has_key(items, k) {
            assert(changed[index_of(items, k)].key() == k);
        }
    }
    assert forall|k: Seq<char>| has_key(changed, k) implies #[trigger] as_map(changed)[k]
        == as_map(items).map_values(change)[k] by {
        let j = index_of(changed, k);
        lemma_record_at(changed, j);
        lemma_record_at(items, j);
    }
}

} // verus!
