//! Association lists read as maps.
//!
//! The credential store keeps its rows in vectors; their contracts speak of
//! the `Map` each vector denotes. This module defines that denotation and
//! proves the two facts the store needs: a key is in the map exactly when
//! some entry carries it, and in a duplicate-free list the map agrees with
//! each entry.

use vstd::prelude::*;

verus! {

/// The map an association list denotes; a later entry shadows an earlier
/// one with the same key.
pub open spec fn map_of<K, V>(entries: Seq<(K, V)>) -> Map<K, V>
    decreases entries.len(),
{
    if entries.len() == 0 {
        Map::empty()
    } else {
        map_of(entries.drop_last()).insert(entries.last().0, entries.last().1)
    }
}

/// No two entries share a key.
pub open spec fn distinct_keys<K, V>(entries: Seq<(K, V)>) -> bool {
    forall|i: int, j: int| 0 <= i < j < entries.len() ==> entries[i].0 != entries[j].0
}

/// A key is in the denoted map exactly when some entry carries it.
pub proof fn lemma_map_of_domain<K, V>(entries: Seq<(K, V)>, key: K)
    ensures
        map_of(entries).contains_key(key) <==> exists|i: int|
            0 <= i < entries.len() && entries[i].0 == key,
    decreases entries.len(),
{
    if entries.len() > 0 {
        let prefix = entries.drop_last();
        lemma_map_of_domain(prefix, key);
        let last: int = entries.len() - 1;
        if entries[last].0 == key {
            assert(entries[last].0 == key);
        } else if map_of(entries).contains_key(key) {
            let i = choose|i: int| 0 <= i < prefix.len() && prefix[i].0 == key;
            assert(entries[i].0 == key);
        } else if exists|i: int| 0 <= i < entries.len() && entries[i].0 == key {
            let i = choose|i: int| 0 <= i < entries.len() && entries[i].0 == key;
            assert(prefix[i].0 == key);
        }
    }
}

/// In a duplicate-free list, the denoted map agrees with every entry.
pub proof fn lemma_map_of_entry<K, V>(entries: Seq<(K, V)>, i: int)
    requires
        distinct_keys(entries),
        0 <= i < entries.len(),
    ensures
        map_of(entries).contains_key(entries[i].0),
        map_of(entries)[entries[i].0] == entries[i].1,
    decreases entries.len(),
{
    let last: int = entries.len() - 1;
    if i < last {
        let prefix = entries.drop_last();
        assert(distinct_keys(prefix)) by {
            assert(forall|p: int, q: int|
                0 <= p < q < prefix.len() ==> entries[p].0 != entries[q].0);
        }
        lemma_map_of_entry(prefix, i);
        assert(entries[last].0 != entries[i].0);
    }
}

/// A key no entry carries is outside the denoted map.
pub proof fn lemma_map_of_absent<K, V>(entries: Seq<(K, V)>, key: K)
    requires
        forall|i: int| 0 <= i < entries.len() ==> entries[i].0 != key,
    ensures
        !map_of(entries).contains_key(key),
{
    lemma_map_of_domain(entries, key);
}

/// Appending an entry inserts its binding into the denoted map.
pub proof fn lemma_map_of_push<K, V>(entries: Seq<(K, V)>, key: K, value: V)
    ensures
        map_of(entries.push((key, value))) == map_of(entries).insert(key, value),
{
    assert(entries.push((key, value)).drop_last() =~= entries);
}

/// Replacing the value of one entry of a duplicate-free list updates its
/// binding in the denoted map.
pub proof fn lemma_map_of_update<K, V>(entries: Seq<(K, V)>, j: int, value: V)
    requires
        distinct_keys(entries),
        0 <= j < entries.len(),
    ensures
        map_of(entries.update(j, (entries[j].0, value)))
            == map_of(entries).insert(entries[j].0, value),
    decreases entries.len(),
{
    let key = entries[j].0;
    let updated = entries.update(j, (key, value));
    let last: int = entries.len() - 1;
    if j == last {
        assert(updated.drop_last() =~= entries.drop_last());
        assert(map_of(entries.drop_last()).insert(key, value)
            =~= map_of(entries.drop_last()).insert(key, entries[j].1).insert(key, value));
    } else {
        let prefix = entries.drop_last();
        assert(distinct_keys(prefix)) by {
            assert(forall|p: int, q: int|
                0 <= p < q < prefix.len() ==> entries[p].0 != entries[q].0);
        }
        lemma_map_of_update(prefix, j, value);
        assert(updated.drop_last() =~= prefix.update(j, (key, value)));
        assert(entries[last].0 != key);
        assert(map_of(prefix).insert(key, value).insert(entries[last].0, entries[last].1)
            =~= map_of(prefix).insert(entries[last].0, entries[last].1).insert(key, value));
    }
}

} // verus!
