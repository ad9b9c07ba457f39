//! Lists of entries read as maps. Both stores keep their records in a list
//! in which no key occurs twice; these are the facts about such lists that
//! their proofs rest on.

use vstd::prelude::*;

verus! {

/// The map that the entries give when they are inserted one after the
/// other: of two entries with the same key, the later one counts.
pub open spec fn collected<K, V>(entries: Seq<(K, V)>) -> Map<K, V>
    decreases entries.len(),
{
    if entries.len() == 0 {
        Map::empty()
    } else {
        collected(entries.drop_last()).insert(entries.last().0, entries.last().1)
    }
}

/// No key occurs in two entries.
pub open spec fn distinct_keys<K, V>(entries: Seq<(K, V)>) -> bool {
    forall|i: int, j: int|
        0 <= i < j < entries.len() ==> (#[trigger] entries[i]).0 != (#[trigger] entries[j]).0
}

/// Some entry has the key.
pub open spec fn has_key<K, V>(entries: Seq<(K, V)>, key: K) -> bool {
    exists|i: int| 0 <= i < entries.len() && (#[trigger] entries[i]).0 == key
}

/// Where no key occurs twice, none does once the last entry is left out.
proof fn lemma_distinct_front<K, V>(entries: Seq<(K, V)>)
    requires
        distinct_keys(entries),
        entries.len() > 0,
    ensures
        distinct_keys(entries.drop_last()),
{
    let front = entries.drop_last();
    assert forall|i: int, j: int| 0 <= i < j < front.len() implies front[i].0 != front[j].0 by {
        assert(entries[i].0 != entries[j].0);
    }
}

/// The map holds exactly the keys of the entries.
pub proof fn lemma_collected_keys<K, V>(entries: Seq<(K, V)>, key: K)
    ensures
        collected(entries).contains_key(key) <==> has_key(entries, key),
    decreases entries.len(),
{
    if entries.len() > 0 {
        let front = entries.drop_last();
        lemma_collected_keys(front, key);
        if has_key(front, key) {
            let i = choose|i: int| 0 <= i < front.len() && (#[trigger] front[i]).0 == key;
            assert(entries[i].0 == key);
        }
        if has_key(entries, key) && entries.last().0 != key {
            let i = choose|i: int| 0 <= i < entries.len() && (#[trigger] entries[i]).0 == key;
            assert(front[i].0 == key);
        }
        if entries.last().0 == key {
            assert(entries[entries.len() - 1].0 == key);
        }
    }
}

/// Where no key occurs twice, the map gives for the key of each entry the
/// value of that entry.
pub proof fn lemma_collected_entry<K, V>(entries: Seq<(K, V)>, i: int)
    requires
        distinct_keys(entries),
        0 <= i < entries.len(),
    ensures
        collected(entries).contains_key(entries[i].0),
        collected(entries)[entries[i].0] == entries[i].1,
    decreases entries.len(),
{
    if i < entries.len() - 1 {
        let front = entries.drop_last();
        assert(front[i] == entries[i]);
        lemma_distinct_front(entries);
        lemma_collected_entry(front, i);
        assert(entries[i].0 != entries[entries.len() - 1].0);
    }
}

/// Appending an entry inserts it into the map; if its key is new, no key
/// occurs twice afterwards either.
pub proof fn lemma_collected_push<K, V>(entries: Seq<(K, V)>, key: K, value: V)
    ensures
        collected(entries.push((key, value))) == collected(entries).insert(key, value),
        distinct_keys(entries) && !has_key(entries, key) ==> distinct_keys(
            entries.push((key, value)),
        ),
{
    let grown = entries.push((key, value));
    assert(grown.drop_last() =~= entries);
    if distinct_keys(entries) && !has_key(entries, key) {
        assert forall|i: int, j: int| 0 <= i < j < grown.len() implies grown[i].0 != grown[j].0 by {
            if j < entries.len() {
                assert(entries[i].0 != entries[j].0);
            } else {
                assert(entries[i].0 != key);
            }
        }
    }
}

/// Where no key occurs twice, replacing the value of the entry at `i`
/// replaces it in the map, and still no key occurs twice.
pub proof fn lemma_collected_update<K, V>(entries: Seq<(K, V)>, i: int, value: V)
    requires
        distinct_keys(entries),
        0 <= i < entries.len(),
    ensures
        distinct_keys(entries.update(i, (entries[i].0, value))),
        collected(entries.update(i, (entries[i].0, value))) == collected(entries).insert(
            entries[i].0,
            value,
        ),
    decreases entries.len(),
{
    let key = entries[i].0;
    let changed = entries.update(i, (key, value));
    assert forall|p: int, q: int| 0 <= p < q < changed.len() implies changed[p].0 != changed[q].0 by {
        assert(entries[p].0 != entries[q].0);
    }
    let front = entries.drop_last();
    if i == entries.len() - 1 {
        assert(changed.drop_last() =~= front);
        assert(collected(changed) =~= collected(entries).insert(key, value));
    } else {
        lemma_distinct_front(entries);
        assert(front[i] == entries[i]);
        lemma_collected_update(front, i, value);
        assert(changed.drop_last() =~= front.update(i, (key, value)));
        assert(changed.last() == entries.last());
        assert(entries[i].0 != entries[entries.len() - 1].0);
        assert(collected(changed) =~= collected(entries).insert(key, value));
    }
}

} // verus!
