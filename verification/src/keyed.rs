use vstd::prelude::*;

verus! {

/// The map that a list of keyed entries stands for; a later entry for a
/// key overrides an earlier one.
pub open spec fn keyed_map<K: View, V>(entries: Seq<(K, V)>) -> Map<K::V, V>
    decreases entries.len(),
{
    if entries.len() == 0 {
        Map::empty()
    } else {
        keyed_map(entries.drop_last()).insert(entries.last().0@, entries.last().1)
    }
}

/// No key occurs twice in the list.
pub open spec fn distinct_keys<K: View, V>(entries: Seq<(K, V)>) -> bool {
    forall|i: int, j: int|
        0 <= i < entries.len() && 0 <= j < entries.len() && i != j ==> entries[i].0@
            != entries[j].0@
}

/// Every listed key is in the map, with its listed value, and the map
/// holds no other key.
pub proof fn lemma_keyed_map<K: View, V>(entries: Seq<(K, V)>)
    requires
        distinct_keys(entries),
    ensures
        forall|i: int|
            0 <= i < entries.len() ==> #[trigger] keyed_map(entries).contains_key(entries[i].0@)
                && keyed_map(entries)[entries[i].0@] == entries[i].1,
        forall|k: K::V|
            #[trigger] keyed_map(entries).contains_key(k) ==> exists|i: int|
                0 <= i < entries.len() && entries[i].0@ == k,
        keyed_map(entries).dom().finite(),
    decreases entries.len(),
{
    if entries.len() > 0 {
        let init = entries.drop_last();
        assert(distinct_keys(init)) by {
            assert forall|i: int, j: int|
                0 <= i < init.len() && 0 <= j < init.len() && i != j implies init[i].0@
                != init[j].0@ by {
                assert(init[i] == entries[i] && init[j] == entries[j]);
            }
        }
        lemma_keyed_map(init);
        let last = entries.len() - 1;
        assert forall|i: int| 0 <= i < entries.len() implies #[trigger] keyed_map(
            entries,
        ).contains_key(entries[i].0@) && keyed_map(entries)[entries[i].0@] == entries[i].1 by {
            if i < last {
                assert(entries[i] == init[i]);
                assert(entries[i].0@ != entries[last].0@);
            }
        }
        assert forall|k: K::V| #[trigger] keyed_map(entries).contains_key(k) implies exists|
            i: int,
        | 0 <= i < entries.len() && entries[i].0@ == k by {
            if k != entries[last].0@ {
                assert(keyed_map(init).contains_key(k));
                let i = choose|i: int| 0 <= i < init.len() && init[i].0@ == k;
                assert(entries[i] == init[i]);
            }
        }
    }
}

/// Replacing the value of a listed key changes the map at that key only.
pub proof fn lemma_keyed_map_update<K: View, V>(entries: Seq<(K, V)>, i: int, e: (K, V))
    requires
        distinct_keys(entries),
        0 <= i < entries.len(),
        entries[i].0@ == e.0@,
    ensures
        keyed_map(entries.update(i, e)) == keyed_map(entries).insert(e.0@, e.1),
    decreases entries.len(),
{
    let updated = entries.update(i, e);
    let init = entries.drop_last();
    let last = entries.len() - 1;
    if i == last {
        assert(updated.drop_last() =~= init);
        assert(keyed_map(updated) =~= keyed_map(entries).insert(e.0@, e.1));
    } else {
        assert(distinct_keys(init)) by {
            assert forall|a: int, b: int|
                0 <= a < init.len() && 0 <= b < init.len() && a != b implies init[a].0@
                != init[b].0@ by {
                assert(init[a] == entries[a] && init[b] == entries[b]);
            }
        }
        assert(updated.drop_last() =~= init.update(i, e));
        lemma_keyed_map_update(init, i, e);
        assert(entries[last].0@ != entries[i].0@);
        assert(updated.last() == entries.last());
        assert(keyed_map(updated) =~= keyed_map(entries).insert(e.0@, e.1));
    }
}


/// Replacing an entry by one with the same key keeps the keys distinct.
pub proof fn lemma_distinct_after_update<K: View, V>(entries: Seq<(K, V)>, i: int, e: (K, V))
    requires
        distinct_keys(entries),
        0 <= i < entries.len(),
        entries[i].0@ == e.0@,
    ensures
        distinct_keys(entries.update(i, e)),
{
    let after = entries.update(i, e);
    assert forall|a: int, b: int|
        0 <= a < after.len() && 0 <= b < after.len() && a != b implies after[a].0@
        != after[b].0@ by {
        if a != i && b != i {
            assert(after[a] == entries[a] && after[b] == entries[b]);
        } else if a == i {
            assert(after[b] == entries[b]);
        } else {
            assert(after[a] == entries[a]);
        }
    }
}

/// Appending an entry under a key not yet listed keeps the keys distinct.
pub proof fn lemma_distinct_after_push<K: View, V>(entries: Seq<(K, V)>, e: (K, V))
    requires
        distinct_keys(entries),
        forall|i: int| 0 <= i < entries.len() ==> entries[i].0@ != e.0@,
    ensures
        distinct_keys(entries.push(e)),
        keyed_map(entries.push(e)) == keyed_map(entries).insert(e.0@, e.1),
{
    let after = entries.push(e);
    assert(after.drop_last() =~= entries);
    assert forall|a: int, b: int|
        0 <= a < after.len() && 0 <= b < after.len() && a != b implies after[a].0@
        != after[b].0@ by {
        if a < entries.len() && b < entries.len() {
            assert(after[a] == entries[a] && after[b] == entries[b]);
        } else if a < entries.len() {
            assert(after[a] == entries[a]);
        } else {
            assert(after[b] == entries[b]);
        }
    }
}

} // verus!
