//! Records held in a vector and read as a finite map keyed by tab identifier.
//!
//! Both managers store one record per tab in a `Vec` whose identifiers are
//! pairwise distinct. The functions here say which map such a vector stands
//! for and how pushing, replacing and removing a row changes that map.

use vstd::prelude::*;

verus! {

/// A tab identifier as contracts see it.
pub type TabId = Seq<char>;

/// The map that sends each key to the row stored beside it.
pub open spec fn table<V>(keys: Seq<TabId>, rows: Seq<V>) -> Map<TabId, V> {
    Map::new(|id: TabId| keys.contains(id), |id: TabId| rows[keys.index_of(id)])
}

/// `rows` lists the map `m` under `keys`: one row per key, no key twice.
pub open spec fn lists<V>(keys: Seq<TabId>, rows: Seq<V>, m: Map<TabId, V>) -> bool {
    &&& keys.len() == rows.len()
    &&& keys.no_duplicates()
    &&& table(keys, rows) == m
}

/// Going from `before` to `after` left every key but `id` as it was: neither
/// added nor removed, and with the same row.
pub open spec fn only_changed_at<V>(before: Map<TabId, V>, after: Map<TabId, V>, id: TabId) -> bool {
    forall|other: TabId|
        other != id ==> (#[trigger] after.contains_key(other)) == before.contains_key(other) && (
        after.contains_key(other) ==> after[other] == before[other])
}

/// Every stored row is found under its own key.
pub proof fn lemma_table_row<V>(keys: Seq<TabId>, rows: Seq<V>, i: int)
    requires
        keys.len() == rows.len(),
        keys.no_duplicates(),
        0 <= i < keys.len(),
    ensures
        table(keys, rows).contains_key(keys[i]),
        table(keys, rows)[keys[i]] == rows[i],
{
    assert(keys.contains(keys[i]));
    let j = keys.index_of(keys[i]);
    assert(0 <= j < keys.len() && keys[j] == keys[i]);
}

/// A key that no row carries is outside the map.
pub proof fn lemma_table_absent<V>(keys: Seq<TabId>, rows: Seq<V>, id: TabId)
    requires
        forall|i: int| 0 <= i < keys.len() ==> keys[i] != id,
    ensures
        !table(keys, rows).contains_key(id),
{
}

/// Appending a row under a new key inserts it into the map.
pub proof fn lemma_table_push<V>(keys: Seq<TabId>, rows: Seq<V>, id: TabId, row: V)
    requires
        keys.len() == rows.len(),
        keys.no_duplicates(),
        !keys.contains(id),
    ensures
        keys.push(id).no_duplicates(),
        table(keys.push(id), rows.push(row)) == table(keys, rows).insert(id, row),
{
    let keys2 = keys.push(id);
    let rows2 = rows.push(row);
    assert(keys2.no_duplicates()) by {
        assert forall|i: int, j: int| 0 <= i < keys2.len() && 0 <= j < keys2.len() && i != j
            implies keys2[i] != keys2[j] by {
            if i < keys.len() && j < keys.len() {
                assert(keys[i] != keys[j]);
            } else if i < keys.len() {
                assert(keys.contains(keys[i]));
            } else {
                assert(keys.contains(keys[j]));
            }
        }
    }
    let lhs = table(keys2, rows2);
    let rhs = table(keys, rows).insert(id, row);
    assert forall|k: TabId| lhs.contains_key(k) == rhs.contains_key(k) by {
        if keys2.contains(k) {
            let i = choose|i: int| 0 <= i < keys2.len() && keys2[i] == k;
            if i < keys.len() {
                assert(keys[i] == k);
            }
        }
        if keys.contains(k) {
            let i = choose|i: int| 0 <= i < keys.len() && keys[i] == k;
            assert(keys2[i] == k);
        }
        if k == id {
            assert(keys2[keys.len() as int] == id);
        }
    }
    assert forall|k: TabId| lhs.contains_key(k) implies lhs[k] == rhs[k] by {
        let i = choose|i: int| 0 <= i < keys2.len() && keys2[i] == k;
        lemma_table_row(keys2, rows2, i);
        if i < keys.len() {
            lemma_table_row(keys, rows, i);
        }
    }
    assert(lhs =~= rhs);
}

/// Replacing a row in place, under the key it already had, overwrites the
/// map at that key.
pub proof fn lemma_table_update<V>(keys: Seq<TabId>, rows: Seq<V>, i: int, row: V)
    requires
        keys.len() == rows.len(),
        keys.no_duplicates(),
        0 <= i < keys.len(),
    ensures
        table(keys, rows.update(i, row)) == table(keys, rows).insert(keys[i], row),
{
    let rows2 = rows.update(i, row);
    let lhs = table(keys, rows2);
    let rhs = table(keys, rows).insert(keys[i], row);
    assert forall|k: TabId| lhs.contains_key(k) == rhs.contains_key(k) by {
        assert(keys.contains(keys[i]));
    }
    assert forall|k: TabId| lhs.contains_key(k) implies lhs[k] == rhs[k] by {
        let j = choose|j: int| 0 <= j < keys.len() && keys[j] == k;
        lemma_table_row(keys, rows2, j);
        lemma_table_row(keys, rows, j);
    }
    assert(lhs =~= rhs);
}

/// Removing a row removes its key from the map.
pub proof fn lemma_table_remove<V>(keys: Seq<TabId>, rows: Seq<V>, i: int)
    requires
        keys.len() == rows.len(),
        keys.no_duplicates(),
        0 <= i < keys.len(),
    ensures
        keys.remove(i).no_duplicates(),
        table(keys.remove(i), rows.remove(i)) == table(keys, rows).remove(keys[i]),
{
    let keys2 = keys.remove(i);
    let rows2 = rows.remove(i);
    assert(keys2.no_duplicates()) by {
        assert forall|a: int, b: int| 0 <= a < keys2.len() && 0 <= b < keys2.len() && a != b
            implies keys2[a] != keys2[b] by {
            let a0 = if a < i { a } else { a + 1 };
            let b0 = if b < i { b } else { b + 1 };
            assert(keys2[a] == keys[a0] && keys2[b] == keys[b0]);
        }
    }
    let lhs = table(keys2, rows2);
    let rhs = table(keys, rows).remove(keys[i]);
    assert forall|k: TabId| lhs.contains_key(k) == rhs.contains_key(k) by {
        if keys2.contains(k) {
            let a = choose|a: int| 0 <= a < keys2.len() && keys2[a] == k;
            let a0 = if a < i { a } else { a + 1 };
            assert(keys[a0] == k);
        }
        if keys.contains(k) && k != keys[i] {
            let a0 = choose|a0: int| 0 <= a0 < keys.len() && keys[a0] == k;
            let a = if a0 < i { a0 } else { a0 - 1 };
            assert(keys2[a] == k);
        }
    }
    assert forall|k: TabId| lhs.contains_key(k) implies lhs[k] == rhs[k] by {
        let a = choose|a: int| 0 <= a < keys2.len() && keys2[a] == k;
        let a0 = if a < i { a } else { a + 1 };
        assert(keys[a0] == k);
        lemma_table_row(keys2, rows2, a);
        lemma_table_row(keys, rows, a0);
    }
    assert(lhs =~= rhs);
}

/// The map has exactly as many keys as there are rows.
pub proof fn lemma_table_len<V>(keys: Seq<TabId>, rows: Seq<V>)
    requires
        keys.len() == rows.len(),
        keys.no_duplicates(),
    ensures
        table(keys, rows).dom().finite(),
        table(keys, rows).dom().len() == keys.len(),
    decreases keys.len(),
{
    if keys.len() == 0 {
        assert(table(keys, rows).dom() =~= Set::<TabId>::empty());
    } else {
        let k0 = keys.drop_last();
        let r0 = rows.drop_last();
        assert(k0.no_duplicates());
        assert(!k0.contains(keys.last())) by {
            if k0.contains(keys.last()) {
                let i = choose|i: int| 0 <= i < k0.len() && k0[i] == keys.last();
                assert(keys[i] == keys[keys.len() - 1]);
            }
        }
        lemma_table_len(k0, r0);
        lemma_table_push(k0, r0, keys.last(), rows.last());
        assert(k0.push(keys.last()) =~= keys);
        assert(r0.push(rows.last()) =~= rows);
        assert(table(keys, rows).dom() =~= table(k0, r0).dom().insert(keys.last()));
    }
}

} // verus!
