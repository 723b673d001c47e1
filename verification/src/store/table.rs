//! Rows in a vector, read as a map from each row's key to its value.
//!
//! A table keeps its rows in the order in which they came. While no two rows
//! share a key, the rows are one map, and the three ways to change the vector
//! (add a row, replace a row, take a row out) are the map's `insert` and
//! `remove`.

use vstd::prelude::*;

verus! {

/// Some row of the table has the key `k`.
pub open spec fn has_key<T>(rows: Seq<T>, key: spec_fn(T) -> int, k: int) -> bool {
    exists|i: int| 0 <= i < rows.len() && #[trigger] key(rows[i]) == k
}

/// No two rows of the table share a key.
pub open spec fn distinct_keys<T>(rows: Seq<T>, key: spec_fn(T) -> int) -> bool {
    forall|i: int, j: int|
        0 <= i < rows.len() && 0 <= j < rows.len() && #[trigger] key(rows[i]) == #[trigger] key(
            rows[j],
        ) ==> i == j
}

/// The place of a row with the key `k`.
pub open spec fn index_of<T>(rows: Seq<T>, key: spec_fn(T) -> int, k: int) -> int {
    choose|i: int| 0 <= i < rows.len() && #[trigger] key(rows[i]) == k
}

/// The table as a map from the keys of its rows to their values.
pub open spec fn as_map<T, V>(rows: Seq<T>, key: spec_fn(T) -> int, val: spec_fn(T) -> V) -> Map<
    int,
    V,
> {
    Map::new(|k: int| has_key(rows, key, k), |k: int| val(rows[index_of(rows, key, k)]))
}

/// In a table without shared keys, the row at `i` is what the map holds
/// under that row's key.
pub proof fn lemma_row_in_map<T, V>(
    rows: Seq<T>,
    key: spec_fn(T) -> int,
    val: spec_fn(T) -> V,
    i: int,
)
    requires
        distinct_keys(rows, key),
        0 <= i < rows.len(),
    ensures
        as_map(rows, key, val).dom().contains(key(rows[i])),
        as_map(rows, key, val)[key(rows[i])] == val(rows[i]),
        index_of(rows, key, key(rows[i])) == i,
{
    let k = key(rows[i]);
    assert(has_key(rows, key, k));
    let j = index_of(rows, key, k);
    assert(0 <= j < rows.len() && key(rows[j]) == k);
}

/// What the map holds under a key is the value of a row with that key.
pub proof fn lemma_map_has_row<T, V>(
    rows: Seq<T>,
    key: spec_fn(T) -> int,
    val: spec_fn(T) -> V,
    k: int,
)
    requires
        as_map(rows, key, val).dom().contains(k),
    ensures
        0 <= index_of(rows, key, k) < rows.len(),
        key(rows[index_of(rows, key, k)]) == k,
        as_map(rows, key, val)[k] == val(rows[index_of(rows, key, k)]),
{
    assert(has_key(rows, key, k));
}

/// A table without rows is the empty map.
pub proof fn lemma_empty<T, V>(rows: Seq<T>, key: spec_fn(T) -> int, val: spec_fn(T) -> V)
    requires
        rows.len() == 0,
    ensures
        distinct_keys(rows, key),
        as_map(rows, key, val) == Map::<int, V>::empty(),
{
    assert(as_map(rows, key, val) =~= Map::<int, V>::empty());
}

/// Adding a row under a key that no row has is the map's `insert`.
pub proof fn lemma_push<T, V>(rows: Seq<T>, key: spec_fn(T) -> int, val: spec_fn(T) -> V, row: T)
    requires
        distinct_keys(rows, key),
        !has_key(rows, key, key(row)),
    ensures
        distinct_keys(rows.push(row), key),
        as_map(rows.push(row), key, val) == as_map(rows, key, val).insert(key(row), val(row)),
{
    let after = rows.push(row);
    assert forall|i: int, j: int|
        0 <= i < after.len() && 0 <= j < after.len() && #[trigger] key(after[i]) == #[trigger] key(
            after[j],
        ) implies i == j by {
        if i < rows.len() {
            assert(after[i] == rows[i]);
        }
        if j < rows.len() {
            assert(after[j] == rows[j]);
        }
    }
    let left = as_map(after, key, val);
    let right = as_map(rows, key, val).insert(key(row), val(row));
    assert forall|k: int| left.dom().contains(k) <==> right.dom().contains(k) by {
        if left.dom().contains(k) {
            let i = index_of(after, key, k);
            assert(0 <= i < after.len() && key(after[i]) == k);
            if i < rows.len() {
                assert(after[i] == rows[i]);
                assert(has_key(rows, key, k));
            }
        }
        if right.dom().contains(k) {
            if k == key(row) {
                assert(after[rows.len() as int] == row);
                assert(has_key(after, key, k));
            } else {
                let i = index_of(rows, key, k);
                assert(has_key(rows, key, k));
                assert(after[i] == rows[i]);
                assert(has_key(after, key, k));
            }
        }
    }
    assert forall|k: int| left.dom().contains(k) implies left[k] == right[k] by {
        let i = index_of(after, key, k);
        assert(0 <= i < after.len() && key(after[i]) == k);
        lemma_row_in_map(after, key, val, i);
        if i < rows.len() {
            assert(after[i] == rows[i]);
            lemma_row_in_map(rows, key, val, i);
        }
    }
    assert(left =~= right);
}

/// Replacing a row by one with the same key is the map's `insert`.
pub proof fn lemma_update<T, V>(
    rows: Seq<T>,
    key: spec_fn(T) -> int,
    val: spec_fn(T) -> V,
    at: int,
    row: T,
)
    requires
        distinct_keys(rows, key),
        0 <= at < rows.len(),
        key(rows[at]) == key(row),
    ensures
        distinct_keys(rows.update(at, row), key),
        as_map(rows.update(at, row), key, val) == as_map(rows, key, val).insert(
            key(row),
            val(row),
        ),
{
    let after = rows.update(at, row);
    assert forall|i: int| 0 <= i < after.len() implies #[trigger] key(after[i]) == key(
        rows[i],
    ) by {}
    assert forall|i: int, j: int|
        0 <= i < after.len() && 0 <= j < after.len() && #[trigger] key(after[i]) == #[trigger] key(
            after[j],
        ) implies i == j by {
        assert(key(rows[i]) == key(rows[j]));
    }
    let left = as_map(after, key, val);
    let right = as_map(rows, key, val).insert(key(row), val(row));
    assert forall|k: int| left.dom().contains(k) <==> right.dom().contains(k) by {
        if left.dom().contains(k) {
            let i = index_of(after, key, k);
            assert(0 <= i < after.len() && key(after[i]) == k);
            assert(key(rows[i]) == k);
            assert(has_key(rows, key, k));
        }
        if right.dom().contains(k) {
            if k == key(row) {
                assert(key(after[at]) == k);
                assert(has_key(after, key, k));
            } else {
                assert(has_key(rows, key, k));
                let i = index_of(rows, key, k);
                assert(key(after[i]) == k);
                assert(has_key(after, key, k));
            }
        }
    }
    assert forall|k: int| left.dom().contains(k) implies left[k] == right[k] by {
        let i = index_of(after, key, k);
        assert(0 <= i < after.len() && key(after[i]) == k);
        lemma_row_in_map(after, key, val, i);
        assert(key(rows[i]) == k);
        lemma_row_in_map(rows, key, val, i);
        if i != at {
            assert(after[i] == rows[i]);
        }
    }
    assert(left =~= right);
}

/// Taking a row out is the map's `remove` of that row's key.
pub proof fn lemma_remove<T, V>(
    rows: Seq<T>,
    key: spec_fn(T) -> int,
    val: spec_fn(T) -> V,
    at: int,
)
    requires
        distinct_keys(rows, key),
        0 <= at < rows.len(),
    ensures
        distinct_keys(rows.remove(at), key),
        as_map(rows.remove(at), key, val) == as_map(rows, key, val).remove(key(rows[at])),
{
    let after = rows.remove(at);
    let shift = |i: int| if i < at { i } else { i + 1 };
    assert forall|i: int| 0 <= i < after.len() implies #[trigger] after[i] == rows[shift(i)] by {}
    assert forall|i: int, j: int|
        0 <= i < after.len() && 0 <= j < after.len() && #[trigger] key(after[i]) == #[trigger] key(
            after[j],
        ) implies i == j by {
        assert(after[i] == rows[shift(i)]);
        assert(after[j] == rows[shift(j)]);
        assert(key(rows[shift(i)]) == key(rows[shift(j)]));
    }
    let left = as_map(after, key, val);
    let right = as_map(rows, key, val).remove(key(rows[at]));
    assert forall|k: int| left.dom().contains(k) <==> right.dom().contains(k) by {
        if left.dom().contains(k) {
            let i = index_of(after, key, k);
            assert(0 <= i < after.len() && key(after[i]) == k);
            assert(after[i] == rows[shift(i)]);
            assert(key(rows[shift(i)]) == k);
            assert(has_key(rows, key, k));
            if k == key(rows[at]) {
                assert(shift(i) == at);
            }
        }
        if right.dom().contains(k) {
            assert(has_key(rows, key, k));
            let i = index_of(rows, key, k);
            assert(0 <= i < rows.len() && key(rows[i]) == k);
            assert(i != at);
            let j = if i < at { i } else { i - 1 };
            assert(after[j] == rows[shift(j)]);
            assert(key(after[j]) == k);
            assert(has_key(after, key, k));
        }
    }
    assert forall|k: int| left.dom().contains(k) implies left[k] == right[k] by {
        let i = index_of(after, key, k);
        assert(0 <= i < after.len() && key(after[i]) == k);
        lemma_row_in_map(after, key, val, i);
        assert(after[i] == rows[shift(i)]);
        lemma_row_in_map(rows, key, val, shift(i));
    }
    assert(left =~= right);
}

} // verus!
