//! Tables as sequences of rows: finding, replacing, adding and dropping rows.
use vstd::prelude::*;

verus! {

/// The index of the first row at or after `i` that is hit, or the number of rows.
pub open spec fn position<R>(rows: Seq<R>, hit: spec_fn(R) -> bool, i: nat) -> nat
    decreases rows.len() - i,
{
    if i >= rows.len() || hit(rows[i as int]) {
        i
    } else {
        position(rows, hit, i + 1)
    }
}

/// Some row is hit.
pub open spec fn has_row<R>(rows: Seq<R>, hit: spec_fn(R) -> bool) -> bool {
    position(rows, hit, 0) < rows.len()
}

/// The first row that is hit.
pub open spec fn first_row<R>(rows: Seq<R>, hit: spec_fn(R) -> bool) -> Option<R> {
    let p = position(rows, hit, 0);
    if p < rows.len() {
        Some(rows[p as int])
    } else {
        None
    }
}

/// The rows with `row` in the place of the first row that is hit, or at the end.
pub open spec fn put_row<R>(rows: Seq<R>, hit: spec_fn(R) -> bool, row: R) -> Seq<R> {
    let p = position(rows, hit, 0);
    if p < rows.len() {
        rows.update(p as int, row)
    } else {
        rows.push(row)
    }
}

/// The rows with `row` at the end, unless a row is hit already.
pub open spec fn add_new_row<R>(rows: Seq<R>, hit: spec_fn(R) -> bool, row: R) -> Seq<R> {
    if has_row(rows, hit) {
        rows
    } else {
        rows.push(row)
    }
}

/// The rows that are not hit.
pub open spec fn without<R>(rows: Seq<R>, hit: spec_fn(R) -> bool) -> Seq<R> {
    rows.filter(|r: R| !hit(r))
}

/// Where `position` stops: at a row that is hit, with none hit before it.
pub proof fn lemma_position<R>(rows: Seq<R>, hit: spec_fn(R) -> bool, i: nat)
    requires
        i <= rows.len(),
    ensures
        i <= position(rows, hit, i) <= rows.len(),
        position(rows, hit, i) < rows.len() ==> hit(rows[position(rows, hit, i) as int]),
        forall|k: int| i <= k < position(rows, hit, i) ==> !hit(#[trigger] rows[k]),
    decreases rows.len() - i,
{
    if i < rows.len() && !hit(rows[i as int]) {
        lemma_position(rows, hit, i + 1);
    }
}

/// The first row that is hit is at `p` when `p` is hit and nothing before it is.
pub proof fn lemma_position_is<R>(rows: Seq<R>, hit: spec_fn(R) -> bool, p: int)
    requires
        0 <= p <= rows.len(),
        p < rows.len() ==> hit(rows[p]),
        forall|k: int| 0 <= k < p ==> !hit(#[trigger] rows[k]),
    ensures
        position(rows, hit, 0) == p,
{
    lemma_position(rows, hit, 0);
}

/// No two rows have the same key.
pub open spec fn keys_differ<R, K>(rows: Seq<R>, key: spec_fn(R) -> K) -> bool {
    forall|i: int, j: int|
        0 <= i < j < rows.len() ==> key(#[trigger] rows[i]) != key(#[trigger] rows[j])
}

/// The rows whose key is `k`.
pub open spec fn key_is<R, K>(key: spec_fn(R) -> K, k: K) -> spec_fn(R) -> bool {
    |r: R| key(r) == k
}

/// Putting a row under its key keeps the keys of a table different, and the row is found again.
pub proof fn put_keeps_keys<R, K>(rows: Seq<R>, key: spec_fn(R) -> K, row: R)
    requires
        keys_differ(rows, key),
    ensures
        keys_differ(put_row(rows, key_is(key, key(row)), row), key),
        first_row(put_row(rows, key_is(key, key(row)), row), key_is(key, key(row))) == Some(row),
{
    let hit = key_is(key, key(row));
    lemma_position(rows, hit, 0);
    let p = position(rows, hit, 0);
    let after = put_row(rows, hit, row);
    assert(hit(row));
    if p < rows.len() {
        assert forall|k: int| 0 <= k < p implies !hit(#[trigger] after[k]) by {
            assert(!hit(rows[k]));
        }
        assert(hit(rows[p as int]));
        lemma_position_is(after, hit, p as int);
    } else {
        assert forall|k: int| 0 <= k < p implies !hit(#[trigger] after[k]) by {
            assert(!hit(rows[k]));
        }
        lemma_position_is(after, hit, p as int);
    }
    assert forall|i: int, j: int| 0 <= i < j < after.len() implies key(#[trigger] after[i]) != key(
        #[trigger] after[j],
    ) by {
        if p < rows.len() {
            assert(key(rows[p as int]) == key(row));
            if i == p {
                assert(key(rows[p as int]) != key(rows[j]));
            } else if j == p {
                assert(key(rows[i]) != key(rows[p as int]));
            } else {
                assert(key(rows[i]) != key(rows[j]));
            }
        } else if j == rows.len() {
            assert(!hit(rows[i]));
        } else {
            assert(key(rows[i]) != key(rows[j]));
        }
    }
}

/// Putting a row leaves what is found under every other key as it was.
pub proof fn put_leaves_others<R, K>(rows: Seq<R>, key: spec_fn(R) -> K, row: R, other: K)
    requires
        other != key(row),
    ensures
        first_row(put_row(rows, key_is(key, key(row)), row), key_is(key, other)) == first_row(
            rows,
            key_is(key, other),
        ),
{
    let hit = key_is(key, key(row));
    let miss = key_is(key, other);
    lemma_position(rows, hit, 0);
    lemma_position(rows, miss, 0);
    let p = position(rows, hit, 0);
    let q = position(rows, miss, 0);
    let after = put_row(rows, hit, row);
    assert(!miss(row));
    if p < rows.len() {
        assert(!miss(rows[p as int]));
    }
    assert forall|k: int| 0 <= k < q && k < after.len() implies !miss(#[trigger] after[k]) by {
        if k < rows.len() && k != p {
            assert(!miss(rows[k]));
        }
    }
    if q < rows.len() {
        assert(miss(after[q as int]));
        lemma_position_is(after, miss, q as int);
    } else {
        assert forall|k: int| 0 <= k < after.len() implies !miss(#[trigger] after[k]) by {
            if k < rows.len() && k != p {
                assert(!miss(rows[k]));
            }
        }
        lemma_position_is(after, miss, after.len() as int);
    }
}

/// Adding a row under a new key keeps the keys of a table different.
pub proof fn add_keeps_keys<R, K>(rows: Seq<R>, key: spec_fn(R) -> K, row: R)
    requires
        keys_differ(rows, key),
    ensures
        keys_differ(add_new_row(rows, key_is(key, key(row)), row), key),
        has_row(add_new_row(rows, key_is(key, key(row)), row), key_is(key, key(row))),
{
    let hit = key_is(key, key(row));
    lemma_position(rows, hit, 0);
    if !has_row(rows, hit) {
        put_keeps_keys(rows, key, row);
    }
}

/// Dropping rows keeps the keys of a table different, and nothing that was dropped is found.
pub proof fn drop_keeps_keys<R, K>(rows: Seq<R>, key: spec_fn(R) -> K, hit: spec_fn(R) -> bool)
    requires
        keys_differ(rows, key),
    ensures
        keys_differ(without(rows, hit), key),
        !has_row(without(rows, hit), hit),
    decreases rows.len(),
{
    reveal(Seq::filter);
    lemma_position(without(rows, hit), hit, 0);
    lemma_without_misses(rows, hit);
    if rows.len() > 0 {
        let front = rows.drop_last();
        drop_keeps_keys(front, key, hit);
        let kept = without(front, hit);
        if !hit(rows.last()) {
            assert(without(rows, hit) =~= kept.push(rows.last()));
            assert forall|i: int| 0 <= i < kept.len() implies key(#[trigger] kept[i]) != key(
                rows.last(),
            ) by {
                lemma_without_from(front, hit, i);
                let k = choose|k: int| 0 <= k < front.len() && front[k] == kept[i];
                assert(key(rows[k]) != key(rows[rows.len() - 1]));
            }
        } else {
            assert(without(rows, hit) =~= kept);
        }
    }
}

/// Dropping rows leaves what other tests find as it was, where no row meets both tests.
pub proof fn drop_leaves_others<R>(
    rows: Seq<R>,
    hit: spec_fn(R) -> bool,
    other: spec_fn(R) -> bool,
)
    requires
        forall|r: R| #[trigger] other(r) ==> !hit(r),
    ensures
        first_row(without(rows, hit), other) == first_row(rows, other),
    decreases rows.len(),
{
    reveal(Seq::filter);
    if rows.len() > 0 {
        let front = rows.drop_last();
        drop_leaves_others(front, hit, other);
        lemma_first_push(front, rows.last(), other);
        assert(front.push(rows.last()) =~= rows);
        let kept = without(front, hit);
        if !hit(rows.last()) {
            lemma_first_push(kept, rows.last(), other);
            assert(without(rows, hit) =~= kept.push(rows.last()));
        } else {
            assert(without(rows, hit) =~= kept);
        }
    }
}

/// The first row that is hit once one more row stands at the end.
pub proof fn lemma_first_push<R>(rows: Seq<R>, row: R, hit: spec_fn(R) -> bool)
    ensures
        first_row(rows.push(row), hit) == (match first_row(rows, hit) {
            Some(r) => Some(r),
            None => if hit(row) {
                Some(row)
            } else {
                None
            },
        }),
{
    lemma_position(rows, hit, 0);
    let p = position(rows, hit, 0);
    let more = rows.push(row);
    assert forall|k: int| 0 <= k < p implies !hit(#[trigger] more[k]) by {
        assert(!hit(rows[k]));
    }
    if p < rows.len() {
        lemma_position_is(more, hit, p as int);
    } else if hit(row) {
        lemma_position_is(more, hit, p as int);
    } else {
        assert forall|k: int| 0 <= k < more.len() implies !hit(#[trigger] more[k]) by {
            if k < rows.len() {
                assert(!hit(rows[k]));
            }
        }
        lemma_position_is(more, hit, more.len() as int);
    }
}

/// Every row that is kept is a row of the table.
pub proof fn lemma_without_from<R>(rows: Seq<R>, hit: spec_fn(R) -> bool, i: int)
    requires
        0 <= i < without(rows, hit).len(),
    ensures
        exists|k: int| 0 <= k < rows.len() && rows[k] == without(rows, hit)[i],
    decreases rows.len(),
{
    reveal(Seq::filter);
    if rows.len() > 0 {
        let front = rows.drop_last();
        let kept = without(front, hit);
        if i < kept.len() {
            lemma_without_from(front, hit, i);
            let k = choose|k: int| 0 <= k < front.len() && front[k] == kept[i];
            assert(rows[k] == without(rows, hit)[i]);
        } else {
            assert(rows[rows.len() - 1] == without(rows, hit)[i]);
        }
    }
}

/// No row that is kept is hit.
pub proof fn lemma_without_misses<R>(rows: Seq<R>, hit: spec_fn(R) -> bool)
    ensures
        forall|i: int| 0 <= i < without(rows, hit).len() ==> !hit(#[trigger] without(rows, hit)[i]),
    decreases rows.len(),
{
    reveal(Seq::filter);
    if rows.len() > 0 {
        lemma_without_misses(rows.drop_last(), hit);
    }
}

/// One more row: kept at the end, or dropped.
pub proof fn lemma_without_step<R>(rows: Seq<R>, hit: spec_fn(R) -> bool, n: int)
    requires
        0 <= n < rows.len(),
    ensures
        without(rows.take(n + 1), hit) == (if hit(rows[n]) {
            without(rows.take(n), hit)
        } else {
            without(rows.take(n), hit).push(rows[n])
        }),
{
    reveal(Seq::filter);
    assert(rows.take(n + 1).drop_last() =~= rows.take(n));
}

/// One more row of a filtered table.
pub proof fn lemma_filter_step<R>(rows: Seq<R>, keep: spec_fn(R) -> bool, n: int)
    requires
        0 <= n < rows.len(),
    ensures
        rows.take(n + 1).filter(keep) == (if keep(rows[n]) {
            rows.take(n).filter(keep).push(rows[n])
        } else {
            rows.take(n).filter(keep)
        }),
{
    reveal(Seq::filter);
    assert(rows.take(n + 1).drop_last() =~= rows.take(n));
}

/// The rows that are hit and those that are not are all rows.
pub proof fn lemma_filter_parts<R>(rows: Seq<R>, hit: spec_fn(R) -> bool)
    ensures
        rows.filter(hit).len() + without(rows, hit).len() == rows.len(),
    decreases rows.len(),
{
    reveal(Seq::filter);
    if rows.len() > 0 {
        lemma_filter_parts(rows.drop_last(), hit);
    }
}

} // verus!
