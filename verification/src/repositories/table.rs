//! Searching a table for the rows that meet a condition.

use vstd::prelude::*;

verus! {

/// The position of the last row that meets a condition.
pub open spec fn last_match<T>(rows: Seq<T>, hit: spec_fn(T) -> bool) -> Option<int>
    decreases rows.len(),
{
    if rows.len() == 0 {
        None
    } else if hit(rows.last()) {
        Some(rows.len() - 1)
    } else {
        last_match(rows.drop_last(), hit)
    }
}

/// The number of rows that meet a condition.
pub open spec fn count_matches<T>(rows: Seq<T>, hit: spec_fn(T) -> bool) -> nat
    decreases rows.len(),
{
    if rows.len() == 0 {
        0
    } else {
        count_matches(rows.drop_last(), hit) + if hit(rows.last()) {
            1nat
        } else {
            0nat
        }
    }
}

/// No two rows meet the condition.
pub open spec fn at_most_one<T>(rows: Seq<T>, hit: spec_fn(T) -> bool) -> bool {
    forall|i: int, j: int|
        0 <= i < j < rows.len() ==> !(hit(#[trigger] rows[i]) && hit(#[trigger] rows[j]))
}

/// What `last_match` finds meets the condition and nothing behind it does;
/// where it finds nothing, no row meets the condition.
pub proof fn lemma_last_match<T>(rows: Seq<T>, hit: spec_fn(T) -> bool)
    ensures
        match last_match(rows, hit) {
            Some(i) => 0 <= i < rows.len() && hit(rows[i]) && forall|j: int|
                i < j < rows.len() ==> !hit(#[trigger] rows[j]),
            None => forall|j: int| 0 <= j < rows.len() ==> !hit(#[trigger] rows[j]),
        },
    decreases rows.len(),
{
    if rows.len() > 0 && !hit(rows.last()) {
        lemma_last_match(rows.drop_last(), hit);
        let shorter = rows.drop_last();
        assert forall|j: int| 0 <= j < shorter.len() implies shorter[j] == rows[j] by {}
        match last_match(shorter, hit) {
            Some(i) => {
                assert forall|j: int| i < j < rows.len() implies !hit(#[trigger] rows[j]) by {
                    if j < shorter.len() {
                        assert(shorter[j] == rows[j]);
                    }
                }
            },
            None => {
                assert forall|j: int| 0 <= j < rows.len() implies !hit(#[trigger] rows[j]) by {
                    if j < shorter.len() {
                        assert(shorter[j] == rows[j]);
                    }
                }
            },
        }
    }
}

/// A search in a table with one more row at its end.
pub proof fn lemma_last_match_push<T>(rows: Seq<T>, row: T, hit: spec_fn(T) -> bool)
    ensures
        last_match(rows.push(row), hit) == if hit(row) {
            Some(rows.len() as int)
        } else {
            last_match(rows, hit)
        },
        count_matches(rows.push(row), hit) == count_matches(rows, hit) + if hit(row) {
            1nat
        } else {
            0nat
        },
{
    assert(rows.push(row).drop_last() =~= rows);
    assert(rows.push(row).last() == row);
}

/// Where no row meets a condition, none is counted.
pub proof fn lemma_count_none<T>(rows: Seq<T>, hit: spec_fn(T) -> bool)
    requires
        last_match(rows, hit) is None,
    ensures
        count_matches(rows, hit) == 0,
    decreases rows.len(),
{
    if rows.len() > 0 {
        lemma_count_none(rows.drop_last(), hit);
    }
}

/// Where a row meets a condition and no two rows do, exactly one is counted.
pub proof fn lemma_count_one<T>(rows: Seq<T>, hit: spec_fn(T) -> bool)
    requires
        last_match(rows, hit) is Some,
        at_most_one(rows, hit),
    ensures
        count_matches(rows, hit) == 1,
    decreases rows.len(),
{
    let shorter = rows.drop_last();
    if hit(rows.last()) {
        lemma_last_match(shorter, hit);
        if last_match(shorter, hit) is Some {
            let i = last_match(shorter, hit)->Some_0;
            assert(shorter[i] == rows[i]);
            assert(hit(rows[i]) && hit(rows[rows.len() - 1]));
        }
        lemma_count_none(shorter, hit);
    } else {
        assert forall|i: int, j: int| 0 <= i < j < shorter.len() implies !(hit(
            #[trigger] shorter[i],
        ) && hit(#[trigger] shorter[j])) by {
            assert(shorter[i] == rows[i]);
            assert(shorter[j] == rows[j]);
        }
        lemma_count_one(shorter, hit);
    }
}

/// Where no row meets a condition, the search finds nothing.
pub proof fn lemma_none_matches<T>(rows: Seq<T>, hit: spec_fn(T) -> bool)
    requires
        forall|k: int| 0 <= k < rows.len() ==> !hit(#[trigger] rows[k]),
    ensures
        last_match(rows, hit) is None,
    decreases rows.len(),
{
    if rows.len() > 0 {
        let shorter = rows.drop_last();
        assert forall|k: int| 0 <= k < shorter.len() implies !hit(#[trigger] shorter[k]) by {
            assert(shorter[k] == rows[k]);
        }
        lemma_none_matches(shorter, hit);
    }
}

} // verus!
