//! Laws of the registration protocol under contention.
//!
//! The store's atomic-statement guarantee serialises concurrent `register`
//! calls into some order; which caller wins the race is not guaranteed.
//! This module models a contended run — any number of `register` calls for
//! one natural key, each with its own candidate identifier, applied in an
//! arbitrary serialisation order — and proves the protocol's guarantees over
//! every such run.

use vstd::prelude::*;

use crate::ids::Id;
use crate::registry::{row_count, row_id, rows_contain, rows_register, rows_wf};

verus! {

/// The rows after a run of `register` calls, all with natural key `k`;
/// call `i` brings candidate identifier `cands[i]`, and calls are applied
/// in index order.
pub open spec fn rows_after_calls(
    rows: Seq<(Seq<char>, Id)>,
    k: Seq<char>,
    cands: Seq<Id>,
) -> Seq<(Seq<char>, Id)>
    decreases cands.len(),
{
    if cands.len() == 0 {
        rows
    } else {
        rows_register(rows_after_calls(rows, k, cands.drop_last()), k, cands.last()).0
    }
}

/// What each call of the run returns: the resolved identifier and the
/// `was_created` flag, in call order.
pub open spec fn call_results(rows: Seq<(Seq<char>, Id)>, k: Seq<char>, cands: Seq<Id>) -> Seq<
    (Id, bool),
>
    decreases cands.len(),
{
    if cands.len() == 0 {
        Seq::empty()
    } else {
        let before = rows_after_calls(rows, k, cands.drop_last());
        let step = rows_register(before, k, cands.last());
        call_results(rows, k, cands.drop_last()).push((step.1, step.2))
    }
}

/// How many calls of a run observed `was_created == true`.
pub open spec fn created_count(results: Seq<(Id, bool)>) -> nat
    decreases results.len(),
{
    if results.len() == 0 {
        0
    } else {
        created_count(results.drop_last()) + (if results.last().1 {
            1nat
        } else {
            0nat
        })
    }
}

/// Registering one key disturbs no other key: every previously present key
/// keeps its row and its identifier, and the registered key resolves to one
/// stable identifier.
pub proof fn lemma_register_stable(rows: Seq<(Seq<char>, Id)>, k: Seq<char>, candidate: Id)
    requires
        rows_wf(rows),
    ensures
        rows_contain(rows_register(rows, k, candidate).0, k),
        rows_register(rows, k, candidate).1 == row_id(rows_register(rows, k, candidate).0, k),
        forall|other: Seq<char>|
            rows_contain(rows, other) ==> rows_contain(rows_register(rows, k, candidate).0, other)
                && row_id(rows_register(rows, k, candidate).0, other) == row_id(rows, other),
{
    if !rows_contain(rows, k) {
        let pushed = rows.push((k, candidate));
        assert(pushed[rows.len() as int].0 == k);
        let w = choose|i: int| 0 <= i < pushed.len() && pushed[i].0 == k;
        if w < rows.len() {
            assert(rows[w].0 == k);
        }
        assert(row_id(pushed, k) == candidate);
        assert forall|other: Seq<char>| rows_contain(rows, other) implies rows_contain(
            pushed,
            other,
        ) && row_id(pushed, other) == row_id(rows, other) by {
            let i = choose|i: int| 0 <= i < rows.len() && rows[i].0 == other;
            assert(pushed[i].0 == other);
            let wp = choose|j: int| 0 <= j < pushed.len() && pushed[j].0 == other;
            if wp == rows.len() {
                assert(pushed[wp].0 == k);
                assert(rows[i].0 == k);
                assert(rows_contain(rows, k));
            } else {
                assert(rows[wp].0 == other);
                if wp < i {
                    assert(rows[wp].0 != rows[i].0);
                } else if i < wp {
                    assert(rows[i].0 != rows[wp].0);
                }
                assert(wp == i);
            }
        }
    }
}

/// Idempotent creation, and no phantom rows, over a contended run.
///
/// For any well-formed table and any run of `register` calls with natural
/// key `k`: every call returns the same resolved identifier; if a row with
/// `k` already existed no call observes `was_created`, and otherwise exactly
/// one call does — the first in serialisation order, whose candidate becomes
/// the stable identifier; and afterwards the table is still well-formed,
/// holds `k`, and holds exactly one row for `k`.
pub proof fn lemma_idempotent_creation(rows: Seq<(Seq<char>, Id)>, k: Seq<char>, cands: Seq<Id>)
    requires
        rows_wf(rows),
        cands.len() > 0,
    ensures
        rows_wf(rows_after_calls(rows, k, cands)),
        rows_contain(rows_after_calls(rows, k, cands), k),
        row_count(rows_after_calls(rows, k, cands), k) == 1,
        call_results(rows, k, cands).len() == cands.len(),
        forall|i: int|
            0 <= i < cands.len() ==> #[trigger] call_results(rows, k, cands)[i].0 == row_id(
                rows_after_calls(rows, k, cands),
                k,
            ),
        created_count(call_results(rows, k, cands)) == if rows_contain(rows, k) {
            0nat
        } else {
            1nat
        },
        rows_contain(rows, k) ==> rows_after_calls(rows, k, cands) == rows && row_id(
            rows_after_calls(rows, k, cands),
            k,
        ) == row_id(rows, k),
        !rows_contain(rows, k) ==> call_results(rows, k, cands)[0].1 && row_id(
            rows_after_calls(rows, k, cands),
            k,
        ) == cands[0],
    decreases cands.len(),
{
    let after = rows_after_calls(rows, k, cands);
    let results = call_results(rows, k, cands);
    if cands.len() == 1 {
        assert(rows_after_calls(rows, k, cands.drop_last()) == rows);
        assert(call_results(rows, k, cands.drop_last()) == Seq::<(Id, bool)>::empty());
        crate::registry::lemma_register_preserves_wf(rows, k, cands.last());
        lemma_register_stable(rows, k, cands.last());
        assert(results == Seq::<(Id, bool)>::empty().push(
            (rows_register(rows, k, cands.last()).1, rows_register(rows, k, cands.last()).2),
        ));
        assert(results.drop_last() == Seq::<(Id, bool)>::empty());
        assert(created_count(results) == created_count(results.drop_last()) + (if results.last().1 {
            1nat
        } else {
            0nat
        }));
        assert(results.last().1 == rows_register(rows, k, cands.last()).2);
        assert(cands.last() == cands[0]);
        crate::registry::lemma_one_row_per_key(after, k);
    } else {
        let shorter = cands.drop_last();
        lemma_idempotent_creation(rows, k, shorter);
        let mid = rows_after_calls(rows, k, shorter);
        let step = rows_register(mid, k, cands.last());
        crate::registry::lemma_register_preserves_wf(mid, k, cands.last());
        lemma_register_stable(mid, k, cands.last());
        // The key is already present after the shorter run, so the last call
        // changes nothing and observes `was_created == false`.
        assert(rows_contain(mid, k));
        assert(after == mid);
        assert(step.1 == row_id(mid, k));
        assert(results == call_results(rows, k, shorter).push((step.1, step.2)));
        assert(results.drop_last() == call_results(rows, k, shorter));
        assert forall|i: int| 0 <= i < cands.len() implies #[trigger] results[i].0 == row_id(
            after,
            k,
        ) by {
            if i < cands.len() - 1 {
                assert(results[i] == call_results(rows, k, shorter)[i]);
            }
        }
        if !rows_contain(rows, k) {
            assert(shorter[0] == cands[0]);
        }
        crate::registry::lemma_one_row_per_key(after, k);
    }
}

} // verus!
