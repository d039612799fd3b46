//! The get-or-create engine: one registry per entity kind, keyed on the
//! entity's natural key.
//!
//! A [`Registry`] models the store-side table for one entity kind together
//! with its unique constraint on the natural key. Each [`Registry::register`]
//! call is one atomic store round trip: it inserts the candidate row
//! if-and-only-if no row with the same natural key exists, and otherwise
//! returns the pre-existing row's identifier. A natural-key collision is
//! never an error; the operation is total.

use vstd::prelude::*;

use crate::ids::Id;

verus! {

/// One row: a natural key and the identifier of the record that owns it.
pub struct Entry {
    pub key: String,
    pub id: Id,
}

/// The rows of one entity kind's table, in insertion order.
///
/// The public invariant [`Registry::wf`] states the store's unique
/// constraint: no two rows share a natural key.
pub struct Registry {
    pub entries: Vec<Entry>,
}

/// The abstract content of a registry: each row as (natural key, identifier).
pub open spec fn rows_of(entries: Seq<Entry>) -> Seq<(Seq<char>, Id)> {
    entries.map_values(|e: Entry| (e.key@, e.id))
}

/// Whether some row of `rows` holds the natural key `k`.
pub open spec fn rows_contain(rows: Seq<(Seq<char>, Id)>, k: Seq<char>) -> bool {
    exists|i: int| 0 <= i < rows.len() && rows[i].0 == k
}

/// The identifier of the row holding `k` (meaningful when `rows_contain`).
pub open spec fn row_id(rows: Seq<(Seq<char>, Id)>, k: Seq<char>) -> Id {
    rows[choose|i: int| 0 <= i < rows.len() && rows[i].0 == k].1
}

/// Whether some row of `rows` carries the identifier `id`.
pub open spec fn rows_contain_id(rows: Seq<(Seq<char>, Id)>, id: Id) -> bool {
    exists|i: int| 0 <= i < rows.len() && rows[i].1 == id
}

/// The unique constraint: pairwise distinct natural keys.
pub open spec fn rows_wf(rows: Seq<(Seq<char>, Id)>) -> bool {
    forall|i: int, j: int| 0 <= i < j < rows.len() ==> rows[i].0 != rows[j].0
}

/// How many rows hold the natural key `k`.
pub open spec fn row_count(rows: Seq<(Seq<char>, Id)>, k: Seq<char>) -> nat
    decreases rows.len(),
{
    if rows.len() == 0 {
        0
    } else {
        row_count(rows.drop_last(), k) + (if rows.last().0 == k {
            1nat
        } else {
            0nat
        })
    }
}

/// One atomic get-or-create step on the abstract rows: the resulting rows,
/// the resolved identifier, and whether a row was created.
pub open spec fn rows_register(rows: Seq<(Seq<char>, Id)>, k: Seq<char>, candidate: Id) -> (
    Seq<(Seq<char>, Id)>,
    Id,
    bool,
) {
    if rows_contain(rows, k) {
        (rows, row_id(rows, k), false)
    } else {
        (rows.push((k, candidate)), candidate, true)
    }
}

impl Registry {
    /// The abstract content of this registry.
    pub open spec fn rows(self) -> Seq<(Seq<char>, Id)> {
        rows_of(self.entries@)
    }

    /// The store's unique constraint on this registry's natural key.
    pub open spec fn wf(self) -> bool {
        rows_wf(self.rows())
    }

    /// An empty table.
    pub fn new() -> (r: Registry)
        ensures
            r.rows() == Seq::<(Seq<char>, Id)>::empty(),
            r.wf(),
    {
        let r = Registry { entries: Vec::new() };
        proof {
            assert(r.rows() =~= Seq::<(Seq<char>, Id)>::empty());
        }
        r
    }

    /// Lookup by natural key.
    pub fn lookup(&self, key: &String) -> (r: Option<Id>)
        requires
            self.wf(),
        ensures
            match r {
                Some(id) => rows_contain(self.rows(), key@) && id == row_id(self.rows(), key@),
                None => !rows_contain(self.rows(), key@),
            },
    {
        let n = self.entries.len();
        let mut i: usize = 0;
        while i < n
            invariant
                n == self.entries.len(),
                i <= n,
                self.wf(),
                forall|j: int| 0 <= j < i ==> self.rows()[j].0 != key@,
            decreases n - i,
        {
            if self.entries[i].key == *key {
                proof {
                    let found = i as int;
                    assert(self.rows()[found].0 == key@);
                    let w = choose|m: int|
                        0 <= m < self.rows().len() && self.rows()[m].0 == key@;
                    assert(w == found);
                }
                return Some(self.entries[i].id);
            }
            i += 1;
        }
        None
    }

    /// Whether any row carries the identifier `id`; used to validate a
    /// record's reference to its parent entity.
    pub fn contains_id(&self, id: Id) -> (r: bool)
        ensures
            r == rows_contain_id(self.rows(), id),
    {
        let n = self.entries.len();
        let mut i: usize = 0;
        while i < n
            invariant
                n == self.entries.len(),
                i <= n,
                forall|j: int| 0 <= j < i ==> self.rows()[j].1 != id,
            decreases n - i,
        {
            if self.entries[i].id == id {
                proof {
                    assert(self.rows()[i as int].1 == id);
                }
                return true;
            }
            i += 1;
        }
        false
    }

    /// The get-or-create operation, as one atomic round trip.
    ///
    /// Inserts the candidate row if-and-only-if no row with the same natural
    /// key exists; otherwise leaves the table unchanged and resolves to the
    /// pre-existing identifier. It returns the resolved identifier and
    /// whether the row was created; it has no error outcome, so a
    /// natural-key collision is never surfaced as a failure.
    pub fn register(&mut self, key: &String, candidate: Id) -> (r: (Id, bool))
        requires
            old(self).wf(),
        ensures
            final(self).wf(),
            (final(self).rows(), r.0, r.1) == rows_register(old(self).rows(), key@, candidate),
    {
        match self.lookup(key) {
            Some(id) => (id, false),
            None => {
                let ghost old_rows = self.rows();
                self.entries.push(Entry { key: key.clone(), id: candidate });
                proof {
                    assert(self.rows() =~= old_rows.push((key@, candidate)));
                    lemma_register_preserves_wf(old_rows, key@, candidate);
                }
                (candidate, true)
            },
        }
    }
}

/// A registered key has exactly one row, and every other key at most one:
/// the unique constraint, stated as a count.
pub proof fn lemma_one_row_per_key(rows: Seq<(Seq<char>, Id)>, k: Seq<char>)
    requires
        rows_wf(rows),
    ensures
        row_count(rows, k) == if rows_contain(rows, k) {
            1nat
        } else {
            0nat
        },
    decreases rows.len(),
{
    if rows.len() > 0 {
        let head = rows.drop_last();
        assert(rows_wf(head)) by {
            assert(forall|i: int, j: int|
                0 <= i < j < head.len() ==> head[i].0 == rows[i].0 && head[j].0 == rows[j].0);
        }
        lemma_one_row_per_key(head, k);
        if rows.last().0 == k {
            assert(!rows_contain(head, k)) by {
                if rows_contain(head, k) {
                    let i = choose|i: int| 0 <= i < head.len() && head[i].0 == k;
                    assert(rows[i].0 == k);
                }
            }
            assert(rows_contain(rows, k)) by {
                assert(rows[rows.len() - 1].0 == k);
            }
        } else {
            assert(rows_contain(rows, k) == rows_contain(head, k)) by {
                if rows_contain(rows, k) {
                    let i = choose|i: int| 0 <= i < rows.len() && rows[i].0 == k;
                    assert(i < head.len() && head[i].0 == k);
                }
                if rows_contain(head, k) {
                    let i = choose|i: int| 0 <= i < head.len() && head[i].0 == k;
                    assert(rows[i].0 == k);
                }
            }
        }
    }
}

/// Registering preserves the unique constraint.
pub proof fn lemma_register_preserves_wf(rows: Seq<(Seq<char>, Id)>, k: Seq<char>, candidate: Id)
    requires
        rows_wf(rows),
    ensures
        rows_wf(rows_register(rows, k, candidate).0),
{
    if !rows_contain(rows, k) {
        let pushed = rows.push((k, candidate));
        assert forall|i: int, j: int| 0 <= i < j < pushed.len() implies pushed[i].0
            != pushed[j].0 by {
            if j == rows.len() {
                assert(pushed[i].0 == rows[i].0);
                if rows[i].0 == k {
                    assert(rows_contain(rows, k));
                }
            }
        }
    }
}

} // verus!
