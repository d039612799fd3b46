//! The conflict classifier: the single, auditable decision point that
//! separates the benign natural-key collision from every fatal failure.
//!
//! The decision reads the store's structured error code and constraint
//! name, never free-text wording, so an unrelated unique constraint on the
//! same table cannot be mistaken for the natural-key collision. With a
//! store-level operation that already folds the collision into one round
//! trip, the classifier degenerates to inspecting the returned identifier;
//! [`interpret_returned_id`] is that inspection.

use vstd::prelude::*;

use crate::catalog::{EntityKind, RegisterError};
use crate::ids::Id;

verus! {

/// A structured failure reported by the store for an attempted write.
#[derive(Debug)]
pub enum StoreFailure {
    /// A unique-constraint violation, with the violated constraint's name.
    UniqueViolation { constraint: String },
    /// A foreign-key violation, with the violated constraint's name.
    ForeignKeyViolation { constraint: String },
    /// Connectivity to the store was lost.
    ConnectivityLoss,
    /// The operation exceeded the caller's timeout budget.
    Timeout,
    /// Any other failure, with the store's error code.
    Other { code: String },
}

/// What the registrar does with a failed write.
#[derive(Debug)]
pub enum Classification {
    /// The benign natural-key collision: resolve by lookup, never an error
    /// to the caller.
    Benign,
    /// Anything else: propagate unchanged, annotated with the entity kind
    /// and the attempted natural key.
    Fatal(RegisterError),
}

/// Decides whether a failed write is the benign natural-key collision.
///
/// Benign exactly when the store reports a unique violation on the entity
/// kind's declared natural-key constraint. Every other failure is fatal:
/// a foreign-key violation surfaces as `Validation`, lost connectivity and
/// a timeout as retriable `Transport`, and the rest — including a unique
/// violation on some *other* constraint of the same table — as `Store`.
pub fn classify(
    kind: EntityKind,
    key: &String,
    failure: &StoreFailure,
    natural_key_constraint: &String,
) -> (r: Classification)
    ensures
        (r is Benign) <==> (failure matches StoreFailure::UniqueViolation { constraint }
            && constraint@ == natural_key_constraint@),
        match r {
            Classification::Benign => true,
            Classification::Fatal(e) => match *failure {
                StoreFailure::UniqueViolation { .. } => e matches RegisterError::Store {
                    kind: k,
                    key: nk,
                } && k == kind && nk@ == key@,
                StoreFailure::ForeignKeyViolation { .. } => e matches RegisterError::Validation {
                    kind: k,
                    key: nk,
                } && k == kind && nk@ == key@,
                StoreFailure::ConnectivityLoss => e matches RegisterError::Transport {
                    kind: k,
                    key: nk,
                } && k == kind && nk@ == key@,
                StoreFailure::Timeout => e matches RegisterError::Transport {
                    kind: k,
                    key: nk,
                } && k == kind && nk@ == key@,
                StoreFailure::Other { .. } => e matches RegisterError::Store {
                    kind: k,
                    key: nk,
                } && k == kind && nk@ == key@,
            },
        },
{
    match failure {
        StoreFailure::UniqueViolation { constraint } => {
            if *constraint == *natural_key_constraint {
                Classification::Benign
            } else {
                Classification::Fatal(RegisterError::Store { kind, key: key.clone() })
            }
        },
        StoreFailure::ForeignKeyViolation { .. } => Classification::Fatal(
            RegisterError::Validation { kind, key: key.clone() },
        ),
        StoreFailure::ConnectivityLoss => Classification::Fatal(
            RegisterError::Transport { kind, key: key.clone() },
        ),
        StoreFailure::Timeout => Classification::Fatal(
            RegisterError::Transport { kind, key: key.clone() },
        ),
        StoreFailure::Other { .. } => Classification::Fatal(
            RegisterError::Store { kind, key: key.clone() },
        ),
    }
}

/// Collision transparency: whatever the entity kind and key, a unique
/// violation on that kind's own natural-key constraint is always benign,
/// so the collision path is unreachable as a caller-visible failure.
pub proof fn lemma_collision_is_benign(
    kind: EntityKind,
    key: String,
    constraint: String,
    r: Classification,
)
    requires
        call_ensures(
            classify,
            (kind, &key, &StoreFailure::UniqueViolation { constraint }, &constraint),
            r,
        ),
    ensures
        r is Benign,
{
}

/// Interprets the identifier handed back by the store's folded
/// insert-or-lookup round trip, which always returns exactly one row: the
/// write created the row exactly when the returned identifier is the
/// caller's provisional one; otherwise the returned identifier is the
/// pre-existing row's, and the provisional one is discarded.
pub fn interpret_returned_id(provisional: Id, returned: Id) -> (r: (Id, bool))
    ensures
        r.0 == returned,
        r.1 == (returned == provisional),
{
    (returned, returned == provisional)
}

} // verus!
