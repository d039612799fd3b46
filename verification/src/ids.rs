//! Record identifiers and the identity generator.

use vstd::prelude::*;

verus! {

/// A 128-bit record identifier, held as two 64-bit halves.
///
/// An identifier produced by [`fresh_id`] is *provisional*: it becomes a
/// record's permanent identifier only if no record with the same natural key
/// already exists. Otherwise the pre-existing identifier stays authoritative
/// and the provisional one is discarded.
#[derive(Clone, Copy, Debug, PartialEq, Eq, Hash, Structural)]
pub struct Id {
    pub hi: u64,
    pub lo: u64,
}

impl Id {
    /// Builds an identifier from its two 64-bit halves.
    pub fn from_parts(hi: u64, lo: u64) -> (r: Id)
        ensures
            r.hi == hi,
            r.lo == lo,
    {
        Id { hi, lo }
    }
}

/// Draws a fresh random candidate identifier with no coordination with any
/// store; it cannot fail and has no side effects.
///
/// Relies on `uuid::Uuid::new_v4` for the 128 random bits and
/// `uuid::Uuid::as_u64_pair` to read them back. The value is random, so
/// nothing is assumed about it; every caller must work for every value.
#[verifier::external_body]
pub(crate) fn fresh_id() -> Id {
    let (hi, lo) = uuid::Uuid::new_v4().as_u64_pair();
    Id { hi, lo }
}

/// Reads the current wall-clock time as milliseconds since the Unix epoch.
///
/// Relies on `chrono::Utc::now` and `chrono::DateTime::timestamp_millis`.
/// The clock is outside the program, so nothing is assumed of the value.
#[verifier::external_body]
pub(crate) fn now_millis() -> i64 {
    chrono::Utc::now().timestamp_millis()
}

} // verus!
