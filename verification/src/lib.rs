//! Idempotent registration of content-aggregation entities.
//!
//! The crate models the get-or-create protocol that keeps exactly one record
//! per natural key (a URL, a GUID, a company name) no matter how many callers
//! try to create the same entity, together with the creation-event fan-out
//! that notifies downstream consumers exactly once per newly created company.

pub mod catalog;
pub mod classify;
pub mod codec;
pub mod config;
pub mod ids;
pub mod models;
pub mod protocol;
pub mod registry;
pub mod subscriber;
