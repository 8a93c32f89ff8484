//! A single-slot store for one payment profile record, persisted as
//! pretty-printed JSON.
//!
//! The store keeps at most one record. A record is either an opaque JSON
//! text, validated and re-encoded canonically on every save, or a typed
//! [`profile::Profile`] with a fixed set of string fields. Absence of a
//! stored record is a valid state, distinct from a stored record that
//! fails to parse.

pub mod error;
pub mod json;
pub mod profile;
pub mod store;
