//! Read-only reconstruction of message records from a chat-message store.
//!
//! Timestamps, query construction, row mapping, text recovery and the
//! assembly of composite message views are verified here; executing queries
//! against the store is left to the caller.
pub mod epoch;
pub mod fetch;
pub mod query;
pub mod record;
pub mod text;
