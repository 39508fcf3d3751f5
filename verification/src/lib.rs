//! Storage-access layer for a small resource collection that is served over
//! HTTP and kept either in a key-value store or in a relational store.
//!
//! The library holds every decision of that layer and performs no I/O. Each
//! operation is a small state machine: the embedding application acquires a
//! pooled connection, performs the request that the machine names, and hands
//! back what the backend answered. The process keeps no state of its own
//! between requests; identifiers, records and the index live in the backend.
//!
//! - [`record`], [`error`], [`key`]: the records, the failures and how they
//!   are reported, and the keys of the key-value backend.
//! - [`kv`]: the key-value adapter. [`kv_model`] models its backend,
//!   [`kv_laws`] states what holds of whole operations, and
//!   [`kv_interleaving`] what holds when operations run at the same time.
//! - [`sql`], [`statements`]: the relational adapter and its statement
//!   cache. [`sql_model`] models its backend and [`sql_laws`] states what
//!   holds of whole operations.
//! - [`startup`], [`client`]: what the server decides when it starts, and
//!   what the interactive client decides.

pub mod client;
pub mod error;
pub mod key;
pub mod kv;
pub mod kv_interleaving;
pub mod kv_laws;
pub mod kv_model;
pub mod record;
pub mod sql;
pub mod sql_laws;
pub mod sql_model;
pub mod startup;
pub mod statements;
pub mod text;
