//! An identifier-keyed blob store: byte blobs are stored under fresh
//! 128-bit identifiers and later retrieved or deleted by identifier.
//!
//! `id` defines the identifier type with its canonical string form,
//! `error` the storage failure kinds, `storage` the path layout of the
//! on-disk store, `store` the identifier-to-blob map with its laws, and
//! `adapter` the translation of requests into store operations and of
//! store outcomes into responses.

pub mod adapter;
pub mod error;
pub mod id;
pub mod storage;
pub mod store;
