//! Core logic of the Tint shielded-pool SDK: a key-value storage
//! abstraction with an in-memory backend, the bookkeeping of the on-chain
//! event indexer, and the note-commitment data model.

pub mod bytes;
pub mod kv;
pub mod indexer;
pub mod field;
pub mod commitment;
pub mod provider;
pub mod matrices;
pub mod groth16;
