//! A single-node append-only ledger: a chain of blocks linked by hashes,
//! each holding a pool of transactions, sealed by a proof-of-work search.

pub mod chain;
pub mod fingerprint;
pub mod laws;
pub mod merkle;
pub mod pow;
pub mod text;
pub mod types;
