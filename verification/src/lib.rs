//! A minimal append-only ledger: an ordered chain of blocks, each linked to
//! its predecessor by a cryptographic digest, with a pool of pending
//! transactions and a proof-of-work puzzle gating the creation of new blocks.

pub mod chain;
pub mod encode;
pub mod hash;
pub mod pow;
