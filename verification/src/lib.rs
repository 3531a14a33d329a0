//! Adapter for a constant-pool decentralized exchange program.
//!
//! The crate decodes the pool's on-chain account state, computes swap
//! quotes against a cached snapshot of that state, and encodes the byte
//! payloads and account lists of the pool program's instructions.

pub mod addr;
pub mod errors;
pub mod fixed;
pub mod instructions;
pub mod layout;
pub mod quote;
pub mod snapshot;
