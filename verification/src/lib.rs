//! An authorization protocol for contracts: a contract can check, at
//! invocation time, that a specific identity (a key holder or another
//! contract) has approved the exact call being made, with a per-identity
//! monotonic nonce preventing replay of a consumed approval.

pub mod errors;
pub mod identity;
pub mod codec;
pub mod nonce;
pub mod hostio;
pub mod context;
pub mod engine;
pub mod address;
pub mod example;
pub mod laws;
