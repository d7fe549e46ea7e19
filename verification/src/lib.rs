//! Core pieces of a Mimblewimble-style chain node: network-parameterised
//! consensus values, the difficulty-window padding, the chain error
//! taxonomy, a verifier cache, and the read-query handlers that resolve
//! headers and blocks by height, hash or output commitment.
pub mod chain;
pub mod consensus;
pub mod encoding;
pub mod error;
pub mod global;
pub mod handlers;
pub mod hash;
pub mod ser;
pub mod types;
pub mod verifier_cache;
