//! Chain identifiers: a network is named either by a well-known chain of the
//! registry or by its raw number, and the two forms are kept apart by a
//! canonical-form rule.

pub mod chain;
pub mod registry;
pub mod text;
pub mod wide;

pub use chain::{ChainError, ChainId, Scalar};
pub use ethers_core::types::Chain as NamedChain;
