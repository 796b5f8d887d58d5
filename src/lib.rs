//! A small state-transition runtime: independent pallets for the block
//! number and nonces, balances, and proof-of-existence claims, composed under
//! a runtime that routes tagged calls to them and executes blocks.
pub mod balances;
pub mod proof_of_existence;
pub mod runtime;
pub mod storage;
pub mod support;
pub mod system;
pub mod types;

pub use runtime::{Runtime, RuntimeCall};
