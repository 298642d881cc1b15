//! Transaction and block environments for parallel EVM execution, and their
//! projections into the contexts that REVM consumes.
//!
//! The environments are plain owned records. Each projection builds a fresh
//! REVM value and leaves its source untouched.

pub mod alloy_types;
pub mod compat;
pub mod revm_types;
pub mod tx_env;

pub use compat::{get_block_env, BlockHeader};
pub use tx_env::{TransactTo, TxEnv};
