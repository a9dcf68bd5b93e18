//! A minimal deterministic ledger runtime.
//!
//! The runtime composes three independent state modules ("pallets") behind a
//! single dispatch surface: `system` tracks the block height and per-account
//! transaction counters, `balances` keeps account balances and transfers
//! funds with checked arithmetic, and `proof_of_existence` records which
//! account claims a given piece of content.  `runtime` ties them together and
//! executes ordered blocks of extrinsics with fail-isolated error handling.

pub mod balances;
pub mod proof_of_existence;
pub mod runtime;
pub mod support;
pub mod system;
pub mod types;
