//! The concrete types this runtime is wired with.  Every module shares the
//! same identifier and numeric types through these aliases.

use vstd::prelude::*;

verus! {

/// An account is identified by an opaque, cloneable string.
pub type AccountId = String;

/// Balances are unsigned 128-bit amounts with checked arithmetic.
pub type Amount = u128;

/// Block numbers count up from zero, one per executed block.
pub type BlockNumber = u32;

/// A nonce counts the extrinsics attributed to one account.
pub type Nonce = u32;

/// Content is identified by an opaque string fingerprint.
pub type Content = String;

/// An extrinsic of this runtime: an account and a runtime-level call.
pub type Extrinsic = crate::support::Extrinsic<AccountId, crate::runtime::RuntimeCall>;

/// A block header of this runtime.
pub type Header = crate::support::Header<BlockNumber>;

/// A block of this runtime.
pub type Block = crate::support::Block<Header, Extrinsic>;

} // verus!
