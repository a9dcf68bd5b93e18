//! Shared shapes for block execution: a block, its header, and the
//! externally submitted (caller, call) pairs it carries.

use vstd::prelude::*;

verus! {

/// A block: a header plus the ordered list of extrinsics to apply.
/// The order of `extrinsic` is the chain's total order for this block.
pub struct Block<Header, Extrinsic> {
    /// Metadata about the block; in this runtime, just its number.
    pub header: Header,
    /// The transactions to be executed in this block, in order.
    pub extrinsic: Vec<Extrinsic>,
}

/// The header of a block.
pub struct Header<BlockNumber> {
    /// The number of the block, its position in the chain.
    pub block_number: BlockNumber,
}

/// An externally submitted message: who is calling, and what they ask for.
pub struct Extrinsic<Caller, Call> {
    /// The identity the call is attributed to.
    pub caller: Caller,
    /// The module operation being requested.
    pub call: Call,
}

} // verus!
