//! The candidate block as the orphan validator consumes it, reduced to the
//! plain values the stateless checks read, together with the per-epoch
//! consensus constants looked up by block height.

use vstd::prelude::*;

verus! {

/// The per-epoch rule parameters that govern the heights of one epoch.
#[derive(Clone, Copy, Debug, PartialEq, Eq, Structural)]
pub struct ConsensusConstants {
    /// The largest total weight a block body may have.
    pub max_block_weight: u64,
    /// Allow-list of output types, as a bitmask over type discriminants:
    /// bit `t` set means type `t` is permitted in this epoch.
    pub permitted_output_types: u64,
}

/// The header fields the stateless checks read.
#[derive(Clone, Copy, Debug, PartialEq, Eq, Structural)]
pub struct BlockHeader {
    /// Height of the candidate block; `0` is the pre-trusted genesis block,
    /// which is never a candidate for orphan validation.
    pub height: u64,
}

/// An input spending an earlier output.
#[derive(Clone, Copy, Debug, PartialEq, Eq, Structural)]
pub struct TransactionInput {
    /// The earliest block height at which the spent output may be spent.
    pub maturity: u64,
}

/// An output created by the block.
#[derive(Clone, Copy, Debug, PartialEq, Eq, Structural)]
pub struct TransactionOutput {
    /// Discriminant of the output's declared type.
    pub output_type: u64,
}

/// A transaction kernel.
#[derive(Clone, Copy, Debug, PartialEq, Eq, Structural)]
pub struct TransactionKernel {
    /// The earliest block height at which the kernel is valid.
    pub lock_height: u64,
}

/// The ordered collections making up a block's body.
#[derive(Debug)]
pub struct AggregateBody {
    pub inputs: Vec<TransactionInput>,
    pub outputs: Vec<TransactionOutput>,
    pub kernels: Vec<TransactionKernel>,
}

/// A candidate block.
#[derive(Debug)]
pub struct Block {
    pub header: BlockHeader,
    pub body: AggregateBody,
}

} // verus!
