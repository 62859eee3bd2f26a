//! What every worker shares: where the world lives on the ledger and at
//! which block it is read. It is set once and never changed.

use crate::felt::Felt;
use vstd::prelude::*;

verus! {

/// A block named by its standing in the chain.
#[derive(Clone, Copy, Debug, PartialEq, Eq, Structural)]
pub enum BlockTag {
    /// The last block that was accepted.
    Latest,
    /// The block that is being built.
    Pending,
}

/// A reference to a block.
#[derive(Clone, Copy, Debug, PartialEq, Eq)]
pub enum BlockId {
    /// The block with this hash.
    Hash(Felt),
    /// The block with this number.
    Number(u64),
    /// The block with this standing.
    Tag(BlockTag),
}

/// The environment of the workers.
#[derive(Clone, Copy, Debug, PartialEq, Eq)]
pub struct DojoEnv {
    block_id: BlockId,
    world_address: Felt,
}

impl DojoEnv {
    /// The block at which the ledger is read.
    pub closed spec fn spec_block_id(&self) -> BlockId {
        self.block_id
    }

    /// The address of the world on the ledger.
    pub closed spec fn spec_world_address(&self) -> Felt {
        self.world_address
    }

    /// The environment of the world at `world_address`, read at the latest
    /// block.
    pub fn new(world_address: Felt) -> (env: DojoEnv)
        ensures
            env.spec_world_address() == world_address,
            env.spec_block_id() == BlockId::Tag(BlockTag::Latest),
    {
        DojoEnv { world_address, block_id: BlockId::Tag(BlockTag::Latest) }
    }

    /// The block at which the ledger is read.
    pub fn block_id(&self) -> (block_id: BlockId)
        ensures
            block_id == self.spec_block_id(),
    {
        self.block_id
    }

    /// The address of the world on the ledger.
    pub fn world_address(&self) -> (world_address: Felt)
        ensures
            world_address == self.spec_world_address(),
    {
        self.world_address
    }
}

} // verus!
