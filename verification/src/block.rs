//! A block value: a 16-bit block-type id. Id 0 is the "air" sentinel.

use vstd::prelude::*;

verus! {

/// A block stored densely inside a chunk; a plain value comparable by its
/// block-type id.
#[derive(Clone, Copy, Debug, PartialEq, Eq, Structural)]
pub struct Block {
    block_type: u16,
}

impl Block {
    /// The id of the block's type in the block registry.
    pub closed spec fn spec_block_type(self) -> u16 {
        self.block_type
    }

    pub fn new(block_type: u16) -> (r: Block)
        ensures
            r.spec_block_type() == block_type,
    {
        Block { block_type }
    }

    /// The "air" block: block-type id 0.
    pub fn air() -> (r: Block)
        ensures
            r.spec_block_type() == 0,
    {
        Block { block_type: 0 }
    }

    pub fn block_type(&self) -> (r: u16)
        ensures
            r == self.spec_block_type(),
    {
        self.block_type
    }
}

} // verus!
