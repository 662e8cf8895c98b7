//! A chunk: a dense 16 x 384 x 16 grid of blocks at a fixed 2D chunk
//! coordinate in the infinite horizontal world grid. Local block coordinates
//! use world-space y (from `LOWEST_HEIGHT` up) and chunk-local x and z in
//! `0..16`.

use vstd::prelude::*;
use crate::block::Block;
use crate::math::{Vec2i, Vec3i, Vec3i16};

verus! {

/// Width of a chunk along the world X axis, in blocks.
pub const SIZE_X: u16 = 16;

/// Vertical span of a chunk, in blocks.
pub const SIZE_Y: u16 = 384;

/// Width of a chunk along the world Z axis, in blocks.
pub const SIZE_Z: u16 = 16;

/// The lowest world-space y coordinate a block can have. Valid block y
/// coordinates are `LOWEST_HEIGHT..LOWEST_HEIGHT + 384`.
pub const LOWEST_HEIGHT: i16 = -64;

/// Number of blocks in a chunk: 384 * 16 * 16.
pub const BLOCK_COUNT: usize = 98304;

/// Chunk coordinates this close to the i32 range ends keep all block
/// positions of the chunk and of its direct neighbors representable in i32.
pub open spec fn chunk_coord_in_range(p: Vec2i) -> bool {
    -134217727 <= p.x <= 134217726 && -134217727 <= p.y <= 134217726
}

/// A chunk-local block coordinate is valid iff x and z are in `0..16` and y
/// is in the vertical world span.
pub open spec fn valid_local(p: Vec3i16) -> bool {
    &&& 0 <= p.x < 16
    &&& -64 <= p.y < 320
    &&& 0 <= p.z < 16
}

/// Position of a local coordinate in the dense block array, laid out by y,
/// then z, then x.
pub open spec fn block_index(p: Vec3i16) -> int {
    (p.y + 64) * 256 + p.z * 16 + p.x
}

pub proof fn lemma_block_index_bounds(p: Vec3i16)
    requires
        valid_local(p),
    ensures
        0 <= block_index(p) < 98304,
{
}

/// Two distinct valid local coordinates never share an array slot.
pub proof fn lemma_block_index_injective(p: Vec3i16, q: Vec3i16)
    requires
        valid_local(p),
        valid_local(q),
        block_index(p) == block_index(q),
    ensures
        p == q,
{
    assert(p.y == q.y && p.z == q.z && p.x == q.x) by {
        let dy = p.y - q.y;
        let rest = (q.z * 16 + q.x) - (p.z * 16 + p.x);
        assert(dy * 256 == rest);
        assert(-256 < rest < 256);
        assert(dy == 0);
        let dz = p.z - q.z;
        assert(dz * 16 == q.x - p.x);
        assert(dz == 0);
    }
}

/// A dense 3D block grid tied to a 2D chunk coordinate.
pub struct Chunk {
    position: Vec2i,
    blocks: Vec<Block>,
}

impl Chunk {
    /// The block storage always holds exactly one block per cell.
    pub closed spec fn wf(self) -> bool {
        self.blocks.len() == 98304
    }

    /// The chunk's coordinate in the horizontal world grid.
    pub closed spec fn spec_position(self) -> Vec2i {
        self.position
    }

    /// The block stored at a valid local coordinate.
    pub closed spec fn block_at(self, p: Vec3i16) -> Block {
        self.blocks@[block_index(p)]
    }

    /// A fully air-filled chunk at the given coordinate.
    pub fn new(position: Vec2i) -> (r: Chunk)
        ensures
            r.wf(),
            r.spec_position() == position,
            forall|p: Vec3i16| valid_local(p) ==> (#[trigger] r.block_at(p)).spec_block_type() == 0,
    {
        let mut blocks: Vec<Block> = Vec::new();
        let mut i: usize = 0;
        while i < BLOCK_COUNT
            invariant
                blocks.len() == i,
                i <= 98304,
                forall|j: int| 0 <= j < i ==> (#[trigger] blocks@[j]).spec_block_type() == 0,
            decreases 98304 - i,
        {
            blocks.push(Block::air());
            i = i + 1;
        }
        let r = Chunk { blocks, position };
        proof {
            assert forall|p: Vec3i16| valid_local(p) implies (#[trigger] r.block_at(
                p,
            )).spec_block_type() == 0 by {
                lemma_block_index_bounds(p);
            }
        }
        r
    }

    /// Read the block at a valid local coordinate. Reading outside the grid
    /// is a contract violation, not a recoverable error.
    pub fn get_block(&self, position: Vec3i16) -> (r: Block)
        requires
            self.wf(),
            valid_local(position),
        ensures
            r == self.block_at(position),
    {
        proof {
            lemma_block_index_bounds(position);
        }
        let y_off = (position.y - LOWEST_HEIGHT) as usize;
        let idx = y_off * 256 + (position.z as usize) * 16 + (position.x as usize);
        self.blocks[idx]
    }

    /// Write the block at a valid local coordinate; all other cells and the
    /// chunk coordinate are unchanged. Writing outside the grid is a
    /// contract violation.
    pub fn set_block(&mut self, position: Vec3i16, block: Block)
        requires
            old(self).wf(),
            valid_local(position),
        ensures
            final(self).wf(),
            final(self).spec_position() == old(self).spec_position(),
            final(self).block_at(position) == block,
            forall|q: Vec3i16|
                valid_local(q) && q != position ==> final(self).block_at(q) == old(
                    self,
                ).block_at(q),
    {
        proof {
            lemma_block_index_bounds(position);
        }
        let y_off = (position.y - LOWEST_HEIGHT) as usize;
        let idx = y_off * 256 + (position.z as usize) * 16 + (position.x as usize);
        self.blocks.set(idx, block);
        proof {
            assert forall|q: Vec3i16| valid_local(q) && q != position implies self.block_at(q)
                == old(self).block_at(q) by {
                lemma_block_index_bounds(q);
                if block_index(q) == block_index(position) {
                    lemma_block_index_injective(q, position);
                }
            }
        }
    }

    /// Whether a world-space position falls inside this chunk's block grid.
    pub open spec fn contains_world(self, p: Vec3i) -> bool {
        &&& self.spec_position().x * 16 <= p.x < (self.spec_position().x + 1) * 16
        &&& -64 <= p.y < 320
        &&& self.spec_position().y * 16 <= p.z < (self.spec_position().y + 1) * 16
    }

    /// Whether a world-space position falls inside this chunk.
    pub fn position_in_chunk(&self, position: Vec3i) -> (r: bool)
        requires
            chunk_coord_in_range(self.spec_position()),
        ensures
            r == self.contains_world(position),
    {
        self.position.x * (SIZE_X as i32) <= position.x
            && position.x < (self.position.x + 1) * (SIZE_X as i32)
            && (LOWEST_HEIGHT as i32) <= position.y
            && position.y < (SIZE_Y as i32) + (LOWEST_HEIGHT as i32)
            && self.position.y * (SIZE_Z as i32) <= position.z
            && position.z < (self.position.y + 1) * (SIZE_Z as i32)
    }

    /// Treat positions outside the vertical world bounds as solid: below
    /// the lowest height or above the highest, the bedrock and sky
    /// boundaries are never see-through.
    pub fn consider_position_solid(position: Vec3i16) -> (r: bool)
        ensures
            r == (position.y < -64 || position.y >= 320),
    {
        position.y < LOWEST_HEIGHT || position.y >= (SIZE_Y as i16) + LOWEST_HEIGHT
    }

    pub fn position(&self) -> (r: Vec2i)
        ensures
            r == self.spec_position(),
    {
        self.position
    }
}

} // verus!
