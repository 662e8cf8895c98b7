//! Terrain construction: fill a chunk from a 16x16 grid of sampled terrain
//! heights, one column of solid ground per horizontal cell, plus a small
//! fixed landmark built into the chunk at the origin. The height samples
//! themselves come from a noise source outside this crate; this module is
//! the part that decides every block from those plain values.

use vstd::prelude::*;
use crate::block::Block;
use crate::chunk::{valid_local, Chunk};
use crate::math::{Vec2i, Vec3i16};

verus! {

/// The block type generated at local position `lp` of the chunk at
/// `chunk_position`, for the given height samples (indexed `x * 16 + z`)
/// and block ids: ground up to the column's height, air above, and at the
/// origin chunk a landmark of one dirt row and two cobblestone rows
/// crossing at `(0, 100, 0)`, built after the terrain (later rows win).
pub open spec fn spec_generated_block_type(
    chunk_position: Vec2i,
    heights: Seq<i16>,
    dirt_id: u16,
    cobblestone_id: u16,
    lp: Vec3i16,
) -> u16 {
    let base: u16 = if lp.y < heights[lp.x * 16 + lp.z] {
        dirt_id
    } else {
        0
    };
    if chunk_position == (Vec2i { x: 0, y: 0 }) {
        if lp.x == 0 && lp.y == 100 && 0 <= lp.z < 8 {
            cobblestone_id
        } else if lp.x == 0 && lp.z == 0 && 100 <= lp.y < 108 {
            cobblestone_id
        } else if lp.z == 0 && lp.y == 100 && 0 <= lp.x < 8 {
            dirt_id
        } else {
            base
        }
    } else {
        base
    }
}

/// Build one chunk from its height samples: every block below its column's
/// height is ground, everything above is air, and the origin chunk carries
/// the landmark.
pub fn generate_chunk(
    chunk_position: Vec2i,
    heights: &Vec<i16>,
    dirt_id: u16,
    cobblestone_id: u16,
) -> (r: Chunk)
    requires
        heights@.len() == 256,
        forall|i: int| 0 <= i < 256 ==> #[trigger] heights@[i] <= 320,
    ensures
        r.wf(),
        r.spec_position() == chunk_position,
        forall|lp: Vec3i16|
            valid_local(lp) ==> (#[trigger] r.block_at(lp)).spec_block_type()
                == spec_generated_block_type(
                chunk_position,
                heights@,
                dirt_id,
                cobblestone_id,
                lp,
            ),
{
    let ghost hs = heights@;
    let mut chunk = Chunk::new(chunk_position);
    let mut x: u16 = 0;
    while x < 16
        invariant
            chunk.wf(),
            chunk.spec_position() == chunk_position,
            heights@ == hs,
            hs.len() == 256,
            forall|i: int| 0 <= i < 256 ==> #[trigger] hs[i] <= 320,
            x <= 16,
            forall|lp: Vec3i16|
                valid_local(lp) && lp.x < x ==> (#[trigger] chunk.block_at(lp)).spec_block_type()
                    == (if lp.y < hs[lp.x * 16 + lp.z] {
                    dirt_id
                } else {
                    0
                }),
            forall|lp: Vec3i16|
                valid_local(lp) && lp.x >= x ==> (#[trigger] chunk.block_at(lp)).spec_block_type()
                    == 0,
        decreases 16 - x,
    {
        let mut z: u16 = 0;
        while z < 16
            invariant
                chunk.wf(),
                chunk.spec_position() == chunk_position,
                heights@ == hs,
                hs.len() == 256,
                forall|i: int| 0 <= i < 256 ==> #[trigger] hs[i] <= 320,
                x < 16,
                z <= 16,
                forall|lp: Vec3i16|
                    valid_local(lp) && (lp.x < x || (lp.x == x && lp.z < z)) ==> (
                    #[trigger] chunk.block_at(lp)).spec_block_type() == (if lp.y < hs[lp.x * 16
                        + lp.z] {
                        dirt_id
                    } else {
                        0
                    }),
                forall|lp: Vec3i16|
                    valid_local(lp) && (lp.x > x || (lp.x == x && lp.z >= z)) ==> (
                    #[trigger] chunk.block_at(lp)).spec_block_type() == 0,
            decreases 16 - z,
        {
            let height = heights[(x * 16 + z) as usize];
            let mut y: i16 = -64;
            while y < height
                invariant
                    chunk.wf(),
                    chunk.spec_position() == chunk_position,
                    heights@ == hs,
                    hs.len() == 256,
                    forall|i: int| 0 <= i < 256 ==> #[trigger] hs[i] <= 320,
                    x < 16,
                    z < 16,
                    height == hs[x as int * 16 + z as int],
                    -64 <= y <= 320,
                    y <= height || y == -64,
                    forall|lp: Vec3i16|
                        valid_local(lp) && (lp.x < x || (lp.x == x && lp.z < z)) ==> (
                        #[trigger] chunk.block_at(lp)).spec_block_type() == (if lp.y < hs[lp.x * 16
                            + lp.z] {
                            dirt_id
                        } else {
                            0
                        }),
                    forall|lp: Vec3i16|
                        valid_local(lp) && lp.x == x && lp.z == z && lp.y < y ==> (
                        #[trigger] chunk.block_at(lp)).spec_block_type() == dirt_id,
                    forall|lp: Vec3i16|
                        valid_local(lp) && lp.x == x && lp.z == z && lp.y >= y ==> (
                        #[trigger] chunk.block_at(lp)).spec_block_type() == 0,
                    forall|lp: Vec3i16|
                        valid_local(lp) && (lp.x > x || (lp.x == x && lp.z > z)) ==> (
                        #[trigger] chunk.block_at(lp)).spec_block_type() == 0,
                decreases height as int - y as int,
            {
                chunk.set_block(
                    Vec3i16 { x: x as i16, y, z: z as i16 },
                    Block::new(dirt_id),
                );
                y = y + 1;
            }
            z = z + 1;
        }
        x = x + 1;
    }
    if chunk_position.x == 0 && chunk_position.y == 0 {
        let ghost terrain = chunk;
        let mut sx: i16 = 0;
        while sx < 8
            invariant
                chunk.wf(),
                chunk.spec_position() == chunk_position,
                chunk_position == (Vec2i { x: 0, y: 0 }),
                0 <= sx <= 8,
                forall|lp: Vec3i16|
                    valid_local(lp) && lp.z == 0 && lp.y == 100 && 0 <= lp.x < sx ==> (
                    #[trigger] chunk.block_at(lp)).spec_block_type() == dirt_id,
                forall|lp: Vec3i16|
                    valid_local(lp) && !(lp.z == 0 && lp.y == 100 && 0 <= lp.x < sx)
                        ==> #[trigger] chunk.block_at(lp) == terrain.block_at(lp),
            decreases 8 - sx,
        {
            chunk.set_block(Vec3i16 { x: sx, y: 100, z: 0 }, Block::new(dirt_id));
            sx = sx + 1;
        }
        let ghost after_row = chunk;
        let mut sy: i16 = 100;
        while sy < 108
            invariant
                chunk.wf(),
                chunk.spec_position() == chunk_position,
                chunk_position == (Vec2i { x: 0, y: 0 }),
                100 <= sy <= 108,
                forall|lp: Vec3i16|
                    valid_local(lp) && lp.x == 0 && lp.z == 0 && 100 <= lp.y < sy ==> (
                    #[trigger] chunk.block_at(lp)).spec_block_type() == cobblestone_id,
                forall|lp: Vec3i16|
                    valid_local(lp) && !(lp.x == 0 && lp.z == 0 && 100 <= lp.y < sy)
                        ==> #[trigger] chunk.block_at(lp) == after_row.block_at(lp),
            decreases 108 - sy,
        {
            chunk.set_block(Vec3i16 { x: 0, y: sy, z: 0 }, Block::new(cobblestone_id));
            sy = sy + 1;
        }
        let ghost after_column = chunk;
        let mut sz: i16 = 0;
        while sz < 8
            invariant
                chunk.wf(),
                chunk.spec_position() == chunk_position,
                chunk_position == (Vec2i { x: 0, y: 0 }),
                0 <= sz <= 8,
                forall|lp: Vec3i16|
                    valid_local(lp) && lp.x == 0 && lp.y == 100 && 0 <= lp.z < sz ==> (
                    #[trigger] chunk.block_at(lp)).spec_block_type() == cobblestone_id,
                forall|lp: Vec3i16|
                    valid_local(lp) && !(lp.x == 0 && lp.y == 100 && 0 <= lp.z < sz)
                        ==> #[trigger] chunk.block_at(lp) == after_column.block_at(lp),
            decreases 8 - sz,
        {
            chunk.set_block(Vec3i16 { x: 0, y: 100, z: sz }, Block::new(cobblestone_id));
            sz = sz + 1;
        }
        proof {
            assert forall|lp: Vec3i16| valid_local(lp) implies (
            #[trigger] chunk.block_at(lp)).spec_block_type() == spec_generated_block_type(
                chunk_position,
                hs,
                dirt_id,
                cobblestone_id,
                lp,
            ) by {
            }
        }
    }
    chunk
}

} // verus!
