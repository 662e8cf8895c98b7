//! The texture atlas packer: collects equally sized square RGBA textures
//! into one square image laid out as a power-of-four tile grid, and hands
//! out the exact UV rectangle of each inserted texture. Tile `index` sits at
//! grid cell `(index % tiles_per_side, index / tiles_per_side)`, row-major.

use vstd::prelude::*;
use vstd::arithmetic::power2::{
    lemma2_to64,
    lemma_pow2_adds,
    lemma_pow2_pos,
    lemma_pow2_strictly_increases,
    pow2,
};
use vstd::arithmetic::div_mod::lemma_fundamental_div_mod_converse;
use crate::mesh::TexCoord;

verus! {

/// Number of tile slots of an atlas with the given grid level: the grid is
/// `2^level` tiles per side, so it holds `4^level` tiles.
pub open spec fn atlas_capacity(level: nat) -> nat {
    pow2(2 * level)
}

/// The smallest grid level whose tile grid holds `count` textures, i.e.
/// the ceiling of the base-4 logarithm of `count`.
pub open spec fn level_for(count: nat) -> nat
    decreases count,
{
    if count <= 1 {
        0
    } else {
        1 + level_for(((count + 3) / 4) as nat)
    }
}

/// Stepping the grid level up quadruples the capacity.
pub proof fn lemma_capacity_step(level: nat)
    requires
        level >= 1,
    ensures
        atlas_capacity(level) == 4 * atlas_capacity((level - 1) as nat),
{
    lemma2_to64();
    lemma_pow2_adds(2, (2 * level - 2) as nat);
}

/// A grid never shrinks when the level grows.
pub proof fn lemma_capacity_monotone(a: nat, b: nat)
    requires
        a <= b,
    ensures
        atlas_capacity(a) <= atlas_capacity(b),
{
    if a < b {
        lemma_pow2_strictly_increases(2 * a, 2 * b);
    }
}

/// The chosen level always holds all requested textures: the capacity of a
/// `level_for(count)` grid is at least `count`.
pub proof fn lemma_atlas_capacity(count: nat)
    ensures
        atlas_capacity(level_for(count)) >= count,
    decreases count,
{
    if count <= 1 {
        lemma2_to64();
    } else {
        let m = ((count + 3) / 4) as nat;
        lemma_atlas_capacity(m);
        lemma_capacity_step(level_for(count));
        assert(4 * m >= count);
    }
}

/// The chosen level is the smallest that fits: one level down loses at
/// least one of the requested textures.
pub proof fn lemma_atlas_capacity_minimal(count: nat)
    requires
        count >= 2,
    ensures
        atlas_capacity((level_for(count) - 1) as nat) < count,
    decreases count,
{
    let m = ((count + 3) / 4) as nat;
    if m <= 1 {
        lemma2_to64();
    } else {
        lemma_atlas_capacity_minimal(m);
        lemma_capacity_step(level_for(m));
        assert(4 * ((count + 3) / 4) <= count + 3);
        assert(4 * (m - 1) < count);
    }
}

/// Any level whose grid holds `count` textures is at least `level_for(count)`.
pub proof fn lemma_level_le(count: nat, l: nat)
    requires
        count <= atlas_capacity(l),
    ensures
        level_for(count) <= l,
    decreases count,
{
    if count > 1 {
        let m = ((count + 3) / 4) as nat;
        lemma2_to64();
        if l == 0 {
            assert(atlas_capacity(0) == 1);
            assert(false);
        }
        lemma_capacity_step(l);
        assert(m <= atlas_capacity((l - 1) as nat));
        lemma_level_le(m, (l - 1) as nat);
    }
}

/// Byte position in the atlas pixel buffer of byte `x` of row `y` of the
/// tile at `index`, for texture size `ts` and the given grid level. A row of
/// a tile is `4 * ts` bytes; the atlas row stride is the full atlas width.
pub open spec fn spec_atlas_byte(level: nat, ts: int, index: int, y: int, x: int) -> int {
    let tps = pow2(level) as int;
    let side = ts * tps;
    ((index / tps) * ts + y) * (side * 4) + (index % tps) * ts * 4 + x
}

/// Whether byte `i` of the atlas pixel buffer belongs to the tile at
/// `index`.
pub open spec fn tile_covers(level: nat, ts: int, index: int, i: int) -> bool {
    exists|y: int, x: int|
        0 <= y < ts && 0 <= x < 4 * ts && i == spec_atlas_byte(level, ts, index, y, x)
}

/// Each tile byte lies inside the atlas pixel buffer.
proof fn lemma_atlas_byte_bounds(level: nat, ts: int, index: int, y: int, x: int)
    requires
        ts >= 1,
        0 <= index < pow2(level) * pow2(level),
        0 <= y < ts,
        0 <= x < 4 * ts,
    ensures
        0 <= spec_atlas_byte(level, ts, index, y, x) < (ts * pow2(level)) * (ts * pow2(level)) * 4,
{
    let tps = pow2(level) as int;
    let side = ts * tps;
    lemma_pow2_pos(level);
    let row = (index / tps) * ts + y;
    let col = (index % tps) * ts * 4 + x;
    assert(0 <= index / tps < tps && 0 <= index % tps < tps) by (nonlinear_arith)
        requires
            0 <= index < tps * tps,
            tps >= 1,
    ;
    assert(0 <= row < side && 0 <= col < side * 4) by (nonlinear_arith)
        requires
            0 <= index / tps < tps,
            0 <= index % tps < tps,
            0 <= y < ts,
            0 <= x < 4 * ts,
            ts >= 1,
            side == ts * tps,
            row == (index / tps) * ts + y,
            col == (index % tps) * ts * 4 + x,
    ;
    assert(0 <= row * (side * 4) + col < side * side * 4) by (nonlinear_arith)
        requires
            0 <= row < side,
            0 <= col < side * 4,
    ;
}

/// Distinct in-tile byte coordinates name distinct buffer positions.
proof fn lemma_atlas_byte_injective(
    level: nat,
    ts: int,
    index: int,
    y1: int,
    x1: int,
    y2: int,
    x2: int,
)
    requires
        ts >= 1,
        0 <= index < pow2(level) * pow2(level),
        0 <= y1 < ts,
        0 <= x1 < 4 * ts,
        0 <= y2 < ts,
        0 <= x2 < 4 * ts,
        spec_atlas_byte(level, ts, index, y1, x1) == spec_atlas_byte(level, ts, index, y2, x2),
    ensures
        y1 == y2 && x1 == x2,
{
    let tps = pow2(level) as int;
    let side = ts * tps;
    lemma_pow2_pos(level);
    assert(0 <= index / tps < tps && 0 <= index % tps < tps) by (nonlinear_arith)
        requires
            0 <= index < tps * tps,
            tps >= 1,
    ;
    let row1 = (index / tps) * ts + y1;
    let col1 = (index % tps) * ts * 4 + x1;
    let row2 = (index / tps) * ts + y2;
    let col2 = (index % tps) * ts * 4 + x2;
    assert(0 <= col1 < side * 4 && 0 <= col2 < side * 4) by (nonlinear_arith)
        requires
            0 <= index % tps < tps,
            0 <= x1 < 4 * ts,
            0 <= x2 < 4 * ts,
            ts >= 1,
            side == ts * tps,
            col1 == (index % tps) * ts * 4 + x1,
            col2 == (index % tps) * ts * 4 + x2,
    ;
    let v = spec_atlas_byte(level, ts, index, y1, x1);
    assert(v == row1 * (side * 4) + col1);
    assert(v == row2 * (side * 4) + col2);
    lemma_fundamental_div_mod_converse(v, side * 4, row1, col1);
    lemma_fundamental_div_mod_converse(v, side * 4, row2, col2);
    assert(row1 == row2 && col1 == col2);
}

/// A texture atlas: one square RGBA pixel buffer of `texture_size * 2^level`
/// pixels per side, holding up to `4^level` textures of `texture_size`
/// pixels per side, inserted at monotonically increasing indices.
pub struct TextureAtlas {
    texture_data: Vec<u8>,
    texture_size: u32,
    level: u8,
    texture_index: u32,
}

impl TextureAtlas {
    /// Side length of one texture, in pixels.
    pub closed spec fn spec_texture_size(self) -> u32 {
        self.texture_size
    }

    /// The tile-grid level: the atlas is `2^level` tiles per side.
    pub closed spec fn spec_level(self) -> nat {
        self.level as nat
    }

    /// Number of textures inserted so far; also the next insertion index.
    pub closed spec fn spec_count(self) -> u32 {
        self.texture_index
    }

    /// The atlas pixel buffer, RGBA, row-major over the full atlas width.
    pub closed spec fn spec_data(self) -> Seq<u8> {
        self.texture_data@
    }

    /// Tiles per atlas side.
    pub open spec fn spec_tiles_per_side(self) -> nat {
        pow2(self.spec_level())
    }

    /// Atlas side length in pixels.
    pub open spec fn spec_side_length(self) -> int {
        self.spec_texture_size() * self.spec_tiles_per_side()
    }

    pub open spec fn wf(self) -> bool {
        &&& self.spec_level() <= 16
        &&& 1 <= self.spec_texture_size()
        &&& self.spec_side_length() <= 32767
        &&& self.spec_data().len() == self.spec_side_length() * self.spec_side_length() * 4
        &&& self.spec_count() <= atlas_capacity(self.spec_level())
    }

    /// A zero-filled atlas sized for `texture_count` textures of
    /// `texture_size` pixels per side: the smallest power-of-four tile grid
    /// that holds them all.
    pub fn new(texture_size: u32, texture_count: u32) -> (r: TextureAtlas)
        requires
            1 <= texture_size,
            texture_size * pow2(level_for(texture_count as nat)) <= 32767,
        ensures
            r.wf(),
            r.spec_texture_size() == texture_size,
            r.spec_level() == level_for(texture_count as nat),
            r.spec_count() == 0,
            forall|i: int| 0 <= i < r.spec_data().len() ==> r.spec_data()[i] == 0,
    {
        let mut level: u8 = 0;
        let mut capacity: u64 = 1;
        proof {
            lemma2_to64();
        }
        while capacity < texture_count as u64
            invariant
                capacity >= 1,
                capacity == atlas_capacity(level as nat),
                level == 0 || atlas_capacity((level - 1) as nat) < texture_count,
                level <= 16,
            decreases 16 - level as int,
        {
            proof {
                if level >= 16 {
                    lemma2_to64();
                    lemma_capacity_monotone(16, 2 * (level as nat));
                    assert(false);
                }
                lemma_capacity_step((level + 1) as nat);
                lemma_capacity_monotone(0, level as nat);
            }
            capacity = capacity * 4;
            level = level + 1;
        }
        proof {
            lemma_level_le(texture_count as nat, level as nat);
            if (level as nat) > level_for(texture_count as nat) {
                lemma_atlas_capacity(texture_count as nat);
                lemma_capacity_monotone(level_for(texture_count as nat), (level - 1) as nat);
                assert(false);
            }
        }
        let tiles: u32 = pow2_u32(level);
        proof {
            assert((tiles as int) * (texture_size as int) == (texture_size as int) * (
            tiles as int)) by (nonlinear_arith);
        }
        let side: u32 = texture_size * tiles;
        proof {
            assert((side as int) * (side as int) * 4 < 0x1_0000_0000) by (nonlinear_arith)
                requires
                    0 <= side <= 32767,
            ;
        }
        let byte_len: usize = (side as usize) * (side as usize) * 4;
        let mut texture_data: Vec<u8> = Vec::new();
        let mut i: usize = 0;
        while i < byte_len
            invariant
                texture_data@.len() == i,
                i <= byte_len,
                forall|j: int| 0 <= j < i ==> texture_data@[j] == 0,
            decreases byte_len - i,
        {
            texture_data.push(0);
            i = i + 1;
        }
        TextureAtlas { texture_data, texture_size, level, texture_index: 0 }
    }

    /// Tiles per atlas side: `2^level`.
    pub fn textures_per_side(&self) -> (r: u32)
        requires
            self.spec_level() <= 16,
        ensures
            r == self.spec_tiles_per_side(),
            r >= 1,
    {
        pow2_u32(self.level)
    }

    /// Atlas side length in pixels.
    pub fn side_length(&self) -> (r: u32)
        requires
            self.wf(),
        ensures
            r == self.spec_side_length(),
            r >= 1,
    {
        proof {
            assert((self.spec_tiles_per_side() as int) * (self.spec_texture_size() as int) == (
            self.spec_texture_size() as int) * (self.spec_tiles_per_side() as int))
                by (nonlinear_arith);
            lemma_pow2_pos(self.spec_level());
            assert(self.spec_side_length() >= 1) by (nonlinear_arith)
                requires
                    self.spec_texture_size() >= 1,
                    self.spec_tiles_per_side() >= 1,
                    self.spec_side_length() == (self.spec_texture_size() as int) * (
                    self.spec_tiles_per_side() as int),
            ;
        }
        self.textures_per_side() * self.texture_size
    }

    /// Number of textures inserted so far.
    pub fn texture_count(&self) -> (r: u32)
        ensures
            r == self.spec_count(),
    {
        self.texture_index
    }

    /// The atlas pixel buffer, for handing to the GPU-texture boundary.
    pub fn texture_data(&self) -> (r: &Vec<u8>)
        ensures
            r@ == self.spec_data(),
    {
        &self.texture_data
    }

    /// The exact UV rectangle of tile `index`, as rationals over the tile
    /// grid: the minimum corner is `(index % t, index / t) / t` and the
    /// maximum corner is one tile further, for `t` tiles per side.
    pub open spec fn spec_texture_coordinates(self, index: u32) -> (TexCoord, TexCoord) {
        let t = self.spec_tiles_per_side() as int;
        (
            TexCoord {
                u_num: (index as int % t) as u32,
                v_num: (index as int / t) as u32,
                denom: t as u32,
            },
            TexCoord {
                u_num: (index as int % t + 1) as u32,
                v_num: (index as int / t + 1) as u32,
                denom: t as u32,
            },
        )
    }

    /// The exact UV rectangle of tile `index`.
    /// Requesting an index that was never inserted is a contract violation.
    pub fn get_texture_coordinates(&self, index: u32) -> (r: (TexCoord, TexCoord))
        requires
            self.wf(),
            index < self.spec_count(),
        ensures
            r == self.spec_texture_coordinates(index),
            r.0.denom == self.spec_tiles_per_side(),
            r.1.denom == self.spec_tiles_per_side(),
            r.0.u_num == index as int % self.spec_tiles_per_side() as int,
            r.0.v_num == index as int / self.spec_tiles_per_side() as int,
            r.1.u_num == r.0.u_num + 1,
            r.1.v_num == r.0.v_num + 1,
    {
        let tps = self.textures_per_side();
        proof {
            lemma_pow2_adds(self.spec_level(), self.spec_level());
            assert((index as int) / (tps as int) < (tps as int)) by (nonlinear_arith)
                requires
                    0 <= (index as int) < (tps as int) * (tps as int),
                    tps as int >= 1,
            ;
        }
        let tile_x = index % tps;
        let tile_y = index / tps;
        (
            TexCoord { u_num: tile_x, v_num: tile_y, denom: tps },
            TexCoord { u_num: tile_x + 1, v_num: tile_y + 1, denom: tps },
        )
    }

    /// Insert one RGBA texture of exactly `texture_size` pixels per side
    /// into the next free tile, returning the tile index. The tile's bytes
    /// are copied row by row; every byte outside the tile is untouched.
    /// Inserting into a full atlas, or an image of the wrong size, is a
    /// contract violation.
    pub fn add_texture(&mut self, data: &[u8]) -> (r: u32)
        requires
            old(self).wf(),
            data@.len() == old(self).spec_texture_size() * old(self).spec_texture_size() * 4,
            (old(self).spec_count() as nat) < atlas_capacity(old(self).spec_level()),
        ensures
            final(self).wf(),
            final(self).spec_texture_size() == old(self).spec_texture_size(),
            final(self).spec_level() == old(self).spec_level(),
            final(self).spec_count() == old(self).spec_count() + 1,
            r == old(self).spec_count(),
            final(self).spec_data().len() == old(self).spec_data().len(),
            forall|y: int, x: int|
                0 <= y < old(self).spec_texture_size() && 0 <= x < 4 * old(
                    self,
                ).spec_texture_size() ==> final(self).spec_data()[spec_atlas_byte(
                    old(self).spec_level(),
                    old(self).spec_texture_size() as int,
                    old(self).spec_count() as int,
                    y,
                    x,
                )] == data@[y * 4 * old(self).spec_texture_size() + x],
            forall|i: int|
                0 <= i < old(self).spec_data().len() && !tile_covers(
                    old(self).spec_level(),
                    old(self).spec_texture_size() as int,
                    old(self).spec_count() as int,
                    i,
                ) ==> final(self).spec_data()[i] == old(self).spec_data()[i],
    {
        let ghost glevel = self.spec_level();
        let ghost gts = self.spec_texture_size() as int;
        let ghost gindex = self.spec_count() as int;
        let index = self.texture_index;
        let tps = self.textures_per_side();
        let side = self.side_length();
        let ts = self.texture_size;
        proof {
            lemma_pow2_adds(glevel, glevel);
            assert((index as int) % (tps as int) < tps as int && (index as int) / (tps as int)
                < tps as int && 0 <= (index as int) / (tps as int)) by (nonlinear_arith)
                requires
                    0 <= (index as int) < (tps as int) * (tps as int),
                    tps as int >= 1,
            ;
            assert(((index as int) % (tps as int)) * (ts as int) + ts as int <= 32767 && ((
            index as int) / (tps as int)) * (ts as int) + ts as int <= 32767) by (nonlinear_arith)
                requires
                    0 <= (index as int) % (tps as int) < tps as int,
                    0 <= (index as int) / (tps as int) < tps as int,
                    1 <= ts as int,
                    (ts as int) * (tps as int) <= 32767,
            ;
            assert(ts as int <= 32767 && tps as int <= 32767) by (nonlinear_arith)
                requires
                    1 <= ts as int,
                    1 <= tps as int,
                    (ts as int) * (tps as int) <= 32767,
            ;
        }
        let x_offset: usize = ((index % tps) as usize) * (ts as usize);
        let y_offset: usize = ((index / tps) as usize) * (ts as usize);
        let side4: usize = (side as usize) * 4;
        let ts4: usize = (ts as usize) * 4;
        proof {
            assert((y_offset as int) * (side4 as int) <= 32767 * 131068) by (nonlinear_arith)
                requires
                    0 <= y_offset as int <= 32767,
                    0 <= side4 as int <= 131068,
            ;
        }
        let atlas_offset: usize = y_offset * side4 + x_offset * 4;
        let mut y: usize = 0;
        while y < ts as usize
            invariant
                self.texture_size == old(self).texture_size,
                self.level == old(self).level,
                self.texture_index == old(self).texture_index,
                self.texture_data@.len() == old(self).texture_data@.len(),
                old(self).wf(),
                data@.len() == gts * gts * 4,
                glevel == self.spec_level(),
                gts == self.spec_texture_size() as int,
                gindex == self.spec_count() as int,
                gindex < pow2(glevel) * pow2(glevel),
                tps == pow2(glevel),
                ts == gts,
                1 <= gts <= 32767,
                side == gts * pow2(glevel),
                side <= 32767,
                side4 == side * 4,
                ts4 == gts * 4,
                x_offset == (gindex % pow2(glevel) as int) * gts,
                y_offset == (gindex / pow2(glevel) as int) * gts,
                atlas_offset == y_offset * side4 + x_offset * 4,
                atlas_offset < 0x2_0000_0000,
                y <= ts,
                forall|y2: int, x2: int|
                    0 <= y2 < y && 0 <= x2 < 4 * gts ==> self.spec_data()[spec_atlas_byte(
                        glevel,
                        gts,
                        gindex,
                        y2,
                        x2,
                    )] == data@[y2 * 4 * gts + x2],
                forall|i: int|
                    0 <= i < old(self).spec_data().len() && !tile_covers(glevel, gts, gindex, i)
                        ==> self.spec_data()[i] == old(self).spec_data()[i],
            decreases ts as int - y as int,
        {
            let mut x: usize = 0;
            while x < ts4
                invariant
                    self.texture_size == old(self).texture_size,
                    self.level == old(self).level,
                    self.texture_index == old(self).texture_index,
                    self.texture_data@.len() == old(self).texture_data@.len(),
                    old(self).wf(),
                    data@.len() == gts * gts * 4,
                    glevel == self.spec_level(),
                    gts == self.spec_texture_size() as int,
                    gindex == self.spec_count() as int,
                    gindex < pow2(glevel) * pow2(glevel),
                    tps == pow2(glevel),
                    ts == gts,
                    1 <= gts <= 32767,
                    side == gts * pow2(glevel),
                    side <= 32767,
                    side4 == side * 4,
                    ts4 == gts * 4,
                    x_offset == (gindex % pow2(glevel) as int) * gts,
                    y_offset == (gindex / pow2(glevel) as int) * gts,
                    atlas_offset == y_offset * side4 + x_offset * 4,
                    atlas_offset < 0x2_0000_0000,
                    y < ts,
                    x <= ts4,
                    forall|y2: int, x2: int|
                        0 <= y2 < y && 0 <= x2 < 4 * gts ==> self.spec_data()[spec_atlas_byte(
                            glevel,
                            gts,
                            gindex,
                            y2,
                            x2,
                        )] == data@[y2 * 4 * gts + x2],
                    forall|x2: int|
                        0 <= x2 < x ==> self.spec_data()[spec_atlas_byte(
                            glevel,
                            gts,
                            gindex,
                            y as int,
                            x2,
                        )] == data@[y as int * 4 * gts + x2],
                    forall|i: int|
                        0 <= i < old(self).spec_data().len() && !tile_covers(glevel, gts, gindex, i)
                            ==> self.spec_data()[i] == old(self).spec_data()[i],
                decreases ts4 as int - x as int,
            {
                proof {
                    lemma_atlas_byte_bounds(glevel, gts, gindex, y as int, x as int);
                    assert(atlas_offset + y * side4 + x == spec_atlas_byte(
                        glevel,
                        gts,
                        gindex,
                        y as int,
                        x as int,
                    )) by (nonlinear_arith)
                        requires
                            x_offset == (gindex % pow2(glevel) as int) * gts,
                            y_offset == (gindex / pow2(glevel) as int) * gts,
                            atlas_offset == y_offset * side4 + x_offset * 4,
                            side == gts * pow2(glevel),
                            side4 == side * 4,
                            spec_atlas_byte(glevel, gts, gindex, y as int, x as int) == ((gindex
                                / pow2(glevel) as int) * gts + y) * ((gts * pow2(glevel) as int)
                                * 4) + (gindex % pow2(glevel) as int) * gts * 4 + x,
                    ;
                    assert(0 <= (y as int) * (ts4 as int) + (x as int) < data@.len())
                        by (nonlinear_arith)
                        requires
                            0 <= y < gts,
                            0 <= x < ts4 as int,
                            ts4 == 4 * gts,
                            data@.len() == gts * gts * 4,
                    ;
                    assert((side as int) * (side as int) * 4 <= 4294705156) by (nonlinear_arith)
                        requires
                            0 <= side <= 32767,
                    ;
                    assert(gts * gts * 4 <= 4294705156) by (nonlinear_arith)
                        requires
                            0 <= gts <= 32767,
                    ;
                }
                let src: usize = y * ts4 + x;
                let pos: usize = atlas_offset + y * side4 + x;
                let value = data[src];
                self.texture_data.set(pos, value);
                proof {
                    let ghost yi = y as int;
                    let ghost xi = x as int;
                    assert(src as int == yi * 4 * gts + xi) by (nonlinear_arith)
                        requires
                            src as int == yi * (ts4 as int) + xi,
                            ts4 as int == 4 * gts,
                    ;
                    assert forall|y2: int, x2: int|
                        0 <= y2 < yi && 0 <= x2 < 4 * gts implies self.spec_data()[spec_atlas_byte(
                        glevel,
                        gts,
                        gindex,
                        y2,
                        x2,
                    )] == data@[y2 * 4 * gts + x2] by {
                        if spec_atlas_byte(glevel, gts, gindex, y2, x2) == spec_atlas_byte(
                            glevel,
                            gts,
                            gindex,
                            yi,
                            xi,
                        ) {
                            lemma_atlas_byte_injective(glevel, gts, gindex, y2, x2, yi, xi);
                        }
                        lemma_atlas_byte_bounds(glevel, gts, gindex, y2, x2);
                    }
                    assert forall|x2: int|
                        0 <= x2 < xi + 1 implies self.spec_data()[spec_atlas_byte(
                        glevel,
                        gts,
                        gindex,
                        yi,
                        x2,
                    )] == data@[yi * 4 * gts + x2] by {
                        if x2 < xi {
                            if spec_atlas_byte(glevel, gts, gindex, yi, x2) == spec_atlas_byte(
                                glevel,
                                gts,
                                gindex,
                                yi,
                                xi,
                            ) {
                                lemma_atlas_byte_injective(glevel, gts, gindex, yi, x2, yi, xi);
                            }
                            lemma_atlas_byte_bounds(glevel, gts, gindex, yi, x2);
                        }
                    }
                    assert forall|i: int|
                        0 <= i < old(self).spec_data().len() && !tile_covers(
                        glevel,
                        gts,
                        gindex,
                        i,
                    ) implies self.spec_data()[i] == old(self).spec_data()[i] by {
                        assert(tile_covers(
                            glevel,
                            gts,
                            gindex,
                            spec_atlas_byte(glevel, gts, gindex, yi, xi),
                        ));
                    }
                }
                x = x + 1;
            }
            y = y + 1;
        }
        proof {
            assert(index as int + 1 <= 0x4000_0000) by (nonlinear_arith)
                requires
                    0 <= index as int,
                    (index as int) < (tps as int) * (tps as int),
                    1 <= tps as int <= 32767,
            ;
        }
        self.texture_index = index + 1;
        index
    }
}

/// `2^e` as a `u32`, for exponents up to 16.
pub fn pow2_u32(e: u8) -> (r: u32)
    requires
        e <= 16,
    ensures
        r == pow2(e as nat),
        r >= 1,
{
    proof {
        lemma2_to64();
    }
    let mut result: u32 = 1;
    let mut i: u8 = 0;
    while i < e
        invariant
            i <= e,
            e <= 16,
            result == pow2(i as nat),
        decreases e as int - i as int,
    {
        proof {
            lemma_pow2_strictly_increases(i as nat, 16);
            lemma2_to64();
            lemma_pow2_adds(i as nat, 1);
        }
        result = result * 2;
        i = i + 1;
    }
    result
}

} // verus!
