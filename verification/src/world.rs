//! The world: a sparse mapping from 2D chunk coordinates to chunks, with the
//! coordinate conversions between world space and chunk-local space. Chunk
//! coordinates are unique keys; the world owns its chunks exclusively.

use vstd::prelude::*;
use vstd::arithmetic::div_mod::lemma_fundamental_div_mod_converse;
use crate::block::Block;
use crate::chunk::Chunk;
use crate::math::{div_floor_16, rem_euclid_16, Vec2i, Vec3i, Vec3i16};

verus! {

/// The chunk coordinate of the chunk containing a world-space position.
pub open spec fn spec_chunk_coord(p: Vec3i) -> Vec2i {
    Vec2i { x: (p.x as int / 16) as i32, y: (p.z as int / 16) as i32 }
}

/// The chunk-local coordinate of a world-space position: x and z reduced
/// modulo 16, y unchanged.
pub open spec fn spec_local_position(p: Vec3i) -> Vec3i16 {
    Vec3i16 { x: (p.x as int % 16) as i16, y: p.y as i16, z: (p.z as int % 16) as i16 }
}

/// A world-space position is inside the world iff its y coordinate lies in
/// the vertical block span.
pub open spec fn spec_position_in_world(p: Vec3i) -> bool {
    -64 <= p.y < 320
}

/// The world-space position of a chunk-local coordinate of the chunk at the
/// given chunk coordinate.
pub open spec fn spec_world_position(chunk_block_position: Vec3i16, chunk_position: Vec2i) -> Vec3i {
    Vec3i {
        x: (chunk_block_position.x + chunk_position.x * 16) as i32,
        y: chunk_block_position.y as i32,
        z: (chunk_block_position.z + chunk_position.y * 16) as i32,
    }
}

/// A chunk-local coordinate mapped into world space and back is unchanged.
pub proof fn lemma_local_world_roundtrip(lp: Vec3i16, cp: Vec2i)
    requires
        crate::chunk::chunk_coord_in_range(cp),
        crate::chunk::valid_local(lp),
    ensures
        spec_local_position(spec_world_position(lp, cp)) == lp,
        spec_chunk_coord(spec_world_position(lp, cp)) == cp,
        spec_position_in_world(spec_world_position(lp, cp)),
{
    let w = spec_world_position(lp, cp);
    lemma_fundamental_div_mod_converse(w.x as int, 16, cp.x as int, lp.x as int);
    lemma_fundamental_div_mod_converse(w.z as int, 16, cp.y as int, lp.z as int);
}

/// A world-space position inside the chunk at `cp` maps to a valid local
/// coordinate and back to itself.
pub proof fn lemma_world_local_roundtrip(n: Vec3i, cp: Vec2i)
    requires
        crate::chunk::chunk_coord_in_range(cp),
        cp.x * 16 <= n.x < (cp.x + 1) * 16,
        cp.y * 16 <= n.z < (cp.y + 1) * 16,
        -64 <= n.y < 320,
    ensures
        crate::chunk::valid_local(spec_local_position(n)),
        spec_world_position(spec_local_position(n), cp) == n,
        spec_chunk_coord(n) == cp,
{
    lemma_fundamental_div_mod_converse(n.x as int, 16, cp.x as int, n.x - cp.x * 16);
    lemma_fundamental_div_mod_converse(n.z as int, 16, cp.y as int, n.z - cp.y * 16);
}

/// A world-level chunk mutation event: a chunk at a coordinate was created
/// or updated, or it was unloaded.
pub enum ChunkEvent {
    Update(Vec2i),
    Unload(Vec2i),
}

/// Sparse map from chunk coordinate to chunk, stored as a vector with unique
/// chunk coordinates.
pub struct World {
    chunks: Vec<Chunk>,
}

impl World {
    /// Every stored chunk is well formed and chunk coordinates are unique
    /// keys.
    pub closed spec fn wf(self) -> bool {
        &&& forall|i: int|
            0 <= i < self.chunks@.len() ==> (#[trigger] self.chunks@[i]).wf()
        &&& forall|i: int, j: int|
            0 <= i < self.chunks@.len() && 0 <= j < self.chunks@.len() && i != j
                ==> (#[trigger] self.chunks@[i]).spec_position() != (
            #[trigger] self.chunks@[j]).spec_position()
    }

    /// Whether a chunk is loaded at the given chunk coordinate.
    pub closed spec fn has_chunk(self, p: Vec2i) -> bool {
        exists|i: int|
            0 <= i < self.chunks@.len() && (#[trigger] self.chunks@[i]).spec_position() == p
    }

    /// The chunk loaded at the given chunk coordinate.
    pub closed spec fn chunk_at(self, p: Vec2i) -> Chunk {
        self.chunks@[choose|i: int|
            0 <= i < self.chunks@.len() && (#[trigger] self.chunks@[i]).spec_position() == p]
    }

    /// In a well-formed world, any stored chunk with coordinate `p` is the
    /// chunk `chunk_at(p)`.
    proof fn lemma_chunk_at_index(self, i: int)
        requires
            self.wf(),
            0 <= i < self.chunks@.len(),
        ensures
            self.has_chunk(self.chunks@[i].spec_position()),
            self.chunk_at(self.chunks@[i].spec_position()) == self.chunks@[i],
    {
        let p = self.chunks@[i].spec_position();
        assert(self.has_chunk(p));
        let j = choose|j: int|
            0 <= j < self.chunks@.len() && (#[trigger] self.chunks@[j]).spec_position() == p;
        assert(j == i);
    }

    /// The chunk at a loaded coordinate is well formed and sits at its own
    /// coordinate.
    pub proof fn lemma_chunk_at(self, p: Vec2i)
        requires
            self.wf(),
            self.has_chunk(p),
        ensures
            self.chunk_at(p).wf(),
            self.chunk_at(p).spec_position() == p,
    {
        let i = choose|i: int|
            0 <= i < self.chunks@.len() && (#[trigger] self.chunks@[i]).spec_position() == p;
        assert(self.chunks@[i].wf());
    }

    /// An empty world with no loaded chunks.
    pub fn new() -> (r: World)
        ensures
            r.wf(),
            forall|p: Vec2i| !r.has_chunk(p),
    {
        World { chunks: Vec::new() }
    }

    /// Index of the stored chunk at `position`, if any.
    fn find_chunk(&self, position: Vec2i) -> (r: Option<usize>)
        requires
            self.wf(),
        ensures
            match r {
                Some(i) => i < self.chunks@.len() && self.chunks@[i as int].spec_position()
                    == position && self.has_chunk(position) && self.chunk_at(position)
                    == self.chunks@[i as int],
                None => !self.has_chunk(position),
            },
    {
        let mut i: usize = 0;
        while i < self.chunks.len()
            invariant
                self.wf(),
                i <= self.chunks@.len(),
                forall|j: int|
                    0 <= j < i ==> (#[trigger] self.chunks@[j]).spec_position() != position,
            decreases self.chunks@.len() - i,
        {
            if self.chunks[i].position() == position {
                proof {
                    self.lemma_chunk_at_index(i as int);
                }
                return Some(i);
            }
            i = i + 1;
        }
        None
    }

    /// Insert a chunk at its own coordinate, replacing and returning any
    /// chunk previously loaded there.
    pub fn set_chunk(&mut self, chunk: Chunk) -> (r: Option<Chunk>)
        requires
            old(self).wf(),
            chunk.wf(),
        ensures
            final(self).wf(),
            final(self).has_chunk(chunk.spec_position()),
            final(self).chunk_at(chunk.spec_position()) == chunk,
            forall|q: Vec2i|
                q != chunk.spec_position() ==> #[trigger] final(self).has_chunk(q) == old(self).has_chunk(q),
            forall|q: Vec2i|
                q != chunk.spec_position() && old(self).has_chunk(q) ==> #[trigger] final(self).chunk_at(q) == old(self).chunk_at(q),
            r == if old(self).has_chunk(chunk.spec_position()) {
                Some(old(self).chunk_at(chunk.spec_position()))
            } else {
                Option::<Chunk>::None
            },
    {
        let position = chunk.position();
        let found = self.find_chunk(position);
        let removed: Option<Chunk> = match found {
            Some(i) => Some(self.chunks.remove(i)),
            None => None,
        };
        let ghost mid = *self;
        self.chunks.push(chunk);
        proof {
            match found {
                Some(r) => {
                    old(self).chunks@.remove_ensures(r as int);
                },
                None => {},
            }
            let n = self.chunks@.len() - 1;
            assert(self.chunks@[n] == chunk);
            // Well-formedness: the middle state has no chunk at `position`.
            assert forall|j: int| 0 <= j < n implies (#[trigger] self.chunks@[j]).spec_position()
                != position by {
                assert(self.chunks@[j] == mid.chunks@[j]);
                if mid.chunks@[j].spec_position() == position {
                    mid.lemma_chunk_at_index(j);
                    assert(mid.has_chunk(position));
                    assert(false);
                }
            }
            assert(self.wf());
            self.lemma_chunk_at_index(n);
            // Frame: coordinates other than `position` are untouched.
            assert forall|q: Vec2i| q != chunk.spec_position() implies #[trigger] self.has_chunk(q)
                == old(self).has_chunk(q) by {
                if self.has_chunk(q) {
                    let i = choose|i: int|
                        0 <= i < self.chunks@.len() && (#[trigger] self.chunks@[i]).spec_position()
                            == q;
                    assert(i < n);
                    assert(mid.chunks@[i] == self.chunks@[i]);
                    self.reveal_old_witness(old(self), mid, i, q, found);
                }
                if old(self).has_chunk(q) {
                    let i = choose|i: int|
                        0 <= i < old(self).chunks@.len() && (#[trigger] old(self).chunks@[i]).spec_position() == q;
                    let k = World::shift_index(found, i);
                    assert(self.chunks@[k] == old(self).chunks@[i]);
                    assert(self.has_chunk(q));
                }
            }
            assert forall|q: Vec2i| q != chunk.spec_position() && old(self).has_chunk(q) implies
                #[trigger] self.chunk_at(q) == old(self).chunk_at(q) by {
                let i = choose|i: int|
                    0 <= i < old(self).chunks@.len() && (#[trigger] old(self).chunks@[i]).spec_position() == q;
                let k = World::shift_index(found, i);
                assert(self.chunks@[k] == old(self).chunks@[i]);
                self.lemma_chunk_at_index(k);
                old(self).lemma_chunk_at_index(i);
            }
        }
        removed
    }

    /// Where the element at index `i` of the old vector lives after the
    /// removal recorded in `found`.
    spec fn shift_index(found: Option<usize>, i: int) -> int {
        match found {
            Some(r) => if i < r as int {
                i
            } else {
                i - 1
            },
            None => i,
        }
    }

    /// Helper for the frame proof of `set_chunk`: a surviving chunk of the
    /// new vector came from the old vector.
    proof fn reveal_old_witness(
        self,
        prev: &World,
        mid: World,
        i: int,
        q: Vec2i,
        found: Option<usize>,
    )
        requires
            0 <= i < mid.chunks@.len(),
            mid.chunks@[i].spec_position() == q,
            match found {
                Some(r) => (r as int) < prev.chunks@.len() && mid.chunks@ == prev.chunks@.remove(
                    r as int,
                ),
                None => mid.chunks@ == prev.chunks@,
            },
        ensures
            prev.has_chunk(q),
    {
        match found {
            Some(r) => {
                prev.chunks@.remove_ensures(r as int);
                if i < r as int {
                    assert(prev.chunks@[i].spec_position() == q);
                } else {
                    assert(prev.chunks@[i + 1].spec_position() == q);
                }
            },
            None => {
                assert(prev.chunks@[i].spec_position() == q);
            },
        }
    }

    /// The chunk loaded at a coordinate, if any.
    pub fn get_chunk(&self, position: Vec2i) -> (r: Option<&Chunk>)
        requires
            self.wf(),
        ensures
            match r {
                Some(c) => self.has_chunk(position) && *c == self.chunk_at(position) && c.wf()
                    && c.spec_position() == position,
                None => !self.has_chunk(position),
            },
    {
        match self.find_chunk(position) {
            Some(i) => {
                proof {
                    self.lemma_chunk_at(position);
                }
                Some(&self.chunks[i])
            },
            None => None,
        }
    }

    /// Remove and return the chunk at a coordinate, if one is loaded. The
    /// chunk value passed in is discarded; only the coordinate selects what
    /// is removed.
    pub fn remove_chunk(&mut self, position: Vec2i, chunk: Chunk) -> (r: Option<Chunk>)
        requires
            old(self).wf(),
        ensures
            final(self).wf(),
            !final(self).has_chunk(position),
            forall|q: Vec2i|
                q != position ==> #[trigger] final(self).has_chunk(q) == old(self).has_chunk(q),
            forall|q: Vec2i|
                q != position && old(self).has_chunk(q) ==> #[trigger] final(self).chunk_at(q)
                    == old(self).chunk_at(q),
            r == if old(self).has_chunk(position) {
                Some(old(self).chunk_at(position))
            } else {
                Option::<Chunk>::None
            },
    {
        let found = self.find_chunk(position);
        let removed: Option<Chunk> = match found {
            Some(i) => Some(self.chunks.remove(i)),
            None => None,
        };
        proof {
            match found {
                Some(r) => {
                    old(self).chunks@.remove_ensures(r as int);
                },
                None => {},
            }
            assert(self.wf());
            if self.has_chunk(position) {
                let i = choose|i: int|
                    0 <= i < self.chunks@.len() && (#[trigger] self.chunks@[i]).spec_position()
                        == position;
                match found {
                    Some(r) => {
                        let k = if i < r as int {
                            i
                        } else {
                            i + 1
                        };
                        assert(old(self).chunks@[k].spec_position() == position);
                        assert(k != r as int);
                        assert(old(self).chunks@[r as int].spec_position() == position);
                        assert(false);
                    },
                    None => {
                        assert(old(self).chunks@[i].spec_position() == position);
                        assert(old(self).has_chunk(position));
                        assert(false);
                    },
                }
            }
            assert forall|q: Vec2i| q != position implies #[trigger] self.has_chunk(q) == old(self).has_chunk(q) by {
                if self.has_chunk(q) {
                    let i = choose|i: int|
                        0 <= i < self.chunks@.len() && (#[trigger] self.chunks@[i]).spec_position()
                            == q;
                    match found {
                        Some(r) => {
                            if i < r as int {
                                assert(old(self).chunks@[i].spec_position() == q);
                            } else {
                                assert(old(self).chunks@[i + 1].spec_position() == q);
                            }
                        },
                        None => {
                            assert(old(self).chunks@[i].spec_position() == q);
                        },
                    }
                    assert(old(self).has_chunk(q));
                }
                if old(self).has_chunk(q) {
                    let i = choose|i: int|
                        0 <= i < old(self).chunks@.len() && (#[trigger] old(self).chunks@[i]).spec_position() == q;
                    let k = World::shift_index(found, i);
                    assert(self.chunks@[k] == old(self).chunks@[i]);
                    assert(self.has_chunk(q));
                }
            }
            assert forall|q: Vec2i| q != position && old(self).has_chunk(q) implies #[trigger] self
                .chunk_at(q) == old(self).chunk_at(q) by {
                let i = choose|i: int|
                    0 <= i < old(self).chunks@.len() && (#[trigger] old(self).chunks@[i]).spec_position() == q;
                let k = World::shift_index(found, i);
                assert(self.chunks@[k] == old(self).chunks@[i]);
                self.lemma_chunk_at_index(k);
                old(self).lemma_chunk_at_index(i);
            }
            match found {
                Some(r) => {
                    old(self).lemma_chunk_at_index(r as int);
                },
                None => {
                },
            }
        }
        removed
    }

    /// The block at a world-space position, if the containing chunk is
    /// loaded.
    pub fn get_block(&self, position: Vec3i) -> (r: Option<Block>)
        requires
            self.wf(),
            spec_position_in_world(position),
        ensures
            r == if self.has_chunk(spec_chunk_coord(position)) {
                Some(
                    self.chunk_at(spec_chunk_coord(position)).block_at(
                        spec_local_position(position),
                    ),
                )
            } else {
                Option::<Block>::None
            },
    {
        let coord = Vec2i {
            x: div_floor_16(position.x),
            y: div_floor_16(position.z),
        };
        match self.get_chunk(coord) {
            Some(chunk) => Some(chunk.get_block(World::get_chunk_position(position))),
            None => None,
        }
    }

    /// Whether a world-space position lies inside the vertical world bounds.
    pub fn position_in_world(position: Vec3i) -> (r: bool)
        ensures
            r == spec_position_in_world(position),
    {
        (crate::chunk::LOWEST_HEIGHT as i32) <= position.y && position.y < (
        crate::chunk::SIZE_Y as i32) + (crate::chunk::LOWEST_HEIGHT as i32)
    }

    /// The chunk-local coordinate of a world-space position.
    pub fn get_chunk_position(position: Vec3i) -> (r: Vec3i16)
        requires
            i16::MIN <= position.y <= i16::MAX,
        ensures
            r == spec_local_position(position),
    {
        Vec3i16 {
            x: rem_euclid_16(position.x) as i16,
            y: position.y as i16,
            z: rem_euclid_16(position.z) as i16,
        }
    }

    /// The world-space position of a chunk-local coordinate in the chunk at
    /// the given chunk coordinate.
    pub fn get_world_position(chunk_block_position: Vec3i16, chunk_position: Vec2i) -> (r: Vec3i)
        requires
            crate::chunk::chunk_coord_in_range(chunk_position),
            crate::chunk::valid_local(chunk_block_position),
        ensures
            r == spec_world_position(chunk_block_position, chunk_position),
    {
        Vec3i {
            x: (chunk_block_position.x as i32) + chunk_position.x * 16,
            y: chunk_block_position.y as i32,
            z: (chunk_block_position.z as i32) + chunk_position.y * 16,
        }
    }
}

} // verus!
