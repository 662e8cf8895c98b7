//! The six face directions of a cube block, with their unit direction
//! vectors. Opposite pairs are Top/Bottom, North/South, East/West.

use vstd::prelude::*;
use crate::math::{Vec2i, Vec3i};

verus! {

/// One of the six faces of a cube block.
#[derive(Clone, Copy, Debug, PartialEq, Eq, Structural)]
pub enum BlockSide {
    Top,
    Bottom,
    North,
    East,
    South,
    West,
}

impl BlockSide {
    /// The side facing the other way.
    pub open spec fn spec_opposite(self) -> BlockSide {
        match self {
            BlockSide::Top => BlockSide::Bottom,
            BlockSide::Bottom => BlockSide::Top,
            BlockSide::North => BlockSide::South,
            BlockSide::East => BlockSide::West,
            BlockSide::South => BlockSide::North,
            BlockSide::West => BlockSide::East,
        }
    }

    pub fn opposite(&self) -> (r: BlockSide)
        ensures
            r == self.spec_opposite(),
    {
        match self {
            BlockSide::Top => BlockSide::Bottom,
            BlockSide::Bottom => BlockSide::Top,
            BlockSide::North => BlockSide::South,
            BlockSide::East => BlockSide::West,
            BlockSide::South => BlockSide::North,
            BlockSide::West => BlockSide::East,
        }
    }

    /// The unit vector pointing out of the side. North is +Z, East is +X,
    /// Top is +Y.
    pub open spec fn spec_direction(self) -> Vec3i {
        match self {
            BlockSide::Top => Vec3i { x: 0, y: 1, z: 0 },
            BlockSide::Bottom => Vec3i { x: 0, y: -1i32, z: 0 },
            BlockSide::North => Vec3i { x: 0, y: 0, z: 1 },
            BlockSide::East => Vec3i { x: 1, y: 0, z: 0 },
            BlockSide::South => Vec3i { x: 0, y: 0, z: -1i32 },
            BlockSide::West => Vec3i { x: -1i32, y: 0, z: 0 },
        }
    }

    pub fn direction(&self) -> (r: Vec3i)
        ensures
            r == self.spec_direction(),
    {
        match self {
            BlockSide::Top => Vec3i { x: 0, y: 1, z: 0 },
            BlockSide::Bottom => Vec3i { x: 0, y: -1, z: 0 },
            BlockSide::North => Vec3i { x: 0, y: 0, z: 1 },
            BlockSide::East => Vec3i { x: 1, y: 0, z: 0 },
            BlockSide::South => Vec3i { x: 0, y: 0, z: -1 },
            BlockSide::West => Vec3i { x: -1, y: 0, z: 0 },
        }
    }

    /// The direction projected onto the horizontal chunk grid: the x and z
    /// components of `direction`.
    pub open spec fn spec_flat_direction(self) -> Vec2i {
        Vec2i { x: self.spec_direction().x, y: self.spec_direction().z }
    }

    pub fn flat_direction(&self) -> (r: Vec2i)
        ensures
            r == self.spec_flat_direction(),
    {
        let direction = self.direction();
        Vec2i { x: direction.x, y: direction.z }
    }

    /// The four horizontal sides, in the order North, East, South, West.
    pub fn cardinal_sides() -> (r: [BlockSide; 4])
        ensures
            r@ == seq![BlockSide::North, BlockSide::East, BlockSide::South, BlockSide::West],
    {
        let r = [BlockSide::North, BlockSide::East, BlockSide::South, BlockSide::West];
        proof {
            assert(r@ =~= seq![
                BlockSide::North,
                BlockSide::East,
                BlockSide::South,
                BlockSide::West,
            ]);
        }
        r
    }

    /// The flat directions of the four horizontal sides, in the order North,
    /// East, South, West.
    pub fn cardinal_directions() -> (r: [Vec2i; 4])
        ensures
            r@ == seq![
                BlockSide::North.spec_flat_direction(),
                BlockSide::East.spec_flat_direction(),
                BlockSide::South.spec_flat_direction(),
                BlockSide::West.spec_flat_direction(),
            ],
    {
        let r = [
            Vec2i { x: 0, y: 1 },
            Vec2i { x: 1, y: 0 },
            Vec2i { x: 0, y: -1 },
            Vec2i { x: -1, y: 0 },
        ];
        proof {
            assert(r@ =~= seq![
                BlockSide::North.spec_flat_direction(),
                BlockSide::East.spec_flat_direction(),
                BlockSide::South.spec_flat_direction(),
                BlockSide::West.spec_flat_direction(),
            ]);
        }
        r
    }

    /// All six sides, in the order Top, Bottom, North, East, South, West.
    /// This is the order in which the mesher visits a block's faces.
    pub fn all_sides() -> (r: [BlockSide; 6])
        ensures
            r@ == seq![
                BlockSide::Top,
                BlockSide::Bottom,
                BlockSide::North,
                BlockSide::East,
                BlockSide::South,
                BlockSide::West,
            ],
    {
        let r = [
            BlockSide::Top,
            BlockSide::Bottom,
            BlockSide::North,
            BlockSide::East,
            BlockSide::South,
            BlockSide::West,
        ];
        proof {
            assert(r@ =~= seq![
                BlockSide::Top,
                BlockSide::Bottom,
                BlockSide::North,
                BlockSide::East,
                BlockSide::South,
                BlockSide::West,
            ]);
        }
        r
    }
}

} // verus!
