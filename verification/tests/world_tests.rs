use voxel_world::block::Block;
use voxel_world::block_side::BlockSide;
use voxel_world::block_type::BlockType;
use voxel_world::chunk::Chunk;
use voxel_world::game_data::GameData;
use voxel_world::math::{Vec2i, Vec3i, Vec3i16};
use voxel_world::settings::{LevelFilter, LogSettings, WindowMode};
use voxel_world::world::World;
use voxel_world::world_gen::generate_chunk;

#[test]
fn block_carries_its_type() {
    assert_eq!(Block::new(3).block_type(), 3);
    assert_eq!(Block::air().block_type(), 0);
}

#[test]
fn block_side_opposites_pair_up() {
    assert_eq!(BlockSide::Top.opposite(), BlockSide::Bottom);
    assert_eq!(BlockSide::Bottom.opposite(), BlockSide::Top);
    assert_eq!(BlockSide::North.opposite(), BlockSide::South);
    assert_eq!(BlockSide::South.opposite(), BlockSide::North);
    assert_eq!(BlockSide::East.opposite(), BlockSide::West);
    assert_eq!(BlockSide::West.opposite(), BlockSide::East);
}

#[test]
fn block_side_directions_are_unit_axes() {
    assert_eq!(BlockSide::Top.direction(), Vec3i { x: 0, y: 1, z: 0 });
    assert_eq!(BlockSide::North.direction(), Vec3i { x: 0, y: 0, z: 1 });
    assert_eq!(BlockSide::East.direction(), Vec3i { x: 1, y: 0, z: 0 });
    let cardinals = BlockSide::cardinal_sides();
    assert_eq!(
        cardinals,
        [BlockSide::North, BlockSide::East, BlockSide::South, BlockSide::West]
    );
    let directions = BlockSide::cardinal_directions();
    assert_eq!(directions[0], Vec2i { x: 0, y: 1 });
    assert_eq!(directions[3], Vec2i { x: -1, y: 0 });
}

#[test]
fn chunk_set_get_at_vertical_bounds() {
    // set_block/get_block succeed at y = LOWEST_HEIGHT and at
    // y = LOWEST_HEIGHT + 383; one block further is out of bounds.
    let mut chunk = Chunk::new(Vec2i { x: 0, y: 0 });
    let bottom = Vec3i16 { x: 3, y: -64, z: 4 };
    let top = Vec3i16 { x: 3, y: 319, z: 4 };
    chunk.set_block(bottom, Block::new(2));
    chunk.set_block(top, Block::new(5));
    assert_eq!(chunk.get_block(bottom).block_type(), 2);
    assert_eq!(chunk.get_block(top).block_type(), 5);
    // Positions one below and one above the span are outside the world.
    assert!(!World::position_in_world(Vec3i { x: 3, y: -65, z: 4 }));
    assert!(World::position_in_world(Vec3i { x: 3, y: -64, z: 4 }));
    assert!(World::position_in_world(Vec3i { x: 3, y: 319, z: 4 }));
    assert!(!World::position_in_world(Vec3i { x: 3, y: 320, z: 4 }));
}

#[test]
fn chunk_membership_follows_its_coordinate() {
    let chunk = Chunk::new(Vec2i { x: 1, y: -1 });
    assert!(chunk.position_in_chunk(Vec3i { x: 16, y: 0, z: -16 }));
    assert!(chunk.position_in_chunk(Vec3i { x: 31, y: 319, z: -1 }));
    assert!(!chunk.position_in_chunk(Vec3i { x: 15, y: 0, z: -16 }));
    assert!(!chunk.position_in_chunk(Vec3i { x: 16, y: 320, z: -16 }));
    assert!(!chunk.position_in_chunk(Vec3i { x: 16, y: 0, z: 0 }));
    assert_eq!(chunk.position(), Vec2i { x: 1, y: -1 });
}

#[test]
fn consider_position_solid_outside_span() {
    // Solid exactly below the lowest height or at/above the highest: the
    // world-space span is -64..320.
    assert!(Chunk::consider_position_solid(Vec3i16 { x: 0, y: -65, z: 0 }));
    assert!(Chunk::consider_position_solid(Vec3i16 { x: 0, y: 320, z: 0 }));
    assert!(!Chunk::consider_position_solid(Vec3i16 { x: 0, y: -64, z: 0 }));
    assert!(!Chunk::consider_position_solid(Vec3i16 { x: 0, y: -1, z: 0 }));
    assert!(!Chunk::consider_position_solid(Vec3i16 { x: 0, y: 0, z: 0 }));
    assert!(!Chunk::consider_position_solid(Vec3i16 { x: 0, y: 319, z: 0 }));
}

#[test]
fn world_coordinate_conversions() {
    // World x = -1 lies in chunk -1 at local x = 15.
    let p = Vec3i { x: -1, y: 10, z: 17 };
    let local = World::get_chunk_position(p);
    assert_eq!(local, Vec3i16 { x: 15, y: 10, z: 1 });
    let back = World::get_world_position(local, Vec2i { x: -1, y: 1 });
    assert_eq!(back, p);
}

#[test]
fn world_set_get_remove_chunk() {
    let mut world = World::new();
    let position = Vec2i { x: 2, y: -3 };
    assert!(world.get_chunk(position).is_none());
    let mut chunk = Chunk::new(position);
    chunk.set_block(Vec3i16 { x: 1, y: 0, z: 1 }, Block::new(9));
    assert!(world.set_chunk(chunk).is_none());
    let block = world
        .get_block(Vec3i { x: 2 * 16 + 1, y: 0, z: -3 * 16 + 1 })
        .unwrap();
    assert_eq!(block.block_type(), 9);
    // Replacing at the same coordinate returns the old chunk.
    let replaced = world.set_chunk(Chunk::new(position));
    assert!(replaced.is_some());
    assert_eq!(
        world
            .get_block(Vec3i { x: 2 * 16 + 1, y: 0, z: -3 * 16 + 1 })
            .unwrap()
            .block_type(),
        0
    );
    let removed = world.remove_chunk(position, Chunk::new(position));
    assert!(removed.is_some());
    assert!(world.get_chunk(position).is_none());
    assert!(world.get_block(Vec3i { x: 2 * 16 + 1, y: 0, z: -3 * 16 + 1 }).is_none());
}

#[test]
fn registry_maps_names_to_dense_ids() {
    let types = vec![
        BlockType::new("air"),
        BlockType::new("dirt"),
        BlockType::new("cobblestone"),
    ];
    let data = GameData::new(types);
    assert_eq!(data.block_id("air").unwrap(), 0);
    assert_eq!(data.block_id("dirt").unwrap(), 1);
    assert_eq!(data.block_id("cobblestone").unwrap(), 2);
    assert!(data.block_id("granite").is_err());
}

#[test]
fn generated_chunk_follows_heights() {
    // Flat terrain of height -60: four layers of ground per column.
    let heights = vec![-60i16; 256];
    let chunk = generate_chunk(Vec2i { x: 5, y: 5 }, &heights, 1, 2);
    assert_eq!(chunk.position(), Vec2i { x: 5, y: 5 });
    assert_eq!(chunk.get_block(Vec3i16 { x: 0, y: -64, z: 0 }).block_type(), 1);
    assert_eq!(chunk.get_block(Vec3i16 { x: 7, y: -61, z: 9 }).block_type(), 1);
    assert_eq!(chunk.get_block(Vec3i16 { x: 7, y: -60, z: 9 }).block_type(), 0);
    assert_eq!(chunk.get_block(Vec3i16 { x: 15, y: 100, z: 15 }).block_type(), 0);
}

#[test]
fn heights_below_the_floor_leave_columns_all_air() {
    // A sampled height below the lowest world y fills nothing: the column
    // stays air down to the floor.
    let heights = vec![-200i16; 256];
    let chunk = generate_chunk(Vec2i { x: 2, y: 2 }, &heights, 1, 2);
    assert_eq!(chunk.get_block(Vec3i16 { x: 0, y: -64, z: 0 }).block_type(), 0);
    assert_eq!(chunk.get_block(Vec3i16 { x: 9, y: 0, z: 9 }).block_type(), 0);
}

#[test]
fn origin_chunk_carries_landmark() {
    let heights = vec![-64i16; 256];
    let chunk = generate_chunk(Vec2i { x: 0, y: 0 }, &heights, 1, 2);
    // The crossing cell belongs to the cobblestone rows, built last.
    assert_eq!(chunk.get_block(Vec3i16 { x: 0, y: 100, z: 0 }).block_type(), 2);
    assert_eq!(chunk.get_block(Vec3i16 { x: 3, y: 100, z: 0 }).block_type(), 1);
    assert_eq!(chunk.get_block(Vec3i16 { x: 0, y: 105, z: 0 }).block_type(), 2);
    assert_eq!(chunk.get_block(Vec3i16 { x: 0, y: 100, z: 5 }).block_type(), 2);
    assert_eq!(chunk.get_block(Vec3i16 { x: 8, y: 100, z: 0 }).block_type(), 0);
    assert_eq!(chunk.get_block(Vec3i16 { x: 0, y: 108, z: 0 }).block_type(), 0);
    // A non-origin chunk has no landmark.
    let plain = generate_chunk(Vec2i { x: 1, y: 0 }, &heights, 1, 2);
    assert_eq!(plain.get_block(Vec3i16 { x: 0, y: 100, z: 0 }).block_type(), 0);
}

#[test]
fn settings_defaults() {
    assert_eq!(WindowMode::default(), WindowMode::Default { width: 800, height: 600 });
    assert_eq!(LogSettings::default(), LogSettings { max_level: LevelFilter::Info });
}
