use voxel_world::block::Block;
use voxel_world::chunk::Chunk;
use voxel_world::game_render_data::GameRenderData;
use voxel_world::math::{Vec2i, Vec3i16};
use voxel_world::mesher::mesh_chunk;
use voxel_world::model::{CubeBlock, InitInvisibleBlock, InitMeshGenerator, InvisibleBlock};
use voxel_world::render_world::{ChunkMeshEvent, ChunkMeshStore, RenderWorld};
use voxel_world::texture_atlas::TextureAtlas;
use voxel_world::world::{ChunkEvent, World};
use voxel_world::InitTextureProvider;

// Block-type ids used by these tests: 0 is air (invisible), 1 is an opaque
// cube.
const AIR: u16 = 0;
const STONE: u16 = 1;

fn test_render_data() -> GameRenderData {
    let mut provider = InitTextureProvider::new();
    let init_cube = CubeBlock::new("assets/textures/blocks/cobblestone.png", &mut provider);
    let init_air = InvisibleBlock::new();
    let mut atlas = TextureAtlas::new(2, provider.count() as u32);
    let mut pixel = Vec::new();
    for _ in 0..(2 * 2 * 4) {
        pixel.push(0xCCu8);
    }
    atlas.add_texture(&pixel);
    let generators = vec![
        InitMeshGenerator::Invisible(init_air).build(&atlas),
        InitMeshGenerator::Cube(init_cube).build(&atlas),
    ];
    GameRenderData::new(generators, atlas)
}

fn quad_count(mesh_index_count: u32) -> u32 {
    assert_eq!(mesh_index_count % 6, 0);
    mesh_index_count / 6
}

#[test]
fn lone_cube_emits_six_faces() {
    let rd = test_render_data();
    let mut world = World::new();
    let mut chunk = Chunk::new(Vec2i { x: 0, y: 0 });
    chunk.set_block(Vec3i16 { x: 5, y: 10, z: 5 }, Block::new(STONE));
    world.set_chunk(chunk);
    let mesh = mesh_chunk(world.get_chunk(Vec2i { x: 0, y: 0 }).unwrap(), &rd, &world);
    assert_eq!(mesh.vertices().len(), 24);
    assert_eq!(mesh.index_count(), 36);
    assert_eq!(quad_count(mesh.index_count()), 6);
}

#[test]
fn adjacent_cubes_cull_the_shared_face() {
    // Two touching opaque cubes: neither emits the shared face, so ten
    // faces remain instead of twelve.
    let rd = test_render_data();
    let mut world = World::new();
    let mut chunk = Chunk::new(Vec2i { x: 0, y: 0 });
    chunk.set_block(Vec3i16 { x: 5, y: 10, z: 5 }, Block::new(STONE));
    chunk.set_block(Vec3i16 { x: 6, y: 10, z: 5 }, Block::new(STONE));
    world.set_chunk(chunk);
    let mesh = mesh_chunk(world.get_chunk(Vec2i { x: 0, y: 0 }).unwrap(), &rd, &world);
    assert_eq!(quad_count(mesh.index_count()), 10);
}

#[test]
fn cube_beside_air_emits_one_face_toward_it() {
    // A cube next to air: the cube emits the face toward the air block;
    // the air block emits nothing. Exactly one quad for the shared face,
    // i.e. all six cube faces and nothing more.
    let rd = test_render_data();
    let mut world = World::new();
    let mut chunk = Chunk::new(Vec2i { x: 0, y: 0 });
    chunk.set_block(Vec3i16 { x: 5, y: 10, z: 5 }, Block::new(STONE));
    chunk.set_block(Vec3i16 { x: 6, y: 10, z: 5 }, Block::new(AIR));
    world.set_chunk(chunk);
    let mesh = mesh_chunk(world.get_chunk(Vec2i { x: 0, y: 0 }).unwrap(), &rd, &world);
    assert_eq!(quad_count(mesh.index_count()), 6);
}

#[test]
fn world_floor_and_ceiling_faces_are_culled() {
    // A cube at the bottom of the world: the face toward the bedrock
    // boundary is never rendered, leaving five.
    let rd = test_render_data();
    let mut world = World::new();
    let mut chunk = Chunk::new(Vec2i { x: 0, y: 0 });
    chunk.set_block(Vec3i16 { x: 5, y: -64, z: 5 }, Block::new(STONE));
    world.set_chunk(chunk);
    let mesh = mesh_chunk(world.get_chunk(Vec2i { x: 0, y: 0 }).unwrap(), &rd, &world);
    assert_eq!(quad_count(mesh.index_count()), 5);
}

#[test]
fn unloaded_neighbor_chunk_counts_as_solid() {
    // A cube against the chunk's western border while no chunk is loaded
    // there: the unresolved face defaults to culled, leaving five faces.
    let rd = test_render_data();
    let mut world = World::new();
    let mut chunk = Chunk::new(Vec2i { x: 0, y: 0 });
    chunk.set_block(Vec3i16 { x: 0, y: 10, z: 5 }, Block::new(STONE));
    world.set_chunk(chunk);
    let mesh = mesh_chunk(world.get_chunk(Vec2i { x: 0, y: 0 }).unwrap(), &rd, &world);
    assert_eq!(quad_count(mesh.index_count()), 5);
}

#[test]
fn loaded_neighbor_chunk_resolves_boundary_faces() {
    // The same border cube with an air-filled neighbor chunk loaded: the
    // face toward it is now resolved as visible.
    let rd = test_render_data();
    let mut world = World::new();
    let mut chunk = Chunk::new(Vec2i { x: 0, y: 0 });
    chunk.set_block(Vec3i16 { x: 0, y: 10, z: 5 }, Block::new(STONE));
    world.set_chunk(chunk);
    world.set_chunk(Chunk::new(Vec2i { x: -1, y: 0 }));
    let mesh = mesh_chunk(world.get_chunk(Vec2i { x: 0, y: 0 }).unwrap(), &rd, &world);
    assert_eq!(quad_count(mesh.index_count()), 6);
}

fn event_positions_for(events: &[ChunkMeshEvent], p: Vec2i) -> Vec<bool> {
    // For each event at coordinate `p`, whether it is an unload.
    let mut result = Vec::new();
    for event in events {
        match event {
            ChunkMeshEvent::Update { position, .. } => {
                if *position == p {
                    result.push(false);
                }
            }
            ChunkMeshEvent::Unload(position) => {
                if *position == p {
                    result.push(true);
                }
            }
        }
    }
    result
}

#[test]
fn pipeline_update_update_unload_ends_unloaded() {
    // Update(P), Update(P), Unload(P) in order: the final queued event for
    // P is always the unload, so draining in order leaves P unloaded.
    let rd = test_render_data();
    let p = Vec2i { x: 0, y: 0 };
    let mut world = World::new();
    world.set_chunk(Chunk::new(p));
    let mut pipeline = RenderWorld::new();
    let mut stream: Vec<ChunkMeshEvent> = Vec::new();
    stream.extend(pipeline.handle_chunk_event(ChunkEvent::Update(p), &world, &rd));
    stream.extend(pipeline.handle_chunk_event(ChunkEvent::Update(p), &world, &rd));
    world.remove_chunk(p, Chunk::new(p));
    stream.extend(pipeline.handle_chunk_event(ChunkEvent::Unload(p), &world, &rd));
    let for_p = event_positions_for(&stream, p);
    assert_eq!(for_p, vec![false, false, true]);
    assert_eq!(for_p.last(), Some(&true));
}

#[test]
fn update_for_missing_chunk_is_skipped_silently() {
    // A rebuild for a chunk that has since been unloaded is an expected
    // race and produces no event.
    let rd = test_render_data();
    let world = World::new();
    let mut pipeline = RenderWorld::new();
    let events = pipeline.handle_chunk_event(
        ChunkEvent::Update(Vec2i { x: 3, y: 3 }),
        &world,
        &rd,
    );
    assert_eq!(events.len(), 0);
}

#[test]
fn unload_requeues_loaded_neighbors() {
    // Two adjacent loaded chunks sharing an opaque boundary: unloading B
    // enqueues B's unload marker first and then a rebuild for A, meshed
    // against the world without B.
    let rd = test_render_data();
    let a = Vec2i { x: 0, y: 0 };
    let b = Vec2i { x: 1, y: 0 };
    let mut world = World::new();
    let mut chunk_a = Chunk::new(a);
    chunk_a.set_block(Vec3i16 { x: 15, y: 10, z: 5 }, Block::new(STONE));
    let mut chunk_b = Chunk::new(b);
    chunk_b.set_block(Vec3i16 { x: 0, y: 10, z: 5 }, Block::new(STONE));
    world.set_chunk(chunk_a);
    world.set_chunk(chunk_b);
    // With both loaded, A's boundary cube has its eastern face culled
    // against B's opaque block.
    let before = mesh_chunk(world.get_chunk(a).unwrap(), &rd, &world);
    assert_eq!(quad_count(before.index_count()), 5);

    let mut pipeline = RenderWorld::new();
    pipeline.handle_chunk_event(ChunkEvent::Update(a), &world, &rd);
    pipeline.handle_chunk_event(ChunkEvent::Update(b), &world, &rd);
    world.remove_chunk(b, Chunk::new(b));
    let events = pipeline.handle_chunk_event(ChunkEvent::Unload(b), &world, &rd);
    assert!(matches!(events[0], ChunkMeshEvent::Unload(position) if position == b));
    let expected = mesh_chunk(world.get_chunk(a).unwrap(), &rd, &world);
    let mut rebuilt_a = 0;
    for event in &events[1..] {
        match event {
            ChunkMeshEvent::Update { position, mesh } => {
                assert_ne!(*position, b);
                if *position == a {
                    rebuilt_a += 1;
                    assert_eq!(mesh.vertices(), expected.vertices());
                    assert_eq!(mesh.indices(), expected.indices());
                }
            }
            ChunkMeshEvent::Unload(_) => panic!("only the first event is an unload"),
        }
    }
    assert_eq!(rebuilt_a, 1);
}

#[test]
fn draining_in_order_leaves_unloaded_chunk_dropped() {
    // Apply the whole Update(P), Update(P), Unload(P) stream to the render
    // thread's mesh store: P ends without a mesh, its neighbor keeps one.
    let rd = test_render_data();
    let p = Vec2i { x: 0, y: 0 };
    let neighbor = Vec2i { x: 0, y: 1 };
    let mut world = World::new();
    world.set_chunk(Chunk::new(p));
    world.set_chunk(Chunk::new(neighbor));
    let mut pipeline = RenderWorld::new();
    let mut stream: Vec<ChunkMeshEvent> = Vec::new();
    stream.extend(pipeline.handle_chunk_event(ChunkEvent::Update(p), &world, &rd));
    stream.extend(pipeline.handle_chunk_event(ChunkEvent::Update(neighbor), &world, &rd));
    stream.extend(pipeline.handle_chunk_event(ChunkEvent::Update(p), &world, &rd));
    world.remove_chunk(p, Chunk::new(p));
    stream.extend(pipeline.handle_chunk_event(ChunkEvent::Unload(p), &world, &rd));
    let mut store = ChunkMeshStore::new();
    store.apply_mesh_events(stream);
    assert!(store.get(p).is_none());
    assert!(store.get(neighbor).is_some());
    assert_eq!(store.len(), 1);
}
