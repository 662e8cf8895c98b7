//! The chunk mesher: walks a chunk's blocks, consults the chunk itself and
//! the loaded neighboring chunks for face visibility, and emits exactly the
//! visible faces as quads. A face is emitted iff its neighboring position is
//! inside the vertical world bounds and holds a block whose facing side is
//! not solid; a neighbor in an unloaded chunk, or outside the vertical
//! bounds, counts as solid, so the face is culled.

use vstd::prelude::*;
use crate::block::Block;
use crate::block_side::BlockSide;
use crate::chunk::{chunk_coord_in_range, valid_local, Chunk};
use crate::game_render_data::GameRenderData;
use crate::math::{Vec2i, Vec3i, Vec3i16};
use crate::mesh::{
    lemma_quad_extension_trans,
    lemma_quads_vertices_len,
    quad_extension,
    quads_indices_from,
    quads_vertices,
    Mesh,
    Quad,
    Vertex,
};
use crate::model::{mesh_pos_in_range, side_quads, spec_solid_side, MeshGenerator};
use crate::world::{
    lemma_local_world_roundtrip,
    lemma_world_local_roundtrip,
    spec_chunk_coord,
    spec_local_position,
    spec_position_in_world,
    spec_world_position,
    World,
};

verus! {

/// Every block of the chunk carries a block-type id with a registered mesh
/// generator.
pub open spec fn chunk_well_typed(c: Chunk, rd: GameRenderData) -> bool {
    forall|p: Vec3i16|
        valid_local(p) ==> (#[trigger] c.block_at(p)).spec_block_type()
            < rd.spec_generator_count()
}

/// Every loaded chunk of the world is well typed for the render data.
pub open spec fn world_well_typed(w: World, rd: GameRenderData) -> bool {
    forall|q: Vec2i| w.has_chunk(q) ==> chunk_well_typed(#[trigger] w.chunk_at(q), rd)
}

/// The world position one step from `b` in the given direction.
pub open spec fn spec_side_position(b: Vec3i, side: BlockSide) -> Vec3i {
    let d = side.spec_direction();
    Vec3i { x: (b.x + d.x) as i32, y: (b.y + d.y) as i32, z: (b.z + d.z) as i32 }
}

/// The block at a neighboring world position, resolved against the chunk
/// being meshed first and the loaded chunks of the world second. `None`
/// iff no loaded chunk covers the position.
pub open spec fn spec_neighbor_block(chunk: Chunk, world: World, n: Vec3i) -> Option<Block> {
    if chunk.contains_world(n) {
        Some(chunk.block_at(spec_local_position(n)))
    } else if world.has_chunk(spec_chunk_coord(n)) {
        Some(world.chunk_at(spec_chunk_coord(n)).block_at(spec_local_position(n)))
    } else {
        None
    }
}

/// Whether the face of the block at world position `b` toward `side` is
/// visible: the neighboring position must lie inside the vertical world
/// bounds and hold a block whose facing side is not solid. An unresolved
/// neighbor (no loaded chunk) defaults to solid, deliberately, so no seams
/// show where a chunk has not loaded yet; outside the vertical bounds the
/// bedrock and sky boundaries are never see-through.
pub open spec fn side_visible(
    chunk: Chunk,
    world: World,
    rd: GameRenderData,
    b: Vec3i,
    side: BlockSide,
) -> bool {
    let n = spec_side_position(b, side);
    if !spec_position_in_world(n) {
        false
    } else {
        match spec_neighbor_block(chunk, world, n) {
            Some(sb) => !spec_solid_side(
                rd.spec_generator(sb.spec_block_type()),
                sb,
                side.spec_opposite(),
            ),
            None => false,
        }
    }
}

/// The quads emitted for one side of the block at local position `lp` of
/// the chunk: the side's quads if the face is visible, none otherwise.
pub open spec fn block_side_quads(
    chunk: Chunk,
    world: World,
    rd: GameRenderData,
    lp: Vec3i16,
    side: BlockSide,
) -> Seq<Quad> {
    let b = spec_world_position(lp, chunk.spec_position());
    let gen = rd.spec_generator(chunk.block_at(lp).spec_block_type());
    if side_visible(chunk, world, rd, b, side) {
        side_quads(gen, b, side)
    } else {
        Seq::empty()
    }
}

/// The quads emitted for one block, over its six sides in the order Top,
/// Bottom, North, East, South, West.
pub open spec fn block_quads(chunk: Chunk, world: World, rd: GameRenderData, lp: Vec3i16) -> Seq<
    Quad,
> {
    block_side_quads(chunk, world, rd, lp, BlockSide::Top) + block_side_quads(
        chunk,
        world,
        rd,
        lp,
        BlockSide::Bottom,
    ) + block_side_quads(chunk, world, rd, lp, BlockSide::North) + block_side_quads(
        chunk,
        world,
        rd,
        lp,
        BlockSide::East,
    ) + block_side_quads(chunk, world, rd, lp, BlockSide::South) + block_side_quads(
        chunk,
        world,
        rd,
        lp,
        BlockSide::West,
    )
}

/// The local position visited at step `n` of the mesher's traversal, which
/// runs z outermost, then y, then x.
pub open spec fn local_at(n: int) -> Vec3i16 {
    Vec3i16 {
        x: (n % 16) as i16,
        y: ((n / 16) % 384 - 64) as i16,
        z: (n / 6144) as i16,
    }
}

/// The quads of the first `n` blocks of the traversal.
pub open spec fn chunk_quads_prefix(chunk: Chunk, world: World, rd: GameRenderData, n: int) -> Seq<
    Quad,
>
    decreases n,
{
    if n <= 0 {
        Seq::empty()
    } else {
        chunk_quads_prefix(chunk, world, rd, n - 1) + block_quads(chunk, world, rd, local_at(n - 1))
    }
}

/// All quads of the chunk: exactly the visible faces, in traversal order.
pub open spec fn chunk_quads(chunk: Chunk, world: World, rd: GameRenderData) -> Seq<Quad> {
    chunk_quads_prefix(chunk, world, rd, 98304)
}

/// `m` is exactly the mesh of the chunk against the given world: the quads
/// of all visible faces, as a vertex list and the standard quad index list.
pub open spec fn is_chunk_mesh(m: Mesh, chunk: Chunk, world: World, rd: GameRenderData) -> bool {
    &&& m.spec_vertices() == quads_vertices(chunk_quads(chunk, world, rd))
    &&& m.spec_indices() == quads_indices_from(0, chunk_quads(chunk, world, rd).len())
}

/// A block emits at most one quad per side.
proof fn lemma_block_side_quads_len(
    chunk: Chunk,
    world: World,
    rd: GameRenderData,
    lp: Vec3i16,
    side: BlockSide,
)
    ensures
        block_side_quads(chunk, world, rd, lp, side).len() <= 1,
{
}

/// A block emits at most six quads.
proof fn lemma_block_quads_len(chunk: Chunk, world: World, rd: GameRenderData, lp: Vec3i16)
    ensures
        block_quads(chunk, world, rd, lp).len() <= 6,
{
    lemma_block_side_quads_len(chunk, world, rd, lp, BlockSide::Top);
    lemma_block_side_quads_len(chunk, world, rd, lp, BlockSide::Bottom);
    lemma_block_side_quads_len(chunk, world, rd, lp, BlockSide::North);
    lemma_block_side_quads_len(chunk, world, rd, lp, BlockSide::East);
    lemma_block_side_quads_len(chunk, world, rd, lp, BlockSide::South);
    lemma_block_side_quads_len(chunk, world, rd, lp, BlockSide::West);
}

/// The first `n` blocks emit at most `6 * n` quads.
proof fn lemma_chunk_quads_prefix_len(chunk: Chunk, world: World, rd: GameRenderData, n: int)
    requires
        n >= 0,
    ensures
        chunk_quads_prefix(chunk, world, rd, n).len() <= 6 * n,
    decreases n,
{
    if n > 0 {
        lemma_chunk_quads_prefix_len(chunk, world, rd, n - 1);
        lemma_block_quads_len(chunk, world, rd, local_at(n - 1));
    }
}

/// Decode the traversal step `(z * 384 + y) * 16 + x` back into its local
/// coordinate.
proof fn lemma_local_at(x: int, y: int, z: int)
    requires
        0 <= x < 16,
        0 <= y < 384,
        0 <= z < 16,
    ensures
        local_at((z * 384 + y) * 16 + x) == (Vec3i16 {
            x: x as i16,
            y: (y - 64) as i16,
            z: z as i16,
        }),
{
    let n = (z * 384 + y) * 16 + x;
    assert(n == z * 6144 + y * 16 + x && 0 <= y * 16 + x < 6144 && 0 <= n) by (nonlinear_arith)
        requires
            0 <= x < 16,
            0 <= y < 384,
            0 <= z < 16,
            n == (z * 384 + y) * 16 + x,
    ;
    assert(n / 6144 == z && n % 6144 == y * 16 + x) by (nonlinear_arith)
        requires
            n == z * 6144 + y * 16 + x,
            0 <= y * 16 + x < 6144,
            0 <= z,
    ;
    assert(n % 16 == x && (n / 16) % 384 == y) by (nonlinear_arith)
        requires
            n == z * 6144 + y * 16 + x,
            0 <= x < 16,
            0 <= y < 384,
            0 <= z < 16,
    ;
}

/// Emit the visible faces of the block at local position `(x, y - 64, z)`
/// of the chunk.
#[verifier::rlimit(60)]
fn mesh_block(
    chunk: &Chunk,
    render_data: &GameRenderData,
    world: &World,
    mesh: &mut Mesh,
    x: u16,
    y: u16,
    z: u16,
)
    requires
        chunk.wf(),
        world.wf(),
        chunk_coord_in_range(chunk.spec_position()),
        chunk_well_typed(*chunk, *render_data),
        world_well_typed(*world, *render_data),
        x < 16,
        y < 384,
        z < 16,
        old(mesh).spec_vertices().len() + 24 <= u32::MAX,
    ensures
        quad_extension(
            *old(mesh),
            *final(mesh),
            block_quads(
                *chunk,
                *world,
                *render_data,
                Vec3i16 { x: x as i16, y: (y - 64) as i16, z: z as i16 },
            ),
        ),
{
    let chunk_block_position = Vec3i16 { x: x as i16, y: (y as i16) - 64, z: z as i16 };
    let ghost lp = chunk_block_position;
    let block = chunk.get_block(chunk_block_position);
    let model_generator = render_data.mesh_generator(block.block_type());
    let world_position = World::get_world_position(chunk_block_position, chunk.position());
    let ghost b = world_position;

    model_generator.mesh_always(world_position, block, mesh);

    let sides = BlockSide::all_sides();
    let ghost m0 = *mesh;
    let ghost mut acc: Seq<Quad> = Seq::empty();
    let mut i: usize = 0;
    proof {
        lemma_empty_extension(m0);
    }
    while i < 6
        invariant
            chunk.wf(),
            world.wf(),
            chunk_coord_in_range(chunk.spec_position()),
            chunk_well_typed(*chunk, *render_data),
            world_well_typed(*world, *render_data),
            valid_local(lp),
            lp == (Vec3i16 { x: x as i16, y: (y - 64) as i16, z: z as i16 }),
            block == chunk.block_at(lp),
            *model_generator == render_data.spec_generator(block.spec_block_type()),
            b == spec_world_position(lp, chunk.spec_position()),
            sides@ == seq![
                BlockSide::Top,
                BlockSide::Bottom,
                BlockSide::North,
                BlockSide::East,
                BlockSide::South,
                BlockSide::West,
            ],
            i <= 6,
            world_position == b,
            m0 == *old(mesh),
            m0.spec_vertices().len() + 24 <= u32::MAX,
            acc.len() <= i,
            quad_extension(m0, *mesh, acc),
            acc == concat_side_quads(*chunk, *world, *render_data, lp, sides@, i as int),
        decreases 6 - i,
    {
        let side = sides[i];
        let ghost pre = *mesh;
        let ghost appended = block_side_quads(*chunk, *world, *render_data, lp, side);
        let direction = side.direction();
        let side_position = world_position.plus(direction);
        proof {
            assert(side_position == spec_side_position(b, side));
        }
        if World::position_in_world(side_position) {
            let side_block: Option<Block> = if chunk.position_in_chunk(side_position) {
                Some(chunk.get_block(World::get_chunk_position(side_position)))
            } else {
                match world.get_chunk(
                    Vec2i {
                        x: crate::math::div_floor_16(side_position.x),
                        y: crate::math::div_floor_16(side_position.z),
                    },
                ) {
                    Some(neighbor_chunk) => {
                        proof {
                            world.lemma_chunk_at(spec_chunk_coord(side_position));
                        }
                        Some(neighbor_chunk.get_block(World::get_chunk_position(side_position)))
                    },
                    None => None,
                }
            };
            proof {
                assert(side_block == spec_neighbor_block(*chunk, *world, side_position));
            }
            let side_solid = match side_block {
                Some(sb) => render_data.mesh_generator(sb.block_type()).solid_side(
                    sb,
                    side.opposite(),
                ),
                None => true,
            };
            proof {
                assert(side_solid == !side_visible(*chunk, *world, *render_data, b, side));
            }
            if !side_solid {
                proof {
                    lemma_quads_vertices_len(acc);
                }
                model_generator.mesh_side(world_position, block, side, mesh);
                proof {
                    assert(side_visible(*chunk, *world, *render_data, b, side));
                    assert(appended == side_quads(*model_generator, b, side));
                }
            } else {
                proof {
                    assert(appended =~= Seq::<Quad>::empty());
                    lemma_empty_extension(*mesh);
                }
            }
        } else {
            proof {
                assert(appended =~= Seq::<Quad>::empty());
                lemma_empty_extension(*mesh);
            }
        }
        proof {
            lemma_quad_extension_trans(m0, pre, *mesh, acc, appended);
            acc = acc + appended;
            assert(acc =~= concat_side_quads(*chunk, *world, *render_data, lp, sides@, i + 1));
        }
        i = i + 1;
    }
    proof {
        reveal_with_fuel(concat_side_quads, 8);
        assert(acc =~= block_quads(*chunk, *world, *render_data, lp));
    }
}

/// The quads of the first `i` sides of the given side order.
pub open spec fn concat_side_quads(
    chunk: Chunk,
    world: World,
    rd: GameRenderData,
    lp: Vec3i16,
    sides: Seq<BlockSide>,
    i: int,
) -> Seq<Quad>
    decreases i,
{
    if i <= 0 {
        Seq::empty()
    } else {
        concat_side_quads(chunk, world, rd, lp, sides, i - 1) + block_side_quads(
            chunk,
            world,
            rd,
            lp,
            sides[i - 1],
        )
    }
}

/// A mesh extends itself by no quads.
proof fn lemma_empty_extension(m: Mesh)
    ensures
        quad_extension(m, m, Seq::<Quad>::empty()),
{
    assert(quads_vertices(Seq::<Quad>::empty()) =~= Seq::<Vertex>::empty());
    assert(quads_indices_from(m.spec_vertices().len() as int, 0) =~= Seq::<u32>::empty());
    assert(m.spec_vertices() =~= m.spec_vertices() + quads_vertices(Seq::<Quad>::empty()));
    assert(m.spec_indices() =~= m.spec_indices() + quads_indices_from(
        m.spec_vertices().len() as int,
        0,
    ));
}

/// Convert one chunk's block grid into the mesh of exactly its visible
/// faces, given the chunk's own blocks and the loaded neighbor chunks of
/// the world.
#[verifier::rlimit(60)]
pub fn mesh_chunk(chunk: &Chunk, render_data: &GameRenderData, world: &World) -> (r: Mesh)
    requires
        chunk.wf(),
        world.wf(),
        chunk_coord_in_range(chunk.spec_position()),
        chunk_well_typed(*chunk, *render_data),
        world_well_typed(*world, *render_data),
    ensures
        is_chunk_mesh(r, *chunk, *world, *render_data),
{
    let mut mesh = Mesh::new();
    let ghost empty_mesh = mesh;
    let mut z: u16 = 0;
    while z < 16
        invariant
            chunk.wf(),
            world.wf(),
            chunk_coord_in_range(chunk.spec_position()),
            chunk_well_typed(*chunk, *render_data),
            world_well_typed(*world, *render_data),
            z <= 16,
            mesh.spec_vertices() == quads_vertices(
                chunk_quads_prefix(*chunk, *world, *render_data, z as int * 6144),
            ),
            mesh.spec_indices() == quads_indices_from(
                0,
                chunk_quads_prefix(*chunk, *world, *render_data, z as int * 6144).len(),
            ),
        decreases 16 - z,
    {
        let mut y: u16 = 0;
        while y < 384
            invariant
                chunk.wf(),
                world.wf(),
                chunk_coord_in_range(chunk.spec_position()),
                chunk_well_typed(*chunk, *render_data),
                world_well_typed(*world, *render_data),
                z < 16,
                y <= 384,
                mesh.spec_vertices() == quads_vertices(
                    chunk_quads_prefix(
                        *chunk,
                        *world,
                        *render_data,
                        z as int * 6144 + y as int * 16,
                    ),
                ),
                mesh.spec_indices() == quads_indices_from(
                    0,
                    chunk_quads_prefix(
                        *chunk,
                        *world,
                        *render_data,
                        z as int * 6144 + y as int * 16,
                    ).len(),
                ),
            decreases 384 - y,
        {
            let mut x: u16 = 0;
            while x < 16
                invariant
                    chunk.wf(),
                    world.wf(),
                    chunk_coord_in_range(chunk.spec_position()),
                    chunk_well_typed(*chunk, *render_data),
                    world_well_typed(*world, *render_data),
                    z < 16,
                    y < 384,
                    x <= 16,
                    mesh.spec_vertices() == quads_vertices(
                        chunk_quads_prefix(
                            *chunk,
                            *world,
                            *render_data,
                            z as int * 6144 + y as int * 16 + x as int,
                        ),
                    ),
                    mesh.spec_indices() == quads_indices_from(
                        0,
                        chunk_quads_prefix(
                            *chunk,
                            *world,
                            *render_data,
                            z as int * 6144 + y as int * 16 + x as int,
                        ).len(),
                    ),
                decreases 16 - x,
            {
                let ghost n = z as int * 6144 + y as int * 16 + x as int;
                proof {
                    lemma_chunk_quads_prefix_len(*chunk, *world, *render_data, n);
                    lemma_quads_vertices_len(chunk_quads_prefix(*chunk, *world, *render_data, n));
                    assert(n < 98304);
                    lemma_local_at(x as int, y as int, z as int);
                    assert((z as int * 384 + y as int) * 16 + x as int == n) by (nonlinear_arith)
                        requires
                            n == z as int * 6144 + y as int * 16 + x as int,
                    ;
                }
                mesh_block(chunk, render_data, world, &mut mesh, x, y, z);
                proof {
                    let qs = chunk_quads_prefix(*chunk, *world, *render_data, n);
                    let bq = block_quads(*chunk, *world, *render_data, local_at(n));
                    assert(chunk_quads_prefix(*chunk, *world, *render_data, n + 1) == qs + bq);
                    assert(mesh.spec_vertices() =~= quads_vertices(qs) + quads_vertices(bq));
                    crate::mesh::lemma_quads_vertices_concat(qs, bq);
                    crate::mesh::lemma_quads_indices_concat(0, qs.len(), bq.len());
                    assert(mesh.spec_indices() =~= quads_indices_from(0, qs.len() + bq.len()));
                }
                x = x + 1;
            }
            y = y + 1;
        }
        z = z + 1;
        proof {
            assert(z as int * 6144 == (z - 1) as int * 6144 + 384 * 16);
        }
    }
    proof {
        assert(chunk_quads(*chunk, *world, *render_data) == chunk_quads_prefix(
            *chunk,
            *world,
            *render_data,
            98304,
        ));
    }
    mesh
}


/// Face-culling symmetry for two blocks of one chunk sharing a face. If
/// both are opaque cubes, neither emits the shared face: each side is
/// hidden by the other's solid facing side. If the block at `lp` is a cube
/// and its neighbor is non-solid (such as air), exactly one quad is
/// emitted for the shared face, by the cube and facing the neighbor; the
/// non-solid block emits nothing.
pub proof fn lemma_face_culling_symmetry(
    chunk: Chunk,
    world: World,
    rd: GameRenderData,
    lp: Vec3i16,
    side: BlockSide,
)
    requires
        chunk_coord_in_range(chunk.spec_position()),
        valid_local(lp),
        chunk.contains_world(
            spec_side_position(spec_world_position(lp, chunk.spec_position()), side),
        ),
        rd.spec_generator(chunk.block_at(lp).spec_block_type()) matches MeshGenerator::Cube(_),
    ensures
        ({
            let b = spec_world_position(lp, chunk.spec_position());
            let n = spec_side_position(b, side);
            let lpn = spec_local_position(n);
            let neighbor_gen = rd.spec_generator(chunk.block_at(lpn).spec_block_type());
            &&& (neighbor_gen matches MeshGenerator::Cube(_) ==> block_side_quads(
                chunk,
                world,
                rd,
                lp,
                side,
            ).len() == 0 && block_side_quads(chunk, world, rd, lpn, side.spec_opposite()).len()
                == 0)
            &&& (neighbor_gen matches MeshGenerator::Invisible(_) ==> block_side_quads(
                chunk,
                world,
                rd,
                lp,
                side,
            ).len() == 1 && block_side_quads(chunk, world, rd, lpn, side.spec_opposite()).len()
                == 0)
        }),
{
    let cp = chunk.spec_position();
    let b = spec_world_position(lp, cp);
    let n = spec_side_position(b, side);
    let lpn = spec_local_position(n);
    lemma_local_world_roundtrip(lp, cp);
    lemma_world_local_roundtrip(n, cp);
    assert(spec_position_in_world(n));
    assert(spec_neighbor_block(chunk, world, n) == Some(chunk.block_at(lpn)));
    // The reverse face: the neighbor's position maps back to `b`.
    assert(spec_world_position(lpn, cp) == n);
    assert(spec_side_position(n, side.spec_opposite()) == b);
    assert(chunk.contains_world(b));
    assert(spec_position_in_world(b));
    assert(spec_local_position(b) == lp);
    assert(spec_neighbor_block(chunk, world, b) == Some(chunk.block_at(lp)));
}

} // verus!
