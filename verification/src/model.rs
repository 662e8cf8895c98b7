//! Per-block-type mesh generation: a closed set of block archetypes, each
//! saying which of its faces are opaque (`solid_side`) and how a visible
//! face is turned into a quad (`mesh_side`). A cube block emits one
//! axis-aligned unit quad per visible face; an invisible block emits
//! nothing and hides nothing.

use vstd::prelude::*;
use crate::block::Block;
use crate::block_side::BlockSide;
use crate::init_texture_provider::InitTextureProvider;
use crate::math::Vec3i;
use crate::mesh::{quad_extension, quads_vertices, quads_indices_from, Mesh, Quad, TexCoord, Vertex};
use crate::texture_atlas::TextureAtlas;

verus! {

/// A world-space block position whose unit cube fits in 32-bit coordinates.
pub open spec fn mesh_pos_in_range(p: Vec3i) -> bool {
    p.x < 0x7FFFFFFF && p.y < 0x7FFFFFFF && p.z < 0x7FFFFFFF
}

/// The quad of one cube face: four corners of the unit cube at `p`, wound
/// consistently per side, textured with the rectangle `(tc_min, tc_max)`
/// and carrying the side's direction as normal.
pub open spec fn cube_side_quad(tc_min: TexCoord, tc_max: TexCoord, p: Vec3i, side: BlockSide) -> Quad {
    let bottom_left = TexCoord { u_num: tc_min.u_num, v_num: tc_max.v_num, denom: tc_min.denom };
    let top_right = TexCoord { u_num: tc_max.u_num, v_num: tc_min.v_num, denom: tc_min.denom };
    let n = side.spec_direction();
    let x0 = p.x;
    let y0 = p.y;
    let z0 = p.z;
    let x1 = (p.x + 1) as i32;
    let y1 = (p.y + 1) as i32;
    let z1 = (p.z + 1) as i32;
    match side {
        BlockSide::Bottom => Quad {
            a: Vertex { position: Vec3i { x: x0, y: y0, z: z1 }, tex_coords: bottom_left, normal: n },
            b: Vertex { position: Vec3i { x: x0, y: y0, z: z0 }, tex_coords: tc_min, normal: n },
            c: Vertex { position: Vec3i { x: x1, y: y0, z: z0 }, tex_coords: top_right, normal: n },
            d: Vertex { position: Vec3i { x: x1, y: y0, z: z1 }, tex_coords: tc_max, normal: n },
        },
        BlockSide::Top => Quad {
            a: Vertex { position: Vec3i { x: x0, y: y1, z: z0 }, tex_coords: bottom_left, normal: n },
            b: Vertex { position: Vec3i { x: x0, y: y1, z: z1 }, tex_coords: tc_min, normal: n },
            c: Vertex { position: Vec3i { x: x1, y: y1, z: z1 }, tex_coords: top_right, normal: n },
            d: Vertex { position: Vec3i { x: x1, y: y1, z: z0 }, tex_coords: tc_max, normal: n },
        },
        BlockSide::North => Quad {
            a: Vertex { position: Vec3i { x: x1, y: y0, z: z1 }, tex_coords: bottom_left, normal: n },
            b: Vertex { position: Vec3i { x: x1, y: y1, z: z1 }, tex_coords: tc_min, normal: n },
            c: Vertex { position: Vec3i { x: x0, y: y1, z: z1 }, tex_coords: top_right, normal: n },
            d: Vertex { position: Vec3i { x: x0, y: y0, z: z1 }, tex_coords: tc_max, normal: n },
        },
        BlockSide::East => Quad {
            a: Vertex { position: Vec3i { x: x1, y: y0, z: z0 }, tex_coords: bottom_left, normal: n },
            b: Vertex { position: Vec3i { x: x1, y: y1, z: z0 }, tex_coords: tc_min, normal: n },
            c: Vertex { position: Vec3i { x: x1, y: y1, z: z1 }, tex_coords: top_right, normal: n },
            d: Vertex { position: Vec3i { x: x1, y: y0, z: z1 }, tex_coords: tc_max, normal: n },
        },
        BlockSide::South => Quad {
            a: Vertex { position: Vec3i { x: x0, y: y0, z: z0 }, tex_coords: bottom_left, normal: n },
            b: Vertex { position: Vec3i { x: x0, y: y1, z: z0 }, tex_coords: tc_min, normal: n },
            c: Vertex { position: Vec3i { x: x1, y: y1, z: z0 }, tex_coords: top_right, normal: n },
            d: Vertex { position: Vec3i { x: x1, y: y0, z: z0 }, tex_coords: tc_max, normal: n },
        },
        BlockSide::West => Quad {
            a: Vertex { position: Vec3i { x: x0, y: y0, z: z1 }, tex_coords: bottom_left, normal: n },
            b: Vertex { position: Vec3i { x: x0, y: y1, z: z1 }, tex_coords: tc_min, normal: n },
            c: Vertex { position: Vec3i { x: x0, y: y1, z: z0 }, tex_coords: top_right, normal: n },
            d: Vertex { position: Vec3i { x: x0, y: y0, z: z0 }, tex_coords: tc_max, normal: n },
        },
    }
}

/// An opaque unit cube textured with one atlas rectangle on all faces.
pub struct CubeBlock {
    texture_coords: (TexCoord, TexCoord),
}

/// A block with no geometry at all, such as air: it emits no faces and
/// hides none of its neighbors' faces.
pub struct InvisibleBlock;

/// The closed set of block archetypes, dispatched by a single match; this
/// is the per-block-type mesh generation strategy.
pub enum MeshGenerator {
    Cube(CubeBlock),
    Invisible(InvisibleBlock),
}

/// The quads that a generator emits for one face of the block at `p`: one
/// for a cube, none for an invisible block.
pub open spec fn side_quads(gen: MeshGenerator, p: Vec3i, side: BlockSide) -> Seq<Quad> {
    match gen {
        MeshGenerator::Cube(cb) => seq![
            cube_side_quad(cb.spec_texture_coords().0, cb.spec_texture_coords().1, p, side),
        ],
        MeshGenerator::Invisible(_) => Seq::empty(),
    }
}

/// Whether the given face of a block of this archetype is opaque: whether
/// it hides the touching face of the adjacent block.
pub open spec fn spec_solid_side(gen: MeshGenerator, block: Block, side: BlockSide) -> bool {
    match gen {
        MeshGenerator::Cube(_) => true,
        MeshGenerator::Invisible(_) => false,
    }
}

impl CubeBlock {
    /// The atlas UV rectangle of this cube's faces.
    pub closed spec fn spec_texture_coords(self) -> (TexCoord, TexCoord) {
        self.texture_coords
    }

    /// Register a cube block's texture with the provider; the generator
    /// itself is built once the atlas exists.
    pub fn new(texture_path: &str, texture_provider: &mut InitTextureProvider) -> (r: InitCubeBlock)
        requires
            old(texture_provider).spec_names().len() < u32::MAX,
        ensures
            r.spec_face_texture() < final(texture_provider).spec_names().len(),
            final(texture_provider).spec_names()[r.spec_face_texture() as int] == texture_path@,
    {
        InitCubeBlock::new(texture_path, texture_provider)
    }

    /// Emit the quad of one face of the cube at `position`.
    pub fn mesh_side(&self, position: Vec3i, block: Block, side: BlockSide, mesh: &mut Mesh)
        requires
            mesh_pos_in_range(position),
            old(mesh).spec_vertices().len() + 4 <= u32::MAX,
        ensures
            quad_extension(
                *old(mesh),
                *final(mesh),
                seq![
                    cube_side_quad(
                        self.spec_texture_coords().0,
                        self.spec_texture_coords().1,
                        position,
                        side,
                    ),
                ],
            ),
    {
        let tc_min = self.texture_coords.0;
        let tc_max = self.texture_coords.1;
        let texture_top_right = TexCoord {
            u_num: tc_max.u_num,
            v_num: tc_min.v_num,
            denom: tc_min.denom,
        };
        let texture_bottom_left = TexCoord {
            u_num: tc_min.u_num,
            v_num: tc_max.v_num,
            denom: tc_min.denom,
        };
        let normal = side.direction();
        let x0 = position.x;
        let y0 = position.y;
        let z0 = position.z;
        let x1 = position.x + 1;
        let y1 = position.y + 1;
        let z1 = position.z + 1;
        match side {
            BlockSide::Bottom => mesh.add_quad(
                Vertex {
                    position: Vec3i { x: x0, y: y0, z: z1 },
                    tex_coords: texture_bottom_left,
                    normal,
                },
                Vertex { position: Vec3i { x: x0, y: y0, z: z0 }, tex_coords: tc_min, normal },
                Vertex {
                    position: Vec3i { x: x1, y: y0, z: z0 },
                    tex_coords: texture_top_right,
                    normal,
                },
                Vertex { position: Vec3i { x: x1, y: y0, z: z1 }, tex_coords: tc_max, normal },
            ),
            BlockSide::Top => mesh.add_quad(
                Vertex {
                    position: Vec3i { x: x0, y: y1, z: z0 },
                    tex_coords: texture_bottom_left,
                    normal,
                },
                Vertex { position: Vec3i { x: x0, y: y1, z: z1 }, tex_coords: tc_min, normal },
                Vertex {
                    position: Vec3i { x: x1, y: y1, z: z1 },
                    tex_coords: texture_top_right,
                    normal,
                },
                Vertex { position: Vec3i { x: x1, y: y1, z: z0 }, tex_coords: tc_max, normal },
            ),
            BlockSide::North => mesh.add_quad(
                Vertex {
                    position: Vec3i { x: x1, y: y0, z: z1 },
                    tex_coords: texture_bottom_left,
                    normal,
                },
                Vertex { position: Vec3i { x: x1, y: y1, z: z1 }, tex_coords: tc_min, normal },
                Vertex {
                    position: Vec3i { x: x0, y: y1, z: z1 },
                    tex_coords: texture_top_right,
                    normal,
                },
                Vertex { position: Vec3i { x: x0, y: y0, z: z1 }, tex_coords: tc_max, normal },
            ),
            BlockSide::East => mesh.add_quad(
                Vertex {
                    position: Vec3i { x: x1, y: y0, z: z0 },
                    tex_coords: texture_bottom_left,
                    normal,
                },
                Vertex { position: Vec3i { x: x1, y: y1, z: z0 }, tex_coords: tc_min, normal },
                Vertex {
                    position: Vec3i { x: x1, y: y1, z: z1 },
                    tex_coords: texture_top_right,
                    normal,
                },
                Vertex { position: Vec3i { x: x1, y: y0, z: z1 }, tex_coords: tc_max, normal },
            ),
            BlockSide::South => mesh.add_quad(
                Vertex {
                    position: Vec3i { x: x0, y: y0, z: z0 },
                    tex_coords: texture_bottom_left,
                    normal,
                },
                Vertex { position: Vec3i { x: x0, y: y1, z: z0 }, tex_coords: tc_min, normal },
                Vertex {
                    position: Vec3i { x: x1, y: y1, z: z0 },
                    tex_coords: texture_top_right,
                    normal,
                },
                Vertex { position: Vec3i { x: x1, y: y0, z: z0 }, tex_coords: tc_max, normal },
            ),
            BlockSide::West => mesh.add_quad(
                Vertex {
                    position: Vec3i { x: x0, y: y0, z: z1 },
                    tex_coords: texture_bottom_left,
                    normal,
                },
                Vertex { position: Vec3i { x: x0, y: y1, z: z1 }, tex_coords: tc_min, normal },
                Vertex {
                    position: Vec3i { x: x0, y: y1, z: z0 },
                    tex_coords: texture_top_right,
                    normal,
                },
                Vertex { position: Vec3i { x: x0, y: y0, z: z0 }, tex_coords: tc_max, normal },
            ),
        }
    }

    /// Every face of a cube is opaque.
    pub fn solid_side(&self, block: Block, side: BlockSide) -> (r: bool)
        ensures
            r == true,
    {
        true
    }
}

impl InvisibleBlock {
    pub fn new() -> (r: InitInvisibleBlock)
        ensures
            r == InitInvisibleBlock,
    {
        InitInvisibleBlock::new()
    }

    /// An invisible block has no faces to emit.
    pub fn mesh_side(&self, position: Vec3i, block: Block, side: BlockSide, mesh: &mut Mesh)
        ensures
            *final(mesh) == *old(mesh),
    {
    }

    /// No face of an invisible block hides anything.
    pub fn solid_side(&self, block: Block, side: BlockSide) -> (r: bool)
        ensures
            r == false,
    {
        false
    }
}

impl MeshGenerator {
    /// Geometry the block emits regardless of its neighbors. Neither cube
    /// nor invisible blocks have any.
    pub fn mesh_always(&self, position: Vec3i, block: Block, mesh: &mut Mesh)
        ensures
            *final(mesh) == *old(mesh),
    {
    }

    /// Emit the face quad(s) of one side of the block at `position`.
    pub fn mesh_side(&self, position: Vec3i, block: Block, side: BlockSide, mesh: &mut Mesh)
        requires
            mesh_pos_in_range(position),
            old(mesh).spec_vertices().len() + 4 <= u32::MAX,
        ensures
            quad_extension(*old(mesh), *final(mesh), side_quads(*self, position, side)),
    {
        match self {
            MeshGenerator::Cube(cb) => {
                cb.mesh_side(position, block, side, mesh);
            },
            MeshGenerator::Invisible(ib) => {
                ib.mesh_side(position, block, side, mesh);
                proof {
                    assert(quads_vertices(Seq::<Quad>::empty()) =~= Seq::<Vertex>::empty());
                    assert(quads_indices_from(old(mesh).spec_vertices().len() as int, 0)
                        =~= Seq::<u32>::empty());
                    assert(mesh.spec_vertices() =~= old(mesh).spec_vertices() + quads_vertices(
                        Seq::<Quad>::empty(),
                    ));
                    assert(mesh.spec_indices() =~= old(mesh).spec_indices() + quads_indices_from(
                        old(mesh).spec_vertices().len() as int,
                        0,
                    ));
                }
            },
        }
    }

    /// Whether the given face of the block hides the touching face of its
    /// neighbor.
    pub fn solid_side(&self, block: Block, side: BlockSide) -> (r: bool)
        ensures
            r == spec_solid_side(*self, block, side),
    {
        match self {
            MeshGenerator::Cube(cb) => cb.solid_side(block, side),
            MeshGenerator::Invisible(ib) => ib.solid_side(block, side),
        }
    }
}

/// A cube block's initialization handle: remembers its texture's atlas
/// index until the atlas is built.
pub struct InitCubeBlock {
    face_texture: u32,
}

impl InitCubeBlock {
    /// The atlas index of the cube's face texture.
    pub closed spec fn spec_face_texture(self) -> u32 {
        self.face_texture
    }

    pub fn new(texture_path: &str, texture_provider: &mut InitTextureProvider) -> (r: InitCubeBlock)
        requires
            old(texture_provider).spec_names().len() < u32::MAX,
        ensures
            r.spec_face_texture() < final(texture_provider).spec_names().len(),
            final(texture_provider).spec_names()[r.spec_face_texture() as int] == texture_path@,
    {
        InitCubeBlock { face_texture: texture_provider.texture(texture_path) }
    }

    /// Build the cube generator from the finished atlas, looking up the
    /// face texture's UV rectangle.
    pub fn build(&self, atlas: &TextureAtlas) -> (r: MeshGenerator)
        requires
            atlas.wf(),
            self.spec_face_texture() < atlas.spec_count(),
        ensures
            r matches MeshGenerator::Cube(cb) && cb.spec_texture_coords()
                == atlas.spec_texture_coordinates(self.spec_face_texture()),
    {
        MeshGenerator::Cube(CubeBlock { texture_coords: atlas.get_texture_coordinates(self.face_texture) })
    }
}

/// An invisible block's initialization handle.
#[derive(Clone, Copy, PartialEq, Eq, Structural, Debug)]
pub struct InitInvisibleBlock;

impl InitInvisibleBlock {
    pub fn new() -> (r: InitInvisibleBlock)
        ensures
            r == InitInvisibleBlock,
    {
        InitInvisibleBlock
    }

    /// Build the invisible generator; the atlas is not consulted.
    pub fn build(&self, atlas: &TextureAtlas) -> (r: MeshGenerator)
        ensures
            r matches MeshGenerator::Invisible(_),
    {
        MeshGenerator::Invisible(InvisibleBlock)
    }
}

/// An initialization-time mesh generator: what a block type registers
/// before the atlas exists, and turns into its `MeshGenerator` once the
/// atlas is built.
pub enum InitMeshGenerator {
    Cube(InitCubeBlock),
    Invisible(InitInvisibleBlock),
}

impl InitMeshGenerator {
    /// Build the block type's mesh generator from the finished atlas.
    pub open spec fn build_requires(self, atlas: TextureAtlas) -> bool {
        match self {
            InitMeshGenerator::Cube(icb) => icb.spec_face_texture() < atlas.spec_count(),
            InitMeshGenerator::Invisible(_) => true,
        }
    }

    pub fn build(&self, atlas: &TextureAtlas) -> (r: MeshGenerator)
        requires
            atlas.wf(),
            self.build_requires(*atlas),
        ensures
            match *self {
                InitMeshGenerator::Cube(icb) => r matches MeshGenerator::Cube(cb)
                    && cb.spec_texture_coords() == atlas.spec_texture_coordinates(
                    icb.spec_face_texture(),
                ),
                InitMeshGenerator::Invisible(_) => r matches MeshGenerator::Invisible(_),
            },
    {
        match self {
            InitMeshGenerator::Cube(icb) => icb.build(atlas),
            InitMeshGenerator::Invisible(iib) => iib.build(atlas),
        }
    }
}

} // verus!
