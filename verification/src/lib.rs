//! World/geometry core of a voxel-based renderer: a chunked block-world data
//! model, a texture-atlas packer, and the chunk-meshing pipeline that keeps
//! renderable meshes consistent with the world.

pub mod math;
pub mod block;
pub mod block_side;
pub mod chunk;
pub mod world;
pub mod mesh;
pub mod texture_atlas;
pub mod texture;
pub mod block_type;
pub mod game_data;
pub mod init_texture_provider;
pub mod model;
pub mod game_render_data;
pub mod mesher;
pub mod render_world;
pub mod world_gen;
pub mod settings;

pub use block::Block;
pub use block_side::BlockSide;
pub use block_type::BlockType;
pub use chunk::Chunk;
pub use game_data::GameData;
pub use game_render_data::GameRenderData;
pub use init_texture_provider::InitTextureProvider;
pub use math::{Vec2i, Vec3i, Vec3i16};
pub use mesh::{Mesh, Vertex};
pub use mesher::mesh_chunk;
pub use model::{CubeBlock, InitCubeBlock, InitInvisibleBlock, InitMeshGenerator, InvisibleBlock, MeshGenerator};
pub use render_world::{ChunkMeshEvent, RenderWorld};
pub use texture::compute_mip_level;
pub use texture_atlas::TextureAtlas;
pub use world::{ChunkEvent, World};
