//! Shared render-side data built once at initialization: one mesh generator
//! per block-type id, and the finished texture atlas. Immutable after
//! initialization.

use vstd::prelude::*;
use crate::model::MeshGenerator;
use crate::texture_atlas::TextureAtlas;

verus! {

/// Mesh generators indexed by block-type id, plus the texture atlas.
pub struct GameRenderData {
    mesh_generators: Vec<MeshGenerator>,
    texture_atlas: TextureAtlas,
}

impl GameRenderData {
    /// Number of block types with a registered generator.
    pub closed spec fn spec_generator_count(self) -> int {
        self.mesh_generators@.len() as int
    }

    /// The generator of the block type with the given id.
    pub closed spec fn spec_generator(self, block_type: u16) -> MeshGenerator {
        self.mesh_generators@[block_type as int]
    }

    /// The atlas the generators' texture coordinates refer to.
    pub closed spec fn spec_texture_atlas(self) -> TextureAtlas {
        self.texture_atlas
    }

    pub fn new(mesh_generators: Vec<MeshGenerator>, texture_atlas: TextureAtlas) -> (r:
        GameRenderData)
        ensures
            r.spec_generator_count() == mesh_generators@.len(),
            forall|t: u16|
                0 <= t < mesh_generators@.len() ==> #[trigger] r.spec_generator(t)
                    == mesh_generators@[t as int],
            r.spec_texture_atlas() == texture_atlas,
    {
        GameRenderData { mesh_generators, texture_atlas }
    }

    /// The mesh generator of a block-type id. Asking for an unregistered id
    /// is a contract violation.
    pub fn mesh_generator(&self, block_type: u16) -> (r: &MeshGenerator)
        requires
            block_type < self.spec_generator_count(),
        ensures
            *r == self.spec_generator(block_type),
    {
        &self.mesh_generators[block_type as usize]
    }

    pub fn texture_atlas(&self) -> (r: &TextureAtlas)
        ensures
            *r == self.spec_texture_atlas(),
    {
        &self.texture_atlas
    }
}

} // verus!
