//! Content-addressed descriptions of loadable assets, and the keys the
//! embedding application's object cache is indexed by.

use vstd::prelude::*;
use crate::identity::UIIdentifier;
use crate::visual::{TextureMeta, TextureSource};

verus! {

/// A 3D model asset, addressed by its file path.
#[derive(Debug)]
pub struct ModelMeta {
    pub path: String,
}

impl ModelMeta {
    pub fn new(path: String) -> (r: Self)
        ensures
            r.path == path,
    {
        ModelMeta { path }
    }

    /// An equal, independently owned copy.
    pub fn duplicate(&self) -> (r: Self)
        ensures
            r == *self,
    {
        ModelMeta { path: self.path.clone() }
    }
}

/// One mesh of a loaded model, by the model it belongs to and its index
/// there.
#[derive(Debug)]
pub struct MeshMeta {
    pub model_meta: ModelMeta,
    pub mesh_index: usize,
}

/// Which meshes of a loaded model go to the opaque and the transparent
/// render passes.
#[derive(Debug)]
pub struct ModelInfo {
    pub opaque_mesh_indices: Vec<usize>,
    pub transparent_mesh_indices: Vec<usize>,
}

/// A key of the embedding application's object cache: a loaded model, a
/// renderable, a texture, a composited UI subtree, or a font.
#[derive(Debug)]
pub enum CacheKey {
    ModelMeta(ModelMeta),
    UIRenderableMeta(TextureMeta),
    Texture(TextureSource),
    UITexture(UIIdentifier),
    Font(String),
    PlaceholderTexture,
    Placeholder,
}

} // verus!
