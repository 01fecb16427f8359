//! The marker components of the pipeline: the derivation request, the
//! completed-derivation marker, the derivation material and the offscreen
//! camera node.

use vstd::prelude::*;
use crate::texture::TextureHandle;

verus! {

/// A request to derive a luminance texture: attached to an entity by a
/// caller, read exactly once by the pass spawner, never mutated afterward.
#[derive(Clone, Copy, PartialEq, Eq, Structural, Debug)]
pub struct LuminanceTextureSource {
    /// The texture to derive from.
    pub texture: TextureHandle,
    /// The render layer the offscreen pass is isolated to; it must not be a
    /// layer any visible camera samples.
    pub render_layer: usize,
}

impl LuminanceTextureSource {
    /// A derivation request for `texture`, isolated to `render_layer`.
    pub fn new(texture: TextureHandle, render_layer: usize) -> (s: Self)
        ensures
            s.texture == texture,
            s.render_layer == render_layer,
    {
        LuminanceTextureSource { texture, render_layer }
    }
}

/// Marks a completed derivation: holds the derived texture. Its presence is
/// the sole signal that derivation is done; it is attached at most once and
/// immutable afterward.
#[derive(Clone, Copy, PartialEq, Eq, Structural, Debug)]
pub struct LuminanceTextureTarget {
    texture: TextureHandle,
}

/// The completed-derivation marker holding `t`.
pub closed spec fn target_of(t: TextureHandle) -> LuminanceTextureTarget {
    LuminanceTextureTarget { texture: t }
}

/// A completed-derivation marker holds exactly the texture it was attached
/// with.
pub broadcast proof fn lemma_target_of_texture(t: TextureHandle)
    ensures
        (#[trigger] target_of(t)).spec_texture() == t,
{
}

impl LuminanceTextureTarget {
    /// The derived texture this marker was attached with.
    pub closed spec fn spec_texture(&self) -> TextureHandle {
        self.texture
    }

    /// Wraps the freshly derived texture.
    pub fn attach(texture: TextureHandle) -> (t: Self)
        ensures
            t == target_of(texture),
            t.spec_texture() == texture,
    {
        LuminanceTextureTarget { texture }
    }

    /// The derived texture handle.
    pub fn texture(&self) -> (t: &TextureHandle)
        ensures
            *t == self.spec_texture(),
    {
        &self.texture
    }
}

/// The derivation material: a shader binding that samples exactly one
/// source texture; stateless after creation.
#[derive(Clone, Copy, PartialEq, Eq, Structural, Debug)]
pub struct LuminanceMaterial {
    /// The one texture-sampler binding pair of the material.
    pub texture: TextureHandle,
}

impl LuminanceMaterial {
    /// Binds the material to `source`: the instance exposes exactly one
    /// texture-sampler pair pointed at `source`.
    pub fn bind(source: TextureHandle) -> (m: Self)
        ensures
            m.texture == source,
    {
        LuminanceMaterial { texture: source }
    }
}

/// The offscreen camera of one derivation pass: renders only `layer`, into
/// `target`, drawing the shared full-screen geometry `mesh`.
#[derive(Clone, Copy, PartialEq, Eq, Structural, Debug)]
pub struct CameraNode {
    /// The render target the pass writes.
    pub target: TextureHandle,
    /// The only layer this camera renders.
    pub layer: usize,
    /// The full-screen geometry the pass draws — the one shared triangle.
    pub mesh: crate::geometry::MeshHandle,
}

/// Everything the pipeline may attach to one entity.
#[derive(Clone, Copy, PartialEq, Eq, Structural, Debug)]
pub struct EntityState {
    /// The derivation request, if one was attached.
    pub source: Option<LuminanceTextureSource>,
    /// Whether the pass spawner has handled this entity's request. A request
    /// is processed exactly once; this flag is the one-shot "freshly added"
    /// detection.
    pub processed: bool,
    /// The completed-derivation marker.
    pub target: Option<LuminanceTextureTarget>,
    /// The derivation material bound to the source texture.
    pub material: Option<LuminanceMaterial>,
    /// The offscreen camera of the derivation pass.
    pub camera: Option<CameraNode>,
}

/// An entity with nothing attached yet.
pub open spec fn empty_entity() -> EntityState {
    EntityState { source: None, processed: false, target: None, material: None, camera: None }
}

/// True when the pass spawner still owes this entity a derivation: a source
/// marker is attached and has not been handled yet.
pub open spec fn pending(e: EntityState) -> bool {
    e.source is Some && !e.processed
}

} // verus!
