//! Texture handles, image descriptors and the engine image store, together
//! with the render-target allocator.

use vstd::prelude::*;

verus! {

/// Opaque identifier of a texture resource registered in the engine's image
/// store. Handles are indices into the store and are never reused.
#[derive(Clone, Copy, PartialEq, Eq, Structural, Debug, Hash)]
pub struct TextureHandle {
    pub id: usize,
}

/// Pixel layout of a texture. Every listed format is color-renderable, so a
/// texture of any of these formats may serve as a render attachment.
#[derive(Clone, Copy, PartialEq, Eq, Structural, Debug)]
pub enum PixelFormat {
    /// 8 bits per channel, BGRA order, gamma-corrected sampling.
    Bgra8UnormSrgb,
    /// 8 bits per channel, RGBA order, gamma-corrected sampling.
    Rgba8UnormSrgb,
}

/// Usage capabilities a texture was created with.
#[derive(Clone, Copy, PartialEq, Eq, Structural, Debug)]
pub struct TextureUsage {
    /// The texture may be bound and sampled by a material.
    pub texture_binding: bool,
    /// The texture may be the destination of a GPU-side copy.
    pub copy_dst: bool,
    /// The texture may be attached as a render-pass output.
    pub render_attachment: bool,
}

/// Shape, format and usage of one texture resource.
#[derive(Clone, Copy, PartialEq, Eq, Structural, Debug)]
pub struct ImageDescriptor {
    pub width: u32,
    pub height: u32,
    pub format: PixelFormat,
    pub usage: TextureUsage,
}

/// Fixed edge length of every derived texture: the target policy is a
/// constant 512x512 regardless of the source texture's dimensions.
pub const TARGET_WIDTH: u32 = 512;

/// See [`TARGET_WIDTH`].
pub const TARGET_HEIGHT: u32 = 512;

/// The usage flags every render target is allocated with: it must be a
/// render attachment, a copy destination and a sampled input at once.
pub open spec fn full_target_usage() -> TextureUsage {
    TextureUsage { texture_binding: true, copy_dst: true, render_attachment: true }
}

/// The descriptor of every derived texture under the fixed target policy.
pub open spec fn target_descriptor() -> ImageDescriptor {
    ImageDescriptor {
        width: TARGET_WIDTH,
        height: TARGET_HEIGHT,
        format: PixelFormat::Bgra8UnormSrgb,
        usage: full_target_usage(),
    }
}

/// Why a resource allocation failed.
#[derive(Clone, Copy, PartialEq, Eq, Structural, Debug)]
pub enum AllocError {
    /// A requested dimension was zero.
    InvalidSize,
    /// The store has reached its resource budget.
    OutOfMemory,
}

/// Mathematical model of an [`ImageStore`]: the descriptors registered so
/// far, in registration order, and the resource budget.
#[verifier::ext_equal]
pub struct ImageStoreModel {
    pub images: Seq<ImageDescriptor>,
    pub limit: int,
}

/// True when the store cannot register another image.
pub open spec fn store_full(m: ImageStoreModel) -> bool {
    m.images.len() >= m.limit
}

/// The engine's image/asset table: every texture the pipeline touches is
/// registered here and addressed by its [`TextureHandle`]. A fixed budget
/// models GPU memory exhaustion.
pub struct ImageStore {
    images: Vec<ImageDescriptor>,
    limit: usize,
}

impl View for ImageStore {
    type V = ImageStoreModel;

    closed spec fn view(&self) -> ImageStoreModel {
        ImageStoreModel { images: self.images@, limit: self.limit as int }
    }
}

impl ImageStore {
    /// An empty store that can hold at most `limit` images.
    pub fn new(limit: usize) -> (s: Self)
        ensures
            s@.images =~= Seq::<ImageDescriptor>::empty(),
            s@.limit == limit,
    {
        ImageStore { images: Vec::new(), limit }
    }

    /// How many images are registered.
    pub fn len(&self) -> (n: usize)
        ensures
            n == self@.images.len(),
    {
        self.images.len()
    }

    /// Registers `d` and hands back its handle; fails exactly when the
    /// budget is exhausted, leaving the store unchanged.
    pub fn add(&mut self, d: ImageDescriptor) -> (r: Result<TextureHandle, AllocError>)
        ensures
            store_full(old(self)@) ==> r == Err::<TextureHandle, AllocError>(AllocError::OutOfMemory)
                && final(self)@ == old(self)@,
            !store_full(old(self)@) ==> ({
                &&& r is Ok
                &&& r->Ok_0.id == old(self)@.images.len()
                &&& final(self)@.images =~= old(self)@.images.push(d)
            }),
            final(self)@.limit == old(self)@.limit,
    {
        if self.images.len() >= self.limit {
            Err(AllocError::OutOfMemory)
        } else {
            let h = TextureHandle { id: self.images.len() };
            self.images.push(d);
            Ok(h)
        }
    }

    /// The descriptor registered under `h`, or `None` for a dangling handle.
    pub fn get(&self, h: TextureHandle) -> (r: Option<ImageDescriptor>)
        ensures
            h.id < self@.images.len() ==> r == Some(self@.images[h.id as int]),
            h.id >= self@.images.len() ==> r is None,
    {
        if h.id < self.images.len() {
            Some(self.images[h.id])
        } else {
            None
        }
    }
}

/// The render-target allocator: creates a GPU-writable texture of the given
/// shape whose usage flags make it simultaneously a render attachment, a
/// copy destination and a sampled input, and registers it with the store.
///
/// Fails with `InvalidSize` exactly when a dimension is zero, and with
/// `OutOfMemory` exactly when the store's budget is exhausted; on failure
/// the store is untouched.
pub fn allocate(store: &mut ImageStore, width: u32, height: u32, format: PixelFormat)
    -> (r: Result<TextureHandle, AllocError>)
    ensures
        width == 0 || height == 0 ==> r == Err::<TextureHandle, AllocError>(AllocError::InvalidSize)
            && final(store)@ == old(store)@,
        width > 0 && height > 0 && store_full(old(store)@) ==>
            r == Err::<TextureHandle, AllocError>(AllocError::OutOfMemory)
            && final(store)@ == old(store)@,
        width > 0 && height > 0 && !store_full(old(store)@) ==> ({
            &&& r is Ok
            &&& r->Ok_0.id == old(store)@.images.len()
            &&& final(store)@.images =~= old(store)@.images.push(
                ImageDescriptor { width, height, format, usage: full_target_usage() })
        }),
        final(store)@.limit == old(store)@.limit,
{
    if width == 0 || height == 0 {
        return Err(AllocError::InvalidSize);
    }
    let usage = TextureUsage { texture_binding: true, copy_dst: true, render_attachment: true };
    store.add(ImageDescriptor { width, height, format, usage })
}

/// The descriptor every derived texture is allocated with, as a runtime
/// value.
pub fn render_target_descriptor() -> (d: ImageDescriptor)
    ensures
        d == target_descriptor(),
{
    ImageDescriptor {
        width: TARGET_WIDTH,
        height: TARGET_HEIGHT,
        format: PixelFormat::Bgra8UnormSrgb,
        usage: TextureUsage { texture_binding: true, copy_dst: true, render_attachment: true },
    }
}

} // verus!
