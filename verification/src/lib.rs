//! A texture-derivation pipeline: derives a luminance (grayscale) texture
//! from an arbitrary source texture through an offscreen render pass, and
//! notifies downstream consumers once the derived texture exists.
//!
//! The library models the engine-facing state — image store, entities with
//! their markers, the per-tick pass spawner, and the notification hook — over
//! plain values, so that the pipeline's rules (exactly-once processing,
//! fixed target policy, layer isolation) are stated and proved.

pub mod texture;
pub mod geometry;
pub mod markers;
pub mod world;
pub mod spawner;
pub mod notify;
pub mod luminance;
