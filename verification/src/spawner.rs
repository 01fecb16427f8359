//! The offscreen pass spawner: once per tick it observes every freshly
//! attached derivation request, allocates the render target, binds the
//! derivation material, composes the offscreen camera, attaches the
//! completed-derivation marker and queues the notification event — all
//! within the same tick, each request handled exactly once.

use vstd::prelude::*;
use crate::texture::{
    allocate, store_full, target_descriptor, PixelFormat, TextureHandle,
    TARGET_HEIGHT, TARGET_WIDTH,
};
use crate::markers::{
    pending, target_of, CameraNode, EntityState, LuminanceMaterial, LuminanceTextureTarget,
};
use crate::world::{derived_ok, wf, World, WorldModel};
use crate::geometry::MeshHandle;

verus! {

/// What one derivation request does to the world: if the image store is
/// exhausted the request is consumed with no output (the entity never
/// reaches readiness); otherwise the target is allocated under the fixed
/// policy, material, camera and target marker are attached, and the
/// entity's index is queued for notification.
pub open spec fn spawn_step(w: WorldModel, i: int, tri: MeshHandle) -> WorldModel
    recommends
        0 <= i < w.entities.len(),
        pending(w.entities[i]),
{
    let e = w.entities[i];
    let s = e.source->Some_0;
    if store_full(w.images) {
        WorldModel {
            entities: w.entities.update(i, EntityState { processed: true, ..e }),
            ..w
        }
    } else {
        let t = TextureHandle { id: w.images.images.len() as usize };
        WorldModel {
            entities: w.entities.update(i, EntityState {
                processed: true,
                target: Some(target_of(t)),
                material: Some(LuminanceMaterial { texture: s.texture }),
                camera: Some(CameraNode { target: t, layer: s.render_layer, mesh: tri }),
                ..e
            }),
            images: crate::texture::ImageStoreModel {
                images: w.images.images.push(target_descriptor()),
                ..w.images
            },
            events: w.events.push(i as usize),
        }
    }
}

/// One tick of the spawner restricted to the first `n` entities, processed
/// in index order: each still-pending entity among them goes through
/// [`spawn_step`], every other entity is left alone.
pub open spec fn tick_upto(w: WorldModel, n: int, tri: MeshHandle) -> WorldModel
    decreases n,
{
    if n <= 0 {
        w
    } else {
        let w1 = tick_upto(w, n - 1, tri);
        if 0 <= n - 1 < w1.entities.len() && pending(w1.entities[n - 1]) {
            spawn_step(w1, n - 1, tri)
        } else {
            w1
        }
    }
}

/// One full tick of the spawner over every entity.
pub open spec fn tick(w: WorldModel, tri: MeshHandle) -> WorldModel {
    tick_upto(w, w.entities.len() as int, tri)
}

/// Handles one pending derivation request. The world afterwards is exactly
/// [`spawn_step`] of the world before.
pub fn process_source(w: &mut World, i: usize, tri: MeshHandle)
    requires
        i < old(w)@.entities.len(),
        pending(old(w)@.entities[i as int]),
    ensures
        final(w)@ == spawn_step(old(w)@, i as int, tri),
{
    let e = w.entities[i];
    let s = e.source.unwrap();
    match allocate(&mut w.images, TARGET_WIDTH, TARGET_HEIGHT, PixelFormat::Bgra8UnormSrgb) {
        Ok(t) => {
            w.entities.set(i, EntityState {
                processed: true,
                target: Some(LuminanceTextureTarget::attach(t)),
                material: Some(LuminanceMaterial::bind(s.texture)),
                camera: Some(CameraNode { target: t, layer: s.render_layer, mesh: tri }),
                ..e
            });
            w.events.push(i);
            proof {
                assert(w@.entities =~= spawn_step(old(w)@, i as int, tri).entities);
                assert(w@.images =~= spawn_step(old(w)@, i as int, tri).images);
                assert(w@.events =~= spawn_step(old(w)@, i as int, tri).events);
                assert(w@ =~= spawn_step(old(w)@, i as int, tri));
            }
        }
        Err(_) => {
            w.entities.set(i, EntityState { processed: true, ..e });
            proof {
                assert(w@.entities =~= spawn_step(old(w)@, i as int, tri).entities);
                assert(w@ =~= spawn_step(old(w)@, i as int, tri));
            }
        }
    }
}

/// A correct derivation stays correct when further images are registered:
/// handles are indices that are never reused.
pub proof fn lemma_derived_ok_grow(
    e: EntityState,
    images: Seq<crate::texture::ImageDescriptor>,
    d: crate::texture::ImageDescriptor,
)
    requires
        derived_ok(e, images),
    ensures
        derived_ok(e, images.push(d)),
{
}

/// Everything one [`spawn_step`] does, entity by entity: only entity `i` is
/// touched, its request is consumed, its source is kept; on success the
/// store grows by exactly the fixed-policy descriptor and the entity's
/// index is queued; on exhaustion nothing but the processed flag changes;
/// and well-formedness is preserved either way.
pub proof fn lemma_spawn_step_effects(w: WorldModel, i: int, tri: MeshHandle)
    requires
        wf(w),
        0 <= i < w.entities.len(),
        pending(w.entities[i]),
    ensures
        spawn_step(w, i, tri).entities.len() == w.entities.len(),
        forall|j: int| 0 <= j < w.entities.len() && j != i ==>
            #[trigger] spawn_step(w, i, tri).entities[j] == w.entities[j],
        spawn_step(w, i, tri).entities[i].processed,
        spawn_step(w, i, tri).entities[i].source == w.entities[i].source,
        !store_full(w.images) ==> ({
            &&& spawn_step(w, i, tri).entities[i].target is Some
            &&& spawn_step(w, i, tri).entities[i].camera is Some
            &&& spawn_step(w, i, tri).entities[i].camera->Some_0.mesh == tri
            &&& derived_ok(spawn_step(w, i, tri).entities[i], spawn_step(w, i, tri).images.images)
            &&& spawn_step(w, i, tri).images.images =~= w.images.images.push(target_descriptor())
            &&& spawn_step(w, i, tri).events =~= w.events.push(i as usize)
        }),
        store_full(w.images) ==> spawn_step(w, i, tri).entities[i].target is None
            && spawn_step(w, i, tri).images == w.images
            && spawn_step(w, i, tri).events == w.events,
        spawn_step(w, i, tri).images.limit == w.images.limit,
        w.images.images.len() <= spawn_step(w, i, tri).images.images.len(),
        forall|k: int| 0 <= k < w.images.images.len() ==>
            #[trigger] spawn_step(w, i, tri).images.images[k] == w.images.images[k],
        wf(spawn_step(w, i, tri)),
{
    let ws = spawn_step(w, i, tri);
    if !store_full(w.images) {
        let t = TextureHandle { id: w.images.images.len() as usize };
        crate::markers::lemma_target_of_texture(t);
        assert(derived_ok(ws.entities[i], ws.images.images));
        assert forall|j: int| 0 <= j < ws.entities.len() && #[trigger] ws.entities[j].target is Some
            implies derived_ok(ws.entities[j], ws.images.images) by {
            if j != i {
                lemma_derived_ok_grow(w.entities[j], w.images.images, target_descriptor());
            }
        }
        assert(wf(ws));
    } else {
        assert(wf(ws));
    }
}

/// How many of the first `n` entities still owe a derivation.
pub open spec fn count_pending_upto(w: WorldModel, n: int) -> int
    decreases n,
{
    if n <= 0 {
        0
    } else {
        count_pending_upto(w, n - 1)
            + if 0 <= n - 1 < w.entities.len() && pending(w.entities[n - 1]) { 1int } else { 0int }
    }
}

/// How many entities still owe a derivation.
pub open spec fn count_pending(w: WorldModel) -> int {
    count_pending_upto(w, w.entities.len() as int)
}

/// Entities at or beyond `n` are untouched by a tick over the first `n`,
/// and the entity count, store budget and pre-existing events are kept.
pub proof fn lemma_tick_upto_untouched(w: WorldModel, n: int, tri: MeshHandle)
    requires
        0 <= n <= w.entities.len(),
    ensures
        tick_upto(w, n, tri).entities.len() == w.entities.len(),
        forall|j: int| n <= j < w.entities.len() ==>
            #[trigger] tick_upto(w, n, tri).entities[j] == w.entities[j],
        tick_upto(w, n, tri).images.limit == w.images.limit,
        tick_upto(w, n, tri).images.images.len() >= w.images.images.len(),
    decreases n,
{
    if n > 0 {
        lemma_tick_upto_untouched(w, n - 1, tri);
    }
}

/// Everything a tick over the first `n` entities does: no source marker is
/// ever touched, entities without a pending request are left exactly as
/// they were, every pending request among the first `n` is consumed,
/// pre-existing images and events are preserved, the store grows by at most
/// one image per pending request, well-formedness is preserved — and when
/// the budget has room for every one of those requests, each of them ends
/// with its target attached.
pub proof fn lemma_tick_upto_effects(w: WorldModel, n: int, tri: MeshHandle)
    requires
        wf(w),
        0 <= n <= w.entities.len(),
    ensures
        wf(tick_upto(w, n, tri)),
        tick_upto(w, n, tri).entities.len() == w.entities.len(),
        forall|j: int| n <= j < w.entities.len() ==>
            #[trigger] tick_upto(w, n, tri).entities[j] == w.entities[j],
        forall|j: int| 0 <= j < w.entities.len() ==>
            #[trigger] tick_upto(w, n, tri).entities[j].source == w.entities[j].source,
        forall|j: int| 0 <= j < n && !pending(w.entities[j]) ==>
            #[trigger] tick_upto(w, n, tri).entities[j] == w.entities[j],
        forall|j: int| 0 <= j < n && pending(w.entities[j]) ==>
            (#[trigger] tick_upto(w, n, tri).entities[j]).processed,
        forall|k: int| 0 <= k < w.images.images.len() ==>
            #[trigger] tick_upto(w, n, tri).images.images[k] == w.images.images[k],
        w.images.images.len() <= tick_upto(w, n, tri).images.images.len(),
        tick_upto(w, n, tri).images.images.len() <= w.images.images.len() + count_pending_upto(w, n),
        tick_upto(w, n, tri).images.limit == w.images.limit,
        w.events.len() <= tick_upto(w, n, tri).events.len(),
        forall|j: int| 0 <= j < w.events.len() ==>
            #[trigger] tick_upto(w, n, tri).events[j] == w.events[j],
        w.images.images.len() + count_pending_upto(w, n) <= w.images.limit ==>
            forall|j: int| 0 <= j < n && pending(w.entities[j]) ==>
                (#[trigger] tick_upto(w, n, tri).entities[j]).target is Some,
        forall|j: int| 0 <= j < n && pending(w.entities[j])
            && (#[trigger] tick_upto(w, n, tri).entities[j]).camera is Some ==>
            tick_upto(w, n, tri).entities[j].camera->Some_0.mesh == tri,
    decreases n,
{
    if n > 0 {
        lemma_tick_upto_effects(w, n - 1, tri);
        lemma_tick_upto_untouched(w, n - 1, tri);
        let w1 = tick_upto(w, n - 1, tri);
        if pending(w1.entities[n - 1]) {
            lemma_spawn_step_effects(w1, n - 1, tri);
        }
    }
}

/// Law (exactly once): within one tick, every pending derivation request
/// is handled exactly once — the entity is marked processed and, when the
/// store's budget has room for every pending request, receives its target
/// marker; an entity that already carries a target keeps exactly that
/// target, and entities without a pending request are untouched, so no
/// request ever yields a second target.
pub proof fn lemma_tick_exactly_once(w: WorldModel, tri: MeshHandle)
    requires
        wf(w),
    ensures
        wf(tick(w, tri)),
        tick(w, tri).entities.len() == w.entities.len(),
        forall|j: int| 0 <= j < w.entities.len() && !pending(w.entities[j]) ==>
            #[trigger] tick(w, tri).entities[j] == w.entities[j],
        forall|j: int| 0 <= j < w.entities.len() && pending(w.entities[j]) ==>
            (#[trigger] tick(w, tri).entities[j]).processed,
        forall|j: int| 0 <= j < w.entities.len() && w.entities[j].target is Some ==>
            #[trigger] tick(w, tri).entities[j].target == w.entities[j].target,
        w.images.images.len() + count_pending(w) <= w.images.limit ==>
            forall|j: int| 0 <= j < w.entities.len() && pending(w.entities[j]) ==>
                (#[trigger] tick(w, tri).entities[j]).target is Some,
{
    lemma_tick_upto_effects(w, w.entities.len() as int, tri);
}

/// A tick over entities none of which is pending changes nothing.
pub proof fn lemma_tick_upto_identity(w: WorldModel, n: int, tri: MeshHandle)
    requires
        0 <= n <= w.entities.len(),
        forall|j: int| 0 <= j < n ==> !pending(#[trigger] w.entities[j]),
    ensures
        tick_upto(w, n, tri) == w,
    decreases n,
{
    if n > 0 {
        lemma_tick_upto_identity(w, n - 1, tri);
    }
}

/// Law (one-shot detection): a second tick after a tick is a no-op — every
/// request the first tick saw is consumed, so nothing is ever derived
/// twice, whichever geometry the second tick would use.
pub proof fn lemma_second_tick_is_noop(w: WorldModel, tri: MeshHandle, tri2: MeshHandle)
    requires
        wf(w),
    ensures
        tick(tick(w, tri), tri2) == tick(w, tri),
{
    lemma_tick_upto_effects(w, w.entities.len() as int, tri);
    let w1 = tick(w, tri);
    assert forall|j: int| 0 <= j < w1.entities.len() implies !pending(#[trigger] w1.entities[j]) by {
        if pending(w.entities[j]) {
            assert(w1.entities[j].processed);
        } else {
            assert(w1.entities[j] == w.entities[j]);
        }
    }
    lemma_tick_upto_identity(w1, w1.entities.len() as int, tri2);
}

/// Law (shared geometry): every derivation pass composed within one tick
/// draws the one shared full-screen triangle — the dummy geometry is
/// created once and reused by every pass.
pub proof fn lemma_shared_geometry(w: WorldModel, tri: MeshHandle)
    requires
        wf(w),
    ensures
        forall|j: int| 0 <= j < w.entities.len() && pending(w.entities[j])
            && (#[trigger] tick(w, tri).entities[j]).camera is Some ==>
            tick(w, tri).entities[j].camera->Some_0.mesh == tri,
{
    lemma_tick_upto_effects(w, w.entities.len() as int, tri);
}

/// Law (independence): for two pending requests on different entities,
/// the order in which the spawner handles them does not affect either
/// one's resulting derivation — under either order both entities end with
/// a correct derivation.
pub proof fn lemma_order_independent(w: WorldModel, i: int, j: int, tri: MeshHandle)
    requires
        wf(w),
        0 <= i < w.entities.len(),
        0 <= j < w.entities.len(),
        i != j,
        pending(w.entities[i]),
        pending(w.entities[j]),
        w.images.images.len() + 2 <= w.images.limit,
    ensures
        derived_ok(
            spawn_step(spawn_step(w, i, tri), j, tri).entities[i],
            spawn_step(spawn_step(w, i, tri), j, tri).images.images,
        ),
        derived_ok(
            spawn_step(spawn_step(w, i, tri), j, tri).entities[j],
            spawn_step(spawn_step(w, i, tri), j, tri).images.images,
        ),
        derived_ok(
            spawn_step(spawn_step(w, j, tri), i, tri).entities[i],
            spawn_step(spawn_step(w, j, tri), i, tri).images.images,
        ),
        derived_ok(
            spawn_step(spawn_step(w, j, tri), i, tri).entities[j],
            spawn_step(spawn_step(w, j, tri), i, tri).images.images,
        ),
{
    lemma_spawn_step_effects(w, i, tri);
    lemma_spawn_step_effects(spawn_step(w, i, tri), j, tri);
    lemma_spawn_step_effects(w, j, tri);
    lemma_spawn_step_effects(spawn_step(w, j, tri), i, tri);
}

/// Law (fixed target policy): in any well-formed world, every derived
/// texture is registered with the fixed-policy descriptor — 512x512,
/// BGRA 8-bit gamma-corrected, render-attachment/copy/sampling usage —
/// regardless of the source texture's dimensions.
pub proof fn lemma_fixed_target_size(w: WorldModel)
    requires
        wf(w),
    ensures
        forall|i: int| 0 <= i < w.entities.len()
            && (#[trigger] w.entities[i]).target is Some ==> ({
            let t = w.entities[i].target->Some_0.spec_texture();
            &&& t.id < w.images.images.len()
            &&& w.images.images[t.id as int] == target_descriptor()
        }),
{
}

/// Law (layer isolation): if no attached request names a layer that a
/// visible camera samples, then after a tick no derivation camera renders
/// a layer that a visible camera samples — the offscreen passes never leak
/// into the visible frame.
pub proof fn lemma_layer_isolation(w: WorldModel, visible: Set<usize>, tri: MeshHandle)
    requires
        wf(w),
        forall|i: int| 0 <= i < w.entities.len()
            && (#[trigger] w.entities[i]).source is Some ==>
            !visible.contains(w.entities[i].source->Some_0.render_layer),
    ensures
        forall|i: int| 0 <= i < tick(w, tri).entities.len()
            && (#[trigger] tick(w, tri).entities[i]).camera is Some ==>
            !visible.contains(tick(w, tri).entities[i].camera->Some_0.layer),
{
    lemma_tick_upto_effects(w, w.entities.len() as int, tri);
    let wt = tick(w, tri);
    assert forall|i: int| 0 <= i < wt.entities.len()
        && (#[trigger] wt.entities[i]).camera is Some
        implies !visible.contains(wt.entities[i].camera->Some_0.layer) by {
        assert(wt.entities[i].target is Some);
        assert(derived_ok(wt.entities[i], wt.images.images));
        assert(wt.entities[i].source == w.entities[i].source);
    }
}

/// One tick of the spawner: observes every pending derivation request and
/// handles each exactly once, in entity order. The world afterwards is
/// exactly [`tick`] of the world before.
pub fn handle_new_sources(w: &mut World, tri: MeshHandle)
    ensures
        final(w)@ == tick(old(w)@, tri),
{
    let n = w.entities.len();
    proof {
        assert(w@ =~= tick_upto(old(w)@, 0, tri));
    }
    for i in 0..n
        invariant
            n == old(w)@.entities.len(),
            w@ == tick_upto(old(w)@, i as int, tri),
            w@.entities.len() == n,
    {
        proof {
            lemma_tick_upto_untouched(old(w)@, i as int, tri);
        }
        let e = &w.entities[i];
        if e.source.is_some() && !e.processed {
            process_source(w, i, tri);
            proof {
                assert(w@ =~= tick_upto(old(w)@, i + 1, tri));
            }
        } else {
            proof {
                assert(w@ =~= tick_upto(old(w)@, i + 1, tri));
            }
        }
    }
}

} // verus!
