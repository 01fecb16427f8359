//! The slice of engine state the pipeline touches: the entities with their
//! markers, the image store, and the queue of completed-derivation events.

use vstd::prelude::*;
use crate::texture::{ImageDescriptor, ImageStore, ImageStoreModel, TextureHandle, target_descriptor};
use crate::markers::{EntityState, LuminanceTextureSource, empty_entity, pending};

verus! {

/// Mathematical model of a [`World`].
#[verifier::ext_equal]
pub struct WorldModel {
    pub entities: Seq<EntityState>,
    pub images: ImageStoreModel,
    pub events: Seq<usize>,
}

/// The engine state the pipeline reads and writes: entities addressed by
/// index, the image store, and the completed-derivation event queue drained
/// once per tick by subscribers.
pub struct World {
    pub entities: Vec<EntityState>,
    pub images: ImageStore,
    pub events: Vec<usize>,
}

impl View for World {
    type V = WorldModel;

    open spec fn view(&self) -> WorldModel {
        WorldModel { entities: self.entities@, images: self.images@, events: self.events@ }
    }
}

/// A completed derivation is correct for its entity: all four attachments
/// are present and consistent — the derived texture is registered under the
/// fixed target policy, it is strictly fresher than the source texture, the
/// material samples the source, and the camera renders only the request's
/// isolation layer, into the derived texture.
pub open spec fn derived_ok(e: EntityState, images: Seq<ImageDescriptor>) -> bool {
    &&& e.source is Some
    &&& e.target is Some
    &&& e.material is Some
    &&& e.camera is Some
    &&& ({
        let s = e.source->Some_0;
        let t = e.target->Some_0.spec_texture();
        &&& t.id < images.len()
        &&& images[t.id as int] == target_descriptor()
        &&& s.texture.id < t.id
        &&& e.material->Some_0.texture == s.texture
        &&& e.camera->Some_0.layer == s.render_layer
        &&& e.camera->Some_0.target == t
    })
}

/// Well-formedness of the world, preserved by every operation of the
/// pipeline:
/// - the image store respects its budget, which fits the machine;
/// - an unprocessed entity has no derivation output attached;
/// - derivation outputs come and go together, and only with a source;
/// - every attached derivation output is correct ([`derived_ok`]);
/// - every attached source texture is registered in the store;
/// - every queued event names an entity whose derivation completed.
pub open spec fn wf(w: WorldModel) -> bool {
    &&& w.images.images.len() <= w.images.limit
    &&& w.images.limit <= usize::MAX as int
    &&& w.entities.len() <= usize::MAX as int
    &&& forall|i: int| 0 <= i < w.entities.len() ==> ({
        let e = #[trigger] w.entities[i];
        &&& !e.processed ==> e.target is None && e.material is None && e.camera is None
        &&& (e.target is Some <==> e.material is Some)
        &&& (e.target is Some <==> e.camera is Some)
        &&& e.target is Some ==> e.processed && derived_ok(e, w.images.images)
        &&& e.source is Some ==> e.source->Some_0.texture.id < w.images.images.len()
    })
    &&& forall|j: int| 0 <= j < w.events.len() ==> ({
        let n = #[trigger] w.events[j];
        &&& n < w.entities.len()
        &&& w.entities[n as int].target is Some
    })
}

impl World {
    /// An empty world whose image store can hold at most `image_limit`
    /// textures.
    pub fn new(image_limit: usize) -> (w: Self)
        ensures
            w@.entities =~= Seq::<EntityState>::empty(),
            w@.images.images =~= Seq::<ImageDescriptor>::empty(),
            w@.images.limit == image_limit,
            w@.events =~= Seq::<usize>::empty(),
            wf(w@),
    {
        World { entities: Vec::new(), images: ImageStore::new(image_limit), events: Vec::new() }
    }

    /// Creates a fresh entity with nothing attached and returns its index.
    pub fn spawn_entity(&mut self) -> (i: usize)
        ensures
            i == old(self)@.entities.len(),
            final(self)@.entities =~= old(self)@.entities.push(empty_entity()),
            final(self)@.images == old(self)@.images,
            final(self)@.events == old(self)@.events,
            wf(old(self)@) ==> wf(final(self)@),
    {
        let i = self.entities.len();
        self.entities.push(EntityState {
            source: None,
            processed: false,
            target: None,
            material: None,
            camera: None,
        });
        let n = self.entities.len();
        proof {
            assert(self@.entities =~= old(self)@.entities.push(empty_entity()));
            assert(self@.entities.len() == n as int);
        }
        i
    }

    /// Attaches a derivation request to entity `i`: the entire inbound API
    /// of the pipeline. The request's texture must be registered, and the
    /// entity must not already carry a request.
    pub fn attach_source(&mut self, i: usize, s: LuminanceTextureSource)
        requires
            i < old(self)@.entities.len(),
            old(self)@.entities[i as int].source is None,
            !old(self)@.entities[i as int].processed,
            s.texture.id < old(self)@.images.images.len(),
        ensures
            final(self)@.entities =~= old(self)@.entities.update(
                i as int,
                (EntityState { source: Some(s), ..old(self)@.entities[i as int] }),
            ),
            pending(final(self)@.entities[i as int]),
            final(self)@.images == old(self)@.images,
            final(self)@.events == old(self)@.events,
            wf(old(self)@) ==> wf(final(self)@),
    {
        let e = self.entities[i];
        self.entities.set(i, EntityState { source: Some(s), ..e });
        proof {
            assert(self@.entities =~= old(self)@.entities.update(
                i as int,
                (EntityState { source: Some(s), ..old(self)@.entities[i as int] }),
            ));
        }
    }

    /// How many entities exist.
    pub fn entity_count(&self) -> (n: usize)
        ensures
            n == self@.entities.len(),
    {
        self.entities.len()
    }

    /// A copy of entity `i`'s attachments.
    pub fn entity(&self, i: usize) -> (e: EntityState)
        requires
            i < self@.entities.len(),
        ensures
            e == self@.entities[i as int],
    {
        self.entities[i]
    }
}

} // verus!
