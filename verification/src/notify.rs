//! The derived-texture notification hook and its consumer side: the event
//! queue the spawner fills is drained once per tick, and a subscriber binds
//! the derived texture into a consumer material — skipping silently when
//! that material was destroyed in the meantime — while recording the
//! dependency with the target-asset registry.

use vstd::prelude::*;
use crate::texture::TextureHandle;
use crate::world::World;

verus! {

/// Drains the completed-derivation event queue: hands back every queued
/// entity index, in queue order, leaving the queue empty. Everything else
/// in the world is untouched.
pub fn take_events(w: &mut World) -> (evs: Vec<usize>)
    ensures
        evs@ == old(w)@.events,
        final(w)@.events =~= Seq::<usize>::empty(),
        final(w)@.entities == old(w)@.entities,
        final(w)@.images == old(w)@.images,
{
    let mut evs: Vec<usize> = Vec::new();
    core::mem::swap(&mut evs, &mut w.events);
    evs
}

/// A consumer material that can sample a derived texture as its depth map.
#[derive(Clone, Copy, PartialEq, Eq, Structural, Debug)]
pub struct ConsumerMaterial {
    /// The derived texture this material currently samples, if any.
    pub depth_map: Option<TextureHandle>,
}

/// The engine's store of consumer materials: slots addressed by index; a
/// destroyed material leaves an empty slot behind, so a handle may dangle
/// benignly between request and notification.
pub struct MaterialStore {
    slots: Vec<Option<ConsumerMaterial>>,
}

impl View for MaterialStore {
    type V = Seq<Option<ConsumerMaterial>>;

    closed spec fn view(&self) -> Seq<Option<ConsumerMaterial>> {
        self.slots@
    }
}

impl MaterialStore {
    /// An empty store.
    pub fn new() -> (s: Self)
        ensures
            s@ =~= Seq::<Option<ConsumerMaterial>>::empty(),
    {
        MaterialStore { slots: Vec::new() }
    }

    /// Registers a material and returns its slot index.
    pub fn add(&mut self, m: ConsumerMaterial) -> (i: usize)
        ensures
            i == old(self)@.len(),
            final(self)@ =~= old(self)@.push(Some(m)),
    {
        let i = self.slots.len();
        self.slots.push(Some(m));
        i
    }

    /// Destroys the material in slot `i`; the slot stays empty forever.
    pub fn destroy(&mut self, i: usize)
        requires
            i < old(self)@.len(),
        ensures
            final(self)@ =~= old(self)@.update(i as int, None),
    {
        self.slots.set(i, None);
    }

    /// The material in slot `i`, or `None` when it was destroyed or the
    /// index is out of range.
    pub fn get(&self, i: usize) -> (m: Option<ConsumerMaterial>)
        ensures
            i < self@.len() ==> m == self@[i as int],
            i >= self@.len() ==> m is None,
    {
        if i < self.slots.len() {
            self.slots[i]
        } else {
            None
        }
    }

    /// How many slots exist, destroyed ones included.
    pub fn len(&self) -> (n: usize)
        ensures
            n == self@.len(),
    {
        self.slots.len()
    }
}

/// One recorded dependency: the consumer material must be kept consistent
/// with the source's derived texture.
#[derive(Clone, Copy, PartialEq, Eq, Structural, Debug)]
pub struct Dependency {
    /// Identity of the source the derivation was requested for.
    pub source: TextureHandle,
    /// Slot of the consumer material that sampled the derived texture.
    pub consumer: usize,
}

/// The target-asset registry: a collaborator-owned record of which consumer
/// materials must follow which source. This pipeline only appends to it.
pub struct DependencyRegistry {
    entries: Vec<Dependency>,
}

impl View for DependencyRegistry {
    type V = Seq<Dependency>;

    closed spec fn view(&self) -> Seq<Dependency> {
        self.entries@
    }
}

impl DependencyRegistry {
    /// An empty registry.
    pub fn new() -> (r: Self)
        ensures
            r@ =~= Seq::<Dependency>::empty(),
    {
        DependencyRegistry { entries: Vec::new() }
    }

    /// Records that `consumer` must be kept consistent with `source`'s
    /// derived texture.
    pub fn register_dependency(&mut self, source: TextureHandle, consumer: usize)
        ensures
            final(self)@ =~= old(self)@.push(Dependency { source, consumer }),
    {
        self.entries.push(Dependency { source, consumer });
    }

    /// All recorded dependencies, in recording order.
    pub fn entries(&self) -> (es: &Vec<Dependency>)
        ensures
            es@ == self@,
    {
        &self.entries
    }
}

/// Whether a notification for `entity` leads to an update of the consumer
/// material in slot `consumer`: the entity must exist and bear a completed
/// derivation, and the material must still be alive.
pub open spec fn update_applies(
    w: crate::world::WorldModel,
    entity: usize,
    materials: Seq<Option<ConsumerMaterial>>,
    consumer: usize,
) -> bool {
    &&& entity < w.entities.len()
    &&& w.entities[entity as int].target is Some
    &&& w.entities[entity as int].source is Some
    &&& consumer < materials.len()
    &&& materials[consumer as int] is Some
}

/// A subscriber of the notification hook: on the event for `entity`, binds
/// the freshly derived texture as the depth map of the consumer material in
/// slot `consumer` and records the dependency with the registry — if and
/// only if the update applies; in every other case (the material was
/// destroyed first, the entity never completed, a dangling index) nothing
/// happens and no error is raised.
pub fn bind_derived_to_material(
    w: &World,
    entity: usize,
    materials: &mut MaterialStore,
    consumer: usize,
    registry: &mut DependencyRegistry,
) -> (updated: bool)
    ensures
        updated <==> update_applies(w@, entity, old(materials)@, consumer),
        updated ==> ({
            let t = w@.entities[entity as int].target->Some_0.spec_texture();
            let s = w@.entities[entity as int].source->Some_0.texture;
            &&& final(materials)@ =~= old(materials)@.update(
                consumer as int,
                Some(ConsumerMaterial { depth_map: Some(t) }),
            )
            &&& final(registry)@ =~= old(registry)@.push(Dependency { source: s, consumer })
        }),
        !updated ==> final(materials)@ == old(materials)@ && final(registry)@ == old(registry)@,
{
    if entity >= w.entities.len() {
        return false;
    }
    let e = &w.entities[entity];
    let (target, source) = match (&e.target, &e.source) {
        (Some(t), Some(s)) => (t, s),
        _ => {
            return false;
        }
    };
    if consumer >= materials.len() {
        return false;
    }
    match materials.get(consumer) {
        Some(_) => {
            let derived = *target.texture();
            materials.slots.set(consumer, Some(ConsumerMaterial { depth_map: Some(derived) }));
            registry.register_dependency(source.texture, consumer);
            true
        }
        None => false,
    }
}

} // verus!
