use displacement::geometry::{DummyTriangle, MeshHandle, MeshStore};
use displacement::markers::LuminanceTextureSource;
use displacement::notify::{
    bind_derived_to_material, take_events, ConsumerMaterial, DependencyRegistry, MaterialStore,
};
use displacement::spawner::handle_new_sources;
use displacement::texture::{
    allocate, render_target_descriptor, AllocError, ImageDescriptor, PixelFormat, TextureUsage,
};
use displacement::world::World;

/// Creates the shared full-screen triangle, as the engine does once at
/// startup.
fn shared_triangle() -> (MeshStore, MeshHandle) {
    let mut meshes = MeshStore::new();
    let mut tri = DummyTriangle::new();
    tri.setup(&mut meshes);
    (meshes, tri.mesh.unwrap())
}

fn source_descriptor(width: u32, height: u32) -> ImageDescriptor {
    ImageDescriptor {
        width,
        height,
        format: PixelFormat::Rgba8UnormSrgb,
        usage: TextureUsage { texture_binding: true, copy_dst: true, render_attachment: false },
    }
}

#[test]
fn derivation_attaches_target_within_one_tick() {
    let (_meshes, tri) = shared_triangle();
    let mut w = World::new(8);
    let tex_a = w.images.add(source_descriptor(64, 64)).unwrap();
    let e = w.spawn_entity();
    w.attach_source(e, LuminanceTextureSource::new(tex_a, 7));

    handle_new_sources(&mut w, tri);

    let ent = w.entity(e);
    assert!(ent.processed);
    let target = ent.target.expect("target marker must be attached after one tick");
    let derived = *target.texture();
    assert_ne!(derived, tex_a, "the derived handle is distinct from the source");
    let camera = ent.camera.expect("offscreen camera must be attached");
    assert_eq!(camera.layer, 7, "the pass is isolated to the requested layer");
    assert_eq!(camera.target, derived);
    assert_eq!(camera.mesh, tri, "the pass draws the shared full-screen triangle");
    let material = ent.material.expect("derivation material must be attached");
    assert_eq!(material.texture, tex_a, "the material samples the source texture");
    assert_eq!(
        w.images.get(derived).unwrap(),
        render_target_descriptor(),
        "the derived texture carries the fixed-policy descriptor",
    );
}

#[test]
fn request_is_processed_exactly_once() {
    let (_meshes, tri) = shared_triangle();
    let mut w = World::new(8);
    let tex_a = w.images.add(source_descriptor(64, 64)).unwrap();
    let e = w.spawn_entity();
    w.attach_source(e, LuminanceTextureSource::new(tex_a, 3));

    handle_new_sources(&mut w, tri);
    let first = w.entity(e);
    let images_after_first = w.images.len();
    let events = take_events(&mut w);
    assert_eq!(events, vec![e], "exactly one notification event is queued");

    handle_new_sources(&mut w, tri);
    let second = w.entity(e);
    assert_eq!(first, second, "a second tick must not touch a handled request");
    assert_eq!(w.images.len(), images_after_first, "no second target is allocated");
    let events = take_events(&mut w);
    assert!(events.is_empty(), "no second notification is raised");
}

#[test]
fn same_source_twice_yields_two_distinct_targets() {
    let (_meshes, tri) = shared_triangle();
    let mut w = World::new(8);
    let tex_a = w.images.add(source_descriptor(32, 32)).unwrap();
    let e1 = w.spawn_entity();
    let e2 = w.spawn_entity();
    w.attach_source(e1, LuminanceTextureSource::new(tex_a, 7));
    w.attach_source(e2, LuminanceTextureSource::new(tex_a, 9));

    handle_new_sources(&mut w, tri);

    let t1 = *w.entity(e1).target.unwrap().texture();
    let t2 = *w.entity(e2).target.unwrap().texture();
    assert_ne!(t1, t2, "two requests yield two distinct derived textures");
    assert_eq!(w.images.get(t1).unwrap(), render_target_descriptor());
    assert_eq!(w.images.get(t2).unwrap(), render_target_descriptor());
    assert_eq!(w.entity(e1).camera.unwrap().layer, 7);
    assert_eq!(w.entity(e2).camera.unwrap().layer, 9);
}

#[test]
fn processing_order_does_not_affect_correctness() {
    // The same two requests, attached in either order: each entity's
    // derivation is correct either way.
    for reversed in [false, true] {
        let (_meshes, tri) = shared_triangle();
        let mut w = World::new(8);
        let tex_a = w.images.add(source_descriptor(16, 16)).unwrap();
        let tex_b = w.images.add(source_descriptor(128, 128)).unwrap();
        let e1 = w.spawn_entity();
        let e2 = w.spawn_entity();
        if reversed {
            w.attach_source(e2, LuminanceTextureSource::new(tex_b, 5));
            w.attach_source(e1, LuminanceTextureSource::new(tex_a, 4));
        } else {
            w.attach_source(e1, LuminanceTextureSource::new(tex_a, 4));
            w.attach_source(e2, LuminanceTextureSource::new(tex_b, 5));
        }

        handle_new_sources(&mut w, tri);

        let ent1 = w.entity(e1);
        let ent2 = w.entity(e2);
        assert_eq!(ent1.material.unwrap().texture, tex_a);
        assert_eq!(ent2.material.unwrap().texture, tex_b);
        assert_eq!(ent1.camera.unwrap().layer, 4);
        assert_eq!(ent2.camera.unwrap().layer, 5);
        let t1 = *ent1.target.unwrap().texture();
        let t2 = *ent2.target.unwrap().texture();
        assert_ne!(t1, t2);
        assert_eq!(w.images.get(t1).unwrap(), render_target_descriptor());
        assert_eq!(w.images.get(t2).unwrap(), render_target_descriptor());
    }
}

#[test]
fn derived_size_is_fixed_regardless_of_source() {
    let (_meshes, tri) = shared_triangle();
    let mut w = World::new(8);
    let wide = w.images.add(source_descriptor(2048, 16)).unwrap();
    let e = w.spawn_entity();
    w.attach_source(e, LuminanceTextureSource::new(wide, 2));

    handle_new_sources(&mut w, tri);

    let derived = *w.entity(e).target.unwrap().texture();
    let d = w.images.get(derived).unwrap();
    assert_eq!(d.width, 512);
    assert_eq!(d.height, 512);
    assert_eq!(d.format, PixelFormat::Bgra8UnormSrgb);
    assert!(d.usage.texture_binding && d.usage.copy_dst && d.usage.render_attachment);
}

#[test]
fn allocator_rejects_zero_dimensions() {
    let mut w = World::new(4);
    assert_eq!(
        allocate(&mut w.images, 0, 512, PixelFormat::Bgra8UnormSrgb),
        Err(AllocError::InvalidSize),
    );
    assert_eq!(
        allocate(&mut w.images, 512, 0, PixelFormat::Bgra8UnormSrgb),
        Err(AllocError::InvalidSize),
    );
    assert_eq!(w.images.len(), 0, "a failed allocation registers nothing");
}

#[test]
fn exhausted_store_fails_that_request_only() {
    let (_meshes, tri) = shared_triangle();
    let mut w = World::new(1);
    let tex_a = w.images.add(source_descriptor(8, 8)).unwrap();
    assert_eq!(
        allocate(&mut w.images, 512, 512, PixelFormat::Bgra8UnormSrgb),
        Err(AllocError::OutOfMemory),
    );
    let e = w.spawn_entity();
    w.attach_source(e, LuminanceTextureSource::new(tex_a, 6));

    handle_new_sources(&mut w, tri);

    let ent = w.entity(e);
    assert!(ent.processed, "the failed request is still consumed");
    assert!(ent.target.is_none(), "the entity never reaches readiness");
    assert!(take_events(&mut w).is_empty(), "no notification for a failed request");

    handle_new_sources(&mut w, tri);
    assert!(w.entity(e).target.is_none(), "the one-shot request is not retried");
}

#[test]
fn notification_binds_depth_map_and_registers_dependency() {
    let (_meshes, tri) = shared_triangle();
    let mut w = World::new(8);
    let tex_a = w.images.add(source_descriptor(64, 64)).unwrap();
    let e = w.spawn_entity();
    w.attach_source(e, LuminanceTextureSource::new(tex_a, 7));
    let mut materials = MaterialStore::new();
    let consumer = materials.add(ConsumerMaterial { depth_map: None });
    let mut registry = DependencyRegistry::new();

    handle_new_sources(&mut w, tri);
    let derived = *w.entity(e).target.unwrap().texture();

    let events = take_events(&mut w);
    assert_eq!(events, vec![e]);
    let updated = bind_derived_to_material(&w, events[0], &mut materials, consumer, &mut registry);
    assert!(updated);
    assert_eq!(materials.get(consumer).unwrap().depth_map, Some(derived));
    let entries = registry.entries();
    assert_eq!(entries.len(), 1);
    assert_eq!(entries[0].source, tex_a);
    assert_eq!(entries[0].consumer, consumer);
}

#[test]
fn subscriber_tolerates_repeated_invocation() {
    let (_meshes, tri) = shared_triangle();
    let mut w = World::new(8);
    let tex_a = w.images.add(source_descriptor(64, 64)).unwrap();
    let e = w.spawn_entity();
    w.attach_source(e, LuminanceTextureSource::new(tex_a, 7));
    let mut materials = MaterialStore::new();
    let consumer = materials.add(ConsumerMaterial { depth_map: None });
    let mut registry = DependencyRegistry::new();

    handle_new_sources(&mut w, tri);
    let derived = *w.entity(e).target.unwrap().texture();

    // Two hooks firing for the same event, in whatever order: the material
    // ends in the same state either time.
    assert!(bind_derived_to_material(&w, e, &mut materials, consumer, &mut registry));
    let after_first = materials.get(consumer).unwrap();
    assert!(bind_derived_to_material(&w, e, &mut materials, consumer, &mut registry));
    assert_eq!(materials.get(consumer).unwrap(), after_first);
    assert_eq!(after_first.depth_map, Some(derived));
}

#[test]
fn destroyed_material_is_skipped_silently() {
    let (_meshes, tri) = shared_triangle();
    let mut w = World::new(8);
    let tex_a = w.images.add(source_descriptor(64, 64)).unwrap();
    let e = w.spawn_entity();
    w.attach_source(e, LuminanceTextureSource::new(tex_a, 7));
    let mut materials = MaterialStore::new();
    let consumer = materials.add(ConsumerMaterial { depth_map: None });
    let mut registry = DependencyRegistry::new();

    handle_new_sources(&mut w, tri);
    // The consumer's material is torn down before the hook fires.
    materials.destroy(consumer);

    let events = take_events(&mut w);
    let updated = bind_derived_to_material(&w, events[0], &mut materials, consumer, &mut registry);
    assert!(!updated, "no update occurs for a destroyed material");
    assert!(materials.get(consumer).is_none());
    assert_eq!(registry.entries().len(), 0, "nothing is registered");

    // Subsequent ticks proceed normally.
    let e2 = w.spawn_entity();
    w.attach_source(e2, LuminanceTextureSource::new(tex_a, 8));
    handle_new_sources(&mut w, tri);
    assert!(w.entity(e2).target.is_some());
}
