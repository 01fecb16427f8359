use displacement::geometry::{DummyTriangle, MeshDescriptor, MeshStore};
use displacement::markers::LuminanceTextureSource;
use displacement::spawner::handle_new_sources;
use displacement::texture::{ImageDescriptor, PixelFormat, TextureUsage};
use displacement::world::World;

#[test]
fn triangle_is_created_once() {
    let mut meshes = MeshStore::new();
    let mut tri = DummyTriangle::new();
    assert!(tri.mesh.is_none());

    tri.setup(&mut meshes);
    let first = tri.mesh.expect("setup creates the shared triangle");
    assert_eq!(meshes.len(), 1);
    assert_eq!(
        meshes.get(first).unwrap(),
        MeshDescriptor { vertex_count: 3, triangle_list: true },
        "the dummy geometry is a single three-vertex triangle",
    );

    tri.setup(&mut meshes);
    assert_eq!(tri.mesh.unwrap(), first, "a second setup keeps the same mesh");
    assert_eq!(meshes.len(), 1, "no second mesh is ever created");
}

#[test]
fn every_pass_draws_the_shared_triangle() {
    let mut meshes = MeshStore::new();
    let mut tri = DummyTriangle::new();
    tri.setup(&mut meshes);
    let tri = tri.mesh.unwrap();

    let mut w = World::new(8);
    let src = w
        .images
        .add(ImageDescriptor {
            width: 16,
            height: 16,
            format: PixelFormat::Rgba8UnormSrgb,
            usage: TextureUsage { texture_binding: true, copy_dst: false, render_attachment: false },
        })
        .unwrap();
    let e1 = w.spawn_entity();
    let e2 = w.spawn_entity();
    w.attach_source(e1, LuminanceTextureSource::new(src, 4));
    w.attach_source(e2, LuminanceTextureSource::new(src, 5));

    handle_new_sources(&mut w, tri);

    assert_eq!(w.entity(e1).camera.unwrap().mesh, tri);
    assert_eq!(w.entity(e2).camera.unwrap().mesh, tri);
}
