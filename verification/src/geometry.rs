//! The dummy full-screen geometry: a single degenerate triangle that every
//! derivation pass draws to invoke the fragment stage once per output
//! pixel. It is created once and shared by every pass.

use vstd::prelude::*;

verus! {

/// Opaque identifier of a mesh registered in the engine's mesh store.
#[derive(Clone, Copy, PartialEq, Eq, Structural, Debug)]
pub struct MeshHandle {
    pub id: usize,
}

/// Shape of one mesh resource.
#[derive(Clone, Copy, PartialEq, Eq, Structural, Debug)]
pub struct MeshDescriptor {
    /// How many vertices the mesh holds.
    pub vertex_count: usize,
    /// Whether the mesh is drawn as a triangle list.
    pub triangle_list: bool,
}

/// The one mesh every derivation pass draws: three vertices forming a
/// single triangle, rasterized as a triangle list. The vertex positions
/// carry no content — the vertex stage needs nothing beyond the vertex
/// itself.
pub open spec fn fullscreen_triangle_descriptor() -> MeshDescriptor {
    MeshDescriptor { vertex_count: 3, triangle_list: true }
}

/// The engine's mesh/asset table, addressed by [`MeshHandle`].
pub struct MeshStore {
    meshes: Vec<MeshDescriptor>,
}

impl View for MeshStore {
    type V = Seq<MeshDescriptor>;

    closed spec fn view(&self) -> Seq<MeshDescriptor> {
        self.meshes@
    }
}

impl MeshStore {
    /// An empty store.
    pub fn new() -> (s: Self)
        ensures
            s@ =~= Seq::<MeshDescriptor>::empty(),
    {
        MeshStore { meshes: Vec::new() }
    }

    /// Registers `d` and hands back its handle.
    pub fn add(&mut self, d: MeshDescriptor) -> (h: MeshHandle)
        ensures
            h.id == old(self)@.len(),
            final(self)@ =~= old(self)@.push(d),
    {
        let h = MeshHandle { id: self.meshes.len() };
        self.meshes.push(d);
        h
    }

    /// The descriptor registered under `h`, or `None` for a dangling handle.
    pub fn get(&self, h: MeshHandle) -> (r: Option<MeshDescriptor>)
        ensures
            h.id < self@.len() ==> r == Some(self@[h.id as int]),
            h.id >= self@.len() ==> r is None,
    {
        if h.id < self.meshes.len() {
            Some(self.meshes[h.id])
        } else {
            None
        }
    }

    /// How many meshes are registered.
    pub fn len(&self) -> (n: usize)
        ensures
            n == self@.len(),
    {
        self.meshes.len()
    }
}

/// The shared dummy-triangle resource: empty until set up, then it holds
/// the one triangle mesh forever.
#[derive(Clone, Copy, PartialEq, Eq, Structural, Debug)]
pub struct DummyTriangle {
    /// The shared triangle, once created.
    pub mesh: Option<MeshHandle>,
}

impl DummyTriangle {
    /// The resource before setup: no triangle yet.
    pub fn new() -> (t: Self)
        ensures
            t.mesh is None,
    {
        DummyTriangle { mesh: None }
    }

    /// Creates the shared triangle exactly once: the first call registers
    /// the full-screen triangle and keeps its handle; any later call
    /// changes nothing.
    pub fn setup(&mut self, meshes: &mut MeshStore)
        ensures
            old(self).mesh is None ==> ({
                &&& final(meshes)@ =~= old(meshes)@.push(fullscreen_triangle_descriptor())
                &&& final(self).mesh is Some
                &&& final(self).mesh->Some_0.id == old(meshes)@.len()
            }),
            old(self).mesh is Some ==> *final(self) == *old(self) && final(meshes)@ == old(meshes)@,
            final(self).mesh is Some,
    {
        if self.mesh.is_none() {
            let h = meshes.add(MeshDescriptor { vertex_count: 3, triangle_list: true });
            self.mesh = Some(h);
        }
    }
}

} // verus!
