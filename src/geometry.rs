//! Mesh objects owned by an arena: callers hold an object's index, never a
//! shared reference to it.
use vstd::prelude::*;

verus! {

/// A mesh vertex; each coordinate is a single-precision bit pattern.
#[derive(Clone, Copy, Debug, PartialEq, Eq)]
pub struct Vertex {
    pub position: [u32; 3],
}

pub struct Object {
    pub vertices: Vec<Vertex>,
    pub indices: Vec<u32>,
}

impl Object {
    pub fn new(vertices: Vec<Vertex>, indices: Vec<u32>) -> (r: Self)
        ensures
            r.vertices@ == vertices@,
            r.indices@ == indices@,
    {
        Object { vertices, indices }
    }
}

/// The arena of cylinder meshes.
pub struct Cylinder {
    pub objects: Vec<Object>,
}

impl Cylinder {
    pub fn new() -> (r: Self)
        ensures
            r.objects@.len() == 0,
    {
        Cylinder { objects: Vec::new() }
    }

    /// Appends a new, empty cylinder mesh and returns its index; the meshes
    /// already held keep their indices.
    pub fn add_cylinder(&mut self) -> (r: usize)
        requires
            old(self).objects@.len() < usize::MAX,
        ensures
            r == old(self).objects@.len(),
            final(self).objects@.len() == r + 1,
            final(self).objects@.subrange(0, r as int) == old(self).objects@,
            final(self).objects@[r as int].vertices@.len() == 0,
            final(self).objects@[r as int].indices@.len() == 0,
    {
        let index: usize = self.objects.len();
        self.objects.push(Object::new(Vec::new(), Vec::new()));
        proof {
            assert(self.objects@.subrange(0, index as int) =~= old(self).objects@);
        }
        index
    }

    pub fn object(&self, index: usize) -> (r: &Object)
        requires
            index < self.objects@.len(),
        ensures
            *r == self.objects@[index as int],
    {
        &self.objects[index]
    }
}

} // verus!
