//! Vertex array objects.

use vstd::prelude::*;

use crate::driver::{Call, Driver, Gl, ObjectKind};
use crate::id::Id;

verus! {

/// An allocated vertex array object. Owns its name: `delete` hands it back.
#[derive(Debug)]
pub struct VertexArrayId(Id);

impl VertexArrayId {
    pub closed spec fn view(&self) -> u32 {
        self.0@
    }

    pub fn as_uint(&self) -> (r: u32)
        ensures
            r == self@,
            r != 0,
    {
        self.0.get()
    }

    /// Allocates a vertex array; `None` when the driver returns the reserved name zero.
    pub fn new<D: Driver>(gl: &mut Gl<D>) -> (r: Option<Self>)
        ensures
            final(gl).log() == old(gl).log().push(
                Call::Create { kind: ObjectKind::VertexArray, name: vertex_array_name_or_zero(r) },
            ),
            r matches Some(a) ==> a@ != 0
    {
        match Id::create(gl, ObjectKind::VertexArray) {
            Some(id) => Some(VertexArrayId(id)),
            None => None,
        }
    }

    /// Binds the vertex array. Vertex arrays follow the manual policy.
    pub fn bind<D: Driver>(&self, gl: &mut Gl<D>)
        ensures
            final(gl).log() == old(gl).log().push(Call::BindVertexArray { array: self@ }),
    {
        gl.bind_vertex_array(self.as_uint());
    }

    pub fn delete<D: Driver>(self, gl: &mut Gl<D>)
        ensures
            final(gl).log() == old(gl).log().push(
                Call::Delete { kind: ObjectKind::VertexArray, name: self@ },
            ),
    {
        self.0.delete(gl, ObjectKind::VertexArray);
    }
}

pub open spec fn vertex_array_name_or_zero(r: Option<VertexArrayId>) -> u32 {
    match r {
        Some(a) => a@,
        None => 0,
    }
}

/// A vertex array object whose `new` reports a failed allocation with a message.
pub struct VertexArray(VertexArrayId);

impl VertexArray {
    pub closed spec fn view(&self) -> u32 {
        self.0@
    }

    pub fn new<D: Driver>(gl: &mut Gl<D>) -> (r: Result<Self, String>)
        ensures
            final(gl).log() == old(gl).log().push(
                Call::Create {
                    kind: ObjectKind::VertexArray,
                    name: match r {
                        Ok(a) => a@,
                        Err(_) => 0,
                    },
                },
            ),
            r matches Err(e) ==> e@ == "Failed to acquire vertex array id."@,
    {
        match VertexArrayId::new(gl) {
            Some(id) => Ok(VertexArray(id)),
            None => Err("Failed to acquire vertex array id.".to_owned()),
        }
    }

    pub fn id(&self) -> (r: &VertexArrayId)
        ensures
            r@ == self@,
    {
        &self.0
    }
}

} // verus!
