//! Buffer objects and their binding points.

use vstd::prelude::*;

use crate::driver::{Call, Driver, Gl, ObjectKind};
use crate::id::Id;

verus! {

pub const ARRAY_BUFFER: u32 = 0x8892;
pub const ATOMIC_COUNTER_BUFFER: u32 = 0x92C0;
pub const COPY_READ_BUFFER: u32 = 0x8F36;
pub const COPY_WRITE_BUFFER: u32 = 0x8F37;
pub const DISPATCH_INDIRECT_BUFFER: u32 = 0x90EE;
pub const DRAW_INDIRECT_BUFFER: u32 = 0x8F3F;
pub const ELEMENT_ARRAY_BUFFER: u32 = 0x8893;
pub const PIXEL_PACK_BUFFER: u32 = 0x88EB;
pub const PIXEL_UNPACK_BUFFER: u32 = 0x88EC;
pub const QUERY_BUFFER: u32 = 0x9192;
pub const SHADER_STORAGE_BUFFER: u32 = 0x90D2;
pub const TRANSFORM_FEEDBACK_BUFFER: u32 = 0x8C8E;
pub const UNIFORM_BUFFER: u32 = 0x8A11;

/// The binding points of buffer objects.
#[derive(Clone, Copy, Debug, PartialEq, Eq, Structural)]
pub enum BufferTarget {
    ArrayBuffer,
    AtomicCounterBuffer,
    CopyReadBuffer,
    CopyWriteBuffer,
    DispatchIndirectBuffer,
    DrawIndirectBuffer,
    ElementArrayBuffer,
    PixelPackBuffer,
    PixelUnpackBuffer,
    QueryBuffer,
    ShaderStorageBuffer,
    TextureBuffer,
    TransformFeedbackBuffer,
    UniformBuffer,
}

impl BufferTarget {
    pub open spec fn spec_value(self) -> u32 {
        match self {
            BufferTarget::ArrayBuffer => ARRAY_BUFFER,
            BufferTarget::AtomicCounterBuffer => ATOMIC_COUNTER_BUFFER,
            BufferTarget::CopyReadBuffer => COPY_READ_BUFFER,
            BufferTarget::CopyWriteBuffer => COPY_WRITE_BUFFER,
            BufferTarget::DispatchIndirectBuffer => DISPATCH_INDIRECT_BUFFER,
            BufferTarget::DrawIndirectBuffer => DRAW_INDIRECT_BUFFER,
            BufferTarget::ElementArrayBuffer => ELEMENT_ARRAY_BUFFER,
            BufferTarget::PixelPackBuffer => PIXEL_PACK_BUFFER,
            BufferTarget::PixelUnpackBuffer => PIXEL_UNPACK_BUFFER,
            BufferTarget::QueryBuffer => QUERY_BUFFER,
            BufferTarget::ShaderStorageBuffer => SHADER_STORAGE_BUFFER,
            BufferTarget::TextureBuffer => crate::texture::TEXTURE_BUFFER,
            BufferTarget::TransformFeedbackBuffer => TRANSFORM_FEEDBACK_BUFFER,
            BufferTarget::UniformBuffer => UNIFORM_BUFFER,
        }
    }

    pub fn as_u32(self) -> (r: u32)
        ensures
            r == self.spec_value(),
    {
        match self {
            BufferTarget::ArrayBuffer => ARRAY_BUFFER,
            BufferTarget::AtomicCounterBuffer => ATOMIC_COUNTER_BUFFER,
            BufferTarget::CopyReadBuffer => COPY_READ_BUFFER,
            BufferTarget::CopyWriteBuffer => COPY_WRITE_BUFFER,
            BufferTarget::DispatchIndirectBuffer => DISPATCH_INDIRECT_BUFFER,
            BufferTarget::DrawIndirectBuffer => DRAW_INDIRECT_BUFFER,
            BufferTarget::ElementArrayBuffer => ELEMENT_ARRAY_BUFFER,
            BufferTarget::PixelPackBuffer => PIXEL_PACK_BUFFER,
            BufferTarget::PixelUnpackBuffer => PIXEL_UNPACK_BUFFER,
            BufferTarget::QueryBuffer => QUERY_BUFFER,
            BufferTarget::ShaderStorageBuffer => SHADER_STORAGE_BUFFER,
            BufferTarget::TextureBuffer => crate::texture::TEXTURE_BUFFER,
            BufferTarget::TransformFeedbackBuffer => TRANSFORM_FEEDBACK_BUFFER,
            BufferTarget::UniformBuffer => UNIFORM_BUFFER,
        }
    }
}

/// An allocated buffer object. Owns its name: `delete` hands it back.
#[derive(Debug)]
pub struct VertexBufferId(Id);

impl VertexBufferId {
    pub closed spec fn view(&self) -> u32 {
        self.0@
    }

    pub fn as_uint(&self) -> (r: u32)
        ensures
            r == self@,
            r != 0,
    {
        self.0.get()
    }

    /// Allocates a buffer; `None` when the driver returns the reserved name zero.
    pub fn new<D: Driver>(gl: &mut Gl<D>) -> (r: Option<Self>)
        ensures
            final(gl).log() == old(gl).log().push(
                Call::Create { kind: ObjectKind::Buffer, name: buffer_name_or_zero(r) },
            ),
            r matches Some(b) ==> b@ != 0
    {
        match Id::create(gl, ObjectKind::Buffer) {
            Some(id) => Some(VertexBufferId(id)),
            None => None,
        }
    }

    /// Binds the buffer to the binding point. Buffers follow the manual policy.
    pub fn bind<D: Driver>(&self, gl: &mut Gl<D>, target: BufferTarget)
        ensures
            final(gl).log() == old(gl).log().push(
                Call::BindBuffer { target: target.spec_value(), buffer: self@ },
            ),
    {
        gl.bind_buffer(target.as_u32(), self.as_uint());
    }

    pub fn delete<D: Driver>(self, gl: &mut Gl<D>)
        ensures
            final(gl).log() == old(gl).log().push(
                Call::Delete { kind: ObjectKind::Buffer, name: self@ },
            ),
    {
        self.0.delete(gl, ObjectKind::Buffer);
    }
}

pub open spec fn buffer_name_or_zero(r: Option<VertexBufferId>) -> u32 {
    match r {
        Some(b) => b@,
        None => 0,
    }
}

/// A buffer object whose `new` reports a failed allocation with a message.
#[derive(Debug)]
pub struct VertexBuffer(VertexBufferId);

impl VertexBuffer {
    pub closed spec fn view(&self) -> u32 {
        self.0@
    }

    pub fn new<D: Driver>(gl: &mut Gl<D>) -> (r: Result<Self, String>)
        ensures
            final(gl).log() == old(gl).log().push(
                Call::Create {
                    kind: ObjectKind::Buffer,
                    name: match r {
                        Ok(b) => b@,
                        Err(_) => 0,
                    },
                },
            ),
            r matches Err(e) ==> e@ == "Failed to acquire buffer id."@,
    {
        match VertexBufferId::new(gl) {
            Some(id) => Ok(VertexBuffer(id)),
            None => Err("Failed to acquire buffer id.".to_owned()),
        }
    }

    pub fn id(&self) -> (r: &VertexBufferId)
        ensures
            r@ == self@,
    {
        &self.0
    }
}

} // verus!
