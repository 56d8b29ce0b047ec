//! Renderbuffer objects and their binding point.

use vstd::prelude::*;
use std::marker::PhantomData;

use crate::driver::{Call, Driver, Gl, ObjectKind};
use crate::id::Id;

verus! {

pub const RENDERBUFFER: u32 = 0x8D41;

/// An allocated renderbuffer object. Owns its name: `delete` hands it back.
pub struct RenderbufferId(Id);

impl RenderbufferId {
    pub closed spec fn view(&self) -> u32 {
        self.0@
    }

    /// Allocates a renderbuffer; `None` when the driver returns the reserved name zero.
    pub fn new<D: Driver>(gl: &mut Gl<D>) -> (r: Option<Self>)
        ensures
            final(gl).log() == old(gl).log().push(
                Call::Create { kind: ObjectKind::Renderbuffer, name: renderbuffer_name_or_zero(r) },
            ),
            r matches Some(b) ==> b@ != 0
    {
        match Id::create(gl, ObjectKind::Renderbuffer) {
            Some(id) => Some(RenderbufferId(id)),
            None => None,
        }
    }

    pub fn as_u32(&self) -> (r: u32)
        ensures
            r == self@,
            r != 0,
    {
        self.0.get()
    }

    pub fn delete<D: Driver>(self, gl: &mut Gl<D>)
        ensures
            final(gl).log() == old(gl).log().push(
                Call::Delete { kind: ObjectKind::Renderbuffer, name: self@ },
            ),
    {
        self.0.delete(gl, ObjectKind::Renderbuffer);
    }
}

pub open spec fn renderbuffer_name_or_zero(r: Option<RenderbufferId>) -> u32 {
    match r {
        Some(b) => b@,
        None => 0,
    }
}

/// The renderbuffer binding point.
pub struct RenderbufferSlot;

impl RenderbufferSlot {
    pub fn target(&mut self) -> RenderbufferTarget<'_> {
        RenderbufferTarget::new(self)
    }
}

/// Exclusive use of the renderbuffer binding point.
pub struct RenderbufferTarget<'s>(PhantomData<&'s mut RenderbufferSlot>);

impl<'s> RenderbufferTarget<'s> {
    pub fn new(slot: &'s mut RenderbufferSlot) -> Self {
        let _ = slot;
        RenderbufferTarget(PhantomData)
    }

    fn as_enum(&self) -> (r: u32)
        ensures
            r == RENDERBUFFER,
    {
        RENDERBUFFER
    }

    /// Releases the binding point, binding the reserved name zero to it.
    pub fn unbind<D: Driver>(self, gl: &mut Gl<D>)
        ensures
            final(gl).log() == old(gl).log().push(
                Call::BindRenderbuffer { target: RENDERBUFFER, renderbuffer: 0 },
            ),
    {
        gl.bind_renderbuffer(self.as_enum(), 0);
    }

    pub fn bind<'t, 'i, D: Driver>(&'t mut self, gl: &mut Gl<D>, renderbuffer_id: &'i RenderbufferId) -> (r:
        BoundRenderbufferId<'s, 't, 'i>)
        ensures
            final(gl).log() == old(gl).log().push(
                Call::BindRenderbuffer { target: RENDERBUFFER, renderbuffer: renderbuffer_id@ },
            ),
    {
        gl.bind_renderbuffer(self.as_enum(), renderbuffer_id.as_u32());
        BoundRenderbufferId { target: self, renderbuffer_id: PhantomData }
    }
}

/// A renderbuffer bound to the binding point. Renderbuffers follow the unbind
/// policy: the handle is given up through `unbind`, which resets the binding
/// point to zero.
#[must_use]
pub struct BoundRenderbufferId<'s: 't, 't, 'i> {
    target: &'t mut RenderbufferTarget<'s>,
    renderbuffer_id: PhantomData<&'i RenderbufferId>,
}

impl<'s: 't, 't, 'i> BoundRenderbufferId<'s, 't, 'i> {
    /// Allocates the renderbuffer's storage.
    pub fn storage<D: Driver>(
        &mut self,
        gl: &mut Gl<D>,
        internal_format: RenderbufferInternalFormat,
        width: i32,
        height: i32,
    ) -> (r: &mut Self)
        ensures
            final(gl).log() == old(gl).log().push(
                Call::RenderbufferStorage {
                    target: RENDERBUFFER,
                    internal_format: internal_format.spec_value(),
                    width,
                    height,
                },
            ),
            *r == *old(self),
            *final(self) == *final(r),
    {
        gl.renderbuffer_storage(self.target.as_enum(), internal_format.as_u32(), width, height);
        self
    }

    /// Gives up the handle and resets the binding point: exactly one driver call.
    pub fn unbind<D: Driver>(self, gl: &mut Gl<D>)
        ensures
            final(gl).log() == old(gl).log().push(
                Call::BindRenderbuffer { target: RENDERBUFFER, renderbuffer: 0 },
            ),
    {
        gl.bind_renderbuffer(self.target.as_enum(), 0);
    }
}

/// The formats a renderbuffer's storage can have.
#[allow(non_camel_case_types)]
#[derive(Clone, Copy, Debug, PartialEq, Eq, Structural)]
pub enum RenderbufferInternalFormat {
    R8,
    R8UI,
    R8I,
    R16UI,
    R16I,
    R32UI,
    R32I,
    RG8,
    RG8UI,
    RG8I,
    RG16UI,
    RG16I,
    RG32UI,
    RG32I,
    RGB8,
    RGB565,
    RGBA8,
    SRGB8_ALPHA8,
    RGB5_A1,
    RGBA4,
    RGB10_A2,
    RGBA8UI,
    RGBA8I,
    RGB10_A2UI,
    RGBA16UI,
    RGBA16I,
    RGBA32I,
    RGBA32UI,
    DEPTH_COMPONENT16,
    DEPTH_COMPONENT24,
    DEPTH_COMPONENT32F,
    DEPTH24_STENCIL8,
    DEPTH32F_STENCIL8,
    STENCIL_INDEX8,
}

impl RenderbufferInternalFormat {
    pub open spec fn spec_value(self) -> u32 {
        match self {
            RenderbufferInternalFormat::R8 => 0x8229,
            RenderbufferInternalFormat::R8UI => 0x8232,
            RenderbufferInternalFormat::R8I => 0x8231,
            RenderbufferInternalFormat::R16UI => 0x8234,
            RenderbufferInternalFormat::R16I => 0x8233,
            RenderbufferInternalFormat::R32UI => 0x8236,
            RenderbufferInternalFormat::R32I => 0x8235,
            RenderbufferInternalFormat::RG8 => 0x822B,
            RenderbufferInternalFormat::RG8UI => 0x8238,
            RenderbufferInternalFormat::RG8I => 0x8237,
            RenderbufferInternalFormat::RG16UI => 0x823A,
            RenderbufferInternalFormat::RG16I => 0x8239,
            RenderbufferInternalFormat::RG32UI => 0x823C,
            RenderbufferInternalFormat::RG32I => 0x823B,
            RenderbufferInternalFormat::RGB8 => 0x8051,
            RenderbufferInternalFormat::RGB565 => 0x8D62,
            RenderbufferInternalFormat::RGBA8 => 0x8058,
            RenderbufferInternalFormat::SRGB8_ALPHA8 => 0x8C43,
            RenderbufferInternalFormat::RGB5_A1 => 0x8057,
            RenderbufferInternalFormat::RGBA4 => 0x8056,
            RenderbufferInternalFormat::RGB10_A2 => 0x8059,
            RenderbufferInternalFormat::RGBA8UI => 0x8D7C,
            RenderbufferInternalFormat::RGBA8I => 0x8D8E,
            RenderbufferInternalFormat::RGB10_A2UI => 0x906F,
            RenderbufferInternalFormat::RGBA16UI => 0x8D76,
            RenderbufferInternalFormat::RGBA16I => 0x8D88,
            RenderbufferInternalFormat::RGBA32I => 0x8D82,
            RenderbufferInternalFormat::RGBA32UI => 0x8D70,
            RenderbufferInternalFormat::DEPTH_COMPONENT16 => 0x81A5,
            RenderbufferInternalFormat::DEPTH_COMPONENT24 => 0x81A6,
            RenderbufferInternalFormat::DEPTH_COMPONENT32F => 0x8CAC,
            RenderbufferInternalFormat::DEPTH24_STENCIL8 => 0x88F0,
            RenderbufferInternalFormat::DEPTH32F_STENCIL8 => 0x8CAD,
            RenderbufferInternalFormat::STENCIL_INDEX8 => 0x8D48,
        }
    }

    pub fn as_u32(self) -> (r: u32)
        ensures
            r == self.spec_value(),
    {
        match self {
            RenderbufferInternalFormat::R8 => 0x8229,
            RenderbufferInternalFormat::R8UI => 0x8232,
            RenderbufferInternalFormat::R8I => 0x8231,
            RenderbufferInternalFormat::R16UI => 0x8234,
            RenderbufferInternalFormat::R16I => 0x8233,
            RenderbufferInternalFormat::R32UI => 0x8236,
            RenderbufferInternalFormat::R32I => 0x8235,
            RenderbufferInternalFormat::RG8 => 0x822B,
            RenderbufferInternalFormat::RG8UI => 0x8238,
            RenderbufferInternalFormat::RG8I => 0x8237,
            RenderbufferInternalFormat::RG16UI => 0x823A,
            RenderbufferInternalFormat::RG16I => 0x8239,
            RenderbufferInternalFormat::RG32UI => 0x823C,
            RenderbufferInternalFormat::RG32I => 0x823B,
            RenderbufferInternalFormat::RGB8 => 0x8051,
            RenderbufferInternalFormat::RGB565 => 0x8D62,
            RenderbufferInternalFormat::RGBA8 => 0x8058,
            RenderbufferInternalFormat::SRGB8_ALPHA8 => 0x8C43,
            RenderbufferInternalFormat::RGB5_A1 => 0x8057,
            RenderbufferInternalFormat::RGBA4 => 0x8056,
            RenderbufferInternalFormat::RGB10_A2 => 0x8059,
            RenderbufferInternalFormat::RGBA8UI => 0x8D7C,
            RenderbufferInternalFormat::RGBA8I => 0x8D8E,
            RenderbufferInternalFormat::RGB10_A2UI => 0x906F,
            RenderbufferInternalFormat::RGBA16UI => 0x8D76,
            RenderbufferInternalFormat::RGBA16I => 0x8D88,
            RenderbufferInternalFormat::RGBA32I => 0x8D82,
            RenderbufferInternalFormat::RGBA32UI => 0x8D70,
            RenderbufferInternalFormat::DEPTH_COMPONENT16 => 0x81A5,
            RenderbufferInternalFormat::DEPTH_COMPONENT24 => 0x81A6,
            RenderbufferInternalFormat::DEPTH_COMPONENT32F => 0x8CAC,
            RenderbufferInternalFormat::DEPTH24_STENCIL8 => 0x88F0,
            RenderbufferInternalFormat::DEPTH32F_STENCIL8 => 0x8CAD,
            RenderbufferInternalFormat::STENCIL_INDEX8 => 0x8D48,
        }
    }
}

} // verus!
