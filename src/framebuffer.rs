//! Framebuffer objects and the draw and read binding points.

use vstd::prelude::*;
use std::marker::PhantomData;

use crate::driver::{Call, Driver, Gl, ObjectKind};
use crate::id::Id;
use crate::renderbuffer::{RenderbufferId, RENDERBUFFER};
use crate::texture::TextureId;

verus! {

pub const FRAMEBUFFER: u32 = 0x8D40;
pub const DRAW_FRAMEBUFFER: u32 = 0x8CA9;
pub const READ_FRAMEBUFFER: u32 = 0x8CA8;

pub const COLOR_ATTACHMENT0: u32 = 0x8CE0;
pub const DEPTH_ATTACHMENT: u32 = 0x8D00;
pub const STENCIL_ATTACHMENT: u32 = 0x8D20;
pub const DEPTH_STENCIL_ATTACHMENT: u32 = 0x821A;

pub const FRAMEBUFFER_COMPLETE: u32 = 0x8CD5;
pub const FRAMEBUFFER_UNDEFINED: u32 = 0x8219;
pub const FRAMEBUFFER_INCOMPLETE_ATTACHMENT: u32 = 0x8CD6;
pub const FRAMEBUFFER_INCOMPLETE_MISSING_ATTACHMENT: u32 = 0x8CD7;
pub const FRAMEBUFFER_INCOMPLETE_DRAW_BUFFER: u32 = 0x8CDB;
pub const FRAMEBUFFER_INCOMPLETE_READ_BUFFER: u32 = 0x8CDC;
pub const FRAMEBUFFER_UNSUPPORTED: u32 = 0x8CDD;
pub const FRAMEBUFFER_INCOMPLETE_MULTISAMPLE: u32 = 0x8D56;
pub const FRAMEBUFFER_INCOMPLETE_LAYER_TARGETS: u32 = 0x8DA8;

/// Anything that names a framebuffer: an allocated one or the default one.
pub trait HasFramebufferId {
    spec fn spec_id(&self) -> u32;

    fn id(&self) -> (r: u32)
        ensures
            r == self.spec_id(),
    ;
}

/// The default framebuffer, whose name is zero.
pub struct DefaultFramebufferId;

pub const DEFAULT_FRAMEBUFFER_ID: DefaultFramebufferId = DefaultFramebufferId;

impl HasFramebufferId for DefaultFramebufferId {
    open spec fn spec_id(&self) -> u32 {
        0
    }

    fn id(&self) -> (r: u32) {
        0
    }
}

/// An allocated framebuffer object. Owns its name: `delete` hands it back.
#[derive(Debug, PartialEq, Eq)]
pub struct FramebufferId(Id);

impl FramebufferId {
    pub closed spec fn view(&self) -> u32 {
        self.0@
    }

    /// Allocates a framebuffer; `None` when the driver returns the reserved name zero.
    pub fn new<D: Driver>(gl: &mut Gl<D>) -> (r: Option<Self>)
        ensures
            final(gl).log() == old(gl).log().push(
                Call::Create { kind: ObjectKind::Framebuffer, name: framebuffer_name_or_zero(r) },
            ),
            r matches Some(f) ==> f@ != 0
    {
        match Id::create(gl, ObjectKind::Framebuffer) {
            Some(id) => Some(FramebufferId(id)),
            None => None,
        }
    }

    pub fn delete<D: Driver>(self, gl: &mut Gl<D>)
        ensures
            final(gl).log() == old(gl).log().push(
                Call::Delete { kind: ObjectKind::Framebuffer, name: self@ },
            ),
    {
        self.0.delete(gl, ObjectKind::Framebuffer);
    }
}

pub open spec fn framebuffer_name_or_zero(r: Option<FramebufferId>) -> u32 {
    match r {
        Some(f) => f@,
        None => 0,
    }
}

impl HasFramebufferId for FramebufferId {
    open spec fn spec_id(&self) -> u32 {
        self@
    }

    fn id(&self) -> (r: u32) {
        self.0.get()
    }
}

/// The attachment points of a framebuffer. Whether the driver supports a
/// given color attachment is not checked here.
#[non_exhaustive]
#[derive(Clone, Copy, Debug, PartialEq, Eq, Structural)]
pub enum FramebufferAttachment {
    Color0,
    Color1,
    Color2,
    Color3,
    Color4,
    Color5,
    Color6,
    Color7,
    Depth,
    Stencil,
    DepthStencil,
    /// A color attachment past the eighth, by its index.
    Color(u32),
}

impl FramebufferAttachment {
    pub open spec fn spec_value(self) -> u32 {
        match self {
            FramebufferAttachment::Color0 => COLOR_ATTACHMENT0,
            FramebufferAttachment::Color1 => (COLOR_ATTACHMENT0 + 1) as u32,
            FramebufferAttachment::Color2 => (COLOR_ATTACHMENT0 + 2) as u32,
            FramebufferAttachment::Color3 => (COLOR_ATTACHMENT0 + 3) as u32,
            FramebufferAttachment::Color4 => (COLOR_ATTACHMENT0 + 4) as u32,
            FramebufferAttachment::Color5 => (COLOR_ATTACHMENT0 + 5) as u32,
            FramebufferAttachment::Color6 => (COLOR_ATTACHMENT0 + 6) as u32,
            FramebufferAttachment::Color7 => (COLOR_ATTACHMENT0 + 7) as u32,
            FramebufferAttachment::Depth => DEPTH_ATTACHMENT,
            FramebufferAttachment::Stencil => STENCIL_ATTACHMENT,
            FramebufferAttachment::DepthStencil => DEPTH_STENCIL_ATTACHMENT,
            FramebufferAttachment::Color(index) => COLOR_ATTACHMENT0.wrapping_add(index),
        }
    }

    /// The color attachment with the given index.
    pub fn color(index: u32) -> (r: Self)
        requires
            index <= u32::MAX - COLOR_ATTACHMENT0,
        ensures
            r.spec_value() == COLOR_ATTACHMENT0 + index,
    {
        match index {
            0 => FramebufferAttachment::Color0,
            1 => FramebufferAttachment::Color1,
            2 => FramebufferAttachment::Color2,
            3 => FramebufferAttachment::Color3,
            4 => FramebufferAttachment::Color4,
            5 => FramebufferAttachment::Color5,
            6 => FramebufferAttachment::Color6,
            7 => FramebufferAttachment::Color7,
            _ => FramebufferAttachment::Color(index),
        }
    }

    pub fn as_u32(self) -> (r: u32)
        ensures
            r == self.spec_value(),
    {
        match self {
            FramebufferAttachment::Color0 => COLOR_ATTACHMENT0,
            FramebufferAttachment::Color1 => COLOR_ATTACHMENT0 + 1,
            FramebufferAttachment::Color2 => COLOR_ATTACHMENT0 + 2,
            FramebufferAttachment::Color3 => COLOR_ATTACHMENT0 + 3,
            FramebufferAttachment::Color4 => COLOR_ATTACHMENT0 + 4,
            FramebufferAttachment::Color5 => COLOR_ATTACHMENT0 + 5,
            FramebufferAttachment::Color6 => COLOR_ATTACHMENT0 + 6,
            FramebufferAttachment::Color7 => COLOR_ATTACHMENT0 + 7,
            FramebufferAttachment::Depth => DEPTH_ATTACHMENT,
            FramebufferAttachment::Stencil => STENCIL_ATTACHMENT,
            FramebufferAttachment::DepthStencil => DEPTH_STENCIL_ATTACHMENT,
            FramebufferAttachment::Color(index) => COLOR_ATTACHMENT0.wrapping_add(index),
        }
    }
}

/// What the driver reports of a framebuffer's completeness.
#[allow(non_camel_case_types)]
#[non_exhaustive]
#[derive(Clone, Copy, Debug, PartialEq, Eq, Structural)]
pub enum FramebufferStatus {
    /// The query itself failed.
    ERROR,
    FRAMEBUFFER_COMPLETE,
    FRAMEBUFFER_UNDEFINED,
    FRAMEBUFFER_INCOMPLETE_ATTACHMENT,
    FRAMEBUFFER_INCOMPLETE_MISSING_ATTACHMENT,
    FRAMEBUFFER_INCOMPLETE_DRAW_BUFFER,
    FRAMEBUFFER_INCOMPLETE_READ_BUFFER,
    FRAMEBUFFER_UNSUPPORTED,
    FRAMEBUFFER_INCOMPLETE_MULTISAMPLE,
    FRAMEBUFFER_INCOMPLETE_LAYER_TARGETS,
    /// A value the driver returned that none of the others names.
    UNRECOGNIZED(u32),
}

impl FramebufferStatus {
    pub open spec fn spec_from_u32(value: u32) -> FramebufferStatus {
        if value == 0 {
            FramebufferStatus::ERROR
        } else if value == FRAMEBUFFER_COMPLETE {
            FramebufferStatus::FRAMEBUFFER_COMPLETE
        } else if value == FRAMEBUFFER_UNDEFINED {
            FramebufferStatus::FRAMEBUFFER_UNDEFINED
        } else if value == FRAMEBUFFER_INCOMPLETE_ATTACHMENT {
            FramebufferStatus::FRAMEBUFFER_INCOMPLETE_ATTACHMENT
        } else if value == FRAMEBUFFER_INCOMPLETE_MISSING_ATTACHMENT {
            FramebufferStatus::FRAMEBUFFER_INCOMPLETE_MISSING_ATTACHMENT
        } else if value == FRAMEBUFFER_INCOMPLETE_DRAW_BUFFER {
            FramebufferStatus::FRAMEBUFFER_INCOMPLETE_DRAW_BUFFER
        } else if value == FRAMEBUFFER_INCOMPLETE_READ_BUFFER {
            FramebufferStatus::FRAMEBUFFER_INCOMPLETE_READ_BUFFER
        } else if value == FRAMEBUFFER_UNSUPPORTED {
            FramebufferStatus::FRAMEBUFFER_UNSUPPORTED
        } else if value == FRAMEBUFFER_INCOMPLETE_MULTISAMPLE {
            FramebufferStatus::FRAMEBUFFER_INCOMPLETE_MULTISAMPLE
        } else if value == FRAMEBUFFER_INCOMPLETE_LAYER_TARGETS {
            FramebufferStatus::FRAMEBUFFER_INCOMPLETE_LAYER_TARGETS
        } else {
            FramebufferStatus::UNRECOGNIZED(value)
        }
    }

    /// Names a status value the driver returned.
    pub fn from_u32(value: u32) -> (r: FramebufferStatus)
        ensures
            r == Self::spec_from_u32(value),
    {
        if value == 0 {
            FramebufferStatus::ERROR
        } else if value == FRAMEBUFFER_COMPLETE {
            FramebufferStatus::FRAMEBUFFER_COMPLETE
        } else if value == FRAMEBUFFER_UNDEFINED {
            FramebufferStatus::FRAMEBUFFER_UNDEFINED
        } else if value == FRAMEBUFFER_INCOMPLETE_ATTACHMENT {
            FramebufferStatus::FRAMEBUFFER_INCOMPLETE_ATTACHMENT
        } else if value == FRAMEBUFFER_INCOMPLETE_MISSING_ATTACHMENT {
            FramebufferStatus::FRAMEBUFFER_INCOMPLETE_MISSING_ATTACHMENT
        } else if value == FRAMEBUFFER_INCOMPLETE_DRAW_BUFFER {
            FramebufferStatus::FRAMEBUFFER_INCOMPLETE_DRAW_BUFFER
        } else if value == FRAMEBUFFER_INCOMPLETE_READ_BUFFER {
            FramebufferStatus::FRAMEBUFFER_INCOMPLETE_READ_BUFFER
        } else if value == FRAMEBUFFER_UNSUPPORTED {
            FramebufferStatus::FRAMEBUFFER_UNSUPPORTED
        } else if value == FRAMEBUFFER_INCOMPLETE_MULTISAMPLE {
            FramebufferStatus::FRAMEBUFFER_INCOMPLETE_MULTISAMPLE
        } else if value == FRAMEBUFFER_INCOMPLETE_LAYER_TARGETS {
            FramebufferStatus::FRAMEBUFFER_INCOMPLETE_LAYER_TARGETS
        } else {
            FramebufferStatus::UNRECOGNIZED(value)
        }
    }
}

/// Asks the driver whether the framebuffer bound to the target is complete.
#[allow(non_snake_case)]
pub fn CheckFramebufferStatus<FT: IsFramebufferTarget, D: Driver>(gl: &mut Gl<D>, target: &FT) -> (r:
    FramebufferStatus)
    ensures
        final(gl).log().len() == old(gl).log().len() + 1,
        final(gl).log().drop_last() == old(gl).log(),
        final(gl).log().last() matches Call::CheckFramebufferStatus { target: t, status }
            && t == target.spec_enum() && r == FramebufferStatus::spec_from_u32(status),
{
    let status = gl.check_framebuffer_status(target.as_enum());
    FramebufferStatus::from_u32(status)
}

/// The draw framebuffer binding point.
pub struct DrawFramebufferSlot {}

/// The read framebuffer binding point.
pub struct ReadFramebufferSlot {}

/// Exclusive use of both the draw and the read binding points.
pub struct DrawReadFramebufferTarget<'a>(
    PhantomData<&'a mut DrawFramebufferSlot>,
    PhantomData<&'a mut ReadFramebufferSlot>,
);

impl<'a> DrawReadFramebufferTarget<'a> {
    pub fn new(draw: &'a mut DrawFramebufferSlot, read: &mut ReadFramebufferSlot) -> Self {
        let _ = (draw, read);
        DrawReadFramebufferTarget(PhantomData, PhantomData)
    }
}

/// Exclusive use of the draw binding point.
pub struct DrawFramebufferTarget<'a>(PhantomData<&'a mut DrawFramebufferSlot>);

impl<'a> DrawFramebufferTarget<'a> {
    pub fn new(draw: &'a mut DrawFramebufferSlot) -> Self {
        let _ = draw;
        DrawFramebufferTarget(PhantomData)
    }
}

/// Exclusive use of the read binding point.
pub struct ReadFramebufferTarget<'a>(PhantomData<&'a mut ReadFramebufferSlot>);

impl<'a> ReadFramebufferTarget<'a> {
    pub fn new(read: &mut ReadFramebufferSlot) -> Self {
        let _ = read;
        ReadFramebufferTarget(PhantomData)
    }
}

/// A framebuffer binding target: the enum value the driver knows it by.
pub trait IsFramebufferTarget: Sized {
    spec fn spec_enum(&self) -> u32;

    fn as_enum(&self) -> (r: u32)
        ensures
            r == self.spec_enum(),
    ;

    /// Binds the framebuffer to this target.
    fn bind<'a, THasFramebufferId: 'a + HasFramebufferId, D: Driver>(
        self,
        gl: &mut Gl<D>,
        framebuffer: &'a THasFramebufferId,
    ) -> (r: BoundFramebufferId<'a, THasFramebufferId, Self>)
        where Self: 'a
        ensures
            final(gl).log() == old(gl).log().push(
                Call::BindFramebuffer { target: self.spec_enum(), framebuffer: framebuffer.spec_id() },
            ),
            r.target() == self,
    {
        gl.bind_framebuffer(self.as_enum(), framebuffer.id());
        BoundFramebufferId { target: self, framebuffer: PhantomData }
    }
}

/// Implemented only by targets that hold the draw binding point.
pub trait HasDrawFramebufferSlot<'a>: IsFramebufferTarget {
    fn prove<'b: 'a>(&'b self) -> &'b PhantomData<&'a mut DrawFramebufferSlot>;
}

/// Implemented only by targets that hold the read binding point.
pub trait HasReadFramebufferSlot<'a>: IsFramebufferTarget {
    fn prove<'b: 'a>(&'b self) -> &'b PhantomData<&'a mut ReadFramebufferSlot>;
}

impl<'a> IsFramebufferTarget for DrawReadFramebufferTarget<'a> {
    open spec fn spec_enum(&self) -> u32 {
        FRAMEBUFFER
    }

    fn as_enum(&self) -> (r: u32) {
        FRAMEBUFFER
    }
}

impl<'a> HasDrawFramebufferSlot<'a> for DrawReadFramebufferTarget<'a> {
    fn prove<'b: 'a>(&'b self) -> &'b PhantomData<&'a mut DrawFramebufferSlot> {
        &self.0
    }
}

impl<'a> HasReadFramebufferSlot<'a> for DrawReadFramebufferTarget<'a> {
    fn prove<'b: 'a>(&'b self) -> &'b PhantomData<&'a mut ReadFramebufferSlot> {
        &self.1
    }
}

impl<'a> IsFramebufferTarget for DrawFramebufferTarget<'a> {
    open spec fn spec_enum(&self) -> u32 {
        DRAW_FRAMEBUFFER
    }

    fn as_enum(&self) -> (r: u32) {
        DRAW_FRAMEBUFFER
    }
}

impl<'a> HasDrawFramebufferSlot<'a> for DrawFramebufferTarget<'a> {
    fn prove<'b: 'a>(&'b self) -> &'b PhantomData<&'a mut DrawFramebufferSlot> {
        &self.0
    }
}

impl<'a> IsFramebufferTarget for ReadFramebufferTarget<'a> {
    open spec fn spec_enum(&self) -> u32 {
        READ_FRAMEBUFFER
    }

    fn as_enum(&self) -> (r: u32) {
        READ_FRAMEBUFFER
    }
}

impl<'a> HasReadFramebufferSlot<'a> for ReadFramebufferTarget<'a> {
    fn prove<'b: 'a>(&'b self) -> &'b PhantomData<&'a mut ReadFramebufferSlot> {
        &self.0
    }
}

/// Offered by bound framebuffers whose target holds the draw binding point.
pub trait IsDrawableBoundFramebufferId {
    fn draw(&self) -> bool;
}

/// Offered by bound framebuffers whose target holds the read binding point.
pub trait IsReadableBoundFramebufferId {
    fn read(&self) -> bool;
}

/// A framebuffer bound to a target. Framebuffers follow the manual policy:
/// letting go of the handle leaves the framebuffer bound.
#[must_use]
pub struct BoundFramebufferId<'a, THasFramebufferId: 'a, TFramebufferTarget: 'a> {
    target: TFramebufferTarget,
    framebuffer: PhantomData<&'a THasFramebufferId>,
}

impl<'a, THasFramebufferId: 'a, TFramebufferTarget: 'a> BoundFramebufferId<
    'a,
    THasFramebufferId,
    TFramebufferTarget,
> {
    /// The target the framebuffer is bound to.
    pub closed spec fn target(&self) -> TFramebufferTarget {
        self.target
    }
}

impl<'a, THasFramebufferId, THasDrawFramebufferSlot> IsDrawableBoundFramebufferId for BoundFramebufferId<
    'a,
    THasFramebufferId,
    THasDrawFramebufferSlot,
> where THasFramebufferId: 'a + HasFramebufferId, THasDrawFramebufferSlot: 'a + HasDrawFramebufferSlot<'a> {
    fn draw(&self) -> bool {
        false
    }
}

impl<'a, THasFramebufferId, THasReadFramebufferSlot> IsReadableBoundFramebufferId for BoundFramebufferId<
    'a,
    THasFramebufferId,
    THasReadFramebufferSlot,
> where THasFramebufferId: 'a + HasFramebufferId, THasReadFramebufferSlot: 'a + HasReadFramebufferSlot<'a> {
    fn read(&self) -> bool {
        false
    }
}

impl<'a, TFramebufferTarget: 'a + HasDrawFramebufferSlot<'a>> BoundFramebufferId<
    'a,
    FramebufferId,
    TFramebufferTarget,
> {
    /// Attaches a level of a two-dimensional texture image at the attachment
    /// point, replacing what was attached there.
    pub fn attach_texture_2d<D: Driver>(
        &mut self,
        gl: &mut Gl<D>,
        attachment: FramebufferAttachment,
        textarget: u32,
        texture: &TextureId,
        level: i32,
    ) -> (r: &mut Self)
        ensures
            final(gl).log() == old(gl).log().push(
                Call::FramebufferTexture2D {
                    target: old(self).target().spec_enum(),
                    attachment: attachment.spec_value(),
                    textarget,
                    texture: texture@,
                    level,
                },
            ),
            *r == *old(self),
            *final(self) == *final(r),
    {
        gl.framebuffer_texture_2d(
            self.target.as_enum(),
            attachment.as_u32(),
            textarget,
            texture.as_u32(),
            level,
        );
        self
    }

    /// Attaches the renderbuffer at the attachment point.
    pub fn attach_renderbuffer<D: Driver>(
        &mut self,
        gl: &mut Gl<D>,
        attachment: FramebufferAttachment,
        renderbuffer_id: &RenderbufferId,
    ) -> (r: &mut Self)
        ensures
            final(gl).log() == old(gl).log().push(
                Call::FramebufferRenderbuffer {
                    target: old(self).target().spec_enum(),
                    attachment: attachment.spec_value(),
                    renderbuffer_target: RENDERBUFFER,
                    renderbuffer: renderbuffer_id@,
                },
            ),
            *r == *old(self),
            *final(self) == *final(r),
    {
        gl.framebuffer_renderbuffer(
            self.target.as_enum(),
            attachment.as_u32(),
            RENDERBUFFER,
            renderbuffer_id.as_u32(),
        );
        self
    }
}

} // verus!
