//! Texture objects, the texture binding points of a texture unit, and the
//! capability groups that decide which parameters a bound texture offers.

use vstd::prelude::*;
use std::marker::PhantomData;

use crate::driver::{Call, Driver, Gl, ObjectKind};
use crate::id::Id;

verus! {

pub const TEXTURE_1D: u32 = 0x0DE0;
pub const TEXTURE_2D: u32 = 0x0DE1;
pub const TEXTURE_3D: u32 = 0x806F;
pub const TEXTURE_1D_ARRAY: u32 = 0x8C18;
pub const TEXTURE_2D_ARRAY: u32 = 0x8C1A;
pub const TEXTURE_RECTANGLE: u32 = 0x84F5;
pub const TEXTURE_CUBE_MAP: u32 = 0x8513;
pub const TEXTURE_CUBE_MAP_ARRAY: u32 = 0x9009;
pub const TEXTURE_BUFFER: u32 = 0x8C2A;
pub const TEXTURE_2D_MULTISAMPLE: u32 = 0x9100;
pub const TEXTURE_2D_MULTISAMPLE_ARRAY: u32 = 0x9102;

pub const TEXTURE_MAG_FILTER: u32 = 0x2800;
pub const TEXTURE_MIN_FILTER: u32 = 0x2801;
pub const TEXTURE_WRAP_S: u32 = 0x2802;
pub const TEXTURE_WRAP_T: u32 = 0x2803;
pub const TEXTURE_WRAP_R: u32 = 0x8072;

pub const NEAREST: u32 = 0x2600;
pub const LINEAR: u32 = 0x2601;
pub const NEAREST_MIPMAP_NEAREST: u32 = 0x2700;
pub const LINEAR_MIPMAP_NEAREST: u32 = 0x2701;
pub const NEAREST_MIPMAP_LINEAR: u32 = 0x2702;
pub const LINEAR_MIPMAP_LINEAR: u32 = 0x2703;

pub const TEXTURE0: u32 = 0x84C0;
pub const TEXTURE1: u32 = 0x84C1;

/// An allocated texture object. Owns its name: `delete` hands it back.
#[derive(Debug)]
pub struct TextureId(Id);

impl TextureId {
    pub closed spec fn view(&self) -> u32 {
        self.0@
    }

    /// Allocates a texture; `None` when the driver returns the reserved name zero.
    pub fn new<D: Driver>(gl: &mut Gl<D>) -> (r: Option<Self>)
        ensures
            final(gl).log() == old(gl).log().push(
                Call::Create { kind: ObjectKind::Texture, name: texture_name_or_zero(r) },
            ),
            r matches Some(t) ==> t@ != 0
    {
        match Id::create(gl, ObjectKind::Texture) {
            Some(id) => Some(TextureId(id)),
            None => None,
        }
    }

    pub fn as_u32(&self) -> (r: u32)
        ensures
            r == self@,
            r != 0,
    {
        self.0.get()
    }

    /// Deletes the texture; the driver unbinds it wherever it is bound.
    pub fn delete<D: Driver>(self, gl: &mut Gl<D>)
        ensures
            final(gl).log() == old(gl).log().push(
                Call::Delete { kind: ObjectKind::Texture, name: self@ },
            ),
    {
        self.0.delete(gl, ObjectKind::Texture);
    }
}

pub open spec fn texture_name_or_zero(r: Option<TextureId>) -> u32 {
    match r {
        Some(t) => t@,
        None => 0,
    }
}

/// Texture parameter values for the minifying and magnifying filters.
#[derive(Clone, Copy, Debug, PartialEq, Eq, Structural)]
pub enum TextureFilter {
    /// The texture element nearest to the texture coordinates.
    Nearest,
    /// The weighted average of the four nearest texture elements.
    Linear,
    /// The nearest element of the closest mipmap.
    NearestMipmapNearest,
    /// The weighted average of the nearest elements of the closest mipmap.
    LinearMipmapNearest,
    /// The nearest elements of the two closest mipmaps, averaged.
    NearestMipmapLinear,
    /// The weighted averages in the two closest mipmaps, averaged.
    LinearMipmapLinear,
}

impl TextureFilter {
    pub open spec fn spec_value(self) -> u32 {
        match self {
            TextureFilter::Nearest => NEAREST,
            TextureFilter::Linear => LINEAR,
            TextureFilter::NearestMipmapNearest => NEAREST_MIPMAP_NEAREST,
            TextureFilter::LinearMipmapNearest => LINEAR_MIPMAP_NEAREST,
            TextureFilter::NearestMipmapLinear => NEAREST_MIPMAP_LINEAR,
            TextureFilter::LinearMipmapLinear => LINEAR_MIPMAP_LINEAR,
        }
    }

    pub fn as_u32(self) -> (r: u32)
        ensures
            r == self.spec_value(),
    {
        match self {
            TextureFilter::Nearest => NEAREST,
            TextureFilter::Linear => LINEAR,
            TextureFilter::NearestMipmapNearest => NEAREST_MIPMAP_NEAREST,
            TextureFilter::LinearMipmapNearest => LINEAR_MIPMAP_NEAREST,
            TextureFilter::NearestMipmapLinear => NEAREST_MIPMAP_LINEAR,
            TextureFilter::LinearMipmapLinear => LINEAR_MIPMAP_LINEAR,
        }
    }
}

pub struct TextureSlot1D;

pub struct TextureSlot2D;

pub struct TextureSlot3D;

pub struct TextureSlot1DArray;

pub struct TextureSlot2DArray;

pub struct TextureSlotRectangle;

pub struct TextureSlotCubeMap;

pub struct TextureSlotCubeMapArray;

pub struct TextureSlotBuffer;

pub struct TextureSlot2DMultisample;

pub struct TextureSlot2DMultisampleArray;

impl TextureSlot1D {
    pub fn target(&mut self) -> (r: TextureTarget1D<'_>)
        ensures
            r.spec_enum() == TEXTURE_1D,
    {
        TextureTarget1D::new(self)
    }
}

impl TextureSlot2D {
    pub fn target(&mut self) -> (r: TextureTarget2D<'_>)
        ensures
            r.spec_enum() == TEXTURE_2D,
    {
        TextureTarget2D::new(self)
    }
}

impl TextureSlot3D {
    pub fn target(&mut self) -> (r: TextureTarget3D<'_>)
        ensures
            r.spec_enum() == TEXTURE_3D,
    {
        TextureTarget3D::new(self)
    }
}

/// A texture binding point: the enum value the driver knows it by.
pub trait TextureTarget {
    spec fn spec_enum(&self) -> u32;

    fn as_enum(&self) -> (r: u32)
        ensures
            r == self.spec_enum(),
    ;
}

/// Exclusive use of the `TEXTURE_1D` binding point of the active texture unit.
pub struct TextureTarget1D<'s>(PhantomData<&'s mut TextureSlot1D>);

impl<'s> TextureTarget1D<'s> {
    pub fn new(slot: &'s mut TextureSlot1D) -> (r: Self)
        ensures
            r.spec_enum() == TEXTURE_1D,
    {
        let _ = slot;
        TextureTarget1D(PhantomData)
    }

    /// Binds the texture to this binding point.
    pub fn bind<'t, 'i, D: Driver>(&'t mut self, gl: &mut Gl<D>, texture_id: &'i TextureId) -> (r:
        BoundTextureId<'t, 'i, Self>)
        ensures
            final(gl).log() == old(gl).log().push(
                Call::BindTexture { target: TEXTURE_1D, texture: texture_id@ },
            ),
            r.target_enum() == TEXTURE_1D,
    {
        gl.bind_texture(self.as_enum(), texture_id.as_u32());
        BoundTextureId { target: self, texture_id: PhantomData }
    }
}

impl<'s> TextureTarget for TextureTarget1D<'s> {
    open spec fn spec_enum(&self) -> u32 {
        TEXTURE_1D
    }

    fn as_enum(&self) -> (r: u32) {
        TEXTURE_1D
    }
}

/// Exclusive use of the `TEXTURE_2D` binding point of the active texture unit.
pub struct TextureTarget2D<'s>(PhantomData<&'s mut TextureSlot2D>);

impl<'s> TextureTarget2D<'s> {
    pub fn new(slot: &'s mut TextureSlot2D) -> (r: Self)
        ensures
            r.spec_enum() == TEXTURE_2D,
    {
        let _ = slot;
        TextureTarget2D(PhantomData)
    }

    /// Binds the texture to this binding point.
    pub fn bind<'t, 'i, D: Driver>(&'t mut self, gl: &mut Gl<D>, texture_id: &'i TextureId) -> (r:
        BoundTextureId<'t, 'i, Self>)
        ensures
            final(gl).log() == old(gl).log().push(
                Call::BindTexture { target: TEXTURE_2D, texture: texture_id@ },
            ),
            r.target_enum() == TEXTURE_2D,
    {
        gl.bind_texture(self.as_enum(), texture_id.as_u32());
        BoundTextureId { target: self, texture_id: PhantomData }
    }
}

impl<'s> TextureTarget for TextureTarget2D<'s> {
    open spec fn spec_enum(&self) -> u32 {
        TEXTURE_2D
    }

    fn as_enum(&self) -> (r: u32) {
        TEXTURE_2D
    }
}

/// Exclusive use of the `TEXTURE_3D` binding point of the active texture unit.
pub struct TextureTarget3D<'s>(PhantomData<&'s mut TextureSlot3D>);

impl<'s> TextureTarget3D<'s> {
    pub fn new(slot: &'s mut TextureSlot3D) -> (r: Self)
        ensures
            r.spec_enum() == TEXTURE_3D,
    {
        let _ = slot;
        TextureTarget3D(PhantomData)
    }

    /// Binds the texture to this binding point.
    pub fn bind<'t, 'i, D: Driver>(&'t mut self, gl: &mut Gl<D>, texture_id: &'i TextureId) -> (r:
        BoundTextureId<'t, 'i, Self>)
        ensures
            final(gl).log() == old(gl).log().push(
                Call::BindTexture { target: TEXTURE_3D, texture: texture_id@ },
            ),
            r.target_enum() == TEXTURE_3D,
    {
        gl.bind_texture(self.as_enum(), texture_id.as_u32());
        BoundTextureId { target: self, texture_id: PhantomData }
    }
}

impl<'s> TextureTarget for TextureTarget3D<'s> {
    open spec fn spec_enum(&self) -> u32 {
        TEXTURE_3D
    }

    fn as_enum(&self) -> (r: u32) {
        TEXTURE_3D
    }
}

/// Exclusive use of the `TEXTURE_1D_ARRAY` binding point of the active texture unit.
pub struct TextureTarget1DArray<'s>(PhantomData<&'s mut TextureSlot1DArray>);

impl<'s> TextureTarget1DArray<'s> {
    pub fn new(slot: &'s mut TextureSlot1DArray) -> (r: Self)
        ensures
            r.spec_enum() == TEXTURE_1D_ARRAY,
    {
        let _ = slot;
        TextureTarget1DArray(PhantomData)
    }

    /// Binds the texture to this binding point.
    pub fn bind<'t, 'i, D: Driver>(&'t mut self, gl: &mut Gl<D>, texture_id: &'i TextureId) -> (r:
        BoundTextureId<'t, 'i, Self>)
        ensures
            final(gl).log() == old(gl).log().push(
                Call::BindTexture { target: TEXTURE_1D_ARRAY, texture: texture_id@ },
            ),
            r.target_enum() == TEXTURE_1D_ARRAY,
    {
        gl.bind_texture(self.as_enum(), texture_id.as_u32());
        BoundTextureId { target: self, texture_id: PhantomData }
    }
}

impl<'s> TextureTarget for TextureTarget1DArray<'s> {
    open spec fn spec_enum(&self) -> u32 {
        TEXTURE_1D_ARRAY
    }

    fn as_enum(&self) -> (r: u32) {
        TEXTURE_1D_ARRAY
    }
}

/// Exclusive use of the `TEXTURE_2D_ARRAY` binding point of the active texture unit.
pub struct TextureTarget2DArray<'s>(PhantomData<&'s mut TextureSlot2DArray>);

impl<'s> TextureTarget2DArray<'s> {
    pub fn new(slot: &'s mut TextureSlot2DArray) -> (r: Self)
        ensures
            r.spec_enum() == TEXTURE_2D_ARRAY,
    {
        let _ = slot;
        TextureTarget2DArray(PhantomData)
    }

    /// Binds the texture to this binding point.
    pub fn bind<'t, 'i, D: Driver>(&'t mut self, gl: &mut Gl<D>, texture_id: &'i TextureId) -> (r:
        BoundTextureId<'t, 'i, Self>)
        ensures
            final(gl).log() == old(gl).log().push(
                Call::BindTexture { target: TEXTURE_2D_ARRAY, texture: texture_id@ },
            ),
            r.target_enum() == TEXTURE_2D_ARRAY,
    {
        gl.bind_texture(self.as_enum(), texture_id.as_u32());
        BoundTextureId { target: self, texture_id: PhantomData }
    }
}

impl<'s> TextureTarget for TextureTarget2DArray<'s> {
    open spec fn spec_enum(&self) -> u32 {
        TEXTURE_2D_ARRAY
    }

    fn as_enum(&self) -> (r: u32) {
        TEXTURE_2D_ARRAY
    }
}

/// Exclusive use of the `TEXTURE_RECTANGLE` binding point of the active texture unit.
pub struct TextureTargetRectangle<'s>(PhantomData<&'s mut TextureSlotRectangle>);

impl<'s> TextureTargetRectangle<'s> {
    pub fn new(slot: &'s mut TextureSlotRectangle) -> (r: Self)
        ensures
            r.spec_enum() == TEXTURE_RECTANGLE,
    {
        let _ = slot;
        TextureTargetRectangle(PhantomData)
    }

    /// Binds the texture to this binding point.
    pub fn bind<'t, 'i, D: Driver>(&'t mut self, gl: &mut Gl<D>, texture_id: &'i TextureId) -> (r:
        BoundTextureId<'t, 'i, Self>)
        ensures
            final(gl).log() == old(gl).log().push(
                Call::BindTexture { target: TEXTURE_RECTANGLE, texture: texture_id@ },
            ),
            r.target_enum() == TEXTURE_RECTANGLE,
    {
        gl.bind_texture(self.as_enum(), texture_id.as_u32());
        BoundTextureId { target: self, texture_id: PhantomData }
    }
}

impl<'s> TextureTarget for TextureTargetRectangle<'s> {
    open spec fn spec_enum(&self) -> u32 {
        TEXTURE_RECTANGLE
    }

    fn as_enum(&self) -> (r: u32) {
        TEXTURE_RECTANGLE
    }
}

/// Exclusive use of the `TEXTURE_CUBE_MAP` binding point of the active texture unit.
pub struct TextureTargetCubeMap<'s>(PhantomData<&'s mut TextureSlotCubeMap>);

impl<'s> TextureTargetCubeMap<'s> {
    pub fn new(slot: &'s mut TextureSlotCubeMap) -> (r: Self)
        ensures
            r.spec_enum() == TEXTURE_CUBE_MAP,
    {
        let _ = slot;
        TextureTargetCubeMap(PhantomData)
    }

    /// Binds the texture to this binding point.
    pub fn bind<'t, 'i, D: Driver>(&'t mut self, gl: &mut Gl<D>, texture_id: &'i TextureId) -> (r:
        BoundTextureId<'t, 'i, Self>)
        ensures
            final(gl).log() == old(gl).log().push(
                Call::BindTexture { target: TEXTURE_CUBE_MAP, texture: texture_id@ },
            ),
            r.target_enum() == TEXTURE_CUBE_MAP,
    {
        gl.bind_texture(self.as_enum(), texture_id.as_u32());
        BoundTextureId { target: self, texture_id: PhantomData }
    }
}

impl<'s> TextureTarget for TextureTargetCubeMap<'s> {
    open spec fn spec_enum(&self) -> u32 {
        TEXTURE_CUBE_MAP
    }

    fn as_enum(&self) -> (r: u32) {
        TEXTURE_CUBE_MAP
    }
}

/// Exclusive use of the `TEXTURE_CUBE_MAP_ARRAY` binding point of the active texture unit.
pub struct TextureTargetCubeMapArray<'s>(PhantomData<&'s mut TextureSlotCubeMapArray>);

impl<'s> TextureTargetCubeMapArray<'s> {
    pub fn new(slot: &'s mut TextureSlotCubeMapArray) -> (r: Self)
        ensures
            r.spec_enum() == TEXTURE_CUBE_MAP_ARRAY,
    {
        let _ = slot;
        TextureTargetCubeMapArray(PhantomData)
    }

    /// Binds the texture to this binding point.
    pub fn bind<'t, 'i, D: Driver>(&'t mut self, gl: &mut Gl<D>, texture_id: &'i TextureId) -> (r:
        BoundTextureId<'t, 'i, Self>)
        ensures
            final(gl).log() == old(gl).log().push(
                Call::BindTexture { target: TEXTURE_CUBE_MAP_ARRAY, texture: texture_id@ },
            ),
            r.target_enum() == TEXTURE_CUBE_MAP_ARRAY,
    {
        gl.bind_texture(self.as_enum(), texture_id.as_u32());
        BoundTextureId { target: self, texture_id: PhantomData }
    }
}

impl<'s> TextureTarget for TextureTargetCubeMapArray<'s> {
    open spec fn spec_enum(&self) -> u32 {
        TEXTURE_CUBE_MAP_ARRAY
    }

    fn as_enum(&self) -> (r: u32) {
        TEXTURE_CUBE_MAP_ARRAY
    }
}

/// Exclusive use of the `TEXTURE_BUFFER` binding point of the active texture unit.
pub struct TextureTargetBuffer<'s>(PhantomData<&'s mut TextureSlotBuffer>);

impl<'s> TextureTargetBuffer<'s> {
    pub fn new(slot: &'s mut TextureSlotBuffer) -> (r: Self)
        ensures
            r.spec_enum() == TEXTURE_BUFFER,
    {
        let _ = slot;
        TextureTargetBuffer(PhantomData)
    }

    /// Binds the texture to this binding point.
    pub fn bind<'t, 'i, D: Driver>(&'t mut self, gl: &mut Gl<D>, texture_id: &'i TextureId) -> (r:
        BoundTextureId<'t, 'i, Self>)
        ensures
            final(gl).log() == old(gl).log().push(
                Call::BindTexture { target: TEXTURE_BUFFER, texture: texture_id@ },
            ),
            r.target_enum() == TEXTURE_BUFFER,
    {
        gl.bind_texture(self.as_enum(), texture_id.as_u32());
        BoundTextureId { target: self, texture_id: PhantomData }
    }
}

impl<'s> TextureTarget for TextureTargetBuffer<'s> {
    open spec fn spec_enum(&self) -> u32 {
        TEXTURE_BUFFER
    }

    fn as_enum(&self) -> (r: u32) {
        TEXTURE_BUFFER
    }
}

/// Exclusive use of the `TEXTURE_2D_MULTISAMPLE` binding point of the active texture unit.
pub struct TextureTarget2DMultisample<'s>(PhantomData<&'s mut TextureSlot2DMultisample>);

impl<'s> TextureTarget2DMultisample<'s> {
    pub fn new(slot: &'s mut TextureSlot2DMultisample) -> (r: Self)
        ensures
            r.spec_enum() == TEXTURE_2D_MULTISAMPLE,
    {
        let _ = slot;
        TextureTarget2DMultisample(PhantomData)
    }

    /// Binds the texture to this binding point.
    pub fn bind<'t, 'i, D: Driver>(&'t mut self, gl: &mut Gl<D>, texture_id: &'i TextureId) -> (r:
        BoundTextureId<'t, 'i, Self>)
        ensures
            final(gl).log() == old(gl).log().push(
                Call::BindTexture { target: TEXTURE_2D_MULTISAMPLE, texture: texture_id@ },
            ),
            r.target_enum() == TEXTURE_2D_MULTISAMPLE,
    {
        gl.bind_texture(self.as_enum(), texture_id.as_u32());
        BoundTextureId { target: self, texture_id: PhantomData }
    }
}

impl<'s> TextureTarget for TextureTarget2DMultisample<'s> {
    open spec fn spec_enum(&self) -> u32 {
        TEXTURE_2D_MULTISAMPLE
    }

    fn as_enum(&self) -> (r: u32) {
        TEXTURE_2D_MULTISAMPLE
    }
}

/// Exclusive use of the `TEXTURE_2D_MULTISAMPLE_ARRAY` binding point of the active texture unit.
pub struct TextureTarget2DMultisampleArray<'s>(PhantomData<&'s mut TextureSlot2DMultisampleArray>);

impl<'s> TextureTarget2DMultisampleArray<'s> {
    pub fn new(slot: &'s mut TextureSlot2DMultisampleArray) -> (r: Self)
        ensures
            r.spec_enum() == TEXTURE_2D_MULTISAMPLE_ARRAY,
    {
        let _ = slot;
        TextureTarget2DMultisampleArray(PhantomData)
    }

    /// Binds the texture to this binding point.
    pub fn bind<'t, 'i, D: Driver>(&'t mut self, gl: &mut Gl<D>, texture_id: &'i TextureId) -> (r:
        BoundTextureId<'t, 'i, Self>)
        ensures
            final(gl).log() == old(gl).log().push(
                Call::BindTexture { target: TEXTURE_2D_MULTISAMPLE_ARRAY, texture: texture_id@ },
            ),
            r.target_enum() == TEXTURE_2D_MULTISAMPLE_ARRAY,
    {
        gl.bind_texture(self.as_enum(), texture_id.as_u32());
        BoundTextureId { target: self, texture_id: PhantomData }
    }
}

impl<'s> TextureTarget for TextureTarget2DMultisampleArray<'s> {
    open spec fn spec_enum(&self) -> u32 {
        TEXTURE_2D_MULTISAMPLE_ARRAY
    }

    fn as_enum(&self) -> (r: u32) {
        TEXTURE_2D_MULTISAMPLE_ARRAY
    }
}

/// Binding points that address at least one coordinate (s).
pub trait TextureTargetGroup1DPlus: TextureTarget {}

/// Binding points that address at least two coordinates (s, t).
pub trait TextureTargetGroup2DPlus: TextureTargetGroup1DPlus {}

/// Binding points that address three coordinates (s, t, r).
pub trait TextureTargetGroup3DPlus: TextureTargetGroup2DPlus {}

/// Binding points of exactly one dimension.
pub trait TextureTargetGroup1D: TextureTargetGroup1DPlus {}

/// Binding points of exactly two dimensions.
pub trait TextureTargetGroup2D: TextureTargetGroup2DPlus {}

/// Binding points of exactly three dimensions.
pub trait TextureTargetGroup3D: TextureTargetGroup3DPlus {}

// Every binding point of a higher group is also one of the lower groups.
impl<T: TextureTargetGroup3DPlus> TextureTargetGroup2DPlus for T {}

impl<T: TextureTargetGroup2DPlus> TextureTargetGroup1DPlus for T {}

impl<'s> TextureTargetGroup1D for TextureTarget1D<'s> {}

impl<'s> TextureTargetGroup1DPlus for TextureTarget1D<'s> {}

impl<'s> TextureTargetGroup2D for TextureTarget2D<'s> {}

impl<'s> TextureTargetGroup2DPlus for TextureTarget2D<'s> {}

impl<'s> TextureTargetGroup3D for TextureTarget3D<'s> {}

impl<'s> TextureTargetGroup3DPlus for TextureTarget3D<'s> {}

/// A texture bound to a binding point. Textures follow the manual policy:
/// letting go of the handle leaves the texture bound, because bindings of
/// several texture units must stay in place together.
#[must_use]
pub struct BoundTextureId<'t, 'i, TTextureTarget: 't + TextureTarget> {
    target: &'t mut TTextureTarget,
    texture_id: PhantomData<&'i TextureId>,
}

impl<'t, 'i, TTextureTarget: 't + TextureTarget> BoundTextureId<'t, 'i, TTextureTarget> {
    pub closed spec fn target_enum(&self) -> u32 {
        self.target.spec_enum()
    }

    /// Ends the handle and leaves the texture bound; makes no driver call.
    pub fn persist(self) {
    }

    pub fn target_as_enum(&self) -> (r: u32)
        ensures
            r == self.target_enum(),
    {
        self.target.as_enum()
    }

    fn parameter_i<D: Driver>(&mut self, gl: &mut Gl<D>, param: u32, value: i32) -> (r: &mut Self)
        ensures
            final(gl).log() == old(gl).log().push(
                Call::TexParameterI { target: old(self).target_enum(), pname: param, value },
            ),
            *r == *old(self),
            *final(self) == *final(r),
    {
        gl.tex_parameter_i(self.target.as_enum(), param, value);
        self
    }

    pub fn min_filter<D: Driver>(&mut self, gl: &mut Gl<D>, value: TextureFilter) -> (r: &mut Self)
        ensures
            final(gl).log() == old(gl).log().push(
                Call::TexParameterI {
                    target: old(self).target_enum(),
                    pname: TEXTURE_MIN_FILTER,
                    value: value.spec_value() as i32,
                },
            ),
            *r == *old(self),
            *final(self) == *final(r),
    {
        self.parameter_i(gl, TEXTURE_MIN_FILTER, value.as_u32() as i32)
    }

    pub fn mag_filter<D: Driver>(&mut self, gl: &mut Gl<D>, value: TextureFilter) -> (r: &mut Self)
        ensures
            final(gl).log() == old(gl).log().push(
                Call::TexParameterI {
                    target: old(self).target_enum(),
                    pname: TEXTURE_MAG_FILTER,
                    value: value.spec_value() as i32,
                },
            ),
            *r == *old(self),
            *final(self) == *final(r),
    {
        self.parameter_i(gl, TEXTURE_MAG_FILTER, value.as_u32() as i32)
    }

    pub fn generate_mipmap<D: Driver>(&mut self, gl: &mut Gl<D>) -> (r: &mut Self)
        ensures
            final(gl).log() == old(gl).log().push(
                Call::GenerateMipmap { target: old(self).target_enum() },
            ),
            *r == *old(self),
            *final(self) == *final(r),
    {
        gl.generate_mipmap(self.target.as_enum());
        self
    }
}

impl<'t, 'i, TTextureTarget: 't + TextureTargetGroup1DPlus> BoundTextureId<'t, 'i, TTextureTarget> {
    pub fn wrap_s<D: Driver>(&mut self, gl: &mut Gl<D>, value: i32) -> (r: &mut Self)
        ensures
            final(gl).log() == old(gl).log().push(
                Call::TexParameterI { target: old(self).target_enum(), pname: TEXTURE_WRAP_S, value },
            ),
            *r == *old(self),
            *final(self) == *final(r),
    {
        self.parameter_i(gl, TEXTURE_WRAP_S, value)
    }
}

impl<'t, 'i, TTextureTarget: 't + TextureTargetGroup2DPlus> BoundTextureId<'t, 'i, TTextureTarget> {
    pub fn wrap_t<D: Driver>(&mut self, gl: &mut Gl<D>, value: i32) -> (r: &mut Self)
        ensures
            final(gl).log() == old(gl).log().push(
                Call::TexParameterI { target: old(self).target_enum(), pname: TEXTURE_WRAP_T, value },
            ),
            *r == *old(self),
            *final(self) == *final(r),
    {
        self.parameter_i(gl, TEXTURE_WRAP_T, value)
    }
}

impl<'t, 'i, TTextureTarget: 't + TextureTargetGroup3DPlus> BoundTextureId<'t, 'i, TTextureTarget> {
    pub fn wrap_r<D: Driver>(&mut self, gl: &mut Gl<D>, value: i32) -> (r: &mut Self)
        ensures
            final(gl).log() == old(gl).log().push(
                Call::TexParameterI { target: old(self).target_enum(), pname: TEXTURE_WRAP_R, value },
            ),
            *r == *old(self),
            *final(self) == *final(r),
    {
        self.parameter_i(gl, TEXTURE_WRAP_R, value)
    }
}

impl<'t, 'i, TTextureTarget: 't + TextureTargetGroup2D> BoundTextureId<'t, 'i, TTextureTarget> {
    /// Uploads a two-dimensional image (with no border) to a mipmap level.
    pub fn image_2d<D: Driver>(
        &mut self,
        gl: &mut Gl<D>,
        mipmap_level: i32,
        internal_format: i32,
        width: i32,
        height: i32,
        format: u32,
        component_format: u32,
        data: &[u8],
    ) -> (r: &mut Self)
        ensures
            final(gl).log() == old(gl).log().push(
                Call::TexImage2D {
                    target: old(self).target_enum(),
                    level: mipmap_level,
                    internal_format,
                    width,
                    height,
                    format,
                    component_type: component_format,
                    data: data@,
                },
            ),
            *r == *old(self),
            *final(self) == *final(r),
    {
        gl.tex_image_2d(
            self.target.as_enum(),
            mipmap_level,
            internal_format,
            width,
            height,
            format,
            component_format,
            data,
        );
        self
    }
}

/// The texture unit selector: exclusive use of it selects one unit at a time.
pub struct TextureUnitSlot;

/// The texture units that can be selected.
#[derive(Clone, Copy, Debug, PartialEq, Eq, Structural)]
pub enum TextureUnit {
    TextureUnit0,
    TextureUnit1,
}

impl TextureUnit {
    pub open spec fn spec_value(self) -> u32 {
        match self {
            TextureUnit::TextureUnit0 => TEXTURE0,
            TextureUnit::TextureUnit1 => TEXTURE1,
        }
    }

    pub fn as_u32(self) -> (r: u32)
        ensures
            r == self.spec_value(),
    {
        match self {
            TextureUnit::TextureUnit0 => TEXTURE0,
            TextureUnit::TextureUnit1 => TEXTURE1,
        }
    }
}

/// The binding points of the selected texture unit, each usable once at a time.
pub struct ActiveTextureUnit<'a> {
    texture_unit_slot: PhantomData<&'a mut TextureUnitSlot>,
    pub texture_slot_1d: TextureSlot1D,
    pub texture_slot_2d: TextureSlot2D,
    pub texture_slot_3d: TextureSlot3D,
    pub texture_slot_1d_array: TextureSlot1DArray,
    pub texture_slot_2d_array: TextureSlot2DArray,
    pub texture_slot_rectangle: TextureSlotRectangle,
    pub texture_slot_cube_map: TextureSlotCubeMap,
    pub texture_slot_cube_map_array: TextureSlotCubeMapArray,
    pub texture_slot_buffer: TextureSlotBuffer,
    pub texture_slot_2d_multisample: TextureSlot2DMultisample,
    pub texture_slot_2d_multisample_array: TextureSlot2DMultisampleArray,
}

impl TextureUnitSlot {
    /// Selects the texture unit whose binding points the result hands out.
    pub fn activate<D: Driver>(&mut self, gl: &mut Gl<D>, unit: TextureUnit) -> (r: ActiveTextureUnit<'_>)
        ensures
            final(gl).log() == old(gl).log().push(Call::ActiveTexture { unit: unit.spec_value() }),
    {
        gl.active_texture(unit.as_u32());
        ActiveTextureUnit {
            texture_unit_slot: PhantomData,
            texture_slot_1d: TextureSlot1D,
            texture_slot_2d: TextureSlot2D,
            texture_slot_3d: TextureSlot3D,
            texture_slot_1d_array: TextureSlot1DArray,
            texture_slot_2d_array: TextureSlot2DArray,
            texture_slot_rectangle: TextureSlotRectangle,
            texture_slot_cube_map: TextureSlotCubeMap,
            texture_slot_cube_map_array: TextureSlotCubeMapArray,
            texture_slot_buffer: TextureSlotBuffer,
            texture_slot_2d_multisample: TextureSlot2DMultisample,
            texture_slot_2d_multisample_array: TextureSlot2DMultisampleArray,
        }
    }
}

} // verus!
