//! Shader objects whose stage is part of their type.

use vstd::prelude::*;
use std::marker::PhantomData;

use crate::diagnostic::DiagnosticLog;
use crate::driver::{strs_view, Call, Driver, Gl, ObjectKind};
use crate::shader::{compiled, shader_name_or_zero, ShaderKind};

verus! {

/// A type that stands for one shader stage.
pub trait ShaderKindMarker {
    const VALUE: ShaderKind;
}

#[derive(Debug)]
pub struct ComputeShaderKind;

impl ShaderKindMarker for ComputeShaderKind {
    const VALUE: ShaderKind = ShaderKind::Compute;
}

#[derive(Debug)]
pub struct FragmentShaderKind;

impl ShaderKindMarker for FragmentShaderKind {
    const VALUE: ShaderKind = ShaderKind::Fragment;
}

#[derive(Debug)]
pub struct GeometryShaderKind;

impl ShaderKindMarker for GeometryShaderKind {
    const VALUE: ShaderKind = ShaderKind::Geometry;
}

#[derive(Debug)]
pub struct VertexShaderKind;

impl ShaderKindMarker for VertexShaderKind {
    const VALUE: ShaderKind = ShaderKind::Vertex;
}

#[derive(Debug)]
pub struct TesselationControlShaderKind;

impl ShaderKindMarker for TesselationControlShaderKind {
    const VALUE: ShaderKind = ShaderKind::TesselationControl;
}

#[derive(Debug)]
pub struct TesselationEvaluationShaderKind;

impl ShaderKindMarker for TesselationEvaluationShaderKind {
    const VALUE: ShaderKind = ShaderKind::TesselationEvaluation;
}

/// A shader object whose stage is part of its type.
#[derive(Debug)]
pub struct ShaderId<Kind: ShaderKindMarker>(super::ShaderId, PhantomData<Kind>);

impl<Kind: ShaderKindMarker> ShaderId<Kind> {
    pub closed spec fn view(&self) -> u32 {
        self.0@
    }

    pub closed spec fn inner(&self) -> super::ShaderId {
        self.0
    }

    /// Allocates a shader of the stage `Kind` stands for.
    pub fn new<D: Driver>(gl: &mut Gl<D>) -> (r: Option<Self>)
        ensures
            final(gl).log() == old(gl).log().push(
                Call::Create {
                    kind: ObjectKind::Shader(Kind::VALUE),
                    name: shader_name_or_zero(
                        match r {
                            Some(s) => Some(s.inner()),
                            None => None,
                        },
                    ),
                },
            ),
            r matches Some(s) ==> s@ != 0 && s.inner().spec_kind() == Kind::VALUE,
    {
        match super::ShaderId::new(gl, Kind::VALUE) {
            Some(id) => Some(ShaderId(id, PhantomData)),
            None => None,
        }
    }

    pub fn compile<D: Driver>(self, gl: &mut Gl<D>, sources: &[&str]) -> (r: Result<
        CompiledShaderId<Kind>,
        DiagnosticLog,
    >)
        ensures
            compiled(
                final(gl).log(),
                old(gl).log(),
                self.inner(),
                strs_view(sources@),
                match r {
                    Ok(c) => Ok(c.inner()),
                    Err(e) => Err(e),
                },
            ),
    {
        match self.0.compile(gl, sources) {
            Ok(id) => Ok(CompiledShaderId(id, PhantomData)),
            Err(e) => Err(e),
        }
    }

    pub fn as_uint(&self) -> (r: u32)
        ensures
            r == self@,
            r != 0,
    {
        self.0.as_uint()
    }
}

impl<Kind: ShaderKindMarker> AsRef<super::ShaderId> for ShaderId<Kind> {
    fn as_ref(&self) -> &super::ShaderId {
        &self.0
    }
}

impl<Kind: ShaderKindMarker> From<ShaderId<Kind>> for super::ShaderId {
    fn from(value: ShaderId<Kind>) -> (r: super::ShaderId) {
        value.0
    }
}

impl<Kind: ShaderKindMarker> vstd::std_specs::convert::FromSpecImpl<ShaderId<Kind>> for super::ShaderId {
    open spec fn obeys_from_spec() -> bool {
        true
    }

    open spec fn from_spec(v: ShaderId<Kind>) -> super::ShaderId {
        v.inner()
    }
}

/// A compiled shader whose stage is part of its type.
#[derive(Debug)]
pub struct CompiledShaderId<Kind: ShaderKindMarker>(super::CompiledShaderId, PhantomData<Kind>);

impl<Kind: ShaderKindMarker> CompiledShaderId<Kind> {
    pub closed spec fn view(&self) -> u32 {
        self.0@
    }

    pub closed spec fn inner(&self) -> super::CompiledShaderId {
        self.0
    }

    pub fn as_uint(&self) -> (r: u32)
        ensures
            r == self@,
            r != 0,
    {
        self.0.as_uint()
    }
}

impl<Kind: ShaderKindMarker> AsRef<super::CompiledShaderId> for CompiledShaderId<Kind> {
    fn as_ref(&self) -> &super::CompiledShaderId {
        &self.0
    }
}

impl<Kind: ShaderKindMarker> From<CompiledShaderId<Kind>> for super::CompiledShaderId {
    fn from(value: CompiledShaderId<Kind>) -> (r: super::CompiledShaderId) {
        value.0
    }
}

impl<Kind: ShaderKindMarker> vstd::std_specs::convert::FromSpecImpl<CompiledShaderId<Kind>> for super::CompiledShaderId {
    open spec fn obeys_from_spec() -> bool {
        true
    }

    open spec fn from_spec(v: CompiledShaderId<Kind>) -> super::CompiledShaderId {
        v.inner()
    }
}

pub type ComputeShaderId = ShaderId<ComputeShaderKind>;

pub type GeometryShaderId = ShaderId<GeometryShaderKind>;

pub type FragmentShaderId = ShaderId<FragmentShaderKind>;

pub type VertexShaderId = ShaderId<VertexShaderKind>;

pub type TesselationControlShaderId = ShaderId<TesselationControlShaderKind>;

pub type TesselationEvaluationShaderId = ShaderId<TesselationEvaluationShaderKind>;

pub type CompiledComputeShaderId = CompiledShaderId<ComputeShaderKind>;

pub type CompiledFragmentShaderId = CompiledShaderId<FragmentShaderKind>;

pub type CompiledGeometryShaderId = CompiledShaderId<GeometryShaderKind>;

pub type CompiledVertexShaderId = CompiledShaderId<VertexShaderKind>;

pub type CompiledTesselationControlShaderId = CompiledShaderId<TesselationControlShaderKind>;

pub type CompiledTesselationEvaluationShaderId = CompiledShaderId<TesselationEvaluationShaderKind>;

} // verus!
