//! Shader objects and their compilation.

use vstd::prelude::*;

use crate::diagnostic::{describes, DiagnosticLog};
use crate::driver::{strs_view, Call, Driver, Gl, ObjectKind};
use crate::id::Id;

pub mod specialization;

verus! {

pub const COMPUTE_SHADER: u32 = 0x91B9;
pub const FRAGMENT_SHADER: u32 = 0x8B30;
pub const GEOMETRY_SHADER: u32 = 0x8DD9;
pub const VERTEX_SHADER: u32 = 0x8B31;
pub const TESS_CONTROL_SHADER: u32 = 0x8E88;
pub const TESS_EVALUATION_SHADER: u32 = 0x8E87;

/// The pipeline stage a shader object is compiled for.
#[derive(Clone, Copy, Debug, PartialEq, Eq, Structural)]
pub enum ShaderKind {
    Compute,
    Fragment,
    Geometry,
    Vertex,
    TesselationControl,
    TesselationEvaluation,
}

impl ShaderKind {
    pub open spec fn spec_value(self) -> u32 {
        match self {
            ShaderKind::Compute => COMPUTE_SHADER,
            ShaderKind::Fragment => FRAGMENT_SHADER,
            ShaderKind::Geometry => GEOMETRY_SHADER,
            ShaderKind::Vertex => VERTEX_SHADER,
            ShaderKind::TesselationControl => TESS_CONTROL_SHADER,
            ShaderKind::TesselationEvaluation => TESS_EVALUATION_SHADER,
        }
    }

    pub fn as_u32(self) -> (r: u32)
        ensures
            r == self.spec_value(),
    {
        match self {
            ShaderKind::Compute => COMPUTE_SHADER,
            ShaderKind::Fragment => FRAGMENT_SHADER,
            ShaderKind::Geometry => GEOMETRY_SHADER,
            ShaderKind::Vertex => VERTEX_SHADER,
            ShaderKind::TesselationControl => TESS_CONTROL_SHADER,
            ShaderKind::TesselationEvaluation => TESS_EVALUATION_SHADER,
        }
    }
}

/// An allocated shader object that has not been compiled. Owns its name.
#[derive(Debug)]
pub struct ShaderId {
    id: Id,
    kind: ShaderKind,
}

impl ShaderId {
    pub closed spec fn view(&self) -> u32 {
        self.id@
    }

    pub closed spec fn spec_kind(&self) -> ShaderKind {
        self.kind
    }

    /// Allocates a shader of the given stage; `None` when the driver returns
    /// the reserved name zero.
    pub fn new<D: Driver>(gl: &mut Gl<D>, kind: ShaderKind) -> (r: Option<Self>)
        ensures
            final(gl).log() == old(gl).log().push(
                Call::Create { kind: ObjectKind::Shader(kind), name: shader_name_or_zero(r) },
            ),
            r matches Some(s) ==> s@ != 0 && s.spec_kind() == kind
    {
        match Id::create(gl, ObjectKind::Shader(kind)) {
            Some(id) => Some(ShaderId { id, kind }),
            None => None,
        }
    }

    pub fn as_uint(&self) -> (r: u32)
        ensures
            r == self@,
            r != 0,
    {
        self.id.get()
    }

    pub fn kind(&self) -> (r: ShaderKind)
        ensures
            r == self.spec_kind(),
    {
        self.kind
    }

    pub fn delete<D: Driver>(self, gl: &mut Gl<D>)
        ensures
            final(gl).log() == old(gl).log().push(
                Call::Delete { kind: ObjectKind::Shader(self.spec_kind()), name: self@ },
            ),
    {
        self.id.delete(gl, ObjectKind::Shader(self.kind));
    }

    /// Hands the sources to the driver and compiles them. On failure the
    /// shader is deleted and its diagnostic log returned.
    pub fn compile<D: Driver>(self, gl: &mut Gl<D>, sources: &[&str]) -> (r: Result<
        CompiledShaderId,
        DiagnosticLog,
    >)
        ensures
            compiled(final(gl).log(), old(gl).log(), self, strs_view(sources@), r),
    {
        let ghost start = gl.log();
        let ghost n = start.len() as int;
        let name = self.as_uint();
        gl.shader_source(name, sources);
        let ghost after_source = gl.log();
        gl.compile_shader(name);
        let ok = gl.shader_compile_status(name);
        let ghost after_status = gl.log();
        assert(after_status.take(n) =~= start);
        assert(after_status[n] == after_source.last());
        if ok {
            Ok(CompiledShaderId(self))
        } else {
            let bytes = gl.shader_info_log(name);
            let ghost logged = gl.log();
            let log = DiagnosticLog::from_bytes(bytes.as_slice());
            self.delete(gl);
            assert(gl.log().take(n) =~= start);
            assert(gl.log()[n] == after_source.last());
            assert(gl.log()[n + 1] == after_status[n + 1]);
            assert(gl.log()[n + 2] == after_status[n + 2]);
            assert(gl.log()[n + 3] == logged.last());
            Err(log)
        }
    }
}

pub open spec fn shader_name_or_zero(r: Option<ShaderId>) -> u32 {
    match r {
        Some(s) => s@,
        None => 0,
    }
}

/// The calls a compile makes: the sources, the compile, the status query,
/// and on failure the log query and the deletion of the shader.
pub open spec fn compiled(
    log: Seq<Call>,
    before: Seq<Call>,
    shader: ShaderId,
    sources: Seq<Seq<char>>,
    r: Result<CompiledShaderId, DiagnosticLog>,
) -> bool {
    let n = before.len() as int;
    &&& log.len() == if r is Ok { n + 3 } else { n + 5 }
    &&& log.take(n) == before
    &&& log[n] == Call::ShaderSource { shader: shader@, sources }
    &&& log[n + 1] == Call::CompileShader { shader: shader@ }
    &&& log[n + 2] == Call::ShaderCompileStatus { shader: shader@, ok: r is Ok }
    &&& r matches Ok(c) ==> c@ == shader@ && c.spec_kind() == shader.spec_kind()
    &&& r matches Err(e) ==> log[n + 3] matches Call::ShaderInfoLog { shader: s, log: bytes } && s
        == shader@ && describes(e, bytes) && log[n + 4] == Call::Delete {
        kind: ObjectKind::Shader(shader.spec_kind()),
        name: shader@,
    }
}

/// A shader that compiled successfully. Owns its name.
#[derive(Debug)]
pub struct CompiledShaderId(ShaderId);

impl CompiledShaderId {
    pub closed spec fn view(&self) -> u32 {
        self.0@
    }

    pub closed spec fn spec_kind(&self) -> ShaderKind {
        self.0.spec_kind()
    }

    pub fn as_uint(&self) -> (r: u32)
        ensures
            r == self@,
            r != 0,
    {
        self.0.as_uint()
    }

    pub fn delete<D: Driver>(self, gl: &mut Gl<D>)
        ensures
            final(gl).log() == old(gl).log().push(
                Call::Delete { kind: ObjectKind::Shader(self.spec_kind()), name: self@ },
            ),
    {
        self.0.delete(gl);
    }
}

impl AsRef<ShaderId> for CompiledShaderId {
    fn as_ref(&self) -> &ShaderId {
        &self.0
    }
}

} // verus!
