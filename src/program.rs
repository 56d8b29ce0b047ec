//! Program objects, their linking, uniforms, and the program binding point.

use vstd::prelude::*;
use std::marker::PhantomData;

use crate::diagnostic::{describes, DiagnosticLog};
use crate::driver::{Call, Driver, Gl, ObjectKind};
use crate::id::Id;
use crate::shader::CompiledShaderId;

verus! {

/// An allocated program object that has not been linked. Owns its name.
#[derive(Debug)]
pub struct ProgramId(Id);

impl ProgramId {
    pub closed spec fn view(&self) -> u32 {
        self.0@
    }

    /// Allocates a program; `None` when the driver returns the reserved name zero.
    pub fn new<D: Driver>(gl: &mut Gl<D>) -> (r: Option<Self>)
        ensures
            final(gl).log() == old(gl).log().push(
                Call::Create { kind: ObjectKind::Program, name: program_name_or_zero(r) },
            ),
            r matches Some(p) ==> p@ != 0
    {
        match Id::create(gl, ObjectKind::Program) {
            Some(id) => Some(ProgramId(id)),
            None => None,
        }
    }

    pub fn as_uint(&self) -> (r: u32)
        ensures
            r == self@,
            r != 0,
    {
        self.0.get()
    }

    pub fn delete<D: Driver>(self, gl: &mut Gl<D>)
        ensures
            final(gl).log() == old(gl).log().push(
                Call::Delete { kind: ObjectKind::Program, name: self@ },
            ),
    {
        self.0.delete(gl, ObjectKind::Program);
    }

    /// Attaches the shaders, in order, and links them. On failure the program
    /// is deleted and its diagnostic log returned.
    pub fn link<D: Driver>(self, gl: &mut Gl<D>, shaders: &[&CompiledShaderId]) -> (r: Result<
        LinkedProgramId,
        DiagnosticLog,
    >)
        ensures
            linked(final(gl).log(), old(gl).log(), self@, shader_names(shaders@), r),
    {
        let ghost start = gl.log();
        let ghost n = start.len() as int;
        let ghost names = shader_names(shaders@);
        let name = self.as_uint();
        let mut i: usize = 0;
        while i < shaders.len()
            invariant
                i <= shaders@.len(),
                name == self@,
                names == shader_names(shaders@),
                gl.log() == start + attach_calls(name, names.take(i as int)),
            decreases shaders@.len() - i,
        {
            gl.attach_shader(name, shaders[i].as_uint());
            i = i + 1;
            assert(attach_calls(name, names.take(i as int)) =~= attach_calls(
                name,
                names.take(i - 1),
            ).push(Call::AttachShader { program: name, shader: names[i - 1] }));
        }
        assert(names.take(i as int) =~= names);
        let ghost m = names.len() as int;
        gl.link_program(name);
        let ok = gl.program_link_status(name);
        let ghost after_status = gl.log();
        assert(after_status.take(n) =~= start);
        assert(after_status.subrange(n, n + m) =~= attach_calls(name, names));
        if ok {
            Ok(LinkedProgramId(self))
        } else {
            let bytes = gl.program_info_log(name);
            let ghost logged = gl.log();
            let log = DiagnosticLog::from_bytes(bytes.as_slice());
            self.delete(gl);
            assert(gl.log().take(n) =~= start);
            assert(gl.log().subrange(n, n + m) =~= attach_calls(name, names));
            assert(gl.log()[n + m] == after_status[n + m]);
            assert(gl.log()[n + m + 1] == after_status[n + m + 1]);
            assert(gl.log()[n + m + 2] == logged.last());
            Err(log)
        }
    }
}

pub open spec fn program_name_or_zero(r: Option<ProgramId>) -> u32 {
    match r {
        Some(p) => p@,
        None => 0,
    }
}

pub open spec fn shader_names(shaders: Seq<&CompiledShaderId>) -> Seq<u32> {
    shaders.map_values(|s: &CompiledShaderId| s@)
}

pub open spec fn attach_calls(program: u32, shaders: Seq<u32>) -> Seq<Call> {
    shaders.map_values(|s: u32| Call::AttachShader { program, shader: s })
}

/// The calls a link makes: one attachment per shader, the link, the status
/// query, and on failure the log query and the deletion of the program.
pub open spec fn linked(
    log: Seq<Call>,
    before: Seq<Call>,
    program: u32,
    shaders: Seq<u32>,
    r: Result<LinkedProgramId, DiagnosticLog>,
) -> bool {
    let n = before.len() as int;
    let m = shaders.len() as int;
    &&& log.len() == if r is Ok { n + m + 2 } else { n + m + 4 }
    &&& log.take(n) == before
    &&& log.subrange(n, n + m) == attach_calls(program, shaders)
    &&& log[n + m] == Call::LinkProgram { program }
    &&& log[n + m + 1] == Call::ProgramLinkStatus { program, ok: r is Ok }
    &&& r matches Ok(l) ==> l@ == program
    &&& r matches Err(e) ==> log[n + m + 2] matches Call::ProgramInfoLog { program: p, log: bytes }
        && p == program && describes(e, bytes) && log[n + m + 3] == Call::Delete {
        kind: ObjectKind::Program,
        name: program,
    }
}

/// A program that linked successfully. Owns its name.
#[derive(Debug)]
pub struct LinkedProgramId(ProgramId);

impl LinkedProgramId {
    pub closed spec fn view(&self) -> u32 {
        self.0@
    }

    pub fn as_uint(&self) -> (r: u32)
        ensures
            r == self@,
            r != 0,
    {
        self.0.as_uint()
    }

    pub fn delete<D: Driver>(self, gl: &mut Gl<D>)
        ensures
            final(gl).log() == old(gl).log().push(
                Call::Delete { kind: ObjectKind::Program, name: self@ },
            ),
    {
        self.0.delete(gl);
    }

    /// Looks up the location of the named uniform variable.
    pub fn uniform_location<D: Driver>(&self, gl: &mut Gl<D>, name: &str) -> (r: UniformLocation<'_>)
        ensures
            final(gl).log() == old(gl).log().push(
                Call::GetUniformLocation { program: self@, name: name@, location: r@ },
            ),
    {
        let loc = gl.uniform_location(self.as_uint(), name);
        UniformLocation(loc, PhantomData)
    }
}

/// The location of a uniform variable of one linked program.
#[derive(Debug)]
pub struct UniformLocation<'p>(i32, PhantomData<&'p LinkedProgramId>);

impl<'p> UniformLocation<'p> {
    pub closed spec fn view(&self) -> i32 {
        self.0
    }

    pub fn as_i32(&self) -> (r: i32)
        ensures
            r == self@,
    {
        self.0
    }
}

/// The binding point of the program that draws.
#[derive(Debug)]
pub struct ProgramSlot();

impl ProgramSlot {
    /// Makes the program the one that draws.
    pub fn bind<'s, 'p, D: Driver>(&'s mut self, gl: &mut Gl<D>, program: &'p LinkedProgramId) -> (r:
        BoundProgramId<'s, 'p>)
        ensures
            final(gl).log() == old(gl).log().push(Call::UseProgram { program: program@ }),
    {
        gl.use_program(program.as_uint());
        BoundProgramId { slot: PhantomData, program: PhantomData }
    }
}

/// A program in use. Programs follow the manual policy: letting go of the
/// handle leaves the program in use.
#[derive(Debug)]
#[must_use]
pub struct BoundProgramId<'s, 'p> {
    slot: PhantomData<&'s mut ProgramSlot>,
    program: PhantomData<&'p LinkedProgramId>,
}

impl<'s, 'p> BoundProgramId<'s, 'p> {
    pub fn set_uniform_1i<D: Driver>(&mut self, gl: &mut Gl<D>, loc: &UniformLocation<'p>, val: i32) -> (r:
        &mut Self)
        ensures
            final(gl).log() == old(gl).log().push(Call::Uniform1I { location: loc@, value: val }),
            *r == *old(self),
            *final(self) == *final(r),
    {
        gl.uniform_1i(loc.as_i32(), val);
        self
    }
}

} // verus!
