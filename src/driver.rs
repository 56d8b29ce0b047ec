//! The driver interface, the model of the calls made on it, and what holds of
//! every sequence of allocations and deletions.

use vstd::prelude::*;

use crate::shader::ShaderKind;

verus! {

/// The kinds of objects the driver allocates.
#[derive(Clone, Copy, Debug, PartialEq, Eq, Structural)]
pub enum ObjectKind {
    Texture,
    Framebuffer,
    Renderbuffer,
    Buffer,
    VertexArray,
    Shader(ShaderKind),
    Program,
}

/// The name spaces of the driver: names are unique within one of them.
/// Shaders and programs share a single name space.
#[derive(Clone, Copy, Debug, PartialEq, Eq, Structural)]
pub enum Namespace {
    Texture,
    Framebuffer,
    Renderbuffer,
    Buffer,
    VertexArray,
    ShaderProgram,
}

impl ObjectKind {
    pub open spec fn namespace(self) -> Namespace {
        match self {
            ObjectKind::Texture => Namespace::Texture,
            ObjectKind::Framebuffer => Namespace::Framebuffer,
            ObjectKind::Renderbuffer => Namespace::Renderbuffer,
            ObjectKind::Buffer => Namespace::Buffer,
            ObjectKind::VertexArray => Namespace::VertexArray,
            ObjectKind::Shader(_) => Namespace::ShaderProgram,
            ObjectKind::Program => Namespace::ShaderProgram,
        }
    }
}

/// One call into the driver, with its arguments and, for queries, what it
/// answered. Byte and text arguments are given by their contents.
pub enum Call {
    Create { kind: ObjectKind, name: u32 },
    Delete { kind: ObjectKind, name: u32 },
    ActiveTexture { unit: u32 },
    BindTexture { target: u32, texture: u32 },
    TexParameterI { target: u32, pname: u32, value: i32 },
    GenerateMipmap { target: u32 },
    TexImage2D {
        target: u32,
        level: i32,
        internal_format: i32,
        width: i32,
        height: i32,
        format: u32,
        component_type: u32,
        data: Seq<u8>,
    },
    BindFramebuffer { target: u32, framebuffer: u32 },
    FramebufferTexture2D { target: u32, attachment: u32, textarget: u32, texture: u32, level: i32 },
    FramebufferRenderbuffer {
        target: u32,
        attachment: u32,
        renderbuffer_target: u32,
        renderbuffer: u32,
    },
    CheckFramebufferStatus { target: u32, status: u32 },
    BindRenderbuffer { target: u32, renderbuffer: u32 },
    RenderbufferStorage { target: u32, internal_format: u32, width: i32, height: i32 },
    ShaderSource { shader: u32, sources: Seq<Seq<char>> },
    CompileShader { shader: u32 },
    ShaderCompileStatus { shader: u32, ok: bool },
    ShaderInfoLog { shader: u32, log: Seq<u8> },
    AttachShader { program: u32, shader: u32 },
    LinkProgram { program: u32 },
    ProgramLinkStatus { program: u32, ok: bool },
    ProgramInfoLog { program: u32, log: Seq<u8> },
    GetUniformLocation { program: u32, name: Seq<char>, location: i32 },
    UseProgram { program: u32 },
    Uniform1I { location: i32, value: i32 },
    BindBuffer { target: u32, buffer: u32 },
    BindVertexArray { array: u32 },
    Viewport { x: i32, y: i32, width: i32, height: i32 },
}

pub open spec fn strs_view(s: Seq<&str>) -> Seq<Seq<char>> {
    s.map_values(|x: &str| x@)
}

/// The names of a name space that the calls in `log` allocated and did not delete.
pub open spec fn live_names(log: Seq<Call>, ns: Namespace) -> Set<u32>
    decreases log.len(),
{
    if log.len() == 0 {
        Set::empty()
    } else {
        let before = live_names(log.drop_last(), ns);
        match log.last() {
            Call::Create { kind, name } => if kind.namespace() == ns && name != 0 {
                before.insert(name)
            } else {
                before
            },
            Call::Delete { kind, name } => if kind.namespace() == ns {
                before.remove(name)
            } else {
                before
            },
            _ => before,
        }
    }
}

/// Every name an allocation returned was not live at that moment.
pub open spec fn fresh_creates(log: Seq<Call>) -> bool {
    forall|i: int|
        0 <= i < log.len() ==> match #[trigger] log[i] {
            Call::Create { kind, name } => !live_names(log.take(i), kind.namespace()).contains(name),
            _ => true,
        }
}

/// Every deletion named an object that was live at that moment.
pub open spec fn deletes_only_live(log: Seq<Call>) -> bool {
    forall|i: int|
        0 <= i < log.len() ==> match #[trigger] log[i] {
            Call::Delete { kind, name } => live_names(log.take(i), kind.namespace()).contains(name),
            _ => true,
        }
}

/// The number of successful allocations in a name space.
pub open spec fn creates(log: Seq<Call>, ns: Namespace) -> nat
    decreases log.len(),
{
    if log.len() == 0 {
        0
    } else {
        creates(log.drop_last(), ns) + match log.last() {
            Call::Create { kind, name } => if kind.namespace() == ns && name != 0 {
                1nat
            } else {
                0nat
            },
            _ => 0nat,
        }
    }
}

/// The number of deletions in a name space.
pub open spec fn deletes(log: Seq<Call>, ns: Namespace) -> nat
    decreases log.len(),
{
    if log.len() == 0 {
        0
    } else {
        deletes(log.drop_last(), ns) + match log.last() {
            Call::Delete { kind, name } => if kind.namespace() == ns {
                1nat
            } else {
                0nat
            },
            _ => 0nat,
        }
    }
}

/// `c` deletes the name `name` of name space `ns`.
pub open spec fn is_delete_of(c: Call, ns: Namespace, name: u32) -> bool {
    c matches Call::Delete { kind, name: n } && kind.namespace() == ns && n == name
}

proof fn lemma_live_until_deleted(log: Seq<Call>, kind: ObjectKind, a: u32, i: int, m: int)
    requires
        0 <= i < m <= log.len(),
        log[i] == (Call::Create { kind, name: a }),
        a != 0,
        forall|k: int| i < k < m ==> !is_delete_of(#[trigger] log[k], kind.namespace(), a),
    ensures
        live_names(log.take(m), kind.namespace()).contains(a),
    decreases m - i,
{
    if m == i + 1 {
        assert(log.take(m).drop_last() =~= log.take(i));
        assert(log.take(m).last() == log[i]);
    } else {
        lemma_live_until_deleted(log, kind, a, i, m - 1);
        assert(log.take(m).drop_last() =~= log.take(m - 1));
        assert(log.take(m).last() == log[m - 1]);
        assert(!is_delete_of(log[m - 1], kind.namespace(), a));
    }
}

/// Handle uniqueness: when every allocation returned a name that was not live,
/// a successful allocation and any later allocation in the same name space,
/// with no deletion of the first name between them, never return the same
/// name. (Every `new` that succeeds returns a non-zero name: see its contract.)
pub proof fn lemma_created_names_distinct(
    log: Seq<Call>,
    i: int,
    j: int,
    kind_a: ObjectKind,
    a: u32,
    kind_b: ObjectKind,
    b: u32,
)
    requires
        fresh_creates(log),
        0 <= i < j < log.len(),
        log[i] == (Call::Create { kind: kind_a, name: a }),
        log[j] == (Call::Create { kind: kind_b, name: b }),
        kind_a.namespace() == kind_b.namespace(),
        a != 0,
        forall|k: int| i < k < j ==> !is_delete_of(#[trigger] log[k], kind_a.namespace(), a),
    ensures
        a != b,
{
    lemma_live_until_deleted(log, kind_a, a, i, j);
    assert(match log[j] {
        Call::Create { kind, name } => !live_names(log.take(j), kind.namespace()).contains(name),
        _ => true,
    });
}

proof fn lemma_prefix_histories(log: Seq<Call>)
    requires
        log.len() > 0,
        fresh_creates(log),
        deletes_only_live(log),
    ensures
        fresh_creates(log.drop_last()),
        deletes_only_live(log.drop_last()),
{
    let before = log.drop_last();
    assert forall|i: int| 0 <= i < before.len() implies match #[trigger] before[i] {
        Call::Create { kind, name } => !live_names(before.take(i), kind.namespace()).contains(name),
        _ => true,
    } by {
        assert(before[i] == log[i]);
        assert(before.take(i) =~= log.take(i));
        assert(match log[i] {
            Call::Create { kind, name } => !live_names(log.take(i), kind.namespace()).contains(name),
            _ => true,
        });
    }
    assert forall|i: int| 0 <= i < before.len() implies match #[trigger] before[i] {
        Call::Delete { kind, name } => live_names(before.take(i), kind.namespace()).contains(name),
        _ => true,
    } by {
        assert(before[i] == log[i]);
        assert(before.take(i) =~= log.take(i));
        assert(match log[i] {
            Call::Delete { kind, name } => live_names(log.take(i), kind.namespace()).contains(name),
            _ => true,
        });
    }
}

proof fn lemma_live_finite(log: Seq<Call>, ns: Namespace)
    ensures
        live_names(log, ns).finite(),
    decreases log.len(),
{
    if log.len() > 0 {
        lemma_live_finite(log.drop_last(), ns);
    }
}

/// Single ownership: when every allocation returned a name that was not live
/// and every deletion named a live object, the successful allocations of a
/// name space number exactly its deletions plus the objects still live. Once
/// every object has been deleted, the two counts are equal.
pub proof fn lemma_allocations_balance(log: Seq<Call>, ns: Namespace)
    requires
        fresh_creates(log),
        deletes_only_live(log),
    ensures
        live_names(log, ns).finite(),
        creates(log, ns) == deletes(log, ns) + live_names(log, ns).len(),
    decreases log.len(),
{
    lemma_live_finite(log, ns);
    if log.len() > 0 {
        let before = log.drop_last();
        let k = log.len() - 1;
        lemma_prefix_histories(log);
        lemma_allocations_balance(before, ns);
        assert(log.take(k) =~= before);
        assert(log.last() == log[k]);
        assert(match log[k] {
            Call::Create { kind, name } => !live_names(log.take(k), kind.namespace()).contains(name),
            _ => true,
        });
        assert(match log[k] {
            Call::Delete { kind, name } => live_names(log.take(k), kind.namespace()).contains(name),
            _ => true,
        });
    }
}

/// The graphics driver: one method per driver call. A driver answers
/// queries as it sees fit; what the library knows of the calls it made is
/// kept by `Gl`.
pub trait Driver {
    /// Allocates an object; zero means the driver could not.
    fn create(&mut self, kind: ObjectKind) -> u32;

    fn delete(&mut self, kind: ObjectKind, name: u32);

    fn active_texture(&mut self, unit: u32);

    fn bind_texture(&mut self, target: u32, texture: u32);

    fn tex_parameter_i(&mut self, target: u32, pname: u32, value: i32);

    fn generate_mipmap(&mut self, target: u32);

    fn tex_image_2d(
        &mut self,
        target: u32,
        level: i32,
        internal_format: i32,
        width: i32,
        height: i32,
        format: u32,
        component_type: u32,
        data: &[u8],
    );

    fn bind_framebuffer(&mut self, target: u32, framebuffer: u32);

    fn framebuffer_texture_2d(
        &mut self,
        target: u32,
        attachment: u32,
        textarget: u32,
        texture: u32,
        level: i32,
    );

    fn framebuffer_renderbuffer(
        &mut self,
        target: u32,
        attachment: u32,
        renderbuffer_target: u32,
        renderbuffer: u32,
    );

    fn check_framebuffer_status(&mut self, target: u32) -> u32;

    fn bind_renderbuffer(&mut self, target: u32, renderbuffer: u32);

    fn renderbuffer_storage(&mut self, target: u32, internal_format: u32, width: i32, height: i32);

    fn shader_source(&mut self, shader: u32, sources: &[&str]);

    fn compile_shader(&mut self, shader: u32);

    fn shader_compile_status(&mut self, shader: u32) -> bool;

    /// The shader's diagnostic log as the driver wrote it, possibly ending in a NUL byte.
    fn shader_info_log(&mut self, shader: u32) -> Vec<u8>;

    fn attach_shader(&mut self, program: u32, shader: u32);

    fn link_program(&mut self, program: u32);

    fn program_link_status(&mut self, program: u32) -> bool;

    /// The program's diagnostic log as the driver wrote it, possibly ending in a NUL byte.
    fn program_info_log(&mut self, program: u32) -> Vec<u8>;

    fn uniform_location(&mut self, program: u32, name: &str) -> i32;

    fn use_program(&mut self, program: u32);

    fn uniform_1i(&mut self, location: i32, value: i32);

    fn bind_buffer(&mut self, target: u32, buffer: u32);

    fn bind_vertex_array(&mut self, array: u32);

    fn viewport(&mut self, x: i32, y: i32, width: i32, height: i32);
}

/// A driver together with the sequence of calls made on it through the
/// library, oldest first. Each method makes exactly one driver call.
pub struct Gl<D> {
    driver: D,
    log: Ghost<Seq<Call>>,
}

impl<D: Driver> Gl<D> {
    pub closed spec fn log(&self) -> Seq<Call> {
        self.log@
    }

    pub closed spec fn spec_driver(&self) -> D {
        self.driver
    }

    /// Takes over a driver that has received no call from the library yet.
    pub fn new(driver: D) -> (r: Self)
        ensures
            r.log() == Seq::<Call>::empty(),
            r.spec_driver() == driver,
    {
        Gl { driver, log: Ghost(Seq::empty()) }
    }

    pub fn driver(&self) -> (r: &D)
        ensures
            *r == self.spec_driver(),
    {
        &self.driver
    }

    /// The driver, for changes that make no driver call.
    pub fn driver_mut(&mut self) -> (r: &mut D)
        ensures
            final(self).log() == old(self).log(),
    {
        &mut self.driver
    }

    /// Allocates an object; zero means the driver could not.
    pub fn create(&mut self, kind: ObjectKind) -> (name: u32)
        ensures
            final(self).log() == old(self).log().push(Call::Create { kind, name }),
    {
        let name = self.driver.create(kind);
        self.log = Ghost(self.log@.push(Call::Create { kind, name }));
        name
    }

    pub fn delete(&mut self, kind: ObjectKind, name: u32)
        ensures
            final(self).log() == old(self).log().push(Call::Delete { kind, name }),
    {
        self.driver.delete(kind, name);
        self.log = Ghost(self.log@.push(Call::Delete { kind, name }));
    }

    pub fn active_texture(&mut self, unit: u32)
        ensures
            final(self).log() == old(self).log().push(Call::ActiveTexture { unit }),
    {
        self.driver.active_texture(unit);
        self.log = Ghost(self.log@.push(Call::ActiveTexture { unit }));
    }

    pub fn bind_texture(&mut self, target: u32, texture: u32)
        ensures
            final(self).log() == old(self).log().push(Call::BindTexture { target, texture }),
    {
        self.driver.bind_texture(target, texture);
        self.log = Ghost(self.log@.push(Call::BindTexture { target, texture }));
    }

    pub fn tex_parameter_i(&mut self, target: u32, pname: u32, value: i32)
        ensures
            final(self).log() == old(self).log().push(Call::TexParameterI { target, pname, value }),
    {
        self.driver.tex_parameter_i(target, pname, value);
        self.log = Ghost(self.log@.push(Call::TexParameterI { target, pname, value }));
    }

    pub fn generate_mipmap(&mut self, target: u32)
        ensures
            final(self).log() == old(self).log().push(Call::GenerateMipmap { target }),
    {
        self.driver.generate_mipmap(target);
        self.log = Ghost(self.log@.push(Call::GenerateMipmap { target }));
    }

    pub fn tex_image_2d(
        &mut self,
        target: u32,
        level: i32,
        internal_format: i32,
        width: i32,
        height: i32,
        format: u32,
        component_type: u32,
        data: &[u8],
    )
        ensures
            final(self).log() == old(self).log().push(
                Call::TexImage2D {
                    target,
                    level,
                    internal_format,
                    width,
                    height,
                    format,
                    component_type,
                    data: data@,
                },
            ),
    {
        self.driver.tex_image_2d(
            target,
            level,
            internal_format,
            width,
            height,
            format,
            component_type,
            data,
        );
        self.log = Ghost(
            self.log@.push(
                Call::TexImage2D {
                    target,
                    level,
                    internal_format,
                    width,
                    height,
                    format,
                    component_type,
                    data: data@,
                },
            ),
        );
    }

    pub fn bind_framebuffer(&mut self, target: u32, framebuffer: u32)
        ensures
            final(self).log() == old(self).log().push(
                Call::BindFramebuffer { target, framebuffer },
            ),
    {
        self.driver.bind_framebuffer(target, framebuffer);
        self.log = Ghost(self.log@.push(Call::BindFramebuffer { target, framebuffer }));
    }

    pub fn framebuffer_texture_2d(
        &mut self,
        target: u32,
        attachment: u32,
        textarget: u32,
        texture: u32,
        level: i32,
    )
        ensures
            final(self).log() == old(self).log().push(
                Call::FramebufferTexture2D { target, attachment, textarget, texture, level },
            ),
    {
        self.driver.framebuffer_texture_2d(target, attachment, textarget, texture, level);
        self.log = Ghost(
            self.log@.push(
                Call::FramebufferTexture2D { target, attachment, textarget, texture, level },
            ),
        );
    }

    pub fn framebuffer_renderbuffer(
        &mut self,
        target: u32,
        attachment: u32,
        renderbuffer_target: u32,
        renderbuffer: u32,
    )
        ensures
            final(self).log() == old(self).log().push(
                Call::FramebufferRenderbuffer { target, attachment, renderbuffer_target, renderbuffer },
            ),
    {
        self.driver.framebuffer_renderbuffer(target, attachment, renderbuffer_target, renderbuffer);
        self.log = Ghost(
            self.log@.push(
                Call::FramebufferRenderbuffer { target, attachment, renderbuffer_target, renderbuffer },
            ),
        );
    }

    pub fn check_framebuffer_status(&mut self, target: u32) -> (status: u32)
        ensures
            final(self).log() == old(self).log().push(
                Call::CheckFramebufferStatus { target, status },
            ),
    {
        let status = self.driver.check_framebuffer_status(target);
        self.log = Ghost(self.log@.push(Call::CheckFramebufferStatus { target, status }));
        status
    }

    pub fn bind_renderbuffer(&mut self, target: u32, renderbuffer: u32)
        ensures
            final(self).log() == old(self).log().push(
                Call::BindRenderbuffer { target, renderbuffer },
            ),
    {
        self.driver.bind_renderbuffer(target, renderbuffer);
        self.log = Ghost(self.log@.push(Call::BindRenderbuffer { target, renderbuffer }));
    }

    pub fn renderbuffer_storage(&mut self, target: u32, internal_format: u32, width: i32, height: i32)
        ensures
            final(self).log() == old(self).log().push(
                Call::RenderbufferStorage { target, internal_format, width, height },
            ),
    {
        self.driver.renderbuffer_storage(target, internal_format, width, height);
        self.log = Ghost(
            self.log@.push(
                Call::RenderbufferStorage { target, internal_format, width, height },
            ),
        );
    }

    pub fn shader_source(&mut self, shader: u32, sources: &[&str])
        ensures
            final(self).log() == old(self).log().push(
                Call::ShaderSource { shader, sources: strs_view(sources@) },
            ),
    {
        self.driver.shader_source(shader, sources);
        self.log = Ghost(
            self.log@.push(
                Call::ShaderSource { shader, sources: strs_view(sources@) },
            ),
        );
    }

    pub fn compile_shader(&mut self, shader: u32)
        ensures
            final(self).log() == old(self).log().push(Call::CompileShader { shader }),
    {
        self.driver.compile_shader(shader);
        self.log = Ghost(self.log@.push(Call::CompileShader { shader }));
    }

    pub fn shader_compile_status(&mut self, shader: u32) -> (ok: bool)
        ensures
            final(self).log() == old(self).log().push(Call::ShaderCompileStatus { shader, ok }),
    {
        let ok = self.driver.shader_compile_status(shader);
        self.log = Ghost(self.log@.push(Call::ShaderCompileStatus { shader, ok }));
        ok
    }

    /// The shader's diagnostic log as the driver wrote it, possibly ending in a NUL byte.
    pub fn shader_info_log(&mut self, shader: u32) -> (log: Vec<u8>)
        ensures
            final(self).log() == old(self).log().push(Call::ShaderInfoLog { shader, log: log@ }),
    {
        let log = self.driver.shader_info_log(shader);
        self.log = Ghost(self.log@.push(Call::ShaderInfoLog { shader, log: log@ }));
        log
    }

    pub fn attach_shader(&mut self, program: u32, shader: u32)
        ensures
            final(self).log() == old(self).log().push(Call::AttachShader { program, shader }),
    {
        self.driver.attach_shader(program, shader);
        self.log = Ghost(self.log@.push(Call::AttachShader { program, shader }));
    }

    pub fn link_program(&mut self, program: u32)
        ensures
            final(self).log() == old(self).log().push(Call::LinkProgram { program }),
    {
        self.driver.link_program(program);
        self.log = Ghost(self.log@.push(Call::LinkProgram { program }));
    }

    pub fn program_link_status(&mut self, program: u32) -> (ok: bool)
        ensures
            final(self).log() == old(self).log().push(Call::ProgramLinkStatus { program, ok }),
    {
        let ok = self.driver.program_link_status(program);
        self.log = Ghost(self.log@.push(Call::ProgramLinkStatus { program, ok }));
        ok
    }

    /// The program's diagnostic log as the driver wrote it, possibly ending in a NUL byte.
    pub fn program_info_log(&mut self, program: u32) -> (log: Vec<u8>)
        ensures
            final(self).log() == old(self).log().push(Call::ProgramInfoLog { program, log: log@ }),
    {
        let log = self.driver.program_info_log(program);
        self.log = Ghost(self.log@.push(Call::ProgramInfoLog { program, log: log@ }));
        log
    }

    pub fn uniform_location(&mut self, program: u32, name: &str) -> (location: i32)
        ensures
            final(self).log() == old(self).log().push(
                Call::GetUniformLocation { program, name: name@, location },
            ),
    {
        let location = self.driver.uniform_location(program, name);
        self.log = Ghost(
            self.log@.push(
                Call::GetUniformLocation { program, name: name@, location },
            ),
        );
        location
    }

    pub fn use_program(&mut self, program: u32)
        ensures
            final(self).log() == old(self).log().push(Call::UseProgram { program }),
    {
        self.driver.use_program(program);
        self.log = Ghost(self.log@.push(Call::UseProgram { program }));
    }

    pub fn uniform_1i(&mut self, location: i32, value: i32)
        ensures
            final(self).log() == old(self).log().push(Call::Uniform1I { location, value }),
    {
        self.driver.uniform_1i(location, value);
        self.log = Ghost(self.log@.push(Call::Uniform1I { location, value }));
    }

    pub fn bind_buffer(&mut self, target: u32, buffer: u32)
        ensures
            final(self).log() == old(self).log().push(Call::BindBuffer { target, buffer }),
    {
        self.driver.bind_buffer(target, buffer);
        self.log = Ghost(self.log@.push(Call::BindBuffer { target, buffer }));
    }

    pub fn bind_vertex_array(&mut self, array: u32)
        ensures
            final(self).log() == old(self).log().push(Call::BindVertexArray { array }),
    {
        self.driver.bind_vertex_array(array);
        self.log = Ghost(self.log@.push(Call::BindVertexArray { array }));
    }

    pub fn viewport(&mut self, x: i32, y: i32, width: i32, height: i32)
        ensures
            final(self).log() == old(self).log().push(Call::Viewport { x, y, width, height }),
    {
        self.driver.viewport(x, y, width, height);
        self.log = Ghost(self.log@.push(Call::Viewport { x, y, width, height }));
    }
}

} // verus!
