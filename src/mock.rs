//! A driver that records calls instead of performing them.

use vstd::prelude::*;

use crate::driver::{Driver, ObjectKind};

verus! {

/// A call as the mock driver recorded it.
#[derive(Clone, Debug, PartialEq, Eq)]
pub enum MockCall {
    Create { kind: ObjectKind, name: u32 },
    Delete { kind: ObjectKind, name: u32 },
    ActiveTexture { unit: u32 },
    BindTexture { target: u32, texture: u32 },
    TexParameterI { target: u32, pname: u32, value: i32 },
    GenerateMipmap { target: u32 },
    TexImage2D {
        target: u32,
        level: i32,
        internal_format: i32,
        width: i32,
        height: i32,
        format: u32,
        component_type: u32,
        data: Vec<u8>,
    },
    BindFramebuffer { target: u32, framebuffer: u32 },
    FramebufferTexture2D { target: u32, attachment: u32, textarget: u32, texture: u32, level: i32 },
    FramebufferRenderbuffer {
        target: u32,
        attachment: u32,
        renderbuffer_target: u32,
        renderbuffer: u32,
    },
    CheckFramebufferStatus { target: u32, status: u32 },
    BindRenderbuffer { target: u32, renderbuffer: u32 },
    RenderbufferStorage { target: u32, internal_format: u32, width: i32, height: i32 },
    ShaderSource { shader: u32, sources: Vec<String> },
    CompileShader { shader: u32 },
    ShaderCompileStatus { shader: u32, ok: bool },
    ShaderInfoLog { shader: u32, log: Vec<u8> },
    AttachShader { program: u32, shader: u32 },
    LinkProgram { program: u32 },
    ProgramLinkStatus { program: u32, ok: bool },
    ProgramInfoLog { program: u32, log: Vec<u8> },
    GetUniformLocation { program: u32, name: String, location: i32 },
    UseProgram { program: u32 },
    Uniform1I { location: i32, value: i32 },
    BindBuffer { target: u32, buffer: u32 },
    BindVertexArray { array: u32 },
    Viewport { x: i32, y: i32, width: i32, height: i32 },
}

/// A driver that performs nothing and records every call it receives. Names
/// are handed out counting up from one and never reused; the answers to
/// queries are whatever it was configured with.
pub struct MockDriver {
    calls: Vec<MockCall>,
    next_name: u32,
    fail_creates: bool,
    compile_ok: bool,
    link_ok: bool,
    info_log: Vec<u8>,
    framebuffer_status: u32,
    location: i32,
}


fn copy_bytes(data: &[u8]) -> (r: Vec<u8>)
    ensures
        r@ == data@,
{
    let mut out: Vec<u8> = Vec::new();
    let mut i: usize = 0;
    while i < data.len()
        invariant
            i <= data@.len(),
            out@ == data@.take(i as int),
        decreases data@.len() - i,
    {
        out.push(data[i]);
        i = i + 1;
        assert(out@ =~= data@.take(i as int));
    }
    assert(out@ =~= data@);
    out
}

fn copy_strs(sources: &[&str]) -> (r: Vec<String>)
    ensures
        r@.len() == sources@.len(),
        forall|j: int| 0 <= j < sources@.len() ==> (#[trigger] r@[j])@ == sources@[j]@,
{
    let mut out: Vec<String> = Vec::new();
    let mut i: usize = 0;
    while i < sources.len()
        invariant
            i <= sources@.len(),
            out@.len() == i,
            forall|j: int| 0 <= j < i ==> (#[trigger] out@[j])@ == sources@[j]@,
        decreases sources@.len() - i,
    {
        out.push(sources[i].to_owned());
        i = i + 1;
    }
    out
}

impl MockDriver {
    pub closed spec fn spec_calls(&self) -> Seq<MockCall> {
        self.calls@
    }

    pub closed spec fn fails_creates(&self) -> bool {
        self.fail_creates
    }

    pub closed spec fn compile_ok(&self) -> bool {
        self.compile_ok
    }

    pub closed spec fn link_ok(&self) -> bool {
        self.link_ok
    }

    pub closed spec fn info_log(&self) -> Seq<u8> {
        self.info_log@
    }

    pub closed spec fn framebuffer_status(&self) -> u32 {
        self.framebuffer_status
    }

    pub closed spec fn location(&self) -> i32 {
        self.location
    }

    /// A driver that has received no call, allocates successfully, reports
    /// every compile and link as successful with an empty log, every
    /// framebuffer as complete and every uniform at location zero.
    pub fn new() -> (r: MockDriver)
        ensures
            r.spec_calls() == Seq::<MockCall>::empty(),
            !r.fails_creates(),
            r.compile_ok(),
            r.link_ok(),
            r.info_log() == Seq::<u8>::empty(),
            r.framebuffer_status() == crate::framebuffer::FRAMEBUFFER_COMPLETE,
            r.location() == 0,
    {
        MockDriver {
            calls: Vec::new(),
            next_name: 1,
            fail_creates: false,
            compile_ok: true,
            link_ok: true,
            info_log: Vec::new(),
            framebuffer_status: crate::framebuffer::FRAMEBUFFER_COMPLETE,
            location: 0,
        }
    }

    /// Every call received so far, oldest first.
    pub fn calls(&self) -> (r: &Vec<MockCall>)
        ensures
            r@ == self.spec_calls(),
    {
        &self.calls
    }

    /// Makes every later allocation fail (return zero), or succeed again.
    pub fn set_fail_creates(&mut self, fail: bool)
        ensures
            final(self).fails_creates() == fail,
            final(self).spec_calls() == old(self).spec_calls(),
    {
        self.fail_creates = fail;
    }

    pub fn set_compile_status(&mut self, ok: bool)
        ensures
            final(self).compile_ok() == ok,
            final(self).spec_calls() == old(self).spec_calls(),
    {
        self.compile_ok = ok;
    }

    pub fn set_link_status(&mut self, ok: bool)
        ensures
            final(self).link_ok() == ok,
            final(self).spec_calls() == old(self).spec_calls(),
    {
        self.link_ok = ok;
    }

    /// The bytes every later shader or program log query answers with.
    pub fn set_info_log(&mut self, log: Vec<u8>)
        ensures
            final(self).info_log() == log@,
            final(self).spec_calls() == old(self).spec_calls(),
    {
        self.info_log = log;
    }

    pub fn set_framebuffer_status(&mut self, status: u32)
        ensures
            final(self).framebuffer_status() == status,
            final(self).spec_calls() == old(self).spec_calls(),
    {
        self.framebuffer_status = status;
    }

    pub fn set_uniform_location(&mut self, location: i32)
        ensures
            final(self).location() == location,
            final(self).spec_calls() == old(self).spec_calls(),
    {
        self.location = location;
    }
}

impl Driver for MockDriver {
    fn create(&mut self, kind: ObjectKind) -> u32 {
        let name = if self.fail_creates || self.next_name == u32::MAX {
            0
        } else {
            self.next_name
        };
        if name != 0 {
            self.next_name = self.next_name + 1;
        }
        self.calls.push(MockCall::Create { kind, name });
        name
    }

    fn delete(&mut self, kind: ObjectKind, name: u32) {
        self.calls.push(MockCall::Delete { kind, name });
    }

    fn active_texture(&mut self, unit: u32) {
        self.calls.push(MockCall::ActiveTexture { unit });
    }

    fn bind_texture(&mut self, target: u32, texture: u32) {
        self.calls.push(MockCall::BindTexture { target, texture });
    }

    fn tex_parameter_i(&mut self, target: u32, pname: u32, value: i32) {
        self.calls.push(MockCall::TexParameterI { target, pname, value });
    }

    fn generate_mipmap(&mut self, target: u32) {
        self.calls.push(MockCall::GenerateMipmap { target });
    }

    fn tex_image_2d(
        &mut self,
        target: u32,
        level: i32,
        internal_format: i32,
        width: i32,
        height: i32,
        format: u32,
        component_type: u32,
        data: &[u8],
    ) {
        let data = copy_bytes(data);
        self.calls.push(
            MockCall::TexImage2D {
                target,
                level,
                internal_format,
                width,
                height,
                format,
                component_type,
                data,
            },
        );
    }

    fn bind_framebuffer(&mut self, target: u32, framebuffer: u32) {
        self.calls.push(MockCall::BindFramebuffer { target, framebuffer });
    }

    fn framebuffer_texture_2d(
        &mut self,
        target: u32,
        attachment: u32,
        textarget: u32,
        texture: u32,
        level: i32,
    ) {
        self.calls.push(
            MockCall::FramebufferTexture2D { target, attachment, textarget, texture, level },
        );
    }

    fn framebuffer_renderbuffer(
        &mut self,
        target: u32,
        attachment: u32,
        renderbuffer_target: u32,
        renderbuffer: u32,
    ) {
        self.calls.push(
            MockCall::FramebufferRenderbuffer { target, attachment, renderbuffer_target, renderbuffer },
        );
    }

    fn check_framebuffer_status(&mut self, target: u32) -> u32 {
        let status = self.framebuffer_status;
        self.calls.push(MockCall::CheckFramebufferStatus { target, status });
        status
    }

    fn bind_renderbuffer(&mut self, target: u32, renderbuffer: u32) {
        self.calls.push(MockCall::BindRenderbuffer { target, renderbuffer });
    }

    fn renderbuffer_storage(&mut self, target: u32, internal_format: u32, width: i32, height: i32) {
        self.calls.push(MockCall::RenderbufferStorage { target, internal_format, width, height });
    }

    fn shader_source(&mut self, shader: u32, sources: &[&str]) {
        let sources = copy_strs(sources);
        self.calls.push(MockCall::ShaderSource { shader, sources });
    }

    fn compile_shader(&mut self, shader: u32) {
        self.calls.push(MockCall::CompileShader { shader });
    }

    fn shader_compile_status(&mut self, shader: u32) -> bool {
        let ok = self.compile_ok;
        self.calls.push(MockCall::ShaderCompileStatus { shader, ok });
        ok
    }

    fn shader_info_log(&mut self, shader: u32) -> Vec<u8> {
        let log = copy_bytes(self.info_log.as_slice());
        let recorded = copy_bytes(self.info_log.as_slice());
        self.calls.push(MockCall::ShaderInfoLog { shader, log: recorded });
        log
    }

    fn attach_shader(&mut self, program: u32, shader: u32) {
        self.calls.push(MockCall::AttachShader { program, shader });
    }

    fn link_program(&mut self, program: u32) {
        self.calls.push(MockCall::LinkProgram { program });
    }

    fn program_link_status(&mut self, program: u32) -> bool {
        let ok = self.link_ok;
        self.calls.push(MockCall::ProgramLinkStatus { program, ok });
        ok
    }

    fn program_info_log(&mut self, program: u32) -> Vec<u8> {
        let log = copy_bytes(self.info_log.as_slice());
        let recorded = copy_bytes(self.info_log.as_slice());
        self.calls.push(MockCall::ProgramInfoLog { program, log: recorded });
        log
    }

    fn uniform_location(&mut self, program: u32, name: &str) -> i32 {
        let location = self.location;
        self.calls.push(MockCall::GetUniformLocation { program, name: name.to_owned(), location });
        location
    }

    fn use_program(&mut self, program: u32) {
        self.calls.push(MockCall::UseProgram { program });
    }

    fn uniform_1i(&mut self, location: i32, value: i32) {
        self.calls.push(MockCall::Uniform1I { location, value });
    }

    fn bind_buffer(&mut self, target: u32, buffer: u32) {
        self.calls.push(MockCall::BindBuffer { target, buffer });
    }

    fn bind_vertex_array(&mut self, array: u32) {
        self.calls.push(MockCall::BindVertexArray { array });
    }

    fn viewport(&mut self, x: i32, y: i32, width: i32, height: i32) {
        self.calls.push(MockCall::Viewport { x, y, width, height });
    }
}

} // verus!
