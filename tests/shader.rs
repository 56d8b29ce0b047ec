use gl_typestate::diagnostic::DiagnosticLog;
use gl_typestate::driver::{Gl, ObjectKind};
use gl_typestate::mock::{MockCall, MockDriver};
use gl_typestate::program::{ProgramId, ProgramSlot};
use gl_typestate::shader::specialization::{FragmentShaderId, VertexShaderId};
use gl_typestate::shader::{ShaderId, ShaderKind};

#[test]
fn failed_compile_returns_the_log_text() {
    let mut gl = Gl::new(MockDriver::new());
    gl.driver_mut().set_compile_status(false);
    gl.driver_mut().set_info_log(b"ERROR: 0:1: syntax error\0".to_vec());
    let shader = ShaderId::new(&mut gl, ShaderKind::Vertex).unwrap();
    let name = shader.as_uint();
    let result = shader.compile(&mut gl, &["void main() {"]);
    assert_eq!(
        result.unwrap_err(),
        DiagnosticLog::Text(String::from("ERROR: 0:1: syntax error"))
    );
    assert_eq!(
        gl.driver().calls().to_vec(),
        vec![
            MockCall::Create { kind: ObjectKind::Shader(ShaderKind::Vertex), name },
            MockCall::ShaderSource { shader: name, sources: vec![String::from("void main() {")] },
            MockCall::CompileShader { shader: name },
            MockCall::ShaderCompileStatus { shader: name, ok: false },
            MockCall::ShaderInfoLog { shader: name, log: b"ERROR: 0:1: syntax error\0".to_vec() },
            MockCall::Delete { kind: ObjectKind::Shader(ShaderKind::Vertex), name },
        ]
    );
}

#[test]
fn failed_link_returns_the_log_text() {
    let mut gl = Gl::new(MockDriver::new());
    let vertex = ShaderId::new(&mut gl, ShaderKind::Vertex)
        .unwrap()
        .compile(&mut gl, &["void main() {}"])
        .unwrap();
    let fragment = ShaderId::new(&mut gl, ShaderKind::Fragment)
        .unwrap()
        .compile(&mut gl, &["void main() {}"])
        .unwrap();
    gl.driver_mut().set_link_status(false);
    gl.driver_mut().set_info_log(b"ERROR: 0:1: syntax error\0".to_vec());
    let program = ProgramId::new(&mut gl).unwrap();
    let name = program.as_uint();
    let before = gl.driver().calls().len();
    let result = program.link(&mut gl, &[&vertex, &fragment]);
    assert_eq!(
        result.unwrap_err(),
        DiagnosticLog::Text(String::from("ERROR: 0:1: syntax error"))
    );
    assert_eq!(
        gl.driver().calls()[before..].to_vec(),
        vec![
            MockCall::AttachShader { program: name, shader: vertex.as_uint() },
            MockCall::AttachShader { program: name, shader: fragment.as_uint() },
            MockCall::LinkProgram { program: name },
            MockCall::ProgramLinkStatus { program: name, ok: false },
            MockCall::ProgramInfoLog { program: name, log: b"ERROR: 0:1: syntax error\0".to_vec() },
            MockCall::Delete { kind: ObjectKind::Program, name },
        ]
    );
}

#[test]
fn log_without_terminator_is_read_whole() {
    assert_eq!(
        DiagnosticLog::from_bytes(b"0:3: bad"),
        DiagnosticLog::Text(String::from("0:3: bad"))
    );
    assert_eq!(DiagnosticLog::from_bytes(b""), DiagnosticLog::Text(String::new()));
    assert_eq!(DiagnosticLog::from_bytes(b"ab\0cd"), DiagnosticLog::Text(String::from("ab")));
}

#[test]
fn log_that_is_not_utf8_keeps_its_bytes() {
    assert_eq!(
        DiagnosticLog::from_bytes(b"a\xff\0junk"),
        DiagnosticLog::NotUtf8(vec![b'a', 0xff])
    );
}

#[test]
fn successful_link_then_uniforms() {
    let mut gl = Gl::new(MockDriver::new());
    let vertex = VertexShaderId::new(&mut gl).unwrap().compile(&mut gl, &["v"]).unwrap();
    let fragment = FragmentShaderId::new(&mut gl).unwrap().compile(&mut gl, &["f1", "f2"]).unwrap();
    let program = ProgramId::new(&mut gl)
        .unwrap()
        .link(&mut gl, &[vertex.as_ref(), fragment.as_ref()])
        .unwrap();
    gl.driver_mut().set_uniform_location(3);
    let location = program.uniform_location(&mut gl, "material.diffuse");
    assert_eq!(location.as_i32(), 3);
    let mut slot = ProgramSlot();
    slot.bind(&mut gl, &program).set_uniform_1i(&mut gl, &location, 1);
    let calls = gl.driver().calls();
    assert_eq!(
        calls[0],
        MockCall::Create { kind: ObjectKind::Shader(ShaderKind::Vertex), name: vertex.as_uint() }
    );
    assert_eq!(
        calls[calls.len() - 3..].to_vec(),
        vec![
            MockCall::GetUniformLocation {
                program: program.as_uint(),
                name: String::from("material.diffuse"),
                location: 3,
            },
            MockCall::UseProgram { program: program.as_uint() },
            MockCall::Uniform1I { location: 3, value: 1 },
        ]
    );
}

#[test]
fn shader_kind_values_match_the_driver_enums() {
    assert_eq!(ShaderKind::Compute.as_u32(), gl::COMPUTE_SHADER);
    assert_eq!(ShaderKind::Fragment.as_u32(), gl::FRAGMENT_SHADER);
    assert_eq!(ShaderKind::Geometry.as_u32(), gl::GEOMETRY_SHADER);
    assert_eq!(ShaderKind::Vertex.as_u32(), gl::VERTEX_SHADER);
    assert_eq!(ShaderKind::TesselationControl.as_u32(), gl::TESS_CONTROL_SHADER);
    assert_eq!(ShaderKind::TesselationEvaluation.as_u32(), gl::TESS_EVALUATION_SHADER);
}

#[test]
fn typed_shader_ids_convert_to_untyped_ones() {
    let mut gl = Gl::new(MockDriver::new());
    let typed = VertexShaderId::new(&mut gl).unwrap();
    let name = typed.as_uint();
    let untyped: ShaderId = typed.into();
    assert_eq!(untyped.kind(), ShaderKind::Vertex);
    assert_eq!(untyped.as_uint(), name);
    let compiled = FragmentShaderId::new(&mut gl).unwrap().compile(&mut gl, &["f"]).unwrap();
    let name = compiled.as_uint();
    let untyped: gl_typestate::shader::CompiledShaderId = compiled.into();
    assert_eq!(untyped.as_uint(), name);
}
