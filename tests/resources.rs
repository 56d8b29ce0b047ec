use gl_typestate::driver::{Gl, ObjectKind};
use gl_typestate::mock::{MockCall, MockDriver};
use gl_typestate::renderbuffer::{RenderbufferId, RenderbufferInternalFormat, RenderbufferSlot};
use gl_typestate::texture::TextureId;
use gl_typestate::vertex_array::{VertexArray, VertexArrayId};
use gl_typestate::vertex_buffer::{BufferTarget, VertexBuffer, VertexBufferId};
use gl_typestate::viewport::Viewport;

#[test]
fn live_handles_are_distinct_and_non_zero() {
    let mut gl = Gl::new(MockDriver::new());
    let mut textures = Vec::new();
    for _ in 0..16 {
        textures.push(TextureId::new(&mut gl).unwrap());
    }
    let mut names: Vec<u32> = textures.iter().map(|t| t.as_u32()).collect();
    assert!(names.iter().all(|n| *n != 0));
    names.sort();
    names.dedup();
    assert_eq!(names.len(), 16);
}

#[test]
fn every_allocation_is_deleted_exactly_once() {
    let mut gl = Gl::new(MockDriver::new());
    let n = 10;
    let mut textures = Vec::new();
    for _ in 0..n {
        textures.push(TextureId::new(&mut gl).unwrap());
    }
    for texture in textures {
        texture.delete(&mut gl);
    }
    let creates = gl.driver().calls().iter().filter(|c| matches!(c, MockCall::Create { .. })).count();
    let deletes = gl.driver().calls().iter().filter(|c| matches!(c, MockCall::Delete { .. })).count();
    assert_eq!(creates, n);
    assert_eq!(deletes, n);
    for name in 1..=(n as u32) {
        let deleted = gl
            .driver()
            .calls()
            .iter()
            .filter(|c| **c == MockCall::Delete { kind: ObjectKind::Texture, name })
            .count();
        assert_eq!(deleted, 1);
    }
}

#[test]
fn unbind_policy_issues_one_bind_to_zero() {
    let mut gl = Gl::new(MockDriver::new());
    let renderbuffer = RenderbufferId::new(&mut gl).unwrap();
    let mut slot = RenderbufferSlot;
    let mut target = slot.target();
    let mut bound = target.bind(&mut gl, &renderbuffer);
    bound.storage(&mut gl, RenderbufferInternalFormat::DEPTH24_STENCIL8, 800, 600);
    let before = gl.driver().calls().len();
    bound.unbind(&mut gl);
    assert_eq!(
        gl.driver().calls()[before..].to_vec(),
        vec![MockCall::BindRenderbuffer { target: gl::RENDERBUFFER, renderbuffer: 0 }]
    );
    target.unbind(&mut gl);
    assert_eq!(gl.driver().calls().len(), before + 2);
    assert_eq!(
        gl.driver().calls()[2],
        MockCall::RenderbufferStorage {
            target: gl::RENDERBUFFER,
            internal_format: gl::DEPTH24_STENCIL8,
            width: 800,
            height: 600,
        }
    );
}

#[test]
fn renderbuffer_format_values_match_the_driver_enums() {
    assert_eq!(RenderbufferInternalFormat::R8.as_u32(), gl::R8);
    assert_eq!(RenderbufferInternalFormat::RGB565.as_u32(), gl::RGB565);
    assert_eq!(RenderbufferInternalFormat::RGBA32UI.as_u32(), gl::RGBA32UI);
    assert_eq!(RenderbufferInternalFormat::DEPTH_COMPONENT32F.as_u32(), gl::DEPTH_COMPONENT32F);
    assert_eq!(RenderbufferInternalFormat::DEPTH32F_STENCIL8.as_u32(), gl::DEPTH32F_STENCIL8);
    assert_eq!(RenderbufferInternalFormat::STENCIL_INDEX8.as_u32(), gl::STENCIL_INDEX8);
}

#[test]
fn buffers_and_vertex_arrays_bind_directly() {
    let mut gl = Gl::new(MockDriver::new());
    let array = VertexArrayId::new(&mut gl).unwrap();
    let buffer = VertexBufferId::new(&mut gl).unwrap();
    array.bind(&mut gl);
    buffer.bind(&mut gl, BufferTarget::ElementArrayBuffer);
    assert_eq!(
        gl.driver().calls()[2..].to_vec(),
        vec![
            MockCall::BindVertexArray { array: array.as_uint() },
            MockCall::BindBuffer { target: gl::ELEMENT_ARRAY_BUFFER, buffer: buffer.as_uint() },
        ]
    );
    assert_eq!(BufferTarget::UniformBuffer.as_u32(), gl::UNIFORM_BUFFER);
    assert_eq!(BufferTarget::TextureBuffer.as_u32(), gl::TEXTURE_BUFFER);
}

#[test]
fn failed_wrappers_report_a_message() {
    let mut gl = Gl::new(MockDriver::new());
    gl.driver_mut().set_fail_creates(true);
    assert_eq!(VertexArray::new(&mut gl).err().unwrap(), "Failed to acquire vertex array id.");
    assert_eq!(VertexBuffer::new(&mut gl).err().unwrap(), "Failed to acquire buffer id.");
    gl.driver_mut().set_fail_creates(false);
    let buffer = VertexBuffer::new(&mut gl).unwrap();
    assert_eq!(buffer.id().as_uint(), 1);
    let array = VertexArray::new(&mut gl).unwrap();
    assert_eq!(array.id().as_uint(), 2);
}

#[test]
fn viewport_update_applies_the_new_rectangle() {
    let mut gl = Gl::new(MockDriver::new());
    let mut viewport = Viewport::new(1024, 768);
    {
        let mut update = viewport.update();
        update.width(800).height(600).x(10);
        update.apply(&mut gl);
    }
    assert_eq!(
        (viewport.x(), viewport.y(), viewport.width(), viewport.height()),
        (10, 0, 800, 600)
    );
    assert_eq!(
        gl.driver().calls().to_vec(),
        vec![MockCall::Viewport { x: 10, y: 0, width: 800, height: 600 }]
    );
    let placed = Viewport::with_position(1, 2, 3, 4);
    assert_eq!((placed.x(), placed.y(), placed.width(), placed.height()), (1, 2, 3, 4));
}
