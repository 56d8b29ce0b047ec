use gl_typestate::driver::{Gl, ObjectKind};
use gl_typestate::framebuffer::{
    BoundFramebufferId, CheckFramebufferStatus, DrawFramebufferSlot, DrawFramebufferTarget,
    DrawReadFramebufferTarget, FramebufferAttachment, FramebufferId, FramebufferStatus,
    HasFramebufferId,
    IsDrawableBoundFramebufferId, IsFramebufferTarget, IsReadableBoundFramebufferId,
    ReadFramebufferSlot, ReadFramebufferTarget, DEFAULT_FRAMEBUFFER_ID,
};
use gl_typestate::mock::{MockCall, MockDriver};
use gl_typestate::renderbuffer::{RenderbufferId, RenderbufferInternalFormat, RenderbufferSlot};
use gl_typestate::texture::{TextureId, TextureUnit, TextureUnitSlot};

#[test]
fn default_framebuffer_id_has_size_0() {
    assert_eq!(0, ::std::mem::size_of_val(&DEFAULT_FRAMEBUFFER_ID));
}

#[test]
fn framebuffer_id_has_size_4() {
    assert_eq!(4, ::std::mem::size_of::<FramebufferId>());
}

#[test]
fn framebuffer_targets_have_size_0() {
    assert_eq!(0, ::std::mem::size_of::<DrawReadFramebufferTarget>());
    assert_eq!(0, ::std::mem::size_of::<DrawFramebufferTarget>());
    assert_eq!(0, ::std::mem::size_of::<ReadFramebufferTarget>());
}

#[test]
fn bound_framebuffer_ids_have_size_0() {
    assert_eq!(
        0,
        ::std::mem::size_of::<BoundFramebufferId<FramebufferId, DrawReadFramebufferTarget>>()
    );
}

#[test]
fn test() {
    let mut gl = Gl::new(MockDriver::new());
    let fb0 = DEFAULT_FRAMEBUFFER_ID;
    let fb1 = FramebufferId::new(&mut gl).unwrap();
    let fb2 = FramebufferId::new(&mut gl).unwrap();

    let mut draw = DrawFramebufferSlot {};
    let mut read = ReadFramebufferSlot {};

    {
        let bb0 = DrawReadFramebufferTarget::new(&mut draw, &mut read).bind(&mut gl, &fb0);
        assert_eq!(bb0.draw(), false);
        assert_eq!(bb0.read(), false);
    }

    {
        let br0 = ReadFramebufferTarget::new(&mut read).bind(&mut gl, &fb0);

        assert_eq!(br0.read(), false);

        {
            let bd1 = DrawFramebufferTarget::new(&mut draw).bind(&mut gl, &fb1);
            assert_eq!(bd1.draw(), false);
        }

        {
            let bd2 = DrawFramebufferTarget::new(&mut draw).bind(&mut gl, &fb2);
            assert_eq!(bd2.draw(), false);
        }
    }
}

#[test]
fn binding_targets_issue_their_enums() {
    let mut gl = Gl::new(MockDriver::new());
    let fb = FramebufferId::new(&mut gl).unwrap();
    let name = fb.id();
    let mut draw = DrawFramebufferSlot {};
    let mut read = ReadFramebufferSlot {};
    let _ = DrawReadFramebufferTarget::new(&mut draw, &mut read).bind(&mut gl, &fb);
    let _ = DrawFramebufferTarget::new(&mut draw).bind(&mut gl, &DEFAULT_FRAMEBUFFER_ID);
    let _ = ReadFramebufferTarget::new(&mut read).bind(&mut gl, &fb);
    assert_eq!(
        gl.driver().calls()[1..].to_vec(),
        vec![
            MockCall::BindFramebuffer { target: gl::FRAMEBUFFER, framebuffer: name },
            MockCall::BindFramebuffer { target: gl::DRAW_FRAMEBUFFER, framebuffer: 0 },
            MockCall::BindFramebuffer { target: gl::READ_FRAMEBUFFER, framebuffer: name },
        ]
    );
}

fn complete_framebuffer(gl: &mut Gl<MockDriver>) -> FramebufferStatus {
    let texture = TextureId::new(gl).unwrap();
    let renderbuffer = RenderbufferId::new(gl).unwrap();
    let framebuffer = FramebufferId::new(gl).unwrap();

    let mut unit_slot = TextureUnitSlot;
    let mut unit = unit_slot.activate(gl, TextureUnit::TextureUnit0);
    unit.texture_slot_2d.target().bind(gl, &texture).persist();

    let mut renderbuffer_slot = RenderbufferSlot;
    let mut renderbuffer_target = renderbuffer_slot.target();
    renderbuffer_target
        .bind(gl, &renderbuffer)
        .storage(gl, RenderbufferInternalFormat::DEPTH24_STENCIL8, 4, 4);

    let mut draw = DrawFramebufferSlot {};
    let mut read = ReadFramebufferSlot {};
    DrawReadFramebufferTarget::new(&mut draw, &mut read)
        .bind(gl, &framebuffer)
        .attach_texture_2d(gl, FramebufferAttachment::color(0), gl::TEXTURE_2D, &texture, 0)
        .attach_renderbuffer(gl, FramebufferAttachment::DepthStencil, &renderbuffer);
    CheckFramebufferStatus(gl, &DrawReadFramebufferTarget::new(&mut draw, &mut read))
}

#[test]
fn framebuffer_reported_complete() {
    let mut gl = Gl::new(MockDriver::new());
    assert_eq!(complete_framebuffer(&mut gl), FramebufferStatus::FRAMEBUFFER_COMPLETE);
    let calls = gl.driver().calls();
    assert_eq!(
        calls[calls.len() - 3..].to_vec(),
        vec![
            MockCall::FramebufferTexture2D {
                target: gl::FRAMEBUFFER,
                attachment: gl::COLOR_ATTACHMENT0,
                textarget: gl::TEXTURE_2D,
                texture: 1,
                level: 0,
            },
            MockCall::FramebufferRenderbuffer {
                target: gl::FRAMEBUFFER,
                attachment: gl::DEPTH_STENCIL_ATTACHMENT,
                renderbuffer_target: gl::RENDERBUFFER,
                renderbuffer: 2,
            },
            MockCall::CheckFramebufferStatus { target: gl::FRAMEBUFFER, status: gl::FRAMEBUFFER_COMPLETE },
        ]
    );
}

#[test]
fn framebuffer_reported_incomplete_attachment() {
    let mut gl = Gl::new(MockDriver::new());
    gl.driver_mut().set_framebuffer_status(gl::FRAMEBUFFER_INCOMPLETE_ATTACHMENT);
    assert_eq!(
        complete_framebuffer(&mut gl),
        FramebufferStatus::FRAMEBUFFER_INCOMPLETE_ATTACHMENT
    );
}

#[test]
fn framebuffer_reported_unsupported() {
    let mut gl = Gl::new(MockDriver::new());
    gl.driver_mut().set_framebuffer_status(gl::FRAMEBUFFER_UNSUPPORTED);
    assert_eq!(complete_framebuffer(&mut gl), FramebufferStatus::FRAMEBUFFER_UNSUPPORTED);
}

#[test]
fn framebuffer_reported_missing_attachment() {
    let mut gl = Gl::new(MockDriver::new());
    gl.driver_mut().set_framebuffer_status(gl::FRAMEBUFFER_INCOMPLETE_MISSING_ATTACHMENT);
    assert_eq!(
        complete_framebuffer(&mut gl),
        FramebufferStatus::FRAMEBUFFER_INCOMPLETE_MISSING_ATTACHMENT
    );
}

#[test]
fn framebuffer_status_values() {
    assert_eq!(FramebufferStatus::from_u32(0), FramebufferStatus::ERROR);
    assert_eq!(
        FramebufferStatus::from_u32(gl::FRAMEBUFFER_UNDEFINED),
        FramebufferStatus::FRAMEBUFFER_UNDEFINED
    );
    assert_eq!(
        FramebufferStatus::from_u32(gl::FRAMEBUFFER_INCOMPLETE_LAYER_TARGETS),
        FramebufferStatus::FRAMEBUFFER_INCOMPLETE_LAYER_TARGETS
    );
    assert_eq!(FramebufferStatus::from_u32(7), FramebufferStatus::UNRECOGNIZED(7));
}

#[test]
fn attachment_values() {
    assert_eq!(FramebufferAttachment::color(0).as_u32(), gl::COLOR_ATTACHMENT0);
    assert_eq!(FramebufferAttachment::color(7).as_u32(), gl::COLOR_ATTACHMENT7);
    assert_eq!(FramebufferAttachment::color(9).as_u32(), gl::COLOR_ATTACHMENT9);
    assert_eq!(FramebufferAttachment::Depth.as_u32(), gl::DEPTH_ATTACHMENT);
    assert_eq!(FramebufferAttachment::Stencil.as_u32(), gl::STENCIL_ATTACHMENT);
}

#[test]
fn framebuffer_delete_hands_back_its_name() {
    let mut gl = Gl::new(MockDriver::new());
    let fb = FramebufferId::new(&mut gl).unwrap();
    fb.delete(&mut gl);
    assert_eq!(
        gl.driver().calls().to_vec(),
        vec![
            MockCall::Create { kind: ObjectKind::Framebuffer, name: 1 },
            MockCall::Delete { kind: ObjectKind::Framebuffer, name: 1 },
        ]
    );
}
