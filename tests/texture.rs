use gl_typestate::driver::{Gl, ObjectKind};
use gl_typestate::mock::{MockCall, MockDriver};
use gl_typestate::texture as t;
use gl_typestate::texture::{
    TextureFilter, TextureId, TextureSlot1D, TextureSlot3D, TextureTarget2DArray, TextureUnit,
    TextureUnitSlot,
};

#[test]
fn texture_setup_issues_exactly_the_expected_calls() {
    let mut gl = Gl::new(MockDriver::new());
    let texture = TextureId::new(&mut gl).unwrap();
    let name = texture.as_u32();
    let mut unit_slot = TextureUnitSlot;
    let mut unit = unit_slot.activate(&mut gl, TextureUnit::TextureUnit0);
    let mut target = unit.texture_slot_2d.target();
    let pixels = vec![0u8; 4 * 4 * 4];
    target
        .bind(&mut gl, &texture)
        .min_filter(&mut gl, TextureFilter::Linear)
        .mag_filter(&mut gl, TextureFilter::Linear)
        .image_2d(
            &mut gl,
            0,
            gl::RGBA8 as i32,
            4,
            4,
            gl::RGBA,
            gl::UNSIGNED_BYTE,
            &pixels,
        )
        .generate_mipmap(&mut gl);
    assert_eq!(
        gl.driver().calls().to_vec(),
        vec![
            MockCall::Create { kind: ObjectKind::Texture, name },
            MockCall::ActiveTexture { unit: gl::TEXTURE0 },
            MockCall::BindTexture { target: gl::TEXTURE_2D, texture: name },
            MockCall::TexParameterI {
                target: gl::TEXTURE_2D,
                pname: gl::TEXTURE_MIN_FILTER,
                value: gl::LINEAR as i32,
            },
            MockCall::TexParameterI {
                target: gl::TEXTURE_2D,
                pname: gl::TEXTURE_MAG_FILTER,
                value: gl::LINEAR as i32,
            },
            MockCall::TexImage2D {
                target: gl::TEXTURE_2D,
                level: 0,
                internal_format: gl::RGBA8 as i32,
                width: 4,
                height: 4,
                format: gl::RGBA,
                component_type: gl::UNSIGNED_BYTE,
                data: vec![0u8; 64],
            },
            MockCall::GenerateMipmap { target: gl::TEXTURE_2D },
        ]
    );
}

#[test]
fn wrap_modes_follow_the_dimension_of_the_target() {
    let mut gl = Gl::new(MockDriver::new());
    let texture = TextureId::new(&mut gl).unwrap();
    let name = texture.as_u32();
    let mut slot_3d = TextureSlot3D;
    slot_3d
        .target()
        .bind(&mut gl, &texture)
        .wrap_s(&mut gl, gl::REPEAT as i32)
        .wrap_t(&mut gl, gl::CLAMP_TO_EDGE as i32)
        .wrap_r(&mut gl, gl::MIRRORED_REPEAT as i32);
    let mut slot_1d = TextureSlot1D;
    slot_1d.target().bind(&mut gl, &texture).wrap_s(&mut gl, gl::REPEAT as i32);
    assert_eq!(
        gl.driver().calls()[1..].to_vec(),
        vec![
            MockCall::BindTexture { target: gl::TEXTURE_3D, texture: name },
            MockCall::TexParameterI {
                target: gl::TEXTURE_3D,
                pname: gl::TEXTURE_WRAP_S,
                value: gl::REPEAT as i32,
            },
            MockCall::TexParameterI {
                target: gl::TEXTURE_3D,
                pname: gl::TEXTURE_WRAP_T,
                value: gl::CLAMP_TO_EDGE as i32,
            },
            MockCall::TexParameterI {
                target: gl::TEXTURE_3D,
                pname: gl::TEXTURE_WRAP_R,
                value: gl::MIRRORED_REPEAT as i32,
            },
            MockCall::BindTexture { target: gl::TEXTURE_1D, texture: name },
            MockCall::TexParameterI {
                target: gl::TEXTURE_1D,
                pname: gl::TEXTURE_WRAP_S,
                value: gl::REPEAT as i32,
            },
        ]
    );
}

#[test]
fn manual_policy_leaves_the_texture_bound() {
    let mut gl = Gl::new(MockDriver::new());
    let texture = TextureId::new(&mut gl).unwrap();
    let mut unit_slot = TextureUnitSlot;
    {
        let mut unit = unit_slot.activate(&mut gl, TextureUnit::TextureUnit1);
        let mut target = TextureTarget2DArray::new(&mut unit.texture_slot_2d_array);
        let bound = target.bind(&mut gl, &texture);
        assert_eq!(bound.target_as_enum(), gl::TEXTURE_2D_ARRAY);
        let before = gl.driver().calls().len();
        bound.persist();
        assert_eq!(gl.driver().calls().len(), before);
    }
    assert_eq!(gl.driver().calls()[1], MockCall::ActiveTexture { unit: gl::TEXTURE1 });
}

#[test]
fn filter_values_match_the_driver_enums() {
    assert_eq!(TextureFilter::Nearest.as_u32(), gl::NEAREST);
    assert_eq!(TextureFilter::Linear.as_u32(), gl::LINEAR);
    assert_eq!(TextureFilter::NearestMipmapNearest.as_u32(), gl::NEAREST_MIPMAP_NEAREST);
    assert_eq!(TextureFilter::LinearMipmapNearest.as_u32(), gl::LINEAR_MIPMAP_NEAREST);
    assert_eq!(TextureFilter::NearestMipmapLinear.as_u32(), gl::NEAREST_MIPMAP_LINEAR);
    assert_eq!(TextureFilter::LinearMipmapLinear.as_u32(), gl::LINEAR_MIPMAP_LINEAR);
}

#[test]
fn target_values_match_the_driver_enums() {
    assert_eq!(t::TEXTURE_1D, gl::TEXTURE_1D);
    assert_eq!(t::TEXTURE_2D, gl::TEXTURE_2D);
    assert_eq!(t::TEXTURE_3D, gl::TEXTURE_3D);
    assert_eq!(t::TEXTURE_1D_ARRAY, gl::TEXTURE_1D_ARRAY);
    assert_eq!(t::TEXTURE_2D_ARRAY, gl::TEXTURE_2D_ARRAY);
    assert_eq!(t::TEXTURE_RECTANGLE, gl::TEXTURE_RECTANGLE);
    assert_eq!(t::TEXTURE_CUBE_MAP, gl::TEXTURE_CUBE_MAP);
    assert_eq!(t::TEXTURE_CUBE_MAP_ARRAY, gl::TEXTURE_CUBE_MAP_ARRAY);
    assert_eq!(t::TEXTURE_BUFFER, gl::TEXTURE_BUFFER);
    assert_eq!(t::TEXTURE_2D_MULTISAMPLE, gl::TEXTURE_2D_MULTISAMPLE);
    assert_eq!(t::TEXTURE_2D_MULTISAMPLE_ARRAY, gl::TEXTURE_2D_MULTISAMPLE_ARRAY);
    assert_eq!(t::TEXTURE_WRAP_R, gl::TEXTURE_WRAP_R);
    assert_eq!(TextureUnit::TextureUnit1.as_u32(), gl::TEXTURE1);
}

#[test]
fn texture_allocation_failure_is_none() {
    let mut gl = Gl::new(MockDriver::new());
    gl.driver_mut().set_fail_creates(true);
    assert!(TextureId::new(&mut gl).is_none());
    assert_eq!(gl.driver().calls().to_vec(), vec![MockCall::Create { kind: ObjectKind::Texture, name: 0 }]);
}
