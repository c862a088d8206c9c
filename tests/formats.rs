use gl_wrapper::api::{gl_shader_enum_to_string, texture_bits_to_opengl_types, type_to_gl_enum};
use gl_wrapper::glenum::{DOUBLE, ElemType, FLOAT, FRAGMENT_SHADER, GEOMETRY_SHADER, R16, R8, RED, RG, RG16, RG8, RGB, RGB16, RGB8, RGBA, RGBA16, RGBA8, VERTEX_SHADER};
use gl_wrapper::{format_to_gl_internal_format, set_gl_draw_size, shader_glenum_to_string};

#[test]
fn eight_bit_four_channels_is_rgba8() {
    assert_eq!(format_to_gl_internal_format(8, RGBA), Some((RGBA8 as i32, 4)));
    assert_eq!(texture_bits_to_opengl_types(8, 4), Some((RGBA8 as i32, RGBA)));
    assert_eq!(RGBA8, 0x8058);
}

#[test]
fn sixteen_bit_one_channel_is_r16() {
    assert_eq!(format_to_gl_internal_format(16, RED), Some((R16 as i32, 1)));
    assert_eq!(texture_bits_to_opengl_types(16, 1), Some((R16 as i32, RED)));
    assert_eq!(R16, 0x822A);
}

#[test]
fn every_supported_pair_has_a_format() {
    assert_eq!(format_to_gl_internal_format(8, RED), Some((R8 as i32, 1)));
    assert_eq!(format_to_gl_internal_format(8, RG), Some((RG8 as i32, 2)));
    assert_eq!(format_to_gl_internal_format(8, RGB), Some((RGB8 as i32, 3)));
    assert_eq!(format_to_gl_internal_format(16, RG), Some((RG16 as i32, 2)));
    assert_eq!(format_to_gl_internal_format(16, RGB), Some((RGB16 as i32, 3)));
    assert_eq!(format_to_gl_internal_format(16, RGBA), Some((RGBA16 as i32, 4)));
    assert_eq!(texture_bits_to_opengl_types(8, 2), Some((RG8 as i32, RG)));
    assert_eq!(texture_bits_to_opengl_types(16, 3), Some((RGB16 as i32, RGB)));
}

#[test]
fn unsupported_pairs_have_no_format() {
    assert_eq!(format_to_gl_internal_format(32, RGBA), None);
    assert_eq!(texture_bits_to_opengl_types(32, 4), None);
    assert_eq!(texture_bits_to_opengl_types(8, 5), None);
    assert_eq!(texture_bits_to_opengl_types(8, 0), None);
    assert_eq!(format_to_gl_internal_format(8, FLOAT), None);
    assert_eq!(format_to_gl_internal_format(64, RED), None);
}

#[test]
fn shader_stage_names() {
    assert_eq!(shader_glenum_to_string(VERTEX_SHADER), Some("vertex shader"));
    assert_eq!(shader_glenum_to_string(FRAGMENT_SHADER), Some("fragment shader"));
    assert_eq!(gl_shader_enum_to_string(GEOMETRY_SHADER), Some("geometry shader"));
    assert_eq!(gl_shader_enum_to_string(FLOAT), None);
}

#[test]
fn type_enums() {
    assert_eq!(type_to_gl_enum(ElemType::Float), Some(0x1406));
    assert_eq!(type_to_gl_enum(ElemType::UnsignedShort), Some(0x1403));
    assert_eq!(type_to_gl_enum(ElemType::Byte), Some(0x1400));
    assert_eq!(type_to_gl_enum(ElemType::Double), None);
    assert_eq!(ElemType::Double.get_gl_type(), 0x140A);
    assert_eq!(ElemType::Double.size_in_bytes(), 8);
    assert_eq!(ElemType::Short.size_in_bytes(), 2);
    assert!(ElemType::UnsignedInt.is_integer());
    assert!(!ElemType::Float.is_integer());
}

#[test]
fn draw_size_must_fit() {
    assert_eq!(set_gl_draw_size(400, 300), Ok((400, 300)));
    assert_eq!(set_gl_draw_size(0x8000_0000, 3), Err("Width of canvas too big for opengl!"));
    assert_eq!(set_gl_draw_size(3, u32::MAX), Err("Height of canvas too big for opengl!"));
    assert_eq!(set_gl_draw_size(0x7fff_ffff, 0x7fff_ffff), Ok((i32::MAX, i32::MAX)));
}
