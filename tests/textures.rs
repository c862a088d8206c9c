use gl_wrapper::binding::{Bouncer, BouncerRegistry, LastBound, ResourceKind};
use gl_wrapper::driver::{GlCall, TexImage, TexParameter};
use gl_wrapper::glenum::{ElemType, LINEAR, R16, RED, RGB, RGB8, RGBA, RGBA8, FLOAT, TEXTURE_2D, TEXTURE_2D_ARRAY, TEXTURE_3D, TEXTURE_MAG_FILTER, TEXTURE_MIN_FILTER, TEXTURE_WRAP_R, TEXTURE_WRAP_S, TEXTURE_WRAP_T, UNSIGNED_BYTE};
use gl_wrapper::render::texture::{Texture2D, Texture2DArr, Texture3D};

fn unit(slot: usize) -> (Bouncer, LastBound) {
    let mut reg = BouncerRegistry::new();
    (Bouncer::new(&mut reg, ResourceKind::Texture, slot).unwrap(), LastBound::new())
}

#[test]
fn new_texture_gets_linear_filters() {
    let (mut bn, mut last) = unit(0);
    let (_, calls) = Texture2D::new(&mut bn, &mut last, 3);
    assert_eq!(
        calls[1],
        GlCall::TexParameter(TexParameter { target: TEXTURE_2D, pname: TEXTURE_MAG_FILTER, value: LINEAR as i32 })
    );
    assert_eq!(
        calls[2],
        GlCall::TexParameter(TexParameter { target: TEXTURE_2D, pname: TEXTURE_MIN_FILTER, value: LINEAR as i32 })
    );
}

#[test]
fn pixel_data_must_match_extents() {
    let (mut bn, mut last) = unit(0);
    let (t, _) = Texture2D::new(&mut bn, &mut last, 3);
    let (mut b, _) = t.bind(&mut bn, &mut last);
    let ok = b.get_mut().upload_data_to_texture([4, 4], 64, ElemType::UnsignedByte, RGBA).unwrap();
    assert_eq!(
        ok,
        TexImage {
            target: TEXTURE_2D,
            internal_format: RGBA8 as i32,
            dims: vec![4, 4],
            format: RGBA,
            elem_type: UNSIGNED_BYTE
        }
    );
    let mismatch = Err("Size of data array does not match the size of the texture!".to_string());
    assert_eq!(b.get_mut().upload_data_to_texture([4, 4], 63, ElemType::UnsignedByte, RGBA), mismatch);
    assert_eq!(b.get_mut().upload_data_to_texture([4, 4], 65, ElemType::UnsignedByte, RGBA), mismatch);
    assert_eq!(b.get_mut().upload_data_to_texture([0, 9], 0, ElemType::UnsignedByte, RGBA).unwrap().dims, vec![0, 9]);
    assert_eq!(b.get_mut().upload_data_to_texture([usize::MAX, 2], 8, ElemType::UnsignedByte, RGBA), mismatch);
}

#[test]
fn pixel_format_and_extent_errors() {
    let (mut bn, mut last) = unit(1);
    let (t, _) = Texture2D::new(&mut bn, &mut last, 3);
    let (mut b, _) = t.bind(&mut bn, &mut last);
    assert_eq!(
        b.get_mut().upload_data_to_texture([2, 2], 16, ElemType::Float, RGBA),
        Err("Invalid format type!".to_string())
    );
    assert_eq!(
        b.get_mut().upload_data_to_texture([2, 2], 4, ElemType::UnsignedByte, FLOAT),
        Err("Invalid format type!".to_string())
    );
    assert_eq!(
        b.get_mut().upload_data_to_texture([0x8000_0000, 1], 0x8000_0000, ElemType::Byte, RED),
        Err("Size of texture malformed!".to_string())
    );
    let r16 = b.get_mut().upload_data_to_texture([3, 1], 3, ElemType::UnsignedShort, RED).unwrap();
    assert_eq!(r16.internal_format, R16 as i32);
}

#[test]
fn three_dimensional_textures_count_depth() {
    let (mut bn, mut last) = unit(2);
    let (arr, calls) = Texture2DArr::with_data(&mut bn, &mut last, 6, [2, 2, 3], 36, ElemType::UnsignedByte, RGB).unwrap();
    assert_eq!(calls.len(), 5);
    match &calls[4] {
        GlCall::TexImage(t) => {
            assert_eq!(t.target, TEXTURE_2D_ARRAY);
            assert_eq!(t.dims, vec![2, 2, 3]);
            assert_eq!(t.internal_format, RGB8 as i32);
        }
        other => panic!("unexpected call {:?}", other),
    }
    let (b, _) = arr.bind(&mut bn, &mut last);
    drop(b);
    assert!(Texture3D::with_data(&mut bn, &mut last, 7, [2, 2, 3], 12, ElemType::UnsignedByte, RGB).is_err());
}

#[test]
fn wrap_and_filter_calls() {
    let (mut bn, mut last) = unit(0);
    let (t, _) = Texture3D::new(&mut bn, &mut last, 3);
    let (mut b, _) = t.bind(&mut bn, &mut last);
    let tex = b.get_mut();
    assert_eq!(tex.set_x_wrap_of_bound_tex(7), TexParameter { target: TEXTURE_3D, pname: TEXTURE_WRAP_S, value: 7 });
    assert_eq!(tex.set_y_wrap_of_bound_tex(8).pname, TEXTURE_WRAP_T);
    assert_eq!(tex.set_z_wrap_of_bound_tex(9).pname, TEXTURE_WRAP_R);
    assert_eq!(tex.set_min_filter_of_bound_tex(LINEAR).value, LINEAR as i32);
    assert_eq!(tex.set_mag_filter_of_bound_tex(LINEAR).pname, TEXTURE_MAG_FILTER);
}
