//! Enumerant lookups for callers that name types and channel counts directly.
use vstd::prelude::*;
use crate::glenum::{ElemType, RED, RG, RGB, RGBA};
use crate::{shader_glenum_to_string, shader_stage_name, sized_internal_format};

verus! {

/// The driver's type enumerant for index and vertex data of type `t`; doubles
/// have none here.
pub fn type_to_gl_enum(t: ElemType) -> (r: Option<u32>)
    ensures
        t is Double ==> r is None,
        !(t is Double) ==> r == Some(t.spec_gl_type()),
{
    match t {
        ElemType::Double => None,
        _ => Some(t.get_gl_type()),
    }
}

/// The name of the shader stage `e`, if it is a vertex, fragment or geometry stage.
pub fn gl_shader_enum_to_string(e: u32) -> (r: Option<&'static str>)
    ensures
        r matches Some(s) ==> shader_stage_name(e) == Some(s@),
        r is None <==> shader_stage_name(e) is None,
{
    shader_glenum_to_string(e)
}

/// The pixel format with `cpp` channels.
pub open spec fn channel_format(cpp: u8) -> Option<u32> {
    if cpp == 1 {
        Some(RED)
    } else if cpp == 2 {
        Some(RG)
    } else if cpp == 3 {
        Some(RGB)
    } else if cpp == 4 {
        Some(RGBA)
    } else {
        None
    }
}

/// The sized internal format and the pixel format for pixels of `cpp` channels
/// of `bpc` bits each. None for any other bit depth than 8 and 16 and any other
/// channel count than one to four.
pub fn texture_bits_to_opengl_types(bpc: u8, cpp: u8) -> (r: Option<(i32, u32)>)
    ensures
        r is Some <==> sized_internal_format(bpc, cpp) is Some,
        r matches Some((internal, format)) ==> Some(internal as u32) == sized_internal_format(
            bpc,
            cpp,
        ) && internal >= 0 && Some(format) == channel_format(cpp),
{
    let format = if cpp == 1 {
        RED
    } else if cpp == 2 {
        RG
    } else if cpp == 3 {
        RGB
    } else if cpp == 4 {
        RGBA
    } else {
        return None;
    };
    match crate::format_to_gl_internal_format(bpc, format) {
        Some((internal, _)) => Some((internal, format)),
        None => None,
    }
}

} // verus!
