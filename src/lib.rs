//! Safe handles for driver resources: one bouncer per binding slot, resources
//! worked on only while bound, and the checks that come before data reaches the
//! driver. The library decides which driver calls to make; the caller makes them.
use vstd::prelude::*;
use crate::glenum::{
    FRAGMENT_SHADER, GEOMETRY_SHADER, R16, R8, RED, RG, RG16, RG8, RGB, RGB16, RGB8, RGBA, RGBA16,
    RGBA8, VERTEX_SHADER,
};

pub mod api;
pub mod binding;
pub mod driver;
pub mod glenum;
pub mod render;
mod text;
pub mod util;

verus! {

/// The name of a shader stage, for the stages the library knows.
pub open spec fn shader_stage_name(e: u32) -> Option<Seq<char>> {
    if e == VERTEX_SHADER {
        Some("vertex shader"@)
    } else if e == FRAGMENT_SHADER {
        Some("fragment shader"@)
    } else if e == GEOMETRY_SHADER {
        Some("geometry shader"@)
    } else {
        None
    }
}

/// The name of the shader stage `e`, if it is a vertex, fragment or geometry stage.
pub fn shader_glenum_to_string(e: u32) -> (r: Option<&'static str>)
    ensures
        r matches Some(s) ==> shader_stage_name(e) == Some(s@),
        r is None <==> shader_stage_name(e) is None,
{
    if e == VERTEX_SHADER {
        Some("vertex shader")
    } else if e == FRAGMENT_SHADER {
        Some("fragment shader")
    } else if e == GEOMETRY_SHADER {
        Some("geometry shader")
    } else {
        None
    }
}

/// The number of channels of the pixel format `format`, if it is one of
/// RED, RG, RGB and RGBA.
pub open spec fn format_channels(format: u32) -> Option<u8> {
    if format == RED {
        Some(1u8)
    } else if format == RG {
        Some(2u8)
    } else if format == RGB {
        Some(3u8)
    } else if format == RGBA {
        Some(4u8)
    } else {
        None
    }
}

/// The sized internal format for `channels` channels of `bits` bits each, for
/// 8 or 16 bits and one to four channels.
pub open spec fn sized_internal_format(bits: u8, channels: u8) -> Option<u32> {
    if bits == 8 {
        if channels == 1 {
            Some(R8)
        } else if channels == 2 {
            Some(RG8)
        } else if channels == 3 {
            Some(RGB8)
        } else if channels == 4 {
            Some(RGBA8)
        } else {
            None
        }
    } else if bits == 16 {
        if channels == 1 {
            Some(R16)
        } else if channels == 2 {
            Some(RG16)
        } else if channels == 3 {
            Some(RGB16)
        } else if channels == 4 {
            Some(RGBA16)
        } else {
            None
        }
    } else {
        None
    }
}

/// The sized internal format for pixels of format `format` with `bpc` bits per
/// channel, and the number of channels. None for any other bit depth than 8 and
/// 16 and any other format than RED, RG, RGB and RGBA.
pub fn format_to_gl_internal_format(bpc: u8, format: u32) -> (r: Option<(i32, u8)>)
    ensures
        r is Some <==> format_channels(format) is Some && sized_internal_format(
            bpc,
            format_channels(format)->Some_0,
        ) is Some,
        r matches Some((internal, channels)) ==> Some(channels) == format_channels(format)
            && Some(internal as u32) == sized_internal_format(bpc, channels) && internal >= 0,
{
    let cpp: u8 = if format == RED {
        1
    } else if format == RG {
        2
    } else if format == RGB {
        3
    } else if format == RGBA {
        4
    } else {
        return None;
    };
    let internal_format: u32 = if bpc == 8 {
        if cpp == 1 {
            R8
        } else if cpp == 2 {
            RG8
        } else if cpp == 3 {
            RGB8
        } else {
            RGBA8
        }
    } else if bpc == 16 {
        if cpp == 1 {
            R16
        } else if cpp == 2 {
            RG16
        } else if cpp == 3 {
            RGB16
        } else {
            RGBA16
        }
    } else {
        return None;
    };
    Some((internal_format as i32, cpp))
}

/// The viewport extents for a canvas of `w` by `h` pixels, each of which must fit
/// the driver's signed size type.
pub fn set_gl_draw_size(w: u32, h: u32) -> (r: Result<(i32, i32), &'static str>)
    ensures
        w <= i32::MAX && h <= i32::MAX ==> r == Ok::<(i32, i32), &'static str>(
            (w as i32, h as i32),
        ),
        w > i32::MAX ==> (r matches Err(e) && e@ == "Width of canvas too big for opengl!"@),
        w <= i32::MAX && h > i32::MAX ==> (r matches Err(e) && e@
            == "Height of canvas too big for opengl!"@),
{
    if w > i32::MAX as u32 {
        return Err("Width of canvas too big for opengl!");
    }
    if h > i32::MAX as u32 {
        return Err("Height of canvas too big for opengl!");
    }
    Ok((w as i32, h as i32))
}

} // verus!
