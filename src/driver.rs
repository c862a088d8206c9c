//! Descriptions of the driver calls that the library's operations decide on.
//! The caller hands each one to the driver, in the order given.
use vstd::prelude::*;
use crate::binding::BindCall;

verus! {

/// Which of the driver's three attribute-pointer calls describes an attribute.
#[derive(PartialEq, Eq, Structural, Clone, Copy, Debug)]
pub enum PointerFn {
    /// Values are read as floats (integers are converted).
    Float,
    /// Values stay integers.
    Integer,
    /// Values are doubles.
    Long,
}

/// Points vertex attribute `index` at the bound array buffer.
#[derive(PartialEq, Eq, Structural, Clone, Copy, Debug)]
pub struct AttribPointer {
    pub func: PointerFn,
    pub index: u32,
    pub size: u8,
    pub gl_type: u32,
    pub stride: i32,
    pub offset: isize,
}

/// Uploads `byte_len` bytes of data to the buffer bound to `target`.
#[derive(PartialEq, Eq, Structural, Clone, Copy, Debug)]
pub struct BufferData {
    pub target: u32,
    pub byte_len: isize,
    pub usage: u32,
}

/// Sets an integer parameter of the texture bound to `target`.
#[derive(PartialEq, Eq, Structural, Clone, Copy, Debug)]
pub struct TexParameter {
    pub target: u32,
    pub pname: u32,
    pub value: i32,
}

/// Uploads pixel data to level zero of the texture bound to `target`, with one
/// extent per dimension.
#[derive(PartialEq, Eq, Clone, Debug)]
pub struct TexImage {
    pub target: u32,
    pub internal_format: i32,
    pub dims: Vec<i32>,
    pub format: u32,
    pub elem_type: u32,
}

/// One driver call.
#[derive(PartialEq, Eq, Clone, Debug)]
pub enum GlCall {
    Bind(BindCall),
    TexParameter(TexParameter),
    TexImage(TexImage),
    BufferData(BufferData),
}

} // verus!
