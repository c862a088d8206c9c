//! Numeric values of the OpenGL enumerants that the library reasons about.
//! They are fixed by the OpenGL registry and agree with the `gl` crate's constants.
use vstd::prelude::*;

verus! {

pub const FALSE: u32 = 0;
pub const TRUE: u32 = 1;

pub const BYTE: u32 = 0x1400;
pub const UNSIGNED_BYTE: u32 = 0x1401;
pub const SHORT: u32 = 0x1402;
pub const UNSIGNED_SHORT: u32 = 0x1403;
pub const INT: u32 = 0x1404;
pub const UNSIGNED_INT: u32 = 0x1405;
pub const FLOAT: u32 = 0x1406;
pub const DOUBLE: u32 = 0x140A;

pub const VERTEX_SHADER: u32 = 0x8B31;
pub const FRAGMENT_SHADER: u32 = 0x8B30;
pub const GEOMETRY_SHADER: u32 = 0x8DD9;

pub const RED: u32 = 0x1903;
pub const RG: u32 = 0x8227;
pub const RGB: u32 = 0x1907;
pub const RGBA: u32 = 0x1908;

pub const R8: u32 = 0x8229;
pub const RG8: u32 = 0x822B;
pub const RGB8: u32 = 0x8051;
pub const RGBA8: u32 = 0x8058;
pub const R16: u32 = 0x822A;
pub const RG16: u32 = 0x822C;
pub const RGB16: u32 = 0x8054;
pub const RGBA16: u32 = 0x805B;

pub const TEXTURE_2D: u32 = 0x0DE1;
pub const TEXTURE_2D_ARRAY: u32 = 0x8C1A;
pub const TEXTURE_3D: u32 = 0x806F;

pub const ARRAY_BUFFER: u32 = 0x8892;
pub const ELEMENT_ARRAY_BUFFER: u32 = 0x8893;

pub const TEXTURE_MAG_FILTER: u32 = 0x2800;
pub const TEXTURE_MIN_FILTER: u32 = 0x2801;
pub const TEXTURE_WRAP_S: u32 = 0x2802;
pub const TEXTURE_WRAP_T: u32 = 0x2803;
pub const TEXTURE_WRAP_R: u32 = 0x8072;
pub const LINEAR: u32 = 0x2601;

pub const STATIC_DRAW: u32 = 0x88E4;

/// The scalar types that vertex, index and pixel data can be made of.
#[derive(PartialEq, Eq, Structural, Clone, Copy, Debug)]
pub enum ElemType {
    Byte,
    UnsignedByte,
    Short,
    UnsignedShort,
    Int,
    UnsignedInt,
    Float,
    Double,
}

impl ElemType {
    pub open spec fn spec_gl_type(self) -> u32 {
        match self {
            ElemType::Byte => BYTE,
            ElemType::UnsignedByte => UNSIGNED_BYTE,
            ElemType::Short => SHORT,
            ElemType::UnsignedShort => UNSIGNED_SHORT,
            ElemType::Int => INT,
            ElemType::UnsignedInt => UNSIGNED_INT,
            ElemType::Float => FLOAT,
            ElemType::Double => DOUBLE,
        }
    }

    pub open spec fn spec_size(self) -> nat {
        match self {
            ElemType::Byte | ElemType::UnsignedByte => 1,
            ElemType::Short | ElemType::UnsignedShort => 2,
            ElemType::Int | ElemType::UnsignedInt | ElemType::Float => 4,
            ElemType::Double => 8,
        }
    }

    pub open spec fn spec_is_integer(self) -> bool {
        !(self is Float) && !(self is Double)
    }

    /// The driver's type enumerant for this scalar type.
    pub fn get_gl_type(&self) -> (r: u32)
        ensures
            r == self.spec_gl_type(),
    {
        match self {
            ElemType::Byte => BYTE,
            ElemType::UnsignedByte => UNSIGNED_BYTE,
            ElemType::Short => SHORT,
            ElemType::UnsignedShort => UNSIGNED_SHORT,
            ElemType::Int => INT,
            ElemType::UnsignedInt => UNSIGNED_INT,
            ElemType::Float => FLOAT,
            ElemType::Double => DOUBLE,
        }
    }

    /// The size of one value of this type, in bytes.
    pub fn size_in_bytes(&self) -> (r: usize)
        ensures
            r == self.spec_size(),
    {
        match self {
            ElemType::Byte | ElemType::UnsignedByte => 1,
            ElemType::Short | ElemType::UnsignedShort => 2,
            ElemType::Int | ElemType::UnsignedInt | ElemType::Float => 4,
            ElemType::Double => 8,
        }
    }

    /// Whether the type is one of the six integer types.
    pub fn is_integer(&self) -> (r: bool)
        ensures
            r == self.spec_is_integer(),
    {
        match self {
            ElemType::Float | ElemType::Double => false,
            _ => true,
        }
    }
}

} // verus!
