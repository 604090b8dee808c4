//! Vertex attributes: the layout of the data that a vertex shader reads, and the
//! switches that turn an attribute on and off.

use vstd::prelude::*;
use crate::buffer::VertexArrayObject;
use crate::codes;
use crate::command::Command;
use crate::exchange::{Exchange, ExchangeView};

verus! {

/// The number of components of an attribute: one to four.
#[derive(Copy, Clone, PartialEq, Eq, Structural, Debug)]
pub enum AttributeVector {
    Vec1,
    Vec2,
    Vec3,
    Vec4,
}

impl AttributeVector {
    /// The number of components.
    pub open spec fn arity(self) -> int {
        match self {
            AttributeVector::Vec1 => 1,
            AttributeVector::Vec2 => 2,
            AttributeVector::Vec3 => 3,
            AttributeVector::Vec4 => 4,
        }
    }

    pub fn len(self) -> (len: i32)
        ensures
            len == self.arity(),
    {
        match self {
            AttributeVector::Vec1 => 1,
            AttributeVector::Vec2 => 2,
            AttributeVector::Vec3 => 3,
            AttributeVector::Vec4 => 4,
        }
    }
}

/// The type of one component of an attribute, and of one element of a buffer: a
/// signed or unsigned integer of 8, 16 or 32 bits, or a float of 32 or 64 bits.
#[derive(Copy, Clone, PartialEq, Eq, Structural, Debug)]
pub enum AttributeType {
    Byte,
    UnsignedByte,
    Short,
    UnsignedShort,
    Int,
    UnsignedInt,
    Float,
    Double,
}

impl AttributeType {
    /// The code by which the driver knows the type.
    pub open spec fn code(self) -> u32 {
        match self {
            AttributeType::Byte => codes::BYTE,
            AttributeType::UnsignedByte => codes::UNSIGNED_BYTE,
            AttributeType::Short => codes::SHORT,
            AttributeType::UnsignedShort => codes::UNSIGNED_SHORT,
            AttributeType::Int => codes::INT,
            AttributeType::UnsignedInt => codes::UNSIGNED_INT,
            AttributeType::Float => codes::FLOAT,
            AttributeType::Double => codes::DOUBLE,
        }
    }

    /// The number of bytes that one value of the type takes.
    pub open spec fn width(self) -> int {
        match self {
            AttributeType::Byte => 1,
            AttributeType::UnsignedByte => 1,
            AttributeType::Short => 2,
            AttributeType::UnsignedShort => 2,
            AttributeType::Int => 4,
            AttributeType::UnsignedInt => 4,
            AttributeType::Float => 4,
            AttributeType::Double => 8,
        }
    }

    /// Whether the type is a float.
    pub open spec fn is_floating(self) -> bool {
        self == AttributeType::Float || self == AttributeType::Double
    }

    /// Whether the type is an unsigned integer.
    pub open spec fn is_unsigned(self) -> bool {
        self == AttributeType::UnsignedByte || self == AttributeType::UnsignedShort || self
            == AttributeType::UnsignedInt
    }

    #[verifier::when_used_as_spec(code)]
    pub fn to_gl_code(self) -> (code: u32)
        ensures
            code == self.code(),
    {
        match self {
            AttributeType::Byte => codes::BYTE,
            AttributeType::UnsignedByte => codes::UNSIGNED_BYTE,
            AttributeType::Short => codes::SHORT,
            AttributeType::UnsignedShort => codes::UNSIGNED_SHORT,
            AttributeType::Int => codes::INT,
            AttributeType::UnsignedInt => codes::UNSIGNED_INT,
            AttributeType::Float => codes::FLOAT,
            AttributeType::Double => codes::DOUBLE,
        }
    }

    pub fn size(self) -> (size: i32)
        ensures
            size == self.width(),
    {
        match self {
            AttributeType::Byte => 1,
            AttributeType::UnsignedByte => 1,
            AttributeType::Short => 2,
            AttributeType::UnsignedShort => 2,
            AttributeType::Int => 4,
            AttributeType::UnsignedInt => 4,
            AttributeType::Float => 4,
            AttributeType::Double => 8,
        }
    }
}

/// No two element types share a code.
pub proof fn lemma_attribute_codes_are_distinct(a: AttributeType, b: AttributeType)
    ensures
        a.code() == b.code() <==> a == b,
{
}

/// Describes attribute `index` as vectors of `vector` components of `attribute_type`,
/// packed one after the other from the start of the bound array buffer: the stride
/// from one vertex to the next is the size of one vector.
pub fn vertex_attrib_pointer(
    vector: AttributeVector,
    attribute_type: AttributeType,
    index: u32,
    normalized: bool,
) -> (exchange: Exchange<()>)
    ensures
        exchange@ == ExchangeView::<()>::Call(
            Command::VertexAttribPointer {
                index,
                size: vector.arity() as i32,
                kind: attribute_type.code(),
                normalized,
                stride: (vector.arity() * attribute_type.width()) as i32,
            },
        ),
{
    let size: i32 = vector.len();
    let width: i32 = attribute_type.size();
    Exchange::call(
        Command::VertexAttribPointer {
            index,
            size,
            kind: attribute_type.to_gl_code(),
            normalized,
            stride: width * size,
        },
    )
}

/// Turns attribute `index` of the bound vertex array on.
pub fn enable_vertex_attrib_array(index: u32) -> (exchange: Exchange<()>)
    ensures
        exchange@ == ExchangeView::<()>::Call(Command::EnableVertexAttribArray { index }),
{
    Exchange::call(Command::EnableVertexAttribArray { index })
}

/// Turns attribute `index` of the bound vertex array off.
pub fn disable_vertex_attrib_array(index: u32) -> (exchange: Exchange<()>)
    ensures
        exchange@ == ExchangeView::<()>::Call(Command::DisableVertexAttribArray { index }),
{
    Exchange::call(Command::DisableVertexAttribArray { index })
}

/// Turns attribute `index` of `vao` on.
pub fn enable_vertex_array_attrib(vao: &VertexArrayObject, index: u32) -> (exchange: Exchange<()>)
    ensures
        exchange@ == ExchangeView::<()>::Call(
            Command::EnableVertexArrayAttrib { array: vao.spec_id(), index },
        ),
{
    Exchange::call(Command::EnableVertexArrayAttrib { array: vao.id(), index })
}

/// Turns attribute `index` of `vao` off.
pub fn disable_vertex_array_attrib(vao: &VertexArrayObject, index: u32) -> (exchange: Exchange<()>)
    ensures
        exchange@ == ExchangeView::<()>::Call(
            Command::DisableVertexArrayAttrib { array: vao.spec_id(), index },
        ),
{
    Exchange::call(Command::DisableVertexArrayAttrib { array: vao.id(), index })
}

} // verus!
