//! Draw calls.

use vstd::prelude::*;
use crate::codes;
use crate::command::{CallerError, Command};
use crate::exchange::{planned, Exchange, ExchangeView};

verus! {

/// How a run of vertices is assembled into primitives.
#[derive(Copy, Clone, PartialEq, Eq, Structural, Debug)]
pub enum Primitive {
    Points,
    LineStrip,
    LineLoop,
    Lines,
    LineStripAdjacency,
    LinesAdjacency,
    TriangleStrip,
    TriangleFan,
    Triangles,
    TriangleStripAdjacency,
    TrianglesAdjacency,
    Patches,
}

impl Primitive {
    /// The code by which the driver knows the topology.
    pub open spec fn code(self) -> u32 {
        match self {
            Primitive::Points => codes::POINTS,
            Primitive::LineStrip => codes::LINE_STRIP,
            Primitive::LineLoop => codes::LINE_LOOP,
            Primitive::Lines => codes::LINES,
            Primitive::LineStripAdjacency => codes::LINE_STRIP_ADJACENCY,
            Primitive::LinesAdjacency => codes::LINES_ADJACENCY,
            Primitive::TriangleStrip => codes::TRIANGLE_STRIP,
            Primitive::TriangleFan => codes::TRIANGLE_FAN,
            Primitive::Triangles => codes::TRIANGLES,
            Primitive::TriangleStripAdjacency => codes::TRIANGLE_STRIP_ADJACENCY,
            Primitive::TrianglesAdjacency => codes::TRIANGLES_ADJACENCY,
            Primitive::Patches => codes::PATCHES,
        }
    }

    #[verifier::when_used_as_spec(code)]
    pub fn to_gl_code(self) -> (code: u32)
        ensures
            code == self.code(),
    {
        match self {
            Primitive::Points => codes::POINTS,
            Primitive::LineStrip => codes::LINE_STRIP,
            Primitive::LineLoop => codes::LINE_LOOP,
            Primitive::Lines => codes::LINES,
            Primitive::LineStripAdjacency => codes::LINE_STRIP_ADJACENCY,
            Primitive::LinesAdjacency => codes::LINES_ADJACENCY,
            Primitive::TriangleStrip => codes::TRIANGLE_STRIP,
            Primitive::TriangleFan => codes::TRIANGLE_FAN,
            Primitive::Triangles => codes::TRIANGLES,
            Primitive::TriangleStripAdjacency => codes::TRIANGLE_STRIP_ADJACENCY,
            Primitive::TrianglesAdjacency => codes::TRIANGLES_ADJACENCY,
            Primitive::Patches => codes::PATCHES,
        }
    }
}

/// No two topologies share a code.
pub proof fn lemma_primitive_codes_are_distinct(a: Primitive, b: Primitive)
    ensures
        a.code() == b.code() <==> a == b,
{
}

/// The type of the indices of an indexed draw: an unsigned integer of 8, 16 or 32
/// bits.
#[derive(Copy, Clone, PartialEq, Eq, Structural, Debug)]
pub enum ElementIndexType {
    UnsignedByte,
    UnsignedShort,
    UnsignedInt,
}

impl ElementIndexType {
    /// The code by which the driver knows the type.
    pub open spec fn code(self) -> u32 {
        match self {
            ElementIndexType::UnsignedByte => codes::UNSIGNED_BYTE,
            ElementIndexType::UnsignedShort => codes::UNSIGNED_SHORT,
            ElementIndexType::UnsignedInt => codes::UNSIGNED_INT,
        }
    }

    #[verifier::when_used_as_spec(code)]
    pub fn to_gl_code(self) -> (code: u32)
        ensures
            code == self.code(),
    {
        match self {
            ElementIndexType::UnsignedByte => codes::UNSIGNED_BYTE,
            ElementIndexType::UnsignedShort => codes::UNSIGNED_SHORT,
            ElementIndexType::UnsignedInt => codes::UNSIGNED_INT,
        }
    }
}

/// Draws `count` vertices of the bound arrays, from vertex `first` on.
pub fn draw_arrays(mode: Primitive, first: i32, count: i32) -> (exchange: Exchange<()>)
    ensures
        exchange@ == ExchangeView::<()>::Call(
            Command::DrawArrays { mode: mode.code(), first, count },
        ),
{
    Exchange::call(Command::DrawArrays { mode: mode.to_gl_code(), first, count })
}

/// Draws `count` indexed vertices. With `indices` the draw reads that many indices of
/// caller memory, and an empty run is refused; without, it reads the bound element
/// array buffer from its start.
pub fn draw_elements(
    mode: Primitive,
    count: i32,
    index_type: ElementIndexType,
    indices: Option<usize>,
) -> (result: Result<Exchange<()>, CallerError>)
    ensures
        planned(result) == if indices == Some(0usize) {
            Err::<ExchangeView<()>, CallerError>(CallerError::EmptyData)
        } else {
            Ok(
                ExchangeView::Call(
                    Command::DrawElements {
                        mode: mode.code(),
                        count,
                        kind: index_type.code(),
                        client_indices: indices is Some,
                    },
                ),
            )
        },
{
    match indices {
        Some(length) => {
            if length == 0 {
                Err(CallerError::EmptyData)
            } else {
                Ok(
                    Exchange::call(
                        Command::DrawElements {
                            mode: mode.to_gl_code(),
                            count,
                            kind: index_type.to_gl_code(),
                            client_indices: true,
                        },
                    ),
                )
            }
        },
        None => Ok(
            Exchange::call(
                Command::DrawElements {
                    mode: mode.to_gl_code(),
                    count,
                    kind: index_type.to_gl_code(),
                    client_indices: false,
                },
            ),
        ),
    }
}

} // verus!
