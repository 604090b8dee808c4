//! Primitive topologies as types.
//!
//! Each topology of `draw::Primitive` has a marker type here, for code that fixes
//! the topology at compile time. The set is closed: `Primitive` can be implemented
//! only for a type that has `PrivPrimitive`, and that trait cannot be named outside
//! this module.

use vstd::prelude::*;
use crate::draw;

mod private;

verus! {

pub struct Points;

pub struct LineStrip;

pub struct LineLoop;

pub struct Lines;

pub struct LineStripAdjacency;

pub struct LinesAdjacency;

pub struct TriangleStrip;

pub struct TriangleFan;

pub struct Triangles;

pub struct TriangleStripAdjacency;

pub struct TrianglesAdjacency;

pub struct Patches;

/// A topology fixed at compile time.
pub trait Primitive: private::PrivPrimitive {
    /// The topology that the type stands for.
    spec fn topology() -> draw::Primitive;

    /// The code by which the driver knows the topology.
    fn to_gl_code() -> (code: u32)
        ensures
            code == Self::topology().code(),
    ;
}

impl Primitive for Points {
    open spec fn topology() -> draw::Primitive {
        draw::Primitive::Points
    }

    fn to_gl_code() -> (code: u32) {
        draw::Primitive::Points.to_gl_code()
    }
}

impl Primitive for LineStrip {
    open spec fn topology() -> draw::Primitive {
        draw::Primitive::LineStrip
    }

    fn to_gl_code() -> (code: u32) {
        draw::Primitive::LineStrip.to_gl_code()
    }
}

impl Primitive for LineLoop {
    open spec fn topology() -> draw::Primitive {
        draw::Primitive::LineLoop
    }

    fn to_gl_code() -> (code: u32) {
        draw::Primitive::LineLoop.to_gl_code()
    }
}

impl Primitive for Lines {
    open spec fn topology() -> draw::Primitive {
        draw::Primitive::Lines
    }

    fn to_gl_code() -> (code: u32) {
        draw::Primitive::Lines.to_gl_code()
    }
}

impl Primitive for LineStripAdjacency {
    open spec fn topology() -> draw::Primitive {
        draw::Primitive::LineStripAdjacency
    }

    fn to_gl_code() -> (code: u32) {
        draw::Primitive::LineStripAdjacency.to_gl_code()
    }
}

impl Primitive for LinesAdjacency {
    open spec fn topology() -> draw::Primitive {
        draw::Primitive::LinesAdjacency
    }

    fn to_gl_code() -> (code: u32) {
        draw::Primitive::LinesAdjacency.to_gl_code()
    }
}

impl Primitive for TriangleStrip {
    open spec fn topology() -> draw::Primitive {
        draw::Primitive::TriangleStrip
    }

    fn to_gl_code() -> (code: u32) {
        draw::Primitive::TriangleStrip.to_gl_code()
    }
}

impl Primitive for TriangleFan {
    open spec fn topology() -> draw::Primitive {
        draw::Primitive::TriangleFan
    }

    fn to_gl_code() -> (code: u32) {
        draw::Primitive::TriangleFan.to_gl_code()
    }
}

impl Primitive for Triangles {
    open spec fn topology() -> draw::Primitive {
        draw::Primitive::Triangles
    }

    fn to_gl_code() -> (code: u32) {
        draw::Primitive::Triangles.to_gl_code()
    }
}

impl Primitive for TriangleStripAdjacency {
    open spec fn topology() -> draw::Primitive {
        draw::Primitive::TriangleStripAdjacency
    }

    fn to_gl_code() -> (code: u32) {
        draw::Primitive::TriangleStripAdjacency.to_gl_code()
    }
}

impl Primitive for TrianglesAdjacency {
    open spec fn topology() -> draw::Primitive {
        draw::Primitive::TrianglesAdjacency
    }

    fn to_gl_code() -> (code: u32) {
        draw::Primitive::TrianglesAdjacency.to_gl_code()
    }
}

impl Primitive for Patches {
    open spec fn topology() -> draw::Primitive {
        draw::Primitive::Patches
    }

    fn to_gl_code() -> (code: u32) {
        draw::Primitive::Patches.to_gl_code()
    }
}

} // verus!
