//! The seal of `Primitive`.

use vstd::prelude::*;
use crate::primitive::{
    LineLoop, LineStrip, LineStripAdjacency, Lines, LinesAdjacency, Patches, Points, TriangleFan,
    TriangleStrip, TriangleStripAdjacency, Triangles, TrianglesAdjacency,
};

verus! {

pub trait PrivPrimitive {
}

impl PrivPrimitive for Points {
}

impl PrivPrimitive for LineStrip {
}

impl PrivPrimitive for LineLoop {
}

impl PrivPrimitive for Lines {
}

impl PrivPrimitive for LineStripAdjacency {
}

impl PrivPrimitive for LinesAdjacency {
}

impl PrivPrimitive for TriangleStrip {
}

impl PrivPrimitive for TriangleFan {
}

impl PrivPrimitive for Triangles {
}

impl PrivPrimitive for TriangleStripAdjacency {
}

impl PrivPrimitive for TrianglesAdjacency {
}

impl PrivPrimitive for Patches {
}

} // verus!
