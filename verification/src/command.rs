//! What the driver can be asked to do.
//!
//! A `Command` names one entry point of the driver together with the names, codes,
//! counts and flags that go into the call. Bulk data (source text, buffer contents,
//! arrays of uniform values, index arrays) is not part of a command: whoever
//! performs the call supplies it, and the command holds the length or count that
//! the driver is told. Floating-point arguments are held as their IEEE 754 bit
//! patterns.

use vstd::prelude::*;
use crate::attributes::AttributeType;
use crate::buffer::BufferType;

verus! {

/// One call of a driver entry point.
#[allow(inconsistent_fields)]
#[derive(Copy, Clone, PartialEq, Eq, Structural, Debug)]
pub enum Command {
    /// Clears the buffers selected by `mask`.
    Clear { mask: u32 },
    /// Sets the clear colour; each channel is the bit pattern of a 32-bit float.
    ClearColor { red: u32, green: u32, blue: u32, alpha: u32 },
    /// Generates `count` vertex array names.
    GenVertexArrays { count: i32 },
    /// Deletes one vertex array.
    DeleteVertexArrays { array: u32 },
    /// Makes `array` the current vertex array; zero unbinds.
    BindVertexArray { array: u32 },
    /// Generates `count` buffer names.
    GenBuffers { count: i32 },
    /// Deletes one buffer.
    DeleteBuffers { buffer: u32 },
    /// Makes `buffer` current for `target`; zero unbinds.
    BindBuffer { target: u32, buffer: u32 },
    /// Fills `buffer` with `size` bytes of caller data under the hint `usage`.
    NamedBufferData { buffer: u32, size: isize, usage: u32 },
    /// Describes attribute `index` of the bound array buffer: `size` components of
    /// type `kind`, `stride` bytes from one vertex to the next, starting at offset
    /// zero.
    VertexAttribPointer { index: u32, size: i32, kind: u32, normalized: bool, stride: i32 },
    EnableVertexAttribArray { index: u32 },
    DisableVertexAttribArray { index: u32 },
    EnableVertexArrayAttrib { array: u32, index: u32 },
    DisableVertexArrayAttrib { array: u32, index: u32 },
    /// Draws `count` vertices from `first` on.
    DrawArrays { mode: u32, first: i32, count: i32 },
    /// Draws `count` indexed vertices, with indices of type `kind`. The indices come
    /// from caller memory where `client_indices` holds, else from the bound element
    /// array buffer, from its start.
    DrawElements { mode: u32, count: i32, kind: u32, client_indices: bool },
    /// Creates a shader of stage `kind`.
    CreateShader { kind: u32 },
    DeleteShader { shader: u32 },
    /// Replaces the source of `shader` by one caller-supplied text.
    ShaderSource { shader: u32 },
    CompileShader { shader: u32 },
    /// Queries parameter `pname` of `shader`.
    GetShaderiv { shader: u32, pname: u32 },
    /// Fetches the info log of `shader` into `capacity` bytes.
    GetShaderInfoLog { shader: u32, capacity: i32 },
    CreateProgram,
    DeleteProgram { program: u32 },
    AttachShader { program: u32, shader: u32 },
    LinkProgram { program: u32 },
    /// Queries parameter `pname` of `program`.
    GetProgramiv { program: u32, pname: u32 },
    /// Fetches the info log of `program` into `capacity` bytes.
    GetProgramInfoLog { program: u32, capacity: i32 },
    UseProgram { program: u32 },
    /// Resolves a caller-supplied uniform name in `program`.
    GetUniformLocation { program: u32 },
    Uniform1f { location: i32, v0: u32 },
    Uniform2f { location: i32, v0: u32, v1: u32 },
    Uniform3f { location: i32, v0: u32, v1: u32, v2: u32 },
    Uniform4f { location: i32, v0: u32, v1: u32, v2: u32, v3: u32 },
    Uniform1i { location: i32, v0: i32 },
    Uniform2i { location: i32, v0: i32, v1: i32 },
    Uniform3i { location: i32, v0: i32, v1: i32, v2: i32 },
    Uniform4i { location: i32, v0: i32, v1: i32, v2: i32, v3: i32 },
    Uniform1ui { location: i32, v0: u32 },
    Uniform2ui { location: i32, v0: u32, v1: u32 },
    Uniform3ui { location: i32, v0: u32, v1: u32, v2: u32 },
    Uniform4ui { location: i32, v0: u32, v1: u32, v2: u32, v3: u32 },
    /// Uploads `count` elements of caller data, each of one to four components.
    Uniform1fv { location: i32, count: i32 },
    Uniform2fv { location: i32, count: i32 },
    Uniform3fv { location: i32, count: i32 },
    Uniform4fv { location: i32, count: i32 },
    Uniform1iv { location: i32, count: i32 },
    Uniform2iv { location: i32, count: i32 },
    Uniform3iv { location: i32, count: i32 },
    Uniform4iv { location: i32, count: i32 },
    Uniform1uiv { location: i32, count: i32 },
    Uniform2uiv { location: i32, count: i32 },
    Uniform3uiv { location: i32, count: i32 },
    Uniform4uiv { location: i32, count: i32 },
    /// Uploads `count` matrices of caller data.
    UniformMatrix2fv { location: i32, count: i32, transpose: bool },
    UniformMatrix3fv { location: i32, count: i32, transpose: bool },
    UniformMatrix4fv { location: i32, count: i32, transpose: bool },
    UniformMatrix2x3fv { location: i32, count: i32, transpose: bool },
    UniformMatrix3x2fv { location: i32, count: i32, transpose: bool },
    UniformMatrix2x4fv { location: i32, count: i32, transpose: bool },
    UniformMatrix4x2fv { location: i32, count: i32, transpose: bool },
    UniformMatrix3x4fv { location: i32, count: i32, transpose: bool },
    UniformMatrix4x3fv { location: i32, count: i32, transpose: bool },
}

/// What an operation in progress needs next.
#[derive(Copy, Clone, PartialEq, Eq, Structural, Debug)]
pub enum Action {
    /// The driver is to perform this command; what it returns goes back to the
    /// operation.
    Call(Command),
    /// The driver's error state is to be polled once; the state read goes back to
    /// the operation.
    Poll,
    /// Nothing more: the operation has its result.
    Done,
}

/// What the driver returned from a call.
#[derive(Clone, PartialEq, Eq, Debug)]
pub enum Reply {
    /// The call returns nothing.
    Nothing,
    /// The name of a created object.
    Name(u32),
    /// The names of generated objects, in the order in which the driver wrote them.
    Names(Vec<u32>),
    /// The value of a query.
    Value(i32),
    /// The bytes of an info log, up to the terminating zero.
    Log(Vec<u8>),
}

/// A `Reply` with its contents as sequences.
pub enum ReplyView {
    Nothing,
    Name(u32),
    Names(Seq<u32>),
    Value(i32),
    Log(Seq<u8>),
}

impl View for Reply {
    type V = ReplyView;

    open spec fn view(&self) -> ReplyView {
        match self {
            Reply::Nothing => ReplyView::Nothing,
            Reply::Name(name) => ReplyView::Name(*name),
            Reply::Names(names) => ReplyView::Names(names@),
            Reply::Value(value) => ReplyView::Value(*value),
            Reply::Log(bytes) => ReplyView::Log(bytes@),
        }
    }
}

/// A caller's mistake, found before anything was asked of the driver.
#[allow(inconsistent_fields)]
#[derive(Copy, Clone, PartialEq, Eq, Structural, Debug)]
pub enum CallerError {
    /// Fewer than one object was asked for.
    InvalidCount { count: i32 },
    /// The bind target does not take elements of this type.
    NotPermitted { target: BufferType, element: AttributeType },
    /// The object is of another kind than the one named with it.
    KindMismatch,
    /// The data is of another element type than the buffer.
    ElementMismatch,
    /// The data is empty.
    EmptyData,
    /// The data is longer than the driver can be told.
    TooLong { length: usize },
    /// The data does not divide into whole elements.
    NotDivisible { length: usize, components: usize },
    /// The text holds a zero byte.
    InteriorNul,
}

} // verus!
