//! A typed layer over a stateful graphics driver.
//!
//! The driver works on untyped names and codes, keeps what is bound in state of
//! its own, and reports faults only when its error state is polled. This library
//! decides what is asked of the driver and what its answers mean; it performs no
//! call itself. An operation is a value that names the next thing the driver has
//! to do (`Action`), takes what came back, and ends in a typed result:
//!
//! - a `Command` stands for a call that is followed by no check;
//! - an `Exchange` makes one call and reads the error state;
//! - a `Generation` generates objects, and deletes them again where it fails;
//! - an `InfoLog` fetches a log, a `Build` compiles a shader or links a program.
//!
//! Whoever holds the driver performs each `Action::Call`, polls the error state on
//! each `Action::Poll`, and hands back what the driver gave.
//!
//! What can go wrong is of three sorts. A `CallerError` is a mistake in the
//! arguments, found before the driver is asked anything. A list of `Error`s is what
//! the driver reported, in the order in which it was read. The text of a compiler
//! or linker comes with `CompileShaderError` and `LinkProgramError`, together with
//! whatever the driver reported beside it.

pub mod attributes;
pub mod bindings;
pub mod buffer;
pub mod clear;
pub mod codes;
pub mod command;
pub mod compile;
pub mod draw;
pub mod error;
pub mod exchange;
pub mod generation;
pub mod handle;
pub mod info_log;
pub mod primitive;
pub mod reading;
pub mod shader;
pub mod text;
pub mod uniform;

pub use crate::bindings::Bindings;
pub use crate::attributes::{
    disable_vertex_array_attrib, disable_vertex_attrib_array, enable_vertex_array_attrib,
    enable_vertex_attrib_array, vertex_attrib_pointer, AttributeType, AttributeVector,
};
pub use crate::buffer::{
    bind_buffer, bind_vertex_array, gen_buffers, gen_vertex_arrays, named_buffer_data,
    BufferKind, BufferObject, BufferUsage, VertexArrayObject,
};
pub use crate::clear::{clear, clear_color, BufferType};
pub use crate::command::{Action, CallerError, Command, Reply};
pub use crate::compile::{
    compile_shader, link_program, Build, CompileShaderError, LinkProgramError,
};
pub use crate::draw::{draw_arrays, draw_elements, ElementIndexType};
pub use crate::error::{get_error, get_error_unchecked, make_rgl_result, Error, RGLResult};
pub use crate::exchange::{get_errors_unchecked, get_rgl_result, Exchange};
pub use crate::generation::{Generated, Generation};
pub use crate::info_log::{get_program_info_log, get_shader_info_log, InfoLog, InfoLogError};
pub use crate::shader::{
    attach_shader, create_program, create_shader, get_program_iv, get_shader_iv, shader_source,
    use_program, Shader, ShaderObjectParameter, ShaderProgram, ShaderProgramObjectParameter,
    ShaderType,
};
pub use crate::uniform::{
    get_uniform_location, uniform1f, uniform1fv, uniform1i, uniform1iv, uniform1ui, uniform1uiv,
    uniform2f, uniform2fv, uniform2i, uniform2iv, uniform2ui, uniform2uiv, uniform3f, uniform3fv,
    uniform3i, uniform3iv, uniform3ui, uniform3uiv, uniform4f, uniform4fv, uniform4i, uniform4iv,
    uniform4ui, uniform4uiv, uniform_matrix2fv, uniform_matrix2x3fv, uniform_matrix2x4fv,
    uniform_matrix3fv, uniform_matrix3x2fv, uniform_matrix3x4fv, uniform_matrix4fv,
    uniform_matrix4x2fv, uniform_matrix4x3fv, UniformLocation,
};
