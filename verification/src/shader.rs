//! Shaders and programs: creation, source upload, compilation, attachment, linking
//! and use.
//!
//! A shader that fails to compile, and a program that fails to link, stay what they
//! were: objects of the driver that can be queried and released. The failure is a
//! value, the diagnostic text of the driver's compiler or linker.

use vstd::prelude::*;
use vstd::string::StringSliceAdditionalSpecFns;
use crate::codes;
use crate::command::{CallerError, Command};
use crate::exchange::{planned, Exchange, ExchangeView};
use crate::handle::released;
use crate::text::{contains_nul, has_nul};

verus! {

/// The stage of the pipeline that a shader runs in.
#[derive(Copy, Clone, PartialEq, Eq, Structural, Debug)]
pub enum ShaderType {
    VertexShaderType,
    FragmentShaderType,
}

impl ShaderType {
    /// The code by which the driver knows the stage.
    pub open spec fn code(self) -> u32 {
        match self {
            ShaderType::VertexShaderType => codes::VERTEX_SHADER,
            ShaderType::FragmentShaderType => codes::FRAGMENT_SHADER,
        }
    }

    #[verifier::when_used_as_spec(code)]
    pub fn to_gl_code(self) -> (code: u32)
        ensures
            code == self.code(),
    {
        match self {
            ShaderType::VertexShaderType => codes::VERTEX_SHADER,
            ShaderType::FragmentShaderType => codes::FRAGMENT_SHADER,
        }
    }
}

/// What can be asked about a shader.
#[derive(Copy, Clone, PartialEq, Eq, Structural, Debug)]
pub enum ShaderObjectParameter {
    ShaderType,
    DeleteStatus,
    CompileStatus,
    InfoLogLength,
    ShaderSourceLength,
}

impl ShaderObjectParameter {
    /// The code by which the driver knows the parameter.
    pub open spec fn code(self) -> u32 {
        match self {
            ShaderObjectParameter::ShaderType => codes::SHADER_TYPE,
            ShaderObjectParameter::DeleteStatus => codes::DELETE_STATUS,
            ShaderObjectParameter::CompileStatus => codes::COMPILE_STATUS,
            ShaderObjectParameter::InfoLogLength => codes::INFO_LOG_LENGTH,
            ShaderObjectParameter::ShaderSourceLength => codes::SHADER_SOURCE_LENGTH,
        }
    }

    #[verifier::when_used_as_spec(code)]
    pub fn to_gl_code(self) -> (code: u32)
        ensures
            code == self.code(),
    {
        match self {
            ShaderObjectParameter::ShaderType => codes::SHADER_TYPE,
            ShaderObjectParameter::DeleteStatus => codes::DELETE_STATUS,
            ShaderObjectParameter::CompileStatus => codes::COMPILE_STATUS,
            ShaderObjectParameter::InfoLogLength => codes::INFO_LOG_LENGTH,
            ShaderObjectParameter::ShaderSourceLength => codes::SHADER_SOURCE_LENGTH,
        }
    }
}

/// What can be asked about a program.
#[derive(Copy, Clone, PartialEq, Eq, Structural, Debug)]
pub enum ShaderProgramObjectParameter {
    DeleteStatus,
    LinkStatus,
    ValidateStatus,
    InfoLogLength,
    AttachedShaders,
    ActiveAttributes,
    ActiveAttributeMaxLength,
    ActiveUniforms,
    ActiveUniformMaxLength,
}

impl ShaderProgramObjectParameter {
    /// The code by which the driver knows the parameter.
    pub open spec fn code(self) -> u32 {
        match self {
            ShaderProgramObjectParameter::DeleteStatus => codes::DELETE_STATUS,
            ShaderProgramObjectParameter::LinkStatus => codes::LINK_STATUS,
            ShaderProgramObjectParameter::ValidateStatus => codes::VALIDATE_STATUS,
            ShaderProgramObjectParameter::InfoLogLength => codes::INFO_LOG_LENGTH,
            ShaderProgramObjectParameter::AttachedShaders => codes::ATTACHED_SHADERS,
            ShaderProgramObjectParameter::ActiveAttributes => codes::ACTIVE_ATTRIBUTES,
            ShaderProgramObjectParameter::ActiveAttributeMaxLength => {
                codes::ACTIVE_ATTRIBUTE_MAX_LENGTH
            },
            ShaderProgramObjectParameter::ActiveUniforms => codes::ACTIVE_UNIFORMS,
            ShaderProgramObjectParameter::ActiveUniformMaxLength => {
                codes::ACTIVE_UNIFORM_MAX_LENGTH
            },
        }
    }

    #[verifier::when_used_as_spec(code)]
    pub fn to_gl_code(self) -> (code: u32)
        ensures
            code == self.code(),
    {
        match self {
            ShaderProgramObjectParameter::DeleteStatus => codes::DELETE_STATUS,
            ShaderProgramObjectParameter::LinkStatus => codes::LINK_STATUS,
            ShaderProgramObjectParameter::ValidateStatus => codes::VALIDATE_STATUS,
            ShaderProgramObjectParameter::InfoLogLength => codes::INFO_LOG_LENGTH,
            ShaderProgramObjectParameter::AttachedShaders => codes::ATTACHED_SHADERS,
            ShaderProgramObjectParameter::ActiveAttributes => codes::ACTIVE_ATTRIBUTES,
            ShaderProgramObjectParameter::ActiveAttributeMaxLength => {
                codes::ACTIVE_ATTRIBUTE_MAX_LENGTH
            },
            ShaderProgramObjectParameter::ActiveUniforms => codes::ACTIVE_UNIFORMS,
            ShaderProgramObjectParameter::ActiveUniformMaxLength => {
                codes::ACTIVE_UNIFORM_MAX_LENGTH
            },
        }
    }
}

/// A shader of the driver. The value owns the driver's object: it is not copied,
/// and `release` gives the deletion that ends it.
#[derive(Debug)]
pub struct Shader {
    shader_id: u32,
    shader_type: ShaderType,
}

impl Shader {
    /// The driver's name of the shader; zero names none.
    pub closed spec fn spec_id(&self) -> u32 {
        self.shader_id
    }

    /// The stage of the shader.
    pub closed spec fn spec_shader_type(&self) -> ShaderType {
        self.shader_type
    }

    /// The shader that the driver created under `shader_id` for `create_shader`.
    pub fn new(shader_id: u32, shader_type: ShaderType) -> (shader: Shader)
        ensures
            shader.spec_id() == shader_id,
            shader.spec_shader_type() == shader_type,
    {
        Shader { shader_id, shader_type }
    }

    #[verifier::when_used_as_spec(spec_id)]
    pub fn id(&self) -> (id: u32)
        ensures
            id == self.spec_id(),
    {
        self.shader_id
    }

    #[verifier::when_used_as_spec(spec_shader_type)]
    pub fn shader_type(&self) -> (shader_type: ShaderType)
        ensures
            shader_type == self.spec_shader_type(),
    {
        self.shader_type
    }

    /// Gives up the driver's object. A shader that names one yields its deletion,
    /// once, and names none from then on; one that names none yields nothing and
    /// stays as it is.
    pub fn release(&mut self) -> (deletion: Option<Command>)
        ensures
            (final(self).spec_id(), deletion) == released(
                old(self).spec_id(),
                |name: u32| Command::DeleteShader { shader: name },
            ),
            final(self).spec_shader_type() == old(self).spec_shader_type(),
            old(self).spec_id() == 0 ==> *final(self) == *old(self),
    {
        if self.shader_id == 0 {
            None
        } else {
            let shader: u32 = self.shader_id;
            self.shader_id = 0;
            Some(Command::DeleteShader { shader })
        }
    }
}

/// A program of the driver. The value owns the driver's object: it is not copied,
/// and `release` gives the deletion that ends it.
#[derive(Debug)]
pub struct ShaderProgram {
    program_id: u32,
}

impl ShaderProgram {
    /// The driver's name of the program; zero names none.
    pub closed spec fn spec_id(&self) -> u32 {
        self.program_id
    }

    /// The program that the driver created under `program_id` for `create_program`.
    pub fn new(program_id: u32) -> (program: ShaderProgram)
        ensures
            program.spec_id() == program_id,
    {
        ShaderProgram { program_id }
    }

    #[verifier::when_used_as_spec(spec_id)]
    pub fn id(&self) -> (id: u32)
        ensures
            id == self.spec_id(),
    {
        self.program_id
    }

    /// Gives up the driver's object. A program that names one yields its deletion,
    /// once, and names none from then on; one that names none yields nothing and
    /// stays as it is.
    pub fn release(&mut self) -> (deletion: Option<Command>)
        ensures
            (final(self).spec_id(), deletion) == released(
                old(self).spec_id(),
                |name: u32| Command::DeleteProgram { program: name },
            ),
            old(self).spec_id() == 0 ==> *final(self) == *old(self),
    {
        if self.program_id == 0 {
            None
        } else {
            let program: u32 = self.program_id;
            self.program_id = 0;
            Some(Command::DeleteProgram { program })
        }
    }
}

/// The call that creates a shader of the given stage. It cannot fail and is followed
/// by no check; `Shader::new` makes the shader of the name that the driver returns.
pub fn create_shader(shader_type: ShaderType) -> (command: Command)
    ensures
        command == (Command::CreateShader { kind: shader_type.code() }),
{
    Command::CreateShader { kind: shader_type.to_gl_code() }
}

/// The call that creates a program. It cannot fail and is followed by no check;
/// `ShaderProgram::new` makes the program of the name that the driver returns.
pub fn create_program() -> (command: Command)
    ensures
        command == Command::CreateProgram,
{
    Command::CreateProgram
}

/// Uploads `source` as the whole source of `shader`. Text with a zero byte cannot be
/// handed to the driver and is refused; any other text is uploaded as it is, and
/// whether it is a valid program shows only when it is compiled.
pub fn shader_source(shader: &Shader, source: &str) -> (result: Result<Exchange<()>, CallerError>)
    ensures
        planned(result) == if has_nul(source.spec_bytes()) {
            Err::<ExchangeView<()>, CallerError>(CallerError::InteriorNul)
        } else {
            Ok(ExchangeView::Call(Command::ShaderSource { shader: shader.spec_id() }))
        },
{
    if contains_nul(source.as_bytes()) {
        Err(CallerError::InteriorNul)
    } else {
        Ok(Exchange::call(Command::ShaderSource { shader: shader.id() }))
    }
}

/// Queries a parameter of `shader`. The exchange takes the value that the driver
/// returns.
pub fn get_shader_iv(shader: &Shader, pname: ShaderObjectParameter) -> (exchange: Exchange<i32>)
    ensures
        exchange@ == ExchangeView::<i32>::Call(
            Command::GetShaderiv { shader: shader.spec_id(), pname: pname.code() },
        ),
{
    Exchange::call(Command::GetShaderiv { shader: shader.id(), pname: pname.to_gl_code() })
}

/// Queries a parameter of `program`. The exchange takes the value that the driver
/// returns.
pub fn get_program_iv(program: &ShaderProgram, pname: ShaderProgramObjectParameter) -> (exchange:
    Exchange<i32>)
    ensures
        exchange@ == ExchangeView::<i32>::Call(
            Command::GetProgramiv { program: program.spec_id(), pname: pname.code() },
        ),
{
    Exchange::call(Command::GetProgramiv { program: program.id(), pname: pname.to_gl_code() })
}

/// Attaches `shader` to `program`. Whether the shader compiled is not looked at: the
/// driver shows a shader that did not at link time.
pub fn attach_shader(program: &ShaderProgram, shader: &Shader) -> (exchange: Exchange<()>)
    ensures
        exchange@ == ExchangeView::<()>::Call(
            Command::AttachShader { program: program.spec_id(), shader: shader.spec_id() },
        ),
{
    Exchange::call(Command::AttachShader { program: program.id(), shader: shader.id() })
}

/// Makes `program` the current one. Whether the program linked is not looked at: the
/// driver reports an invalid operation for one that did not.
pub fn use_program(program: &ShaderProgram) -> (exchange: Exchange<()>)
    ensures
        exchange@ == ExchangeView::<()>::Call(Command::UseProgram { program: program.spec_id() }),
{
    Exchange::call(Command::UseProgram { program: program.id() })
}

} // verus!
