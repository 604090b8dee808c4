use rgl::attributes::AttributeType;
use rgl::bindings::Bindings;
use rgl::buffer::{
    bind_buffer, bind_vertex_array, gen_buffers, gen_vertex_arrays, named_buffer_data,
    BufferKind, BufferObject, BufferType, BufferUsage, VertexArrayObject,
};
use rgl::command::{Action, CallerError, Command, Reply};
use rgl::compile::{compile_shader, link_program, Build, CompileShaderError, LinkProgramError};
use rgl::generation::Generation;
use rgl::error::{get_error_unchecked, make_rgl_result, Error, RGLResult};
use rgl::exchange::{get_errors_unchecked, get_rgl_result, Exchange};
use rgl::info_log::{get_program_info_log, get_shader_info_log, InfoLog, InfoLogError};
use rgl::shader::{
    attach_shader, create_program, create_shader, get_program_iv, get_shader_iv, shader_source,
    use_program, Shader, ShaderObjectParameter, ShaderProgram, ShaderProgramObjectParameter,
    ShaderType,
};
use rgl::uniform::{get_uniform_location, uniform4fv, UniformLocation};
use std::collections::VecDeque;

struct ShaderState {
    name: u32,
    source: String,
    compiled: bool,
    log: String,
}

struct ProgramState {
    name: u32,
    attached: Vec<u32>,
    linked: bool,
    log: String,
    uniforms: Vec<String>,
}

/// A driver that keeps a record of every call, a queue of pending faults, and
/// as much state as the scenarios need.
struct Driver {
    calls: Vec<Command>,
    polls: usize,
    pending: VecDeque<u32>,
    next_name: u32,
    bindings: Option<Bindings>,
    shaders: Vec<ShaderState>,
    programs: Vec<ProgramState>,
    faults: Vec<(Command, Vec<u32>)>,
}

impl Driver {
    fn new() -> Driver {
        Driver {
            calls: vec![],
            polls: 0,
            pending: VecDeque::new(),
            next_name: 1,
            bindings: Some(Bindings::new()),
            shaders: vec![],
            programs: vec![],
            faults: vec![],
        }
    }

    fn bindings(&self) -> &Bindings {
        self.bindings.as_ref().unwrap()
    }

    fn fresh(&mut self) -> u32 {
        let name = self.next_name;
        self.next_name += 1;
        name
    }

    fn poll(&mut self) -> u32 {
        self.polls += 1;
        self.pending.pop_front().unwrap_or(gl::NO_ERROR)
    }

    fn fail(&mut self, command: Command, codes: &[u32]) {
        self.faults.push((command, codes.to_vec()));
    }

    fn execute(&mut self, command: Command, payload: &[u8]) -> Reply {
        self.calls.push(command);
        if let Some(at) = self.faults.iter().position(|(failing, _)| *failing == command) {
            let (_, codes) = self.faults.remove(at);
            self.pending.extend(codes);
            return match command {
                Command::GetShaderiv { .. } | Command::GetProgramiv { .. } => Reply::Value(0),
                Command::GetUniformLocation { .. } => Reply::Value(-1),
                Command::GetShaderInfoLog { .. } | Command::GetProgramInfoLog { .. } => {
                    Reply::Log(vec![])
                }
                Command::GenBuffers { count } | Command::GenVertexArrays { count } => {
                    Reply::Names(vec![0; count as usize])
                }
                _ => Reply::Nothing,
            };
        }
        match command {
            Command::GenBuffers { count } | Command::GenVertexArrays { count } => {
                Reply::Names((0..count).map(|_| self.fresh()).collect())
            }
            Command::BindBuffer { .. }
            | Command::BindVertexArray { .. }
            | Command::UseProgram { .. } => {
                let bindings = self.bindings.take().unwrap();
                self.bindings = Some(bindings.apply(command));
                Reply::Nothing
            }
            Command::CreateShader { .. } => {
                let name = self.fresh();
                self.shaders.push(ShaderState {
                    name,
                    source: String::new(),
                    compiled: false,
                    log: String::new(),
                });
                Reply::Name(name)
            }
            Command::CreateProgram => {
                let name = self.fresh();
                self.programs.push(ProgramState {
                    name,
                    attached: vec![],
                    linked: false,
                    log: String::new(),
                    uniforms: vec![],
                });
                Reply::Name(name)
            }
            Command::ShaderSource { shader } => {
                let state = self.shaders.iter_mut().find(|s| s.name == shader).unwrap();
                state.source = String::from_utf8(payload.to_vec()).unwrap();
                Reply::Nothing
            }
            Command::CompileShader { shader } => {
                let state = self.shaders.iter_mut().find(|s| s.name == shader).unwrap();
                let body = state.source.trim_end();
                state.compiled = body.ends_with('}') || body.ends_with(';');
                state.log = if state.compiled {
                    String::new()
                } else {
                    String::from("0:2(1): error: syntax error, unexpected end of file, expecting ';'")
                };
                Reply::Nothing
            }
            Command::GetShaderiv { shader, pname } => {
                let state = self.shaders.iter().find(|s| s.name == shader).unwrap();
                if pname == gl::COMPILE_STATUS {
                    Reply::Value(state.compiled as i32)
                } else if pname == gl::INFO_LOG_LENGTH {
                    Reply::Value(if state.log.is_empty() { 0 } else { state.log.len() as i32 + 1 })
                } else {
                    Reply::Value(0)
                }
            }
            Command::GetShaderInfoLog { shader, capacity } => {
                let state = self.shaders.iter().find(|s| s.name == shader).unwrap();
                let room = (capacity as usize).saturating_sub(1).min(state.log.len());
                Reply::Log(state.log.as_bytes()[..room].to_vec())
            }
            Command::AttachShader { program, shader } => {
                let state = self.programs.iter_mut().find(|p| p.name == program).unwrap();
                state.attached.push(shader);
                Reply::Nothing
            }
            Command::LinkProgram { program } => {
                let compiled: Vec<u32> =
                    self.shaders.iter().filter(|s| s.compiled).map(|s| s.name).collect();
                let state = self.programs.iter_mut().find(|p| p.name == program).unwrap();
                state.linked =
                    !state.attached.is_empty() && state.attached.iter().all(|s| compiled.contains(s));
                state.log = if state.linked {
                    String::new()
                } else {
                    String::from("error: linking with uncompiled/unspecialized shader")
                };
                state.uniforms = if state.linked { vec![String::from("tint")] } else { vec![] };
                Reply::Nothing
            }
            Command::GetProgramiv { program, pname } => {
                let state = self.programs.iter().find(|p| p.name == program).unwrap();
                if pname == gl::LINK_STATUS {
                    Reply::Value(state.linked as i32)
                } else if pname == gl::INFO_LOG_LENGTH {
                    Reply::Value(if state.log.is_empty() { 0 } else { state.log.len() as i32 + 1 })
                } else if pname == gl::ATTACHED_SHADERS {
                    Reply::Value(state.attached.len() as i32)
                } else {
                    Reply::Value(0)
                }
            }
            Command::GetProgramInfoLog { program, capacity } => {
                let state = self.programs.iter().find(|p| p.name == program).unwrap();
                let room = (capacity as usize).saturating_sub(1).min(state.log.len());
                Reply::Log(state.log.as_bytes()[..room].to_vec())
            }
            Command::GetUniformLocation { program } => {
                let state = self.programs.iter().find(|p| p.name == program).unwrap();
                match state.uniforms.iter().position(|u| u.as_bytes() == payload) {
                    Some(at) => Reply::Value(at as i32),
                    None => Reply::Value(-1),
                }
            }
            _ => Reply::Nothing,
        }
    }
}

/// Performs whatever an exchange asks for, and makes the exchange's value of the
/// driver's answer.
fn run<T>(
    driver: &mut Driver,
    mut exchange: Exchange<T>,
    payload: &[u8],
    value: fn(Reply) -> T,
) -> RGLResult<T> {
    loop {
        exchange = match exchange.action() {
            Action::Call(command) => exchange.returned(value(driver.execute(command, payload))),
            Action::Poll => exchange.polled(get_error_unchecked(driver.poll())),
            Action::Done => return exchange.finish(),
        }
    }
}

fn nothing(answer: Reply) {
    assert_eq!(answer, Reply::Nothing);
}

fn number(answer: Reply) -> i32 {
    match answer {
        Reply::Value(value) => value,
        other => panic!("no value: {:?}", other),
    }
}

fn location(answer: Reply) -> UniformLocation {
    UniformLocation::new(number(answer))
}

fn float_arrays() -> BufferKind {
    BufferKind::new(BufferType::ArrayBuffer, AttributeType::Float, BufferUsage::StaticDraw).unwrap()
}

fn run_generation(driver: &mut Driver, mut generation: Generation) -> Generation {
    loop {
        generation = match generation.action() {
            Action::Call(command) => generation.returned(driver.execute(command, b"")),
            Action::Poll => generation.polled(get_error_unchecked(driver.poll())),
            Action::Done => return generation,
        }
    }
}

fn generate_buffers(driver: &mut Driver, kind: BufferKind, num: i32) -> Vec<BufferObject> {
    run_generation(driver, gen_buffers(kind, num).unwrap()).buffers().unwrap()
}

fn generate_arrays(driver: &mut Driver, num: i32) -> Vec<VertexArrayObject> {
    run_generation(driver, gen_vertex_arrays(num).unwrap()).arrays().unwrap()
}

fn run_build(driver: &mut Driver, mut build: Build) -> Build {
    loop {
        build = match build.action() {
            Action::Call(command) => build.returned(driver.execute(command, b"")),
            Action::Poll => build.polled(get_error_unchecked(driver.poll())),
            Action::Done => return build,
        }
    }
}

/// Carries a build up to the point where it asks for `command`.
fn run_build_until(driver: &mut Driver, mut build: Build, command: Command) -> Build {
    loop {
        build = match build.action() {
            Action::Call(next) if next == command => return build,
            Action::Call(next) => build.returned(driver.execute(next, b"")),
            Action::Poll => build.polled(get_error_unchecked(driver.poll())),
            Action::Done => panic!("the build ended before it asked for {:?}", command),
        }
    }
}

fn run_fetch(driver: &mut Driver, mut fetch: InfoLog) -> Result<String, InfoLogError> {
    loop {
        fetch = match fetch.action() {
            Action::Call(command) => match driver.execute(command, b"") {
                Reply::Log(bytes) => fetch.returned(bytes),
                other => panic!("no log: {:?}", other),
            },
            Action::Poll => fetch.polled(get_error_unchecked(driver.poll())),
            Action::Done => return fetch.finish(),
        }
    }
}

fn new_shader(driver: &mut Driver, stage: ShaderType, source: &str) -> Shader {
    let shader = match driver.execute(create_shader(stage), b"") {
        Reply::Name(name) => Shader::new(name, stage),
        other => panic!("no name: {:?}", other),
    };
    let upload = shader_source(&shader, source).unwrap();
    assert_eq!(run(driver, upload, source.as_bytes(), nothing), Ok(()));
    shader
}

fn new_program(driver: &mut Driver) -> ShaderProgram {
    match driver.execute(create_program(), b"") {
        Reply::Name(name) => ShaderProgram::new(name),
        other => panic!("no name: {:?}", other),
    }
}

const VERTEX_SOURCE: &str = "void main() { gl_Position = vec4(0.0); }";
const FRAGMENT_SOURCE: &str = "uniform vec4 tint;\nout vec4 colour;\nvoid main() { colour = tint; }";
const BROKEN_SOURCE: &str = "uniform vec4 tint;\nout vec4 colour";

#[test]
fn a_check_with_nothing_pending_succeeds_after_one_poll() {
    let mut driver = Driver::new();
    assert_eq!(run(&mut driver, get_rgl_result(17), b"", number), Ok(17));
    assert_eq!(driver.polls, 1);
    assert!(driver.calls.is_empty());
}

#[test]
fn two_pending_errors_are_reported_in_order_and_the_next_check_succeeds() {
    let mut driver = Driver::new();
    driver.pending.push_back(gl::INVALID_ENUM);
    driver.pending.push_back(gl::INVALID_VALUE);
    assert_eq!(
        run(&mut driver, get_rgl_result(17), b"", number),
        Err(vec![Error::InvalidEnum, Error::InvalidValue])
    );
    assert_eq!(driver.polls, 3);
    assert!(driver.pending.is_empty());
    assert_eq!(run(&mut driver, get_rgl_result(18), b"", number), Ok(18));
    assert_eq!(driver.polls, 4);
}

#[test]
fn errors_of_two_calls_accumulate_until_they_are_read() {
    let mut driver = Driver::new();
    let first = Command::EnableVertexAttribArray { index: 99 };
    let second = Command::BindBuffer { target: 1, buffer: 2 };
    driver.fail(first, &[gl::INVALID_VALUE]);
    driver.fail(second, &[gl::INVALID_ENUM]);
    driver.execute(first, b"");
    driver.execute(second, b"");
    assert_eq!(
        run(&mut driver, get_rgl_result(()), b"", nothing),
        Err(vec![Error::InvalidValue, Error::InvalidEnum])
    );
    assert_eq!(run(&mut driver, get_rgl_result(()), b"", nothing), Ok(()));
}

#[test]
fn every_pending_error_is_read_whatever_their_number() {
    let all = [
        (gl::INVALID_ENUM, Error::InvalidEnum),
        (gl::INVALID_VALUE, Error::InvalidValue),
        (gl::INVALID_OPERATION, Error::InvalidOperation),
        (gl::INVALID_FRAMEBUFFER_OPERATION, Error::InvalidFramebufferOperation),
        (gl::OUT_OF_MEMORY, Error::OutOfMemory),
        (gl::STACK_UNDERFLOW, Error::StackUnderflow),
        (gl::STACK_OVERFLOW, Error::StackOverflow),
        (gl::CONTEXT_LOST, Error::ContextLost),
    ];
    for length in 0..all.len() + 1 {
        let mut driver = Driver::new();
        driver.pending.extend(all[..length].iter().map(|(code, _)| *code));
        let errors: Vec<Error> = all[..length].iter().map(|(_, error)| *error).collect();
        let mut exchange = get_errors_unchecked();
        while exchange.action() == Action::Poll {
            exchange = exchange.polled(get_error_unchecked(driver.poll()));
        }
        assert_eq!(exchange.action(), Action::Done);
        assert_eq!(exchange.errors(), errors);
        assert_eq!(driver.polls, length + 1);
        assert!(driver.pending.is_empty());
    }
}

#[test]
fn a_result_is_the_value_exactly_if_there_are_no_errors() {
    assert_eq!(make_rgl_result(5, vec![]), Ok(5));
    assert_eq!(make_rgl_result(5, vec![Error::OutOfMemory]), Err(vec![Error::OutOfMemory]));
    assert_eq!(
        make_rgl_result((), vec![Error::InvalidEnum, Error::InvalidEnum]),
        Err(vec![Error::InvalidEnum, Error::InvalidEnum])
    );
}

#[test]
fn an_exchange_takes_only_what_it_waits_for() {
    let exchange: Exchange<i32> = Exchange::call(Command::CreateProgram);
    let exchange = exchange.polled(Error::InvalidEnum);
    assert_eq!(exchange.action(), Action::Call(Command::CreateProgram));
    let exchange = exchange.returned(4).returned(5);
    assert_eq!(exchange.action(), Action::Poll);
    let exchange = exchange.polled(Error::NoError);
    assert_eq!(exchange.action(), Action::Done);
    let exchange = exchange.polled(Error::InvalidEnum).returned(6);
    assert_eq!(exchange.action(), Action::Done);
    assert_eq!(exchange.finish(), Ok(4));
}

#[test]
fn generation_with_a_count_below_one_issues_no_driver_call() {
    let mut driver = Driver::new();
    for count in [0, -1, i32::MIN] {
        match gen_buffers(float_arrays(), count) {
            Ok(generation) => {
                let _ = run_generation(&mut driver, generation);
            }
            Err(error) => assert_eq!(error, CallerError::InvalidCount { count }),
        }
        match gen_vertex_arrays(count) {
            Ok(generation) => {
                let _ = run_generation(&mut driver, generation);
            }
            Err(error) => assert_eq!(error, CallerError::InvalidCount { count }),
        }
    }
    assert!(driver.calls.is_empty());
    assert_eq!(driver.polls, 0);
}

#[test]
fn a_generation_that_fails_deletes_what_the_driver_named() {
    let mut driver = Driver::new();
    driver.pending.push_back(gl::OUT_OF_MEMORY);
    let generation = run_generation(&mut driver, gen_buffers(float_arrays(), 3).unwrap());
    assert_eq!(generation.buffers().err(), Some(vec![Error::OutOfMemory]));
    assert_eq!(
        driver.calls,
        vec![
            Command::GenBuffers { count: 3 },
            Command::DeleteBuffers { buffer: 1 },
            Command::DeleteBuffers { buffer: 2 },
            Command::DeleteBuffers { buffer: 3 },
        ]
    );
    assert!(driver.pending.is_empty());

    let mut driver = Driver::new();
    driver.pending.push_back(gl::INVALID_OPERATION);
    driver.pending.push_back(gl::INVALID_VALUE);
    let generation = run_generation(&mut driver, gen_vertex_arrays(2).unwrap());
    assert_eq!(
        generation.arrays().err(),
        Some(vec![Error::InvalidOperation, Error::InvalidValue])
    );
    assert_eq!(
        driver.calls,
        vec![
            Command::GenVertexArrays { count: 2 },
            Command::DeleteVertexArrays { array: 1 },
            Command::DeleteVertexArrays { array: 2 },
        ]
    );
}

#[test]
fn a_generation_that_fails_deletes_no_name_that_names_nothing() {
    let kind = float_arrays();
    let failed = |names: Vec<u32>| {
        let mut generation = gen_buffers(kind, names.len() as i32)
            .unwrap()
            .returned(Reply::Names(names))
            .polled(Error::ContextLost)
            .polled(Error::NoError);
        let mut deletions = vec![];
        while let Action::Call(command) = generation.action() {
            deletions.push(command);
            generation = generation.returned(Reply::Nothing);
        }
        assert_eq!(generation.action(), Action::Done);
        assert_eq!(generation.buffers().err(), Some(vec![Error::ContextLost]));
        deletions
    };
    assert_eq!(failed(vec![0, 0, 0]), vec![]);
    assert_eq!(failed(vec![0]), vec![]);
    assert_eq!(failed(vec![7]), vec![Command::DeleteBuffers { buffer: 7 }]);
    assert_eq!(
        failed(vec![0, 5, 0, 9]),
        vec![Command::DeleteBuffers { buffer: 5 }, Command::DeleteBuffers { buffer: 9 }]
    );
    assert_eq!(
        failed(vec![4, 0]),
        vec![Command::DeleteBuffers { buffer: 4 }]
    );
}

#[test]
fn a_generation_takes_as_many_names_as_it_asked_for() {
    let generation = gen_buffers(float_arrays(), 2).unwrap();
    let generation = generation
        .polled(Error::InvalidEnum)
        .returned(Reply::Nothing)
        .returned(Reply::Names(vec![1]))
        .returned(Reply::Names(vec![1, 2, 3]))
        .returned(Reply::Value(2));
    assert_eq!(generation.action(), Action::Call(Command::GenBuffers { count: 2 }));
    let generation = generation.returned(Reply::Names(vec![8, 9])).returned(Reply::Names(vec![1, 2]));
    assert_eq!(generation.action(), Action::Poll);
    let generation = generation.polled(Error::NoError).polled(Error::InvalidEnum);
    assert_eq!(generation.action(), Action::Done);
    let buffers = generation.buffers().unwrap();
    assert_eq!(buffers.iter().map(|buffer| buffer.id()).collect::<Vec<u32>>(), vec![8, 9]);
    assert!(buffers.iter().all(|buffer| buffer.kind() == float_arrays()));

    let arrays = gen_vertex_arrays(1)
        .unwrap()
        .returned(Reply::Names(vec![5]))
        .polled(Error::NoError)
        .arrays()
        .unwrap();
    assert_eq!(arrays.len(), 1);
    assert_eq!(arrays[0].id(), 5);
}

#[test]
fn three_generated_buffers_are_three_distinct_handles() {
    let mut driver = Driver::new();
    let buffers = generate_buffers(&mut driver, float_arrays(), 3);
    assert_eq!(driver.calls, vec![Command::GenBuffers { count: 3 }]);
    assert_eq!(buffers.len(), 3);
    assert!(buffers.iter().all(|buffer| buffer.id() != 0));
    assert!(buffers[0].id() != buffers[1].id());
    assert!(buffers[0].id() != buffers[2].id());
    assert!(buffers[1].id() != buffers[2].id());
    assert!(buffers.iter().all(|buffer| buffer.kind() == float_arrays()));
}

#[test]
fn a_bound_buffer_is_current_for_its_target_and_takes_an_upload() {
    let mut driver = Driver::new();
    let buffers = generate_buffers(&mut driver, float_arrays(), 3);
    let second = &buffers[1];

    let bind = bind_buffer(float_arrays(), Some(second)).unwrap();
    assert_eq!(run(&mut driver, bind, b"", nothing), Ok(()));
    assert_eq!(driver.bindings().buffer(BufferType::ArrayBuffer), second.id());
    assert_eq!(driver.bindings().buffer(BufferType::ElementArrayBuffer), 0);

    let data = [0.5f32; 12];
    let upload = named_buffer_data(second, AttributeType::Float, data.len()).unwrap();
    assert_eq!(run(&mut driver, upload, b"", nothing), Ok(()));
    assert_eq!(
        driver.calls.last(),
        Some(&Command::NamedBufferData {
            buffer: second.id(),
            size: std::mem::size_of_val(&data) as isize,
            usage: gl::STATIC_DRAW,
        })
    );
    assert_eq!(driver.bindings().buffer(BufferType::ArrayBuffer), second.id());

    let unbind = bind_buffer(float_arrays(), None).unwrap();
    assert_eq!(run(&mut driver, unbind, b"", nothing), Ok(()));
    assert_eq!(driver.bindings().buffer(BufferType::ArrayBuffer), 0);
}

#[test]
fn floats_for_an_element_array_buffer_never_reach_the_driver() {
    let driver = Driver::new();
    let kind =
        BufferKind::new(BufferType::ElementArrayBuffer, AttributeType::Float, BufferUsage::StaticDraw);
    assert_eq!(
        kind,
        Err(CallerError::NotPermitted {
            target: BufferType::ElementArrayBuffer,
            element: AttributeType::Float
        })
    );
    assert!(driver.calls.is_empty());
    assert_eq!(driver.polls, 0);
    assert!(driver.pending.is_empty());
}

#[test]
fn a_binding_holds_until_the_next_on_the_same_slot() {
    let mut driver = Driver::new();
    let generated = generate_arrays(&mut driver, 2);
    assert_eq!(driver.bindings().vertex_array(), 0);
    assert_eq!(run(&mut driver, bind_vertex_array(Some(&generated[1])), b"", nothing), Ok(()));
    assert_eq!(driver.bindings().vertex_array(), generated[1].id());
    let buffers = generate_buffers(&mut driver, float_arrays(), 1);
    let bind = bind_buffer(float_arrays(), Some(&buffers[0])).unwrap();
    assert_eq!(run(&mut driver, bind, b"", nothing), Ok(()));
    assert_eq!(driver.bindings().vertex_array(), generated[1].id());
    assert_eq!(driver.bindings().buffer(BufferType::ArrayBuffer), buffers[0].id());
    assert_eq!(run(&mut driver, bind_vertex_array(None), b"", nothing), Ok(()));
    assert_eq!(driver.bindings().vertex_array(), 0);
    assert_eq!(driver.bindings().buffer(BufferType::ArrayBuffer), buffers[0].id());
    assert_eq!(driver.bindings().program(), 0);
}

#[test]
fn the_record_of_bindings_takes_binding_calls_only() {
    let bindings = Bindings::new();
    assert_eq!(bindings.vertex_array(), 0);
    assert_eq!(bindings.program(), 0);
    assert_eq!(bindings.buffer(BufferType::UniformBuffer), 0);
    let bindings = bindings
        .apply(Command::BindBuffer { target: gl::UNIFORM_BUFFER, buffer: 6 })
        .apply(Command::BindBuffer { target: gl::ARRAY_BUFFER, buffer: 7 })
        .apply(Command::UseProgram { program: 8 })
        .apply(Command::BindVertexArray { array: 9 })
        .apply(Command::DeleteBuffers { buffer: 6 })
        .apply(Command::GenBuffers { count: 2 })
        .apply(Command::BindBuffer { target: 0x1234, buffer: 5 });
    assert_eq!(bindings.buffer(BufferType::UniformBuffer), 6);
    assert_eq!(bindings.buffer(BufferType::ArrayBuffer), 7);
    assert_eq!(bindings.buffer(BufferType::TextureBuffer), 0);
    assert_eq!(bindings.program(), 8);
    assert_eq!(bindings.vertex_array(), 9);
    let bindings = bindings.apply(Command::BindBuffer { target: gl::UNIFORM_BUFFER, buffer: 0 });
    assert_eq!(bindings.buffer(BufferType::UniformBuffer), 0);
    assert_eq!(bindings.buffer(BufferType::ArrayBuffer), 7);
}

#[test]
fn valid_source_compiles_with_an_empty_error_list() {
    let mut driver = Driver::new();
    let shader = new_shader(&mut driver, ShaderType::VertexShaderType, VERTEX_SOURCE);
    let build = run_build(&mut driver, compile_shader(&shader));
    assert_eq!(build.compiled(), Ok(()));
    assert!(driver.pending.is_empty());
    assert_eq!(
        driver.calls[2..],
        [
            Command::CompileShader { shader: shader.id() },
            Command::GetShaderiv { shader: shader.id(), pname: gl::COMPILE_STATUS },
        ]
    );
    assert_eq!(driver.polls, 3);
}

#[test]
fn source_without_its_terminator_yields_the_compilers_text() {
    let mut driver = Driver::new();
    let shader = new_shader(&mut driver, ShaderType::FragmentShaderType, BROKEN_SOURCE);
    let build = run_build(&mut driver, compile_shader(&shader));
    let text = match build.compiled() {
        Err(CompileShaderError::Compile(text, faults)) => {
            assert!(faults.is_empty());
            text
        }
        other => panic!("no diagnostic: {:?}", other),
    };
    assert!(!text.is_empty());
    assert_eq!(text, "0:2(1): error: syntax error, unexpected end of file, expecting ';'");
    assert_eq!(
        driver.calls[2..],
        [
            Command::CompileShader { shader: shader.id() },
            Command::GetShaderiv { shader: shader.id(), pname: gl::COMPILE_STATUS },
            Command::GetShaderiv { shader: shader.id(), pname: gl::INFO_LOG_LENGTH },
            Command::GetShaderInfoLog { shader: shader.id(), capacity: text.len() as i32 + 1 },
        ]
    );
}

#[test]
fn a_shader_that_failed_to_compile_stays_a_shader() {
    let mut driver = Driver::new();
    let mut shader = new_shader(&mut driver, ShaderType::FragmentShaderType, BROKEN_SOURCE);
    let name = shader.id();
    let build = run_build(&mut driver, compile_shader(&shader));
    assert!(build.compiled().is_err());
    assert_eq!(shader.id(), name);
    assert_eq!(shader.shader_type(), ShaderType::FragmentShaderType);
    let status = get_shader_iv(&shader, ShaderObjectParameter::CompileStatus);
    assert_eq!(run(&mut driver, status, b"", number), Ok(0));
    let length = get_shader_iv(&shader, ShaderObjectParameter::InfoLogLength);
    let length = run(&mut driver, length, b"", number).unwrap();
    let log = run_fetch(&mut driver, get_shader_info_log(&shader, length)).unwrap();
    assert_eq!(log.len() as i32 + 1, length);
    let fixed = shader_source(&shader, FRAGMENT_SOURCE).unwrap();
    assert_eq!(run(&mut driver, fixed, FRAGMENT_SOURCE.as_bytes(), nothing), Ok(()));
    assert_eq!(run_build(&mut driver, compile_shader(&shader)).compiled(), Ok(()));
    assert_eq!(shader.release(), Some(Command::DeleteShader { shader: name }));
}

#[test]
fn faults_beside_a_good_status_are_the_result() {
    let mut driver = Driver::new();
    let shader = new_shader(&mut driver, ShaderType::VertexShaderType, VERTEX_SOURCE);
    driver.pending.push_back(gl::INVALID_OPERATION);
    driver.pending.push_back(gl::OUT_OF_MEMORY);
    let build = run_build(&mut driver, compile_shader(&shader));
    assert_eq!(
        build.compiled(),
        Err(CompileShaderError::Standard(vec![Error::InvalidOperation, Error::OutOfMemory]))
    );
    assert_eq!(
        driver.calls[2..],
        [
            Command::CompileShader { shader: shader.id() },
            Command::GetShaderiv { shader: shader.id(), pname: gl::COMPILE_STATUS },
        ]
    );
    assert!(driver.pending.is_empty());
}

#[test]
fn a_failed_compile_carries_the_log_and_the_faults_pending_at_the_status() {
    let mut driver = Driver::new();
    let shader = new_shader(&mut driver, ShaderType::FragmentShaderType, BROKEN_SOURCE);
    driver.pending.push_back(gl::INVALID_ENUM);
    driver.pending.push_back(gl::INVALID_VALUE);
    let build = run_build(&mut driver, compile_shader(&shader));
    assert_eq!(
        build.compiled(),
        Err(CompileShaderError::Compile(
            String::from("0:2(1): error: syntax error, unexpected end of file, expecting ';'"),
            vec![Error::InvalidEnum, Error::InvalidValue],
        ))
    );
    assert_eq!(driver.calls.len(), 6);
    assert!(driver.pending.is_empty());
}

#[test]
fn a_failed_compile_carries_every_fault_of_the_build_in_order() {
    let mut driver = Driver::new();
    let shader = new_shader(&mut driver, ShaderType::FragmentShaderType, BROKEN_SOURCE);
    let name = shader.id();
    driver.pending.push_back(gl::STACK_OVERFLOW);
    driver.fail(Command::GetShaderiv { shader: name, pname: gl::COMPILE_STATUS }, &[gl::INVALID_VALUE]);
    let text = "0:2(1): error: syntax error, unexpected end of file, expecting ';'";
    let build = compile_shader(&shader);
    let build = run_build_until(&mut driver, build, Command::GetShaderiv {
        shader: name,
        pname: gl::INFO_LOG_LENGTH,
    });
    driver.pending.push_back(gl::CONTEXT_LOST);
    let build = run_build_until(&mut driver, build, Command::GetShaderInfoLog {
        shader: name,
        capacity: text.len() as i32 + 1,
    });
    driver.pending.push_back(gl::OUT_OF_MEMORY);
    let build = run_build(&mut driver, build);
    assert_eq!(
        build.compiled(),
        Err(CompileShaderError::Compile(
            String::from(text),
            vec![
                Error::StackOverflow,
                Error::InvalidValue,
                Error::ContextLost,
                Error::OutOfMemory,
            ],
        ))
    );
    assert!(driver.pending.is_empty());
}

#[test]
fn a_failed_compile_without_a_log_carries_the_stock_text_and_the_faults() {
    let mut driver = Driver::new();
    let shader = new_shader(&mut driver, ShaderType::VertexShaderType, VERTEX_SOURCE);
    driver.fail(Command::CompileShader { shader: shader.id() }, &[gl::INVALID_OPERATION]);
    driver.fail(
        Command::GetShaderiv { shader: shader.id(), pname: gl::COMPILE_STATUS },
        &[gl::INVALID_VALUE],
    );
    driver.fail(
        Command::GetShaderiv { shader: shader.id(), pname: gl::INFO_LOG_LENGTH },
        &[gl::CONTEXT_LOST],
    );
    let build = run_build(&mut driver, compile_shader(&shader));
    assert_eq!(
        build.compiled(),
        Err(CompileShaderError::Compile(
            String::from("Failed to retrieve info log."),
            vec![Error::InvalidOperation, Error::InvalidValue, Error::ContextLost],
        ))
    );
    assert_eq!(driver.calls.len(), 5);
    assert!(driver.pending.is_empty());
}

#[test]
fn a_rejection_carries_the_log_where_it_is_text_and_the_stock_text_where_not() {
    let shader = Shader::new(3, ShaderType::FragmentShaderType);
    let failed_with = |length: i32, log: Option<Vec<u8>>, fault: Error| {
        let mut build = compile_shader(&shader)
            .returned(Reply::Nothing)
            .returned(Reply::Value(0))
            .polled(Error::NoError)
            .returned(Reply::Value(length))
            .polled(Error::NoError);
        if let Some(bytes) = log {
            assert_eq!(
                build.action(),
                Action::Call(Command::GetShaderInfoLog { shader: 3, capacity: length })
            );
            build = build.returned(Reply::Log(bytes));
            assert_eq!(build.action(), Action::Poll);
            build = build.polled(fault).polled(Error::NoError);
        }
        assert_eq!(build.action(), Action::Done);
        build.compiled()
    };
    let rejected = |text: &str, faults: Vec<Error>| {
        Err(CompileShaderError::Compile(String::from(text), faults))
    };
    let stock = "Failed to retrieve info log.";
    assert_eq!(failed_with(0, None, Error::NoError), rejected(stock, vec![]));
    assert_eq!(failed_with(-4, None, Error::NoError), rejected(stock, vec![]));
    assert_eq!(failed_with(3, Some(vec![b'a', 0]), Error::NoError), rejected(stock, vec![]));
    assert_eq!(failed_with(3, Some(vec![0xFF, 0xFE]), Error::NoError), rejected(stock, vec![]));
    assert_eq!(
        failed_with(3, Some(vec![0xFF, 0xFE]), Error::InvalidValue),
        rejected(stock, vec![Error::InvalidValue])
    );
    assert_eq!(
        failed_with(3, Some(b"ab".to_vec()), Error::InvalidValue),
        rejected("ab", vec![Error::InvalidValue])
    );
    assert_eq!(failed_with(3, Some(b"ab".to_vec()), Error::NoError), rejected("ab", vec![]));
    assert_eq!(failed_with(1, Some(vec![]), Error::NoError), rejected("", vec![]));
}

#[test]
fn a_program_of_compiled_shaders_links_and_is_used() {
    let mut driver = Driver::new();
    let vertex = new_shader(&mut driver, ShaderType::VertexShaderType, VERTEX_SOURCE);
    let fragment = new_shader(&mut driver, ShaderType::FragmentShaderType, FRAGMENT_SOURCE);
    assert_eq!(run_build(&mut driver, compile_shader(&vertex)).compiled(), Ok(()));
    assert_eq!(run_build(&mut driver, compile_shader(&fragment)).compiled(), Ok(()));
    let program = new_program(&mut driver);
    assert_eq!(run(&mut driver, attach_shader(&program, &vertex), b"", nothing), Ok(()));
    assert_eq!(run(&mut driver, attach_shader(&program, &fragment), b"", nothing), Ok(()));
    let attached = get_program_iv(&program, ShaderProgramObjectParameter::AttachedShaders);
    assert_eq!(run(&mut driver, attached, b"", number), Ok(2));
    let calls = driver.calls.len();
    assert_eq!(run_build(&mut driver, link_program(&program)).linked(), Ok(()));
    assert_eq!(
        driver.calls[calls..],
        [
            Command::LinkProgram { program: program.id() },
            Command::GetProgramiv { program: program.id(), pname: gl::LINK_STATUS },
        ]
    );
    assert_eq!(run(&mut driver, use_program(&program), b"", nothing), Ok(()));
    assert_eq!(driver.bindings().program(), program.id());
}

#[test]
fn a_program_with_a_failed_shader_attaches_and_fails_to_link() {
    let mut driver = Driver::new();
    let vertex = new_shader(&mut driver, ShaderType::VertexShaderType, VERTEX_SOURCE);
    let fragment = new_shader(&mut driver, ShaderType::FragmentShaderType, BROKEN_SOURCE);
    assert_eq!(run_build(&mut driver, compile_shader(&vertex)).compiled(), Ok(()));
    assert!(run_build(&mut driver, compile_shader(&fragment)).compiled().is_err());
    let mut program = new_program(&mut driver);
    assert_eq!(run(&mut driver, attach_shader(&program, &vertex), b"", nothing), Ok(()));
    assert_eq!(run(&mut driver, attach_shader(&program, &fragment), b"", nothing), Ok(()));
    assert_eq!(
        run_build(&mut driver, link_program(&program)).linked(),
        Err(LinkProgramError::LinkFailure(
            String::from("error: linking with uncompiled/unspecialized shader"),
            vec![],
        ))
    );
    let length = get_program_iv(&program, ShaderProgramObjectParameter::InfoLogLength);
    let length = run(&mut driver, length, b"", number).unwrap();
    assert_eq!(
        run_fetch(&mut driver, get_program_info_log(&program, length)),
        Ok(String::from("error: linking with uncompiled/unspecialized shader"))
    );
    let name = program.id();
    assert_eq!(program.release(), Some(Command::DeleteProgram { program: name }));
}

#[test]
fn a_link_without_a_log_gives_the_stock_text() {
    let program = ShaderProgram::new(5);
    let build = link_program(&program)
        .returned(Reply::Nothing)
        .returned(Reply::Value(0))
        .polled(Error::NoError)
        .returned(Reply::Value(0))
        .polled(Error::NoError);
    assert_eq!(build.action(), Action::Done);
    assert_eq!(
        build.linked(),
        Err(LinkProgramError::LinkFailure(
            String::from("rgl: Failed to get program info log."),
            vec![],
        ))
    );
    let build = link_program(&program)
        .returned(Reply::Nothing)
        .returned(Reply::Value(0))
        .polled(Error::InvalidOperation)
        .polled(Error::NoError)
        .returned(Reply::Value(3))
        .polled(Error::NoError)
        .returned(Reply::Log(b"no".to_vec()))
        .polled(Error::InvalidValue)
        .polled(Error::NoError);
    assert_eq!(
        build.linked(),
        Err(LinkProgramError::LinkFailure(
            String::from("no"),
            vec![Error::InvalidOperation, Error::InvalidValue],
        ))
    );
    let build = link_program(&program)
        .returned(Reply::Nothing)
        .returned(Reply::Value(1))
        .polled(Error::NoError)
        .polled(Error::StackOverflow)
        .polled(Error::NoError);
    assert_eq!(build.linked(), Err(LinkProgramError::Standard(vec![Error::StackOverflow])));
}

#[test]
fn a_build_takes_only_the_answer_it_waits_for() {
    let shader = Shader::new(3, ShaderType::VertexShaderType);
    let build = compile_shader(&shader)
        .returned(Reply::Value(1))
        .returned(Reply::Log(vec![b'x']))
        .polled(Error::InvalidEnum);
    assert_eq!(build.action(), Action::Call(Command::CompileShader { shader: 3 }));
    let build = build.returned(Reply::Nothing).returned(Reply::Nothing).polled(Error::NoError);
    assert_eq!(
        build.action(),
        Action::Call(Command::GetShaderiv { shader: 3, pname: gl::COMPILE_STATUS })
    );
    let build = build.returned(Reply::Value(1)).returned(Reply::Value(0));
    assert_eq!(build.action(), Action::Poll);
    let build = build.polled(Error::NoError).polled(Error::NoError);
    assert_eq!(build.action(), Action::Done);
    let build = build.returned(Reply::Value(0)).polled(Error::InvalidEnum);
    assert_eq!(build.compiled(), Ok(()));
}

#[test]
fn a_log_without_length_is_not_asked_for() {
    let mut driver = Driver::new();
    let shader = Shader::new(3, ShaderType::VertexShaderType);
    let program = ShaderProgram::new(4);
    for length in [0, -1, i32::MIN] {
        assert_eq!(
            run_fetch(&mut driver, get_shader_info_log(&shader, length)),
            Err(InfoLogError::Standard(vec![Error::InvalidValue]))
        );
        assert_eq!(
            run_fetch(&mut driver, get_program_info_log(&program, length)),
            Err(InfoLogError::Standard(vec![Error::InvalidValue]))
        );
    }
    assert!(driver.calls.is_empty());
    assert_eq!(driver.polls, 0);
}

#[test]
fn a_log_is_text_or_an_invalid_log() {
    let shader = Shader::new(3, ShaderType::VertexShaderType);
    let fetch = get_shader_info_log(&shader, 64);
    assert_eq!(
        fetch.action(),
        Action::Call(Command::GetShaderInfoLog { shader: 3, capacity: 64 })
    );
    let fetch = fetch.returned("warning: pr\u{e9}cision".as_bytes().to_vec());
    assert_eq!(fetch.action(), Action::Poll);
    assert_eq!(fetch.polled(Error::NoError).finish(), Ok(String::from("warning: pr\u{e9}cision")));

    let fetch = get_shader_info_log(&shader, 64).returned(vec![b'a', 0, b'b']);
    assert_eq!(fetch.action(), Action::Done);
    assert_eq!(fetch.finish(), Err(InfoLogError::InvalidLog));

    let fetch = get_shader_info_log(&shader, 64).returned(vec![0x80]);
    assert_eq!(fetch.action(), Action::Done);
    assert_eq!(fetch.finish(), Err(InfoLogError::InvalidLog));

    let program = ShaderProgram::new(4);
    let fetch = get_program_info_log(&program, 2);
    assert_eq!(
        fetch.action(),
        Action::Call(Command::GetProgramInfoLog { program: 4, capacity: 2 })
    );
    let fetch = fetch
        .returned(b"x".to_vec())
        .polled(Error::InvalidOperation)
        .polled(Error::OutOfMemory)
        .polled(Error::NoError);
    assert_eq!(
        fetch.finish(),
        Err(InfoLogError::Standard(vec![Error::InvalidOperation, Error::OutOfMemory]))
    );
}

#[test]
fn an_unknown_uniform_resolves_to_minus_one_with_nothing_queued() {
    let mut driver = Driver::new();
    let vertex = new_shader(&mut driver, ShaderType::VertexShaderType, VERTEX_SOURCE);
    let fragment = new_shader(&mut driver, ShaderType::FragmentShaderType, FRAGMENT_SOURCE);
    assert_eq!(run_build(&mut driver, compile_shader(&vertex)).compiled(), Ok(()));
    assert_eq!(run_build(&mut driver, compile_shader(&fragment)).compiled(), Ok(()));
    let program = new_program(&mut driver);
    assert_eq!(run(&mut driver, attach_shader(&program, &vertex), b"", nothing), Ok(()));
    assert_eq!(run(&mut driver, attach_shader(&program, &fragment), b"", nothing), Ok(()));
    assert_eq!(run_build(&mut driver, link_program(&program)).linked(), Ok(()));

    let missing = get_uniform_location(&program, b"no_such_uniform").unwrap();
    let found = run(&mut driver, missing, b"no_such_uniform", location).unwrap();
    assert_eq!(found.loc(), -1);
    assert!(driver.pending.is_empty());

    let present = get_uniform_location(&program, b"tint").unwrap();
    let found = run(&mut driver, present, b"tint", location).unwrap();
    assert_eq!(found.loc(), 0);
}

#[test]
fn ten_values_for_a_four_component_uniform_upload_nothing() {
    let mut driver = Driver::new();
    let data = [1.0f32; 10];
    match uniform4fv(UniformLocation::new(0), data.len()) {
        Ok(exchange) => {
            let _ = run(&mut driver, exchange, b"", nothing);
        }
        Err(error) => {
            assert_eq!(error, CallerError::NotDivisible { length: 10, components: 4 })
        }
    }
    assert!(driver.calls.is_empty());
    let whole = uniform4fv(UniformLocation::new(0), 8).unwrap();
    assert_eq!(run(&mut driver, whole, b"", nothing), Ok(()));
    assert_eq!(driver.calls, vec![Command::Uniform4fv { location: 0, count: 2 }]);
}
