//! Compiling a shader and linking a program.
//!
//! Both run the same course. The driver is told to build; it is asked whether the
//! build succeeded, and the error state is read. Where the build succeeded, faults
//! read on the way end the course as they are; without any, the error state is read
//! once more and the result is success. Where the build failed, the course goes on
//! whatever the driver reports: the driver is asked for the length of the info log,
//! the error state is read, the log is fetched and the error state is read again.
//! The failure then carries two things, and neither hides the other: the text of
//! the log, or a stock text where there is no log or what the driver wrote is no
//! text, and every fault read since the build began, in the order of arrival.

use vstd::prelude::*;
use crate::codes;
use crate::command::{Action, Command, Reply, ReplyView};
use crate::error::Error;
use crate::reading::{drained, lemma_reads_all, pending_faults, Faults, Reading};
use crate::shader::{Shader, ShaderProgram};
use crate::text::{lemma_text_is_empty_only_of_nothing, read_text, text_of};

verus! {

/// Why a shader did not compile.
#[derive(Clone, PartialEq, Eq, Debug)]
pub enum CompileShaderError {
    /// The driver reported these faults, oldest first, and did not say that the
    /// compilation failed.
    Standard(Vec<Error>),
    /// The compiler rejected the source, with this text. The faults are those that
    /// the driver reported beside, oldest first.
    Compile(String, Vec<Error>),
}

/// Why a program did not link.
#[derive(Clone, PartialEq, Eq, Debug)]
pub enum LinkProgramError {
    /// The linker rejected the program, with this text. The faults are those that
    /// the driver reported beside, oldest first.
    LinkFailure(String, Vec<Error>),
    /// The driver reported these faults, oldest first, and did not say that the link
    /// failed.
    Standard(Vec<Error>),
}

/// How a build ended.
pub enum BuildResult {
    /// The object was built.
    Built,
    /// The driver reported these faults, oldest first, and no failed build.
    Faults(Seq<Error>),
    /// The build was rejected, with this text, and the driver reported these faults
    /// beside, oldest first.
    Rejected { text: Seq<char>, faults: Seq<Error> },
}

/// How a compilation ended, over sequences.
pub open spec fn compile_view(result: Result<(), CompileShaderError>) -> BuildResult {
    match result {
        Ok(_) => BuildResult::Built,
        Err(CompileShaderError::Standard(errors)) => BuildResult::Faults(errors@),
        Err(CompileShaderError::Compile(text, errors)) => BuildResult::Rejected {
            text: text@,
            faults: errors@,
        },
    }
}

/// How a link ended, over sequences.
pub open spec fn link_view(result: Result<(), LinkProgramError>) -> BuildResult {
    match result {
        Ok(_) => BuildResult::Built,
        Err(LinkProgramError::Standard(errors)) => BuildResult::Faults(errors@),
        Err(LinkProgramError::LinkFailure(text, errors)) => BuildResult::Rejected {
            text: text@,
            faults: errors@,
        },
    }
}

/// What is built.
#[derive(Copy, Clone, PartialEq, Eq, Structural, Debug)]
pub enum BuildKind {
    /// A shader is compiled.
    Compile,
    /// A program is linked.
    Link,
}

impl BuildKind {
    /// The call that builds the object `name`.
    pub open spec fn build(self, name: u32) -> Command {
        match self {
            BuildKind::Compile => Command::CompileShader { shader: name },
            BuildKind::Link => Command::LinkProgram { program: name },
        }
    }

    /// The call that asks whether the build of `name` succeeded.
    pub open spec fn status(self, name: u32) -> Command {
        match self {
            BuildKind::Compile => Command::GetShaderiv {
                shader: name,
                pname: codes::COMPILE_STATUS,
            },
            BuildKind::Link => Command::GetProgramiv { program: name, pname: codes::LINK_STATUS },
        }
    }

    /// The call that asks for the length of the info log of `name`.
    pub open spec fn length(self, name: u32) -> Command {
        match self {
            BuildKind::Compile => Command::GetShaderiv {
                shader: name,
                pname: codes::INFO_LOG_LENGTH,
            },
            BuildKind::Link => Command::GetProgramiv {
                program: name,
                pname: codes::INFO_LOG_LENGTH,
            },
        }
    }

    /// The call that fetches the info log of `name` into `capacity` bytes.
    pub open spec fn log(self, name: u32, capacity: i32) -> Command {
        match self {
            BuildKind::Compile => Command::GetShaderInfoLog { shader: name, capacity },
            BuildKind::Link => Command::GetProgramInfoLog { program: name, capacity },
        }
    }

    /// The text that stands in for a log that cannot be had.
    pub open spec fn stock_text(self) -> Seq<char> {
        match self {
            BuildKind::Compile => "Failed to retrieve info log."@,
            BuildKind::Link => "rgl: Failed to get program info log."@,
        }
    }

    fn build_command(self, name: u32) -> (command: Command)
        ensures
            command == self.build(name),
    {
        match self {
            BuildKind::Compile => Command::CompileShader { shader: name },
            BuildKind::Link => Command::LinkProgram { program: name },
        }
    }

    fn status_command(self, name: u32) -> (command: Command)
        ensures
            command == self.status(name),
    {
        match self {
            BuildKind::Compile => Command::GetShaderiv {
                shader: name,
                pname: codes::COMPILE_STATUS,
            },
            BuildKind::Link => Command::GetProgramiv { program: name, pname: codes::LINK_STATUS },
        }
    }

    fn length_command(self, name: u32) -> (command: Command)
        ensures
            command == self.length(name),
    {
        match self {
            BuildKind::Compile => Command::GetShaderiv {
                shader: name,
                pname: codes::INFO_LOG_LENGTH,
            },
            BuildKind::Link => Command::GetProgramiv {
                program: name,
                pname: codes::INFO_LOG_LENGTH,
            },
        }
    }

    fn log_command(self, name: u32, capacity: i32) -> (command: Command)
        ensures
            command == self.log(name, capacity),
    {
        match self {
            BuildKind::Compile => Command::GetShaderInfoLog { shader: name, capacity },
            BuildKind::Link => Command::GetProgramInfoLog { program: name, capacity },
        }
    }

    fn stock(self) -> (text: String)
        ensures
            text@ == self.stock_text(),
    {
        match self {
            BuildKind::Compile => "Failed to retrieve info log.".to_owned(),
            BuildKind::Link => "rgl: Failed to get program info log.".to_owned(),
        }
    }
}

/// Where a build stands.
pub enum Stage {
    /// The driver has yet to be told to build.
    Build,
    /// The driver has yet to be asked for the status.
    Status,
    /// The status was `status`; `errors` were read since the build began.
    StatusCheck { status: i32, errors: Seq<Error> },
    /// The build succeeded; `errors` were read since.
    Confirm { errors: Seq<Error> },
    /// The build failed, with `faults` read so far; the driver has yet to be asked
    /// for the length of the log.
    Length { faults: Seq<Error> },
    /// The log has `length` bytes; `errors` were read since the build began.
    LengthCheck { length: i32, errors: Seq<Error> },
    /// The log has yet to be fetched, into `capacity` bytes; `faults` were read so
    /// far.
    Log { capacity: i32, faults: Seq<Error> },
    /// The build is rejected with `text`; `errors` were read since the build began.
    LogCheck { text: Seq<char>, errors: Seq<Error> },
    /// The build is over.
    Done(BuildResult),
}

/// The state of a build.
pub struct BuildView {
    pub kind: BuildKind,
    pub name: u32,
    pub stage: Stage,
}

impl BuildView {
    /// The build of `name` before anything was asked of the driver.
    pub open spec fn start(kind: BuildKind, name: u32) -> BuildView {
        BuildView { kind, name, stage: Stage::Build }
    }

    /// This build at another stage.
    pub open spec fn at(self, stage: Stage) -> BuildView {
        BuildView { kind: self.kind, name: self.name, stage }
    }

    /// The text of a rejection whose log the driver wrote as `log`: the log where
    /// it is text, else the stock text.
    pub open spec fn text_from(self, log: Seq<u8>) -> Seq<char> {
        match text_of(log) {
            Some(text) => text,
            None => self.kind.stock_text(),
        }
    }

    /// What the build needs next.
    pub open spec fn action(self) -> Action {
        match self.stage {
            Stage::Build => Action::Call(self.kind.build(self.name)),
            Stage::Status => Action::Call(self.kind.status(self.name)),
            Stage::Length { .. } => Action::Call(self.kind.length(self.name)),
            Stage::Log { capacity, .. } => Action::Call(self.kind.log(self.name, capacity)),
            Stage::StatusCheck { .. } => Action::Poll,
            Stage::Confirm { .. } => Action::Poll,
            Stage::LengthCheck { .. } => Action::Poll,
            Stage::LogCheck { .. } => Action::Poll,
            Stage::Done(_) => Action::Done,
        }
    }

    /// The state after the awaited call returned `reply`. A reply of another shape
    /// than the call gives, or one that no call awaits, leaves the state as it is.
    pub open spec fn returned(self, reply: ReplyView) -> BuildView {
        match (self.stage, reply) {
            (Stage::Build, ReplyView::Nothing) => self.at(Stage::Status),
            (Stage::Status, ReplyView::Value(status)) => self.at(
                Stage::StatusCheck { status, errors: Seq::empty() },
            ),
            (Stage::Length { faults }, ReplyView::Value(length)) => self.at(
                Stage::LengthCheck { length, errors: faults },
            ),
            (Stage::Log { faults, .. }, ReplyView::Log(log)) => self.at(
                Stage::LogCheck { text: self.text_from(log), errors: faults },
            ),
            _ => self,
        }
    }
}

impl Reading for BuildView {
    open spec fn reading(self) -> Option<Seq<Error>> {
        match self.stage {
            Stage::StatusCheck { errors, .. } => Some(errors),
            Stage::Confirm { errors } => Some(errors),
            Stage::LengthCheck { errors, .. } => Some(errors),
            Stage::LogCheck { errors, .. } => Some(errors),
            _ => None,
        }
    }

    open spec fn holding(self, errors: Seq<Error>) -> BuildView {
        match self.stage {
            Stage::StatusCheck { status, .. } => self.at(Stage::StatusCheck { status, errors }),
            Stage::Confirm { .. } => self.at(Stage::Confirm { errors }),
            Stage::LengthCheck { length, .. } => self.at(Stage::LengthCheck { length, errors }),
            Stage::LogCheck { text, .. } => self.at(Stage::LogCheck { text, errors }),
            _ => self,
        }
    }

    /// Where the reading leads. A status of zero is a failed build, which goes on to
    /// its log with the faults read; any other status is a success, unless faults
    /// were read. A log without length is not fetched. The reading after the log
    /// ends the build.
    open spec fn settled(self) -> BuildView {
        match self.stage {
            Stage::StatusCheck { status, errors } => if status == 0 {
                self.at(Stage::Length { faults: errors })
            } else if errors.len() > 0 {
                self.at(Stage::Done(BuildResult::Faults(errors)))
            } else {
                self.at(Stage::Confirm { errors: Seq::empty() })
            },
            Stage::Confirm { errors } => if errors.len() > 0 {
                self.at(Stage::Done(BuildResult::Faults(errors)))
            } else {
                self.at(Stage::Done(BuildResult::Built))
            },
            Stage::LengthCheck { length, errors } => if length > 0 {
                self.at(Stage::Log { capacity: length, faults: errors })
            } else {
                self.at(
                    Stage::Done(
                        BuildResult::Rejected { text: self.kind.stock_text(), faults: errors },
                    ),
                )
            },
            Stage::LogCheck { text, errors } => self.at(
                Stage::Done(BuildResult::Rejected { text, faults: errors }),
            ),
            _ => self,
        }
    }

    open spec fn polled(self, error: Error) -> BuildView {
        match self.reading() {
            None => self,
            Some(errors) => if error == Error::NoError {
                self.settled()
            } else {
                self.holding(errors.push(error))
            },
        }
    }

    proof fn lemma_polled(self, error: Error) {
    }

    proof fn lemma_holding(self, errors: Seq<Error>, more: Seq<Error>) {
    }
}

/// The compilation of a shader or the linking of a program in progress.
pub struct Build {
    kind: BuildKind,
    name: u32,
    state: State,
}

enum State {
    Build,
    Status,
    StatusCheck { status: i32, errors: Faults },
    Confirm { errors: Faults },
    Length { faults: Faults },
    LengthCheck { length: i32, errors: Faults },
    Log { capacity: i32, faults: Faults },
    LogCheck { text: String, errors: Faults },
    Done(Outcome),
}

enum Outcome {
    Built,
    Faults(Vec<Error>),
    Rejected(String, Vec<Error>),
}

impl View for Build {
    type V = BuildView;

    closed spec fn view(&self) -> BuildView {
        BuildView {
            kind: self.kind,
            name: self.name,
            stage: match self.state {
                State::Build => Stage::Build,
                State::Status => Stage::Status,
                State::StatusCheck { status, errors } => Stage::StatusCheck {
                    status,
                    errors: errors@,
                },
                State::Confirm { errors } => Stage::Confirm { errors: errors@ },
                State::Length { faults } => Stage::Length { faults: faults@ },
                State::LengthCheck { length, errors } => Stage::LengthCheck {
                    length,
                    errors: errors@,
                },
                State::Log { capacity, faults } => Stage::Log { capacity, faults: faults@ },
                State::LogCheck { text, errors } => Stage::LogCheck {
                    text: text@,
                    errors: errors@,
                },
                State::Done(Outcome::Built) => Stage::Done(BuildResult::Built),
                State::Done(Outcome::Faults(errors)) => Stage::Done(BuildResult::Faults(errors@)),
                State::Done(Outcome::Rejected(text, errors)) => Stage::Done(
                    BuildResult::Rejected { text: text@, faults: errors@ },
                ),
            },
        }
    }
}

impl Build {
    /// `NoError` is no fault, and a build that ended in faults alone holds at least
    /// one.
    #[verifier::type_invariant]
    spec fn ended_on_faults(self) -> bool {
        match self.state {
            State::Done(Outcome::Faults(errors)) => errors@.len() > 0 && pending_faults(errors@),
            State::Done(Outcome::Rejected(_, errors)) => pending_faults(errors@),
            _ => true,
        }
    }

    fn start(kind: BuildKind, name: u32) -> (build: Build)
        ensures
            build@ == BuildView::start(kind, name),
    {
        Build { kind, name, state: State::Build }
    }

    /// What the build needs next.
    pub fn action(&self) -> (action: Action)
        ensures
            action == self@.action(),
    {
        match &self.state {
            State::Build => Action::Call(self.kind.build_command(self.name)),
            State::Status => Action::Call(self.kind.status_command(self.name)),
            State::Length { .. } => Action::Call(self.kind.length_command(self.name)),
            State::Log { capacity, .. } => Action::Call(
                self.kind.log_command(self.name, *capacity),
            ),
            State::StatusCheck { .. } => Action::Poll,
            State::Confirm { .. } => Action::Poll,
            State::LengthCheck { .. } => Action::Poll,
            State::LogCheck { .. } => Action::Poll,
            State::Done(_) => Action::Done,
        }
    }

    /// Takes what the awaited call returned.
    pub fn returned(self, reply: Reply) -> (build: Build)
        ensures
            build@ == self@.returned(reply@),
    {
        proof {
            use_type_invariant(&self);
        }
        let kind = self.kind;
        let name: u32 = self.name;
        let state = match (self.state, reply) {
            (State::Build, Reply::Nothing) => State::Status,
            (State::Status, Reply::Value(status)) => State::StatusCheck {
                status,
                errors: Faults::new(),
            },
            (State::Length { faults }, Reply::Value(length)) => State::LengthCheck {
                length,
                errors: faults,
            },
            (State::Log { faults, .. }, Reply::Log(log)) => {
                let text = match read_text(log) {
                    Some(text) => text,
                    None => kind.stock(),
                };
                State::LogCheck { text, errors: faults }
            },
            (state, _) => state,
        };
        Build { kind, name, state }
    }

    /// Takes what a poll of the error state read.
    pub fn polled(self, error: Error) -> (build: Build)
        ensures
            build@ == self@.polled(error),
    {
        proof {
            use_type_invariant(&self);
        }
        let kind = self.kind;
        let name: u32 = self.name;
        let state = if error != Error::NoError {
            match self.state {
                State::StatusCheck { status, errors } => State::StatusCheck {
                    status,
                    errors: errors.with(error),
                },
                State::Confirm { errors } => State::Confirm { errors: errors.with(error) },
                State::LengthCheck { length, errors } => State::LengthCheck {
                    length,
                    errors: errors.with(error),
                },
                State::LogCheck { text, errors } => State::LogCheck {
                    text,
                    errors: errors.with(error),
                },
                state => state,
            }
        } else {
            match self.state {
                State::StatusCheck { status, errors } => {
                    if status == 0 {
                        State::Length { faults: errors }
                    } else if !errors.is_empty() {
                        State::Done(Outcome::Faults(errors.into_errors()))
                    } else {
                        State::Confirm { errors: Faults::new() }
                    }
                },
                State::Confirm { errors } => {
                    if !errors.is_empty() {
                        State::Done(Outcome::Faults(errors.into_errors()))
                    } else {
                        State::Done(Outcome::Built)
                    }
                },
                State::LengthCheck { length, errors } => {
                    if length > 0 {
                        State::Log { capacity: length, faults: errors }
                    } else {
                        State::Done(Outcome::Rejected(kind.stock(), errors.into_errors()))
                    }
                },
                State::LogCheck { text, errors } => State::Done(
                    Outcome::Rejected(text, errors.into_errors()),
                ),
                state => state,
            }
        };
        Build { kind, name, state }
    }

    /// The result of a compilation that is over. Faults alone are at least one;
    /// `NoError` is never among the faults.
    pub fn compiled(self) -> (result: Result<(), CompileShaderError>)
        requires
            self@.kind == BuildKind::Compile,
            self@.stage is Done,
        ensures
            compile_view(result) == self@.stage->Done_0,
            result matches Err(CompileShaderError::Standard(errors)) ==> errors@.len() > 0
                && pending_faults(errors@),
            result matches Err(CompileShaderError::Compile(_, errors)) ==> pending_faults(
                errors@,
            ),
    {
        proof {
            use_type_invariant(&self);
        }
        match self.state {
            State::Done(Outcome::Built) => Ok(()),
            State::Done(Outcome::Faults(errors)) => Err(CompileShaderError::Standard(errors)),
            State::Done(Outcome::Rejected(text, errors)) => Err(
                CompileShaderError::Compile(text, errors),
            ),
            _ => unreached(),
        }
    }

    /// The result of a link that is over. Faults alone are at least one; `NoError`
    /// is never among the faults.
    pub fn linked(self) -> (result: Result<(), LinkProgramError>)
        requires
            self@.kind == BuildKind::Link,
            self@.stage is Done,
        ensures
            link_view(result) == self@.stage->Done_0,
            result matches Err(LinkProgramError::Standard(errors)) ==> errors@.len() > 0
                && pending_faults(errors@),
            result matches Err(LinkProgramError::LinkFailure(_, errors)) ==> pending_faults(
                errors@,
            ),
    {
        proof {
            use_type_invariant(&self);
        }
        match self.state {
            State::Done(Outcome::Built) => Ok(()),
            State::Done(Outcome::Faults(errors)) => Err(LinkProgramError::Standard(errors)),
            State::Done(Outcome::Rejected(text, errors)) => Err(
                LinkProgramError::LinkFailure(text, errors),
            ),
            _ => unreached(),
        }
    }
}

/// Compiles `shader`. The shader is only borrowed: whatever the outcome, it stays a
/// shader of the driver.
pub fn compile_shader(shader: &Shader) -> (build: Build)
    ensures
        build@ == BuildView::start(BuildKind::Compile, shader.spec_id()),
{
    Build::start(BuildKind::Compile, shader.id())
}

/// Links `program`. The program is only borrowed: whatever the outcome, it stays a
/// program of the driver.
pub fn link_program(program: &ShaderProgram) -> (build: Build)
    ensures
        build@ == BuildView::start(BuildKind::Link, program.spec_id()),
{
    Build::start(BuildKind::Link, program.id())
}

/// What the driver answers in the course of a build: the status and the length of
/// the info log that it returns, the log that it writes, and the faults that are
/// pending each time the error state is read.
pub struct Answers {
    pub status: i32,
    pub status_faults: Seq<Error>,
    pub confirm_faults: Seq<Error>,
    pub length: i32,
    pub length_faults: Seq<Error>,
    pub log: Seq<u8>,
    pub log_faults: Seq<Error>,
}

impl Answers {
    /// Whether each queue of pending faults holds faults only.
    pub open spec fn well_formed(self) -> bool {
        &&& pending_faults(self.status_faults)
        &&& pending_faults(self.confirm_faults)
        &&& pending_faults(self.length_faults)
        &&& pending_faults(self.log_faults)
    }

    /// How a build of the given kind ends on these answers.
    pub open spec fn verdict(self, kind: BuildKind) -> BuildResult {
        if self.status != 0 {
            if self.status_faults.len() > 0 {
                BuildResult::Faults(self.status_faults)
            } else if self.confirm_faults.len() > 0 {
                BuildResult::Faults(self.confirm_faults)
            } else {
                BuildResult::Built
            }
        } else if self.length <= 0 {
            BuildResult::Rejected {
                text: kind.stock_text(),
                faults: self.status_faults + self.length_faults,
            }
        } else {
            BuildResult::Rejected {
                text: match text_of(self.log) {
                    Some(text) => text,
                    None => kind.stock_text(),
                },
                faults: self.status_faults + self.length_faults + self.log_faults,
            }
        }
    }
}

impl BuildView {
    /// The build after the driver gave `answers`, each to the call or the reading of
    /// the error state that it belongs to. An answer that the build does not come
    /// to ask for changes nothing.
    pub open spec fn answered(self, answers: Answers) -> BuildView {
        let told = self.returned(ReplyView::Nothing);
        let asked = told.returned(ReplyView::Value(answers.status));
        let status = drained(asked, answers.status_faults).0;
        let confirm = drained(status, answers.confirm_faults).0;
        let measured = confirm.returned(ReplyView::Value(answers.length));
        let length = drained(measured, answers.length_faults).0;
        let fetched = length.returned(ReplyView::Log(answers.log));
        drained(fetched, answers.log_faults).0
    }
}

/// The course of a build. Whatever the driver answers, the build ends, and it ends
/// as `Answers::verdict` says. A status other than zero is a success, unless the
/// driver reported faults, which are then the result. A status of zero is a
/// rejection, whatever the driver reported: it carries the log where the driver
/// wrote one as text and the stock text otherwise, and with it every fault that was
/// pending at any reading of the build, in the order of the readings. Each reading
/// leaves nothing pending.
pub proof fn lemma_build_verdict(kind: BuildKind, name: u32, answers: Answers)
    requires
        answers.well_formed(),
    ensures
        BuildView::start(kind, name).answered(answers).stage == Stage::Done(answers.verdict(kind)),
{
    let start = BuildView::start(kind, name);
    let told = start.returned(ReplyView::Nothing);
    let asked = told.returned(ReplyView::Value(answers.status));
    lemma_reads_all(asked, answers.status_faults);
    assert(Seq::<Error>::empty() + answers.status_faults =~= answers.status_faults);
    let status = drained(asked, answers.status_faults).0;
    if status.reading() is Some {
        lemma_reads_all(status, answers.confirm_faults);
        assert(Seq::<Error>::empty() + answers.confirm_faults =~= answers.confirm_faults);
    }
    let confirm = drained(status, answers.confirm_faults).0;
    let measured = confirm.returned(ReplyView::Value(answers.length));
    if measured.reading() is Some {
        lemma_reads_all(measured, answers.length_faults);
    }
    let length = drained(measured, answers.length_faults).0;
    let fetched = length.returned(ReplyView::Log(answers.log));
    if fetched.reading() is Some {
        lemma_reads_all(fetched, answers.log_faults);
    }
}

/// Source that the compiler accepts, with nothing pending at the driver, compiles:
/// the result is success. Source that it rejects, with a log that is text, yields
/// the log, and the text is empty only if the log is; the faults that the driver
/// reported on the way come with it.
pub proof fn lemma_compile_round_trip(name: u32, answers: Answers)
    requires
        answers.well_formed(),
    ensures
        answers.status != 0 && answers.status_faults.len() == 0 && answers.confirm_faults.len()
            == 0 ==> BuildView::start(BuildKind::Compile, name).answered(answers).stage
            == Stage::Done(BuildResult::Built),
        answers.status == 0 && answers.length > 0 && text_of(answers.log) is Some ==> {
            &&& BuildView::start(BuildKind::Compile, name).answered(answers).stage == Stage::Done(
                BuildResult::Rejected {
                    text: text_of(answers.log)->0,
                    faults: answers.status_faults + answers.length_faults + answers.log_faults,
                },
            )
            &&& (answers.log.len() > 0 ==> text_of(answers.log)->0.len() > 0)
        },
{
    lemma_build_verdict(BuildKind::Compile, name, answers);
    lemma_text_is_empty_only_of_nothing(answers.log);
}

} // verus!
