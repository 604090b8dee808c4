//! Fetching the info log of a shader or a program: the text that the driver's
//! compiler or linker left on the object.

use vstd::prelude::*;
use crate::command::{Action, Command};
use crate::error::Error;
use crate::reading::{drained, lemma_reads_all, pending_faults, Faults, Reading};
use crate::shader::{Shader, ShaderProgram};
use crate::text::{read_text, text_of};

verus! {

/// Why an info log could not be had.
#[derive(Clone, PartialEq, Eq, Debug)]
pub enum InfoLogError {
    /// What the driver wrote is no text.
    InvalidLog,
    /// The driver reported these faults, oldest first.
    Standard(Vec<Error>),
}

/// An `InfoLogError` with its fault list as a sequence.
pub enum InfoLogErrorView {
    InvalidLog,
    Standard(Seq<Error>),
}

impl View for InfoLogError {
    type V = InfoLogErrorView;

    open spec fn view(&self) -> InfoLogErrorView {
        match self {
            InfoLogError::InvalidLog => InfoLogErrorView::InvalidLog,
            InfoLogError::Standard(errors) => InfoLogErrorView::Standard(errors@),
        }
    }
}

/// The result of a fetch over sequences.
pub open spec fn log_view(result: Result<String, InfoLogError>) -> Result<
    Seq<char>,
    InfoLogErrorView,
> {
    match result {
        Ok(text) => Ok(text@),
        Err(error) => Err(error@),
    }
}

/// The state of a fetch.
pub enum InfoLogView {
    /// The log has yet to be fetched, by this command.
    Fetch(Command),
    /// The driver wrote `text`; `errors` were read since.
    Check { text: Seq<char>, errors: Seq<Error> },
    /// The fetch is over.
    Done(Result<Seq<char>, InfoLogErrorView>),
}

impl InfoLogView {
    /// The fetch of a log of `len` bytes by `command`. A log without length is not
    /// asked for: the fetch is over at once, with the fault that the driver would
    /// report for such a length.
    pub open spec fn start(command: Command, len: i32) -> InfoLogView {
        if len > 0 {
            InfoLogView::Fetch(command)
        } else {
            InfoLogView::Done(Err(InfoLogErrorView::Standard(seq![Error::InvalidValue])))
        }
    }

    /// What the fetch needs next.
    pub open spec fn action(self) -> Action {
        match self {
            InfoLogView::Fetch(command) => Action::Call(command),
            InfoLogView::Check { .. } => Action::Poll,
            InfoLogView::Done(_) => Action::Done,
        }
    }

    /// The state after the driver wrote `log`. Bytes that are no text end the fetch
    /// at once. Outside `Fetch` nothing is awaited and the state stays.
    pub open spec fn returned(self, log: Seq<u8>) -> InfoLogView {
        match self {
            InfoLogView::Fetch(_) => match text_of(log) {
                Some(text) => InfoLogView::Check { text, errors: Seq::empty() },
                None => InfoLogView::Done(Err(InfoLogErrorView::InvalidLog)),
            },
            _ => self,
        }
    }
}

impl Reading for InfoLogView {
    open spec fn reading(self) -> Option<Seq<Error>> {
        match self {
            InfoLogView::Check { errors, .. } => Some(errors),
            _ => None,
        }
    }

    open spec fn holding(self, errors: Seq<Error>) -> InfoLogView {
        match self {
            InfoLogView::Check { text, .. } => InfoLogView::Check { text, errors },
            _ => self,
        }
    }

    /// The reading ends the fetch: in the text where no fault was read, else in the
    /// faults.
    open spec fn settled(self) -> InfoLogView {
        match self {
            InfoLogView::Check { text, errors } => if errors.len() == 0 {
                InfoLogView::Done(Ok(text))
            } else {
                InfoLogView::Done(Err(InfoLogErrorView::Standard(errors)))
            },
            _ => self,
        }
    }

    open spec fn polled(self, error: Error) -> InfoLogView {
        match self {
            InfoLogView::Check { text, errors } => if error == Error::NoError {
                self.settled()
            } else {
                InfoLogView::Check { text, errors: errors.push(error) }
            },
            _ => self,
        }
    }

    proof fn lemma_polled(self, error: Error) {
    }

    proof fn lemma_holding(self, errors: Seq<Error>, more: Seq<Error>) {
    }
}

/// The fetch of an info log: one call that has the driver write the log, then the
/// reading of the error state.
pub struct InfoLog {
    state: State,
}

enum State {
    Fetch(Command),
    Check { text: String, errors: Faults },
    Done(Result<String, InfoLogError>),
}

impl View for InfoLog {
    type V = InfoLogView;

    closed spec fn view(&self) -> InfoLogView {
        match self.state {
            State::Fetch(command) => InfoLogView::Fetch(command),
            State::Check { text, errors } => InfoLogView::Check { text: text@, errors: errors@ },
            State::Done(result) => InfoLogView::Done(log_view(result)),
        }
    }
}

impl InfoLog {
    /// A fetch that failed on faults holds at least one, and `NoError` is none.
    #[verifier::type_invariant]
    spec fn failed_on_faults(self) -> bool {
        match self.state {
            State::Done(Err(InfoLogError::Standard(errors))) => errors@.len() > 0
                && pending_faults(errors@),
            _ => true,
        }
    }

    fn start(command: Command, len: i32) -> (fetch: InfoLog)
        ensures
            fetch@ == InfoLogView::start(command, len),
    {
        if len > 0 {
            InfoLog { state: State::Fetch(command) }
        } else {
            let mut errors: Vec<Error> = Vec::new();
            errors.push(Error::InvalidValue);
            assert(errors@ =~= seq![Error::InvalidValue]);
            InfoLog { state: State::Done(Err(InfoLogError::Standard(errors))) }
        }
    }

    /// What the fetch needs next.
    pub fn action(&self) -> (action: Action)
        ensures
            action == self@.action(),
    {
        match &self.state {
            State::Fetch(command) => Action::Call(*command),
            State::Check { .. } => Action::Poll,
            State::Done(_) => Action::Done,
        }
    }

    /// Takes the bytes that the driver wrote, up to the terminating zero.
    pub fn returned(self, log: Vec<u8>) -> (fetch: InfoLog)
        ensures
            fetch@ == self@.returned(log@),
    {
        proof {
            use_type_invariant(&self);
        }
        match self.state {
            State::Fetch(_) => match read_text(log) {
                Some(text) => InfoLog { state: State::Check { text, errors: Faults::new() } },
                None => InfoLog { state: State::Done(Err(InfoLogError::InvalidLog)) },
            },
            state => InfoLog { state },
        }
    }

    /// Takes what a poll of the error state read.
    pub fn polled(self, error: Error) -> (fetch: InfoLog)
        ensures
            fetch@ == self@.polled(error),
    {
        proof {
            use_type_invariant(&self);
        }
        match self.state {
            State::Check { text, errors } => {
                if error != Error::NoError {
                    InfoLog { state: State::Check { text, errors: errors.with(error) } }
                } else if errors.is_empty() {
                    InfoLog { state: State::Done(Ok(text)) }
                } else {
                    let errors = errors.into_errors();
                    InfoLog { state: State::Done(Err(InfoLogError::Standard(errors))) }
                }
            },
            state => InfoLog { state },
        }
    }

    /// The result of a fetch that is over: the log, or why there is none; where
    /// that is faults, at least one.
    pub fn finish(self) -> (result: Result<String, InfoLogError>)
        requires
            self@ is Done,
        ensures
            log_view(result) == self@->Done_0,
            result matches Err(InfoLogError::Standard(errors)) ==> errors@.len() > 0
                && pending_faults(errors@),
    {
        proof {
            use_type_invariant(&self);
        }
        match self.state {
            State::Done(result) => result,
            _ => unreached(),
        }
    }
}

/// Fetches the info log of `shader`, of which the driver said that it has `len`
/// bytes. On `len` below one nothing is asked of the driver and the fetch fails
/// with `InvalidValue`.
pub fn get_shader_info_log(shader: &Shader, len: i32) -> (fetch: InfoLog)
    ensures
        fetch@ == InfoLogView::start(
            Command::GetShaderInfoLog { shader: shader.spec_id(), capacity: len },
            len,
        ),
{
    InfoLog::start(Command::GetShaderInfoLog { shader: shader.id(), capacity: len }, len)
}

/// Fetches the info log of `program`, of which the driver said that it has `len`
/// bytes. On `len` below one nothing is asked of the driver and the fetch fails
/// with `InvalidValue`.
pub fn get_program_info_log(program: &ShaderProgram, len: i32) -> (fetch: InfoLog)
    ensures
        fetch@ == InfoLogView::start(
            Command::GetProgramInfoLog { program: program.spec_id(), capacity: len },
            len,
        ),
{
    InfoLog::start(Command::GetProgramInfoLog { program: program.id(), capacity: len }, len)
}

/// How a fetch ends: what `start(command, len)` comes to once the driver wrote `log`
/// and the error state was read with `queue` pending.
pub open spec fn fetched(len: i32, log: Seq<u8>, queue: Seq<Error>) -> Result<
    Seq<char>,
    InfoLogErrorView,
> {
    if len <= 0 {
        Err(InfoLogErrorView::Standard(seq![Error::InvalidValue]))
    } else if text_of(log) is None {
        Err(InfoLogErrorView::InvalidLog)
    } else if queue.len() > 0 {
        Err(InfoLogErrorView::Standard(queue))
    } else {
        Ok(text_of(log)->0)
    }
}

/// The course of a fetch. A length below one is refused without a call. Else the
/// log is fetched; bytes that are no text fail as an invalid log, at once; text is
/// returned where the driver reports nothing, and gives way to the faults where it
/// does, with nothing left pending.
pub proof fn lemma_fetch_verdict(command: Command, len: i32, log: Seq<u8>, queue: Seq<Error>)
    requires
        pending_faults(queue),
    ensures
        len <= 0 ==> InfoLogView::start(command, len) == InfoLogView::Done(
            fetched(len, log, queue),
        ),
        len > 0 ==> InfoLogView::start(command, len).action() == Action::Call(command),
        len > 0 ==> drained(InfoLogView::start(command, len).returned(log), queue).0
            == InfoLogView::Done(fetched(len, log, queue)),
        len > 0 && text_of(log) is Some ==> drained(
            InfoLogView::start(command, len).returned(log),
            queue,
        ).1.len() == 0,
{
    if len > 0 && text_of(log) is Some {
        lemma_reads_all(InfoLogView::start(command, len).returned(log), queue);
        assert(Seq::<Error>::empty() + queue =~= queue);
    }
}

} // verus!
