//! The error bridge: one call of the driver, and the reading of its error state
//! that turns the call into a result.
//!
//! An `Exchange` asks for its call, then reads the error state, and ends in the
//! call's value where no fault was read, else in all the faults read, in the order
//! in which they came.

use vstd::prelude::*;
use crate::command::{Action, CallerError, Command};
use crate::error::{make_rgl_result, outcome, result_view, Error, RGLResult};
use crate::reading::{drained, lemma_reads_all, pending_faults, Faults, Reading};

verus! {

/// The state of an exchange.
pub enum ExchangeView<T> {
    /// The call has yet to be made.
    Call(Command),
    /// The call returned `value`; `errors` were read since.
    Poll { value: T, errors: Seq<Error> },
    /// The error state was read out.
    Done(Result<T, Seq<Error>>),
}

impl<T> ExchangeView<T> {
    /// What the exchange needs next.
    pub open spec fn action(self) -> Action {
        match self {
            ExchangeView::Call(command) => Action::Call(command),
            ExchangeView::Poll { .. } => Action::Poll,
            ExchangeView::Done(_) => Action::Done,
        }
    }

    /// The state after the call returned `value`. Outside `Call` nothing is awaited
    /// and the state stays.
    pub open spec fn returned(self, value: T) -> Self {
        match self {
            ExchangeView::Call(_) => ExchangeView::Poll { value, errors: Seq::empty() },
            _ => self,
        }
    }
}

impl<T> Reading for ExchangeView<T> {
    open spec fn reading(self) -> Option<Seq<Error>> {
        match self {
            ExchangeView::Poll { errors, .. } => Some(errors),
            _ => None,
        }
    }

    open spec fn holding(self, errors: Seq<Error>) -> Self {
        match self {
            ExchangeView::Poll { value, .. } => ExchangeView::Poll { value, errors },
            _ => self,
        }
    }

    /// The reading ends the exchange: in the value where no fault was read, else in
    /// the faults.
    open spec fn settled(self) -> Self {
        match self {
            ExchangeView::Poll { value, errors } => ExchangeView::Done(outcome(value, errors)),
            _ => self,
        }
    }

    open spec fn polled(self, error: Error) -> Self {
        match self {
            ExchangeView::Poll { value, errors } => if error == Error::NoError {
                self.settled()
            } else {
                ExchangeView::Poll { value, errors: errors.push(error) }
            },
            _ => self,
        }
    }

    proof fn lemma_polled(self, error: Error) {
    }

    proof fn lemma_holding(self, errors: Seq<Error>, more: Seq<Error>) {
    }
}

/// An exchange that a caller asked for, or the mistake that kept it from being made,
/// with the exchange as its state.
pub open spec fn planned<T>(result: Result<Exchange<T>, CallerError>) -> Result<
    ExchangeView<T>,
    CallerError,
> {
    match result {
        Ok(exchange) => Ok(exchange@),
        Err(error) => Err(error),
    }
}

/// One call of the driver followed by the reading of its error state.
pub struct Exchange<T> {
    state: State<T>,
}

enum State<T> {
    Call(Command),
    Poll { value: T, errors: Faults },
    Done(RGLResult<T>),
}

impl<T> View for Exchange<T> {
    type V = ExchangeView<T>;

    closed spec fn view(&self) -> ExchangeView<T> {
        match self.state {
            State::Call(command) => ExchangeView::Call(command),
            State::Poll { value, errors } => ExchangeView::Poll { value, errors: errors@ },
            State::Done(result) => ExchangeView::Done(result_view(result)),
        }
    }
}

impl<T> Exchange<T> {
    /// An exchange that failed holds at least one fault, and `NoError` is none.
    #[verifier::type_invariant]
    spec fn failed_on_faults(self) -> bool {
        match self.state {
            State::Done(Err(errors)) => errors@.len() > 0 && pending_faults(errors@),
            _ => true,
        }
    }

    /// An exchange that makes `command` and then reads the error state.
    pub fn call(command: Command) -> (exchange: Self)
        ensures
            exchange@ == ExchangeView::<T>::Call(command),
    {
        Exchange { state: State::Call(command) }
    }

    /// An exchange that makes no call: it reads the error state and pairs `value`
    /// with what it finds.
    pub fn check(value: T) -> (exchange: Self)
        ensures
            exchange@ == (ExchangeView::Poll { value, errors: Seq::empty() }),
    {
        Exchange { state: State::Poll { value, errors: Faults::new() } }
    }

    /// What the exchange needs next.
    pub fn action(&self) -> (action: Action)
        ensures
            action == self@.action(),
    {
        match &self.state {
            State::Call(command) => Action::Call(*command),
            State::Poll { .. } => Action::Poll,
            State::Done(_) => Action::Done,
        }
    }

    /// Takes what the call returned.
    pub fn returned(self, value: T) -> (exchange: Self)
        ensures
            exchange@ == self@.returned(value),
    {
        proof {
            use_type_invariant(&self);
        }
        match self.state {
            State::Call(_) => Exchange { state: State::Poll { value, errors: Faults::new() } },
            state => Exchange { state },
        }
    }

    /// Takes what a poll of the error state read.
    pub fn polled(self, error: Error) -> (exchange: Self)
        ensures
            exchange@ == self@.polled(error),
    {
        proof {
            use_type_invariant(&self);
        }
        match self.state {
            State::Poll { value, errors } => {
                if error == Error::NoError {
                    let result = make_rgl_result(value, errors.into_errors());
                    Exchange { state: State::Done(result) }
                } else {
                    Exchange { state: State::Poll { value, errors: errors.with(error) } }
                }
            },
            state => Exchange { state },
        }
    }

    /// The result of a finished exchange: the value, or at least one fault.
    pub fn finish(self) -> (result: RGLResult<T>)
        requires
            self@ is Done,
        ensures
            result_view(result) == self@->Done_0,
            result matches Err(errors) ==> errors@.len() > 0 && pending_faults(errors@),
    {
        proof {
            use_type_invariant(&self);
        }
        match self.state {
            State::Done(result) => result,
            _ => unreached(),
        }
    }

    /// The faults that a finished exchange read, oldest first.
    pub fn errors(self) -> (errors: Vec<Error>)
        requires
            self@ is Done,
        ensures
            errors@ == match self@->Done_0 {
                Ok(_) => Seq::<Error>::empty(),
                Err(faults) => faults,
            },
            pending_faults(errors@),
    {
        match self.finish() {
            Ok(_) => Vec::new(),
            Err(errors) => errors,
        }
    }
}

/// Starts the reading of the driver's error state. The exchange asks for polls until
/// one finds nothing pending; `Exchange::errors` then gives the faults read.
pub fn get_errors_unchecked() -> (exchange: Exchange<()>)
    ensures
        exchange@ == (ExchangeView::Poll { value: (), errors: Seq::empty() }),
{
    Exchange::check(())
}

/// Starts the check that stands behind `success`: the exchange reads the driver's
/// error state and ends in `success` where nothing was pending, else in the faults.
pub fn get_rgl_result<T>(success: T) -> (exchange: Exchange<T>)
    ensures
        exchange@ == (ExchangeView::Poll { value: success, errors: Seq::empty() }),
{
    Exchange::check(success)
}

/// The course of an exchange. Once its call returned, an exchange ends, whatever is
/// pending at the driver: in the value that the call returned where nothing is, else
/// in everything pending, oldest first. Nothing stays behind for the next operation.
pub proof fn lemma_exchange_verdict<T>(command: Command, value: T, queue: Seq<Error>)
    requires
        pending_faults(queue),
    ensures
        ExchangeView::<T>::Call(command).action() == Action::Call(command),
        drained(ExchangeView::Call(command).returned(value), queue) == (
            ExchangeView::Done(outcome(value, queue)),
            Seq::<Error>::empty(),
        ),
{
    lemma_reads_all(ExchangeView::Call(command).returned(value), queue);
    assert(Seq::<Error>::empty() + queue =~= queue);
}

/// Error accumulation. Whatever faults earlier calls left pending, the next check
/// reports every one of them, oldest first, and fails exactly if there is one; the
/// check after it finds nothing and succeeds.
pub proof fn lemma_errors_accumulate<T, U>(first: T, second: U, queue: Seq<Error>)
    requires
        pending_faults(queue),
    ensures
        ({
            let check = ExchangeView::Poll { value: first, errors: Seq::empty() };
            let next = ExchangeView::Poll { value: second, errors: Seq::empty() };
            let (one, left) = drained(check, queue);
            let (two, rest) = drained(next, left);
            &&& one == ExchangeView::Done(if queue.len() == 0 { Ok(first) } else { Err(queue) })
            &&& two == ExchangeView::Done(Ok::<U, Seq<Error>>(second))
            &&& rest.len() == 0
        }),
{
    let check = ExchangeView::Poll { value: first, errors: Seq::empty() };
    let next = ExchangeView::Poll { value: second, errors: Seq::empty() };
    lemma_reads_all(check, queue);
    assert(Seq::<Error>::empty() + queue =~= queue);
    lemma_reads_all(next, Seq::empty());
    assert(Seq::<Error>::empty() + Seq::<Error>::empty() =~= Seq::<Error>::empty());
}

} // verus!
