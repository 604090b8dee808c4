//! The reading of the driver's error state, as every operation does it.
//!
//! The driver keeps the faults of earlier calls until they are polled, one per
//! poll, oldest first; a poll with nothing pending yields `Error::NoError`. An
//! operation that reads the error state asks for polls until one yields `NoError`
//! and keeps every fault read on the way, in the order of arrival. What it does
//! with them then is its own; how it comes by them is the same for all and is
//! stated here once.

use vstd::prelude::*;
use crate::error::Error;

verus! {

/// Whether `queue` can be what the driver holds: faults only.
pub open spec fn pending_faults(queue: Seq<Error>) -> bool {
    forall|i: int| 0 <= i < queue.len() ==> queue[i] != Error::NoError
}

/// The driver's error poll on a queue of pending faults: what it reads, and what
/// stays pending. It reads the oldest fault and drops it; with nothing pending it
/// reads `NoError`.
pub open spec fn poll(queue: Seq<Error>) -> (Error, Seq<Error>) {
    if queue.len() == 0 {
        (Error::NoError, queue)
    } else {
        (queue[0], queue.drop_first())
    }
}

/// The state of an operation, as far as the reading of the error state goes.
pub trait Reading: Sized {
    /// The faults that the operation holds, where it awaits a poll; `None` where it
    /// awaits none.
    spec fn reading(self) -> Option<Seq<Error>>;

    /// This state with `errors` as the faults held.
    spec fn holding(self, errors: Seq<Error>) -> Self;

    /// The state that follows when a poll finds nothing pending.
    spec fn settled(self) -> Self;

    /// The state after a poll read `error`.
    spec fn polled(self, error: Error) -> Self;

    /// A poll that is not awaited changes nothing. One that is awaited and reads a
    /// fault adds it to the faults held and nothing else; one that reads `NoError`
    /// ends the reading.
    proof fn lemma_polled(self, error: Error)
        ensures
            self.reading() is None ==> self.polled(error) == self,
            self.reading() is Some && error == Error::NoError ==> self.polled(error)
                == self.settled(),
            self.reading() is Some && error != Error::NoError ==> self.polled(error)
                == self.holding(self.reading()->0.push(error)),
    ;

    /// `holding` sets the faults held and keeps the rest of the state.
    proof fn lemma_holding(self, errors: Seq<Error>, more: Seq<Error>)
        requires
            self.reading() is Some,
        ensures
            self.holding(errors).reading() == Some(errors),
            self.holding(errors).holding(more) == self.holding(more),
            self.holding(self.reading()->0) == self,
    ;
}

/// The operation and the driver's queue of pending faults after every poll that
/// the operation asks for at this point was made against `queue`.
pub open spec fn drained<S: Reading>(state: S, queue: Seq<Error>) -> (S, Seq<Error>)
    decreases queue.len(),
{
    if state.reading() is None {
        (state, queue)
    } else if queue.len() == 0 {
        (state.polled(poll(queue).0), poll(queue).1)
    } else {
        drained(state.polled(poll(queue).0), poll(queue).1)
    }
}

/// An operation that reads the error state reads all that is pending, leaves the
/// driver's queue empty, and goes on with the faults that it held before and all
/// that were pending after them, in the order of arrival.
pub proof fn lemma_reads_all<S: Reading>(state: S, queue: Seq<Error>)
    requires
        state.reading() is Some,
        pending_faults(queue),
    ensures
        drained(state, queue) == (
            state.holding(state.reading()->0 + queue).settled(),
            Seq::<Error>::empty(),
        ),
    decreases queue.len(),
{
    let held = state.reading()->0;
    state.lemma_polled(poll(queue).0);
    if queue.len() == 0 {
        state.lemma_holding(held, held);
        assert(held + queue =~= held);
        assert(queue =~= Seq::<Error>::empty());
    } else {
        let rest = queue.drop_first();
        let next = state.polled(queue[0]);
        assert(queue[0] != Error::NoError);
        assert(pending_faults(rest)) by {
            assert forall|i: int| 0 <= i < rest.len() implies rest[i] != Error::NoError by {
                assert(rest[i] == queue[i + 1]);
            }
        }
        state.lemma_holding(held.push(queue[0]), held.push(queue[0]) + rest);
        lemma_reads_all(next, rest);
        assert(held.push(queue[0]) + rest =~= held + queue);
    }
}

/// The faults that an operation has read, oldest first. `NoError` is never among
/// them.
pub struct Faults {
    errors: Vec<Error>,
}

impl View for Faults {
    type V = Seq<Error>;

    closed spec fn view(&self) -> Seq<Error> {
        self.errors@
    }
}

impl Faults {
    #[verifier::type_invariant]
    spec fn holds_faults_only(self) -> bool {
        pending_faults(self.errors@)
    }

    /// No faults.
    pub fn new() -> (faults: Faults)
        ensures
            faults@ == Seq::<Error>::empty(),
    {
        Faults { errors: Vec::new() }
    }

    /// These faults and, after them, the fault `error`.
    pub fn with(self, error: Error) -> (faults: Faults)
        requires
            error != Error::NoError,
        ensures
            faults@ == self@.push(error),
    {
        proof {
            use_type_invariant(&self);
        }
        let mut errors = self.errors;
        errors.push(error);
        Faults { errors }
    }

    /// Whether there is none.
    pub fn is_empty(&self) -> (empty: bool)
        ensures
            empty == (self@.len() == 0),
    {
        self.errors.len() == 0
    }

    /// The faults as a list.
    pub fn into_errors(self) -> (errors: Vec<Error>)
        ensures
            errors@ == self@,
            pending_faults(errors@),
    {
        proof {
            use_type_invariant(&self);
        }
        self.errors
    }
}

} // verus!
