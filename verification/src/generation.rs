//! Generating objects: vertex arrays and buffers.
//!
//! The driver is asked for a number of names, it writes them, and the error state
//! is read. Where the driver reported nothing, the names become the handles that
//! the caller owns from then on. Where it reported faults, no handle comes to be,
//! and no object is left behind either: before the generation ends, it asks for the
//! deletion of every object that the driver named, each once. Zero names no object
//! and is not deleted.

use vstd::prelude::*;
use crate::buffer::{array_names, buffer_names, BufferKind, BufferObject, VertexArrayObject};
use crate::command::{Action, CallerError, Command, Reply, ReplyView};
use crate::error::{outcome, Error, RGLResult};
use crate::reading::{drained, lemma_reads_all, pending_faults, Faults, Reading};

verus! {

/// What is generated.
#[derive(Copy, Clone, PartialEq, Eq, Structural, Debug)]
pub enum Generated {
    /// Vertex arrays.
    VertexArrays,
    /// Buffers of this kind.
    Buffers(BufferKind),
}

impl Generated {
    /// The call that generates `count` objects.
    pub open spec fn generate(self, count: i32) -> Command {
        match self {
            Generated::VertexArrays => Command::GenVertexArrays { count },
            Generated::Buffers(_) => Command::GenBuffers { count },
        }
    }

    /// The call that deletes the object `name`.
    pub open spec fn delete(self, name: u32) -> Command {
        match self {
            Generated::VertexArrays => Command::DeleteVertexArrays { array: name },
            Generated::Buffers(_) => Command::DeleteBuffers { buffer: name },
        }
    }

    fn generate_command(self, count: i32) -> (command: Command)
        ensures
            command == self.generate(count),
    {
        match self {
            Generated::VertexArrays => Command::GenVertexArrays { count },
            Generated::Buffers(_) => Command::GenBuffers { count },
        }
    }

    fn delete_command(self, name: u32) -> (command: Command)
        ensures
            command == self.delete(name),
    {
        match self {
            Generated::VertexArrays => Command::DeleteVertexArrays { array: name },
            Generated::Buffers(_) => Command::DeleteBuffers { buffer: name },
        }
    }
}

/// The names among `names` that name an object: those that are not zero, in their
/// order, each as often as it stands there.
pub open spec fn nonzero(names: Seq<u32>) -> Seq<u32>
    decreases names.len(),
{
    if names.len() == 0 {
        Seq::empty()
    } else if names.last() != 0 {
        nonzero(names.drop_last()).push(names.last())
    } else {
        nonzero(names.drop_last())
    }
}

/// Where a generation stands.
pub enum GenerationStage {
    /// The driver has yet to be asked for the names.
    Generate,
    /// The driver wrote `names`; `errors` were read since.
    Check { names: Seq<u32>, errors: Seq<Error> },
    /// The generation failed on `errors`; the objects `names` have yet to be
    /// deleted, the first of them next.
    Delete { names: Seq<u32>, errors: Seq<Error> },
    /// The generation is over: with the names, or with the faults and no object.
    Done(Result<Seq<u32>, Seq<Error>>),
}

/// The state of a generation.
pub struct GenerationView {
    pub what: Generated,
    pub count: i32,
    pub stage: GenerationStage,
}

impl GenerationView {
    /// The generation of `count` objects before anything was asked of the driver.
    pub open spec fn start(what: Generated, count: i32) -> GenerationView {
        GenerationView { what, count, stage: GenerationStage::Generate }
    }

    /// This generation at another stage.
    pub open spec fn at(self, stage: GenerationStage) -> GenerationView {
        GenerationView { what: self.what, count: self.count, stage }
    }

    /// What the generation needs next.
    pub open spec fn action(self) -> Action {
        match self.stage {
            GenerationStage::Generate => Action::Call(self.what.generate(self.count)),
            GenerationStage::Check { .. } => Action::Poll,
            GenerationStage::Delete { names, .. } => Action::Call(self.what.delete(names[0])),
            GenerationStage::Done(_) => Action::Done,
        }
    }

    /// The state after the awaited call returned `reply`. The generating call
    /// returns as many names as were asked for, and a deleting call returns
    /// nothing; any other reply leaves the state as it is.
    pub open spec fn returned(self, reply: ReplyView) -> GenerationView {
        match (self.stage, reply) {
            (GenerationStage::Generate, ReplyView::Names(names)) => if names.len() == self.count {
                self.at(GenerationStage::Check { names, errors: Seq::empty() })
            } else {
                self
            },
            (GenerationStage::Delete { names, errors }, ReplyView::Nothing) => if names.len() > 1 {
                self.at(GenerationStage::Delete { names: names.drop_first(), errors })
            } else {
                self.at(GenerationStage::Done(Err(errors)))
            },
            _ => self,
        }
    }

    /// The generation after every deletion that it asks for at this point was made,
    /// and the deletions, in their order.
    pub open spec fn deleted(self) -> (GenerationView, Seq<Command>)
        decreases
            (match self.stage {
                GenerationStage::Delete { names, .. } => names.len(),
                _ => 0,
            }),
    {
        match self.stage {
            GenerationStage::Delete { names, .. } => if names.len() > 0 {
                let (end, calls) = self.returned(ReplyView::Nothing).deleted();
                (end, seq![self.what.delete(names[0])] + calls)
            } else {
                (self, Seq::empty())
            },
            _ => (self, Seq::empty()),
        }
    }
}

impl Reading for GenerationView {
    open spec fn reading(self) -> Option<Seq<Error>> {
        match self.stage {
            GenerationStage::Check { errors, .. } => Some(errors),
            _ => None,
        }
    }

    open spec fn holding(self, errors: Seq<Error>) -> GenerationView {
        match self.stage {
            GenerationStage::Check { names, .. } => self.at(
                GenerationStage::Check { names, errors },
            ),
            _ => self,
        }
    }

    /// Where the reading leads: to the names where no fault was read; else to the
    /// deletion of every object named, or straight to the end where none is.
    open spec fn settled(self) -> GenerationView {
        match self.stage {
            GenerationStage::Check { names, errors } => if errors.len() == 0 {
                self.at(GenerationStage::Done(Ok(names)))
            } else if nonzero(names).len() > 0 {
                self.at(GenerationStage::Delete { names: nonzero(names), errors })
            } else {
                self.at(GenerationStage::Done(Err(errors)))
            },
            _ => self,
        }
    }

    open spec fn polled(self, error: Error) -> GenerationView {
        match self.stage {
            GenerationStage::Check { names, errors } => if error == Error::NoError {
                self.settled()
            } else {
                self.at(GenerationStage::Check { names, errors: errors.push(error) })
            },
            _ => self,
        }
    }

    proof fn lemma_polled(self, error: Error) {
    }

    proof fn lemma_holding(self, errors: Seq<Error>, more: Seq<Error>) {
    }
}

/// The generation that a caller asked for, or the mistake that kept it from being
/// made: a count below one, on which nothing is asked of the driver.
pub open spec fn generation(what: Generated, num: i32) -> Result<GenerationView, CallerError> {
    if num < 1 {
        Err(CallerError::InvalidCount { count: num })
    } else {
        Ok(GenerationView::start(what, num))
    }
}

/// A generation in progress.
pub struct Generation {
    what: Generated,
    count: i32,
    state: State,
}

enum State {
    Generate,
    Check { names: Vec<u32>, errors: Faults },
    Delete { doomed: Vec<u32>, next: usize, errors: Vec<Error> },
    Done(RGLResult<Vec<u32>>),
}

impl View for Generation {
    type V = GenerationView;

    closed spec fn view(&self) -> GenerationView {
        GenerationView {
            what: self.what,
            count: self.count,
            stage: match self.state {
                State::Generate => GenerationStage::Generate,
                State::Check { names, errors } => GenerationStage::Check {
                    names: names@,
                    errors: errors@,
                },
                State::Delete { doomed, next, errors } => GenerationStage::Delete {
                    names: doomed@.subrange(next as int, doomed@.len() as int),
                    errors: errors@,
                },
                State::Done(Ok(names)) => GenerationStage::Done(Ok(names@)),
                State::Done(Err(errors)) => GenerationStage::Done(Err(errors@)),
            },
        }
    }
}

/// A generation that a caller asked for, with the generation as its state.
pub open spec fn planned_generation(result: Result<Generation, CallerError>) -> Result<
    GenerationView,
    CallerError,
> {
    match result {
        Ok(generation) => Ok(generation@),
        Err(error) => Err(error),
    }
}

/// The names among `names` that name an object.
fn named(names: &Vec<u32>) -> (objects: Vec<u32>)
    ensures
        objects@ == nonzero(names@),
{
    let mut objects: Vec<u32> = Vec::new();
    let mut i: usize = 0;
    while i < names.len()
        invariant
            i <= names@.len(),
            objects@ == nonzero(names@.take(i as int)),
        decreases names@.len() - i,
    {
        proof {
            let taken = names@.take(i + 1);
            assert(taken.drop_last() =~= names@.take(i as int));
            assert(taken.last() == names@[i as int]);
        }
        if names[i] != 0 {
            objects.push(names[i]);
        }
        i += 1;
    }
    assert(names@.take(names@.len() as int) =~= names@);
    objects
}

impl Generation {
    /// At least one object is asked for, and the names held are as many. A
    /// generation that failed holds at least one fault, and `NoError` is none.
    #[verifier::type_invariant]
    spec fn well_formed(self) -> bool {
        &&& self.count >= 1
        &&& match self.state {
            State::Generate => true,
            State::Check { names, .. } => names@.len() == self.count,
            State::Delete { doomed, next, errors } => next < doomed@.len() && errors@.len() > 0
                && pending_faults(errors@),
            State::Done(Ok(names)) => names@.len() == self.count,
            State::Done(Err(errors)) => errors@.len() > 0 && pending_faults(errors@),
        }
    }

    /// The generation of `num` objects, if that is at least one.
    pub fn start(what: Generated, num: i32) -> (result: Result<Generation, CallerError>)
        ensures
            planned_generation(result) == generation(what, num),
    {
        if num < 1 {
            Err(CallerError::InvalidCount { count: num })
        } else {
            Ok(Generation { what, count: num, state: State::Generate })
        }
    }

    /// What the generation needs next.
    pub fn action(&self) -> (action: Action)
        ensures
            action == self@.action(),
    {
        proof {
            use_type_invariant(self);
        }
        match &self.state {
            State::Generate => Action::Call(self.what.generate_command(self.count)),
            State::Check { .. } => Action::Poll,
            State::Delete { doomed, next, .. } => Action::Call(
                self.what.delete_command(doomed[*next]),
            ),
            State::Done(_) => Action::Done,
        }
    }

    /// Takes what the awaited call returned.
    pub fn returned(self, reply: Reply) -> (generation: Generation)
        ensures
            generation@ == self@.returned(reply@),
    {
        proof {
            use_type_invariant(&self);
        }
        let what = self.what;
        let count: i32 = self.count;
        let state = match self.state {
            State::Generate => match reply {
                Reply::Names(names) => {
                    if names.len() == count as usize {
                        State::Check { names, errors: Faults::new() }
                    } else {
                        State::Generate
                    }
                },
                _ => State::Generate,
            },
            State::Delete { doomed, next, errors } => match reply {
                Reply::Nothing => {
                    if next < doomed.len() - 1 {
                        assert(doomed@.subrange(next + 1, doomed@.len() as int)
                            =~= doomed@.subrange(next as int, doomed@.len() as int).drop_first());
                        State::Delete { doomed, next: next + 1, errors }
                    } else {
                        State::Done(Err(errors))
                    }
                },
                _ => State::Delete { doomed, next, errors },
            },
            state => state,
        };
        Generation { what, count, state }
    }

    /// Takes what a poll of the error state read.
    pub fn polled(self, error: Error) -> (generation: Generation)
        ensures
            generation@ == self@.polled(error),
    {
        proof {
            use_type_invariant(&self);
        }
        let what = self.what;
        let count: i32 = self.count;
        let state = match self.state {
            State::Check { names, errors } => {
                if error != Error::NoError {
                    State::Check { names, errors: errors.with(error) }
                } else if errors.is_empty() {
                    State::Done(Ok(names))
                } else {
                    let doomed = named(&names);
                    if doomed.len() > 0 {
                        assert(doomed@.subrange(0, doomed@.len() as int) =~= doomed@);
                        State::Delete { doomed, next: 0, errors: errors.into_errors() }
                    } else {
                        State::Done(Err(errors.into_errors()))
                    }
                }
            },
            state => state,
        };
        Generation { what, count, state }
    }

    /// The vertex arrays of a generation that is over: one for each name that the
    /// driver wrote, in their order and as many as were asked for; or the faults, at
    /// least one, and no vertex array.
    pub fn arrays(self) -> (result: RGLResult<Vec<VertexArrayObject>>)
        requires
            self@.what == Generated::VertexArrays,
            self@.stage is Done,
        ensures
            match result {
                Ok(arrays) => self@.stage->Done_0 == Ok::<Seq<u32>, Seq<Error>>(
                    array_names(arrays@),
                ) && arrays@.len() == self@.count,
                Err(errors) => self@.stage->Done_0 == Err::<Seq<u32>, Seq<Error>>(errors@)
                    && errors@.len() > 0 && pending_faults(errors@),
            },
    {
        proof {
            use_type_invariant(&self);
        }
        match self.state {
            State::Done(Ok(names)) => {
                let ghost given = names@;
                let arrays = VertexArrayObject::from_names(names);
                assert(array_names(arrays@) =~= given);
                Ok(arrays)
            },
            State::Done(Err(errors)) => Err(errors),
            _ => unreached(),
        }
    }

    /// The buffers of a generation that is over: one for each name that the driver
    /// wrote, in their order and as many as were asked for, each of the kind that was
    /// asked for; or the faults, at least one, and no buffer.
    pub fn buffers(self) -> (result: RGLResult<Vec<BufferObject>>)
        requires
            self@.what is Buffers,
            self@.stage is Done,
        ensures
            match result {
                Ok(buffers) => {
                    &&& self@.stage->Done_0 == Ok::<Seq<u32>, Seq<Error>>(buffer_names(buffers@))
                    &&& buffers@.len() == self@.count
                    &&& forall|i: int|
                        0 <= i < buffers@.len() ==> (#[trigger] buffers@[i]).spec_kind()
                            == self@.what->Buffers_0
                },
                Err(errors) => self@.stage->Done_0 == Err::<Seq<u32>, Seq<Error>>(errors@)
                    && errors@.len() > 0 && pending_faults(errors@),
            },
    {
        proof {
            use_type_invariant(&self);
        }
        match (self.what, self.state) {
            (Generated::Buffers(kind), State::Done(Ok(names))) => {
                let ghost given = names@;
                let buffers = BufferObject::from_names(kind, names);
                assert(buffer_names(buffers@) =~= given);
                Ok(buffers)
            },
            (_, State::Done(Err(errors))) => Err(errors),
            _ => unreached(),
        }
    }
}

/// None of the names that name an object is zero, and names without a zero all name
/// one.
pub proof fn lemma_nonzero(names: Seq<u32>)
    ensures
        forall|i: int| 0 <= i < nonzero(names).len() ==> nonzero(names)[i] != 0,
        nonzero(names).len() <= names.len(),
        (forall|i: int| 0 <= i < names.len() ==> names[i] != 0) ==> nonzero(names) == names,
    decreases names.len(),
{
    if names.len() > 0 {
        lemma_nonzero(names.drop_last());
        if forall|i: int| 0 <= i < names.len() ==> names[i] != 0 {
            assert(forall|i: int|
                0 <= i < names.drop_last().len() ==> names.drop_last()[i] == names[i]);
            assert(names.drop_last().push(names.last()) =~= names);
        }
    } else {
        assert(nonzero(names) =~= names);
    }
}

/// A generation that deletes what it generated asks for the deletion of each object
/// that is left, in order, each once, and then ends in the faults.
pub proof fn lemma_deletes_each(what: Generated, count: i32, names: Seq<u32>, errors: Seq<Error>)
    requires
        names.len() > 0,
    ensures
        (GenerationView { what, count, stage: GenerationStage::Delete { names, errors } }).deleted()
            == (
            GenerationView { what, count, stage: GenerationStage::Done(Err(errors)) },
            names.map_values(|name: u32| what.delete(name)),
        ),
    decreases names.len(),
{
    let deleting = GenerationView { what, count, stage: GenerationStage::Delete { names, errors } };
    let next = deleting.returned(ReplyView::Nothing);
    let calls = names.map_values(|name: u32| what.delete(name));
    assert(deleting.deleted() == (
        next.deleted().0,
        seq![what.delete(names[0])] + next.deleted().1,
    ));
    if names.len() > 1 {
        let rest = names.drop_first();
        lemma_deletes_each(what, count, rest, errors);
        assert(seq![what.delete(names[0])] + rest.map_values(|name: u32| what.delete(name))
            =~= calls);
    } else {
        assert(next.deleted() == (next, Seq::<Command>::empty()));
        assert(seq![what.delete(names[0])] + Seq::<Command>::empty() =~= calls);
    }
}

/// The course of a generation. The driver is asked for `count` names. Where nothing
/// is pending once it wrote them, the generation ends in the names and asks for no
/// deletion. Where faults are pending, it reads them all, asks for the deletion of
/// every object that the driver named, in order and each once, and ends in the
/// faults: no handle comes to be and no object is left.
pub proof fn lemma_generation_verdict(
    what: Generated,
    count: i32,
    names: Seq<u32>,
    queue: Seq<Error>,
)
    requires
        names.len() == count,
        pending_faults(queue),
    ensures
        ({
            let start = GenerationView::start(what, count);
            let (read, left) = drained(start.returned(ReplyView::Names(names)), queue);
            let (end, deletions) = read.deleted();
            &&& start.action() == Action::Call(what.generate(count))
            &&& left.len() == 0
            &&& end.stage == GenerationStage::Done(outcome(names, queue))
            &&& deletions == if queue.len() == 0 {
                Seq::<Command>::empty()
            } else {
                nonzero(names).map_values(|name: u32| what.delete(name))
            }
        }),
{
    let start = GenerationView::start(what, count);
    let written = start.returned(ReplyView::Names(names));
    lemma_reads_all(written, queue);
    assert(Seq::<Error>::empty() + queue =~= queue);
    if queue.len() > 0 {
        if nonzero(names).len() > 0 {
            lemma_deletes_each(what, count, nonzero(names), queue);
        } else {
            assert(nonzero(names).map_values(|name: u32| what.delete(name))
                =~= Seq::<Command>::empty());
        }
    }
}

} // verus!
