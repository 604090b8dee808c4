//! What is bound: the one piece of state that the driver shares between calls.
//!
//! The driver has one current vertex array, one current program and, for each buffer
//! target, one current buffer. A binding call names what is current from then on,
//! until the next binding call on the same slot; the name zero leaves nothing
//! current. `Bindings` keeps that record for whoever performs the calls: it starts
//! with nothing bound, as a fresh context does, and takes each binding call that the
//! driver accepted.

use vstd::prelude::*;
use crate::buffer::BufferType;
use crate::command::Command;

verus! {

/// What is current in each slot.
pub struct BindingsView {
    pub vertex_array: u32,
    pub program: u32,
    pub buffers: Map<BufferType, u32>,
}

impl BindingsView {
    /// The slots of a fresh context: nothing is bound.
    pub open spec fn initial() -> BindingsView {
        BindingsView {
            vertex_array: 0,
            program: 0,
            buffers: Map::new(|target: BufferType| true, |target: BufferType| 0u32),
        }
    }

    /// The slots after the driver accepted `command`. A binding call sets its slot
    /// and no other; any other call leaves the slots as they are.
    pub open spec fn after(self, command: Command) -> BindingsView {
        match command {
            Command::BindVertexArray { array } => BindingsView { vertex_array: array, ..self },
            Command::UseProgram { program } => BindingsView { program, ..self },
            Command::BindBuffer { target, buffer } => BindingsView {
                buffers: Map::new(
                    |slot: BufferType| true,
                    |slot: BufferType|
                        if slot.code() == target {
                            buffer
                        } else {
                            self.buffers[slot]
                        },
                ),
                ..self
            },
            _ => self,
        }
    }
}

/// The record of what is bound.
pub struct Bindings {
    vertex_array: u32,
    program: u32,
    buffers: Vec<u32>,
}

impl View for Bindings {
    type V = BindingsView;

    closed spec fn view(&self) -> BindingsView {
        BindingsView {
            vertex_array: self.vertex_array,
            program: self.program,
            buffers: Map::new(
                |target: BufferType| true,
                |target: BufferType| self.buffers@[target.ordinal()],
            ),
        }
    }
}

impl Bindings {
    #[verifier::type_invariant]
    spec fn one_slot_per_target(self) -> bool {
        self.buffers@.len() == 14
    }

    /// The record of a fresh context: nothing is bound.
    pub fn new() -> (bindings: Bindings)
        ensures
            bindings@ == BindingsView::initial(),
    {
        let mut buffers: Vec<u32> = Vec::new();
        let mut i: usize = 0;
        while i < 14
            invariant
                i <= 14,
                buffers@.len() == i,
                forall|j: int| 0 <= j < i ==> buffers@[j] == 0,
            decreases 14 - i,
        {
            buffers.push(0);
            i += 1;
        }
        let bindings = Bindings { vertex_array: 0, program: 0, buffers };
        assert(bindings@.buffers =~= BindingsView::initial().buffers);
        bindings
    }

    /// Takes a call that the driver accepted.
    pub fn apply(self, command: Command) -> (bindings: Bindings)
        ensures
            bindings@ == self@.after(command),
    {
        proof {
            use_type_invariant(&self);
        }
        match command {
            Command::BindVertexArray { array } => Bindings {
                vertex_array: array,
                program: self.program,
                buffers: self.buffers,
            },
            Command::UseProgram { program } => Bindings {
                vertex_array: self.vertex_array,
                program,
                buffers: self.buffers,
            },
            Command::BindBuffer { target, buffer } => {
                let ghost before = self@;
                let mut buffers = self.buffers;
                match BufferType::from_gl_code(target) {
                    Some(slot) => {
                        buffers.set(slot.index(), buffer);
                    },
                    None => {},
                }
                let bindings = Bindings {
                    vertex_array: self.vertex_array,
                    program: self.program,
                    buffers,
                };
                assert(bindings@.buffers =~= before.after(command).buffers);
                bindings
            },
            _ => self,
        }
    }

    /// The current vertex array; zero where there is none.
    pub fn vertex_array(&self) -> (array: u32)
        ensures
            array == self@.vertex_array,
    {
        self.vertex_array
    }

    /// The current program; zero where there is none.
    pub fn program(&self) -> (program: u32)
        ensures
            program == self@.program,
    {
        self.program
    }

    /// The current buffer of `target`; zero where there is none.
    pub fn buffer(&self, target: BufferType) -> (buffer: u32)
        ensures
            buffer == self@.buffers[target],
    {
        proof {
            use_type_invariant(self);
        }
        self.buffers[target.index()]
    }
}

/// A binding holds until the next binding on the same slot: after a buffer was bound
/// to a target, that target reports it, and every other slot reports what it did
/// before.
pub proof fn lemma_binding_sets_one_slot(before: BindingsView, target: BufferType, buffer: u32)
    ensures
        ({
            let after = before.after(Command::BindBuffer { target: target.code(), buffer });
            &&& after.buffers[target] == buffer
            &&& forall|other: BufferType|
                other != target ==> after.buffers[other] == before.buffers[other]
            &&& after.vertex_array == before.vertex_array
            &&& after.program == before.program
        }),
{
}

} // verus!
