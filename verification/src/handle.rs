//! The rule by which a handle gives up the object that it names.
//!
//! A handle holds the driver's name of an object, or zero, which names none. It is
//! released at most once: the release of a name yields the deletion of the object
//! and leaves the handle with zero, and the release of zero yields nothing.

use vstd::prelude::*;
use crate::command::Command;

verus! {

/// What the release of a handle that holds `name` comes to: the name that the
/// handle holds from then on, and the call that the driver has to be given, where
/// `delete` makes the deletion of a name.
pub open spec fn released(name: u32, delete: spec_fn(u32) -> Command) -> (u32, Option<Command>) {
    if name == 0 {
        (0u32, None)
    } else {
        (0u32, Some(delete(name)))
    }
}

/// What `times` releases of a handle that holds `name` come to: the name that the
/// handle holds in the end, and the calls that the driver has to be given, in
/// their order.
pub open spec fn released_times(name: u32, delete: spec_fn(u32) -> Command, times: nat) -> (
    u32,
    Seq<Command>,
)
    decreases times,
{
    if times == 0 {
        (name, Seq::empty())
    } else {
        let (left, call) = released(name, delete);
        let (last, calls) = released_times(left, delete, (times - 1) as nat);
        match call {
            Some(deletion) => (last, seq![deletion] + calls),
            None => (last, calls),
        }
    }
}

/// Releasing a handle that names nothing, any number of times, changes nothing and
/// asks nothing of the driver.
pub proof fn lemma_release_of_none_is_idle(delete: spec_fn(u32) -> Command, times: nat)
    ensures
        released_times(0, delete, times) == (0u32, Seq::<Command>::empty()),
    decreases times,
{
    if times > 0 {
        lemma_release_of_none_is_idle(delete, (times - 1) as nat);
    }
}

/// Releasing a handle that names an object, any number of times, deletes the object
/// exactly once.
pub proof fn lemma_release_deletes_once(name: u32, delete: spec_fn(u32) -> Command, times: nat)
    requires
        name != 0,
        times > 0,
    ensures
        released_times(name, delete, times) == (0u32, seq![delete(name)]),
{
    lemma_release_of_none_is_idle(delete, (times - 1) as nat);
    assert(seq![delete(name)] + Seq::<Command>::empty() =~= seq![delete(name)]);
}

} // verus!
