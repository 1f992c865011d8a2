//! The adapter itself: one call per tick, from the sampled action state and
//! the pointers that listen to the events of that tick.

use vstd::prelude::*;
use crate::edge::{edge_between, EdgeMemory};
use crate::event::{InputPress, PointerId, PressDirection};

verus! {

/// Why the action state of a tick could not be sampled.
#[derive(Clone, Copy, Debug, PartialEq, Eq, Hash, Structural)]
pub enum ActionQueryFailure {
    /// No action of that name is bound in the action set.
    ActionNotFound,
    /// The runtime that owns the action has not been started.
    RuntimeUninitialized,
    /// The action exists, but the runtime gave no state for it.
    StateUnavailable,
}

/// One primary-button event in `direction` for each listener, in the order
/// in which the listeners stand.
pub open spec fn presses_for(listeners: Seq<PointerId>, direction: PressDirection) -> Seq<
    InputPress,
> {
    Seq::new(listeners.len(), |i: int| InputPress::primary(listeners[i], direction))
}

/// The events of one tick: on an edge one event for each listener, and
/// none where the sample is the remembered one.
pub open spec fn tick_events(previous: bool, current: bool, listeners: Seq<PointerId>) -> Seq<
    InputPress,
> {
    match edge_between(previous, current) {
        Some(direction) => presses_for(listeners, direction),
        None => Seq::empty(),
    }
}

/// Builds one primary-button event in `direction` for each listener.
pub fn press_all(listeners: &Vec<PointerId>, direction: PressDirection) -> (events: Vec<
    InputPress,
>)
    ensures
        events@ == presses_for(listeners@, direction),
{
    let mut events: Vec<InputPress> = Vec::new();
    let mut i: usize = 0;
    while i < listeners.len()
        invariant
            i <= listeners.len(),
            events@.len() == i,
            forall|k: int|
                0 <= k < i ==> events@[k] == InputPress::primary(listeners@[k], direction),
        decreases listeners.len() - i,
    {
        events.push(InputPress::new_primary(listeners[i], direction));
        i += 1;
    }
    assert(events@ =~= presses_for(listeners@, direction));
    events
}

impl EdgeMemory {
    /// Runs one tick on a sample that was read successfully.
    ///
    /// On a rising edge every listener gets a `Down`, on a falling edge an
    /// `Up`; otherwise nothing is emitted. The sample is remembered in
    /// every case, with or without listeners.
    pub fn tick(&mut self, current: bool, listeners: &Vec<PointerId>) -> (events: Vec<InputPress>)
        ensures
            events@ == tick_events(old(self)@, current, listeners@),
            current == old(self)@ ==> events@.len() == 0,
            final(self)@ == current,
    {
        match self.observe(current) {
            Some(direction) => press_all(listeners, direction),
            None => Vec::new(),
        }
    }
}

/// Runs one tick of the adapter.
///
/// `sample` is what the query for the action state gave. Where it failed,
/// the failure is handed on: nothing is emitted and the memory keeps the
/// sample of the tick before, so that the next good sample is compared with
/// a state that was really seen. Where it succeeded, the events are those
/// of [`EdgeMemory::tick`] and the memory holds the new sample.
pub fn trigger(
    sample: Result<bool, ActionQueryFailure>,
    listeners: &Vec<PointerId>,
    memory: &mut EdgeMemory,
) -> (emitted: Result<Vec<InputPress>, ActionQueryFailure>)
    ensures
        match sample {
            Ok(current) => {
                &&& emitted is Ok
                &&& emitted->Ok_0@ == tick_events(old(memory)@, current, listeners@)
                &&& current == old(memory)@ ==> emitted->Ok_0@.len() == 0
                &&& final(memory)@ == current
            },
            Err(failure) => {
                &&& emitted == Err::<Vec<InputPress>, ActionQueryFailure>(failure)
                &&& *final(memory) == *old(memory)
            },
        },
{
    match sample {
        Ok(current) => Ok(memory.tick(current, listeners)),
        Err(failure) => Err(failure),
    }
}

} // verus!
