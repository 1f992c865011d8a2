//! Whole runs of the adapter: a sequence of samples, the events of each
//! tick, and what holds of every such run.

use vstd::prelude::*;
use crate::adapter::tick_events;
use crate::edge::{edge_between, EdgeMemory};
use crate::event::{InputPress, PointerId, PressDirection};

verus! {

/// The sample that the memory holds when tick `tick` begins: the initial
/// one before the first tick, and after that the sample of the tick before.
pub open spec fn state_before(initial: bool, samples: Seq<bool>, tick: int) -> bool {
    if tick <= 0 {
        initial
    } else {
        samples[tick - 1]
    }
}

/// How many ticks of the run see an edge in `direction`.
pub open spec fn edges(initial: bool, samples: Seq<bool>, direction: PressDirection) -> nat
    decreases samples.len(),
{
    if samples.len() == 0 {
        0
    } else {
        let last = samples.len() - 1;
        let here: nat = if edge_between(state_before(initial, samples, last), samples[last])
            == Some(direction) {
            1
        } else {
            0
        };
        edges(initial, samples.drop_last(), direction) + here
    }
}

/// The events of a run, tick by tick, with the same listeners at every
/// tick.
pub open spec fn trace(initial: bool, samples: Seq<bool>, listeners: Seq<PointerId>) -> Seq<
    Seq<InputPress>,
> {
    Seq::new(
        samples.len(),
        |t: int| tick_events(state_before(initial, samples, t), samples[t], listeners),
    )
}

/// How many of `events` go in `direction`.
pub open spec fn count_direction(events: Seq<InputPress>, direction: PressDirection) -> nat
    decreases events.len(),
{
    if events.len() == 0 {
        0
    } else {
        let here: nat = if events.last().direction == direction {
            1
        } else {
            0
        };
        count_direction(events.drop_last(), direction) + here
    }
}

/// How many of `events` go in `direction` and are addressed to
/// `pointer_id`.
pub open spec fn count_addressed(
    events: Seq<InputPress>,
    pointer_id: PointerId,
    direction: PressDirection,
) -> nat
    decreases events.len(),
{
    if events.len() == 0 {
        0
    } else {
        let here: nat = if events.last().direction == direction && events.last().pointer_id
            == pointer_id {
            1
        } else {
            0
        };
        count_addressed(events.drop_last(), pointer_id, direction) + here
    }
}

/// How often `pointer_id` stands among `listeners`.
pub open spec fn occurrences(listeners: Seq<PointerId>, pointer_id: PointerId) -> nat
    decreases listeners.len(),
{
    if listeners.len() == 0 {
        0
    } else {
        let here: nat = if listeners.last() == pointer_id {
            1
        } else {
            0
        };
        occurrences(listeners.drop_last(), pointer_id) + here
    }
}

/// The events of all ticks of a run that go in `direction`, counted.
pub open spec fn count_in_trace(ticks: Seq<Seq<InputPress>>, direction: PressDirection) -> nat
    decreases ticks.len(),
{
    if ticks.len() == 0 {
        0
    } else {
        count_in_trace(ticks.drop_last(), direction) + count_direction(ticks.last(), direction)
    }
}

/// The events of all ticks of a run that go in `direction` and are
/// addressed to `pointer_id`, counted.
pub open spec fn count_addressed_in_trace(
    ticks: Seq<Seq<InputPress>>,
    pointer_id: PointerId,
    direction: PressDirection,
) -> nat
    decreases ticks.len(),
{
    if ticks.len() == 0 {
        0
    } else {
        count_addressed_in_trace(ticks.drop_last(), pointer_id, direction) + count_addressed(
            ticks.last(),
            pointer_id,
            direction,
        )
    }
}

/// The events of each tick as sequences.
pub open spec fn tick_views(ticks: Seq<Vec<InputPress>>) -> Seq<Seq<InputPress>> {
    ticks.map_values(|events: Vec<InputPress>| events@)
}

/// Feeds a run of good samples to the adapter, one tick each, and returns
/// the events of every tick in turn. The memory ends on the last sample,
/// or stays as it was where there is no sample.
pub fn replay(samples: &Vec<bool>, listeners: &Vec<PointerId>, memory: &mut EdgeMemory) -> (ticks:
    Vec<Vec<InputPress>>)
    ensures
        tick_views(ticks@) == trace(old(memory)@, samples@, listeners@),
        ticks@.len() == samples@.len(),
        forall|t: int|
            0 <= t < samples@.len() ==> (#[trigger] ticks@[t])@ == tick_events(
                state_before(old(memory)@, samples@, t),
                samples@[t],
                listeners@,
            ),
        final(memory)@ == if samples@.len() == 0 {
            old(memory)@
        } else {
            samples@.last()
        },
{
    let ghost initial = memory@;
    let mut ticks: Vec<Vec<InputPress>> = Vec::new();
    let mut t: usize = 0;
    while t < samples.len()
        invariant
            t <= samples.len(),
            ticks@.len() == t,
            memory@ == state_before(initial, samples@, t as int),
            forall|k: int|
                0 <= k < t ==> (#[trigger] ticks@[k])@ == tick_events(
                    state_before(initial, samples@, k),
                    samples@[k],
                    listeners@,
                ),
        decreases samples.len() - t,
    {
        let events = memory.tick(samples[t], listeners);
        ticks.push(events);
        t += 1;
    }
    assert(tick_views(ticks@) =~= trace(initial, samples@, listeners@));
    ticks
}

} // verus!
