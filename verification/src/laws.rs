//! What holds of every run of the adapter, whatever the samples and the
//! listeners are.

use vstd::prelude::*;
use crate::adapter::{presses_for, tick_events};
use crate::edge::edge_between;
use crate::event::{InputPress, PointerId, PressDirection};
use crate::trace::{
    count_addressed,
    count_addressed_in_trace,
    count_direction,
    count_in_trace,
    edges,
    occurrences,
    state_before,
    trace,
};

verus! {

/// Among the events built for a set of listeners, those in the direction
/// they were built for are as many as the listeners, and none goes the
/// other way.
pub proof fn lemma_presses_counted(
    listeners: Seq<PointerId>,
    built: PressDirection,
    counted: PressDirection,
)
    ensures
        count_direction(presses_for(listeners, built), counted) == if built == counted {
            listeners.len()
        } else {
            0
        },
    decreases listeners.len(),
{
    if listeners.len() > 0 {
        assert(presses_for(listeners, built).drop_last() =~= presses_for(
            listeners.drop_last(),
            built,
        ));
        lemma_presses_counted(listeners.drop_last(), built, counted);
    }
}

/// Among the events built for a set of listeners, those addressed to one
/// pointer in the direction they were built for are as many as the times
/// that pointer stands among the listeners.
pub proof fn lemma_presses_addressed(
    listeners: Seq<PointerId>,
    built: PressDirection,
    pointer_id: PointerId,
    counted: PressDirection,
)
    ensures
        count_addressed(presses_for(listeners, built), pointer_id, counted) == if built
            == counted {
            occurrences(listeners, pointer_id)
        } else {
            0
        },
    decreases listeners.len(),
{
    if listeners.len() > 0 {
        assert(presses_for(listeners, built).drop_last() =~= presses_for(
            listeners.drop_last(),
            built,
        ));
        lemma_presses_addressed(listeners.drop_last(), built, pointer_id, counted);
    }
}

/// A tick whose sample equals the remembered one emits nothing, whoever
/// listens.
pub proof fn lemma_unchanged_sample_is_silent(sample: bool, listeners: Seq<PointerId>)
    ensures
        tick_events(sample, sample, listeners).len() == 0,
{
}

/// A tick emits exactly where its sample differs from the remembered one
/// and somebody listens; all its events then go one way, `Down` where the
/// sample is pressed and `Up` where it is released, one for each listener
/// in turn.
pub proof fn lemma_tick_events_shape(previous: bool, current: bool, listeners: Seq<PointerId>)
    ensures
        tick_events(previous, current, listeners).len() == if previous == current {
            0
        } else {
            listeners.len()
        },
        forall|i: int|
            0 <= i < tick_events(previous, current, listeners).len() ==> #[trigger] tick_events(
                previous,
                current,
                listeners,
            )[i] == InputPress::primary(
                listeners[i],
                if current {
                    PressDirection::Down
                } else {
                    PressDirection::Up
                },
            ),
{
}

/// Dropping the last sample of a run drops the last tick of its trace and
/// leaves the other ticks as they were.
proof fn lemma_trace_prefix(initial: bool, samples: Seq<bool>, listeners: Seq<PointerId>)
    requires
        samples.len() > 0,
    ensures
        trace(initial, samples, listeners).drop_last() == trace(
            initial,
            samples.drop_last(),
            listeners,
        ),
{
    let shorter = samples.drop_last();
    assert forall|t: int| 0 <= t < shorter.len() implies state_before(initial, samples, t)
        == state_before(initial, shorter, t) && samples[t] == shorter[t] by {}
    assert(trace(initial, samples, listeners).drop_last() =~= trace(initial, shorter, listeners));
}

/// Over a whole run with the same listeners at every tick, the `Down`
/// events are as many as the rising edges times the listeners, and the
/// `Up` events as many as the falling edges times the listeners: with one
/// listener, one event for each edge.
pub proof fn lemma_events_match_edges(
    initial: bool,
    samples: Seq<bool>,
    listeners: Seq<PointerId>,
    direction: PressDirection,
)
    ensures
        count_in_trace(trace(initial, samples, listeners), direction) == edges(
            initial,
            samples,
            direction,
        ) * listeners.len(),
    decreases samples.len(),
{
    if samples.len() > 0 {
        let last = samples.len() - 1;
        let previous = state_before(initial, samples, last);
        let ticks = trace(initial, samples, listeners);
        lemma_trace_prefix(initial, samples, listeners);
        lemma_events_match_edges(initial, samples.drop_last(), listeners, direction);
        assert(ticks.last() == tick_events(previous, samples[last], listeners));
        match edge_between(previous, samples[last]) {
            Some(built) => {
                lemma_presses_counted(listeners, built, direction);
            },
            None => {},
        }
        let before = edges(initial, samples.drop_last(), direction);
        let n = listeners.len();
        assert((before + 1) * n == before * n + n) by (nonlinear_arith);
    } else {
        assert(0 * listeners.len() == 0) by (nonlinear_arith);
    }
}

/// Over a whole run with the same listeners at every tick, each pointer is
/// sent one `Down` for each rising edge and one `Up` for each falling edge,
/// once for every time it stands among the listeners.
pub proof fn lemma_each_listener_hears_each_edge(
    initial: bool,
    samples: Seq<bool>,
    listeners: Seq<PointerId>,
    pointer_id: PointerId,
    direction: PressDirection,
)
    ensures
        count_addressed_in_trace(trace(initial, samples, listeners), pointer_id, direction)
            == edges(initial, samples, direction) * occurrences(listeners, pointer_id),
    decreases samples.len(),
{
    if samples.len() > 0 {
        let last = samples.len() - 1;
        let previous = state_before(initial, samples, last);
        let ticks = trace(initial, samples, listeners);
        lemma_trace_prefix(initial, samples, listeners);
        lemma_each_listener_hears_each_edge(
            initial,
            samples.drop_last(),
            listeners,
            pointer_id,
            direction,
        );
        assert(ticks.last() == tick_events(previous, samples[last], listeners));
        match edge_between(previous, samples[last]) {
            Some(built) => {
                lemma_presses_addressed(listeners, built, pointer_id, direction);
            },
            None => {},
        }
        let before = edges(initial, samples.drop_last(), direction);
        let n = occurrences(listeners, pointer_id);
        assert((before + 1) * n == before * n + n) by (nonlinear_arith);
    } else {
        assert(0 * occurrences(listeners, pointer_id) == 0) by (nonlinear_arith);
    }
}

} // verus!
