//! The edge detector: two consecutive samples of a boolean signal, and the
//! one sample that is remembered between ticks.

use vstd::prelude::*;
use crate::event::PressDirection;

verus! {

/// The edge between two consecutive samples: `Down` where the signal rose,
/// `Up` where it fell, nothing where it stayed as it was.
pub open spec fn edge_between(previous: bool, current: bool) -> Option<PressDirection> {
    if !previous && current {
        Some(PressDirection::Down)
    } else if previous && !current {
        Some(PressDirection::Up)
    } else {
        None
    }
}

/// Compares two consecutive samples and names the edge between them.
pub fn detect_edge(previous: bool, current: bool) -> (edge: Option<PressDirection>)
    ensures
        edge == edge_between(previous, current),
        previous == current <==> edge.is_none(),
{
    if current && !previous {
        Some(PressDirection::Down)
    } else if !current && previous {
        Some(PressDirection::Up)
    } else {
        None
    }
}

/// What the adapter remembers from one tick to the next: the last sample
/// it saw. Its view is that sample: `true` while the action is pressed.
/// A fresh memory is released.
#[derive(Clone, Copy, Debug, PartialEq, Eq, Structural)]
pub struct EdgeMemory {
    pressed: bool,
}

impl View for EdgeMemory {
    type V = bool;

    closed spec fn view(&self) -> bool {
        self.pressed
    }
}

impl EdgeMemory {
    /// A memory in the initial state: released.
    pub fn new() -> (memory: EdgeMemory)
        ensures
            !memory@,
    {
        EdgeMemory { pressed: false }
    }

    /// A memory that already holds `pressed` as its last sample.
    pub fn holding(pressed: bool) -> (memory: EdgeMemory)
        ensures
            memory@ == pressed,
    {
        EdgeMemory { pressed }
    }

    /// The remembered sample.
    pub fn is_pressed(&self) -> (pressed: bool)
        ensures
            pressed == self@,
    {
        self.pressed
    }

    /// Takes the sample of this tick: reports the edge from the remembered
    /// sample to `current`, and remembers `current` whether or not there
    /// was one.
    pub fn observe(&mut self, current: bool) -> (edge: Option<PressDirection>)
        ensures
            edge == edge_between(old(self)@, current),
            final(self)@ == current,
    {
        let edge = detect_edge(self.pressed, current);
        self.pressed = current;
        edge
    }
}

impl Default for EdgeMemory {
    fn default() -> (memory: EdgeMemory)
        ensures
            !memory@,
    {
        EdgeMemory::new()
    }
}

} // verus!
