//! The values that the adapter hands out: who is pressed, which way, and
//! with which button.

use vstd::prelude::*;

verus! {

/// Identity of a pointer that listens for presses.
///
/// The adapter never looks inside an identity: it only copies it into the
/// events it builds.
#[derive(Clone, Copy, Debug, PartialEq, Eq, Hash, Structural)]
pub enum PointerId {
    /// The mouse pointer.
    Mouse,
    /// A touch input, with the number that the windowing layer gave it.
    Touch(u64),
    /// Any other pointer, named by a 128-bit identifier.
    Custom(u128),
}

/// Which way a button moved.
#[derive(Clone, Copy, Debug, PartialEq, Eq, Hash, Structural)]
pub enum PressDirection {
    /// The button went from released to pressed.
    Down,
    /// The button went from pressed to released.
    Up,
}

/// The button that a press event speaks of.
#[derive(Clone, Copy, Debug, PartialEq, Eq, Hash, Structural)]
pub enum PointerButton {
    /// The primary button.
    Primary,
    /// The secondary button.
    Secondary,
    /// The middle button.
    Middle,
}

/// One press or release, addressed to one pointer.
#[derive(Clone, Copy, Debug, PartialEq, Eq, Hash, Structural)]
pub struct InputPress {
    /// The pointer that the event is for.
    pub pointer_id: PointerId,
    /// Whether the button went down or up.
    pub direction: PressDirection,
    /// The button that moved.
    pub button: PointerButton,
}

impl InputPress {
    /// The event that tells `pointer_id` that its primary button moved in
    /// `direction`.
    pub open spec fn primary(pointer_id: PointerId, direction: PressDirection) -> InputPress {
        InputPress { pointer_id, direction, button: PointerButton::Primary }
    }

    /// Builds the primary-button event for `pointer_id` in `direction`.
    pub fn new_primary(pointer_id: PointerId, direction: PressDirection) -> (event: InputPress)
        ensures
            event == Self::primary(pointer_id, direction),
    {
        InputPress { pointer_id, direction, button: PointerButton::Primary }
    }
}

} // verus!
