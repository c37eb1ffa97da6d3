//! The blinking of the text cursor.
use vstd::prelude::*;

verus! {

/// Whether the cursor is drawn: on, off, or on because it just moved.
#[derive(Debug, Clone, Copy, PartialEq, Eq, Hash, Structural)]
pub enum BlinkState {
    On,
    Off,
    Move,
}

impl BlinkState {
    /// The state after one blink tick: off after on, and on after off or after
    /// a move.
    pub fn next(self) -> (r: BlinkState)
        ensures
            r == match self {
                BlinkState::On => BlinkState::Off,
                BlinkState::Off => BlinkState::On,
                BlinkState::Move => BlinkState::On,
            },
    {
        match self {
            BlinkState::On => BlinkState::Off,
            BlinkState::Off => BlinkState::On,
            BlinkState::Move => BlinkState::On,
        }
    }
}

} // verus!
