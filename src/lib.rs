// A Simon Says game on GPIO buttons and LEDs.
//
// - `events`: turns raw button presses into single and double press events.
// - `coalescing`: what those events are, for presses at given times.
// - `round`: the random sequence of a round and the player's progress through it.
// - `play`: the decisions of one round, press by press.
// - `consts`, `wiring`: pin layouts and the LED next to each button.
use vstd::prelude::*;

pub mod consts;
pub mod wiring;
pub mod round;
pub mod events;
pub mod coalescing;
pub mod play;

pub use play::{Outcome, RoundPlay, Turn};
pub use round::Round;

verus! {

/// Represents a BCM pin number
pub type GPIOPin = u8;

/// An event emitted when button(s) are pressed, either with the pressed button GPIO or
/// a doublepress event
#[derive(Debug, Clone, Copy, PartialEq, Eq, Structural)]
pub enum ButtonPress {
    /// A single button was pressed (w/ corresponding `GPIOPin`)
    Single(GPIOPin),
    /// At least two buttons were pressed at the ~same time
    Double,
}

} // verus!
