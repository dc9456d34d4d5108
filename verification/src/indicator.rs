//! The three indicator outputs and the regime that each state shows.

use vstd::prelude::*;

verus! {

/// The levels of the three indicator outputs.
#[derive(Clone, Copy, Debug, PartialEq, Eq, Structural)]
pub struct Leds {
    pub red: bool,
    pub green: bool,
    pub blue: bool,
}

/// The state of the detector as an observer sees it.
#[derive(Clone, Copy, Debug, PartialEq, Eq, Structural)]
pub enum EventState {
    /// Monitoring, with no run worth a warning.
    Idle,
    /// Monitoring, with a run longer than the warning bound.
    Warning,
    /// The event has fired and is settling or being timed.
    ActiveEvent,
    /// The event is over; the detector holds until the manual reset.
    Latched,
}

/// The outputs that a state shows. `blink` is the level of the green
/// flip-flop, which only the active event consults.
pub open spec fn pattern(state: EventState, blink: bool) -> Leds {
    match state {
        EventState::Idle => Leds { red: true, green: false, blue: false },
        EventState::Warning => Leds { red: true, green: true, blue: false },
        EventState::ActiveEvent => Leds { red: false, green: blink, blue: false },
        EventState::Latched => Leds { red: true, green: true, blue: false },
    }
}

/// Computes the outputs that a state shows.
pub fn indicate(state: EventState, blink: bool) -> (out: Leds)
    ensures
        out == pattern(state, blink),
{
    match state {
        EventState::Idle => Leds { red: true, green: false, blue: false },
        EventState::Warning => Leds { red: true, green: true, blue: false },
        EventState::ActiveEvent => Leds { red: false, green: blink, blue: false },
        EventState::Latched => Leds { red: true, green: true, blue: false },
    }
}

} // verus!
