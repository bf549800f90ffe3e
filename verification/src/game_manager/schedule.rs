//! When the next tick runs.
//!
//! The loop follows the display's refresh, but waits a fixed delay before it
//! asks for the next refresh, which caps the rate near 240 ticks a second.

use vstd::prelude::*;

verus! {

/// The least time between a tick and the request for the next refresh: a
/// 240th of a second, in whole milliseconds.
pub const FRAME_DELAY: i32 = 4;

/// A callback of the host that has fired.
#[derive(Clone, Copy, Debug, PartialEq, Eq, Structural)]
pub enum Callback {
    /// The display is about to refresh: a tick has run.
    Frame,
    /// The delay after a tick has passed.
    Timeout,
}

/// What to ask of the host next.
#[derive(Clone, Copy, Debug, PartialEq, Eq, Structural)]
pub enum Schedule {
    /// Run a tick before the next refresh of the display.
    NextFrame,
    /// Call back once after this many milliseconds.
    After(i32),
}

/// What follows each callback: a tick is followed by the delay, and the delay
/// by the request for the next refresh.
pub open spec fn follows(fired: Callback) -> Schedule {
    match fired {
        Callback::Frame => Schedule::After(FRAME_DELAY),
        Callback::Timeout => Schedule::NextFrame,
    }
}

/// What to ask of the host once `fired` has run.
pub fn after(fired: Callback) -> (next: Schedule)
    ensures
        next == follows(fired),
{
    match fired {
        Callback::Frame => Schedule::After(FRAME_DELAY),
        Callback::Timeout => Schedule::NextFrame,
    }
}

} // verus!
