//! Events of the root port, and the wrapper that resets the port on attach.

use vstd::prelude::*;

verus! {

/// What the root port reports.
#[derive(Clone, Copy, Debug, PartialEq, Eq, Structural)]
pub enum Event {
    DeviceAttach,
    DeviceDetach,
    Suspend,
    Resume,
}

/// How long the bus is left to settle after the reset that follows an
/// attach, in milliseconds.
pub const ATTACH_SETTLE_MS: u64 = 500;

/// What the wrapper does with an event of the bus before it passes it on.
#[derive(Clone, Copy, Debug, PartialEq, Eq, Structural)]
pub struct BusReaction {
    /// Whether the bus is reset first.
    pub reset: bool,
    /// How long to wait after the reset, in milliseconds.
    pub settle_ms: u64,
    /// The event that is passed on.
    pub event: Event,
}

/// The wrapper around the bus: every attach that the supervisor sees has
/// been followed by a reset and a settling time.
#[derive(Clone, Copy, Debug, PartialEq, Eq, Structural)]
pub struct BusWrap {}

impl BusWrap {
    pub fn new() -> (b: BusWrap) {
        BusWrap {  }
    }

    /// What to do with an event that the bus has just reported: an attach is
    /// followed by a reset and a wait of 500 ms; everything else is passed
    /// on at once.
    pub fn poll(&self, event: Event) -> (r: BusReaction)
        ensures
            r.event == event,
            r.reset == (event is DeviceAttach),
            r.settle_ms == (if event is DeviceAttach {
                ATTACH_SETTLE_MS
            } else {
                0
            }),
    {
        match event {
            Event::DeviceAttach => BusReaction {
                reset: true,
                settle_ms: ATTACH_SETTLE_MS,
                event: Event::DeviceAttach,
            },
            e => BusReaction { reset: false, settle_ms: 0, event: e },
        }
    }

    /// Whether the wait for a detach is over with this event.
    pub fn wait_until_detach(&self, event: Event) -> (over: bool)
        ensures
            over == (event is DeviceDetach),
    {
        match event {
            Event::DeviceDetach => true,
            _ => false,
        }
    }
}

} // verus!
