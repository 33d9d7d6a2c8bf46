//! Echo suppression: telling the engine's own synthetic input apart from the
//! user's.

use vstd::prelude::*;
use crate::event::{DeviceEvent, elapsed, elapsed_since};

verus! {

/// Length of the debounce window, in nanoseconds.
pub const DEBOUNCE_NANOS: u64 = 100_000_000;

/// Where and when the replay engine last injected input.
#[derive(Clone, Copy, Debug, PartialEq, Eq)]
pub struct LastEnigoEvent {
    pub position: (i32, i32),
    pub ts: u64,
}

/// Whether `now` lies within the debounce window that `last` opened.
pub open spec fn within_debounce(last: LastEnigoEvent, now: u64) -> bool {
    elapsed_since(last.ts, now) < DEBOUNCE_NANOS
}

/// Whether `event`, arriving at `now`, counts as an echo of `last`. A cursor
/// move is an echo when it arrives within the window at the very position of
/// the injection; a button or key press when it arrives within the window.
pub open spec fn is_echo(last: LastEnigoEvent, event: DeviceEvent, now: u64) -> bool {
    match event {
        DeviceEvent::MouseMove(position) => within_debounce(last, now) && position
            == last.position,
        DeviceEvent::MouseDown(_) => within_debounce(last, now),
        DeviceEvent::KeyDown(_) => within_debounce(last, now),
    }
}

impl LastEnigoEvent {
    /// No injection yet: a position that no cursor takes, stamped `now`.
    pub fn new(now: u64) -> (last: LastEnigoEvent)
        ensures
            last == (LastEnigoEvent { position: (-1i32, -1i32), ts: now }),
    {
        LastEnigoEvent { position: (-1, -1), ts: now }
    }

    /// Notes an injection at `position`, made at `now`.
    pub fn update(&mut self, position: (i32, i32), now: u64)
        ensures
            *final(self) == (LastEnigoEvent { position, ts: now }),
    {
        self.position = position;
        self.ts = now;
    }

    /// Decides whether `event`, arriving at `now`, is an echo of this
    /// injection and must be dropped.
    pub fn suppresses(&self, event: &DeviceEvent, now: u64) -> (echo: bool)
        ensures
            echo == is_echo(*self, *event, now),
    {
        let within = elapsed(self.ts, now) < DEBOUNCE_NANOS;
        match event {
            DeviceEvent::MouseMove(position) => within && position.0 == self.position.0
                && position.1 == self.position.1,
            DeviceEvent::MouseDown(_) => within,
            DeviceEvent::KeyDown(_) => within,
        }
    }
}

} // verus!
