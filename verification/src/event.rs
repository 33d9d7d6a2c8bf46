//! The values that flow between the device listener, the dispatcher and the
//! replay engine.

use vstd::prelude::*;

verus! {

/// A pointer button that can be recorded and injected.
#[derive(Clone, Copy, Debug, PartialEq, Eq, Structural)]
pub enum MouseButton {
    Left,
    Right,
    Middle,
}

/// The keys that the hotkey detector tells apart; every other key is `Other`.
#[derive(Clone, Copy, Debug, PartialEq, Eq, Structural)]
pub enum Key {
    /// Trigger key that toggles recording.
    C,
    /// Trigger key that requests a replay.
    X,
    LControl,
    LShift,
    LAlt,
    Other,
}

/// One recorded click. `relative_time` is the time, in nanoseconds, that
/// passed since the previous click of the same recording was captured.
#[derive(Clone, Copy, Debug, PartialEq, Eq)]
pub struct MouseClickEvent {
    pub relative_time: u64,
    pub position: (i32, i32),
    pub button: MouseButton,
}

/// A raw signal of the input devices, as the listener forwards it.
#[derive(Clone, Copy, Debug, PartialEq, Eq)]
pub enum DeviceEvent {
    MouseMove((i32, i32)),
    MouseDown(usize),
    KeyDown(Key),
}

/// A snapshot of a finished recording, handed to the replay engine.
#[derive(Debug, PartialEq, Eq)]
pub struct ReplayEvent {
    pub events: Vec<MouseClickEvent>,
}

/// The button that a device button identifier stands for, if any.
pub open spec fn button_of_id(id: usize) -> Option<MouseButton> {
    if id == 1 {
        Some(MouseButton::Left)
    } else if id == 2 {
        Some(MouseButton::Right)
    } else if id == 3 {
        Some(MouseButton::Middle)
    } else {
        None
    }
}

/// Names the button of a device button identifier: 1 is the left button, 2
/// the right, 3 the middle one; any other identifier names no button.
pub fn button_from_id(id: usize) -> (button: Option<MouseButton>)
    ensures
        button == button_of_id(id),
{
    if id == 1 {
        Some(MouseButton::Left)
    } else if id == 2 {
        Some(MouseButton::Right)
    } else if id == 3 {
        Some(MouseButton::Middle)
    } else {
        None
    }
}

/// Time that has passed at `now` since `earlier`, both readings of one
/// monotonic clock; zero where `earlier` is not in the past.
pub open spec fn elapsed_since(earlier: u64, now: u64) -> u64 {
    if now >= earlier {
        (now - earlier) as u64
    } else {
        0
    }
}

/// Computes `elapsed_since`.
pub fn elapsed(earlier: u64, now: u64) -> (gap: u64)
    ensures
        gap == elapsed_since(earlier, now),
{
    if now >= earlier {
        now - earlier
    } else {
        0
    }
}

/// Copies a sequence of clicks.
pub fn copy_events(events: &Vec<MouseClickEvent>) -> (copy: Vec<MouseClickEvent>)
    ensures
        copy@ == events@,
{
    let mut copy: Vec<MouseClickEvent> = Vec::new();
    let mut i: usize = 0;
    while i < events.len()
        invariant
            i <= events.len(),
            copy@ == events@.subrange(0, i as int),
        decreases events.len() - i,
    {
        copy.push(events[i]);
        i += 1;
        assert(copy@ =~= events@.subrange(0, i as int));
    }
    assert(events@.subrange(0, events.len() as int) =~= events@);
    copy
}

} // verus!
