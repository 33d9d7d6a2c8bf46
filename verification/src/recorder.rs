//! The recorder: the buffered clicks of the current recording, the last known
//! cursor position, and the flags that the dispatcher and the replay engine
//! share.

use vstd::prelude::*;
use crate::event::{MouseButton, MouseClickEvent, copy_events, elapsed, elapsed_since};

verus! {

/// What a `MouseRecorder` holds, as a mathematical value.
pub struct RecorderView {
    pub events: Seq<MouseClickEvent>,
    pub mouse_position: (i32, i32),
    pub is_recording: bool,
    pub last_event_time: u64,
    pub should_interrupt_replay: bool,
}

/// The click that a recorder in state `r` stores for a press of `button` at
/// time `now`: the first click of a recording has no delay, a later one the
/// time since the click before it.
pub open spec fn click_at(r: RecorderView, button: MouseButton, now: u64) -> MouseClickEvent {
    MouseClickEvent {
        relative_time: if r.events.len() == 0 {
            0
        } else {
            elapsed_since(r.last_event_time, now)
        },
        position: r.mouse_position,
        button,
    }
}

/// The state after `r` has stored a press of `button` at time `now`.
pub open spec fn recorded(r: RecorderView, button: MouseButton, now: u64) -> RecorderView {
    RecorderView { events: r.events.push(click_at(r, button, now)), last_event_time: now, ..r }
}

/// The state after a recording has been started at time `now`.
pub open spec fn started(r: RecorderView, now: u64) -> RecorderView {
    RecorderView { events: Seq::empty(), last_event_time: now, is_recording: true, ..r }
}

/// The state after the recording has been stopped.
pub open spec fn stopped(r: RecorderView) -> RecorderView {
    RecorderView { is_recording: false, ..r }
}

/// The state after the cursor has moved to `position`.
pub open spec fn moved(r: RecorderView, position: (i32, i32)) -> RecorderView {
    RecorderView { mouse_position: position, ..r }
}

/// The state with the request to interrupt the replay in flight set to
/// `value`.
pub open spec fn with_interrupt(r: RecorderView, value: bool) -> RecorderView {
    RecorderView { should_interrupt_replay: value, ..r }
}

/// The state after the recording hotkey has been pressed at time `now`.
pub open spec fn toggled(r: RecorderView, now: u64) -> RecorderView {
    if r.is_recording {
        stopped(r)
    } else {
        started(r, now)
    }
}

/// A recorder that has just been made at time `now`: idle, with no clicks,
/// the cursor at the origin.
pub open spec fn initial(now: u64) -> RecorderView {
    RecorderView {
        events: Seq::empty(),
        mouse_position: (0i32, 0i32),
        is_recording: false,
        last_event_time: now,
        should_interrupt_replay: false,
    }
}

/// A recording is well formed when its first click, if any, has no delay.
pub open spec fn first_delay_is_zero(events: Seq<MouseClickEvent>) -> bool {
    events.len() > 0 ==> events[0].relative_time == 0
}

/// The recorder state that the dispatcher and the replay engine share.
pub struct MouseRecorder {
    mouse_click_events: Vec<MouseClickEvent>,
    mouse_position: (i32, i32),
    is_recording: bool,
    last_event_time: u64,
    should_interrupt_replay: bool,
}

impl View for MouseRecorder {
    type V = RecorderView;

    closed spec fn view(&self) -> RecorderView {
        RecorderView {
            events: self.mouse_click_events@,
            mouse_position: self.mouse_position,
            is_recording: self.is_recording,
            last_event_time: self.last_event_time,
            should_interrupt_replay: self.should_interrupt_replay,
        }
    }
}

impl MouseRecorder {
    /// An idle recorder with no clicks, the cursor at the origin.
    pub fn new(now: u64) -> (r: MouseRecorder)
        ensures
            r@ == initial(now),
    {
        MouseRecorder {
            mouse_click_events: Vec::new(),
            mouse_position: (0, 0),
            is_recording: false,
            last_event_time: now,
            should_interrupt_replay: false,
        }
    }

    /// Starts a recording: drops every buffered click and notes the time.
    pub fn start_recording(&mut self, now: u64)
        ensures
            final(self)@ == started(old(self)@, now),
    {
        self.mouse_click_events.clear();
        self.last_event_time = now;
        self.is_recording = true;
    }

    /// Stops the recording; the buffered clicks are the finished macro.
    pub fn stop_recording(&mut self)
        ensures
            final(self)@ == stopped(old(self)@),
    {
        self.is_recording = false;
    }

    /// Stops a running recording, or starts one when idle. Returns whether a
    /// recording runs afterwards.
    pub fn toggle_recording(&mut self, now: u64) -> (recording: bool)
        ensures
            final(self)@ == toggled(old(self)@, now),
            recording == !old(self)@.is_recording,
    {
        if self.is_recording {
            self.stop_recording();
            false
        } else {
            self.start_recording(now);
            true
        }
    }

    /// A copy of the buffered clicks.
    pub fn get_mouse_click_events(&self) -> (events: Vec<MouseClickEvent>)
        ensures
            events@ == self@.events,
    {
        copy_events(&self.mouse_click_events)
    }

    /// Stores a press of `button` at time `now`, at the last known cursor
    /// position.
    pub fn record_mouse_click_event(&mut self, button: MouseButton, now: u64)
        ensures
            final(self)@ == recorded(old(self)@, button, now),
    {
        let relative_time: u64 = if self.mouse_click_events.len() == 0 {
            0
        } else {
            elapsed(self.last_event_time, now)
        };
        self.mouse_click_events.push(
            MouseClickEvent { relative_time, position: self.mouse_position, button },
        );
        self.last_event_time = now;
    }

    /// Whether a recording runs.
    pub fn is_recording(&self) -> (b: bool)
        ensures
            b == self@.is_recording,
    {
        self.is_recording
    }

    /// Whether the replay in flight has been asked to stop.
    pub fn should_interrupt_replay(&self) -> (b: bool)
        ensures
            b == self@.should_interrupt_replay,
    {
        self.should_interrupt_replay
    }

    /// The last known cursor position.
    pub fn mouse_position(&self) -> (p: (i32, i32))
        ensures
            p == self@.mouse_position,
    {
        self.mouse_position
    }

    /// When the recording was started or its latest click was stored.
    pub fn last_event_time(&self) -> (t: u64)
        ensures
            t == self@.last_event_time,
    {
        self.last_event_time
    }

    /// Notes the cursor position.
    pub fn set_mouse_position(&mut self, position: (i32, i32))
        ensures
            final(self)@ == moved(old(self)@, position),
    {
        self.mouse_position = position;
    }

    /// Sets or clears the request to interrupt the replay in flight.
    pub fn set_interrupt(&mut self, value: bool)
        ensures
            final(self)@ == with_interrupt(old(self)@, value),
    {
        self.should_interrupt_replay = value;
    }
}

/// One change that a recorder can undergo.
pub enum RecorderStep {
    Start(u64),
    Stop,
    Toggle(u64),
    Record(MouseButton, u64),
    Move((i32, i32)),
    Interrupt(bool),
}

/// The recorder after one change.
pub open spec fn apply(r: RecorderView, step: RecorderStep) -> RecorderView {
    match step {
        RecorderStep::Start(now) => started(r, now),
        RecorderStep::Stop => stopped(r),
        RecorderStep::Toggle(now) => toggled(r, now),
        RecorderStep::Record(button, now) => recorded(r, button, now),
        RecorderStep::Move(position) => moved(r, position),
        RecorderStep::Interrupt(value) => with_interrupt(r, value),
    }
}

/// The recorder after a sequence of changes, the first of them first.
pub open spec fn apply_all(r: RecorderView, steps: Seq<RecorderStep>) -> RecorderView
    decreases steps.len(),
{
    if steps.len() == 0 {
        r
    } else {
        apply(apply_all(r, steps.drop_last()), steps.last())
    }
}

/// No change gives the first click of the buffer a delay.
pub proof fn lemma_step_keeps_first_delay_zero(r: RecorderView, step: RecorderStep)
    requires
        first_delay_is_zero(r.events),
    ensures
        first_delay_is_zero(apply(r, step).events),
{
}

/// Whatever a recorder has gone through since it was made, the first click
/// that it holds has a delay of exactly zero.
pub proof fn lemma_first_delay_is_zero(now: u64, steps: Seq<RecorderStep>)
    ensures
        first_delay_is_zero(apply_all(initial(now), steps).events),
    decreases steps.len(),
{
    if steps.len() > 0 {
        lemma_first_delay_is_zero(now, steps.drop_last());
        lemma_step_keeps_first_delay_zero(apply_all(initial(now), steps.drop_last()), steps.last());
    }
}

/// Starting a recording drops every click buffered before it: the first
/// click stored afterwards is the only one, and has no delay. Starting again
/// comes to the same as starting once, at the later time.
pub proof fn lemma_start_clears(r: RecorderView, now: u64, button: MouseButton, later: u64)
    ensures
        started(r, now).events == Seq::<MouseClickEvent>::empty(),
        recorded(started(r, now), button, later).events == seq![
            MouseClickEvent { relative_time: 0, position: r.mouse_position, button },
        ],
        started(started(r, now), later) == started(r, later),
{
    assert(recorded(started(r, now), button, later).events =~= seq![
        MouseClickEvent { relative_time: 0, position: r.mouse_position, button },
    ]);
}

} // verus!
