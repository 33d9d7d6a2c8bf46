//! The dispatcher: what one device event does to the recorder, and what the
//! caller has to do in answer.

use vstd::prelude::*;
use crate::echo::{LastEnigoEvent, is_echo, within_debounce};
use crate::event::{DeviceEvent, Key, MouseButton, MouseClickEvent, ReplayEvent, button_from_id, button_of_id};
use crate::recorder::{
    MouseRecorder, RecorderView, first_delay_is_zero, moved, recorded, toggled, with_interrupt,
};

verus! {

/// What a key press came to, as a mathematical value.
pub enum KeyResult {
    Ignored,
    RecordingStarted,
    RecordingStopped,
    ReplayRejected,
    Replay(Seq<MouseClickEvent>),
}

/// What a key press came to.
#[derive(Debug, PartialEq, Eq)]
pub enum KeyOutcome {
    /// Not a hotkey combination: nothing happened.
    Ignored,
    /// A recording has been started.
    RecordingStarted,
    /// The recording has been stopped.
    RecordingStopped,
    /// A replay was asked for while recording: nothing happened.
    ReplayRejected,
    /// A replay was asked for: the request is to be submitted.
    Replay(ReplayEvent),
}

impl View for KeyOutcome {
    type V = KeyResult;

    open spec fn view(&self) -> KeyResult {
        match *self {
            KeyOutcome::Ignored => KeyResult::Ignored,
            KeyOutcome::RecordingStarted => KeyResult::RecordingStarted,
            KeyOutcome::RecordingStopped => KeyResult::RecordingStopped,
            KeyOutcome::ReplayRejected => KeyResult::ReplayRejected,
            KeyOutcome::Replay(request) => KeyResult::Replay(request.events@),
        }
    }
}

/// What a device event came to, as a mathematical value.
pub enum DispatchResult {
    Suppressed,
    CursorMoved,
    ClickRecorded,
    ClickIgnored,
    UnknownButton,
    Key(KeyResult),
}

/// What a device event came to.
#[derive(Debug, PartialEq, Eq)]
pub enum DispatchOutcome {
    /// The event was an echo of the engine's own input and was dropped.
    Suppressed,
    /// The cursor position was noted.
    CursorMoved,
    /// A click was appended to the recording.
    ClickRecorded,
    /// A click arrived while no recording ran.
    ClickIgnored,
    /// The button identifier names no button: the click was dropped.
    UnknownButton,
    /// A key was pressed.
    Key(KeyOutcome),
}

impl View for DispatchOutcome {
    type V = DispatchResult;

    open spec fn view(&self) -> DispatchResult {
        match *self {
            DispatchOutcome::Suppressed => DispatchResult::Suppressed,
            DispatchOutcome::CursorMoved => DispatchResult::CursorMoved,
            DispatchOutcome::ClickRecorded => DispatchResult::ClickRecorded,
            DispatchOutcome::ClickIgnored => DispatchResult::ClickIgnored,
            DispatchOutcome::UnknownButton => DispatchResult::UnknownButton,
            DispatchOutcome::Key(outcome) => DispatchResult::Key(outcome@),
        }
    }
}

/// Whether the three modifier keys of the hotkeys are all among `held`.
pub open spec fn modifiers_held(held: Seq<Key>) -> bool {
    held.contains(Key::LControl) && held.contains(Key::LShift) && held.contains(Key::LAlt)
}

/// Whether `key` is one of the two trigger keys.
pub open spec fn is_trigger(key: Key) -> bool {
    key == Key::C || key == Key::X
}

/// The recorder after a press of `button` at `now`: stored while recording,
/// dropped otherwise.
pub open spec fn clicked(r: RecorderView, button: MouseButton, now: u64) -> RecorderView {
    if r.is_recording {
        recorded(r, button, now)
    } else {
        r
    }
}

/// The recorder after a press of `key` at `now` with the keys `held` down.
pub open spec fn after_key(r: RecorderView, held: Seq<Key>, key: Key, now: u64) -> RecorderView {
    if key == Key::C && modifiers_held(held) {
        toggled(r, now)
    } else {
        r
    }
}

/// What a press of `key` comes to with the keys `held` down.
pub open spec fn key_result(r: RecorderView, held: Seq<Key>, key: Key) -> KeyResult {
    if !is_trigger(key) || !modifiers_held(held) {
        KeyResult::Ignored
    } else if key == Key::C {
        if r.is_recording {
            KeyResult::RecordingStopped
        } else {
            KeyResult::RecordingStarted
        }
    } else if r.is_recording {
        KeyResult::ReplayRejected
    } else {
        KeyResult::Replay(r.events)
    }
}

/// The recorder after `event` has arrived at `now`. An echo changes nothing.
/// Any other event asks the replay in flight to stop, and then takes effect.
pub open spec fn dispatched(
    r: RecorderView,
    last: LastEnigoEvent,
    event: DeviceEvent,
    held: Seq<Key>,
    now: u64,
) -> RecorderView {
    if is_echo(last, event, now) {
        r
    } else {
        match event {
            DeviceEvent::MouseMove(position) => moved(with_interrupt(r, true), position),
            DeviceEvent::MouseDown(id) => match button_of_id(id) {
                Some(button) => clicked(with_interrupt(r, true), button, now),
                None => with_interrupt(r, true),
            },
            DeviceEvent::KeyDown(key) => after_key(with_interrupt(r, true), held, key, now),
        }
    }
}

/// What `event`, arriving at `now`, comes to.
pub open spec fn dispatch_result(
    r: RecorderView,
    last: LastEnigoEvent,
    event: DeviceEvent,
    held: Seq<Key>,
    now: u64,
) -> DispatchResult {
    if is_echo(last, event, now) {
        DispatchResult::Suppressed
    } else {
        match event {
            DeviceEvent::MouseMove(_) => DispatchResult::CursorMoved,
            DeviceEvent::MouseDown(id) => match button_of_id(id) {
                Some(_) => if r.is_recording {
                    DispatchResult::ClickRecorded
                } else {
                    DispatchResult::ClickIgnored
                },
                None => DispatchResult::UnknownButton,
            },
            DeviceEvent::KeyDown(key) => DispatchResult::Key(key_result(r, held, key)),
        }
    }
}

/// Tells whether `key` is among `held`.
pub fn is_held(held: &Vec<Key>, key: Key) -> (found: bool)
    ensures
        found == held@.contains(key),
{
    let mut i: usize = 0;
    while i < held.len()
        invariant
            i <= held.len(),
            forall|j: int| 0 <= j < i ==> held@[j] != key,
        decreases held.len() - i,
    {
        if held[i] == key {
            return true;
        }
        i += 1;
    }
    false
}

/// Tells whether left control, left shift and left alt are all among `held`.
pub fn all_modifiers_held(held: &Vec<Key>) -> (all: bool)
    ensures
        all == modifiers_held(held@),
{
    is_held(held, Key::LControl) && is_held(held, Key::LShift) && is_held(held, Key::LAlt)
}

/// Notes the cursor position.
pub fn handle_mouse_move(recorder: &mut MouseRecorder, position: (i32, i32))
    ensures
        final(recorder)@ == moved(old(recorder)@, position),
{
    recorder.set_mouse_position(position);
}

/// Stores a press of `button` while recording, and drops it otherwise.
/// Returns whether the click was stored.
pub fn handle_mouse_down(recorder: &mut MouseRecorder, button: MouseButton, now: u64) -> (stored:
    bool)
    ensures
        final(recorder)@ == clicked(old(recorder)@, button, now),
        stored == old(recorder)@.is_recording,
{
    if !recorder.is_recording() {
        return false;
    }
    recorder.record_mouse_click_event(button, now);
    true
}

/// Acts on a press of `key` while the keys `held` are down. Only a trigger
/// key with all three modifiers held does anything: one toggles the
/// recording, the other asks for a replay of the buffered clicks, which is
/// turned down while a recording runs.
pub fn handle_key_down(held: &Vec<Key>, recorder: &mut MouseRecorder, key: Key, now: u64) -> (outcome:
    KeyOutcome)
    ensures
        final(recorder)@ == after_key(old(recorder)@, held@, key, now),
        outcome@ == key_result(old(recorder)@, held@, key),
{
    if key != Key::C && key != Key::X {
        return KeyOutcome::Ignored;
    }
    if !all_modifiers_held(held) {
        return KeyOutcome::Ignored;
    }
    if key == Key::C {
        if recorder.toggle_recording(now) {
            KeyOutcome::RecordingStarted
        } else {
            KeyOutcome::RecordingStopped
        }
    } else if recorder.is_recording() {
        KeyOutcome::ReplayRejected
    } else {
        KeyOutcome::Replay(ReplayEvent { events: recorder.get_mouse_click_events() })
    }
}

/// Handles one device event that arrived at `now`, with the keys `held`
/// down at that instant and `last` the engine's latest injection.
pub fn dispatch(
    recorder: &mut MouseRecorder,
    last: &LastEnigoEvent,
    event: DeviceEvent,
    held: &Vec<Key>,
    now: u64,
) -> (outcome: DispatchOutcome)
    ensures
        final(recorder)@ == dispatched(old(recorder)@, *last, event, held@, now),
        outcome@ == dispatch_result(old(recorder)@, *last, event, held@, now),
{
    if last.suppresses(&event, now) {
        return DispatchOutcome::Suppressed;
    }
    recorder.set_interrupt(true);
    match event {
        DeviceEvent::MouseMove(position) => {
            handle_mouse_move(recorder, position);
            DispatchOutcome::CursorMoved
        },
        DeviceEvent::MouseDown(id) => match button_from_id(id) {
            Some(button) => {
                if handle_mouse_down(recorder, button, now) {
                    DispatchOutcome::ClickRecorded
                } else {
                    DispatchOutcome::ClickIgnored
                }
            },
            None => DispatchOutcome::UnknownButton,
        },
        DeviceEvent::KeyDown(key) => DispatchOutcome::Key(handle_key_down(held, recorder, key, now)),
    }
}

/// No device event gives the first click of the buffer a delay.
pub proof fn lemma_dispatch_keeps_first_delay_zero(
    r: RecorderView,
    last: LastEnigoEvent,
    event: DeviceEvent,
    held: Seq<Key>,
    now: u64,
)
    requires
        first_delay_is_zero(r.events),
    ensures
        first_delay_is_zero(dispatched(r, last, event, held, now).events),
{
}

/// Whether `after` is `before`, or `before` with one click appended.
pub open spec fn same_or_appended(before: Seq<MouseClickEvent>, after: Seq<MouseClickEvent>) -> bool {
    after == before || (after.len() == before.len() + 1 && after.drop_last() == before)
}

/// While a recording runs, a device event leaves the buffered clicks alone or
/// appends one click to them.
pub proof fn lemma_recording_only_appends(
    r: RecorderView,
    last: LastEnigoEvent,
    event: DeviceEvent,
    held: Seq<Key>,
    now: u64,
)
    requires
        r.is_recording,
    ensures
        same_or_appended(r.events, dispatched(r, last, event, held, now).events),
{
    let after = dispatched(r, last, event, held, now).events;
    if after != r.events {
        assert(after.drop_last() =~= r.events);
    }
}

/// While no recording runs, a device event leaves the buffered clicks alone,
/// unless it starts a recording: then the buffer is empty.
pub proof fn lemma_idle_buffer_is_kept_or_cleared(
    r: RecorderView,
    last: LastEnigoEvent,
    event: DeviceEvent,
    held: Seq<Key>,
    now: u64,
)
    requires
        !r.is_recording,
    ensures
        dispatched(r, last, event, held, now).is_recording ==> dispatched(
            r,
            last,
            event,
            held,
            now,
        ).events == Seq::<MouseClickEvent>::empty(),
        !dispatched(r, last, event, held, now).is_recording ==> dispatched(
            r,
            last,
            event,
            held,
            now,
        ).events == r.events,
{
}

/// While a recording runs, no key press yields a replay request, and the
/// replay key changes nothing in the recorder; arriving as a device event, it
/// leaves the buffered clicks as they are.
pub proof fn lemma_no_replay_while_recording(
    r: RecorderView,
    last: LastEnigoEvent,
    held: Seq<Key>,
    key: Key,
    now: u64,
)
    requires
        r.is_recording,
    ensures
        !(key_result(r, held, key) is Replay),
        after_key(r, held, Key::X, now) == r,
        dispatched(r, last, DeviceEvent::KeyDown(Key::X), held, now).events == r.events,
        forall|events: Seq<MouseClickEvent>|
            dispatch_result(r, last, DeviceEvent::KeyDown(key), held, now) != DispatchResult::Key(
                KeyResult::Replay(events),
            ),
{
}

/// A cursor move to the position of the last injection is dropped while the
/// debounce window is open, and then changes nothing; once the window has
/// closed it is never dropped: it moves the cursor and asks the replay in
/// flight to stop.
pub proof fn lemma_move_echo_iff_within_window(
    r: RecorderView,
    last: LastEnigoEvent,
    held: Seq<Key>,
    now: u64,
)
    ensures
        within_debounce(last, now) ==> dispatched(
            r,
            last,
            DeviceEvent::MouseMove(last.position),
            held,
            now,
        ) == r && dispatch_result(r, last, DeviceEvent::MouseMove(last.position), held, now)
            == DispatchResult::Suppressed,
        !within_debounce(last, now) ==> dispatched(
            r,
            last,
            DeviceEvent::MouseMove(last.position),
            held,
            now,
        ) == moved(with_interrupt(r, true), last.position) && dispatch_result(
            r,
            last,
            DeviceEvent::MouseMove(last.position),
            held,
            now,
        ) == DispatchResult::CursorMoved,
{
}

} // verus!
