//! The replay engine, as a machine that is asked for one action at a time.
//!
//! The caller performs each action (a wait, an injection, a diagnostic) and
//! asks for the next. For every click of the request the engine waits for the
//! click's delay, looks at the interrupt flag, and then moves the cursor,
//! presses and releases, with a short pause before the press and before the
//! release. The flag is looked at only before the move: an injection that has
//! begun is always completed.

use vstd::prelude::*;
use crate::echo::{DEBOUNCE_NANOS, LastEnigoEvent, is_echo};
use crate::event::{DeviceEvent, MouseButton, MouseClickEvent, ReplayEvent, elapsed_since};
use crate::recorder::{MouseRecorder, with_interrupt};

verus! {

/// Pause before the press and before the release, in nanoseconds.
pub const STEP_PAUSE_NANOS: u64 = 10_000_000;

/// Where the engine stands within the click that it reproduces.
#[derive(Clone, Copy, Debug, PartialEq, Eq, Structural)]
pub enum ReplayPhase {
    /// About to wait for the click's delay.
    Delay,
    /// About to look at the interrupt flag and move the cursor.
    Move,
    /// About to pause before the press.
    PressPause,
    /// About to press the button.
    Press,
    /// About to pause before the release.
    ReleasePause,
    /// About to release the button.
    Release,
}

/// What the caller has to do next.
#[derive(Clone, Copy, Debug, PartialEq, Eq)]
pub enum ReplayAction {
    /// Nothing is in flight: wait for the next request and hand it over.
    AwaitRequest,
    /// Suspend for this many nanoseconds.
    Sleep(u64),
    /// Move the cursor to this position.
    MoveTo((i32, i32)),
    /// Press this button.
    Press(MouseButton),
    /// Release this button.
    Release(MouseButton),
    /// The replay was interrupted: report it.
    Interrupted,
}

/// A replay engine as a mathematical value: the clicks of the request in
/// flight, the index of the click to reproduce next, and the phase within it.
pub struct EngineView {
    pub events: Seq<MouseClickEvent>,
    pub next: nat,
    pub phase: ReplayPhase,
}

/// An engine is idle when no click of its request is left.
pub open spec fn is_idle(e: EngineView) -> bool {
    e.next >= e.events.len()
}

/// An engine that has just taken a request with the clicks `events`.
pub open spec fn loaded(events: Seq<MouseClickEvent>) -> EngineView {
    EngineView { events, next: 0, phase: ReplayPhase::Delay }
}

/// The action that engine `e` asks for when the interrupt flag reads
/// `interrupt`.
pub open spec fn step_action(e: EngineView, interrupt: bool) -> ReplayAction {
    if is_idle(e) {
        ReplayAction::AwaitRequest
    } else {
        let click = e.events[e.next as int];
        match e.phase {
            ReplayPhase::Delay => ReplayAction::Sleep(click.relative_time),
            ReplayPhase::Move => if interrupt {
                ReplayAction::Interrupted
            } else {
                ReplayAction::MoveTo(click.position)
            },
            ReplayPhase::PressPause => ReplayAction::Sleep(STEP_PAUSE_NANOS),
            ReplayPhase::Press => ReplayAction::Press(click.button),
            ReplayPhase::ReleasePause => ReplayAction::Sleep(STEP_PAUSE_NANOS),
            ReplayPhase::Release => ReplayAction::Release(click.button),
        }
    }
}

/// The engine after it has asked for that action.
pub open spec fn step_state(e: EngineView, interrupt: bool) -> EngineView {
    if is_idle(e) {
        e
    } else {
        match e.phase {
            ReplayPhase::Delay => EngineView { phase: ReplayPhase::Move, ..e },
            ReplayPhase::Move => if interrupt {
                EngineView { next: e.events.len(), phase: ReplayPhase::Delay, ..e }
            } else {
                EngineView { phase: ReplayPhase::PressPause, ..e }
            },
            ReplayPhase::PressPause => EngineView { phase: ReplayPhase::Press, ..e },
            ReplayPhase::Press => EngineView { phase: ReplayPhase::ReleasePause, ..e },
            ReplayPhase::ReleasePause => EngineView { phase: ReplayPhase::Release, ..e },
            ReplayPhase::Release => EngineView { next: e.next + 1, phase: ReplayPhase::Delay, ..e },
        }
    }
}

/// The record of the last injection after that step, taken at `now`: it is
/// renewed just before the cursor is moved, and only then.
pub open spec fn step_last(e: EngineView, interrupt: bool, last: LastEnigoEvent, now: u64) -> LastEnigoEvent {
    if !is_idle(e) && e.phase == ReplayPhase::Move && !interrupt {
        LastEnigoEvent { position: e.events[e.next as int].position, ts: now }
    } else {
        last
    }
}

/// The replay engine: the request in flight and how far it has got.
pub struct ReplayEngine {
    events: Vec<MouseClickEvent>,
    next: usize,
    phase: ReplayPhase,
}

impl View for ReplayEngine {
    type V = EngineView;

    closed spec fn view(&self) -> EngineView {
        EngineView { events: self.events@, next: self.next as nat, phase: self.phase }
    }
}

impl ReplayEngine {
    /// An engine with no request in flight.
    pub fn new() -> (engine: ReplayEngine)
        ensures
            engine@ == loaded(Seq::empty()),
            is_idle(engine@),
    {
        ReplayEngine { events: Vec::new(), next: 0, phase: ReplayPhase::Delay }
    }

    /// Tells whether no request is in flight.
    pub fn is_idle(&self) -> (idle: bool)
        ensures
            idle == is_idle(self@),
    {
        self.next >= self.events.len()
    }

    /// Hands a request to the engine. An idle engine takes it and clears the
    /// interrupt flag. A busy engine changes nothing and gives the request
    /// back: requests are served one at a time.
    pub fn accept(&mut self, recorder: &mut MouseRecorder, request: ReplayEvent) -> (refused:
        Option<ReplayEvent>)
        ensures
            is_idle(old(self)@) ==> refused.is_none() && final(self)@ == loaded(request.events@)
                && final(recorder)@ == with_interrupt(old(recorder)@, false),
            !is_idle(old(self)@) ==> refused == Some(request) && final(self)@ == old(self)@
                && final(recorder)@ == old(recorder)@,
    {
        if self.next < self.events.len() {
            return Some(request);
        }
        recorder.set_interrupt(false);
        self.events = request.events;
        self.next = 0;
        self.phase = ReplayPhase::Delay;
        None
    }

    /// Gives the next action and advances. `recorder` is read for the
    /// interrupt flag; `last` is renewed, with the time `now`, just before a
    /// cursor move is asked for.
    pub fn next_action(&mut self, recorder: &MouseRecorder, last: &mut LastEnigoEvent, now: u64) -> (action:
        ReplayAction)
        ensures
            action == step_action(old(self)@, recorder@.should_interrupt_replay),
            final(self)@ == step_state(old(self)@, recorder@.should_interrupt_replay),
            *final(last) == step_last(
                old(self)@,
                recorder@.should_interrupt_replay,
                *old(last),
                now,
            ),
    {
        if self.next >= self.events.len() {
            return ReplayAction::AwaitRequest;
        }
        let click = self.events[self.next];
        match self.phase {
            ReplayPhase::Delay => {
                self.phase = ReplayPhase::Move;
                ReplayAction::Sleep(click.relative_time)
            },
            ReplayPhase::Move => {
                if recorder.should_interrupt_replay() {
                    self.next = self.events.len();
                    self.phase = ReplayPhase::Delay;
                    ReplayAction::Interrupted
                } else {
                    last.update(click.position, now);
                    self.phase = ReplayPhase::PressPause;
                    ReplayAction::MoveTo(click.position)
                }
            },
            ReplayPhase::PressPause => {
                self.phase = ReplayPhase::Press;
                ReplayAction::Sleep(STEP_PAUSE_NANOS)
            },
            ReplayPhase::Press => {
                self.phase = ReplayPhase::ReleasePause;
                ReplayAction::Press(click.button)
            },
            ReplayPhase::ReleasePause => {
                self.phase = ReplayPhase::Release;
                ReplayAction::Sleep(STEP_PAUSE_NANOS)
            },
            ReplayPhase::Release => {
                self.next = self.next + 1;
                self.phase = ReplayPhase::Delay;
                ReplayAction::Release(click.button)
            },
        }
    }
}

/// Whether an action injects synthetic input.
pub open spec fn injects(action: ReplayAction) -> bool {
    match action {
        ReplayAction::MoveTo(_) => true,
        ReplayAction::Press(_) => true,
        ReplayAction::Release(_) => true,
        _ => false,
    }
}

/// The engine after as many steps as `flags` is long, where step `i` finds
/// the interrupt flag reading `flags[i]`.
pub open spec fn run_state(e: EngineView, flags: Seq<bool>) -> EngineView
    decreases flags.len(),
{
    if flags.len() == 0 {
        e
    } else {
        run_state(step_state(e, flags[0]), flags.drop_first())
    }
}

/// The actions that the engine asks for over those steps, in order.
pub open spec fn run_actions(e: EngineView, flags: Seq<bool>) -> Seq<ReplayAction>
    decreases flags.len(),
{
    if flags.len() == 0 {
        Seq::empty()
    } else {
        seq![step_action(e, flags[0])] + run_actions(step_state(e, flags[0]), flags.drop_first())
    }
}

/// `n` readings of the interrupt flag with no interrupt among them.
pub open spec fn quiet(n: nat) -> Seq<bool> {
    Seq::new(n, |i: int| false)
}

/// The actions that reproduce one click.
pub open spec fn click_script(click: MouseClickEvent) -> Seq<ReplayAction> {
    seq![
        ReplayAction::Sleep(click.relative_time),
        ReplayAction::MoveTo(click.position),
        ReplayAction::Sleep(STEP_PAUSE_NANOS),
        ReplayAction::Press(click.button),
        ReplayAction::Sleep(STEP_PAUSE_NANOS),
        ReplayAction::Release(click.button),
    ]
}

/// The actions that reproduce the clicks of `events` from index `from` on.
pub open spec fn script_from(events: Seq<MouseClickEvent>, from: nat) -> Seq<ReplayAction>
    decreases events.len() - from,
{
    if from >= events.len() {
        Seq::empty()
    } else {
        click_script(events[from as int]) + script_from(events, from + 1)
    }
}

/// The engine asks for the next request exactly when it is idle, so a request
/// is taken up only after the one before it has been reproduced or
/// interrupted.
pub proof fn lemma_asks_for_request_iff_idle(e: EngineView, interrupt: bool)
    ensures
        step_action(e, interrupt) == ReplayAction::AwaitRequest <==> is_idle(e),
{
}

/// A run asks for one action per step.
pub proof fn lemma_run_length(e: EngineView, flags: Seq<bool>)
    ensures
        run_actions(e, flags).len() == flags.len(),
    decreases flags.len(),
{
    if flags.len() > 0 {
        lemma_run_length(step_state(e, flags[0]), flags.drop_first());
    }
}

/// An idle engine stays idle and asks for nothing but the next request,
/// whatever the interrupt flag reads.
pub proof fn lemma_idle_engine_only_waits(e: EngineView, flags: Seq<bool>)
    requires
        is_idle(e),
    ensures
        run_state(e, flags) == e,
        run_actions(e, flags) == Seq::new(flags.len(), |i: int| ReplayAction::AwaitRequest),
    decreases flags.len(),
{
    if flags.len() > 0 {
        lemma_idle_engine_only_waits(e, flags.drop_first());
    }
    assert(run_actions(e, flags) =~= Seq::new(flags.len(), |i: int| ReplayAction::AwaitRequest));
}

/// Once the engine finds the interrupt flag set at its check before a click,
/// it injects nothing more of the request in flight: neither that click nor
/// any after it, whatever the flag reads later. The check is the step of
/// phase `Move`; an engine in phase `Delay` reaches it with its second step.
pub proof fn lemma_interrupt_ends_replay(e: EngineView, flags: Seq<bool>)
    requires
        e.phase == ReplayPhase::Delay || e.phase == ReplayPhase::Move,
        e.phase == ReplayPhase::Move ==> flags.len() >= 1 && flags[0],
        e.phase == ReplayPhase::Delay ==> flags.len() >= 2 && flags[1],
    ensures
        is_idle(run_state(e, flags)),
        forall|i: int| 0 <= i < flags.len() ==> !injects(#[trigger] run_actions(e, flags)[i]),
    decreases flags.len(),
{
    lemma_run_length(e, flags);
    if is_idle(e) {
        lemma_idle_engine_only_waits(e, flags);
    } else if e.phase == ReplayPhase::Move {
        let rest = flags.drop_first();
        let stopped = step_state(e, true);
        lemma_idle_engine_only_waits(stopped, rest);
        assert forall|i: int| 0 <= i < flags.len() implies !injects(
            #[trigger] run_actions(e, flags)[i],
        ) by {
            if i > 0 {
                assert(run_actions(e, flags)[i] == run_actions(stopped, rest)[i - 1]);
            }
        }
    } else {
        let rest = flags.drop_first();
        let checking = step_state(e, flags[0]);
        lemma_interrupt_ends_replay(checking, rest);
        lemma_run_length(checking, rest);
        assert forall|i: int| 0 <= i < flags.len() implies !injects(
            #[trigger] run_actions(e, flags)[i],
        ) by {
            if i > 0 {
                assert(run_actions(e, flags)[i] == run_actions(checking, rest)[i - 1]);
            }
        }
    }
}

/// While the interrupt flag stays set, the engine begins no click: it asks
/// for no cursor move. At most it completes the press and release of a click
/// whose move it had asked for before.
pub proof fn lemma_no_click_begins_while_interrupted(e: EngineView, flags: Seq<bool>)
    requires
        forall|i: int| 0 <= i < flags.len() ==> flags[i],
    ensures
        forall|i: int|
            0 <= i < flags.len() ==> !(#[trigger] run_actions(e, flags)[i] is MoveTo),
    decreases flags.len(),
{
    lemma_run_length(e, flags);
    if flags.len() > 0 {
        let rest = flags.drop_first();
        let after = step_state(e, flags[0]);
        lemma_no_click_begins_while_interrupted(after, rest);
        lemma_run_length(after, rest);
        assert forall|i: int| 0 <= i < flags.len() implies !(#[trigger] run_actions(e, flags)[i]
            is MoveTo) by {
            if i > 0 {
                assert(run_actions(e, flags)[i] == run_actions(after, rest)[i - 1]);
            }
        }
    }
}

/// The engine's own input counts as an echo: when it asks for a cursor move
/// at `now`, a move to that position, and any button press, that the devices
/// report at `later`, less than the debounce window after `now`, is dropped.
pub proof fn lemma_own_input_is_echo(
    e: EngineView,
    last: LastEnigoEvent,
    now: u64,
    later: u64,
    button_id: usize,
)
    requires
        !is_idle(e),
        e.phase == ReplayPhase::Move,
        elapsed_since(now, later) < DEBOUNCE_NANOS,
    ensures
        step_action(e, false) == ReplayAction::MoveTo(e.events[e.next as int].position),
        is_echo(
            step_last(e, false, last, now),
            DeviceEvent::MouseMove(e.events[e.next as int].position),
            later,
        ),
        is_echo(step_last(e, false, last, now), DeviceEvent::MouseDown(button_id), later),
{
}

/// One step of a run that no interrupt disturbs.
pub proof fn lemma_quiet_step(e: EngineView, n: nat)
    requires
        n > 0,
    ensures
        run_state(e, quiet(n)) == run_state(step_state(e, false), quiet((n - 1) as nat)),
        run_actions(e, quiet(n)) == seq![step_action(e, false)] + run_actions(
            step_state(e, false),
            quiet((n - 1) as nat),
        ),
{
    assert(quiet(n).drop_first() =~= quiet((n - 1) as nat));
}

/// With no interrupt, an engine that stands before the delay of click `from`
/// reproduces every click from there on, in order and in full: for each the
/// wait of its recorded delay, the move to its position, a pause, the press, a
/// pause, the release. After six steps per click it is idle.
pub proof fn lemma_quiet_run_follows_script(events: Seq<MouseClickEvent>, from: nat)
    requires
        from <= events.len(),
    ensures
        run_actions(
            EngineView { events, next: from, phase: ReplayPhase::Delay },
            quiet(6 * (events.len() - from) as nat),
        ) == script_from(events, from),
        is_idle(
            run_state(
                EngineView { events, next: from, phase: ReplayPhase::Delay },
                quiet(6 * (events.len() - from) as nat),
            ),
        ),
    decreases events.len() - from,
{
    let n = (6 * (events.len() - from)) as nat;
    let e0 = EngineView { events, next: from, phase: ReplayPhase::Delay };
    if from < events.len() {
        let e1 = step_state(e0, false);
        let e2 = step_state(e1, false);
        let e3 = step_state(e2, false);
        let e4 = step_state(e3, false);
        let e5 = step_state(e4, false);
        let e6 = step_state(e5, false);
        lemma_quiet_step(e0, n);
        lemma_quiet_step(e1, (n - 1) as nat);
        lemma_quiet_step(e2, (n - 2) as nat);
        lemma_quiet_step(e3, (n - 3) as nat);
        lemma_quiet_step(e4, (n - 4) as nat);
        lemma_quiet_step(e5, (n - 5) as nat);
        lemma_quiet_run_follows_script(events, from + 1);
        assert(e6 == EngineView { events, next: from + 1, phase: ReplayPhase::Delay });
        assert((n - 6) as nat == (6 * (events.len() - (from + 1))) as nat);
        assert(run_actions(e0, quiet(n)) =~= click_script(events[from as int]) + run_actions(
            e6,
            quiet((n - 6) as nat),
        ));
    }
}

/// A request that no interrupt disturbs is reproduced in full, click by
/// click, and leaves the engine idle.
pub proof fn lemma_quiet_replay_is_script(events: Seq<MouseClickEvent>)
    ensures
        run_actions(loaded(events), quiet(6 * events.len())) == script_from(events, 0),
        is_idle(run_state(loaded(events), quiet(6 * events.len()))),
{
    lemma_quiet_run_follows_script(events, 0);
}

/// In the run of a whole request that no interrupt disturbs, the wait that
/// comes directly before the move to click `i` is that click's recorded
/// delay, and the press and release that follow are of its button.
pub proof fn lemma_script_keeps_delays(events: Seq<MouseClickEvent>, from: nat, i: nat)
    requires
        from <= i < events.len(),
    ensures
        script_from(events, from).len() == 6 * (events.len() - from),
        script_from(events, from)[6 * (i - from)] == ReplayAction::Sleep(events[i as int].relative_time),
        script_from(events, from)[6 * (i - from) + 1] == ReplayAction::MoveTo(events[i as int].position),
        script_from(events, from)[6 * (i - from) + 3] == ReplayAction::Press(events[i as int].button),
        script_from(events, from)[6 * (i - from) + 5] == ReplayAction::Release(events[i as int].button),
    decreases events.len() - from,
{
    lemma_script_length(events, from + 1);
    if from < i {
        lemma_script_keeps_delays(events, from + 1, i);
    }
}

/// A script holds six actions for each click.
pub proof fn lemma_script_length(events: Seq<MouseClickEvent>, from: nat)
    ensures
        script_from(events, from).len() == if from <= events.len() {
            6 * (events.len() - from)
        } else {
            0
        },
    decreases events.len() - from,
{
    if from < events.len() {
        lemma_script_length(events, from + 1);
    }
}

} // verus!
