//! The controller: one owning context that threads the shared state through
//! every task and through the button interrupt.

use vstd::prelude::*;
use crate::blink::{blink, blink_command, blinked, BlinkStep};
use crate::clock::CyclesComputer;
use crate::edges::{
    bounced, classified, detected, held, lemma_held_button_reports_hold,
    lemma_release_cancels_hold, stamped, EdgeOutcome, EdgeTimestamps,
};
use crate::events::{front_of, offered, without_front, ButtonEvents, EventQueue, EVENT_QUEUE_CAPACITY};
use crate::flash::{flash_command, flashed, FlashState, FlashStep};
use crate::scheduler::{is_next_due, none_due, scheduled, Pending, Scheduler, SCHEDULE_CAPACITY};
use crate::selection::{
    dispatch, dispatched, handed_to, lemma_next_index_on_ring, SelectionState,
};
use crate::tasks::{armed_for, task_of, Command, Task};
use crate::ticks::{advance, elapsed, Tick};
use crate::timing::{timing_at, Timing};

verus! {

/// What a task wants done with the LEDs.
#[derive(Clone, Copy, Debug, PartialEq, Eq, Structural)]
pub enum LedCommand {
    /// Leave every LED as it is.
    Leave,
    /// Switch one LED.
    One { index: usize, on: bool },
    /// Switch every LED of the ring.
    All { on: bool },
}

/// What running one task came to.
#[derive(Clone, Copy, Debug, PartialEq, Eq, Structural)]
pub struct TaskReport {
    /// The task that ran.
    pub task: Task,
    /// What to do with the LEDs.
    pub leds: LedCommand,
    /// The event that the task took from the queue or offered to it.
    pub event: Option<ButtonEvents>,
    /// What the task asked of the scheduler.
    pub command: Option<Command>,
    /// Whether the scheduler had a free slot for that command.
    pub armed: bool,
}

/// What a button edge came to.
#[derive(Clone, Copy, Debug, PartialEq, Eq, Structural)]
pub struct EdgeReport {
    /// What the edge detector made of the edge.
    pub outcome: EdgeOutcome,
    /// Whether the event queue had room for the gesture.
    pub queued: bool,
    /// Whether the scheduler had a free slot for the hold check.
    pub armed: bool,
}

/// The whole state of the controller, as plain values.
pub struct ControllerState {
    pub timing: Timing,
    pub ring_len: usize,
    pub selection: SelectionState,
    pub stamps: EdgeTimestamps,
    pub flash: FlashState,
    pub events: Seq<ButtonEvents>,
    pub waiting: Seq<Pending>,
}

/// The schedule after a task that ran for the deadline `baseline` gave
/// `command`: a spawned task is due at the baseline itself, and so at once.
pub open spec fn commanded(waiting: Seq<Pending>, command: Command, baseline: Tick) -> Seq<Pending> {
    scheduled(waiting, task_of(command), armed_for(command, baseline))
}

/// The state at start-up: first LED selected and dark, no edge seen, no
/// burst under way, no event waiting, and the blink engine armed one
/// off-period after `start`.
pub open spec fn started(timing: Timing, ring_len: usize, start: Tick) -> ControllerState {
    ControllerState {
        timing,
        ring_len,
        selection: SelectionState::initial(),
        stamps: EdgeTimestamps::initial(start),
        flash: FlashState::initial(),
        events: Seq::empty(),
        waiting: seq![Pending { task: Task::Blink, at: advance(start, timing.off) }],
    }
}

/// What `task`, run for the deadline `at`, asks of the scheduler.
pub open spec fn command_of(state: ControllerState, task: Task, at: Tick) -> Option<Command> {
    match task {
        Task::Blink => Some(blink_command(state.selection, at, state.timing)),
        Task::Dispatcher => Some(Command::Spawn(handed_to(front_of(state.events)))),
        Task::Flash => Some(flash_command(state.flash, at, state.timing)),
        Task::HoldCheck => None,
    }
}

/// The state after `task` ran for the deadline `at`.
pub open spec fn ran(state: ControllerState, task: Task, at: Tick) -> ControllerState {
    let waiting = match command_of(state, task, at) {
        Some(command) => commanded(state.waiting, command, at),
        None => state.waiting,
    };
    match task {
        Task::Blink => ControllerState { selection: blinked(state.selection), waiting, ..state },
        Task::Dispatcher => ControllerState {
            selection: dispatched(state.selection, front_of(state.events), state.ring_len),
            events: without_front(state.events),
            waiting,
            ..state
        },
        Task::Flash => ControllerState { flash: flashed(state.flash), waiting, ..state },
        Task::HoldCheck => ControllerState {
            events: if held(state.stamps, at, state.timing.hold) {
                offered(state.events, ButtonEvents::Hold)
            } else {
                state.events
            },
            ..state
        },
    }
}

/// What running `task` for the deadline `at` reports.
pub open spec fn reported(state: ControllerState, task: Task, at: Tick) -> TaskReport {
    TaskReport {
        task,
        leds: match task {
            Task::Blink => LedCommand::One {
                index: state.selection.current_led,
                on: !state.selection.led_state,
            },
            Task::Flash => LedCommand::All { on: state.flash.leds_state },
            Task::Dispatcher => LedCommand::Leave,
            Task::HoldCheck => LedCommand::Leave,
        },
        event: match task {
            Task::Dispatcher => front_of(state.events),
            Task::HoldCheck => if held(state.stamps, at, state.timing.hold) {
                Some(ButtonEvents::Hold)
            } else {
                None
            },
            Task::Blink => None,
            Task::Flash => None,
        },
        command: command_of(state, task, at),
        armed: command_of(state, task, at) is Some && state.waiting.len() < SCHEDULE_CAPACITY,
    }
}

/// The state after a button edge seen at `now`: the edge is stamped, and a
/// press offers its gesture to the event queue and its hold check to the
/// scheduler.
pub open spec fn edged(state: ControllerState, level_high: bool, now: Tick) -> ControllerState {
    let stamps = stamped(state.stamps, level_high, now, state.timing);
    match detected(state.stamps, level_high, now, state.timing) {
        EdgeOutcome::Pressed(press) => ControllerState {
            stamps,
            events: offered(state.events, press.event),
            waiting: scheduled(state.waiting, Task::HoldCheck, press.hold_check_at),
            ..state
        },
        EdgeOutcome::Released => ControllerState { stamps, ..state },
        EdgeOutcome::Rejected => ControllerState { stamps, ..state },
    }
}

/// What a button edge seen at `now` reports.
pub open spec fn edge_reported(state: ControllerState, level_high: bool, now: Tick) -> EdgeReport {
    let outcome = detected(state.stamps, level_high, now, state.timing);
    EdgeReport {
        outcome,
        queued: outcome is Pressed && state.events.len() < EVENT_QUEUE_CAPACITY,
        armed: outcome is Pressed && state.waiting.len() < SCHEDULE_CAPACITY,
    }
}

/// The state of the firmware between two task runs, with the event queue
/// and the scheduler that it owns.
pub struct Controller {
    timing: Timing,
    ring_len: usize,
    selection: SelectionState,
    stamps: EdgeTimestamps,
    flash: FlashState,
    events: EventQueue,
    scheduler: Scheduler,
}

impl View for Controller {
    type V = ControllerState;

    closed spec fn view(&self) -> ControllerState {
        ControllerState {
            timing: self.timing,
            ring_len: self.ring_len,
            selection: self.selection,
            stamps: self.stamps,
            flash: self.flash,
            events: self.events@,
            waiting: self.scheduler@,
        }
    }
}

/// The ring has an LED, both selected positions lie on it, the burst count
/// is within the burst, and queue and schedule are within their capacities.
pub open spec fn state_wf(state: ControllerState) -> bool {
    &&& state.ring_len > 0
    &&& state.selection.on_ring(state.ring_len)
    &&& state.flash.wf()
    &&& state.events.len() <= EVENT_QUEUE_CAPACITY
    &&& state.waiting.len() <= SCHEDULE_CAPACITY
}

impl Controller {
    /// The owned queue and schedule are well formed, and so is the state.
    pub closed spec fn wf(&self) -> bool {
        &&& self.events.wf()
        &&& self.scheduler.wf()
        &&& state_wf(self@)
    }

    /// Sets the controller up for a ring of `ring_len` LEDs, with the
    /// firmware's windows converted for `clock`, and arms the blink engine.
    pub fn new(clock: &CyclesComputer, ring_len: usize, start: Tick) -> (controller: Self)
        requires
            ring_len > 0,
        ensures
            controller.wf(),
            controller@ == started(timing_at(clock@), ring_len, start),
    {
        Controller::with_timing(Timing::for_clock(clock), ring_len, start)
    }

    /// Sets the controller up with windows of the caller's choosing.
    pub fn with_timing(timing: Timing, ring_len: usize, start: Tick) -> (controller: Self)
        requires
            ring_len > 0,
        ensures
            controller.wf(),
            controller@ == started(timing, ring_len, start),
    {
        let mut scheduler: Scheduler = Scheduler::new();
        let _ = scheduler.schedule(Task::Blink, start.after(timing.off));
        let controller = Controller {
            timing,
            ring_len,
            selection: SelectionState::new(),
            stamps: EdgeTimestamps::new(start),
            flash: FlashState::new(),
            events: EventQueue::new(),
            scheduler,
        };
        assert(controller@.waiting =~= started(timing, ring_len, start).waiting);
        controller
    }

    pub fn selection(&self) -> (selection: SelectionState)
        ensures
            selection == self@.selection,
    {
        self.selection
    }

    pub fn timing(&self) -> (timing: Timing)
        ensures
            timing == self@.timing,
    {
        self.timing
    }

    pub fn ring_len(&self) -> (ring_len: usize)
        ensures
            ring_len == self@.ring_len,
    {
        self.ring_len
    }

    pub fn timestamps(&self) -> (stamps: EdgeTimestamps)
        ensures
            stamps == self@.stamps,
    {
        self.stamps
    }

    pub fn flash_state(&self) -> (flash: FlashState)
        ensures
            flash == self@.flash,
    {
        self.flash
    }

    /// Number of events waiting for the dispatcher.
    pub fn events_waiting(&self) -> (n: usize)
        requires
            self.wf(),
        ensures
            n == self@.events.len(),
    {
        self.events.len()
    }

    /// Number of tasks waiting for their tick.
    pub fn tasks_waiting(&self) -> (n: usize)
        requires
            self.wf(),
        ensures
            n == self@.waiting.len(),
    {
        self.scheduler.len()
    }

    /// Hands a task's command to the scheduler; a spawned task is scheduled
    /// for the baseline of the task that spawned it.
    fn arm(&mut self, command: Command, baseline: Tick) -> (armed: bool)
        requires
            old(self).wf(),
        ensures
            final(self).wf(),
            final(self)@ == (ControllerState {
                waiting: commanded(old(self)@.waiting, command, baseline),
                ..old(self)@
            }),
            armed == (old(self)@.waiting.len() < SCHEDULE_CAPACITY),
    {
        let taken = match command {
            Command::Spawn(task) => self.scheduler.schedule(task, baseline),
            Command::ScheduleAt(task, at) => self.scheduler.schedule(task, at),
        };
        taken.is_ok()
    }

    /// Handles a button edge seen at `now`, with the button reading
    /// `level_high` after it.
    ///
    /// Nothing here waits: a gesture that finds the queue full and a hold
    /// check that finds the schedule full are dropped.
    pub fn on_button_edge(&mut self, level_high: bool, now: Tick) -> (report: EdgeReport)
        requires
            old(self).wf(),
        ensures
            final(self).wf(),
            final(self)@ == edged(old(self)@, level_high, now),
            report == edge_reported(old(self)@, level_high, now),
    {
        let timing: Timing = self.timing;
        let outcome: EdgeOutcome = self.stamps.on_edge(level_high, now, &timing);
        match outcome {
            EdgeOutcome::Pressed(press) => {
                let queued: bool = self.events.enqueue(press.event);
                let armed: bool = self.scheduler.schedule(Task::HoldCheck, press.hold_check_at).is_ok();
                EdgeReport { outcome, queued, armed }
            },
            EdgeOutcome::Released => EdgeReport { outcome, queued: false, armed: false },
            EdgeOutcome::Rejected => EdgeReport { outcome, queued: false, armed: false },
        }
    }

    /// Runs `task` for the deadline `at` and hands its command to the scheduler.
    pub fn run_task(&mut self, task: Task, at: Tick) -> (report: TaskReport)
        requires
            old(self).wf(),
        ensures
            final(self).wf(),
            final(self)@ == ran(old(self)@, task, at),
            report == reported(old(self)@, task, at),
    {
        let timing: Timing = self.timing;
        match task {
            Task::Blink => {
                let step: BlinkStep = blink(&mut self.selection, at, &timing);
                let armed: bool = self.arm(step.next, at);
                TaskReport {
                    task,
                    leds: LedCommand::One { index: step.led, on: step.on },
                    event: None,
                    command: Some(step.next),
                    armed,
                }
            },
            Task::Dispatcher => {
                let event: Option<ButtonEvents> = self.events.dequeue();
                let next: Task = dispatch(&mut self.selection, event, self.ring_len);
                let armed: bool = self.arm(Command::Spawn(next), at);
                TaskReport {
                    task,
                    leds: LedCommand::Leave,
                    event,
                    command: Some(Command::Spawn(next)),
                    armed,
                }
            },
            Task::Flash => {
                let step: FlashStep = self.flash.step(at, &timing);
                let armed: bool = self.arm(step.next, at);
                TaskReport {
                    task,
                    leds: LedCommand::All { on: step.leds_on },
                    event: None,
                    command: Some(step.next),
                    armed,
                }
            },
            Task::HoldCheck => {
                let event: Option<ButtonEvents> = self.stamps.hold_check(at, &timing);
                match event {
                    Some(found) => {
                        let _ = self.events.enqueue(found);
                    },
                    None => {},
                }
                TaskReport { task, leds: LedCommand::Leave, event, command: None, armed: false }
            },
        }
    }

    /// Runs the task that is due when the counter reads `now`, if there is
    /// one, for the deadline it was scheduled for.
    pub fn run_due(&mut self, now: Tick) -> (report: Option<TaskReport>)
        requires
            old(self).wf(),
        ensures
            final(self).wf(),
            report is None <==> none_due(old(self)@.waiting, now),
            report is None ==> final(self)@ == old(self)@,
            report is Some ==> exists|k: int|
                {
                    let before = ControllerState {
                        waiting: old(self)@.waiting.remove(k),
                        ..old(self)@
                    };
                    let entry = old(self)@.waiting[k];
                    &&& #[trigger] is_next_due(old(self)@.waiting, now, k)
                    &&& final(self)@ == ran(before, entry.task, entry.at)
                    &&& report == Some(reported(before, entry.task, entry.at))
                },
    {
        let ghost start = self@;
        match self.scheduler.take_due(now) {
            Some(entry) => {
                let ghost k = choose|k: int|
                    #[trigger] is_next_due(start.waiting, now, k) && entry == start.waiting[k]
                        && self.scheduler@ == start.waiting.remove(k);
                assert(self@ == (ControllerState { waiting: start.waiting.remove(k), ..start }));
                Some(self.run_task(entry.task, entry.at))
            },
            None => {
                assert(self@ == start);
                None
            },
        }
    }
}

/// The state of a well-formed controller is well formed: in particular its
/// event queue and its schedule are within their capacities.
pub proof fn lemma_controller_state_wf(controller: &Controller)
    requires
        controller.wf(),
    ensures
        state_wf(controller@),
{
}

/// Every task leaves a well-formed state well formed: the selection stays
/// on the ring, and the event queue and the schedule stay within their
/// capacities.
pub proof fn lemma_ran_preserves_wf(state: ControllerState, task: Task, at: Tick)
    requires
        state_wf(state),
    ensures
        state_wf(ran(state, task, at)),
{
    lemma_next_index_on_ring(
        state.selection.current_led as int,
        state.selection.advance_increasing,
        state.ring_len as int,
    );
    lemma_next_index_on_ring(
        state.selection.current_led as int,
        !state.selection.advance_increasing,
        state.ring_len as int,
    );
}

/// Every button edge leaves a well-formed state well formed.
pub proof fn lemma_edged_preserves_wf(state: ControllerState, level_high: bool, now: Tick)
    requires
        state_wf(state),
    ensures
        state_wf(edged(state, level_high, now)),
{
}

/// A press that is held through its hold window puts exactly two events in
/// the queue: its own gesture, which is a click or a double click, when the
/// button goes down, and one hold when the check armed by the press runs at
/// its deadline.
///
/// The queue has to have room for both, and the last release has to lie
/// before the press as seen from the deadline.
#[verifier::rlimit(50)]
pub proof fn lemma_held_press_queues_one_hold(state: ControllerState, now: Tick)
    requires
        state_wf(state),
        state.events.len() + 2 <= EVENT_QUEUE_CAPACITY,
        !bounced(state.stamps, now, state.timing.debounce),
        elapsed(advance(now, state.timing.hold), state.stamps.last_falling)
            > state.timing.hold.ticks,
    ensures
        ({
            let deadline = advance(now, state.timing.hold);
            let gesture = classified(state.stamps.last_falling, now, state.timing.double_click);
            let down = edged(state, true, now);
            let checked = ran(down, Task::HoldCheck, deadline);
            &&& gesture != ButtonEvents::Hold
            &&& down.events == state.events.push(gesture)
            &&& down.waiting == scheduled(state.waiting, Task::HoldCheck, deadline)
            &&& reported(down, Task::HoldCheck, deadline).event == Some(ButtonEvents::Hold)
            &&& checked.events == state.events.push(gesture).push(ButtonEvents::Hold)
            &&& checked.selection == state.selection
        }),
{
    let deadline = advance(now, state.timing.hold);
    let gesture = classified(state.stamps.last_falling, now, state.timing.double_click);
    let down = edged(state, true, now);
    assert(held(down.stamps, deadline, state.timing.hold) && down.timing == state.timing) by {
        lemma_held_button_reports_hold(state.stamps, now, state.timing);
    }
    assert(down.events == state.events.push(gesture));
    assert(offered(down.events, ButtonEvents::Hold) == down.events.push(ButtonEvents::Hold));
}

/// A button released before its hold window is over puts no hold in the
/// queue: the check armed by the press changes nothing.
#[verifier::rlimit(50)]
pub proof fn lemma_released_press_queues_no_hold(
    state: ControllerState,
    pressed_at: Tick,
    released_at: Tick,
)
    requires
        !bounced(state.stamps, pressed_at, state.timing.debounce),
        !bounced(
            stamped(state.stamps, true, pressed_at, state.timing),
            released_at,
            state.timing.debounce,
        ),
        elapsed(released_at, pressed_at) <= state.timing.hold.ticks,
    ensures
        ({
            let deadline = advance(pressed_at, state.timing.hold);
            let up = edged(edged(state, true, pressed_at), false, released_at);
            &&& reported(up, Task::HoldCheck, deadline).event is None
            &&& ran(up, Task::HoldCheck, deadline) == up
        }),
{
    lemma_release_cancels_hold(state.stamps, pressed_at, released_at, state.timing);
}

/// The dispatcher takes one event per run.  A hold starts the flash engine
/// and leaves the selection alone; every other event, and no event, moves
/// the selection as [`dispatched`] says and hands back to the blink engine.
pub proof fn lemma_dispatcher_hands_over(state: ControllerState, at: Tick)
    ensures
        ({
            let event = front_of(state.events);
            let after = ran(state, Task::Dispatcher, at);
            &&& after.events == without_front(state.events)
            &&& after.selection == dispatched(state.selection, event, state.ring_len)
            &&& after.flash == state.flash
            &&& after.stamps == state.stamps
            &&& event == Some(ButtonEvents::Hold) ==> after.selection == state.selection
                && command_of(state, Task::Dispatcher, at) == Some(Command::Spawn(Task::Flash))
            &&& event != Some(ButtonEvents::Hold) ==> command_of(state, Task::Dispatcher, at)
                == Some(Command::Spawn(Task::Blink))
            &&& after.waiting == scheduled(state.waiting, handed_to(event), at)
        }),
{
}

} // verus!
