//! The blink engine: the selected LED on a steady on/off duty cycle.

use vstd::prelude::*;
use crate::events::ButtonEvents;
use crate::selection::{dispatched, handed_to, SelectionState};
use crate::tasks::{armed_for, Command, Task};
use crate::ticks::{advance, elapsed, Tick, TickDuration};
use crate::timing::Timing;

verus! {

/// What one run of the blink engine asks of its surroundings.
#[derive(Clone, Copy, Debug, PartialEq, Eq, Structural)]
pub struct BlinkStep {
    /// LED to switch.
    pub led: usize,
    /// Level to switch it to.
    pub on: bool,
    /// What runs next, and when.
    pub next: Command,
}

/// Time the LED keeps the given level before the next toggle.
pub open spec fn period(lit: bool, timing: Timing) -> TickDuration {
    if lit {
        timing.on
    } else {
        timing.off
    }
}

/// The selection after one run of the blink engine: the level is toggled,
/// and when the LED goes dark the pending selection is adopted.
pub open spec fn blinked(selection: SelectionState) -> SelectionState {
    if selection.led_state {
        SelectionState { led_state: false, current_led: selection.next_led, ..selection }
    } else {
        SelectionState { led_state: true, ..selection }
    }
}

/// What the blink engine arms when it runs on `selection` at `scheduled`.
///
/// Going dark it re-arms itself one off-period later.  Lighting up it arms
/// the dispatcher one on-period later, so that events are handled once per
/// full period.
pub open spec fn blink_command(selection: SelectionState, scheduled: Tick, timing: Timing) -> Command {
    if selection.led_state {
        Command::ScheduleAt(Task::Blink, advance(scheduled, timing.off))
    } else {
        Command::ScheduleAt(Task::Dispatcher, advance(scheduled, timing.on))
    }
}

/// Runs the blink engine once, for the deadline `scheduled`.
pub fn blink(selection: &mut SelectionState, scheduled: Tick, timing: &Timing) -> (step: BlinkStep)
    ensures
        *final(selection) == blinked(*old(selection)),
        step.led == old(selection).current_led,
        step.on == !old(selection).led_state,
        step.next == blink_command(*old(selection), scheduled, *timing),
{
    let led: usize = selection.current_led;
    let on: bool = !selection.led_state;
    selection.led_state = on;
    if on {
        BlinkStep { led, on, next: Command::ScheduleAt(Task::Dispatcher, scheduled.after(timing.on)) }
    } else {
        selection.current_led = selection.next_led;
        BlinkStep { led, on, next: Command::ScheduleAt(Task::Blink, scheduled.after(timing.off)) }
    }
}

/// The blink engine alternates for good as long as no hold arrives.
///
/// From any selection, the toggle at `scheduled` flips the level and the
/// next toggle comes exactly one period of the new level later, whether the
/// engine re-armed itself or went through the dispatcher, which hands back
/// at once for every event other than a hold and leaves the level alone.
/// The toggle after that flips the level back and comes one period of the
/// other level later.
pub proof fn lemma_blink_alternates(
    selection: SelectionState,
    scheduled: Tick,
    timing: Timing,
    event: Option<ButtonEvents>,
    ring_len: usize,
)
    requires
        event != Some(ButtonEvents::Hold),
    ensures
        ({
            let first = blinked(selection);
            let second_at = armed_for(blink_command(selection, scheduled, timing), scheduled);
            let between = if first.led_state {
                dispatched(first, event, ring_len)
            } else {
                first
            };
            let second = blinked(between);
            let third_at = armed_for(blink_command(between, second_at, timing), second_at);
            &&& first.led_state == !selection.led_state
            &&& second.led_state == selection.led_state
            &&& elapsed(second_at, scheduled) == period(first.led_state, timing).ticks
            &&& elapsed(third_at, second_at) == period(second.led_state, timing).ticks
            &&& handed_to(event) == Task::Blink
            &&& blink_command(selection, scheduled, timing) == (if first.led_state {
                Command::ScheduleAt(Task::Dispatcher, second_at)
            } else {
                Command::ScheduleAt(Task::Blink, second_at)
            })
        }),
{
}

} // verus!
