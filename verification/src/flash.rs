//! The flash engine: every LED toggled together for a short burst that
//! acknowledges a hold.

use vstd::prelude::*;
use crate::tasks::{Command, Task};
use crate::ticks::{advance, Tick};
use crate::timing::Timing;

verus! {

/// Number of toggles in one burst: three times on and off.
pub const FLASH_TOGGLES: usize = 6;

/// Where the flash engine stands within its burst.
#[derive(Clone, Copy, Debug, PartialEq, Eq, Structural)]
pub struct FlashState {
    /// Level that the next run gives to every LED.
    pub leds_state: bool,
    /// Runs made so far in the current burst.
    pub cycle_count: usize,
}

/// What one run of the flash engine asks of its surroundings.
#[derive(Clone, Copy, Debug, PartialEq, Eq, Structural)]
pub struct FlashStep {
    /// Level to give to every LED.
    pub leds_on: bool,
    /// Number of this run within the burst, counted from zero.
    pub cycle: usize,
    /// What runs next, and when.
    pub next: Command,
}

/// The state after one run: the level is toggled and the run is counted; the
/// run that completes the burst puts the count back to zero.
pub open spec fn flashed(state: FlashState) -> FlashState {
    FlashState {
        leds_state: !state.leds_state,
        cycle_count: if state.cycle_count + 1 == FLASH_TOGGLES {
            0
        } else {
            (state.cycle_count + 1) as usize
        },
    }
}

/// What the flash engine arms when it runs in `state` at `scheduled`: itself
/// one flash period later, or the dispatcher at once when the burst is done.
pub open spec fn flash_command(state: FlashState, scheduled: Tick, timing: Timing) -> Command {
    if state.cycle_count + 1 == FLASH_TOGGLES {
        Command::Spawn(Task::Dispatcher)
    } else {
        Command::ScheduleAt(Task::Flash, advance(scheduled, timing.flash))
    }
}

/// The state after `runs` runs in a row.
pub open spec fn flashed_times(state: FlashState, runs: nat) -> FlashState
    decreases runs,
{
    if runs == 0 {
        state
    } else {
        flashed(flashed_times(state, (runs - 1) as nat))
    }
}

impl FlashState {
    /// The state between bursts: the first run lights the LEDs.
    pub open spec fn initial() -> FlashState {
        FlashState { leds_state: true, cycle_count: 0 }
    }

    /// The count is within the burst, and the level follows from it: lit on
    /// the even runs, dark on the odd ones.
    pub open spec fn wf(&self) -> bool {
        &&& self.cycle_count < FLASH_TOGGLES
        &&& self.leds_state == (self.cycle_count % 2 == 0)
    }

    pub fn new() -> (state: FlashState)
        ensures
            state == FlashState::initial(),
            state.wf(),
    {
        FlashState { leds_state: true, cycle_count: 0 }
    }

    /// Runs the flash engine once, for the deadline `scheduled`.
    pub fn step(&mut self, scheduled: Tick, timing: &Timing) -> (step: FlashStep)
        requires
            old(self).wf(),
        ensures
            final(self).wf(),
            *final(self) == flashed(*old(self)),
            step.leds_on == old(self).leds_state,
            step.cycle == old(self).cycle_count,
            step.next == flash_command(*old(self), scheduled, *timing),
    {
        let leds_on: bool = self.leds_state;
        let cycle: usize = self.cycle_count;
        self.leds_state = !self.leds_state;
        self.cycle_count = self.cycle_count + 1;
        if self.cycle_count == FLASH_TOGGLES {
            self.cycle_count = 0;
            FlashStep { leds_on, cycle, next: Command::Spawn(Task::Dispatcher) }
        } else {
            FlashStep {
                leds_on,
                cycle,
                next: Command::ScheduleAt(Task::Flash, scheduled.after(timing.flash)),
            }
        }
    }
}

/// A burst is exactly six toggles.
///
/// Started between bursts, each of the first five runs re-arms the engine
/// one flash period later, the levels alternate beginning with lit, and the
/// sixth run hands over to the dispatcher and leaves the engine as it was
/// before the burst, so that the next hold starts counting from zero.
pub proof fn lemma_burst_is_six_toggles(scheduled: Tick, timing: Timing)
    ensures
        forall|runs: nat|
            runs < FLASH_TOGGLES ==> {
                let state = #[trigger] flashed_times(FlashState::initial(), runs);
                &&& state.wf()
                &&& state.cycle_count == runs
                &&& state.leds_state == (runs % 2 == 0)
                &&& flash_command(state, scheduled, timing) == (if runs + 1 < FLASH_TOGGLES {
                    Command::ScheduleAt(Task::Flash, advance(scheduled, timing.flash))
                } else {
                    Command::Spawn(Task::Dispatcher)
                })
            },
        flashed_times(FlashState::initial(), FLASH_TOGGLES as nat) == FlashState::initial(),
{
    reveal_with_fuel(flashed_times, 7);
}

/// Wherever the engine stands within a burst, the burst ends: from a state
/// with `cycle_count` runs made, the remaining runs bring it back to the
/// state between bursts.
pub proof fn lemma_burst_completes(state: FlashState)
    requires
        state.wf(),
    ensures
        flashed_times(state, (FLASH_TOGGLES - state.cycle_count) as nat) == FlashState::initial(),
{
    reveal_with_fuel(flashed_times, 7);
}

} // verus!
