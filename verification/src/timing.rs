//! The timing windows of the firmware, in milliseconds and in ticks.

use vstd::prelude::*;
use crate::clock::{cycles_in, CyclesComputer, Hertz};
use crate::ticks::TickDuration;

verus! {

/// Time the selected LED stays lit in each blink period.
pub const ON_TIME_MS: u32 = 250;

/// Time the selected LED stays dark in each blink period.
pub const OFF_TIME_MS: u32 = 250;

/// Time the button has to stay down to count as held.
pub const HOLD_TIME_MS: u32 = 1000;

/// Time after a release within which the next press makes a double click.
pub const DOUBLE_CLICK_TIME_MS: u32 = 700;

/// Time between two toggles of the flash burst.
pub const FLASH_TIME_MS: u32 = 300;

/// Time after an edge within which a further edge counts as contact bounce.
/// The firmware runs without such a delay; a caller that wants one sets it
/// in its own [`Timing`].
pub const DEBOUNCE_TIME_MS: u32 = 0;

/// Ticks that a clock of the given frequency counts in `millis` milliseconds.
pub open spec fn window_ticks(frequency: Hertz, millis: u32) -> int {
    cycles_in(frequency, (millis / 1000) as u64, ((millis % 1000) * 1000) as u32)
}

/// The timing windows, converted to ticks of the running clock.
#[derive(Clone, Copy, Debug, PartialEq, Eq, Structural)]
pub struct Timing {
    pub on: TickDuration,
    pub off: TickDuration,
    pub hold: TickDuration,
    pub double_click: TickDuration,
    pub flash: TickDuration,
    pub debounce: TickDuration,
}

/// The windows of the firmware on a clock of the given frequency.
pub open spec fn timing_at(frequency: Hertz) -> Timing {
    Timing {
        on: TickDuration { ticks: window_ticks(frequency, ON_TIME_MS) as u32 },
        off: TickDuration { ticks: window_ticks(frequency, OFF_TIME_MS) as u32 },
        hold: TickDuration { ticks: window_ticks(frequency, HOLD_TIME_MS) as u32 },
        double_click: TickDuration { ticks: window_ticks(frequency, DOUBLE_CLICK_TIME_MS) as u32 },
        flash: TickDuration { ticks: window_ticks(frequency, FLASH_TIME_MS) as u32 },
        debounce: TickDuration { ticks: window_ticks(frequency, DEBOUNCE_TIME_MS) as u32 },
    }
}

/// A window of at most one second fits the 32-bit counter at every clock
/// frequency, and below one second it is the milliseconds times the whole
/// kilohertz of the clock.
pub proof fn lemma_window_fits(frequency: Hertz, millis: u32)
    requires
        millis <= 1000,
    ensures
        0 <= window_ticks(frequency, millis) <= u32::MAX,
        millis == 1000 ==> window_ticks(frequency, millis) == frequency.0,
        millis < 1000 ==> window_ticks(frequency, millis) == millis * (frequency.0 / 1000),
{
    let khz: int = (frequency.0 / 1000) as int;
    let hz: int = frequency.0 as int;
    if millis == 1000 {
        assert(1 * hz + 0 * khz == hz) by (nonlinear_arith);
    } else {
        assert(0 * hz == 0) by (nonlinear_arith);
        assert(0 <= millis * khz <= 999 * 4_294_967) by (nonlinear_arith)
            requires
                0 <= millis <= 999,
                0 <= khz <= 4_294_967,
        ;
    }
}

/// Converts one window of at most a second.
fn window(clock: &CyclesComputer, millis: u32) -> (span: TickDuration)
    requires
        millis <= 1000,
    ensures
        span.ticks == window_ticks(clock@, millis),
{
    proof {
        lemma_window_fits(clock@, millis);
    }
    let hz: u32 = clock.frequency().0;
    if millis == 1000 {
        TickDuration { ticks: hz }
    } else {
        TickDuration { ticks: millis * (hz / 1000) }
    }
}

impl Timing {
    /// The windows of the firmware, converted for `clock`.
    pub fn for_clock(clock: &CyclesComputer) -> (timing: Timing)
        ensures
            timing == timing_at(clock@),
    {
        Timing {
            on: window(clock, ON_TIME_MS),
            off: window(clock, OFF_TIME_MS),
            hold: window(clock, HOLD_TIME_MS),
            double_click: window(clock, DOUBLE_CLICK_TIME_MS),
            flash: window(clock, FLASH_TIME_MS),
            debounce: window(clock, DEBOUNCE_TIME_MS),
        }
    }
}

} // verus!
