//! Conversion of wall-clock durations into ticks of the hardware counter.

use core::time::Duration;
use vstd::prelude::*;
use crate::ticks::TickDuration;

verus! {

/// A frequency in cycles per second.
#[derive(Clone, Copy, Debug, PartialEq, Eq, Structural)]
pub struct Hertz(pub u32);

/// Whole seconds held by a `Duration`, as `Duration::as_secs` reports them.
pub uninterp spec fn duration_whole_secs(d: Duration) -> u64;

/// Microseconds of the part of a `Duration` below one second, as
/// `Duration::subsec_micros` reports them.
pub uninterp spec fn duration_subsec_micros(d: Duration) -> u32;

/// `Duration::as_secs`: the number of whole seconds in the duration.
/// Nothing is claimed beyond giving that number its name.
pub assume_specification[ Duration::as_secs ](d: &Duration) -> (secs: u64)
    ensures
        secs == duration_whole_secs(*d),
;

/// `Duration::subsec_micros`: the fractional part of the duration in whole
/// microseconds.  Nothing is claimed beyond giving that number its name.
pub assume_specification[ Duration::subsec_micros ](d: &Duration) -> (micros: u32)
    ensures
        micros == duration_subsec_micros(*d),
;

/// Ticks that a clock of the given frequency counts in `secs` whole seconds
/// plus the whole milliseconds of `subsec_micros`.
///
/// The part below one second is taken at millisecond granularity on both
/// sides: whole milliseconds of the duration, whole kilohertz of the clock.
pub open spec fn cycles_in(frequency: Hertz, secs: u64, subsec_micros: u32) -> int {
    secs * frequency.0 + (subsec_micros / 1000) * (frequency.0 / 1000)
}

/// Turns durations into tick counts for a clock frequency fixed at start-up.
#[derive(Clone, Copy, Debug)]
pub struct CyclesComputer {
    frequency: Hertz,
}

impl View for CyclesComputer {
    type V = Hertz;

    /// The frequency that the computer converts for.
    closed spec fn view(&self) -> Hertz {
        self.frequency
    }
}

impl CyclesComputer {
    pub fn new(frequency: Hertz) -> (computer: Self)
        ensures
            computer@ == frequency,
    {
        CyclesComputer { frequency }
    }

    pub fn frequency(&self) -> (frequency: Hertz)
        ensures
            frequency == self@,
    {
        self.frequency
    }

    /// Tick count of a duration given by its whole seconds and the
    /// microseconds of its sub-second part; `None` when the count does not
    /// fit the 32-bit counter.
    pub fn cycles_for(&self, secs: u64, subsec_micros: u32) -> (cycles: Option<TickDuration>)
        ensures
            cycles is Some <==> cycles_in(self@, secs, subsec_micros) <= u32::MAX,
            cycles matches Some(d) ==> d.ticks == cycles_in(self@, secs, subsec_micros),
    {
        let hz: u32 = self.frequency.0;
        let millis: u32 = subsec_micros / 1000;
        let khz: u32 = hz / 1000;
        assert(secs * hz <= 0xffff_ffff_ffff_ffff * 0xffff_ffff) by (nonlinear_arith)
            requires
                secs <= 0xffff_ffff_ffff_ffff,
                hz <= 0xffff_ffff,
        ;
        assert(millis * khz <= 4_294_967 * 4_294_967) by (nonlinear_arith)
            requires
                millis <= 4_294_967,
                khz <= 4_294_967,
        ;
        let whole: u128 = (secs as u128) * (hz as u128);
        let part: u128 = (millis as u128) * (khz as u128);
        let total: u128 = whole + part;
        if total <= 0xffff_ffff {
            Some(TickDuration { ticks: total as u32 })
        } else {
            None
        }
    }

    /// Tick count of `duration`.
    ///
    /// The count has to fit the 32-bit counter; [`Self::checked_to_cycles`]
    /// tests that first.
    pub fn to_cycles(&self, duration: Duration) -> (cycles: TickDuration)
        requires
            cycles_in(
                self@,
                duration_whole_secs(duration),
                duration_subsec_micros(duration),
            ) <= u32::MAX,
        ensures
            cycles.ticks == cycles_in(
                self@,
                duration_whole_secs(duration),
                duration_subsec_micros(duration),
            ),
    {
        let secs: u64 = duration.as_secs();
        let micros: u32 = duration.subsec_micros();
        let hz: u32 = self.frequency.0;
        let millis: u32 = micros / 1000;
        let khz: u32 = hz / 1000;
        proof {
            assert(millis * khz >= 0) by (nonlinear_arith)
                requires
                    millis >= 0,
                    khz >= 0,
            ;
            if hz == 0 {
                assert(secs * hz == 0 && (secs as u32) * hz == 0) by (nonlinear_arith)
                    requires
                        hz == 0,
                ;
            } else {
                assert(secs * hz >= secs) by (nonlinear_arith)
                    requires
                        secs >= 0,
                        hz >= 1,
                ;
            }
        }
        let s_part: u32 = (secs as u32) * hz;
        let mms_part: u32 = millis * khz;
        TickDuration { ticks: s_part + mms_part }
    }

    /// Tick count of `duration`, or `None` when it does not fit the 32-bit
    /// counter.
    pub fn checked_to_cycles(&self, duration: Duration) -> (cycles: Option<TickDuration>)
        ensures
            cycles is Some <==> cycles_in(
                self@,
                duration_whole_secs(duration),
                duration_subsec_micros(duration),
            ) <= u32::MAX,
            cycles matches Some(d) ==> d.ticks == cycles_in(
                self@,
                duration_whole_secs(duration),
                duration_subsec_micros(duration),
            ),
    {
        self.cycles_for(duration.as_secs(), duration.subsec_micros())
    }
}

} // verus!
