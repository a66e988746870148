//! The edge detector and gesture classifier: raw button edges, stamped with
//! the tick at which they were seen, become clicks, double clicks and holds.

use vstd::prelude::*;
use crate::events::ButtonEvents;
use crate::ticks::{advance, elapsed, Tick, TickDuration};
use crate::timing::Timing;

verus! {

/// When the button last went down and when it last came up.
///
/// Whichever of the two lies less far back is the last edge that was seen.
#[derive(Clone, Copy, Debug, PartialEq, Eq, Structural)]
pub struct EdgeTimestamps {
    pub last_rising: Tick,
    pub last_falling: Tick,
}

/// What a press gives rise to: the gesture classified at once, and the tick
/// at which to look whether the button is still down.
#[derive(Clone, Copy, Debug, PartialEq, Eq, Structural)]
pub struct Press {
    pub event: ButtonEvents,
    pub hold_check_at: Tick,
}

/// What the detector made of an edge.
#[derive(Clone, Copy, Debug, PartialEq, Eq, Structural)]
pub enum EdgeOutcome {
    /// The edge came too soon after the one before and was ignored.
    Rejected,
    /// The button came up.
    Released,
    /// The button went down.
    Pressed(Press),
}

/// Ticks from the last edge that was recorded until `now`.
pub open spec fn since_last_edge(stamps: EdgeTimestamps, now: Tick) -> int {
    if elapsed(now, stamps.last_rising) <= elapsed(now, stamps.last_falling) {
        elapsed(now, stamps.last_rising)
    } else {
        elapsed(now, stamps.last_falling)
    }
}

/// Whether an edge at `now` follows the last recorded edge by less than the
/// debounce delay, and is therefore taken for contact bounce.
pub open spec fn bounced(stamps: EdgeTimestamps, now: Tick, debounce: TickDuration) -> bool {
    since_last_edge(stamps, now) < debounce.ticks
}

/// The gesture that a press at `now` makes, given the last release: a double
/// click when the release lies less than the double-click window back, a
/// click otherwise.
pub open spec fn classified(last_falling: Tick, now: Tick, double_click: TickDuration) -> ButtonEvents {
    if elapsed(now, last_falling) < double_click.ticks {
        ButtonEvents::DoubleClick
    } else {
        ButtonEvents::Click
    }
}

/// The timestamps after an edge seen at `now` with the button reading
/// `level_high` after it: a bounce leaves them alone, any other edge is
/// recorded on its side.
pub open spec fn stamped(
    stamps: EdgeTimestamps,
    level_high: bool,
    now: Tick,
    timing: Timing,
) -> EdgeTimestamps {
    if bounced(stamps, now, timing.debounce) {
        stamps
    } else if level_high {
        EdgeTimestamps { last_rising: now, ..stamps }
    } else {
        EdgeTimestamps { last_falling: now, ..stamps }
    }
}

/// What the detector makes of an edge: a rising edge is classified and arms
/// the hold check one hold window later; a falling edge is recorded and
/// nothing more; a bounce is rejected.
pub open spec fn detected(
    stamps: EdgeTimestamps,
    level_high: bool,
    now: Tick,
    timing: Timing,
) -> EdgeOutcome {
    if bounced(stamps, now, timing.debounce) {
        EdgeOutcome::Rejected
    } else if level_high {
        EdgeOutcome::Pressed(
            Press {
                event: classified(stamps.last_falling, now, timing.double_click),
                hold_check_at: advance(now, timing.hold),
            },
        )
    } else {
        EdgeOutcome::Released
    }
}

/// Whether, seen from `now`, the button has been down for the whole hold
/// window: the last press lies at least the window back, and no release has
/// come after it.
pub open spec fn held(stamps: EdgeTimestamps, now: Tick, hold: TickDuration) -> bool {
    &&& elapsed(now, stamps.last_rising) >= hold.ticks
    &&& elapsed(now, stamps.last_rising) < elapsed(now, stamps.last_falling)
}

impl EdgeTimestamps {
    /// The timestamps at start-up: no edge seen since `start`.
    pub open spec fn initial(start: Tick) -> EdgeTimestamps {
        EdgeTimestamps { last_rising: start, last_falling: start }
    }

    pub fn new(start: Tick) -> (stamps: EdgeTimestamps)
        ensures
            stamps == EdgeTimestamps::initial(start),
    {
        EdgeTimestamps { last_rising: start, last_falling: start }
    }

    /// Records an edge seen at `now`, with the button reading `level_high`
    /// after it, and classifies it if it is a press.
    pub fn on_edge(&mut self, level_high: bool, now: Tick, timing: &Timing) -> (outcome: EdgeOutcome)
        ensures
            *final(self) == stamped(*old(self), level_high, now, *timing),
            outcome == detected(*old(self), level_high, now, *timing),
    {
        let since_press: u32 = now.duration_since(self.last_rising).ticks;
        let since_release: u32 = now.duration_since(self.last_falling).ticks;
        let since_edge: u32 = if since_press <= since_release {
            since_press
        } else {
            since_release
        };
        if since_edge < timing.debounce.ticks {
            EdgeOutcome::Rejected
        } else if level_high {
            self.last_rising = now;
            let event: ButtonEvents = if since_release < timing.double_click.ticks {
                ButtonEvents::DoubleClick
            } else {
                ButtonEvents::Click
            };
            EdgeOutcome::Pressed(Press { event, hold_check_at: now.after(timing.hold) })
        } else {
            self.last_falling = now;
            EdgeOutcome::Released
        }
    }

    /// The deferred check, run at `now`: a hold if the button has been down
    /// for the whole window, nothing otherwise.
    pub fn hold_check(&self, now: Tick, timing: &Timing) -> (event: Option<ButtonEvents>)
        ensures
            event == (if held(*self, now, timing.hold) {
                Some(ButtonEvents::Hold)
            } else {
                None
            }),
    {
        let since_press: u32 = now.duration_since(self.last_rising).ticks;
        let since_release: u32 = now.duration_since(self.last_falling).ticks;
        if since_press >= timing.hold.ticks && since_press < since_release {
            Some(ButtonEvents::Hold)
        } else {
            None
        }
    }
}

/// A press is a double click exactly when the last release lies less than
/// the double-click window back, and a click otherwise; it is never a hold.
pub proof fn lemma_press_classification(stamps: EdgeTimestamps, now: Tick, timing: Timing)
    requires
        !bounced(stamps, now, timing.debounce),
    ensures
        detected(stamps, true, now, timing) matches EdgeOutcome::Pressed(press) && {
            &&& press.event == ButtonEvents::DoubleClick <==> elapsed(now, stamps.last_falling)
                < timing.double_click.ticks
            &&& press.event == ButtonEvents::Click <==> elapsed(now, stamps.last_falling)
                >= timing.double_click.ticks
            &&& press.event != ButtonEvents::Hold
        },
        detected(stamps, false, now, timing) == EdgeOutcome::Released,
{
}

/// A button pressed at `now` and not released is reported as held when the
/// check armed by the press runs, and what that check reports is a hold and
/// nothing else.
///
/// The last release has to lie before the press as seen from the deadline,
/// that is more than the hold window back.
pub proof fn lemma_held_button_reports_hold(stamps: EdgeTimestamps, now: Tick, timing: Timing)
    requires
        !bounced(stamps, now, timing.debounce),
        elapsed(advance(now, timing.hold), stamps.last_falling) > timing.hold.ticks,
    ensures
        detected(stamps, true, now, timing) matches EdgeOutcome::Pressed(press) && {
            &&& press.hold_check_at == advance(now, timing.hold)
            &&& held(stamped(stamps, true, now, timing), press.hold_check_at, timing.hold)
        },
{
}

/// A release between the press and the deadline calls the hold off.
pub proof fn lemma_release_cancels_hold(
    stamps: EdgeTimestamps,
    pressed_at: Tick,
    released_at: Tick,
    timing: Timing,
)
    requires
        !bounced(stamps, pressed_at, timing.debounce),
        !bounced(stamped(stamps, true, pressed_at, timing), released_at, timing.debounce),
        elapsed(released_at, pressed_at) <= timing.hold.ticks,
    ensures
        ({
            let down = stamped(stamps, true, pressed_at, timing);
            let up = stamped(down, false, released_at, timing);
            !held(up, advance(pressed_at, timing.hold), timing.hold)
        }),
{
}

/// An edge taken for bounce changes nothing, and without a debounce delay
/// no edge is taken for bounce.
pub proof fn lemma_bounce_is_ignored(
    stamps: EdgeTimestamps,
    level_high: bool,
    now: Tick,
    timing: Timing,
)
    ensures
        bounced(stamps, now, timing.debounce) ==> stamped(stamps, level_high, now, timing) == stamps
            && detected(stamps, level_high, now, timing) == EdgeOutcome::Rejected,
        timing.debounce.ticks == 0 ==> !bounced(stamps, now, timing.debounce),
{
}

} // verus!
