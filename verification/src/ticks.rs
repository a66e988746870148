//! Instants and spans of the wrapping hardware counter.

use vstd::prelude::*;

verus! {

/// Number of values the 32-bit counter takes before it starts over.
pub open spec fn counter_range() -> int {
    0x1_0000_0000
}

/// Half of the counter's range: the farthest a deadline may lie ahead of, or
/// behind, the present and still be told apart from the other side.
pub open spec fn horizon() -> int {
    0x8000_0000
}

/// A span of time, counted in ticks.
#[derive(Clone, Copy, Debug, PartialEq, Eq, Structural)]
pub struct TickDuration {
    pub ticks: u32,
}

/// A reading of the free-running counter.
///
/// The counter wraps, so two readings are never compared with `<`: all
/// comparisons go through the ticks elapsed from one to the other.
#[derive(Clone, Copy, Debug, PartialEq, Eq, Structural)]
pub struct Tick {
    pub count: u32,
}

/// Ticks the counter advances from `earlier` until it reads `later`.
pub open spec fn elapsed(later: Tick, earlier: Tick) -> int {
    (later.count - earlier.count) % counter_range()
}

/// The reading `span` ticks after `start`.
pub open spec fn advance(start: Tick, span: TickDuration) -> Tick {
    Tick { count: ((start.count + span.ticks) % counter_range()) as u32 }
}

/// Whether the counter, reading `now`, has reached or passed `deadline`.
pub open spec fn reached(deadline: Tick, now: Tick) -> bool {
    elapsed(now, deadline) < horizon()
}

impl TickDuration {
    pub fn from_cycles(cycles: u32) -> (d: TickDuration)
        ensures
            d.ticks == cycles,
    {
        TickDuration { ticks: cycles }
    }

    pub fn as_cycles(&self) -> (cycles: u32)
        ensures
            cycles == self.ticks,
    {
        self.ticks
    }
}

impl Tick {
    pub fn new(count: u32) -> (t: Tick)
        ensures
            t.count == count,
    {
        Tick { count }
    }

    /// Ticks elapsed from `earlier` to `self`, across a wrap of the counter
    /// if there was one.
    pub fn duration_since(&self, earlier: Tick) -> (d: TickDuration)
        ensures
            d.ticks == elapsed(*self, earlier),
    {
        TickDuration { ticks: self.count.wrapping_sub(earlier.count) }
    }

    /// The reading `span` ticks after `self`.
    pub fn after(&self, span: TickDuration) -> (t: Tick)
        ensures
            t == advance(*self, span),
    {
        Tick { count: self.count.wrapping_add(span.ticks) }
    }

    /// Whether `self`, taken as a deadline, is reached when the counter reads `now`.
    pub fn is_reached(&self, now: Tick) -> (due: bool)
        ensures
            due == reached(*self, now),
    {
        now.count.wrapping_sub(self.count) < 0x8000_0000
    }
}

/// Advancing by a span and measuring back gives the span.
pub proof fn lemma_elapsed_after_advance(start: Tick, span: TickDuration)
    ensures
        elapsed(advance(start, span), start) == span.ticks,
{
}

/// A reading has always reached itself, with nothing elapsed.
pub proof fn lemma_elapsed_from_self(t: Tick)
    ensures
        elapsed(t, t) == 0,
        reached(t, t),
{
}

/// Two spans added one after the other advance the counter by their sum.
pub proof fn lemma_advance_twice(start: Tick, first: TickDuration, second: TickDuration)
    ensures
        elapsed(advance(advance(start, first), second), start) == (first.ticks + second.ticks)
            % counter_range(),
{
}

} // verus!
