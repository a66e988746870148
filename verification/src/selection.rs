//! Which LED of the ring is lit, which comes next, and how the dispatcher
//! moves that choice when a gesture arrives.

use vstd::arithmetic::div_mod::{
    lemma_add_mod_noop, lemma_mod_add_multiples_vanish, lemma_mod_self_0, lemma_small_mod,
};
use vstd::prelude::*;
use crate::events::ButtonEvents;
use crate::tasks::Task;

verus! {

/// Position that follows `current` on a ring of `len` LEDs: one step forward
/// when `increment` is set, one step back otherwise, wrapping at both ends.
pub open spec fn next_index(current: int, increment: bool, len: int) -> int {
    if increment {
        (current + 1) % len
    } else {
        (current + len - 1) % len
    }
}

/// Computes the position that follows `current_led` on a ring of `max` LEDs.
pub fn compute_next(current_led: usize, increment: bool, max: usize) -> (next: usize)
    requires
        max > 0,
    ensures
        next == next_index(current_led as int, increment, max as int),
        next < max,
{
    let position: usize = current_led % max;
    proof {
        let c: int = current_led as int;
        let m: int = max as int;
        if increment {
            lemma_add_mod_noop(c, 1, m);
            if m == 1 {
                lemma_mod_self_0(m);
            } else {
                lemma_small_mod(1, m as nat);
                if position + 1 == max {
                    lemma_mod_self_0(m);
                } else {
                    lemma_small_mod((position + 1) as nat, m as nat);
                }
            }
        } else {
            lemma_add_mod_noop(c, m - 1, m);
            lemma_small_mod((m - 1) as nat, m as nat);
            if position != 0 {
                lemma_mod_add_multiples_vanish(position - 1, m);
                lemma_small_mod((position - 1) as nat, m as nat);
            }
        }
    }
    if increment {
        if position + 1 == max {
            0
        } else {
            position + 1
        }
    } else {
        if position != 0 {
            position - 1
        } else {
            max - 1
        }
    }
}

/// The selection shared by the blink engine and the dispatcher.
#[derive(Clone, Copy, Debug, PartialEq, Eq, Structural)]
pub struct SelectionState {
    /// LED that blinks now.
    pub current_led: usize,
    /// LED that takes over when the current one next goes dark.
    pub next_led: usize,
    /// Whether the current LED is lit.
    pub led_state: bool,
    /// Direction in which a click moves the selection.
    pub advance_increasing: bool,
}

impl SelectionState {
    /// Both positions lie on a ring of `ring_len` LEDs.
    pub open spec fn on_ring(&self, ring_len: usize) -> bool {
        &&& self.current_led < ring_len
        &&& self.next_led < ring_len
    }

    /// The selection at start-up: first LED, dark, advancing forward.
    pub open spec fn initial() -> SelectionState {
        SelectionState { current_led: 0, next_led: 0, led_state: false, advance_increasing: true }
    }

    pub fn new() -> (selection: SelectionState)
        ensures
            selection == SelectionState::initial(),
    {
        SelectionState { current_led: 0, next_led: 0, led_state: false, advance_increasing: true }
    }
}

/// The selection after the dispatcher has handled `event`.
///
/// A click picks the neighbour of the current LED in the direction of
/// travel.  A double click reverses the direction first and then picks the
/// neighbour in the new direction.  A hold, or no event, changes nothing.
pub open spec fn dispatched(
    selection: SelectionState,
    event: Option<ButtonEvents>,
    ring_len: usize,
) -> SelectionState {
    match event {
        Some(ButtonEvents::Click) => SelectionState {
            next_led: next_index(
                selection.current_led as int,
                selection.advance_increasing,
                ring_len as int,
            ) as usize,
            ..selection
        },
        Some(ButtonEvents::DoubleClick) => SelectionState {
            advance_increasing: !selection.advance_increasing,
            next_led: next_index(
                selection.current_led as int,
                !selection.advance_increasing,
                ring_len as int,
            ) as usize,
            ..selection
        },
        Some(ButtonEvents::Hold) => selection,
        None => selection,
    }
}

/// The engine that runs after the dispatcher has handled `event`: the flash
/// engine for a hold, the blink engine in every other case.
pub open spec fn handed_to(event: Option<ButtonEvents>) -> Task {
    if event == Some(ButtonEvents::Hold) {
        Task::Flash
    } else {
        Task::Blink
    }
}

/// Handles one event, or the absence of one, and names the engine to spawn.
pub fn dispatch(selection: &mut SelectionState, event: Option<ButtonEvents>, ring_len: usize) -> (next: Task)
    requires
        ring_len > 0,
    ensures
        *final(selection) == dispatched(*old(selection), event, ring_len),
        next == handed_to(event),
        old(selection).on_ring(ring_len) ==> final(selection).on_ring(ring_len),
{
    match event {
        Some(ButtonEvents::Hold) => {
            return Task::Flash;
        },
        Some(ButtonEvents::Click) => {
            selection.next_led = compute_next(
                selection.current_led,
                selection.advance_increasing,
                ring_len,
            );
        },
        Some(ButtonEvents::DoubleClick) => {
            selection.advance_increasing = !selection.advance_increasing;
            selection.next_led = compute_next(
                selection.current_led,
                selection.advance_increasing,
                ring_len,
            );
        },
        None => {},
    }
    Task::Blink
}

/// A click while advancing forward selects the next position up, and the
/// first position after the last one.
pub proof fn lemma_click_advances_forward(selection: SelectionState, ring_len: usize)
    requires
        ring_len > 0,
        selection.current_led < ring_len,
        selection.advance_increasing,
    ensures
        dispatched(selection, Some(ButtonEvents::Click), ring_len).next_led == (if selection.current_led
            + 1 == ring_len {
            0
        } else {
            selection.current_led + 1
        }),
        dispatched(selection, Some(ButtonEvents::Click), ring_len).advance_increasing,
        dispatched(selection, Some(ButtonEvents::Click), ring_len).current_led
            == selection.current_led,
{
    let c: int = selection.current_led as int;
    let m: int = ring_len as int;
    if c + 1 == m {
        lemma_mod_self_0(m);
    } else {
        lemma_small_mod((c + 1) as nat, m as nat);
    }
}

/// A click while advancing backward selects the next position down, and the
/// last position before the first one.
pub proof fn lemma_click_advances_backward(selection: SelectionState, ring_len: usize)
    requires
        ring_len > 0,
        selection.current_led < ring_len,
        !selection.advance_increasing,
    ensures
        dispatched(selection, Some(ButtonEvents::Click), ring_len).next_led == (if selection.current_led
            == 0 {
            ring_len - 1
        } else {
            selection.current_led - 1
        }),
        !dispatched(selection, Some(ButtonEvents::Click), ring_len).advance_increasing,
{
    let c: int = selection.current_led as int;
    let m: int = ring_len as int;
    if c == 0 {
        lemma_small_mod((m - 1) as nat, m as nat);
    } else {
        lemma_mod_add_multiples_vanish(c - 1, m);
        lemma_small_mod((c - 1) as nat, m as nat);
    }
}

/// A double click reverses the direction and advances like a click made in
/// the new direction.
pub proof fn lemma_double_click_reverses(selection: SelectionState, ring_len: usize)
    ensures
        dispatched(selection, Some(ButtonEvents::DoubleClick), ring_len).advance_increasing
            == !selection.advance_increasing,
        dispatched(selection, Some(ButtonEvents::DoubleClick), ring_len) == dispatched(
            SelectionState { advance_increasing: !selection.advance_increasing, ..selection },
            Some(ButtonEvents::Click),
            ring_len,
        ),
{
}

/// On a ring of `len` positions the position that follows lies on the ring.
pub proof fn lemma_next_index_on_ring(current: int, increment: bool, len: int)
    requires
        len > 0,
    ensures
        0 <= next_index(current, increment, len) < len,
{
}

} // verus!
