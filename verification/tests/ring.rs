use led_ring::blink::{blink, BlinkStep};
use led_ring::events::ButtonEvents;
use led_ring::selection::{compute_next, dispatch, SelectionState};
use led_ring::tasks::{Command, Task};
use led_ring::ticks::{Tick, TickDuration};
use led_ring::timing::Timing;

fn windows() -> Timing {
    Timing {
        on: TickDuration { ticks: 250 },
        off: TickDuration { ticks: 200 },
        hold: TickDuration { ticks: 1000 },
        double_click: TickDuration { ticks: 700 },
        flash: TickDuration { ticks: 300 },
        debounce: TickDuration { ticks: 0 },
    }
}

#[test]
fn compute_next_steps_forward_and_wraps() {
    assert_eq!(compute_next(0, true, 8), 1);
    assert_eq!(compute_next(6, true, 8), 7);
    assert_eq!(compute_next(7, true, 8), 0);
}

#[test]
fn compute_next_steps_backward_and_wraps() {
    assert_eq!(compute_next(7, false, 8), 6);
    assert_eq!(compute_next(1, false, 8), 0);
    assert_eq!(compute_next(0, false, 8), 7);
}

#[test]
fn compute_next_follows_its_formulas_on_every_position() {
    for len in 1..20usize {
        for position in 0..len {
            let forward = compute_next(position, true, len);
            let backward = compute_next(position, false, len);
            assert_eq!(forward, (position + 1) % len);
            assert_eq!(backward, (position + len - 1) % len);
            assert!(forward < len);
            assert!(backward < len);
        }
    }
}

#[test]
fn compute_next_on_a_ring_of_one_stays_put() {
    assert_eq!(compute_next(0, true, 1), 0);
    assert_eq!(compute_next(0, false, 1), 0);
}

#[test]
fn compute_next_forward_then_backward_comes_back() {
    for position in 0..8usize {
        assert_eq!(compute_next(compute_next(position, true, 8), false, 8), position);
        assert_eq!(compute_next(compute_next(position, false, 8), true, 8), position);
    }
}

#[test]
fn compute_next_reduces_a_position_beyond_the_ring() {
    assert_eq!(compute_next(8, true, 8), 1);
    assert_eq!(compute_next(9, false, 8), 0);
    assert_eq!(compute_next(usize::MAX, true, 8), 0);
    assert_eq!(compute_next(usize::MAX, false, 8), 6);
}

#[test]
fn the_selection_starts_on_the_first_led_dark_and_forward() {
    let selection = SelectionState::new();
    assert_eq!(
        selection,
        SelectionState { current_led: 0, next_led: 0, led_state: false, advance_increasing: true }
    );
}

#[test]
fn click_double_click_click_on_a_ring_of_eight() {
    let timing = windows();
    let mut selection = SelectionState::new();

    assert_eq!(dispatch(&mut selection, Some(ButtonEvents::Click), 8), Task::Blink);
    assert_eq!(selection.next_led, 1);
    assert!(selection.advance_increasing);

    assert_eq!(dispatch(&mut selection, Some(ButtonEvents::DoubleClick), 8), Task::Blink);
    assert!(!selection.advance_increasing);
    assert_eq!(selection.next_led, 7);

    // The LED lights up and goes dark again, and the pending selection is adopted.
    blink(&mut selection, Tick::new(0), &timing);
    blink(&mut selection, Tick::new(250), &timing);
    assert_eq!(selection.current_led, 7);

    assert_eq!(dispatch(&mut selection, Some(ButtonEvents::Click), 8), Task::Blink);
    assert_eq!(selection.next_led, 6);
    assert!(!selection.advance_increasing);
}

#[test]
fn a_click_forward_wraps_after_the_last_led() {
    let mut selection =
        SelectionState { current_led: 7, next_led: 7, led_state: true, advance_increasing: true };
    dispatch(&mut selection, Some(ButtonEvents::Click), 8);
    assert_eq!(
        selection,
        SelectionState { current_led: 7, next_led: 0, led_state: true, advance_increasing: true }
    );
}

#[test]
fn a_double_click_turns_round_and_steps_in_the_new_direction() {
    let mut selection =
        SelectionState { current_led: 3, next_led: 4, led_state: false, advance_increasing: true };
    dispatch(&mut selection, Some(ButtonEvents::DoubleClick), 8);
    assert_eq!(
        selection,
        SelectionState { current_led: 3, next_led: 2, led_state: false, advance_increasing: false }
    );
    dispatch(&mut selection, Some(ButtonEvents::DoubleClick), 8);
    assert_eq!(
        selection,
        SelectionState { current_led: 3, next_led: 4, led_state: false, advance_increasing: true }
    );
}

#[test]
fn a_hold_starts_the_flash_engine_and_leaves_the_selection() {
    let before =
        SelectionState { current_led: 2, next_led: 3, led_state: true, advance_increasing: false };
    let mut selection = before;
    assert_eq!(dispatch(&mut selection, Some(ButtonEvents::Hold), 8), Task::Flash);
    assert_eq!(selection, before);
}

#[test]
fn no_event_hands_back_to_the_blink_engine_and_leaves_the_selection() {
    let before =
        SelectionState { current_led: 2, next_led: 3, led_state: true, advance_increasing: false };
    let mut selection = before;
    assert_eq!(dispatch(&mut selection, None, 8), Task::Blink);
    assert_eq!(selection, before);
}

#[test]
fn repeated_clicks_pick_the_same_neighbour_until_it_is_adopted() {
    let mut selection = SelectionState::new();
    dispatch(&mut selection, Some(ButtonEvents::Click), 8);
    dispatch(&mut selection, Some(ButtonEvents::Click), 8);
    assert_eq!(selection.next_led, 1);
    assert_eq!(selection.current_led, 0);
}

#[test]
fn blink_lights_the_current_led_and_arms_the_dispatcher() {
    let timing = windows();
    let mut selection =
        SelectionState { current_led: 2, next_led: 5, led_state: false, advance_increasing: true };
    let step = blink(&mut selection, Tick::new(1_000), &timing);
    assert_eq!(
        step,
        BlinkStep {
            led: 2,
            on: true,
            next: Command::ScheduleAt(Task::Dispatcher, Tick::new(1_250)),
        }
    );
    assert_eq!(
        selection,
        SelectionState { current_led: 2, next_led: 5, led_state: true, advance_increasing: true }
    );
}

#[test]
fn blink_darkens_the_current_led_adopts_the_next_and_arms_itself() {
    let timing = windows();
    let mut selection =
        SelectionState { current_led: 2, next_led: 5, led_state: true, advance_increasing: true };
    let step = blink(&mut selection, Tick::new(1_250), &timing);
    assert_eq!(
        step,
        BlinkStep { led: 2, on: false, next: Command::ScheduleAt(Task::Blink, Tick::new(1_450)) }
    );
    assert_eq!(
        selection,
        SelectionState { current_led: 5, next_led: 5, led_state: false, advance_increasing: true }
    );
}

#[test]
fn blink_alternates_on_and_off_periods() {
    let timing = windows();
    let mut selection = SelectionState::new();
    let mut at = Tick::new(0xffff_ff00);
    for round in 0..40u32 {
        let lit_before = selection.led_state;
        let step = blink(&mut selection, at, &timing);
        assert_eq!(selection.led_state, !lit_before);
        assert_eq!(step.on, round % 2 == 0);
        let next_at = match step.next {
            Command::ScheduleAt(task, next_at) => {
                assert_eq!(task, if step.on { Task::Dispatcher } else { Task::Blink });
                next_at
            }
            Command::Spawn(_) => panic!("the blink engine spawns nothing"),
        };
        let period = if step.on { 250 } else { 200 };
        assert_eq!(next_at.duration_since(at).as_cycles(), period);
        if step.on {
            assert_eq!(dispatch(&mut selection, None, 8), Task::Blink);
        }
        at = next_at;
    }
    assert_eq!(at, Tick::new(0xffff_ff00u32.wrapping_add(20 * 450)));
}
