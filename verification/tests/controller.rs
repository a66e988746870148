use led_ring::clock::{CyclesComputer, Hertz};
use led_ring::controller::{Controller, EdgeReport, LedCommand, TaskReport};
use led_ring::edges::{EdgeOutcome, EdgeTimestamps, Press};
use led_ring::events::ButtonEvents;
use led_ring::flash::FlashState;
use led_ring::selection::SelectionState;
use led_ring::tasks::{Command, Task};
use led_ring::ticks::{Tick, TickDuration};
use led_ring::timing::Timing;

fn windows() -> Timing {
    Timing {
        on: TickDuration { ticks: 250 },
        off: TickDuration { ticks: 250 },
        hold: TickDuration { ticks: 1000 },
        double_click: TickDuration { ticks: 700 },
        flash: TickDuration { ticks: 300 },
        debounce: TickDuration { ticks: 0 },
    }
}

fn pressed(event: ButtonEvents, hold_check_at: u32) -> EdgeOutcome {
    EdgeOutcome::Pressed(Press { event, hold_check_at: Tick::new(hold_check_at) })
}

/// Runs every task that is due at `now` and returns the reports in order.
fn run_all(controller: &mut Controller, now: u32) -> Vec<TaskReport> {
    let mut reports = Vec::new();
    while let Some(report) = controller.run_due(Tick::new(now)) {
        reports.push(report);
        assert!(reports.len() < 100);
    }
    reports
}

#[test]
fn a_new_controller_has_the_start_up_state() {
    let clock = CyclesComputer::new(Hertz(64_000_000));
    let controller = Controller::new(&clock, 8, Tick::new(77));
    assert_eq!(controller.ring_len(), 8);
    assert_eq!(controller.selection(), SelectionState::new());
    assert_eq!(controller.timestamps(), EdgeTimestamps::new(Tick::new(77)));
    assert_eq!(controller.flash_state(), FlashState::new());
    assert_eq!(controller.timing(), Timing::for_clock(&clock));
    assert_eq!(controller.events_waiting(), 0);
    assert_eq!(controller.tasks_waiting(), 1);
}

#[test]
fn the_first_blink_comes_one_off_period_after_start() {
    let clock = CyclesComputer::new(Hertz(64_000_000));
    let mut controller = Controller::new(&clock, 8, Tick::new(1_000));
    assert_eq!(controller.run_due(Tick::new(1_000 + 15_999_999)), None);
    let report = controller.run_due(Tick::new(1_000 + 16_000_000));
    assert_eq!(
        report,
        Some(TaskReport {
            task: Task::Blink,
            leds: LedCommand::One { index: 0, on: true },
            event: None,
            command: Some(Command::ScheduleAt(
                Task::Dispatcher,
                Tick::new(1_000 + 32_000_000)
            )),
            armed: true,
        })
    );
    assert!(controller.selection().led_state);
}

#[test]
fn the_led_blinks_on_and_off_with_the_dispatcher_in_between() {
    let mut controller = Controller::with_timing(windows(), 8, Tick::new(0));

    let lit = run_all(&mut controller, 250);
    assert_eq!(lit.len(), 1);
    assert_eq!(lit[0].task, Task::Blink);
    assert_eq!(lit[0].leds, LedCommand::One { index: 0, on: true });

    assert_eq!(run_all(&mut controller, 499), vec![]);

    let dark = run_all(&mut controller, 500);
    assert_eq!(
        dark,
        vec![
            TaskReport {
                task: Task::Dispatcher,
                leds: LedCommand::Leave,
                event: None,
                command: Some(Command::Spawn(Task::Blink)),
                armed: true,
            },
            TaskReport {
                task: Task::Blink,
                leds: LedCommand::One { index: 0, on: false },
                event: None,
                command: Some(Command::ScheduleAt(Task::Blink, Tick::new(750))),
                armed: true,
            },
        ]
    );

    assert_eq!(run_all(&mut controller, 749), vec![]);
    let lit_again = run_all(&mut controller, 750);
    assert_eq!(lit_again.len(), 1);
    assert_eq!(lit_again[0].leds, LedCommand::One { index: 0, on: true });
    assert_eq!(
        lit_again[0].command,
        Some(Command::ScheduleAt(Task::Dispatcher, Tick::new(1_000)))
    );
}

#[test]
fn the_led_keeps_its_periods_when_the_tasks_run_late() {
    let mut controller = Controller::with_timing(windows(), 8, Tick::new(0));
    let mut toggles = Vec::new();
    let mut now = 0u32;
    while now < 5_000 {
        now += 37;
        for report in run_all(&mut controller, now) {
            if let LedCommand::One { on, .. } = report.leds {
                let at = match report.command {
                    Some(Command::ScheduleAt(_, at)) => at,
                    other => panic!("the blink engine gave {:?}", other),
                };
                toggles.push((on, at));
            }
        }
    }
    assert!(toggles.len() >= 18);
    for (count, (on, next_at)) in toggles.iter().enumerate() {
        assert_eq!(*on, count % 2 == 0);
        assert_eq!(*next_at, Tick::new(250 * (count as u32 + 2)));
    }
}

#[test]
fn a_click_moves_the_selection_when_the_led_next_goes_dark() {
    let mut controller = Controller::with_timing(windows(), 8, Tick::new(0));
    run_all(&mut controller, 250);
    let edge = controller.on_button_edge(true, Tick::new(1_300));
    assert_eq!(
        edge,
        EdgeReport { outcome: pressed(ButtonEvents::Click, 2_300), queued: true, armed: true }
    );
    controller.on_button_edge(false, Tick::new(1_350));
    assert_eq!(controller.events_waiting(), 1);

    let reports = run_all(&mut controller, 1_500);
    let dispatched: Vec<_> = reports.iter().filter(|r| r.task == Task::Dispatcher).collect();
    assert_eq!(dispatched[0].event, Some(ButtonEvents::Click));
    assert_eq!(controller.events_waiting(), 0);
    assert_eq!(controller.selection().current_led, 1);
    assert_eq!(controller.selection().next_led, 1);

    let lit: Vec<_> = run_all(&mut controller, 2_000)
        .into_iter()
        .filter(|r| r.leds == LedCommand::One { index: 1, on: true })
        .collect();
    assert!(!lit.is_empty());
}

#[test]
fn the_dispatcher_takes_one_event_per_run() {
    let mut controller = Controller::with_timing(windows(), 8, Tick::new(0));
    controller.on_button_edge(true, Tick::new(5_000));
    controller.on_button_edge(false, Tick::new(5_010));
    controller.on_button_edge(true, Tick::new(5_020));
    controller.on_button_edge(false, Tick::new(5_030));
    assert_eq!(controller.events_waiting(), 2);
    let first = controller.run_task(Task::Dispatcher, Tick::new(5_100));
    assert_eq!(first.event, Some(ButtonEvents::Click));
    assert_eq!(controller.events_waiting(), 1);
    assert_eq!(
        controller.selection(),
        SelectionState { current_led: 0, next_led: 1, led_state: false, advance_increasing: true }
    );
    let second = controller.run_task(Task::Dispatcher, Tick::new(5_100));
    assert_eq!(second.event, Some(ButtonEvents::DoubleClick));
    assert_eq!(controller.events_waiting(), 0);
    assert_eq!(
        controller.selection(),
        SelectionState { current_led: 0, next_led: 7, led_state: false, advance_increasing: false }
    );
    let third = controller.run_task(Task::Dispatcher, Tick::new(5_100));
    assert_eq!(third.event, None);
    assert_eq!(third.command, Some(Command::Spawn(Task::Blink)));
}

#[test]
fn a_held_button_gives_a_click_and_one_hold() {
    let mut controller = Controller::with_timing(windows(), 8, Tick::new(0));
    controller.on_button_edge(true, Tick::new(5_000));
    assert_eq!(controller.events_waiting(), 1);
    let check = controller.run_task(Task::HoldCheck, Tick::new(6_000));
    assert_eq!(
        check,
        TaskReport {
            task: Task::HoldCheck,
            leds: LedCommand::Leave,
            event: Some(ButtonEvents::Hold),
            command: None,
            armed: false,
        }
    );
    assert_eq!(controller.events_waiting(), 2);
    assert_eq!(
        controller.run_task(Task::Dispatcher, Tick::new(6_000)).event,
        Some(ButtonEvents::Click)
    );
    let hold = controller.run_task(Task::Dispatcher, Tick::new(6_000));
    assert_eq!(hold.event, Some(ButtonEvents::Hold));
    assert_eq!(hold.command, Some(Command::Spawn(Task::Flash)));
    assert_eq!(controller.events_waiting(), 0);
}

#[test]
fn the_hold_check_runs_at_its_deadline_by_itself() {
    let mut controller = Controller::with_timing(windows(), 8, Tick::new(0));
    controller.on_button_edge(true, Tick::new(5_100));
    let mut holds = 0;
    let mut now = 5_100u32;
    while now < 6_100 {
        now += 10;
        for report in run_all(&mut controller, now) {
            if report.task == Task::HoldCheck {
                assert_eq!(now, 6_100);
                assert_eq!(report.event, Some(ButtonEvents::Hold));
                holds += 1;
            }
        }
    }
    assert_eq!(holds, 1);
}

#[test]
fn a_released_button_gives_no_hold() {
    let mut controller = Controller::with_timing(windows(), 8, Tick::new(0));
    controller.on_button_edge(true, Tick::new(5_000));
    let release = controller.on_button_edge(false, Tick::new(5_400));
    assert_eq!(
        release,
        EdgeReport { outcome: EdgeOutcome::Released, queued: false, armed: false }
    );
    let check = controller.run_task(Task::HoldCheck, Tick::new(6_000));
    assert_eq!(check.event, None);
    assert_eq!(controller.events_waiting(), 1);
}

#[test]
fn a_hold_plays_the_burst_and_hands_back() {
    let mut controller = Controller::with_timing(windows(), 8, Tick::new(0));
    controller.on_button_edge(true, Tick::new(5_100));
    let mut seen = Vec::new();
    let mut now = 5_100u32;
    while now < 9_000 {
        now += 10;
        for report in run_all(&mut controller, now) {
            seen.push((now, report));
        }
    }
    let flashes: Vec<_> = seen.iter().filter(|(_, r)| r.task == Task::Flash).collect();
    assert_eq!(flashes.len(), 6);
    for (run, (at, report)) in flashes.iter().enumerate() {
        assert_eq!(report.leds, LedCommand::All { on: run % 2 == 0 });
        assert_eq!(*at, flashes[0].0 + 300 * run as u32);
    }
    assert_eq!(flashes[5].1.command, Some(Command::Spawn(Task::Dispatcher)));
    assert_eq!(controller.flash_state(), FlashState::new());

    let burst_start = flashes[0].0;
    let burst_end = flashes[5].0;
    let blinks_during: Vec<_> = seen
        .iter()
        .filter(|(at, r)| r.task == Task::Blink && *at >= burst_start && *at < burst_end)
        .collect();
    assert!(blinks_during.is_empty());
    let blinks_after: Vec<_> =
        seen.iter().filter(|(at, r)| r.task == Task::Blink && *at >= burst_end).collect();
    assert!(blinks_after.len() >= 2);
    assert_eq!(blinks_after[0].0, burst_end);
}

#[test]
fn a_second_hold_plays_a_second_burst() {
    let mut controller = Controller::with_timing(windows(), 8, Tick::new(0));
    let mut flashes = 0;
    let mut now = 0u32;
    while now < 20_000 {
        now += 10;
        if now == 1_000 || now == 10_000 {
            controller.on_button_edge(true, Tick::new(now));
        }
        if now == 3_000 || now == 12_000 {
            controller.on_button_edge(false, Tick::new(now));
        }
        for report in run_all(&mut controller, now) {
            if report.task == Task::Flash {
                assert_eq!(report.leds, LedCommand::All { on: flashes % 2 == 0 });
                flashes += 1;
            }
        }
    }
    assert_eq!(flashes, 12);
}

#[test]
fn gestures_beyond_the_queue_are_dropped() {
    let mut controller = Controller::with_timing(windows(), 8, Tick::new(0));
    for press in 0..8u32 {
        let report = controller.on_button_edge(true, Tick::new(5_000 + press));
        assert!(report.queued);
    }
    let ninth = controller.on_button_edge(true, Tick::new(5_010));
    assert_eq!(
        ninth,
        EdgeReport {
            outcome: pressed(ButtonEvents::Click, 6_010),
            queued: false,
            armed: false,
        }
    );
    assert_eq!(controller.events_waiting(), 8);
    assert_eq!(controller.tasks_waiting(), 8);
    assert_eq!(controller.timestamps().last_rising, Tick::new(5_010));
}

#[test]
fn a_command_beyond_the_schedule_is_dropped() {
    let mut controller = Controller::with_timing(windows(), 8, Tick::new(0));
    for press in 0..7u32 {
        assert!(controller.on_button_edge(true, Tick::new(5_000 + press)).armed);
    }
    assert_eq!(controller.tasks_waiting(), 8);
    let report = controller.run_task(Task::Flash, Tick::new(5_100));
    assert_eq!(report.command, Some(Command::ScheduleAt(Task::Flash, Tick::new(5_400))));
    assert!(!report.armed);
    assert_eq!(controller.tasks_waiting(), 8);
    assert_eq!(controller.flash_state(), FlashState { leds_state: false, cycle_count: 1 });
}

#[test]
fn a_ring_of_one_keeps_its_only_led() {
    let mut controller = Controller::with_timing(windows(), 1, Tick::new(0));
    controller.on_button_edge(true, Tick::new(5_000));
    controller.run_task(Task::Dispatcher, Tick::new(5_100));
    assert_eq!(controller.selection().next_led, 0);
    let step = controller.run_task(Task::Blink, Tick::new(5_100));
    assert_eq!(step.leds, LedCommand::One { index: 0, on: true });
}

#[test]
fn a_bounce_reaches_neither_queue_nor_schedule() {
    let timing = Timing { debounce: TickDuration { ticks: 40 }, ..windows() };
    let mut controller = Controller::with_timing(timing, 8, Tick::new(0));
    assert!(controller.on_button_edge(true, Tick::new(5_000)).queued);
    let bounce = controller.on_button_edge(true, Tick::new(5_010));
    assert_eq!(
        bounce,
        EdgeReport { outcome: EdgeOutcome::Rejected, queued: false, armed: false }
    );
    assert_eq!(controller.events_waiting(), 1);
    assert_eq!(controller.tasks_waiting(), 2);
    assert_eq!(controller.timestamps().last_rising, Tick::new(5_000));
}
