//! The closed set of tasks and what a task may ask of the scheduler.

use vstd::prelude::*;
use crate::ticks::Tick;

verus! {

/// The tasks that the scheduler runs.
#[derive(Clone, Copy, Debug, PartialEq, Eq, Structural)]
pub enum Task {
    /// Toggles the selected LED on its steady duty cycle.
    Blink,
    /// Takes one event from the queue and acts on it.
    Dispatcher,
    /// Toggles every LED together for a short burst.
    Flash,
    /// Looks, one hold window after a press, whether the button is still down.
    HoldCheck,
}

/// What a task asks of the scheduler when it returns.
#[derive(Clone, Copy, Debug, PartialEq, Eq, Structural)]
pub enum Command {
    /// Run the task as soon as the scheduler is idle.
    Spawn(Task),
    /// Run the task once the counter has reached the tick.
    ScheduleAt(Task, Tick),
}

/// The task that a command names.
pub open spec fn task_of(command: Command) -> Task {
    match command {
        Command::Spawn(task) => task,
        Command::ScheduleAt(task, _) => task,
    }
}

/// The tick that a command is armed for when the task that gave it ran for
/// the deadline `baseline`: a spawned task takes over that deadline, and is
/// therefore due at once.
pub open spec fn armed_for(command: Command, baseline: Tick) -> Tick {
    match command {
        Command::Spawn(_) => baseline,
        Command::ScheduleAt(_, at) => at,
    }
}

} // verus!
