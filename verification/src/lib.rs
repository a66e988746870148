//! Control core of a push-button LED ring.
//!
//! A single button steers a ring of LEDs: a click moves the lit LED one
//! position, a double click reverses the direction of travel, and holding the
//! button plays a short burst on every LED.  All timing is counted in ticks
//! of a free-running 32-bit hardware counter that wraps around.
//!
//! The crate holds the decisions only.  Pins, interrupts and the hardware
//! timer stay with the caller, which feeds button edges and the current tick
//! in and carries the LED commands out.

pub mod ticks;
pub mod clock;
pub mod events;
pub mod tasks;
pub mod selection;
pub mod timing;
pub mod blink;
pub mod flash;
pub mod edges;
pub mod scheduler;
pub mod controller;

pub use clock::{CyclesComputer, Hertz};
pub use controller::{Controller, EdgeReport, LedCommand, TaskReport};
pub use events::{ButtonEvents, EventQueue};
pub use selection::{compute_next, SelectionState};
pub use tasks::{Command, Task};
pub use ticks::{Tick, TickDuration};
pub use timing::Timing;
