//! Switches a host between light and dark appearance at sunrise and sunset.
//!
//! The library holds the decisions: which mode a moment calls for, when the
//! next switch is due, how long to sleep, whether a startup correction is
//! needed, and how a configured command line is split into a program and its
//! arguments. Reading the clock, computing sun positions, sleeping and running
//! processes are left to the caller.

pub mod calendar;
pub mod command;
pub mod mode;
pub mod schedule;

pub use calendar::{CivilDate, MAX_YEAR};
pub use command::{CommandError, Invocation, ModeCommands};
pub use mode::Mode;
pub use schedule::{hours_minutes, reconcile, DayEvents, LoopStep, Plan, ScheduleDecision};
