//! Core of a two-phase (work/break) interval timer that tracks a list of
//! tasks and, per task, the wall-clock periods during which it was the
//! actively selected task.
//!
//! The library is pure logic over plain values: every operation that depends
//! on the current time takes an explicit `now` timestamp (milliseconds on a
//! monotonic scale). Reading the clock, rendering, input handling, audio
//! alerts and configuration I/O live outside the library.

pub mod config;
pub mod list;
pub mod session;
pub mod task;
pub mod timer;

pub use config::Config;
pub use list::SelectableList;
pub use session::Session;
pub use session::Snapshot;
pub use timer::Phase;
pub use timer::TimerCycle;
pub use task::Period;
pub use task::Task;
