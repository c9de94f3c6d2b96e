//! Three interchangeable thread models for driving foreground and background
//! units of work, the rendezvous bookkeeping they share, and a harness that
//! measures their dispatch overhead.
//!
//! The library owns the channels, the shared counter and the shutdown flag,
//! and decides what every unit does next. Starting an execution context,
//! sleeping and presenting a unit are left to the driver, which is told
//! exactly what to start, how long to pause and how many contexts to join.

pub mod async_light_thread;
pub mod async_os_thread;
pub mod bench;
pub mod channel;
pub mod clock;
pub mod ledger;
pub mod report;
pub mod shared;
pub mod sync;
pub mod thread_model;
pub mod unit;
