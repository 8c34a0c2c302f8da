//! A silence watchdog: every event re-arms a timed wait, and a wait whose
//! window runs out before the next event's signal raises exactly one alert.
//!
//! The engine is a state machine without clocks or channels of its own. The
//! caller performs the waiting and the delivery, and hands each outcome back.

pub mod engine;
pub mod laws;
pub mod mention;
pub mod target;
pub mod timeline;
