//! Planning and timing logic for paced UDP transmission.
//!
//! The crate decides how a fully encoded datagram buffer is split into
//! segments, which transmission strategy applies, and how requested
//! departure times are nudged forward so a hardware scheduler can honor
//! them. The kernel socket calls themselves live outside the library;
//! callers execute the plans produced here.

pub mod ticks;
pub mod clock;
pub mod corrector;
pub mod plan;
pub mod sender;
