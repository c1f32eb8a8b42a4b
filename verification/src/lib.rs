//! Core logic of a small weather-station appliance: civil-time conversion
//! under the Central European DST rule, bounded event logging, a single-slot
//! weather cache with refresh gating, display-state assembly and a
//! flicker-minimizing render planner.
//!
//! All I/O (network, message bus, the physical display) is left to thin
//! adapters outside this crate; everything here is pure and verified.

pub mod clock;
pub mod config;
pub mod display_state;
pub mod event_log;
pub mod mainloop;
pub mod render;
pub mod textfmt;
pub mod weather;
