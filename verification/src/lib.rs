//! A small real-time physics core: a point-mass ball under constant per-tick
//! gravity, integrated with a semi-implicit Euler step at a fixed rate, and
//! reflected off the bottom boundary of a resizable viewport.
//!
//! All quantities are fixed-point integers: one world unit is `UNIT`
//! subunits. Every tick runs three phases in order — gravity accumulation,
//! velocity integration, boundary collision response — and each phase's
//! exact effect is stated over a ghost model with unbounded integers.

pub mod body;
pub mod config;
pub mod laws;
pub mod physics;
pub mod scheduler;
pub mod units;
pub mod vec3;
pub mod viewport;
