//! Signal-acquisition core for keyboard switch sensing.
//!
//! Two engines convert raw electrical readings into stable, classified key
//! state in bounded time per scan cycle:
//!
//! - a Hall-effect engine: per-sensor oversampling, a calibration state
//!   machine, and distance/velocity/acceleration/jerk derived from averaged
//!   samples through an external linearization table;
//! - a matrix-scan engine: column-strobe sequencing, row sensing, and a
//!   per-key debounce/idle state machine producing classified key events.

pub mod hall_effect;
pub mod keyscanning;
pub mod sensors;
pub mod state;
