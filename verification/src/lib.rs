//! Synthetic CPU load at a target utilisation.
//!
//! A worker pins its thread to one hardware thread and alternates a busy
//! work phase with a sleep phase until a deadline passes. This crate holds
//! what such a worker decides: the duty cycle for a percentage, the checks a
//! request has to pass, the choice of a hardware thread, and the phase
//! machine that a driver steps with clock readings. Sleeping, spinning and
//! reading the clock are left to the driver.

pub mod affinity;
pub mod request;
pub mod schedule;
pub mod worker;
