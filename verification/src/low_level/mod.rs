//! Some low level utilities
//!
//! More often to build other abstractions than used directly.

pub mod siginfo;
pub mod signal_details;
