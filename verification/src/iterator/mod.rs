//! The signal-delivery machinery behind the iterator over incoming signals.

pub mod backend;
pub mod exfiltrator;
pub mod signum;
