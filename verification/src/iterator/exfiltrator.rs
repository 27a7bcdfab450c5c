//! What is taken out of the signal handlers for each signal.
//!
//! [`SignalOnly`] provides just the signal numbers: the handler sets a per-signal flag, and the
//! reader takes it (switches it from set to clear), reporting the signal once however many times it
//! arrived in between.

use std::sync::atomic::{AtomicBool, Ordering};

use vstd::prelude::*;

verus! {

/// An exfiltrator providing just the signal numbers.
#[derive(Clone, Copy, Debug, Default)]
pub struct SignalOnly;

impl SignalOnly {
    /// Every signal is supported.
    pub fn supports_signal(&self, signal: i32) -> (r: bool)
        ensures
            r,
    {
        true
    }

    /// Records, inside the signal handler, that the signal arrived.
    pub fn store(&self, slot: &AtomicBool, signal: i32) {
        slot.store(true, Ordering::SeqCst);
    }

    /// What taking the record gives, from the outcome of switching the slot from set to clear:
    /// the signal when the switch succeeded (the slot was set), `None` when it failed.
    pub fn outcome(&self, exchanged: Result<bool, bool>, signal: i32) -> (r: Option<i32>)
        ensures
            r == (if exchanged is Ok {
                Some(signal)
            } else {
                None
            }),
    {
        if exchanged.is_ok() {
            Some(signal)
        } else {
            None
        }
    }

    /// Takes the record of the signal: the signal if it arrived since it was last taken, `None`
    /// otherwise.
    ///
    /// Whether it arrived is the value of an atomic shared with the signal handlers running
    /// concurrently; that value is not modeled, so only what holds whatever the switch gave is
    /// stated here, and [`SignalOnly::outcome`] states the result for each outcome of the switch.
    pub fn load(&self, slot: &AtomicBool, signal: i32) -> (r: Option<i32>)
        ensures
            r is Some ==> r == Some(signal),
    {
        let exchanged = slot.compare_exchange(true, false, Ordering::SeqCst, Ordering::Relaxed);
        self.outcome(exchanged, signal)
    }
}

} // verus!
