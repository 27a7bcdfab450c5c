//! Conversions between signal numbers and indices into the per-signal tables.

use vstd::prelude::*;

verus! {

/// The table index of a (non-negative) signal number.
pub fn signal_index(signal: i32) -> (r: usize)
    requires
        0 <= signal,
    ensures
        r == signal,
{
    signal as usize
}

/// The signal number of a table index.
pub fn index_to_signal(index: usize) -> (r: i32)
    requires
        index <= i32::MAX,
    ensures
        r == index,
{
    index as i32
}

} // verus!
