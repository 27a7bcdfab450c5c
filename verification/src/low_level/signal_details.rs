//! Providing auxiliary information for signals.

use vstd::prelude::*;

verus! {

/// A signal number with its human-readable name.
#[derive(Copy, Clone, Debug)]
pub struct Details {
    /// The signal number.
    pub signal: i32,
    /// The name of the signal, such as `"SIGTERM"`.
    pub name: &'static str,
}

/// Whether some entry of the table is for the signal.
pub open spec fn has_signal(details: Seq<Details>, signal: i32) -> bool {
    exists|i: int| 0 <= i < details.len() && #[trigger] details[i].signal == signal
}

/// The name of the signal in a table of signal details: the name of the first entry for the
/// signal, or `None` when no entry is for it.
pub fn signal_name_in(details: &[Details], signal: i32) -> (r: Option<&'static str>)
    ensures
        r is None <==> !has_signal(details@, signal),
        r matches Some(name) ==> exists|i: int|
            0 <= i < details@.len() && details@[i].signal == signal && details@[i].name == name
                && forall|j: int| 0 <= j < i ==> #[trigger] details@[j].signal != signal,
{
    let mut i: usize = 0;
    while i < details.len()
        invariant
            i <= details@.len(),
            forall|j: int| 0 <= j < i ==> #[trigger] details@[j].signal != signal,
        decreases details@.len() - i,
    {
        if details[i].signal == signal {
            return Some(details[i].name);
        }
        i = i + 1;
    }
    None
}

} // verus!
