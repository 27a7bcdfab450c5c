//! The rules of signal emulation where the platform has no real signals: which console control
//! events stand for which signals, and which process IDs an emulated `kill` addresses.

use vstd::prelude::*;

verus! {

/// Whether an emulated `kill` with the given `pid` reaches the current process (`self_pid`): its
/// own ID, the negated ID (its process group), `0` (the caller's group) or `-1` (every process).
/// Any other target is ignored.
pub fn kill_reaches_self(pid: i32, self_pid: i32) -> (r: bool)
    requires
        self_pid > i32::MIN,
    ensures
        r == (pid == self_pid || pid == -self_pid || pid == 0 || pid == -1),
{
    pid == self_pid || pid == -self_pid || pid == 0 || pid == -1
}

/// The signal that a console control event stands for: the Ctrl+C event (`ctrl_c`) is the
/// interrupt signal (`sigint`), the Ctrl+Break event (`ctrl_break`) is the termination signal
/// (`sigterm`), and any other event stands for no signal. The platform's event codes and signal
/// numbers are passed in.
pub fn to_signal(ctrl_type: u32, ctrl_c: u32, ctrl_break: u32, sigint: i32, sigterm: i32) -> (r:
    Option<i32>)
    ensures
        r == (if ctrl_type == ctrl_c {
            Some(sigint)
        } else if ctrl_type == ctrl_break {
            Some(sigterm)
        } else {
            None
        }),
{
    if ctrl_type == ctrl_c {
        Some(sigint)
    } else if ctrl_type == ctrl_break {
        Some(sigterm)
    } else {
        None
    }
}

} // verus!
