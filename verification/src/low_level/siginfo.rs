//! Extracting more information from the C `siginfo_t` structure.
//!
//! See [`Origin`].

use vstd::prelude::*;

use crate::internal::{Cause as ICause, SigInfo};

verus! {

/// Information about process, as presented in the signal metadata.
#[derive(Copy, Clone, Debug, PartialEq, Eq, Structural)]
#[non_exhaustive]
pub struct Process {
    /// The process ID.
    pub pid: i32,
    /// The user owning the process.
    pub uid: u32,
}

/// The means by which a signal was sent by other process.
#[derive(Copy, Clone, Debug, PartialEq, Eq, Structural)]
#[non_exhaustive]
pub enum Sent {
    /// The `kill` call.
    User,
    /// The `tkill` call.
    ///
    /// This is likely linux specific.
    TKill,
    /// `sigqueue`.
    Queue,
    /// `mq_notify`.
    MesgQ,
}

/// A child changed its state.
#[derive(Copy, Clone, Debug, PartialEq, Eq, Structural)]
#[non_exhaustive]
pub enum Chld {
    /// The child exited normally.
    Exited,
    /// It got killed by a signal.
    Killed,
    /// It got killed by a signal and dumped core.
    Dumped,
    /// The child was trapped by a `SIGTRAP` signal.
    Trapped,
    /// The child got stopped.
    Stopped,
    /// The child continued (after being stopped).
    Continued,
}

/// What caused a signal.
///
/// This is a best-effort (and possibly incomplete) representation of the C `siginfo_t::si_code`.
#[derive(Copy, Clone, Debug, PartialEq, Eq, Structural)]
#[non_exhaustive]
pub enum Cause {
    /// The cause is unknown.
    Unknown,
    /// Sent by the kernel.
    Kernel,
    /// The signal was sent by other process.
    Sent(Sent),
    /// A `SIGCHLD`, caused by a child process changing state.
    Chld(Chld),
}

/// The public cause that a raw cause stands for.
pub open spec fn cause_of(c: ICause) -> Cause {
    match c {
        ICause::Kernel => Cause::Kernel,
        ICause::User => Cause::Sent(Sent::User),
        ICause::TKill => Cause::Sent(Sent::TKill),
        ICause::Queue => Cause::Sent(Sent::Queue),
        ICause::MesgQ => Cause::Sent(Sent::MesgQ),
        ICause::Exited => Cause::Chld(Chld::Exited),
        ICause::Killed => Cause::Chld(Chld::Killed),
        ICause::Dumped => Cause::Chld(Chld::Dumped),
        ICause::Trapped => Cause::Chld(Chld::Trapped),
        ICause::Stopped => Cause::Chld(Chld::Stopped),
        ICause::Continued => Cause::Chld(Chld::Continued),
        ICause::Unknown => Cause::Unknown,
    }
}

impl From<ICause> for Cause {
    fn from(c: ICause) -> (r: Cause) {
        match c {
            ICause::Kernel => Cause::Kernel,
            ICause::User => Cause::Sent(Sent::User),
            ICause::TKill => Cause::Sent(Sent::TKill),
            ICause::Queue => Cause::Sent(Sent::Queue),
            ICause::MesgQ => Cause::Sent(Sent::MesgQ),
            ICause::Exited => Cause::Chld(Chld::Exited),
            ICause::Killed => Cause::Chld(Chld::Killed),
            ICause::Dumped => Cause::Chld(Chld::Dumped),
            ICause::Trapped => Cause::Chld(Chld::Trapped),
            ICause::Stopped => Cause::Chld(Chld::Stopped),
            ICause::Continued => Cause::Chld(Chld::Continued),
            ICause::Unknown => Cause::Unknown,
        }
    }
}

impl vstd::std_specs::convert::FromSpecImpl<ICause> for Cause {
    open spec fn obeys_from_spec() -> bool {
        true
    }

    open spec fn from_spec(v: ICause) -> Cause {
        cause_of(v)
    }
}

/// Outside macOS, a process is reported exactly for the causes that come from a process: sent by
/// one, or a child changing its state.
pub proof fn law_process_iff_from_process(c: ICause)
    ensures
        c.spec_has_process(false) <==> (cause_of(c) is Sent || cause_of(c) is Chld),
{
}

/// Information about a signal and its origin.
#[derive(Clone, Debug, PartialEq, Eq, Structural)]
#[non_exhaustive]
pub struct Origin {
    /// The signal that happened.
    pub signal: i32,
    /// Information about the process that caused the signal, whenever available.
    pub process: Option<Process>,
    /// How the signal happened (best-effort).
    pub cause: Cause,
}

impl Origin {
    /// Builds the origin of a signal from its number and the metadata extracted from its
    /// `siginfo_t`.
    pub fn from_sig_info(signal: i32, extracted: SigInfo) -> (r: Origin)
        ensures
            r.signal == signal,
            r.cause == cause_of(extracted.cause),
            r.process == (match extracted.process {
                Some(p) => Some(Process { pid: p.pid, uid: p.uid }),
                None => None,
            }),
    {
        let process = match extracted.process {
            Some(p) => Some(Process { pid: p.pid, uid: p.uid }),
            None => None,
        };
        Origin { cause: Cause::from(extracted.cause), signal, process }
    }
}

} // verus!
