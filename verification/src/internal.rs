//! Low-level signal metadata as it comes out of the C `siginfo_t`: the cause of a signal (from its
//! `si_code`, or from a raw cause code) and the process that sent it, with a compact `u64`
//! encoding of the latter.

use vstd::prelude::*;

verus! {

/// The cause of a signal, as classified from the C `si_code` field.
#[derive(Copy, Clone, Debug, PartialEq, Eq, Structural)]
#[non_exhaustive]
pub enum Cause {
    Unknown,
    Kernel,
    User,
    TKill,
    Queue,
    MesgQ,
    Exited,
    Killed,
    Dumped,
    Trapped,
    Stopped,
    Continued,
}

/// The cause that a raw code stands for: the codes `0` to `11` are the causes in their order of
/// declaration, any other code is `Unknown`.
pub open spec fn cause_of_code(code: u8) -> Cause {
    if code == 1 {
        Cause::Kernel
    } else if code == 2 {
        Cause::User
    } else if code == 3 {
        Cause::TKill
    } else if code == 4 {
        Cause::Queue
    } else if code == 5 {
        Cause::MesgQ
    } else if code == 6 {
        Cause::Exited
    } else if code == 7 {
        Cause::Killed
    } else if code == 8 {
        Cause::Dumped
    } else if code == 9 {
        Cause::Trapped
    } else if code == 10 {
        Cause::Stopped
    } else if code == 11 {
        Cause::Continued
    } else {
        Cause::Unknown
    }
}

/// The platform's values of the C `si_code` field that tell the causes apart, with the number of
/// `SIGCHLD`. A cause that the platform does not report has no value.
#[derive(Copy, Clone, Debug, PartialEq, Eq, Structural)]
pub struct SiCodes {
    /// The number of `SIGCHLD`, whose codes tell what happened to a child.
    pub sigchld: i32,
    /// Sent by `kill` (`SI_USER`).
    pub user: Option<i32>,
    /// Sent by the kernel (`SI_KERNEL`).
    pub kernel: Option<i32>,
    /// Sent by `tkill` (`SI_TKILL`).
    pub tkill: Option<i32>,
    /// Sent by `sigqueue` (`SI_QUEUE`).
    pub queue: Option<i32>,
    /// Sent on a message queue's arrival (`SI_MESGQ`).
    pub mesgq: Option<i32>,
    /// A child exited (`CLD_EXITED`).
    pub exited: Option<i32>,
    /// A child was killed (`CLD_KILLED`).
    pub killed: Option<i32>,
    /// A child was killed and dumped core (`CLD_DUMPED`).
    pub dumped: Option<i32>,
    /// A traced child trapped (`CLD_TRAPPED`).
    pub trapped: Option<i32>,
    /// A child stopped (`CLD_STOPPED`).
    pub stopped: Option<i32>,
    /// A stopped child continued (`CLD_CONTINUED`).
    pub continued: Option<i32>,
}

/// Whether `code` is the platform's value `known` (never, where the platform has none).
pub open spec fn is_code(code: i32, known: Option<i32>) -> bool {
    known == Some(code)
}

/// The cause of a signal from its number and `si_code`: for a `SIGCHLD`, the codes of a child's
/// change of state come first; then the codes of the senders; anything else is `Unknown`.
pub open spec fn cause_of_si_code(signo: i32, code: i32, codes: SiCodes) -> Cause {
    if signo == codes.sigchld && is_code(code, codes.exited) {
        Cause::Exited
    } else if signo == codes.sigchld && is_code(code, codes.killed) {
        Cause::Killed
    } else if signo == codes.sigchld && is_code(code, codes.dumped) {
        Cause::Dumped
    } else if signo == codes.sigchld && is_code(code, codes.trapped) {
        Cause::Trapped
    } else if signo == codes.sigchld && is_code(code, codes.stopped) {
        Cause::Stopped
    } else if signo == codes.sigchld && is_code(code, codes.continued) {
        Cause::Continued
    } else if is_code(code, codes.user) {
        Cause::User
    } else if is_code(code, codes.kernel) {
        Cause::Kernel
    } else if is_code(code, codes.tkill) {
        Cause::TKill
    } else if is_code(code, codes.queue) {
        Cause::Queue
    } else if is_code(code, codes.mesgq) {
        Cause::MesgQ
    } else {
        Cause::Unknown
    }
}

/// Whether `code` is the platform's value `known`.
fn code_matches(code: i32, known: Option<i32>) -> (r: bool)
    ensures
        r == is_code(code, known),
{
    match known {
        Some(value) => value == code,
        None => false,
    }
}

impl Cause {
    /// Classifies a signal by its number (`si_signo`) and its `si_code`, with the platform's
    /// values in `codes`.
    pub fn from_si_code(signo: i32, code: i32, codes: &SiCodes) -> (r: Cause)
        ensures
            r == cause_of_si_code(signo, code, *codes),
    {
        let child = signo == codes.sigchld;
        if child && code_matches(code, codes.exited) {
            Cause::Exited
        } else if child && code_matches(code, codes.killed) {
            Cause::Killed
        } else if child && code_matches(code, codes.dumped) {
            Cause::Dumped
        } else if child && code_matches(code, codes.trapped) {
            Cause::Trapped
        } else if child && code_matches(code, codes.stopped) {
            Cause::Stopped
        } else if child && code_matches(code, codes.continued) {
            Cause::Continued
        } else if code_matches(code, codes.user) {
            Cause::User
        } else if code_matches(code, codes.kernel) {
            Cause::Kernel
        } else if code_matches(code, codes.tkill) {
            Cause::TKill
        } else if code_matches(code, codes.queue) {
            Cause::Queue
        } else if code_matches(code, codes.mesgq) {
            Cause::MesgQ
        } else {
            Cause::Unknown
        }
    }

    /// Decodes the raw cause code that the C side of the signal metadata extraction produces.
    pub fn from_raw(code: u8) -> (r: Cause)
        ensures
            r == cause_of_code(code),
    {
        match code {
            1 => Cause::Kernel,
            2 => Cause::User,
            3 => Cause::TKill,
            4 => Cause::Queue,
            5 => Cause::MesgQ,
            6 => Cause::Exited,
            7 => Cause::Killed,
            8 => Cause::Dumped,
            9 => Cause::Trapped,
            10 => Cause::Stopped,
            11 => Cause::Continued,
            _ => Cause::Unknown,
        }
    }

    /// Whether a signal with this cause carries the sending (or child) process, on macOS when
    /// `macos` holds and on the other systems otherwise.
    ///
    /// macOS leaves `si_code` at 0 but has plain `si_pid`/`si_uid` fields (no union), so the
    /// fields can always be read there; they hold zeroes when no process sent the signal.
    pub open spec fn spec_has_process(self, macos: bool) -> bool {
        macos || !(self is Unknown || self is Kernel)
    }

    /// Whether a signal with this cause carries the sending (or child) process in `si_pid` and
    /// `si_uid`. `macos` tells whether the system is macOS, where every cause does.
    pub fn has_process(self, macos: bool) -> (r: bool)
        ensures
            r == self.spec_has_process(macos),
            macos ==> r,
            !macos ==> (r <==> !(self == Cause::Unknown || self == Cause::Kernel)),
    {
        if macos {
            return true;
        }
        match self {
            Cause::Unknown | Cause::Kernel => false,
            Cause::User | Cause::TKill | Cause::Queue | Cause::MesgQ | Cause::Exited
            | Cause::Killed | Cause::Dumped | Cause::Trapped | Cause::Stopped
            | Cause::Continued => true,
        }
    }
}

/// The raw cause codes are the causes in the order the C side declares them: `0` unknown, `1`
/// kernel, `2` `kill`, `3` `tkill`, `4` `sigqueue`, `5` message queue, then the changes of a
/// child's state: `6` exited, `7` killed, `8` dumped, `9` trapped, `10` stopped, `11`
/// continued. Every other code is unknown.
pub proof fn law_raw_code_order(code: u8)
    ensures
        code == 0 ==> cause_of_code(code) == Cause::Unknown,
        code == 1 ==> cause_of_code(code) == Cause::Kernel,
        code == 2 ==> cause_of_code(code) == Cause::User,
        code == 3 ==> cause_of_code(code) == Cause::TKill,
        code == 4 ==> cause_of_code(code) == Cause::Queue,
        code == 5 ==> cause_of_code(code) == Cause::MesgQ,
        code == 6 ==> cause_of_code(code) == Cause::Exited,
        code == 7 ==> cause_of_code(code) == Cause::Killed,
        code == 8 ==> cause_of_code(code) == Cause::Dumped,
        code == 9 ==> cause_of_code(code) == Cause::Trapped,
        code == 10 ==> cause_of_code(code) == Cause::Stopped,
        code == 11 ==> cause_of_code(code) == Cause::Continued,
        code > 11 ==> cause_of_code(code) == Cause::Unknown,
{
}

/// Distinct raw codes up to the last cause decode to distinct causes.
pub proof fn law_raw_codes_distinct(a: u8, b: u8)
    requires
        a <= 11,
        b <= 11,
        a != b,
    ensures
        cause_of_code(a) != cause_of_code(b),
{
}

/// On macOS every cause carries the sending (or child) process: `si_pid` and `si_uid` are always
/// read there.
pub proof fn law_macos_always_has_process(c: Cause)
    ensures
        c.spec_has_process(true),
{
}

/// Elsewhere the process is carried by the causes that come from a process, sent by one or a
/// child's change of state, and not by an unknown cause or the kernel.
pub proof fn law_process_only_from_process(c: Cause)
    ensures
        c.spec_has_process(false) == (c == Cause::User || c == Cause::TKill || c == Cause::Queue
            || c == Cause::MesgQ || c == Cause::Exited || c == Cause::Killed || c == Cause::Dumped
            || c == Cause::Trapped || c == Cause::Stopped || c == Cause::Continued),
        !Cause::Unknown.spec_has_process(false),
        !Cause::Kernel.spec_has_process(false),
{
}

/// The platform's codes are told apart: each sender code differs from the others, and each code
/// of a child's change of state differs from the others and from the sender codes.
pub open spec fn codes_distinct(codes: SiCodes) -> bool {
    let all = seq![
        codes.user,
        codes.kernel,
        codes.tkill,
        codes.queue,
        codes.mesgq,
        codes.exited,
        codes.killed,
        codes.dumped,
        codes.trapped,
        codes.stopped,
        codes.continued,
    ];
    forall|i: int, j: int|
        0 <= i < j < 11 && all[i] is Some && #[trigger] all[i] == #[trigger] all[j] ==> false
}

/// With distinct codes, a signal whose `si_code` is the platform's code of a cause is classified
/// as that cause: the sender codes for any signal, the codes of a child's change of state for
/// `SIGCHLD`.
pub proof fn law_si_code_classifies(signo: i32, code: i32, codes: SiCodes)
    requires
        codes_distinct(codes),
    ensures
        codes.user == Some(code) ==> cause_of_si_code(signo, code, codes) == Cause::User,
        codes.kernel == Some(code) ==> cause_of_si_code(signo, code, codes) == Cause::Kernel,
        codes.tkill == Some(code) ==> cause_of_si_code(signo, code, codes) == Cause::TKill,
        codes.queue == Some(code) ==> cause_of_si_code(signo, code, codes) == Cause::Queue,
        codes.mesgq == Some(code) ==> cause_of_si_code(signo, code, codes) == Cause::MesgQ,
        signo == codes.sigchld && codes.exited == Some(code) ==> cause_of_si_code(signo, code, codes)
            == Cause::Exited,
        signo == codes.sigchld && codes.killed == Some(code) ==> cause_of_si_code(signo, code, codes)
            == Cause::Killed,
        signo == codes.sigchld && codes.dumped == Some(code) ==> cause_of_si_code(signo, code, codes)
            == Cause::Dumped,
        signo == codes.sigchld && codes.trapped == Some(code) ==> cause_of_si_code(
            signo,
            code,
            codes,
        ) == Cause::Trapped,
        signo == codes.sigchld && codes.stopped == Some(code) ==> cause_of_si_code(
            signo,
            code,
            codes,
        ) == Cause::Stopped,
        signo == codes.sigchld && codes.continued == Some(code) ==> cause_of_si_code(
            signo,
            code,
            codes,
        ) == Cause::Continued,
        signo != codes.sigchld && codes.user != Some(code) && codes.kernel != Some(code)
            && codes.tkill != Some(code) && codes.queue != Some(code) && codes.mesgq != Some(code)
            ==> cause_of_si_code(signo, code, codes) == Cause::Unknown,
{
    let all = seq![
        codes.user,
        codes.kernel,
        codes.tkill,
        codes.queue,
        codes.mesgq,
        codes.exited,
        codes.killed,
        codes.dumped,
        codes.trapped,
        codes.stopped,
        codes.continued,
    ];
    assert(all[0] == codes.user && all[1] == codes.kernel && all[2] == codes.tkill && all[3]
        == codes.queue && all[4] == codes.mesgq && all[5] == codes.exited && all[6] == codes.killed
        && all[7] == codes.dumped && all[8] == codes.trapped && all[9] == codes.stopped && all[10]
        == codes.continued);
}

/// A process, by its ID and the ID of the user owning it.
#[derive(Copy, Clone, Debug, PartialEq, Eq, Structural)]
#[non_exhaustive]
pub struct Process {
    pub pid: i32,
    pub uid: u32,
}

/// The encoding of a process into one `u64`: the bits of the pid (taken as unsigned) in the high
/// half, the uid in the low half.
pub open spec fn encode_process(pid: i32, uid: u32) -> u64 {
    ((pid as u32 as u64) << 32u64) | (uid as u64)
}

impl Process {
    /// The placeholder for a slot that holds no process yet.
    pub fn empty() -> (r: Process)
        ensures
            r.pid == -1 && r.uid == 0,
    {
        Process { pid: -1, uid: 0 }
    }

    /// The marker for a signal that came with no process.
    pub fn no_process() -> (r: Process)
        ensures
            r.pid == -1 && r.uid == 1,
    {
        Process { pid: -1, uid: 1 }
    }

    /// Packs the process into a `u64` (the pid wraps to its unsigned bits).
    pub fn to_u64(self) -> (r: u64)
        ensures
            r == encode_process(self.pid, self.uid),
    {
        let pid = self.pid as u32;
        let uid = self.uid;
        ((pid as u64) << 32u64) | (uid as u64)
    }

    /// Unpacks a process packed by [`Process::to_u64`].
    pub fn from_u64(encoded: u64) -> (r: Process)
        ensures
            r.pid == (encoded >> 32u64) as u32 as i32,
            r.uid == encoded as u32,
    {
        let pid = ((encoded >> 32u64) as u32) as i32;
        let uid = encoded as u32;
        Process { pid, uid }
    }
}

/// Decoding an encoded process gives the process back.
pub proof fn law_process_decode_encode(pid: i32, uid: u32)
    ensures
        (encode_process(pid, uid) >> 32u64) as u32 as i32 == pid,
        encode_process(pid, uid) as u32 == uid,
{
    let p = pid as u32;
    assert((((p as u64) << 32u64) | (uid as u64)) >> 32u64 == p as u64) by (bit_vector);
    assert((((p as u64) << 32u64) | (uid as u64)) as u32 == uid) by (bit_vector);
    assert(p as i32 == pid) by (bit_vector)
        requires
            p == pid as u32,
    ;
}

/// Encoding a decoded `u64` gives the same `u64` back.
pub proof fn law_process_encode_decode(encoded: u64)
    ensures
        encode_process((encoded >> 32u64) as u32 as i32, encoded as u32) == encoded,
{
    let hi = (encoded >> 32u64) as u32;
    let pid = hi as i32;
    assert(pid as u32 == hi) by (bit_vector)
        requires
            pid == hi as i32,
    ;
    assert((((hi as u64) << 32u64) | ((encoded as u32) as u64)) == encoded) by (bit_vector)
        requires
            hi == (encoded >> 32u64) as u32,
    ;
}

/// What a signal's metadata says of its cause and origin.
#[derive(Clone, Debug, PartialEq, Eq, Structural)]
#[non_exhaustive]
pub struct SigInfo {
    pub cause: Cause,
    pub process: Option<Process>,
}

impl SigInfo {
    /// Builds the metadata from a cause and the `si_pid`/`si_uid` fields (`macos` tells whether
    /// the system is macOS).
    ///
    /// Elsewhere the process is kept exactly when the cause carries one. On macOS the cause is
    /// not filled in, and the process is kept unless both fields are zero (no sender).
    pub fn from_parts(cause: Cause, pid: i32, uid: u32, macos: bool) -> (r: SigInfo)
        ensures
            r.cause == cause,
            !macos ==> r.process == (if cause.spec_has_process(false) {
                Some(Process { pid, uid })
            } else {
                None
            }),
            macos ==> r.process == (if pid == 0 && uid == 0 {
                None
            } else {
                Some(Process { pid, uid })
            }),
    {
        let process = if cause.has_process(macos) {
            if macos && pid == 0 && uid == 0 {
                None
            } else {
                Some(Process { pid, uid })
            }
        } else {
            None
        };
        SigInfo { cause, process }
    }
}

} // verus!
