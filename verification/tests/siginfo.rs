use signal_hook::internal::{Cause as ICause, Process as IProcess, SiCodes, SigInfo};
use signal_hook::low_level::siginfo::{Cause, Chld, Origin, Process, Sent};

fn process(pid: i32, uid: u32) -> IProcess {
    IProcess::from_u64(((pid as u32 as u64) << 32) | uid as u64)
}

#[test]
fn has_process_by_cause() {
    assert!(!ICause::Unknown.has_process(false));
    assert!(!ICause::Kernel.has_process(false));
    assert!(ICause::User.has_process(false));
    assert!(ICause::Queue.has_process(false));
    assert!(ICause::Exited.has_process(false));
    assert!(ICause::Continued.has_process(false));
    // On macOS every cause may carry a process.
    assert!(ICause::Unknown.has_process(true));
    assert!(ICause::Kernel.has_process(true));
}

#[test]
fn process_to_u64_exact() {
    let p = process(1, 2);
    assert_eq!((p.pid, p.uid), (1, 2));
    assert_eq!(p.to_u64(), (1u64 << 32) | 2);
    let neg = process(-1, 0);
    assert_eq!(neg.to_u64(), 0xffff_ffff_0000_0000);
}

#[test]
fn process_u64_roundtrip() {
    for p in [
        process(0, 0),
        process(1234, 1000),
        process(-1, 1),
        process(i32::MIN, u32::MAX),
        process(i32::MAX, 0),
    ] {
        assert_eq!(IProcess::from_u64(p.to_u64()), p);
    }
    for e in [0u64, 1, u64::MAX, 0x8000_0000_0000_0001, 0x1234_5678_9abc_def0] {
        assert_eq!(IProcess::from_u64(e).to_u64(), e);
    }
}

#[test]
fn process_markers() {
    assert_eq!(IProcess::empty(), process(-1, 0));
    assert_eq!(IProcess::no_process(), process(-1, 1));
}

#[test]
fn sig_info_keeps_process_only_when_sent() {
    let sent = SigInfo::from_parts(ICause::User, 42, 1000, false);
    assert_eq!(sent.cause, ICause::User);
    assert_eq!(sent.process, Some(process(42, 1000)));
    let kernel = SigInfo::from_parts(ICause::Kernel, 42, 1000, false);
    assert_eq!(kernel.process, None);
    let unknown = SigInfo::from_parts(ICause::Unknown, 0, 0, false);
    assert_eq!(unknown.process, None);
}

#[test]
fn sig_info_on_macos_keeps_process_unless_zero() {
    let unknown = SigInfo::from_parts(ICause::Unknown, 42, 1000, true);
    assert_eq!(unknown.process, Some(process(42, 1000)));
    let kernel = SigInfo::from_parts(ICause::Kernel, 0, 7, true);
    assert_eq!(kernel.process, Some(process(0, 7)));
    let empty = SigInfo::from_parts(ICause::User, 0, 0, true);
    assert_eq!(empty.process, None);
    assert_eq!(empty.cause, ICause::User);
}

#[test]
fn cause_from_internal() {
    assert_eq!(Cause::from(ICause::Unknown), Cause::Unknown);
    assert_eq!(Cause::from(ICause::Kernel), Cause::Kernel);
    assert_eq!(Cause::from(ICause::User), Cause::Sent(Sent::User));
    assert_eq!(Cause::from(ICause::TKill), Cause::Sent(Sent::TKill));
    assert_eq!(Cause::from(ICause::Queue), Cause::Sent(Sent::Queue));
    assert_eq!(Cause::from(ICause::MesgQ), Cause::Sent(Sent::MesgQ));
    assert_eq!(Cause::from(ICause::Exited), Cause::Chld(Chld::Exited));
    assert_eq!(Cause::from(ICause::Killed), Cause::Chld(Chld::Killed));
    assert_eq!(Cause::from(ICause::Dumped), Cause::Chld(Chld::Dumped));
    assert_eq!(Cause::from(ICause::Trapped), Cause::Chld(Chld::Trapped));
    assert_eq!(Cause::from(ICause::Stopped), Cause::Chld(Chld::Stopped));
    assert_eq!(Cause::from(ICause::Continued), Cause::Chld(Chld::Continued));
}

#[test]
fn origin_from_sig_info() {
    let origin = Origin::from_sig_info(10, SigInfo::from_parts(ICause::User, 7, 8, false));
    assert_eq!(origin.signal, 10);
    assert_eq!(origin.cause, Cause::Sent(Sent::User));
    let p: Process = origin.process.unwrap();
    assert_eq!((p.pid, p.uid), (7, 8));
    let from_kernel = Origin::from_sig_info(17, SigInfo::from_parts(ICause::Kernel, 7, 8, false));
    assert_eq!(from_kernel.cause, Cause::Kernel);
    assert_eq!(from_kernel.process, None);
}

#[test]
fn cause_from_raw_codes() {
    assert_eq!(ICause::from_raw(0), ICause::Unknown);
    assert_eq!(ICause::from_raw(1), ICause::Kernel);
    assert_eq!(ICause::from_raw(2), ICause::User);
    assert_eq!(ICause::from_raw(6), ICause::Exited);
    assert_eq!(ICause::from_raw(11), ICause::Continued);
    assert_eq!(ICause::from_raw(12), ICause::Unknown);
    assert_eq!(ICause::from_raw(255), ICause::Unknown);
}

/// The `si_code` values of Linux on x86-64, with `SIGCHLD` as 17.
fn linux_codes() -> SiCodes {
    SiCodes {
        sigchld: 17,
        user: Some(0),
        kernel: Some(0x80),
        tkill: Some(-6),
        queue: Some(-1),
        mesgq: Some(-3),
        exited: Some(1),
        killed: Some(2),
        dumped: Some(3),
        trapped: Some(4),
        stopped: Some(5),
        continued: Some(6),
    }
}

#[test]
fn cause_from_si_code_senders() {
    let codes = linux_codes();
    assert_eq!(ICause::from_si_code(15, 0, &codes), ICause::User);
    assert_eq!(ICause::from_si_code(15, 0x80, &codes), ICause::Kernel);
    assert_eq!(ICause::from_si_code(10, -6, &codes), ICause::TKill);
    assert_eq!(ICause::from_si_code(10, -1, &codes), ICause::Queue);
    assert_eq!(ICause::from_si_code(10, -3, &codes), ICause::MesgQ);
    assert_eq!(ICause::from_si_code(10, -2, &codes), ICause::Unknown);
}

#[test]
fn cause_from_si_code_children() {
    let codes = linux_codes();
    assert_eq!(ICause::from_si_code(17, 1, &codes), ICause::Exited);
    assert_eq!(ICause::from_si_code(17, 2, &codes), ICause::Killed);
    assert_eq!(ICause::from_si_code(17, 3, &codes), ICause::Dumped);
    assert_eq!(ICause::from_si_code(17, 4, &codes), ICause::Trapped);
    assert_eq!(ICause::from_si_code(17, 5, &codes), ICause::Stopped);
    assert_eq!(ICause::from_si_code(17, 6, &codes), ICause::Continued);
    // A `SIGCHLD` sent by `kill` is told by its sender.
    assert_eq!(ICause::from_si_code(17, 0, &codes), ICause::User);
    // The codes of a child's change of state mean something else for other signals.
    assert_eq!(ICause::from_si_code(11, 1, &codes), ICause::Unknown);
}

#[test]
fn cause_from_si_code_unreported() {
    let codes = SiCodes { user: None, kernel: None, tkill: None, queue: None, mesgq: None, ..linux_codes() };
    assert_eq!(ICause::from_si_code(15, 0, &codes), ICause::Unknown);
    assert_eq!(ICause::from_si_code(17, 1, &codes), ICause::Exited);
}
