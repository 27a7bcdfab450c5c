use std::sync::atomic::AtomicBool;

use signal_hook::iterator::backend::{
    PollResult, ReadCheck, RegisteredSignals, SignalIterator, Step, Waker, MAX_SIGNUM,
};
use signal_hook::iterator::exfiltrator::SignalOnly;
use signal_hook::registry::Registry;

fn forbidden() -> Vec<i32> {
    vec![libc::SIGKILL, libc::SIGSTOP]
}

#[test]
fn pending_is_empty_initially() {
    let waker = Waker::new((), ());
    let mut pending = waker.pending();
    assert_eq!(pending.next(), None);
    assert!(!waker.is_closed());
}

#[test]
fn pending_returns_marked_signals_once() {
    let waker = Waker::new((), ());
    waker.mark_pending(12);
    waker.mark_pending(10);
    waker.mark_pending(12);
    let mut pending = waker.pending();
    assert_eq!(pending.next(), Some(10));
    assert_eq!(pending.next(), Some(12));
    assert_eq!(pending.next(), None);
    // The flags were taken.
    let mut again = waker.pending();
    assert_eq!(again.next(), None);
}

#[test]
fn pending_highest_signal() {
    let waker = Waker::new((), ());
    waker.mark_pending((MAX_SIGNUM - 1) as i32);
    waker.mark_pending(0);
    let mut pending = waker.pending();
    assert_eq!(pending.next(), Some(0));
    assert_eq!(pending.next(), Some(127));
    assert_eq!(pending.next(), None);
}

#[test]
fn close_is_seen() {
    let waker = Waker::new(1u8, 2u8);
    waker.close();
    assert!(waker.is_closed());
    assert_eq!(*waker.read_end(), 1);
    assert_eq!(*waker.write_end(), 2);
}

#[test]
fn registered_signals_record() {
    let mut registry: Registry<(), ()> = Registry::new(forbidden());
    let mut regs = RegisteredSignals::new();
    assert!(!regs.contains(10));
    let id = registry.add_action(10, Some(()), ());
    regs.record(10, id);
    assert!(regs.contains(10));
    assert!(!regs.contains(11));
    let id2 = registry.add_action(2, Some(()), ());
    regs.record(2, id2);
    assert_eq!(regs.registered(), vec![id2, id]);
}

#[test]
fn signal_iterator_steps() {
    let waker = Waker::new((), ());
    waker.mark_pending(5);
    let mut it = SignalIterator::new(waker.pending());
    assert_eq!(it.step(false), Step::Yield(5));
    assert_eq!(it.step(false), Step::Poll);
    // No new batch: pending.
    assert!(matches!(it.polled::<()>(Ok(None)), Some(PollResult::Pending)));
    // A new batch with a signal: continue stepping.
    waker.mark_pending(7);
    assert!(it.polled::<()>(Ok(Some(waker.pending()))).is_none());
    assert_eq!(it.step(false), Step::Yield(7));
    assert!(matches!(it.polled(Err("boom")), Some(PollResult::Error("boom"))));
    assert_eq!(it.step(true), Step::Stop);
}

#[test]
fn signal_only_exfiltrator() {
    let slot = AtomicBool::new(false);
    let e = SignalOnly;
    assert!(e.supports_signal(3));
    assert_eq!(e.load(&slot, 3), None);
    e.store(&slot, 3);
    assert_eq!(e.load(&slot, 3), Some(3));
    assert_eq!(e.load(&slot, 3), None);
}

#[test]
fn add_signal_registers_once_and_keeps_record_on_error() {
    let mut registry: Registry<(), ()> = Registry::new(forbidden());
    let mut regs = RegisteredSignals::new();
    let mut calls = 0;
    let ok = regs.add_signal(3, || -> Result<_, ()> {
        calls += 1;
        Ok(registry.add_action(3, Some(()), ()))
    });
    assert!(matches!(ok, Ok(None)));
    assert!(regs.contains(3));
    // Already registered: a no-op that hands the registration back unused.
    let again = regs.add_signal(3, || -> Result<_, ()> { panic!("registered twice") });
    assert!(matches!(again, Ok(Some(_))));
    assert_eq!(calls, 1);
    // A failed registration leaves the record as it was.
    let failed = regs.add_signal(4, || Err("refused"));
    assert!(matches!(failed, Err("refused")));
    assert!(!regs.contains(4));
    assert_eq!(regs.registered().len(), 1);
}

#[test]
fn signal_only_outcome() {
    let e = SignalOnly;
    assert_eq!(e.outcome(Ok(true), 9), Some(9));
    assert_eq!(e.outcome(Err(false), 9), None);
}

#[test]
fn take_at_decides_from_the_exchange() {
    let waker = Waker::new((), ());
    let mut batch = waker.pending();
    assert_eq!(batch.take_at(false), None);
    assert_eq!(batch.take_at(true), Some(1));
    assert_eq!(batch.take_at(true), Some(2));
    assert!(!batch.is_done());
}

#[test]
fn step_after_take() {
    assert_eq!(Step::after_take(Some(4)), Step::Yield(4));
    assert_eq!(Step::after_take(None), Step::Poll);
}

#[test]
fn poll_pending_decisions() {
    let waker = Waker::new(7u8, ());
    waker.mark_pending(9);
    let mut drained = false;
    let batch = waker.poll_pending(waker.is_closed(), |read: &u8| -> Result<bool, ()> { Ok(*read == 7) }, || drained = true);
    assert!(drained);
    let mut batch = batch.unwrap().unwrap();
    assert_eq!(batch.next(), Some(9));
    let nothing = waker.poll_pending(waker.is_closed(), |_: &u8| -> Result<bool, ()> { Ok(false) }, || panic!("no drain"));
    assert!(matches!(nothing, Ok(None)));
    let failed = waker.poll_pending(waker.is_closed(), |_: &u8| Err("broken"), || panic!("no drain"));
    assert!(matches!(failed, Err("broken")));
    let told_closed = waker.poll_pending(true, |_: &u8| -> Result<bool, ()> { panic!("not checked when closed") }, || ());
    assert!(matches!(told_closed, Ok(None)));
    waker.close();
    let closed = waker.poll_pending(waker.is_closed(), |_: &u8| -> Result<bool, ()> { panic!("not checked when closed") }, || ());
    assert!(matches!(closed, Ok(None)));
    assert!(matches!(ReadCheck::<()>::after_check(Ok(true)), ReadCheck::Drain));
    assert!(matches!(ReadCheck::<()>::after_check(Ok(false)), ReadCheck::Nothing));
    assert!(matches!(ReadCheck::after_check(Err(3)), ReadCheck::Failed(3)));
}
