//! The parts of signal delivery that don't depend on the concrete pipe type: the flags of
//! received signals, the batch iterator over them, the record of registered signals and the
//! decisions of the infinite signal iterator.
//!
//! The signal handler sets the flag of its signal and then writes to the self-pipe; the reading
//! side first drains the pipe and then takes (and clears) the flags. The pipe itself and the
//! registration with the operating system are handled around this module.

use std::sync::atomic::{AtomicBool, Ordering};
use std::sync::Arc;

use vstd::prelude::*;

use crate::iterator::signum::{index_to_signal, signal_index};
use crate::registry::SigId;

verus! {

/// Maximal signal number we support (exclusive).
pub const MAX_SIGNUM: usize = 128;

/// The state shared between the signal handlers and the readers of one group of deliveries:
/// one flag per signal number, the closed flag and the two ends of the self-pipe.
#[derive(Debug)]
pub struct Waker<R, W> {
    pending: Arc<Vec<AtomicBool>>,
    closed: AtomicBool,
    read: R,
    write: W,
}

impl<R, W> Waker<R, W> {
    /// There is one flag per supported signal number.
    #[verifier::type_invariant]
    spec fn flags_complete(&self) -> bool {
        self.pending@.len() == MAX_SIGNUM
    }

    /// The number of signal flags.
    pub closed spec fn flag_count(&self) -> nat {
        self.pending@.len()
    }

    /// The shared signal flags, one per signal number, that the signal handlers set.
    pub closed spec fn flags(&self) -> Arc<Vec<AtomicBool>> {
        self.pending
    }

    /// The read end of the self-pipe.
    pub closed spec fn read_pipe(&self) -> R {
        self.read
    }

    /// The write end of the self-pipe.
    pub closed spec fn write_pipe(&self) -> W {
        self.write
    }

    /// Creates the state for the given read and write pipe ends, with no signal pending and not
    /// closed.
    pub fn new(read: R, write: W) -> (r: Self)
        ensures
            r.flag_count() == MAX_SIGNUM,
            r.read_pipe() == read,
            r.write_pipe() == write,
    {
        let mut flags: Vec<AtomicBool> = Vec::new();
        let mut i: usize = 0;
        while i < MAX_SIGNUM
            invariant
                i <= MAX_SIGNUM,
                flags@.len() == i,
            decreases MAX_SIGNUM - i,
        {
            flags.push(AtomicBool::new(false));
            i = i + 1;
        }
        Waker { pending: Arc::new(flags), closed: AtomicBool::new(false), read, write }
    }

    /// An iterator over the signals received since they were last taken: a walk from the start
    /// over this state's own flags.
    pub fn pending(&self) -> (r: Pending)
        ensures
            r.walks() == self.flags(),
            r.position() == 0,
            r.flag_count() == MAX_SIGNUM,
    {
        proof {
            use_type_invariant(self);
        }
        Pending::new(Arc::clone(&self.pending))
    }

    /// Records that the signal arrived (done inside the signal handler, before the pipe is
    /// written).
    ///
    /// The flags are atomics shared with other threads; their values are not modeled.
    pub fn mark_pending(&self, signal: i32)
        requires
            0 <= signal < MAX_SIGNUM,
    {
        proof {
            use_type_invariant(self);
        }
        let index = signal_index(signal);
        self.pending[index].store(true, Ordering::SeqCst);
    }

    /// Whether the deliveries were closed.
    ///
    /// The flag is shared with other threads and read atomically; its value is not modeled, so
    /// nothing is stated of the result.
    pub fn is_closed(&self) -> bool {
        self.closed.load(Ordering::SeqCst)
    }

    /// Marks the deliveries as closed (the caller then wakes the readers through the pipe).
    pub fn close(&self) {
        self.closed.store(true, Ordering::SeqCst);
    }

    /// Polls for a new batch, given whether the deliveries are closed (as [`Waker::is_closed`]
    /// read it): nothing when closed, without checking the read end; else the read end is
    /// checked by `has_signals`, and [`ReadCheck::after_check`] decides from its outcome: no
    /// signals gives nothing, signals give a fresh batch after `drain` empties the pipe, and an
    /// error is returned as it is.
    pub fn poll_pending<E, F: FnOnce(&R) -> Result<bool, E>, D: FnOnce()>(&self, closed: bool, has_signals: F, drain: D) -> (r: Result<Option<Pending>, E>)
        requires
            !closed ==> call_requires(has_signals, (&self.read_pipe(),)),
            call_requires(drain, ()),
        ensures
            closed ==> r matches Ok(None),
            !closed ==> exists|checked: Result<bool, E>|
                #[trigger] call_ensures(has_signals, (&self.read_pipe(),), checked) && match checked {
                    Ok(false) => r matches Ok(None),
                    Ok(true) => {
                        &&& r matches Ok(Some(batch))
                        &&& batch.walks() == self.flags()
                        &&& batch.position() == 0
                        &&& batch.flag_count() == MAX_SIGNUM
                        &&& call_ensures(drain, (), ())
                    },
                    Err(e) => r == Err::<Option<Pending>, E>(e),
                },
    {
        if closed {
            return Ok(None);
        }
        let checked = has_signals(&self.read);
        match ReadCheck::after_check(checked) {
            ReadCheck::Nothing => Ok(None),
            ReadCheck::Drain => {
                drain();
                Ok(Some(self.pending()))
            },
            ReadCheck::Failed(e) => Err(e),
        }
    }

    /// The read end of the self-pipe.
    pub fn read_end(&self) -> (r: &R)
        ensures
            *r == self.read_pipe(),
    {
        &self.read
    }

    /// The write end of the self-pipe.
    pub fn write_end(&self) -> (r: &W)
        ensures
            *r == self.write_pipe(),
    {
        &self.write
    }
}

/// What checking the read end of the self-pipe calls for.
pub enum ReadCheck<E> {
    /// No signals came: nothing to take.
    Nothing,
    /// Signals may have come: drain the pipe, then take a new batch.
    Drain,
    /// The check failed.
    Failed(E),
}

impl<E> ReadCheck<E> {
    /// Decides from the outcome of checking the read end.
    pub fn after_check(checked: Result<bool, E>) -> (r: ReadCheck<E>)
        ensures
            r == (match checked {
                Ok(false) => ReadCheck::Nothing,
                Ok(true) => ReadCheck::Drain,
                Err(e) => ReadCheck::Failed(e),
            }),
    {
        match checked {
            Ok(false) => ReadCheck::Nothing,
            Ok(true) => ReadCheck::Drain,
            Err(e) => ReadCheck::Failed(e),
        }
    }
}

/// The iterator of one batch of signals.
///
/// It walks the signal flags once, in increasing signal number, and yields each signal whose flag
/// it manages to take (switch from set to clear).
#[derive(Debug)]
pub struct Pending {
    pending: Arc<Vec<AtomicBool>>,
    position: usize,
}

impl Pending {
    /// The next signal number to look at.
    pub closed spec fn position(&self) -> nat {
        self.position as nat
    }

    /// The number of signal flags.
    pub closed spec fn flag_count(&self) -> nat {
        self.pending@.len()
    }

    /// The signal flags that the walk takes from.
    pub closed spec fn walks(&self) -> Arc<Vec<AtomicBool>> {
        self.pending
    }

    fn new(pending: Arc<Vec<AtomicBool>>) -> (r: Self)
        requires
            pending@.len() <= MAX_SIGNUM,
        ensures
            r.walks() == pending,
            r.position() == 0,
            r.flag_count() == pending@.len(),
    {
        Pending { pending, position: 0 }
    }

    /// The walk is within the flags, and there are at most [`MAX_SIGNUM`] flags.
    #[verifier::type_invariant]
    spec fn walk_in_bounds(&self) -> bool {
        self.position <= self.pending@.len() <= MAX_SIGNUM
    }

    /// Whether the walk has reached the end of the flags.
    pub fn is_done(&self) -> (r: bool)
        ensures
            r == (self.position() >= self.flag_count()),
    {
        self.position >= self.pending.len()
    }

    /// One step of the walk, given whether the flag at the current position was switched from set
    /// to clear: that position's signal when it was, nothing otherwise; the walk moves on by one
    /// either way.
    pub fn take_at(&mut self, exchanged: bool) -> (r: Option<i32>)
        requires
            old(self).position() < old(self).flag_count(),
        ensures
            final(self).walks() == old(self).walks(),
            final(self).flag_count() == old(self).flag_count(),
            final(self).position() == old(self).position() + 1,
            exchanged ==> (r matches Some(sig) && sig == old(self).position()),
            !exchanged ==> r is None,
    {
        proof {
            use_type_invariant(&*self);
        }
        let sig = self.position;
        self.position = self.position + 1;
        if exchanged {
            Some(index_to_signal(sig))
        } else {
            None
        }
    }

    /// Takes the next received signal, or `None` when the batch is done.
    ///
    /// At each position from the current one on, the flag is switched from set to clear, and
    /// [`Pending::take_at`] decides from the outcome: the first switch that succeeds gives the
    /// signal, and the walk continues right after it; when none does, the walk is at the end. So
    /// a batch yields each signal at most once, in increasing order (see
    /// [`law_batch_yields_increase`]). Which flags are set is up to the signal handlers running
    /// concurrently: the values of the atomic flags are not modeled, so the outcome of each switch
    /// is not stated here.
    pub fn next(&mut self) -> (r: Option<i32>)
        ensures
            final(self).position() <= final(self).flag_count() <= MAX_SIGNUM,
            final(self).walks() == old(self).walks(),
            final(self).flag_count() == old(self).flag_count(),
            yielded(*old(self), *final(self), r),
    {
        proof {
            use_type_invariant(&*self);
        }
        let ghost start = self.position;
        while self.position < self.pending.len()
            invariant
                self.pending == old(self).walks(),
                self.pending@.len() == old(self).flag_count(),
                self.pending@.len() <= MAX_SIGNUM,
                start == old(self).position(),
                start <= self.position <= self.pending@.len(),
            decreases self.pending@.len() - self.position,
        {
            let exchanged = self.pending[self.position].compare_exchange(true, false, Ordering::SeqCst, Ordering::Relaxed).is_ok();
            let taken = self.take_at(exchanged);
            if taken.is_some() {
                return taken;
            }
        }
        None
    }
}

/// What a step of the walk over a batch did: a taken signal is at or after the position before
/// and the walk continues right after it; with nothing taken, the walk is at the end.
pub open spec fn yielded(before: Pending, after: Pending, r: Option<i32>) -> bool {
    match r {
        Some(sig) => {
            &&& before.position() <= sig < before.flag_count()
            &&& after.position() == sig + 1
        },
        None => after.position() == before.flag_count(),
    }
}

/// Signals taken one after another from a batch strictly increase: a batch yields each signal at
/// most once.
pub proof fn law_batch_yields_increase(
    p0: Pending,
    p1: Pending,
    first: i32,
    p2: Pending,
    p3: Pending,
    second: i32,
)
    requires
        yielded(p0, p1, Some(first)),
        p1.position() <= p2.position(),
        yielded(p2, p3, Some(second)),
    ensures
        first < second,
{
}

/// The record of which signals a group of deliveries has registered, with their action IDs.
#[derive(Debug)]
pub struct RegisteredSignals {
    ids: Vec<Option<SigId>>,
}

impl RegisteredSignals {
    /// There is one entry per supported signal number.
    #[verifier::type_invariant]
    spec fn entries_complete(&self) -> bool {
        self.ids@.len() == MAX_SIGNUM
    }

    /// The registration of each signal number.
    pub closed spec fn ids(&self) -> Seq<Option<SigId>> {
        self.ids@
    }

    /// No signal registered yet; one entry per signal number.
    pub fn new() -> (r: Self)
        ensures
            r.ids().len() == MAX_SIGNUM,
            forall|i: int| 0 <= i < MAX_SIGNUM ==> #[trigger] r.ids()[i] is None,
    {
        let mut ids: Vec<Option<SigId>> = Vec::new();
        let mut i: usize = 0;
        while i < MAX_SIGNUM
            invariant
                i <= MAX_SIGNUM,
                ids@.len() == i,
                forall|j: int| 0 <= j < i ==> #[trigger] ids@[j] is None,
            decreases MAX_SIGNUM - i,
        {
            ids.push(None);
            i = i + 1;
        }
        RegisteredSignals { ids }
    }

    /// Whether the signal is registered already (then adding it again does nothing).
    pub fn contains(&self, signal: i32) -> (r: bool)
        requires
            0 <= signal < MAX_SIGNUM,
        ensures
            self.ids().len() == MAX_SIGNUM,
            r == self.ids()[signal as int] is Some,
    {
        proof {
            use_type_invariant(self);
        }
        let index = signal_index(signal);
        self.ids[index].is_some()
    }

    /// Records the registration of the signal.
    pub fn record(&mut self, signal: i32, id: SigId)
        requires
            0 <= signal < MAX_SIGNUM,
        ensures
            final(self).ids().len() == MAX_SIGNUM,
            final(self).ids() == old(self).ids().update(signal as int, Some(id)),
    {
        proof {
            use_type_invariant(&*self);
        }
        let index = signal_index(signal);
        let mut ids: Vec<Option<SigId>> = self.ids.clone();
        ids.set(index, Some(id));
        self.ids = ids;
    }

    /// Registers the signal through `register` unless it is registered already, and records the
    /// ID it gives.
    ///
    /// A registered signal is left alone: `register` is not called and is handed back unused
    /// (`Ok(Some(register))`). Otherwise `register` is called: on success the ID is recorded
    /// (`Ok(None)`); on failure the record is left intact and the error is returned.
    pub fn add_signal<E, F: FnOnce() -> Result<SigId, E>>(&mut self, signal: i32, register: F) -> (r: Result<Option<F>, E>)
        requires
            0 <= signal < MAX_SIGNUM,
            call_requires(register, ()),
        ensures
            final(self).ids().len() == MAX_SIGNUM,
            old(self).ids()[signal as int] is Some ==> r == Ok::<Option<F>, E>(Some(register))
                && final(self).ids() == old(self).ids(),
            old(self).ids()[signal as int] is None ==> match r {
                Ok(None) => exists|id: SigId|
                    call_ensures(register, (), Ok(id)) && final(self).ids() == old(self).ids().update(
                        signal as int,
                        Some(id),
                    ),
                Ok(Some(_)) => false,
                Err(e) => call_ensures(register, (), Err(e)) && final(self).ids() == old(self).ids(),
            },
    {
        if self.contains(signal) {
            return Ok(Some(register));
        }
        match register() {
            Ok(id) => {
                self.record(signal, id);
                Ok(None)
            },
            Err(e) => Err(e),
        }
    }

    /// All the recorded registrations, in increasing signal number (to be unregistered when the
    /// group goes away).
    pub fn registered(&self) -> (r: Vec<SigId>)
        ensures
            self.ids().len() == MAX_SIGNUM,
            r@ == self.ids().filter(|o: Option<SigId>| o is Some).map_values(
                |o: Option<SigId>| o->0,
            ),
    {
        proof {
            use_type_invariant(self);
        }
        let mut out: Vec<SigId> = Vec::new();
        let mut i: usize = 0;
        while i < self.ids.len()
            invariant
                i <= self.ids@.len(),
                out@ == self.ids@.take(i as int).filter(|o: Option<SigId>| o is Some).map_values(
                    |o: Option<SigId>| o->0,
                ),
            decreases self.ids@.len() - i,
        {
            proof {
                reveal_with_fuel(Seq::<_>::filter, 1);
                assert(self.ids@.take(i + 1).drop_last() =~= self.ids@.take(i as int));
            }
            match self.ids[i] {
                Some(id) => out.push(id),
                None => {},
            }
            i = i + 1;
        }
        proof {
            assert(self.ids@.take(self.ids@.len() as int) =~= self.ids@);
        }
        out
    }
}

/// Possible results of polling the infinite signal iterator.
#[derive(Debug)]
pub enum PollResult<E> {
    /// A signal arrived.
    Signal(i32),
    /// There are no signals yet but there may arrive some in the future.
    Pending,
    /// The iterator was closed. There won't be any signals reported from now on.
    Closed,
    /// An error happened during polling for arrived signals.
    Error(E),
}

/// What the infinite iterator needs done next.
#[derive(Copy, Clone, Debug, PartialEq, Eq, Structural)]
pub enum Step {
    /// Report this signal.
    Yield(i32),
    /// The current batch is used up: look at the read end for more signals.
    Poll,
    /// Report that the iterator is closed.
    Stop,
}

impl Step {
    /// The step that follows taking from the batch: report what was taken, or poll when the
    /// batch is used up.
    pub fn after_take(taken: Option<i32>) -> (r: Step)
        ensures
            r == (match taken {
                Some(sig) => Step::Yield(sig),
                None => Step::Poll,
            }),
    {
        match taken {
            Some(sig) => Step::Yield(sig),
            None => Step::Poll,
        }
    }
}

/// The decisions of an infinite iterator of received signals, around the current batch.
///
/// Driving it: call [`SignalIterator::step`] with whether the deliveries are closed; on
/// [`Step::Poll`], poll the read end and hand the outcome to [`SignalIterator::polled`], which
/// either answers or asks for another step.
#[derive(Debug)]
pub struct SignalIterator {
    iter: Pending,
}

impl SignalIterator {
    /// The current batch.
    pub closed spec fn batch(&self) -> Pending {
        self.iter
    }

    /// Starts with the given batch.
    pub fn new(iter: Pending) -> (r: Self)
        ensures
            r.batch() == iter,
    {
        SignalIterator { iter }
    }

    /// One step: stop when closed, else yield the next signal of the batch, or ask for a poll
    /// when the batch is used up.
    pub fn step(&mut self, closed: bool) -> (r: Step)
        ensures
            final(self).batch().walks() == old(self).batch().walks(),
            final(self).batch().flag_count() == old(self).batch().flag_count(),
            closed ==> r == Step::Stop && final(self).batch() == old(self).batch(),
            !closed ==> match r {
                Step::Yield(sig) => {
                    &&& old(self).batch().position() <= sig < old(self).batch().flag_count()
                    &&& final(self).batch().position() == sig + 1
                },
                Step::Poll => final(self).batch().position() == old(self).batch().flag_count(),
                Step::Stop => false,
            },
    {
        if closed {
            return Step::Stop;
        }
        let taken = self.iter.next();
        Step::after_take(taken)
    }

    /// Takes the outcome of polling the read end: a new batch (continue with another step), no
    /// signals yet, or an error.
    pub fn polled<E>(&mut self, outcome: Result<Option<Pending>, E>) -> (r: Option<PollResult<E>>)
        ensures
            match outcome {
                Ok(Some(batch)) => r is None && final(self).batch() == batch,
                Ok(None) => r matches Some(PollResult::Pending) && final(self).batch() == old(
                    self,
                ).batch(),
                Err(e) => r == Some(PollResult::<E>::Error(e)) && final(self).batch() == old(
                    self,
                ).batch(),
            },
    {
        match outcome {
            Ok(Some(batch)) => {
                self.iter = batch;
                None
            },
            Ok(None) => Some(PollResult::Pending),
            Err(e) => Some(PollResult::Error(e)),
        }
    }

    /// The current batch, for handing the state back.
    pub fn into_batch(self) -> (r: Pending)
        ensures
            r == self.batch(),
    {
        self.iter
    }
}

} // verus!
