//! The registry of actions run when signals arrive.
//!
//! For each signal with at least one action there is a slot: the handler that was installed
//! before ours (chained on every delivery) and the actions, in the order of registration. Each
//! registration gets a fresh action ID; IDs are handed out in increasing order, so the order of
//! IDs within a slot is the order of registration.
//!
//! The operating-system side (installing the handler with `sigaction`, masking the signal while
//! the registry changes, publishing the new registry to the signal handler) happens around these
//! operations; this module decides what the registry becomes.

use vstd::prelude::*;

use crate::vec_map::{has_key, index_of, keys_of, lemma_index_of_unique, VecMap};

verus! {

/// An ID of registered action.
///
/// This is returned by all the registration routines and can be used to remove the action later
/// on.
#[derive(Copy, Clone, Debug, PartialEq, Eq, Structural, PartialOrd, Ord, Hash)]
pub struct SigId {
    signal: i32,
    action: u64,
}

impl View for SigId {
    /// The signal and the action ID.
    type V = (i32, u64);

    closed spec fn view(&self) -> (i32, u64) {
        (self.signal, self.action)
    }
}

impl SigId {
    /// The signal the action was registered for.
    pub fn signal(&self) -> (r: i32)
        ensures
            r == self@.0,
    {
        self.signal
    }
}

/// The actions of one signal, with the handler that was there before.
pub struct Slot<P, A> {
    /// The handler installed before the first action for this signal was registered.
    pub prev: P,
    /// The actions, keyed by their IDs, in the order of registration.
    pub actions: VecMap<u64, A>,
}

/// Whether the IDs in the entries are strictly increasing and all below `bound`.
pub open spec fn ids_ordered_below<A>(entries: Seq<(u64, A)>, bound: u64) -> bool {
    &&& forall|i: int, j: int|
        0 <= i < j < entries.len() ==> #[trigger] entries[i].0 < #[trigger] entries[j].0
    &&& forall|i: int| 0 <= i < entries.len() ==> #[trigger] entries[i].0 < bound
}

/// All the registered actions, grouped by signal.
pub struct Registry<P, A> {
    next_action: u64,
    signals: VecMap<i32, Slot<P, A>>,
    forbidden: Vec<i32>,
}

/// A copy of a list of signal numbers.
fn copy_signals(signals: &Vec<i32>) -> (r: Vec<i32>)
    ensures
        r@ == signals@,
{
    let mut out: Vec<i32> = Vec::new();
    let mut i: usize = 0;
    while i < signals.len()
        invariant
            i <= signals@.len(),
            out@ == signals@.take(i as int),
        decreases signals@.len() - i,
    {
        out.push(signals[i]);
        proof {
            assert(out@ =~= signals@.take(i + 1));
        }
        i = i + 1;
    }
    proof {
        assert(signals@.take(signals@.len() as int) =~= signals@);
    }
    out
}

impl<P, A> Registry<P, A> {
    /// The ID the next registration gets.
    pub closed spec fn next_action(&self) -> u64 {
        self.next_action
    }

    /// The signals that may not be registered (those the system does not let a handler replace,
    /// or that need handling this registry cannot give).
    pub closed spec fn forbidden(&self) -> Seq<i32> {
        self.forbidden@
    }

    /// The slots, in the order their signals were first registered.
    pub closed spec fn slots(&self) -> Seq<(i32, Slot<P, A>)> {
        self.signals@
    }

    /// Whether the signal has a slot.
    pub open spec fn has_slot(&self, signal: i32) -> bool {
        has_key(self.slots(), signal)
    }

    /// The slot of the signal (meaningful when it has one).
    pub open spec fn slot(&self, signal: i32) -> Slot<P, A> {
        self.slots()[index_of(self.slots(), signal)].1
    }

    /// The actions of the signal, in the order of registration.
    pub open spec fn actions_of(&self, signal: i32) -> Seq<(u64, A)> {
        if self.has_slot(signal) {
            self.slot(signal).actions@
        } else {
            Seq::empty()
        }
    }

    /// The actions of every signal come in the order of registration (their IDs increase), and
    /// every ID is below the one the next registration gets.
    pub open spec fn ordered(&self) -> bool {
        forall|s: i32| ids_ordered_below(#[trigger] self.actions_of(s), self.next_action())
    }

    /// The registry is consistent: no signal has two slots, no action ID occurs twice in a slot,
    /// and the IDs in each slot increase and are all below the next ID.
    #[verifier::type_invariant]
    spec fn wf(&self) -> bool {
        &&& self.signals.wf()
        &&& forall|i: int|
            0 <= i < self.signals@.len() ==> {
                &&& (#[trigger] self.signals@[i]).1.actions.wf()
                &&& ids_ordered_below(self.signals@[i].1.actions@, self.next_action)
            }
    }

    /// An empty registry that refuses the `forbidden` signals.
    pub fn new(forbidden: Vec<i32>) -> (r: Self)
        ensures
            r.ordered(),
            r.next_action() == 0,
            r.slots() == Seq::<(i32, Slot<P, A>)>::empty(),
            r.forbidden() == forbidden@,
    {
        proof {
            broadcast use vstd::laws_eq::group_laws_eq;
        }
        let r = Registry { next_action: 0, signals: VecMap::new(), forbidden };
        proof {
            lemma_wf_ordered(&r);
        }
        r
    }

    /// Whether the signal is one the registry refuses.
    pub fn is_forbidden(&self, signal: i32) -> (r: bool)
        ensures
            r == self.forbidden().contains(signal),
    {
        let mut i: usize = 0;
        while i < self.forbidden.len()
            invariant
                i <= self.forbidden@.len(),
                forall|j: int| 0 <= j < i ==> self.forbidden@[j] != signal,
            decreases self.forbidden@.len() - i,
        {
            if self.forbidden[i] == signal {
                proof {
                    assert(self.forbidden@[i as int] == signal);
                }
                return true;
            }
            i = i + 1;
        }
        false
    }

    /// Whether the signal already has a slot (and therefore our handler installed).
    pub fn contains_signal(&self, signal: i32) -> (r: bool)
        ensures
            r == self.has_slot(signal),
    {
        proof {
            use_type_invariant(self);
        }
        self.signals.contains(&signal)
    }

    /// Adds an action for the signal and returns its ID.
    ///
    /// A signal without a slot gets one, holding `new_prev` (the handler that installing ours
    /// replaced); for a signal with a slot, `new_prev` is not used.
    pub fn add_action(&mut self, signal: i32, new_prev: Option<P>, action: A) -> (id: SigId)
        requires
            !old(self).forbidden().contains(signal),
            old(self).next_action() < u64::MAX,
            !old(self).has_slot(signal) ==> new_prev is Some,
        ensures
            final(self).forbidden() == old(self).forbidden(),
            issued(*old(self), *final(self), signal, id),
            final(self).ordered(),
            id@ == (signal, old(self).next_action()),
            final(self).next_action() == old(self).next_action() + 1,
            has_key(final(self).actions_of(signal), id@.1),
            final(self).actions_of(signal) == old(self).actions_of(signal).push(
                (old(self).next_action(), action),
            ),
            forall|s: i32| s != signal ==> final(self).actions_of(s) == old(self).actions_of(s),
            forall|s: i32| #[trigger]
                final(self).has_slot(s) == (old(self).has_slot(s) || s == signal),
            old(self).has_slot(signal) ==> final(self).slot(signal).prev == old(self).slot(
                signal,
            ).prev,
            !old(self).has_slot(signal) ==> final(self).slot(signal).prev == new_prev->0,
            forall|s: i32|
                s != signal && old(self).has_slot(s) ==> final(self).slot(s).prev == old(
                    self,
                ).slot(s).prev,
    {
        proof {
            use_type_invariant(&*self);
            broadcast use vstd::laws_eq::group_laws_eq;
        }
        let mut this = Registry::<P, A>::new(Vec::new());
        std::mem::swap(&mut this, self);
        let Registry { next_action, mut signals, forbidden } = this;
        let id = next_action;
        let ghost old_slots = signals@;
        match signals.get_mut(&signal) {
            Some(slot) => {
                let ghost pos = index_of(old_slots, signal);
                proof {
                    assert(old_slots[pos].1.actions.wf());
                    assert(ids_ordered_below(old_slots[pos].1.actions@, id));
                    assert(!has_key(old_slots[pos].1.actions@, id)) by {
                        let acts = old_slots[pos].1.actions@;
                        if has_key(acts, id) {
                            let k = index_of(acts, id);
                            assert(acts[k].0 < id);
                        }
                    }
                }
                slot.actions.insert(id, action);
            },
            None => {
                let mut actions = VecMap::new();
                actions.insert(id, action);
                let prev = match new_prev {
                    Some(p) => p,
                    None => {
                        proof {
                            assert(false);
                        }
                        return SigId { signal, action: id };
                    },
                };
                signals.insert(signal, Slot { prev, actions });
            },
        }
        proof {
            let new_slots = signals@;
            assert forall|i: int| 0 <= i < new_slots.len() implies {
                &&& (#[trigger] new_slots[i]).1.actions.wf()
                &&& ids_ordered_below(new_slots[i].1.actions@, (id + 1) as u64)
            } by {
                if i < old_slots.len() {
                    assert(old_slots[i].1.actions.wf());
                    assert(ids_ordered_below(old_slots[i].1.actions@, id));
                }
            }
        }
        *self = Registry { next_action: id + 1, signals, forbidden };
        proof {
            let new_slots = self.signals@;
            assert forall|s: i32| #[trigger]
                self.has_slot(s) == (has_key(old_slots, s) || s == signal) by {
                if has_key(old_slots, s) {
                    let k = index_of(old_slots, s);
                    assert(new_slots[k].0 == s);
                }
                if s == signal && !has_key(old_slots, s) {
                    assert(new_slots[old_slots.len() as int].0 == s);
                }
                if has_key(new_slots, s) && s != signal {
                    let k = index_of(new_slots, s);
                    assert(old_slots[k].0 == s);
                }
            }
            assert forall|s: i32| has_key(old_slots, s) implies index_of(new_slots, s) == index_of(
                old_slots,
                s,
            ) by {
                let k = index_of(old_slots, s);
                lemma_index_of_unique(old_slots, k);
                assert(new_slots[k].0 == s);
                lemma_index_of_unique(new_slots, k);
            }
        }
        proof {
            let acts = self.actions_of(signal);
            assert(acts[acts.len() - 1].0 == id);
            use_type_invariant(&*self);
            lemma_wf_ordered(&*self);
        }
        SigId { signal, action: id }
    }

    /// Registers an action for the signal: when the signal has no slot yet, `install` puts our
    /// handler in place first and gives the one it replaced. A signal with a slot does not need
    /// it, and `install` is handed back unused with the ID.
    ///
    /// The ID is taken before installing: a failed installation uses it up (the next
    /// registration gets the one after), leaves the slots as they were, and returns the error.
    pub fn register_action<E, F: FnOnce() -> Result<P, E>>(&mut self, signal: i32, action: A, install: F) -> (r: Result<(SigId, Option<F>), E>)
        requires
            !old(self).forbidden().contains(signal),
            old(self).next_action() < u64::MAX,
            call_requires(install, ()),
        ensures
            final(self).ordered(),
            final(self).forbidden() == old(self).forbidden(),
            final(self).next_action() == old(self).next_action() + 1,
            match r {
                Ok((id, unused)) => {
                    &&& issued(*old(self), *final(self), signal, id)
                    &&& final(self).actions_of(signal) == old(self).actions_of(signal).push(
                        (old(self).next_action(), action),
                    )
                    &&& forall|s: i32|
                        s != signal ==> final(self).actions_of(s) == old(self).actions_of(s)
                    &&& forall|s: i32| #[trigger]
                        final(self).has_slot(s) == (old(self).has_slot(s) || s == signal)
                    &&& forall|s: i32|
                        old(self).has_slot(s) ==> final(self).slot(s).prev == old(self).slot(
                            s,
                        ).prev
                    &&& old(self).has_slot(signal) ==> unused == Some(install)
                    &&& !old(self).has_slot(signal) ==> {
                        &&& unused is None
                        &&& call_ensures(install, (), Ok(final(self).slot(signal).prev))
                    }
                },
                Err(e) => {
                    &&& !old(self).has_slot(signal)
                    &&& call_ensures(install, (), Err(e))
                    &&& final(self).slots() == old(self).slots()
                },
            },
    {
        proof {
            use_type_invariant(&*self);
        }
        if self.contains_signal(signal) {
            let id = self.add_action(signal, None, action);
            return Ok((id, Some(install)));
        }
        match install() {
            Ok(p) => {
                let id = self.add_action(signal, Some(p), action);
                Ok((id, None))
            },
            Err(e) => {
                self.next_action = self.next_action + 1;
                proof {
                    use_type_invariant(&*self);
                    lemma_wf_ordered(&*self);
                }
                Err(e)
            },
        }
    }

    /// Removes the action with the ID; returns whether it was there.
    ///
    /// The slot of the signal stays, even when its last action goes (the handler stays
    /// installed).
    pub fn remove_action(&mut self, id: SigId) -> (r: bool)
        ensures
            final(self).forbidden() == old(self).forbidden(),
            final(self).ordered(),
            r == has_key(old(self).actions_of(id@.0), id@.1),
            r ==> final(self).actions_of(id@.0) == old(self).actions_of(id@.0).remove(
                index_of(old(self).actions_of(id@.0), id@.1),
            ),
            !r ==> final(self).actions_of(id@.0) == old(self).actions_of(id@.0),
            !has_key(final(self).actions_of(id@.0), id@.1),
            forall|s: i32| s != id@.0 ==> final(self).actions_of(s) == old(self).actions_of(s),
            forall|s: i32| #[trigger] final(self).has_slot(s) == old(self).has_slot(s),
            forall|s: i32|
                old(self).has_slot(s) ==> final(self).slot(s).prev == old(self).slot(s).prev,
            final(self).next_action() == old(self).next_action(),
    {
        proof {
            use_type_invariant(&*self);
            broadcast use vstd::laws_eq::group_laws_eq;
        }
        let mut this = Registry::<P, A>::new(Vec::new());
        std::mem::swap(&mut this, self);
        let Registry { next_action, mut signals, forbidden } = this;
        let ghost old_slots = signals@;
        let mut removed = false;
        match signals.get_mut(&id.signal) {
            Some(slot) => {
                let ghost pos = index_of(old_slots, id.signal);
                proof {
                    assert(old_slots[pos].1.actions.wf());
                }
                removed = slot.actions.remove(&id.action).is_some();
                proof {
                    let acts = old_slots[pos].1.actions@;
                    let nacts = slot.actions@;
                    if removed {
                        let k = index_of(acts, id.action);
                        assert forall|i: int, j: int|
                            0 <= i < j < nacts.len() implies #[trigger] nacts[i].0
                            < #[trigger] nacts[j].0 by {
                            if i < k {
                                if j < k {
                                } else {
                                    assert(nacts[j] == acts[j + 1]);
                                }
                            } else {
                                assert(nacts[i] == acts[i + 1]);
                                assert(nacts[j] == acts[j + 1]);
                            }
                        }
                        assert forall|i: int| 0 <= i < nacts.len() implies #[trigger] nacts[i].0
                            < next_action by {
                            if i < k {
                            } else {
                                assert(nacts[i] == acts[i + 1]);
                            }
                        }
                    }
                }
            },
            None => {},
        }
        proof {
            let new_slots = signals@;
            assert(new_slots.len() == old_slots.len());
            assert forall|i: int| 0 <= i < new_slots.len() implies {
                &&& (#[trigger] new_slots[i]).1.actions.wf()
                &&& ids_ordered_below(new_slots[i].1.actions@, next_action)
            } by {
                assert(old_slots[i].1.actions.wf());
            }
        }
        *self = Registry { next_action, signals, forbidden };
        proof {
            let new_slots = self.signals@;
            assert forall|i: int| 0 <= i < new_slots.len() implies (#[trigger] new_slots[i]).0
                == old_slots[i].0 by {}
            assert forall|s: i32| #[trigger] has_key(new_slots, s) == has_key(old_slots, s) by {
                if has_key(old_slots, s) {
                    let k = index_of(old_slots, s);
                    assert(new_slots[k].0 == s);
                }
                if has_key(new_slots, s) {
                    let k = index_of(new_slots, s);
                    assert(old_slots[k].0 == s);
                }
            }
            assert forall|s: i32| has_key(old_slots, s) implies index_of(new_slots, s) == index_of(
                old_slots,
                s,
            ) by {
                let k = index_of(old_slots, s);
                lemma_index_of_unique(old_slots, k);
                assert(new_slots[k].0 == s);
                lemma_index_of_unique(new_slots, k);
            }
            if has_key(old_slots, id.signal) {
                let pos = index_of(old_slots, id.signal);
                let acts = old_slots[pos].1.actions@;
                if has_key(acts, id.action) {
                    let k = index_of(acts, id.action);
                    let nacts = acts.remove(k);
                    if has_key(nacts, id.action) {
                        let j = index_of(nacts, id.action);
                        if j < k {
                            assert(acts[j].0 == id.action);
                        } else {
                            assert(acts[j + 1].0 == id.action);
                        }
                    }
                }
            }
            use_type_invariant(&*self);
            lemma_wf_ordered(&*self);
        }
        removed
    }

    /// The actions of the signal, in the order of registration.
    pub fn actions(&self, signal: i32) -> (r: Vec<&A>)
        ensures
            r@.len() == self.actions_of(signal).len(),
            forall|i: int|
                0 <= i < r@.len() ==> *#[trigger] r@[i] == self.actions_of(signal)[i].1,
    {
        proof {
            use_type_invariant(self);
        }
        proof {
            broadcast use vstd::laws_eq::group_laws_eq;
        }
        match self.signals.get(&signal) {
            Some(slot) => slot.actions.values(),
            None => Vec::new(),
        }
    }

    /// The slot of the signal, if it has one (for the signal handler: the previous handler and
    /// the actions, without allocating).
    pub fn slot_of(&self, signal: i32) -> (r: Option<&Slot<P, A>>)
        ensures
            r matches Some(s) ==> self.has_slot(signal) && *s == self.slot(signal),
            r is None ==> !self.has_slot(signal),
    {
        proof {
            use_type_invariant(self);
        }
        proof {
            broadcast use vstd::laws_eq::group_laws_eq;
        }
        self.signals.get(&signal)
    }

    /// The handler that was installed before ours for the signal, if the signal has a slot.
    pub fn prev(&self, signal: i32) -> (r: Option<&P>)
        ensures
            r matches Some(p) ==> self.has_slot(signal) && *p == self.slot(signal).prev,
            r is None ==> !self.has_slot(signal),
    {
        proof {
            use_type_invariant(self);
        }
        proof {
            broadcast use vstd::laws_eq::group_laws_eq;
        }
        match self.signals.get(&signal) {
            Some(slot) => Some(&slot.prev),
            None => None,
        }
    }

    /// The ID the next registration gets.
    pub fn next_id(&self) -> (r: u64)
        ensures
            r == self.next_action(),
    {
        self.next_action
    }
}

impl<P: Clone, A: Clone> Registry<P, A> {
    /// A copy to prepare the next version of the registry in: the same signals in the same order,
    /// the same action IDs in each slot, the handlers and actions cloned, the same next ID.
    pub fn duplicate(&self) -> (r: Self)
        ensures
            r.ordered(),
            r.next_action() == self.next_action(),
            r.forbidden() == self.forbidden(),
            keys_of(r.slots()) == keys_of(self.slots()),
            forall|i: int|
                0 <= i < self.slots().len() ==> {
                    &&& keys_of((#[trigger] r.slots()[i]).1.actions@) == keys_of(
                        self.slots()[i].1.actions@,
                    )
                    &&& cloned(self.slots()[i].1.prev, r.slots()[i].1.prev)
                    &&& forall|j: int|
                        0 <= j < self.slots()[i].1.actions@.len() ==> cloned(
                            self.slots()[i].1.actions@[j].1,
                            #[trigger] r.slots()[i].1.actions@[j].1,
                        )
                },
    {
        proof {
            use_type_invariant(self);
        }
        proof {
            broadcast use vstd::laws_eq::group_laws_eq;
        }
        let mut signals: VecMap<i32, Slot<P, A>> = VecMap::new();
        let mut i: usize = 0;
        let n = self.signals.len();
        while i < n
            invariant
                n == self.signals@.len(),
                i <= n,
                signals.wf(),
                self.signals.wf(),
                forall|j: int|
                    0 <= j < n ==> (#[trigger] self.signals@[j]).1.actions.wf()
                        && ids_ordered_below(self.signals@[j].1.actions@, self.next_action),
                signals@.len() == i,
                forall|j: int| 0 <= j < i ==> (#[trigger] signals@[j]).0 == self.signals@[j].0,
                forall|j: int|
                    0 <= j < i ==> {
                        &&& (#[trigger] signals@[j]).1.actions.wf()
                        &&& keys_of(signals@[j].1.actions@) == keys_of(
                            self.signals@[j].1.actions@,
                        )
                        &&& cloned(self.signals@[j].1.prev, signals@[j].1.prev)
                        &&& forall|k: int|
                            0 <= k < self.signals@[j].1.actions@.len() ==> cloned(
                                self.signals@[j].1.actions@[k].1,
                                #[trigger] signals@[j].1.actions@[k].1,
                            )
                    },
            decreases n - i,
        {
            let (signal, slot) = self.signals.entry(i);
            proof {
                assert(self.signals@[i as int].1.actions.wf());
                if has_key(signals@, *signal) {
                    let k = index_of(signals@, *signal);
                    assert(self.signals@[k].0 == *signal);
                }
            }
            let copy = Slot { prev: slot.prev.clone(), actions: slot.actions.duplicate() };
            signals.insert(*signal, copy);
            i = i + 1;
        }
        proof {
            assert forall|j: int| 0 <= j < signals@.len() implies {
                &&& (#[trigger] signals@[j]).1.actions.wf()
                &&& ids_ordered_below(signals@[j].1.actions@, self.next_action)
            } by {
                assert(self.signals@[j].1.actions.wf());
                let a = self.signals@[j].1.actions@;
                let b = signals@[j].1.actions@;
                assert(keys_of(a) == keys_of(b));
                assert forall|x: int| 0 <= x < b.len() implies #[trigger] b[x].0 == a[x].0 by {
                    assert(keys_of(a)[x] == keys_of(b)[x]);
                }
            }
        }
        let r = Registry { next_action: self.next_action, signals, forbidden: copy_signals(&self.forbidden) };
        proof {
            assert(keys_of(r.slots()) =~= keys_of(self.slots()));
            lemma_wf_ordered(&r);
        }
        r
    }
}

/// How the handler that was installed before ours is to be chained.
#[derive(Copy, Clone, Debug, PartialEq, Eq, Structural)]
pub enum Chain {
    /// There is nothing to call: no handler, the default action or the ignore marker.
    Skip,
    /// A handler that takes only the signal number.
    Plain,
    /// A handler that also takes the `siginfo_t` and the context.
    WithInfo,
}

/// Decides how to chain the previous handler, from its address and flags.
///
/// `default_action` and `ignore` are the platform's `SIG_DFL` and `SIG_IGN` markers, and
/// `siginfo_flag` its `SA_SIGINFO` flag.
pub fn chain_kind(handler: usize, flags: i32, default_action: usize, ignore: usize, siginfo_flag: i32) -> (r: Chain)
    ensures
        (handler == 0 || handler == default_action || handler == ignore) ==> r == Chain::Skip,
        !(handler == 0 || handler == default_action || handler == ignore) ==> r == (if flags
            & siginfo_flag == 0 {
            Chain::Plain
        } else {
            Chain::WithInfo
        }),
{
    if handler == 0 || handler == default_action || handler == ignore {
        Chain::Skip
    } else if flags & siginfo_flag == 0 {
        Chain::Plain
    } else {
        Chain::WithInfo
    }
}

/// A registration handed out `id` for `signal`: the ID the registry was at, with the counter moved
/// past it.
pub open spec fn issued<P, A>(before: Registry<P, A>, after: Registry<P, A>, signal: i32, id: SigId) -> bool {
    &&& id@ == (signal, before.next_action())
    &&& after.next_action() == before.next_action() + 1
}

/// IDs are fresh and increase in the order of registration: of two registrations, the later one
/// (made on a registry whose counter is not behind the first one's result) gets a greater ID, and
/// each ID is for the signal it was asked for.
pub proof fn law_ids_increase<P, A>(
    r0: Registry<P, A>,
    r1: Registry<P, A>,
    s1: i32,
    id1: SigId,
    r2: Registry<P, A>,
    r3: Registry<P, A>,
    s2: i32,
    id2: SigId,
)
    requires
        issued(r0, r1, s1, id1),
        r1.next_action() <= r2.next_action(),
        issued(r2, r3, s2, id2),
    ensures
        id1@.0 == s1,
        id2@.0 == s2,
        id1@.1 < id2@.1,
        id1 != id2,
{
}

/// Combines the outcome of an update done with the signal masked with the outcome of restoring
/// the mask: the update's error comes first, then the restoring's, else the update's value.
pub fn prefer_first_error<T, E>(result: Result<T, E>, restored: Result<(), E>) -> (r: Result<T, E>)
    ensures
        r == (match result {
            Err(e) => Err(e),
            Ok(v) => match restored {
                Err(e) => Err(e),
                Ok(()) => Ok(v),
            },
        }),
{
    match result {
        Err(e) => Err(e),
        Ok(v) => match restored {
            Err(e) => Err(e),
            Ok(()) => Ok(v),
        },
    }
}

/// The consistency of a registry gives the order of its actions.
proof fn lemma_wf_ordered<P, A>(registry: &Registry<P, A>)
    requires
        registry.wf(),
    ensures
        registry.ordered(),
{
    assert forall|s: i32| ids_ordered_below(#[trigger] registry.actions_of(s), registry.next_action()) by {
        if registry.has_slot(s) {
            let k = index_of(registry.slots(), s);
            assert(registry.signals@[k].1.actions.wf());
        }
    }
}

/// The ID the next registration gets is not in use by any signal.
pub proof fn law_next_id_fresh<P, A>(registry: &Registry<P, A>, signal: i32)
    requires
        registry.ordered(),
    ensures
        !has_key(registry.actions_of(signal), registry.next_action()),
{
    assert(ids_ordered_below(registry.actions_of(signal), registry.next_action()));
    let acts = registry.actions_of(signal);
    if has_key(acts, registry.next_action()) {
        let k = index_of(acts, registry.next_action());
        assert(acts[k].0 < registry.next_action());
    }
}

} // verus!
