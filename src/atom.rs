//! The atomic slot.
use vstd::prelude::*;

use std::sync::atomic::Ordering;
use std::sync::Mutex;

use crate::raw::{FromRawPtr, IntoRawPtr};
use crate::slot;
use crate::slot::Contents;
use crate::GetNextMut;

verus! {

/// std::sync::Mutex, carried as an opaque value.
#[verifier::external_type_specification]
#[verifier::external_body]
#[verifier::reject_recursive_types(T)]
pub struct ExMutex<T: ?Sized>(Mutex<T>);

/// Relies on Mutex::new: an unlocked mutex holding `t`.
pub assume_specification<T>[ Mutex::<T>::new ](t: T) -> Mutex<T>;

/// Relies on std::sync::Mutex::lock: `step` runs exactly once, with the lock
/// held, on what the cell holds, and what it returns first is stored back.
/// A poisoned lock still hands out its contents.
#[verifier::external_body]
pub(crate) fn locked_step<P, R, F>(cell: &Mutex<Contents<P>>, step: F) -> (r: R) where
    F: FnOnce(Contents<P>) -> (Contents<P>, R),

    requires
        forall|c: Contents<P>| step.requires((c,)),
    ensures
        exists|c: Contents<P>, n: Contents<P>| step.ensures((c,), (n, r)),
{
    let mut guard = cell.lock().unwrap_or_else(std::sync::PoisonError::into_inner);
    let (next, r) = step(guard.take());
    *guard = next;
    r
}

/// A slot that holds at most one owning pointer and lets any number of
/// threads exchange it through a shared reference.
///
/// Every operation inspects and updates the slot as one indivisible step.
/// The `Ordering` arguments name the ordering a caller needs; the slot's lock
/// already orders each step at least as strongly (it acquires on entry and
/// releases on exit). When the slot is dropped, a value still in it is
/// dropped with it, once.
#[derive(Debug)]
#[verifier::reject_recursive_types(P)]
pub struct Atom<P> where P: IntoRawPtr + FromRawPtr {
    pub(crate) cell: Mutex<Contents<P>>,
}

/// The next contents of a slot, with what the caller gets back.
pub(crate) type Handoff<P> = (Contents<P>, Contents<P>);

/// The contents of a slot, left as they were, with whether it was empty.
type Peek<P> = (Contents<P>, bool);

/// The next contents of a slot, with what the caller gets back.
type CasStep<P> = (Contents<P>, slot::CasOutcome<P>);

/// The next contents of a slot, with whether it was empty before.
type PushStep<P> = (Contents<P>, bool);

/// What a compare-and-swap hands back: the displaced value, or the rejected
/// new value with the identity of the value that stays.
pub type CasResult<P> = Result<Option<P>, (Option<P>, Option<usize>)>;

/// Turns the outcome of a compare-and-swap step into what the caller gets.
fn cas_result<P: FromRawPtr>(outcome: slot::CasOutcome<P>) -> (r: CasResult<P>)
    ensures
        match outcome {
            Ok(prev) => r == Ok::<Option<P>, (Option<P>, Option<usize>)>(slot::owner_of(prev)),
            Err((back, id)) => r == Err::<Option<P>, (Option<P>, Option<usize>)>((slot::owner_of(back), id)),
        },
{
    match outcome {
        Ok(prev) => Ok(slot::decode(prev)),
        Err((back, id)) => Err((slot::decode(back), id)),
    }
}

/// The identity of the value `current` points at, `None` for no value.
fn identity_of<P: IntoRawPtr>(current: Option<&P>) -> (r: Option<usize>)
    ensures
        r is None <==> current is None,
{
    match current {
        Some(p) => Some(p.target_addr()),
        None => None,
    }
}

impl<P> Atom<P> where P: IntoRawPtr + FromRawPtr {
    /// An empty slot.
    pub fn empty() -> Atom<P> {
        Atom { cell: Mutex::new(None) }
    }

    /// A slot holding `value`.
    pub fn new(value: P) -> Atom<P> {
        Atom { cell: Mutex::new(Some(value.into_raw())) }
    }

    /// A slot with the given contents.
    pub(crate) fn from_contents(contents: Contents<P>) -> Atom<P> {
        Atom { cell: Mutex::new(contents) }
    }

    /// Installs `v` and returns the value that was there before, if any.
    pub fn swap(&self, v: P, _order: Ordering) -> (r: Option<P>) {
        let new = Some(v.into_raw());
        let step = move |resident: Contents<P>| -> (out: Handoff<P>)
            ensures
                out == slot::exchange_spec(resident, new),
        {
            slot::exchange(resident, new)
        };
        let old = locked_step(&self.cell, step);
        slot::decode(old)
    }

    /// Empties the slot and returns the value that was there, if any.
    pub fn take(&self, _order: Ordering) -> (r: Option<P>) {
        let step = |resident: Contents<P>| -> (out: Handoff<P>)
            ensures
                out == slot::exchange_spec(resident, None),
        {
            slot::exchange(resident, None)
        };
        let old = locked_step(&self.cell, step);
        slot::decode(old)
    }

    /// Installs `v` if the slot is empty and returns `None`; otherwise leaves
    /// the slot as it is and returns `Some(v)`.
    pub fn set_if_none(&self, v: P, _order: Ordering) -> (r: Option<P>)
        ensures
            r is None || r == Some(v),
    {
        let raw = v.into_raw();
        let step = move |resident: Contents<P>| -> (out: Handoff<P>)
            ensures
                out == slot::set_if_none_spec(resident, raw),
        {
            slot::set_if_none(resident, raw)
        };
        let back = locked_step(&self.cell, step);
        slot::decode(back)
    }

    /// Installs `new` if the value in the slot is the very value `current`
    /// points at (`None` matching an empty slot), compared by identity, not
    /// by contents. On success returns the value displaced; otherwise leaves
    /// the slot as it is and returns `new` with the identity of the value in
    /// the slot.
    pub fn compare_and_swap(
        &self,
        current: Option<&P>,
        new: Option<P>,
        _order: Ordering,
    ) -> (r: CasResult<P>)
        ensures
            exists|resident: Contents<P>, expected: Option<usize>|
                (expected is None <==> current is None) && r == slot::cas_view(resident, expected, new),
            r matches Err((back, _)) ==> back == new,
            r matches Ok(prev) ==> (prev is None <==> current is None),
            current is None ==> (r matches Err((_, id)) ==> id is Some),
    {
        let expected = identity_of(current);
        let raw = slot::encode(new);
        let step = move |resident: Contents<P>| -> (out: CasStep<P>)
            ensures
                out == slot::compare_and_swap_spec(resident, expected, raw),
        {
            slot::compare_and_swap(resident, expected, raw)
        };
        let outcome = locked_step(&self.cell, step);
        let ghost seen = outcome;
        let r = cas_result(outcome);
        proof {
            let (resident, next) = choose|resident: Contents<P>, next: Contents<P>|
                step.ensures((resident,), (next, seen));
            assert(r == slot::cas_view(resident, expected, new));
        }
        r
    }

    /// The same step as `compare_and_swap`, under the name and the pair of
    /// orderings of a compare-exchange.
    pub fn compare_exchange(
        &self,
        current: Option<&P>,
        new: Option<P>,
        success: Ordering,
        _failure: Ordering,
    ) -> (r: CasResult<P>)
        ensures
            exists|resident: Contents<P>, expected: Option<usize>|
                (expected is None <==> current is None) && r == slot::cas_view(resident, expected, new),
            r matches Err((back, _)) ==> back == new,
            r matches Ok(prev) ==> (prev is None <==> current is None),
            current is None ==> (r matches Err((_, id)) ==> id is Some),
    {
        self.compare_and_swap(current, new, success)
    }

    /// The weak form of `compare_exchange`. Callers must allow it to fail
    /// even where the identities match, and retry; this slot never does so,
    /// as its step runs under a lock rather than in one machine instruction.
    pub fn compare_exchange_weak(
        &self,
        current: Option<&P>,
        new: Option<P>,
        success: Ordering,
        _failure: Ordering,
    ) -> (r: CasResult<P>)
        ensures
            exists|resident: Contents<P>, expected: Option<usize>|
                (expected is None <==> current is None) && r == slot::cas_view(resident, expected, new),
            r matches Err((back, _)) ==> back == new,
            r matches Ok(prev) ==> (prev is None <==> current is None),
            current is None ==> (r matches Err((_, id)) ==> id is Some),
    {
        self.compare_and_swap(current, new, success)
    }

    /// Pushes `value` onto the chain of values that the slot heads: the
    /// value in the slot becomes `value`'s next link and `value` takes its
    /// place, in one step. Returns whether the slot was empty, that is,
    /// whether `value` is the first link of the chain.
    pub fn replace_and_set_next(&self, value: P) -> bool where P: GetNextMut<NextPtr = Option<P>> {
        // A stale link is dropped here, before the slot is locked.
        let mut value = value;
        *value.get_next() = None;
        let ghost unlinked = value;
        let step = move |resident: Contents<P>| -> (out: PushStep<P>)
            ensures
                out.1 == (resident is None),
                out.0 is Some,
                out.0.unwrap().owner() == unlinked.with_next(slot::owner_of(resident)),
                out.0.unwrap().owner().next_of() == slot::owner_of(resident),
        {
            slot::push(resident, value)
        };
        locked_step(&self.cell, step)
    }

    /// Whether the slot was empty when looked at.
    pub fn is_none(&self, _order: Ordering) -> bool {
        let step = |resident: Contents<P>| -> (out: Peek<P>)
            ensures
                out.0 == resident,
                out.1 == (resident is None),
        {
            slot::probe_empty(resident)
        };
        locked_step(&self.cell, step)
    }
}

} // verus!
