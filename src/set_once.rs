//! The write-once view of a slot.
use vstd::prelude::*;

use std::ops::Deref;
use std::sync::atomic::Ordering;
use std::sync::OnceLock;

use crate::atom::{locked_step, Atom, Handoff};
use crate::raw::{FromRawPtr, IntoRawPtr, RawPtr};
use crate::slot;
use crate::slot::Contents;

verus! {

/// std::sync::OnceLock, carried as an opaque value.
#[verifier::external_type_specification]
#[verifier::external_body]
#[verifier::reject_recursive_types(T)]
pub struct ExOnceLock<T>(OnceLock<T>);

/// Relies on OnceLock::new: an empty cell.
pub assume_specification<T>[ OnceLock::<T>::new ]() -> OnceLock<T>;

/// Relies on OnceLock's From: a cell already holding `value`.
pub assume_specification<T>[ <OnceLock<T> as core::convert::From<T>>::from ](value: T) -> OnceLock<T>;

/// Relies on OnceLock::set: the cell keeps the first value set; a later
/// value comes back unchanged.
pub assume_specification<T>[ OnceLock::<T>::set ](cell: &OnceLock<T>, value: T) -> (r: Result<(), T>)
    ensures
        r matches Err(back) ==> back == value,
;

/// Relies on OnceLock::get: a borrow of the value, if one is set.
pub assume_specification<T>[ OnceLock::<T>::get ](cell: &OnceLock<T>) -> Option<&T>;

/// Relies on OnceLock::get_mut: the value for changing, if one is set.
pub assume_specification<T>[ OnceLock::<T>::get_mut ](cell: &mut OnceLock<T>) -> Option<&mut T>;

/// Relies on OnceLock::into_inner: the value, if one is set.
pub assume_specification<T>[ OnceLock::<T>::into_inner ](cell: OnceLock<T>) -> Option<T>;

/// Relies on OnceLock::take: the value, if one is set, leaving the cell empty.
pub assume_specification<T>[ OnceLock::<T>::take ](cell: &mut OnceLock<T>) -> Option<T>;

/// The next contents of a slot, with nothing handed back.
type Settle<P> = (Contents<P>, ());

/// Moves a value out of a slot into `pinned`. Should `pinned` already hold
/// one, the value stays in the slot.
fn pin<P>(resident: Contents<P>, pinned: &OnceLock<RawPtr<P>>) -> (out: Settle<P>)
    ensures
        out.0 is None || out.0 == resident,
{
    match resident {
        Some(raw) => match pinned.set(raw) {
            Ok(()) => (None, ()),
            Err(back) => (Some(back), ()),
        },
        None => (None, ()),
    }
}

/// A slot that can be filled once through a shared reference and never
/// emptied or replaced through one. Because the value in it stays put once
/// set, borrows of it can be handed out for as long as the view is borrowed.
///
/// The value is kept in `pinned`, where borrows of it can be handed out.
/// Exclusive access through `atom` moves it into `inner`, where it can be
/// exchanged; the first shared access after that moves it back, under the
/// slot's lock, before it looks at `pinned`.
#[derive(Debug)]
#[verifier::reject_recursive_types(P)]
pub struct AtomSetOnce<P> where P: IntoRawPtr + FromRawPtr {
    pinned: OnceLock<RawPtr<P>>,
    inner: Atom<P>,
}

impl<P> AtomSetOnce<P> where P: IntoRawPtr + FromRawPtr {
    /// An empty view.
    pub fn empty() -> AtomSetOnce<P> {
        AtomSetOnce { pinned: OnceLock::new(), inner: Atom::empty() }
    }

    /// A view holding `value`.
    pub fn new(value: P) -> AtomSetOnce<P> {
        AtomSetOnce { pinned: OnceLock::from(value.into_raw()), inner: Atom::empty() }
    }

    /// Moves a value left in `inner` back into `pinned`.
    fn settle(&self) {
        let pinned = &self.pinned;
        let step = |resident: Contents<P>| -> (out: Settle<P>)
            ensures
                out.0 is None || out.0 == resident,
        {
            pin(resident, pinned)
        };
        locked_step(&self.inner.cell, step)
    }

    /// Installs `v` if the view is empty and returns `None`; otherwise leaves
    /// it as it is and returns `Some(v)`.
    pub fn set_if_none(&self, v: P, _order: Ordering) -> (r: Option<P>)
        ensures
            r is None || r == Some(v),
    {
        self.settle();
        match self.pinned.set(v.into_raw()) {
            Ok(()) => None,
            Err(back) => Some(P::from_raw(back)),
        }
    }

    /// Turns the view into a slot with the same contents.
    pub fn into_atom(self) -> Atom<P> {
        self.settle();
        Atom::from_contents(self.pinned.into_inner())
    }

    /// The view as a slot, for exchanging its value while access to the view
    /// is exclusive.
    pub fn atom(&mut self) -> &mut Atom<P> {
        match self.pinned.take() {
            Some(raw) => {
                let step = move |resident: Contents<P>| -> (out: Handoff<P>)
                    ensures
                        out == slot::exchange_spec(resident, Some(raw)),
                {
                    slot::exchange(resident, Some(raw))
                };
                // Nothing is left in `inner` while `pinned` holds a value, so
                // nothing is displaced here.
                let _displaced = locked_step(&self.inner.cell, step);
            },
            None => {},
        }
        &mut self.inner
    }

    /// Whether the view was empty when looked at.
    pub fn is_none(&self, _order: Ordering) -> bool {
        self.settle();
        self.pinned.get().is_none()
    }

    /// A clone of the owner in the view, if it is set.
    pub fn dup(&self) -> Option<P> where P: Clone {
        self.settle();
        match self.pinned.get() {
            Some(raw) => Some(raw.owner_ref().clone()),
            None => None,
        }
    }
}

impl<P, T> AtomSetOnce<P> where P: IntoRawPtr + FromRawPtr + Deref<Target = T> {
    /// The value in the view, if it is set, borrowed for as long as the view.
    pub fn get(&self, _order: Ordering) -> Option<&T> {
        self.settle();
        match self.pinned.get() {
            Some(raw) => Some(&**raw.owner_ref()),
            None => None,
        }
    }
}

impl<T> AtomSetOnce<Box<T>> {
    /// The value in the view, if it is set, for changing in place.
    pub fn get_mut(&mut self) -> Option<&mut T> {
        self.settle();
        match self.pinned.get_mut() {
            Some(raw) => Some(&mut **raw.owner_mut()),
            None => None,
        }
    }
}

} // verus!
