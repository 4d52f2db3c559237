//! The owner-kind capability: moving an owning pointer into its encoded form
//! and back.
use vstd::prelude::*;
use std::sync::Arc;

verus! {

/// The encoded form of an owning pointer: the owner itself together with the
/// address of the value it points at, which serves as its identity.
#[derive(Debug)]
pub struct RawPtr<P> {
    owner: P,
    addr: usize,
}

impl<P> RawPtr<P> {
    /// The owner carried by this encoding.
    pub closed spec fn owner(&self) -> P {
        self.owner
    }

    /// The identity recorded for the owner.
    pub closed spec fn id(&self) -> usize {
        self.addr
    }

    /// Encodes `owner`, whose target lives at `addr`.
    pub fn new(owner: P, addr: usize) -> (r: RawPtr<P>)
        ensures
            r.owner() == owner,
            r.id() == addr,
    {
        RawPtr { owner, addr }
    }

    /// The identity of the encoded owner.
    pub fn addr(&self) -> (r: usize)
        ensures
            r == self.id(),
    {
        self.addr
    }

    /// The encoded owner, borrowed.
    pub fn owner_ref(&self) -> (r: &P)
        ensures
            *r == self.owner(),
    {
        &self.owner
    }

    /// The encoded owner, for changing in place; its identity stays recorded.
    pub fn owner_mut(&mut self) -> (r: &mut P)
        ensures
            *r == old(self).owner(),
            final(self).owner() == *final(r),
            final(self).id() == old(self).id(),
    {
        &mut self.owner
    }

    /// Gives the owner back, consuming the encoding.
    pub fn into_owner(self) -> (r: P)
        ensures
            r == self.owner(),
    {
        self.owner
    }
}

/// Converts an owning pointer into its encoded form.
pub trait IntoRawPtr: Sized {
    /// The address of the value this owner points at.
    fn target_addr(&self) -> usize;

    /// Encodes the owner, consuming it.
    fn into_raw(self) -> (r: RawPtr<Self>)
        ensures
            r.owner() == self,
    ;
}

/// Reconstitutes an owning pointer from its encoded form.
pub trait FromRawPtr: Sized {
    /// Decodes the owner, consuming the encoding.
    fn from_raw(raw: RawPtr<Self>) -> (r: Self)
        ensures
            r == raw.owner(),
    ;
}

/// Decoding what encoding produced gives back the very owner that was
/// encoded.
pub proof fn lemma_round_trip<P: IntoRawPtr + FromRawPtr>(v: P, raw: RawPtr<P>, back: P)
    requires
        call_ensures(P::into_raw, (v,), raw),
        call_ensures(P::from_raw, (raw,), back),
    ensures
        back == v,
{
}

/// Relies on std::ptr::from_ref: the address of the referent, as an integer.
#[verifier::external_body]
fn address_of<T>(r: &T) -> usize {
    std::ptr::from_ref(r).addr()
}

impl<T> IntoRawPtr for Box<T> {
    fn target_addr(&self) -> usize {
        address_of(&**self)
    }

    fn into_raw(self) -> (r: RawPtr<Box<T>>) {
        let addr = self.target_addr();
        RawPtr::new(self, addr)
    }
}

impl<T> FromRawPtr for Box<T> {
    fn from_raw(raw: RawPtr<Box<T>>) -> (r: Box<T>) {
        raw.into_owner()
    }
}

impl<T> IntoRawPtr for Arc<T> {
    fn target_addr(&self) -> usize {
        address_of(&**self)
    }

    fn into_raw(self) -> (r: RawPtr<Arc<T>>) {
        let addr = self.target_addr();
        RawPtr::new(self, addr)
    }
}

impl<T> FromRawPtr for Arc<T> {
    fn from_raw(raw: RawPtr<Arc<T>>) -> (r: Arc<T>) {
        raw.into_owner()
    }
}

impl<'a, T> IntoRawPtr for &'a T {
    fn target_addr(&self) -> usize {
        address_of(*self)
    }

    fn into_raw(self) -> (r: RawPtr<&'a T>) {
        let addr = self.target_addr();
        RawPtr::new(self, addr)
    }
}

impl<'a, T> FromRawPtr for &'a T {
    fn from_raw(raw: RawPtr<&'a T>) -> (r: &'a T) {
        raw.into_owner()
    }
}

} // verus!
