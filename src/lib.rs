//! An atomically updatable slot holding at most one owned value.
use vstd::prelude::*;

mod atom;
mod raw;
mod set_once;
pub mod slot;

pub use atom::Atom;
pub use raw::{FromRawPtr, IntoRawPtr, RawPtr};
pub use set_once::AtomSetOnce;

verus! {

/// Access to the link a value keeps to the next value of a chain.
///
/// `next_of` and `with_next` describe a value for proofs. Their default
/// bodies only let implementations written outside of verification leave them
/// out: for a generic implementor nothing is known of either beyond what
/// `get_next` states.
pub trait GetNextMut: Sized {
    /// The type of the link.
    type NextPtr;

    /// The link the value holds.
    open spec fn next_of(&self) -> Self::NextPtr {
        arbitrary()
    }

    /// The value with its link replaced by `next` and all else kept.
    open spec fn with_next(self, next: Self::NextPtr) -> Self {
        arbitrary()
    }

    /// The link, for reading or replacing it in place; nothing else of the
    /// value changes. A slot may call this while it holds its lock, so it
    /// should hand out the field and do nothing more.
    fn get_next(&mut self) -> (r: &mut Self::NextPtr)
        ensures
            *r == old(self).next_of(),
            final(self).next_of() == *final(r),
            *final(self) == old(self).with_next(*final(r)),
    ;
}

} // verus!
