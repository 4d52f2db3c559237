//! The transitions of a slot's contents. Each takes the resident encoding and
//! the caller's input, and returns the next resident with what the caller gets
//! back. The slot runs them one at a time, so each is atomic as a whole.
use vstd::prelude::*;

use crate::raw::{FromRawPtr, IntoRawPtr, RawPtr};
use crate::GetNextMut;

verus! {

/// What a slot holds: nothing, or one encoded owner.
pub type Contents<P> = Option<RawPtr<P>>;

/// The identity of the resident, `None` when the slot is empty.
pub open spec fn identity<P>(c: Contents<P>) -> Option<usize> {
    match c {
        Some(r) => Some(r.id()),
        None => None,
    }
}

/// The owner a slot holds, `None` when it is empty.
pub open spec fn owner_of<P>(c: Contents<P>) -> Option<P> {
    match c {
        Some(r) => Some(r.owner()),
        None => None,
    }
}

/// Installing `v` unconditionally.
pub open spec fn exchange_spec<P>(resident: Contents<P>, v: Contents<P>) -> (Contents<P>, Contents<P>) {
    (v, resident)
}

/// Installing `v` only into an empty slot; otherwise `v` comes back.
pub open spec fn set_if_none_spec<P>(resident: Contents<P>, v: RawPtr<P>) -> (Contents<P>, Contents<P>) {
    match resident {
        None => (Some(v), None),
        Some(_) => (resident, Some(v)),
    }
}

/// The outcome of a compare-and-swap: the displaced contents, or the rejected
/// new contents with the resident's identity.
pub type CasOutcome<P> = Result<Contents<P>, (Contents<P>, Option<usize>)>;

/// Installing `new` only where the resident's identity is `current`.
pub open spec fn compare_and_swap_spec<P>(
    resident: Contents<P>,
    current: Option<usize>,
    new: Contents<P>,
) -> (Contents<P>, CasOutcome<P>) {
    if identity(resident) == current {
        (new, Ok(resident))
    } else {
        (resident, Err((new, identity(resident))))
    }
}

/// What a compare-and-swap on `resident` gives its caller once decoded: the
/// displaced owner, or `new` with the resident's identity.
pub open spec fn cas_view<P>(resident: Contents<P>, current: Option<usize>, new: Option<P>) -> Result<
    Option<P>,
    (Option<P>, Option<usize>),
> {
    if identity(resident) == current {
        Ok(owner_of(resident))
    } else {
        Err((new, identity(resident)))
    }
}

/// Installs `v` and hands back the resident.
pub fn exchange<P>(resident: Contents<P>, v: Contents<P>) -> (out: (Contents<P>, Contents<P>))
    ensures
        out == exchange_spec(resident, v),
{
    (v, resident)
}

/// Installs `v` if the slot is empty; otherwise leaves it as it is and hands
/// `v` back.
pub fn set_if_none<P>(resident: Contents<P>, v: RawPtr<P>) -> (out: (Contents<P>, Contents<P>))
    ensures
        out == set_if_none_spec(resident, v),
{
    match resident {
        None => (Some(v), None),
        Some(r) => (Some(r), Some(v)),
    }
}

/// Installs `new` if the resident's identity is `current` (`None` matching
/// an empty slot) and hands back the displaced contents; otherwise leaves the
/// slot as it is and hands back `new` with the resident's identity.
pub fn compare_and_swap<P>(resident: Contents<P>, current: Option<usize>, new: Contents<P>) -> (out: (
    Contents<P>,
    CasOutcome<P>,
))
    ensures
        out == compare_and_swap_spec(resident, current, new),
{
    let id: Option<usize> = match &resident {
        Some(r) => Some(r.addr()),
        None => None,
    };
    let same = match (id, current) {
        (Some(a), Some(b)) => a == b,
        (None, None) => true,
        _ => false,
    };
    if same {
        (new, Ok(resident))
    } else {
        (resident, Err((new, id)))
    }
}

/// Reports whether the slot is empty, leaving it as it is.
pub fn probe_empty<P>(resident: Contents<P>) -> (out: (Contents<P>, bool))
    ensures
        out.0 == resident,
        out.1 == (resident is None),
{
    let empty = resident.is_none();
    (resident, empty)
}

/// Of `set_if_none` steps run one after another on a slot that starts
/// empty, however contending callers were ordered, the first installs its
/// value, every later one gets its own value back, and the first value stays
/// in the slot.
pub proof fn lemma_exactly_one_winner<P>(
    states: Seq<Contents<P>>,
    vs: Seq<RawPtr<P>>,
    backs: Seq<Contents<P>>,
)
    requires
        vs.len() > 0,
        states.len() == vs.len() + 1,
        backs.len() == vs.len(),
        states[0] is None,
        forall|i: int|
            0 <= i < vs.len() ==> (states[i + 1], backs[i]) == set_if_none_spec(
                states[i],
                #[trigger] vs[i],
            ),
    ensures
        backs[0] is None,
        forall|i: int| 1 <= i < vs.len() ==> backs[i] == Some(vs[i]),
        forall|i: int| 1 <= i <= vs.len() ==> states[i] == Some(vs[0]),
{
    assert((states[1], backs[0]) == set_if_none_spec(states[0], vs[0]));
    assert forall|i: int| 1 <= i <= vs.len() implies states[i] == Some(vs[0]) by {
        lemma_winner_stays(states, vs, backs, i);
    }
    assert forall|i: int| 1 <= i < vs.len() implies backs[i] == Some(vs[i]) by {
        lemma_winner_stays(states, vs, backs, i);
        assert((states[i + 1], backs[i]) == set_if_none_spec(states[i], vs[i]));
    }
}

proof fn lemma_winner_stays<P>(
    states: Seq<Contents<P>>,
    vs: Seq<RawPtr<P>>,
    backs: Seq<Contents<P>>,
    k: int,
)
    requires
        vs.len() > 0,
        states.len() == vs.len() + 1,
        backs.len() == vs.len(),
        states[0] is None,
        forall|i: int|
            0 <= i < vs.len() ==> (states[i + 1], backs[i]) == set_if_none_spec(
                states[i],
                #[trigger] vs[i],
            ),
        1 <= k <= vs.len(),
    ensures
        states[k] == Some(vs[0]),
    decreases k,
{
    if k == 1 {
        assert((states[1], backs[0]) == set_if_none_spec(states[0], vs[0]));
    } else {
        lemma_winner_stays(states, vs, backs, k - 1);
        assert((states[k], backs[k - 1]) == set_if_none_spec(states[k - 1], vs[k - 1]));
    }
}

/// Decodes what a slot handed back.
pub fn decode<P: FromRawPtr>(c: Contents<P>) -> (r: Option<P>)
    ensures
        r == owner_of(c),
{
    match c {
        Some(raw) => Some(P::from_raw(raw)),
        None => None,
    }
}

/// Encodes what is to be stored in a slot.
pub fn encode<P: IntoRawPtr>(v: Option<P>) -> (r: Contents<P>)
    ensures
        owner_of(r) == v,
{
    match v {
        Some(p) => Some(p.into_raw()),
        None => None,
    }
}

/// Links `v` in front of the chain the slot holds: the resident becomes `v`'s
/// next link and `v` the new resident. Reports whether the slot was empty,
/// that is, whether `v` is the first link of the chain.
pub fn push<P>(resident: Contents<P>, v: P) -> (out: (Contents<P>, bool)) where
    P: IntoRawPtr + FromRawPtr + GetNextMut<NextPtr = Option<P>>,

    ensures
        out.1 == (resident is None),
        out.0 is Some,
        out.0.unwrap().owner() == v.with_next(owner_of(resident)),
        out.0.unwrap().owner().next_of() == owner_of(resident),
{
    let mut v = v;
    let first = resident.is_none();
    let below = decode(resident);
    *v.get_next() = below;
    (Some(v.into_raw()), first)
}

/// Of pushes run one after another on a slot that starts empty, each one
/// leaves its own value in the slot, changed only in that its next link is
/// the previous resident, so the pushed values form a chain with the latest
/// first. The first push reports
/// that it began the chain, and its value is the chain's last link, with no
/// next link; every later push reports that it did not.
pub proof fn lemma_pushes_build_chain<P>(
    states: Seq<Contents<P>>,
    vs: Seq<P>,
    firsts: Seq<bool>,
) where P: IntoRawPtr + FromRawPtr + GetNextMut<NextPtr = Option<P>>
    requires
        states.len() == vs.len() + 1,
        firsts.len() == vs.len(),
        states[0] is None,
        forall|i: int|
            0 <= i < vs.len() ==> call_ensures(
                push::<P>,
                (states[i], vs[i]),
                (states[i + 1], #[trigger] firsts[i]),
            ),
    ensures
        forall|i: int| 0 <= i < firsts.len() ==> firsts[i] == (i == 0),
        forall|i: int|
            1 <= i < states.len() ==> (#[trigger] states[i]) is Some && states[i].unwrap().owner()
                == vs[i - 1].with_next(owner_of(states[i - 1])) && states[i].unwrap().owner().next_of()
                == owner_of(states[i - 1]),
        vs.len() > 0 ==> states[1].unwrap().owner().next_of() is None,
{
    assert forall|i: int| 0 <= i < firsts.len() implies firsts[i] == (i == 0) by {
        assert(call_ensures(push::<P>, (states[i], vs[i]), (states[i + 1], firsts[i])));
        if i > 0 {
            assert(call_ensures(push::<P>, (states[i - 1], vs[i - 1]), (states[i], firsts[i - 1])));
        }
    }
    assert forall|i: int| 1 <= i < states.len() implies (#[trigger] states[i]) is Some
        && states[i].unwrap().owner() == vs[i - 1].with_next(owner_of(states[i - 1]))
        && states[i].unwrap().owner().next_of() == owner_of(states[i - 1]) by {
        assert(call_ensures(push::<P>, (states[i - 1], vs[i - 1]), (states[i], firsts[i - 1])));
    }
    if vs.len() > 0 {
        assert(call_ensures(push::<P>, (states[0], vs[0]), (states[1], firsts[0])));
    }
}

/// Compare-and-swap goes by identity alone: it installs `new` exactly when the
/// resident's identity is `current`, handing back the resident; otherwise it
/// leaves the resident in place and hands back `new` with the resident's
/// identity, whatever the owners hold. In particular an owner with equal
/// contents but another identity never matches.
pub proof fn lemma_cas_by_identity<P>(
    resident: Contents<P>,
    current: Option<usize>,
    new: Contents<P>,
    out: (Contents<P>, CasOutcome<P>),
)
    requires
        call_ensures(compare_and_swap::<P>, (resident, current, new), out),
    ensures
        out.1 is Ok <==> identity(resident) == current,
        out.1 is Ok ==> out.0 == new && out.1 == Ok::<Contents<P>, (Contents<P>, Option<usize>)>(resident),
        out.1 is Err ==> out.0 == resident && out.1 == Err::<Contents<P>, (Contents<P>, Option<usize>)>(
            (new, identity(resident)),
        ),
        resident matches Some(c) && current != Some(c.id()) ==> out.1 is Err,
{
}

} // verus!
