use atom::slot;
use atom::{Atom, AtomSetOnce, FromRawPtr, GetNextMut, IntoRawPtr, RawPtr};
use std::collections::HashSet;
use std::sync::atomic::AtomicUsize;
use std::sync::atomic::Ordering;
use std::sync::Arc;

struct Node {
    tag: u32,
    next: Option<Box<Node>>,
}

impl GetNextMut for Box<Node> {
    type NextPtr = Option<Box<Node>>;

    fn get_next(&mut self) -> &mut Option<Box<Node>> {
        &mut self.next
    }
}

fn node(tag: u32) -> Box<Node> {
    Box::new(Node { tag, next: None })
}

fn drain(a: &Atom<Box<Node>>) -> Vec<u32> {
    let mut out = Vec::new();
    let mut cur = a.take(Ordering::Acquire);
    while let Some(mut n) = cur {
        out.push(n.tag);
        cur = n.next.take();
    }
    out
}

#[derive(Clone)]
struct Counted(Arc<AtomicUsize>);

impl Drop for Counted {
    fn drop(&mut self) {
        self.0.fetch_add(1, Ordering::SeqCst);
    }
}

#[test]
fn round_trip_box_keeps_address() {
    let b = Box::new(41u32);
    let addr = b.target_addr();
    let raw = b.into_raw();
    assert_eq!(raw.addr(), addr);
    let back = <Box<u32> as FromRawPtr>::from_raw(raw);
    assert_eq!(back.target_addr(), addr);
    assert_eq!(*back, 41);
}

#[test]
fn round_trip_arc_keeps_address_and_count() {
    let a = Arc::new(String::from("shared"));
    let addr = a.target_addr();
    let raw = a.clone().into_raw();
    assert_eq!(Arc::strong_count(&a), 2);
    let back = <Arc<String> as FromRawPtr>::from_raw(raw);
    assert!(Arc::ptr_eq(&back, &a));
    assert_eq!(back.target_addr(), addr);
    assert_eq!(Arc::strong_count(&a), 2);
}

#[test]
fn round_trip_reference_keeps_referent() {
    let x = 9i64;
    let r = &x;
    let raw = r.into_raw();
    assert_eq!(raw.addr(), r.target_addr());
    let back = <&i64>::from_raw(raw);
    assert_eq!(back.target_addr(), r.target_addr());
    assert_eq!(*back, 9);
}

#[test]
fn identity_differs_for_equal_contents() {
    let a = Box::new(5u64);
    let b = Box::new(5u64);
    assert_ne!(a.target_addr(), b.target_addr());
    assert_ne!(a.target_addr(), 0);
}

#[test]
fn exchange_step_hands_back_resident() {
    let r1 = RawPtr::new(Box::new(1u8), 100);
    let r2 = RawPtr::new(Box::new(2u8), 200);
    let (next, back) = slot::exchange(Some(r1), Some(r2));
    assert_eq!(next.map(|r| r.addr()), Some(200));
    assert_eq!(back.map(|r| r.addr()), Some(100));
    let (next, back) = slot::exchange::<Box<u8>>(None, None);
    assert!(next.is_none());
    assert!(back.is_none());
}

#[test]
fn set_if_none_step_fills_only_empty() {
    let (next, back) = slot::set_if_none(None, RawPtr::new(Box::new(1u8), 10));
    assert_eq!(next.as_ref().map(|r| r.addr()), Some(10));
    assert!(back.is_none());
    let (next, back) = slot::set_if_none(next, RawPtr::new(Box::new(2u8), 20));
    assert_eq!(next.map(|r| r.addr()), Some(10));
    let back = back.unwrap();
    assert_eq!(back.addr(), 20);
    assert_eq!(*back.into_owner(), 2);
}

#[test]
fn compare_and_swap_step_matches_identity() {
    let resident = Some(RawPtr::new(Box::new(1u8), 10));
    let (next, out) = slot::compare_and_swap(resident, Some(10), Some(RawPtr::new(Box::new(2u8), 20)));
    assert_eq!(next.as_ref().map(|r| r.addr()), Some(20));
    assert_eq!(out.unwrap().map(|r| r.addr()), Some(10));

    let (next, out) = slot::compare_and_swap(next, Some(10), Some(RawPtr::new(Box::new(3u8), 30)));
    assert_eq!(next.as_ref().map(|r| r.addr()), Some(20));
    let (back, id) = out.unwrap_err();
    assert_eq!(back.map(|r| r.addr()), Some(30));
    assert_eq!(id, Some(20));

    let (next, out) = slot::compare_and_swap(next, None, None);
    assert_eq!(next.map(|r| r.addr()), Some(20));
    assert_eq!(out.unwrap_err().1, Some(20));

    let (next, out) = slot::compare_and_swap::<Box<u8>>(None, None, Some(RawPtr::new(Box::new(4u8), 40)));
    assert_eq!(next.map(|r| r.addr()), Some(40));
    assert!(out.unwrap().is_none());

    let (next, out) = slot::compare_and_swap::<Box<u8>>(None, Some(40), None);
    assert!(next.is_none());
    assert_eq!(out.unwrap_err().1, None);
}

#[test]
fn probe_empty_step_leaves_contents() {
    let (next, empty) = slot::probe_empty(Some(RawPtr::new(Box::new(1u8), 10)));
    assert!(!empty);
    assert_eq!(next.map(|r| r.addr()), Some(10));
    let (next, empty) = slot::probe_empty::<Box<u8>>(None);
    assert!(empty);
    assert!(next.is_none());
}

#[test]
fn push_step_links_resident_below() {
    let (next, first) = slot::push(None, node(1));
    assert!(first);
    let (next, first) = slot::push(next, node(2));
    assert!(!first);
    let head = next.unwrap().into_owner();
    assert_eq!(head.tag, 2);
    assert_eq!(head.next.as_ref().map(|n| n.tag), Some(1));
}

#[test]
fn encode_decode_contents() {
    let c = slot::encode(Some(Box::new(3u8)));
    assert_eq!(slot::decode(c), Some(Box::new(3u8)));
    assert_eq!(slot::decode(slot::encode::<Box<u8>>(None)), None);
}

#[test]
fn exactly_one_winner_in_sequence() {
    let a = Atom::empty();
    let mut results = Vec::new();
    for i in 0..10u32 {
        results.push(a.set_if_none(Box::new(i), Ordering::AcqRel));
    }
    assert_eq!(results[0], None);
    for i in 1..10u32 {
        assert_eq!(results[i as usize], Some(Box::new(i)));
    }
    assert_eq!(a.take(Ordering::Acquire), Some(Box::new(0u32)));
}

#[test]
fn withdrawn_value_is_dropped_once() {
    let v = Arc::new(AtomicUsize::new(0));
    let a = Atom::new(Box::new(Counted(v.clone())));
    let taken = a.take(Ordering::Acquire);
    assert_eq!(v.load(Ordering::SeqCst), 0);
    drop(taken);
    drop(a);
    assert_eq!(v.load(Ordering::SeqCst), 1);

    let w = Arc::new(AtomicUsize::new(0));
    let b = Atom::new(Box::new(Counted(w.clone())));
    let old = b.swap(Box::new(Counted(Arc::new(AtomicUsize::new(0)))), Ordering::AcqRel);
    assert_eq!(w.load(Ordering::SeqCst), 0);
    drop(old);
    drop(b);
    assert_eq!(w.load(Ordering::SeqCst), 1);
}

#[test]
fn failed_set_hands_value_back_without_drop() {
    let v = Arc::new(AtomicUsize::new(0));
    let a = Atom::new(Box::new(Counted(Arc::new(AtomicUsize::new(0)))));
    let back = a.set_if_none(Box::new(Counted(v.clone())), Ordering::AcqRel);
    assert_eq!(v.load(Ordering::SeqCst), 0);
    drop(back);
    assert_eq!(v.load(Ordering::SeqCst), 1);
}

#[test]
fn cas_with_equal_contents_other_identity_fails() {
    let cur = Box::new(5u8);
    let twin = Box::new(5u8);
    let cur_addr = cur.target_addr();
    let a = Atom::new(cur);
    let res = a.compare_exchange(Some(&twin), Some(Box::new(6u8)), Ordering::SeqCst, Ordering::SeqCst);
    assert_eq!(res, Err((Some(Box::new(6u8)), Some(cur_addr))));
    assert_eq!(a.take(Ordering::Acquire), Some(Box::new(5u8)));
}

#[test]
fn cas_on_empty_slot() {
    let a: Atom<Box<u8>> = Atom::empty();
    assert_eq!(a.compare_and_swap(None, Some(Box::new(1u8)), Ordering::SeqCst), Ok(None));
    assert!(!a.is_none(Ordering::Acquire));
    let one = a.take(Ordering::Acquire).unwrap();
    assert!(a.is_none(Ordering::Acquire));
    assert_eq!(a.compare_and_swap(Some(&one), None, Ordering::SeqCst), Err((None, None)));
}

#[test]
fn lifo_pushes_drain_in_reverse() {
    let a = Atom::empty();
    let mut firsts = Vec::new();
    for i in (0..100u32).rev() {
        firsts.push(a.replace_and_set_next(node(i)));
    }
    assert!(firsts[0]);
    assert!(firsts[1..].iter().all(|f| !f));
    assert_eq!(drain(&a), (0..100u32).collect::<Vec<u32>>());
    assert!(a.is_none(Ordering::Acquire));
}

#[test]
fn push_replaces_stale_next_link() {
    let a = Atom::empty();
    let mut n = node(1);
    n.next = Some(node(99));
    assert!(a.replace_and_set_next(n));
    assert_eq!(drain(&a), vec![1]);
}

#[test]
fn many_tagged_pushes_all_drained_once() {
    let a = Atom::empty();
    let producers = 8u32;
    let per = 50u32;
    for p in 0..producers {
        for k in 0..per {
            a.replace_and_set_next(node(p * per + k));
        }
    }
    let tags = drain(&a);
    assert_eq!(tags.len(), (producers * per) as usize);
    let unique: HashSet<u32> = tags.into_iter().collect();
    assert_eq!(unique.len(), (producers * per) as usize);
    assert!((0..producers * per).all(|t| unique.contains(&t)));
}

#[test]
fn set_once_get_is_stable() {
    let view = AtomSetOnce::empty();
    assert!(view.is_none(Ordering::Acquire));
    assert_eq!(view.set_if_none(Arc::new(1u8), Ordering::Release), None);
    let first = view.get(Ordering::Acquire).unwrap();
    let first_addr = first.target_addr();
    for i in 2..20u8 {
        assert_eq!(view.set_if_none(Arc::new(i), Ordering::Release), Some(Arc::new(i)));
        let again = view.get(Ordering::Acquire).unwrap();
        assert_eq!(again.target_addr(), first_addr);
        assert_eq!(*again, 1);
    }
    assert_eq!(*first, 1);
    assert!(!view.is_none(Ordering::Acquire));
}

#[test]
fn set_once_new_get_mut_dup_into_atom() {
    let mut view = AtomSetOnce::new(Box::new(10u32));
    *view.get_mut().unwrap() += 5;
    assert_eq!(view.get(Ordering::Acquire), Some(&15u32));
    let a = view.into_atom();
    assert_eq!(a.take(Ordering::Acquire), Some(Box::new(15u32)));

    let mut empty: AtomSetOnce<Box<u32>> = AtomSetOnce::empty();
    assert!(empty.get_mut().is_none());
    assert!(empty.into_atom().is_none(Ordering::Acquire));

    let shared = Arc::new(7u16);
    let view = AtomSetOnce::new(shared.clone());
    let copy = view.dup().unwrap();
    assert!(Arc::ptr_eq(&copy, &shared));
    assert_eq!(Arc::strong_count(&shared), 3);
    let none: AtomSetOnce<Arc<u16>> = AtomSetOnce::empty();
    assert!(none.dup().is_none());
}

#[test]
fn set_once_drops_value_once() {
    let v = Arc::new(AtomicUsize::new(0));
    let view = AtomSetOnce::new(Box::new(Counted(v.clone())));
    assert_eq!(v.load(Ordering::SeqCst), 0);
    drop(view);
    assert_eq!(v.load(Ordering::SeqCst), 1);
}

#[test]
fn set_once_atom_gives_exclusive_slot() {
    let mut view = AtomSetOnce::new(Box::new(1u8));
    assert_eq!(view.atom().swap(Box::new(2u8), Ordering::AcqRel), Some(Box::new(1u8)));
    assert_eq!(view.get(Ordering::Acquire), Some(&2u8));
    assert_eq!(view.set_if_none(Box::new(3u8), Ordering::Release), Some(Box::new(3u8)));
    assert_eq!(view.atom().take(Ordering::Acquire), Some(Box::new(2u8)));
    assert!(view.is_none(Ordering::Acquire));
    assert_eq!(view.set_if_none(Box::new(4u8), Ordering::Release), None);
    assert_eq!(view.get(Ordering::Acquire), Some(&4u8));
    let a = view.into_atom();
    assert_eq!(a.take(Ordering::Acquire), Some(Box::new(4u8)));
}

#[test]
fn set_once_atom_value_dropped_once() {
    let v = Arc::new(AtomicUsize::new(0));
    let mut view = AtomSetOnce::new(Box::new(Counted(v.clone())));
    assert!(!view.atom().is_none(Ordering::Acquire));
    drop(view);
    assert_eq!(v.load(Ordering::SeqCst), 1);
}

struct CanaryNode {
    _canary: Counted,
    next: Option<Box<CanaryNode>>,
}

impl GetNextMut for Box<CanaryNode> {
    type NextPtr = Option<Box<CanaryNode>>;

    fn get_next(&mut self) -> &mut Option<Box<CanaryNode>> {
        &mut self.next
    }
}

#[test]
fn push_drops_stale_link_once() {
    let stale = Arc::new(AtomicUsize::new(0));
    let a = Atom::empty();
    assert!(a.replace_and_set_next(Box::new(CanaryNode {
        _canary: Counted(Arc::new(AtomicUsize::new(0))),
        next: None,
    })));
    let pushed = Box::new(CanaryNode {
        _canary: Counted(Arc::new(AtomicUsize::new(0))),
        next: Some(Box::new(CanaryNode { _canary: Counted(stale.clone()), next: None })),
    });
    assert!(!a.replace_and_set_next(pushed));
    assert_eq!(stale.load(Ordering::SeqCst), 1);
    let head = a.take(Ordering::Acquire).unwrap();
    assert!(head.next.as_ref().unwrap().next.is_none());
    drop(head);
    assert_eq!(stale.load(Ordering::SeqCst), 1);
}

#[test]
fn first_push_is_last_link() {
    let a = Atom::empty();
    assert!(a.replace_and_set_next(node(7)));
    assert!(!a.replace_and_set_next(node(8)));
    assert!(!a.replace_and_set_next(node(9)));
    let head = a.take(Ordering::Acquire).unwrap();
    let last = head.next.as_ref().unwrap().next.as_ref().unwrap();
    assert_eq!(last.tag, 7);
    assert!(last.next.is_none());
}
