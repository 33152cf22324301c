use tegne::arena::Handle;
use tegne::arena::ResourceArena;
use tegne::pacer::FramePacer;

#[test]
fn lookup_after_add_returns_value() {
    let mut arena: ResourceArena<String> = ResourceArena::new(2);
    let a = arena.add("cube".to_string());
    let b = arena.add("sphere".to_string());
    assert_eq!(arena.lookup(a).map(|s| s.as_str()), Some("cube"));
    assert_eq!(arena.lookup(b).map(|s| s.as_str()), Some("sphere"));
    assert_eq!(a, Handle { index: 0, generation: 0 });
    assert_eq!(b, Handle { index: 1, generation: 0 });
}

#[test]
fn remove_hides_at_once_and_frees_after_full_cycle() {
    let mut arena: ResourceArena<u32> = ResourceArena::new(2);
    let h = arena.add(7);
    assert!(arena.remove(h, 0));
    assert_eq!(arena.lookup(h), None);
    assert_eq!(arena.pending_count(), 1);
    // the pass for the other slot does not free it
    assert!(arena.clean_unused(1).is_empty());
    assert_eq!(arena.pending_count(), 1);
    assert_eq!(arena.generation(0), Some(0));
    // the pass that comes back to slot 0 does
    assert_eq!(arena.clean_unused(0), vec![7]);
    assert_eq!(arena.pending_count(), 0);
    assert_eq!(arena.generation(0), Some(1));
}

#[test]
fn early_pass_on_marked_slot_does_not_free() {
    let mut arena: ResourceArena<u32> = ResourceArena::new(3);
    let h = arena.add(1);
    arena.remove(h, 2);
    // a pass for the marked slot before the ring has turned frees nothing
    assert!(arena.clean_unused(2).is_empty());
    assert!(arena.clean_unused(0).is_empty());
    assert!(arena.clean_unused(1).is_empty());
    assert_eq!(arena.clean_unused(2), vec![1]);
}

#[test]
fn stale_handle_stays_stale_after_reuse() {
    let mut arena: ResourceArena<u32> = ResourceArena::new(2);
    let old = arena.add(10);
    arena.remove(old, 1);
    arena.clean_unused(0);
    assert_eq!(arena.clean_unused(1), vec![10]);
    let new = arena.add(20);
    assert_eq!(new, Handle { index: 0, generation: 1 });
    assert_ne!(new, old);
    assert_eq!(arena.lookup(old), None);
    assert_eq!(arena.lookup(new), Some(&20));
    assert!(!arena.remove(old, 0));
    assert_eq!(arena.lookup(new), Some(&20));
}

#[test]
fn remove_of_stale_handle_is_noop() {
    let mut arena: ResourceArena<u32> = ResourceArena::new(2);
    let h = arena.add(3);
    assert!(arena.remove(h, 0));
    assert!(!arena.remove(h, 0));
    assert_eq!(arena.pending_count(), 1);
    assert!(!arena.remove(Handle { index: 5, generation: 0 }, 0));
}

#[test]
fn add_reuses_lowest_free_slot() {
    let mut arena: ResourceArena<u32> = ResourceArena::new(1);
    let a = arena.add(1);
    let b = arena.add(2);
    let c = arena.add(3);
    arena.remove(c, 0);
    arena.remove(a, 0);
    let mut freed = arena.clean_unused(0);
    freed.sort();
    assert_eq!(freed, vec![1, 3]);
    let d = arena.add(4);
    assert_eq!(d, Handle { index: 0, generation: 1 });
    let e = arena.add(5);
    assert_eq!(e, Handle { index: 2, generation: 1 });
    let f = arena.add(6);
    assert_eq!(f, Handle { index: 3, generation: 0 });
    assert_eq!(arena.lookup(b), Some(&2));
    assert_eq!(arena.slot_count(), 4);
}

#[test]
fn replace_keeps_handle_and_defers_old_value() {
    let mut arena: ResourceArena<&str> = ResourceArena::new(2);
    let h = arena.add("v1");
    assert_eq!(arena.replace(h, "v2", 1), Ok(()));
    assert_eq!(arena.lookup(h), Some(&"v2"));
    assert_eq!(arena.pending_count(), 1);
    assert!(arena.clean_unused(0).is_empty());
    assert_eq!(arena.clean_unused(1), vec!["v1"]);
    // the slot stays live: its generation does not move
    assert_eq!(arena.generation(0), Some(0));
    assert_eq!(arena.lookup(h), Some(&"v2"));
}

#[test]
fn replace_through_stale_handle_hands_value_back() {
    let mut arena: ResourceArena<&str> = ResourceArena::new(2);
    let h = arena.add("v1");
    arena.remove(h, 0);
    assert_eq!(arena.replace(h, "v2", 0), Err("v2"));
    assert_eq!(arena.lookup(h), None);
}

#[test]
fn two_frames_in_flight_scenario() {
    let mut pacer = FramePacer::new(2);
    let mut arena: ResourceArena<&str> = ResourceArena::new(2);
    let a = arena.add("mesh");
    assert_eq!(a, Handle { index: 0, generation: 0 });

    // first frame lands on slot 0 once the ring has turned once
    let s = pacer.begin_frame();
    assert_eq!(s, 1);
    assert!(arena.clean_unused(s).is_empty());
    pacer.end_frame();

    let s = pacer.begin_frame();
    assert_eq!(s, 0);
    assert!(arena.clean_unused(s).is_empty());
    assert!(arena.remove(a, s));
    pacer.end_frame();

    let s = pacer.begin_frame();
    assert_eq!(s, 1);
    assert!(arena.clean_unused(s).is_empty());
    assert_eq!(arena.lookup(a), None);
    assert_eq!(arena.pending_count(), 1);
    pacer.end_frame();

    let s = pacer.begin_frame();
    assert_eq!(s, 0);
    assert_eq!(arena.clean_unused(s), vec!["mesh"]);
    assert_eq!(arena.generation(0), Some(1));
    pacer.end_frame();

    let a2 = arena.add("new mesh");
    assert_eq!(a2, Handle { index: 0, generation: 1 });
    assert_ne!(a2, a);
    assert_eq!(arena.lookup(a), None);
    assert_eq!(arena.lookup(a2), Some(&"new mesh"));
}

#[test]
fn lookup_mut_changes_only_that_resource() {
    let mut arena: ResourceArena<u32> = ResourceArena::new(2);
    let a = arena.add(1);
    let b = arena.add(2);
    if let Some(v) = arena.lookup_mut(a) {
        *v = 10;
    }
    assert_eq!(arena.lookup(a), Some(&10));
    assert_eq!(arena.lookup(b), Some(&2));
    arena.remove(a, 0);
    assert!(arena.lookup_mut(a).is_none());
    assert!(!arena.contains(a));
    assert!(arena.contains(b));
    assert_eq!(arena.frames_in_flight(), 2);
}
