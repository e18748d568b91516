//! The words threads publish, and the waits that read them.

use subetha_ffi::epoch::{
    barrier_kind, enter, pack, process_wide_barrier, register_process_wide_barrier, registry_len, unpack,
    wait_for_calls_on, wait_for_calls_on_all, Host, Registry, BARRIER_PER_CALL, BARRIER_PROCESS_WIDE,
};
use subetha_ffi::error::{LastError, SUBETHA_E_NOT_SUPPORTED};

#[test]
fn a_thread_publishes_the_slot_it_is_inside_and_clears_on_the_way_out() {
    let mut registry = Registry::new();
    let mut last = LastError::new();
    let thread = registry.join();
    assert_eq!(registry.word(thread), 0, "quiet before the call");
    {
        let inside = enter(&mut registry, &mut last, Ok(thread), 7, true).expect("a live thread takes its word");
        let (slot, _) = unpack(registry.word(thread));
        assert_eq!(slot, 8, "the slot one past its index, so zero can mean none");
        inside.leave(&mut registry);
    }
    assert_eq!(registry.word(thread), 0, "quiet again");
}

#[test]
fn a_second_borrow_on_one_thread_is_refused_rather_than_unpublishing_the_first() {
    let mut registry = Registry::new();
    let mut last = LastError::new();
    let thread = registry.join();
    let _inside = enter(&mut registry, &mut last, Ok(thread), 1, true).expect("a live thread takes its word");
    let word = registry.word(thread);
    match enter(&mut registry, &mut last, Ok(thread), 2, true) {
        Ok(_) => panic!("a second borrow on one thread must be refused"),
        Err(code) => assert_eq!(code, SUBETHA_E_NOT_SUPPORTED),
    }
    assert_eq!(registry.word(thread), word, "the first is still published");
}

#[test]
fn a_wait_returns_at_once_when_every_thread_is_quiet() {
    let mut registry = Registry::new();
    registry.join();
    registry.join();
    let wait = wait_for_calls_on(&mut registry, 3);
    assert!(wait.is_over(&registry));
}

#[test]
fn a_wait_outlasts_a_call_on_its_own_slot_and_ignores_another() {
    let mut registry = Registry::new();
    let mut last = LastError::new();
    let worker = registry.join();
    let inside = enter(&mut registry, &mut last, Ok(worker), 11, true).expect("a live thread takes its word");
    // Another slot's destroy does not wait for that call at all.
    let other = wait_for_calls_on(&mut registry, 12);
    assert!(other.is_over(&registry), "a call on slot 11 is not slot 12's business");
    let own = wait_for_calls_on(&mut registry, 11);
    assert!(!own.is_over(&registry), "the wait outlasts the call");
    inside.leave(&mut registry);
    assert!(own.is_over(&registry));
}

#[test]
fn a_thread_that_ends_gives_its_word_back() {
    const ROUNDS: usize = 16;
    let mut registry = Registry::new();
    let mut last = LastError::new();
    let before = registry_len(&registry);
    for _ in 0..ROUNDS {
        let thread = registry.join();
        let inside = enter(&mut registry, &mut last, Ok(thread), 5, true).expect("a live thread takes its word");
        inside.leave(&mut registry);
        registry.retire(thread);
    }
    let after = registry_len(&registry);
    assert!(after >= before, "the table never shrinks");
    assert!(after - before < ROUNDS);
    assert_eq!(after - before, 1, "one word served them all");
}

#[test]
fn a_thread_past_its_own_end_is_refused() {
    let mut registry = Registry::new();
    let mut last = LastError::new();
    match enter(&mut registry, &mut last, Err(String::from("gone")), 2, true) {
        Ok(_) => panic!("a thread with no word publishes nothing"),
        Err(code) => assert_eq!(code, SUBETHA_E_NOT_SUPPORTED),
    }
    assert!(last.detail().contains("gone"));
}

#[test]
fn a_word_packs_a_slot_and_an_epoch() {
    assert_eq!(pack(7, 3), 0x0000_0003_0000_0008);
    assert_eq!(unpack(pack(7, 3)), (8, 3));
    assert_eq!(unpack(0), (0, 0));
    assert_eq!(unpack(pack(0, u32::MAX)), (1, u32::MAX));
}

#[test]
fn a_later_call_on_the_same_slot_does_not_hold_a_wait_up() {
    let mut registry = Registry::new();
    let mut last = LastError::new();
    let thread = registry.join();
    let wait = wait_for_calls_on(&mut registry, 4);
    let inside = enter(&mut registry, &mut last, Ok(thread), 4, true).expect("a live thread takes its word");
    assert!(wait.is_over(&registry), "the call began after the wait did");
    inside.leave(&mut registry);
}

#[test]
fn one_wait_covers_every_slot_of_a_batch() {
    let mut registry = Registry::new();
    let mut last = LastError::new();
    let a = registry.join();
    let b = registry.join();
    let in_a = enter(&mut registry, &mut last, Ok(a), 1, true).expect("a word");
    let in_b = enter(&mut registry, &mut last, Ok(b), 9, true).expect("a word");
    let wait = wait_for_calls_on_all(&mut registry, vec![1, 2, 3]);
    assert!(!wait.is_over(&registry));
    assert!(wait.passes(registry.word(b)), "slot 9 is outside the batch");
    in_a.leave(&mut registry);
    assert!(wait.is_over(&registry));
    in_b.leave(&mut registry);
    let nothing = wait_for_calls_on_all(&mut registry, vec![]);
    assert!(nothing.is_over(&registry));
}

#[test]
fn the_barrier_is_settled_once() {
    let mut registry = Registry::new();
    assert_eq!(barrier_kind(&mut registry, false), BARRIER_PER_CALL);
    assert_eq!(barrier_kind(&mut registry, true), BARRIER_PER_CALL, "what was settled stands");
    let mut other = Registry::new();
    assert_eq!(barrier_kind(&mut other, true), BARRIER_PROCESS_WIDE);
}

#[test]
fn a_call_fences_itself_only_where_nothing_fences_it() {
    let mut last = LastError::new();
    let mut fenced = Registry::new();
    let thread = fenced.join();
    let inside = enter(&mut fenced, &mut last, Ok(thread), 0, true).expect("a word");
    assert!(!inside.must_fence());
    inside.leave(&mut fenced);
    let mut bare = Registry::new();
    let thread = bare.join();
    let inside = enter(&mut bare, &mut last, Ok(thread), 0, false).expect("a word");
    assert!(inside.must_fence());
    inside.leave(&mut bare);
}

#[test]
fn each_host_says_whether_it_fences_a_process() {
    assert!(register_process_wide_barrier(Host::Windows, false));
    assert!(register_process_wide_barrier(Host::Linux, true));
    assert!(!register_process_wide_barrier(Host::Linux, false));
    assert!(!register_process_wide_barrier(Host::Other, true));
    assert!(!process_wide_barrier(Host::Windows, false));
    assert!(!process_wide_barrier(Host::Linux, true));
    assert!(process_wide_barrier(Host::Linux, false));
    assert!(process_wide_barrier(Host::Other, true));
}
