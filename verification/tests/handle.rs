//! The table of objects, and the handles that name them.

use subetha_ffi::epoch::{wait_for_calls_on, Registry};
use subetha_ffi::error::{
    LastError, SUBETHA_E_HANDLE_POISONED, SUBETHA_E_INVALID_HANDLE, SUBETHA_E_NOT_SUPPORTED, SUBETHA_E_WRONG_KIND,
    SUBETHA_OK,
};
use subetha_ffi::handle::{
    decode, encode, Object, Table, SUBETHA_HANDLE_NONE, SUBETHA_KIND_DEQUE, SUBETHA_KIND_GRAPH, SUBETHA_KIND_RING,
};
use subetha_ffi::holds::token;

fn ring() -> Object<u32> {
    Object::Ring(0)
}

/// One thread's calls on one table.
struct Caller {
    table: Table<u32>,
    registry: Registry,
    last: LastError,
    thread: usize,
}

impl Caller {
    fn new() -> Self {
        let mut registry = Registry::new();
        let thread = registry.join();
        Caller { table: Table::new(), registry, last: LastError::new(), thread }
    }

    fn insert(&mut self, object: Object<u32>) -> u64 {
        assert!(self.table.can_insert());
        self.table.insert(object)
    }

    /// A whole call: the borrow and its release.
    fn call(&mut self, handle: u64, kind: u32) -> Result<(), i32> {
        let borrowed =
            self.table.borrow(&mut self.registry, &mut self.last, Ok(self.thread), true, handle, kind)?;
        assert_eq!(borrowed.object(&self.table).kind(), kind);
        borrowed.release(&mut self.registry);
        Ok(())
    }

    fn destroy(&mut self, handle: u64) -> i32 {
        assert!(self.registry.is_clear_of(decode(handle).0));
        self.table.destroy(&mut self.registry, &mut self.last, handle)
    }
}

#[test]
fn a_handle_is_refused_after_destroy_and_its_slot_is_reissued_with_a_new_generation() {
    let mut c = Caller::new();
    let a = c.insert(ring());
    assert!(c.call(a, SUBETHA_KIND_RING).is_ok());
    assert_eq!(c.destroy(a), SUBETHA_OK);
    assert_eq!(c.call(a, SUBETHA_KIND_RING).unwrap_err(), SUBETHA_E_INVALID_HANDLE);
    assert_eq!(c.destroy(a), SUBETHA_E_INVALID_HANDLE, "a second destroy is refused");
    let b = c.insert(ring());
    assert_eq!(decode(b).0, decode(a).0, "the slot is reused");
    assert_ne!(decode(b).1, decode(a).1, "under a new generation");
    assert!(c.call(a, SUBETHA_KIND_RING).is_err(), "the old handle still names nothing");
    assert!(c.call(b, SUBETHA_KIND_RING).is_ok());
    assert_eq!(c.destroy(b), SUBETHA_OK);
}

#[test]
fn zero_and_forged_handles_name_nothing() {
    let mut c = Caller::new();
    assert_eq!(c.call(SUBETHA_HANDLE_NONE, SUBETHA_KIND_RING).unwrap_err(), SUBETHA_E_INVALID_HANDLE);
    assert_eq!(c.call(u64::MAX, SUBETHA_KIND_RING).unwrap_err(), SUBETHA_E_INVALID_HANDLE);
    let a = c.insert(ring());
    let forged = encode(decode(a).0, decode(a).1.wrapping_add(7));
    assert_eq!(c.call(forged, SUBETHA_KIND_RING).unwrap_err(), SUBETHA_E_INVALID_HANDLE);
    assert_eq!(c.destroy(a), SUBETHA_OK);
}

#[test]
fn a_poisoned_handle_refuses_calls_until_it_is_destroyed() {
    let mut c = Caller::new();
    let a = c.insert(ring());
    let borrowed =
        c.table.borrow(&mut c.registry, &mut c.last, Ok(c.thread), true, a, SUBETHA_KIND_RING).unwrap();
    borrowed.poison(&mut c.table, "boom".into());
    borrowed.release(&mut c.registry);
    assert_eq!(c.call(a, SUBETHA_KIND_RING).unwrap_err(), SUBETHA_E_HANDLE_POISONED);
    assert_eq!(c.last.detail(), format!("handle {a:#x} poisoned by: boom"));
    assert!(c.table.is_poisoned(&mut c.last, a).unwrap());
    assert_eq!(c.table.kind_of(&mut c.last, a).unwrap(), SUBETHA_KIND_RING, "the kind is still readable");
    assert_eq!(c.destroy(a), SUBETHA_OK);
    assert_eq!(c.table.live(), 0);
}

#[test]
fn a_panic_inside_a_closing_object_poisons_it_and_its_destroy_goes_on() {
    let mut c = Caller::new();
    let a = c.insert(ring());
    let borrowed =
        c.table.borrow(&mut c.registry, &mut c.last, Ok(c.thread), true, a, SUBETHA_KIND_RING).unwrap();
    let index = c.table.close(&mut c.last, a).unwrap();
    let wait = wait_for_calls_on(&mut c.registry, index);
    borrowed.poison(&mut c.table, "boom".into());
    assert_eq!(c.table.is_poisoned(&mut c.last, a), Ok(true));
    assert_eq!(c.table.kind_of(&mut c.last, a), Ok(SUBETHA_KIND_RING));
    assert!(c.table.take_when_over(&c.registry, &wait, index).is_none(), "the call is still inside");
    borrowed.release(&mut c.registry);
    assert_eq!(c.call(a, SUBETHA_KIND_RING).unwrap_err(), SUBETHA_E_HANDLE_POISONED);
    assert_eq!(c.last.detail(), format!("handle {a:#x} poisoned by: boom"));
    assert_eq!(c.table.close(&mut c.last, a), Ok(index), "a poisoned handle can be destroyed");
    assert_eq!(c.table.close(&mut c.last, a), Err(SUBETHA_E_INVALID_HANDLE));
    assert!(c.table.take_when_over(&c.registry, &wait, index).is_some());
    assert_eq!(c.table.live(), 0);
    let b = c.insert(ring());
    assert_eq!(decode(b).0, index, "the slot is free again");
    assert!(!c.table.is_poisoned(&mut c.last, b).unwrap());
}

#[test]
fn a_stale_handle_is_refused_while_a_call_is_inside_its_slot() {
    let mut c = Caller::new();
    let stale = c.insert(ring());
    assert_eq!(c.destroy(stale), SUBETHA_OK);
    let new = c.insert(ring());
    assert_eq!(decode(new).0, decode(stale).0);
    let borrowed =
        c.table.borrow(&mut c.registry, &mut c.last, Ok(c.thread), true, new, SUBETHA_KIND_RING).unwrap();
    assert_eq!(c.table.destroy(&mut c.registry, &mut c.last, stale), SUBETHA_E_INVALID_HANDLE);
    assert_eq!(c.last.detail(), format!("handle {stale:#x}: already destroyed"));
    assert_eq!(borrowed.object(&c.table).kind(), SUBETHA_KIND_RING);
    assert_eq!(c.table.live(), 1);
    borrowed.release(&mut c.registry);
}

#[test]
fn destroying_them_all_passes_over_a_closing_one() {
    let mut c = Caller::new();
    let a = c.insert(ring());
    let b = c.insert(Object::Deque(1));
    let borrowed =
        c.table.borrow(&mut c.registry, &mut c.last, Ok(c.thread), true, a, SUBETHA_KIND_RING).unwrap();
    let index = c.table.close(&mut c.last, a).unwrap();
    assert!(c.table.closing(index).is_some());
    assert!(c.table.closing(decode(b).0).is_none(), "a live object is not closing");
    assert_eq!(c.table.destroy_all(&mut c.registry, &mut c.last), 1);
    assert_eq!(c.table.live(), 1);
    assert_eq!(borrowed.object(&c.table).kind(), SUBETHA_KIND_RING);
    borrowed.release(&mut c.registry);
}

#[test]
fn a_destroy_leaves_every_other_handle_as_it_was() {
    let mut c = Caller::new();
    let a = c.insert(ring());
    let b = c.insert(Object::Deque(1));
    assert_eq!(c.destroy(a), SUBETHA_OK);
    assert_eq!(c.table.live(), 1);
    assert_eq!(c.table.kind_of(&mut c.last, a), Err(SUBETHA_E_INVALID_HANDLE));
    assert_eq!(c.table.is_poisoned(&mut c.last, a), Err(SUBETHA_E_INVALID_HANDLE));
    assert_eq!(c.table.kind_of(&mut c.last, b), Ok(SUBETHA_KIND_DEQUE));
    assert_eq!(c.table.is_poisoned(&mut c.last, b), Ok(false));
}

#[test]
fn an_insert_leaves_every_other_handle_as_it_was() {
    let mut c = Caller::new();
    let kept = c.insert(Object::Deque(1));
    let gone = c.insert(ring());
    assert_eq!(c.destroy(gone), SUBETHA_OK);
    let new = c.insert(Object::Graph(2));
    assert_ne!(new, SUBETHA_HANDLE_NONE);
    assert_ne!(decode(new).1, 0);
    assert!(new != kept && new != gone);
    assert_eq!(c.table.kind_of(&mut c.last, new), Ok(SUBETHA_KIND_GRAPH));
    assert_eq!(c.table.is_poisoned(&mut c.last, new), Ok(false));
    assert_eq!(c.table.kind_of(&mut c.last, kept), Ok(SUBETHA_KIND_DEQUE));
    assert_eq!(c.table.kind_of(&mut c.last, gone), Err(SUBETHA_E_INVALID_HANDLE));
    assert_eq!(c.table.live(), 2);
}

#[test]
fn the_table_grows_without_a_ceiling_and_every_handle_stays_distinct() {
    let mut c = Caller::new();
    let handles: Vec<u64> = (0..1000).map(|_| c.insert(ring())).collect();
    let mut sorted = handles.clone();
    sorted.sort_unstable();
    sorted.dedup();
    assert_eq!(sorted.len(), handles.len());
    assert_eq!(c.table.live(), 1000);
    for h in &handles {
        assert!(c.call(*h, SUBETHA_KIND_RING).is_ok());
    }
    assert_eq!(c.table.destroy_all(&mut c.registry, &mut c.last), 1000);
    assert_eq!(c.table.live(), 0);
}

#[test]
fn destroy_waits_for_a_call_in_flight_and_that_call_sees_the_object_alive() {
    let mut c = Caller::new();
    let a = c.insert(ring());
    let borrowed =
        c.table.borrow(&mut c.registry, &mut c.last, Ok(c.thread), true, a, SUBETHA_KIND_RING).unwrap();
    let mut destroyer = LastError::new();
    let index = c.table.close(&mut destroyer, a).unwrap();
    let wait = wait_for_calls_on(&mut c.registry, index);
    // The destroyer is waiting out this borrow; the object must still be
    // reachable through it.
    assert!(!wait.is_over(&c.registry), "destroy must not complete while a borrow is live");
    assert_eq!(borrowed.object(&c.table).kind(), SUBETHA_KIND_RING);
    // A call that begins now is refused: the slot is closing.
    let other = c.registry.join();
    let mut last = LastError::new();
    let late = c.table.borrow(&mut c.registry, &mut last, Ok(other), true, a, SUBETHA_KIND_RING);
    assert!(matches!(late, Err(SUBETHA_E_INVALID_HANDLE)));
    assert!(c.table.take_when_over(&c.registry, &wait, index).is_none());
    assert_eq!(c.table.live(), 1);
    borrowed.release(&mut c.registry);
    assert!(wait.is_over(&c.registry));
    assert!(c.table.take_when_over(&c.registry, &wait, index).is_some());
    assert_eq!(c.table.live(), 0);
}

#[test]
fn a_borrow_of_another_kind_is_refused_with_both_kinds() {
    let mut c = Caller::new();
    let a = c.insert(Object::Graph(1));
    assert_eq!(c.call(a, SUBETHA_KIND_RING).unwrap_err(), SUBETHA_E_WRONG_KIND);
    assert_eq!(
        c.last.detail(),
        format!("handle {a:#x} is kind {SUBETHA_KIND_GRAPH}, not {SUBETHA_KIND_RING}")
    );
    assert!(c.call(a, SUBETHA_KIND_GRAPH).is_ok(), "a refused borrow leaves the thread quiet");
}

#[test]
fn a_token_is_no_handle() {
    let mut c = Caller::new();
    let t = token(0, 1);
    assert_eq!(c.call(t, SUBETHA_KIND_RING).unwrap_err(), SUBETHA_E_INVALID_HANDLE);
    assert_eq!(c.last.detail(), format!("handle {t:#x}: that is a hold token, not a handle"));
}

#[test]
fn a_call_inside_a_call_is_refused() {
    let mut c = Caller::new();
    let a = c.insert(ring());
    let b = c.insert(Object::Deque(3));
    let first =
        c.table.borrow(&mut c.registry, &mut c.last, Ok(c.thread), true, a, SUBETHA_KIND_RING).unwrap();
    let second = c.table.borrow(&mut c.registry, &mut c.last, Ok(c.thread), true, b, SUBETHA_KIND_DEQUE);
    assert!(matches!(second, Err(SUBETHA_E_NOT_SUPPORTED)));
    assert_eq!(*first.object(&c.table).interrupt(), 0);
    first.release(&mut c.registry);
}

#[test]
fn handles_issued_together_name_their_own_objects() {
    let mut c = Caller::new();
    let handles = c.table.insert_all(vec![Object::Ring(10), Object::Deque(20), Object::Graph(30)]);
    assert_eq!(handles.len(), 3);
    assert_eq!(c.table.kind_of(&mut c.last, handles[1]).unwrap(), SUBETHA_KIND_DEQUE);
    let borrowed =
        c.table.borrow(&mut c.registry, &mut c.last, Ok(c.thread), true, handles[2], SUBETHA_KIND_GRAPH).unwrap();
    assert_eq!(*borrowed.object(&c.table).interrupt(), 30);
    borrowed.release(&mut c.registry);
    assert_eq!(c.table.live(), 3);
}

#[test]
fn an_index_and_a_generation_make_a_handle() {
    assert_eq!(decode(encode(5, 6)), (5, 6));
    assert_ne!(encode(0, 1), SUBETHA_HANDLE_NONE);
}

#[test]
fn an_unissued_handle_has_no_kind_and_no_poison() {
    let mut c = Caller::new();
    assert_eq!(c.table.kind_of(&mut c.last, encode(3, 1)).unwrap_err(), SUBETHA_E_INVALID_HANDLE);
    assert_eq!(c.table.is_poisoned(&mut c.last, encode(3, 1)).unwrap_err(), SUBETHA_E_INVALID_HANDLE);
}
