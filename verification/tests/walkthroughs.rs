//! Whole calls, with a stand-in for the memory-mapped primitive each family
//! works on.

use std::collections::{BTreeMap, VecDeque};

use subetha_ffi::arguments::ring_outcome;
use subetha_ffi::deque::{self, SUBETHA_DEQUE_OWNER, SUBETHA_DEQUE_THIEF};
use subetha_ffi::error::{
    DequeError, HeartbeatError, LastError, RingError, SUBETHA_E_DEQUE_NOT_OWNER, SUBETHA_E_INVALID_ARGUMENT,
    SUBETHA_E_NOT_OWNER, SUBETHA_E_OUT_OF_BOUNDS, SUBETHA_E_RING_EMPTY, SUBETHA_E_RING_FULL,
    SUBETHA_E_RING_PAYLOAD_TOO_LARGE,
};
use subetha_ffi::epochs::{
    subetha_epochs_begin, subetha_epochs_dead_tickets, subetha_epochs_pin, subetha_epochs_stats, subetha_pin_epoch,
    subetha_pin_release, subetha_ticket_epoch, subetha_ticket_publish, EpochsObject,
};
use subetha_ffi::frame_region::{self, SUBETHA_FRAME_NO_BLOCK};
use subetha_ffi::heartbeat::{self, subetha_heartbeat_slot};
use subetha_ffi::holds::HoldTable;
use subetha_ffi::list::{self, ElementLayout, SUBETHA_LIST_HEAD_INDEX, SUBETHA_LIST_NIL_INDEX};
use subetha_ffi::ordered::{
    after_pull, after_take, choose_strategy, Next, OrderedObject, OrderingMode, StampKind, Strategy,
    SUBETHA_ORDERED_DIRECT, SUBETHA_ORDERED_REORDER,
};

use subetha_ffi::owner_lease::{self, SUBETHA_LEASE_NO_OWNER};

const MODE_STRICT: u32 = 0;

/// A deque in this process's memory.
struct LocalDeque {
    slots: VecDeque<[u8; 16]>,
    capacity: usize,
    top: i64,
    bottom: i64,
}

fn layout() -> ElementLayout {
    ElementLayout { slot_size: 12, alignment: 4, tag: 11 }
}

fn try_push(d: &mut LocalDeque, role: u32, payload: &[u8]) -> Result<(), i32> {
    let mut last = LastError::new();
    deque::push_arguments(&mut last, role, payload.len(), layout().slot_size)?;
    let went = if d.slots.len() == d.capacity {
        Err(DequeError::Full)
    } else {
        let mut slot = [0u8; 16];
        slot[..payload.len()].copy_from_slice(payload);
        d.slots.push_back(slot);
        d.bottom += 1;
        Ok(())
    };
    deque::pushed(&mut last, went)
}

fn try_pop(d: &mut LocalDeque, role: u32, out: &mut [u8; 16]) -> Result<usize, i32> {
    let mut last = LastError::new();
    deque::require_owner(&mut last, role)?;
    let found = d.slots.pop_back().map(|slot| {
        *out = slot;
        d.bottom -= 1;
        16
    });
    deque::taken(found)
}

fn try_steal(d: &mut LocalDeque, out: &mut [u8; 16]) -> Result<usize, i32> {
    let found = d.slots.pop_front().map(|slot| {
        *out = slot;
        d.top += 1;
        16
    });
    deque::taken(found)
}

fn deque_stats(d: &LocalDeque, role: u32) -> deque::subetha_deque_stats {
    deque::stats(MODE_STRICT, role, d.capacity, 16, layout(), d.top, d.bottom, d.slots.len(), 0)
}

#[test]
fn the_owner_pushes_and_pops_lifo_and_a_thief_steals_fifo() {
    let mut d = LocalDeque { slots: VecDeque::new(), capacity: 16, top: 0, bottom: 0 };
    let (owner, thief) = (SUBETHA_DEQUE_OWNER, SUBETHA_DEQUE_THIEF);
    assert_eq!(deque_stats(&d, owner).slot_bytes, 16);
    assert_eq!(deque_stats(&d, owner).element_size, 12);
    assert_eq!(deque_stats(&d, thief).role, SUBETHA_DEQUE_THIEF);
    for i in 0..6u8 {
        try_push(&mut d, owner, &[i; 12]).unwrap();
    }
    assert_eq!(try_push(&mut d, owner, &[0; 13]).unwrap_err(), SUBETHA_E_RING_PAYLOAD_TOO_LARGE);
    assert_eq!(try_push(&mut d, thief, &[9; 12]).unwrap_err(), SUBETHA_E_DEQUE_NOT_OWNER);
    let mut out = [0xFFu8; 16];
    assert_eq!(try_pop(&mut d, thief, &mut out).unwrap_err(), SUBETHA_E_DEQUE_NOT_OWNER);
    assert_eq!(try_pop(&mut d, owner, &mut out).unwrap(), 16);
    assert_eq!(&out[..12], &[5; 12]);
    assert_eq!(&out[12..], &[0; 4]);
    assert_eq!(try_steal(&mut d, &mut out).unwrap(), 16);
    assert_eq!(out[0], 0);
    assert_eq!(try_steal(&mut d, &mut out).unwrap(), 16);
    assert_eq!(out[0], 1);
    assert_eq!(deque_stats(&d, owner).approx_len, 3);
    assert_eq!(deque_stats(&d, owner).top, 2);
    assert_eq!(deque_stats(&d, owner).bottom, 5);
    for _ in 0..3 {
        try_pop(&mut d, owner, &mut out).unwrap();
    }
    assert_eq!(try_pop(&mut d, owner, &mut out).unwrap_err(), SUBETHA_E_RING_EMPTY);
    assert_eq!(try_steal(&mut d, &mut out).unwrap_err(), SUBETHA_E_RING_EMPTY);
}

/// A stamped ring in this process's memory.
struct LocalRing {
    items: VecDeque<(u64, u8)>,
}

/// A window that holds items until it holds more than it is wide.
struct Window {
    width: usize,
    held: BTreeMap<u64, u8>,
}

impl Window {
    fn try_take(&mut self) -> Option<(u64, u8)> {
        if self.held.len() > self.width {
            self.held.pop_first()
        } else {
            None
        }
    }
}

/// The next item in order, its stamp kept with it.
fn try_next(
    ring: &mut LocalRing,
    object: &OrderedObject,
    window: &mut Option<Window>,
    got: &mut Vec<(u64, u8)>,
) -> Result<(), i32> {
    let mut last = LastError::new();
    let mut next = object.begin();
    let mut pulled = (0u64, 0u8);
    let mut took = 0u8;
    loop {
        next = match (next, window.as_mut()) {
            (Next::Item(len, stamp), _) => {
                assert_eq!(len, 1);
                got.push((stamp, took));
                return Ok(());
            }
            (Next::Answer(code), _) => return Err(code),
            (Next::Pull, Some(_)) => {
                let went = match ring.items.pop_front() {
                    Some(item) => {
                        pulled = item;
                        Ok(())
                    }
                    None => Err(RingError::Empty),
                };
                after_pull(&mut last, went)
            }
            (Next::PushAndTake, Some(w)) => {
                w.held.insert(pulled.0, pulled.1);
                after_take(true, w.try_take().map(|(stamp, byte)| {
                    took = byte;
                    (stamp, 1)
                }))
            }
            (Next::Take, Some(w)) => after_take(false, w.try_take().map(|(stamp, byte)| {
                took = byte;
                (stamp, 1)
            })),
            (_, _) => {
                let went = ring.items.pop_front().ok_or(RingError::Empty);
                got.push(ring_outcome(&mut last, went)?);
                return Ok(());
            }
        };
    }
}

/// Everything the receiver hands out, then everything a flush does.
fn drain(ring: &mut LocalRing, object: &OrderedObject, window: &mut Option<Window>) -> Vec<(u64, u8)> {
    let mut got = Vec::new();
    loop {
        match try_next(ring, object, window, &mut got) {
            Ok(()) => {}
            Err(code) => {
                assert_eq!(code, SUBETHA_E_RING_EMPTY);
                break;
            }
        }
    }
    loop {
        let flushed = window.as_mut().and_then(|w| w.held.pop_first());
        match object.flush(flushed.map(|(stamp, _)| (stamp, 1))) {
            Ok((_, stamp)) => got.push((stamp, flushed.expect("an item").1)),
            Err(code) => {
                assert_eq!(code, SUBETHA_E_RING_EMPTY);
                break;
            }
        }
    }
    got
}

#[test]
fn counter_stamps_get_the_reorder_strategy_and_come_out_in_stamp_order() {
    let (strategy, mode) = choose_strategy(Some(StampKind::SharedCounter), 2, 2, 4, 64);
    let receiver = OrderedObject::new(strategy, false, MODE_STRICT);
    let mut window = match strategy {
        Strategy::Reorder { window, .. } => Some(Window { width: window, held: BTreeMap::new() }),
        _ => None,
    };
    assert_eq!(receiver.stats(4, 0, 0).strategy, SUBETHA_ORDERED_REORDER);
    assert_eq!(mode, Some(OrderingMode::MergeByStamp));
    let mut ring = LocalRing { items: VecDeque::new() };
    // Two producers, each a step behind the other's stamps.
    for i in (0..20u8).step_by(2) {
        ring.items.push_back((u64::from(i) + 1, i + 1));
        ring.items.push_back((u64::from(i), i));
    }
    let got = drain(&mut ring, &receiver, &mut window);
    assert!(got.windows(2).all(|pair| pair[0].0 <= pair[1].0), "stamps come out in order");
    let mut bytes: Vec<u8> = got.into_iter().map(|(_, byte)| byte).collect();
    bytes.sort_unstable();
    assert_eq!(bytes, (0..20u8).collect::<Vec<_>>());
}

#[test]
fn time_stamps_are_delivered_directly() {
    let (strategy, mode) = choose_strategy(Some(StampKind::Clock), 1, 1, 4, 64);
    assert_eq!(mode, None, "the ring's own merge stands");
    let receiver = OrderedObject::new(strategy, false, MODE_STRICT);
    assert_eq!(receiver.stats(0, 0, 0).strategy, SUBETHA_ORDERED_DIRECT);
    let mut ring = LocalRing { items: VecDeque::new() };
    assert!(drain(&mut ring, &receiver, &mut None).is_empty());
}

/// A heartbeat table in this process's memory.
struct LocalTable {
    slots: Vec<Option<subetha_heartbeat_slot>>,
    epoch: u64,
}

impl LocalTable {
    fn register(&mut self, pid: u32) -> Result<u32, i32> {
        let mut last = LastError::new();
        heartbeat::register_arguments(&mut last, pid, false)?;
        let free = self.slots.iter().position(|slot| slot.is_none());
        if let Some(i) = free {
            let held = subetha_heartbeat_slot { pid, role: 0, last_seen_epoch: self.epoch, in_flight_bitmap: 0 };
            self.slots[i] = Some(held);
        }
        heartbeat::subetha_heartbeat_register(&mut last, free.ok_or(HeartbeatError::TableFull))
    }

    fn slot(&self, slot: u32) -> Result<subetha_heartbeat_slot, i32> {
        let mut last = LastError::new();
        let index = heartbeat::read_slot_arguments(&mut last, self.slots.len(), slot, false)?;
        Ok(heartbeat::subetha_heartbeat_read_slot(self.slots[index]))
    }

    fn unit(&mut self, slot: u32, bit: u32, taken: bool) -> Result<(), i32> {
        let mut last = LastError::new();
        let (index, bit) = heartbeat::in_flight_arguments(&mut last, self.slots.len(), slot, bit)?;
        let held = self.slots[index].as_mut().expect("held");
        if taken {
            held.in_flight_bitmap |= 1 << bit;
        } else {
            held.in_flight_bitmap &= !(1 << bit);
        }
        Ok(())
    }

    fn stats(&self) -> heartbeat::subetha_heartbeat_stats {
        heartbeat::stats(MODE_STRICT, &self.slots, self.epoch, 4 * 64)
    }
}

#[test]
fn slots_are_taken_and_given_back_and_a_quiet_one_shows_its_last_epoch() {
    let mut h = LocalTable { slots: vec![None; 4], epoch: 0 };
    assert_eq!(h.stats().capacity, 4);
    assert_eq!(h.stats().registered, 0);
    assert_eq!(h.stats().file_size, 4 * 64);

    let first = h.register(100).expect("a free slot");
    let second = h.register(200).expect("another");
    assert_eq!(h.stats().registered, 2);
    let snapshot = h.slot(first).expect("the slot is held");
    assert_eq!(snapshot.pid, 100);
    assert_eq!(snapshot.last_seen_epoch, 0);
    assert_eq!(h.slot(3).unwrap().pid, 0, "a slot nobody holds reads as empty");

    for _ in 0..3 {
        h.epoch += 1;
        h.slots[first as usize].as_mut().expect("held").last_seen_epoch = h.epoch;
    }
    assert_eq!(h.stats().global_epoch, 3);
    assert_eq!(h.slot(first).expect("held").last_seen_epoch, 3, "the live one is current");
    assert_eq!(h.slot(second).expect("held").last_seen_epoch, 0, "the quiet one is behind");

    h.unit(second, 0, true).unwrap();
    h.unit(second, 63, true).unwrap();
    assert_eq!(h.slot(second).expect("held").in_flight_bitmap, (1u64 << 63) | 1);
    h.unit(second, 0, false).unwrap();
    assert_eq!(h.slot(second).expect("held").in_flight_bitmap, 1u64 << 63);

    h.slots[second as usize] = None;
    assert_eq!(h.stats().registered, 1);
    assert_eq!(h.slot(second).unwrap().pid, 0, "the freed slot reads as empty");
    assert_eq!(h.register(300).expect("the freed slot comes back"), second);

    let mut last = LastError::new();
    assert_eq!(heartbeat::checked_slot(&mut last, 4, 4).unwrap_err(), SUBETHA_E_OUT_OF_BOUNDS);
    assert_eq!(heartbeat::checked_slot(&mut last, 4, 3).unwrap(), 3);
}

#[test]
fn a_full_table_refuses_the_next_registration() {
    let mut h = LocalTable { slots: vec![None; 2], epoch: 0 };
    h.register(100).expect("the first slot");
    h.register(200).expect("the second");
    assert_eq!(h.stats().registered, 2);
    match h.register(300) {
        Ok(slot) => panic!("a full table handed out slot {slot}"),
        Err(code) => assert_eq!(code, SUBETHA_E_RING_FULL),
    }
}

#[test]
fn the_object_reports_its_geometry_and_hands_blocks_round() {
    let mut last = LastError::new();
    let stats = frame_region::stats(MODE_STRICT, 64, 4, 64 + 4 * 64);
    assert_eq!(stats.block_size, 64);
    assert_eq!(stats.block_count, 4);
    assert_eq!(stats.file_size, 64 + 4 * 64);
    let mut free: Vec<u32> = (0..4).rev().collect();
    let mut blocks = [[0u8; 64]; 4];
    let first = frame_region::subetha_frame_region_alloc(free.pop()).expect("a block");
    let data = frame_region::write_arguments(&mut last, 4, 64, first, 7, Ok(b"a frame")).unwrap();
    blocks[first as usize][..7].copy_from_slice(data);
    let mut out = [0u8; 7];
    let buf = frame_region::read_block_arguments(&mut last, 4, 64, first, 7, Ok(&mut out)).unwrap();
    buf.copy_from_slice(&blocks[first as usize][..7]);
    assert_eq!(&out, b"a frame");
    frame_region::checked_block(&mut last, 4, first).unwrap();
    free.push(first);
    assert_eq!(frame_region::subetha_frame_region_alloc(free.pop()), Ok(first), "the freed block comes back");
    assert_eq!(frame_region::checked_geometry(&mut last, 4, 4).unwrap_err(), SUBETHA_E_INVALID_ARGUMENT);
    assert_eq!(frame_region::checked_geometry(&mut last, 12, 4).unwrap_err(), SUBETHA_E_INVALID_ARGUMENT);
    assert_eq!(frame_region::checked_geometry(&mut last, 64, 0).unwrap_err(), SUBETHA_E_INVALID_ARGUMENT);
    assert_eq!(
        frame_region::checked_geometry(&mut last, 64, SUBETHA_FRAME_NO_BLOCK).unwrap_err(),
        SUBETHA_E_INVALID_ARGUMENT
    );
    assert_eq!(frame_region::checked_geometry(&mut last, 64, 4).unwrap(), (64, 4));
    assert_eq!(frame_region::checked_geometry(&mut last, 8, 1).unwrap(), (8, 1));
}

#[test]
fn the_object_reports_its_shape_and_walks_its_nodes() {
    let mut last = LastError::new();
    let layout = ElementLayout { slot_size: 16, alignment: 4, tag: 4 };
    let mut nodes: Vec<[u8; 16]> = Vec::new();
    let stats = list::stats(MODE_STRICT, 8, nodes.len(), layout, 24);
    assert_eq!(stats.capacity, 8);
    assert_eq!(stats.len, 0);
    assert_eq!(stats.element_size, 16);
    assert_eq!(stats.alignment, 4);
    assert_eq!(stats.tag, 4);
    assert_eq!(stats.node_size, 24);
    let mut push = |byte: u8| -> u32 {
        let data = [byte; 16];
        let value = list::push_arguments(&mut last, false, Ok(&data), layout.slot_size).unwrap();
        let mut node = [0u8; 16];
        node.copy_from_slice(value);
        nodes.push(node);
        list::outcome(&mut last, Ok(nodes.len() as u32)).unwrap()
    };
    let first = push(1);
    let second = push(2);
    assert_eq!(list::stats(MODE_STRICT, 8, nodes.len(), layout, 24).len, 2);
    assert_eq!((first, second), (1, 2));
    assert_ne!(first, SUBETHA_LIST_HEAD_INDEX);
    assert_eq!(list::list_capacity(&mut last, 1).unwrap_err(), SUBETHA_E_INVALID_ARGUMENT);
    assert_eq!(list::list_capacity(&mut last, SUBETHA_LIST_NIL_INDEX).unwrap_err(), SUBETHA_E_INVALID_ARGUMENT);
    assert_eq!(list::list_capacity(&mut last, 2).unwrap(), 2);
}

/// An owner lease in this process's memory: a free lease is anyone's, and a
/// lower process id preempts.
struct LocalLease {
    owner: Option<u32>,
    term: u32,
    version: u32,
    payload: [u8; 8],
}

impl LocalLease {
    fn try_acquire(&mut self, pid: u32) -> Result<bool, i32> {
        let mut last = LastError::new();
        let pid = owner_lease::try_acquire_arguments(&mut last, pid, false)?;
        let taken = self.owner.is_none_or(|owner| pid < owner);
        if taken {
            self.owner = Some(pid);
            self.term += 1;
        }
        Ok(taken)
    }

    fn read(&self, pid: u32, out: &mut [u8; 8]) -> Result<(), i32> {
        let mut last = LastError::new();
        let pid = owner_lease::checked_pid(&mut last, pid)?;
        owner_lease::held_by(&mut last, pid, self.owner == Some(pid))?;
        *out = self.payload;
        Ok(())
    }

    fn write(&mut self, pid: u32, data: &[u8]) -> Result<(), i32> {
        let mut last = LastError::new();
        let pid = owner_lease::write_arguments(&mut last, pid, data.len(), self.payload.len())?;
        owner_lease::held_by(&mut last, pid, self.owner == Some(pid))?;
        self.payload[..data.len()].copy_from_slice(data);
        self.version += 2;
        Ok(())
    }

    fn stats(&self) -> owner_lease::subetha_owner_lease_stats {
        owner_lease::stats(MODE_STRICT, self.payload.len(), self.owner, self.term, self.version, 0, 0)
    }
}

#[test]
fn the_object_reports_the_holder_and_the_payload_moves_with_the_lease() {
    let mut object = LocalLease { owner: None, term: 0, version: 0, payload: [1; 8] };
    let stats = object.stats();
    assert_eq!(stats.payload_size, 8);
    assert_eq!(stats.owner_pid, SUBETHA_LEASE_NO_OWNER);
    assert_eq!(stats.lease_term, 0);

    assert!(object.try_acquire(100).unwrap());
    assert_eq!(object.stats().owner_pid, 100);
    assert_eq!(object.stats().lease_term, 1);
    let mut out = [0u8; 8];
    assert!(object.read(100, &mut out).is_ok());
    assert_eq!(out, [1u8; 8]);
    assert!(object.write(100, &[2u8; 8]).is_ok());
    assert!(object.stats().seq_version >= 2, "the write moved the version twice");

    // A lower pid preempts and finds the payload the last holder left.
    assert!(object.try_acquire(50).unwrap());
    assert!(object.read(50, &mut out).is_ok());
    assert_eq!(out, [2u8; 8]);
    assert_eq!(object.stats().owner_pid, 50);
    assert_eq!(object.read(100, &mut out), Err(SUBETHA_E_NOT_OWNER));
    object.owner = None;
    assert_eq!(object.stats().owner_pid, SUBETHA_LEASE_NO_OWNER);

    // pid 0 is the value that means nobody, so it is refused rather than
    // taken as a release.
    let mut last = LastError::new();
    assert_eq!(owner_lease::checked_pid(&mut last, 0).unwrap_err(), SUBETHA_E_INVALID_ARGUMENT);
    assert_eq!(owner_lease::checked_pid(&mut last, 1).unwrap(), 1);
}

/// An epoch table in this process's memory.
struct LocalEpochs {
    counter: u64,
    pins: Vec<Option<u64>>,
    tickets: Vec<Option<u64>>,
}

impl LocalEpochs {
    fn advance(&mut self) -> u64 {
        self.counter += 1;
        self.counter
    }

    fn now(&self) -> u64 {
        self.tickets.iter().flatten().map(|epoch| epoch - 1).min().unwrap_or(self.counter)
    }

    fn reclaim_horizon(&self) -> u64 {
        self.pins.iter().flatten().copied().min().unwrap_or(self.now())
    }

    fn claim_pin(&mut self) -> (usize, u64) {
        let (slot, at) = (self.pins.iter().position(Option::is_none).expect("a free pin"), self.now());
        self.pins[slot] = Some(at);
        (slot, at)
    }

    fn claim_ticket(&mut self) -> (usize, u64) {
        let (slot, at) = (self.tickets.iter().position(Option::is_none).expect("a free ticket"), self.advance());
        self.tickets[slot] = Some(at);
        (slot, at)
    }

    fn stats(&self, object: &EpochsObject) -> subetha_epochs_stats {
        object.stats(
            self.pins.len(),
            self.now(),
            self.reclaim_horizon(),
            self.pins.iter().flatten().count(),
            self.tickets.iter().flatten().count(),
            64,
        )
    }
}

#[test]
fn a_pin_holds_the_horizon_and_a_ticket_holds_the_published_epoch() {
    let mut last = LastError::new();
    let mut epochs = LocalEpochs { counter: 0, pins: vec![None; 4], tickets: vec![None; 4] };
    let mut table = EpochsObject::new(4, MODE_STRICT);
    assert_eq!(epochs.stats(&table).capacity, 4);
    assert_eq!(epochs.stats(&table).file_size, 64);

    let first = epochs.advance();
    assert_eq!(epochs.stats(&table).now, first, "nothing is open, so the counter is published");

    // A pin holds the horizon where it was taken, however far the counter
    // runs on.
    let pin = subetha_epochs_pin(&mut table, &mut last, Ok(epochs.claim_pin())).token.expect("a token");
    let at = subetha_pin_epoch(&table, &mut last, pin, false).unwrap();
    assert_eq!(at, first);
    let second = epochs.advance();
    assert_eq!(epochs.stats(&table).now, second);
    assert_eq!(epochs.stats(&table).reclaim_horizon, first, "the pin holds it");
    assert_eq!(epochs.stats(&table).live_pins, 1);
    assert!(at < second);
    let slot = subetha_pin_release(&mut table, &mut last, pin).unwrap();
    epochs.pins[slot] = None;
    assert_eq!(epochs.stats(&table).reclaim_horizon, second, "the released pin lets it run on");
    assert_eq!(epochs.stats(&table).live_pins, 0);

    // A ticket holds the published epoch one below its own until it is
    // published.
    let ticket = subetha_epochs_begin(&mut table, &mut last, Ok(epochs.claim_ticket())).token.expect("a token");
    let tepoch = subetha_ticket_epoch(&table, &mut last, ticket, false).unwrap();
    assert_eq!(tepoch, second + 1);
    assert_eq!(epochs.stats(&table).now, second, "the open ticket is not published");
    assert_eq!(epochs.stats(&table).open_tickets, 1);
    let slot = subetha_ticket_publish(&mut table, &mut last, ticket).unwrap();
    epochs.tickets[slot] = None;
    assert_eq!(epochs.stats(&table).now, tepoch, "publishing let it through");
    assert_eq!(epochs.stats(&table).open_tickets, 0);
    let dead = subetha_epochs_dead_tickets(&mut last, &[], false, &mut [], false);
    assert_eq!(dead, Ok(0), "this process is alive");

    // A token is good once: the second release is refused rather than
    // freeing a pin slot another scan may have taken.
    let mut pins = HoldTable::bounded(4);
    let token = pins.claim(0).expect("a pin slot");
    assert!(pins.release(token).is_ok());
    assert!(pins.release(token).is_err(), "a token spends once");
    assert!(subetha_pin_release(&mut table, &mut last, pin).is_err(), "a token spends once");
}
