//! Every error of every family, the code it maps to and the detail it leaves.

use subetha_ffi::error::{
    adaptive_code, arc_code, arena_code, atomic_code, barrier_code, blocking_code, broadcast_capacity_code,
    broadcast_code, btree_code, capacity_code, cell_code, condvar_code, deque_code, epochs_code,
    fence_clock_code, heartbeat_code, holders_code, holders_region_code, io_code, last_holder_code,
    leader_code, lease_code, list_code, map_code, notify_code, once_code, pubsub_capacity_code, region_code,
    ring_code, rwlock_code, semaphore_code, set_detail, slab_code, stack_code, vec_code, waker_code,
    AdaptiveError, ArcError, ArenaError, BTreeError, BarrierError, BlockingError, BroadcastCapacityMorphError,
    BroadcastError, CapacityMorphError, CondvarError, DequeError, EpochError, FenceClockError, HeartbeatError,
    HoldersError, IoFailure, LastError, LastHolderError, LeaderError, LeaseError, LinkedListError, MapError,
    NotifyError, PubSubCapacityMorphError, RWLockError, RegionError, RingError, SemaphoreError,
    SharedAtomicError, SharedCellError, SharedHolderError, SharedOnceError, SlabError, StackError, VecError,
    WakerError, SUBETHA_E_ARC_HOLDERS_EXHAUSTED, SUBETHA_E_ARENA_FULL, SUBETHA_E_ARENA_INVALID_REF,
    SUBETHA_E_BARRIER_EPOCH_PASSED, SUBETHA_E_BARRIER_NO_LIVE_PEERS, SUBETHA_E_BROADCAST_INVALID_CONSUMER,
    SUBETHA_E_BROADCAST_NO_CONSUMER_SLOT, SUBETHA_E_EPOCHS_PINS_EXHAUSTED, SUBETHA_E_EPOCHS_TICKETS_EXHAUSTED,
    SUBETHA_E_FENCE_CLOCK_FULL, SUBETHA_E_INVALID_ARGUMENT, SUBETHA_E_INVALID_HANDLE, SUBETHA_E_INVALID_UTF8,
    SUBETHA_E_MAP_FULL, SUBETHA_E_MAP_KEY_ABSENT, SUBETHA_E_NOT_OWNER, SUBETHA_E_OUT_OF_BOUNDS,
    SUBETHA_E_READ_ONLY, SUBETHA_E_RING_EMPTY, SUBETHA_E_RING_FULL, SUBETHA_E_RING_GROWTH_FAILED,
    SUBETHA_E_RING_IO, SUBETHA_E_RING_LAYOUT_MISMATCH, SUBETHA_E_RING_NOT_DRAINER, SUBETHA_E_RING_NOT_STAMPED,
    SUBETHA_E_RING_PAYLOAD_TOO_LARGE, SUBETHA_E_RING_STALE_BACKLOG, SUBETHA_E_RING_TOO_MANY_CONSUMERS,
    SUBETHA_E_RING_TOO_MANY_PRODUCERS, SUBETHA_E_RING_WAKER_FULL, SUBETHA_E_RING_WAKER_LAYOUT,
    SUBETHA_E_TIMEOUT, SUBETHA_E_WOULD_BLOCK, SUBETHA_E_WRONG_KIND,
};
use subetha_ffi::graph::RawGraphError;
use subetha_ffi::histogram::HistogramError;
use subetha_ffi::hyper_log_log::HLLError;
use subetha_ffi::k_tower::RawTowerError;
use subetha_ffi::laned_map::LanedError;
use subetha_ffi::lru_cache::RawLruError;
use subetha_ffi::quic_bridge::QuicBridgeError;
use subetha_ffi::rate_limiter::RateLimiterError;
use subetha_ffi::{graph, histogram, hyper_log_log, k_tower, laned_map, lru_cache, quic_bridge, rate_limiter};

#[test]
fn the_codes_of_ring_errors() {
    let mut last = LastError::new();
    set_detail(&mut last, "before");
    assert_eq!(ring_code(&mut last, RingError::Full), SUBETHA_E_RING_FULL);
    assert_eq!(last.detail(), "before");
    set_detail(&mut last, "before");
    assert_eq!(ring_code(&mut last, RingError::Empty), SUBETHA_E_RING_EMPTY);
    assert_eq!(last.detail(), "before");
    set_detail(&mut last, "before");
    assert_eq!(ring_code(&mut last, RingError::LayoutMismatch), SUBETHA_E_RING_LAYOUT_MISMATCH);
    assert_eq!(last.detail(), "before");
    set_detail(&mut last, "before");
    assert_eq!(ring_code(&mut last, RingError::PayloadTooLarge), SUBETHA_E_RING_PAYLOAD_TOO_LARGE);
    assert_eq!(last.detail(), "before");
    set_detail(&mut last, "before");
    assert_eq!(ring_code(&mut last, RingError::NotStamped), SUBETHA_E_RING_NOT_STAMPED);
    assert_eq!(last.detail(), "before");
    set_detail(&mut last, "before");
    assert_eq!(ring_code(&mut last, RingError::NotDrainer), SUBETHA_E_RING_NOT_DRAINER);
    assert_eq!(last.detail(), "before");
    set_detail(&mut last, "before");
    assert_eq!(ring_code(&mut last, RingError::StaleBacklog), SUBETHA_E_RING_STALE_BACKLOG);
    assert_eq!(last.detail(), "before");
    assert_eq!(ring_code(&mut last, RingError::IoError(String::from("NotFound"))), SUBETHA_E_RING_IO);
    assert_eq!(last.detail(), "io error: NotFound");
}

#[test]
fn the_codes_of_notify_errors() {
    let mut last = LastError::new();
    assert_eq!(notify_code(&mut last, NotifyError::Io(String::from("NotFound"), String::from("said said"))), SUBETHA_E_RING_IO);
    assert_eq!(last.detail(), "notifier io error: NotFound: said said");
    assert_eq!(notify_code(&mut last, NotifyError::LayoutMismatch), SUBETHA_E_RING_LAYOUT_MISMATCH);
    assert_eq!(last.detail(), "a notifier record exists with another layout");
}

#[test]
fn the_codes_of_holders_region_errors() {
    let mut last = LastError::new();
    assert_eq!(holders_region_code(&mut last, HoldersError::Exhausted), SUBETHA_E_RING_FULL);
    assert_eq!(last.detail(), "every holder slot on this ring is held by a live process");
    assert_eq!(holders_region_code(&mut last, HoldersError::LayoutMismatch), SUBETHA_E_RING_LAYOUT_MISMATCH);
    assert_eq!(last.detail(), "the holders region beside this ring was built for a different max_holders");
    assert_eq!(holders_region_code(&mut last, HoldersError::IoError(String::from("NotFound"))), SUBETHA_E_RING_IO);
    assert_eq!(last.detail(), "holders region io error: NotFound");
}

#[test]
fn the_codes_of_last_holder_errors() {
    let mut last = LastError::new();
    assert_eq!(last_holder_code(&mut last, LastHolderError::NoBackingFiles), SUBETHA_E_INVALID_ARGUMENT);
    assert_eq!(last.detail(), "an anonymous ring has no backing files for a last holder to remove");
    assert_eq!(last_holder_code(&mut last, LastHolderError::ShmNotSupported), SUBETHA_E_INVALID_ARGUMENT);
    assert_eq!(last.detail(), "a shared-memory ring does not carry a holder table");
    let beneath = holders_region_code(&mut last, HoldersError::Exhausted);
    assert_eq!(last_holder_code(&mut last, LastHolderError::Region(HoldersError::Exhausted)), beneath);
}

#[test]
fn the_codes_of_map_errors() {
    let mut last = LastError::new();
    set_detail(&mut last, "before");
    assert_eq!(map_code(&mut last, MapError::Full), SUBETHA_E_MAP_FULL);
    assert_eq!(last.detail(), "before");
    assert_eq!(map_code(&mut last, MapError::PayloadTooLarge), SUBETHA_E_INVALID_ARGUMENT);
    assert_eq!(last.detail(), "a key or value is not its declared size, or the sizes exceed one entry");
    set_detail(&mut last, "before");
    assert_eq!(map_code(&mut last, MapError::LayoutMismatch), SUBETHA_E_RING_LAYOUT_MISMATCH);
    assert_eq!(last.detail(), "before");
    set_detail(&mut last, "before");
    assert_eq!(map_code(&mut last, MapError::KeyAbsent), SUBETHA_E_MAP_KEY_ABSENT);
    assert_eq!(last.detail(), "before");
    assert_eq!(map_code(&mut last, MapError::IoError(String::from("NotFound"))), SUBETHA_E_RING_IO);
    assert_eq!(last.detail(), "io error: NotFound");
}

#[test]
fn the_codes_of_arena_errors() {
    let mut last = LastError::new();
    set_detail(&mut last, "before");
    assert_eq!(arena_code(&mut last, ArenaError::Full), SUBETHA_E_ARENA_FULL);
    assert_eq!(last.detail(), "before");
    set_detail(&mut last, "before");
    assert_eq!(arena_code(&mut last, ArenaError::InvalidRef), SUBETHA_E_ARENA_INVALID_REF);
    assert_eq!(last.detail(), "before");
    assert_eq!(arena_code(&mut last, ArenaError::InvalidUtf8), SUBETHA_E_INVALID_UTF8);
    assert_eq!(last.detail(), "the value is not UTF-8");
    set_detail(&mut last, "before");
    assert_eq!(arena_code(&mut last, ArenaError::LayoutMismatch), SUBETHA_E_RING_LAYOUT_MISMATCH);
    assert_eq!(last.detail(), "before");
    assert_eq!(arena_code(&mut last, ArenaError::ReadOnly), SUBETHA_E_READ_ONLY);
    assert_eq!(last.detail(), "the arena was opened read-only");
    assert_eq!(arena_code(&mut last, ArenaError::IoError(String::from("NotFound"))), SUBETHA_E_RING_IO);
    assert_eq!(last.detail(), "io error: NotFound");
}

#[test]
fn the_codes_of_holders_errors() {
    let mut last = LastError::new();
    set_detail(&mut last, "before");
    assert_eq!(holders_code(&mut last, SharedHolderError::LayoutMismatch), SUBETHA_E_RING_LAYOUT_MISMATCH);
    assert_eq!(last.detail(), "before");
    assert_eq!(holders_code(&mut last, SharedHolderError::EmptyCapacity), SUBETHA_E_INVALID_ARGUMENT);
    assert_eq!(last.detail(), "a capacity of zero has no slot to claim");
    assert_eq!(holders_code(&mut last, SharedHolderError::IoError(String::from("NotFound"))), SUBETHA_E_RING_IO);
    assert_eq!(last.detail(), "io error: NotFound");
}

#[test]
fn the_codes_of_heartbeat_errors() {
    let mut last = LastError::new();
    assert_eq!(heartbeat_code(&mut last, HeartbeatError::TableFull), SUBETHA_E_RING_FULL);
    assert_eq!(last.detail(), "every slot in the table is held");
    set_detail(&mut last, "before");
    assert_eq!(heartbeat_code(&mut last, HeartbeatError::LayoutMismatch), SUBETHA_E_RING_LAYOUT_MISMATCH);
    assert_eq!(last.detail(), "before");
    assert_eq!(heartbeat_code(&mut last, HeartbeatError::IoError(String::from("NotFound"))), SUBETHA_E_RING_IO);
    assert_eq!(last.detail(), "io error: NotFound");
}

#[test]
fn the_codes_of_leader_errors() {
    let mut last = LastError::new();
    set_detail(&mut last, "before");
    assert_eq!(leader_code(&mut last, LeaderError::LayoutMismatch), SUBETHA_E_RING_LAYOUT_MISMATCH);
    assert_eq!(last.detail(), "before");
    assert_eq!(leader_code(&mut last, LeaderError::IoError(String::from("NotFound"))), SUBETHA_E_RING_IO);
    assert_eq!(last.detail(), "io error: NotFound");
}

#[test]
fn the_codes_of_lease_errors() {
    let mut last = LastError::new();
    set_detail(&mut last, "before");
    assert_eq!(lease_code(&mut last, LeaseError::LayoutMismatch), SUBETHA_E_RING_LAYOUT_MISMATCH);
    assert_eq!(last.detail(), "before");
    set_detail(&mut last, "before");
    assert_eq!(lease_code(&mut last, LeaseError::PayloadTooLarge), SUBETHA_E_RING_PAYLOAD_TOO_LARGE);
    assert_eq!(last.detail(), "before");
    set_detail(&mut last, "before");
    assert_eq!(lease_code(&mut last, LeaseError::NotOwner), SUBETHA_E_NOT_OWNER);
    assert_eq!(last.detail(), "before");
    set_detail(&mut last, "before");
    assert_eq!(lease_code(&mut last, LeaseError::Contention), SUBETHA_E_WOULD_BLOCK);
    assert_eq!(last.detail(), "before");
    assert_eq!(lease_code(&mut last, LeaseError::IoError(String::from("NotFound"))), SUBETHA_E_RING_IO);
    assert_eq!(last.detail(), "io error: NotFound");
}

#[test]
fn the_codes_of_condvar_errors() {
    let mut last = LastError::new();
    set_detail(&mut last, "before");
    assert_eq!(condvar_code(&mut last, CondvarError::WakerFull), SUBETHA_E_RING_WAKER_FULL);
    assert_eq!(last.detail(), "before");
    set_detail(&mut last, "before");
    assert_eq!(condvar_code(&mut last, CondvarError::Timeout), SUBETHA_E_TIMEOUT);
    assert_eq!(last.detail(), "before");
    set_detail(&mut last, "before");
    assert_eq!(condvar_code(&mut last, CondvarError::LayoutMismatch), SUBETHA_E_RING_LAYOUT_MISMATCH);
    assert_eq!(last.detail(), "before");
    assert_eq!(condvar_code(&mut last, CondvarError::Io(String::from("NotFound"))), SUBETHA_E_RING_IO);
    assert_eq!(last.detail(), "io error: NotFound");
}

#[test]
fn the_codes_of_atomic_errors() {
    let mut last = LastError::new();
    set_detail(&mut last, "before");
    assert_eq!(atomic_code(&mut last, SharedAtomicError::LayoutMismatch), SUBETHA_E_RING_LAYOUT_MISMATCH);
    assert_eq!(last.detail(), "before");
    assert_eq!(atomic_code(&mut last, SharedAtomicError::IoError(String::from("NotFound"))), SUBETHA_E_RING_IO);
    assert_eq!(last.detail(), "io error: NotFound");
}

#[test]
fn the_codes_of_semaphore_errors() {
    let mut last = LastError::new();
    set_detail(&mut last, "before");
    assert_eq!(semaphore_code(&mut last, SemaphoreError::WouldBlock), SUBETHA_E_WOULD_BLOCK);
    assert_eq!(last.detail(), "before");
    set_detail(&mut last, "before");
    assert_eq!(semaphore_code(&mut last, SemaphoreError::Timeout), SUBETHA_E_TIMEOUT);
    assert_eq!(last.detail(), "before");
    assert_eq!(semaphore_code(&mut last, SemaphoreError::ReleaseOverflow), SUBETHA_E_INVALID_ARGUMENT);
    assert_eq!(last.detail(), "the release pushed the count past max_permits");
    let beneath = atomic_code(&mut last, SharedAtomicError::LayoutMismatch);
    assert_eq!(semaphore_code(&mut last, SemaphoreError::Atomic(SharedAtomicError::LayoutMismatch)), beneath);
}

#[test]
fn the_codes_of_rwlock_errors() {
    let mut last = LastError::new();
    set_detail(&mut last, "before");
    assert_eq!(rwlock_code(&mut last, RWLockError::WouldBlock), SUBETHA_E_WOULD_BLOCK);
    assert_eq!(last.detail(), "before");
    set_detail(&mut last, "before");
    assert_eq!(rwlock_code(&mut last, RWLockError::LayoutMismatch), SUBETHA_E_RING_LAYOUT_MISMATCH);
    assert_eq!(last.detail(), "before");
    assert_eq!(rwlock_code(&mut last, RWLockError::IoError(String::from("NotFound"))), SUBETHA_E_RING_IO);
    assert_eq!(last.detail(), "io error: NotFound");
}

#[test]
fn the_codes_of_fence_clock_errors() {
    let mut last = LastError::new();
    set_detail(&mut last, "before");
    assert_eq!(fence_clock_code(&mut last, FenceClockError::Full), SUBETHA_E_FENCE_CLOCK_FULL);
    assert_eq!(last.detail(), "before");
    set_detail(&mut last, "before");
    assert_eq!(fence_clock_code(&mut last, FenceClockError::LayoutMismatch), SUBETHA_E_RING_LAYOUT_MISMATCH);
    assert_eq!(last.detail(), "before");
    assert_eq!(fence_clock_code(&mut last, FenceClockError::InvalidSlot), SUBETHA_E_INVALID_ARGUMENT);
    assert_eq!(last.detail(), "the slot is not one this clock holds");
    assert_eq!(fence_clock_code(&mut last, FenceClockError::IoError(String::from("NotFound"))), SUBETHA_E_RING_IO);
    assert_eq!(last.detail(), "io error: NotFound");
}

#[test]
fn the_codes_of_epochs_errors() {
    let mut last = LastError::new();
    set_detail(&mut last, "before");
    assert_eq!(epochs_code(&mut last, EpochError::PinsExhausted), SUBETHA_E_EPOCHS_PINS_EXHAUSTED);
    assert_eq!(last.detail(), "before");
    set_detail(&mut last, "before");
    assert_eq!(epochs_code(&mut last, EpochError::TicketsExhausted), SUBETHA_E_EPOCHS_TICKETS_EXHAUSTED);
    assert_eq!(last.detail(), "before");
    set_detail(&mut last, "before");
    assert_eq!(epochs_code(&mut last, EpochError::LayoutMismatch), SUBETHA_E_RING_LAYOUT_MISMATCH);
    assert_eq!(last.detail(), "before");
    assert_eq!(epochs_code(&mut last, EpochError::IoError(String::from("NotFound"))), SUBETHA_E_RING_IO);
    assert_eq!(last.detail(), "io error: NotFound");
}

#[test]
fn the_codes_of_cell_errors() {
    let mut last = LastError::new();
    set_detail(&mut last, "before");
    assert_eq!(cell_code(&mut last, SharedCellError::LayoutMismatch), SUBETHA_E_RING_LAYOUT_MISMATCH);
    assert_eq!(last.detail(), "before");
    set_detail(&mut last, "before");
    assert_eq!(cell_code(&mut last, SharedCellError::PayloadTooLarge), SUBETHA_E_RING_PAYLOAD_TOO_LARGE);
    assert_eq!(last.detail(), "before");
    assert_eq!(cell_code(&mut last, SharedCellError::NotInitialized), SUBETHA_E_INVALID_HANDLE);
    assert_eq!(last.detail(), "the cell holds no value yet");
    assert_eq!(cell_code(&mut last, SharedCellError::IoError(String::from("NotFound"))), SUBETHA_E_RING_IO);
    assert_eq!(last.detail(), "io error: NotFound");
}

#[test]
fn the_codes_of_btree_errors() {
    let mut last = LastError::new();
    assert_eq!(btree_code(&mut last, BTreeError::Full), SUBETHA_E_RING_FULL);
    assert_eq!(last.detail(), "the map has no node for the split this insert needs");
    set_detail(&mut last, "before");
    assert_eq!(btree_code(&mut last, BTreeError::LayoutMismatch), SUBETHA_E_RING_LAYOUT_MISMATCH);
    assert_eq!(last.detail(), "before");
    assert_eq!(btree_code(&mut last, BTreeError::InvalidConfig), SUBETHA_E_INVALID_ARGUMENT);
    assert_eq!(last.detail(), "a key or value is not its declared size, or the capacity is zero");
    assert_eq!(btree_code(&mut last, BTreeError::IoError(String::from("NotFound"))), SUBETHA_E_RING_IO);
    assert_eq!(last.detail(), "io error: NotFound");
}

#[test]
fn the_codes_of_region_errors() {
    let mut last = LastError::new();
    set_detail(&mut last, "before");
    assert_eq!(region_code(&mut last, RegionError::Full), SUBETHA_E_RING_FULL);
    assert_eq!(last.detail(), "before");
    set_detail(&mut last, "before");
    assert_eq!(region_code(&mut last, RegionError::InvalidPtr), SUBETHA_E_OUT_OF_BOUNDS);
    assert_eq!(last.detail(), "before");
    assert_eq!(region_code(&mut last, RegionError::PayloadTooLarge), SUBETHA_E_INVALID_ARGUMENT);
    assert_eq!(last.detail(), "the bytes are not the element size");
    set_detail(&mut last, "before");
    assert_eq!(region_code(&mut last, RegionError::LayoutMismatch), SUBETHA_E_RING_LAYOUT_MISMATCH);
    assert_eq!(last.detail(), "before");
    assert_eq!(region_code(&mut last, RegionError::IoError(String::from("NotFound"))), SUBETHA_E_RING_IO);
    assert_eq!(last.detail(), "io error: NotFound");
}

#[test]
fn the_codes_of_list_errors() {
    let mut last = LastError::new();
    let beneath = region_code(&mut last, RegionError::Full);
    assert_eq!(list_code(&mut last, LinkedListError::Region(RegionError::Full)), beneath);
    assert_eq!(list_code(&mut last, LinkedListError::InvalidHandle), SUBETHA_E_OUT_OF_BOUNDS);
    assert_eq!(last.detail(), "the index names no node of this list");
    set_detail(&mut last, "before");
    assert_eq!(list_code(&mut last, LinkedListError::LayoutMismatch), SUBETHA_E_RING_LAYOUT_MISMATCH);
    assert_eq!(last.detail(), "before");
    assert_eq!(list_code(&mut last, LinkedListError::IoError(String::from("NotFound"))), SUBETHA_E_RING_IO);
    assert_eq!(last.detail(), "io error: NotFound");
}

#[test]
fn the_codes_of_once_errors() {
    let mut last = LastError::new();
    set_detail(&mut last, "before");
    assert_eq!(once_code(&mut last, SharedOnceError::LayoutMismatch), SUBETHA_E_RING_LAYOUT_MISMATCH);
    assert_eq!(last.detail(), "before");
    assert_eq!(once_code(&mut last, SharedOnceError::PayloadTooLarge), SUBETHA_E_INVALID_ARGUMENT);
    assert_eq!(last.detail(), "value_bytes is zero or past what a lazy value holds");
    assert_eq!(once_code(&mut last, SharedOnceError::IoError(String::from("NotFound"))), SUBETHA_E_RING_IO);
    assert_eq!(last.detail(), "io error: NotFound");
}

#[test]
fn the_codes_of_arc_errors() {
    let mut last = LastError::new();
    set_detail(&mut last, "before");
    assert_eq!(arc_code(&mut last, ArcError::HoldersExhausted), SUBETHA_E_ARC_HOLDERS_EXHAUSTED);
    assert_eq!(last.detail(), "before");
    set_detail(&mut last, "before");
    assert_eq!(arc_code(&mut last, ArcError::LayoutMismatch), SUBETHA_E_RING_LAYOUT_MISMATCH);
    assert_eq!(last.detail(), "before");
    assert_eq!(arc_code(&mut last, ArcError::IoError(String::from("NotFound"))), SUBETHA_E_RING_IO);
    assert_eq!(last.detail(), "io error: NotFound");
}

#[test]
fn the_codes_of_barrier_errors() {
    let mut last = LastError::new();
    let beneath = atomic_code(&mut last, SharedAtomicError::LayoutMismatch);
    assert_eq!(barrier_code(&mut last, BarrierError::Atomic(SharedAtomicError::LayoutMismatch)), beneath);
    set_detail(&mut last, "before");
    assert_eq!(barrier_code(&mut last, BarrierError::EpochTooFarBehind), SUBETHA_E_BARRIER_EPOCH_PASSED);
    assert_eq!(last.detail(), "before");
    set_detail(&mut last, "before");
    assert_eq!(barrier_code(&mut last, BarrierError::Timeout), SUBETHA_E_TIMEOUT);
    assert_eq!(last.detail(), "before");
    set_detail(&mut last, "before");
    assert_eq!(barrier_code(&mut last, BarrierError::NoLivePeers), SUBETHA_E_BARRIER_NO_LIVE_PEERS);
    assert_eq!(last.detail(), "before");
}

#[test]
fn the_codes_of_vec_errors() {
    let mut last = LastError::new();
    set_detail(&mut last, "before");
    assert_eq!(vec_code(&mut last, VecError::Full), SUBETHA_E_RING_FULL);
    assert_eq!(last.detail(), "before");
    set_detail(&mut last, "before");
    assert_eq!(vec_code(&mut last, VecError::OutOfBounds), SUBETHA_E_OUT_OF_BOUNDS);
    assert_eq!(last.detail(), "before");
    set_detail(&mut last, "before");
    assert_eq!(vec_code(&mut last, VecError::LayoutMismatch), SUBETHA_E_RING_LAYOUT_MISMATCH);
    assert_eq!(last.detail(), "before");
    assert_eq!(vec_code(&mut last, VecError::PayloadTooLarge), SUBETHA_E_INVALID_ARGUMENT);
    assert_eq!(last.detail(), "the bytes are not the element size");
    assert_eq!(vec_code(&mut last, VecError::ReadOnly), SUBETHA_E_READ_ONLY);
    assert_eq!(last.detail(), "the vec was opened read-only");
    assert_eq!(vec_code(&mut last, VecError::IoError(String::from("NotFound"))), SUBETHA_E_RING_IO);
    assert_eq!(last.detail(), "io error: NotFound");
}

#[test]
fn the_codes_of_slab_errors() {
    let mut last = LastError::new();
    set_detail(&mut last, "before");
    assert_eq!(slab_code(&mut last, SlabError::OutOfBounds), SUBETHA_E_OUT_OF_BOUNDS);
    assert_eq!(last.detail(), "before");
    set_detail(&mut last, "before");
    assert_eq!(slab_code(&mut last, SlabError::LayoutMismatch), SUBETHA_E_RING_LAYOUT_MISMATCH);
    assert_eq!(last.detail(), "before");
    assert_eq!(slab_code(&mut last, SlabError::ReadOnly), SUBETHA_E_READ_ONLY);
    assert_eq!(last.detail(), "the slab was opened read-only");
    assert_eq!(slab_code(&mut last, SlabError::PayloadTooLarge), SUBETHA_E_INVALID_ARGUMENT);
    assert_eq!(last.detail(), "the bytes are not the record size");
    assert_eq!(slab_code(&mut last, SlabError::IoError(String::from("NotFound"))), SUBETHA_E_RING_IO);
    assert_eq!(last.detail(), "io error: NotFound");
}

#[test]
fn the_codes_of_stack_errors() {
    let mut last = LastError::new();
    set_detail(&mut last, "before");
    assert_eq!(stack_code(&mut last, StackError::Full), SUBETHA_E_RING_FULL);
    assert_eq!(last.detail(), "before");
    set_detail(&mut last, "before");
    assert_eq!(stack_code(&mut last, StackError::LayoutMismatch), SUBETHA_E_RING_LAYOUT_MISMATCH);
    assert_eq!(last.detail(), "before");
    assert_eq!(stack_code(&mut last, StackError::IoError(String::from("NotFound"))), SUBETHA_E_RING_IO);
    assert_eq!(last.detail(), "io error: NotFound");
}

#[test]
fn the_codes_of_deque_errors() {
    let mut last = LastError::new();
    assert_eq!(deque_code(&mut last, DequeError::Io(String::from("said said"))), SUBETHA_E_RING_IO);
    assert_eq!(last.detail(), "io error: said said");
    assert_eq!(deque_code(&mut last, DequeError::InvalidCapacity), SUBETHA_E_INVALID_ARGUMENT);
    assert_eq!(last.detail(), "the capacity is not a power of two of at least 1, or the layout is empty or misaligned");
    assert_eq!(deque_code(&mut last, DequeError::InvalidMagic), SUBETHA_E_RING_LAYOUT_MISMATCH);
    assert_eq!(last.detail(), "the file is not a deque with this layout");
    assert_eq!(deque_code(&mut last, DequeError::CapacityMismatch { file_capacity: 70, requested: 71 }), SUBETHA_E_RING_LAYOUT_MISMATCH);
    assert_eq!(last.detail(), "the deque holds 70 slots, not 71");
    assert_eq!(deque_code(&mut last, DequeError::SlotBytesMismatch { file_slot_bytes: 70, type_slot_bytes: 71 }), SUBETHA_E_RING_LAYOUT_MISMATCH);
    assert_eq!(last.detail(), "the deque's slots are 70 bytes, not 71");
    set_detail(&mut last, "before");
    assert_eq!(deque_code(&mut last, DequeError::Full), SUBETHA_E_RING_FULL);
    assert_eq!(last.detail(), "before");
    assert_eq!(deque_code(&mut last, DequeError::Marshal(String::from("said said"))), SUBETHA_E_RING_PAYLOAD_TOO_LARGE);
    assert_eq!(last.detail(), "said said");
}

#[test]
fn the_codes_of_adaptive_errors() {
    let mut last = LastError::new();
    set_detail(&mut last, "before");
    assert_eq!(adaptive_code(&mut last, AdaptiveError::TooManyProducers), SUBETHA_E_RING_TOO_MANY_PRODUCERS);
    assert_eq!(last.detail(), "before");
    set_detail(&mut last, "before");
    assert_eq!(adaptive_code(&mut last, AdaptiveError::TooManyConsumers), SUBETHA_E_RING_TOO_MANY_CONSUMERS);
    assert_eq!(last.detail(), "before");
    set_detail(&mut last, "before");
    assert_eq!(adaptive_code(&mut last, AdaptiveError::GrowthFailed), SUBETHA_E_RING_GROWTH_FAILED);
    assert_eq!(last.detail(), "before");
}

#[test]
fn the_codes_of_broadcast_errors() {
    let mut last = LastError::new();
    set_detail(&mut last, "before");
    assert_eq!(broadcast_code(&mut last, BroadcastError::Full), SUBETHA_E_RING_FULL);
    assert_eq!(last.detail(), "before");
    set_detail(&mut last, "before");
    assert_eq!(broadcast_code(&mut last, BroadcastError::Empty), SUBETHA_E_RING_EMPTY);
    assert_eq!(last.detail(), "before");
    set_detail(&mut last, "before");
    assert_eq!(broadcast_code(&mut last, BroadcastError::NoConsumerSlot), SUBETHA_E_BROADCAST_NO_CONSUMER_SLOT);
    assert_eq!(last.detail(), "before");
    set_detail(&mut last, "before");
    assert_eq!(broadcast_code(&mut last, BroadcastError::InvalidConsumer), SUBETHA_E_BROADCAST_INVALID_CONSUMER);
    assert_eq!(last.detail(), "before");
    set_detail(&mut last, "before");
    assert_eq!(broadcast_code(&mut last, BroadcastError::PayloadTooLarge), SUBETHA_E_RING_PAYLOAD_TOO_LARGE);
    assert_eq!(last.detail(), "before");
    set_detail(&mut last, "before");
    assert_eq!(broadcast_code(&mut last, BroadcastError::LayoutMismatch), SUBETHA_E_RING_LAYOUT_MISMATCH);
    assert_eq!(last.detail(), "before");
    assert_eq!(broadcast_code(&mut last, BroadcastError::IoError(String::from("NotFound"))), SUBETHA_E_RING_IO);
    assert_eq!(last.detail(), "io error: NotFound");
}

#[test]
fn the_codes_of_capacity_errors() {
    let mut last = LastError::new();
    assert_eq!(capacity_code(&mut last, CapacityMorphError::InvalidCapacity), SUBETHA_E_INVALID_ARGUMENT);
    assert_eq!(last.detail(), "the capacity is not a power of two of at least 2");
    assert_eq!(capacity_code(&mut last, CapacityMorphError::CannotShrinkInFlight { in_flight: 70, new_capacity: 71 }), SUBETHA_E_RING_STALE_BACKLOG);
    assert_eq!(last.detail(), "70 items in flight exceed the new capacity 71");
    let beneath = ring_code(&mut last, RingError::Full);
    assert_eq!(capacity_code(&mut last, CapacityMorphError::Ring(RingError::Full)), beneath);
    let beneath = adaptive_code(&mut last, AdaptiveError::TooManyProducers);
    assert_eq!(capacity_code(&mut last, CapacityMorphError::Adaptive(AdaptiveError::TooManyProducers)), beneath);
}

#[test]
fn the_codes_of_broadcast_capacity_errors() {
    let mut last = LastError::new();
    assert_eq!(broadcast_capacity_code(&mut last, BroadcastCapacityMorphError::InvalidCapacity), SUBETHA_E_INVALID_ARGUMENT);
    assert_eq!(last.detail(), "the capacity is not a power of two of at least 2");
    let beneath = broadcast_code(&mut last, BroadcastError::Full);
    assert_eq!(broadcast_capacity_code(&mut last, BroadcastCapacityMorphError::Broadcast(BroadcastError::Full)), beneath);
    let beneath = io_code(&mut last, IoFailure { invalid_data: true, kind: String::from("InvalidData"), said: String::from("bad magic") });
    assert_eq!(broadcast_capacity_code(&mut last, BroadcastCapacityMorphError::Io(IoFailure { invalid_data: true, kind: String::from("InvalidData"), said: String::from("bad magic") })), beneath);
}

#[test]
fn the_codes_of_pubsub_capacity_errors() {
    let mut last = LastError::new();
    assert_eq!(pubsub_capacity_code(&mut last, PubSubCapacityMorphError::InvalidCapacity), SUBETHA_E_INVALID_ARGUMENT);
    assert_eq!(last.detail(), "the capacity is not a power of two of at least 2");
    let beneath = io_code(&mut last, IoFailure { invalid_data: true, kind: String::from("InvalidData"), said: String::from("bad magic") });
    assert_eq!(pubsub_capacity_code(&mut last, PubSubCapacityMorphError::Io(IoFailure { invalid_data: true, kind: String::from("InvalidData"), said: String::from("bad magic") })), beneath);
}

#[test]
fn the_codes_of_blocking_errors() {
    let mut last = LastError::new();
    let beneath = ring_code(&mut last, RingError::Full);
    assert_eq!(blocking_code(&mut last, BlockingError::Ring(RingError::Full)), beneath);
    set_detail(&mut last, "before");
    assert_eq!(blocking_code(&mut last, BlockingError::WakerFull), SUBETHA_E_RING_WAKER_FULL);
    assert_eq!(last.detail(), "before");
    set_detail(&mut last, "before");
    assert_eq!(blocking_code(&mut last, BlockingError::Timeout), SUBETHA_E_TIMEOUT);
    assert_eq!(last.detail(), "before");
    set_detail(&mut last, "before");
    assert_eq!(blocking_code(&mut last, BlockingError::WakerLayout), SUBETHA_E_RING_WAKER_LAYOUT);
    assert_eq!(last.detail(), "before");
    assert_eq!(blocking_code(&mut last, BlockingError::Io(String::from("NotFound"))), SUBETHA_E_RING_IO);
    assert_eq!(last.detail(), "io error: NotFound");
}

#[test]
fn the_codes_of_waker_errors() {
    let mut last = LastError::new();
    set_detail(&mut last, "before");
    assert_eq!(waker_code(&mut last, WakerError::Full), SUBETHA_E_RING_WAKER_FULL);
    assert_eq!(last.detail(), "before");
    set_detail(&mut last, "before");
    assert_eq!(waker_code(&mut last, WakerError::Timeout), SUBETHA_E_TIMEOUT);
    assert_eq!(last.detail(), "before");
    set_detail(&mut last, "before");
    assert_eq!(waker_code(&mut last, WakerError::LayoutMismatch), SUBETHA_E_RING_WAKER_LAYOUT);
    assert_eq!(last.detail(), "before");
    assert_eq!(waker_code(&mut last, WakerError::IoError(String::from("NotFound"))), SUBETHA_E_RING_IO);
    assert_eq!(last.detail(), "waker io error: NotFound");
}

#[test]
fn the_codes_of_histogram_errors() {
    let mut last = LastError::new();
    assert_eq!(histogram::code_for(&mut last, HistogramError::EmptyBoundaries), SUBETHA_E_INVALID_ARGUMENT);
    assert_eq!(last.detail(), "the boundaries are empty");
    assert_eq!(histogram::code_for(&mut last, HistogramError::NonMonotonicBoundaries), SUBETHA_E_INVALID_ARGUMENT);
    assert_eq!(last.detail(), "the boundaries do not ascend");
    assert_eq!(histogram::code_for(&mut last, HistogramError::OutOfBounds), SUBETHA_E_INVALID_ARGUMENT);
    assert_eq!(last.detail(), "that bucket index is past the last bucket");
    assert_eq!(histogram::code_for(&mut last, HistogramError::LayoutMismatch), SUBETHA_E_RING_LAYOUT_MISMATCH);
    assert_eq!(last.detail(), "the histogram on disk was built with other boundaries");
    assert_eq!(histogram::code_for(&mut last, HistogramError::IoError(String::from("NotFound"))), SUBETHA_E_RING_IO);
    assert_eq!(last.detail(), "io error: NotFound");
}

#[test]
fn the_codes_of_rate_limiter_errors() {
    let mut last = LastError::new();
    assert_eq!(rate_limiter::code_for(&mut last, RateLimiterError::InsufficientTokens { available: 70, requested: 71 }), SUBETHA_E_WOULD_BLOCK);
    assert_eq!(last.detail(), "71 token(s) requested with 70 available");
    set_detail(&mut last, "before");
    assert_eq!(rate_limiter::code_for(&mut last, RateLimiterError::Timeout), SUBETHA_E_TIMEOUT);
    assert_eq!(last.detail(), "before");
    assert_eq!(rate_limiter::code_for(&mut last, RateLimiterError::InvalidConfig), SUBETHA_E_INVALID_ARGUMENT);
    assert_eq!(last.detail(), "capacity and refill_rate_per_sec must both be above zero");
    assert_eq!(rate_limiter::code_for(&mut last, RateLimiterError::LayoutMismatch), SUBETHA_E_RING_LAYOUT_MISMATCH);
    assert_eq!(last.detail(), "the limiter on disk was built with another capacity or rate");
    assert_eq!(rate_limiter::code_for(&mut last, RateLimiterError::IoError(String::from("NotFound"))), SUBETHA_E_RING_IO);
    assert_eq!(last.detail(), "io error: NotFound");
}

#[test]
fn the_codes_of_hyper_log_log_errors() {
    let mut last = LastError::new();
    assert_eq!(hyper_log_log::code_for(&mut last, HLLError::InvalidPrecision), SUBETHA_E_INVALID_ARGUMENT);
    assert_eq!(last.detail(), "precision must be 4 to 16");
    assert_eq!(hyper_log_log::code_for(&mut last, HLLError::LayoutMismatch), SUBETHA_E_RING_LAYOUT_MISMATCH);
    assert_eq!(last.detail(), "the sketch on disk was built with another precision");
    assert_eq!(hyper_log_log::code_for(&mut last, HLLError::IoError(String::from("NotFound"))), SUBETHA_E_RING_IO);
    assert_eq!(last.detail(), "io error: NotFound");
}

#[test]
fn the_codes_of_k_tower_level_errors() {
    let mut last = LastError::new();
    assert_eq!(k_tower::level_code(&mut last, RegionError::Full), SUBETHA_E_MAP_FULL);
    assert_eq!(last.detail(), "a level of the tower has no free slot");
    assert_eq!(k_tower::level_code(&mut last, RegionError::InvalidPtr), SUBETHA_E_INVALID_ARGUMENT);
    assert_eq!(last.detail(), "the path names a slot that is not live");
    assert_eq!(k_tower::level_code(&mut last, RegionError::LayoutMismatch), SUBETHA_E_RING_LAYOUT_MISMATCH);
    assert_eq!(last.detail(), "a level on disk was built with a different shape");
    assert_eq!(k_tower::level_code(&mut last, RegionError::IoError(String::from("NotFound"))), SUBETHA_E_RING_IO);
    assert_eq!(last.detail(), "the tower could not be reached: NotFound");
    assert_eq!(k_tower::level_code(&mut last, RegionError::PayloadTooLarge), SUBETHA_E_RING_IO);
    assert_eq!(last.detail(), "the tower refused: PayloadTooLarge");
}

#[test]
fn the_codes_of_k_tower_errors() {
    let mut last = LastError::new();
    assert_eq!(k_tower::code_for(&mut last, RawTowerError::WrongSize { expected: 70, found: 71 }), SUBETHA_E_INVALID_ARGUMENT);
    assert_eq!(last.detail(), "this tower expects 70 here, and 71 was given");
    assert_eq!(k_tower::code_for(&mut last, RawTowerError::ZeroDepth), SUBETHA_E_INVALID_ARGUMENT);
    assert_eq!(last.detail(), "a tower needs at least one level");
    assert_eq!(k_tower::code_for(&mut last, RawTowerError::NilAtLevel(70)), SUBETHA_E_INVALID_ARGUMENT);
    assert_eq!(last.detail(), "the path holds nil at level 70");
    assert_eq!(k_tower::code_for(&mut last, RawTowerError::BrokenAtLevel(70)), SUBETHA_E_INVALID_ARGUMENT);
    assert_eq!(last.detail(), "the path no longer describes the tower from level 70 down: the slot named there does not point at the next index");
    let beneath = k_tower::level_code(&mut last, RegionError::Full);
    assert_eq!(k_tower::code_for(&mut last, RawTowerError::Region(RegionError::Full)), beneath);
}

#[test]
fn the_codes_of_laned_map_errors() {
    let mut last = LastError::new();
    assert_eq!(laned_map::code_for(&mut last, LanedError::NoFreeLane), SUBETHA_E_WOULD_BLOCK);
    assert_eq!(last.detail(), "every lane is held by another statement");
    assert_eq!(laned_map::code_for(&mut last, LanedError::LaneBusy(70)), SUBETHA_E_WOULD_BLOCK);
    assert_eq!(last.detail(), "lane 70 holds this key and another statement holds the lane");
    set_detail(&mut last, "before");
    assert_eq!(laned_map::code_for(&mut last, LanedError::KeyAbsent), SUBETHA_E_MAP_KEY_ABSENT);
    assert_eq!(last.detail(), "before");
    assert_eq!(laned_map::code_for(&mut last, LanedError::KeyInAnotherLane(70)), SUBETHA_E_WRONG_KIND);
    assert_eq!(last.detail(), "the key is in lane 70; it must be removed there");
    assert_eq!(laned_map::code_for(&mut last, LanedError::LayoutMismatch), SUBETHA_E_RING_LAYOUT_MISMATCH);
    assert_eq!(last.detail(), "the map on disk was built with another shape");
    assert_eq!(laned_map::code_for(&mut last, LanedError::Versioned(String::from("said said"))), SUBETHA_E_RING_IO);
    assert_eq!(last.detail(), "lane: said said");
    assert_eq!(laned_map::code_for(&mut last, LanedError::Epochs(String::from("said said"))), SUBETHA_E_RING_IO);
    assert_eq!(last.detail(), "epoch table: said said");
    assert_eq!(laned_map::code_for(&mut last, LanedError::Io(String::from("NotFound"))), SUBETHA_E_RING_IO);
    assert_eq!(last.detail(), "claims file: NotFound");
}

#[test]
fn the_codes_of_quic_bridge_errors() {
    let mut last = LastError::new();
    assert_eq!(quic_bridge::code_for(&mut last, QuicBridgeError::Tls(String::from("said said"))), SUBETHA_E_RING_IO);
    assert_eq!(last.detail(), "tls: said said");
    assert_eq!(quic_bridge::code_for(&mut last, QuicBridgeError::Quic(String::from("said said"))), SUBETHA_E_RING_IO);
    assert_eq!(last.detail(), "quic: said said");
    assert_eq!(quic_bridge::code_for(&mut last, QuicBridgeError::Io(String::from("NotFound"))), SUBETHA_E_RING_IO);
    assert_eq!(last.detail(), "io error: NotFound");
}

#[test]
fn the_codes_of_graph_slot_errors() {
    let mut last = LastError::new();
    assert_eq!(graph::slot_code(&mut last, RegionError::Full), SUBETHA_E_MAP_FULL);
    assert_eq!(last.detail(), "the graph has no free slot");
    assert_eq!(graph::slot_code(&mut last, RegionError::LayoutMismatch), SUBETHA_E_RING_LAYOUT_MISMATCH);
    assert_eq!(last.detail(), "the graph on disk was built with different value sizes");
    assert_eq!(graph::slot_code(&mut last, RegionError::IoError(String::from("NotFound"))), SUBETHA_E_RING_IO);
    assert_eq!(last.detail(), "the graph could not be reached: NotFound");
    assert_eq!(graph::slot_code(&mut last, RegionError::InvalidPtr), SUBETHA_E_RING_IO);
    assert_eq!(last.detail(), "the graph refused: InvalidPtr");
    assert_eq!(graph::slot_code(&mut last, RegionError::PayloadTooLarge), SUBETHA_E_RING_IO);
    assert_eq!(last.detail(), "the graph refused: PayloadTooLarge");
}

#[test]
fn the_codes_of_graph_errors() {
    let mut last = LastError::new();
    assert_eq!(graph::code_for(&mut last, RawGraphError::WrongSize { expected: 70, found: 71 }), SUBETHA_E_INVALID_ARGUMENT);
    assert_eq!(last.detail(), "this graph uses 70-byte values here, and 71 was given");
    assert_eq!(graph::code_for(&mut last, RawGraphError::InvalidNode), SUBETHA_E_INVALID_ARGUMENT);
    assert_eq!(last.detail(), "that index names no live node");
    assert_eq!(graph::code_for(&mut last, RawGraphError::InvalidEdge), SUBETHA_E_INVALID_ARGUMENT);
    assert_eq!(last.detail(), "that index names no live edge on this node");
    let beneath = graph::slot_code(&mut last, RegionError::Full);
    assert_eq!(graph::code_for(&mut last, RawGraphError::Region(RegionError::Full)), beneath);
}

#[test]
fn the_codes_of_lru_cache_index_errors() {
    let mut last = LastError::new();
    assert_eq!(lru_cache::index_code(&mut last, MapError::Full), SUBETHA_E_MAP_FULL);
    assert_eq!(last.detail(), "the cache's index is full");
    assert_eq!(lru_cache::index_code(&mut last, MapError::LayoutMismatch), SUBETHA_E_RING_LAYOUT_MISMATCH);
    assert_eq!(last.detail(), "the cache on disk was built with different key or value sizes");
    assert_eq!(lru_cache::index_code(&mut last, MapError::IoError(String::from("NotFound"))), SUBETHA_E_RING_IO);
    assert_eq!(last.detail(), "the cache's index could not be reached: NotFound");
    assert_eq!(lru_cache::index_code(&mut last, MapError::PayloadTooLarge), SUBETHA_E_RING_IO);
    assert_eq!(last.detail(), "the cache's index refused: PayloadTooLarge");
    assert_eq!(lru_cache::index_code(&mut last, MapError::KeyAbsent), SUBETHA_E_RING_IO);
    assert_eq!(last.detail(), "the cache's index refused: KeyAbsent");
}

#[test]
fn the_codes_of_lru_cache_order_errors() {
    let mut last = LastError::new();
    assert_eq!(lru_cache::order_code(&mut last, LinkedListError::LayoutMismatch), SUBETHA_E_RING_LAYOUT_MISMATCH);
    assert_eq!(last.detail(), "the cache on disk was built with different key or value sizes");
    assert_eq!(lru_cache::order_code(&mut last, LinkedListError::IoError(String::from("NotFound"))), SUBETHA_E_RING_IO);
    assert_eq!(last.detail(), "the cache's order could not be reached: NotFound");
    assert_eq!(lru_cache::order_code(&mut last, LinkedListError::InvalidHandle), SUBETHA_E_RING_IO);
    assert_eq!(last.detail(), "the cache's order refused: InvalidHandle");
}

#[test]
fn the_codes_of_lru_cache_errors() {
    let mut last = LastError::new();
    assert_eq!(lru_cache::code_for(&mut last, RawLruError::WrongSize { expected: 70, found: 71 }), SUBETHA_E_INVALID_ARGUMENT);
    assert_eq!(last.detail(), "this cache uses 70-byte buffers here, and 71 was given");
    assert_eq!(lru_cache::code_for(&mut last, RawLruError::ZeroCapacity), SUBETHA_E_INVALID_ARGUMENT);
    assert_eq!(last.detail(), "a cache of zero entries holds nothing");
    let beneath = lru_cache::index_code(&mut last, MapError::Full);
    assert_eq!(lru_cache::code_for(&mut last, RawLruError::Index(MapError::Full)), beneath);
    let beneath = lru_cache::order_code(&mut last, LinkedListError::InvalidHandle);
    assert_eq!(lru_cache::code_for(&mut last, RawLruError::Order(LinkedListError::InvalidHandle)), beneath);
}
