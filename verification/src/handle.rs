//! The handle table: a 64-bit handle names one live object through an index
//! and a generation, so a stale or forged handle is refused rather than
//! followed.
//!
//! The table grows without bound. A call publishes the slot it is inside, in
//! a word of its own thread's; [`crate::epoch`] holds that protocol. A
//! destroy marks the slot closing, interrupts any waiter, and waits out
//! every call that began before it did, so a call in flight on another
//! thread never loses the object under it. A panic caught inside a call
//! poisons the slot: every later call on that handle fails until it is
//! destroyed.
//!
//! One owner changes the table at a time. A destroy that has calls to wait
//! out comes in steps, so the table is free while it waits:
//! [`Table::close`], [`Table::closing`] for what to interrupt, a
//! [`crate::epoch::Wait`], and [`Table::take_when_over`]. [`Table::destroy`] is
//! all of them for a slot no thread is inside.

use vstd::arithmetic::div_mod::{lemma_mod_bound, lemma_small_mod};
use vstd::arithmetic::power2::{lemma2_to64, lemma_pow2_strictly_increases, lemma_pow2_unfold, pow2};
use vstd::prelude::*;

use crate::epoch::{
    a_destroy_steps_the_epoch, a_remainder_steps_with_its_number, a_word_names_what_it_was_made_from, enter,
    entered, entry_refusal, epoch_after, lets_pass, next_epoch, published, settled_barrier, wait_for_calls_on,
    Inside, Registry, RegistryView, Wait,
};
use crate::error::{
    answers, answers_code, fail, told, LastError, Report, SUBETHA_E_HANDLE_POISONED, SUBETHA_E_INVALID_HANDLE,
    SUBETHA_E_NOT_SUPPORTED, SUBETHA_E_WRONG_KIND, SUBETHA_OK,
};
use crate::holds::{is_token, tagged, the_tag_is_the_top_bit};
use crate::text::{dec, hex, push_dec, push_hex};

verus! {

/// A handle: zero is never issued.
#[allow(non_camel_case_types)]
pub type subetha_handle = u64;

/// The handle no object has.
pub const SUBETHA_HANDLE_NONE: u64 = 0;

/// The handle names an adaptive ring.
pub const SUBETHA_KIND_RING: u32 = 1;

/// The handle names a blocking single-producer single-consumer ring.
pub const SUBETHA_KIND_SPSC: u32 = 2;

/// The handle names one producer of a blocking MPSC pool.
pub const SUBETHA_KIND_MPSC_PRODUCER: u32 = 3;

/// The handle names the consumer of a blocking MPSC pool.
pub const SUBETHA_KIND_MPSC_CONSUMER: u32 = 4;

/// The handle names one producer of a blocking MPMC grid.
pub const SUBETHA_KIND_MPMC_PRODUCER: u32 = 5;

/// The handle names one consumer of a blocking MPMC grid.
pub const SUBETHA_KIND_MPMC_CONSUMER: u32 = 6;

/// The handle names a Vyukov MPMC ring.
pub const SUBETHA_KIND_VYUKOV: u32 = 7;

/// The handle names the producer side of a Lamport SPSC pair.
pub const SUBETHA_KIND_LAMPORT_PRODUCER: u32 = 8;

/// The handle names the consumer side of a Lamport SPSC pair.
pub const SUBETHA_KIND_LAMPORT_CONSUMER: u32 = 9;

/// The handle names a broadcast ring.
pub const SUBETHA_KIND_BROADCAST: u32 = 10;

/// The handle names a pub/sub ring.
pub const SUBETHA_KIND_PUBSUB: u32 = 11;

/// The handle names a subscriber of a pub/sub ring.
pub const SUBETHA_KIND_SUBSCRIBER: u32 = 12;

/// The handle names a capacity-adaptive ring.
pub const SUBETHA_KIND_CAPACITY_RING: u32 = 13;

/// The handle names a locale-adaptive ring.
pub const SUBETHA_KIND_LOCALE_RING: u32 = 14;

/// The handle names a capacity-adaptive broadcast ring.
pub const SUBETHA_KIND_CAPACITY_BROADCAST: u32 = 15;

/// The handle names a capacity-adaptive pub/sub ring.
pub const SUBETHA_KIND_CAPACITY_PUBSUB: u32 = 16;

/// The handle names a subscriber of a capacity-adaptive pub/sub ring.
pub const SUBETHA_KIND_CAPACITY_SUBSCRIBER: u32 = 17;

/// The handle names an exact-delivery receiver on a stamped ring.
pub const SUBETHA_KIND_ORDERED_RECEIVER: u32 = 18;

/// The handle names a shared Treiber stack.
pub const SUBETHA_KIND_STACK: u32 = 19;

/// The handle names a work-stealing deque, as its owner or as a thief.
pub const SUBETHA_KIND_DEQUE: u32 = 20;

/// The handle names a pollable notifier attached to a ring.
pub const SUBETHA_KIND_NOTIFIER: u32 = 21;

/// The handle names a shared hash map.
pub const SUBETHA_KIND_HASHMAP: u32 = 22;

/// The handle names a shared string arena.
pub const SUBETHA_KIND_ARENA: u32 = 23;

/// The handle names a shared vec.
pub const SUBETHA_KIND_VEC: u32 = 24;

/// The handle names a shared slab.
pub const SUBETHA_KIND_SLAB: u32 = 25;

/// The handle names a shared region.
pub const SUBETHA_KIND_REGION: u32 = 26;

/// The handle names a shared atomic of one of the three widths.
pub const SUBETHA_KIND_ATOMIC: u32 = 27;

/// The handle names a shared doubly-linked list.
pub const SUBETHA_KIND_LIST: u32 = 28;

/// The handle names a shared B-tree map.
pub const SUBETHA_KIND_BTREE: u32 = 29;

/// The handle names a shared cell.
pub const SUBETHA_KIND_CELL: u32 = 30;

/// The handle names a frame region of fixed-size blocks.
pub const SUBETHA_KIND_FRAME_REGION: u32 = 31;

/// The handle names an epoch table.
pub const SUBETHA_KIND_EPOCHS: u32 = 32;

/// The handle names a pin held against an epoch table.
/// Retired: a pin is a token now, not a handle. The number is not
/// reused, so an old pin handle is refused rather than resolved.
pub const SUBETHA_KIND_PIN: u32 = 33;

/// The handle names an open ticket on an epoch table.
/// Retired, like `SUBETHA_KIND_PIN`: a ticket is a token now. The number
/// is not reused.
pub const SUBETHA_KIND_TICKET: u32 = 34;

/// The handle names a reader-writer lock.
pub const SUBETHA_KIND_RWLOCK: u32 = 35;

/// Retired. A hold on a reader-writer lock is a token now, not a handle,
/// so no object has this kind. The number is not reused: a caller that
/// still passes an old hold handle should be refused rather than
/// resolved to whatever took the number.
pub const SUBETHA_KIND_LOCK_HOLD: u32 = 36;

/// The handle names a counting semaphore.
pub const SUBETHA_KIND_SEMAPHORE: u32 = 37;

/// Retired, like `SUBETHA_KIND_LOCK_HOLD`: a permit is a token now, not
/// a handle. The number is not reused, so an old permit handle is
/// refused rather than resolved to whatever took the number.
pub const SUBETHA_KIND_PERMIT: u32 = 38;

/// The handle names a condition variable.
pub const SUBETHA_KIND_CONDVAR: u32 = 39;

/// The handle names an owner lease.
pub const SUBETHA_KIND_OWNER_LEASE: u32 = 40;

/// The handle names a leader election.
pub const SUBETHA_KIND_LEADER: u32 = 41;

/// The handle names a heartbeat table.
pub const SUBETHA_KIND_HEARTBEAT: u32 = 42;

/// The handle names a holder table.
pub const SUBETHA_KIND_HOLDERS: u32 = 43;

/// The handle names a shared fence clock.
pub const SUBETHA_KIND_FENCE_CLOCK: u32 = 44;

/// The handle names an epoch barrier.
pub const SUBETHA_KIND_EPOCH_BARRIER: u32 = 45;

/// The handle names a shared value kept alive by its holders.
pub const SUBETHA_KIND_SHARED_ARC: u32 = 46;

/// The handle names a value produced once across every process.
pub const SUBETHA_KIND_LAZY_VALUE: u32 = 47;

/// The handle names a cross-process waker.
pub const SUBETHA_KIND_WAKER: u32 = 48;

/// The handle names one half of a TCP bridge.
pub const SUBETHA_KIND_TCP_BRIDGE: u32 = 49;

/// The handle names one half of a QUIC bridge.
pub const SUBETHA_KIND_QUIC_BRIDGE: u32 = 50;

/// The handle names one half of a Sens-O-Matic link.
pub const SUBETHA_KIND_SENS: u32 = 51;

/// The handle names a shared Bloom filter.
pub const SUBETHA_KIND_BLOOM: u32 = 52;

/// The handle names a shared count-min sketch.
pub const SUBETHA_KIND_CMS: u32 = 53;

/// The handle names a shared histogram.
pub const SUBETHA_KIND_HISTOGRAM: u32 = 54;

/// The handle names a shared rate limiter.
pub const SUBETHA_KIND_RATE_LIMITER: u32 = 55;

/// The handle names a shared blocked Bloom filter.
pub const SUBETHA_KIND_BLOCKED_BLOOM: u32 = 56;

/// The handle names a shared reservoir sampler.
pub const SUBETHA_KIND_RESERVOIR: u32 = 57;

/// The handle names a shared topology map.
pub const SUBETHA_KIND_TOPOLOGY: u32 = 58;

/// The handle names a shared versioned chain.
pub const SUBETHA_KIND_VERSIONED_CHAIN: u32 = 59;

/// The handle names a shared versioned slab.
pub const SUBETHA_KIND_VERSIONED_SLAB: u32 = 60;

/// The handle names a shared versioned map.
pub const SUBETHA_KIND_VERSIONED_MAP: u32 = 61;

/// The handle names a shared laned versioned map.
pub const SUBETHA_KIND_LANED_MAP: u32 = 62;

/// The handle names a virtual endpoint registry.
pub const SUBETHA_KIND_ENDPOINT_REGISTRY: u32 = 63;

/// The handle names a runtime-mutable quality-of-service policy.
pub const SUBETHA_KIND_QOS_POLICY: u32 = 64;

/// The handle names a shared bit vector.
pub const SUBETHA_KIND_BIT_VEC: u32 = 65;

/// The handle names a shared HyperLogLog.
pub const SUBETHA_KIND_HLL: u32 = 66;

/// The handle names a least-recently-used cache.
pub const SUBETHA_KIND_LRU_CACHE: u32 = 67;

/// The handle names a directed graph.
pub const SUBETHA_KIND_GRAPH: u32 = 68;

/// The handle names a versioned time-point tile.
pub const SUBETHA_KIND_TIME_POINT: u32 = 69;

/// The handle names a strategy-switching set.
pub const SUBETHA_KIND_UNIVERSAL: u32 = 70;

/// The handle names a cascade tower.
pub const SUBETHA_KIND_K_TOWER: u32 = 71;

/// The handle names a blocking bridge: a blocking SPSC ring carried
/// across a socket connection.
pub const SUBETHA_KIND_BLOCKING_TCP_BRIDGE: u32 = 72;

/// Everything a handle can name, each with what the caller keeps behind it.
#[derive(Debug)]
pub enum Object<P> {
    /// An adaptive ring.
    Ring(P),
    /// A blocking single-producer single-consumer ring.
    Spsc(P),
    /// One producer of a blocking MPSC pool.
    MpscProducer(P),
    /// The consumer of a blocking MPSC pool.
    MpscConsumer(P),
    /// One producer of a blocking MPMC grid.
    MpmcProducer(P),
    /// One consumer of a blocking MPMC grid.
    MpmcConsumer(P),
    /// A Vyukov MPMC ring.
    Vyukov(P),
    /// The producer side of a Lamport SPSC pair.
    LamportProducer(P),
    /// The consumer side of a Lamport SPSC pair.
    LamportConsumer(P),
    /// A broadcast ring.
    Broadcast(P),
    /// A pub/sub ring.
    PubSub(P),
    /// A subscriber of a pub/sub ring.
    Subscriber(P),
    /// A capacity-adaptive ring.
    Capacity(P),
    /// A locale-adaptive ring.
    LocaleRing(P),
    /// A virtual endpoint registry.
    EndpointRegistry(P),
    /// A runtime-mutable quality-of-service policy.
    QosPolicy(P),
    /// A least-recently-used cache.
    Lru(P),
    /// A directed graph.
    Graph(P),
    /// A versioned time-point tile.
    Tile(P),
    /// A strategy-switching set.
    Universal(P),
    /// A cascade tower.
    Tower(P),
    /// A shared bit vector.
    BitVec(P),
    /// A shared HyperLogLog.
    Hll(P),
    /// A capacity-adaptive broadcast ring.
    CapacityBroadcast(P),
    /// A capacity-adaptive pub/sub ring.
    CapacityPubSub(P),
    /// A subscriber of a capacity-adaptive pub/sub ring.
    CapacitySubscriber(P),
    /// An exact-delivery receiver on a stamped ring.
    Ordered(P),
    /// A shared Treiber stack.
    Stack(P),
    /// A work-stealing deque, as its owner or as a thief.
    Deque(P),
    /// A pollable notifier attached to a ring.
    Notifier(P),
    /// A shared hash map.
    HashMap(P),
    /// A shared string arena.
    Arena(P),
    /// A shared vec.
    Vec(P),
    /// A shared slab.
    Slab(P),
    /// A shared region.
    Region(P),
    /// A shared atomic of one of the three widths.
    Atomic(P),
    /// A shared doubly-linked list.
    List(P),
    /// A shared B-tree map.
    BTree(P),
    /// A shared cell.
    Cell(P),
    /// A frame region of fixed-size blocks.
    FrameRegion(P),
    /// An epoch table.
    Epochs(P),
    /// A reader-writer lock.
    RwLock(P),
    /// A counting semaphore.
    Semaphore(P),
    /// A condition variable.
    Condvar(P),
    /// An owner lease.
    OwnerLease(P),
    /// A leader election.
    Leader(P),
    /// A heartbeat table.
    Heartbeat(P),
    /// A holder table.
    Holders(P),
    /// A shared fence clock.
    FenceClock(P),
    /// An epoch barrier.
    EpochBarrier(P),
    /// A shared value kept alive by its holders.
    SharedArc(P),
    /// A value produced once across every process.
    LazyValue(P),
    /// A cross-process waker.
    Waker(P),
    /// One half of a TCP bridge.
    TcpBridge(P),
    /// One half of a QUIC bridge.
    QuicBridge(P),
    /// A blocking bridge: a blocking SPSC ring carried across a socket connection.
    BlockingTcpBridge(P),
    /// One half of a Sens-O-Matic link.
    Sens(P),
    /// A shared Bloom filter.
    Bloom(P),
    /// A shared count-min sketch.
    Cms(P),
    /// A shared histogram.
    Histogram(P),
    /// A shared rate limiter.
    RateLimiter(P),
    /// A shared blocked Bloom filter.
    BlockedBloom(P),
    /// A shared reservoir sampler.
    Reservoir(P),
    /// A shared topology map.
    Topology(P),
    /// A shared versioned chain.
    VersionedChain(P),
    /// A shared versioned slab.
    VersionedSlab(P),
    /// A shared versioned map.
    VersionedMap(P),
    /// A shared laned versioned map.
    LanedMap(P),
}

impl<P> Object<P> {
    /// The kind a handle to this object has.
    pub open spec fn kind_number(&self) -> u32 {
        match self {
            Object::Ring(_) => SUBETHA_KIND_RING,
            Object::Spsc(_) => SUBETHA_KIND_SPSC,
            Object::MpscProducer(_) => SUBETHA_KIND_MPSC_PRODUCER,
            Object::MpscConsumer(_) => SUBETHA_KIND_MPSC_CONSUMER,
            Object::MpmcProducer(_) => SUBETHA_KIND_MPMC_PRODUCER,
            Object::MpmcConsumer(_) => SUBETHA_KIND_MPMC_CONSUMER,
            Object::Vyukov(_) => SUBETHA_KIND_VYUKOV,
            Object::LamportProducer(_) => SUBETHA_KIND_LAMPORT_PRODUCER,
            Object::LamportConsumer(_) => SUBETHA_KIND_LAMPORT_CONSUMER,
            Object::Broadcast(_) => SUBETHA_KIND_BROADCAST,
            Object::PubSub(_) => SUBETHA_KIND_PUBSUB,
            Object::Subscriber(_) => SUBETHA_KIND_SUBSCRIBER,
            Object::Capacity(_) => SUBETHA_KIND_CAPACITY_RING,
            Object::LocaleRing(_) => SUBETHA_KIND_LOCALE_RING,
            Object::EndpointRegistry(_) => SUBETHA_KIND_ENDPOINT_REGISTRY,
            Object::QosPolicy(_) => SUBETHA_KIND_QOS_POLICY,
            Object::Lru(_) => SUBETHA_KIND_LRU_CACHE,
            Object::Graph(_) => SUBETHA_KIND_GRAPH,
            Object::Tile(_) => SUBETHA_KIND_TIME_POINT,
            Object::Universal(_) => SUBETHA_KIND_UNIVERSAL,
            Object::Tower(_) => SUBETHA_KIND_K_TOWER,
            Object::BitVec(_) => SUBETHA_KIND_BIT_VEC,
            Object::Hll(_) => SUBETHA_KIND_HLL,
            Object::CapacityBroadcast(_) => SUBETHA_KIND_CAPACITY_BROADCAST,
            Object::CapacityPubSub(_) => SUBETHA_KIND_CAPACITY_PUBSUB,
            Object::CapacitySubscriber(_) => SUBETHA_KIND_CAPACITY_SUBSCRIBER,
            Object::Ordered(_) => SUBETHA_KIND_ORDERED_RECEIVER,
            Object::Stack(_) => SUBETHA_KIND_STACK,
            Object::Deque(_) => SUBETHA_KIND_DEQUE,
            Object::Notifier(_) => SUBETHA_KIND_NOTIFIER,
            Object::HashMap(_) => SUBETHA_KIND_HASHMAP,
            Object::Arena(_) => SUBETHA_KIND_ARENA,
            Object::Vec(_) => SUBETHA_KIND_VEC,
            Object::Slab(_) => SUBETHA_KIND_SLAB,
            Object::Region(_) => SUBETHA_KIND_REGION,
            Object::Atomic(_) => SUBETHA_KIND_ATOMIC,
            Object::List(_) => SUBETHA_KIND_LIST,
            Object::BTree(_) => SUBETHA_KIND_BTREE,
            Object::Cell(_) => SUBETHA_KIND_CELL,
            Object::FrameRegion(_) => SUBETHA_KIND_FRAME_REGION,
            Object::Epochs(_) => SUBETHA_KIND_EPOCHS,
            Object::RwLock(_) => SUBETHA_KIND_RWLOCK,
            Object::Semaphore(_) => SUBETHA_KIND_SEMAPHORE,
            Object::Condvar(_) => SUBETHA_KIND_CONDVAR,
            Object::OwnerLease(_) => SUBETHA_KIND_OWNER_LEASE,
            Object::Leader(_) => SUBETHA_KIND_LEADER,
            Object::Heartbeat(_) => SUBETHA_KIND_HEARTBEAT,
            Object::Holders(_) => SUBETHA_KIND_HOLDERS,
            Object::FenceClock(_) => SUBETHA_KIND_FENCE_CLOCK,
            Object::EpochBarrier(_) => SUBETHA_KIND_EPOCH_BARRIER,
            Object::SharedArc(_) => SUBETHA_KIND_SHARED_ARC,
            Object::LazyValue(_) => SUBETHA_KIND_LAZY_VALUE,
            Object::Waker(_) => SUBETHA_KIND_WAKER,
            Object::TcpBridge(_) => SUBETHA_KIND_TCP_BRIDGE,
            Object::QuicBridge(_) => SUBETHA_KIND_QUIC_BRIDGE,
            Object::BlockingTcpBridge(_) => SUBETHA_KIND_BLOCKING_TCP_BRIDGE,
            Object::Sens(_) => SUBETHA_KIND_SENS,
            Object::Bloom(_) => SUBETHA_KIND_BLOOM,
            Object::Cms(_) => SUBETHA_KIND_CMS,
            Object::Histogram(_) => SUBETHA_KIND_HISTOGRAM,
            Object::RateLimiter(_) => SUBETHA_KIND_RATE_LIMITER,
            Object::BlockedBloom(_) => SUBETHA_KIND_BLOCKED_BLOOM,
            Object::Reservoir(_) => SUBETHA_KIND_RESERVOIR,
            Object::Topology(_) => SUBETHA_KIND_TOPOLOGY,
            Object::VersionedChain(_) => SUBETHA_KIND_VERSIONED_CHAIN,
            Object::VersionedSlab(_) => SUBETHA_KIND_VERSIONED_SLAB,
            Object::VersionedMap(_) => SUBETHA_KIND_VERSIONED_MAP,
            Object::LanedMap(_) => SUBETHA_KIND_LANED_MAP,
        }
    }

    /// What the caller keeps behind the object.
    pub open spec fn payload(&self) -> P {
        match self {
            Object::Ring(p) => *p,
            Object::Spsc(p) => *p,
            Object::MpscProducer(p) => *p,
            Object::MpscConsumer(p) => *p,
            Object::MpmcProducer(p) => *p,
            Object::MpmcConsumer(p) => *p,
            Object::Vyukov(p) => *p,
            Object::LamportProducer(p) => *p,
            Object::LamportConsumer(p) => *p,
            Object::Broadcast(p) => *p,
            Object::PubSub(p) => *p,
            Object::Subscriber(p) => *p,
            Object::Capacity(p) => *p,
            Object::LocaleRing(p) => *p,
            Object::EndpointRegistry(p) => *p,
            Object::QosPolicy(p) => *p,
            Object::Lru(p) => *p,
            Object::Graph(p) => *p,
            Object::Tile(p) => *p,
            Object::Universal(p) => *p,
            Object::Tower(p) => *p,
            Object::BitVec(p) => *p,
            Object::Hll(p) => *p,
            Object::CapacityBroadcast(p) => *p,
            Object::CapacityPubSub(p) => *p,
            Object::CapacitySubscriber(p) => *p,
            Object::Ordered(p) => *p,
            Object::Stack(p) => *p,
            Object::Deque(p) => *p,
            Object::Notifier(p) => *p,
            Object::HashMap(p) => *p,
            Object::Arena(p) => *p,
            Object::Vec(p) => *p,
            Object::Slab(p) => *p,
            Object::Region(p) => *p,
            Object::Atomic(p) => *p,
            Object::List(p) => *p,
            Object::BTree(p) => *p,
            Object::Cell(p) => *p,
            Object::FrameRegion(p) => *p,
            Object::Epochs(p) => *p,
            Object::RwLock(p) => *p,
            Object::Semaphore(p) => *p,
            Object::Condvar(p) => *p,
            Object::OwnerLease(p) => *p,
            Object::Leader(p) => *p,
            Object::Heartbeat(p) => *p,
            Object::Holders(p) => *p,
            Object::FenceClock(p) => *p,
            Object::EpochBarrier(p) => *p,
            Object::SharedArc(p) => *p,
            Object::LazyValue(p) => *p,
            Object::Waker(p) => *p,
            Object::TcpBridge(p) => *p,
            Object::QuicBridge(p) => *p,
            Object::BlockingTcpBridge(p) => *p,
            Object::Sens(p) => *p,
            Object::Bloom(p) => *p,
            Object::Cms(p) => *p,
            Object::Histogram(p) => *p,
            Object::RateLimiter(p) => *p,
            Object::BlockedBloom(p) => *p,
            Object::Reservoir(p) => *p,
            Object::Topology(p) => *p,
            Object::VersionedChain(p) => *p,
            Object::VersionedSlab(p) => *p,
            Object::VersionedMap(p) => *p,
            Object::LanedMap(p) => *p,
        }
    }

    /// The kind a handle to this object has.
    pub fn kind(&self) -> (kind: u32)
        ensures
            kind == self.kind_number(),
    {
        match self {
            Object::Ring(_) => SUBETHA_KIND_RING,
            Object::Spsc(_) => SUBETHA_KIND_SPSC,
            Object::MpscProducer(_) => SUBETHA_KIND_MPSC_PRODUCER,
            Object::MpscConsumer(_) => SUBETHA_KIND_MPSC_CONSUMER,
            Object::MpmcProducer(_) => SUBETHA_KIND_MPMC_PRODUCER,
            Object::MpmcConsumer(_) => SUBETHA_KIND_MPMC_CONSUMER,
            Object::Vyukov(_) => SUBETHA_KIND_VYUKOV,
            Object::LamportProducer(_) => SUBETHA_KIND_LAMPORT_PRODUCER,
            Object::LamportConsumer(_) => SUBETHA_KIND_LAMPORT_CONSUMER,
            Object::Broadcast(_) => SUBETHA_KIND_BROADCAST,
            Object::PubSub(_) => SUBETHA_KIND_PUBSUB,
            Object::Subscriber(_) => SUBETHA_KIND_SUBSCRIBER,
            Object::Capacity(_) => SUBETHA_KIND_CAPACITY_RING,
            Object::LocaleRing(_) => SUBETHA_KIND_LOCALE_RING,
            Object::EndpointRegistry(_) => SUBETHA_KIND_ENDPOINT_REGISTRY,
            Object::QosPolicy(_) => SUBETHA_KIND_QOS_POLICY,
            Object::Lru(_) => SUBETHA_KIND_LRU_CACHE,
            Object::Graph(_) => SUBETHA_KIND_GRAPH,
            Object::Tile(_) => SUBETHA_KIND_TIME_POINT,
            Object::Universal(_) => SUBETHA_KIND_UNIVERSAL,
            Object::Tower(_) => SUBETHA_KIND_K_TOWER,
            Object::BitVec(_) => SUBETHA_KIND_BIT_VEC,
            Object::Hll(_) => SUBETHA_KIND_HLL,
            Object::CapacityBroadcast(_) => SUBETHA_KIND_CAPACITY_BROADCAST,
            Object::CapacityPubSub(_) => SUBETHA_KIND_CAPACITY_PUBSUB,
            Object::CapacitySubscriber(_) => SUBETHA_KIND_CAPACITY_SUBSCRIBER,
            Object::Ordered(_) => SUBETHA_KIND_ORDERED_RECEIVER,
            Object::Stack(_) => SUBETHA_KIND_STACK,
            Object::Deque(_) => SUBETHA_KIND_DEQUE,
            Object::Notifier(_) => SUBETHA_KIND_NOTIFIER,
            Object::HashMap(_) => SUBETHA_KIND_HASHMAP,
            Object::Arena(_) => SUBETHA_KIND_ARENA,
            Object::Vec(_) => SUBETHA_KIND_VEC,
            Object::Slab(_) => SUBETHA_KIND_SLAB,
            Object::Region(_) => SUBETHA_KIND_REGION,
            Object::Atomic(_) => SUBETHA_KIND_ATOMIC,
            Object::List(_) => SUBETHA_KIND_LIST,
            Object::BTree(_) => SUBETHA_KIND_BTREE,
            Object::Cell(_) => SUBETHA_KIND_CELL,
            Object::FrameRegion(_) => SUBETHA_KIND_FRAME_REGION,
            Object::Epochs(_) => SUBETHA_KIND_EPOCHS,
            Object::RwLock(_) => SUBETHA_KIND_RWLOCK,
            Object::Semaphore(_) => SUBETHA_KIND_SEMAPHORE,
            Object::Condvar(_) => SUBETHA_KIND_CONDVAR,
            Object::OwnerLease(_) => SUBETHA_KIND_OWNER_LEASE,
            Object::Leader(_) => SUBETHA_KIND_LEADER,
            Object::Heartbeat(_) => SUBETHA_KIND_HEARTBEAT,
            Object::Holders(_) => SUBETHA_KIND_HOLDERS,
            Object::FenceClock(_) => SUBETHA_KIND_FENCE_CLOCK,
            Object::EpochBarrier(_) => SUBETHA_KIND_EPOCH_BARRIER,
            Object::SharedArc(_) => SUBETHA_KIND_SHARED_ARC,
            Object::LazyValue(_) => SUBETHA_KIND_LAZY_VALUE,
            Object::Waker(_) => SUBETHA_KIND_WAKER,
            Object::TcpBridge(_) => SUBETHA_KIND_TCP_BRIDGE,
            Object::QuicBridge(_) => SUBETHA_KIND_QUIC_BRIDGE,
            Object::BlockingTcpBridge(_) => SUBETHA_KIND_BLOCKING_TCP_BRIDGE,
            Object::Sens(_) => SUBETHA_KIND_SENS,
            Object::Bloom(_) => SUBETHA_KIND_BLOOM,
            Object::Cms(_) => SUBETHA_KIND_CMS,
            Object::Histogram(_) => SUBETHA_KIND_HISTOGRAM,
            Object::RateLimiter(_) => SUBETHA_KIND_RATE_LIMITER,
            Object::BlockedBloom(_) => SUBETHA_KIND_BLOCKED_BLOOM,
            Object::Reservoir(_) => SUBETHA_KIND_RESERVOIR,
            Object::Topology(_) => SUBETHA_KIND_TOPOLOGY,
            Object::VersionedChain(_) => SUBETHA_KIND_VERSIONED_CHAIN,
            Object::VersionedSlab(_) => SUBETHA_KIND_VERSIONED_SLAB,
            Object::VersionedMap(_) => SUBETHA_KIND_VERSIONED_MAP,
            Object::LanedMap(_) => SUBETHA_KIND_LANED_MAP,
        }
    }

    /// What the caller has to wake: a destroy interrupts every thread parked
    /// inside a call on the object, so it can wait for them to leave.
    pub fn interrupt(&self) -> (parked: &P)
        ensures
            *parked == self.payload(),
    {
        match self {
            Object::Ring(p) => p,
            Object::Spsc(p) => p,
            Object::MpscProducer(p) => p,
            Object::MpscConsumer(p) => p,
            Object::MpmcProducer(p) => p,
            Object::MpmcConsumer(p) => p,
            Object::Vyukov(p) => p,
            Object::LamportProducer(p) => p,
            Object::LamportConsumer(p) => p,
            Object::Broadcast(p) => p,
            Object::PubSub(p) => p,
            Object::Subscriber(p) => p,
            Object::Capacity(p) => p,
            Object::LocaleRing(p) => p,
            Object::EndpointRegistry(p) => p,
            Object::QosPolicy(p) => p,
            Object::Lru(p) => p,
            Object::Graph(p) => p,
            Object::Tile(p) => p,
            Object::Universal(p) => p,
            Object::Tower(p) => p,
            Object::BitVec(p) => p,
            Object::Hll(p) => p,
            Object::CapacityBroadcast(p) => p,
            Object::CapacityPubSub(p) => p,
            Object::CapacitySubscriber(p) => p,
            Object::Ordered(p) => p,
            Object::Stack(p) => p,
            Object::Deque(p) => p,
            Object::Notifier(p) => p,
            Object::HashMap(p) => p,
            Object::Arena(p) => p,
            Object::Vec(p) => p,
            Object::Slab(p) => p,
            Object::Region(p) => p,
            Object::Atomic(p) => p,
            Object::List(p) => p,
            Object::BTree(p) => p,
            Object::Cell(p) => p,
            Object::FrameRegion(p) => p,
            Object::Epochs(p) => p,
            Object::RwLock(p) => p,
            Object::Semaphore(p) => p,
            Object::Condvar(p) => p,
            Object::OwnerLease(p) => p,
            Object::Leader(p) => p,
            Object::Heartbeat(p) => p,
            Object::Holders(p) => p,
            Object::FenceClock(p) => p,
            Object::EpochBarrier(p) => p,
            Object::SharedArc(p) => p,
            Object::LazyValue(p) => p,
            Object::Waker(p) => p,
            Object::TcpBridge(p) => p,
            Object::QuicBridge(p) => p,
            Object::BlockingTcpBridge(p) => p,
            Object::Sens(p) => p,
            Object::Bloom(p) => p,
            Object::Cms(p) => p,
            Object::Histogram(p) => p,
            Object::RateLimiter(p) => p,
            Object::BlockedBloom(p) => p,
            Object::Reservoir(p) => p,
            Object::Topology(p) => p,
            Object::VersionedChain(p) => p,
            Object::VersionedSlab(p) => p,
            Object::VersionedMap(p) => p,
            Object::LanedMap(p) => p,
        }
    }
}

/// The object of kind `kind` with `payload` behind it, if a kind has objects.
pub open spec fn object_of<P>(kind: u32, payload: P) -> Option<Object<P>> {
    if kind == SUBETHA_KIND_RING {
        Some(Object::Ring(payload))
    } else if kind == SUBETHA_KIND_SPSC {
        Some(Object::Spsc(payload))
    } else if kind == SUBETHA_KIND_MPSC_PRODUCER {
        Some(Object::MpscProducer(payload))
    } else if kind == SUBETHA_KIND_MPSC_CONSUMER {
        Some(Object::MpscConsumer(payload))
    } else if kind == SUBETHA_KIND_MPMC_PRODUCER {
        Some(Object::MpmcProducer(payload))
    } else if kind == SUBETHA_KIND_MPMC_CONSUMER {
        Some(Object::MpmcConsumer(payload))
    } else if kind == SUBETHA_KIND_VYUKOV {
        Some(Object::Vyukov(payload))
    } else if kind == SUBETHA_KIND_LAMPORT_PRODUCER {
        Some(Object::LamportProducer(payload))
    } else if kind == SUBETHA_KIND_LAMPORT_CONSUMER {
        Some(Object::LamportConsumer(payload))
    } else if kind == SUBETHA_KIND_BROADCAST {
        Some(Object::Broadcast(payload))
    } else if kind == SUBETHA_KIND_PUBSUB {
        Some(Object::PubSub(payload))
    } else if kind == SUBETHA_KIND_SUBSCRIBER {
        Some(Object::Subscriber(payload))
    } else if kind == SUBETHA_KIND_CAPACITY_RING {
        Some(Object::Capacity(payload))
    } else if kind == SUBETHA_KIND_LOCALE_RING {
        Some(Object::LocaleRing(payload))
    } else if kind == SUBETHA_KIND_CAPACITY_BROADCAST {
        Some(Object::CapacityBroadcast(payload))
    } else if kind == SUBETHA_KIND_CAPACITY_PUBSUB {
        Some(Object::CapacityPubSub(payload))
    } else if kind == SUBETHA_KIND_CAPACITY_SUBSCRIBER {
        Some(Object::CapacitySubscriber(payload))
    } else if kind == SUBETHA_KIND_ORDERED_RECEIVER {
        Some(Object::Ordered(payload))
    } else if kind == SUBETHA_KIND_STACK {
        Some(Object::Stack(payload))
    } else if kind == SUBETHA_KIND_DEQUE {
        Some(Object::Deque(payload))
    } else if kind == SUBETHA_KIND_NOTIFIER {
        Some(Object::Notifier(payload))
    } else if kind == SUBETHA_KIND_HASHMAP {
        Some(Object::HashMap(payload))
    } else if kind == SUBETHA_KIND_ARENA {
        Some(Object::Arena(payload))
    } else if kind == SUBETHA_KIND_VEC {
        Some(Object::Vec(payload))
    } else if kind == SUBETHA_KIND_SLAB {
        Some(Object::Slab(payload))
    } else if kind == SUBETHA_KIND_REGION {
        Some(Object::Region(payload))
    } else if kind == SUBETHA_KIND_ATOMIC {
        Some(Object::Atomic(payload))
    } else if kind == SUBETHA_KIND_LIST {
        Some(Object::List(payload))
    } else if kind == SUBETHA_KIND_BTREE {
        Some(Object::BTree(payload))
    } else if kind == SUBETHA_KIND_CELL {
        Some(Object::Cell(payload))
    } else if kind == SUBETHA_KIND_FRAME_REGION {
        Some(Object::FrameRegion(payload))
    } else if kind == SUBETHA_KIND_EPOCHS {
        Some(Object::Epochs(payload))
    } else if kind == SUBETHA_KIND_RWLOCK {
        Some(Object::RwLock(payload))
    } else if kind == SUBETHA_KIND_SEMAPHORE {
        Some(Object::Semaphore(payload))
    } else if kind == SUBETHA_KIND_CONDVAR {
        Some(Object::Condvar(payload))
    } else if kind == SUBETHA_KIND_OWNER_LEASE {
        Some(Object::OwnerLease(payload))
    } else if kind == SUBETHA_KIND_LEADER {
        Some(Object::Leader(payload))
    } else if kind == SUBETHA_KIND_HEARTBEAT {
        Some(Object::Heartbeat(payload))
    } else if kind == SUBETHA_KIND_HOLDERS {
        Some(Object::Holders(payload))
    } else if kind == SUBETHA_KIND_FENCE_CLOCK {
        Some(Object::FenceClock(payload))
    } else if kind == SUBETHA_KIND_EPOCH_BARRIER {
        Some(Object::EpochBarrier(payload))
    } else if kind == SUBETHA_KIND_SHARED_ARC {
        Some(Object::SharedArc(payload))
    } else if kind == SUBETHA_KIND_LAZY_VALUE {
        Some(Object::LazyValue(payload))
    } else if kind == SUBETHA_KIND_WAKER {
        Some(Object::Waker(payload))
    } else if kind == SUBETHA_KIND_TCP_BRIDGE {
        Some(Object::TcpBridge(payload))
    } else if kind == SUBETHA_KIND_QUIC_BRIDGE {
        Some(Object::QuicBridge(payload))
    } else if kind == SUBETHA_KIND_SENS {
        Some(Object::Sens(payload))
    } else if kind == SUBETHA_KIND_BLOOM {
        Some(Object::Bloom(payload))
    } else if kind == SUBETHA_KIND_CMS {
        Some(Object::Cms(payload))
    } else if kind == SUBETHA_KIND_HISTOGRAM {
        Some(Object::Histogram(payload))
    } else if kind == SUBETHA_KIND_RATE_LIMITER {
        Some(Object::RateLimiter(payload))
    } else if kind == SUBETHA_KIND_BLOCKED_BLOOM {
        Some(Object::BlockedBloom(payload))
    } else if kind == SUBETHA_KIND_RESERVOIR {
        Some(Object::Reservoir(payload))
    } else if kind == SUBETHA_KIND_TOPOLOGY {
        Some(Object::Topology(payload))
    } else if kind == SUBETHA_KIND_VERSIONED_CHAIN {
        Some(Object::VersionedChain(payload))
    } else if kind == SUBETHA_KIND_VERSIONED_SLAB {
        Some(Object::VersionedSlab(payload))
    } else if kind == SUBETHA_KIND_VERSIONED_MAP {
        Some(Object::VersionedMap(payload))
    } else if kind == SUBETHA_KIND_LANED_MAP {
        Some(Object::LanedMap(payload))
    } else if kind == SUBETHA_KIND_ENDPOINT_REGISTRY {
        Some(Object::EndpointRegistry(payload))
    } else if kind == SUBETHA_KIND_QOS_POLICY {
        Some(Object::QosPolicy(payload))
    } else if kind == SUBETHA_KIND_BIT_VEC {
        Some(Object::BitVec(payload))
    } else if kind == SUBETHA_KIND_HLL {
        Some(Object::Hll(payload))
    } else if kind == SUBETHA_KIND_LRU_CACHE {
        Some(Object::Lru(payload))
    } else if kind == SUBETHA_KIND_GRAPH {
        Some(Object::Graph(payload))
    } else if kind == SUBETHA_KIND_TIME_POINT {
        Some(Object::Tile(payload))
    } else if kind == SUBETHA_KIND_UNIVERSAL {
        Some(Object::Universal(payload))
    } else if kind == SUBETHA_KIND_K_TOWER {
        Some(Object::Tower(payload))
    } else if kind == SUBETHA_KIND_BLOCKING_TCP_BRIDGE {
        Some(Object::BlockingTcpBridge(payload))
    } else {
        None
    }
}

/// A kind names one sort of object, and the numbers of retired kinds are
/// not reused: an object is told by its kind and what is behind it.
pub proof fn a_kind_names_one_sort_of_object<P>(object: Object<P>)
    ensures
        object_of(object.kind_number(), object.payload()) == Some(object),
        object.kind_number() != SUBETHA_KIND_PIN,
        object.kind_number() != SUBETHA_KIND_TICKET,
        object.kind_number() != SUBETHA_KIND_LOCK_HOLD,
        object.kind_number() != SUBETHA_KIND_PERMIT,
{
}

/// What a slot of the table is doing.
#[derive(Clone, Copy, Debug, PartialEq, Eq, Structural)]
pub enum State {
    /// No object; the slot can be issued.
    Free,
    /// An object calls may run on.
    Live,
    /// An object a panic left unusable.
    Poisoned,
    /// An object being destroyed.
    Closing,
}

/// One slot of the table.
pub struct Slot<P> {
    generation: u32,
    state: State,
    object: Option<Object<P>>,
    panic_message: Option<String>,
}

/// One slot as contracts speak of it.
pub struct SlotView<P> {
    /// The generation a handle has to carry to name the slot's object.
    pub generation: u32,
    /// What the slot is doing.
    pub state: State,
    /// The object, while there is one.
    pub object: Option<Object<P>>,
    /// The text of the panic that poisoned it, once there is one.
    pub message: Option<Seq<char>>,
}

impl<P> View for Slot<P> {
    type V = SlotView<P>;

    closed spec fn view(&self) -> SlotView<P> {
        SlotView {
            generation: self.generation,
            state: self.state,
            object: self.object,
            message: match self.panic_message {
                Some(text) => Some(text@),
                None => None,
            },
        }
    }
}

/// A slot nothing has been placed in.
pub open spec fn vacant<P>() -> SlotView<P> {
    SlotView { generation: 1, state: State::Free, object: None, message: None }
}

impl<P> Slot<P> {
    fn new() -> (slot: Self)
        ensures
            slot@ == vacant::<P>(),
    {
        Slot { generation: 1, state: State::Free, object: None, panic_message: None }
    }
}

/// The handle with an index and a generation.
pub open spec fn handle_for(index: u32, generation: u32) -> u64 {
    ((index as u64) << 32) | (generation as u64)
}

/// The index in a handle.
pub open spec fn handle_index(handle: u64) -> u32 {
    (handle >> 32) as u32
}

/// The generation in a handle.
pub open spec fn handle_generation(handle: u64) -> u32 {
    handle as u32
}

/// The handle naming slot `index` at `generation`.
pub fn encode(index: u32, generation: u32) -> (handle: u64)
    ensures
        handle == handle_for(index, generation),
{
    ((index as u64) << 32) | (generation as u64)
}

/// The index and the generation a handle names.
pub fn decode(handle: u64) -> (named: (u32, u32))
    ensures
        named.0 == handle_index(handle),
        named.1 == handle_generation(handle),
{
    ((handle >> 32) as u32, handle as u32)
}

/// A handle carries its index and its generation, and nothing else: each
/// handle is made from one pair of them, and each pair makes one handle.
pub proof fn a_handle_is_its_index_and_generation(index: u32, generation: u32, handle: u64)
    ensures
        handle_index(handle_for(index, generation)) == index,
        handle_generation(handle_for(index, generation)) == generation,
        handle_for(handle_index(handle), handle_generation(handle)) == handle,
{
    assert(((((index as u64) << 32) | (generation as u64)) >> 32) as u32 == index && (((index as u64) << 32)
        | (generation as u64)) as u32 == generation) by (bit_vector);
    assert(((((handle >> 32) as u32) as u64) << 32) | ((handle as u32) as u64) == handle) by (bit_vector);
}

/// A handle the table issues is never zero and never reads as a hold token:
/// a generation is never zero, and an index stays below the top bit.
pub proof fn an_issued_handle_is_neither_zero_nor_a_token(index: u32, generation: u32)
    requires
        generation != 0,
        index < 0x8000_0000,
    ensures
        handle_for(index, generation) != SUBETHA_HANDLE_NONE,
        !tagged(handle_for(index, generation)),
{
    let handle = handle_for(index, generation);
    assert(handle != 0 && handle < 0x8000_0000_0000_0000) by (bit_vector)
        requires
            generation != 0,
            index < 0x8000_0000,
            handle == ((index as u64) << 32) | (generation as u64),
    ;
    the_tag_is_the_top_bit(handle);
}

/// The table as contracts speak of it.
pub struct TableView<P> {
    /// The slots.
    pub slots: Seq<SlotView<P>>,
    /// The indices of the free slots, the next to go out last.
    pub free: Seq<u32>,
}

/// How many slots hold an object.
pub open spec fn count_held<P>(slots: Seq<SlotView<P>>) -> nat
    decreases slots.len(),
{
    if slots.len() == 0 {
        0
    } else {
        count_held(slots.drop_last()) + if slots.last().state == State::Free {
            0nat
        } else {
            1nat
        }
    }
}

/// A slot that keeps its side: a generation that can be in a handle, and an
/// object exactly while it is not free.
pub open spec fn slot_wf<P>(slot: SlotView<P>) -> bool {
    &&& slot.generation != 0
    &&& slot.object is Some <==> slot.state != State::Free
    &&& slot.state == State::Free || slot.state == State::Live ==> slot.message is None
}

/// The lengths a table can have: none, or a power of two whose every index
/// leaves the top bit of a handle clear.
pub open spec fn is_table_len(len: nat) -> bool {
    len == 0 || exists|k: nat| 1 <= k <= 31 && len == #[trigger] pow2(k)
}

impl<P> TableView<P> {
    /// Every slot keeps its side, the free list names each free slot once
    /// and no other, and every index leaves the top bit of a handle clear.
    pub open spec fn wf(self) -> bool {
        &&& is_table_len(self.slots.len())
        &&& self.slots.len() <= 0x8000_0000
        &&& forall|i: int| 0 <= i < self.slots.len() ==> slot_wf(#[trigger] self.slots[i])
        &&& forall|i: int|
            0 <= i < self.slots.len() && (#[trigger] self.slots[i]).state == State::Free
                ==> self.free.contains(i as u32)
        &&& forall|k: int|
            0 <= k < self.free.len() ==> (#[trigger] self.free[k]) < self.slots.len()
                && self.slots[self.free[k] as int].state == State::Free
        &&& self.free.no_duplicates()
    }

    /// Whether another object can be placed while an index still fits.
    pub open spec fn has_room(self) -> bool {
        self.free.len() > 0 || self.slots.len() <= 0x4000_0000
    }

    /// Whether `n` more objects can be placed while an index still fits.
    pub open spec fn has_room_for(self, n: nat) -> bool {
        count_held(self.slots) + n <= 0x8000_0000
    }
}

/// How many slots the table has once it has grown.
pub open spec fn grown_len(len: nat) -> nat {
    if len == 0 {
        2
    } else {
        len * 2
    }
}

/// The table with a free slot to issue: as it is while it has one, else
/// doubled, the new slots to go out in order.
pub open spec fn roomy<P>(table: TableView<P>) -> TableView<P> {
    if table.free.len() > 0 {
        table
    } else {
        let len = table.slots.len();
        let grown = grown_len(len);
        TableView {
            slots: table.slots + Seq::new((grown - len) as nat, |i: int| vacant()),
            free: Seq::new((grown - len) as nat, |k: int| (grown - 1 - k) as u32),
        }
    }
}

/// The slot the next object goes into.
pub open spec fn next_index<P>(table: TableView<P>) -> u32 {
    roomy(table).free.last()
}

/// The table once `object` is placed.
pub open spec fn placed<P>(table: TableView<P>, object: Object<P>) -> TableView<P> {
    let ready = roomy(table);
    let i = ready.free.last() as int;
    TableView {
        slots: ready.slots.update(
            i,
            SlotView {
                generation: ready.slots[i].generation,
                state: State::Live,
                object: Some(object),
                message: None,
            },
        ),
        free: ready.free.drop_last(),
    }
}

/// The table once `objects` are placed, in order.
pub open spec fn placed_all<P>(table: TableView<P>, objects: Seq<Object<P>>) -> TableView<P>
    decreases objects.len(),
{
    if objects.len() == 0 {
        table
    } else {
        placed(placed_all(table, objects.drop_last()), objects.last())
    }
}

/// The handles `objects` get, placed in order.
pub open spec fn handles_for<P>(table: TableView<P>, objects: Seq<Object<P>>) -> Seq<u64>
    decreases objects.len(),
{
    if objects.len() == 0 {
        seq![]
    } else {
        handles_for(table, objects.drop_last()).push(next_handle(placed_all(table, objects.drop_last())))
    }
}

/// The handle the next object gets.
pub open spec fn next_handle<P>(table: TableView<P>) -> u64 {
    handle_for(next_index(table), roomy(table).slots[next_index(table) as int].generation)
}

/// The table with the slot at `index` in another state.
pub open spec fn in_state<P>(table: TableView<P>, index: int, state: State) -> TableView<P> {
    TableView { slots: table.slots.update(index, SlotView { state, ..table.slots[index] }), ..table }
}

/// The table with the slot at `index` poisoned by a panic that said
/// `message`, whatever the slot was doing.
pub open spec fn poisoned<P>(table: TableView<P>, index: int, message: Seq<char>) -> TableView<P> {
    TableView {
        slots: table.slots.update(
            index,
            SlotView {
                state: State::Poisoned,
                message: Some(message),
                ..table.slots[index]
            },
        ),
        ..table
    }
}

/// The generation a slot takes when its object goes; zero is passed over.
pub open spec fn retired_generation(generation: u32) -> u32 {
    if generation == u32::MAX {
        1
    } else {
        (generation + 1) as u32
    }
}

/// The table once the slot at `index` is free again, its generation retired.
pub open spec fn freed<P>(table: TableView<P>, index: int) -> TableView<P> {
    TableView {
        slots: table.slots.update(
            index,
            SlotView {
                generation: retired_generation(table.slots[index].generation),
                state: State::Free,
                object: None,
                message: None,
            },
        ),
        free: table.free.push(index as u32),
    }
}

/// A detail about a handle.
pub open spec fn about(handle: u64, rest: Seq<char>) -> Seq<char> {
    "handle "@ + hex(handle as nat) + rest
}

fn about_text(handle: u64, rest: &str) -> (text: String)
    ensures
        text@ == about(handle, rest@),
{
    let mut text: String = String::from_str("handle ");
    push_hex(&mut text, handle);
    text.append(rest);
    text
}

/// Refuse a handle that names no live object.
fn invalid(last: &mut LastError, handle: u64, rest: &str) -> (code: i32)
    ensures
        answers_code(code, told(SUBETHA_E_INVALID_HANDLE, about(handle, rest@)), old(last)@, final(last)@),
{
    let text: String = about_text(handle, rest);
    fail(last, SUBETHA_E_INVALID_HANDLE, text.as_str())
}

/// The slot a handle names, or why it names none; `gone` is what is said of
/// a handle whose generation has been retired.
pub open spec fn named_slot<P>(table: TableView<P>, handle: u64, gone: Seq<char>) -> Result<SlotView<P>, Report> {
    let index = handle_index(handle) as int;
    if index >= table.slots.len() {
        Err(told(SUBETHA_E_INVALID_HANDLE, about(handle, ": no such slot"@)))
    } else if table.slots[index].generation != handle_generation(handle) {
        Err(told(SUBETHA_E_INVALID_HANDLE, about(handle, gone)))
    } else {
        Ok(table.slots[index])
    }
}

/// Why a slot a handle names may not be called on as `kind`, if it may not.
pub open spec fn call_refusal<P>(slot: SlotView<P>, handle: u64, kind: u32) -> Option<Report> {
    match slot.state {
        State::Live => match slot.object {
            None => Some(told(SUBETHA_E_INVALID_HANDLE, about(handle, ": empty"@))),
            Some(object) => if object.kind_number() != kind {
                Some(
                    told(
                        SUBETHA_E_WRONG_KIND,
                        about(
                            handle,
                            " is kind "@ + dec(object.kind_number() as nat) + ", not "@ + dec(kind as nat),
                        ),
                    ),
                )
            } else {
                None
            },
        },
        State::Poisoned => Some(
            told(
                SUBETHA_E_HANDLE_POISONED,
                match slot.message {
                    Some(message) => about(handle, " poisoned by: "@ + message),
                    None => about(handle, " poisoned"@),
                },
            ),
        ),
        _ => Some(told(SUBETHA_E_INVALID_HANDLE, about(handle, ": not live"@))),
    }
}

/// What a borrow of `handle` as `kind` answers and what it makes of the
/// registry, for a thread whose word is `local`.
pub open spec fn borrow_outcome<P>(
    table: TableView<P>,
    registry: RegistryView,
    local: Result<usize, String>,
    available: bool,
    handle: u64,
    kind: u32,
) -> (Option<Report>, RegistryView) {
    if tagged(handle) {
        (
            Some(
                told(
                    SUBETHA_E_INVALID_HANDLE,
                    about(handle, ": that is a hold token, not a handle"@),
                ),
            ),
            registry,
        )
    } else {
        match named_slot(table, handle, ": its object was destroyed"@) {
            Err(report) => (Some(report), registry),
            Ok(slot) => match entry_refusal(registry, local) {
                Some(report) => (Some(report), registry),
                None => match call_refusal(slot, handle, kind) {
                    Some(report) => (
                        Some(report),
                        RegistryView { barrier: settled_barrier(registry.barrier, available), ..registry },
                    ),
                    None => (
                        None,
                        entered(registry, local->Ok_0 as nat, handle_index(handle), available),
                    ),
                },
            },
        }
    }
}

/// What asking the kind of `handle` answers.
pub open spec fn kind_outcome<P>(table: TableView<P>, handle: u64) -> Result<u32, Report> {
    match named_slot(table, handle, ": destroyed"@) {
        Err(report) => Err(report),
        Ok(slot) => if slot.state == State::Live || slot.state == State::Poisoned {
            match slot.object {
                Some(object) => Ok(object.kind_number()),
                None => Err(told(SUBETHA_E_INVALID_HANDLE, about(handle, ": empty"@))),
            }
        } else {
            Err(told(SUBETHA_E_INVALID_HANDLE, about(handle, ": not live"@)))
        },
    }
}

/// What asking whether `handle` is poisoned answers.
pub open spec fn poison_outcome<P>(table: TableView<P>, handle: u64) -> Result<bool, Report> {
    match named_slot(table, handle, ": destroyed"@) {
        Err(report) => Err(report),
        Ok(slot) => match slot.state {
            State::Live => Ok(false),
            State::Poisoned => Ok(true),
            _ => Err(told(SUBETHA_E_INVALID_HANDLE, about(handle, ": not live"@))),
        },
    }
}

/// Why `handle` may not be destroyed, if it may not.
pub open spec fn close_refusal<P>(table: TableView<P>, handle: u64) -> Option<Report> {
    if tagged(handle) {
        Some(
            told(
                SUBETHA_E_INVALID_HANDLE,
                about(
                    handle,
                    ": that is a hold token, not a handle - release it on the object that issued it"@,
                ),
            ),
        )
    } else {
        match named_slot(table, handle, ": already destroyed"@) {
            Err(report) => Some(report),
            Ok(slot) => if slot.state == State::Live || slot.state == State::Poisoned {
                None
            } else {
                Some(
                    told(
                        SUBETHA_E_INVALID_HANDLE,
                        about(handle, ": not live, or being destroyed by another thread"@),
                    ),
                )
            },
        }
    }
}

/// Whether a handle names the object of a slot in `state` to its callers: it
/// is live or poisoned, and can be destroyed.
pub open spec fn is_open(state: State) -> bool {
    state == State::Live || state == State::Poisoned
}

/// Whether a slot in `state` holds an object no call is let into any more:
/// its destroy may take it out once the calls inside it have left.
pub open spec fn is_shut(state: State) -> bool {
    state == State::Closing || state == State::Poisoned
}

/// The table once every live or poisoned slot among the first `n` has been
/// destroyed, in order.
pub open spec fn swept<P>(table: TableView<P>, n: nat) -> TableView<P>
    decreases n,
{
    if n == 0 {
        table
    } else {
        let before = swept(table, (n - 1) as nat);
        if is_open(table.slots[n - 1].state) {
            freed(before, n - 1)
        } else {
            before
        }
    }
}

/// How many of `slots` a sweep destroys.
pub open spec fn count_open<P>(slots: Seq<SlotView<P>>) -> nat
    decreases slots.len(),
{
    if slots.len() == 0 {
        0
    } else {
        count_open(slots.drop_last()) + if is_open(slots.last().state) {
            1nat
        } else {
            0nat
        }
    }
}

/// The handles of the live and poisoned slots among `slots`, in order.
pub open spec fn open_handles<P>(slots: Seq<SlotView<P>>) -> Seq<u64>
    decreases slots.len(),
{
    if slots.len() == 0 {
        seq![]
    } else {
        let before = open_handles(slots.drop_last());
        if is_open(slots.last().state) {
            before.push(handle_for((slots.len() - 1) as u32, slots.last().generation))
        } else {
            before
        }
    }
}

/// An object borrowed for the duration of one call. Giving it back with
/// [`Borrowed::release`] lets a pending destroy proceed.
pub struct Borrowed {
    index: u32,
    inside: Inside,
}

impl Borrowed {
    /// The slot borrowed.
    pub closed spec fn index(&self) -> u32 {
        self.index
    }

    /// The thread the call is on.
    pub closed spec fn thread(&self) -> nat {
        self.inside.thread()
    }

    /// The object borrowed.
    pub fn object<'a, P>(&self, table: &'a Table<P>) -> (object: &'a Object<P>)
        requires
            self.index() < table@.slots.len(),
            table@.slots[self.index() as int].object is Some,
        ensures
            Some(*object) == table@.slots[self.index() as int].object,
    {
        let slot: &Slot<P> = &table.slots[self.index as usize];
        assert(table@.slots[self.index as int] == slot@);
        match &slot.object {
            Some(object) => object,
            None => vstd::pervasive::unreached(),
        }
    }

    /// Mark the slot poisoned and keep the panic's text: every later call on
    /// the handle fails until it is destroyed.
    pub fn poison<P>(&self, table: &mut Table<P>, message: String)
        requires
            old(table).wf(),
            self.index() < old(table)@.slots.len(),
            old(table)@.slots[self.index() as int].state != State::Free,
        ensures
            final(table).wf(),
            final(table)@ == poisoned(old(table)@, self.index() as int, message@),
    {
        table.poison_slot(self.index, message);
    }

    /// The call is over.
    pub fn release(self, registry: &mut Registry)
        requires
            old(registry)@.wf(),
            self.thread() < old(registry)@.words.len(),
        ensures
            final(registry)@.wf(),
            final(registry)@ == (RegistryView {
                words: old(registry)@.words.update(self.thread() as int, 0),
                ..old(registry)@
            }),
    {
        self.inside.leave(registry);
    }
}

/// The table.
pub struct Table<P> {
    slots: Vec<Slot<P>>,
    free: Vec<u32>,
    live: u64,
}

impl<P> View for Table<P> {
    type V = TableView<P>;

    closed spec fn view(&self) -> TableView<P> {
        TableView { slots: self.slots@.map_values(|s: Slot<P>| s@), free: self.free@ }
    }
}

impl<P> Table<P> {
    /// The count of held slots the table keeps.
    pub closed spec fn counted(&self) -> u64 {
        self.live
    }

    /// The slots are in order, and the count of held ones is right.
    pub open spec fn wf(&self) -> bool {
        self@.wf() && self.counted() == count_held(self@.slots)
    }

    /// A table with no slots.
    pub fn new() -> (table: Self)
        ensures
            table.wf(),
            table@ == (TableView::<P> { slots: seq![], free: seq![] }),
    {
        let table = Table { slots: Vec::new(), free: Vec::new(), live: 0 };
        assert(table@.slots =~= seq![]);
        assert(table@.free =~= seq![]);
        table
    }

    /// Objects currently held by a handle, poisoned ones included.
    pub fn live(&self) -> (live: u64)
        requires
            self.wf(),
        ensures
            live == count_held(self@.slots),
    {
        self.live
    }

    /// Whether another object can be placed while an index still fits.
    pub fn can_insert(&self) -> (room: bool)
        ensures
            room == self@.has_room(),
    {
        self.free.len() > 0 || self.slots.len() <= 0x4000_0000
    }

    /// Place an object and issue its handle.
    pub fn insert(&mut self, object: Object<P>) -> (handle: u64)
        requires
            old(self).wf(),
            old(self)@.has_room(),
        ensures
            final(self).wf(),
            handle == next_handle(old(self)@),
            final(self)@ == placed(old(self)@, object),
    {
        let ghost before = self@;
        let index: u32 = match self.free.pop() {
            Some(index) => {
                proof {
                    assert(before.free.last() == index);
                    assert(self@.free =~= before.free.drop_last());
                    assert(self@.slots =~= before.slots);
                }
                index
            },
            None => self.grow(),
        };
        let ghost ready = roomy(before);
        proof {
            a_table_with_room_keeps_its_side(before);
            assert(ready.free[ready.free.len() - 1] == index);
            assert(self@.slots == ready.slots);
            assert(self@.free == ready.free.drop_last());
            assert(self.live == count_held(ready.slots));
            the_count_is_at_most_the_slots(ready.slots);
            a_free_slot_leaves_room_in_the_count(ready.slots, index as int);
        }
        let at: usize = index as usize;
        assert(self.slots@[at as int]@ == ready.slots[at as int]);
        let generation: u32 = self.slots[at].generation;
        self.slots[at].object = Some(object);
        self.slots[at].panic_message = None;
        self.slots[at].state = State::Live;
        self.live += 1;
        proof {
            let slot = SlotView { generation, state: State::Live, object: Some(object), message: None };
            assert(self.slots@[at as int]@ == slot);
            assert(self@.slots =~= ready.slots.update(at as int, slot));
            assert(self@.free =~= ready.free.drop_last());
            the_held_count_follows_a_slot(ready.slots, at as int, slot);
            placing_keeps_the_table_in_order(before, object);
        }
        encode(index, generation)
    }

    /// Place objects in order and issue their handles.
    pub fn insert_all(&mut self, objects: Vec<Object<P>>) -> (handles: Vec<u64>)
        requires
            old(self).wf(),
            old(self)@.has_room_for(objects@.len()),
        ensures
            final(self).wf(),
            handles@ == handles_for(old(self)@, objects@),
            final(self)@ == placed_all(old(self)@, objects@),
            count_held(final(self)@.slots) == count_held(old(self)@.slots) + objects@.len(),
    {
        let ghost before = self@;
        let ghost all = objects@;
        let mut handles: Vec<u64> = Vec::new();
        assert(all.take(0) =~= seq![]);
        for object in it: objects
            invariant
                self.wf(),
                before == old(self)@,
                it.seq() == all,
                handles@ == handles_for(before, all.take(it.index() as int)),
                self@ == placed_all(before, all.take(it.index() as int)),
                count_held(self@.slots) == count_held(before.slots) + it.index(),
                before.has_room_for(all.len()),
        {
            proof {
                assert(all.take(it.index() + 1).drop_last() =~= all.take(it.index() as int));
                a_table_has_room_until_its_indices_are_used_up(self@);
                the_count_follows_the_objects(self@, object, -1, seq![]);
            }
            let handle: u64 = self.insert(object);
            handles.push(handle);
        }
        assert(all.take(all.len() as int) =~= all);
        handles
    }

    /// Double the table; the index of the first new slot comes back and the
    /// others go on the free list.
    fn grow(&mut self) -> (first: u32)
        requires
            old(self).wf(),
            old(self)@.free.len() == 0,
            old(self)@.slots.len() <= 0x4000_0000,
        ensures
            first == roomy(old(self)@).free.last(),
            final(self)@.slots == roomy(old(self)@).slots,
            final(self)@.free == roomy(old(self)@).free.drop_last(),
            final(self).counted() == count_held(final(self)@.slots),
            final(self)@.slots.len() <= 0x8000_0000,
    {
        let ghost before = self@;
        let old_len: usize = self.slots.len();
        assert(old_len == before.slots.len());
        let new_len: usize = if old_len == 0 {
            2
        } else {
            old_len * 2
        };
        let ghost wanted = roomy(before);
        let mut i: usize = old_len;
        while i < new_len
            invariant
                old_len <= i <= new_len,
                new_len == grown_len(old_len as nat),
                self.slots@.len() == i,
                self.free@ == before.free,
                self.live == count_held(self@.slots),
                wanted == roomy(before),
                before.slots.len() == old_len,
                before.free.len() == 0,
                self@.slots == wanted.slots.take(i as int),
            decreases new_len - i,
        {
            let ghost had = self@.slots;
            self.slots.push(Slot::new());
            proof {
                assert(self@.slots =~= had.push(vacant()));
                assert(self@.slots.drop_last() =~= had);
                assert(wanted.slots.take(i + 1) =~= wanted.slots.take(i as int).push(vacant()));
            }
            i += 1;
        }
        assert(self@.slots =~= wanted.slots);
        let mut k: usize = new_len;
        assert(self.free@ =~= wanted.free.take(0));
        while k > old_len + 1
            invariant
                old_len + 1 <= k <= new_len <= 0x8000_0000,
                new_len == grown_len(old_len as nat),
                before.slots.len() == old_len,
                before.free.len() == 0,
                self@.slots == wanted.slots,
                self.live == count_held(self@.slots),
                wanted == roomy(before),
                self.free@ == wanted.free.take(new_len - k),
            decreases k,
        {
            k -= 1;
            self.free.push(k as u32);
            assert(self.free@ =~= wanted.free.take(new_len - k));
        }
        assert(self@.free =~= wanted.free.drop_last());
        old_len as u32
    }

    /// Borrow the object a handle names for one call. Refuses a handle that
    /// was never issued, has been destroyed, is being destroyed, or is
    /// poisoned; refuses a live handle of another kind.
    pub fn borrow(
        &self,
        registry: &mut Registry,
        last: &mut LastError,
        local: Result<usize, String>,
        available: bool,
        handle: u64,
        kind: u32,
    ) -> (borrowed: Result<Borrowed, i32>)
        requires
            self.wf(),
            old(registry)@.wf(),
            local matches Ok(thread) ==> thread < old(registry)@.words.len() && !old(
                registry,
            )@.free.contains(thread),
        ensures
            final(registry)@.wf(),
            final(registry)@ == borrow_outcome(
                self@,
                old(registry)@,
                local,
                available,
                handle,
                kind,
            ).1,
            match borrow_outcome(self@, old(registry)@, local, available, handle, kind).0 {
                Some(report) => answers(borrowed, Err(report), old(last)@, final(last)@),
                None => {
                    &&& borrowed matches Ok(guard)
                    &&& guard.index() == handle_index(handle)
                    &&& guard.thread() == local->Ok_0
                    &&& final(last)@ == old(last)@
                },
            },
    {
        if is_token(handle) {
            return Err(invalid(last, handle, ": that is a hold token, not a handle"));
        }
        let (index, generation): (u32, u32) = decode(handle);
        let at: usize = index as usize;
        if at >= self.slots.len() {
            return Err(invalid(last, handle, ": no such slot"));
        }
        let slot: &Slot<P> = &self.slots[at];
        assert(self@.slots[at as int] == slot@);
        if slot.generation != generation {
            return Err(invalid(last, handle, ": its object was destroyed"));
        }
        // Published before the state is read, so a destroy either waits for
        // this call or this call sees the slot closing.
        let inside: Inside = match enter(registry, last, local, index, available) {
            Ok(inside) => inside,
            Err(code) => {
                return Err(code);
            },
        };
        let refusal: Option<i32> = match slot.state {
            State::Live => match &slot.object {
                Some(object) => {
                    let is: u32 = object.kind();
                    if is != kind {
                        let mut text: String = about_text(handle, " is kind ");
                        push_dec(&mut text, is as u64);
                        text.append(", not ");
                        push_dec(&mut text, kind as u64);
                        proof {
                            assert(text@ =~= about(
                                handle,
                                " is kind "@ + dec(is as nat) + ", not "@ + dec(kind as nat),
                            ));
                        }
                        Some(fail(last, SUBETHA_E_WRONG_KIND, text.as_str()))
                    } else {
                        None
                    }
                },
                None => Some(invalid(last, handle, ": empty")),
            },
            State::Poisoned => {
                let text: String = match &slot.panic_message {
                    Some(message) => {
                        let mut text: String = about_text(handle, " poisoned by: ");
                        text.append(message.as_str());
                        proof {
                            assert(text@ =~= about(handle, " poisoned by: "@ + message@));
                        }
                        text
                    },
                    None => about_text(handle, " poisoned"),
                };
                Some(fail(last, SUBETHA_E_HANDLE_POISONED, text.as_str()))
            },
            _ => Some(invalid(last, handle, ": not live")),
        };
        match refusal {
            Some(code) => {
                inside.leave(registry);
                proof {
                    assert(registry@.words =~= old(registry)@.words);
                }
                Err(code)
            },
            None => Ok(Borrowed { index, inside }),
        }
    }

    /// The kind a live or poisoned handle names.
    pub fn kind_of(&self, last: &mut LastError, handle: u64) -> (kind: Result<u32, i32>)
        ensures
            answers(kind, kind_outcome(self@, handle), old(last)@, final(last)@),
    {
        let (index, generation): (u32, u32) = decode(handle);
        let at: usize = index as usize;
        if at >= self.slots.len() {
            return Err(invalid(last, handle, ": no such slot"));
        }
        let slot: &Slot<P> = &self.slots[at];
        assert(self@.slots[at as int] == slot@);
        if slot.generation != generation {
            return Err(invalid(last, handle, ": destroyed"));
        }
        match slot.state {
            State::Live | State::Poisoned => match &slot.object {
                Some(object) => Ok(object.kind()),
                None => Err(invalid(last, handle, ": empty")),
            },
            _ => Err(invalid(last, handle, ": not live")),
        }
    }

    /// Whether a live handle is poisoned.
    pub fn is_poisoned(&self, last: &mut LastError, handle: u64) -> (is: Result<bool, i32>)
        ensures
            answers(is, poison_outcome(self@, handle), old(last)@, final(last)@),
    {
        let (index, generation): (u32, u32) = decode(handle);
        let at: usize = index as usize;
        if at >= self.slots.len() {
            return Err(invalid(last, handle, ": no such slot"));
        }
        let slot: &Slot<P> = &self.slots[at];
        assert(self@.slots[at as int] == slot@);
        if slot.generation != generation {
            return Err(invalid(last, handle, ": destroyed"));
        }
        match slot.state {
            State::Live => Ok(false),
            State::Poisoned => Ok(true),
            _ => Err(invalid(last, handle, ": not live")),
        }
    }

    /// The first step of a destroy: refuse new calls on the object.
    pub fn close(&mut self, last: &mut LastError, handle: u64) -> (closed: Result<u32, i32>)
        requires
            old(self).wf(),
        ensures
            final(self).wf(),
            match close_refusal(old(self)@, handle) {
                Some(report) => answers(closed, Err(report), old(last)@, final(last)@) && final(self)@ == old(
                    self,
                )@,
                None => {
                    &&& closed == Ok::<u32, i32>(handle_index(handle))
                    &&& handle_index(handle) < old(self)@.slots.len()
                    &&& final(last)@ == old(last)@
                    &&& final(self)@ == in_state(old(self)@, handle_index(handle) as int, State::Closing)
                },
            },
    {
        if is_token(handle) {
            return Err(
                invalid(
                    last,
                    handle,
                    ": that is a hold token, not a handle - release it on the object that issued it",
                ),
            );
        }
        let (index, generation): (u32, u32) = decode(handle);
        let at: usize = index as usize;
        if at >= self.slots.len() {
            return Err(invalid(last, handle, ": no such slot"));
        }
        assert(self@.slots[at as int] == self.slots@[at as int]@);
        if self.slots[at].generation != generation {
            return Err(invalid(last, handle, ": already destroyed"));
        }
        if self.slots[at].state != State::Live && self.slots[at].state != State::Poisoned {
            return Err(invalid(last, handle, ": not live, or being destroyed by another thread"));
        }
        let ghost before = self@;
        self.slots[at].state = State::Closing;
        proof {
            let slot = SlotView { state: State::Closing, ..before.slots[at as int] };
            assert(self@.slots =~= before.slots.update(at as int, slot));
            assert(self@.free =~= before.free);
            a_held_slot_may_change_while_it_is_held(before, at as int, slot);
            the_held_count_follows_a_slot(before.slots, at as int, slot);
        }
        Ok(index)
    }

    /// The object in a slot that lets no more calls in, so what is parked on
    /// it can be interrupted; `None` for any other slot.
    pub fn closing(&self, index: u32) -> (object: Option<&Object<P>>)
        ensures
            match object {
                Some(o) => index < self@.slots.len() && is_shut(self@.slots[index as int].state)
                    && self@.slots[index as int].object == Some(*o),
                None => index >= self@.slots.len() || !is_shut(self@.slots[index as int].state)
                    || self@.slots[index as int].object is None,
            },
    {
        let at: usize = index as usize;
        if at >= self.slots.len() {
            return None;
        }
        assert(self@.slots[index as int] == self.slots@[index as int]@);
        let state: State = self.slots[at].state;
        if state == State::Closing || state == State::Poisoned {
            self.slots[at].object.as_ref()
        } else {
            None
        }
    }

    /// The last step of a destroy: once `wait` is over, take the object out,
    /// retire the generation so no handle issued before names the slot, and
    /// free it. While the wait is not over nothing changes.
    ///
    /// A call that panics while it is waited for leaves the slot poisoned,
    /// and the destroy goes on.
    pub fn take_when_over(&mut self, registry: &Registry, wait: &Wait, index: u32) -> (object: Option<Object<P>>)
        requires
            old(self).wf(),
            index < old(self)@.slots.len(),
            is_shut(old(self)@.slots[index as int].state),
            wait.slots().contains(index),
        ensures
            final(self).wf(),
            if wait.over(registry@) {
                &&& object is Some
                &&& object == old(self)@.slots[index as int].object
                &&& final(self)@ == freed(old(self)@, index as int)
            } else {
                object is None && final(self)@ == old(self)@
            },
    {
        assert(slot_wf(self@.slots[index as int]));
        if wait.is_over(registry) {
            self.retire(index)
        } else {
            None
        }
    }

    fn retire(&mut self, index: u32) -> (object: Option<Object<P>>)
        requires
            old(self).wf(),
            index < old(self)@.slots.len(),
            is_shut(old(self)@.slots[index as int].state),
        ensures
            final(self).wf(),
            object == old(self)@.slots[index as int].object,
            final(self)@ == freed(old(self)@, index as int),
    {
        let ghost before = self@;
        let at: usize = index as usize;
        assert(self.slots@[at as int]@ == before.slots[at as int]);
        let object: Option<Object<P>> = self.slots[at].object.take();
        self.slots[at].panic_message = None;
        let generation: u32 = self.slots[at].generation;
        let next: u32 = match generation.wrapping_add(1) {
            0 => 1,
            g => g,
        };
        proof {
            a_held_slot_counts(before.slots, at as int);
        }
        self.slots[at].generation = next;
        self.slots[at].state = State::Free;
        self.live -= 1;
        self.free.push(index);
        proof {
            let slot = SlotView {
                generation: retired_generation(generation),
                state: State::Free,
                object: None,
                message: None,
            };
            assert(self.slots@[at as int]@ == slot);
            assert(self@.slots =~= before.slots.update(at as int, slot));
            assert(self@.free =~= before.free.push(index));
            the_held_count_follows_a_slot(before.slots, at as int, slot);
            freeing_keeps_the_table_in_order(before, at as int);
        }
        object
    }

    /// Release a handle: refuse new calls, drop the object, and retire the
    /// generation so the handle can never name anything again.
    /// Poisoned handles are destroyed the same way; that is how they are
    /// recovered.
    ///
    /// An object that is taken out this way has no thread inside it, so there
    /// is nobody to interrupt and nothing to wait out; a destroy that has
    /// calls to wait for goes through the steps.
    pub fn destroy(&mut self, registry: &mut Registry, last: &mut LastError, handle: u64) -> (code: i32)
        requires
            old(self).wf(),
            close_refusal(old(self)@, handle) is None ==> old(registry)@.clear_of(handle_index(handle)),
        ensures
            final(self).wf(),
            match close_refusal(old(self)@, handle) {
                Some(report) => {
                    &&& answers_code(code, report, old(last)@, final(last)@)
                    &&& final(self)@ == old(self)@
                    &&& final(registry)@ == old(registry)@
                },
                None => {
                    &&& code == SUBETHA_OK
                    &&& final(last)@ == old(last)@
                    &&& final(self)@ == freed(old(self)@, handle_index(handle) as int)
                    &&& final(registry)@ == (RegistryView {
                        epoch: next_epoch(old(registry)@.epoch),
                        ..old(registry)@
                    })
                },
            },
    {
        let ghost before = self@;
        let index: u32 = match self.close(last, handle) {
            Ok(index) => index,
            Err(code) => {
                return code;
            },
        };
        let wait = wait_for_calls_on(registry, index);
        proof {
            assert forall|t: int| 0 <= t < registry@.words.len() implies lets_pass(
                #[trigger] registry@.words[t],
                wait.target(),
                wait.slots(),
            ) by {
                assert(published(registry@.words[t]).0 != index + 1);
            }
            assert(wait.slots()[0] == index);
        }
        let object: Option<Object<P>> = self.take_when_over(registry, &wait, index);
        proof {
            assert(self@.slots =~= freed(before, index as int).slots);
            assert(self@.free =~= freed(before, index as int).free);
        }
        SUBETHA_OK
    }

    /// Destroy every handle still held. Returns how many there were.
    pub fn destroy_all(&mut self, registry: &mut Registry, last: &mut LastError) -> (closed: u64)
        requires
            old(self).wf(),
            forall|i: u32|
                i < old(self)@.slots.len() && is_open(old(self)@.slots[i as int].state)
                    ==> #[trigger] old(registry)@.clear_of(i),
        ensures
            final(self).wf(),
            closed == count_open(old(self)@.slots),
            final(self)@ == swept(old(self)@, old(self)@.slots.len()),
            final(last)@ == old(last)@,
            final(registry)@ == (RegistryView {
                epoch: epoch_after(old(registry)@.epoch, count_open(old(self)@.slots)),
                ..old(registry)@
            }),
    {
        let ghost before = self@;
        let mut closed: u64 = 0;
        let mut i: usize = 0;
        proof {
            a_destroy_steps_the_epoch(registry@.epoch, 0);
        }
        while i < self.slots.len()
            invariant
                self.wf(),
                before == old(self)@,
                before.wf(),
                i <= before.slots.len() <= 0x8000_0000,
                self@.slots.len() == before.slots.len(),
                self.slots@.len() == before.slots.len(),
                self@ == swept(before, i as nat),
                closed == count_open(before.slots.take(i as int)),
                closed <= i,
                forall|j: int| i <= j < before.slots.len() ==> self@.slots[j] == before.slots[j],
                forall|j: u32|
                    j < before.slots.len() && is_open(before.slots[j as int].state)
                        ==> #[trigger] old(registry)@.clear_of(j),
                registry@ == (RegistryView {
                    epoch: epoch_after(old(registry)@.epoch, closed as nat),
                    ..old(registry)@
                }),
                last@ == old(last)@,
            decreases before.slots.len() - i,
        {
            assert(before.slots.take(i + 1).drop_last() =~= before.slots.take(i as int));
            assert(self.slots@[i as int]@ == self@.slots[i as int]);
            let state: State = self.slots[i].state;
            if state == State::Live || state == State::Poisoned {
                let handle: u64 = encode(i as u32, self.slots[i].generation);
                proof {
                    a_handle_is_its_index_and_generation(i as u32, self.slots@[i as int].generation, 0);
                    assert(slot_wf(self@.slots[i as int]));
                    an_issued_handle_is_neither_zero_nor_a_token(i as u32, self.slots@[i as int].generation);
                    assert(old(registry)@.clear_of(i as u32));
                    assert(registry@.clear_of(i as u32));
                    assert(close_refusal(self@, handle) is None);
                }
                if self.destroy(registry, last, handle) == SUBETHA_OK {
                    proof {
                        a_destroy_steps_the_epoch(old(registry)@.epoch, closed as nat);
                    }
                    closed += 1;
                }
            }
            i += 1;
        }
        assert(before.slots.take(i as int) =~= before.slots);
        closed
    }

    /// The handles still held and not closing: the ones a caller that has to
    /// wake and wait for calls in flight destroys one by one.
    pub fn held(&self) -> (handles: Vec<u64>)
        requires
            self.wf(),
        ensures
            handles@ == open_handles(self@.slots),
    {
        let mut handles: Vec<u64> = Vec::new();
        let mut i: usize = 0;
        while i < self.slots.len()
            invariant
                self.wf(),
                i <= self.slots@.len(),
                self@.slots.len() == self.slots@.len(),
                handles@ == open_handles(self@.slots.take(i as int)),
            decreases self.slots@.len() - i,
        {
            assert(self@.slots.take(i + 1).drop_last() =~= self@.slots.take(i as int));
            assert(self.slots@[i as int]@ == self@.slots[i as int]);
            let state: State = self.slots[i].state;
            if state == State::Live || state == State::Poisoned {
                handles.push(encode(i as u32, self.slots[i].generation));
            }
            i += 1;
        }
        assert(self@.slots.take(i as int) =~= self@.slots);
        handles
    }

    fn poison_slot(&mut self, index: u32, message: String)
        requires
            old(self).wf(),
            index < old(self)@.slots.len(),
            old(self)@.slots[index as int].state != State::Free,
        ensures
            final(self).wf(),
            final(self)@ == poisoned(old(self)@, index as int, message@),
    {
        let ghost before = self@;
        let at: usize = index as usize;
        assert(self.slots@[at as int]@ == before.slots[at as int]);
        self.slots[at].state = State::Poisoned;
        self.slots[at].panic_message = Some(message);
        proof {
            let slot = SlotView {
                state: State::Poisoned,
                message: Some(message@),
                ..before.slots[at as int]
            };
            assert(self.slots@[at as int]@ == slot);
            assert(self@.slots =~= before.slots.update(at as int, slot));
            assert(self@.free =~= before.free);
            a_held_slot_may_change_while_it_is_held(before, at as int, slot);
            the_held_count_follows_a_slot(before.slots, at as int, slot);
        }
    }
}

/// Changing one slot changes the count by what changed in that slot.
proof fn the_held_count_follows_a_slot<P>(slots: Seq<SlotView<P>>, i: int, slot: SlotView<P>)
    requires
        0 <= i < slots.len(),
    ensures
        count_held(slots.update(i, slot)) == count_held(slots) + (if slot.state == State::Free {
            0int
        } else {
            1
        }) - (if slots[i].state == State::Free {
            0int
        } else {
            1
        }),
    decreases slots.len(),
{
    if i == slots.len() - 1 {
        assert(slots.update(i, slot).drop_last() =~= slots.drop_last());
    } else {
        the_held_count_follows_a_slot(slots.drop_last(), i, slot);
        assert(slots.update(i, slot).drop_last() =~= slots.drop_last().update(i, slot));
    }
}

proof fn the_count_is_at_most_the_slots<P>(slots: Seq<SlotView<P>>)
    ensures
        count_held(slots) <= slots.len(),
    decreases slots.len(),
{
    if slots.len() > 0 {
        the_count_is_at_most_the_slots(slots.drop_last());
    }
}

proof fn a_free_slot_leaves_room_in_the_count<P>(slots: Seq<SlotView<P>>, i: int)
    requires
        0 <= i < slots.len(),
        slots[i].state == State::Free,
    ensures
        count_held(slots) < slots.len(),
    decreases slots.len(),
{
    if i == slots.len() - 1 {
        the_count_is_at_most_the_slots(slots.drop_last());
    } else {
        a_free_slot_leaves_room_in_the_count(slots.drop_last(), i);
    }
}

proof fn a_held_slot_counts<P>(slots: Seq<SlotView<P>>, i: int)
    requires
        0 <= i < slots.len(),
        slots[i].state != State::Free,
    ensures
        count_held(slots) > 0,
    decreases slots.len(),
{
    if i < slots.len() - 1 {
        a_held_slot_counts(slots.drop_last(), i);
    }
}

/// A table that has not used up its indices can double, and one that has
/// is as long as they reach.
proof fn a_table_doubles_to_the_last_index(len: nat)
    requires
        is_table_len(len),
    ensures
        len <= 0x8000_0000,
        len <= 0x4000_0000 || len == 0x8000_0000,
        len <= 0x4000_0000 ==> is_table_len(grown_len(len)),
{
    lemma2_to64();
    if len == 0 {
        assert(pow2(1) == 2);
    } else {
        let k = choose|k: nat| 1 <= k <= 31 && len == #[trigger] pow2(k);
        if k < 30 {
            lemma_pow2_strictly_increases(k, 30);
        }
        if k < 31 {
            lemma_pow2_unfold(k + 1);
            assert(pow2(k + 1) == grown_len(len));
        }
    }
}

/// A table has room for another object exactly as long as it holds fewer
/// than the indices a handle has: 2^31 of them.
pub proof fn a_table_has_room_until_its_indices_are_used_up<P>(table: TableView<P>)
    requires
        table.wf(),
    ensures
        table.has_room() <==> table.has_room_for(1),
{
    a_table_doubles_to_the_last_index(table.slots.len());
    the_count_is_at_most_the_slots(table.slots);
    if table.free.len() > 0 {
        assert(table.slots[table.free[0] as int].state == State::Free);
        a_free_slot_leaves_room_in_the_count(table.slots, table.free[0] as int);
    }
    if table.free.len() == 0 {
        assert forall|i: int| 0 <= i < table.slots.len() implies (#[trigger] table.slots[i]).state != State::Free by {
            if table.slots[i].state == State::Free {
                assert(table.free.contains(i as u32));
            }
        }
        held_slots_all_count(table.slots);
    }
}

proof fn held_slots_all_count<P>(slots: Seq<SlotView<P>>)
    requires
        forall|i: int| 0 <= i < slots.len() ==> (#[trigger] slots[i]).state != State::Free,
    ensures
        count_held(slots) == slots.len(),
    decreases slots.len(),
{
    if slots.len() > 0 {
        held_slots_all_count(slots.drop_last());
    }
}

/// Growing keeps the table in order.
pub(crate) proof fn a_table_with_room_keeps_its_side<P>(table: TableView<P>)
    requires
        table.wf(),
        table.has_room(),
    ensures
        roomy(table).wf(),
        roomy(table).free.len() > 0,
{
    if table.free.len() == 0 {
        a_table_doubles_to_the_last_index(table.slots.len());
        let ready = roomy(table);
        let len = table.slots.len();
        let grown = grown_len(len);
        assert forall|i: int| 0 <= i < ready.slots.len() && (#[trigger] ready.slots[i]).state
            == State::Free implies ready.free.contains(i as u32) by {
            if i < len {
                assert(table.slots[i].state == State::Free);
                assert(table.free.contains(i as u32));
            } else {
                assert(ready.free[grown - 1 - i] == i as u32);
            }
        }
        assert forall|i: int| 0 <= i < ready.slots.len() implies slot_wf(#[trigger] ready.slots[i]) by {
            if i < len {
                assert(slot_wf(table.slots[i]));
            }
        }
    }
}

/// A held slot may change as long as it stays held.
pub(crate) proof fn a_held_slot_may_change_while_it_is_held<P>(table: TableView<P>, i: int, slot: SlotView<P>)
    requires
        table.wf(),
        0 <= i < table.slots.len(),
        table.slots[i].state != State::Free,
        slot.state != State::Free,
        slot_wf(slot),
    ensures
        (TableView { slots: table.slots.update(i, slot), ..table }).wf(),
{
    let after = TableView { slots: table.slots.update(i, slot), ..table };
    assert forall|k: int| 0 <= k < after.free.len() implies (#[trigger] after.free[k]) < after.slots.len()
        && after.slots[after.free[k] as int].state == State::Free by {
        assert(table.slots[table.free[k] as int].state == State::Free);
    }
    assert forall|j: int| 0 <= j < after.slots.len() implies slot_wf(#[trigger] after.slots[j]) by {
        if j != i {
            assert(slot_wf(table.slots[j]));
        }
    }
    assert forall|j: int| 0 <= j < after.slots.len() && (#[trigger] after.slots[j]).state
        == State::Free implies after.free.contains(j as u32) by {
        assert(table.slots[j].state == State::Free);
    }
}

/// Placing an object keeps the table in order.
pub(crate) proof fn placing_keeps_the_table_in_order<P>(table: TableView<P>, object: Object<P>)
    requires
        table.wf(),
        table.has_room(),
    ensures
        placed(table, object).wf(),
{
    a_table_with_room_keeps_its_side(table);
    let ready = roomy(table);
    let after = placed(table, object);
    let at = ready.free.len() - 1;
    let i = ready.free[at] as int;
    assert forall|j: int| 0 <= j < after.slots.len() implies slot_wf(#[trigger] after.slots[j]) by {
        assert(slot_wf(ready.slots[j]));
    }
    assert forall|j: int| 0 <= j < after.slots.len() && (#[trigger] after.slots[j]).state
        == State::Free implies after.free.contains(j as u32) by {
        assert(ready.slots[j].state == State::Free);
        let k = choose|k: int| 0 <= k < ready.free.len() && ready.free[k] == j as u32;
        assert(k != at);
        assert(after.free[k] == j as u32);
    }
    assert forall|k: int| 0 <= k < after.free.len() implies (#[trigger] after.free[k]) < after.slots.len()
        && after.slots[after.free[k] as int].state == State::Free by {
        assert(ready.free[k] < ready.slots.len());
        assert(ready.free[k] != ready.free[at]);
    }
}

/// Freeing a held slot keeps the table in order.
pub(crate) proof fn freeing_keeps_the_table_in_order<P>(table: TableView<P>, i: int)
    requires
        table.wf(),
        0 <= i < table.slots.len(),
        table.slots[i].state != State::Free,
    ensures
        freed(table, i).wf(),
{
    let after = freed(table, i);
    let n = table.free.len() as int;
    assert(after.free[n] == i as u32);
    assert(!table.free.contains(i as u32)) by {
        if table.free.contains(i as u32) {
            let k = choose|k: int| 0 <= k < table.free.len() && table.free[k] == i as u32;
            assert(table.slots[table.free[k] as int].state == State::Free);
        }
    }
    assert forall|j: int| 0 <= j < after.slots.len() implies slot_wf(#[trigger] after.slots[j]) by {
        if j != i {
            assert(slot_wf(table.slots[j]));
        }
    }
    assert forall|j: int| 0 <= j < after.slots.len() && (#[trigger] after.slots[j]).state
        == State::Free implies after.free.contains(j as u32) by {
        if j != i {
            assert(table.slots[j].state == State::Free);
            let k = choose|k: int| 0 <= k < table.free.len() && table.free[k] == j as u32;
            assert(after.free[k] == j as u32);
        }
    }
    assert forall|k: int| 0 <= k < after.free.len() implies (#[trigger] after.free[k]) < after.slots.len()
        && after.slots[after.free[k] as int].state == State::Free by {
        if k < n {
            assert(table.free[k] < table.slots.len());
            assert(table.slots[table.free[k] as int].state == State::Free);
        }
    }
    assert forall|a: int, b: int|
        0 <= a < after.free.len() && 0 <= b < after.free.len() && a != b implies after.free[a]
        != after.free[b] by {
        if a < n && b < n {
            assert(table.free[a] != table.free[b]);
        } else if a < n {
            assert(table.free.contains(table.free[a]));
        } else {
            assert(table.free.contains(table.free[b]));
        }
    }
}

/// A new handle names the object it was issued for, is neither zero nor a
/// token, may be called on as the object's kind, and may be destroyed.
pub proof fn a_new_handle_names_its_object<P>(table: TableView<P>, object: Object<P>)
    requires
        table.wf(),
        table.has_room(),
    ensures
        ({
            let after = placed(table, object);
            let handle = next_handle(table);
            let slot = after.slots[handle_index(handle) as int];
            &&& handle != SUBETHA_HANDLE_NONE
            &&& !tagged(handle)
            &&& handle_index(handle) < after.slots.len()
            &&& slot.object == Some(object)
            &&& forall|gone: Seq<char>| #[trigger] named_slot(after, handle, gone) == Ok::<SlotView<P>, Report>(slot)
            &&& call_refusal(slot, handle, object.kind_number()) is None
            &&& kind_outcome(after, handle) == Ok::<u32, Report>(object.kind_number())
            &&& poison_outcome(after, handle) == Ok::<bool, Report>(false)
            &&& close_refusal(after, handle) is None
        }),
{
    a_table_with_room_keeps_its_side(table);
    let ready = roomy(table);
    let index = next_index(table);
    assert(ready.free[ready.free.len() - 1] == index);
    let generation = ready.slots[index as int].generation;
    assert(slot_wf(ready.slots[index as int]));
    a_handle_is_its_index_and_generation(index, generation, 0);
    an_issued_handle_is_neither_zero_nor_a_token(index, generation);
}

/// A handle that names no object to a caller: asking its kind is refused.
pub open spec fn names_nothing<P>(table: TableView<P>, handle: u64) -> bool {
    kind_outcome(table, handle) is Err
}

/// Placing an object adds one handle and nothing else: it is not zero, its
/// generation is not zero, it is none of the handles that name an object, it
/// answers with the object's kind and is not poisoned, and the count goes up
/// by one. Every other handle answers as it did: one whose slot holds an
/// object names that slot as before, and one that named nothing still does.
pub proof fn an_insert_adds_one_handle<P>(table: TableView<P>, object: Object<P>, other: u64, gone: Seq<char>)
    requires
        table.wf(),
        table.has_room(),
    ensures
        ({
            let after = placed(table, object);
            let handle = next_handle(table);
            &&& after.wf()
            &&& handle != SUBETHA_HANDLE_NONE
            &&& handle_generation(handle) != 0
            &&& names_nothing(table, handle)
            &&& kind_outcome(after, handle) == Ok::<u32, Report>(object.kind_number())
            &&& poison_outcome(after, handle) == Ok::<bool, Report>(false)
            &&& count_held(after.slots) == count_held(table.slots) + 1
            &&& handle_index(other) < table.slots.len() && table.slots[handle_index(other) as int].state
                != State::Free ==> {
                &&& other != handle
                &&& named_slot(after, other, gone) == named_slot(table, other, gone)
                &&& kind_outcome(after, other) == kind_outcome(table, other)
                &&& poison_outcome(after, other) == poison_outcome(table, other)
                &&& close_refusal(after, other) == close_refusal(table, other)
            }
            &&& other != handle && names_nothing(table, other) ==> names_nothing(after, other)
        }),
{
    a_new_handle_names_its_object(table, object);
    placing_keeps_the_table_in_order(table, object);
    the_count_follows_the_objects(table, object, -1, seq![]);
    a_table_with_room_keeps_its_side(table);
    let ready = roomy(table);
    let index = next_index(table);
    let generation = ready.slots[index as int].generation;
    assert(ready.free[ready.free.len() - 1] == index);
    assert(ready.slots[index as int].state == State::Free);
    assert(slot_wf(ready.slots[index as int]));
    a_handle_is_its_index_and_generation(index, generation, other);
    if handle_index(other) < table.slots.len() && table.slots[handle_index(other) as int].state != State::Free {
        placing_leaves_every_other_handle_alone(table, object, other, gone);
        placing_leaves_every_other_handle_alone(table, object, other, ": destroyed"@);
        placing_leaves_every_other_handle_alone(table, object, other, ": already destroyed"@);
    }
}

/// Placing an object, even where the table grows, leaves every handle that
/// names an object naming it.
pub proof fn placing_leaves_every_other_handle_alone<P>(
    table: TableView<P>,
    object: Object<P>,
    handle: u64,
    gone: Seq<char>,
)
    requires
        table.wf(),
        table.has_room(),
        handle_index(handle) < table.slots.len(),
        table.slots[handle_index(handle) as int].state != State::Free,
    ensures
        named_slot(placed(table, object), handle, gone) == named_slot(table, handle, gone),
{
    a_table_with_room_keeps_its_side(table);
    let ready = roomy(table);
    assert(ready.slots[ready.free[ready.free.len() - 1] as int].state == State::Free);
}

/// Objects held at once have different handles.
pub proof fn held_objects_have_different_handles<P>(table: TableView<P>, i: u32, j: u32)
    requires
        i < table.slots.len(),
        j < table.slots.len(),
        i != j,
    ensures
        handle_for(i, table.slots[i as int].generation) != handle_for(j, table.slots[j as int].generation),
{
    a_handle_is_its_index_and_generation(i, table.slots[i as int].generation, 0);
    a_handle_is_its_index_and_generation(j, table.slots[j as int].generation, 0);
}

/// A handle is refused once its object is destroyed - for a call and for a
/// second destroy - and its slot is issued again under another generation.
pub proof fn a_destroyed_handle_is_refused_and_its_slot_reissued<P>(
    table: TableView<P>,
    registry: RegistryView,
    local: Result<usize, String>,
    available: bool,
    handle: u64,
    kind: u32,
)
    requires
        table.wf(),
        close_refusal(table, handle) is None,
    ensures
        ({
            let after = freed(table, handle_index(handle) as int);
            &&& borrow_outcome(after, registry, local, available, handle, kind) == (
                Some(
                    told(SUBETHA_E_INVALID_HANDLE, about(handle, ": its object was destroyed"@)),
                ),
                registry,
            )
            &&& close_refusal(after, handle) == Some(
                told(SUBETHA_E_INVALID_HANDLE, about(handle, ": already destroyed"@)),
            )
            &&& next_index(after) == handle_index(handle)
            &&& handle_generation(next_handle(after)) != handle_generation(handle)
        }),
{
    let after = freed(table, handle_index(handle) as int);
    assert(after.free[after.free.len() - 1] == handle_index(handle));
    a_handle_is_its_index_and_generation(
        next_index(after),
        after.slots[next_index(after) as int].generation,
        0,
    );
}

/// A handle can be destroyed exactly while it names a live or a poisoned
/// object, and is otherwise refused as one that names nothing.
pub proof fn a_handle_can_be_destroyed_while_it_names_an_object<P>(table: TableView<P>, handle: u64)
    requires
        table.wf(),
    ensures
        close_refusal(table, handle) is None <==> kind_outcome(table, handle) is Ok,
        close_refusal(table, handle) is None <==> poison_outcome(table, handle) is Ok,
        close_refusal(table, handle) matches Some(report) ==> report.code == SUBETHA_E_INVALID_HANDLE,
        kind_outcome(table, handle) matches Err(report) ==> report.code == SUBETHA_E_INVALID_HANDLE,
        poison_outcome(table, handle) matches Err(report) ==> report.code == SUBETHA_E_INVALID_HANDLE,
{
    let index = handle_index(handle);
    let generation = handle_generation(handle);
    a_handle_is_its_index_and_generation(index, generation, handle);
    if index < table.slots.len() {
        assert(slot_wf(table.slots[index as int]));
        if table.slots[index as int].generation == generation {
            an_issued_handle_is_neither_zero_nor_a_token(index, generation);
        }
    }
}

/// Destroying an object ends one handle and nothing else: the count goes down
/// by one, and the handle is answered as one that names nothing. Every other
/// handle answers as it did: one that named nothing still does, and any other
/// has the answers it had.
pub proof fn a_destroy_ends_one_handle<P>(table: TableView<P>, handle: u64, other: u64)
    requires
        table.wf(),
        close_refusal(table, handle) is None,
    ensures
        ({
            let after = freed(table, handle_index(handle) as int);
            &&& after.wf()
            &&& count_held(after.slots) == count_held(table.slots) - 1
            &&& kind_outcome(after, handle) matches Err(report) && report.code == SUBETHA_E_INVALID_HANDLE
            &&& poison_outcome(after, handle) matches Err(report) && report.code == SUBETHA_E_INVALID_HANDLE
            &&& close_refusal(after, handle) matches Some(report) && report.code == SUBETHA_E_INVALID_HANDLE
            &&& other != handle ==> {
                &&& names_nothing(after, other) <==> names_nothing(table, other)
                &&& !names_nothing(table, other) ==> {
                    &&& kind_outcome(after, other) == kind_outcome(table, other)
                    &&& poison_outcome(after, other) == poison_outcome(table, other)
                    &&& close_refusal(after, other) == close_refusal(table, other)
                }
            }
        }),
{
    let index = handle_index(handle) as int;
    let after = freed(table, index);
    freeing_keeps_the_table_in_order(table, index);
    the_held_count_follows_a_slot(table.slots, index, after.slots[index]);
    a_handle_can_be_destroyed_while_it_names_an_object(table, other);
    a_handle_can_be_destroyed_while_it_names_an_object(after, handle);
    a_handle_can_be_destroyed_while_it_names_an_object(after, other);
    a_handle_is_its_index_and_generation(handle_index(handle), handle_generation(handle), handle);
    a_handle_is_its_index_and_generation(handle_index(other), handle_generation(other), other);
}

/// The generation of a slot `ended` objects after `generation`.
pub open spec fn generation_after(generation: u32, ended: nat) -> u32 {
    ((generation - 1 + ended) % 0xFFFF_FFFF + 1) as u32
}

/// One destroy moves a slot on by one generation, passing over zero.
pub proof fn a_destroy_steps_the_generation(generation: u32, ended: nat)
    requires
        generation != 0,
    ensures
        generation_after(generation, 0) == generation,
        retired_generation(generation_after(generation, ended)) == generation_after(generation, ended + 1),
{
    lemma_small_mod((generation - 1) as nat, 0xFFFF_FFFF);
    lemma_mod_bound(generation - 1 + ended, 0xFFFF_FFFF);
    a_remainder_steps_with_its_number(generation - 1 + ended, 0xFFFF_FFFF);
}

/// A stale handle stays refused whatever its slot holds now, for as long as
/// fewer than 2^32 - 1 objects have ended in that slot since.
pub proof fn a_stale_handle_names_nothing<P>(
    table: TableView<P>,
    index: u32,
    generation: u32,
    ended_since: nat,
    gone: Seq<char>,
)
    requires
        index < table.slots.len(),
        generation != 0,
        0 < ended_since < 0xFFFF_FFFF,
        table.slots[index as int].generation == generation_after(generation, ended_since),
    ensures
        named_slot(table, handle_for(index, generation), gone) is Err,
{
    a_handle_is_its_index_and_generation(index, generation, 0);
    let a = generation - 1;
    if (a + ended_since) % 0xFFFF_FFFF == a {
        assert(a + ended_since == a || a + ended_since == a + 0xFFFF_FFFF || a + ended_since < 0xFFFF_FFFF);
    }
}

/// The handle no object has, and a handle whose generation is not its
/// slot's, name nothing.
pub proof fn zero_and_forged_handles_name_nothing<P>(table: TableView<P>, index: u32, generation: u32, gone: Seq<char>)
    requires
        table.wf(),
        index < table.slots.len() ==> table.slots[index as int].generation != generation,
    ensures
        named_slot(table, SUBETHA_HANDLE_NONE, gone) is Err,
        named_slot(table, handle_for(index, generation), gone) is Err,
{
    a_handle_is_its_index_and_generation(index, generation, 0);
    assert((0u64 >> 32) as u32 == 0 && 0u64 as u32 == 0) by (bit_vector);
    if table.slots.len() > 0 {
        assert(slot_wf(table.slots[0]));
    }
}

/// A poisoned handle refuses every call with the panic's text until it is
/// destroyed, which it still can be; its kind is still readable. That is so
/// whether the panic met a live object, a poisoned one or one that was being
/// destroyed.
pub proof fn a_poisoned_handle_refuses_calls_until_it_is_destroyed<P>(
    table: TableView<P>,
    handle: u64,
    message: Seq<char>,
    kind: u32,
)
    requires
        table.wf(),
        named_slot(table, handle, ": already destroyed"@) matches Ok(slot) && slot.state != State::Free,
    ensures
        ({
            let index = handle_index(handle) as int;
            let after = poisoned(table, index, message);
            &&& call_refusal(after.slots[index], handle, kind) == Some(
                told(SUBETHA_E_HANDLE_POISONED, about(handle, " poisoned by: "@ + message)),
            )
            &&& poison_outcome(after, handle) == Ok::<bool, Report>(true)
            &&& kind_outcome(after, handle) == Ok::<u32, Report>(table.slots[index].object->Some_0.kind_number())
            &&& close_refusal(after, handle) is None
        }),
{
    let index = handle_index(handle);
    assert(slot_wf(table.slots[index as int]));
    a_handle_is_its_index_and_generation(index, handle_generation(handle), handle);
    an_issued_handle_is_neither_zero_nor_a_token(index, handle_generation(handle));
}

/// A handle whose object is closing is refused, for a call of any kind and
/// for another destroy.
pub proof fn a_closing_handle_is_refused<P>(table: TableView<P>, handle: u64, kind: u32)
    requires
        close_refusal(table, handle) is None,
    ensures
        ({
            let index = handle_index(handle) as int;
            let after = in_state(table, index, State::Closing);
            &&& call_refusal(after.slots[index], handle, kind) == Some(
                told(SUBETHA_E_INVALID_HANDLE, about(handle, ": not live"@)),
            )
            &&& close_refusal(after, handle) == Some(
                told(
                    SUBETHA_E_INVALID_HANDLE,
                    about(handle, ": not live, or being destroyed by another thread"@),
                ),
            )
        }),
{
}

/// The count of objects held goes up by one with each object placed, down by
/// one with each destroyed, and stays with a poisoning.
pub proof fn the_count_follows_the_objects<P>(table: TableView<P>, object: Object<P>, index: int, message: Seq<char>)
    requires
        table.wf(),
        table.has_room(),
        0 <= index < table.slots.len() ==> table.slots[index].state != State::Free,
    ensures
        count_held(placed(table, object).slots) == count_held(table.slots) + 1,
        0 <= index < table.slots.len() ==> count_held(freed(table, index).slots) == count_held(table.slots) - 1,
        0 <= index < table.slots.len() ==> count_held(poisoned(table, index, message).slots) == count_held(
            table.slots,
        ),
{
    a_table_with_room_keeps_its_side(table);
    let ready = roomy(table);
    let i = ready.free[ready.free.len() - 1] as int;
    the_held_count_follows_a_slot(ready.slots, i, placed(table, object).slots[i]);
    if table.free.len() == 0 {
        vacant_slots_do_not_count(
            table.slots,
            Seq::new((grown_len(table.slots.len()) - table.slots.len()) as nat, |k: int| vacant::<P>()),
        );
    }
    if 0 <= index < table.slots.len() {
        the_held_count_follows_a_slot(table.slots, index, freed(table, index).slots[index]);
        the_held_count_follows_a_slot(table.slots, index, poisoned(table, index, message).slots[index]);
    }
}

proof fn vacant_slots_do_not_count<P>(slots: Seq<SlotView<P>>, more: Seq<SlotView<P>>)
    requires
        forall|i: int| 0 <= i < more.len() ==> (#[trigger] more[i]).state == State::Free,
    ensures
        count_held(slots + more) == count_held(slots),
    decreases more.len(),
{
    if more.len() == 0 {
        assert(slots + more =~= slots);
    } else {
        vacant_slots_do_not_count(slots, more.drop_last());
        assert((slots + more).drop_last() =~= slots + more.drop_last());
        assert((slots + more).last() == more.last());
    }
}

/// A sweep leaves no live or poisoned object: a slot among the first `n` that
/// had one is free under its next generation, and every other slot is as it
/// was.
pub proof fn a_sweep_destroys_every_open_handle<P>(table: TableView<P>, n: nat)
    requires
        n <= table.slots.len(),
    ensures
        swept(table, n).slots.len() == table.slots.len(),
        forall|i: int|
            0 <= i < table.slots.len() ==> (#[trigger] swept(table, n).slots[i]) == if i < n && is_open(table.slots[i].state) {
                freed(table, i).slots[i]
            } else {
                table.slots[i]
            },
    decreases n,
{
    if n > 0 {
        a_sweep_destroys_every_open_handle(table, (n - 1) as nat);
        let before = swept(table, (n - 1) as nat);
        assert(before.slots[n - 1] == table.slots[n - 1]);
    }
}

/// Each sort of object has its own number, the one callers know it by.
pub proof fn each_sort_of_object_has_its_own_number<P>(object: &Object<P>, kind: u32)
    requires
        call_ensures(Object::<P>::kind, (object,), kind),
    ensures
        kind == 1 <==> *object is Ring,
        kind == 2 <==> *object is Spsc,
        kind == 3 <==> *object is MpscProducer,
        kind == 4 <==> *object is MpscConsumer,
        kind == 5 <==> *object is MpmcProducer,
        kind == 6 <==> *object is MpmcConsumer,
        kind == 7 <==> *object is Vyukov,
        kind == 8 <==> *object is LamportProducer,
        kind == 9 <==> *object is LamportConsumer,
        kind == 10 <==> *object is Broadcast,
        kind == 11 <==> *object is PubSub,
        kind == 12 <==> *object is Subscriber,
        kind == 13 <==> *object is Capacity,
        kind == 14 <==> *object is LocaleRing,
        kind == 63 <==> *object is EndpointRegistry,
        kind == 64 <==> *object is QosPolicy,
        kind == 67 <==> *object is Lru,
        kind == 68 <==> *object is Graph,
        kind == 69 <==> *object is Tile,
        kind == 70 <==> *object is Universal,
        kind == 71 <==> *object is Tower,
        kind == 65 <==> *object is BitVec,
        kind == 66 <==> *object is Hll,
        kind == 15 <==> *object is CapacityBroadcast,
        kind == 16 <==> *object is CapacityPubSub,
        kind == 17 <==> *object is CapacitySubscriber,
        kind == 18 <==> *object is Ordered,
        kind == 19 <==> *object is Stack,
        kind == 20 <==> *object is Deque,
        kind == 21 <==> *object is Notifier,
        kind == 22 <==> *object is HashMap,
        kind == 23 <==> *object is Arena,
        kind == 24 <==> *object is Vec,
        kind == 25 <==> *object is Slab,
        kind == 26 <==> *object is Region,
        kind == 27 <==> *object is Atomic,
        kind == 28 <==> *object is List,
        kind == 29 <==> *object is BTree,
        kind == 30 <==> *object is Cell,
        kind == 31 <==> *object is FrameRegion,
        kind == 32 <==> *object is Epochs,
        kind == 35 <==> *object is RwLock,
        kind == 37 <==> *object is Semaphore,
        kind == 39 <==> *object is Condvar,
        kind == 40 <==> *object is OwnerLease,
        kind == 41 <==> *object is Leader,
        kind == 42 <==> *object is Heartbeat,
        kind == 43 <==> *object is Holders,
        kind == 44 <==> *object is FenceClock,
        kind == 45 <==> *object is EpochBarrier,
        kind == 46 <==> *object is SharedArc,
        kind == 47 <==> *object is LazyValue,
        kind == 48 <==> *object is Waker,
        kind == 49 <==> *object is TcpBridge,
        kind == 50 <==> *object is QuicBridge,
        kind == 72 <==> *object is BlockingTcpBridge,
        kind == 51 <==> *object is Sens,
        kind == 52 <==> *object is Bloom,
        kind == 53 <==> *object is Cms,
        kind == 54 <==> *object is Histogram,
        kind == 55 <==> *object is RateLimiter,
        kind == 56 <==> *object is BlockedBloom,
        kind == 57 <==> *object is Reservoir,
        kind == 58 <==> *object is Topology,
        kind == 59 <==> *object is VersionedChain,
        kind == 60 <==> *object is VersionedSlab,
        kind == 61 <==> *object is VersionedMap,
        kind == 62 <==> *object is LanedMap,
{
}

/// What is woken is the payload of that very object, whatever its sort.
pub proof fn the_payload_woken_is_the_one_behind_the_handle<P>(object: &Object<P>, parked: &P)
    requires
        call_ensures(Object::<P>::interrupt, (object,), parked),
    ensures
        *object matches Object::Ring(payload) ==> *parked == payload,
        *object matches Object::Spsc(payload) ==> *parked == payload,
        *object matches Object::MpscProducer(payload) ==> *parked == payload,
        *object matches Object::MpscConsumer(payload) ==> *parked == payload,
        *object matches Object::MpmcProducer(payload) ==> *parked == payload,
        *object matches Object::MpmcConsumer(payload) ==> *parked == payload,
        *object matches Object::Vyukov(payload) ==> *parked == payload,
        *object matches Object::LamportProducer(payload) ==> *parked == payload,
        *object matches Object::LamportConsumer(payload) ==> *parked == payload,
        *object matches Object::Broadcast(payload) ==> *parked == payload,
        *object matches Object::PubSub(payload) ==> *parked == payload,
        *object matches Object::Subscriber(payload) ==> *parked == payload,
        *object matches Object::Capacity(payload) ==> *parked == payload,
        *object matches Object::LocaleRing(payload) ==> *parked == payload,
        *object matches Object::EndpointRegistry(payload) ==> *parked == payload,
        *object matches Object::QosPolicy(payload) ==> *parked == payload,
        *object matches Object::Lru(payload) ==> *parked == payload,
        *object matches Object::Graph(payload) ==> *parked == payload,
        *object matches Object::Tile(payload) ==> *parked == payload,
        *object matches Object::Universal(payload) ==> *parked == payload,
        *object matches Object::Tower(payload) ==> *parked == payload,
        *object matches Object::BitVec(payload) ==> *parked == payload,
        *object matches Object::Hll(payload) ==> *parked == payload,
        *object matches Object::CapacityBroadcast(payload) ==> *parked == payload,
        *object matches Object::CapacityPubSub(payload) ==> *parked == payload,
        *object matches Object::CapacitySubscriber(payload) ==> *parked == payload,
        *object matches Object::Ordered(payload) ==> *parked == payload,
        *object matches Object::Stack(payload) ==> *parked == payload,
        *object matches Object::Deque(payload) ==> *parked == payload,
        *object matches Object::Notifier(payload) ==> *parked == payload,
        *object matches Object::HashMap(payload) ==> *parked == payload,
        *object matches Object::Arena(payload) ==> *parked == payload,
        *object matches Object::Vec(payload) ==> *parked == payload,
        *object matches Object::Slab(payload) ==> *parked == payload,
        *object matches Object::Region(payload) ==> *parked == payload,
        *object matches Object::Atomic(payload) ==> *parked == payload,
        *object matches Object::List(payload) ==> *parked == payload,
        *object matches Object::BTree(payload) ==> *parked == payload,
        *object matches Object::Cell(payload) ==> *parked == payload,
        *object matches Object::FrameRegion(payload) ==> *parked == payload,
        *object matches Object::Epochs(payload) ==> *parked == payload,
        *object matches Object::RwLock(payload) ==> *parked == payload,
        *object matches Object::Semaphore(payload) ==> *parked == payload,
        *object matches Object::Condvar(payload) ==> *parked == payload,
        *object matches Object::OwnerLease(payload) ==> *parked == payload,
        *object matches Object::Leader(payload) ==> *parked == payload,
        *object matches Object::Heartbeat(payload) ==> *parked == payload,
        *object matches Object::Holders(payload) ==> *parked == payload,
        *object matches Object::FenceClock(payload) ==> *parked == payload,
        *object matches Object::EpochBarrier(payload) ==> *parked == payload,
        *object matches Object::SharedArc(payload) ==> *parked == payload,
        *object matches Object::LazyValue(payload) ==> *parked == payload,
        *object matches Object::Waker(payload) ==> *parked == payload,
        *object matches Object::TcpBridge(payload) ==> *parked == payload,
        *object matches Object::QuicBridge(payload) ==> *parked == payload,
        *object matches Object::BlockingTcpBridge(payload) ==> *parked == payload,
        *object matches Object::Sens(payload) ==> *parked == payload,
        *object matches Object::Bloom(payload) ==> *parked == payload,
        *object matches Object::Cms(payload) ==> *parked == payload,
        *object matches Object::Histogram(payload) ==> *parked == payload,
        *object matches Object::RateLimiter(payload) ==> *parked == payload,
        *object matches Object::BlockedBloom(payload) ==> *parked == payload,
        *object matches Object::Reservoir(payload) ==> *parked == payload,
        *object matches Object::Topology(payload) ==> *parked == payload,
        *object matches Object::VersionedChain(payload) ==> *parked == payload,
        *object matches Object::VersionedSlab(payload) ==> *parked == payload,
        *object matches Object::VersionedMap(payload) ==> *parked == payload,
        *object matches Object::LanedMap(payload) ==> *parked == payload,
{
}

/// The numbers of the kinds, as callers were built against them.
pub proof fn the_kinds_are_the_numbers_callers_know()
    ensures
        SUBETHA_KIND_RING == 1,
        SUBETHA_KIND_SPSC == 2,
        SUBETHA_KIND_MPSC_PRODUCER == 3,
        SUBETHA_KIND_MPSC_CONSUMER == 4,
        SUBETHA_KIND_MPMC_PRODUCER == 5,
        SUBETHA_KIND_MPMC_CONSUMER == 6,
        SUBETHA_KIND_VYUKOV == 7,
        SUBETHA_KIND_LAMPORT_PRODUCER == 8,
        SUBETHA_KIND_LAMPORT_CONSUMER == 9,
        SUBETHA_KIND_BROADCAST == 10,
        SUBETHA_KIND_PUBSUB == 11,
        SUBETHA_KIND_SUBSCRIBER == 12,
        SUBETHA_KIND_CAPACITY_RING == 13,
        SUBETHA_KIND_LOCALE_RING == 14,
        SUBETHA_KIND_CAPACITY_BROADCAST == 15,
        SUBETHA_KIND_CAPACITY_PUBSUB == 16,
        SUBETHA_KIND_CAPACITY_SUBSCRIBER == 17,
        SUBETHA_KIND_ORDERED_RECEIVER == 18,
        SUBETHA_KIND_STACK == 19,
        SUBETHA_KIND_DEQUE == 20,
        SUBETHA_KIND_NOTIFIER == 21,
        SUBETHA_KIND_HASHMAP == 22,
        SUBETHA_KIND_ARENA == 23,
        SUBETHA_KIND_VEC == 24,
        SUBETHA_KIND_SLAB == 25,
        SUBETHA_KIND_REGION == 26,
        SUBETHA_KIND_ATOMIC == 27,
        SUBETHA_KIND_LIST == 28,
        SUBETHA_KIND_BTREE == 29,
        SUBETHA_KIND_CELL == 30,
        SUBETHA_KIND_FRAME_REGION == 31,
        SUBETHA_KIND_EPOCHS == 32,
        SUBETHA_KIND_PIN == 33,
        SUBETHA_KIND_TICKET == 34,
        SUBETHA_KIND_RWLOCK == 35,
        SUBETHA_KIND_LOCK_HOLD == 36,
        SUBETHA_KIND_SEMAPHORE == 37,
        SUBETHA_KIND_PERMIT == 38,
        SUBETHA_KIND_CONDVAR == 39,
        SUBETHA_KIND_OWNER_LEASE == 40,
        SUBETHA_KIND_LEADER == 41,
        SUBETHA_KIND_HEARTBEAT == 42,
        SUBETHA_KIND_HOLDERS == 43,
        SUBETHA_KIND_FENCE_CLOCK == 44,
        SUBETHA_KIND_EPOCH_BARRIER == 45,
        SUBETHA_KIND_SHARED_ARC == 46,
        SUBETHA_KIND_LAZY_VALUE == 47,
        SUBETHA_KIND_WAKER == 48,
        SUBETHA_KIND_TCP_BRIDGE == 49,
        SUBETHA_KIND_QUIC_BRIDGE == 50,
        SUBETHA_KIND_SENS == 51,
        SUBETHA_KIND_BLOOM == 52,
        SUBETHA_KIND_CMS == 53,
        SUBETHA_KIND_HISTOGRAM == 54,
        SUBETHA_KIND_RATE_LIMITER == 55,
        SUBETHA_KIND_BLOCKED_BLOOM == 56,
        SUBETHA_KIND_RESERVOIR == 57,
        SUBETHA_KIND_TOPOLOGY == 58,
        SUBETHA_KIND_VERSIONED_CHAIN == 59,
        SUBETHA_KIND_VERSIONED_SLAB == 60,
        SUBETHA_KIND_VERSIONED_MAP == 61,
        SUBETHA_KIND_LANED_MAP == 62,
        SUBETHA_KIND_ENDPOINT_REGISTRY == 63,
        SUBETHA_KIND_QOS_POLICY == 64,
        SUBETHA_KIND_BIT_VEC == 65,
        SUBETHA_KIND_HLL == 66,
        SUBETHA_KIND_LRU_CACHE == 67,
        SUBETHA_KIND_GRAPH == 68,
        SUBETHA_KIND_TIME_POINT == 69,
        SUBETHA_KIND_UNIVERSAL == 70,
        SUBETHA_KIND_K_TOWER == 71,
        SUBETHA_KIND_BLOCKING_TCP_BRIDGE == 72,
        SUBETHA_HANDLE_NONE == 0,
{
}

/// A handle is its index above thirty-two bits of generation, and comes apart
/// into the two.
pub proof fn a_handle_is_an_index_over_a_generation(index: u32, generation: u32, handle: u64, named: (u32, u32))
    requires
        call_ensures(encode, (index, generation), handle),
        call_ensures(decode, (handle,), named),
    ensures
        handle == index * 0x1_0000_0000 + generation,
        named.0 == index && named.1 == generation,
{
    a_handle_is_its_index_and_generation(index, generation, 0);
    assert(((index as u64) << 32) | (generation as u64) == index * 0x1_0000_0000 + generation) by (bit_vector);
}

/// Whether `handle` names the object in a slot of `table`: the slot is there
/// and stands at the generation the handle carries.
pub open spec fn names_its_slot<P>(table: TableView<P>, handle: u64) -> bool {
    handle_index(handle) < table.slots.len() && table.slots[handle_index(handle) as int].generation
        == handle_generation(handle)
}

/// A call is let in exactly when its handle names a live object and the call
/// is for that object's own kind. A live object of any other kind is refused
/// as the wrong kind, a poisoned one as poisoned, and everything else as no
/// handle. A call let in has its thread's word name its slot; a refused one
/// leaves every word as it was.
pub proof fn a_call_is_let_in_only_as_the_kind_its_object_is<P>(
    table: &Table<P>,
    registry: &mut Registry,
    last: &mut LastError,
    thread: usize,
    available: bool,
    handle: u64,
    kind: u32,
    borrowed: Result<Borrowed, i32>,
)
    requires
        table.wf(),
        old(registry)@.wf(),
        thread < old(registry)@.words.len(),
        !old(registry)@.free.contains(thread),
        call_ensures(Table::<P>::borrow, (table, registry, last, Ok(thread), available, handle, kind), borrowed),
        old(registry)@.words[thread as int] == 0,
    ensures
        borrowed is Ok <==> names_its_slot(table@, handle)
            && table@.slots[handle_index(handle) as int].state is Live
            && table@.slots[handle_index(handle) as int].object->Some_0.kind_number() == kind,
        names_its_slot(table@, handle) && table@.slots[handle_index(handle) as int].state is Live
            && table@.slots[handle_index(handle) as int].object->Some_0.kind_number() != kind
            ==> borrowed is Err && borrowed->Err_0 == SUBETHA_E_WRONG_KIND,
        names_its_slot(table@, handle) && table@.slots[handle_index(handle) as int].state is Poisoned
            ==> borrowed is Err && borrowed->Err_0 == SUBETHA_E_HANDLE_POISONED,
        !names_its_slot(table@, handle) || table@.slots[handle_index(handle) as int].state is Free
            || table@.slots[handle_index(handle) as int].state is Closing ==> borrowed is Err
            && borrowed->Err_0 == SUBETHA_E_INVALID_HANDLE,
        borrowed is Err ==> final(registry)@.words == old(registry)@.words
            && final(registry)@.words[thread as int] == 0,
        borrowed matches Ok(guard) ==> guard.index() == handle_index(handle) && guard.thread() == thread
            && final(last)@ == old(last)@,
        borrowed is Ok ==> published(final(registry)@.words[thread as int]) == ((handle_index(handle)
            + 1) as nat, old(registry)@.epoch),
        borrowed is Ok ==> forall|t: int| 0 <= t < old(registry)@.words.len() && t != thread
            ==> (#[trigger] final(registry)@.words[t]) == old(registry)@.words[t],
        final(registry)@.words.len() == old(registry)@.words.len()
            && final(registry)@.epoch == old(registry)@.epoch && final(registry)@.free == old(registry)@.free,
{
    let index = handle_index(handle);
    a_handle_is_its_index_and_generation(index, handle_generation(handle), handle);
    if names_its_slot(table@, handle) {
        assert(slot_wf(table@.slots[index as int]));
        an_issued_handle_is_neither_zero_nor_a_token(index, handle_generation(handle));
        a_word_names_what_it_was_made_from(index, old(registry)@.epoch);
    }
}

/// Of two calls on one handle as different kinds, at most one is let in; and
/// the one that is let in is the one for the kind the handle is asked to have.
pub proof fn a_handle_is_borrowed_as_one_kind_at_most<P>(
    table: &Table<P>,
    registry: &mut Registry,
    last: &mut LastError,
    thread: usize,
    available: bool,
    handle: u64,
    kind: u32,
    borrowed: Result<Borrowed, i32>,
    other: &mut LastError,
    asked: Result<u32, i32>,
)
    requires
        table.wf(),
        old(registry)@.wf(),
        thread < old(registry)@.words.len(),
        !old(registry)@.free.contains(thread),
        call_ensures(Table::<P>::borrow, (table, registry, last, Ok(thread), available, handle, kind), borrowed),
        call_ensures(Table::<P>::kind_of, (table, other, handle), asked),
        borrowed is Ok,
    ensures
        asked == Ok::<u32, i32>(kind),
{
}

/// A thread whose word names a call is let into no other through a handle that
/// names a slot, and its word stays.
pub proof fn a_thread_inside_a_call_is_not_let_into_another<P>(
    table: &Table<P>,
    registry: &mut Registry,
    last: &mut LastError,
    thread: usize,
    available: bool,
    handle: u64,
    kind: u32,
    borrowed: Result<Borrowed, i32>,
)
    requires
        table.wf(),
        old(registry)@.wf(),
        thread < old(registry)@.words.len(),
        !old(registry)@.free.contains(thread),
        call_ensures(Table::<P>::borrow, (table, registry, last, Ok(thread), available, handle, kind), borrowed),
        old(registry)@.words[thread as int] != 0,
    ensures
        borrowed is Err,
        final(registry)@ == old(registry)@,
        names_its_slot(table@, handle) ==> borrowed->Err_0 == SUBETHA_E_NOT_SUPPORTED,
{
    let index = handle_index(handle);
    a_handle_is_its_index_and_generation(index, handle_generation(handle), handle);
    if names_its_slot(table@, handle) {
        assert(slot_wf(table@.slots[index as int]));
        an_issued_handle_is_neither_zero_nor_a_token(index, handle_generation(handle));
        a_word_names_what_it_was_made_from(index, old(registry)@.epoch);
    }
}

/// The kind of a live or a poisoned object is told through its handle, and so
/// is which of the two it is; nothing is told of anything else.
pub proof fn a_kind_is_told_of_live_and_poisoned_objects<P>(
    table: &Table<P>,
    last: &mut LastError,
    other: &mut LastError,
    handle: u64,
    kind: Result<u32, i32>,
    poisoned: Result<bool, i32>,
)
    requires
        table.wf(),
        call_ensures(Table::<P>::kind_of, (table, last, handle), kind),
        call_ensures(Table::<P>::is_poisoned, (table, other, handle), poisoned),
    ensures
        kind is Ok <==> names_its_slot(table@, handle)
            && (table@.slots[handle_index(handle) as int].state is Live
            || table@.slots[handle_index(handle) as int].state is Poisoned),
        kind matches Ok(k) ==> k == table@.slots[handle_index(handle) as int].object->Some_0.kind_number()
            && final(last)@ == old(last)@,
        poisoned is Ok <==> kind is Ok,
        poisoned matches Ok(is) ==> (is <==> table@.slots[handle_index(handle) as int].state is Poisoned)
            && final(other)@ == old(other)@,
        kind matches Err(code) ==> code == SUBETHA_E_INVALID_HANDLE,
        poisoned matches Err(code) ==> code == SUBETHA_E_INVALID_HANDLE,
{
    if names_its_slot(table@, handle) {
        assert(slot_wf(table@.slots[handle_index(handle) as int]));
    }
}

/// A close succeeds exactly on a handle that names a live or a poisoned
/// object, answers with its slot and leaves that slot closing; no other slot
/// changes, and a refused close changes nothing.
pub proof fn a_close_shuts_one_object_and_nothing_else<P>(
    table: &mut Table<P>,
    last: &mut LastError,
    handle: u64,
    closed: Result<u32, i32>,
)
    requires
        old(table).wf(),
        call_ensures(Table::<P>::close, (table, last, handle), closed),
    ensures
        closed is Ok <==> names_its_slot(old(table)@, handle)
            && (old(table)@.slots[handle_index(handle) as int].state is Live
            || old(table)@.slots[handle_index(handle) as int].state is Poisoned),
        closed matches Ok(index) ==> index == handle_index(handle) && final(last)@ == old(last)@,
        closed is Ok ==> final(table)@.slots[handle_index(handle) as int].state is Closing
            && final(table)@.slots[handle_index(handle) as int].object == old(table)@.slots[handle_index(handle) as int].object && final(table)@.slots[handle_index(handle) as int].generation == handle_generation(handle),
        closed is Ok ==> final(table)@.slots.len() == old(table)@.slots.len()
            && final(table)@.free == old(table)@.free,
        closed is Ok ==> forall|i: int| 0 <= i < old(table)@.slots.len() && i != handle_index(handle)
            ==> (#[trigger] final(table)@.slots[i]) == old(table)@.slots[i],
        closed matches Err(code) ==> code == SUBETHA_E_INVALID_HANDLE && final(table)@ == old(table)@,
{
    let index = handle_index(handle);
    a_handle_is_its_index_and_generation(index, handle_generation(handle), handle);
    if names_its_slot(old(table)@, handle) {
        assert(slot_wf(old(table)@.slots[index as int]));
        an_issued_handle_is_neither_zero_nor_a_token(index, handle_generation(handle));
    }
}

/// The object of a closing or poisoned slot is handed over exactly when every
/// thread's word lets the wait pass, and its slot is free under another
/// generation then; until then nothing changes. No other slot changes either
/// way.
pub proof fn an_object_is_taken_out_only_once_its_calls_have_left<P>(
    table: &mut Table<P>,
    registry: &Registry,
    wait: &Wait,
    index: u32,
    taken: Option<Object<P>>,
)
    requires
        old(table).wf(),
        index < old(table)@.slots.len(),
        is_shut(old(table)@.slots[index as int].state),
        wait.slots().contains(index),
        call_ensures(Table::<P>::take_when_over, (table, registry, wait, index), taken),
    ensures
        taken is Some <==> forall|t: int| 0 <= t < registry@.words.len()
            ==> lets_pass(#[trigger] registry@.words[t], wait.target(), wait.slots()),
        taken is Some ==> taken == old(table)@.slots[index as int].object,
        taken is Some ==> final(table)@.slots[index as int].state is Free
            && final(table)@.slots[index as int].object is None
            && final(table)@.slots[index as int].generation != old(table)@.slots[index as int].generation,
        taken is Some ==> count_held(final(table)@.slots) == count_held(old(table)@.slots) - 1,
        forall|i: int| 0 <= i < old(table)@.slots.len() && i != index
            ==> (#[trigger] final(table)@.slots[i]) == old(table)@.slots[i],
        taken is None ==> final(table)@ == old(table)@,
{
    the_held_count_follows_a_slot(old(table)@.slots, index as int, freed(old(table)@, index as int).slots[index as int]);
}

/// An object that is placed stands live under the handle it was given, the
/// count goes up by one, and no slot that held an object changes.
pub proof fn what_is_placed_is_found_under_its_handle<P>(table: &mut Table<P>, object: Object<P>, handle: u64)
    requires
        old(table).wf(),
        old(table)@.has_room(),
        call_ensures(Table::<P>::insert, (table, object), handle),
    ensures
        names_its_slot(final(table)@, handle),
        final(table)@.slots[handle_index(handle) as int].state is Live
            && final(table)@.slots[handle_index(handle) as int].object == Some(object),
        handle != SUBETHA_HANDLE_NONE && handle < 0x8000_0000_0000_0000,
        count_held(final(table)@.slots) == count_held(old(table)@.slots) + 1,
        forall|i: int| 0 <= i < old(table)@.slots.len()
            && (#[trigger] old(table)@.slots[i]).state != State::Free
            ==> final(table)@.slots[i] == old(table)@.slots[i] && i != handle_index(handle),
        old(table)@.free.len() == 0 ==> handle_index(handle) == old(table)@.slots.len(),
        old(table)@.free.len() > 0 ==> handle_index(handle) == old(table)@.free.last(),
{
    a_new_handle_names_its_object(old(table)@, object);
    the_count_follows_the_objects(old(table)@, object, -1, seq![]);
    a_table_with_room_keeps_its_side(old(table)@);
    let ready = roomy(old(table)@);
    let index = next_index(old(table)@);
    assert(ready.free[ready.free.len() - 1] == index);
    assert(ready.slots[index as int].state == State::Free);
    a_handle_is_its_index_and_generation(index, ready.slots[index as int].generation, 0);
    an_issued_handle_is_neither_zero_nor_a_token(index, ready.slots[index as int].generation);
    the_tag_is_the_top_bit(handle);
    assert forall|i: int|
        0 <= i < old(table)@.slots.len() && (#[trigger] old(table)@.slots[i]).state
            != State::Free implies final(table)@.slots[i] == old(table)@.slots[i] && i != handle_index(handle) by {
        assert(ready.slots[i] == old(table)@.slots[i]);
    }
}

/// A table with no free slot doubles, from nothing to two, and its new slots
/// go out in order: the first is past the last there was, and each of the
/// others waits its turn.
pub proof fn new_slots_go_out_in_order<P>(table: TableView<P>, object: Object<P>, k: int)
    requires
        table.wf(),
        table.free.len() == 0,
        table.has_room(),
    ensures
        next_index(table) == table.slots.len(),
        placed(table, object).slots.len() == (if table.slots.len() == 0 { 2 } else { 2 * table.slots.len() }),
        placed(table, object).free.len() == placed(table, object).slots.len() - table.slots.len() - 1,
        0 <= k < placed(table, object).free.len()
            ==> placed(table, object).free[k] == placed(table, object).slots.len() - 1 - k,
{
}

/// A destroy answers well exactly where its handle named a live or a poisoned
/// object, and then the count is down by one and the handle names nothing;
/// otherwise it answers that there is no such handle, and nothing has changed.
pub proof fn a_destroy_answers_well_only_where_it_ended_an_object<P>(
    table: &mut Table<P>,
    registry: &mut Registry,
    last: &mut LastError,
    handle: u64,
    code: i32,
)
    requires
        old(table).wf(),
        close_refusal(old(table)@, handle) is None ==> old(registry)@.clear_of(handle_index(handle)),
        call_ensures(Table::<P>::destroy, (table, registry, last, handle), code),
    ensures
        code == SUBETHA_OK <==> names_its_slot(old(table)@, handle)
            && (old(table)@.slots[handle_index(handle) as int].state is Live
            || old(table)@.slots[handle_index(handle) as int].state is Poisoned),
        code == SUBETHA_OK ==> count_held(final(table)@.slots) == count_held(old(table)@.slots) - 1
            && !names_its_slot(final(table)@, handle) && final(last)@ == old(last)@,
        code == SUBETHA_OK ==> final(table)@.slots[handle_index(handle) as int].state is Free,
        code == SUBETHA_OK ==> forall|i: int| 0 <= i < old(table)@.slots.len() && i != handle_index(handle)
            ==> (#[trigger] final(table)@.slots[i]) == old(table)@.slots[i],
        code != SUBETHA_OK ==> code == SUBETHA_E_INVALID_HANDLE && final(table)@ == old(table)@
            && final(registry)@ == old(registry)@,
        final(registry)@.words == old(registry)@.words,
{
    let index = handle_index(handle);
    a_handle_can_be_destroyed_while_it_names_an_object(old(table)@, handle);
    a_handle_is_its_index_and_generation(index, handle_generation(handle), handle);
    if names_its_slot(old(table)@, handle) {
        assert(slot_wf(old(table)@.slots[index as int]));
        an_issued_handle_is_neither_zero_nor_a_token(index, handle_generation(handle));
        if old(table)@.slots[index as int].state != State::Free {
            the_held_count_follows_a_slot(old(table)@.slots, index as int, freed(old(table)@, index as int).slots[index as int]);
        }
    }
}

proof fn a_sweep_takes_the_open_ones_off_the_count<P>(table: TableView<P>, n: nat)
    requires
        n <= table.slots.len(),
    ensures
        count_held(swept(table, n).slots) == count_held(table.slots) - count_open(table.slots.take(n as int)),
        swept(table, n).slots.len() == table.slots.len(),
    decreases n,
{
    if n == 0 {
        assert(table.slots.take(0) =~= seq![]);
    } else {
        let m = (n - 1) as nat;
        a_sweep_takes_the_open_ones_off_the_count(table, m);
        a_sweep_destroys_every_open_handle(table, m);
        let before = swept(table, m);
        assert(table.slots.take(n as int).drop_last() =~= table.slots.take(m as int));
        assert(before.slots[m as int] == table.slots[m as int]);
        if is_open(table.slots[m as int].state) {
            the_held_count_follows_a_slot(before.slots, m as int, freed(before, m as int).slots[m as int]);
        }
    }
}

/// Destroying them all leaves no live and no poisoned object, counts exactly
/// the objects that went, and leaves an object another caller is destroying
/// to that caller.
pub proof fn destroying_them_all_counts_what_went<P>(
    table: &mut Table<P>,
    registry: &mut Registry,
    last: &mut LastError,
    closed: u64,
)
    requires
        old(table).wf(),
        forall|i: u32|
            i < old(table)@.slots.len() && is_open(old(table)@.slots[i as int].state)
                ==> #[trigger] old(registry)@.clear_of(i),
        call_ensures(Table::<P>::destroy_all, (table, registry, last), closed),
    ensures
        closed == count_held(old(table)@.slots) - count_held(final(table)@.slots),
        final(table)@.slots.len() == old(table)@.slots.len(),
        forall|i: int|
            0 <= i < final(table)@.slots.len() ==> (#[trigger] final(table)@.slots[i]).state is Free
                || final(table)@.slots[i].state is Closing,
        forall|i: int|
            0 <= i < old(table)@.slots.len() && ((#[trigger] old(table)@.slots[i]).state is Free
                || old(table)@.slots[i].state is Closing) ==> final(table)@.slots[i] == old(table)@.slots[i],
        final(registry)@.words == old(registry)@.words,
{
    let n = old(table)@.slots.len();
    a_sweep_takes_the_open_ones_off_the_count(old(table)@, n);
    a_sweep_destroys_every_open_handle(old(table)@, n);
    assert(old(table)@.slots.take(n as int) =~= old(table)@.slots);
}

proof fn open_handles_name_the_open_slots<P>(slots: Seq<SlotView<P>>)
    requires
        slots.len() <= 0x8000_0000,
    ensures
        forall|k: int|
            0 <= k < open_handles(slots).len() ==> {
                let h = #[trigger] open_handles(slots)[k];
                &&& handle_index(h) < slots.len()
                &&& is_open(slots[handle_index(h) as int].state)
                &&& slots[handle_index(h) as int].generation == handle_generation(h)
            },
        forall|j: int, k: int|
            0 <= j < k < open_handles(slots).len() ==> handle_index(#[trigger] open_handles(slots)[j])
                < handle_index(#[trigger] open_handles(slots)[k]),
        forall|i: u32|
            i < slots.len() && is_open(slots[i as int].state) ==> open_handles(slots).contains(
                #[trigger] handle_for(i, slots[i as int].generation),
            ),
    decreases slots.len(),
{
    if slots.len() > 0 {
        let front = slots.drop_last();
        let n = (slots.len() - 1) as u32;
        open_handles_name_the_open_slots(front);
        a_handle_is_its_index_and_generation(n, slots.last().generation, 0);
        let before = open_handles(front);
        let all = open_handles(slots);
        assert forall|k: int| 0 <= k < all.len() implies {
            let h = #[trigger] all[k];
            &&& handle_index(h) < slots.len()
            &&& is_open(slots[handle_index(h) as int].state)
            &&& slots[handle_index(h) as int].generation == handle_generation(h)
        } by {
            if k < before.len() {
                assert(all[k] == before[k]);
                assert(front[handle_index(before[k]) as int] == slots[handle_index(before[k]) as int]);
            }
        }
        assert forall|j: int, k: int| 0 <= j < k < all.len() implies handle_index(#[trigger] all[j])
            < handle_index(#[trigger] all[k]) by {
            assert(all[j] == before[j]);
            if k < before.len() {
                assert(all[k] == before[k]);
            }
        }
        assert forall|i: u32| i < slots.len() && is_open(slots[i as int].state) implies all.contains(
            #[trigger] handle_for(i, slots[i as int].generation),
        ) by {
            let h = handle_for(i, slots[i as int].generation);
            if i < n {
                assert(front[i as int] == slots[i as int]);
                assert(before.contains(h));
                let at = choose|at: int| 0 <= at < before.len() && before[at] == h;
                assert(all[at] == h);
            } else {
                assert(all[before.len() as int] == h);
            }
        }
    }
}

/// The handles held are the handles of the live and the poisoned objects:
/// each names one, each such object's is among them, and none comes twice.
pub proof fn the_handles_held_are_those_that_name_objects<P>(table: &Table<P>, handles: Vec<u64>)
    requires
        table.wf(),
        call_ensures(Table::<P>::held, (table,), handles),
    ensures
        forall|k: int|
            0 <= k < handles@.len() ==> names_its_slot(table@, #[trigger] handles@[k]) && (
            table@.slots[handle_index(handles@[k]) as int].state is Live
                || table@.slots[handle_index(handles@[k]) as int].state is Poisoned),
        forall|j: int, k: int|
            0 <= j < k < handles@.len() ==> handle_index(#[trigger] handles@[j]) < handle_index(
                #[trigger] handles@[k],
            ),
        forall|i: u32|
            i < table@.slots.len() && (table@.slots[i as int].state is Live || table@.slots[i as int].state
                is Poisoned) ==> handles@.contains(#[trigger] handle_for(i, table@.slots[i as int].generation)),
{
    open_handles_name_the_open_slots(table@.slots);
}

pub(crate) proof fn every_object_placed_stands_under_its_handle<P>(table: TableView<P>, objects: Seq<Object<P>>, k: int)
    requires
        table.wf(),
        table.has_room_for(objects.len()),
    ensures
        placed_all(table, objects).wf(),
        count_held(placed_all(table, objects).slots) == count_held(table.slots) + objects.len(),
        handles_for(table, objects).len() == objects.len(),
        0 <= k < objects.len() ==> {
            let h = handles_for(table, objects)[k];
            &&& names_its_slot(placed_all(table, objects), h)
            &&& placed_all(table, objects).slots[handle_index(h) as int].state == State::Live
            &&& placed_all(table, objects).slots[handle_index(h) as int].object == Some(objects[k])
        },
    decreases objects.len(),
{
    if objects.len() > 0 {
        let front = objects.drop_last();
        let before = placed_all(table, front);
        let last = objects.last();
        every_object_placed_stands_under_its_handle(table, front, k);
        a_table_has_room_until_its_indices_are_used_up(before);
        a_new_handle_names_its_object(before, last);
        placing_keeps_the_table_in_order(before, last);
        the_count_follows_the_objects(before, last, -1, seq![]);
        assert(handles_for(table, front).len() == front.len());
        a_table_with_room_keeps_its_side(before);
        let ready = roomy(before);
        let index = next_index(before);
        assert(ready.free[ready.free.len() - 1] == index);
        assert(ready.slots[index as int].state == State::Free);
        a_handle_is_its_index_and_generation(index, ready.slots[index as int].generation, 0);
        if 0 <= k < front.len() {
            let h = handles_for(table, front)[k];
            assert(handles_for(table, objects)[k] == h);
            let i = handle_index(h) as int;
            assert(ready.slots[i] == before.slots[i]);
            assert(before.slots[i].state == State::Live);
        }
    }
}

/// Each of several objects placed together stands live under the handle at
/// its own place in the answer.
pub proof fn several_objects_stand_under_their_own_handles<P>(
    table: &mut Table<P>,
    objects: Vec<Object<P>>,
    handles: Vec<u64>,
    k: int,
)
    requires
        old(table).wf(),
        old(table)@.has_room_for(objects@.len()),
        call_ensures(Table::<P>::insert_all, (table, objects), handles),
    ensures
        handles@.len() == objects@.len(),
        0 <= k < objects@.len() ==> names_its_slot(final(table)@, handles@[k]),
        0 <= k < objects@.len() ==> final(table)@.slots[handle_index(handles@[k]) as int].state is Live,
        0 <= k < objects@.len() ==> final(table)@.slots[handle_index(handles@[k]) as int].object == Some(objects@[k]),
        count_held(final(table)@.slots) == count_held(old(table)@.slots) + objects@.len(),
{
    every_object_placed_stands_under_its_handle(old(table)@, objects@, k);
}

/// A panic leaves the slot of its own call poisoned with what it said, and
/// changes neither the object nor any other slot.
pub proof fn a_panic_poisons_the_object_its_call_was_on<P>(
    borrowed: &Borrowed,
    table: &mut Table<P>,
    message: String,
    done: (),
)
    requires
        old(table).wf(),
        borrowed.index() < old(table)@.slots.len(),
        old(table)@.slots[borrowed.index() as int].state != State::Free,
        call_ensures(Borrowed::poison::<P>, (borrowed, table, message), done),
    ensures
        final(table)@.slots[borrowed.index() as int].state is Poisoned
            && final(table)@.slots[borrowed.index() as int].message == Some(message@),
        final(table)@.slots[borrowed.index() as int].object == old(table)@.slots[borrowed.index() as int].object
            && final(table)@.slots[borrowed.index() as int].generation == old(table)@.slots[borrowed.index() as int].generation,
        final(table)@.slots.len() == old(table)@.slots.len() && final(table)@.free == old(table)@.free,
        forall|i: int| 0 <= i < old(table)@.slots.len() && i != borrowed.index()
            ==> (#[trigger] final(table)@.slots[i]) == old(table)@.slots[i],
{
}

/// A call that is over leaves its own thread's word at zero and every other
/// word as it was.
pub proof fn a_call_that_is_over_leaves_its_word_quiet(borrowed: Borrowed, registry: &mut Registry, done: ())
    requires
        old(registry)@.wf(),
        borrowed.thread() < old(registry)@.words.len(),
        call_ensures(Borrowed::release, (borrowed, registry), done),
    ensures
        final(registry)@.words.len() == old(registry)@.words.len(),
        final(registry)@.words[borrowed.thread() as int] == 0,
        forall|t: int| 0 <= t < old(registry)@.words.len() && t != borrowed.thread()
            ==> (#[trigger] final(registry)@.words[t]) == old(registry)@.words[t],
        final(registry)@.epoch == old(registry)@.epoch && final(registry)@.free == old(registry)@.free,
{
}

/// A call sees the object in the slot it borrowed, and a caller that closes
/// sees the one being closed.
pub proof fn a_call_sees_the_object_it_borrowed<P>(
    borrowed: &Borrowed,
    table: &Table<P>,
    object: &Object<P>,
    index: u32,
    closing: Option<&Object<P>>,
)
    requires
        table.wf(),
        borrowed.index() < table@.slots.len(),
        table@.slots[borrowed.index() as int].object is Some,
        call_ensures(Borrowed::object::<P>, (borrowed, table), object),
        call_ensures(Table::<P>::closing, (table, index), closing),
    ensures
        Some(*object) == table@.slots[borrowed.index() as int].object,
        closing is Some <==> index < table@.slots.len() && (table@.slots[index as int].state is Closing
            || table@.slots[index as int].state is Poisoned),
        closing matches Some(o) ==> table@.slots[index as int].object == Some(*o),
{
    if index < table@.slots.len() {
        assert(slot_wf(table@.slots[index as int]));
    }
}

/// A new table holds nothing and has room; the count a table tells is the
/// number of its slots that are not free, and whether it has room is whether
/// fewer than 2^31 are.
pub proof fn a_table_counts_the_objects_it_holds<P>(made: Table<P>, table: &Table<P>, live: u64, room: bool)
    requires
        call_ensures(Table::<P>::new, (), made),
        table.wf(),
        call_ensures(Table::<P>::live, (table,), live),
        call_ensures(Table::<P>::can_insert, (table,), room),
    ensures
        made@.slots.len() == 0 && made.wf() && made@.has_room(),
        live == count_held(table@.slots),
        room <==> live < 0x8000_0000,
{
    a_table_has_room_until_its_indices_are_used_up(table@);
}

/// Placing more objects leaves every slot that held one as it was.
pub(crate) proof fn placing_more_leaves_an_object_alone<P>(table: TableView<P>, objects: Seq<Object<P>>, i: int)
    requires
        table.wf(),
        table.has_room_for(objects.len()),
        0 <= i < table.slots.len(),
        table.slots[i].state != State::Free,
    ensures
        i < placed_all(table, objects).slots.len(),
        placed_all(table, objects).slots[i] == table.slots[i],
    decreases objects.len(),
{
    if objects.len() > 0 {
        let front = objects.drop_last();
        let before = placed_all(table, front);
        placing_more_leaves_an_object_alone(table, front, i);
        every_object_placed_stands_under_its_handle(table, front, 0);
        a_table_has_room_until_its_indices_are_used_up(before);
        a_table_with_room_keeps_its_side(before);
        let ready = roomy(before);
        assert(ready.slots[ready.free[ready.free.len() - 1] as int].state == State::Free);
        assert(ready.slots[i] == before.slots[i]);
    }
}

/// A thread that is being torn down has no word and is let into no call.
pub proof fn a_thread_with_no_word_is_let_into_no_call<P>(
    table: &Table<P>,
    registry: &mut Registry,
    last: &mut LastError,
    gone: String,
    available: bool,
    handle: u64,
    kind: u32,
    borrowed: Result<Borrowed, i32>,
)
    requires
        table.wf(),
        old(registry)@.wf(),
        call_ensures(Table::<P>::borrow, (table, registry, last, Err(gone), available, handle, kind), borrowed),
    ensures
        borrowed is Err,
        final(registry)@ == old(registry)@,
        names_its_slot(table@, handle) ==> borrowed->Err_0 == SUBETHA_E_NOT_SUPPORTED,
        !names_its_slot(table@, handle) ==> borrowed->Err_0 == SUBETHA_E_INVALID_HANDLE,
{
    let index = handle_index(handle);
    a_handle_is_its_index_and_generation(index, handle_generation(handle), handle);
    if names_its_slot(table@, handle) {
        assert(slot_wf(table@.slots[index as int]));
        an_issued_handle_is_neither_zero_nor_a_token(index, handle_generation(handle));
    }
}

/// A refused call is told its handle and why: both kinds where the kind is
/// wrong, and what the panic said where the object is poisoned.
pub proof fn a_refused_call_is_told_why<P>(
    table: &Table<P>,
    registry: &mut Registry,
    last: &mut LastError,
    thread: usize,
    available: bool,
    handle: u64,
    kind: u32,
    borrowed: Result<Borrowed, i32>,
)
    requires
        table.wf(),
        old(registry)@.wf(),
        thread < old(registry)@.words.len(),
        !old(registry)@.free.contains(thread),
        old(registry)@.words[thread as int] == 0,
        call_ensures(Table::<P>::borrow, (table, registry, last, Ok(thread), available, handle, kind), borrowed),
        names_its_slot(table@, handle),
    ensures
        table@.slots[handle_index(handle) as int].state is Live && borrowed is Err ==> final(last)@ == "handle "@
            + hex(handle as nat) + (" is kind "@
            + dec(table@.slots[handle_index(handle) as int].object->Some_0.kind_number() as nat) + ", not "@
            + dec(kind as nat)),
        table@.slots[handle_index(handle) as int].state is Poisoned
            ==> (table@.slots[handle_index(handle) as int].message matches Some(message)
            ==> final(last)@ == "handle "@ + hex(handle as nat) + (" poisoned by: "@ + message)),
{
    let index = handle_index(handle);
    a_handle_is_its_index_and_generation(index, handle_generation(handle), handle);
    assert(slot_wf(table@.slots[index as int]));
    an_issued_handle_is_neither_zero_nor_a_token(index, handle_generation(handle));
}

/// A value that names nothing is told why, whatever it is asked for: that it
/// is a token, that there is no such slot, or that its object has gone.
pub proof fn a_value_that_names_nothing_is_told_why<P>(
    table: &Table<P>,
    registry: &mut Registry,
    last: &mut LastError,
    thread: usize,
    available: bool,
    handle: u64,
    kind: u32,
    borrowed: Result<Borrowed, i32>,
)
    requires
        table.wf(),
        old(registry)@.wf(),
        thread < old(registry)@.words.len(),
        !old(registry)@.free.contains(thread),
        call_ensures(Table::<P>::borrow, (table, registry, last, Ok(thread), available, handle, kind), borrowed),
    ensures
        handle >= 0x8000_0000_0000_0000 ==> final(last)@ == "handle "@ + hex(handle as nat)
            + ": that is a hold token, not a handle"@,
        handle < 0x8000_0000_0000_0000 && handle_index(handle) >= table@.slots.len()
            ==> final(last)@ == "handle "@ + hex(handle as nat) + ": no such slot"@,
        handle < 0x8000_0000_0000_0000 && handle_index(handle) < table@.slots.len()
            && !names_its_slot(table@, handle) ==> final(last)@ == "handle "@ + hex(handle as nat)
            + ": its object was destroyed"@,
        handle < 0x8000_0000_0000_0000 && names_its_slot(table@, handle)
            && old(registry)@.words[thread as int] == 0
            && (table@.slots[handle_index(handle) as int].state is Free
            || table@.slots[handle_index(handle) as int].state is Closing) ==> final(last)@ == "handle "@
            + hex(handle as nat) + ": not live"@,
        handle < 0x8000_0000_0000_0000 && names_its_slot(table@, handle)
            && old(registry)@.words[thread as int] != 0
            ==> final(last)@ == "this thread is already inside a call; an entry point cannot borrow a second handle"@,
{
    the_tag_is_the_top_bit(handle);
}

/// A destroy of a value that names nothing to destroy is told why.
pub proof fn a_destroy_of_nothing_is_told_why<P>(
    table: &mut Table<P>,
    last: &mut LastError,
    handle: u64,
    closed: Result<u32, i32>,
)
    requires
        old(table).wf(),
        call_ensures(Table::<P>::close, (table, last, handle), closed),
    ensures
        handle >= 0x8000_0000_0000_0000 ==> final(last)@ == "handle "@ + hex(handle as nat)
            + ": that is a hold token, not a handle - release it on the object that issued it"@,
        handle < 0x8000_0000_0000_0000 && handle_index(handle) >= old(table)@.slots.len()
            ==> final(last)@ == "handle "@ + hex(handle as nat) + ": no such slot"@,
        handle < 0x8000_0000_0000_0000 && handle_index(handle) < old(table)@.slots.len()
            && !names_its_slot(old(table)@, handle) ==> final(last)@ == "handle "@ + hex(handle as nat)
            + ": already destroyed"@,
        handle < 0x8000_0000_0000_0000 && names_its_slot(old(table)@, handle) && closed is Err
            ==> final(last)@ == "handle "@ + hex(handle as nat)
            + ": not live, or being destroyed by another thread"@,
{
    the_tag_is_the_top_bit(handle);
}

/// What cannot be told of a handle is told why.
pub proof fn a_kind_that_is_not_told_is_told_why<P>(
    table: &Table<P>,
    last: &mut LastError,
    handle: u64,
    answer: Result<u32, i32>,
)
    requires
        table.wf(),
        call_ensures(Table::<P>::kind_of, (table, last, handle), answer),
    ensures
        handle_index(handle) >= table@.slots.len() ==> final(last)@ == "handle "@ + hex(handle as nat)
            + ": no such slot"@,
        handle_index(handle) < table@.slots.len() && !names_its_slot(table@, handle)
            ==> final(last)@ == "handle "@ + hex(handle as nat) + ": destroyed"@,
        names_its_slot(table@, handle) && answer is Err ==> final(last)@ == "handle "@ + hex(handle as nat)
            + ": not live"@,
{
    if names_its_slot(table@, handle) {
        assert(slot_wf(table@.slots[handle_index(handle) as int]));
    }
}

/// What cannot be told of a handle is told why.
pub proof fn a_poisoning_that_is_not_told_is_told_why<P>(
    table: &Table<P>,
    last: &mut LastError,
    handle: u64,
    answer: Result<bool, i32>,
)
    requires
        table.wf(),
        call_ensures(Table::<P>::is_poisoned, (table, last, handle), answer),
    ensures
        handle_index(handle) >= table@.slots.len() ==> final(last)@ == "handle "@ + hex(handle as nat)
            + ": no such slot"@,
        handle_index(handle) < table@.slots.len() && !names_its_slot(table@, handle)
            ==> final(last)@ == "handle "@ + hex(handle as nat) + ": destroyed"@,
        names_its_slot(table@, handle) && answer is Err ==> final(last)@ == "handle "@ + hex(handle as nat)
            + ": not live"@,
{
    if names_its_slot(table@, handle) {
        assert(slot_wf(table@.slots[handle_index(handle) as int]));
    }
}

} // verus!
