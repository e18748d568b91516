//! Rings, deques, subscribers, locks' relatives and policies: what their
//! arguments may be, and what their calls answer.

use subetha_ffi::deque::{SUBETHA_DEQUE_OWNER, SUBETHA_DEQUE_THIEF};
use subetha_ffi::epoch_barrier::SUBETHA_BARRIER_GRACE_DEFAULT;
use subetha_ffi::error::{
    BarrierError, IoFailure, LastError, Refused, RingError, SUBETHA_E_BARRIER_NO_LIVE_PEERS,
    SUBETHA_E_BUFFER_TOO_SMALL, SUBETHA_E_DEQUE_NOT_OWNER, SUBETHA_E_INVALID_ARGUMENT, SUBETHA_E_MAP_KEY_ABSENT,
    SUBETHA_E_NOT_SUPPORTED, SUBETHA_E_PUBSUB_LOST, SUBETHA_E_PUBSUB_PENDING, SUBETHA_E_RING_EMPTY,
    SUBETHA_E_RING_FULL, SUBETHA_E_RING_IO, SUBETHA_E_RING_NOT_STAMPED, SUBETHA_E_RING_PAYLOAD_TOO_LARGE,
    SUBETHA_E_TIMEOUT, SUBETHA_OK,
};
use subetha_ffi::handle::{Table, SUBETHA_KIND_LAMPORT_CONSUMER, SUBETHA_KIND_LAMPORT_PRODUCER};
use subetha_ffi::laned_map::Page;
use subetha_ffi::leader::SUBETHA_LEADER_NONE;
use subetha_ffi::list::ElementLayout;
use subetha_ffi::locale::{
    Contract, Mode, RingLocale, RingOptions, Stamps, SUBETHA_LOCALE_ANON, SUBETHA_LOCALE_FILE, SUBETHA_LOCALE_SHM,
};
use subetha_ffi::nan_value::{NaNValueType, SUBETHA_NAN_BOOL, SUBETHA_NAN_F64, SUBETHA_NAN_RESERVED};
use subetha_ffi::ordered::{
    after_pull, after_take, choose_strategy, Next, OrderedObject, OrderingMode, StampKind, Strategy,
    SUBETHA_ORDERED_DIRECT, SUBETHA_ORDERED_REORDER, SUBETHA_ORDERED_STRICT,
};
use subetha_ffi::owner_lease::SUBETHA_LEASE_NO_OWNER;
use subetha_ffi::pubsub::{PubSubReadError, SubscriberObject};
use subetha_ffi::qos_policy::{
    subetha_qos, Durability, History, Preset, QosOrdering, QosPolicy, Reliability, SUBETHA_QOS_GLOBAL_FIFO,
    SUBETHA_QOS_KEEP_ALL, SUBETHA_QOS_KEEP_LAST, SUBETHA_QOS_PERSISTENT, SUBETHA_QOS_RELIABLE,
};
use subetha_ffi::quic_bridge::{Progress, QuicBridgeError, Transfer};
use subetha_ffi::{
    deque, epoch_barrier, k_tower, lamport, laned_map, lazy_value, leader, locale, mpmc, nan_value, notifier,
    ordered, owner_lease, pubsub, qos_policy, quic_bridge,
};

fn no_mode() -> Refused {
    Refused { code: SUBETHA_E_INVALID_ARGUMENT, detail: Some(String::from("mode 7 is not a mode")) }
}

#[test]
fn a_thief_neither_pushes_nor_pops() {
    let mut last = LastError::new();
    assert_eq!(deque::push_arguments(&mut last, SUBETHA_DEQUE_OWNER, 12, 12), Ok(()));
    assert_eq!(
        deque::push_arguments(&mut last, SUBETHA_DEQUE_OWNER, 13, 12).unwrap_err(),
        SUBETHA_E_RING_PAYLOAD_TOO_LARGE
    );
    assert_eq!(last.detail(), "13 bytes exceed the 12-byte element");
    assert_eq!(
        deque::push_arguments(&mut last, SUBETHA_DEQUE_THIEF, 12, 12).unwrap_err(),
        SUBETHA_E_DEQUE_NOT_OWNER
    );
    assert_eq!(deque::require_owner(&mut last, SUBETHA_DEQUE_THIEF).unwrap_err(), SUBETHA_E_DEQUE_NOT_OWNER);
    assert_eq!(last.detail(), "this handle opened the deque as a thief");
    assert_eq!(deque::taken(Some(16)), Ok(16));
    assert_eq!(deque::taken(None), Err(SUBETHA_E_RING_EMPTY));
}

#[test]
fn a_deque_holds_a_power_of_two() {
    let mut last = LastError::new();
    for n in [1u32, 2, 4, 1024, 0x8000_0000] {
        assert!(deque::power_of_two(n));
    }
    for n in [0u32, 3, 6, 1023, u32::MAX] {
        assert!(!deque::power_of_two(n));
    }
    let read = deque::create_arguments(&mut last, Ok(()), Ok(()), Ok("d"), 6, Ok(()));
    assert_eq!(read, Err(SUBETHA_E_INVALID_ARGUMENT));
    assert_eq!(last.detail(), "capacity 6 is not a power of two of at least 1");
    assert_eq!(deque::create_arguments(&mut last, Ok(()), Ok(3), Ok("d"), 16, Ok('l')), Ok((3, "d", 16, 'l')));
    assert_eq!(deque::open_thief_arguments(&mut last, Ok(()), Ok(3), Ok("d"), Ok('l')), Ok((3, "d", 'l')));
}

#[test]
fn a_deque_reports_its_shape_and_names_its_files() {
    let layout = ElementLayout { slot_size: 12, alignment: 4, tag: 11 };
    let stats = deque::stats(0, SUBETHA_DEQUE_THIEF, 16, 16, layout, 2, 5, 3, 0);
    assert_eq!((stats.slot_bytes, stats.element_size, stats.role), (16, 12, SUBETHA_DEQUE_THIEF));
    assert_eq!((stats.approx_len, stats.top, stats.bottom), (3, 2, 5));
    let (file, consumer, producer) = deque::subetha_deque_unlink("/tmp/d");
    assert_eq!((file.as_str(), consumer.as_str(), producer.as_str()), ("/tmp/d", "/tmp/d.cwaker.bin", "/tmp/d.pwaker.bin"));
    let mut last = LastError::new();
    let io = IoFailure { invalid_data: false, kind: String::from("NotFound"), said: String::from("gone") };
    assert_eq!(deque::subetha_deque_flush(&mut last, Err(io)), Err(SUBETHA_E_RING_IO));
    assert_eq!(deque::subetha_deque_flush(&mut last, Ok(())), Ok(()));
}

#[test]
fn a_barrier_takes_the_default_grace_for_none() {
    let mut last = LastError::new();
    assert_eq!(SUBETHA_BARRIER_GRACE_DEFAULT, 3);
    assert_eq!(
        epoch_barrier::read_arguments(&mut last, Ok(()), false, Ok("b"), Ok(1u8), 0, Ok(0)),
        Ok(("b", 1, 3, 0))
    );
    assert_eq!(
        epoch_barrier::read_arguments(&mut last, Ok(()), false, Ok("b"), Ok(1u8), 7, Ok(0)),
        Ok(("b", 1, 7, 0))
    );
    let refused = epoch_barrier::read_arguments(&mut last, Ok(()), false, Ok("b"), Ok(1u8), 7, Err(no_mode()));
    assert_eq!(refused, Err(SUBETHA_E_INVALID_ARGUMENT));
    assert_eq!(last.detail(), "mode 7 is not a mode");
    assert_eq!(epoch_barrier::quorum_arguments(&mut last, 0), Err(SUBETHA_E_INVALID_ARGUMENT));
    assert_eq!(last.detail(), "quorum is zero");
    assert_eq!(
        epoch_barrier::outcome(&mut last, Err::<(), BarrierError>(BarrierError::NoLivePeers)),
        Err(SUBETHA_E_BARRIER_NO_LIVE_PEERS)
    );
}

#[test]
fn a_barrier_reports_its_epoch_and_names_its_state_file() {
    let stats = epoch_barrier::stats(0, (0, 0), 1, 7);
    assert_eq!((stats.mode, stats.epoch, stats.arrived, stats.live_peers, stats.grace_epochs), (0, 0, 0, 1, 7));
    let mut last = LastError::new();
    assert_eq!(
        epoch_barrier::subetha_epoch_barrier_unlink(&mut last, Some("b.bin")),
        Ok(String::from("b.bin.state.bin"))
    );
    assert_eq!(epoch_barrier::subetha_epoch_barrier_unlink(&mut last, None), Err(SUBETHA_E_INVALID_ARGUMENT));
    assert_eq!(last.detail(), "path names no file");
}

#[test]
fn process_zero_neither_leads_nor_leases() {
    let mut last = LastError::new();
    assert_eq!(leader::checked_pid(&mut last, 0).unwrap_err(), SUBETHA_E_INVALID_ARGUMENT);
    assert_eq!(leader::checked_pid(&mut last, 1).unwrap(), 1);
    assert_eq!(owner_lease::checked_pid(&mut last, 0).unwrap_err(), SUBETHA_E_INVALID_ARGUMENT);
    assert_eq!(owner_lease::checked_pid(&mut last, 1).unwrap(), 1);
    assert_eq!(leader::stats(0, None, 0, 0, 0).leader_pid, SUBETHA_LEADER_NONE);
    assert_eq!(leader::stats(0, Some(50), 2, 3, 4).leader_pid, 50);
    assert_eq!(owner_lease::stats(0, 8, None, 0, 0, 0, 0).owner_pid, SUBETHA_LEASE_NO_OWNER);
    assert_eq!(owner_lease::stats(0, 8, Some(100), 1, 2, 3, 4).owner_pid, 100);
}

fn options() -> RingOptions {
    RingOptions {
        stamps: Stamps::Off,
        contract: Contract { max_producers: 0, max_consumers: 0, ordering: 0, capacity_bound: 0 },
        frame_block: 0,
        frame_blocks: 0,
        shm_sddl_given: false,
        scan_interval_us: 0,
    }
}

const STRICT: Mode = Mode { number: 0, managed: false };
const MANAGED: Mode = Mode { number: 1, managed: true };

#[test]
fn a_locale_ring_refuses_what_it_has_no_use_for() {
    let mut last = LastError::new();
    let mut refused = |options: RingOptions, mode: Mode, producers: u32, text: &str| {
        let answer =
            locale::subetha_locale_ring_create(&mut last, Ok(()), Ok(options), Ok("base"), Ok(mode), producers, 1, Ok(8));
        assert_eq!(answer, Err(SUBETHA_E_INVALID_ARGUMENT));
        assert_eq!(last.detail(), text);
    };
    refused(
        RingOptions { stamps: Stamps::Other(9), ..options() },
        STRICT,
        1,
        "stamps 9: a locale ring stamps from the host's default source or not at all",
    );
    let contract = Contract { ordering: 1, ..options().contract };
    refused(RingOptions { contract, ..options() }, STRICT, 1, "a locale ring declares no contract");
    refused(RingOptions { frame_block: 8, ..options() }, STRICT, 1, "a locale ring takes no frame region geometry");
    refused(
        RingOptions { shm_sddl_given: true, ..options() },
        STRICT,
        1,
        "a locale ring's regions take the platform's default descriptor; shm_sddl must be null",
    );
    refused(options(), MANAGED, 1, "managed mode needs scan_interval_us; the library names no default");
    refused(options(), STRICT, 0, "max_producers and max_consumers must be at least 1");
}

#[test]
fn a_locale_ring_runs_a_sidecar_only_when_managed() {
    let mut last = LastError::new();
    let (base, plan) =
        locale::subetha_locale_ring_open(&mut last, Ok(()), Ok(options()), Ok("base"), Ok(STRICT), 1, 2, Ok(8)).unwrap();
    assert_eq!((base, plan.stamped, plan.max_consumers, plan.sidecar_us), ("base", false, 2, None));
    let managed = RingOptions { stamps: Stamps::HostDefault, scan_interval_us: 500, ..options() };
    let (_, plan) =
        locale::subetha_locale_ring_create(&mut last, Ok(()), Ok(managed), Ok("base"), Ok(MANAGED), 1, 1, Ok(8)).unwrap();
    assert_eq!((plan.stamped, plan.mode, plan.sidecar_us), (true, 1, Some(500)));
}

#[test]
fn each_locale_has_its_number() {
    let mut last = LastError::new();
    for (locale, number) in [
        (RingLocale::Anon, SUBETHA_LOCALE_ANON),
        (RingLocale::File, SUBETHA_LOCALE_FILE),
        (RingLocale::ShmFs, SUBETHA_LOCALE_SHM),
    ] {
        assert_eq!(locale::locale_constant(locale), number);
        assert_eq!(locale::locale_from(&mut last, number), Ok(locale));
    }
    assert_eq!(locale::locale_from(&mut last, 3), Err(SUBETHA_E_INVALID_ARGUMENT));
    assert_eq!(last.detail(), "locale 3 is not a locale");
    let (ring, beside) = locale::subetha_locale_ring_unlink("b");
    assert_eq!(ring, "b.locale.file.ring");
    assert_eq!(beside, vec!["b.locale.tag.bin", "b.locale.gen.bin", "b.cwaker.bin", "b.pwaker.bin"]);
}

#[test]
fn counter_stamps_get_the_reorder_strategy_and_time_stamps_are_delivered_directly() {
    let (strategy, mode) = choose_strategy(Some(StampKind::SharedCounter), 2, 2, 4, 64);
    assert_eq!(strategy, Strategy::Reorder { window: 4, cap: 64 });
    assert_eq!(mode, Some(OrderingMode::MergeByStamp));
    let receiver = OrderedObject::new(strategy, false, 0);
    assert_eq!(receiver.stats(4, 0, 0).strategy, SUBETHA_ORDERED_REORDER);
    let (strategy, mode) = choose_strategy(Some(StampKind::Clock), 1, 1, 4, 64);
    assert_eq!((strategy, mode), (Strategy::Direct, None));
    assert_eq!(OrderedObject::new(strategy, false, 0).stats(0, 0, 0).strategy, SUBETHA_ORDERED_DIRECT);
    let (strategy, mode) = choose_strategy(Some(StampKind::SharedCounter), 1, 257, 4, 64);
    assert_eq!((strategy, mode), (Strategy::Strict, Some(OrderingMode::MergeStrict)));
    let strict = OrderedObject::new(strategy, true, 0).stats(9, 9, 9);
    assert_eq!((strict.strategy, strict.window, strict.mode_refusals), (SUBETHA_ORDERED_STRICT, 0, 1));
}

#[test]
fn a_receiver_pulls_until_its_window_releases_an_item() {
    let mut last = LastError::new();
    let (strategy, _) = choose_strategy(Some(StampKind::SharedCounter), 2, 2, 4, 64);
    let mut receiver = OrderedObject::new(strategy, false, 0);
    assert_eq!(receiver.begin(), Next::Pull);
    assert_eq!(after_pull(&mut last, Ok(())), Next::PushAndTake);
    assert_eq!(after_take(true, None), Next::Pull);
    assert_eq!(after_take(true, Some((17, 3))), Next::Item(3, 17));
    assert_eq!(after_pull(&mut last, Err(RingError::Empty)), Next::Take);
    assert_eq!(after_take(false, None), Next::Answer(SUBETHA_E_RING_EMPTY));
    assert_eq!(receiver.flush(Some((18, 2))), Ok((2, 18)));
    assert_eq!(receiver.flush(None), Err(SUBETHA_E_RING_EMPTY));
    assert_eq!(receiver.widening(5, 4), Some((5, false)));
    assert_eq!(receiver.widening(300, 4), Some((256, true)));
    assert_eq!(receiver.widening(4, 4), None);
    receiver.flip_refused();
    assert_eq!(receiver.stats(4, 0, 0).mode_refusals, 1);
    assert_eq!(
        ordered::subetha_ring_ordered_receiver(&mut last, false, Ok(0), None),
        Err(SUBETHA_E_RING_NOT_STAMPED)
    );
}

#[test]
fn a_subscriber_reads_in_order_and_is_told_what_it_lost() {
    let mut last = LastError::new();
    let mut subscriber = SubscriberObject::new(0, 0);
    assert_eq!(
        subscriber.try_next(&mut last, Err(PubSubReadError::Pending), 0).unwrap_err(),
        SUBETHA_E_PUBSUB_PENDING
    );
    subscriber.try_next(&mut last, Ok(()), 2).unwrap();
    subscriber.try_next(&mut last, Ok(()), 2).unwrap();
    assert_eq!(subscriber.position(), 2);
    subscriber.try_next(&mut last, Ok(()), 3).unwrap();
    assert_eq!(
        subscriber.try_next(&mut last, Err(PubSubReadError::Lost), 8).unwrap_err(),
        SUBETHA_E_PUBSUB_LOST
    );
    assert_eq!(last.detail(), "position 3 was overwritten; the subscriber now stands at the head");
    assert_eq!(subscriber.position(), 8, "a lost subscriber stands at the head");
    assert_eq!(subscriber.skip(4), 12);
    subscriber.set_position(1);
    assert_eq!(subscriber.position(), 1);
    assert_eq!(
        pubsub::subetha_pubsub_read_at(&mut last, 3, Err(PubSubReadError::Lost)),
        Err(SUBETHA_E_PUBSUB_LOST)
    );
    assert_eq!(last.detail(), "position 3 was overwritten");
    assert_eq!(pubsub::read_at_arguments(&mut last, false, 55), Err(SUBETHA_E_BUFFER_TOO_SMALL));
    assert_eq!(last.detail(), "56 bytes needed, 55 given");
    assert_eq!(pubsub::SUBETHA_PUBSUB_PAYLOAD_BYTES, 56);
}

#[test]
fn a_range_packs_its_rows_or_reports_the_room_they_need() {
    let rows = vec![(vec![1u8, 2], vec![3u8]), (vec![4, 5], vec![6])];
    let frontier = Some(vec![4u8, 5]);
    let mut out = [9u8; 8];
    let mut last_key = [0u8; 2];
    let page = laned_map::subetha_laned_map_range(&rows, &frontier, 2, 1, false, &mut out, false, &mut last_key);
    assert_eq!(page, Page { code: SUBETHA_OK, len: 6, count: 2, has_frontier: true });
    assert_eq!(out, [1, 2, 3, 4, 5, 6, 9, 9]);
    assert_eq!(last_key, [4, 5]);
    let mut small = [9u8; 5];
    let mut untouched = [0u8; 2];
    let page = laned_map::subetha_laned_map_range(&rows, &frontier, 2, 1, false, &mut small, false, &mut untouched);
    assert_eq!(page, Page { code: SUBETHA_E_BUFFER_TOO_SMALL, len: 6, count: 2, has_frontier: true });
    assert_eq!((small, untouched), ([9; 5], [0; 2]));
}

#[test]
fn a_lane_is_found_claimed_or_busy() {
    let mut last = LastError::new();
    assert_eq!(laned_map::subetha_laned_map_lane_of(&mut last, Ok(Some(3))), Ok(3));
    assert_eq!(laned_map::subetha_laned_map_lane_of(&mut last, Ok(None)), Err(SUBETHA_E_MAP_KEY_ABSENT));
    assert_eq!(laned_map::subetha_laned_map_claim_lane_for(&mut last, 3, true), Ok(3));
    assert!(laned_map::subetha_laned_map_claim_lane_for(&mut last, 3, false).is_err());
    assert_eq!(laned_map::subetha_laned_map_release_lane(&mut last, 4, 3), Ok(3));
    assert!(laned_map::subetha_laned_map_release_lane(&mut last, 4, 4).is_err());
    assert_eq!(last.detail(), "that lane index is past the last lane");
    assert!(laned_map::insert_sizes(&mut last, 2, 1, 2, 2).is_err());
    assert_eq!(last.detail(), "a key is 2 bytes and a value 2, not 2 and 1");
}

#[test]
fn a_pair_is_issued_together() {
    let mut last = LastError::new();
    let mut table: Table<u8> = Table::new();
    let (producer, consumer) = lamport::issue_pair(&mut table, &mut last, Ok((1, 2))).unwrap();
    assert_eq!(table.kind_of(&mut last, producer), Ok(SUBETHA_KIND_LAMPORT_PRODUCER));
    assert_eq!(table.kind_of(&mut last, consumer), Ok(SUBETHA_KIND_LAMPORT_CONSUMER));
    assert_eq!(lamport::issue_pair(&mut table, &mut last, Err(RingError::Full)), Err(SUBETHA_E_RING_FULL));
    assert_eq!(table.live(), 2);
}

#[test]
fn a_grid_is_issued_and_its_files_are_named() {
    let mut table: Table<u8> = Table::new();
    let (producers, consumers) = mpmc::issue_grid(&mut table, vec![1, 2], vec![3]);
    assert_eq!((producers.len(), consumers.len(), table.live()), (2, 1, 3));
    assert_eq!(
        mpmc::subetha_mpmc_unlink("g", 2, 1),
        vec!["g.ring.0.bin", "g.pw.0.bin", "g.ring.1.bin", "g.pw.1.bin", "g.cw.0.bin"]
    );
}

#[test]
fn a_tower_reads_its_levels_in_order() {
    let mut last = LastError::new();
    let entries = vec![(Ok(String::from("a")), 4), (Ok(String::from("b")), 8)];
    assert_eq!(
        k_tower::read_levels(&mut last, false, false, entries),
        Ok(vec![(String::from("a"), 4), (String::from("b"), 8)])
    );
    let mut out = [0u8; 2];
    assert_eq!(k_tower::subetha_tower_get(&mut last, Ok(()), &[1, 2], &mut out), SUBETHA_OK);
    assert_eq!(out, [1, 2]);
}

#[test]
fn a_lazy_value_is_published_by_its_claimant_alone() {
    let mut last = LastError::new();
    assert_eq!(lazy_value::subetha_lazy_publish(&mut last, 5, true), Ok(()));
    assert!(lazy_value::subetha_lazy_publish(&mut last, 5, false).is_err());
    assert_eq!(lazy_value::subetha_lazy_try_get(&mut last, true, 8), Ok(8));
    assert!(lazy_value::subetha_lazy_try_get(&mut last, false, 8).is_err());
}

#[test]
fn a_wait_takes_a_timeout_in_range() {
    let mut last = LastError::new();
    assert_eq!(notifier::wait_arguments(&mut last, -1), Ok(-1));
    assert_eq!(notifier::wait_arguments(&mut last, i32::MAX as i64), Ok(i32::MAX));
    assert_eq!(notifier::wait_arguments(&mut last, -2), Err(SUBETHA_E_INVALID_ARGUMENT));
    assert_eq!(last.detail(), "timeout_ms -2 is not between -1 and 2147483647");
    assert_eq!(notifier::wait_arguments(&mut last, i64::MIN), Err(SUBETHA_E_INVALID_ARGUMENT));
    assert_eq!(last.detail(), "timeout_ms -9223372036854775808 is not between -1 and 2147483647");
    assert_eq!(notifier::wait_arguments(&mut last, 2_147_483_648), Err(SUBETHA_E_INVALID_ARGUMENT));
    assert_eq!(last.detail(), "timeout_ms 2147483648 is not between -1 and 2147483647");
    assert_eq!(notifier::subetha_notifier_wait(true), SUBETHA_OK);
    assert_eq!(notifier::subetha_notifier_wait(false), SUBETHA_E_TIMEOUT);
}

#[test]
fn a_boxed_value_is_read_as_what_it_holds() {
    assert_eq!(nan_value::subetha_nan_type(NaNValueType::F64), SUBETHA_NAN_F64);
    assert_eq!(nan_value::subetha_nan_type(NaNValueType::Bool), SUBETHA_NAN_BOOL);
    assert_eq!(nan_value::subetha_nan_type(NaNValueType::Reserved(9)), SUBETHA_NAN_RESERVED);
    let mut out = 5i32;
    assert!(!nan_value::handed_back(None, false, &mut out));
    assert_eq!(out, 5);
    assert!(nan_value::handed_back(Some(-3), true, &mut out));
    assert_eq!(out, 5);
    assert!(nan_value::handed_back(Some(-3), false, &mut out));
    assert_eq!(out, -3);
    let (mut index, mut tag) = (0u32, 0u32);
    assert!(nan_value::subetha_nan_as_tagged(Some((6, 2)), false, &mut index, true, &mut tag));
    assert_eq!((index, tag), (6, 0));
    assert!(!nan_value::subetha_nan_as_tagged(None, false, &mut index, false, &mut tag));
    assert_eq!((index, tag), (6, 0));
}

fn wanted() -> subetha_qos {
    subetha_qos {
        durability: SUBETHA_QOS_PERSISTENT,
        reliability: SUBETHA_QOS_RELIABLE,
        history_kind: SUBETHA_QOS_KEEP_LAST,
        history_depth: 16,
        max_latency_nanos: 1_000,
        ordering: SUBETHA_QOS_GLOBAL_FIFO,
    }
}

#[test]
fn a_policy_reads_back_what_it_was_made_from() {
    let mut last = LastError::new();
    let (policy, mode) = qos_policy::subetha_qos_create(&mut last, Ok(()), false, Some(wanted()), Ok(1)).unwrap();
    assert_eq!(mode, 1);
    assert_eq!(
        policy,
        QosPolicy {
            durability: Durability::Persistent,
            reliability: Reliability::Reliable,
            history: History::KeepLastN(16),
            max_latency_nanos: 1_000,
            ordering: QosOrdering::GlobalFifo,
        }
    );
    assert_eq!(qos_policy::subetha_qos_read(&mut last, false, policy), Ok(wanted()));
    let long = QosPolicy { max_latency_nanos: u128::MAX, history: History::KeepAll, ..policy };
    let read = qos_policy::subetha_qos_read(&mut last, false, long).unwrap();
    assert_eq!((read.max_latency_nanos, read.history_kind, read.history_depth), (u64::MAX, SUBETHA_QOS_KEEP_ALL, 0));
}

#[test]
fn a_policy_of_a_bad_field_is_refused_by_name() {
    let mut last = LastError::new();
    for (want, text) in [
        (subetha_qos { durability: 3, ..wanted() }, "durability 3 names none"),
        (subetha_qos { reliability: 2, ..wanted() }, "reliability 2 names none"),
        (
            subetha_qos { history_depth: 0, ..wanted() },
            "keeping the last zero items keeps nothing; ask for keep-all or a depth",
        ),
        (subetha_qos { history_kind: 2, ..wanted() }, "history kind 2 names none"),
        (subetha_qos { ordering: 2, ..wanted() }, "ordering 2 names none"),
    ] {
        assert!(qos_policy::subetha_qos_create(&mut last, Ok(()), false, Some(want), Ok(0)).is_err());
        assert_eq!(last.detail(), text);
    }
    assert!(qos_policy::subetha_qos_create(&mut last, Ok(()), false, None, Ok(0)).is_err());
    assert_eq!(last.detail(), "initial or out is null");
    assert_eq!(
        qos_policy::subetha_qos_create_preset(&mut last, Ok(()), false, Ok(0), 2),
        Ok((Preset::PersistentLog, 0))
    );
    assert!(qos_policy::subetha_qos_create_preset(&mut last, Ok(()), false, Ok(0), 3).is_err());
    assert_eq!(last.detail(), "preset 3 names none");
}

#[test]
fn a_refused_setting_changes_nothing() {
    let mut last = LastError::new();
    let (mut policy, _) = qos_policy::subetha_qos_create(&mut last, Ok(()), false, Some(wanted()), Ok(0)).unwrap();
    let before = policy;
    assert!(policy.set_history(&mut last, SUBETHA_QOS_KEEP_LAST, 0).is_err());
    assert!(policy.set_durability(&mut last, 9).is_err());
    assert!(policy.set_reliability(&mut last, 9).is_err());
    assert!(policy.set_ordering(&mut last, 9).is_err());
    assert_eq!(policy, before);
    policy.set_history(&mut last, SUBETHA_QOS_KEEP_ALL, 0).unwrap();
    policy.set_durability(&mut last, 0).unwrap();
    policy.set_max_latency(5);
    assert_eq!(
        policy,
        QosPolicy { durability: Durability::Volatile, history: History::KeepAll, max_latency_nanos: 5, ..before }
    );
    assert_eq!(
        qos_policy::subetha_qos_recommended_locale(&mut last, false, RingLocale::File),
        Ok(SUBETHA_LOCALE_FILE)
    );
}

#[test]
fn one_run_at_a_time_on_a_bridge() {
    let mut last = LastError::new();
    let mut progress = Progress::new();
    assert_eq!(progress.begin(&mut last, 250), Ok(Some(250)));
    assert_eq!(progress.begin(&mut last, -1), Err(SUBETHA_E_INVALID_ARGUMENT));
    assert_eq!(last.detail(), "a run is already under way on this bridge");
    progress.end(12, SUBETHA_E_TIMEOUT);
    let stats = progress.stats(1, 0);
    assert_eq!((stats.items, stats.running, stats.finished, stats.last_code), (12, false, true, SUBETHA_E_TIMEOUT));
    assert_eq!(progress.begin(&mut last, -1), Ok(None));
    assert_eq!(progress.abandon(&mut last, "none left"), SUBETHA_E_RING_IO);
    assert_eq!(last.detail(), "no thread for the run: none left");
    assert_eq!(quic_bridge::bounded(&mut last, Transfer::Elapsed), SUBETHA_E_TIMEOUT);
    assert_eq!(quic_bridge::bounded(&mut last, Transfer::Ended(Ok(3))), SUBETHA_OK);
    let refused = QuicBridgeError::Tls(String::from("bad cert"));
    assert_eq!(quic_bridge::bounded(&mut last, Transfer::Ended(Err(refused))), SUBETHA_E_RING_IO);
    assert_eq!(last.detail(), "tls: bad cert");
    assert_eq!(quic_bridge::carried(&Transfer::Ended(Ok(3))), 3);
    assert_eq!(quic_bridge::carried(&Transfer::Elapsed), 0);
    assert_eq!(quic_bridge::carried(&Transfer::Ended(Err(QuicBridgeError::Tls(String::from("bad cert"))))), 0);
    assert_eq!(quic_bridge::unavailable(&mut last), SUBETHA_E_NOT_SUPPORTED);
    assert_eq!(quic_bridge::local_port(&mut last, None), Err(SUBETHA_E_INVALID_ARGUMENT));
    assert_eq!(quic_bridge::local_port(&mut last, Some(Ok(4433))), Ok(4433));
}
