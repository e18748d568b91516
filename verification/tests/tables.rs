//! The families of slots and tables: what their arguments may be, and what
//! their calls answer.

use subetha_ffi::arguments::{copy_all, copy_on_hit, given, payload_fits, read_arguments};
use subetha_ffi::error::{
    FenceClockError, HeartbeatError, LastError, LinkedListError, MapError, Refused, SharedHolderError,
    SUBETHA_E_BUFFER_TOO_SMALL, SUBETHA_E_FENCE_CLOCK_FULL, SUBETHA_E_INVALID_ARGUMENT, SUBETHA_E_MAP_FULL,
    SUBETHA_E_MAP_KEY_ABSENT, SUBETHA_E_NOT_INITIALIZED, SUBETHA_E_OUT_OF_BOUNDS, SUBETHA_E_RING_EMPTY,
    SUBETHA_E_RING_FULL, SUBETHA_E_RING_PAYLOAD_TOO_LARGE, SUBETHA_E_WRONG_KIND, SUBETHA_OK,
};
use subetha_ffi::fence_clock::{subetha_fence_clock_slot, subetha_hlc};
use subetha_ffi::frame_region::SUBETHA_FRAME_NO_BLOCK;
use subetha_ffi::handle::Object;
use subetha_ffi::hashmap::{InsertOutcome, Step, SUBETHA_MAP_INSERTED, SUBETHA_MAP_UPDATED};
use subetha_ffi::heartbeat::{subetha_heartbeat_slot, SUBETHA_HEARTBEAT_EMPTY_PID};
use subetha_ffi::holders::{SUBETHA_HOLDER_FREE, SUBETHA_HOLDER_RESERVED};
use subetha_ffi::list::{ElementLayout, SUBETHA_LIST_NIL_INDEX};
use subetha_ffi::{
    fence_clock, frame_region, graph, hashmap, heartbeat, histogram, holders, hyper_log_log, list, lru_cache,
    rate_limiter,
};

fn early() -> Refused {
    Refused { code: SUBETHA_E_NOT_INITIALIZED, detail: None }
}

#[test]
fn arguments_are_read_in_order() {
    let mut last = LastError::new();
    let read = read_arguments(&mut last, Err(early()), true, Ok("p"), 0, Ok(0));
    assert_eq!(read, Err(SUBETHA_E_NOT_INITIALIZED));
    assert_eq!(last.detail(), "");
    assert_eq!(read_arguments(&mut last, Ok(()), true, Ok("p"), 0, Ok(0)), Err(SUBETHA_E_INVALID_ARGUMENT));
    assert_eq!(last.detail(), "out is null");
    assert_eq!(read_arguments(&mut last, Ok(()), false, Ok("p"), 0, Ok(0)), Err(SUBETHA_E_INVALID_ARGUMENT));
    assert_eq!(last.detail(), "capacity is zero");
    assert_eq!(read_arguments(&mut last, Ok(()), false, Ok("p"), 8, Ok(1)), Ok(("p", 8, 1)));
    let told = Refused { code: SUBETHA_E_INVALID_ARGUMENT, detail: Some(String::from("mode 9")) };
    assert_eq!(given::<u32>(&mut last, Err(told)), Err(SUBETHA_E_INVALID_ARGUMENT));
    assert_eq!(last.detail(), "mode 9");
}

#[test]
fn a_copy_reports_its_length_and_writes_all_or_nothing() {
    let mut last = LastError::new();
    let mut out = [9u64; 4];
    assert_eq!(copy_all(&mut last, &[1, 2], false, &mut out, false), (SUBETHA_OK, Some(2)));
    assert_eq!(out, [1, 2, 9, 9]);
    let mut small = [9u64; 1];
    assert_eq!(copy_all(&mut last, &[1, 2], false, &mut small, false), (SUBETHA_E_BUFFER_TOO_SMALL, Some(2)));
    assert_eq!(small, [9]);
    assert_eq!(copy_all(&mut last, &[1, 2], false, &mut out, true), (SUBETHA_E_INVALID_ARGUMENT, None));
    assert_eq!(last.detail(), "out_len is null");
    let mut bytes = [7u8; 3];
    copy_on_hit(false, &[1, 2, 3], &mut bytes);
    assert_eq!(bytes, [7; 3]);
    copy_on_hit(true, &[1, 2], &mut bytes);
    assert_eq!(bytes, [1, 2, 7]);
}

#[test]
fn a_payload_fits_its_slot_or_says_by_how_much_not() {
    let mut last = LastError::new();
    assert_eq!(payload_fits(&mut last, 56, 56), Ok(()));
    assert_eq!(payload_fits(&mut last, 57, 56), Err(SUBETHA_E_RING_PAYLOAD_TOO_LARGE));
    assert_eq!(last.detail(), "57 bytes exceed the 56-byte slot");
}

/// The shape a map is made with is the one its arguments gave.
#[test]
fn the_object_reports_its_shape_and_refuses_bad_sizes() {
    let mut last = LastError::new();
    let shape = hashmap::read_arguments(&mut last, Ok(()), false, Ok("shape"), 16, 4, 8, Ok(0)).unwrap();
    assert_eq!(shape.1, 16);
    assert_eq!(shape.2, 4);
    assert_eq!(shape.3, 8);
    let (key, value) = hashmap::insert_arguments(&mut last, Ok(&[1, 2, 3, 4]), Ok(&[9; 8]), 4, 8).unwrap();
    assert_eq!((key, value), (&[1u8, 2, 3, 4][..], &[9u8; 8][..]));
    assert_eq!(hashmap::checked_sizes(&mut last, 0, 8).unwrap_err(), SUBETHA_E_INVALID_ARGUMENT);
    assert_eq!(hashmap::checked_sizes(&mut last, 40, 9).unwrap_err(), SUBETHA_E_INVALID_ARGUMENT);
    assert_eq!(hashmap::checked_sizes(&mut last, 40, 8).unwrap(), (40, 8));
    assert_eq!(hashmap::map_capacity(&mut last, 1).unwrap_err(), SUBETHA_E_INVALID_ARGUMENT);
}

#[test]
fn a_map_refuses_bad_sizes_and_capacities() {
    let mut last = LastError::new();
    assert_eq!(hashmap::checked_sizes(&mut last, 0, 8).unwrap_err(), SUBETHA_E_INVALID_ARGUMENT);
    assert_eq!(last.detail(), "key_size is zero");
    assert_eq!(hashmap::checked_sizes(&mut last, 40, 9).unwrap_err(), SUBETHA_E_INVALID_ARGUMENT);
    assert_eq!(last.detail(), "key_size 40 plus value_size 9 exceed the 48-byte entry");
    assert_eq!(hashmap::checked_sizes(&mut last, 40, 8).unwrap(), (40, 8));
    assert_eq!(hashmap::checked_sizes(&mut last, u32::MAX, u32::MAX).unwrap_err(), SUBETHA_E_INVALID_ARGUMENT);
    assert_eq!(hashmap::map_capacity(&mut last, 1).unwrap_err(), SUBETHA_E_INVALID_ARGUMENT);
    assert_eq!(last.detail(), "capacity 1 is below 2");
    assert_eq!(hashmap::map_capacity(&mut last, 2), Ok(2));
}

#[test]
fn a_map_takes_keys_and_values_of_its_own_sizes() {
    let mut last = LastError::new();
    let (key, value) = ([1u8, 2], [3u8, 4, 5]);
    assert!(hashmap::insert_arguments(&mut last, Ok(&key), Ok(&value), 2, 3).is_ok());
    assert!(hashmap::insert_arguments(&mut last, Ok(&value), Ok(&value), 2, 3).is_err());
    assert_eq!(last.detail(), "a key is 2 bytes, not 3");
    assert!(hashmap::insert_arguments(&mut last, Ok(&key), Ok(&key), 2, 3).is_err());
    assert_eq!(last.detail(), "the value is 2 bytes, not 3");
    let swap = hashmap::compare_exchange_arguments(&mut last, false, Ok(&key), Ok(&value), Ok(&key), Ok(()), 2, 3);
    assert!(swap.is_err());
    assert_eq!(last.detail(), "new is 2 bytes, not 3");
    let swap = hashmap::compare_exchange_arguments(&mut last, true, Ok(&key), Ok(&value), Ok(&value), Ok(()), 2, 3);
    assert!(swap.is_err());
    assert_eq!(last.detail(), "out_swapped is null");
    assert!(hashmap::insert_if_absent_arguments(&mut last, true, Ok(&key), Ok(&value), Ok(()), 2, 3).is_err());
    assert_eq!(last.detail(), "out_present is null");
    assert!(hashmap::get_arguments(&mut last, Ok(&key), Ok(()), 2).is_ok());
    assert!(hashmap::contains_arguments(&mut last, true, Ok(&key), 2).is_err());
    assert_eq!(last.detail(), "out is null");
    assert!(hashmap::next_arguments(&mut last, false, true, Ok(()), Ok(())).is_err());
    assert_eq!(last.detail(), "cursor or out_found is null");
    assert_eq!(hashmap::get_many_arguments(&mut last, 0, true, 0, 2), Ok(()));
    assert!(hashmap::get_many_arguments(&mut last, 1, true, 2, 2).is_err());
    assert_eq!(last.detail(), "keys is null with a non-zero count");
    assert!(hashmap::get_many_arguments(&mut last, 1, false, 1, 2).is_err());
    assert_eq!(last.detail(), "a key stride of 1 does not span a key of 2 bytes");
}

#[test]
fn a_map_reports_what_its_calls_did() {
    let mut last = LastError::new();
    assert_eq!(hashmap::subetha_hashmap_insert(&mut last, Ok(InsertOutcome::Inserted)), Ok(SUBETHA_MAP_INSERTED));
    assert_eq!(hashmap::subetha_hashmap_insert(&mut last, Ok(InsertOutcome::Updated)), Ok(SUBETHA_MAP_UPDATED));
    assert_eq!(hashmap::subetha_hashmap_insert(&mut last, Err(MapError::Full)), Err(SUBETHA_E_MAP_FULL));
    assert_eq!(hashmap::subetha_hashmap_get(&mut last, Ok(true), 8), Ok(8));
    assert_eq!(hashmap::subetha_hashmap_get(&mut last, Ok(false), 8), Err(SUBETHA_E_MAP_KEY_ABSENT));
    assert_eq!(hashmap::subetha_hashmap_remove(&mut last, Ok(true), 8), Ok(8));
    assert_eq!(hashmap::subetha_hashmap_remove(&mut last, Ok(false), 8), Err(SUBETHA_E_MAP_KEY_ABSENT));
    assert_eq!(hashmap::subetha_hashmap_insert_if_absent(&mut last, Ok(true), 8), Ok((true, 8)));
    assert_eq!(hashmap::subetha_hashmap_insert_if_absent(&mut last, Ok(false), 8), Ok((false, 0)));
    assert_eq!(hashmap::subetha_hashmap_compare_exchange(&mut last, Ok(true), 8), Ok((true, 0)));
    assert_eq!(hashmap::subetha_hashmap_compare_exchange(&mut last, Ok(false), 8), Ok((false, 8)));
    assert_eq!(
        hashmap::subetha_hashmap_next(&mut last, Ok(Some(5)), 3, 4, 8),
        Ok(Step { cursor: 5, key_len: 4, value_len: 8, found: true })
    );
    assert_eq!(
        hashmap::subetha_hashmap_next(&mut last, Ok(None), 3, 4, 8),
        Ok(Step { cursor: 3, key_len: 0, value_len: 0, found: false })
    );
    assert_eq!(hashmap::subetha_hashmap_compact(&mut last, Ok(6)), Ok(6));
    assert_eq!(hashmap::outcome(&mut last, Err::<bool, MapError>(MapError::Full)), Err(SUBETHA_E_MAP_FULL));
}

#[test]
fn a_region_refuses_a_bad_geometry() {
    let mut last = LastError::new();
    assert_eq!(frame_region::checked_geometry(&mut last, 4, 4).unwrap_err(), SUBETHA_E_INVALID_ARGUMENT);
    assert_eq!(frame_region::checked_geometry(&mut last, 12, 4).unwrap_err(), SUBETHA_E_INVALID_ARGUMENT);
    assert_eq!(last.detail(), "block_size 12 is not a multiple of eight of at least 8");
    assert_eq!(frame_region::checked_geometry(&mut last, 64, 0).unwrap_err(), SUBETHA_E_INVALID_ARGUMENT);
    assert_eq!(
        frame_region::checked_geometry(&mut last, 64, SUBETHA_FRAME_NO_BLOCK).unwrap_err(),
        SUBETHA_E_INVALID_ARGUMENT
    );
    assert_eq!(last.detail(), "block_count 4294967295 is zero or the index that names no block");
    assert_eq!(frame_region::checked_geometry(&mut last, 64, 4).unwrap(), (64, 4));
    assert_eq!(frame_region::checked_geometry(&mut last, 8, 1).unwrap(), (8, 1));
}

#[test]
fn a_region_refuses_blocks_it_does_not_carry_and_bytes_it_cannot_hold() {
    let mut last = LastError::new();
    assert_eq!(frame_region::checked_block(&mut last, 4, 3), Ok(()));
    assert_eq!(frame_region::checked_block(&mut last, 4, 4), Err(SUBETHA_E_OUT_OF_BOUNDS));
    assert_eq!(last.detail(), "block 4 is past the 4 the region carries");
    let data = [1u8; 8];
    assert!(frame_region::write_arguments(&mut last, 4, 64, 3, 8, Ok(&data)).is_ok());
    let refused = frame_region::read_block_arguments(&mut last, 4, 64, 3, 65, Ok(()));
    assert_eq!(refused, Err(SUBETHA_E_RING_PAYLOAD_TOO_LARGE));
    assert_eq!(last.detail(), "65 bytes exceed the 64-byte block");
    assert_eq!(frame_region::subetha_frame_region_alloc(Some(2)), Ok(2));
    assert_eq!(frame_region::subetha_frame_region_alloc(None), Err(SUBETHA_E_RING_FULL));
    let stats = frame_region::stats(0, 64, 4, 400);
    assert_eq!((stats.block_size, stats.block_count, stats.file_size), (64, 4, 400));
}

#[test]
fn a_heartbeat_slot_is_within_the_table() {
    let mut last = LastError::new();
    assert_eq!(heartbeat::checked_slot(&mut last, 4, 4).unwrap_err(), SUBETHA_E_OUT_OF_BOUNDS);
    assert_eq!(last.detail(), "slot 4 is past the 4 the table holds");
    assert_eq!(heartbeat::checked_slot(&mut last, 4, 3).unwrap(), 3);
    assert_eq!(heartbeat::register_arguments(&mut last, 0, false), Err(SUBETHA_E_INVALID_ARGUMENT));
    assert_eq!(heartbeat::register_arguments(&mut last, 9, false), Ok(()));
    assert_eq!(heartbeat::subetha_heartbeat_register(&mut last, Ok(2)), Ok(2));
    assert!(heartbeat::subetha_heartbeat_register(&mut last, Err(HeartbeatError::TableFull)).is_err());
    assert_eq!(heartbeat::in_flight_arguments(&mut last, 4, 1, 63), Ok((1, 63)));
    assert_eq!(heartbeat::in_flight_arguments(&mut last, 4, 1, 64), Err(SUBETHA_E_OUT_OF_BOUNDS));
    assert_eq!(last.detail(), "bit 64 is past the 64 a slot tracks");
}

#[test]
fn a_heartbeat_table_counts_the_slots_held() {
    let held = subetha_heartbeat_slot { pid: 100, role: 1, last_seen_epoch: 3, in_flight_bitmap: (1 << 63) | 1 };
    assert_eq!(heartbeat::subetha_heartbeat_read_slot(Some(held)), held);
    let empty = heartbeat::subetha_heartbeat_read_slot(None);
    assert_eq!(empty.pid, SUBETHA_HEARTBEAT_EMPTY_PID);
    let stats = heartbeat::stats(0, &[Some(held), None, Some(held), None], 3, 640);
    assert_eq!((stats.capacity, stats.registered, stats.global_epoch, stats.file_size), (4, 2, 3, 640));
}

#[test]
fn a_holder_refuses_the_payloads_the_table_reads_for_itself() {
    let mut last = LastError::new();
    assert_eq!(holders::checked_payload(&mut last, SUBETHA_HOLDER_FREE).unwrap_err(), SUBETHA_E_INVALID_ARGUMENT);
    assert_eq!(holders::checked_payload(&mut last, SUBETHA_HOLDER_RESERVED).unwrap_err(), SUBETHA_E_INVALID_ARGUMENT);
    assert_eq!(holders::checked_payload(&mut last, 1).unwrap(), 1);
    assert_eq!(holders::checked_slot(&mut last, 4, 4).unwrap_err(), SUBETHA_E_OUT_OF_BOUNDS);
    assert_eq!(holders::checked_slot(&mut last, 4, 3).unwrap(), 3);
    assert_eq!(holders::publish_arguments(&mut last, 4, 3, 7), Ok((3, 7)));
    assert!(holders::try_claim_slot_arguments(&mut last, 4, 3, 7, true).is_err());
    assert_eq!(holders::claimed(Some(2)), Ok(2));
    assert_eq!(holders::claimed(None), Err(SUBETHA_E_RING_FULL));
    let opened: Result<u8, SharedHolderError> = Ok(5);
    assert!(holders::place(&mut last, opened).is_ok());
}

#[test]
fn a_list_leaves_room_past_its_sentinel() {
    let mut last = LastError::new();
    assert_eq!(list::list_capacity(&mut last, 1).unwrap_err(), SUBETHA_E_INVALID_ARGUMENT);
    assert_eq!(last.detail(), "capacity 1 leaves no room past the sentinel head");
    assert_eq!(list::list_capacity(&mut last, SUBETHA_LIST_NIL_INDEX).unwrap_err(), SUBETHA_E_INVALID_ARGUMENT);
    assert_eq!(last.detail(), "capacity is the index that names no node");
    assert_eq!(list::list_capacity(&mut last, 2).unwrap(), 2);
    let layout = ElementLayout { slot_size: 16, alignment: 4, tag: 4 };
    let stats = list::stats(0, 8, 0, layout, 24);
    assert_eq!((stats.capacity, stats.len, stats.element_size), (8, 0, 16));
    assert_eq!((stats.alignment, stats.tag, stats.node_size), (4, 4, 24));
    assert_eq!(list::value_of(&mut last, Ok(&[1, 2]), 3).unwrap_err(), SUBETHA_E_INVALID_ARGUMENT);
    assert_eq!(last.detail(), "a value is 3 bytes, not 2");
    assert!(list::push_arguments(&mut last, true, Ok(&[1, 2]), 2).is_err());
    assert_eq!(last.detail(), "out_index is null");
    assert_eq!(list::popped(&mut last, Ok(true), 16), Ok(16));
    assert_eq!(list::popped(&mut last, Ok(false), 16), Err(SUBETHA_E_RING_EMPTY));
    assert!(list::popped(&mut last, Err(LinkedListError::InvalidHandle), 16).is_err());
}

#[test]
fn a_clock_slot_is_within_the_clock() {
    let mut last = LastError::new();
    assert_eq!(fence_clock::slot_of(&mut last, 2, 1), Ok(1));
    assert_eq!(fence_clock::slot_of(&mut last, 2, 2), Err(SUBETHA_E_INVALID_ARGUMENT));
    assert_eq!(last.detail(), "slot 2 is past the 2 the clock holds");
    assert_eq!(fence_clock::subetha_fence_clock_register(&mut last, Ok(1)), Ok(1));
    assert_eq!(
        fence_clock::subetha_fence_clock_register(&mut last, Err(FenceClockError::Full)),
        Err(SUBETHA_E_FENCE_CLOCK_FULL)
    );
    let reading = subetha_hlc { physical_us: 11, logical: 2 };
    assert_eq!(fence_clock::write_hlc(&mut last, false, reading), Ok(reading));
    assert_eq!(fence_clock::write_hlc(&mut last, true, reading), Err(SUBETHA_E_INVALID_ARGUMENT));
    assert_eq!(fence_clock::read_slot_arguments(&mut last, 2, 1, false, true), Err(SUBETHA_E_INVALID_ARGUMENT));
    assert_eq!(last.detail(), "out or out_registered is null");
}

#[test]
fn an_unregistered_slot_leaves_the_callers_copy_alone() {
    let before = subetha_fence_clock_slot { pid: 5, hlc: subetha_hlc { physical_us: 1, logical: 1 }, last_updated_us: 9 };
    let mut out = before;
    assert!(!fence_clock::subetha_fence_clock_read_slot(None, &mut out));
    assert_eq!(out, before);
    let found = subetha_fence_clock_slot { pid: 11, hlc: subetha_hlc { physical_us: 7, logical: 0 }, last_updated_us: 7 };
    assert!(fence_clock::subetha_fence_clock_read_slot(Some(found), &mut out));
    assert_eq!(out, found);
}

#[test]
fn a_graph_needs_values_of_some_size() {
    let mut last = LastError::new();
    assert_eq!(
        graph::read_arguments(&mut last, Ok(()), false, Ok("g"), 0, 4, Ok(0)),
        Err(SUBETHA_E_INVALID_ARGUMENT)
    );
    assert_eq!(last.detail(), "a node or edge value of zero bytes carries nothing");
    assert_eq!(graph::read_arguments(&mut last, Ok(()), false, Ok("g"), 8, 4, Ok(0)), Ok(("g", 8, 4, 0)));
    assert!(graph::add_arguments(&mut last, true, "edge_out", Ok(&[1])).is_err());
    assert_eq!(last.detail(), "edge_out is null");
    let mut out = [0u8; 2];
    assert_eq!(graph::value_read(&mut last, Ok(5u32), &[1, 2], &mut out), Ok(5));
    assert_eq!(out, [1, 2]);
    let refused = graph::value_read::<u32>(&mut last, Err(graph::RawGraphError::InvalidNode), &[3, 4], &mut out);
    assert_eq!(refused, Err(SUBETHA_E_INVALID_ARGUMENT));
    assert_eq!(out, [1, 2]);
}

#[test]
fn a_handle_of_another_family_is_refused_by_name() {
    let mut last = LastError::new();
    let object: Object<u8> = Object::Graph(1);
    assert_eq!(graph::with_graph(&mut last, &object), Ok(&1));
    assert_eq!(hashmap::with_map(&mut last, &object), Err(SUBETHA_E_WRONG_KIND));
    assert_eq!(last.detail(), "the handle does not name a hash map");
    assert_eq!(lru_cache::with_lru(&mut last, &object), Err(SUBETHA_E_WRONG_KIND));
    assert_eq!(histogram::with_histogram(&mut last, &object), Err(SUBETHA_E_WRONG_KIND));
    assert_eq!(hyper_log_log::with_hll(&mut last, &object), Err(SUBETHA_E_WRONG_KIND));
    assert_eq!(rate_limiter::with_limiter(&mut last, &object), Err(SUBETHA_E_WRONG_KIND));
}
