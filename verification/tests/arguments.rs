//! What each family's arguments may be, and the detail a refused one leaves.

use subetha_ffi::epoch::{wait_for_calls_on, Registry};
use subetha_ffi::error::{
    BlockingError, LastError, Refused, RingError, SUBETHA_E_BUFFER_TOO_SMALL, SUBETHA_E_INVALID_ARGUMENT,
    SUBETHA_E_LAZY_CLAIMANT_GONE, SUBETHA_E_LAZY_NOT_CLAIMED, SUBETHA_E_NOT_INITIALIZED, SUBETHA_E_NOT_OWNER,
    SUBETHA_E_OUT_OF_BOUNDS, SUBETHA_E_RING_FULL, SUBETHA_E_TIMEOUT, SUBETHA_OK,
};
use subetha_ffi::frame_region::{checked_block, SUBETHA_FRAME_NO_BLOCK};
use subetha_ffi::handle::{Object, Table, SUBETHA_KIND_HISTOGRAM, SUBETHA_KIND_RING};
use subetha_ffi::lazy_value::WaitError;
use subetha_ffi::{
    histogram, hyper_log_log, k_tower, lamport, laned_map, lazy_value, leader, lru_cache, mpmc, owner_lease, pubsub,
    quic_bridge, rate_limiter,
};

fn early() -> Refused {
    Refused { code: SUBETHA_E_NOT_INITIALIZED, detail: None }
}

fn said(text: &str) -> Refused {
    Refused { code: SUBETHA_E_INVALID_ARGUMENT, detail: Some(String::from(text)) }
}

/// A refused argument and the detail it left.
fn left<T>(answer: Result<T, i32>, last: &LastError) -> (i32, String) {
    (answer.err().expect("a refusal"), String::from(last.detail()))
}

fn bad(text: &str) -> (i32, String) {
    (SUBETHA_E_INVALID_ARGUMENT, String::from(text))
}

#[test]
fn a_histogram_needs_boundaries() {
    let mut last = LastError::new();
    let read = histogram::read_arguments(&mut last, Ok(()), false, Ok("h"), true, &[], Ok(0));
    assert_eq!(left(read, &last), bad("boundaries is null"));
    let read = histogram::read_arguments(&mut last, Ok(()), false, Ok("h"), false, &[], Ok(0));
    assert_eq!(left(read, &last), bad("n_boundaries is zero"));
    let bounds = [1u64, 5];
    let read = histogram::read_arguments(&mut last, Ok(()), false, Ok("h"), false, &bounds, Ok(1));
    assert_eq!(read, Ok(("h", &bounds[..], 1)));
    assert_eq!(histogram::stats(1, 3, 9).n_buckets, 3);
}

#[test]
fn a_sketch_takes_a_precision_in_range() {
    let mut last = LastError::new();
    for precision in [3u32, 17, 260] {
        let read = hyper_log_log::read_arguments(&mut last, Ok(()), false, precision, Ok("s"), Ok(0));
        assert_eq!(left(read, &last), bad(&format!("precision {precision} is outside 4 to 16")));
    }
    assert_eq!(hyper_log_log::read_arguments(&mut last, Ok(()), false, 16, Ok("s"), Ok(0)), Ok(("s", 16, 0)));
    let read = hyper_log_log::read_arguments(&mut last, Ok(()), false, 3, Err(said("path is null")), Ok(0));
    assert_eq!(left(read, &last), bad("precision 3 is outside 4 to 16"));
}

#[test]
fn a_limiter_needs_a_capacity_and_a_rate() {
    let mut last = LastError::new();
    let read = rate_limiter::read_arguments(&mut last, Ok(()), false, Ok("r"), 0, 1, Ok(0));
    assert_eq!(left(read, &last), bad("capacity is zero"));
    let read = rate_limiter::read_arguments(&mut last, Ok(()), false, Ok("r"), 1, 0, Ok(0));
    assert_eq!(left(read, &last), bad("refill_rate_per_sec is zero"));
    let read = rate_limiter::read_arguments(&mut last, Err(early()), true, Ok("r"), 0, 0, Ok(0));
    assert_eq!(read, Err(SUBETHA_E_NOT_INITIALIZED));
    assert_eq!(rate_limiter::read_arguments(&mut last, Ok(()), false, Ok("r"), 5, 2, Ok(0)), Ok(("r", 5, 2, 0)));
}

#[test]
fn a_cache_needs_keys_and_values_of_some_size() {
    let mut last = LastError::new();
    let read = lru_cache::read_arguments(&mut last, Ok(()), false, Ok("c"), 8, Ok(0), 0, 4);
    assert_eq!(left(read, &last), bad("a key or value of zero bytes carries nothing"));
    let read = lru_cache::read_arguments(&mut last, Ok(()), false, Ok("c"), 8, Ok(0), 4, 4);
    assert_eq!(read, Ok(("c", 8, 4, 4, 0)));
    let key = lru_cache::read_key(&mut last, true, false, Ok(&[1]));
    assert_eq!(left(key, &last), bad("found or value_out is null"));
    let key = lru_cache::remove_key(&mut last, false, true, Ok(&[1]));
    assert_eq!(left(key, &last), bad("removed or value_out is null"));
    let key = lru_cache::contains_key(&mut last, true, Ok(&[1]));
    assert_eq!(left(key, &last), bad("present is null"));
    let evict = lru_cache::evict_arguments(&mut last, false, true, false);
    assert_eq!(left(evict, &last), bad("evicted, key_out or value_out is null"));
}

#[test]
fn a_miss_leaves_the_callers_buffer_alone() {
    let mut last = LastError::new();
    let mut value = [7u8; 2];
    assert_eq!(lru_cache::lru_read(&mut last, Ok(false), &[1, 2], &mut value), Ok(false));
    assert_eq!(value, [7, 7]);
    assert_eq!(lru_cache::lru_read(&mut last, Ok(true), &[1, 2], &mut value), Ok(true));
    assert_eq!(value, [1, 2]);
    let mut key = [0u8; 1];
    assert_eq!(
        lru_cache::subetha_lru_evict_oldest(&mut last, Ok(true), &[9], &mut key, &[3, 4], &mut value),
        Ok(true)
    );
    assert_eq!((key, value), ([9], [3, 4]));
}

#[test]
fn a_lease_payload_fits_and_moves_with_its_holder() {
    let mut last = LastError::new();
    for size in [0u32, 49] {
        let read = owner_lease::read_arguments(&mut last, Ok(()), false, Ok("l"), size, Ok(0));
        assert_eq!(left(read, &last), bad(&format!("payload_size {size} is zero or above 48")));
    }
    assert_eq!(owner_lease::read_arguments(&mut last, Ok(()), false, Ok("l"), 48, Ok(0)), Ok(("l", 48, 0)));
    let write = owner_lease::write_arguments(&mut last, 5, 9, 8);
    assert_eq!(left(write, &last), bad("9 bytes exceed the 8-byte payload"));
    let write = owner_lease::write_arguments(&mut last, 0, 9, 8);
    assert_eq!(left(write, &last), bad("pid 0 is the value that means no owner"));
    let acquire = owner_lease::try_acquire_arguments(&mut last, 5, true);
    assert_eq!(left(acquire, &last), bad("out_acquired is null"));
    assert_eq!(owner_lease::held_by(&mut last, 5, false), Err(SUBETHA_E_NOT_OWNER));
    assert_eq!(last.detail(), "pid 5 does not hold the lease");
    assert_eq!(owner_lease::held_by(&mut last, 5, true), Ok(()));
    let claim = leader::try_claim_arguments(&mut last, 0, true);
    assert_eq!(left(claim, &last), bad("pid 0 is the value that means no leader"));
    let claim = leader::try_claim_arguments(&mut last, 9, true);
    assert_eq!(left(claim, &last), bad("out_claimed is null"));
}

#[test]
fn a_lazy_value_has_a_size_a_claimant_and_a_wait() {
    let mut last = LastError::new();
    for size in [0usize, 49] {
        let read = lazy_value::read_arguments(&mut last, Ok(()), false, Ok("v"), size, 48, Ok(0));
        assert_eq!(left(read, &last), bad(&format!("value_bytes is {size}, and a lazy value holds 1 to 48")));
    }
    let claim = lazy_value::claim_arguments(&mut last, false, 0);
    assert_eq!(left(claim, &last), bad("pid is zero, which names no process"));
    let publish = lazy_value::publish_arguments(&mut last, false, 3, 4);
    assert_eq!(left(publish, &last), bad("len is 3 and the value holds 4"));
    assert_eq!(lazy_value::subetha_lazy_publish(&mut last, 8, false), Err(SUBETHA_E_LAZY_NOT_CLAIMED));
    assert_eq!(last.detail(), "process 8 does not hold the claim on this value");
    assert_eq!(lazy_value::subetha_lazy_wait(&mut last, Ok(()), 4), Ok(4));
    assert_eq!(lazy_value::subetha_lazy_wait(&mut last, Err(WaitError::TimedOut), 4), Err(SUBETHA_E_TIMEOUT));
    assert_eq!(
        lazy_value::subetha_lazy_wait(&mut last, Err(WaitError::ClaimantGone), 4),
        Err(SUBETHA_E_LAZY_CLAIMANT_GONE)
    );
}

#[test]
fn a_laned_map_names_the_argument_at_fault() {
    let mut last = LastError::new();
    for (shape, text) in [
        ((0u32, 1u64, 1usize, 1usize, 1u64), "lanes is zero"),
        ((1, 0, 1, 1, 1), "nodes_per_lane is zero"),
        ((1, 1, 0, 1, 1), "key_size is zero"),
        ((1, 1, 1, 0, 1), "value_size is zero"),
        ((1, 1, 1, 1, 0), "max_pins is zero"),
    ] {
        let (lanes, nodes, k, v, pins) = shape;
        let read = laned_map::read_arguments(&mut last, Ok(()), false, Ok("d"), lanes, nodes, k, v, pins, Ok(0));
        assert_eq!(left(read, &last), bad(text));
    }
    let key = laned_map::lane_key(&mut last, false, 3, 4, Ok(&[1, 2, 3]));
    assert_eq!(left(key, &last), bad("a key is 4 bytes, not 3"));
    let (read, len) = laned_map::value_arguments(&mut last, false, 1, 1, 8, false, 7, Ok(&[1]));
    assert_eq!((read, len), (Err(SUBETHA_E_BUFFER_TOO_SMALL), Some(8)));
    let range = laned_map::range_arguments(&mut last, false, true, false, None);
    assert_eq!(left(range, &last), bad("an out pointer is null"));
}

#[test]
fn a_tower_refuses_levels_it_cannot_read() {
    let mut last = LastError::new();
    let entries = vec![(Ok(String::from("a")), 4)];
    let levels = k_tower::read_levels(&mut last, true, false, entries);
    assert_eq!(
        left(levels, &last),
        bad("level_paths or level_capacities is null with n_levels above zero")
    );
    assert_eq!(k_tower::read_levels(&mut last, true, true, vec![]), Ok(vec![]));
    let entries = vec![(Ok(String::from("a")), 4), (Err(said("level path is null")), 4)];
    let levels = k_tower::read_levels(&mut last, false, false, entries);
    assert_eq!(left(levels, &last), bad("level path is null"));
    let store = k_tower::store_arguments(&mut last, Ok(&[1]), true);
    assert_eq!(left(store, &last), bad("path is null"));
}

#[test]
fn a_grid_has_a_ring_for_every_consumer() {
    let mut last = LastError::new();
    let grid = mpmc::grid_args(&mut last, 4, 0, false, false, Ok(8), Ok(0));
    assert_eq!(left(grid, &last), bad("n_consumers must be at least 1"));
    let grid = mpmc::grid_args(&mut last, 1, 2, false, false, Ok(8), Ok(0));
    assert_eq!(
        left(grid, &last),
        bad("n_producers 1 is below n_consumers 2; every consumer owns at least one ring")
    );
    let grid = mpmc::grid_args(&mut last, 4, 2, true, false, Ok(8), Ok(0));
    assert_eq!(left(grid, &last), bad("out_producers or out_consumers is null"));
    assert_eq!(mpmc::grid_args(&mut last, 4, 2, false, false, Ok(8), Ok(1)), Ok((4, 2, 8, 1)));
    let built: Result<u8, BlockingError> = Err(BlockingError::Ring(RingError::Full));
    assert_eq!(mpmc::built(&mut last, built), Err(SUBETHA_E_RING_FULL));
    let pair = lamport::pair_args(&mut last, false, true, Ok(8), Ok(0));
    assert_eq!(left(pair, &last), bad("out_producer or out_consumer is null"));
    assert_eq!(lamport::pair_args(&mut last, false, false, Ok(8), Ok(1)), Ok((8, 1)));
}

#[test]
fn a_pubsub_ring_reads_its_arguments_in_order() {
    let mut last = LastError::new();
    let read = pubsub::file_arguments(&mut last, Ok(()), Err(said("options")), Err(said("path")), Ok(4));
    assert_eq!(left(read, &last), bad("options"));
    let read = pubsub::shm_arguments(&mut last, Ok(()), Ok(()), Ok("n"), Ok(2), Ok(4), Err(said("sddl")));
    assert_eq!(left(read, &last), bad("sddl"));
    assert_eq!(pubsub::anon_arguments(&mut last, Ok(()), Ok(()), Ok(4)), Ok(4));
    let subscriber = pubsub::subetha_pubsub_subscribe(&mut last, 3, Ok(0), true);
    assert_eq!(left(subscriber, &last), bad("out is null"));
    assert_eq!(pubsub::subetha_pubsub_subscribe(&mut last, 3, Ok(0), false).unwrap().position(), 3);
    assert_eq!(pubsub::subetha_pubsub_subscribe_file(&mut last, Ok(9), 1, false).unwrap().position(), 9);
}

#[test]
fn a_bridge_needs_addresses_and_certificates() {
    let mut last = LastError::new();
    let read = quic_bridge::client_arguments(&mut last, false, Ok(1), Ok(2), Ok("sni"), None, Ok(0));
    assert_eq!(left(read, &last), bad("cert is null"));
    let read = quic_bridge::client_arguments(&mut last, false, Ok(1), Ok(2), Ok("sni"), Some(&[]), Ok(0));
    assert_eq!(left(read, &last), bad("cert is empty"));
    let read = quic_bridge::server_arguments(&mut last, false, Ok(1), Some(&[1]), None, Ok(0));
    assert_eq!(left(read, &last), bad("key is null"));
    assert_eq!(quic_bridge::bad_address(&mut last, "addr", "nowhere", "invalid"), SUBETHA_E_INVALID_ARGUMENT);
    assert_eq!(last.detail(), "addr nowhere: invalid");
}

#[test]
fn a_certificate_and_its_key_are_copied_together_or_not_at_all() {
    let (cert, key) = ([1u8, 2, 3], [4u8, 5]);
    let (mut cert_out, mut key_out) = ([9u8; 4], [9u8; 2]);
    let went = quic_bridge::self_signed(&cert, &key, false, &mut cert_out, false, &mut key_out);
    assert_eq!(went, (SUBETHA_OK, 3, 2));
    assert_eq!((cert_out, key_out), ([1, 2, 3, 9], [4, 5]));
    let (mut cert_out, mut key_out) = ([9u8; 4], [9u8; 1]);
    let went = quic_bridge::self_signed(&cert, &key, false, &mut cert_out, false, &mut key_out);
    assert_eq!(went, (SUBETHA_E_BUFFER_TOO_SMALL, 3, 2), "the key does not fit");
    assert_eq!((cert_out, key_out), ([9; 4], [9]));
    let mut key_out = [9u8; 2];
    let went = quic_bridge::self_signed(&cert, &key, true, &mut [], false, &mut key_out);
    assert_eq!(went, (SUBETHA_E_BUFFER_TOO_SMALL, 3, 2), "no place for the certificate");
    assert_eq!(key_out, [9; 2]);
}

#[test]
fn the_index_that_names_no_block_names_none() {
    let mut last = LastError::new();
    assert_eq!(checked_block(&mut last, 0xFFFF_FFFE, SUBETHA_FRAME_NO_BLOCK), Err(SUBETHA_E_OUT_OF_BOUNDS));
}

#[test]
fn the_handles_held_are_those_not_destroyed() {
    let mut table: Table<u8> = Table::new();
    let mut last = LastError::new();
    let a = table.insert(Object::Ring(1));
    let b = table.insert(Object::Histogram(2));
    assert_eq!(table.held(), vec![a, b]);
    let index = table.close(&mut last, a).unwrap();
    assert_eq!(table.held(), vec![b], "a closing handle is another caller's");
    let mut registry = Registry::new();
    let wait = wait_for_calls_on(&mut registry, index);
    assert!(table.take_when_over(&registry, &wait, index).is_some());
    assert_eq!(table.held(), vec![b]);
    assert_eq!(Object::Ring(1).kind(), SUBETHA_KIND_RING);
    assert_eq!(Object::Histogram(1).kind(), SUBETHA_KIND_HISTOGRAM);
}
