//! Codes, their names, and the detail of the last failure.

use subetha_ffi::error::{
    fail, io_code, map_code, refused,
    ring_code, set_detail, subetha_last_error_detail, subetha_strerror, waker_code,
    IoFailure, LastError, MapError, Refused, RingError, WakerError, SUBETHA_E_ARENA_FULL,
    SUBETHA_E_ARENA_INVALID_REF, SUBETHA_E_BROADCAST_INVALID_CONSUMER, SUBETHA_E_BROADCAST_NO_CONSUMER_SLOT,
    SUBETHA_E_BUFFER_TOO_SMALL, SUBETHA_E_DEQUE_NOT_OWNER, SUBETHA_E_DESTROYED, SUBETHA_E_HANDLES_WERE_LIVE,
    SUBETHA_E_HANDLE_POISONED, SUBETHA_E_INIT_CONFLICT, SUBETHA_E_INVALID_ARGUMENT, SUBETHA_E_INVALID_HANDLE,
    SUBETHA_E_INVALID_UTF8, SUBETHA_E_MAP_FULL, SUBETHA_E_MAP_KEY_ABSENT, SUBETHA_E_NOT_INITIALIZED,
    SUBETHA_E_NOT_SUPPORTED, SUBETHA_E_OUT_OF_BOUNDS, SUBETHA_E_OUT_OF_MEMORY, SUBETHA_E_PANIC,
    SUBETHA_E_PUBSUB_LOST, SUBETHA_E_PUBSUB_PENDING, SUBETHA_E_READ_ONLY, SUBETHA_E_RING_EMPTY,
    SUBETHA_E_RING_FULL, SUBETHA_E_RING_GROWTH_FAILED, SUBETHA_E_RING_IO, SUBETHA_E_RING_LAYOUT_MISMATCH,
    SUBETHA_E_RING_NOT_DRAINER, SUBETHA_E_RING_NOT_STAMPED, SUBETHA_E_RING_PAYLOAD_TOO_LARGE,
    SUBETHA_E_RING_STALE_BACKLOG, SUBETHA_E_RING_TOO_MANY_CONSUMERS, SUBETHA_E_RING_TOO_MANY_PRODUCERS,
    SUBETHA_E_RING_WAKER_FULL, SUBETHA_E_RING_WAKER_LAYOUT, SUBETHA_E_SHUT_DOWN, SUBETHA_E_TIMEOUT,
    SUBETHA_E_WRONG_KIND, SUBETHA_OK,
};

#[test]
fn every_code_has_a_name_and_the_unknown_one_says_so() {
    for code in [
        SUBETHA_OK,
        SUBETHA_E_NOT_INITIALIZED,
        SUBETHA_E_INIT_CONFLICT,
        SUBETHA_E_INVALID_ARGUMENT,
        SUBETHA_E_INVALID_HANDLE,
        SUBETHA_E_HANDLE_POISONED,
        SUBETHA_E_PANIC,
        SUBETHA_E_WRONG_KIND,
        SUBETHA_E_OUT_OF_MEMORY,
        SUBETHA_E_BUFFER_TOO_SMALL,
        SUBETHA_E_INVALID_UTF8,
        SUBETHA_E_TIMEOUT,
        SUBETHA_E_SHUT_DOWN,
        SUBETHA_E_HANDLES_WERE_LIVE,
        SUBETHA_E_NOT_SUPPORTED,
        SUBETHA_E_DESTROYED,
        SUBETHA_E_RING_FULL,
        SUBETHA_E_RING_EMPTY,
        SUBETHA_E_RING_LAYOUT_MISMATCH,
        SUBETHA_E_RING_PAYLOAD_TOO_LARGE,
        SUBETHA_E_RING_NOT_STAMPED,
        SUBETHA_E_RING_NOT_DRAINER,
        SUBETHA_E_RING_STALE_BACKLOG,
        SUBETHA_E_RING_IO,
        SUBETHA_E_RING_TOO_MANY_PRODUCERS,
        SUBETHA_E_RING_TOO_MANY_CONSUMERS,
        SUBETHA_E_RING_GROWTH_FAILED,
        SUBETHA_E_RING_WAKER_FULL,
        SUBETHA_E_RING_WAKER_LAYOUT,
        SUBETHA_E_BROADCAST_NO_CONSUMER_SLOT,
        SUBETHA_E_BROADCAST_INVALID_CONSUMER,
        SUBETHA_E_PUBSUB_PENDING,
        SUBETHA_E_PUBSUB_LOST,
        SUBETHA_E_DEQUE_NOT_OWNER,
        SUBETHA_E_MAP_FULL,
        SUBETHA_E_MAP_KEY_ABSENT,
        SUBETHA_E_ARENA_FULL,
        SUBETHA_E_ARENA_INVALID_REF,
        SUBETHA_E_READ_ONLY,
        SUBETHA_E_OUT_OF_BOUNDS,
    ] {
        let s = subetha_strerror(code);
        assert_ne!(s, "unknown subetha code", "code {code} has no name");
    }
    let s = subetha_strerror(9_999);
    assert_eq!(s, "unknown subetha code");
}

#[test]
fn no_two_declared_codes_share_a_name() {
    let mut names: Vec<&str> = (0..=15).chain(100..=133).map(subetha_strerror).collect();
    assert_eq!(names.len(), 50);
    names.sort_unstable();
    names.dedup();
    assert_eq!(names.len(), 50);
}

/// What stands before the terminator.
fn terminated(bytes: &[u8]) -> &str {
    let end = bytes.iter().position(|b| *b == 0).expect("a terminator");
    std::str::from_utf8(&bytes[..end]).unwrap()
}

#[test]
fn detail_reports_the_size_it_needs_and_never_overruns() {
    let mut last = LastError::new();
    set_detail(&mut last, "a path and two sizes");
    let needed = subetha_last_error_detail(&last, &mut []);
    assert_eq!(needed, "a path and two sizes".len() + 1);
    let mut small = [0x7fu8; 8];
    let got = subetha_last_error_detail(&last, &mut small);
    assert_eq!(got, needed, "a short buffer still reports the full size");
    assert_eq!(small[7], 0, "the copy is NUL-terminated inside the buffer");
    assert_eq!(terminated(&small), "a path ");
    let mut full = vec![0u8; needed];
    let got = subetha_last_error_detail(&last, &mut full);
    assert_eq!(got, needed);
    assert_eq!(terminated(&full), "a path and two sizes");
}

#[test]
fn a_failure_records_its_detail_and_a_bare_code_leaves_it() {
    let mut last = LastError::new();
    assert_eq!(fail(&mut last, SUBETHA_E_RING_IO, "first"), SUBETHA_E_RING_IO);
    assert_eq!(last.detail(), "first");
    assert_eq!(refused(&mut last, Refused { code: SUBETHA_E_SHUT_DOWN, detail: None }), SUBETHA_E_SHUT_DOWN);
    assert_eq!(last.detail(), "first");
    let told = Refused { code: SUBETHA_E_INVALID_UTF8, detail: Some(String::from("path")) };
    assert_eq!(refused(&mut last, told), SUBETHA_E_INVALID_UTF8);
    assert_eq!(last.detail(), "path");
}

#[test]
fn each_family_maps_its_errors() {
    let mut last = LastError::new();
    assert_eq!(ring_code(&mut last, RingError::Full), SUBETHA_E_RING_FULL);
    assert_eq!(ring_code(&mut last, RingError::Empty), SUBETHA_E_RING_EMPTY);
    assert_eq!(last.detail(), "");
    assert_eq!(waker_code(&mut last, WakerError::Timeout), SUBETHA_E_TIMEOUT);
    assert_eq!(waker_code(&mut last, WakerError::Full), SUBETHA_E_RING_WAKER_FULL);
    assert_eq!(waker_code(&mut last, WakerError::LayoutMismatch), SUBETHA_E_RING_WAKER_LAYOUT);
    assert_eq!(waker_code(&mut last, WakerError::IoError(String::from("NotFound"))), SUBETHA_E_RING_IO);
    assert_eq!(last.detail(), "waker io error: NotFound");
    assert_eq!(map_code(&mut last, MapError::Full), SUBETHA_E_MAP_FULL);
}

#[test]
fn an_io_failure_says_what_the_os_said() {
    let mut last = LastError::new();
    let layout = IoFailure { invalid_data: true, kind: String::from("InvalidData"), said: String::from("bad magic") };
    assert_eq!(io_code(&mut last, layout), SUBETHA_E_RING_LAYOUT_MISMATCH);
    assert_eq!(last.detail(), "bad magic");
    let plain = IoFailure { invalid_data: false, kind: String::from("NotFound"), said: String::from("no file") };
    assert_eq!(io_code(&mut last, plain), SUBETHA_E_RING_IO);
    assert_eq!(last.detail(), "io error: NotFound: no file");
}
