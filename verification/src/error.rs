//! Codes, their names, and the per-thread detail behind a failing call.
//!
//! One integer space: the hundreds digit is the domain. Codes below 100
//! belong to the runtime and the handle table, 100 to 199 to rings and the
//! structures beside them. A code alone is enough to act on; the detail
//! carries the specifics (a path, two sizes that disagreed) for the call
//! that just failed.
//!
//! A thread's detail is one [`LastError`]. Every function that can refuse
//! takes it, so what a refusal leaves behind is part of its contract: a
//! refusal with specifics replaces the detail, a bare code leaves it as it
//! was, and a success does not touch it.

use vstd::prelude::*;
use vstd::utf8::encode_utf8;

use crate::text::{dec, push_dec};

verus! {

/// The call succeeded.
pub const SUBETHA_OK: i32 = 0;

/// No call may precede `subetha_init`.
pub const SUBETHA_E_NOT_INITIALIZED: i32 = 1;

/// `subetha_init` was called again with a different default mode.
pub const SUBETHA_E_INIT_CONFLICT: i32 = 2;

/// An argument was null, zero where a count is required, or out of range.
pub const SUBETHA_E_INVALID_ARGUMENT: i32 = 3;

/// The handle names no live object: never issued, already destroyed, or
/// issued by an earlier occupant of the same table slot.
pub const SUBETHA_E_INVALID_HANDLE: i32 = 4;

/// A panic inside an earlier call on this handle left the object
/// unusable. Destroy it and create another.
pub const SUBETHA_E_HANDLE_POISONED: i32 = 5;

/// This call panicked. The handle it ran on, if any, is now poisoned;
/// `subetha_last_panic_message` has the text.
pub const SUBETHA_E_PANIC: i32 = 6;

/// The handle is live but names an object of another kind.
pub const SUBETHA_E_WRONG_KIND: i32 = 7;

/// An allocation failed.
pub const SUBETHA_E_OUT_OF_MEMORY: i32 = 8;

/// A caller-provided buffer is too small; the detail names the size needed.
pub const SUBETHA_E_BUFFER_TOO_SMALL: i32 = 9;

/// A string argument is not valid UTF-8.
pub const SUBETHA_E_INVALID_UTF8: i32 = 10;

/// The timeout elapsed before the condition held.
pub const SUBETHA_E_TIMEOUT: i32 = 11;

/// The library has been shut down; `subetha_init` again before any other call.
pub const SUBETHA_E_SHUT_DOWN: i32 = 12;

/// `subetha_shutdown` found live handles and closed them; the detail says how many.
pub const SUBETHA_E_HANDLES_WERE_LIVE: i32 = 13;

/// The requested behavior exists in the library but not on this platform
/// or in this mode.
pub const SUBETHA_E_NOT_SUPPORTED: i32 = 14;

/// The object was destroyed while this call was waiting on it.
pub const SUBETHA_E_DESTROYED: i32 = 15;

/// The ring is full.
pub const SUBETHA_E_RING_FULL: i32 = 100;

/// The ring is empty.
pub const SUBETHA_E_RING_EMPTY: i32 = 101;

/// A backing exists but its magic or capacity does not match the request.
pub const SUBETHA_E_RING_LAYOUT_MISMATCH: i32 = 102;

/// The payload exceeds what one slot carries.
pub const SUBETHA_E_RING_PAYLOAD_TOO_LARGE: i32 = 103;

/// The operation needs ordering stamps the ring was not built with.
pub const SUBETHA_E_RING_NOT_STAMPED: i32 = 104;

/// Another consumer holds the drainer lease; back off and retry.
pub const SUBETHA_E_RING_NOT_DRAINER: i32 = 105;

/// A morph was asked for while the previous shape still holds a backlog.
pub const SUBETHA_E_RING_STALE_BACKLOG: i32 = 106;

/// The OS refused an open, map, or remove; the detail names the kind.
pub const SUBETHA_E_RING_IO: i32 = 107;

/// Producer registration refused by a declared contract or the slot ceiling.
pub const SUBETHA_E_RING_TOO_MANY_PRODUCERS: i32 = 108;

/// Consumer registration refused by a declared contract or the slot ceiling.
pub const SUBETHA_E_RING_TOO_MANY_CONSUMERS: i32 = 109;

/// Registration claimed a slot but the grown backing could not be created.
pub const SUBETHA_E_RING_GROWTH_FAILED: i32 = 110;

/// Every waiter slot is in use; poll with the try variant instead.
pub const SUBETHA_E_RING_WAKER_FULL: i32 = 111;

/// A waker region exists but does not match the ring's request.
pub const SUBETHA_E_RING_WAKER_LAYOUT: i32 = 112;

/// Every consumer slot of the broadcast ring is taken.
pub const SUBETHA_E_BROADCAST_NO_CONSUMER_SLOT: i32 = 113;

/// The consumer index is out of range or not registered.
pub const SUBETHA_E_BROADCAST_INVALID_CONSUMER: i32 = 114;

/// The position has not been published yet.
pub const SUBETHA_E_PUBSUB_PENDING: i32 = 115;

/// The position was overwritten before it was read; the subscriber's
/// position has moved to the ring's head.
pub const SUBETHA_E_PUBSUB_LOST: i32 = 116;

/// The deque handle is a thief's; push and pop belong to the owner.
pub const SUBETHA_E_DEQUE_NOT_OWNER: i32 = 117;

/// The map has no free slot for the key.
pub const SUBETHA_E_MAP_FULL: i32 = 118;

/// The key has no entry in the map.
pub const SUBETHA_E_MAP_KEY_ABSENT: i32 = 119;

/// The arena has no room for the whole value.
pub const SUBETHA_E_ARENA_FULL: i32 = 120;

/// The reference reaches past what the arena holds.
pub const SUBETHA_E_ARENA_INVALID_REF: i32 = 121;

/// The handle was opened read-only and the call writes.
pub const SUBETHA_E_READ_ONLY: i32 = 122;

/// The index is at or past the length or the capacity.
pub const SUBETHA_E_OUT_OF_BOUNDS: i32 = 123;

/// Every pin slot in the epoch table is held by a live process.
pub const SUBETHA_E_EPOCHS_PINS_EXHAUSTED: i32 = 124;

/// Every ticket slot in the epoch table is held by a live process.
pub const SUBETHA_E_EPOCHS_TICKETS_EXHAUSTED: i32 = 125;

/// Someone else holds the lock, or a writer is waiting for it.
pub const SUBETHA_E_WOULD_BLOCK: i32 = 126;

/// The call needs the lease and this process does not hold it.
pub const SUBETHA_E_NOT_OWNER: i32 = 127;

/// Every slot in the fence clock is registered.
pub const SUBETHA_E_FENCE_CLOCK_FULL: i32 = 128;

/// The barrier has no live peer to wait for, so a wait would never be
/// released by anyone.
pub const SUBETHA_E_BARRIER_NO_LIVE_PEERS: i32 = 129;

/// The epoch waited on is behind the one the barrier has reached, so the
/// caller is asking to join a rendezvous that is already over.
pub const SUBETHA_E_BARRIER_EPOCH_PASSED: i32 = 130;

/// Every holder slot on the shared value is held by a live process.
pub const SUBETHA_E_ARC_HOLDERS_EXHAUSTED: i32 = 131;

/// The claim on a lazy value belongs to a process that is gone, so no
/// one will publish it. `subetha_lazy_reclaim` frees it for the next
/// caller to claim.
pub const SUBETHA_E_LAZY_CLAIMANT_GONE: i32 = 132;

/// The lazy value is claimed by a live process and not yet published.
pub const SUBETHA_E_LAZY_NOT_CLAIMED: i32 = 133;

/// The text `subetha_strerror` names a code by.
pub open spec fn strerror_text(code: i32) -> Seq<char> {
    if code == SUBETHA_OK {
        "ok"@
    } else if code == SUBETHA_E_NOT_INITIALIZED {
        "subetha_init has not been called"@
    } else if code == SUBETHA_E_INIT_CONFLICT {
        "subetha_init was called again with a different default mode"@
    } else if code == SUBETHA_E_INVALID_ARGUMENT {
        "an argument is null, zero, or out of range"@
    } else if code == SUBETHA_E_INVALID_HANDLE {
        "the handle names no live object"@
    } else if code == SUBETHA_E_HANDLE_POISONED {
        "an earlier panic left this handle's object unusable"@
    } else if code == SUBETHA_E_PANIC {
        "the call panicked"@
    } else if code == SUBETHA_E_WRONG_KIND {
        "the handle names an object of another kind"@
    } else if code == SUBETHA_E_OUT_OF_MEMORY {
        "an allocation failed"@
    } else if code == SUBETHA_E_BUFFER_TOO_SMALL {
        "the caller's buffer is too small"@
    } else if code == SUBETHA_E_INVALID_UTF8 {
        "a string argument is not valid UTF-8"@
    } else if code == SUBETHA_E_TIMEOUT {
        "the timeout elapsed"@
    } else if code == SUBETHA_E_SHUT_DOWN {
        "the library has been shut down"@
    } else if code == SUBETHA_E_HANDLES_WERE_LIVE {
        "shutdown closed handles that were still live"@
    } else if code == SUBETHA_E_NOT_SUPPORTED {
        "not supported on this platform or in this mode"@
    } else if code == SUBETHA_E_DESTROYED {
        "the object was destroyed while this call waited on it"@
    } else if code == SUBETHA_E_RING_FULL {
        "the ring is full"@
    } else if code == SUBETHA_E_RING_EMPTY {
        "the ring is empty"@
    } else if code == SUBETHA_E_RING_LAYOUT_MISMATCH {
        "a backing exists with a different layout"@
    } else if code == SUBETHA_E_RING_PAYLOAD_TOO_LARGE {
        "the payload exceeds one slot"@
    } else if code == SUBETHA_E_RING_NOT_STAMPED {
        "the ring carries no ordering stamps"@
    } else if code == SUBETHA_E_RING_NOT_DRAINER {
        "another consumer holds the drainer lease"@
    } else if code == SUBETHA_E_RING_STALE_BACKLOG {
        "the previous shape still holds a backlog"@
    } else if code == SUBETHA_E_RING_IO {
        "the OS refused an open, map or remove"@
    } else if code == SUBETHA_E_RING_TOO_MANY_PRODUCERS {
        "producer registration refused"@
    } else if code == SUBETHA_E_RING_TOO_MANY_CONSUMERS {
        "consumer registration refused"@
    } else if code == SUBETHA_E_RING_GROWTH_FAILED {
        "the grown backing could not be created"@
    } else if code == SUBETHA_E_RING_WAKER_FULL {
        "every waiter slot is in use"@
    } else if code == SUBETHA_E_RING_WAKER_LAYOUT {
        "a waker region exists with a different layout"@
    } else if code == SUBETHA_E_BROADCAST_NO_CONSUMER_SLOT {
        "every consumer slot of the broadcast ring is taken"@
    } else if code == SUBETHA_E_BROADCAST_INVALID_CONSUMER {
        "the consumer index is out of range or not registered"@
    } else if code == SUBETHA_E_PUBSUB_PENDING {
        "the position has not been published yet"@
    } else if code == SUBETHA_E_PUBSUB_LOST {
        "the position was overwritten before it was read"@
    } else if code == SUBETHA_E_DEQUE_NOT_OWNER {
        "the deque handle is a thief's; push and pop belong to the owner"@
    } else if code == SUBETHA_E_MAP_FULL {
        "the map has no free slot for the key"@
    } else if code == SUBETHA_E_MAP_KEY_ABSENT {
        "the key has no entry in the map"@
    } else if code == SUBETHA_E_ARENA_FULL {
        "the arena has no room for the whole value"@
    } else if code == SUBETHA_E_ARENA_INVALID_REF {
        "the reference reaches past what the arena holds"@
    } else if code == SUBETHA_E_READ_ONLY {
        "the handle was opened read-only"@
    } else if code == SUBETHA_E_OUT_OF_BOUNDS {
        "the index is at or past the length or the capacity"@
    } else if code == SUBETHA_E_EPOCHS_PINS_EXHAUSTED {
        "every pin slot is held by a live process"@
    } else if code == SUBETHA_E_EPOCHS_TICKETS_EXHAUSTED {
        "every ticket slot is held by a live process"@
    } else if code == SUBETHA_E_FENCE_CLOCK_FULL {
        "every slot in the fence clock is registered"@
    } else if code == SUBETHA_E_BARRIER_NO_LIVE_PEERS {
        "the barrier has no live peer to wait for"@
    } else if code == SUBETHA_E_BARRIER_EPOCH_PASSED {
        "the barrier has already passed the epoch waited on"@
    } else if code == SUBETHA_E_ARC_HOLDERS_EXHAUSTED {
        "every holder slot on the shared value is held"@
    } else if code == SUBETHA_E_LAZY_CLAIMANT_GONE {
        "the claim on the lazy value belongs to a process that is gone"@
    } else if code == SUBETHA_E_LAZY_NOT_CLAIMED {
        "the caller does not hold the claim on the lazy value"@
    } else if code == SUBETHA_E_WOULD_BLOCK {
        "someone else holds the lock, or a writer is waiting for it"@
    } else if code == SUBETHA_E_NOT_OWNER {
        "the call needs the lease and this process does not hold it"@
    } else {
        "unknown subetha code"@
    }
}

/// Whether `code` is one of the codes declared here.
pub open spec fn is_declared(code: i32) -> bool {
    0 <= code <= 15 || 100 <= code <= 133
}

/// The name of a code; an unknown code names itself as unknown.
pub fn subetha_strerror(code: i32) -> (name: &'static str)
    ensures
        name@ == strerror_text(code),
{
    match code {
        SUBETHA_OK => "ok",
        SUBETHA_E_NOT_INITIALIZED => "subetha_init has not been called",
        SUBETHA_E_INIT_CONFLICT => "subetha_init was called again with a different default mode",
        SUBETHA_E_INVALID_ARGUMENT => "an argument is null, zero, or out of range",
        SUBETHA_E_INVALID_HANDLE => "the handle names no live object",
        SUBETHA_E_HANDLE_POISONED => "an earlier panic left this handle's object unusable",
        SUBETHA_E_PANIC => "the call panicked",
        SUBETHA_E_WRONG_KIND => "the handle names an object of another kind",
        SUBETHA_E_OUT_OF_MEMORY => "an allocation failed",
        SUBETHA_E_BUFFER_TOO_SMALL => "the caller's buffer is too small",
        SUBETHA_E_INVALID_UTF8 => "a string argument is not valid UTF-8",
        SUBETHA_E_TIMEOUT => "the timeout elapsed",
        SUBETHA_E_SHUT_DOWN => "the library has been shut down",
        SUBETHA_E_HANDLES_WERE_LIVE => "shutdown closed handles that were still live",
        SUBETHA_E_NOT_SUPPORTED => "not supported on this platform or in this mode",
        SUBETHA_E_DESTROYED => "the object was destroyed while this call waited on it",
        SUBETHA_E_RING_FULL => "the ring is full",
        SUBETHA_E_RING_EMPTY => "the ring is empty",
        SUBETHA_E_RING_LAYOUT_MISMATCH => "a backing exists with a different layout",
        SUBETHA_E_RING_PAYLOAD_TOO_LARGE => "the payload exceeds one slot",
        SUBETHA_E_RING_NOT_STAMPED => "the ring carries no ordering stamps",
        SUBETHA_E_RING_NOT_DRAINER => "another consumer holds the drainer lease",
        SUBETHA_E_RING_STALE_BACKLOG => "the previous shape still holds a backlog",
        SUBETHA_E_RING_IO => "the OS refused an open, map or remove",
        SUBETHA_E_RING_TOO_MANY_PRODUCERS => "producer registration refused",
        SUBETHA_E_RING_TOO_MANY_CONSUMERS => "consumer registration refused",
        SUBETHA_E_RING_GROWTH_FAILED => "the grown backing could not be created",
        SUBETHA_E_RING_WAKER_FULL => "every waiter slot is in use",
        SUBETHA_E_RING_WAKER_LAYOUT => "a waker region exists with a different layout",
        SUBETHA_E_BROADCAST_NO_CONSUMER_SLOT => "every consumer slot of the broadcast ring is taken",
        SUBETHA_E_BROADCAST_INVALID_CONSUMER => "the consumer index is out of range or not registered",
        SUBETHA_E_PUBSUB_PENDING => "the position has not been published yet",
        SUBETHA_E_PUBSUB_LOST => "the position was overwritten before it was read",
        SUBETHA_E_DEQUE_NOT_OWNER => "the deque handle is a thief's; push and pop belong to the owner",
        SUBETHA_E_MAP_FULL => "the map has no free slot for the key",
        SUBETHA_E_MAP_KEY_ABSENT => "the key has no entry in the map",
        SUBETHA_E_ARENA_FULL => "the arena has no room for the whole value",
        SUBETHA_E_ARENA_INVALID_REF => "the reference reaches past what the arena holds",
        SUBETHA_E_READ_ONLY => "the handle was opened read-only",
        SUBETHA_E_OUT_OF_BOUNDS => "the index is at or past the length or the capacity",
        SUBETHA_E_EPOCHS_PINS_EXHAUSTED => "every pin slot is held by a live process",
        SUBETHA_E_EPOCHS_TICKETS_EXHAUSTED => "every ticket slot is held by a live process",
        SUBETHA_E_FENCE_CLOCK_FULL => "every slot in the fence clock is registered",
        SUBETHA_E_BARRIER_NO_LIVE_PEERS => "the barrier has no live peer to wait for",
        SUBETHA_E_BARRIER_EPOCH_PASSED => "the barrier has already passed the epoch waited on",
        SUBETHA_E_ARC_HOLDERS_EXHAUSTED => "every holder slot on the shared value is held",
        SUBETHA_E_LAZY_CLAIMANT_GONE => "the claim on the lazy value belongs to a process that is gone",
        SUBETHA_E_LAZY_NOT_CLAIMED => "the caller does not hold the claim on the lazy value",
        SUBETHA_E_WOULD_BLOCK => "someone else holds the lock, or a writer is waiting for it",
        SUBETHA_E_NOT_OWNER => "the call needs the lease and this process does not hold it",
        _ => "unknown subetha code",
    }
}

/// The specifics of the last failing call on one thread.
pub struct LastError {
    text: String,
}

impl View for LastError {
    type V = Seq<char>;

    closed spec fn view(&self) -> Seq<char> {
        self.text@
    }
}

impl LastError {
    /// A thread on which nothing has failed yet.
    pub fn new() -> (last: Self)
        ensures
            last@ == Seq::<char>::empty(),
    {
        LastError { text: String::new() }
    }

    /// The detail as it stands.
    pub fn detail(&self) -> (text: &str)
        ensures
            text@ == self@,
    {
        self.text.as_str()
    }
}

/// Record the specifics of the failure the current call is about to report.
pub fn set_detail(last: &mut LastError, text: &str)
    ensures
        final(last)@ == text@,
{
    last.text = String::from_str(text);
}

/// Record a failure's specifics and return its code, so a failing arm reads
/// as one expression.
pub fn fail(last: &mut LastError, code: i32, text: &str) -> (answer: i32)
    ensures
        answer == code,
        final(last)@ == text@,
{
    set_detail(last, text);
    code
}

/// What a call answers: a code, and the detail it leaves behind when it
/// leaves one.
pub struct Report {
    /// The code.
    pub code: i32,
    /// The detail recorded with it, if one is.
    pub detail: Option<Seq<char>>,
}

impl Report {
    /// The detail after this report, given the one before it.
    pub open spec fn leaves(self, before: Seq<char>) -> Seq<char> {
        match self.detail {
            Some(text) => text,
            None => before,
        }
    }
}

/// A code with no specifics: the detail stays as it was.
pub open spec fn bare(code: i32) -> Report {
    Report { code, detail: None }
}

/// A code whose specifics replace the detail.
pub open spec fn told(code: i32, text: Seq<char>) -> Report {
    Report { code, detail: Some(text) }
}

/// `code` and the detail `after` are what `report` says, starting from the
/// detail `before`.
pub open spec fn answers_code(code: i32, report: Report, before: Seq<char>, after: Seq<char>) -> bool {
    code == report.code && after == report.leaves(before)
}

/// `result` and the detail `after` are what `wanted` says, starting from the
/// detail `before`: a success leaves the detail alone, a refusal carries its
/// report.
pub open spec fn answers<T>(
    result: Result<T, i32>,
    wanted: Result<T, Report>,
    before: Seq<char>,
    after: Seq<char>,
) -> bool {
    match wanted {
        Ok(value) => result == Ok::<T, i32>(value) && after == before,
        Err(report) => result == Err::<T, i32>(report.code) && after == report.leaves(before),
    }
}

/// A refusal decided before the call it belongs to, held as a value: what
/// an argument that could not be read, or a call that came too early,
/// answers with.
#[derive(Debug)]
pub struct Refused {
    /// The code.
    pub code: i32,
    /// The specifics to record with it, if any.
    pub detail: Option<String>,
}

impl Refused {
    /// The report this refusal makes.
    pub open spec fn report(self) -> Report {
        match self.detail {
            Some(text) => told(self.code, text@),
            None => bare(self.code),
        }
    }
}

/// Answer with a refusal decided earlier.
pub fn refused(last: &mut LastError, refusal: Refused) -> (code: i32)
    ensures
        answers_code(code, refusal.report(), old(last)@, final(last)@),
{
    match refusal.detail {
        Some(text) => fail(last, refusal.code, text.as_str()),
        None => refusal.code,
    }
}

/// How many bytes of the detail a buffer of `cap` bytes receives, the
/// terminator not counted.
pub open spec fn detail_copied(detail: Seq<char>, cap: int) -> int {
    let len = encode_utf8(detail).len() as int;
    if cap == 0 {
        0
    } else if len <= cap - 1 {
        len
    } else {
        cap - 1
    }
}

/// What a buffer holds once the detail is copied into it: as much of the
/// detail as fits, a zero byte behind it, and the rest as it was. A buffer
/// with no room at all stays as it is.
pub open spec fn with_detail(buf: Seq<u8>, detail: Seq<char>) -> Seq<u8> {
    if buf.len() == 0 {
        buf
    } else {
        let n = detail_copied(detail, buf.len() as int);
        encode_utf8(detail).take(n).push(0u8) + buf.skip(n + 1)
    }
}

/// The bytes the whole detail needs, the terminator counted; the most a
/// number of bytes can be where it needs more than that.
pub open spec fn detail_needs(detail: Seq<char>) -> usize {
    if encode_utf8(detail).len() < usize::MAX {
        (encode_utf8(detail).len() + 1) as usize
    } else {
        usize::MAX
    }
}

/// Copy the detail of the last failing call into `buf`, terminated by a
/// zero byte, and return the number of bytes the whole detail needs
/// including the terminator. A return larger than the buffer means the copy
/// was cut short; call again with a buffer of the returned size. An empty
/// buffer receives nothing and only the size is returned.
pub fn subetha_last_error_detail(last: &LastError, buf: &mut [u8]) -> (needed: usize)
    ensures
        needed == detail_needs(last@),
        final(buf)@ == with_detail(old(buf)@, last@),
{
    let bytes: &[u8] = last.text.as_str().as_bytes();
    let len: usize = bytes.len();
    let needed: usize = len.saturating_add(1);
    let cap: usize = buf.len();
    if cap == 0 {
        assert(buf@ =~= old(buf)@);
        return needed;
    }
    let n: usize = if len < cap - 1 {
        len
    } else {
        cap - 1
    };
    let mut i: usize = 0;
    while i < n
        invariant
            i <= n < cap,
            n <= len,
            bytes@.len() == len,
            buf@.len() == cap,
            old(buf)@.len() == cap,
            forall|k: int| 0 <= k < i ==> buf@[k] == bytes@[k],
            forall|k: int| i <= k < cap ==> buf@[k] == old(buf)@[k],
        decreases n - i,
    {
        buf[i] = bytes[i];
        i += 1;
    }
    buf[n] = 0;
    assert(buf@ =~= with_detail(old(buf)@, last@));
    needed
}

/// What a ring refuses with.
#[derive(Debug)]
pub enum RingError {
    /// No room.
    Full,
    /// Nothing to take.
    Empty,
    /// A backing exists with another layout.
    LayoutMismatch,
    /// More than one slot carries.
    PayloadTooLarge,
    /// No ordering stamps.
    NotStamped,
    /// Another consumer drains.
    NotDrainer,
    /// The previous shape still holds items.
    StaleBacklog,
    /// The OS refused; the kind of the refusal.
    IoError(String),
}

/// What `ring_code` answers.
pub open spec fn ring_code_report(e: RingError) -> Report {
    match e {
        RingError::Full => bare(SUBETHA_E_RING_FULL),
        RingError::Empty => bare(SUBETHA_E_RING_EMPTY),
        RingError::LayoutMismatch => bare(SUBETHA_E_RING_LAYOUT_MISMATCH),
        RingError::PayloadTooLarge => bare(SUBETHA_E_RING_PAYLOAD_TOO_LARGE),
        RingError::NotStamped => bare(SUBETHA_E_RING_NOT_STAMPED),
        RingError::NotDrainer => bare(SUBETHA_E_RING_NOT_DRAINER),
        RingError::StaleBacklog => bare(SUBETHA_E_RING_STALE_BACKLOG),
        RingError::IoError(kind) => told(SUBETHA_E_RING_IO, "io error: "@ + kind@),
    }
}

/// The map from a ring's own error to the code that names it.
pub fn ring_code(last: &mut LastError, e: RingError) -> (code: i32)
    ensures
        answers_code(code, ring_code_report(e), old(last)@, final(last)@),
{
    match e {
        RingError::Full => SUBETHA_E_RING_FULL,
        RingError::Empty => SUBETHA_E_RING_EMPTY,
        RingError::LayoutMismatch => SUBETHA_E_RING_LAYOUT_MISMATCH,
        RingError::PayloadTooLarge => SUBETHA_E_RING_PAYLOAD_TOO_LARGE,
        RingError::NotStamped => SUBETHA_E_RING_NOT_STAMPED,
        RingError::NotDrainer => SUBETHA_E_RING_NOT_DRAINER,
        RingError::StaleBacklog => SUBETHA_E_RING_STALE_BACKLOG,
        RingError::IoError(kind) => {
            let mut text: String = String::from_str("io error: ");
            text.append(kind.as_str());
            fail(last, SUBETHA_E_RING_IO, text.as_str())
        },
    }
}

/// What a notifier refuses with.
#[derive(Debug)]
pub enum NotifyError {
    /// The OS refused: the kind and its text.
    Io(String, String),
    /// A backing exists with another layout.
    LayoutMismatch,
}

/// What `notify_code` answers.
pub open spec fn notify_code_report(e: NotifyError) -> Report {
    match e {
        NotifyError::Io(kind, said) => told(SUBETHA_E_RING_IO, "notifier io error: "@ + kind@ + ": "@ + said@),
        NotifyError::LayoutMismatch => told(SUBETHA_E_RING_LAYOUT_MISMATCH, "a notifier record exists with another layout"@),
    }
}

/// The map from a notifier's error to the code that names it.
pub fn notify_code(last: &mut LastError, e: NotifyError) -> (code: i32)
    ensures
        answers_code(code, notify_code_report(e), old(last)@, final(last)@),
{
    match e {
        NotifyError::Io(kind, said) => {
            let mut text: String = String::from_str("notifier io error: ");
            text.append(kind.as_str());
            text.append(": ");
            text.append(said.as_str());
            fail(last, SUBETHA_E_RING_IO, text.as_str())
        },
        NotifyError::LayoutMismatch => fail(last, SUBETHA_E_RING_LAYOUT_MISMATCH, "a notifier record exists with another layout"),
    }
}

/// What a ring's holders region refuses with.
#[derive(Debug)]
pub enum HoldersError {
    /// Every slot is held.
    Exhausted,
    /// A backing exists with another layout.
    LayoutMismatch,
    /// The OS refused; the kind of the refusal.
    IoError(String),
}

/// What `holders_region_code` answers.
pub open spec fn holders_region_code_report(e: HoldersError) -> Report {
    match e {
        HoldersError::Exhausted => told(SUBETHA_E_RING_FULL, "every holder slot on this ring is held by a live process"@),
        HoldersError::LayoutMismatch => told(SUBETHA_E_RING_LAYOUT_MISMATCH, "the holders region beside this ring was built for a different max_holders"@),
        HoldersError::IoError(kind) => told(SUBETHA_E_RING_IO, "holders region io error: "@ + kind@),
    }
}

/// The map from a holders region's error to the code that names it.
pub fn holders_region_code(last: &mut LastError, e: HoldersError) -> (code: i32)
    ensures
        answers_code(code, holders_region_code_report(e), old(last)@, final(last)@),
{
    match e {
        HoldersError::Exhausted => fail(last, SUBETHA_E_RING_FULL, "every holder slot on this ring is held by a live process"),
        HoldersError::LayoutMismatch => fail(last, SUBETHA_E_RING_LAYOUT_MISMATCH, "the holders region beside this ring was built for a different max_holders"),
        HoldersError::IoError(kind) => {
            let mut text: String = String::from_str("holders region io error: ");
            text.append(kind.as_str());
            fail(last, SUBETHA_E_RING_IO, text.as_str())
        },
    }
}

/// What a hold on a ring's backings refuses with.
#[derive(Debug)]
pub enum LastHolderError {
    /// The ring is anonymous.
    NoBackingFiles,
    /// The ring is in shared memory.
    ShmNotSupported,
    /// The holders region refused.
    Region(HoldersError),
}

/// What `last_holder_code` answers.
pub open spec fn last_holder_code_report(e: LastHolderError) -> Report {
    match e {
        LastHolderError::NoBackingFiles => told(SUBETHA_E_INVALID_ARGUMENT, "an anonymous ring has no backing files for a last holder to remove"@),
        LastHolderError::ShmNotSupported => told(SUBETHA_E_INVALID_ARGUMENT, "a shared-memory ring does not carry a holder table"@),
        LastHolderError::Region(inner) => holders_region_code_report(inner),
    }
}

/// The map from a refused hold on a ring's backings to the code that
/// names it.
///
/// A locale with no files to remove and a region built for another
/// holder count are both the caller's argument being wrong about the
/// ring in front of it, which is what the invalid-argument code says;
/// an exhausted table is the ring's own capacity being reached, and
/// reads like a full ring rather than a bad call.
pub fn last_holder_code(last: &mut LastError, e: LastHolderError) -> (code: i32)
    ensures
        answers_code(code, last_holder_code_report(e), old(last)@, final(last)@),
{
    match e {
        LastHolderError::NoBackingFiles => fail(last, SUBETHA_E_INVALID_ARGUMENT, "an anonymous ring has no backing files for a last holder to remove"),
        LastHolderError::ShmNotSupported => fail(last, SUBETHA_E_INVALID_ARGUMENT, "a shared-memory ring does not carry a holder table"),
        LastHolderError::Region(inner) => holders_region_code(last, inner),
    }
}

/// What a shared hash map refuses with.
#[derive(Debug)]
pub enum MapError {
    /// No free slot.
    Full,
    /// A size is wrong.
    PayloadTooLarge,
    /// A backing exists with another layout.
    LayoutMismatch,
    /// No such key.
    KeyAbsent,
    /// The OS refused; the kind of the refusal.
    IoError(String),
}

/// What `map_code` answers.
pub open spec fn map_code_report(e: MapError) -> Report {
    match e {
        MapError::Full => bare(SUBETHA_E_MAP_FULL),
        MapError::PayloadTooLarge => told(SUBETHA_E_INVALID_ARGUMENT, "a key or value is not its declared size, or the sizes exceed one entry"@),
        MapError::LayoutMismatch => bare(SUBETHA_E_RING_LAYOUT_MISMATCH),
        MapError::KeyAbsent => bare(SUBETHA_E_MAP_KEY_ABSENT),
        MapError::IoError(kind) => told(SUBETHA_E_RING_IO, "io error: "@ + kind@),
    }
}

/// The map from a shared hash map's error to the code that names it.
pub fn map_code(last: &mut LastError, e: MapError) -> (code: i32)
    ensures
        answers_code(code, map_code_report(e), old(last)@, final(last)@),
{
    match e {
        MapError::Full => SUBETHA_E_MAP_FULL,
        MapError::PayloadTooLarge => fail(last, SUBETHA_E_INVALID_ARGUMENT, "a key or value is not its declared size, or the sizes exceed one entry"),
        MapError::LayoutMismatch => SUBETHA_E_RING_LAYOUT_MISMATCH,
        MapError::KeyAbsent => SUBETHA_E_MAP_KEY_ABSENT,
        MapError::IoError(kind) => {
            let mut text: String = String::from_str("io error: ");
            text.append(kind.as_str());
            fail(last, SUBETHA_E_RING_IO, text.as_str())
        },
    }
}

/// What a string arena refuses with.
#[derive(Debug)]
pub enum ArenaError {
    /// No room for the whole value.
    Full,
    /// The reference reaches too far.
    InvalidRef,
    /// Not text.
    InvalidUtf8,
    /// A backing exists with another layout.
    LayoutMismatch,
    /// Opened read-only.
    ReadOnly,
    /// The OS refused; the kind of the refusal.
    IoError(String),
}

/// What `arena_code` answers.
pub open spec fn arena_code_report(e: ArenaError) -> Report {
    match e {
        ArenaError::Full => bare(SUBETHA_E_ARENA_FULL),
        ArenaError::InvalidRef => bare(SUBETHA_E_ARENA_INVALID_REF),
        ArenaError::InvalidUtf8 => told(SUBETHA_E_INVALID_UTF8, "the value is not UTF-8"@),
        ArenaError::LayoutMismatch => bare(SUBETHA_E_RING_LAYOUT_MISMATCH),
        ArenaError::ReadOnly => told(SUBETHA_E_READ_ONLY, "the arena was opened read-only"@),
        ArenaError::IoError(kind) => told(SUBETHA_E_RING_IO, "io error: "@ + kind@),
    }
}

/// The map from a string arena's error to the code that names it.
pub fn arena_code(last: &mut LastError, e: ArenaError) -> (code: i32)
    ensures
        answers_code(code, arena_code_report(e), old(last)@, final(last)@),
{
    match e {
        ArenaError::Full => SUBETHA_E_ARENA_FULL,
        ArenaError::InvalidRef => SUBETHA_E_ARENA_INVALID_REF,
        ArenaError::InvalidUtf8 => fail(last, SUBETHA_E_INVALID_UTF8, "the value is not UTF-8"),
        ArenaError::LayoutMismatch => SUBETHA_E_RING_LAYOUT_MISMATCH,
        ArenaError::ReadOnly => fail(last, SUBETHA_E_READ_ONLY, "the arena was opened read-only"),
        ArenaError::IoError(kind) => {
            let mut text: String = String::from_str("io error: ");
            text.append(kind.as_str());
            fail(last, SUBETHA_E_RING_IO, text.as_str())
        },
    }
}

/// What a holder table refuses with.
#[derive(Debug)]
pub enum SharedHolderError {
    /// A backing exists with another layout.
    LayoutMismatch,
    /// A capacity of zero.
    EmptyCapacity,
    /// The OS refused; the kind of the refusal.
    IoError(String),
}

/// What `holders_code` answers.
pub open spec fn holders_code_report(e: SharedHolderError) -> Report {
    match e {
        SharedHolderError::LayoutMismatch => bare(SUBETHA_E_RING_LAYOUT_MISMATCH),
        SharedHolderError::EmptyCapacity => told(SUBETHA_E_INVALID_ARGUMENT, "a capacity of zero has no slot to claim"@),
        SharedHolderError::IoError(kind) => told(SUBETHA_E_RING_IO, "io error: "@ + kind@),
    }
}

/// The map from a holder table's error to the code that names it.
pub fn holders_code(last: &mut LastError, e: SharedHolderError) -> (code: i32)
    ensures
        answers_code(code, holders_code_report(e), old(last)@, final(last)@),
{
    match e {
        SharedHolderError::LayoutMismatch => SUBETHA_E_RING_LAYOUT_MISMATCH,
        SharedHolderError::EmptyCapacity => fail(last, SUBETHA_E_INVALID_ARGUMENT, "a capacity of zero has no slot to claim"),
        SharedHolderError::IoError(kind) => {
            let mut text: String = String::from_str("io error: ");
            text.append(kind.as_str());
            fail(last, SUBETHA_E_RING_IO, text.as_str())
        },
    }
}

/// What a heartbeat table refuses with.
#[derive(Debug)]
pub enum HeartbeatError {
    /// Every slot is held.
    TableFull,
    /// A backing exists with another layout.
    LayoutMismatch,
    /// The OS refused; the kind of the refusal.
    IoError(String),
}

/// What `heartbeat_code` answers.
pub open spec fn heartbeat_code_report(e: HeartbeatError) -> Report {
    match e {
        HeartbeatError::TableFull => told(SUBETHA_E_RING_FULL, "every slot in the table is held"@),
        HeartbeatError::LayoutMismatch => bare(SUBETHA_E_RING_LAYOUT_MISMATCH),
        HeartbeatError::IoError(kind) => told(SUBETHA_E_RING_IO, "io error: "@ + kind@),
    }
}

/// The map from a heartbeat table's error to the code that names it.
pub fn heartbeat_code(last: &mut LastError, e: HeartbeatError) -> (code: i32)
    ensures
        answers_code(code, heartbeat_code_report(e), old(last)@, final(last)@),
{
    match e {
        HeartbeatError::TableFull => fail(last, SUBETHA_E_RING_FULL, "every slot in the table is held"),
        HeartbeatError::LayoutMismatch => SUBETHA_E_RING_LAYOUT_MISMATCH,
        HeartbeatError::IoError(kind) => {
            let mut text: String = String::from_str("io error: ");
            text.append(kind.as_str());
            fail(last, SUBETHA_E_RING_IO, text.as_str())
        },
    }
}

/// What a leader election refuses with.
#[derive(Debug)]
pub enum LeaderError {
    /// A backing exists with another layout.
    LayoutMismatch,
    /// The OS refused; the kind of the refusal.
    IoError(String),
}

/// What `leader_code` answers.
pub open spec fn leader_code_report(e: LeaderError) -> Report {
    match e {
        LeaderError::LayoutMismatch => bare(SUBETHA_E_RING_LAYOUT_MISMATCH),
        LeaderError::IoError(kind) => told(SUBETHA_E_RING_IO, "io error: "@ + kind@),
    }
}

/// The map from a leader election's error to the code that names it.
pub fn leader_code(last: &mut LastError, e: LeaderError) -> (code: i32)
    ensures
        answers_code(code, leader_code_report(e), old(last)@, final(last)@),
{
    match e {
        LeaderError::LayoutMismatch => SUBETHA_E_RING_LAYOUT_MISMATCH,
        LeaderError::IoError(kind) => {
            let mut text: String = String::from_str("io error: ");
            text.append(kind.as_str());
            fail(last, SUBETHA_E_RING_IO, text.as_str())
        },
    }
}

/// What an owner lease refuses with.
#[derive(Debug)]
pub enum LeaseError {
    /// A backing exists with another layout.
    LayoutMismatch,
    /// The payload is too large.
    PayloadTooLarge,
    /// Another process holds it.
    NotOwner,
    /// Another process is taking it.
    Contention,
    /// The OS refused; the kind of the refusal.
    IoError(String),
}

/// What `lease_code` answers.
pub open spec fn lease_code_report(e: LeaseError) -> Report {
    match e {
        LeaseError::LayoutMismatch => bare(SUBETHA_E_RING_LAYOUT_MISMATCH),
        LeaseError::PayloadTooLarge => bare(SUBETHA_E_RING_PAYLOAD_TOO_LARGE),
        LeaseError::NotOwner => bare(SUBETHA_E_NOT_OWNER),
        LeaseError::Contention => bare(SUBETHA_E_WOULD_BLOCK),
        LeaseError::IoError(kind) => told(SUBETHA_E_RING_IO, "io error: "@ + kind@),
    }
}

/// The map from an owner lease's error to the code that names it.
pub fn lease_code(last: &mut LastError, e: LeaseError) -> (code: i32)
    ensures
        answers_code(code, lease_code_report(e), old(last)@, final(last)@),
{
    match e {
        LeaseError::LayoutMismatch => SUBETHA_E_RING_LAYOUT_MISMATCH,
        LeaseError::PayloadTooLarge => SUBETHA_E_RING_PAYLOAD_TOO_LARGE,
        LeaseError::NotOwner => SUBETHA_E_NOT_OWNER,
        LeaseError::Contention => SUBETHA_E_WOULD_BLOCK,
        LeaseError::IoError(kind) => {
            let mut text: String = String::from_str("io error: ");
            text.append(kind.as_str());
            fail(last, SUBETHA_E_RING_IO, text.as_str())
        },
    }
}

/// What a condition variable refuses with.
#[derive(Debug)]
pub enum CondvarError {
    /// Every waiter slot is in use.
    WakerFull,
    /// The deadline passed.
    Timeout,
    /// A backing exists with another layout.
    LayoutMismatch,
    /// The OS refused; the kind of the refusal.
    Io(String),
}

/// What `condvar_code` answers.
pub open spec fn condvar_code_report(e: CondvarError) -> Report {
    match e {
        CondvarError::WakerFull => bare(SUBETHA_E_RING_WAKER_FULL),
        CondvarError::Timeout => bare(SUBETHA_E_TIMEOUT),
        CondvarError::LayoutMismatch => bare(SUBETHA_E_RING_LAYOUT_MISMATCH),
        CondvarError::Io(kind) => told(SUBETHA_E_RING_IO, "io error: "@ + kind@),
    }
}

/// The map from a condition variable's error to the code that names it.
pub fn condvar_code(last: &mut LastError, e: CondvarError) -> (code: i32)
    ensures
        answers_code(code, condvar_code_report(e), old(last)@, final(last)@),
{
    match e {
        CondvarError::WakerFull => SUBETHA_E_RING_WAKER_FULL,
        CondvarError::Timeout => SUBETHA_E_TIMEOUT,
        CondvarError::LayoutMismatch => SUBETHA_E_RING_LAYOUT_MISMATCH,
        CondvarError::Io(kind) => {
            let mut text: String = String::from_str("io error: ");
            text.append(kind.as_str());
            fail(last, SUBETHA_E_RING_IO, text.as_str())
        },
    }
}

/// What a shared atomic refuses with.
#[derive(Debug)]
pub enum SharedAtomicError {
    /// A backing exists with another layout.
    LayoutMismatch,
    /// The OS refused; the kind of the refusal.
    IoError(String),
}

/// What `atomic_code` answers.
pub open spec fn atomic_code_report(e: SharedAtomicError) -> Report {
    match e {
        SharedAtomicError::LayoutMismatch => bare(SUBETHA_E_RING_LAYOUT_MISMATCH),
        SharedAtomicError::IoError(kind) => told(SUBETHA_E_RING_IO, "io error: "@ + kind@),
    }
}

/// The map from a shared atomic's error to the code that names it.
pub fn atomic_code(last: &mut LastError, e: SharedAtomicError) -> (code: i32)
    ensures
        answers_code(code, atomic_code_report(e), old(last)@, final(last)@),
{
    match e {
        SharedAtomicError::LayoutMismatch => SUBETHA_E_RING_LAYOUT_MISMATCH,
        SharedAtomicError::IoError(kind) => {
            let mut text: String = String::from_str("io error: ");
            text.append(kind.as_str());
            fail(last, SUBETHA_E_RING_IO, text.as_str())
        },
    }
}

/// What a semaphore refuses with.
#[derive(Debug)]
pub enum SemaphoreError {
    /// No permit is free.
    WouldBlock,
    /// The deadline passed.
    Timeout,
    /// More permits came back than there are.
    ReleaseOverflow,
    /// The word beneath refused.
    Atomic(SharedAtomicError),
}

/// What `semaphore_code` answers.
pub open spec fn semaphore_code_report(e: SemaphoreError) -> Report {
    match e {
        SemaphoreError::WouldBlock => bare(SUBETHA_E_WOULD_BLOCK),
        SemaphoreError::Timeout => bare(SUBETHA_E_TIMEOUT),
        SemaphoreError::ReleaseOverflow => told(SUBETHA_E_INVALID_ARGUMENT, "the release pushed the count past max_permits"@),
        SemaphoreError::Atomic(inner) => atomic_code_report(inner),
    }
}

/// The map from a semaphore's error to the code that names it.
pub fn semaphore_code(last: &mut LastError, e: SemaphoreError) -> (code: i32)
    ensures
        answers_code(code, semaphore_code_report(e), old(last)@, final(last)@),
{
    match e {
        SemaphoreError::WouldBlock => SUBETHA_E_WOULD_BLOCK,
        SemaphoreError::Timeout => SUBETHA_E_TIMEOUT,
        SemaphoreError::ReleaseOverflow => fail(last, SUBETHA_E_INVALID_ARGUMENT, "the release pushed the count past max_permits"),
        SemaphoreError::Atomic(inner) => atomic_code(last, inner),
    }
}

/// What a shared lock refuses with.
#[derive(Debug)]
pub enum RWLockError {
    /// Someone else holds it.
    WouldBlock,
    /// A backing exists with another layout.
    LayoutMismatch,
    /// The OS refused; the kind of the refusal.
    IoError(String),
}

/// What `rwlock_code` answers.
pub open spec fn rwlock_code_report(e: RWLockError) -> Report {
    match e {
        RWLockError::WouldBlock => bare(SUBETHA_E_WOULD_BLOCK),
        RWLockError::LayoutMismatch => bare(SUBETHA_E_RING_LAYOUT_MISMATCH),
        RWLockError::IoError(kind) => told(SUBETHA_E_RING_IO, "io error: "@ + kind@),
    }
}

/// The map from a shared lock's error to the code that names it.
pub fn rwlock_code(last: &mut LastError, e: RWLockError) -> (code: i32)
    ensures
        answers_code(code, rwlock_code_report(e), old(last)@, final(last)@),
{
    match e {
        RWLockError::WouldBlock => SUBETHA_E_WOULD_BLOCK,
        RWLockError::LayoutMismatch => SUBETHA_E_RING_LAYOUT_MISMATCH,
        RWLockError::IoError(kind) => {
            let mut text: String = String::from_str("io error: ");
            text.append(kind.as_str());
            fail(last, SUBETHA_E_RING_IO, text.as_str())
        },
    }
}

/// What a fence clock refuses with.
#[derive(Debug)]
pub enum FenceClockError {
    /// Every slot is registered.
    Full,
    /// A backing exists with another layout.
    LayoutMismatch,
    /// No such slot.
    InvalidSlot,
    /// The OS refused; the kind of the refusal.
    IoError(String),
}

/// What `fence_clock_code` answers.
pub open spec fn fence_clock_code_report(e: FenceClockError) -> Report {
    match e {
        FenceClockError::Full => bare(SUBETHA_E_FENCE_CLOCK_FULL),
        FenceClockError::LayoutMismatch => bare(SUBETHA_E_RING_LAYOUT_MISMATCH),
        FenceClockError::InvalidSlot => told(SUBETHA_E_INVALID_ARGUMENT, "the slot is not one this clock holds"@),
        FenceClockError::IoError(kind) => told(SUBETHA_E_RING_IO, "io error: "@ + kind@),
    }
}

/// The map from a fence clock's error to the code that names it.
pub fn fence_clock_code(last: &mut LastError, e: FenceClockError) -> (code: i32)
    ensures
        answers_code(code, fence_clock_code_report(e), old(last)@, final(last)@),
{
    match e {
        FenceClockError::Full => SUBETHA_E_FENCE_CLOCK_FULL,
        FenceClockError::LayoutMismatch => SUBETHA_E_RING_LAYOUT_MISMATCH,
        FenceClockError::InvalidSlot => fail(last, SUBETHA_E_INVALID_ARGUMENT, "the slot is not one this clock holds"),
        FenceClockError::IoError(kind) => {
            let mut text: String = String::from_str("io error: ");
            text.append(kind.as_str());
            fail(last, SUBETHA_E_RING_IO, text.as_str())
        },
    }
}

/// What an epoch table refuses with.
#[derive(Debug)]
pub enum EpochError {
    /// Every pin slot is held.
    PinsExhausted,
    /// Every ticket slot is held.
    TicketsExhausted,
    /// A backing exists with another layout.
    LayoutMismatch,
    /// The OS refused; the kind of the refusal.
    IoError(String),
}

/// What `epochs_code` answers.
pub open spec fn epochs_code_report(e: EpochError) -> Report {
    match e {
        EpochError::PinsExhausted => bare(SUBETHA_E_EPOCHS_PINS_EXHAUSTED),
        EpochError::TicketsExhausted => bare(SUBETHA_E_EPOCHS_TICKETS_EXHAUSTED),
        EpochError::LayoutMismatch => bare(SUBETHA_E_RING_LAYOUT_MISMATCH),
        EpochError::IoError(kind) => told(SUBETHA_E_RING_IO, "io error: "@ + kind@),
    }
}

/// The map from an epoch table's error to the code that names it.
pub fn epochs_code(last: &mut LastError, e: EpochError) -> (code: i32)
    ensures
        answers_code(code, epochs_code_report(e), old(last)@, final(last)@),
{
    match e {
        EpochError::PinsExhausted => SUBETHA_E_EPOCHS_PINS_EXHAUSTED,
        EpochError::TicketsExhausted => SUBETHA_E_EPOCHS_TICKETS_EXHAUSTED,
        EpochError::LayoutMismatch => SUBETHA_E_RING_LAYOUT_MISMATCH,
        EpochError::IoError(kind) => {
            let mut text: String = String::from_str("io error: ");
            text.append(kind.as_str());
            fail(last, SUBETHA_E_RING_IO, text.as_str())
        },
    }
}

/// What a shared cell refuses with.
#[derive(Debug)]
pub enum SharedCellError {
    /// A backing exists with another layout.
    LayoutMismatch,
    /// The value is too large.
    PayloadTooLarge,
    /// No value yet.
    NotInitialized,
    /// The OS refused; the kind of the refusal.
    IoError(String),
}

/// What `cell_code` answers.
pub open spec fn cell_code_report(e: SharedCellError) -> Report {
    match e {
        SharedCellError::LayoutMismatch => bare(SUBETHA_E_RING_LAYOUT_MISMATCH),
        SharedCellError::PayloadTooLarge => bare(SUBETHA_E_RING_PAYLOAD_TOO_LARGE),
        SharedCellError::NotInitialized => told(SUBETHA_E_INVALID_HANDLE, "the cell holds no value yet"@),
        SharedCellError::IoError(kind) => told(SUBETHA_E_RING_IO, "io error: "@ + kind@),
    }
}

/// The map from a shared cell's error to the code that names it.
pub fn cell_code(last: &mut LastError, e: SharedCellError) -> (code: i32)
    ensures
        answers_code(code, cell_code_report(e), old(last)@, final(last)@),
{
    match e {
        SharedCellError::LayoutMismatch => SUBETHA_E_RING_LAYOUT_MISMATCH,
        SharedCellError::PayloadTooLarge => SUBETHA_E_RING_PAYLOAD_TOO_LARGE,
        SharedCellError::NotInitialized => fail(last, SUBETHA_E_INVALID_HANDLE, "the cell holds no value yet"),
        SharedCellError::IoError(kind) => {
            let mut text: String = String::from_str("io error: ");
            text.append(kind.as_str());
            fail(last, SUBETHA_E_RING_IO, text.as_str())
        },
    }
}

/// What a shared B-tree map refuses with.
#[derive(Debug)]
pub enum BTreeError {
    /// No node is free.
    Full,
    /// A backing exists with another layout.
    LayoutMismatch,
    /// A size is wrong.
    InvalidConfig,
    /// The OS refused; the kind of the refusal.
    IoError(String),
}

/// What `btree_code` answers.
pub open spec fn btree_code_report(e: BTreeError) -> Report {
    match e {
        BTreeError::Full => told(SUBETHA_E_RING_FULL, "the map has no node for the split this insert needs"@),
        BTreeError::LayoutMismatch => bare(SUBETHA_E_RING_LAYOUT_MISMATCH),
        BTreeError::InvalidConfig => told(SUBETHA_E_INVALID_ARGUMENT, "a key or value is not its declared size, or the capacity is zero"@),
        BTreeError::IoError(kind) => told(SUBETHA_E_RING_IO, "io error: "@ + kind@),
    }
}

/// The map from a shared B-tree map's error to the code that names it.
pub fn btree_code(last: &mut LastError, e: BTreeError) -> (code: i32)
    ensures
        answers_code(code, btree_code_report(e), old(last)@, final(last)@),
{
    match e {
        BTreeError::Full => fail(last, SUBETHA_E_RING_FULL, "the map has no node for the split this insert needs"),
        BTreeError::LayoutMismatch => SUBETHA_E_RING_LAYOUT_MISMATCH,
        BTreeError::InvalidConfig => fail(last, SUBETHA_E_INVALID_ARGUMENT, "a key or value is not its declared size, or the capacity is zero"),
        BTreeError::IoError(kind) => {
            let mut text: String = String::from_str("io error: ");
            text.append(kind.as_str());
            fail(last, SUBETHA_E_RING_IO, text.as_str())
        },
    }
}

/// What a shared region refuses with.
#[derive(Debug)]
pub enum RegionError {
    /// No slot is free.
    Full,
    /// The slot is not live.
    InvalidPtr,
    /// A size is wrong.
    PayloadTooLarge,
    /// A backing exists with another layout.
    LayoutMismatch,
    /// The OS refused; the kind of the refusal.
    IoError(String),
}

/// What `region_code` answers.
pub open spec fn region_code_report(e: RegionError) -> Report {
    match e {
        RegionError::Full => bare(SUBETHA_E_RING_FULL),
        RegionError::InvalidPtr => bare(SUBETHA_E_OUT_OF_BOUNDS),
        RegionError::PayloadTooLarge => told(SUBETHA_E_INVALID_ARGUMENT, "the bytes are not the element size"@),
        RegionError::LayoutMismatch => bare(SUBETHA_E_RING_LAYOUT_MISMATCH),
        RegionError::IoError(kind) => told(SUBETHA_E_RING_IO, "io error: "@ + kind@),
    }
}

/// The map from a shared region's error to the code that names it.
pub fn region_code(last: &mut LastError, e: RegionError) -> (code: i32)
    ensures
        answers_code(code, region_code_report(e), old(last)@, final(last)@),
{
    match e {
        RegionError::Full => SUBETHA_E_RING_FULL,
        RegionError::InvalidPtr => SUBETHA_E_OUT_OF_BOUNDS,
        RegionError::PayloadTooLarge => fail(last, SUBETHA_E_INVALID_ARGUMENT, "the bytes are not the element size"),
        RegionError::LayoutMismatch => SUBETHA_E_RING_LAYOUT_MISMATCH,
        RegionError::IoError(kind) => {
            let mut text: String = String::from_str("io error: ");
            text.append(kind.as_str());
            fail(last, SUBETHA_E_RING_IO, text.as_str())
        },
    }
}

/// What a shared linked list refuses with.
#[derive(Debug)]
pub enum LinkedListError {
    /// The slots beneath refused.
    Region(RegionError),
    /// No such node.
    InvalidHandle,
    /// A backing exists with another layout.
    LayoutMismatch,
    /// The OS refused; the kind of the refusal.
    IoError(String),
}

/// What `list_code` answers.
pub open spec fn list_code_report(e: LinkedListError) -> Report {
    match e {
        LinkedListError::Region(inner) => region_code_report(inner),
        LinkedListError::InvalidHandle => told(SUBETHA_E_OUT_OF_BOUNDS, "the index names no node of this list"@),
        LinkedListError::LayoutMismatch => bare(SUBETHA_E_RING_LAYOUT_MISMATCH),
        LinkedListError::IoError(kind) => told(SUBETHA_E_RING_IO, "io error: "@ + kind@),
    }
}

/// The map from a shared linked list's error to the code that names it.
pub fn list_code(last: &mut LastError, e: LinkedListError) -> (code: i32)
    ensures
        answers_code(code, list_code_report(e), old(last)@, final(last)@),
{
    match e {
        LinkedListError::Region(inner) => region_code(last, inner),
        LinkedListError::InvalidHandle => fail(last, SUBETHA_E_OUT_OF_BOUNDS, "the index names no node of this list"),
        LinkedListError::LayoutMismatch => SUBETHA_E_RING_LAYOUT_MISMATCH,
        LinkedListError::IoError(kind) => {
            let mut text: String = String::from_str("io error: ");
            text.append(kind.as_str());
            fail(last, SUBETHA_E_RING_IO, text.as_str())
        },
    }
}

/// What a once cell refuses with.
#[derive(Debug)]
pub enum SharedOnceError {
    /// A backing exists with another layout.
    LayoutMismatch,
    /// A size is wrong.
    PayloadTooLarge,
    /// The OS refused; the kind of the refusal.
    IoError(String),
}

/// What `once_code` answers.
pub open spec fn once_code_report(e: SharedOnceError) -> Report {
    match e {
        SharedOnceError::LayoutMismatch => bare(SUBETHA_E_RING_LAYOUT_MISMATCH),
        SharedOnceError::PayloadTooLarge => told(SUBETHA_E_INVALID_ARGUMENT, "value_bytes is zero or past what a lazy value holds"@),
        SharedOnceError::IoError(kind) => told(SUBETHA_E_RING_IO, "io error: "@ + kind@),
    }
}

/// The map from a once cell's error to the code that names it.
pub fn once_code(last: &mut LastError, e: SharedOnceError) -> (code: i32)
    ensures
        answers_code(code, once_code_report(e), old(last)@, final(last)@),
{
    match e {
        SharedOnceError::LayoutMismatch => SUBETHA_E_RING_LAYOUT_MISMATCH,
        SharedOnceError::PayloadTooLarge => fail(last, SUBETHA_E_INVALID_ARGUMENT, "value_bytes is zero or past what a lazy value holds"),
        SharedOnceError::IoError(kind) => {
            let mut text: String = String::from_str("io error: ");
            text.append(kind.as_str());
            fail(last, SUBETHA_E_RING_IO, text.as_str())
        },
    }
}

/// What a shared value refuses with.
#[derive(Debug)]
pub enum ArcError {
    /// Every holder slot is held.
    HoldersExhausted,
    /// A backing exists with another layout.
    LayoutMismatch,
    /// The OS refused; the kind of the refusal.
    IoError(String),
}

/// What `arc_code` answers.
pub open spec fn arc_code_report(e: ArcError) -> Report {
    match e {
        ArcError::HoldersExhausted => bare(SUBETHA_E_ARC_HOLDERS_EXHAUSTED),
        ArcError::LayoutMismatch => bare(SUBETHA_E_RING_LAYOUT_MISMATCH),
        ArcError::IoError(kind) => told(SUBETHA_E_RING_IO, "io error: "@ + kind@),
    }
}

/// The map from a shared value's error to the code that names it.
pub fn arc_code(last: &mut LastError, e: ArcError) -> (code: i32)
    ensures
        answers_code(code, arc_code_report(e), old(last)@, final(last)@),
{
    match e {
        ArcError::HoldersExhausted => SUBETHA_E_ARC_HOLDERS_EXHAUSTED,
        ArcError::LayoutMismatch => SUBETHA_E_RING_LAYOUT_MISMATCH,
        ArcError::IoError(kind) => {
            let mut text: String = String::from_str("io error: ");
            text.append(kind.as_str());
            fail(last, SUBETHA_E_RING_IO, text.as_str())
        },
    }
}

/// What an epoch barrier refuses with.
#[derive(Debug)]
pub enum BarrierError {
    /// The word beneath refused.
    Atomic(SharedAtomicError),
    /// The epoch is over.
    EpochTooFarBehind,
    /// The deadline passed.
    Timeout,
    /// Nobody to wait for.
    NoLivePeers,
}

/// What `barrier_code` answers.
pub open spec fn barrier_code_report(e: BarrierError) -> Report {
    match e {
        BarrierError::Atomic(inner) => atomic_code_report(inner),
        BarrierError::EpochTooFarBehind => bare(SUBETHA_E_BARRIER_EPOCH_PASSED),
        BarrierError::Timeout => bare(SUBETHA_E_TIMEOUT),
        BarrierError::NoLivePeers => bare(SUBETHA_E_BARRIER_NO_LIVE_PEERS),
    }
}

/// The map from an epoch barrier's error to the code that names it.
pub fn barrier_code(last: &mut LastError, e: BarrierError) -> (code: i32)
    ensures
        answers_code(code, barrier_code_report(e), old(last)@, final(last)@),
{
    match e {
        BarrierError::Atomic(inner) => atomic_code(last, inner),
        BarrierError::EpochTooFarBehind => SUBETHA_E_BARRIER_EPOCH_PASSED,
        BarrierError::Timeout => SUBETHA_E_TIMEOUT,
        BarrierError::NoLivePeers => SUBETHA_E_BARRIER_NO_LIVE_PEERS,
    }
}

/// What a shared vec refuses with.
#[derive(Debug)]
pub enum VecError {
    /// No room.
    Full,
    /// The index is past the end.
    OutOfBounds,
    /// A backing exists with another layout.
    LayoutMismatch,
    /// A size is wrong.
    PayloadTooLarge,
    /// Opened read-only.
    ReadOnly,
    /// The OS refused; the kind of the refusal.
    IoError(String),
}

/// What `vec_code` answers.
pub open spec fn vec_code_report(e: VecError) -> Report {
    match e {
        VecError::Full => bare(SUBETHA_E_RING_FULL),
        VecError::OutOfBounds => bare(SUBETHA_E_OUT_OF_BOUNDS),
        VecError::LayoutMismatch => bare(SUBETHA_E_RING_LAYOUT_MISMATCH),
        VecError::PayloadTooLarge => told(SUBETHA_E_INVALID_ARGUMENT, "the bytes are not the element size"@),
        VecError::ReadOnly => told(SUBETHA_E_READ_ONLY, "the vec was opened read-only"@),
        VecError::IoError(kind) => told(SUBETHA_E_RING_IO, "io error: "@ + kind@),
    }
}

/// The map from a shared vec's error to the code that names it.
pub fn vec_code(last: &mut LastError, e: VecError) -> (code: i32)
    ensures
        answers_code(code, vec_code_report(e), old(last)@, final(last)@),
{
    match e {
        VecError::Full => SUBETHA_E_RING_FULL,
        VecError::OutOfBounds => SUBETHA_E_OUT_OF_BOUNDS,
        VecError::LayoutMismatch => SUBETHA_E_RING_LAYOUT_MISMATCH,
        VecError::PayloadTooLarge => fail(last, SUBETHA_E_INVALID_ARGUMENT, "the bytes are not the element size"),
        VecError::ReadOnly => fail(last, SUBETHA_E_READ_ONLY, "the vec was opened read-only"),
        VecError::IoError(kind) => {
            let mut text: String = String::from_str("io error: ");
            text.append(kind.as_str());
            fail(last, SUBETHA_E_RING_IO, text.as_str())
        },
    }
}

/// What a shared slab refuses with.
#[derive(Debug)]
pub enum SlabError {
    /// The index is past the end.
    OutOfBounds,
    /// A backing exists with another layout.
    LayoutMismatch,
    /// Opened read-only.
    ReadOnly,
    /// A size is wrong.
    PayloadTooLarge,
    /// The OS refused; the kind of the refusal.
    IoError(String),
}

/// What `slab_code` answers.
pub open spec fn slab_code_report(e: SlabError) -> Report {
    match e {
        SlabError::OutOfBounds => bare(SUBETHA_E_OUT_OF_BOUNDS),
        SlabError::LayoutMismatch => bare(SUBETHA_E_RING_LAYOUT_MISMATCH),
        SlabError::ReadOnly => told(SUBETHA_E_READ_ONLY, "the slab was opened read-only"@),
        SlabError::PayloadTooLarge => told(SUBETHA_E_INVALID_ARGUMENT, "the bytes are not the record size"@),
        SlabError::IoError(kind) => told(SUBETHA_E_RING_IO, "io error: "@ + kind@),
    }
}

/// The map from a shared slab's error to the code that names it.
pub fn slab_code(last: &mut LastError, e: SlabError) -> (code: i32)
    ensures
        answers_code(code, slab_code_report(e), old(last)@, final(last)@),
{
    match e {
        SlabError::OutOfBounds => SUBETHA_E_OUT_OF_BOUNDS,
        SlabError::LayoutMismatch => SUBETHA_E_RING_LAYOUT_MISMATCH,
        SlabError::ReadOnly => fail(last, SUBETHA_E_READ_ONLY, "the slab was opened read-only"),
        SlabError::PayloadTooLarge => fail(last, SUBETHA_E_INVALID_ARGUMENT, "the bytes are not the record size"),
        SlabError::IoError(kind) => {
            let mut text: String = String::from_str("io error: ");
            text.append(kind.as_str());
            fail(last, SUBETHA_E_RING_IO, text.as_str())
        },
    }
}

/// What a Treiber stack refuses with.
#[derive(Debug)]
pub enum StackError {
    /// No room.
    Full,
    /// A backing exists with another layout.
    LayoutMismatch,
    /// The OS refused; the kind of the refusal.
    IoError(String),
}

/// What `stack_code` answers.
pub open spec fn stack_code_report(e: StackError) -> Report {
    match e {
        StackError::Full => bare(SUBETHA_E_RING_FULL),
        StackError::LayoutMismatch => bare(SUBETHA_E_RING_LAYOUT_MISMATCH),
        StackError::IoError(kind) => told(SUBETHA_E_RING_IO, "io error: "@ + kind@),
    }
}

/// The map from a Treiber stack's error to the code that names it.
pub fn stack_code(last: &mut LastError, e: StackError) -> (code: i32)
    ensures
        answers_code(code, stack_code_report(e), old(last)@, final(last)@),
{
    match e {
        StackError::Full => SUBETHA_E_RING_FULL,
        StackError::LayoutMismatch => SUBETHA_E_RING_LAYOUT_MISMATCH,
        StackError::IoError(kind) => {
            let mut text: String = String::from_str("io error: ");
            text.append(kind.as_str());
            fail(last, SUBETHA_E_RING_IO, text.as_str())
        },
    }
}

/// What a work-stealing deque refuses with.
#[derive(Debug)]
pub enum DequeError {
    /// The OS refused; its text.
    Io(String),
    /// A size is wrong.
    InvalidCapacity,
    /// Not a deque.
    InvalidMagic,
    /// The file holds another number of slots.
    CapacityMismatch {
        /// Slots in the file.
        file_capacity: u64,
        /// Slots asked for.
        requested: u64,
    },
    /// The file holds slots of another size.
    SlotBytesMismatch {
        /// Bytes per slot in the file.
        file_slot_bytes: u64,
        /// Bytes per slot asked for.
        type_slot_bytes: u64,
    },
    /// No room.
    Full,
    /// The element does not fit its slot; the refusal as it prints.
    Marshal(String),
}

/// What `deque_code` answers.
pub open spec fn deque_code_report(e: DequeError) -> Report {
    match e {
        DequeError::Io(said) => told(SUBETHA_E_RING_IO, "io error: "@ + said@),
        DequeError::InvalidCapacity => told(SUBETHA_E_INVALID_ARGUMENT, "the capacity is not a power of two of at least 1, or the layout is empty or misaligned"@),
        DequeError::InvalidMagic => told(SUBETHA_E_RING_LAYOUT_MISMATCH, "the file is not a deque with this layout"@),
        DequeError::CapacityMismatch { file_capacity, requested } => told(SUBETHA_E_RING_LAYOUT_MISMATCH, "the deque holds "@ + dec(file_capacity as nat) + " slots, not "@ + dec(requested as nat)),
        DequeError::SlotBytesMismatch { file_slot_bytes, type_slot_bytes } => told(SUBETHA_E_RING_LAYOUT_MISMATCH, "the deque's slots are "@ + dec(file_slot_bytes as nat) + " bytes, not "@ + dec(type_slot_bytes as nat)),
        DequeError::Full => bare(SUBETHA_E_RING_FULL),
        DequeError::Marshal(said) => told(SUBETHA_E_RING_PAYLOAD_TOO_LARGE, said@),
    }
}

/// The map from a work-stealing deque's error to the code that names it.
pub fn deque_code(last: &mut LastError, e: DequeError) -> (code: i32)
    ensures
        answers_code(code, deque_code_report(e), old(last)@, final(last)@),
{
    match e {
        DequeError::Io(said) => {
            let mut text: String = String::from_str("io error: ");
            text.append(said.as_str());
            fail(last, SUBETHA_E_RING_IO, text.as_str())
        },
        DequeError::InvalidCapacity => fail(last, SUBETHA_E_INVALID_ARGUMENT, "the capacity is not a power of two of at least 1, or the layout is empty or misaligned"),
        DequeError::InvalidMagic => fail(last, SUBETHA_E_RING_LAYOUT_MISMATCH, "the file is not a deque with this layout"),
        DequeError::CapacityMismatch { file_capacity, requested } => {
            let mut text: String = String::from_str("the deque holds ");
            push_dec(&mut text, file_capacity);
            text.append(" slots, not ");
            push_dec(&mut text, requested);
            fail(last, SUBETHA_E_RING_LAYOUT_MISMATCH, text.as_str())
        },
        DequeError::SlotBytesMismatch { file_slot_bytes, type_slot_bytes } => {
            let mut text: String = String::from_str("the deque's slots are ");
            push_dec(&mut text, file_slot_bytes);
            text.append(" bytes, not ");
            push_dec(&mut text, type_slot_bytes);
            fail(last, SUBETHA_E_RING_LAYOUT_MISMATCH, text.as_str())
        },
        DequeError::Full => SUBETHA_E_RING_FULL,
        DequeError::Marshal(said) => {
            let mut text: String = String::new();
            text.append(said.as_str());
            proof {
                assert(text@ =~= said@);
            }
            fail(last, SUBETHA_E_RING_PAYLOAD_TOO_LARGE, text.as_str())
        },
    }
}

/// What a registration refuses with.
#[derive(Debug)]
pub enum AdaptiveError {
    /// No producer slot.
    TooManyProducers,
    /// No consumer slot.
    TooManyConsumers,
    /// The grown backing could not be made.
    GrowthFailed,
}

/// What `adaptive_code` answers.
pub open spec fn adaptive_code_report(e: AdaptiveError) -> Report {
    match e {
        AdaptiveError::TooManyProducers => bare(SUBETHA_E_RING_TOO_MANY_PRODUCERS),
        AdaptiveError::TooManyConsumers => bare(SUBETHA_E_RING_TOO_MANY_CONSUMERS),
        AdaptiveError::GrowthFailed => bare(SUBETHA_E_RING_GROWTH_FAILED),
    }
}

/// The map from a registration error to the code that names it.
pub fn adaptive_code(last: &mut LastError, e: AdaptiveError) -> (code: i32)
    ensures
        answers_code(code, adaptive_code_report(e), old(last)@, final(last)@),
{
    match e {
        AdaptiveError::TooManyProducers => SUBETHA_E_RING_TOO_MANY_PRODUCERS,
        AdaptiveError::TooManyConsumers => SUBETHA_E_RING_TOO_MANY_CONSUMERS,
        AdaptiveError::GrowthFailed => SUBETHA_E_RING_GROWTH_FAILED,
    }
}

/// What a broadcast ring refuses with.
#[derive(Debug)]
pub enum BroadcastError {
    /// No room.
    Full,
    /// Nothing to take.
    Empty,
    /// No consumer slot.
    NoConsumerSlot,
    /// No such consumer.
    InvalidConsumer,
    /// More than one slot carries.
    PayloadTooLarge,
    /// A backing exists with another layout.
    LayoutMismatch,
    /// The OS refused; the kind of the refusal.
    IoError(String),
}

/// What `broadcast_code` answers.
pub open spec fn broadcast_code_report(e: BroadcastError) -> Report {
    match e {
        BroadcastError::Full => bare(SUBETHA_E_RING_FULL),
        BroadcastError::Empty => bare(SUBETHA_E_RING_EMPTY),
        BroadcastError::NoConsumerSlot => bare(SUBETHA_E_BROADCAST_NO_CONSUMER_SLOT),
        BroadcastError::InvalidConsumer => bare(SUBETHA_E_BROADCAST_INVALID_CONSUMER),
        BroadcastError::PayloadTooLarge => bare(SUBETHA_E_RING_PAYLOAD_TOO_LARGE),
        BroadcastError::LayoutMismatch => bare(SUBETHA_E_RING_LAYOUT_MISMATCH),
        BroadcastError::IoError(kind) => told(SUBETHA_E_RING_IO, "io error: "@ + kind@),
    }
}

/// The map from a broadcast ring's error to the code that names it.
pub fn broadcast_code(last: &mut LastError, e: BroadcastError) -> (code: i32)
    ensures
        answers_code(code, broadcast_code_report(e), old(last)@, final(last)@),
{
    match e {
        BroadcastError::Full => SUBETHA_E_RING_FULL,
        BroadcastError::Empty => SUBETHA_E_RING_EMPTY,
        BroadcastError::NoConsumerSlot => SUBETHA_E_BROADCAST_NO_CONSUMER_SLOT,
        BroadcastError::InvalidConsumer => SUBETHA_E_BROADCAST_INVALID_CONSUMER,
        BroadcastError::PayloadTooLarge => SUBETHA_E_RING_PAYLOAD_TOO_LARGE,
        BroadcastError::LayoutMismatch => SUBETHA_E_RING_LAYOUT_MISMATCH,
        BroadcastError::IoError(kind) => {
            let mut text: String = String::from_str("io error: ");
            text.append(kind.as_str());
            fail(last, SUBETHA_E_RING_IO, text.as_str())
        },
    }
}

/// An I/O error a constructor reports.
#[derive(Debug)]
pub struct IoFailure {
    /// Whether the kind is invalid data.
    pub invalid_data: bool,
    /// The name of the kind.
    pub kind: String,
    /// The error's own text.
    pub said: String,
}

/// What `io_code` answers.
pub open spec fn io_code_report(e: IoFailure) -> Report {
    if e.invalid_data {
        told(SUBETHA_E_RING_LAYOUT_MISMATCH, e.said@)
    } else {
        told(SUBETHA_E_RING_IO, "io error: "@ + e.kind@ + ": "@ + e.said@)
    }
}

/// The map from an I/O error a ring constructor reports to the code that
/// names it: invalid data is a layout that does not match, anything else
/// the OS's refusal.
pub fn io_code(last: &mut LastError, e: IoFailure) -> (code: i32)
    ensures
        answers_code(code, io_code_report(e), old(last)@, final(last)@),
{
    if e.invalid_data {
        fail(last, SUBETHA_E_RING_LAYOUT_MISMATCH, e.said.as_str())
    } else {
        let mut text: String = String::from_str("io error: ");
        text.append(e.kind.as_str());
        text.append(": ");
        text.append(e.said.as_str());
        fail(last, SUBETHA_E_RING_IO, text.as_str())
    }
}

/// What a capacity morph refuses with.
#[derive(Debug)]
pub enum CapacityMorphError {
    /// A size is wrong.
    InvalidCapacity,
    /// More items are in flight than would fit.
    CannotShrinkInFlight {
        /// Items in flight.
        in_flight: u64,
        /// The capacity asked for.
        new_capacity: u64,
    },
    /// The ring refused.
    Ring(RingError),
    /// A registration refused.
    Adaptive(AdaptiveError),
}

/// What `capacity_code` answers.
pub open spec fn capacity_code_report(e: CapacityMorphError) -> Report {
    match e {
        CapacityMorphError::InvalidCapacity => told(SUBETHA_E_INVALID_ARGUMENT, "the capacity is not a power of two of at least 2"@),
        CapacityMorphError::CannotShrinkInFlight { in_flight, new_capacity } => told(SUBETHA_E_RING_STALE_BACKLOG, dec(in_flight as nat) + " items in flight exceed the new capacity "@ + dec(new_capacity as nat)),
        CapacityMorphError::Ring(inner) => ring_code_report(inner),
        CapacityMorphError::Adaptive(inner) => adaptive_code_report(inner),
    }
}

/// The map from a capacity morph's error to the code that names it.
pub fn capacity_code(last: &mut LastError, e: CapacityMorphError) -> (code: i32)
    ensures
        answers_code(code, capacity_code_report(e), old(last)@, final(last)@),
{
    match e {
        CapacityMorphError::InvalidCapacity => fail(last, SUBETHA_E_INVALID_ARGUMENT, "the capacity is not a power of two of at least 2"),
        CapacityMorphError::CannotShrinkInFlight { in_flight, new_capacity } => {
            let mut text: String = String::new();
            push_dec(&mut text, in_flight);
            text.append(" items in flight exceed the new capacity ");
            push_dec(&mut text, new_capacity);
            proof {
                assert(text@ =~= dec(in_flight as nat) + " items in flight exceed the new capacity "@ + dec(new_capacity as nat));
            }
            fail(last, SUBETHA_E_RING_STALE_BACKLOG, text.as_str())
        },
        CapacityMorphError::Ring(inner) => ring_code(last, inner),
        CapacityMorphError::Adaptive(inner) => adaptive_code(last, inner),
    }
}

/// What a broadcast capacity morph refuses with.
#[derive(Debug)]
pub enum BroadcastCapacityMorphError {
    /// A size is wrong.
    InvalidCapacity,
    /// The ring refused.
    Broadcast(BroadcastError),
    /// The OS refused.
    Io(IoFailure),
}

/// What `broadcast_capacity_code` answers.
pub open spec fn broadcast_capacity_code_report(e: BroadcastCapacityMorphError) -> Report {
    match e {
        BroadcastCapacityMorphError::InvalidCapacity => told(SUBETHA_E_INVALID_ARGUMENT, "the capacity is not a power of two of at least 2"@),
        BroadcastCapacityMorphError::Broadcast(inner) => broadcast_code_report(inner),
        BroadcastCapacityMorphError::Io(inner) => io_code_report(inner),
    }
}

/// The map from a broadcast capacity morph's error to the code that names it.
pub fn broadcast_capacity_code(last: &mut LastError, e: BroadcastCapacityMorphError) -> (code: i32)
    ensures
        answers_code(code, broadcast_capacity_code_report(e), old(last)@, final(last)@),
{
    match e {
        BroadcastCapacityMorphError::InvalidCapacity => fail(last, SUBETHA_E_INVALID_ARGUMENT, "the capacity is not a power of two of at least 2"),
        BroadcastCapacityMorphError::Broadcast(inner) => broadcast_code(last, inner),
        BroadcastCapacityMorphError::Io(inner) => io_code(last, inner),
    }
}

/// What a pub/sub capacity morph refuses with.
#[derive(Debug)]
pub enum PubSubCapacityMorphError {
    /// A size is wrong.
    InvalidCapacity,
    /// The OS refused.
    Io(IoFailure),
}

/// What `pubsub_capacity_code` answers.
pub open spec fn pubsub_capacity_code_report(e: PubSubCapacityMorphError) -> Report {
    match e {
        PubSubCapacityMorphError::InvalidCapacity => told(SUBETHA_E_INVALID_ARGUMENT, "the capacity is not a power of two of at least 2"@),
        PubSubCapacityMorphError::Io(inner) => io_code_report(inner),
    }
}

/// The map from a pub/sub capacity morph's error to the code that names it.
pub fn pubsub_capacity_code(last: &mut LastError, e: PubSubCapacityMorphError) -> (code: i32)
    ensures
        answers_code(code, pubsub_capacity_code_report(e), old(last)@, final(last)@),
{
    match e {
        PubSubCapacityMorphError::InvalidCapacity => fail(last, SUBETHA_E_INVALID_ARGUMENT, "the capacity is not a power of two of at least 2"),
        PubSubCapacityMorphError::Io(inner) => io_code(last, inner),
    }
}

/// What a blocking ring refuses with.
#[derive(Debug)]
pub enum BlockingError {
    /// The ring refused.
    Ring(RingError),
    /// Every waiter slot is in use.
    WakerFull,
    /// The deadline passed.
    Timeout,
    /// A waker exists with another layout.
    WakerLayout,
    /// The OS refused; the kind of the refusal.
    Io(String),
}

/// What `blocking_code` answers.
pub open spec fn blocking_code_report(e: BlockingError) -> Report {
    match e {
        BlockingError::Ring(inner) => ring_code_report(inner),
        BlockingError::WakerFull => bare(SUBETHA_E_RING_WAKER_FULL),
        BlockingError::Timeout => bare(SUBETHA_E_TIMEOUT),
        BlockingError::WakerLayout => bare(SUBETHA_E_RING_WAKER_LAYOUT),
        BlockingError::Io(kind) => told(SUBETHA_E_RING_IO, "io error: "@ + kind@),
    }
}

/// The map from a blocking ring's error to the code that names it.
pub fn blocking_code(last: &mut LastError, e: BlockingError) -> (code: i32)
    ensures
        answers_code(code, blocking_code_report(e), old(last)@, final(last)@),
{
    match e {
        BlockingError::Ring(inner) => ring_code(last, inner),
        BlockingError::WakerFull => SUBETHA_E_RING_WAKER_FULL,
        BlockingError::Timeout => SUBETHA_E_TIMEOUT,
        BlockingError::WakerLayout => SUBETHA_E_RING_WAKER_LAYOUT,
        BlockingError::Io(kind) => {
            let mut text: String = String::from_str("io error: ");
            text.append(kind.as_str());
            fail(last, SUBETHA_E_RING_IO, text.as_str())
        },
    }
}

/// What a waker refuses with.
#[derive(Debug)]
pub enum WakerError {
    /// Every waiter slot is in use.
    Full,
    /// The deadline passed.
    Timeout,
    /// A waker exists with another layout.
    LayoutMismatch,
    /// The OS refused; the kind of the refusal.
    IoError(String),
}

/// What `waker_code` answers.
pub open spec fn waker_code_report(e: WakerError) -> Report {
    match e {
        WakerError::Full => bare(SUBETHA_E_RING_WAKER_FULL),
        WakerError::Timeout => bare(SUBETHA_E_TIMEOUT),
        WakerError::LayoutMismatch => bare(SUBETHA_E_RING_WAKER_LAYOUT),
        WakerError::IoError(kind) => told(SUBETHA_E_RING_IO, "waker io error: "@ + kind@),
    }
}

/// The map from a waker error to the code that names it.
pub fn waker_code(last: &mut LastError, e: WakerError) -> (code: i32)
    ensures
        answers_code(code, waker_code_report(e), old(last)@, final(last)@),
{
    match e {
        WakerError::Full => SUBETHA_E_RING_WAKER_FULL,
        WakerError::Timeout => SUBETHA_E_TIMEOUT,
        WakerError::LayoutMismatch => SUBETHA_E_RING_WAKER_LAYOUT,
        WakerError::IoError(kind) => {
            let mut text: String = String::from_str("waker io error: ");
            text.append(kind.as_str());
            fail(last, SUBETHA_E_RING_IO, text.as_str())
        },
    }
}

/// The declared code a name belongs to, told by its length and one letter.
spec fn code_named(name: Seq<char>) -> i32 {
    if name.len() == 16 {
        SUBETHA_E_RING_FULL
    } else if name.len() == 17 && name[4] == 'c' {
        SUBETHA_E_PANIC
    } else if name.len() == 17 && name[4] == 'r' {
        SUBETHA_E_RING_EMPTY
    } else if name.len() == 19 {
        SUBETHA_E_TIMEOUT
    } else if name.len() == 20 {
        SUBETHA_E_OUT_OF_MEMORY
    } else if name.len() == 27 {
        SUBETHA_E_RING_WAKER_FULL
    } else if name.len() == 28 {
        SUBETHA_E_RING_PAYLOAD_TOO_LARGE
    } else if name.len() == 29 && name[0] == 'p' {
        SUBETHA_E_RING_TOO_MANY_PRODUCERS
    } else if name.len() == 29 && name[0] == 'c' {
        SUBETHA_E_RING_TOO_MANY_CONSUMERS
    } else if name.len() == 30 {
        SUBETHA_E_SHUT_DOWN
    } else if name.len() == 31 && name[11] == 'n' {
        SUBETHA_E_INVALID_HANDLE
    } else if name.len() == 31 && name[11] == ' ' {
        SUBETHA_E_MAP_KEY_ABSENT
    } else if name.len() == 31 && name[11] == 'w' {
        SUBETHA_E_READ_ONLY
    } else if name.len() == 32 && name[0] == 's' {
        SUBETHA_E_NOT_INITIALIZED
    } else if name.len() == 32 && name[0] == 't' {
        SUBETHA_E_BUFFER_TOO_SMALL
    } else if name.len() == 35 {
        SUBETHA_E_RING_NOT_STAMPED
    } else if name.len() == 36 && name[0] == 'a' {
        SUBETHA_E_INVALID_UTF8
    } else if name.len() == 36 && name[0] == 't' {
        SUBETHA_E_MAP_FULL
    } else if name.len() == 37 {
        SUBETHA_E_RING_IO
    } else if name.len() == 38 {
        SUBETHA_E_RING_GROWTH_FAILED
    } else if name.len() == 39 {
        SUBETHA_E_PUBSUB_PENDING
    } else if name.len() == 40 && name[4] == 'c' {
        SUBETHA_E_RING_LAYOUT_MISMATCH
    } else if name.len() == 40 && name[4] == 'h' {
        SUBETHA_E_RING_NOT_DRAINER
    } else if name.len() == 40 && name[4] == 'p' {
        SUBETHA_E_RING_STALE_BACKLOG
    } else if name.len() == 40 && name[4] == 'y' {
        SUBETHA_E_EPOCHS_PINS_EXHAUSTED
    } else if name.len() == 40 && name[4] == 'b' {
        SUBETHA_E_BARRIER_NO_LIVE_PEERS
    } else if name.len() == 41 {
        SUBETHA_E_ARENA_FULL
    } else if name.len() == 42 && name[0] == 'a' {
        SUBETHA_E_INVALID_ARGUMENT
    } else if name.len() == 42 && name[0] == 't' {
        SUBETHA_E_WRONG_KIND
    } else if name.len() == 43 && name[6] == 't' {
        SUBETHA_E_EPOCHS_TICKETS_EXHAUSTED
    } else if name.len() == 43 && name[6] == 's' {
        SUBETHA_E_FENCE_CLOCK_FULL
    } else if name.len() == 44 {
        SUBETHA_E_HANDLES_WERE_LIVE
    } else if name.len() == 45 && name[0] == 'a' {
        SUBETHA_E_RING_WAKER_LAYOUT
    } else if name.len() == 45 && name[0] == 'e' {
        SUBETHA_E_ARC_HOLDERS_EXHAUSTED
    } else if name.len() == 46 {
        SUBETHA_E_NOT_SUPPORTED
    } else if name.len() == 47 && name[4] == 'p' {
        SUBETHA_E_PUBSUB_LOST
    } else if name.len() == 47 && name[4] == 'r' {
        SUBETHA_E_ARENA_INVALID_REF
    } else if name.len() == 50 && name[4] == 'y' {
        SUBETHA_E_BROADCAST_NO_CONSUMER_SLOT
    } else if name.len() == 50 && name[4] == 'i' {
        SUBETHA_E_OUT_OF_BOUNDS
    } else if name.len() == 50 && name[4] == 'b' {
        SUBETHA_E_BARRIER_EPOCH_PASSED
    } else if name.len() == 51 {
        SUBETHA_E_HANDLE_POISONED
    } else if name.len() == 52 && name[5] == 'o' {
        SUBETHA_E_BROADCAST_INVALID_CONSUMER
    } else if name.len() == 52 && name[5] == 'a' {
        SUBETHA_E_LAZY_NOT_CLAIMED
    } else if name.len() == 53 {
        SUBETHA_E_DESTROYED
    } else if name.len() == 58 && name[0] == 's' {
        SUBETHA_E_WOULD_BLOCK
    } else if name.len() == 58 && name[0] == 't' {
        SUBETHA_E_NOT_OWNER
    } else if name.len() == 59 {
        SUBETHA_E_INIT_CONFLICT
    } else if name.len() == 61 {
        SUBETHA_E_LAZY_CLAIMANT_GONE
    } else if name.len() == 63 {
        SUBETHA_E_DEQUE_NOT_OWNER
    } else {
        SUBETHA_OK
    }
}

/// A declared code can be read back from its name, which does not begin as
/// the name of an unknown code does.
proof fn a_name_gives_its_code(code: i32)
    requires
        is_declared(code),
    ensures
        code_named(strerror_text(code)) == code,
        strerror_text(code).len() > 0,
        strerror_text(code)[0] != 'u',
{
    reveal_strlit("ok");
    reveal_strlit("subetha_init has not been called");
    reveal_strlit("subetha_init was called again with a different default mode");
    reveal_strlit("an argument is null, zero, or out of range");
    reveal_strlit("the handle names no live object");
    reveal_strlit("an earlier panic left this handle's object unusable");
    reveal_strlit("the call panicked");
    reveal_strlit("the handle names an object of another kind");
    reveal_strlit("an allocation failed");
    reveal_strlit("the caller's buffer is too small");
    reveal_strlit("a string argument is not valid UTF-8");
    reveal_strlit("the timeout elapsed");
    reveal_strlit("the library has been shut down");
    reveal_strlit("shutdown closed handles that were still live");
    reveal_strlit("not supported on this platform or in this mode");
    reveal_strlit("the object was destroyed while this call waited on it");
    reveal_strlit("the ring is full");
    reveal_strlit("the ring is empty");
    reveal_strlit("a backing exists with a different layout");
    reveal_strlit("the payload exceeds one slot");
    reveal_strlit("the ring carries no ordering stamps");
    reveal_strlit("another consumer holds the drainer lease");
    reveal_strlit("the previous shape still holds a backlog");
    reveal_strlit("the OS refused an open, map or remove");
    reveal_strlit("producer registration refused");
    reveal_strlit("consumer registration refused");
    reveal_strlit("the grown backing could not be created");
    reveal_strlit("every waiter slot is in use");
    reveal_strlit("a waker region exists with a different layout");
    reveal_strlit("every consumer slot of the broadcast ring is taken");
    reveal_strlit("the consumer index is out of range or not registered");
    reveal_strlit("the position has not been published yet");
    reveal_strlit("the position was overwritten before it was read");
    reveal_strlit("the deque handle is a thief's; push and pop belong to the owner");
    reveal_strlit("the map has no free slot for the key");
    reveal_strlit("the key has no entry in the map");
    reveal_strlit("the arena has no room for the whole value");
    reveal_strlit("the reference reaches past what the arena holds");
    reveal_strlit("the handle was opened read-only");
    reveal_strlit("the index is at or past the length or the capacity");
    reveal_strlit("every pin slot is held by a live process");
    reveal_strlit("every ticket slot is held by a live process");
    reveal_strlit("every slot in the fence clock is registered");
    reveal_strlit("the barrier has no live peer to wait for");
    reveal_strlit("the barrier has already passed the epoch waited on");
    reveal_strlit("every holder slot on the shared value is held");
    reveal_strlit("the claim on the lazy value belongs to a process that is gone");
    reveal_strlit("the caller does not hold the claim on the lazy value");
    reveal_strlit("someone else holds the lock, or a writer is waiting for it");
    reveal_strlit("the call needs the lease and this process does not hold it");
}

/// Every declared code has a name: none is named as unknown, and every other
/// code is.
pub proof fn every_declared_code_is_named(code: i32)
    ensures
        is_declared(code) <==> strerror_text(code) != "unknown subetha code"@,
{
    reveal_strlit("unknown subetha code");
    assert("unknown subetha code"@[0] == 'u');
    if is_declared(code) {
        a_name_gives_its_code(code);
    }
}

/// A declared code shares its name with no other code: a caller can tell from
/// the text which code it was given.
pub proof fn different_codes_have_different_names(code: i32, other: i32)
    requires
        is_declared(code),
        code != other,
    ensures
        strerror_text(code) != strerror_text(other),
{
    every_declared_code_is_named(code);
    every_declared_code_is_named(other);
    a_name_gives_its_code(code);
    if is_declared(other) {
        a_name_gives_its_code(other);
    }
}

/// What a copy of the detail leaves in a buffer of any size: the front of the
/// detail, as far as it fits before the terminator, then the terminator, then
/// what was there. The size reported is one more than the detail's bytes, and
/// a buffer of that size takes the whole of it. Only a detail of as many bytes
/// as can be counted is left out.
pub proof fn a_detail_is_copied_as_far_as_it_fits(buf: Seq<u8>, detail: Seq<char>)
    requires
        encode_utf8(detail).len() < usize::MAX,
    ensures
        ({
            let bytes = encode_utf8(detail);
            let after = with_detail(buf, detail);
            let n = if bytes.len() < buf.len() {
                bytes.len() as int
            } else {
                buf.len() - 1
            };
            &&& detail_needs(detail) == bytes.len() + 1
            &&& after.len() == buf.len()
            &&& buf.len() > 0 ==> {
                &&& after.take(n) == bytes.take(n)
                &&& after[n] == 0
                &&& after.skip(n + 1) == buf.skip(n + 1)
            }
            &&& buf.len() >= detail_needs(detail) ==> after.take(bytes.len() as int) == bytes
        }),
{
    let bytes = encode_utf8(detail);
    let after = with_detail(buf, detail);
    if buf.len() > 0 {
        let n = detail_copied(detail, buf.len() as int);
        assert(after.take(n) =~= bytes.take(n));
        assert(after.skip(n + 1) =~= buf.skip(n + 1));
        if n == bytes.len() {
            assert(bytes.take(n) =~= bytes);
        }
    }
}

/// A code is a number callers compare with, so each name belongs to one
/// number: the name a caller is given for a number is the name of what that
/// number means.
pub proof fn every_code_is_told_by_its_number(code: i32, name: &'static str)
    requires
        call_ensures(subetha_strerror, (code,), name),
    ensures
        code == 0 ==> name@ == "ok"@,
        code == 1 ==> name@ == "subetha_init has not been called"@,
        code == 2 ==> name@ == "subetha_init was called again with a different default mode"@,
        code == 3 ==> name@ == "an argument is null, zero, or out of range"@,
        code == 4 ==> name@ == "the handle names no live object"@,
        code == 5 ==> name@ == "an earlier panic left this handle's object unusable"@,
        code == 6 ==> name@ == "the call panicked"@,
        code == 7 ==> name@ == "the handle names an object of another kind"@,
        code == 8 ==> name@ == "an allocation failed"@,
        code == 9 ==> name@ == "the caller's buffer is too small"@,
        code == 10 ==> name@ == "a string argument is not valid UTF-8"@,
        code == 11 ==> name@ == "the timeout elapsed"@,
        code == 12 ==> name@ == "the library has been shut down"@,
        code == 13 ==> name@ == "shutdown closed handles that were still live"@,
        code == 14 ==> name@ == "not supported on this platform or in this mode"@,
        code == 15 ==> name@ == "the object was destroyed while this call waited on it"@,
        code == 100 ==> name@ == "the ring is full"@,
        code == 101 ==> name@ == "the ring is empty"@,
        code == 102 ==> name@ == "a backing exists with a different layout"@,
        code == 103 ==> name@ == "the payload exceeds one slot"@,
        code == 104 ==> name@ == "the ring carries no ordering stamps"@,
        code == 105 ==> name@ == "another consumer holds the drainer lease"@,
        code == 106 ==> name@ == "the previous shape still holds a backlog"@,
        code == 107 ==> name@ == "the OS refused an open, map or remove"@,
        code == 108 ==> name@ == "producer registration refused"@,
        code == 109 ==> name@ == "consumer registration refused"@,
        code == 110 ==> name@ == "the grown backing could not be created"@,
        code == 111 ==> name@ == "every waiter slot is in use"@,
        code == 112 ==> name@ == "a waker region exists with a different layout"@,
        code == 113 ==> name@ == "every consumer slot of the broadcast ring is taken"@,
        code == 114 ==> name@ == "the consumer index is out of range or not registered"@,
        code == 115 ==> name@ == "the position has not been published yet"@,
        code == 116 ==> name@ == "the position was overwritten before it was read"@,
        code == 117 ==> name@ == "the deque handle is a thief's; push and pop belong to the owner"@,
        code == 118 ==> name@ == "the map has no free slot for the key"@,
        code == 119 ==> name@ == "the key has no entry in the map"@,
        code == 120 ==> name@ == "the arena has no room for the whole value"@,
        code == 121 ==> name@ == "the reference reaches past what the arena holds"@,
        code == 122 ==> name@ == "the handle was opened read-only"@,
        code == 123 ==> name@ == "the index is at or past the length or the capacity"@,
        code == 124 ==> name@ == "every pin slot is held by a live process"@,
        code == 125 ==> name@ == "every ticket slot is held by a live process"@,
        code == 126 ==> name@ == "someone else holds the lock, or a writer is waiting for it"@,
        code == 127 ==> name@ == "the call needs the lease and this process does not hold it"@,
        code == 128 ==> name@ == "every slot in the fence clock is registered"@,
        code == 129 ==> name@ == "the barrier has no live peer to wait for"@,
        code == 130 ==> name@ == "the barrier has already passed the epoch waited on"@,
        code == 131 ==> name@ == "every holder slot on the shared value is held"@,
        code == 132 ==> name@ == "the claim on the lazy value belongs to a process that is gone"@,
        code == 133 ==> name@ == "the caller does not hold the claim on the lazy value"@,
        !(0 <= code <= 15 || 100 <= code <= 133) ==> name@ == "unknown subetha code"@,
{
}

/// The numbers of the codes, as callers were built against them.
pub proof fn the_codes_are_the_numbers_callers_know()
    ensures
        SUBETHA_OK == 0,
        SUBETHA_E_NOT_INITIALIZED == 1,
        SUBETHA_E_INIT_CONFLICT == 2,
        SUBETHA_E_INVALID_ARGUMENT == 3,
        SUBETHA_E_INVALID_HANDLE == 4,
        SUBETHA_E_HANDLE_POISONED == 5,
        SUBETHA_E_PANIC == 6,
        SUBETHA_E_WRONG_KIND == 7,
        SUBETHA_E_OUT_OF_MEMORY == 8,
        SUBETHA_E_BUFFER_TOO_SMALL == 9,
        SUBETHA_E_INVALID_UTF8 == 10,
        SUBETHA_E_TIMEOUT == 11,
        SUBETHA_E_SHUT_DOWN == 12,
        SUBETHA_E_HANDLES_WERE_LIVE == 13,
        SUBETHA_E_NOT_SUPPORTED == 14,
        SUBETHA_E_DESTROYED == 15,
        SUBETHA_E_RING_FULL == 100,
        SUBETHA_E_RING_EMPTY == 101,
        SUBETHA_E_RING_LAYOUT_MISMATCH == 102,
        SUBETHA_E_RING_PAYLOAD_TOO_LARGE == 103,
        SUBETHA_E_RING_NOT_STAMPED == 104,
        SUBETHA_E_RING_NOT_DRAINER == 105,
        SUBETHA_E_RING_STALE_BACKLOG == 106,
        SUBETHA_E_RING_IO == 107,
        SUBETHA_E_RING_TOO_MANY_PRODUCERS == 108,
        SUBETHA_E_RING_TOO_MANY_CONSUMERS == 109,
        SUBETHA_E_RING_GROWTH_FAILED == 110,
        SUBETHA_E_RING_WAKER_FULL == 111,
        SUBETHA_E_RING_WAKER_LAYOUT == 112,
        SUBETHA_E_BROADCAST_NO_CONSUMER_SLOT == 113,
        SUBETHA_E_BROADCAST_INVALID_CONSUMER == 114,
        SUBETHA_E_PUBSUB_PENDING == 115,
        SUBETHA_E_PUBSUB_LOST == 116,
        SUBETHA_E_DEQUE_NOT_OWNER == 117,
        SUBETHA_E_MAP_FULL == 118,
        SUBETHA_E_MAP_KEY_ABSENT == 119,
        SUBETHA_E_ARENA_FULL == 120,
        SUBETHA_E_ARENA_INVALID_REF == 121,
        SUBETHA_E_READ_ONLY == 122,
        SUBETHA_E_OUT_OF_BOUNDS == 123,
        SUBETHA_E_EPOCHS_PINS_EXHAUSTED == 124,
        SUBETHA_E_EPOCHS_TICKETS_EXHAUSTED == 125,
        SUBETHA_E_WOULD_BLOCK == 126,
        SUBETHA_E_NOT_OWNER == 127,
        SUBETHA_E_FENCE_CLOCK_FULL == 128,
        SUBETHA_E_BARRIER_NO_LIVE_PEERS == 129,
        SUBETHA_E_BARRIER_EPOCH_PASSED == 130,
        SUBETHA_E_ARC_HOLDERS_EXHAUSTED == 131,
        SUBETHA_E_LAZY_CLAIMANT_GONE == 132,
        SUBETHA_E_LAZY_NOT_CLAIMED == 133,
{
}

/// A failure answers with its own code and leaves its own text, which is what
/// is read afterwards; text that is set is read back.
pub proof fn a_failure_answers_its_code_and_leaves_its_text(
    last: &mut LastError,
    code: i32,
    text: &str,
    answer: i32,
    after: &LastError,
    shown: &str,
    second: &mut LastError,
    done: (),
)
    requires
        call_ensures(fail, (last, code, text), answer),
        after@ == final(last)@,
        call_ensures(LastError::detail, (after,), shown),
        call_ensures(set_detail, (second, text), done),
    ensures
        answer == code,
        shown@ == text@,
        final(second)@ == text@,
{
}

/// A refusal answers with the code and the text it was decided with; one with
/// no text leaves what was there.
pub proof fn a_refusal_decided_earlier_answers_as_decided(last: &mut LastError, refusal: Refused, code: i32)
    requires
        call_ensures(refused, (last, refusal), code),
    ensures
        code == refusal.code,
        refusal.detail matches Some(text) ==> final(last)@ == text@,
        refusal.detail is None ==> final(last)@ == old(last)@,
{
}

/// On a thread on which nothing has failed there is nothing to tell.
pub proof fn a_new_thread_has_no_failure(last: LastError)
    requires
        call_ensures(LastError::new, (), last),
    ensures
        last@.len() == 0,
{
}

/// The number of bytes asked for is one more than the detail's, whatever the
/// buffer. A buffer receives the front of the detail, as far as it fits before
/// a zero byte, then the zero byte, and is not touched past it; one with no
/// room is not touched at all.
pub proof fn the_detail_is_copied_out_as_far_as_it_fits(last: &LastError, buf: &mut [u8], needed: usize)
    requires
        encode_utf8(last@).len() < usize::MAX,
        call_ensures(subetha_last_error_detail, (last, buf), needed),
    ensures
        needed == encode_utf8(last@).len() + 1,
        final(buf)@.len() == old(buf)@.len(),
        old(buf)@.len() > 0 ==> exists|n: int| {
            &&& 0 <= n < old(buf)@.len() && n <= encode_utf8(last@).len()
            &&& n == encode_utf8(last@).len() || n == old(buf)@.len() - 1
            &&& #[trigger] final(buf)@[n] == 0
            &&& final(buf)@.take(n) == encode_utf8(last@).take(n)
            &&& final(buf)@.skip(n + 1) == old(buf)@.skip(n + 1)
        },
{
    a_detail_is_copied_as_far_as_it_fits(old(buf)@, last@);
    if old(buf)@.len() > 0 {
        let n = detail_copied(last@, old(buf)@.len() as int);
        assert(final(buf)@[n] == 0);
    }
}

/// Each ring error answers with its own code. One with specifics leaves them,
/// and one without leaves what was there.
pub proof fn each_ring_error_has_its_code(last: &mut LastError, e: RingError, code: i32)
    requires
        call_ensures(ring_code, (last, e), code),
    ensures
        e matches RingError::Full ==> code == 100 && final(last)@ == old(last)@,
        e matches RingError::Empty ==> code == 101 && final(last)@ == old(last)@,
        e matches RingError::LayoutMismatch ==> code == 102 && final(last)@ == old(last)@,
        e matches RingError::PayloadTooLarge ==> code == 103 && final(last)@ == old(last)@,
        e matches RingError::NotStamped ==> code == 104 && final(last)@ == old(last)@,
        e matches RingError::NotDrainer ==> code == 105 && final(last)@ == old(last)@,
        e matches RingError::StaleBacklog ==> code == 106 && final(last)@ == old(last)@,
        e matches RingError::IoError(kind) ==> code == 107 && final(last)@ == "io error: "@ + kind@,
{
}

/// Each notify error answers with its own code. One with specifics leaves
/// them, and one without leaves what was there.
pub proof fn each_notify_error_has_its_code(last: &mut LastError, e: NotifyError, code: i32)
    requires
        call_ensures(notify_code, (last, e), code),
    ensures
        e matches NotifyError::Io(kind, said) ==> code == 107 && final(last)@ == "notifier io error: "@ + kind@
            + ": "@ + said@,
        e matches NotifyError::LayoutMismatch ==> code == 102
            && final(last)@ == "a notifier record exists with another layout"@,
{
}

/// Each holders region error answers with its own code. One with specifics
/// leaves them, and one without leaves what was there.
pub proof fn each_holders_region_error_has_its_code(last: &mut LastError, e: HoldersError, code: i32)
    requires
        call_ensures(holders_region_code, (last, e), code),
    ensures
        e matches HoldersError::Exhausted ==> code == 100
            && final(last)@ == "every holder slot on this ring is held by a live process"@,
        e matches HoldersError::LayoutMismatch ==> code == 102
            && final(last)@ == "the holders region beside this ring was built for a different max_holders"@,
        e matches HoldersError::IoError(kind) ==> code == 107 && final(last)@ == "holders region io error: "@
            + kind@,
{
}

/// Each last holder error answers with its own code. One with specifics leaves
/// them, and one without leaves what was there. One that comes from beneath
/// answers exactly as it does there.
pub proof fn each_last_holder_error_has_its_code(
    last: &mut LastError,
    other: &mut LastError,
    e: LastHolderError,
    code: i32,
    beneath: i32,
)
    requires
        call_ensures(last_holder_code, (last, e), code),
        e matches LastHolderError::Region(inner) ==> call_ensures(holders_region_code, (other, inner), beneath),
        old(last)@ == old(other)@,
    ensures
        e matches LastHolderError::NoBackingFiles ==> code == 3
            && final(last)@ == "an anonymous ring has no backing files for a last holder to remove"@,
        e matches LastHolderError::ShmNotSupported ==> code == 3
            && final(last)@ == "a shared-memory ring does not carry a holder table"@,
        e matches LastHolderError::Region(inner) ==> code == beneath && final(last)@ == final(other)@,
{
}

/// Each map error answers with its own code. One with specifics leaves them,
/// and one without leaves what was there.
pub proof fn each_map_error_has_its_code(last: &mut LastError, e: MapError, code: i32)
    requires
        call_ensures(map_code, (last, e), code),
    ensures
        e matches MapError::Full ==> code == 118 && final(last)@ == old(last)@,
        e matches MapError::PayloadTooLarge ==> code == 3
            && final(last)@ == "a key or value is not its declared size, or the sizes exceed one entry"@,
        e matches MapError::LayoutMismatch ==> code == 102 && final(last)@ == old(last)@,
        e matches MapError::KeyAbsent ==> code == 119 && final(last)@ == old(last)@,
        e matches MapError::IoError(kind) ==> code == 107 && final(last)@ == "io error: "@ + kind@,
{
}

/// Each arena error answers with its own code. One with specifics leaves them,
/// and one without leaves what was there.
pub proof fn each_arena_error_has_its_code(last: &mut LastError, e: ArenaError, code: i32)
    requires
        call_ensures(arena_code, (last, e), code),
    ensures
        e matches ArenaError::Full ==> code == 120 && final(last)@ == old(last)@,
        e matches ArenaError::InvalidRef ==> code == 121 && final(last)@ == old(last)@,
        e matches ArenaError::InvalidUtf8 ==> code == 10 && final(last)@ == "the value is not UTF-8"@,
        e matches ArenaError::LayoutMismatch ==> code == 102 && final(last)@ == old(last)@,
        e matches ArenaError::ReadOnly ==> code == 122 && final(last)@ == "the arena was opened read-only"@,
        e matches ArenaError::IoError(kind) ==> code == 107 && final(last)@ == "io error: "@ + kind@,
{
}

/// Each holders error answers with its own code. One with specifics leaves
/// them, and one without leaves what was there.
pub proof fn each_holders_error_has_its_code(last: &mut LastError, e: SharedHolderError, code: i32)
    requires
        call_ensures(holders_code, (last, e), code),
    ensures
        e matches SharedHolderError::LayoutMismatch ==> code == 102 && final(last)@ == old(last)@,
        e matches SharedHolderError::EmptyCapacity ==> code == 3
            && final(last)@ == "a capacity of zero has no slot to claim"@,
        e matches SharedHolderError::IoError(kind) ==> code == 107 && final(last)@ == "io error: "@ + kind@,
{
}

/// Each heartbeat error answers with its own code. One with specifics leaves
/// them, and one without leaves what was there.
pub proof fn each_heartbeat_error_has_its_code(last: &mut LastError, e: HeartbeatError, code: i32)
    requires
        call_ensures(heartbeat_code, (last, e), code),
    ensures
        e matches HeartbeatError::TableFull ==> code == 100 && final(last)@ == "every slot in the table is held"@,
        e matches HeartbeatError::LayoutMismatch ==> code == 102 && final(last)@ == old(last)@,
        e matches HeartbeatError::IoError(kind) ==> code == 107 && final(last)@ == "io error: "@ + kind@,
{
}

/// Each leader error answers with its own code. One with specifics leaves
/// them, and one without leaves what was there.
pub proof fn each_leader_error_has_its_code(last: &mut LastError, e: LeaderError, code: i32)
    requires
        call_ensures(leader_code, (last, e), code),
    ensures
        e matches LeaderError::LayoutMismatch ==> code == 102 && final(last)@ == old(last)@,
        e matches LeaderError::IoError(kind) ==> code == 107 && final(last)@ == "io error: "@ + kind@,
{
}

/// Each lease error answers with its own code. One with specifics leaves them,
/// and one without leaves what was there.
pub proof fn each_lease_error_has_its_code(last: &mut LastError, e: LeaseError, code: i32)
    requires
        call_ensures(lease_code, (last, e), code),
    ensures
        e matches LeaseError::LayoutMismatch ==> code == 102 && final(last)@ == old(last)@,
        e matches LeaseError::PayloadTooLarge ==> code == 103 && final(last)@ == old(last)@,
        e matches LeaseError::NotOwner ==> code == 127 && final(last)@ == old(last)@,
        e matches LeaseError::Contention ==> code == 126 && final(last)@ == old(last)@,
        e matches LeaseError::IoError(kind) ==> code == 107 && final(last)@ == "io error: "@ + kind@,
{
}

/// Each condvar error answers with its own code. One with specifics leaves
/// them, and one without leaves what was there.
pub proof fn each_condvar_error_has_its_code(last: &mut LastError, e: CondvarError, code: i32)
    requires
        call_ensures(condvar_code, (last, e), code),
    ensures
        e matches CondvarError::WakerFull ==> code == 111 && final(last)@ == old(last)@,
        e matches CondvarError::Timeout ==> code == 11 && final(last)@ == old(last)@,
        e matches CondvarError::LayoutMismatch ==> code == 102 && final(last)@ == old(last)@,
        e matches CondvarError::Io(kind) ==> code == 107 && final(last)@ == "io error: "@ + kind@,
{
}

/// Each atomic error answers with its own code. One with specifics leaves
/// them, and one without leaves what was there.
pub proof fn each_atomic_error_has_its_code(last: &mut LastError, e: SharedAtomicError, code: i32)
    requires
        call_ensures(atomic_code, (last, e), code),
    ensures
        e matches SharedAtomicError::LayoutMismatch ==> code == 102 && final(last)@ == old(last)@,
        e matches SharedAtomicError::IoError(kind) ==> code == 107 && final(last)@ == "io error: "@ + kind@,
{
}

/// Each semaphore error answers with its own code. One with specifics leaves
/// them, and one without leaves what was there. One that comes from beneath
/// answers exactly as it does there.
pub proof fn each_semaphore_error_has_its_code(
    last: &mut LastError,
    other: &mut LastError,
    e: SemaphoreError,
    code: i32,
    beneath: i32,
)
    requires
        call_ensures(semaphore_code, (last, e), code),
        e matches SemaphoreError::Atomic(inner) ==> call_ensures(atomic_code, (other, inner), beneath),
        old(last)@ == old(other)@,
    ensures
        e matches SemaphoreError::WouldBlock ==> code == 126 && final(last)@ == old(last)@,
        e matches SemaphoreError::Timeout ==> code == 11 && final(last)@ == old(last)@,
        e matches SemaphoreError::ReleaseOverflow ==> code == 3
            && final(last)@ == "the release pushed the count past max_permits"@,
        e matches SemaphoreError::Atomic(inner) ==> code == beneath && final(last)@ == final(other)@,
{
}

/// Each rwlock error answers with its own code. One with specifics leaves
/// them, and one without leaves what was there.
pub proof fn each_rwlock_error_has_its_code(last: &mut LastError, e: RWLockError, code: i32)
    requires
        call_ensures(rwlock_code, (last, e), code),
    ensures
        e matches RWLockError::WouldBlock ==> code == 126 && final(last)@ == old(last)@,
        e matches RWLockError::LayoutMismatch ==> code == 102 && final(last)@ == old(last)@,
        e matches RWLockError::IoError(kind) ==> code == 107 && final(last)@ == "io error: "@ + kind@,
{
}

/// Each fence clock error answers with its own code. One with specifics leaves
/// them, and one without leaves what was there.
pub proof fn each_fence_clock_error_has_its_code(last: &mut LastError, e: FenceClockError, code: i32)
    requires
        call_ensures(fence_clock_code, (last, e), code),
    ensures
        e matches FenceClockError::Full ==> code == 128 && final(last)@ == old(last)@,
        e matches FenceClockError::LayoutMismatch ==> code == 102 && final(last)@ == old(last)@,
        e matches FenceClockError::InvalidSlot ==> code == 3
            && final(last)@ == "the slot is not one this clock holds"@,
        e matches FenceClockError::IoError(kind) ==> code == 107 && final(last)@ == "io error: "@ + kind@,
{
}

/// Each epochs error answers with its own code. One with specifics leaves
/// them, and one without leaves what was there.
pub proof fn each_epochs_error_has_its_code(last: &mut LastError, e: EpochError, code: i32)
    requires
        call_ensures(epochs_code, (last, e), code),
    ensures
        e matches EpochError::PinsExhausted ==> code == 124 && final(last)@ == old(last)@,
        e matches EpochError::TicketsExhausted ==> code == 125 && final(last)@ == old(last)@,
        e matches EpochError::LayoutMismatch ==> code == 102 && final(last)@ == old(last)@,
        e matches EpochError::IoError(kind) ==> code == 107 && final(last)@ == "io error: "@ + kind@,
{
}

/// Each cell error answers with its own code. One with specifics leaves them,
/// and one without leaves what was there.
pub proof fn each_cell_error_has_its_code(last: &mut LastError, e: SharedCellError, code: i32)
    requires
        call_ensures(cell_code, (last, e), code),
    ensures
        e matches SharedCellError::LayoutMismatch ==> code == 102 && final(last)@ == old(last)@,
        e matches SharedCellError::PayloadTooLarge ==> code == 103 && final(last)@ == old(last)@,
        e matches SharedCellError::NotInitialized ==> code == 4 && final(last)@ == "the cell holds no value yet"@,
        e matches SharedCellError::IoError(kind) ==> code == 107 && final(last)@ == "io error: "@ + kind@,
{
}

/// Each btree error answers with its own code. One with specifics leaves them,
/// and one without leaves what was there.
pub proof fn each_btree_error_has_its_code(last: &mut LastError, e: BTreeError, code: i32)
    requires
        call_ensures(btree_code, (last, e), code),
    ensures
        e matches BTreeError::Full ==> code == 100
            && final(last)@ == "the map has no node for the split this insert needs"@,
        e matches BTreeError::LayoutMismatch ==> code == 102 && final(last)@ == old(last)@,
        e matches BTreeError::InvalidConfig ==> code == 3
            && final(last)@ == "a key or value is not its declared size, or the capacity is zero"@,
        e matches BTreeError::IoError(kind) ==> code == 107 && final(last)@ == "io error: "@ + kind@,
{
}

/// Each region error answers with its own code. One with specifics leaves
/// them, and one without leaves what was there.
pub proof fn each_region_error_has_its_code(last: &mut LastError, e: RegionError, code: i32)
    requires
        call_ensures(region_code, (last, e), code),
    ensures
        e matches RegionError::Full ==> code == 100 && final(last)@ == old(last)@,
        e matches RegionError::InvalidPtr ==> code == 123 && final(last)@ == old(last)@,
        e matches RegionError::PayloadTooLarge ==> code == 3
            && final(last)@ == "the bytes are not the element size"@,
        e matches RegionError::LayoutMismatch ==> code == 102 && final(last)@ == old(last)@,
        e matches RegionError::IoError(kind) ==> code == 107 && final(last)@ == "io error: "@ + kind@,
{
}

/// Each list error answers with its own code. One with specifics leaves them,
/// and one without leaves what was there. One that comes from beneath answers
/// exactly as it does there.
pub proof fn each_list_error_has_its_code(
    last: &mut LastError,
    other: &mut LastError,
    e: LinkedListError,
    code: i32,
    beneath: i32,
)
    requires
        call_ensures(list_code, (last, e), code),
        e matches LinkedListError::Region(inner) ==> call_ensures(region_code, (other, inner), beneath),
        old(last)@ == old(other)@,
    ensures
        e matches LinkedListError::Region(inner) ==> code == beneath && final(last)@ == final(other)@,
        e matches LinkedListError::InvalidHandle ==> code == 123
            && final(last)@ == "the index names no node of this list"@,
        e matches LinkedListError::LayoutMismatch ==> code == 102 && final(last)@ == old(last)@,
        e matches LinkedListError::IoError(kind) ==> code == 107 && final(last)@ == "io error: "@ + kind@,
{
}

/// Each once error answers with its own code. One with specifics leaves them,
/// and one without leaves what was there.
pub proof fn each_once_error_has_its_code(last: &mut LastError, e: SharedOnceError, code: i32)
    requires
        call_ensures(once_code, (last, e), code),
    ensures
        e matches SharedOnceError::LayoutMismatch ==> code == 102 && final(last)@ == old(last)@,
        e matches SharedOnceError::PayloadTooLarge ==> code == 3
            && final(last)@ == "value_bytes is zero or past what a lazy value holds"@,
        e matches SharedOnceError::IoError(kind) ==> code == 107 && final(last)@ == "io error: "@ + kind@,
{
}

/// Each arc error answers with its own code. One with specifics leaves them,
/// and one without leaves what was there.
pub proof fn each_arc_error_has_its_code(last: &mut LastError, e: ArcError, code: i32)
    requires
        call_ensures(arc_code, (last, e), code),
    ensures
        e matches ArcError::HoldersExhausted ==> code == 131 && final(last)@ == old(last)@,
        e matches ArcError::LayoutMismatch ==> code == 102 && final(last)@ == old(last)@,
        e matches ArcError::IoError(kind) ==> code == 107 && final(last)@ == "io error: "@ + kind@,
{
}

/// Each barrier error answers with its own code. One with specifics leaves
/// them, and one without leaves what was there. One that comes from beneath
/// answers exactly as it does there.
pub proof fn each_barrier_error_has_its_code(
    last: &mut LastError,
    other: &mut LastError,
    e: BarrierError,
    code: i32,
    beneath: i32,
)
    requires
        call_ensures(barrier_code, (last, e), code),
        e matches BarrierError::Atomic(inner) ==> call_ensures(atomic_code, (other, inner), beneath),
        old(last)@ == old(other)@,
    ensures
        e matches BarrierError::Atomic(inner) ==> code == beneath && final(last)@ == final(other)@,
        e matches BarrierError::EpochTooFarBehind ==> code == 130 && final(last)@ == old(last)@,
        e matches BarrierError::Timeout ==> code == 11 && final(last)@ == old(last)@,
        e matches BarrierError::NoLivePeers ==> code == 129 && final(last)@ == old(last)@,
{
}

/// Each vec error answers with its own code. One with specifics leaves them,
/// and one without leaves what was there.
pub proof fn each_vec_error_has_its_code(last: &mut LastError, e: VecError, code: i32)
    requires
        call_ensures(vec_code, (last, e), code),
    ensures
        e matches VecError::Full ==> code == 100 && final(last)@ == old(last)@,
        e matches VecError::OutOfBounds ==> code == 123 && final(last)@ == old(last)@,
        e matches VecError::LayoutMismatch ==> code == 102 && final(last)@ == old(last)@,
        e matches VecError::PayloadTooLarge ==> code == 3 && final(last)@ == "the bytes are not the element size"@,
        e matches VecError::ReadOnly ==> code == 122 && final(last)@ == "the vec was opened read-only"@,
        e matches VecError::IoError(kind) ==> code == 107 && final(last)@ == "io error: "@ + kind@,
{
}

/// Each slab error answers with its own code. One with specifics leaves them,
/// and one without leaves what was there.
pub proof fn each_slab_error_has_its_code(last: &mut LastError, e: SlabError, code: i32)
    requires
        call_ensures(slab_code, (last, e), code),
    ensures
        e matches SlabError::OutOfBounds ==> code == 123 && final(last)@ == old(last)@,
        e matches SlabError::LayoutMismatch ==> code == 102 && final(last)@ == old(last)@,
        e matches SlabError::ReadOnly ==> code == 122 && final(last)@ == "the slab was opened read-only"@,
        e matches SlabError::PayloadTooLarge ==> code == 3 && final(last)@ == "the bytes are not the record size"@,
        e matches SlabError::IoError(kind) ==> code == 107 && final(last)@ == "io error: "@ + kind@,
{
}

/// Each stack error answers with its own code. One with specifics leaves them,
/// and one without leaves what was there.
pub proof fn each_stack_error_has_its_code(last: &mut LastError, e: StackError, code: i32)
    requires
        call_ensures(stack_code, (last, e), code),
    ensures
        e matches StackError::Full ==> code == 100 && final(last)@ == old(last)@,
        e matches StackError::LayoutMismatch ==> code == 102 && final(last)@ == old(last)@,
        e matches StackError::IoError(kind) ==> code == 107 && final(last)@ == "io error: "@ + kind@,
{
}

/// Each deque error answers with its own code. One with specifics leaves them,
/// and one without leaves what was there.
pub proof fn each_deque_error_has_its_code(last: &mut LastError, e: DequeError, code: i32)
    requires
        call_ensures(deque_code, (last, e), code),
    ensures
        e matches DequeError::Io(said) ==> code == 107 && final(last)@ == "io error: "@ + said@,
        e matches DequeError::InvalidCapacity ==> code == 3
            && final(last)@ == "the capacity is not a power of two of at least 1, or the layout is empty or misaligned"@,
        e matches DequeError::InvalidMagic ==> code == 102
            && final(last)@ == "the file is not a deque with this layout"@,
        e matches DequeError::CapacityMismatch { file_capacity, requested } ==> code == 102
            && final(last)@ == "the deque holds "@ + dec(file_capacity as nat) + " slots, not "@
            + dec(requested as nat),
        e matches DequeError::SlotBytesMismatch { file_slot_bytes, type_slot_bytes } ==> code == 102
            && final(last)@ == "the deque's slots are "@ + dec(file_slot_bytes as nat) + " bytes, not "@
            + dec(type_slot_bytes as nat),
        e matches DequeError::Full ==> code == 100 && final(last)@ == old(last)@,
        e matches DequeError::Marshal(said) ==> code == 103 && final(last)@ == said@,
{
}

/// Each adaptive error answers with its own code. One with specifics leaves
/// them, and one without leaves what was there.
pub proof fn each_adaptive_error_has_its_code(last: &mut LastError, e: AdaptiveError, code: i32)
    requires
        call_ensures(adaptive_code, (last, e), code),
    ensures
        e matches AdaptiveError::TooManyProducers ==> code == 108 && final(last)@ == old(last)@,
        e matches AdaptiveError::TooManyConsumers ==> code == 109 && final(last)@ == old(last)@,
        e matches AdaptiveError::GrowthFailed ==> code == 110 && final(last)@ == old(last)@,
{
}

/// Each broadcast error answers with its own code. One with specifics leaves
/// them, and one without leaves what was there.
pub proof fn each_broadcast_error_has_its_code(last: &mut LastError, e: BroadcastError, code: i32)
    requires
        call_ensures(broadcast_code, (last, e), code),
    ensures
        e matches BroadcastError::Full ==> code == 100 && final(last)@ == old(last)@,
        e matches BroadcastError::Empty ==> code == 101 && final(last)@ == old(last)@,
        e matches BroadcastError::NoConsumerSlot ==> code == 113 && final(last)@ == old(last)@,
        e matches BroadcastError::InvalidConsumer ==> code == 114 && final(last)@ == old(last)@,
        e matches BroadcastError::PayloadTooLarge ==> code == 103 && final(last)@ == old(last)@,
        e matches BroadcastError::LayoutMismatch ==> code == 102 && final(last)@ == old(last)@,
        e matches BroadcastError::IoError(kind) ==> code == 107 && final(last)@ == "io error: "@ + kind@,
{
}

/// Data that is not what was expected is another layout and told in its own
/// words; any other failure is one of the system and told with its kind.
pub proof fn a_file_that_is_another_is_told_from_one_that_failed(last: &mut LastError, e: IoFailure, code: i32)
    requires
        call_ensures(io_code, (last, e), code),
    ensures
        code == (if e.invalid_data { 102int } else { 107 }),
        e.invalid_data ==> final(last)@ == e.said@,
        !e.invalid_data ==> final(last)@ == "io error: "@ + e.kind@ + ": "@ + e.said@,
{
}

/// Each capacity error answers with its own code. One with specifics leaves
/// them, and one without leaves what was there. One that comes from beneath
/// answers exactly as it does there.
pub proof fn each_capacity_error_has_its_code(
    last: &mut LastError,
    other: &mut LastError,
    e: CapacityMorphError,
    code: i32,
    beneath: i32,
)
    requires
        call_ensures(capacity_code, (last, e), code),
        e matches CapacityMorphError::Ring(inner) ==> call_ensures(ring_code, (other, inner), beneath),
        e matches CapacityMorphError::Adaptive(inner) ==> call_ensures(adaptive_code, (other, inner), beneath),
        old(last)@ == old(other)@,
    ensures
        e matches CapacityMorphError::InvalidCapacity ==> code == 3
            && final(last)@ == "the capacity is not a power of two of at least 2"@,
        e matches CapacityMorphError::CannotShrinkInFlight { in_flight, new_capacity } ==> code == 106
            && final(last)@ == dec(in_flight as nat) + " items in flight exceed the new capacity "@
            + dec(new_capacity as nat),
        e matches CapacityMorphError::Ring(inner) ==> code == beneath && final(last)@ == final(other)@,
        e matches CapacityMorphError::Adaptive(inner) ==> code == beneath && final(last)@ == final(other)@,
{
}

/// Each broadcast capacity error answers with its own code. One with specifics
/// leaves them, and one without leaves what was there. One that comes from
/// beneath answers exactly as it does there.
pub proof fn each_broadcast_capacity_error_has_its_code(
    last: &mut LastError,
    other: &mut LastError,
    e: BroadcastCapacityMorphError,
    code: i32,
    beneath: i32,
)
    requires
        call_ensures(broadcast_capacity_code, (last, e), code),
        e matches BroadcastCapacityMorphError::Broadcast(inner)
            ==> call_ensures(broadcast_code, (other, inner), beneath),
        e matches BroadcastCapacityMorphError::Io(inner) ==> call_ensures(io_code, (other, inner), beneath),
        old(last)@ == old(other)@,
    ensures
        e matches BroadcastCapacityMorphError::InvalidCapacity ==> code == 3
            && final(last)@ == "the capacity is not a power of two of at least 2"@,
        e matches BroadcastCapacityMorphError::Broadcast(inner) ==> code == beneath && final(last)@ == final(other)@,
        e matches BroadcastCapacityMorphError::Io(inner) ==> code == beneath && final(last)@ == final(other)@,
{
}

/// Each pubsub capacity error answers with its own code. One with specifics
/// leaves them, and one without leaves what was there. One that comes from
/// beneath answers exactly as it does there.
pub proof fn each_pubsub_capacity_error_has_its_code(
    last: &mut LastError,
    other: &mut LastError,
    e: PubSubCapacityMorphError,
    code: i32,
    beneath: i32,
)
    requires
        call_ensures(pubsub_capacity_code, (last, e), code),
        e matches PubSubCapacityMorphError::Io(inner) ==> call_ensures(io_code, (other, inner), beneath),
        old(last)@ == old(other)@,
    ensures
        e matches PubSubCapacityMorphError::InvalidCapacity ==> code == 3
            && final(last)@ == "the capacity is not a power of two of at least 2"@,
        e matches PubSubCapacityMorphError::Io(inner) ==> code == beneath && final(last)@ == final(other)@,
{
}

/// Each blocking error answers with its own code. One with specifics leaves
/// them, and one without leaves what was there. One that comes from beneath
/// answers exactly as it does there.
pub proof fn each_blocking_error_has_its_code(
    last: &mut LastError,
    other: &mut LastError,
    e: BlockingError,
    code: i32,
    beneath: i32,
)
    requires
        call_ensures(blocking_code, (last, e), code),
        e matches BlockingError::Ring(inner) ==> call_ensures(ring_code, (other, inner), beneath),
        old(last)@ == old(other)@,
    ensures
        e matches BlockingError::Ring(inner) ==> code == beneath && final(last)@ == final(other)@,
        e matches BlockingError::WakerFull ==> code == 111 && final(last)@ == old(last)@,
        e matches BlockingError::Timeout ==> code == 11 && final(last)@ == old(last)@,
        e matches BlockingError::WakerLayout ==> code == 112 && final(last)@ == old(last)@,
        e matches BlockingError::Io(kind) ==> code == 107 && final(last)@ == "io error: "@ + kind@,
{
}

/// Each waker error answers with its own code. One with specifics leaves them,
/// and one without leaves what was there.
pub proof fn each_waker_error_has_its_code(last: &mut LastError, e: WakerError, code: i32)
    requires
        call_ensures(waker_code, (last, e), code),
    ensures
        e matches WakerError::Full ==> code == 111 && final(last)@ == old(last)@,
        e matches WakerError::Timeout ==> code == 11 && final(last)@ == old(last)@,
        e matches WakerError::LayoutMismatch ==> code == 112 && final(last)@ == old(last)@,
        e matches WakerError::IoError(kind) ==> code == 107 && final(last)@ == "waker io error: "@ + kind@,
{
}

} // verus!
