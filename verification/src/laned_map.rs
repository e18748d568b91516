//! The shared laned versioned map: one versioned tree per lane over a shared
//! epoch table, so several writers make progress at once while readers scan
//! every lane at one pinned moment.
//!
//! A statement claims a lane, writes through it and releases it. A key
//! belongs to one lane for its whole life, so a removal aimed at the wrong
//! lane is refused naming the lane that holds it.
//!
//! A range yields one page ending at the smallest last key any lane
//! reported, and reports that frontier so the caller can resume past it.

use vstd::prelude::*;

use crate::arguments::{copy_front, given, invalid_argument, reading};
use crate::error::{
    answers, answers_code, bare, fail, told, LastError, Refused, Report, SUBETHA_E_BUFFER_TOO_SMALL,
    SUBETHA_E_INVALID_ARGUMENT, SUBETHA_E_MAP_KEY_ABSENT, SUBETHA_E_RING_IO,
    SUBETHA_E_RING_LAYOUT_MISMATCH, SUBETHA_E_WOULD_BLOCK, SUBETHA_E_WRONG_KIND, SUBETHA_OK,
};
use crate::handle::Object;
use crate::text::{dec, push_dec};

verus! {

/// A snapshot of a shared laned versioned map.
#[allow(non_camel_case_types)]
#[derive(Clone, Copy, Default, Debug, PartialEq, Eq)]
pub struct subetha_laned_map_stats {
    /// The mode this handle was created in.
    pub mode: u32,
    /// Lanes the map holds.
    pub lanes: u32,
    /// Lanes a statement is holding right now.
    pub held_lanes: u32,
    /// Entries across every lane, tombstones not yet reclaimed included.
    pub len: u64,
    /// Bytes a key takes.
    pub key_size: u64,
    /// Bytes a value takes.
    pub value_size: u64,
    /// The epoch the shared table stands at now.
    pub epoch: u64,
}

/// What a laned map refuses with.
#[derive(Debug)]
pub enum LanedError {
    /// Every lane is held.
    NoFreeLane,
    /// The lane of the key is held.
    LaneBusy(u64),
    /// No lane holds the key.
    KeyAbsent,
    /// Another lane holds the key.
    KeyInAnotherLane(u64),
    /// A backing exists with another layout.
    LayoutMismatch,
    /// A lane refused; its text.
    Versioned(String),
    /// The epoch table refused; its text.
    Epochs(String),
    /// The OS refused; the kind of the refusal.
    Io(String),
}

/// What `code_for` answers.
pub open spec fn code_for_report(e: LanedError) -> Report {
    match e {
        LanedError::NoFreeLane => told(SUBETHA_E_WOULD_BLOCK, "every lane is held by another statement"@),
        LanedError::LaneBusy(lane) => told(SUBETHA_E_WOULD_BLOCK, "lane "@ + dec(lane as nat) + " holds this key and another statement holds the lane"@),
        LanedError::KeyAbsent => bare(SUBETHA_E_MAP_KEY_ABSENT),
        LanedError::KeyInAnotherLane(lane) => told(SUBETHA_E_WRONG_KIND, "the key is in lane "@ + dec(lane as nat) + "; it must be removed there"@),
        LanedError::LayoutMismatch => told(SUBETHA_E_RING_LAYOUT_MISMATCH, "the map on disk was built with another shape"@),
        LanedError::Versioned(said) => told(SUBETHA_E_RING_IO, "lane: "@ + said@),
        LanedError::Epochs(said) => told(SUBETHA_E_RING_IO, "epoch table: "@ + said@),
        LanedError::Io(kind) => told(SUBETHA_E_RING_IO, "claims file: "@ + kind@),
    }
}

/// The map from a laned map's error to the code that names it.
pub fn code_for(last: &mut LastError, e: LanedError) -> (code: i32)
    ensures
        answers_code(code, code_for_report(e), old(last)@, final(last)@),
{
    match e {
        LanedError::NoFreeLane => fail(last, SUBETHA_E_WOULD_BLOCK, "every lane is held by another statement"),
        LanedError::LaneBusy(lane) => {
            let mut text: String = String::from_str("lane ");
            push_dec(&mut text, lane);
            text.append(" holds this key and another statement holds the lane");
            fail(last, SUBETHA_E_WOULD_BLOCK, text.as_str())
        },
        LanedError::KeyAbsent => SUBETHA_E_MAP_KEY_ABSENT,
        LanedError::KeyInAnotherLane(lane) => {
            let mut text: String = String::from_str("the key is in lane ");
            push_dec(&mut text, lane);
            text.append("; it must be removed there");
            fail(last, SUBETHA_E_WRONG_KIND, text.as_str())
        },
        LanedError::LayoutMismatch => fail(last, SUBETHA_E_RING_LAYOUT_MISMATCH, "the map on disk was built with another shape"),
        LanedError::Versioned(said) => {
            let mut text: String = String::from_str("lane: ");
            text.append(said.as_str());
            fail(last, SUBETHA_E_RING_IO, text.as_str())
        },
        LanedError::Epochs(said) => {
            let mut text: String = String::from_str("epoch table: ");
            text.append(said.as_str());
            fail(last, SUBETHA_E_RING_IO, text.as_str())
        },
        LanedError::Io(kind) => {
            let mut text: String = String::from_str("claims file: ");
            text.append(kind.as_str());
            fail(last, SUBETHA_E_RING_IO, text.as_str())
        },
    }
}

/// The payload behind a laned map's handle.
pub fn with_laned<'a, P>(last: &mut LastError, object: &'a Object<P>) -> (payload: Result<&'a P, i32>)
    ensures
        answers(
            payload,
            match *object {
                Object::LanedMap(p) => Ok(&p),
                _ => Err(told(SUBETHA_E_WRONG_KIND, "the handle does not name a laned map"@)),
            },
            old(last)@,
            final(last)@,
        ),
{
    match object {
        Object::LanedMap(p) => Ok(p),
        _ => Err(fail(last, SUBETHA_E_WRONG_KIND, "the handle does not name a laned map")),
    }
}

/// What [`read_arguments`] answers.
pub open spec fn read_arguments_outcome<'a>(
    initialized: Result<(), Refused>,
    out_null: bool,
    dir: Result<&'a str, Refused>,
    lanes: u32,
    nodes_per_lane: u64,
    key_size: usize,
    value_size: usize,
    max_pins: u64,
    mode: Result<u32, Refused>,
) -> Result<(&'a str, usize, usize, usize, u32), Report> {
    if initialized is Err {
        Err(initialized->Err_0.report())
    } else if out_null {
        Err(invalid_argument("out is null"@))
    } else if dir is Err {
        Err(dir->Err_0.report())
    } else if lanes == 0 {
        Err(invalid_argument("lanes is zero"@))
    } else if nodes_per_lane == 0 {
        Err(invalid_argument("nodes_per_lane is zero"@))
    } else if key_size == 0 {
        Err(invalid_argument("key_size is zero"@))
    } else if value_size == 0 {
        Err(invalid_argument("value_size is zero"@))
    } else if max_pins == 0 {
        Err(invalid_argument("max_pins is zero"@))
    } else if mode is Err {
        Err(mode->Err_0.report())
    } else {
        Ok((dir->Ok_0, lanes as usize, nodes_per_lane as usize, max_pins as usize, mode->Ok_0))
    }
}

/// The arguments every constructor reads, in order, so the first refusal
/// names the argument at fault.
pub fn read_arguments<'a>(
    last: &mut LastError,
    initialized: Result<(), Refused>,
    out_null: bool,
    dir: Result<&'a str, Refused>,
    lanes: u32,
    nodes_per_lane: u64,
    key_size: usize,
    value_size: usize,
    max_pins: u64,
    mode: Result<u32, Refused>,
) -> (read: Result<(&'a str, usize, usize, usize, u32), i32>)
    ensures
        answers(
            read,
            read_arguments_outcome(initialized, out_null, dir, lanes, nodes_per_lane, key_size, value_size, max_pins, mode),
            old(last)@,
            final(last)@,
        ),
{
    if let Err(code) = given(last, initialized) {
        return Err(code);
    }
    if out_null {
        return Err(fail(last, SUBETHA_E_INVALID_ARGUMENT, "out is null"));
    }
    let dir: &'a str = match given(last, dir) {
        Ok(dir) => dir,
        Err(code) => {
            return Err(code);
        },
    };
    if lanes == 0 {
        return Err(fail(last, SUBETHA_E_INVALID_ARGUMENT, "lanes is zero"));
    }
    if nodes_per_lane == 0 {
        return Err(fail(last, SUBETHA_E_INVALID_ARGUMENT, "nodes_per_lane is zero"));
    }
    if key_size == 0 {
        return Err(fail(last, SUBETHA_E_INVALID_ARGUMENT, "key_size is zero"));
    }
    if value_size == 0 {
        return Err(fail(last, SUBETHA_E_INVALID_ARGUMENT, "value_size is zero"));
    }
    if max_pins == 0 {
        return Err(fail(last, SUBETHA_E_INVALID_ARGUMENT, "max_pins is zero"));
    }
    let mode: u32 = match given(last, mode) {
        Ok(mode) => mode,
        Err(code) => {
            return Err(code);
        },
    };
    Ok((dir, lanes as usize, nodes_per_lane as usize, max_pins as usize, mode))
}

/// Make the object for a laned map that was built or opened, or answer with why
/// it could not be.
pub fn place<P>(last: &mut LastError, opened: Result<P, LanedError>) -> (object: Result<Object<P>, i32>)
    ensures
        answers(
            object,
            match opened {
                Ok(p) => Ok(Object::LanedMap(p)),
                Err(e) => Err(code_for_report(e)),
            },
            old(last)@,
            final(last)@,
        ),
{
    match opened {
        Ok(p) => Ok(Object::LanedMap(p)),
        Err(e) => Err(code_for(last, e)),
    }
}

/// What a call on a laned map answers, given how it went: its value, or the
/// code its error maps to.
pub fn outcome<T>(last: &mut LastError, went: Result<T, LanedError>) -> (answer: Result<T, i32>)
    ensures
        answers(
            answer,
            match went {
                Ok(value) => Ok(value),
                Err(e) => Err(code_for_report(e)),
            },
            old(last)@,
            final(last)@,
        ),
{
    match went {
        Ok(value) => Ok(value),
        Err(e) => Err(code_for(last, e)),
    }
}

/// The lane a claim of any lane took.
pub fn subetha_laned_map_claim_lane(
    last: &mut LastError,
    claimed: Option<usize>,
) -> (answer: Result<u32, i32>)
    ensures
        answers(
            answer,
            match claimed {
                Some(lane) => Ok(lane as u32),
                None => Err(code_for_report(LanedError::NoFreeLane)),
            },
            old(last)@,
            final(last)@,
        ),
{
    match claimed {
        Some(lane) => Ok(lane as u32),
        None => Err(code_for(last, LanedError::NoFreeLane)),
    }
}

/// What a key argument with somewhere to write a lane answers.
pub open spec fn lane_key_outcome<'a>(
    out_lane_null: bool,
    key_len: usize,
    key_size: usize,
    key: Result<&'a [u8], Refused>,
) -> Result<&'a [u8], Report> {
    if out_lane_null {
        Err(invalid_argument("out_lane is null"@))
    } else if key_len != key_size {
        Err(invalid_argument("a key is "@ + dec(key_size as nat) + " bytes, not "@ + dec(key_len as nat)))
    } else {
        reading(key)
    }
}

/// A key argument with somewhere to write a lane, checked in order.
pub fn lane_key<'a>(
    last: &mut LastError,
    out_lane_null: bool,
    key_len: usize,
    key_size: usize,
    key: Result<&'a [u8], Refused>,
) -> (bytes: Result<&'a [u8], i32>)
    ensures
        answers(bytes, lane_key_outcome(out_lane_null, key_len, key_size, key), old(last)@, final(last)@),
{
    if out_lane_null {
        return Err(fail(last, SUBETHA_E_INVALID_ARGUMENT, "out_lane is null"));
    }
    if key_len != key_size {
        return Err(key_is(last, key_size, key_len));
    }
    given(last, key)
}

/// Refuse a key of another length.
fn key_is(last: &mut LastError, key_size: usize, key_len: usize) -> (code: i32)
    ensures
        answers_code(
            code,
            invalid_argument("a key is "@ + dec(key_size as nat) + " bytes, not "@ + dec(key_len as nat)),
            old(last)@,
            final(last)@,
        ),
{
    let mut text: String = String::from_str("a key is ");
    push_dec(&mut text, key_size as u64);
    text.append(" bytes, not ");
    push_dec(&mut text, key_len as u64);
    fail(last, SUBETHA_E_INVALID_ARGUMENT, text.as_str())
}

/// The lane holding a key, from a search of every lane; an absent key is no
/// failure of the search.
pub fn subetha_laned_map_lane_of(last: &mut LastError, found: Result<Option<usize>, LanedError>) -> (lane: Result<
    usize,
    i32,
>)
    ensures
        answers(
            lane,
            match found {
                Ok(Some(lane)) => Ok(lane),
                Ok(None) => Err(bare(SUBETHA_E_MAP_KEY_ABSENT)),
                Err(e) => Err(code_for_report(e)),
            },
            old(last)@,
            final(last)@,
        ),
{
    match found {
        Ok(Some(lane)) => Ok(lane),
        Ok(None) => Err(SUBETHA_E_MAP_KEY_ABSENT),
        Err(e) => Err(code_for(last, e)),
    }
}

/// What claiming the lane that owns a key answers, once the search named it
/// and the claim was tried: a lane another statement holds is for the caller
/// to retry rather than to write elsewhere, because elsewhere is a different
/// tree.
pub fn subetha_laned_map_claim_lane_for(last: &mut LastError, lane: usize, won: bool) -> (claimed: Result<u32, i32>)
    ensures
        answers(
            claimed,
            if won {
                Ok(lane as u32)
            } else {
                Err(code_for_report(LanedError::LaneBusy(lane as u64)))
            },
            old(last)@,
            final(last)@,
        ),
{
    if won {
        Ok(lane as u32)
    } else {
        Err(code_for(last, LanedError::LaneBusy(lane as u64)))
    }
}

/// The lane a release names.
pub fn subetha_laned_map_release_lane(
    last: &mut LastError,
    lanes: usize,
    lane: u32,
) -> (answer: Result<usize, i32>)
    ensures
        answers(
            answer,
            if lane as usize >= lanes {
                Err(invalid_argument("that lane index is past the last lane"@))
            } else {
                Ok(lane as usize)
            },
            old(last)@,
            final(last)@,
        ),
{
    if lane as usize >= lanes {
        return Err(fail(last, SUBETHA_E_INVALID_ARGUMENT, "that lane index is past the last lane"));
    }
    Ok(lane as usize)
}

/// The sizes an insert has to have.
pub fn insert_sizes(
    last: &mut LastError,
    key_len: usize,
    value_len: usize,
    key_size: usize,
    value_size: usize,
) -> (answer: Result<(), i32>)
    ensures
        answers(
            answer,
            if key_len != key_size || value_len != value_size {
                Err(invalid_argument("a key is "@ + dec(key_size as nat) + " bytes and a value "@ + dec(value_size as nat) + ", not "@ + dec(key_len as nat) + " and "@ + dec(value_len as nat)))
            } else {
                Ok(())
            },
            old(last)@,
            final(last)@,
        ),
{
    if key_len != key_size || value_len != value_size {
        let mut text: String = String::from_str("a key is ");
        push_dec(&mut text, key_size as u64);
        text.append(" bytes and a value ");
        push_dec(&mut text, value_size as u64);
        text.append(", not ");
        push_dec(&mut text, key_len as u64);
        text.append(" and ");
        push_dec(&mut text, value_len as u64);
        return Err(fail(last, SUBETHA_E_INVALID_ARGUMENT, text.as_str()));
    }
    Ok(())
}

/// What reading a value into a caller's buffer has to check first, in order:
/// the code or the key's bytes, and the length to report, which is reported
/// as soon as the key's length is right, whether or not the buffer takes it.
pub open spec fn value_outcome<'a>(
    out_len_null: bool,
    key_len: usize,
    key_size: usize,
    value_size: usize,
    out_null: bool,
    cap: usize,
    key: Result<&'a [u8], Refused>,
) -> (Result<&'a [u8], Report>, Option<usize>) {
    if out_len_null {
        (Err(invalid_argument("out_len is null"@)), None)
    } else if key_len != key_size {
        (
            Err(invalid_argument("a key is "@ + dec(key_size as nat) + " bytes, not "@ + dec(key_len as nat))),
            None,
        )
    } else if out_null || cap < value_size {
        (Err(bare(SUBETHA_E_BUFFER_TOO_SMALL)), Some(value_size))
    } else {
        (reading(key), Some(value_size))
    }
}

/// The arguments of a get or a remove, checked in order: the key's bytes or
/// the code, and the length to report.
pub fn value_arguments<'a>(
    last: &mut LastError,
    out_len_null: bool,
    key_len: usize,
    key_size: usize,
    value_size: usize,
    out_null: bool,
    cap: usize,
    key: Result<&'a [u8], Refused>,
) -> (read: (Result<&'a [u8], i32>, Option<usize>))
    ensures
        answers(
            read.0,
            value_outcome(out_len_null, key_len, key_size, value_size, out_null, cap, key).0,
            old(last)@,
            final(last)@,
        ),
        read.1 == value_outcome(out_len_null, key_len, key_size, value_size, out_null, cap, key).1,
{
    if out_len_null {
        return (Err(fail(last, SUBETHA_E_INVALID_ARGUMENT, "out_len is null")), None);
    }
    if key_len != key_size {
        return (Err(key_is(last, key_size, key_len)), None);
    }
    if out_null || cap < value_size {
        return (Err(SUBETHA_E_BUFFER_TOO_SMALL), Some(value_size));
    }
    (given(last, key), Some(value_size))
}

/// What a get or a remove answers: an absent key has no entry.
pub fn found(last: &mut LastError, went: Result<bool, LanedError>) -> (answer: Result<(), i32>)
    ensures
        answers(
            answer,
            match went {
                Ok(true) => Ok(()),
                Ok(false) => Err(bare(SUBETHA_E_MAP_KEY_ABSENT)),
                Err(e) => Err(code_for_report(e)),
            },
            old(last)@,
            final(last)@,
        ),
{
    match went {
        Ok(true) => Ok(()),
        Ok(false) => Err(SUBETHA_E_MAP_KEY_ABSENT),
        Err(e) => Err(code_for(last, e)),
    }
}

/// The arguments of a range, checked in order: where to report the page, and
/// the frontier to resume past, where there is one.
pub fn range_arguments<'a>(
    last: &mut LastError,
    out_len_null: bool,
    out_count_null: bool,
    out_has_frontier_null: bool,
    after: Option<Result<&'a [u8], Refused>>,
) -> (low: Result<Option<&'a [u8]>, i32>)
    ensures
        answers(
            low,
            if out_len_null || out_count_null || out_has_frontier_null {
                Err(invalid_argument("an out pointer is null"@))
            } else {
                match after {
                    None => Ok(None),
                    Some(Ok(key)) => Ok(Some(key)),
                    Some(Err(refusal)) => Err(refusal.report()),
                }
            },
            old(last)@,
            final(last)@,
        ),
{
    if out_len_null || out_count_null || out_has_frontier_null {
        return Err(fail(last, SUBETHA_E_INVALID_ARGUMENT, "an out pointer is null"));
    }
    match after {
        None => Ok(None),
        Some(read) => match given(last, read) {
            Ok(key) => Ok(Some(key)),
            Err(code) => Err(code),
        },
    }
}

/// Rows packed one after another: key bytes then value bytes per entry.
pub open spec fn packed(rows: Seq<(Vec<u8>, Vec<u8>)>) -> Seq<u8>
    decreases rows.len(),
{
    if rows.len() == 0 {
        seq![]
    } else {
        packed(rows.drop_last()) + rows.last().0@ + rows.last().1@
    }
}

/// Whether every row is of the sizes a map was made with.
pub open spec fn sized(rows: Seq<(Vec<u8>, Vec<u8>)>, key_size: usize, value_size: usize) -> bool {
    forall|i: int|
        0 <= i < rows.len() ==> (#[trigger] rows[i]).0@.len() == key_size && rows[i].1@.len() == value_size
}

/// Packed rows take one stride each.
pub proof fn packed_rows_take_a_stride_each(rows: Seq<(Vec<u8>, Vec<u8>)>, key_size: usize, value_size: usize)
    requires
        sized(rows, key_size, value_size),
    ensures
        packed(rows).len() == rows.len() * (key_size + value_size),
    decreases rows.len(),
{
    if rows.len() > 0 {
        packed_rows_take_a_stride_each(rows.drop_last(), key_size, value_size);
        let n = rows.len() as int;
        let stride = key_size + value_size;
        assert((n - 1) * stride + stride == n * stride) by (nonlinear_arith);
    }
}

/// The row at `i` of a packed page begins `i` strides in: its key, then its
/// value.
pub proof fn a_packed_row_is_found_at_its_stride(
    rows: Seq<(Vec<u8>, Vec<u8>)>,
    key_size: usize,
    value_size: usize,
    i: int,
)
    requires
        sized(rows, key_size, value_size),
        0 <= i < rows.len(),
    ensures
        ({
            let at = i * (key_size + value_size);
            &&& 0 <= at
            &&& at + key_size + value_size <= packed(rows).len()
            &&& packed(rows).subrange(at, at + key_size) == rows[i].0@
            &&& packed(rows).subrange(at + key_size, at + key_size + value_size) == rows[i].1@
        }),
    decreases rows.len(),
{
    let front = rows.drop_last();
    let stride = key_size + value_size;
    packed_rows_take_a_stride_each(rows, key_size, value_size);
    packed_rows_take_a_stride_each(front, key_size, value_size);
    let at = i * stride;
    assert(0 <= at) by (nonlinear_arith)
        requires
            at == i * stride,
            i >= 0,
            stride >= 0,
    ;
    assert(packed(rows).len() == packed(front).len() + stride);
    if i < front.len() {
        a_packed_row_is_found_at_its_stride(front, key_size, value_size, i);
        assert(front[i] == rows[i]);
        assert(packed(rows).subrange(at, at + key_size) =~= packed(front).subrange(at, at + key_size));
        assert(packed(rows).subrange(at + key_size, at + stride) =~= packed(front).subrange(
            at + key_size,
            at + stride,
        ));
    } else {
        assert(at == packed(front).len());
        assert(packed(rows).subrange(at, at + key_size) =~= rows[i].0@);
        assert(packed(rows).subrange(at + key_size, at + stride) =~= rows[i].1@);
    }
}

/// Whether key `a` comes before key `b`, byte by byte from the front.
pub open spec fn comes_before(a: Seq<u8>, b: Seq<u8>) -> bool
    decreases a.len(),
{
    if b.len() == 0 {
        false
    } else if a.len() == 0 {
        true
    } else if a[0] != b[0] {
        a[0] < b[0]
    } else {
        comes_before(a.skip(1), b.skip(1))
    }
}

proof fn key_order_carries_over(a: Seq<u8>, b: Seq<u8>, c: Seq<u8>)
    requires
        comes_before(a, b),
        comes_before(b, c),
    ensures
        comes_before(a, c),
    decreases a.len(),
{
    if a.len() > 0 && a[0] == b[0] && b[0] == c[0] {
        key_order_carries_over(a.skip(1), b.skip(1), c.skip(1));
    }
}

/// Whether the keys of `rows` strictly ascend.
pub open spec fn ascending(rows: Seq<(Vec<u8>, Vec<u8>)>) -> bool {
    forall|i: int, j: int|
        0 <= i < j < rows.len() ==> comes_before((#[trigger] rows[i]).0@, (#[trigger] rows[j]).0@)
}

/// Whether `key` is past `low`; every key is where there is no such bound.
pub open spec fn is_past(low: Option<Seq<u8>>, key: Seq<u8>) -> bool {
    low matches Some(bound) ==> comes_before(bound, key)
}

/// The rows of `entries` past `low` and at or below `high`, in order; a bound
/// that is not there keeps nothing out.
pub open spec fn rows_between(
    entries: Seq<(Vec<u8>, Vec<u8>)>,
    low: Option<Seq<u8>>,
    high: Option<Seq<u8>>,
) -> Seq<(Vec<u8>, Vec<u8>)>
    decreases entries.len(),
{
    if entries.len() == 0 {
        seq![]
    } else {
        let front = rows_between(entries.drop_last(), low, high);
        let key = entries.last().0@;
        if is_past(low, key) && !(high is Some && is_past(high, key)) {
            front.push(entries.last())
        } else {
            front
        }
    }
}

/// The rows of a range are entries past the bound it resumed from and at or
/// below the frontier it reached, and their keys ascend where the entries'
/// do.
pub proof fn rows_between_bounds_are_in_key_order(
    entries: Seq<(Vec<u8>, Vec<u8>)>,
    low: Option<Seq<u8>>,
    high: Option<Seq<u8>>,
)
    requires
        ascending(entries),
    ensures
        ascending(rows_between(entries, low, high)),
        forall|k: int|
            0 <= k < rows_between(entries, low, high).len() ==> {
                let row = #[trigger] rows_between(entries, low, high)[k];
                entries.contains(row) && is_past(low, row.0@) && !(high is Some && is_past(high, row.0@))
            },
    decreases entries.len(),
{
    if entries.len() > 0 {
        let rest = entries.drop_last();
        let rows = rows_between(entries, low, high);
        let front = rows_between(rest, low, high);
        rows_between_bounds_are_in_key_order(rest, low, high);
        let last = entries.len() - 1;
        assert(entries[last] == entries.last());
        assert forall|k: int| 0 <= k < front.len() implies entries.contains(#[trigger] front[k]) && comes_before(
            front[k].0@,
            entries.last().0@,
        ) by {
            assert(rest.contains(front[k]));
            let at = choose|at: int| 0 <= at < rest.len() && rest[at] == front[k];
            assert(entries[at] == front[k]);
        }
        assert forall|k: int| 0 <= k < rows.len() implies {
            let row = #[trigger] rows[k];
            entries.contains(row) && is_past(low, row.0@) && !(high is Some && is_past(high, row.0@))
        } by {
            if k < front.len() {
                assert(rows[k] == front[k]);
            }
        }
        assert forall|i: int, j: int| 0 <= i < j < rows.len() implies comes_before(
            (#[trigger] rows[i]).0@,
            (#[trigger] rows[j]).0@,
        ) by {
            assert(rows[i] == front[i]);
            if j < front.len() {
                assert(rows[j] == front[j]);
            }
        }
    }
}

proof fn nothing_is_past_a_bound_at_the_end(entries: Seq<(Vec<u8>, Vec<u8>)>, bound: Seq<u8>)
    requires
        forall|i: int| 0 <= i < entries.len() ==> !comes_before(bound, (#[trigger] entries[i]).0@),
    ensures
        rows_between(entries, Some(bound), None) == Seq::<(Vec<u8>, Vec<u8>)>::empty(),
    decreases entries.len(),
{
    if entries.len() > 0 {
        nothing_is_past_a_bound_at_the_end(entries.drop_last(), bound);
        assert(!comes_before(bound, entries[entries.len() - 1].0@));
    }
}

/// A page up to a frontier and what is past that frontier make up what was
/// left before the page: nothing is left out between them and nothing comes
/// twice.
pub proof fn a_page_and_what_is_past_it_are_all_that_was_left(
    entries: Seq<(Vec<u8>, Vec<u8>)>,
    low: Option<Seq<u8>>,
    frontier: Seq<u8>,
)
    requires
        ascending(entries),
        is_past(low, frontier) || low == Some(frontier),
    ensures
        rows_between(entries, low, Some(frontier)) + rows_between(entries, Some(frontier), None) == rows_between(
            entries,
            low,
            None,
        ),
    decreases entries.len(),
{
    if entries.len() > 0 {
        let rest = entries.drop_last();
        let key = entries.last().0@;
        a_page_and_what_is_past_it_are_all_that_was_left(rest, low, frontier);
        if comes_before(frontier, key) {
            if low is Some && low != Some(frontier) {
                key_order_carries_over(low->Some_0, frontier, key);
            }
        } else {
            assert forall|i: int| 0 <= i < rest.len() implies !comes_before(frontier, (#[trigger] rest[i]).0@) by {
                assert(comes_before(entries[i].0@, entries[entries.len() - 1].0@));
                if comes_before(frontier, rest[i].0@) {
                    key_order_carries_over(frontier, rest[i].0@, key);
                }
            }
            nothing_is_past_a_bound_at_the_end(rest, frontier);
        }
        assert(rows_between(entries, low, Some(frontier)) + rows_between(entries, Some(frontier), None)
            =~= rows_between(entries, low, None));
    } else {
        assert(rows_between(entries, low, Some(frontier)) + rows_between(entries, Some(frontier), None)
            =~= rows_between(entries, low, None));
    }
}

/// The rows of a walk from `low` that stopped at each of `frontiers` in turn
/// and then reached the end, one page after another.
pub open spec fn walked(
    entries: Seq<(Vec<u8>, Vec<u8>)>,
    low: Option<Seq<u8>>,
    frontiers: Seq<Seq<u8>>,
) -> Seq<(Vec<u8>, Vec<u8>)>
    decreases frontiers.len(),
{
    if frontiers.len() == 0 {
        rows_between(entries, low, None)
    } else {
        rows_between(entries, low, Some(frontiers[0])) + walked(entries, Some(frontiers[0]), frontiers.skip(1))
    }
}

/// A walk that resumes each page past the frontier of the one before, until a
/// page has none, gives every entry exactly once and in key order, wherever
/// the frontiers fall, as long as they ascend and no entry changes meanwhile.
pub proof fn a_walk_of_pages_gives_every_entry_once(
    entries: Seq<(Vec<u8>, Vec<u8>)>,
    low: Option<Seq<u8>>,
    frontiers: Seq<Seq<u8>>,
)
    requires
        ascending(entries),
        frontiers.len() > 0 ==> is_past(low, frontiers[0]) || low == Some(frontiers[0]),
        forall|i: int|
            0 <= i < frontiers.len() - 1 ==> comes_before(#[trigger] frontiers[i], frontiers[i + 1]),
    ensures
        walked(entries, low, frontiers) == rows_between(entries, low, None),
        low is None ==> walked(entries, low, frontiers) == entries,
    decreases frontiers.len(),
{
    if frontiers.len() > 0 {
        let rest = frontiers.skip(1);
        if rest.len() > 0 {
            assert(comes_before(frontiers[0], frontiers[0int + 1]));
            assert(rest[0] == frontiers[1]);
        }
        assert forall|i: int| 0 <= i < rest.len() - 1 implies comes_before(#[trigger] rest[i], rest[i + 1]) by {
            assert(comes_before(frontiers[i + 1], frontiers[i + 1 + 1]));
        }
        a_walk_of_pages_gives_every_entry_once(entries, Some(frontiers[0]), rest);
        a_page_and_what_is_past_it_are_all_that_was_left(entries, low, frontiers[0]);
    }
    if low is None {
        no_bounds_leave_nothing_out(entries);
    }
}

proof fn no_bounds_leave_nothing_out(entries: Seq<(Vec<u8>, Vec<u8>)>)
    ensures
        rows_between(entries, None, None) == entries,
    decreases entries.len(),
{
    if entries.len() > 0 {
        no_bounds_leave_nothing_out(entries.drop_last());
        assert(rows_between(entries, None, None) =~= entries);
    } else {
        assert(rows_between(entries, None, None) =~= entries);
    }
}

/// What one page of a range comes to.
#[derive(Clone, Copy, Debug, PartialEq, Eq, Structural)]
pub struct Page {
    /// The code.
    pub code: i32,
    /// Bytes the page takes.
    pub len: usize,
    /// Entries in the page.
    pub count: usize,
    /// Whether the page reached a frontier to resume past.
    pub has_frontier: bool,
}

/// Hand one page of entries back, packed into `out` as key bytes then value
/// bytes per entry, and the frontier it reached into `out_frontier` where
/// both are there. The sizes are reported whether or not the page fits, and
/// nothing is written when it does not.
pub fn subetha_laned_map_range(
    rows: &Vec<(Vec<u8>, Vec<u8>)>,
    frontier: &Option<Vec<u8>>,
    key_size: usize,
    value_size: usize,
    out_null: bool,
    out: &mut [u8],
    out_frontier_null: bool,
    out_frontier: &mut [u8],
) -> (page: Page)
    requires
        sized(rows@, key_size, value_size),
        key_size + value_size <= usize::MAX,
        rows@.len() * (key_size + value_size) <= usize::MAX,
        frontier matches Some(f) ==> f@.len() == key_size,
        !out_frontier_null ==> old(out_frontier)@.len() == key_size,
    ensures
        page == (Page {
            code: if out_null || old(out)@.len() < packed(rows@).len() {
                SUBETHA_E_BUFFER_TOO_SMALL
            } else {
                SUBETHA_OK
            },
            len: (rows@.len() * (key_size + value_size)) as usize,
            count: rows@.len() as usize,
            has_frontier: frontier is Some,
        }),
        page.len == packed(rows@).len(),
        page.count == rows@.len(),
        page.code == SUBETHA_OK ==> final(out)@ == packed(rows@) + old(out)@.skip(packed(rows@).len() as int),
        page.code != SUBETHA_OK ==> final(out)@ == old(out)@,
        final(out_frontier)@ == if page.code == SUBETHA_OK && frontier is Some && !out_frontier_null {
            frontier->Some_0@
        } else {
            old(out_frontier)@
        },
{
    let stride: usize = key_size + value_size;
    let n: usize = rows.len();
    proof {
        packed_rows_take_a_stride_each(rows@, key_size, value_size);
    }
    let needed: usize = n * stride;
    let has_frontier: bool = frontier.is_some();
    if out_null || out.len() < needed {
        return Page { code: SUBETHA_E_BUFFER_TOO_SMALL, len: needed, count: n, has_frontier };
    }
    let mut i: usize = 0;
    let mut at: usize = 0;
    assert(packed(rows@.take(0)) =~= seq![]);
    while i < n
        invariant
            i <= n,
            n == rows@.len(),
            stride == key_size + value_size,
            sized(rows@, key_size, value_size),
            at == packed(rows@.take(i as int)).len(),
            at == i * stride,
            n * stride <= out@.len() <= usize::MAX,
            out@.len() == old(out)@.len(),
            forall|k: int| 0 <= k < at ==> out@[k] == packed(rows@.take(i as int))[k],
            forall|k: int| at <= k < out@.len() ==> out@[k] == old(out)@[k],
        decreases n - i,
    {
        let ghost done = packed(rows@.take(i as int));
        proof {
            assert(rows@.take(i + 1).drop_last() =~= rows@.take(i as int));
            assert((i + 1) * stride <= n * stride) by (nonlinear_arith)
                requires
                    i + 1 <= n,
            ;
            assert((i + 1) * stride == i * stride + stride) by (nonlinear_arith);
        }
        let row: &(Vec<u8>, Vec<u8>) = &rows[i];
        assert(*row == rows@[i as int]);
        write_at(out, at, row.0.as_slice());
        write_at(out, at + key_size, row.1.as_slice());
        proof {
            let next = packed(rows@.take(i + 1));
            assert(next == done + row.0@ + row.1@);
            assert forall|k: int| 0 <= k < at + stride implies out@[k] == next[k] by {
                if k < at {
                } else if k < at + key_size {
                    assert(next[k] == row.0@[k - at]);
                } else {
                    assert(next[k] == row.1@[k - at - key_size]);
                }
            }
        }
        at = at + stride;
        i += 1;
    }
    assert(rows@.take(i as int) =~= rows@);
    assert(out@ =~= packed(rows@) + old(out)@.skip(packed(rows@).len() as int));
    if !out_frontier_null {
        if let Some(f) = frontier {
            copy_front(f.as_slice(), out_frontier);
            assert(out_frontier@ =~= f@);
        }
    }
    Page { code: SUBETHA_OK, len: needed, count: n, has_frontier }
}

/// Write `bytes` into `out` from `at` on.
fn write_at(out: &mut [u8], at: usize, bytes: &[u8])
    requires
        at + bytes@.len() <= old(out)@.len(),
    ensures
        final(out)@.len() == old(out)@.len(),
        forall|k: int|
            0 <= k < final(out)@.len() ==> final(out)@[k] == if at <= k < at + bytes@.len() {
                bytes@[k - at]
            } else {
                old(out)@[k]
            },
{
    let total: usize = out.len();
    let mut i: usize = 0;
    while i < bytes.len()
        invariant
            i <= bytes@.len(),
            at + bytes@.len() <= total,
            out@.len() == old(out)@.len() == total,
            forall|k: int|
                0 <= k < out@.len() ==> out@[k] == if at <= k < at + i {
                    bytes@[k - at]
                } else {
                    old(out)@[k]
                },
        decreases bytes@.len() - i,
    {
        out[at + i] = bytes[i];
        i += 1;
    }
}

/// A snapshot, from what the map says.
pub fn stats(
    mode: u32,
    lanes: usize,
    held_lanes: usize,
    len: usize,
    key_size: usize,
    value_size: usize,
    epoch: u64,
) -> (stats: subetha_laned_map_stats)
    ensures
        stats == (subetha_laned_map_stats {
            mode,
            lanes: lanes as u32,
            held_lanes: held_lanes as u32,
            len: len as u64,
            key_size: key_size as u64,
            value_size: value_size as u64,
            epoch,
        }),
{
    subetha_laned_map_stats {
        mode,
        lanes: lanes as u32,
        held_lanes: held_lanes as u32,
        len: len as u64,
        key_size: key_size as u64,
        value_size: value_size as u64,
        epoch,
    }
}

/// A call on a laned map reaches what stands behind a handle to a laned map,
/// and nothing behind any other handle.
pub proof fn only_a_laned_map_is_reached<P>(last: &mut LastError, object: &Object<P>, reached: Result<&P, i32>)
    requires
        call_ensures(with_laned::<P>, (last, object), reached),
    ensures
        reached is Ok <==> *object is LanedMap,
        reached matches Ok(payload) ==> *object == Object::LanedMap(*payload) && final(last)@ == old(last)@,
        reached matches Err(code) ==> code == SUBETHA_E_WRONG_KIND
            && final(last)@ == "the handle does not name a laned map"@,
{
}

/// A map that opened is placed as what it is; one that did not is answered
/// exactly as its error is.
pub proof fn a_map_that_opened_is_placed_as_one<P>(
    last: &mut LastError,
    other: &mut LastError,
    opened: Result<P, LanedError>,
    answer: Result<Object<P>, i32>,
    code: i32,
)
    requires
        call_ensures(place::<P>, (last, opened), answer),
        opened matches Err(e) ==> call_ensures(code_for, (other, e), code),
        old(last)@ == old(other)@,
    ensures
        opened matches Ok(value) ==> answer == Ok::<Object<P>, i32>(Object::LanedMap(value))
            && final(last)@ == old(last)@,
        opened is Err ==> answer == Err::<Object<P>, i32>(code) && final(last)@ == final(other)@,
{
}

/// A call that went well answers with what it gave, and one that did not
/// answers exactly as its error does.
pub proof fn a_call_that_went_well_is_not_refused<T>(
    last: &mut LastError,
    other: &mut LastError,
    went: Result<T, LanedError>,
    answer: Result<T, i32>,
    code: i32,
)
    requires
        call_ensures(outcome::<T>, (last, went), answer),
        went matches Err(e) ==> call_ensures(code_for, (other, e), code),
        old(last)@ == old(other)@,
    ensures
        went matches Ok(value) ==> answer == Ok::<T, i32>(value) && final(last)@ == old(last)@,
        went is Err ==> answer == Err::<T, i32>(code) && final(last)@ == final(other)@,
{
}

/// A snapshot reports each thing it was handed under that thing's own name.
pub proof fn a_snapshot_reports_each_thing_as_it_is(
    mode: u32,
    lanes: usize,
    held_lanes: usize,
    len: usize,
    key_size: usize,
    value_size: usize,
    epoch: u64,
    shown: subetha_laned_map_stats,
)
    requires
        call_ensures(stats, (mode, lanes, held_lanes, len, key_size, value_size, epoch), shown),
    ensures
        shown.mode == mode,
        shown.lanes == lanes as u32,
        shown.held_lanes == held_lanes as u32,
        shown.len == len as u64,
        shown.key_size == key_size as u64,
        shown.value_size == value_size as u64,
        shown.epoch == epoch,
{
}

/// The arguments are accepted exactly when nothing is wrong with any of them,
/// and then handed on unchanged; the first one at fault is the one answered
/// for.
pub proof fn a_map_is_made_with_arguments_that_are_right<'a>(
    last: &mut LastError,
    initialized: Result<(), Refused>,
    out_null: bool,
    dir: Result<&'a str, Refused>,
    lanes: u32,
    nodes_per_lane: u64,
    key_size: usize,
    value_size: usize,
    max_pins: u64,
    mode: Result<u32, Refused>,
    read: Result<(&'a str, usize, usize, usize, u32), i32>,
)
    requires
        call_ensures(read_arguments, (last, initialized, out_null, dir, lanes, nodes_per_lane, key_size,
            value_size, max_pins, mode), read),
    ensures
        read is Ok <==> initialized is Ok && !out_null && dir is Ok && lanes != 0 && nodes_per_lane != 0
            && key_size != 0 && value_size != 0 && max_pins != 0 && mode is Ok,
        read matches Ok(all) ==> all.0 == dir->Ok_0 && all.1 == lanes && (nodes_per_lane <= usize::MAX
            ==> all.2 == nodes_per_lane) && (max_pins <= usize::MAX ==> all.3 == max_pins)
            && all.4 == mode->Ok_0 && final(last)@ == old(last)@,
        initialized is Err ==> read is Err && read->Err_0 == initialized->Err_0.code
            && final(last)@ == initialized->Err_0.report().leaves(old(last)@),
        initialized is Ok && out_null ==> read is Err && read->Err_0 == SUBETHA_E_INVALID_ARGUMENT
            && final(last)@ == "out is null"@,
        initialized is Ok && !out_null && dir is Err ==> read is Err && read->Err_0 == dir->Err_0.code
            && final(last)@ == dir->Err_0.report().leaves(old(last)@),
        initialized is Ok && !out_null && dir is Ok && lanes == 0 ==> read is Err
            && read->Err_0 == SUBETHA_E_INVALID_ARGUMENT && final(last)@ == "lanes is zero"@,
        initialized is Ok && !out_null && dir is Ok && lanes != 0 && nodes_per_lane == 0 ==> read is Err
            && read->Err_0 == SUBETHA_E_INVALID_ARGUMENT && final(last)@ == "nodes_per_lane is zero"@,
        initialized is Ok && !out_null && dir is Ok && lanes != 0 && nodes_per_lane != 0 && key_size == 0
            ==> read is Err && read->Err_0 == SUBETHA_E_INVALID_ARGUMENT && final(last)@ == "key_size is zero"@,
        initialized is Ok && !out_null && dir is Ok && lanes != 0 && nodes_per_lane != 0 && key_size != 0
            && value_size == 0 ==> read is Err && read->Err_0 == SUBETHA_E_INVALID_ARGUMENT
            && final(last)@ == "value_size is zero"@,
        initialized is Ok && !out_null && dir is Ok && lanes != 0 && nodes_per_lane != 0 && key_size != 0
            && value_size != 0 && max_pins == 0 ==> read is Err && read->Err_0 == SUBETHA_E_INVALID_ARGUMENT
            && final(last)@ == "max_pins is zero"@,
        initialized is Ok && !out_null && dir is Ok && lanes != 0 && nodes_per_lane != 0 && key_size != 0
            && value_size != 0 && max_pins != 0 && mode is Err ==> read is Err
            && read->Err_0 == mode->Err_0.code && final(last)@ == mode->Err_0.report().leaves(old(last)@),
{
}

/// The arguments are accepted exactly when nothing is wrong with any of them,
/// and then handed on unchanged; the first one at fault is the one answered
/// for.
pub proof fn a_key_has_the_size_of_the_maps_keys<'a>(
    last: &mut LastError,
    out_lane_null: bool,
    key_len: usize,
    key_size: usize,
    key: Result<&'a [u8], Refused>,
    bytes: Result<&'a [u8], i32>,
)
    requires
        call_ensures(lane_key, (last, out_lane_null, key_len, key_size, key), bytes),
    ensures
        bytes is Ok <==> !out_lane_null && key_len == key_size && key is Ok,
        bytes matches Ok(all) ==> all == key->Ok_0 && final(last)@ == old(last)@,
        out_lane_null ==> bytes is Err && bytes->Err_0 == SUBETHA_E_INVALID_ARGUMENT
            && final(last)@ == "out_lane is null"@,
        !out_lane_null && key_len != key_size ==> bytes is Err && bytes->Err_0 == SUBETHA_E_INVALID_ARGUMENT,
        !out_lane_null && key_len == key_size && key is Err ==> bytes is Err && bytes->Err_0 == key->Err_0.code
            && final(last)@ == key->Err_0.report().leaves(old(last)@),
{
}

/// With a place for the length and a key of the map's size, a buffer is too
/// small exactly when it is not there or is shorter than a value; the length
/// reported is a value's whatever the buffer, and a buffer long enough lets
/// the call go on with the key.
pub proof fn a_value_is_copied_into_any_buffer_long_enough<'a>(
    last: &mut LastError,
    out_len_null: bool,
    key_len: usize,
    key_size: usize,
    value_size: usize,
    out_null: bool,
    cap: usize,
    key: Result<&'a [u8], Refused>,
    read: (Result<&'a [u8], i32>, Option<usize>),
)
    requires
        call_ensures(value_arguments, (last, out_len_null, key_len, key_size, value_size, out_null, cap, key), read),
    ensures
        read.0 is Ok <==> !out_len_null && key_len == key_size && !out_null && cap >= value_size && key is Ok,
        read.0 matches Ok(bytes) ==> bytes == key->Ok_0 && final(last)@ == old(last)@,
        read.1 is Some <==> !out_len_null && key_len == key_size,
        read.1 matches Some(len) ==> len == value_size,
        !out_len_null && key_len == key_size && key is Ok ==> (read.0 is Err
            && read.0->Err_0 == SUBETHA_E_BUFFER_TOO_SMALL <==> out_null || cap < value_size),
        !out_len_null && key_len == key_size && (out_null || cap < value_size) ==> read.0 is Err
            && read.0->Err_0 == SUBETHA_E_BUFFER_TOO_SMALL && final(last)@ == old(last)@,
        !out_len_null && key_len == key_size && !out_null && cap >= value_size && key is Err ==> read.0 is Err
            && read.0->Err_0 == key->Err_0.code,
        out_len_null || key_len != key_size ==> read.0 is Err && read.0->Err_0 == SUBETHA_E_INVALID_ARGUMENT,
{
}

/// A caller told a length gets on with its key by calling again with a buffer
/// of that length, or of any greater one.
pub proof fn a_retry_with_the_length_reported_is_not_too_small<'a>(
    last: &mut LastError,
    again: &mut LastError,
    key_len: usize,
    key_size: usize,
    value_size: usize,
    out_null: bool,
    cap: usize,
    retry_cap: usize,
    key: &'a [u8],
    first: (Result<&'a [u8], i32>, Option<usize>),
    second: (Result<&'a [u8], i32>, Option<usize>),
)
    requires
        call_ensures(value_arguments, (last, false, key_len, key_size, value_size, out_null, cap, Ok(key)), first),
        first.1 is Some,
        retry_cap >= first.1->Some_0,
        call_ensures(value_arguments, (again, false, key_len, key_size, value_size, false, retry_cap, Ok(key)),
            second),
    ensures
        second.0 == Ok::<&'a [u8], i32>(key),
        second.1 == first.1,
{
}

/// An insert is let through exactly when key and value have the map's sizes.
pub proof fn an_insert_takes_a_key_and_a_value_of_the_maps_sizes(
    last: &mut LastError,
    key_len: usize,
    value_len: usize,
    key_size: usize,
    value_size: usize,
    answer: Result<(), i32>,
)
    requires
        call_ensures(insert_sizes, (last, key_len, value_len, key_size, value_size), answer),
    ensures
        answer is Ok <==> key_len == key_size && value_len == value_size,
        answer is Ok ==> final(last)@ == old(last)@,
        answer matches Err(code) ==> code == SUBETHA_E_INVALID_ARGUMENT,
{
}

/// A claimed lane is handed out, and where every lane is held the caller is
/// told to come back.
pub proof fn a_lane_that_was_claimed_is_handed_out(
    last: &mut LastError,
    claimed: Option<usize>,
    answer: Result<u32, i32>,
)
    requires
        call_ensures(subetha_laned_map_claim_lane, (last, claimed), answer),
    ensures
        claimed matches Some(lane) ==> answer is Ok && (lane <= u32::MAX ==> answer->Ok_0 == lane)
            && final(last)@ == old(last)@,
        claimed is None ==> answer == Err::<u32, i32>(SUBETHA_E_WOULD_BLOCK),
{
}

/// A key that was found answers with its lane, one that was not is absent, and
/// a failure answers exactly as its error.
pub proof fn a_keys_lane_is_the_one_it_was_found_in(
    last: &mut LastError,
    other: &mut LastError,
    found: Result<Option<usize>, LanedError>,
    lane: Result<usize, i32>,
    code: i32,
)
    requires
        call_ensures(subetha_laned_map_lane_of, (last, found), lane),
        found matches Err(e) ==> call_ensures(code_for, (other, e), code),
        old(last)@ == old(other)@,
    ensures
        found is Ok && found->Ok_0 is Some ==> lane == Ok::<usize, i32>(found->Ok_0->Some_0)
            && final(last)@ == old(last)@,
        found is Ok && found->Ok_0 is None ==> lane == Err::<usize, i32>(SUBETHA_E_MAP_KEY_ABSENT),
        found is Err ==> lane == Err::<usize, i32>(code) && final(last)@ == final(other)@,
{
}

/// A keyed claim that won answers with its lane, and one that did not is told
/// the lane is held.
pub proof fn a_keys_lane_is_claimed_or_busy(last: &mut LastError, lane: usize, won: bool, claimed: Result<u32, i32>)
    requires
        call_ensures(subetha_laned_map_claim_lane_for, (last, lane, won), claimed),
    ensures
        claimed is Ok <==> won,
        claimed matches Ok(n) ==> (lane <= u32::MAX ==> n == lane) && final(last)@ == old(last)@,
        claimed matches Err(code) ==> code == SUBETHA_E_WOULD_BLOCK,
{
}

/// A lane is given back exactly when the map has it.
pub proof fn a_lane_that_is_there_can_be_given_back(
    last: &mut LastError,
    lanes: usize,
    lane: u32,
    answer: Result<usize, i32>,
)
    requires
        call_ensures(subetha_laned_map_release_lane, (last, lanes, lane), answer),
    ensures
        answer is Ok <==> lane < lanes,
        answer matches Ok(n) ==> n == lane && final(last)@ == old(last)@,
        answer matches Err(code) ==> code == SUBETHA_E_INVALID_ARGUMENT,
{
}

/// A key that was there is found, one that was not is absent, and a failure
/// answers exactly as its error.
pub proof fn a_key_is_found_or_absent(
    last: &mut LastError,
    other: &mut LastError,
    went: Result<bool, LanedError>,
    answer: Result<(), i32>,
    code: i32,
)
    requires
        call_ensures(found, (last, went), answer),
        went matches Err(e) ==> call_ensures(code_for, (other, e), code),
        old(last)@ == old(other)@,
    ensures
        answer is Ok <==> went == Ok::<bool, LanedError>(true),
        went == Ok::<bool, LanedError>(false) ==> answer == Err::<(), i32>(SUBETHA_E_MAP_KEY_ABSENT),
        went is Err ==> answer == Err::<(), i32>(code) && final(last)@ == final(other)@,
{
}

/// A range is walked exactly when there are places for what it reports and the
/// key to resume past was read; with none it starts at the front.
pub proof fn a_range_resumes_from_where_it_was_told<'a>(
    last: &mut LastError,
    out_len_null: bool,
    out_count_null: bool,
    out_has_frontier_null: bool,
    after: Option<Result<&'a [u8], Refused>>,
    low: Result<Option<&'a [u8]>, i32>,
)
    requires
        call_ensures(range_arguments, (last, out_len_null, out_count_null, out_has_frontier_null, after), low),
    ensures
        low is Ok <==> !out_len_null && !out_count_null && !out_has_frontier_null && !(after is Some
            && after->Some_0 is Err),
        low matches Ok(bound) ==> (bound is Some <==> after is Some) && final(last)@ == old(last)@,
        low is Ok && after is Some ==> low->Ok_0 == Some(after->Some_0->Ok_0),
        out_len_null || out_count_null || out_has_frontier_null ==> low is Err
            && low->Err_0 == SUBETHA_E_INVALID_ARGUMENT,
{
}

/// A page is copied exactly when the buffer is there and has room for every
/// row, each row at its own stride as key and then value; its size is reported
/// either way, and a page that does not fit changes nothing.
pub proof fn a_page_is_handed_over_whole_or_not_at_all(
    rows: &Vec<(Vec<u8>, Vec<u8>)>,
    frontier: &Option<Vec<u8>>,
    key_size: usize,
    value_size: usize,
    out_null: bool,
    out: &mut [u8],
    out_frontier_null: bool,
    out_frontier: &mut [u8],
    page: Page,
    i: int,
)
    requires
        sized(rows@, key_size, value_size),
        key_size + value_size <= usize::MAX,
        rows@.len() * (key_size + value_size) <= usize::MAX,
        frontier matches Some(f) ==> f@.len() == key_size,
        !out_frontier_null ==> old(out_frontier)@.len() == key_size,
        call_ensures(subetha_laned_map_range, (rows, frontier, key_size, value_size, out_null, out,
            out_frontier_null, out_frontier), page),
    ensures
        page.len == rows@.len() * (key_size + value_size),
        page.count == rows@.len(),
        page.has_frontier <==> *frontier is Some,
        page.code == SUBETHA_OK <==> !out_null && old(out)@.len() >= rows@.len() * (key_size + value_size),
        page.code != SUBETHA_OK ==> page.code == SUBETHA_E_BUFFER_TOO_SMALL && final(out)@ == old(out)@
            && final(out_frontier)@ == old(out_frontier)@,
        page.code == SUBETHA_OK && 0 <= i < rows@.len() ==> final(out)@.subrange(i * (key_size
            + value_size), i * (key_size + value_size) + key_size) == rows@[i].0@,
        page.code == SUBETHA_OK && 0 <= i < rows@.len() ==> final(out)@.subrange(i * (key_size + value_size)
            + key_size, i * (key_size + value_size) + key_size + value_size) == rows@[i].1@,
        page.code == SUBETHA_OK && frontier is Some && !out_frontier_null
            ==> final(out_frontier)@ == frontier->Some_0@,
        frontier is None || out_frontier_null ==> final(out_frontier)@ == old(out_frontier)@,
        page.code == SUBETHA_OK ==> final(out)@.len() == old(out)@.len()
            && final(out)@.skip(page.len as int) == old(out)@.skip(page.len as int),
{
    packed_rows_take_a_stride_each(rows@, key_size, value_size);
    if page.code == SUBETHA_OK {
        assert(final(out)@.skip(page.len as int) =~= old(out)@.skip(page.len as int));
    }
    if page.code == SUBETHA_OK && 0 <= i < rows@.len() {
        a_packed_row_is_found_at_its_stride(rows@, key_size, value_size, i);
        let at = i * (key_size + value_size);
        assert(final(out)@.subrange(at, at + key_size) =~= packed(rows@).subrange(at, at + key_size));
        assert(final(out)@.subrange(at + key_size, at + key_size + value_size) =~= packed(rows@).subrange(
            at + key_size,
            at + key_size + value_size,
        ));
    }
}

/// Each error answers with its own code. One with specifics leaves them, and
/// one without leaves what was there.
pub proof fn each_error_has_its_code(last: &mut LastError, e: LanedError, code: i32)
    requires
        call_ensures(code_for, (last, e), code),
    ensures
        e matches LanedError::NoFreeLane ==> code == 126
            && final(last)@ == "every lane is held by another statement"@,
        e matches LanedError::LaneBusy(lane) ==> code == 126 && final(last)@ == "lane "@ + dec(lane as nat)
            + " holds this key and another statement holds the lane"@,
        e matches LanedError::KeyAbsent ==> code == 119 && final(last)@ == old(last)@,
        e matches LanedError::KeyInAnotherLane(lane) ==> code == 7 && final(last)@ == "the key is in lane "@
            + dec(lane as nat) + "; it must be removed there"@,
        e matches LanedError::LayoutMismatch ==> code == 102
            && final(last)@ == "the map on disk was built with another shape"@,
        e matches LanedError::Versioned(said) ==> code == 107 && final(last)@ == "lane: "@ + said@,
        e matches LanedError::Epochs(said) ==> code == 107 && final(last)@ == "epoch table: "@ + said@,
        e matches LanedError::Io(kind) ==> code == 107 && final(last)@ == "claims file: "@ + kind@,
{
}

/// A refusal says what was given and what it should have been.
pub proof fn a_key_at_fault_is_told<'a>(
    last: &mut LastError,
    key_len: usize,
    key_size: usize,
    key: Result<&'a [u8], Refused>,
    bytes: Result<&'a [u8], i32>,
)
    requires
        call_ensures(lane_key, (last, false, key_len, key_size, key), bytes),
    ensures
        key_len != key_size ==> final(last)@ == "a key is "@ + dec(key_size as nat) + " bytes, not "@
            + dec(key_len as nat),
{
}

/// A refusal says what was given and what it should have been.
pub proof fn sizes_at_fault_are_told(
    last: &mut LastError,
    key_len: usize,
    value_len: usize,
    key_size: usize,
    value_size: usize,
    answer: Result<(), i32>,
)
    requires
        call_ensures(insert_sizes, (last, key_len, value_len, key_size, value_size), answer),
    ensures
        answer is Err ==> final(last)@ == "a key is "@ + dec(key_size as nat) + " bytes and a value "@
            + dec(value_size as nat) + ", not "@ + dec(key_len as nat) + " and "@ + dec(value_len as nat),
{
}

/// A refusal says what was given and what it should have been.
pub proof fn a_lane_at_fault_is_told(last: &mut LastError, lanes: usize, lane: u32, answer: Result<usize, i32>)
    requires
        call_ensures(subetha_laned_map_release_lane, (last, lanes, lane), answer),
    ensures
        answer is Err ==> final(last)@ == "that lane index is past the last lane"@,
{
}

} // verus!
