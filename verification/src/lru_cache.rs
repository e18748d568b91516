//! The shared LRU cache.
//!
//! Keys and values cross as byte buffers of exactly the sizes the cache was
//! created with. A buffer of any other length is refused rather than padded
//! or truncated, because a key silently changed names a different entry.
//!
//! Reads come in two forms: one leaves recency alone, so a caller inspecting
//! entries does not reorder them; the other promotes what it reads.

use vstd::prelude::*;

use crate::arguments::{copy_on_hit, given, invalid_argument, reading};
use crate::error::{
    answers, answers_code, fail, told, LastError, LinkedListError, MapError, Refused, RegionError,
    Report, SUBETHA_E_INVALID_ARGUMENT, SUBETHA_E_MAP_FULL, SUBETHA_E_RING_IO,
    SUBETHA_E_RING_LAYOUT_MISMATCH, SUBETHA_E_WRONG_KIND,
};
use crate::handle::Object;
use crate::text::{dec, push_dec};

verus! {

/// A snapshot of a shared LRU cache.
#[allow(non_camel_case_types)]
#[derive(Clone, Copy, Default, Debug, PartialEq, Eq)]
pub struct subetha_lru_stats {
    /// The mode this handle was created in.
    pub mode: u32,
    /// Entries the cache can hold before it evicts.
    pub capacity: u32,
    /// Entries it holds now.
    pub len: u64,
    /// Bytes in a key.
    pub key_size: u64,
    /// Bytes in a value.
    pub value_size: u64,
}

/// What a cache refuses with.
#[derive(Debug)]
pub enum RawLruError {
    /// A buffer of another length.
    WrongSize {
        /// Bytes the cache uses.
        expected: u64,
        /// Bytes given.
        found: u64,
    },
    /// No entries.
    ZeroCapacity,
    /// The index refused.
    Index(MapError),
    /// The recency order refused.
    Order(LinkedListError),
}

/// What the index refusing answers.
pub open spec fn index_code_report(e: MapError) -> Report {
    match e {
        MapError::Full => told(SUBETHA_E_MAP_FULL, "the cache's index is full"@),
        MapError::LayoutMismatch => told(
            SUBETHA_E_RING_LAYOUT_MISMATCH,
            "the cache on disk was built with different key or value sizes"@,
        ),
        MapError::IoError(kind) => told(SUBETHA_E_RING_IO, "the cache's index could not be reached: "@ + kind@),
        MapError::PayloadTooLarge => told(SUBETHA_E_RING_IO, "the cache's index refused: PayloadTooLarge"@),
        MapError::KeyAbsent => told(SUBETHA_E_RING_IO, "the cache's index refused: KeyAbsent"@),
    }
}

/// The map from the index's error to the code that names it.
pub fn index_code(last: &mut LastError, e: MapError) -> (code: i32)
    ensures
        answers_code(code, index_code_report(e), old(last)@, final(last)@),
{
    match e {
        MapError::Full => fail(last, SUBETHA_E_MAP_FULL, "the cache's index is full"),
        MapError::LayoutMismatch => fail(
            last,
            SUBETHA_E_RING_LAYOUT_MISMATCH,
            "the cache on disk was built with different key or value sizes",
        ),
        MapError::IoError(kind) => {
            let mut text: String = String::from_str("the cache's index could not be reached: ");
            text.append(kind.as_str());
            fail(last, SUBETHA_E_RING_IO, text.as_str())
        },
        MapError::PayloadTooLarge => fail(last, SUBETHA_E_RING_IO, "the cache's index refused: PayloadTooLarge"),
        MapError::KeyAbsent => fail(last, SUBETHA_E_RING_IO, "the cache's index refused: KeyAbsent"),
    }
}

/// How a region's refusal prints.
pub open spec fn region_name(e: RegionError) -> Seq<char> {
    match e {
        RegionError::Full => "Full"@,
        RegionError::InvalidPtr => "InvalidPtr"@,
        RegionError::PayloadTooLarge => "PayloadTooLarge"@,
        RegionError::LayoutMismatch => "LayoutMismatch"@,
        RegionError::IoError(kind) => "IoError("@ + kind@ + ")"@,
    }
}

/// What the recency order refusing answers.
pub open spec fn order_code_report(e: LinkedListError) -> Report {
    match e {
        LinkedListError::LayoutMismatch => told(
            SUBETHA_E_RING_LAYOUT_MISMATCH,
            "the cache on disk was built with different key or value sizes"@,
        ),
        LinkedListError::IoError(kind) => told(
            SUBETHA_E_RING_IO,
            "the cache's order could not be reached: "@ + kind@,
        ),
        LinkedListError::InvalidHandle => told(SUBETHA_E_RING_IO, "the cache's order refused: InvalidHandle"@),
        LinkedListError::Region(inner) => told(
            SUBETHA_E_RING_IO,
            "the cache's order refused: Region("@ + region_name(inner) + ")"@,
        ),
    }
}

/// The map from the recency order's error to the code that names it.
pub fn order_code(last: &mut LastError, e: LinkedListError) -> (code: i32)
    ensures
        answers_code(code, order_code_report(e), old(last)@, final(last)@),
{
    match e {
        LinkedListError::LayoutMismatch => fail(
            last,
            SUBETHA_E_RING_LAYOUT_MISMATCH,
            "the cache on disk was built with different key or value sizes",
        ),
        LinkedListError::IoError(kind) => {
            let mut text: String = String::from_str("the cache's order could not be reached: ");
            text.append(kind.as_str());
            fail(last, SUBETHA_E_RING_IO, text.as_str())
        },
        LinkedListError::InvalidHandle => fail(
            last,
            SUBETHA_E_RING_IO,
            "the cache's order refused: InvalidHandle",
        ),
        LinkedListError::Region(inner) => {
            let mut name: String;
            match inner {
                RegionError::Full => {
                    name = String::from_str("Full");
                },
                RegionError::InvalidPtr => {
                    name = String::from_str("InvalidPtr");
                },
                RegionError::PayloadTooLarge => {
                    name = String::from_str("PayloadTooLarge");
                },
                RegionError::LayoutMismatch => {
                    name = String::from_str("LayoutMismatch");
                },
                RegionError::IoError(kind) => {
                    name = String::from_str("IoError(");
                    name.append(kind.as_str());
                    name.append(")");
                },
            }
            let mut text: String = String::from_str("the cache's order refused: Region(");
            text.append(name.as_str());
            text.append(")");
            fail(last, SUBETHA_E_RING_IO, text.as_str())
        },
    }
}

/// What `code_for` answers.
pub open spec fn code_for_report(e: RawLruError) -> Report {
    match e {
        RawLruError::WrongSize { expected, found } => told(
            SUBETHA_E_INVALID_ARGUMENT,
            "this cache uses "@ + dec(expected as nat) + "-byte buffers here, and "@ + dec(found as nat)
                + " was given"@,
        ),
        RawLruError::ZeroCapacity => told(SUBETHA_E_INVALID_ARGUMENT, "a cache of zero entries holds nothing"@),
        RawLruError::Index(inner) => index_code_report(inner),
        RawLruError::Order(inner) => order_code_report(inner),
    }
}

/// The map from a cache's error to the code that names it.
pub fn code_for(last: &mut LastError, e: RawLruError) -> (code: i32)
    ensures
        answers_code(code, code_for_report(e), old(last)@, final(last)@),
{
    match e {
        RawLruError::WrongSize { expected, found } => {
            let mut text: String = String::from_str("this cache uses ");
            push_dec(&mut text, expected);
            text.append("-byte buffers here, and ");
            push_dec(&mut text, found);
            text.append(" was given");
            fail(last, SUBETHA_E_INVALID_ARGUMENT, text.as_str())
        },
        RawLruError::ZeroCapacity => fail(
            last,
            SUBETHA_E_INVALID_ARGUMENT,
            "a cache of zero entries holds nothing",
        ),
        RawLruError::Index(inner) => index_code(last, inner),
        RawLruError::Order(inner) => order_code(last, inner),
    }
}

/// The payload behind an LRU cache's handle.
pub fn with_lru<'a, P>(last: &mut LastError, object: &'a Object<P>) -> (payload: Result<&'a P, i32>)
    ensures
        answers(
            payload,
            match *object {
                Object::Lru(p) => Ok(&p),
                _ => Err(told(SUBETHA_E_WRONG_KIND, "the handle does not name an LRU cache"@)),
            },
            old(last)@,
            final(last)@,
        ),
{
    match object {
        Object::Lru(p) => Ok(p),
        _ => Err(fail(last, SUBETHA_E_WRONG_KIND, "the handle does not name an LRU cache")),
    }
}

/// What [`read_arguments`] answers.
pub open spec fn read_arguments_outcome<'a>(
    initialized: Result<(), Refused>,
    out_null: bool,
    base_path: Result<&'a str, Refused>,
    capacity: u32,
    mode: Result<u32, Refused>,
    key_size: u64,
    value_size: u64,
) -> Result<(&'a str, u32, usize, usize, u32), Report> {
    if initialized is Err {
        Err(initialized->Err_0.report())
    } else if out_null {
        Err(invalid_argument("out is null"@))
    } else if base_path is Err {
        Err(base_path->Err_0.report())
    } else if mode is Err {
        Err(mode->Err_0.report())
    } else if key_size == 0 || value_size == 0 {
        Err(invalid_argument("a key or value of zero bytes carries nothing"@))
    } else {
        Ok((base_path->Ok_0, capacity, key_size as usize, value_size as usize, mode->Ok_0))
    }
}

/// The arguments every constructor reads, in order.
pub fn read_arguments<'a>(
    last: &mut LastError,
    initialized: Result<(), Refused>,
    out_null: bool,
    base_path: Result<&'a str, Refused>,
    capacity: u32,
    mode: Result<u32, Refused>,
    key_size: u64,
    value_size: u64,
) -> (read: Result<(&'a str, u32, usize, usize, u32), i32>)
    ensures
        answers(
            read,
            read_arguments_outcome(initialized, out_null, base_path, capacity, mode, key_size, value_size),
            old(last)@,
            final(last)@,
        ),
{
    if let Err(code) = given(last, initialized) {
        return Err(code);
    }
    if out_null {
        return Err(fail(last, SUBETHA_E_INVALID_ARGUMENT, "out is null"));
    }
    let base_path: &'a str = match given(last, base_path) {
        Ok(base_path) => base_path,
        Err(code) => {
            return Err(code);
        },
    };
    let mode: u32 = match given(last, mode) {
        Ok(mode) => mode,
        Err(code) => {
            return Err(code);
        },
    };
    if key_size == 0 || value_size == 0 {
        return Err(fail(last, SUBETHA_E_INVALID_ARGUMENT, "a key or value of zero bytes carries nothing"));
    }
    Ok((base_path, capacity, key_size as usize, value_size as usize, mode))
}

/// Make the object for a cache that was built or opened, or answer with why
/// it could not be.
pub fn place<P>(last: &mut LastError, opened: Result<P, RawLruError>) -> (object: Result<Object<P>, i32>)
    ensures
        answers(
            object,
            match opened {
                Ok(p) => Ok(Object::Lru(p)),
                Err(e) => Err(code_for_report(e)),
            },
            old(last)@,
            final(last)@,
        ),
{
    match opened {
        Ok(p) => Ok(Object::Lru(p)),
        Err(e) => Err(code_for(last, e)),
    }
}

/// What a call on a cache answers, given how it went: its value, or the
/// code its error maps to.
pub fn outcome<T>(last: &mut LastError, went: Result<T, RawLruError>) -> (answer: Result<T, i32>)
    ensures
        answers(
            answer,
            match went {
                Ok(value) => Ok(value),
                Err(e) => Err(code_for_report(e)),
            },
            old(last)@,
            final(last)@,
        ),
{
    match went {
        Ok(value) => Ok(value),
        Err(e) => Err(code_for(last, e)),
    }
}

/// The arguments of a read, checked in order: somewhere to write the answer,
/// then the key's bytes.
pub fn read_key<'a>(
    last: &mut LastError,
    found_null: bool,
    value_out_null: bool,
    key: Result<&'a [u8], Refused>,
) -> (bytes: Result<&'a [u8], i32>)
    ensures
        answers(
            bytes,
            if found_null || value_out_null {
                Err(invalid_argument("found or value_out is null"@))
            } else {
                reading(key)
            },
            old(last)@,
            final(last)@,
        ),
{
    if found_null || value_out_null {
        return Err(fail(last, SUBETHA_E_INVALID_ARGUMENT, "found or value_out is null"));
    }
    given(last, key)
}

/// The arguments of a removal, checked in order: somewhere to write the
/// answer, then the key's bytes.
pub fn remove_key<'a>(
    last: &mut LastError,
    removed_null: bool,
    value_out_null: bool,
    key: Result<&'a [u8], Refused>,
) -> (bytes: Result<&'a [u8], i32>)
    ensures
        answers(
            bytes,
            if removed_null || value_out_null {
                Err(invalid_argument("removed or value_out is null"@))
            } else {
                reading(key)
            },
            old(last)@,
            final(last)@,
        ),
{
    if removed_null || value_out_null {
        return Err(fail(last, SUBETHA_E_INVALID_ARGUMENT, "removed or value_out is null"));
    }
    given(last, key)
}

/// The arguments of a membership question, checked in order.
pub fn contains_key<'a>(last: &mut LastError, present_null: bool, key: Result<&'a [u8], Refused>) -> (bytes: Result<
    &'a [u8],
    i32,
>)
    ensures
        answers(
            bytes,
            if present_null {
                Err(invalid_argument("present is null"@))
            } else {
                reading(key)
            },
            old(last)@,
            final(last)@,
        ),
{
    if present_null {
        return Err(fail(last, SUBETHA_E_INVALID_ARGUMENT, "present is null"));
    }
    given(last, key)
}

/// What a read or a removal answers: whether the cache held the key, and its
/// value in the caller's buffer only where it did.
pub fn lru_read(last: &mut LastError, went: Result<bool, RawLruError>, scratch: &[u8], value_out: &mut [u8]) -> (hit:
    Result<bool, i32>)
    requires
        scratch@.len() == old(value_out)@.len(),
    ensures
        match went {
            Ok(held) => {
                &&& hit == Ok::<bool, i32>(held)
                &&& final(last)@ == old(last)@
                &&& final(value_out)@ == if held {
                    scratch@
                } else {
                    old(value_out)@
                }
            },
            Err(e) => {
                &&& answers(hit, Err(code_for_report(e)), old(last)@, final(last)@)
                &&& final(value_out)@ == old(value_out)@
            },
        },
{
    match went {
        Ok(held) => {
            copy_on_hit(held, scratch, value_out);
            assert(held ==> value_out@ =~= scratch@);
            Ok(held)
        },
        Err(e) => Err(code_for(last, e)),
    }
}

/// What an eviction answers: whether there was anything to evict, and its key
/// and value in the caller's buffers only where there was.
pub fn subetha_lru_evict_oldest(
    last: &mut LastError,
    went: Result<bool, RawLruError>,
    key_scratch: &[u8],
    key_out: &mut [u8],
    value_scratch: &[u8],
    value_out: &mut [u8],
) -> (hit: Result<bool, i32>)
    requires
        key_scratch@.len() == old(key_out)@.len(),
        value_scratch@.len() == old(value_out)@.len(),
    ensures
        match went {
            Ok(held) => {
                &&& hit == Ok::<bool, i32>(held)
                &&& final(last)@ == old(last)@
                &&& final(key_out)@ == if held {
                    key_scratch@
                } else {
                    old(key_out)@
                }
                &&& final(value_out)@ == if held {
                    value_scratch@
                } else {
                    old(value_out)@
                }
            },
            Err(e) => {
                &&& answers(hit, Err(code_for_report(e)), old(last)@, final(last)@)
                &&& final(key_out)@ == old(key_out)@
                &&& final(value_out)@ == old(value_out)@
            },
        },
{
    match went {
        Ok(held) => {
            copy_on_hit(held, key_scratch, key_out);
            copy_on_hit(held, value_scratch, value_out);
            assert(held ==> key_out@ =~= key_scratch@);
            assert(held ==> value_out@ =~= value_scratch@);
            Ok(held)
        },
        Err(e) => Err(code_for(last, e)),
    }
}

/// The arguments of an eviction.
pub fn evict_arguments(
    last: &mut LastError,
    evicted_null: bool,
    key_out_null: bool,
    value_out_null: bool,
) -> (answer: Result<(), i32>)
    ensures
        answers(
            answer,
            if evicted_null || key_out_null || value_out_null {
                Err(invalid_argument("evicted, key_out or value_out is null"@))
            } else {
                Ok(())
            },
            old(last)@,
            final(last)@,
        ),
{
    if evicted_null || key_out_null || value_out_null {
        return Err(fail(last, SUBETHA_E_INVALID_ARGUMENT, "evicted, key_out or value_out is null"));
    }
    Ok(())
}

/// A snapshot, from what the cache says.
pub fn stats(
    mode: u32,
    capacity: u32,
    len: usize,
    key_size: usize,
    value_size: usize,
) -> (stats: subetha_lru_stats)
    ensures
        stats == (subetha_lru_stats {
            mode,
            capacity,
            len: len as u64,
            key_size: key_size as u64,
            value_size: value_size as u64,
        }),
{
    subetha_lru_stats {
        mode,
        capacity,
        len: len as u64,
        key_size: key_size as u64,
        value_size: value_size as u64,
    }
}

/// A call on a cache reaches what stands behind a handle to a cache, and
/// nothing behind any other handle.
pub proof fn only_a_cache_is_reached<P>(last: &mut LastError, object: &Object<P>, reached: Result<&P, i32>)
    requires
        call_ensures(with_lru::<P>, (last, object), reached),
    ensures
        reached is Ok <==> *object is Lru,
        reached matches Ok(payload) ==> *object == Object::Lru(*payload) && final(last)@ == old(last)@,
        reached matches Err(code) ==> code == SUBETHA_E_WRONG_KIND
            && final(last)@ == "the handle does not name an LRU cache"@,
{
}

/// A cache that opened is placed as what it is; one that did not is answered
/// exactly as its error is.
pub proof fn a_cache_that_opened_is_placed_as_one<P>(
    last: &mut LastError,
    other: &mut LastError,
    opened: Result<P, RawLruError>,
    answer: Result<Object<P>, i32>,
    code: i32,
)
    requires
        call_ensures(place::<P>, (last, opened), answer),
        opened matches Err(e) ==> call_ensures(code_for, (other, e), code),
        old(last)@ == old(other)@,
    ensures
        opened matches Ok(value) ==> answer == Ok::<Object<P>, i32>(Object::Lru(value))
            && final(last)@ == old(last)@,
        opened is Err ==> answer == Err::<Object<P>, i32>(code) && final(last)@ == final(other)@,
{
}

/// A call that went well answers with what it gave, and one that did not
/// answers exactly as its error does.
pub proof fn a_call_that_went_well_is_not_refused<T>(
    last: &mut LastError,
    other: &mut LastError,
    went: Result<T, RawLruError>,
    answer: Result<T, i32>,
    code: i32,
)
    requires
        call_ensures(outcome::<T>, (last, went), answer),
        went matches Err(e) ==> call_ensures(code_for, (other, e), code),
        old(last)@ == old(other)@,
    ensures
        went matches Ok(value) ==> answer == Ok::<T, i32>(value) && final(last)@ == old(last)@,
        went is Err ==> answer == Err::<T, i32>(code) && final(last)@ == final(other)@,
{
}

/// A snapshot reports each thing it was handed under that thing's own name.
pub proof fn a_snapshot_reports_each_thing_as_it_is(
    mode: u32,
    capacity: u32,
    len: usize,
    key_size: usize,
    value_size: usize,
    shown: subetha_lru_stats,
)
    requires
        call_ensures(stats, (mode, capacity, len, key_size, value_size), shown),
    ensures
        shown.mode == mode,
        shown.capacity == capacity,
        shown.len == len as u64,
        shown.key_size == key_size as u64,
        shown.value_size == value_size as u64,
{
}

/// The arguments are accepted exactly when nothing is wrong with any of them,
/// and then handed on unchanged; the first one at fault is the one answered
/// for.
pub proof fn a_cache_is_made_with_arguments_that_are_right<'a>(
    last: &mut LastError,
    initialized: Result<(), Refused>,
    out_null: bool,
    base_path: Result<&'a str, Refused>,
    capacity: u32,
    mode: Result<u32, Refused>,
    key_size: u64,
    value_size: u64,
    read: Result<(&'a str, u32, usize, usize, u32), i32>,
)
    requires
        call_ensures(read_arguments, (last, initialized, out_null, base_path, capacity, mode, key_size,
            value_size), read),
    ensures
        read is Ok <==> initialized is Ok && !out_null && base_path is Ok && mode is Ok && !(key_size == 0
            || value_size == 0),
        read matches Ok(all) ==> all.0 == base_path->Ok_0 && all.1 == capacity && (key_size <= usize::MAX
            ==> all.2 == key_size) && (value_size <= usize::MAX ==> all.3 == value_size) && all.4 == mode->Ok_0
            && final(last)@ == old(last)@,
        initialized is Err ==> read is Err && read->Err_0 == initialized->Err_0.code
            && final(last)@ == initialized->Err_0.report().leaves(old(last)@),
        initialized is Ok && out_null ==> read is Err && read->Err_0 == SUBETHA_E_INVALID_ARGUMENT
            && final(last)@ == "out is null"@,
        initialized is Ok && !out_null && base_path is Err ==> read is Err
            && read->Err_0 == base_path->Err_0.code && final(last)@ == base_path->Err_0.report().leaves(old(last)@),
        initialized is Ok && !out_null && base_path is Ok && mode is Err ==> read is Err
            && read->Err_0 == mode->Err_0.code && final(last)@ == mode->Err_0.report().leaves(old(last)@),
        initialized is Ok && !out_null && base_path is Ok && mode is Ok && (key_size == 0 || value_size == 0)
            ==> read is Err && read->Err_0 == SUBETHA_E_INVALID_ARGUMENT
            && final(last)@ == "a key or value of zero bytes carries nothing"@,
{
}

/// The arguments are accepted exactly when nothing is wrong with any of them,
/// and then handed on unchanged; the first one at fault is the one answered
/// for.
pub proof fn a_lookup_takes_a_key_and_places_for_what_it_finds<'a>(
    last: &mut LastError,
    found_null: bool,
    value_out_null: bool,
    key: Result<&'a [u8], Refused>,
    bytes: Result<&'a [u8], i32>,
)
    requires
        call_ensures(read_key, (last, found_null, value_out_null, key), bytes),
    ensures
        bytes is Ok <==> !(found_null || value_out_null) && key is Ok,
        bytes matches Ok(all) ==> all == key->Ok_0 && final(last)@ == old(last)@,
        (found_null || value_out_null) ==> bytes is Err && bytes->Err_0 == SUBETHA_E_INVALID_ARGUMENT
            && final(last)@ == "found or value_out is null"@,
        !(found_null || value_out_null) && key is Err ==> bytes is Err && bytes->Err_0 == key->Err_0.code
            && final(last)@ == key->Err_0.report().leaves(old(last)@),
{
}

/// The arguments are accepted exactly when nothing is wrong with any of them,
/// and then handed on unchanged; the first one at fault is the one answered
/// for.
pub proof fn a_removal_takes_a_key_and_places_for_what_it_removed<'a>(
    last: &mut LastError,
    removed_null: bool,
    value_out_null: bool,
    key: Result<&'a [u8], Refused>,
    bytes: Result<&'a [u8], i32>,
)
    requires
        call_ensures(remove_key, (last, removed_null, value_out_null, key), bytes),
    ensures
        bytes is Ok <==> !(removed_null || value_out_null) && key is Ok,
        bytes matches Ok(all) ==> all == key->Ok_0 && final(last)@ == old(last)@,
        (removed_null || value_out_null) ==> bytes is Err && bytes->Err_0 == SUBETHA_E_INVALID_ARGUMENT
            && final(last)@ == "removed or value_out is null"@,
        !(removed_null || value_out_null) && key is Err ==> bytes is Err && bytes->Err_0 == key->Err_0.code
            && final(last)@ == key->Err_0.report().leaves(old(last)@),
{
}

/// The arguments are accepted exactly when nothing is wrong with any of them,
/// and then handed on unchanged; the first one at fault is the one answered
/// for.
pub proof fn a_check_takes_a_key_and_a_place_for_its_answer<'a>(
    last: &mut LastError,
    present_null: bool,
    key: Result<&'a [u8], Refused>,
    bytes: Result<&'a [u8], i32>,
)
    requires
        call_ensures(contains_key, (last, present_null, key), bytes),
    ensures
        bytes is Ok <==> !present_null && key is Ok,
        bytes matches Ok(all) ==> all == key->Ok_0 && final(last)@ == old(last)@,
        present_null ==> bytes is Err && bytes->Err_0 == SUBETHA_E_INVALID_ARGUMENT
            && final(last)@ == "present is null"@,
        !present_null && key is Err ==> bytes is Err && bytes->Err_0 == key->Err_0.code
            && final(last)@ == key->Err_0.report().leaves(old(last)@),
{
}

/// The arguments are accepted exactly when nothing is wrong with any of them,
/// and then handed on unchanged; the first one at fault is the one answered
/// for.
pub proof fn an_eviction_needs_places_for_what_it_evicts(
    last: &mut LastError,
    evicted_null: bool,
    key_out_null: bool,
    value_out_null: bool,
    answer: Result<(), i32>,
)
    requires
        call_ensures(evict_arguments, (last, evicted_null, key_out_null, value_out_null), answer),
    ensures
        answer is Ok <==> !(evicted_null || key_out_null || value_out_null),
        answer matches Ok(all) ==> true && final(last)@ == old(last)@,
        (evicted_null || key_out_null || value_out_null) ==> answer is Err
            && answer->Err_0 == SUBETHA_E_INVALID_ARGUMENT
            && final(last)@ == "evicted, key_out or value_out is null"@,
{
}

/// A hit fills the buffer with the value; a miss or a failure leaves it alone,
/// and a failure answers exactly as its error does.
pub proof fn a_miss_leaves_the_buffer_alone(
    last: &mut LastError,
    other: &mut LastError,
    went: Result<bool, RawLruError>,
    scratch: &[u8],
    value_out: &mut [u8],
    hit: Result<bool, i32>,
    code: i32,
)
    requires
        scratch@.len() == old(value_out)@.len(),
        call_ensures(lru_read, (last, went, scratch, value_out), hit),
        went matches Err(e) ==> call_ensures(code_for, (other, e), code),
        old(last)@ == old(other)@,
    ensures
        went matches Ok(held) ==> hit == Ok::<bool, i32>(held) && final(last)@ == old(last)@,
        went is Err ==> hit == Err::<bool, i32>(code) && final(last)@ == final(other)@,
        went == Ok::<bool, RawLruError>(true) ==> final(value_out)@ == scratch@,
        went != Ok::<bool, RawLruError>(true) ==> final(value_out)@ == old(value_out)@,
{
}

/// An eviction that took an entry fills both buffers, key and value each in
/// its own; one that took none leaves both alone.
pub proof fn an_eviction_hands_over_the_key_with_its_value(
    last: &mut LastError,
    other: &mut LastError,
    went: Result<bool, RawLruError>,
    key_scratch: &[u8],
    key_out: &mut [u8],
    value_scratch: &[u8],
    value_out: &mut [u8],
    hit: Result<bool, i32>,
    code: i32,
)
    requires
        key_scratch@.len() == old(key_out)@.len(),
        value_scratch@.len() == old(value_out)@.len(),
        call_ensures(subetha_lru_evict_oldest, (last, went, key_scratch, key_out, value_scratch, value_out), hit),
        went matches Err(e) ==> call_ensures(code_for, (other, e), code),
        old(last)@ == old(other)@,
    ensures
        went matches Ok(held) ==> hit == Ok::<bool, i32>(held) && final(last)@ == old(last)@,
        went is Err ==> hit == Err::<bool, i32>(code) && final(last)@ == final(other)@,
        went == Ok::<bool, RawLruError>(true) ==> final(key_out)@ == key_scratch@
            && final(value_out)@ == value_scratch@,
        went != Ok::<bool, RawLruError>(true) ==> final(key_out)@ == old(key_out)@
            && final(value_out)@ == old(value_out)@,
{
}

/// Each index error answers with its own code. One with specifics leaves them,
/// and one without leaves what was there.
pub proof fn each_index_error_has_its_code(last: &mut LastError, e: MapError, code: i32)
    requires
        call_ensures(index_code, (last, e), code),
    ensures
        e matches MapError::Full ==> code == 118 && final(last)@ == "the cache's index is full"@,
        e matches MapError::LayoutMismatch ==> code == 102
            && final(last)@ == "the cache on disk was built with different key or value sizes"@,
        e matches MapError::IoError(kind) ==> code == 107
            && final(last)@ == "the cache's index could not be reached: "@ + kind@,
        e matches MapError::PayloadTooLarge ==> code == 107
            && final(last)@ == "the cache's index refused: PayloadTooLarge"@,
        e matches MapError::KeyAbsent ==> code == 107 && final(last)@ == "the cache's index refused: KeyAbsent"@,
{
}

/// Each order error answers with its own code. One with specifics leaves them,
/// and one without leaves what was there.
pub proof fn each_order_error_has_its_code(last: &mut LastError, e: LinkedListError, code: i32)
    requires
        call_ensures(order_code, (last, e), code),
    ensures
        e matches LinkedListError::LayoutMismatch ==> code == 102
            && final(last)@ == "the cache on disk was built with different key or value sizes"@,
        e matches LinkedListError::IoError(kind) ==> code == 107
            && final(last)@ == "the cache's order could not be reached: "@ + kind@,
        e matches LinkedListError::InvalidHandle ==> code == 107
            && final(last)@ == "the cache's order refused: InvalidHandle"@,
        e matches LinkedListError::Region(inner) ==> code == 107
            && final(last)@ == "the cache's order refused: Region("@ + region_name(inner) + ")"@,
{
}

/// Each error answers with its own code. One with specifics leaves them, and
/// one without leaves what was there. One that comes from beneath answers
/// exactly as it does there.
pub proof fn each_error_has_its_code(
    last: &mut LastError,
    other: &mut LastError,
    e: RawLruError,
    code: i32,
    beneath: i32,
)
    requires
        call_ensures(code_for, (last, e), code),
        e matches RawLruError::Index(inner) ==> call_ensures(index_code, (other, inner), beneath),
        e matches RawLruError::Order(inner) ==> call_ensures(order_code, (other, inner), beneath),
        old(last)@ == old(other)@,
    ensures
        e matches RawLruError::WrongSize { expected, found } ==> code == 3 && final(last)@ == "this cache uses "@
            + dec(expected as nat) + "-byte buffers here, and "@ + dec(found as nat) + " was given"@,
        e matches RawLruError::ZeroCapacity ==> code == 3
            && final(last)@ == "a cache of zero entries holds nothing"@,
        e matches RawLruError::Index(inner) ==> code == beneath && final(last)@ == final(other)@,
        e matches RawLruError::Order(inner) ==> code == beneath && final(last)@ == final(other)@,
{
}

} // verus!
