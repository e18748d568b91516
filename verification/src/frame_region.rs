//! The frame region: fixed-size blocks in a file that many processes allocate
//! from and free to, for payloads too large to travel inside a ring slot.
//!
//! A producer takes a block, writes its bytes and sends the block's index
//! through whatever ring it is using; a consumer reads the block and frees it.
//! Reclaim order does not matter, so any consumer may free any block and the
//! next allocation takes it.

use vstd::prelude::*;

use crate::arguments::{given, invalid_argument};
use crate::error::{
    answers, fail, ring_code, ring_code_report, told, LastError, Refused, Report, RingError,
    SUBETHA_E_INVALID_ARGUMENT, SUBETHA_E_OUT_OF_BOUNDS, SUBETHA_E_RING_FULL,
    SUBETHA_E_RING_PAYLOAD_TOO_LARGE, SUBETHA_E_WRONG_KIND,
};
use crate::handle::Object;
use crate::text::{dec, push_dec};

verus! {

/// The least a block may be; a block's size is a multiple of it.
pub const SUBETHA_FRAME_BLOCK_MIN: u64 = 8;

/// The index that names no block.
pub const SUBETHA_FRAME_NO_BLOCK: u32 = 0xFFFF_FFFF;

/// A snapshot of a frame region.
#[allow(non_camel_case_types)]
#[derive(Clone, Copy, Default, Debug, PartialEq, Eq)]
pub struct subetha_frame_region_stats {
    /// The mode this handle was created in.
    pub mode: u32,
    /// Bytes one block holds.
    pub block_size: u64,
    /// Blocks the region carries.
    pub block_count: u64,
    /// Bytes the whole region takes on disk.
    pub file_size: u64,
}

/// The payload behind a frame region's handle.
pub fn with_frame_region<'a, P>(last: &mut LastError, object: &'a Object<P>) -> (payload: Result<&'a P, i32>)
    ensures
        answers(
            payload,
            match *object {
                Object::FrameRegion(p) => Ok(&p),
                _ => Err(told(SUBETHA_E_WRONG_KIND, "the handle does not name a frame region"@)),
            },
            old(last)@,
            final(last)@,
        ),
{
    match object {
        Object::FrameRegion(p) => Ok(p),
        _ => Err(fail(last, SUBETHA_E_WRONG_KIND, "the handle does not name a frame region")),
    }
}

/// What a region's shape has to be: blocks of a whole number of words, and
/// every block with an index of its own.
pub open spec fn geometry_outcome(block_size: u32, block_count: u32) -> Result<(usize, usize), Report> {
    if block_size < SUBETHA_FRAME_BLOCK_MIN || block_size % 8 != 0 {
        Err(
            invalid_argument(
                "block_size "@ + dec(block_size as nat) + " is not a multiple of eight of at least "@
                    + dec(SUBETHA_FRAME_BLOCK_MIN as nat),
            ),
        )
    } else if block_count == 0 || block_count == SUBETHA_FRAME_NO_BLOCK {
        Err(
            invalid_argument(
                "block_count "@ + dec(block_count as nat) + " is zero or the index that names no block"@,
            ),
        )
    } else {
        Ok((block_size as usize, block_count as usize))
    }
}

/// The shape a constructor takes: blocks of a whole number of words, and
/// every block with an index of its own.
pub fn checked_geometry(last: &mut LastError, block_size: u32, block_count: u32) -> (checked: Result<
    (usize, usize),
    i32,
>)
    ensures
        answers(checked, geometry_outcome(block_size, block_count), old(last)@, final(last)@),
{
    if (block_size as u64) < SUBETHA_FRAME_BLOCK_MIN || block_size % 8 != 0 {
        let mut text: String = String::from_str("block_size ");
        push_dec(&mut text, block_size as u64);
        text.append(" is not a multiple of eight of at least ");
        push_dec(&mut text, SUBETHA_FRAME_BLOCK_MIN);
        return Err(fail(last, SUBETHA_E_INVALID_ARGUMENT, text.as_str()));
    }
    if block_count == 0 || block_count == SUBETHA_FRAME_NO_BLOCK {
        let mut text: String = String::from_str("block_count ");
        push_dec(&mut text, block_count as u64);
        text.append(" is zero or the index that names no block");
        return Err(fail(last, SUBETHA_E_INVALID_ARGUMENT, text.as_str()));
    }
    Ok((block_size as usize, block_count as usize))
}

/// In a region of an accepted shape, the index that names no block names
/// none.
pub proof fn no_block_names_no_block(block_size: u32, block_count: u32)
    requires
        geometry_outcome(block_size, block_count) is Ok,
    ensures
        block_outcome(block_count as usize, SUBETHA_FRAME_NO_BLOCK) is Err,
{
}

/// The arguments every constructor reads, in order, so the first refusal
/// names the argument at fault.
pub fn read_arguments<'a>(
    last: &mut LastError,
    initialized: Result<(), Refused>,
    out_null: bool,
    path: Result<&'a str, Refused>,
    block_size: u32,
    block_count: u32,
    mode: Result<u32, Refused>,
) -> (answer: Result<(&'a str, usize, usize, u32), i32>)
    ensures
        answers(
            answer,
            if initialized is Err {
                Err(initialized->Err_0.report())
            } else if out_null {
                Err(invalid_argument("out is null"@))
            } else if path is Err {
                Err(path->Err_0.report())
            } else if geometry_outcome(block_size, block_count) is Err {
                Err(geometry_outcome(block_size, block_count)->Err_0)
            } else if mode is Err {
                Err(mode->Err_0.report())
            } else {
                Ok((path->Ok_0, block_size as usize, block_count as usize, mode->Ok_0))
            },
            old(last)@,
            final(last)@,
        ),
{
    if let Err(code) = given(last, initialized) {
        return Err(code);
    }
    if out_null {
        return Err(fail(last, SUBETHA_E_INVALID_ARGUMENT, "out is null"));
    }
    let path: &'a str = match given(last, path) {
        Ok(path) => path,
        Err(code) => {
            return Err(code);
        },
    };
    let geometry: (usize, usize) = match checked_geometry(last, block_size, block_count) {
        Ok(geometry) => geometry,
        Err(code) => {
            return Err(code);
        },
    };
    let mode: u32 = match given(last, mode) {
        Ok(mode) => mode,
        Err(code) => {
            return Err(code);
        },
    };
    Ok((path, geometry.0, geometry.1, mode))
}

/// Make the object for a region that was built or opened, or answer with why
/// it could not be.
pub fn place<P>(last: &mut LastError, opened: Result<P, RingError>) -> (object: Result<Object<P>, i32>)
    ensures
        answers(
            object,
            match opened {
                Ok(p) => Ok(Object::FrameRegion(p)),
                Err(e) => Err(ring_code_report(e)),
            },
            old(last)@,
            final(last)@,
        ),
{
    match opened {
        Ok(p) => Ok(Object::FrameRegion(p)),
        Err(e) => Err(ring_code(last, e)),
    }
}

/// Somewhere to write the block an allocation takes.
pub fn alloc_arguments(
    last: &mut LastError,
    out_block_null: bool,
) -> (answer: Result<(), i32>)
    ensures
        answers(
            answer,
            if out_block_null {
                Err(invalid_argument("out_block is null"@))
            } else {
                Ok(())
            },
            old(last)@,
            final(last)@,
        ),
{
    if out_block_null {
        return Err(fail(last, SUBETHA_E_INVALID_ARGUMENT, "out_block is null"));
    }
    Ok(())
}

/// The block an allocation took, or that every block is taken.
pub fn subetha_frame_region_alloc(taken: Option<u32>) -> (block: Result<u32, i32>)
    ensures
        block == match taken {
            Some(b) => Ok::<u32, i32>(b),
            None => Err(SUBETHA_E_RING_FULL),
        },
{
    match taken {
        Some(b) => Ok(b),
        None => Err(SUBETHA_E_RING_FULL),
    }
}

/// What naming a block of a region of `block_count` blocks answers.
pub open spec fn block_outcome(block_count: usize, block: u32) -> Result<(), Report> {
    if block >= block_count {
        Err(
            told(
                SUBETHA_E_OUT_OF_BOUNDS,
                "block "@ + dec(block as nat) + " is past the "@ + dec(block_count as nat)
                    + " the region carries"@,
            ),
        )
    } else {
        Ok(())
    }
}

/// A block the region carries. A free gives back a block that passes this.
pub fn checked_block(last: &mut LastError, block_count: usize, block: u32) -> (checked: Result<(), i32>)
    ensures
        answers(checked, block_outcome(block_count, block), old(last)@, final(last)@),
{
    if block as usize >= block_count {
        let mut text: String = String::from_str("block ");
        push_dec(&mut text, block as u64);
        text.append(" is past the ");
        push_dec(&mut text, block_count as u64);
        text.append(" the region carries");
        return Err(fail(last, SUBETHA_E_OUT_OF_BOUNDS, text.as_str()));
    }
    Ok(())
}

/// What naming `len` bytes of a block answers.
pub open spec fn span_outcome(block_count: usize, block_size: usize, block: u32, len: usize) -> Result<(), Report> {
    if block_outcome(block_count, block) is Err {
        block_outcome(block_count, block)
    } else if len > block_size {
        Err(
            told(
                SUBETHA_E_RING_PAYLOAD_TOO_LARGE,
                dec(len as nat) + " bytes exceed the "@ + dec(block_size as nat) + "-byte block"@,
            ),
        )
    } else {
        Ok(())
    }
}

/// Bytes that fit a block the region carries.
pub fn checked_span(last: &mut LastError, block_count: usize, block_size: usize, block: u32, len: usize) -> (checked: Result<
    (),
    i32,
>)
    ensures
        answers(checked, span_outcome(block_count, block_size, block, len), old(last)@, final(last)@),
{
    if let Err(code) = checked_block(last, block_count, block) {
        return Err(code);
    }
    if len > block_size {
        let mut text: String = String::new();
        push_dec(&mut text, len as u64);
        text.append(" bytes exceed the ");
        push_dec(&mut text, block_size as u64);
        text.append("-byte block");
        return Err(fail(last, SUBETHA_E_RING_PAYLOAD_TOO_LARGE, text.as_str()));
    }
    Ok(())
}

/// The arguments of a write, checked in order: the block and the length, then
/// the bytes.
pub fn write_arguments<'a>(
    last: &mut LastError,
    block_count: usize,
    block_size: usize,
    block: u32,
    len: usize,
    data: Result<&'a [u8], Refused>,
) -> (answer: Result<&'a [u8], i32>)
    ensures
        answers(
            answer,
            if span_outcome(block_count, block_size, block, len) is Err {
                Err(span_outcome(block_count, block_size, block, len)->Err_0)
            } else if data is Err {
                Err(data->Err_0.report())
            } else {
                Ok(data->Ok_0)
            },
            old(last)@,
            final(last)@,
        ),
{
    if let Err(code) = checked_span(last, block_count, block_size, block, len) {
        return Err(code);
    }
    let data: &'a [u8] = match given(last, data) {
        Ok(data) => data,
        Err(code) => {
            return Err(code);
        },
    };
    Ok(data)
}

/// The arguments of a read, checked in order: the block and the length, then
/// somewhere to copy to.
pub fn read_block_arguments<B>(
    last: &mut LastError,
    block_count: usize,
    block_size: usize,
    block: u32,
    len: usize,
    buffer: Result<B, Refused>,
) -> (answer: Result<B, i32>)
    ensures
        answers(
            answer,
            if span_outcome(block_count, block_size, block, len) is Err {
                Err(span_outcome(block_count, block_size, block, len)->Err_0)
            } else if buffer is Err {
                Err(buffer->Err_0.report())
            } else {
                Ok(buffer->Ok_0)
            },
            old(last)@,
            final(last)@,
        ),
{
    if let Err(code) = checked_span(last, block_count, block_size, block, len) {
        return Err(code);
    }
    let buffer: B = match given(last, buffer) {
        Ok(buffer) => buffer,
        Err(code) => {
            return Err(code);
        },
    };
    Ok(buffer)
}

/// A snapshot, from what the region says.
pub fn stats(
    mode: u32,
    block_size: usize,
    block_count: usize,
    file_size: usize,
) -> (stats: subetha_frame_region_stats)
    ensures
        stats == (subetha_frame_region_stats {
            mode,
            block_size: block_size as u64,
            block_count: block_count as u64,
            file_size: file_size as u64,
        }),
{
    subetha_frame_region_stats {
        mode,
        block_size: block_size as u64,
        block_count: block_count as u64,
        file_size: file_size as u64,
    }
}

/// A call on a frame region reaches what stands behind a handle to a frame
/// region, and nothing behind any other handle.
pub proof fn only_a_frame_region_is_reached<P>(last: &mut LastError, object: &Object<P>, reached: Result<&P, i32>)
    requires
        call_ensures(with_frame_region::<P>, (last, object), reached),
    ensures
        reached is Ok <==> *object is FrameRegion,
        reached matches Ok(payload) ==> *object == Object::FrameRegion(*payload) && final(last)@ == old(last)@,
        reached matches Err(code) ==> code == SUBETHA_E_WRONG_KIND
            && final(last)@ == "the handle does not name a frame region"@,
{
}

/// A region that opened is placed as what it is; one that did not is answered
/// exactly as its error is.
pub proof fn a_region_that_opened_is_placed_as_one<P>(
    last: &mut LastError,
    other: &mut LastError,
    opened: Result<P, RingError>,
    answer: Result<Object<P>, i32>,
    code: i32,
)
    requires
        call_ensures(place::<P>, (last, opened), answer),
        opened matches Err(e) ==> call_ensures(ring_code, (other, e), code),
        old(last)@ == old(other)@,
    ensures
        opened matches Ok(value) ==> answer == Ok::<Object<P>, i32>(Object::FrameRegion(value))
            && final(last)@ == old(last)@,
        opened is Err ==> answer == Err::<Object<P>, i32>(code) && final(last)@ == final(other)@,
{
}

/// A snapshot reports each thing it was handed under that thing's own name.
pub proof fn a_snapshot_reports_each_thing_as_it_is(
    mode: u32,
    block_size: usize,
    block_count: usize,
    file_size: usize,
    shown: subetha_frame_region_stats,
)
    requires
        call_ensures(stats, (mode, block_size, block_count, file_size), shown),
    ensures
        shown.mode == mode,
        shown.block_size == block_size as u64,
        shown.block_count == block_count as u64,
        shown.file_size == file_size as u64,
{
}

/// A block is a multiple of eight bytes and at least eight, and there is at
/// least one block and one index left to name none; every such geometry is
/// accepted and handed on.
pub proof fn a_region_is_made_of_whole_words_and_named_blocks(
    last: &mut LastError,
    block_size: u32,
    block_count: u32,
    checked: Result<(usize, usize), i32>,
)
    requires
        call_ensures(checked_geometry, (last, block_size, block_count), checked),
    ensures
        checked is Ok <==> block_size >= 8 && block_size % 8 == 0 && 0 < block_count < u32::MAX,
        checked matches Ok(sizes) ==> sizes.0 == block_size && sizes.1 == block_count && final(last)@ == old(last)@,
        checked matches Err(code) ==> code == SUBETHA_E_INVALID_ARGUMENT,
{
}

/// The arguments are accepted exactly when nothing is wrong with any of them,
/// and then handed on unchanged; the first one at fault is the one answered
/// for.
pub proof fn a_region_is_made_with_arguments_that_are_right<'a>(
    last: &mut LastError,
    initialized: Result<(), Refused>,
    out_null: bool,
    path: Result<&'a str, Refused>,
    block_size: u32,
    block_count: u32,
    mode: Result<u32, Refused>,
    read: Result<(&'a str, usize, usize, u32), i32>,
)
    requires
        call_ensures(read_arguments, (last, initialized, out_null, path, block_size, block_count, mode), read),
    ensures
        read is Ok <==> initialized is Ok && !out_null && path is Ok && !(block_size < 8 || block_size % 8 != 0
            || block_count == 0 || block_count == u32::MAX) && mode is Ok,
        read matches Ok(all) ==> all.0 == path->Ok_0 && all.1 == block_size && all.2 == block_count
            && all.3 == mode->Ok_0 && final(last)@ == old(last)@,
        initialized is Err ==> read is Err && read->Err_0 == initialized->Err_0.code
            && final(last)@ == initialized->Err_0.report().leaves(old(last)@),
        initialized is Ok && out_null ==> read is Err && read->Err_0 == SUBETHA_E_INVALID_ARGUMENT
            && final(last)@ == "out is null"@,
        initialized is Ok && !out_null && path is Err ==> read is Err && read->Err_0 == path->Err_0.code
            && final(last)@ == path->Err_0.report().leaves(old(last)@),
        initialized is Ok && !out_null && path is Ok && (block_size < 8 || block_size % 8 != 0
            || block_count == 0 || block_count == u32::MAX) ==> read is Err
            && read->Err_0 == SUBETHA_E_INVALID_ARGUMENT,
        initialized is Ok && !out_null && path is Ok && !(block_size < 8 || block_size % 8 != 0
            || block_count == 0 || block_count == u32::MAX) && mode is Err ==> read is Err
            && read->Err_0 == mode->Err_0.code && final(last)@ == mode->Err_0.report().leaves(old(last)@),
{
}

/// A block is asked for exactly when there is a place for its index.
pub proof fn a_block_needs_a_place_for_its_index(last: &mut LastError, out_block_null: bool, answer: Result<(), i32>)
    requires
        call_ensures(alloc_arguments, (last, out_block_null), answer),
    ensures
        answer is Ok <==> !out_block_null,
        answer is Ok ==> final(last)@ == old(last)@,
        answer matches Err(code) ==> code == SUBETHA_E_INVALID_ARGUMENT && final(last)@ == "out_block is null"@,
{
}

/// A block that was taken is handed out, and the region is full only when none
/// was.
pub proof fn a_region_is_full_only_when_no_block_came(taken: Option<u32>, block: Result<u32, i32>)
    requires
        call_ensures(subetha_frame_region_alloc, (taken,), block),
    ensures
        taken matches Some(b) ==> block == Ok::<u32, i32>(b),
        taken is None ==> block == Err::<u32, i32>(SUBETHA_E_RING_FULL),
{
}

/// A block is accepted exactly when the region carries it.
pub proof fn a_block_is_named_below_the_count(
    last: &mut LastError,
    block_count: usize,
    block: u32,
    checked: Result<(), i32>,
)
    requires
        call_ensures(checked_block, (last, block_count, block), checked),
    ensures
        checked is Ok <==> block < block_count,
        checked is Ok ==> final(last)@ == old(last)@,
        checked matches Err(code) ==> code == SUBETHA_E_OUT_OF_BOUNDS,
{
}

/// A span is accepted exactly when its block is there and it is no longer than
/// a block; a missing block is out of bounds and a long span too large.
pub proof fn a_span_fits_up_to_the_whole_block(
    last: &mut LastError,
    block_count: usize,
    block_size: usize,
    block: u32,
    len: usize,
    checked: Result<(), i32>,
)
    requires
        call_ensures(checked_span, (last, block_count, block_size, block, len), checked),
    ensures
        checked is Ok <==> block < block_count && len <= block_size,
        checked is Ok ==> final(last)@ == old(last)@,
        block >= block_count ==> checked == Err::<(), i32>(SUBETHA_E_OUT_OF_BOUNDS),
        block < block_count && len > block_size ==> checked == Err::<(), i32>(SUBETHA_E_RING_PAYLOAD_TOO_LARGE),
{
}

/// The arguments are accepted exactly when nothing is wrong with any of them,
/// and then handed on unchanged; the first one at fault is the one answered
/// for.
pub proof fn a_write_fits_its_block<'a>(
    last: &mut LastError,
    block_count: usize,
    block_size: usize,
    block: u32,
    len: usize,
    data: Result<&'a [u8], Refused>,
    read: Result<&'a [u8], i32>,
)
    requires
        call_ensures(write_arguments, (last, block_count, block_size, block, len, data), read),
    ensures
        read is Ok <==> block < block_count && len <= block_size && data is Ok,
        read matches Ok(all) ==> all == data->Ok_0 && final(last)@ == old(last)@,
        block >= block_count ==> read is Err && read->Err_0 == SUBETHA_E_OUT_OF_BOUNDS,
        block < block_count && len > block_size ==> read is Err && read->Err_0 == SUBETHA_E_RING_PAYLOAD_TOO_LARGE,
        block < block_count && len <= block_size && data is Err ==> read is Err
            && read->Err_0 == data->Err_0.code && final(last)@ == data->Err_0.report().leaves(old(last)@),
{
}

/// The arguments are accepted exactly when nothing is wrong with any of them,
/// and then handed on unchanged; the first one at fault is the one answered
/// for.
pub proof fn a_read_fits_its_block<B>(
    last: &mut LastError,
    block_count: usize,
    block_size: usize,
    block: u32,
    len: usize,
    buffer: Result<B, Refused>,
    read: Result<B, i32>,
)
    requires
        call_ensures(read_block_arguments::<B>, (last, block_count, block_size, block, len, buffer), read),
    ensures
        read is Ok <==> block < block_count && len <= block_size && buffer is Ok,
        read matches Ok(all) ==> all == buffer->Ok_0 && final(last)@ == old(last)@,
        block >= block_count ==> read is Err && read->Err_0 == SUBETHA_E_OUT_OF_BOUNDS,
        block < block_count && len > block_size ==> read is Err && read->Err_0 == SUBETHA_E_RING_PAYLOAD_TOO_LARGE,
        block < block_count && len <= block_size && buffer is Err ==> read is Err
            && read->Err_0 == buffer->Err_0.code && final(last)@ == buffer->Err_0.report().leaves(old(last)@),
{
}

/// The numbers callers give and are given, as they were built against them.
pub proof fn the_numbers_are_the_ones_callers_know()
    ensures
        SUBETHA_FRAME_BLOCK_MIN == 8,
        SUBETHA_FRAME_NO_BLOCK == 0xFFFF_FFFF,
{
}

/// A refusal says what was given and what it should have been.
pub proof fn a_geometry_at_fault_is_told(
    last: &mut LastError,
    block_size: u32,
    block_count: u32,
    checked: Result<(usize, usize), i32>,
)
    requires
        call_ensures(checked_geometry, (last, block_size, block_count), checked),
    ensures
        block_size < 8 || block_size % 8 != 0 ==> final(last)@ == "block_size "@ + dec(block_size as nat)
            + " is not a multiple of eight of at least "@ + dec(8),
        block_size >= 8 && block_size % 8 == 0 && checked is Err ==> final(last)@ == "block_count "@
            + dec(block_count as nat) + " is zero or the index that names no block"@,
{
}

/// A refusal says what was given and what it should have been.
pub proof fn a_span_at_fault_is_told(
    last: &mut LastError,
    block_count: usize,
    block_size: usize,
    block: u32,
    len: usize,
    checked: Result<(), i32>,
)
    requires
        call_ensures(checked_span, (last, block_count, block_size, block, len), checked),
    ensures
        block >= block_count ==> final(last)@ == "block "@ + dec(block as nat) + " is past the "@
            + dec(block_count as nat) + " the region carries"@,
        block < block_count && len > block_size ==> final(last)@ == dec(len as nat) + " bytes exceed the "@
            + dec(block_size as nat) + "-byte block"@,
{
}

} // verus!
