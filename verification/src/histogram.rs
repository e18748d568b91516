//! The shared histogram: bucket counters in a file that any number of
//! processes record into and read.
//!
//! The caller declares the bucket boundaries, ascending, and gets one
//! bucket per boundary plus a final one for everything above the last.

use vstd::prelude::*;

use crate::arguments::{given, invalid_argument};
use crate::error::{
    answers, answers_code, fail, told, LastError, Refused, Report, SUBETHA_E_INVALID_ARGUMENT,
    SUBETHA_E_RING_IO, SUBETHA_E_RING_LAYOUT_MISMATCH, SUBETHA_E_WRONG_KIND,
};
use crate::handle::Object;

verus! {

/// A snapshot of a shared histogram.
#[allow(non_camel_case_types)]
#[derive(Clone, Copy, Default, Debug, PartialEq, Eq)]
pub struct subetha_histogram_stats {
    /// The mode this handle was created in.
    pub mode: u32,
    /// Buckets, which is one more than the boundaries the caller gave.
    pub n_buckets: u64,
    /// Values recorded.
    pub total_count: u64,
}

/// What a shared histogram refuses with.
#[derive(Debug)]
pub enum HistogramError {
    /// No boundaries.
    EmptyBoundaries,
    /// The boundaries do not ascend.
    NonMonotonicBoundaries,
    /// No such bucket.
    OutOfBounds,
    /// A backing exists with another layout.
    LayoutMismatch,
    /// The OS refused; the kind of the refusal.
    IoError(String),
}

/// What `code_for` answers.
pub open spec fn code_for_report(e: HistogramError) -> Report {
    match e {
        HistogramError::EmptyBoundaries => told(SUBETHA_E_INVALID_ARGUMENT, "the boundaries are empty"@),
        HistogramError::NonMonotonicBoundaries => told(SUBETHA_E_INVALID_ARGUMENT, "the boundaries do not ascend"@),
        HistogramError::OutOfBounds => told(SUBETHA_E_INVALID_ARGUMENT, "that bucket index is past the last bucket"@),
        HistogramError::LayoutMismatch => told(SUBETHA_E_RING_LAYOUT_MISMATCH, "the histogram on disk was built with other boundaries"@),
        HistogramError::IoError(kind) => told(SUBETHA_E_RING_IO, "io error: "@ + kind@),
    }
}

/// The map from a histogram's error to the code that names it.
pub fn code_for(last: &mut LastError, e: HistogramError) -> (code: i32)
    ensures
        answers_code(code, code_for_report(e), old(last)@, final(last)@),
{
    match e {
        HistogramError::EmptyBoundaries => fail(last, SUBETHA_E_INVALID_ARGUMENT, "the boundaries are empty"),
        HistogramError::NonMonotonicBoundaries => fail(last, SUBETHA_E_INVALID_ARGUMENT, "the boundaries do not ascend"),
        HistogramError::OutOfBounds => fail(last, SUBETHA_E_INVALID_ARGUMENT, "that bucket index is past the last bucket"),
        HistogramError::LayoutMismatch => fail(last, SUBETHA_E_RING_LAYOUT_MISMATCH, "the histogram on disk was built with other boundaries"),
        HistogramError::IoError(kind) => {
            let mut text: String = String::from_str("io error: ");
            text.append(kind.as_str());
            fail(last, SUBETHA_E_RING_IO, text.as_str())
        },
    }
}

/// The payload behind a histogram's handle.
pub fn with_histogram<'a, P>(last: &mut LastError, object: &'a Object<P>) -> (payload: Result<&'a P, i32>)
    ensures
        answers(
            payload,
            match *object {
                Object::Histogram(p) => Ok(&p),
                _ => Err(told(SUBETHA_E_WRONG_KIND, "the handle does not name a histogram"@)),
            },
            old(last)@,
            final(last)@,
        ),
{
    match object {
        Object::Histogram(p) => Ok(p),
        _ => Err(fail(last, SUBETHA_E_WRONG_KIND, "the handle does not name a histogram")),
    }
}

/// What [`read_arguments`] answers.
pub open spec fn read_arguments_outcome<'a>(
    initialized: Result<(), Refused>,
    out_null: bool,
    path: Result<&'a str, Refused>,
    boundaries_null: bool,
    boundaries: &'a [u64],
    mode: Result<u32, Refused>,
) -> Result<(&'a str, &'a [u64], u32), Report> {
    if initialized is Err {
        Err(initialized->Err_0.report())
    } else if out_null {
        Err(invalid_argument("out is null"@))
    } else if path is Err {
        Err(path->Err_0.report())
    } else if boundaries_null {
        Err(invalid_argument("boundaries is null"@))
    } else if boundaries.len() == 0 {
        Err(invalid_argument("n_boundaries is zero"@))
    } else if mode is Err {
        Err(mode->Err_0.report())
    } else {
        Ok((path->Ok_0, boundaries, mode->Ok_0))
    }
}

/// The arguments every constructor reads, in order, so the first refusal
/// names the argument at fault.
pub fn read_arguments<'a>(
    last: &mut LastError,
    initialized: Result<(), Refused>,
    out_null: bool,
    path: Result<&'a str, Refused>,
    boundaries_null: bool,
    boundaries: &'a [u64],
    mode: Result<u32, Refused>,
) -> (read: Result<(&'a str, &'a [u64], u32), i32>)
    ensures
        answers(
            read,
            read_arguments_outcome(initialized, out_null, path, boundaries_null, boundaries, mode),
            old(last)@,
            final(last)@,
        ),
{
    if let Err(code) = given(last, initialized) {
        return Err(code);
    }
    if out_null {
        return Err(fail(last, SUBETHA_E_INVALID_ARGUMENT, "out is null"));
    }
    let path: &'a str = match given(last, path) {
        Ok(path) => path,
        Err(code) => {
            return Err(code);
        },
    };
    if boundaries_null {
        return Err(fail(last, SUBETHA_E_INVALID_ARGUMENT, "boundaries is null"));
    }
    if boundaries.len() == 0 {
        return Err(fail(last, SUBETHA_E_INVALID_ARGUMENT, "n_boundaries is zero"));
    }
    let mode: u32 = match given(last, mode) {
        Ok(mode) => mode,
        Err(code) => {
            return Err(code);
        },
    };
    Ok((path, boundaries, mode))
}

/// Make the object for a histogram that was built or opened, or answer with why
/// it could not be.
pub fn place<P>(last: &mut LastError, opened: Result<P, HistogramError>) -> (object: Result<Object<P>, i32>)
    ensures
        answers(
            object,
            match opened {
                Ok(p) => Ok(Object::Histogram(p)),
                Err(e) => Err(code_for_report(e)),
            },
            old(last)@,
            final(last)@,
        ),
{
    match opened {
        Ok(p) => Ok(Object::Histogram(p)),
        Err(e) => Err(code_for(last, e)),
    }
}

/// What a call on a histogram answers, given how it went: its value, or the
/// code its error maps to.
pub fn outcome<T>(last: &mut LastError, went: Result<T, HistogramError>) -> (answer: Result<T, i32>)
    ensures
        answers(
            answer,
            match went {
                Ok(value) => Ok(value),
                Err(e) => Err(code_for_report(e)),
            },
            old(last)@,
            final(last)@,
        ),
{
    match went {
        Ok(value) => Ok(value),
        Err(e) => Err(code_for(last, e)),
    }
}

/// A snapshot, from what the histogram says.
pub fn stats(
    mode: u32,
    n_buckets: usize,
    total_count: u64,
) -> (stats: subetha_histogram_stats)
    ensures
        stats == (subetha_histogram_stats {
            mode,
            n_buckets: n_buckets as u64,
            total_count,
        }),
{
    subetha_histogram_stats {
        mode,
        n_buckets: n_buckets as u64,
        total_count,
    }
}

/// A call on a histogram reaches what stands behind a handle to a histogram,
/// and nothing behind any other handle.
pub proof fn only_a_histogram_is_reached<P>(last: &mut LastError, object: &Object<P>, reached: Result<&P, i32>)
    requires
        call_ensures(with_histogram::<P>, (last, object), reached),
    ensures
        reached is Ok <==> *object is Histogram,
        reached matches Ok(payload) ==> *object == Object::Histogram(*payload) && final(last)@ == old(last)@,
        reached matches Err(code) ==> code == SUBETHA_E_WRONG_KIND
            && final(last)@ == "the handle does not name a histogram"@,
{
}

/// A histogram that opened is placed as what it is; one that did not is
/// answered exactly as its error is.
pub proof fn a_histogram_that_opened_is_placed_as_one<P>(
    last: &mut LastError,
    other: &mut LastError,
    opened: Result<P, HistogramError>,
    answer: Result<Object<P>, i32>,
    code: i32,
)
    requires
        call_ensures(place::<P>, (last, opened), answer),
        opened matches Err(e) ==> call_ensures(code_for, (other, e), code),
        old(last)@ == old(other)@,
    ensures
        opened matches Ok(value) ==> answer == Ok::<Object<P>, i32>(Object::Histogram(value))
            && final(last)@ == old(last)@,
        opened is Err ==> answer == Err::<Object<P>, i32>(code) && final(last)@ == final(other)@,
{
}

/// A call that went well answers with what it gave, and one that did not
/// answers exactly as its error does.
pub proof fn a_call_that_went_well_is_not_refused<T>(
    last: &mut LastError,
    other: &mut LastError,
    went: Result<T, HistogramError>,
    answer: Result<T, i32>,
    code: i32,
)
    requires
        call_ensures(outcome::<T>, (last, went), answer),
        went matches Err(e) ==> call_ensures(code_for, (other, e), code),
        old(last)@ == old(other)@,
    ensures
        went matches Ok(value) ==> answer == Ok::<T, i32>(value) && final(last)@ == old(last)@,
        went is Err ==> answer == Err::<T, i32>(code) && final(last)@ == final(other)@,
{
}

/// A snapshot reports each thing it was handed under that thing's own name.
pub proof fn a_snapshot_reports_each_thing_as_it_is(
    mode: u32,
    n_buckets: usize,
    total_count: u64,
    shown: subetha_histogram_stats,
)
    requires
        call_ensures(stats, (mode, n_buckets, total_count), shown),
    ensures
        shown.mode == mode,
        shown.n_buckets == n_buckets as u64,
        shown.total_count == total_count,
{
}

/// The arguments are accepted exactly when nothing is wrong with any of them,
/// and then handed on unchanged; the first one at fault is the one answered
/// for.
pub proof fn a_histogram_is_made_with_arguments_that_are_right<'a>(
    last: &mut LastError,
    initialized: Result<(), Refused>,
    out_null: bool,
    path: Result<&'a str, Refused>,
    boundaries_null: bool,
    boundaries: &'a [u64],
    mode: Result<u32, Refused>,
    read: Result<(&'a str, &'a [u64], u32), i32>,
)
    requires
        call_ensures(read_arguments, (last, initialized, out_null, path, boundaries_null, boundaries, mode), read),
    ensures
        read is Ok <==> initialized is Ok && !out_null && path is Ok && !boundaries_null
            && boundaries@.len() != 0 && mode is Ok,
        read matches Ok(all) ==> all.0 == path->Ok_0 && all.1 == boundaries && all.2 == mode->Ok_0
            && final(last)@ == old(last)@,
        initialized is Err ==> read is Err && read->Err_0 == initialized->Err_0.code
            && final(last)@ == initialized->Err_0.report().leaves(old(last)@),
        initialized is Ok && out_null ==> read is Err && read->Err_0 == SUBETHA_E_INVALID_ARGUMENT
            && final(last)@ == "out is null"@,
        initialized is Ok && !out_null && path is Err ==> read is Err && read->Err_0 == path->Err_0.code
            && final(last)@ == path->Err_0.report().leaves(old(last)@),
        initialized is Ok && !out_null && path is Ok && boundaries_null ==> read is Err
            && read->Err_0 == SUBETHA_E_INVALID_ARGUMENT && final(last)@ == "boundaries is null"@,
        initialized is Ok && !out_null && path is Ok && !boundaries_null && boundaries@.len() == 0
            ==> read is Err && read->Err_0 == SUBETHA_E_INVALID_ARGUMENT && final(last)@ == "n_boundaries is zero"@,
        initialized is Ok && !out_null && path is Ok && !boundaries_null && boundaries@.len() != 0
            && mode is Err ==> read is Err && read->Err_0 == mode->Err_0.code
            && final(last)@ == mode->Err_0.report().leaves(old(last)@),
{
}

/// Each error answers with its own code. One with specifics leaves them, and
/// one without leaves what was there.
pub proof fn each_error_has_its_code(last: &mut LastError, e: HistogramError, code: i32)
    requires
        call_ensures(code_for, (last, e), code),
    ensures
        e matches HistogramError::EmptyBoundaries ==> code == 3 && final(last)@ == "the boundaries are empty"@,
        e matches HistogramError::NonMonotonicBoundaries ==> code == 3
            && final(last)@ == "the boundaries do not ascend"@,
        e matches HistogramError::OutOfBounds ==> code == 3
            && final(last)@ == "that bucket index is past the last bucket"@,
        e matches HistogramError::LayoutMismatch ==> code == 102
            && final(last)@ == "the histogram on disk was built with other boundaries"@,
        e matches HistogramError::IoError(kind) ==> code == 107 && final(last)@ == "io error: "@ + kind@,
{
}

} // verus!
