//! A shared HyperLogLog: how many distinct items have been seen, in memory
//! that does not grow with the answer.
//!
//! The count is an estimate and cannot be anything else. The sketch stores
//! registers rather than members, so it can say roughly how many distinct
//! items it saw and can never say whether a particular one was among them.

use vstd::prelude::*;

use crate::arguments::{given, invalid_argument};
use crate::error::{
    answers, answers_code, fail, told, LastError, Refused, Report, SUBETHA_E_INVALID_ARGUMENT,
    SUBETHA_E_RING_IO, SUBETHA_E_RING_LAYOUT_MISMATCH, SUBETHA_E_WRONG_KIND,
};
use crate::handle::Object;
use crate::text::{dec, push_dec};

verus! {

/// The smallest precision the sketch accepts.
pub const SUBETHA_HLL_MIN_PRECISION: u32 = 4;

/// The largest. Registers, and so the file, grow as two to this power.
pub const SUBETHA_HLL_MAX_PRECISION: u32 = 16;

/// A snapshot of a shared HyperLogLog.
#[allow(non_camel_case_types)]
#[derive(Clone, Copy, Default, Debug, PartialEq, Eq)]
pub struct subetha_hll_stats {
    /// The mode this handle was created in.
    pub mode: u32,
    /// The precision it was built with.
    pub precision: u32,
    /// Registers that precision implies, which is two to its power.
    pub n_registers: u32,
    /// Distinct items the registers imply. An estimate, and one that
    /// another process inserting during the read can move.
    pub estimated_distinct: u64,
}

/// What a shared HyperLogLog refuses with.
#[derive(Debug)]
pub enum HLLError {
    /// A precision outside the range.
    InvalidPrecision,
    /// A backing exists with another layout.
    LayoutMismatch,
    /// The OS refused; the kind of the refusal.
    IoError(String),
}

/// What `code_for` answers.
pub open spec fn code_for_report(e: HLLError) -> Report {
    match e {
        HLLError::InvalidPrecision => told(SUBETHA_E_INVALID_ARGUMENT, "precision must be 4 to 16"@),
        HLLError::LayoutMismatch => told(SUBETHA_E_RING_LAYOUT_MISMATCH, "the sketch on disk was built with another precision"@),
        HLLError::IoError(kind) => told(SUBETHA_E_RING_IO, "io error: "@ + kind@),
    }
}

/// The map from a sketch's error to the code that names it.
pub fn code_for(last: &mut LastError, e: HLLError) -> (code: i32)
    ensures
        answers_code(code, code_for_report(e), old(last)@, final(last)@),
{
    match e {
        HLLError::InvalidPrecision => fail(last, SUBETHA_E_INVALID_ARGUMENT, "precision must be 4 to 16"),
        HLLError::LayoutMismatch => fail(last, SUBETHA_E_RING_LAYOUT_MISMATCH, "the sketch on disk was built with another precision"),
        HLLError::IoError(kind) => {
            let mut text: String = String::from_str("io error: ");
            text.append(kind.as_str());
            fail(last, SUBETHA_E_RING_IO, text.as_str())
        },
    }
}

/// The payload behind a HyperLogLog's handle.
pub fn with_hll<'a, P>(last: &mut LastError, object: &'a Object<P>) -> (payload: Result<&'a P, i32>)
    ensures
        answers(
            payload,
            match *object {
                Object::Hll(p) => Ok(&p),
                _ => Err(told(SUBETHA_E_WRONG_KIND, "the handle does not name a HyperLogLog"@)),
            },
            old(last)@,
            final(last)@,
        ),
{
    match object {
        Object::Hll(p) => Ok(p),
        _ => Err(fail(last, SUBETHA_E_WRONG_KIND, "the handle does not name a HyperLogLog")),
    }
}

/// What [`read_arguments`] answers.
pub open spec fn read_arguments_outcome<'a>(
    initialized: Result<(), Refused>,
    out_null: bool,
    precision: u32,
    path: Result<&'a str, Refused>,
    mode: Result<u32, Refused>,
) -> Result<(&'a str, u8, u32), Report> {
    if initialized is Err {
        Err(initialized->Err_0.report())
    } else if out_null {
        Err(invalid_argument("out is null"@))
    } else if precision < SUBETHA_HLL_MIN_PRECISION || precision > SUBETHA_HLL_MAX_PRECISION {
        Err(invalid_argument("precision "@ + dec(precision as nat) + " is outside "@ + dec(SUBETHA_HLL_MIN_PRECISION as nat) + " to "@ + dec(SUBETHA_HLL_MAX_PRECISION as nat)))
    } else if path is Err {
        Err(path->Err_0.report())
    } else if mode is Err {
        Err(mode->Err_0.report())
    } else {
        Ok((path->Ok_0, precision as u8, mode->Ok_0))
    }
}

/// The checks every constructor makes. The precision is narrowed here so one
/// far outside the range is refused with the range in the message rather
/// than wrapping into it.
pub fn read_arguments<'a>(
    last: &mut LastError,
    initialized: Result<(), Refused>,
    out_null: bool,
    precision: u32,
    path: Result<&'a str, Refused>,
    mode: Result<u32, Refused>,
) -> (read: Result<(&'a str, u8, u32), i32>)
    ensures
        answers(
            read,
            read_arguments_outcome(initialized, out_null, precision, path, mode),
            old(last)@,
            final(last)@,
        ),
{
    if let Err(code) = given(last, initialized) {
        return Err(code);
    }
    if out_null {
        return Err(fail(last, SUBETHA_E_INVALID_ARGUMENT, "out is null"));
    }
    if precision < SUBETHA_HLL_MIN_PRECISION || precision > SUBETHA_HLL_MAX_PRECISION {
        let mut text: String = String::from_str("precision ");
        push_dec(&mut text, precision as u64);
        text.append(" is outside ");
        push_dec(&mut text, SUBETHA_HLL_MIN_PRECISION as u64);
        text.append(" to ");
        push_dec(&mut text, SUBETHA_HLL_MAX_PRECISION as u64);
        return Err(fail(last, SUBETHA_E_INVALID_ARGUMENT, text.as_str()));
    }
    let path: &'a str = match given(last, path) {
        Ok(path) => path,
        Err(code) => {
            return Err(code);
        },
    };
    let mode: u32 = match given(last, mode) {
        Ok(mode) => mode,
        Err(code) => {
            return Err(code);
        },
    };
    Ok((path, precision as u8, mode))
}

/// Make the object for a sketch that was built or opened, or answer with why
/// it could not be.
pub fn place<P>(last: &mut LastError, opened: Result<P, HLLError>) -> (object: Result<Object<P>, i32>)
    ensures
        answers(
            object,
            match opened {
                Ok(p) => Ok(Object::Hll(p)),
                Err(e) => Err(code_for_report(e)),
            },
            old(last)@,
            final(last)@,
        ),
{
    match opened {
        Ok(p) => Ok(Object::Hll(p)),
        Err(e) => Err(code_for(last, e)),
    }
}

/// What a call on a sketch answers, given how it went: its value, or the
/// code its error maps to.
pub fn outcome<T>(last: &mut LastError, went: Result<T, HLLError>) -> (answer: Result<T, i32>)
    ensures
        answers(
            answer,
            match went {
                Ok(value) => Ok(value),
                Err(e) => Err(code_for_report(e)),
            },
            old(last)@,
            final(last)@,
        ),
{
    match went {
        Ok(value) => Ok(value),
        Err(e) => Err(code_for(last, e)),
    }
}

/// A snapshot, from what the sketch says.
pub fn stats(
    mode: u32,
    precision: u8,
    n_registers: u32,
    estimated_distinct: u64,
) -> (stats: subetha_hll_stats)
    ensures
        stats == (subetha_hll_stats {
            mode,
            precision: precision as u32,
            n_registers,
            estimated_distinct,
        }),
{
    subetha_hll_stats {
        mode,
        precision: precision as u32,
        n_registers,
        estimated_distinct,
    }
}

/// A call on a sketch reaches what stands behind a handle to a sketch, and
/// nothing behind any other handle.
pub proof fn only_a_sketch_is_reached<P>(last: &mut LastError, object: &Object<P>, reached: Result<&P, i32>)
    requires
        call_ensures(with_hll::<P>, (last, object), reached),
    ensures
        reached is Ok <==> *object is Hll,
        reached matches Ok(payload) ==> *object == Object::Hll(*payload) && final(last)@ == old(last)@,
        reached matches Err(code) ==> code == SUBETHA_E_WRONG_KIND
            && final(last)@ == "the handle does not name a HyperLogLog"@,
{
}

/// A sketch that opened is placed as what it is; one that did not is answered
/// exactly as its error is.
pub proof fn a_sketch_that_opened_is_placed_as_one<P>(
    last: &mut LastError,
    other: &mut LastError,
    opened: Result<P, HLLError>,
    answer: Result<Object<P>, i32>,
    code: i32,
)
    requires
        call_ensures(place::<P>, (last, opened), answer),
        opened matches Err(e) ==> call_ensures(code_for, (other, e), code),
        old(last)@ == old(other)@,
    ensures
        opened matches Ok(value) ==> answer == Ok::<Object<P>, i32>(Object::Hll(value))
            && final(last)@ == old(last)@,
        opened is Err ==> answer == Err::<Object<P>, i32>(code) && final(last)@ == final(other)@,
{
}

/// A call that went well answers with what it gave, and one that did not
/// answers exactly as its error does.
pub proof fn a_call_that_went_well_is_not_refused<T>(
    last: &mut LastError,
    other: &mut LastError,
    went: Result<T, HLLError>,
    answer: Result<T, i32>,
    code: i32,
)
    requires
        call_ensures(outcome::<T>, (last, went), answer),
        went matches Err(e) ==> call_ensures(code_for, (other, e), code),
        old(last)@ == old(other)@,
    ensures
        went matches Ok(value) ==> answer == Ok::<T, i32>(value) && final(last)@ == old(last)@,
        went is Err ==> answer == Err::<T, i32>(code) && final(last)@ == final(other)@,
{
}

/// A snapshot reports each thing it was handed under that thing's own name.
pub proof fn a_snapshot_reports_each_thing_as_it_is(
    mode: u32,
    precision: u8,
    n_registers: u32,
    estimated_distinct: u64,
    shown: subetha_hll_stats,
)
    requires
        call_ensures(stats, (mode, precision, n_registers, estimated_distinct), shown),
    ensures
        shown.mode == mode,
        shown.precision == precision as u32,
        shown.n_registers == n_registers,
        shown.estimated_distinct == estimated_distinct,
{
}

/// The arguments are accepted exactly when nothing is wrong with any of them,
/// and then handed on unchanged; the first one at fault is the one answered
/// for. A precision is right from four to sixteen.
pub proof fn a_sketch_is_made_with_arguments_that_are_right<'a>(
    last: &mut LastError,
    initialized: Result<(), Refused>,
    out_null: bool,
    precision: u32,
    path: Result<&'a str, Refused>,
    mode: Result<u32, Refused>,
    read: Result<(&'a str, u8, u32), i32>,
)
    requires
        call_ensures(read_arguments, (last, initialized, out_null, precision, path, mode), read),
    ensures
        read is Ok <==> initialized is Ok && !out_null && !(precision < 4 || precision > 16) && path is Ok
            && mode is Ok,
        read matches Ok(all) ==> all.0 == path->Ok_0 && all.1 == precision && all.2 == mode->Ok_0
            && final(last)@ == old(last)@,
        initialized is Err ==> read is Err && read->Err_0 == initialized->Err_0.code
            && final(last)@ == initialized->Err_0.report().leaves(old(last)@),
        initialized is Ok && out_null ==> read is Err && read->Err_0 == SUBETHA_E_INVALID_ARGUMENT
            && final(last)@ == "out is null"@,
        initialized is Ok && !out_null && (precision < 4 || precision > 16) ==> read is Err
            && read->Err_0 == SUBETHA_E_INVALID_ARGUMENT,
        initialized is Ok && !out_null && !(precision < 4 || precision > 16) && path is Err ==> read is Err
            && read->Err_0 == path->Err_0.code && final(last)@ == path->Err_0.report().leaves(old(last)@),
        initialized is Ok && !out_null && !(precision < 4 || precision > 16) && path is Ok && mode is Err
            ==> read is Err && read->Err_0 == mode->Err_0.code
            && final(last)@ == mode->Err_0.report().leaves(old(last)@),
{
}

/// The numbers callers give and are given, as they were built against them.
pub proof fn the_numbers_are_the_ones_callers_know()
    ensures
        SUBETHA_HLL_MIN_PRECISION == 4,
        SUBETHA_HLL_MAX_PRECISION == 16,
{
}

/// Each error answers with its own code. One with specifics leaves them, and
/// one without leaves what was there.
pub proof fn each_error_has_its_code(last: &mut LastError, e: HLLError, code: i32)
    requires
        call_ensures(code_for, (last, e), code),
    ensures
        e matches HLLError::InvalidPrecision ==> code == 3 && final(last)@ == "precision must be 4 to 16"@,
        e matches HLLError::LayoutMismatch ==> code == 102
            && final(last)@ == "the sketch on disk was built with another precision"@,
        e matches HLLError::IoError(kind) ==> code == 107 && final(last)@ == "io error: "@ + kind@,
{
}

} // verus!
