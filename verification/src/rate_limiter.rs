//! The shared rate limiter: a token bucket in a file that any number of
//! processes draw from.
//!
//! The bucket holds a number of tokens and refills at a rate toward that
//! ceiling, so the capacity is the burst a caller may take at once and the
//! rate is the steady one. A request larger than the capacity can never be
//! met and is refused rather than waited on.

use vstd::prelude::*;

use crate::arguments::{given, invalid_argument};
use crate::error::{
    answers, answers_code, bare, fail, told, LastError, Refused, Report, SUBETHA_E_INVALID_ARGUMENT,
    SUBETHA_E_RING_IO, SUBETHA_E_RING_LAYOUT_MISMATCH, SUBETHA_E_TIMEOUT, SUBETHA_E_WOULD_BLOCK,
    SUBETHA_E_WRONG_KIND,
};
use crate::handle::Object;
use crate::text::{dec, push_dec};

verus! {

/// A snapshot of a shared rate limiter.
#[allow(non_camel_case_types)]
#[derive(Clone, Copy, Default, Debug, PartialEq, Eq)]
pub struct subetha_rate_limiter_stats {
    /// The mode this handle was created in.
    pub mode: u32,
    /// Tokens the bucket holds when full, which is the largest burst.
    pub capacity: u32,
    /// Tokens added per second, toward the capacity.
    pub refill_rate_per_sec: u32,
    /// Tokens available right now.
    pub available: u32,
}

/// What a shared rate limiter refuses with.
#[derive(Debug)]
pub enum RateLimiterError {
    /// Fewer tokens are there than asked for.
    InsufficientTokens {
        /// Tokens there.
        available: u64,
        /// Tokens asked for.
        requested: u64,
    },
    /// The deadline passed.
    Timeout,
    /// A zero capacity or rate.
    InvalidConfig,
    /// A backing exists with another layout.
    LayoutMismatch,
    /// The OS refused; the kind of the refusal.
    IoError(String),
}

/// What `code_for` answers.
pub open spec fn code_for_report(e: RateLimiterError) -> Report {
    match e {
        RateLimiterError::InsufficientTokens { available, requested } => told(SUBETHA_E_WOULD_BLOCK, dec(requested as nat) + " token(s) requested with "@ + dec(available as nat) + " available"@),
        RateLimiterError::Timeout => bare(SUBETHA_E_TIMEOUT),
        RateLimiterError::InvalidConfig => told(SUBETHA_E_INVALID_ARGUMENT, "capacity and refill_rate_per_sec must both be above zero"@),
        RateLimiterError::LayoutMismatch => told(SUBETHA_E_RING_LAYOUT_MISMATCH, "the limiter on disk was built with another capacity or rate"@),
        RateLimiterError::IoError(kind) => told(SUBETHA_E_RING_IO, "io error: "@ + kind@),
    }
}

/// The map from a limiter's error to the code that names it.
pub fn code_for(last: &mut LastError, e: RateLimiterError) -> (code: i32)
    ensures
        answers_code(code, code_for_report(e), old(last)@, final(last)@),
{
    match e {
        RateLimiterError::InsufficientTokens { available, requested } => {
            let mut text: String = String::new();
            push_dec(&mut text, requested);
            text.append(" token(s) requested with ");
            push_dec(&mut text, available);
            text.append(" available");
            proof {
                assert(text@ =~= dec(requested as nat) + " token(s) requested with "@ + dec(available as nat) + " available"@);
            }
            fail(last, SUBETHA_E_WOULD_BLOCK, text.as_str())
        },
        RateLimiterError::Timeout => SUBETHA_E_TIMEOUT,
        RateLimiterError::InvalidConfig => fail(last, SUBETHA_E_INVALID_ARGUMENT, "capacity and refill_rate_per_sec must both be above zero"),
        RateLimiterError::LayoutMismatch => fail(last, SUBETHA_E_RING_LAYOUT_MISMATCH, "the limiter on disk was built with another capacity or rate"),
        RateLimiterError::IoError(kind) => {
            let mut text: String = String::from_str("io error: ");
            text.append(kind.as_str());
            fail(last, SUBETHA_E_RING_IO, text.as_str())
        },
    }
}

/// The payload behind a rate limiter's handle.
pub fn with_limiter<'a, P>(last: &mut LastError, object: &'a Object<P>) -> (payload: Result<&'a P, i32>)
    ensures
        answers(
            payload,
            match *object {
                Object::RateLimiter(p) => Ok(&p),
                _ => Err(told(SUBETHA_E_WRONG_KIND, "the handle does not name a rate limiter"@)),
            },
            old(last)@,
            final(last)@,
        ),
{
    match object {
        Object::RateLimiter(p) => Ok(p),
        _ => Err(fail(last, SUBETHA_E_WRONG_KIND, "the handle does not name a rate limiter")),
    }
}

/// What [`read_arguments`] answers.
pub open spec fn read_arguments_outcome<'a>(
    initialized: Result<(), Refused>,
    out_null: bool,
    path: Result<&'a str, Refused>,
    capacity: u32,
    refill_rate_per_sec: u32,
    mode: Result<u32, Refused>,
) -> Result<(&'a str, u32, u32, u32), Report> {
    if initialized is Err {
        Err(initialized->Err_0.report())
    } else if out_null {
        Err(invalid_argument("out is null"@))
    } else if path is Err {
        Err(path->Err_0.report())
    } else if capacity == 0 {
        Err(invalid_argument("capacity is zero"@))
    } else if refill_rate_per_sec == 0 {
        Err(invalid_argument("refill_rate_per_sec is zero"@))
    } else if mode is Err {
        Err(mode->Err_0.report())
    } else {
        Ok((path->Ok_0, capacity, refill_rate_per_sec, mode->Ok_0))
    }
}

/// The arguments every constructor reads, in order, so the first refusal
/// names the argument at fault.
pub fn read_arguments<'a>(
    last: &mut LastError,
    initialized: Result<(), Refused>,
    out_null: bool,
    path: Result<&'a str, Refused>,
    capacity: u32,
    refill_rate_per_sec: u32,
    mode: Result<u32, Refused>,
) -> (read: Result<(&'a str, u32, u32, u32), i32>)
    ensures
        answers(
            read,
            read_arguments_outcome(initialized, out_null, path, capacity, refill_rate_per_sec, mode),
            old(last)@,
            final(last)@,
        ),
{
    if let Err(code) = given(last, initialized) {
        return Err(code);
    }
    if out_null {
        return Err(fail(last, SUBETHA_E_INVALID_ARGUMENT, "out is null"));
    }
    let path: &'a str = match given(last, path) {
        Ok(path) => path,
        Err(code) => {
            return Err(code);
        },
    };
    if capacity == 0 {
        return Err(fail(last, SUBETHA_E_INVALID_ARGUMENT, "capacity is zero"));
    }
    if refill_rate_per_sec == 0 {
        return Err(fail(last, SUBETHA_E_INVALID_ARGUMENT, "refill_rate_per_sec is zero"));
    }
    let mode: u32 = match given(last, mode) {
        Ok(mode) => mode,
        Err(code) => {
            return Err(code);
        },
    };
    Ok((path, capacity, refill_rate_per_sec, mode))
}

/// Make the object for a rate limiter that was built or opened, or answer with why
/// it could not be.
pub fn place<P>(last: &mut LastError, opened: Result<P, RateLimiterError>) -> (object: Result<Object<P>, i32>)
    ensures
        answers(
            object,
            match opened {
                Ok(p) => Ok(Object::RateLimiter(p)),
                Err(e) => Err(code_for_report(e)),
            },
            old(last)@,
            final(last)@,
        ),
{
    match opened {
        Ok(p) => Ok(Object::RateLimiter(p)),
        Err(e) => Err(code_for(last, e)),
    }
}

/// What a call on a rate limiter answers, given how it went: its value, or the
/// code its error maps to.
pub fn outcome<T>(last: &mut LastError, went: Result<T, RateLimiterError>) -> (answer: Result<T, i32>)
    ensures
        answers(
            answer,
            match went {
                Ok(value) => Ok(value),
                Err(e) => Err(code_for_report(e)),
            },
            old(last)@,
            final(last)@,
        ),
{
    match went {
        Ok(value) => Ok(value),
        Err(e) => Err(code_for(last, e)),
    }
}

/// A snapshot, from what the limiter says.
pub fn stats(
    mode: u32,
    capacity: u32,
    refill_rate_per_sec: u32,
    available: u32,
) -> (stats: subetha_rate_limiter_stats)
    ensures
        stats == (subetha_rate_limiter_stats {
            mode,
            capacity,
            refill_rate_per_sec,
            available,
        }),
{
    subetha_rate_limiter_stats {
        mode,
        capacity,
        refill_rate_per_sec,
        available,
    }
}

/// A call on a rate limiter reaches what stands behind a handle to a rate
/// limiter, and nothing behind any other handle.
pub proof fn only_a_limiter_is_reached<P>(last: &mut LastError, object: &Object<P>, reached: Result<&P, i32>)
    requires
        call_ensures(with_limiter::<P>, (last, object), reached),
    ensures
        reached is Ok <==> *object is RateLimiter,
        reached matches Ok(payload) ==> *object == Object::RateLimiter(*payload) && final(last)@ == old(last)@,
        reached matches Err(code) ==> code == SUBETHA_E_WRONG_KIND
            && final(last)@ == "the handle does not name a rate limiter"@,
{
}

/// A limiter that opened is placed as what it is; one that did not is answered
/// exactly as its error is.
pub proof fn a_limiter_that_opened_is_placed_as_one<P>(
    last: &mut LastError,
    other: &mut LastError,
    opened: Result<P, RateLimiterError>,
    answer: Result<Object<P>, i32>,
    code: i32,
)
    requires
        call_ensures(place::<P>, (last, opened), answer),
        opened matches Err(e) ==> call_ensures(code_for, (other, e), code),
        old(last)@ == old(other)@,
    ensures
        opened matches Ok(value) ==> answer == Ok::<Object<P>, i32>(Object::RateLimiter(value))
            && final(last)@ == old(last)@,
        opened is Err ==> answer == Err::<Object<P>, i32>(code) && final(last)@ == final(other)@,
{
}

/// A call that went well answers with what it gave, and one that did not
/// answers exactly as its error does.
pub proof fn a_call_that_went_well_is_not_refused<T>(
    last: &mut LastError,
    other: &mut LastError,
    went: Result<T, RateLimiterError>,
    answer: Result<T, i32>,
    code: i32,
)
    requires
        call_ensures(outcome::<T>, (last, went), answer),
        went matches Err(e) ==> call_ensures(code_for, (other, e), code),
        old(last)@ == old(other)@,
    ensures
        went matches Ok(value) ==> answer == Ok::<T, i32>(value) && final(last)@ == old(last)@,
        went is Err ==> answer == Err::<T, i32>(code) && final(last)@ == final(other)@,
{
}

/// A snapshot reports each thing it was handed under that thing's own name.
pub proof fn a_snapshot_reports_each_thing_as_it_is(
    mode: u32,
    capacity: u32,
    refill_rate_per_sec: u32,
    available: u32,
    shown: subetha_rate_limiter_stats,
)
    requires
        call_ensures(stats, (mode, capacity, refill_rate_per_sec, available), shown),
    ensures
        shown.mode == mode,
        shown.capacity == capacity,
        shown.refill_rate_per_sec == refill_rate_per_sec,
        shown.available == available,
{
}

/// The arguments are accepted exactly when nothing is wrong with any of them,
/// and then handed on unchanged; the first one at fault is the one answered
/// for.
pub proof fn a_limiter_is_made_with_arguments_that_are_right<'a>(
    last: &mut LastError,
    initialized: Result<(), Refused>,
    out_null: bool,
    path: Result<&'a str, Refused>,
    capacity: u32,
    refill_rate_per_sec: u32,
    mode: Result<u32, Refused>,
    read: Result<(&'a str, u32, u32, u32), i32>,
)
    requires
        call_ensures(read_arguments, (last, initialized, out_null, path, capacity, refill_rate_per_sec, mode), read),
    ensures
        read is Ok <==> initialized is Ok && !out_null && path is Ok && capacity != 0
            && refill_rate_per_sec != 0 && mode is Ok,
        read matches Ok(all) ==> all.0 == path->Ok_0 && all.1 == capacity && all.2 == refill_rate_per_sec
            && all.3 == mode->Ok_0 && final(last)@ == old(last)@,
        initialized is Err ==> read is Err && read->Err_0 == initialized->Err_0.code
            && final(last)@ == initialized->Err_0.report().leaves(old(last)@),
        initialized is Ok && out_null ==> read is Err && read->Err_0 == SUBETHA_E_INVALID_ARGUMENT
            && final(last)@ == "out is null"@,
        initialized is Ok && !out_null && path is Err ==> read is Err && read->Err_0 == path->Err_0.code
            && final(last)@ == path->Err_0.report().leaves(old(last)@),
        initialized is Ok && !out_null && path is Ok && capacity == 0 ==> read is Err
            && read->Err_0 == SUBETHA_E_INVALID_ARGUMENT && final(last)@ == "capacity is zero"@,
        initialized is Ok && !out_null && path is Ok && capacity != 0 && refill_rate_per_sec == 0
            ==> read is Err && read->Err_0 == SUBETHA_E_INVALID_ARGUMENT
            && final(last)@ == "refill_rate_per_sec is zero"@,
        initialized is Ok && !out_null && path is Ok && capacity != 0 && refill_rate_per_sec != 0
            && mode is Err ==> read is Err && read->Err_0 == mode->Err_0.code
            && final(last)@ == mode->Err_0.report().leaves(old(last)@),
{
}

/// Each error answers with its own code. One with specifics leaves them, and
/// one without leaves what was there.
pub proof fn each_error_has_its_code(last: &mut LastError, e: RateLimiterError, code: i32)
    requires
        call_ensures(code_for, (last, e), code),
    ensures
        e matches RateLimiterError::InsufficientTokens { available, requested } ==> code == 126
            && final(last)@ == dec(requested as nat) + " token(s) requested with "@ + dec(available as nat)
            + " available"@,
        e matches RateLimiterError::Timeout ==> code == 11 && final(last)@ == old(last)@,
        e matches RateLimiterError::InvalidConfig ==> code == 3
            && final(last)@ == "capacity and refill_rate_per_sec must both be above zero"@,
        e matches RateLimiterError::LayoutMismatch ==> code == 102
            && final(last)@ == "the limiter on disk was built with another capacity or rate"@,
        e matches RateLimiterError::IoError(kind) ==> code == 107 && final(last)@ == "io error: "@ + kind@,
{
}

} // verus!
