//! A value produced once across every process that asks for it.
//!
//! A claim hands the right to produce the value to one caller and refuses
//! every other. The winner produces it however it likes and publishes it;
//! the rest wait for it, or read it once it is there. A claim stands across
//! whatever the caller does in between, so a claimant can die holding one:
//! the claim carries the process that took it.

use vstd::prelude::*;

use crate::arguments::{given, invalid_argument};
use crate::error::{
    answers, bare, fail, once_code, once_code_report, told, LastError, Refused, Report,
    SharedOnceError, SUBETHA_E_INVALID_ARGUMENT, SUBETHA_E_LAZY_CLAIMANT_GONE,
    SUBETHA_E_LAZY_NOT_CLAIMED, SUBETHA_E_TIMEOUT, SUBETHA_E_WRONG_KIND,
};
use crate::handle::Object;
use crate::text::{dec, push_dec};

verus! {

/// Seconds a wait without a deadline of its own is given.
pub const UNBOUNDED_WAIT_SECS: u64 = 86_400;

/// A snapshot of a lazy value.
#[allow(non_camel_case_types)]
#[derive(Clone, Copy, Default, Debug, PartialEq, Eq)]
pub struct subetha_lazy_stats {
    /// The mode this handle was created in.
    pub mode: u32,
    /// Whether the value is unclaimed, claimed or published.
    pub state: u32,
    /// Bytes the value holds.
    pub value_bytes: u64,
}

/// The payload behind a lazy value's handle.
pub fn with_lazy<'a, P>(last: &mut LastError, object: &'a Object<P>) -> (payload: Result<&'a P, i32>)
    ensures
        answers(
            payload,
            match *object {
                Object::LazyValue(p) => Ok(&p),
                _ => Err(told(SUBETHA_E_WRONG_KIND, "the handle does not name a lazy value"@)),
            },
            old(last)@,
            final(last)@,
        ),
{
    match object {
        Object::LazyValue(p) => Ok(p),
        _ => Err(fail(last, SUBETHA_E_WRONG_KIND, "the handle does not name a lazy value")),
    }
}

/// What [`read_arguments`] answers.
pub open spec fn read_arguments_outcome<'a>(
    initialized: Result<(), Refused>,
    out_null: bool,
    path: Result<&'a str, Refused>,
    value_bytes: usize,
    max_bytes: usize,
    mode: Result<u32, Refused>,
) -> Result<(&'a str, usize, u32), Report> {
    if initialized is Err {
        Err(initialized->Err_0.report())
    } else if out_null {
        Err(invalid_argument("out is null"@))
    } else if path is Err {
        Err(path->Err_0.report())
    } else if value_bytes == 0 || value_bytes > max_bytes {
        Err(invalid_argument("value_bytes is "@ + dec(value_bytes as nat) + ", and a lazy value holds 1 to "@ + dec(max_bytes as nat)))
    } else if mode is Err {
        Err(mode->Err_0.report())
    } else {
        Ok((path->Ok_0, value_bytes, mode->Ok_0))
    }
}

/// The arguments every constructor reads, in order, so the first refusal
/// names the argument at fault.
/// `max_bytes` is the most a lazy value holds.
pub fn read_arguments<'a>(
    last: &mut LastError,
    initialized: Result<(), Refused>,
    out_null: bool,
    path: Result<&'a str, Refused>,
    value_bytes: usize,
    max_bytes: usize,
    mode: Result<u32, Refused>,
) -> (read: Result<(&'a str, usize, u32), i32>)
    ensures
        answers(
            read,
            read_arguments_outcome(initialized, out_null, path, value_bytes, max_bytes, mode),
            old(last)@,
            final(last)@,
        ),
{
    if let Err(code) = given(last, initialized) {
        return Err(code);
    }
    if out_null {
        return Err(fail(last, SUBETHA_E_INVALID_ARGUMENT, "out is null"));
    }
    let path: &'a str = match given(last, path) {
        Ok(path) => path,
        Err(code) => {
            return Err(code);
        },
    };
    if value_bytes == 0 || value_bytes > max_bytes {
        let mut text: String = String::from_str("value_bytes is ");
        push_dec(&mut text, value_bytes as u64);
        text.append(", and a lazy value holds 1 to ");
        push_dec(&mut text, max_bytes as u64);
        return Err(fail(last, SUBETHA_E_INVALID_ARGUMENT, text.as_str()));
    }
    let mode: u32 = match given(last, mode) {
        Ok(mode) => mode,
        Err(code) => {
            return Err(code);
        },
    };
    Ok((path, value_bytes, mode))
}

/// Make the object for a lazy value that was built or opened, or answer with why
/// it could not be.
pub fn place<P>(last: &mut LastError, opened: Result<P, SharedOnceError>) -> (object: Result<Object<P>, i32>)
    ensures
        answers(
            object,
            match opened {
                Ok(p) => Ok(Object::LazyValue(p)),
                Err(e) => Err(once_code_report(e)),
            },
            old(last)@,
            final(last)@,
        ),
{
    match opened {
        Ok(p) => Ok(Object::LazyValue(p)),
        Err(e) => Err(once_code(last, e)),
    }
}

/// What a call on a lazy value answers, given how it went: its value, or the
/// code its error maps to.
pub fn outcome<T>(last: &mut LastError, went: Result<T, SharedOnceError>) -> (answer: Result<T, i32>)
    ensures
        answers(
            answer,
            match went {
                Ok(value) => Ok(value),
                Err(e) => Err(once_code_report(e)),
            },
            old(last)@,
            final(last)@,
        ),
{
    match went {
        Ok(value) => Ok(value),
        Err(e) => Err(once_code(last, e)),
    }
}

/// The arguments of a claim, checked in order.
pub fn claim_arguments(
    last: &mut LastError,
    out_won_null: bool,
    pid: u32,
) -> (answer: Result<u32, i32>)
    ensures
        answers(
            answer,
            if out_won_null {
                Err(invalid_argument("out_won is null"@))
            } else if pid == 0 {
                Err(invalid_argument("pid is zero, which names no process"@))
            } else {
                Ok(pid)
            },
            old(last)@,
            final(last)@,
        ),
{
    if out_won_null {
        return Err(fail(last, SUBETHA_E_INVALID_ARGUMENT, "out_won is null"));
    }
    if pid == 0 {
        return Err(fail(last, SUBETHA_E_INVALID_ARGUMENT, "pid is zero, which names no process"));
    }
    Ok(pid)
}

/// The arguments of a publish, checked in order.
pub fn publish_arguments(
    last: &mut LastError,
    value_null: bool,
    len: usize,
    value_len: usize,
) -> (answer: Result<(), i32>)
    ensures
        answers(
            answer,
            if value_null {
                Err(invalid_argument("value is null"@))
            } else if len != value_len {
                Err(invalid_argument("len is "@ + dec(len as nat) + " and the value holds "@ + dec(value_len as nat)))
            } else {
                Ok(())
            },
            old(last)@,
            final(last)@,
        ),
{
    if value_null {
        return Err(fail(last, SUBETHA_E_INVALID_ARGUMENT, "value is null"));
    }
    if len != value_len {
        let mut text: String = String::from_str("len is ");
        push_dec(&mut text, len as u64);
        text.append(" and the value holds ");
        push_dec(&mut text, value_len as u64);
        return Err(fail(last, SUBETHA_E_INVALID_ARGUMENT, text.as_str()));
    }
    Ok(())
}

/// What a publish answers: a caller that never won the claim cannot
/// overwrite what the winner produced.
pub fn subetha_lazy_publish(
    last: &mut LastError,
    pid: u32,
    published: bool,
) -> (answer: Result<(), i32>)
    ensures
        answers(
            answer,
            if !published {
                Err(told(SUBETHA_E_LAZY_NOT_CLAIMED, "process "@ + dec(pid as nat) + " does not hold the claim on this value"@))
            } else {
                Ok(())
            },
            old(last)@,
            final(last)@,
        ),
{
    if !published {
        let mut text: String = String::from_str("process ");
        push_dec(&mut text, pid as u64);
        text.append(" does not hold the claim on this value");
        return Err(fail(last, SUBETHA_E_LAZY_NOT_CLAIMED, text.as_str()));
    }
    Ok(())
}

/// What a read without waiting answers: the length of the value, once one is
/// published.
pub fn subetha_lazy_try_get(
    last: &mut LastError,
    got: bool,
    value_len: usize,
) -> (answer: Result<usize, i32>)
    ensures
        answers(
            answer,
            if !got {
                Err(told(SUBETHA_E_LAZY_NOT_CLAIMED, "no value is published yet"@))
            } else {
                Ok(value_len)
            },
            old(last)@,
            final(last)@,
        ),
{
    if !got {
        return Err(fail(last, SUBETHA_E_LAZY_NOT_CLAIMED, "no value is published yet"));
    }
    Ok(value_len)
}

/// Why a wait for the value ended without one.
#[derive(Clone, Copy, Debug, PartialEq, Eq, Structural)]
pub enum WaitError {
    /// The deadline passed with a live claim still outstanding.
    TimedOut,
    /// The claim belongs to a process that has died.
    ClaimantGone,
}

/// What a wait for the value answers: its length, or why it ended without
/// one.
pub fn subetha_lazy_wait(last: &mut LastError, waited: Result<(), WaitError>, value_len: usize) -> (len: Result<
    usize,
    i32,
>)
    ensures
        answers(
            len,
            match waited {
                Ok(()) => Ok(value_len),
                Err(WaitError::TimedOut) => Err(bare(SUBETHA_E_TIMEOUT)),
                Err(WaitError::ClaimantGone) => Err(
                    told(
                        SUBETHA_E_LAZY_CLAIMANT_GONE,
                        "the process holding the claim is gone; reclaim it and claim again"@,
                    ),
                ),
            },
            old(last)@,
            final(last)@,
        ),
{
    match waited {
        Ok(()) => Ok(value_len),
        Err(WaitError::TimedOut) => Err(SUBETHA_E_TIMEOUT),
        Err(WaitError::ClaimantGone) => Err(
            fail(
                last,
                SUBETHA_E_LAZY_CLAIMANT_GONE,
                "the process holding the claim is gone; reclaim it and claim again",
            ),
        ),
    }
}

/// A snapshot, from what the value says.
pub fn stats(
    mode: u32,
    state: u8,
    value_len: usize,
) -> (stats: subetha_lazy_stats)
    ensures
        stats == (subetha_lazy_stats {
            mode,
            state: state as u32,
            value_bytes: value_len as u64,
        }),
{
    subetha_lazy_stats {
        mode,
        state: state as u32,
        value_bytes: value_len as u64,
    }
}

/// A call on a lazy value reaches what stands behind a handle to a lazy value,
/// and nothing behind any other handle.
pub proof fn only_a_lazy_value_is_reached<P>(last: &mut LastError, object: &Object<P>, reached: Result<&P, i32>)
    requires
        call_ensures(with_lazy::<P>, (last, object), reached),
    ensures
        reached is Ok <==> *object is LazyValue,
        reached matches Ok(payload) ==> *object == Object::LazyValue(*payload) && final(last)@ == old(last)@,
        reached matches Err(code) ==> code == SUBETHA_E_WRONG_KIND
            && final(last)@ == "the handle does not name a lazy value"@,
{
}

/// A value that opened is placed as what it is; one that did not is answered
/// exactly as its error is.
pub proof fn a_value_that_opened_is_placed_as_one<P>(
    last: &mut LastError,
    other: &mut LastError,
    opened: Result<P, SharedOnceError>,
    answer: Result<Object<P>, i32>,
    code: i32,
)
    requires
        call_ensures(place::<P>, (last, opened), answer),
        opened matches Err(e) ==> call_ensures(once_code, (other, e), code),
        old(last)@ == old(other)@,
    ensures
        opened matches Ok(value) ==> answer == Ok::<Object<P>, i32>(Object::LazyValue(value))
            && final(last)@ == old(last)@,
        opened is Err ==> answer == Err::<Object<P>, i32>(code) && final(last)@ == final(other)@,
{
}

/// A call that went well answers with what it gave, and one that did not
/// answers exactly as its error does.
pub proof fn a_call_that_went_well_is_not_refused<T>(
    last: &mut LastError,
    other: &mut LastError,
    went: Result<T, SharedOnceError>,
    answer: Result<T, i32>,
    code: i32,
)
    requires
        call_ensures(outcome::<T>, (last, went), answer),
        went matches Err(e) ==> call_ensures(once_code, (other, e), code),
        old(last)@ == old(other)@,
    ensures
        went matches Ok(value) ==> answer == Ok::<T, i32>(value) && final(last)@ == old(last)@,
        went is Err ==> answer == Err::<T, i32>(code) && final(last)@ == final(other)@,
{
}

/// A snapshot reports each thing it was handed under that thing's own name.
pub proof fn a_snapshot_reports_each_thing_as_it_is(mode: u32, state: u8, value_len: usize, shown: subetha_lazy_stats)
    requires
        call_ensures(stats, (mode, state, value_len), shown),
    ensures
        shown.mode == mode,
        shown.state == state as u32,
        shown.value_bytes == value_len as u64,
{
}

/// The arguments are accepted exactly when nothing is wrong with any of them,
/// and then handed on unchanged; the first one at fault is the one answered
/// for.
pub proof fn a_value_is_made_with_arguments_that_are_right<'a>(
    last: &mut LastError,
    initialized: Result<(), Refused>,
    out_null: bool,
    path: Result<&'a str, Refused>,
    value_bytes: usize,
    max_bytes: usize,
    mode: Result<u32, Refused>,
    read: Result<(&'a str, usize, u32), i32>,
)
    requires
        call_ensures(read_arguments, (last, initialized, out_null, path, value_bytes, max_bytes, mode), read),
    ensures
        read is Ok <==> initialized is Ok && !out_null && path is Ok && !(value_bytes == 0
            || value_bytes > max_bytes) && mode is Ok,
        read matches Ok(all) ==> all.0 == path->Ok_0 && all.1 == value_bytes && all.2 == mode->Ok_0
            && final(last)@ == old(last)@,
        initialized is Err ==> read is Err && read->Err_0 == initialized->Err_0.code
            && final(last)@ == initialized->Err_0.report().leaves(old(last)@),
        initialized is Ok && out_null ==> read is Err && read->Err_0 == SUBETHA_E_INVALID_ARGUMENT
            && final(last)@ == "out is null"@,
        initialized is Ok && !out_null && path is Err ==> read is Err && read->Err_0 == path->Err_0.code
            && final(last)@ == path->Err_0.report().leaves(old(last)@),
        initialized is Ok && !out_null && path is Ok && (value_bytes == 0 || value_bytes > max_bytes)
            ==> read is Err && read->Err_0 == SUBETHA_E_INVALID_ARGUMENT,
        initialized is Ok && !out_null && path is Ok && !(value_bytes == 0 || value_bytes > max_bytes)
            && mode is Err ==> read is Err && read->Err_0 == mode->Err_0.code
            && final(last)@ == mode->Err_0.report().leaves(old(last)@),
{
}

/// The arguments are accepted exactly when nothing is wrong with any of them,
/// and then handed on unchanged; the first one at fault is the one answered
/// for.
pub proof fn any_process_claims_where_the_answer_can_be_written(
    last: &mut LastError,
    out_won_null: bool,
    pid: u32,
    answer: Result<u32, i32>,
)
    requires
        call_ensures(claim_arguments, (last, out_won_null, pid), answer),
    ensures
        answer is Ok <==> !out_won_null && pid != 0,
        answer matches Ok(all) ==> all == pid && final(last)@ == old(last)@,
        out_won_null ==> answer is Err && answer->Err_0 == SUBETHA_E_INVALID_ARGUMENT
            && final(last)@ == "out_won is null"@,
        !out_won_null && pid == 0 ==> answer is Err && answer->Err_0 == SUBETHA_E_INVALID_ARGUMENT
            && final(last)@ == "pid is zero, which names no process"@,
{
}

/// The arguments are accepted exactly when nothing is wrong with any of them,
/// and then handed on unchanged; the first one at fault is the one answered
/// for.
pub proof fn a_published_value_is_exactly_as_long_as_it_was_declared(
    last: &mut LastError,
    value_null: bool,
    len: usize,
    value_len: usize,
    answer: Result<(), i32>,
)
    requires
        call_ensures(publish_arguments, (last, value_null, len, value_len), answer),
    ensures
        answer is Ok <==> !value_null && len == value_len,
        answer matches Ok(all) ==> true && final(last)@ == old(last)@,
        value_null ==> answer is Err && answer->Err_0 == SUBETHA_E_INVALID_ARGUMENT
            && final(last)@ == "value is null"@,
        !value_null && len != value_len ==> answer is Err && answer->Err_0 == SUBETHA_E_INVALID_ARGUMENT,
{
}

/// A publish that counted answers so, and one by a process that does not hold
/// the claim is refused.
pub proof fn a_publish_counts_only_for_the_claimant(
    last: &mut LastError,
    pid: u32,
    published: bool,
    answer: Result<(), i32>,
)
    requires
        call_ensures(subetha_lazy_publish, (last, pid, published), answer),
    ensures
        answer is Ok <==> published,
        answer is Ok ==> final(last)@ == old(last)@,
        answer matches Err(code) ==> code == SUBETHA_E_LAZY_NOT_CLAIMED,
{
}

/// A published value is read whole, and until then there is none.
pub proof fn a_value_is_read_once_it_is_published(
    last: &mut LastError,
    got: bool,
    value_len: usize,
    answer: Result<usize, i32>,
)
    requires
        call_ensures(subetha_lazy_try_get, (last, got, value_len), answer),
    ensures
        answer is Ok <==> got,
        answer matches Ok(n) ==> n == value_len && final(last)@ == old(last)@,
        answer matches Err(code) ==> code == SUBETHA_E_LAZY_NOT_CLAIMED
            && final(last)@ == "no value is published yet"@,
{
}

/// A wait that saw the value reports it whole, one that ran out of time says
/// so, and one whose claimant is gone says that.
pub proof fn a_wait_tells_a_late_value_from_one_that_will_not_come(
    last: &mut LastError,
    waited: Result<(), WaitError>,
    value_len: usize,
    len: Result<usize, i32>,
)
    requires
        call_ensures(subetha_lazy_wait, (last, waited, value_len), len),
    ensures
        waited is Ok ==> len == Ok::<usize, i32>(value_len) && final(last)@ == old(last)@,
        waited is Err && waited->Err_0 is TimedOut ==> len == Err::<usize, i32>(SUBETHA_E_TIMEOUT)
            && final(last)@ == old(last)@,
        waited is Err && waited->Err_0 is ClaimantGone ==> len == Err::<usize, i32>(SUBETHA_E_LAZY_CLAIMANT_GONE),
{
}

/// The numbers callers give and are given, as they were built against them.
pub proof fn the_numbers_are_the_ones_callers_know()
    ensures
        UNBOUNDED_WAIT_SECS == 86_400,
{
}

/// A refusal says what was given and what it should have been.
pub proof fn a_length_at_fault_is_told(last: &mut LastError, len: usize, value_len: usize, answer: Result<(), i32>)
    requires
        call_ensures(publish_arguments, (last, false, len, value_len), answer),
    ensures
        answer is Err ==> final(last)@ == "len is "@ + dec(len as nat) + " and the value holds "@
            + dec(value_len as nat),
{
}

/// A refusal says what was given and what it should have been.
pub proof fn a_publish_at_fault_is_told(last: &mut LastError, pid: u32, answer: Result<(), i32>)
    requires
        call_ensures(subetha_lazy_publish, (last, pid, false), answer),
    ensures
        final(last)@ == "process "@ + dec(pid as nat) + " does not hold the claim on this value"@,
{
}

} // verus!
