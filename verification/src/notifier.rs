//! The pollable notifier: a consumer attaches one to a ring and hands its
//! native object to an event loop, and every push on the same ring signals it.
//!
//! A signal stays until it is drained and means "something was pushed since
//! the last drain", not "one item per signal": a consumer drains the notifier,
//! then pops until the ring is empty.

use vstd::prelude::*;

use crate::arguments::invalid_argument;
use crate::error::{
    answers, fail, told, LastError, Report, SUBETHA_E_INVALID_ARGUMENT, SUBETHA_E_TIMEOUT,
    SUBETHA_E_WRONG_KIND, SUBETHA_OK,
};
use crate::handle::Object;
use crate::text::{dec, push_dec, push_signed, signed};

verus! {

/// The payload behind a notifier's handle.
pub fn with_notifier<'a, P>(last: &mut LastError, object: &'a Object<P>) -> (payload: Result<&'a P, i32>)
    ensures
        answers(
            payload,
            match *object {
                Object::Notifier(p) => Ok(&p),
                _ => Err(told(SUBETHA_E_WRONG_KIND, "the handle does not name a notifier"@)),
            },
            old(last)@,
            final(last)@,
        ),
{
    match object {
        Object::Notifier(p) => Ok(p),
        _ => Err(fail(last, SUBETHA_E_WRONG_KIND, "the handle does not name a notifier")),
    }
}

/// Somewhere to write the native object, or whether a signal is pending.
pub fn out_arguments(
    last: &mut LastError,
    out_null: bool,
) -> (answer: Result<(), i32>)
    ensures
        answers(
            answer,
            if out_null {
                Err(invalid_argument("out is null"@))
            } else {
                Ok(())
            },
            old(last)@,
            final(last)@,
        ),
{
    if out_null {
        return Err(fail(last, SUBETHA_E_INVALID_ARGUMENT, "out is null"));
    }
    Ok(())
}

/// What a wait's timeout has to be.
pub open spec fn timeout_outcome(timeout_ms: i64) -> Result<i32, Report> {
    if timeout_ms < -1 || timeout_ms > i32::MAX {
        Err(
            invalid_argument(
                "timeout_ms "@ + signed(timeout_ms as int) + " is not between -1 and "@ + dec(i32::MAX as nat),
            ),
        )
    } else {
        Ok(timeout_ms as i32)
    }
}

/// A wait's timeout in milliseconds, where one below zero by one means no
/// deadline.
pub fn wait_arguments(last: &mut LastError, timeout_ms: i64) -> (checked: Result<i32, i32>)
    ensures
        answers(checked, timeout_outcome(timeout_ms), old(last)@, final(last)@),
{
    if timeout_ms < -1 || timeout_ms > i32::MAX as i64 {
        let mut text: String = String::from_str("timeout_ms ");
        push_signed(&mut text, timeout_ms);
        text.append(" is not between -1 and ");
        push_dec(&mut text, i32::MAX as u64);
        return Err(fail(last, SUBETHA_E_INVALID_ARGUMENT, text.as_str()));
    }
    Ok(timeout_ms as i32)
}

/// What a wait answers: a signal arrived, or none did in time.
pub fn subetha_notifier_wait(signaled: bool) -> (code: i32)
    ensures
        code == if signaled {
            SUBETHA_OK
        } else {
            SUBETHA_E_TIMEOUT
        },
{
    if signaled {
        SUBETHA_OK
    } else {
        SUBETHA_E_TIMEOUT
    }
}

/// A call on a notifier reaches what stands behind a handle to a notifier, and
/// nothing behind any other handle.
pub proof fn only_a_notifier_is_reached<P>(last: &mut LastError, object: &Object<P>, reached: Result<&P, i32>)
    requires
        call_ensures(with_notifier::<P>, (last, object), reached),
    ensures
        reached is Ok <==> *object is Notifier,
        reached matches Ok(payload) ==> *object == Object::Notifier(*payload) && final(last)@ == old(last)@,
        reached matches Err(code) ==> code == SUBETHA_E_WRONG_KIND
            && final(last)@ == "the handle does not name a notifier"@,
{
}

/// The arguments are accepted exactly when nothing is wrong with any of them,
/// and then handed on unchanged; the first one at fault is the one answered
/// for.
pub proof fn an_answer_needs_a_place(last: &mut LastError, out_null: bool, answer: Result<(), i32>)
    requires
        call_ensures(out_arguments, (last, out_null), answer),
    ensures
        answer is Ok <==> !out_null,
        answer matches Ok(all) ==> true && final(last)@ == old(last)@,
        out_null ==> answer is Err && answer->Err_0 == SUBETHA_E_INVALID_ARGUMENT && final(last)@ == "out is null"@,
{
}

/// A timeout is accepted from minus one, which waits without end, up to the
/// longest an integer of thirty-two bits tells, and stands for itself.
pub proof fn a_timeout_is_a_number_of_milliseconds_or_none(
    last: &mut LastError,
    timeout_ms: i64,
    checked: Result<i32, i32>,
)
    requires
        call_ensures(wait_arguments, (last, timeout_ms), checked),
    ensures
        checked is Ok <==> -1 <= timeout_ms <= 0x7FFF_FFFF,
        checked matches Ok(ms) ==> ms == timeout_ms && final(last)@ == old(last)@,
        checked matches Err(code) ==> code == SUBETHA_E_INVALID_ARGUMENT,
{
}

/// A wait that saw the signal answers well, and one that did not has run out
/// of time.
pub proof fn a_wait_ends_by_the_signal_or_by_the_time(signaled: bool, code: i32)
    requires
        call_ensures(subetha_notifier_wait, (signaled,), code),
    ensures
        signaled ==> code == SUBETHA_OK,
        !signaled ==> code == SUBETHA_E_TIMEOUT,
{
}

/// A refusal says what was given and what it should have been.
pub proof fn a_timeout_at_fault_is_told(last: &mut LastError, timeout_ms: i64, checked: Result<i32, i32>)
    requires
        call_ensures(wait_arguments, (last, timeout_ms), checked),
    ensures
        checked is Err ==> final(last)@ == "timeout_ms "@ + signed(timeout_ms as int)
            + " is not between -1 and "@ + dec(0x7FFF_FFFF),
{
}

} // verus!
