//! Reading a call's arguments, in order, so the first refusal names the
//! argument at fault, and handing results back through a caller's buffers.
//!
//! What a call can only learn from outside - whether the library has been
//! initialized, whether a pointer holds text, which mode a number stands
//! for - comes in as a `Result`, with the refusal it makes as a value.

use vstd::prelude::*;

use crate::error::{
    answers, fail, refused, ring_code, ring_code_report, told, LastError, Refused, Report, RingError,
    SUBETHA_E_BUFFER_TOO_SMALL, SUBETHA_E_INVALID_ARGUMENT, SUBETHA_E_RING_PAYLOAD_TOO_LARGE, SUBETHA_OK,
};
use crate::text::{dec, push_dec};

verus! {

/// A refusal of an argument.
pub open spec fn invalid_argument(text: Seq<char>) -> Report {
    told(SUBETHA_E_INVALID_ARGUMENT, text)
}

/// A value read outside, or the refusal reading it made.
pub open spec fn reading<T>(read: Result<T, Refused>) -> Result<T, Report> {
    match read {
        Ok(value) => Ok(value),
        Err(refusal) => Err(refusal.report()),
    }
}

/// Go on with a value read outside, or answer with the refusal reading it
/// made.
pub fn given<T>(last: &mut LastError, read: Result<T, Refused>) -> (value: Result<T, i32>)
    ensures
        answers(value, reading(read), old(last)@, final(last)@),
{
    match read {
        Ok(value) => Ok(value),
        Err(refusal) => Err(refused(last, refusal)),
    }
}

/// Refuse an argument, saying `text`, where it is `wrong`.
pub open spec fn unless(wrong: bool, text: Seq<char>) -> Result<(), Report> {
    if wrong {
        Err(invalid_argument(text))
    } else {
        Ok(())
    }
}

/// Refuse an argument, saying `text`, where it is `wrong`.
pub fn refuse_if(last: &mut LastError, wrong: bool, text: &str) -> (checked: Result<(), i32>)
    ensures
        answers(checked, unless(wrong, text@), old(last)@, final(last)@),
{
    if wrong {
        Err(fail(last, SUBETHA_E_INVALID_ARGUMENT, text))
    } else {
        Ok(())
    }
}

/// What [`read_arguments`] answers.
pub open spec fn arguments<'a>(
    initialized: Result<(), Refused>,
    out_null: bool,
    path: Result<&'a str, Refused>,
    capacity: u32,
    mode: Result<u32, Refused>,
) -> Result<(&'a str, usize, u32), Report> {
    if initialized is Err {
        Err(initialized->Err_0.report())
    } else if out_null {
        Err(invalid_argument("out is null"@))
    } else if path is Err {
        Err(path->Err_0.report())
    } else if capacity == 0 {
        Err(invalid_argument("capacity is zero"@))
    } else if mode is Err {
        Err(mode->Err_0.report())
    } else {
        Ok((path->Ok_0, capacity as usize, mode->Ok_0))
    }
}

/// The arguments of a constructor that takes a path and a number of slots:
/// the heartbeat table's, the holder table's, the epoch table's.
pub fn read_arguments<'a>(
    last: &mut LastError,
    initialized: Result<(), Refused>,
    out_null: bool,
    path: Result<&'a str, Refused>,
    capacity: u32,
    mode: Result<u32, Refused>,
) -> (read: Result<(&'a str, usize, u32), i32>)
    ensures
        answers(read, arguments(initialized, out_null, path, capacity, mode), old(last)@, final(last)@),
{
    if let Err(code) = given(last, initialized) {
        return Err(code);
    }
    if out_null {
        return Err(fail(last, SUBETHA_E_INVALID_ARGUMENT, "out is null"));
    }
    let path: &'a str = match given(last, path) {
        Ok(path) => path,
        Err(code) => {
            return Err(code);
        },
    };
    if capacity == 0 {
        return Err(fail(last, SUBETHA_E_INVALID_ARGUMENT, "capacity is zero"));
    }
    match given(last, mode) {
        Ok(mode) => Ok((path, capacity as usize, mode)),
        Err(code) => Err(code),
    }
}

/// Copy `from` over the front of `to`.
pub fn copy_front<T: Copy>(from: &[T], to: &mut [T])
    requires
        from@.len() <= old(to)@.len(),
    ensures
        final(to)@ == from@ + old(to)@.skip(from@.len() as int),
{
    let n: usize = from.len();
    let mut i: usize = 0;
    while i < n
        invariant
            i <= n <= to@.len(),
            n == from@.len(),
            to@.len() == old(to)@.len(),
            forall|k: int| 0 <= k < i ==> to@[k] == from@[k],
            forall|k: int| i <= k < to@.len() ==> to@[k] == old(to)@[k],
        decreases n - i,
    {
        to[i] = from[i];
        i += 1;
    }
    assert(to@ =~= from@ + old(to)@.skip(from@.len() as int));
}

/// Hand every one of `values` back through a caller's buffer. The number of
/// values there are comes back for the caller whether or not they fit, and
/// nothing is copied when they do not.
///
/// The code, and the length to report where there is somewhere to report it.
pub fn copy_all(
    last: &mut LastError,
    values: &[u64],
    out_null: bool,
    out: &mut [u64],
    out_len_null: bool,
) -> (answer: (i32, Option<usize>))
    ensures
        if out_len_null {
            &&& answer == (SUBETHA_E_INVALID_ARGUMENT, None::<usize>)
            &&& final(last)@ == "out_len is null"@
            &&& final(out)@ == old(out)@
        } else {
            &&& answer.1 matches Some(len) && len == values@.len()
            &&& final(last)@ == old(last)@
            &&& if out_null || old(out)@.len() < values@.len() {
                answer.0 == SUBETHA_E_BUFFER_TOO_SMALL && final(out)@ == old(out)@
            } else {
                answer.0 == SUBETHA_OK && final(out)@ == values@ + old(out)@.skip(values@.len() as int)
            }
        },
{
    if out_len_null {
        return (fail(last, SUBETHA_E_INVALID_ARGUMENT, "out_len is null"), None);
    }
    let len: usize = values.len();
    if out_null || out.len() < len {
        return (SUBETHA_E_BUFFER_TOO_SMALL, Some(len));
    }
    copy_front(values, out);
    (SUBETHA_OK, Some(len))
}

/// Hand a value back through a caller's buffer only where there is one: a
/// miss leaves the buffer as it was.
pub fn copy_on_hit(hit: bool, scratch: &[u8], out: &mut [u8])
    requires
        scratch@.len() <= old(out)@.len(),
    ensures
        final(out)@ == if hit {
            scratch@ + old(out)@.skip(scratch@.len() as int)
        } else {
            old(out)@
        },
{
    if hit {
        copy_front(scratch, out);
    }
}

/// Whether a payload fits one slot of `slot_bytes`.
pub fn payload_fits(
    last: &mut LastError,
    len: usize,
    slot_bytes: usize,
) -> (answer: Result<(), i32>)
    ensures
        answers(
            answer,
            if len > slot_bytes {
                Err(told(SUBETHA_E_RING_PAYLOAD_TOO_LARGE, dec(len as nat) + " bytes exceed the "@ + dec(slot_bytes as nat) + "-byte slot"@))
            } else {
                Ok(())
            },
            old(last)@,
            final(last)@,
        ),
{
    if len > slot_bytes {
        let mut text: String = String::new();
        push_dec(&mut text, len as u64);
        text.append(" bytes exceed the ");
        push_dec(&mut text, slot_bytes as u64);
        text.append("-byte slot");
        return Err(fail(last, SUBETHA_E_RING_PAYLOAD_TOO_LARGE, text.as_str()));
    }
    Ok(())
}

/// What a call on a ring answers, given how it went: its value, or the
/// code its error maps to.
pub fn ring_outcome<T>(last: &mut LastError, went: Result<T, RingError>) -> (answer: Result<T, i32>)
    ensures
        answers(
            answer,
            match went {
                Ok(value) => Ok(value),
                Err(e) => Err(ring_code_report(e)),
            },
            old(last)@,
            final(last)@,
        ),
{
    match went {
        Ok(value) => Ok(value),
        Err(e) => Err(ring_code(last, e)),
    }
}

/// A value that was read is handed on, and one whose reading was refused is
/// answered with the code and the text it was refused with.
pub proof fn a_refused_reading_answers_as_it_was_refused<T>(
    last: &mut LastError,
    read: Result<T, Refused>,
    value: Result<T, i32>,
)
    requires
        call_ensures(given::<T>, (last, read), value),
    ensures
        read matches Ok(v) ==> value == Ok::<T, i32>(v) && final(last)@ == old(last)@,
        read matches Err(refusal) ==> value == Err::<T, i32>(refusal.code)
            && final(last)@ == match refusal.detail { Some(text) => text@, None => old(last)@ },
{
}

/// What is wrong is refused with its text, and what is not is let by.
pub proof fn what_is_wrong_is_refused_and_nothing_else(
    last: &mut LastError,
    wrong: bool,
    text: &str,
    checked: Result<(), i32>,
)
    requires
        call_ensures(refuse_if, (last, wrong, text), checked),
    ensures
        checked is Ok <==> !wrong,
        checked is Ok ==> final(last)@ == old(last)@,
        checked matches Err(code) ==> code == SUBETHA_E_INVALID_ARGUMENT && final(last)@ == text@,
{
}

/// The arguments are accepted exactly when nothing is wrong with any of them,
/// and then handed on unchanged; the first one at fault is the one answered
/// for.
pub proof fn arguments_are_accepted_when_nothing_is_wrong<'a>(
    last: &mut LastError,
    initialized: Result<(), Refused>,
    out_null: bool,
    path: Result<&'a str, Refused>,
    capacity: u32,
    mode: Result<u32, Refused>,
    read: Result<(&'a str, usize, u32), i32>,
)
    requires
        call_ensures(read_arguments, (last, initialized, out_null, path, capacity, mode), read),
    ensures
        read is Ok <==> initialized is Ok && !out_null && path is Ok && capacity != 0 && mode is Ok,
        read matches Ok(all) ==> all.0 == path->Ok_0 && all.1 == capacity && all.2 == mode->Ok_0
            && final(last)@ == old(last)@,
        initialized is Err ==> read is Err && read->Err_0 == initialized->Err_0.code
            && final(last)@ == initialized->Err_0.report().leaves(old(last)@),
        initialized is Ok && out_null ==> read is Err && read->Err_0 == SUBETHA_E_INVALID_ARGUMENT
            && final(last)@ == "out is null"@,
        initialized is Ok && !out_null && path is Err ==> read is Err && read->Err_0 == path->Err_0.code
            && final(last)@ == path->Err_0.report().leaves(old(last)@),
        initialized is Ok && !out_null && path is Ok && capacity == 0 ==> read is Err
            && read->Err_0 == SUBETHA_E_INVALID_ARGUMENT && final(last)@ == "capacity is zero"@,
        initialized is Ok && !out_null && path is Ok && capacity != 0 && mode is Err ==> read is Err
            && read->Err_0 == mode->Err_0.code && final(last)@ == mode->Err_0.report().leaves(old(last)@),
{
}

/// Every value is copied in order into a buffer that has room, and into none
/// that has not; the number there are is reported either way, so a second call
/// with that much room gets them all.
pub proof fn a_buffer_of_the_reported_length_takes_every_value(
    last: &mut LastError,
    values: &[u64],
    out_null: bool,
    out: &mut [u64],
    answer: (i32, Option<usize>),
)
    requires
        call_ensures(copy_all, (last, values, out_null, out, false), answer),
    ensures
        answer.1 matches Some(len) && len == values@.len(),
        answer.0 == SUBETHA_OK <==> !out_null && values@.len() <= old(out)@.len(),
        answer.0 != SUBETHA_OK ==> answer.0 == SUBETHA_E_BUFFER_TOO_SMALL && final(out)@ == old(out)@,
        final(out)@.len() == old(out)@.len(),
        answer.0 == SUBETHA_OK ==> forall|i: int| 0 <= i < values@.len()
            ==> (#[trigger] final(out)@[i]) == values@[i],
        answer.0 == SUBETHA_OK ==> forall|i: int| values@.len() <= i < old(out)@.len()
            ==> (#[trigger] final(out)@[i]) == old(out)@[i],
{
}

/// A copy puts every item at its own place from the front of the buffer and
/// leaves the rest of the buffer alone.
pub proof fn a_copy_is_the_front_of_the_buffer<T: Copy>(from: &[T], to: &mut [T], done: ())
    requires
        from@.len() <= old(to)@.len(),
        call_ensures(copy_front::<T>, (from, to), done),
    ensures
        final(to)@.len() == old(to)@.len(),
        forall|i: int| 0 <= i < from@.len() ==> (#[trigger] final(to)@[i]) == from@[i],
        forall|i: int| from@.len() <= i < old(to)@.len() ==> (#[trigger] final(to)@[i]) == old(to)@[i],
{
}

/// A hit puts the value in front of the buffer, and a miss changes nothing.
pub proof fn a_miss_changes_nothing(hit: bool, scratch: &[u8], out: &mut [u8], done: ())
    requires
        scratch@.len() <= old(out)@.len(),
        call_ensures(copy_on_hit, (hit, scratch, out), done),
    ensures
        final(out)@.len() == old(out)@.len(),
        forall|i: int| 0 <= i < old(out)@.len() ==> (#[trigger] final(out)@[i]) == if hit
            && i < scratch@.len() { scratch@[i] } else { old(out)@[i] },
{
}

/// A payload is let through exactly when it is no longer than a slot.
pub proof fn a_payload_fits_up_to_the_whole_slot(
    last: &mut LastError,
    len: usize,
    slot_bytes: usize,
    answer: Result<(), i32>,
)
    requires
        call_ensures(payload_fits, (last, len, slot_bytes), answer),
    ensures
        answer is Ok <==> len <= slot_bytes,
        answer is Ok ==> final(last)@ == old(last)@,
        answer matches Err(code) ==> code == SUBETHA_E_RING_PAYLOAD_TOO_LARGE,
{
}

/// A ring call that went well answers with what it gave, and one that did not
/// answers exactly as its error does.
pub proof fn a_ring_call_that_went_well_is_not_refused<T>(
    last: &mut LastError,
    other: &mut LastError,
    went: Result<T, RingError>,
    answer: Result<T, i32>,
    code: i32,
)
    requires
        call_ensures(ring_outcome::<T>, (last, went), answer),
        went matches Err(e) ==> call_ensures(ring_code, (other, e), code),
        old(last)@ == old(other)@,
    ensures
        went matches Ok(value) ==> answer == Ok::<T, i32>(value) && final(last)@ == old(last)@,
        went is Err ==> answer == Err::<T, i32>(code) && final(last)@ == final(other)@,
{
}

/// A refusal says what was given and what it should have been.
pub proof fn a_payload_too_large_says_by_how_much(
    last: &mut LastError,
    len: usize,
    slot_bytes: usize,
    answer: Result<(), i32>,
)
    requires
        call_ensures(payload_fits, (last, len, slot_bytes), answer),
    ensures
        answer is Err ==> final(last)@ == dec(len as nat) + " bytes exceed the "@ + dec(slot_bytes as nat)
            + "-byte slot"@,
{
}

} // verus!
