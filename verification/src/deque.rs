//! The work-stealing deque, at an element size the caller declares. One
//! process owns the deque and pushes and pops its bottom end; any number of
//! thieves in any number of processes open it and steal from the top end.
//!
//! The waiting forms park on a consumer waker and a producer waker kept beside
//! the deque file, at `<path>.cwaker.bin` and `<path>.pwaker.bin`.

use vstd::prelude::*;

use crate::arguments::{given, invalid_argument};
use crate::error::{
    answers, deque_code, deque_code_report, fail, io_code, io_code_report, told, DequeError,
    IoFailure, LastError, Refused, Report, SUBETHA_E_DEQUE_NOT_OWNER, SUBETHA_E_INVALID_ARGUMENT,
    SUBETHA_E_RING_EMPTY, SUBETHA_E_RING_PAYLOAD_TOO_LARGE, SUBETHA_E_WRONG_KIND,
};
use crate::handle::Object;
use crate::list::ElementLayout;
use crate::text::{dec, push_dec};

verus! {

/// The handle was created: it pushes, pops and steals.
pub const SUBETHA_DEQUE_OWNER: u32 = 0;

/// The handle was opened as a thief: it steals.
pub const SUBETHA_DEQUE_THIEF: u32 = 1;

/// A snapshot of a deque.
#[allow(non_camel_case_types)]
#[derive(Clone, Copy, Default, Debug, PartialEq, Eq)]
pub struct subetha_deque_stats {
    /// The mode this handle was created in.
    pub mode: u32,
    /// `SUBETHA_DEQUE_OWNER` or `SUBETHA_DEQUE_THIEF`.
    pub role: u32,
    /// Slots in the deque, a power of two.
    pub capacity: u64,
    /// Bytes per slot: the element size rounded up to eight.
    pub slot_bytes: u64,
    /// Bytes per element.
    pub element_size: u64,
    /// The element alignment the layout declares.
    pub alignment: u64,
    /// The layout tag the deque was created with.
    pub tag: u64,
    /// Elements taken from the top so far, by steals and by the owner's
    /// pop of the last element.
    pub top: i64,
    /// Elements the owner has pushed, less the ones it popped.
    pub bottom: i64,
    /// `bottom - top`, racing concurrent pushes and steals.
    pub approx_len: u64,
    /// Waits refused because every waiter slot was in use.
    pub waker_full: u64,
}

/// The payload behind a deque's handle.
pub fn with_deque<'a, P>(last: &mut LastError, object: &'a Object<P>) -> (payload: Result<&'a P, i32>)
    ensures
        answers(
            payload,
            match *object {
                Object::Deque(p) => Ok(&p),
                _ => Err(told(SUBETHA_E_WRONG_KIND, "the handle does not name a deque"@)),
            },
            old(last)@,
            final(last)@,
        ),
{
    match object {
        Object::Deque(p) => Ok(p),
        _ => Err(fail(last, SUBETHA_E_WRONG_KIND, "the handle does not name a deque")),
    }
}

/// What a call only the owner may make answers a handle in `role`.
pub open spec fn owner_outcome(role: u32) -> Result<(), Report> {
    if role == SUBETHA_DEQUE_OWNER {
        Ok(())
    } else {
        Err(told(SUBETHA_E_DEQUE_NOT_OWNER, "this handle opened the deque as a thief"@))
    }
}

/// Refuse a call only the owner may make on a handle that did not create
/// the deque.
pub fn require_owner(last: &mut LastError, role: u32) -> (allowed: Result<(), i32>)
    ensures
        answers(allowed, owner_outcome(role), old(last)@, final(last)@),
{
    if role == SUBETHA_DEQUE_OWNER {
        Ok(())
    } else {
        Err(fail(last, SUBETHA_E_DEQUE_NOT_OWNER, "this handle opened the deque as a thief"))
    }
}

/// What a push of `len` bytes has to be before the deque is touched.
pub open spec fn push_outcome(role: u32, len: usize, element_size: usize) -> Result<(), Report> {
    if owner_outcome(role) is Err {
        owner_outcome(role)
    } else if len > element_size {
        Err(
            told(
                SUBETHA_E_RING_PAYLOAD_TOO_LARGE,
                dec(len as nat) + " bytes exceed the "@ + dec(element_size as nat) + "-byte element"@,
            ),
        )
    } else {
        Ok(())
    }
}

/// Whether a push may go ahead: the owner's, of at most one element.
pub fn push_arguments(last: &mut LastError, role: u32, len: usize, element_size: usize) -> (allowed: Result<(), i32>)
    ensures
        answers(allowed, push_outcome(role, len, element_size), old(last)@, final(last)@),
{
    if let Err(code) = require_owner(last, role) {
        return Err(code);
    }
    if len > element_size {
        let mut text: String = String::new();
        push_dec(&mut text, len as u64);
        text.append(" bytes exceed the ");
        push_dec(&mut text, element_size as u64);
        text.append("-byte element");
        return Err(fail(last, SUBETHA_E_RING_PAYLOAD_TOO_LARGE, text.as_str()));
    }
    Ok(())
}

/// A thief pushes nothing and pops nothing, whatever it is given.
pub proof fn a_thief_only_steals(role: u32, len: usize, element_size: usize)
    requires
        role != SUBETHA_DEQUE_OWNER,
    ensures
        push_outcome(role, len, element_size) == owner_outcome(role),
        owner_outcome(role) == Err::<(), Report>(
            told(SUBETHA_E_DEQUE_NOT_OWNER, "this handle opened the deque as a thief"@),
        ),
{
}

/// What a push answers, given how it went: its value, or the code its error
/// maps to.
pub fn pushed<T>(last: &mut LastError, went: Result<T, DequeError>) -> (answer: Result<T, i32>)
    ensures
        answers(
            answer,
            match went {
                Ok(value) => Ok(value),
                Err(e) => Err(deque_code_report(e)),
            },
            old(last)@,
            final(last)@,
        ),
{
    match went {
        Ok(value) => Ok(value),
        Err(e) => Err(deque_code(last, e)),
    }
}

/// What a pop or a steal answers: the bytes it copied out, or that the deque
/// held none.
pub fn taken(
    found: Option<usize>,
) -> (answer: Result<usize, i32>)
    ensures
        answer == match found {
            Some(n) => Ok::<usize, i32>(n),
            None => Err(SUBETHA_E_RING_EMPTY),
        },
{
    match found {
        Some(n) => Ok(n),
        None => Err(SUBETHA_E_RING_EMPTY),
    }
}

/// Make the object for a deque that was created or opened, in a mode and
/// with its wakers beside it, each read in order: the deque, the mode, the
/// wakers.
pub fn place<P>(
    last: &mut LastError,
    opened: Result<P, DequeError>,
    mode: Result<u32, Refused>,
    wakers: Result<(), Refused>,
) -> (object: Result<(Object<P>, u32), i32>)
    ensures
        answers(
            object,
            match opened {
                Err(e) => Err(deque_code_report(e)),
                Ok(p) => if mode is Err {
                    Err(mode->Err_0.report())
                } else if wakers is Err {
                    Err(wakers->Err_0.report())
                } else {
                    Ok((Object::Deque(p), mode->Ok_0))
                },
            },
            old(last)@,
            final(last)@,
        ),
{
    match opened {
        Err(e) => Err(deque_code(last, e)),
        Ok(p) => {
            let mode: u32 = match given(last, mode) {
                Ok(mode) => mode,
                Err(code) => {
                    return Err(code);
                },
            };
            match given(last, wakers) {
                Ok(()) => Ok((Object::Deque(p), mode)),
                Err(code) => Err(code),
            }
        },
    }
}

/// Two to the power `n`.
pub open spec fn two_to(n: nat) -> nat
    decreases n,
{
    if n == 0 {
        1
    } else {
        2 * two_to((n - 1) as nat)
    }
}

/// Whether `n` is a power of two.
pub open spec fn is_power_of_two(n: nat) -> bool {
    exists|k: nat| n == #[trigger] two_to(k)
}

/// An even number is a power of two exactly when its half is.
proof fn halving_keeps_powers_of_two(n: nat)
    requires
        n % 2 == 0,
        n > 0,
    ensures
        is_power_of_two(n) == is_power_of_two(n / 2),
{
    if is_power_of_two(n) {
        let k = choose|k: nat| n == #[trigger] two_to(k);
        assert(k > 0);
        assert(n / 2 == two_to((k - 1) as nat));
    }
    if is_power_of_two(n / 2) {
        let k = choose|k: nat| n / 2 == #[trigger] two_to(k);
        assert(n == two_to(k + 1));
    }
}

/// An odd number past one is no power of two.
proof fn an_odd_number_is_no_power_of_two(n: nat)
    requires
        n % 2 == 1,
    ensures
        is_power_of_two(n) == (n == 1),
{
    if is_power_of_two(n) {
        let k = choose|k: nat| n == #[trigger] two_to(k);
        assert(k > 0 ==> two_to(k) % 2 == 0);
    }
    assert(two_to(0) == 1);
}

/// Zero is no power of two.
proof fn powers_of_two_are_positive(k: nat)
    ensures
        two_to(k) > 0,
    decreases k,
{
    if k > 0 {
        powers_of_two_are_positive((k - 1) as nat);
    }
}

/// Whether `n` is a power of two.
pub fn power_of_two(n: u32) -> (is: bool)
    ensures
        is == is_power_of_two(n as nat),
{
    if n == 0 {
        proof {
            if is_power_of_two(0) {
                let k = choose|k: nat| 0 == #[trigger] two_to(k);
                powers_of_two_are_positive(k);
            }
        }
        return false;
    }
    let mut left: u32 = n;
    while left % 2 == 0
        invariant
            left > 0,
            is_power_of_two(left as nat) == is_power_of_two(n as nat),
        decreases left,
    {
        proof {
            halving_keeps_powers_of_two(left as nat);
        }
        left = left / 2;
    }
    proof {
        an_odd_number_is_no_power_of_two(left as nat);
    }
    left == 1
}

/// What [`create_arguments`] answers.
pub open spec fn create_outcome<'a, O, L>(
    initialized: Result<(), Refused>,
    options: Result<O, Refused>,
    path: Result<&'a str, Refused>,
    capacity: u32,
    layout: Result<L, Refused>,
) -> Result<(O, &'a str, usize, L), Report> {
    if initialized is Err {
        Err(initialized->Err_0.report())
    } else if options is Err {
        Err(options->Err_0.report())
    } else if path is Err {
        Err(path->Err_0.report())
    } else if !is_power_of_two(capacity as nat) {
        Err(
            invalid_argument(
                "capacity "@ + dec(capacity as nat) + " is not a power of two of at least 1"@,
            ),
        )
    } else if layout is Err {
        Err(layout->Err_0.report())
    } else {
        Ok((options->Ok_0, path->Ok_0, capacity as usize, layout->Ok_0))
    }
}

/// The arguments of a deque's creation, read in order: the options, the
/// path, the capacity, the element layout.
pub fn create_arguments<'a, O, L>(
    last: &mut LastError,
    initialized: Result<(), Refused>,
    options: Result<O, Refused>,
    path: Result<&'a str, Refused>,
    capacity: u32,
    layout: Result<L, Refused>,
) -> (read: Result<(O, &'a str, usize, L), i32>)
    ensures
        answers(
            read,
            create_outcome(initialized, options, path, capacity, layout),
            old(last)@,
            final(last)@,
        ),
{
    if let Err(code) = given(last, initialized) {
        return Err(code);
    }
    let options: O = match given(last, options) {
        Ok(options) => options,
        Err(code) => {
            return Err(code);
        },
    };
    let path: &'a str = match given(last, path) {
        Ok(path) => path,
        Err(code) => {
            return Err(code);
        },
    };
    if !power_of_two(capacity) {
        let mut text: String = String::from_str("capacity ");
        push_dec(&mut text, capacity as u64);
        text.append(" is not a power of two of at least 1");
        return Err(fail(last, SUBETHA_E_INVALID_ARGUMENT, text.as_str()));
    }
    match given(last, layout) {
        Ok(layout) => Ok((options, path, capacity as usize, layout)),
        Err(code) => Err(code),
    }
}

/// The arguments of a thief's opening, read in order: the options, the path,
/// the element layout.
pub fn open_thief_arguments<'a, O, L>(
    last: &mut LastError,
    initialized: Result<(), Refused>,
    options: Result<O, Refused>,
    path: Result<&'a str, Refused>,
    layout: Result<L, Refused>,
) -> (answer: Result<(O, &'a str, L), i32>)
    ensures
        answers(
            answer,
            if initialized is Err {
                Err(initialized->Err_0.report())
            } else if options is Err {
                Err(options->Err_0.report())
            } else if path is Err {
                Err(path->Err_0.report())
            } else if layout is Err {
                Err(layout->Err_0.report())
            } else {
                Ok((options->Ok_0, path->Ok_0, layout->Ok_0))
            },
            old(last)@,
            final(last)@,
        ),
{
    if let Err(code) = given(last, initialized) {
        return Err(code);
    }
    let options: O = match given(last, options) {
        Ok(options) => options,
        Err(code) => {
            return Err(code);
        },
    };
    let path: &'a str = match given(last, path) {
        Ok(path) => path,
        Err(code) => {
            return Err(code);
        },
    };
    let layout: L = match given(last, layout) {
        Ok(layout) => layout,
        Err(code) => {
            return Err(code);
        },
    };
    Ok((options, path, layout))
}

/// What a flush answers, given how it went.
pub fn subetha_deque_flush(last: &mut LastError, went: Result<(), IoFailure>) -> (answer: Result<(), i32>)
    ensures
        answers(
            answer,
            match went {
                Ok(()) => Ok(()),
                Err(e) => Err(io_code_report(e)),
            },
            old(last)@,
            final(last)@,
        ),
{
    match went {
        Ok(()) => Ok(()),
        Err(e) => Err(io_code(last, e)),
    }
}

/// What an unlink removes: the deque's file and its two wakers'.
pub fn subetha_deque_unlink(path: &str) -> (names: (String, String, String))
    ensures
        names.0@ == path@,
        names.1@ == path@ + ".cwaker.bin"@,
        names.2@ == path@ + ".pwaker.bin"@,
{
    let mut consumer: String = String::from_str(path);
    consumer.append(".cwaker.bin");
    let mut producer: String = String::from_str(path);
    producer.append(".pwaker.bin");
    (String::from_str(path), consumer, producer)
}

/// A snapshot, from what the deque says.
pub fn stats(
    mode: u32,
    role: u32,
    capacity: usize,
    slot_bytes: usize,
    layout: ElementLayout,
    top: i64,
    bottom: i64,
    approx_len: usize,
    waker_full: u64,
) -> (stats: subetha_deque_stats)
    ensures
        stats == (subetha_deque_stats {
            mode,
            role,
            capacity: capacity as u64,
            slot_bytes: slot_bytes as u64,
            element_size: layout.slot_size as u64,
            alignment: layout.alignment as u64,
            tag: layout.tag,
            top,
            bottom,
            approx_len: approx_len as u64,
            waker_full,
        }),
{
    subetha_deque_stats {
        mode,
        role,
        capacity: capacity as u64,
        slot_bytes: slot_bytes as u64,
        element_size: layout.slot_size as u64,
        alignment: layout.alignment as u64,
        tag: layout.tag,
        top,
        bottom,
        approx_len: approx_len as u64,
        waker_full,
    }
}

/// A call on a deque reaches what stands behind a handle to a deque, and
/// nothing behind any other handle.
pub proof fn only_a_deque_is_reached<P>(last: &mut LastError, object: &Object<P>, reached: Result<&P, i32>)
    requires
        call_ensures(with_deque::<P>, (last, object), reached),
    ensures
        reached is Ok <==> *object is Deque,
        reached matches Ok(payload) ==> *object == Object::Deque(*payload) && final(last)@ == old(last)@,
        reached matches Err(code) ==> code == SUBETHA_E_WRONG_KIND
            && final(last)@ == "the handle does not name a deque"@,
{
}

/// A snapshot reports each thing it was handed under that thing's own name.
pub proof fn a_snapshot_reports_each_thing_as_it_is(
    mode: u32,
    role: u32,
    capacity: usize,
    slot_bytes: usize,
    layout: ElementLayout,
    top: i64,
    bottom: i64,
    approx_len: usize,
    waker_full: u64,
    shown: subetha_deque_stats,
)
    requires
        call_ensures(stats, (mode, role, capacity, slot_bytes, layout, top, bottom, approx_len, waker_full), shown),
    ensures
        shown.mode == mode,
        shown.role == role,
        shown.capacity == capacity as u64,
        shown.slot_bytes == slot_bytes as u64,
        shown.element_size == layout.slot_size as u64,
        shown.alignment == layout.alignment as u64,
        shown.tag == layout.tag,
        shown.top == top,
        shown.bottom == bottom,
        shown.approx_len == approx_len as u64,
        shown.waker_full == waker_full,
{
}

/// The owner may push any payload no longer than an element, the empty one
/// included; only a longer one is too large, and no one else pushes at all.
pub proof fn an_owner_pushes_up_to_a_whole_element(
    last: &mut LastError,
    role: u32,
    len: usize,
    element_size: usize,
    allowed: Result<(), i32>,
)
    requires
        call_ensures(push_arguments, (last, role, len, element_size), allowed),
    ensures
        allowed is Ok <==> role == SUBETHA_DEQUE_OWNER && len <= element_size,
        allowed is Ok ==> final(last)@ == old(last)@,
        role == SUBETHA_DEQUE_OWNER && len > element_size
            ==> allowed == Err::<(), i32>(SUBETHA_E_RING_PAYLOAD_TOO_LARGE),
        role != SUBETHA_DEQUE_OWNER ==> allowed == Err::<(), i32>(SUBETHA_E_DEQUE_NOT_OWNER),
{
}

/// Where a payload is let through, so is every shorter one, and so is the same
/// one onto larger elements.
pub proof fn a_shorter_payload_is_pushed_wherever_a_longer_one_is(
    last: &mut LastError,
    other: &mut LastError,
    role: u32,
    len: usize,
    shorter: usize,
    element_size: usize,
    larger: usize,
    one: Result<(), i32>,
    two: Result<(), i32>,
)
    requires
        call_ensures(push_arguments, (last, role, len, element_size), one),
        call_ensures(push_arguments, (other, role, shorter, larger), two),
        shorter <= len,
        element_size <= larger,
        one is Ok,
    ensures
        two is Ok,
{
}

/// A call that belongs to the owner is let through for the owner alone.
pub proof fn only_the_owner_owns(last: &mut LastError, role: u32, allowed: Result<(), i32>)
    requires
        call_ensures(require_owner, (last, role), allowed),
    ensures
        allowed is Ok <==> role == SUBETHA_DEQUE_OWNER,
        allowed is Ok ==> final(last)@ == old(last)@,
        allowed matches Err(code) ==> code == SUBETHA_E_DEQUE_NOT_OWNER
            && final(last)@ == "this handle opened the deque as a thief"@,
{
}

/// A push that went well answers with what it gave, and one that did not
/// answers exactly as its error does.
pub proof fn a_push_that_went_well_is_not_refused<T>(
    last: &mut LastError,
    other: &mut LastError,
    went: Result<T, DequeError>,
    answer: Result<T, i32>,
    code: i32,
)
    requires
        call_ensures(pushed::<T>, (last, went), answer),
        went matches Err(e) ==> call_ensures(deque_code, (other, e), code),
        old(last)@ == old(other)@,
    ensures
        went matches Ok(value) ==> answer == Ok::<T, i32>(value) && final(last)@ == old(last)@,
        went is Err ==> answer == Err::<T, i32>(code) && final(last)@ == final(other)@,
{
}

/// A pop or a steal answers with the bytes it took, and says the deque is
/// empty only where it took nothing.
pub proof fn a_deque_is_empty_only_when_nothing_was_taken(found: Option<usize>, answer: Result<usize, i32>)
    requires
        call_ensures(taken, (found,), answer),
    ensures
        found matches Some(n) ==> answer == Ok::<usize, i32>(n),
        found is None ==> answer == Err::<usize, i32>(SUBETHA_E_RING_EMPTY),
{
}

/// A deque that opened is placed as one, under the mode it was given, once its
/// wakers are there; an open that failed is answered exactly as its error is.
pub proof fn a_deque_that_opened_is_placed_as_one<P>(
    last: &mut LastError,
    other: &mut LastError,
    opened: Result<P, DequeError>,
    mode: Result<u32, Refused>,
    wakers: Result<(), Refused>,
    object: Result<(Object<P>, u32), i32>,
    code: i32,
)
    requires
        call_ensures(place::<P>, (last, opened, mode, wakers), object),
        opened matches Err(e) ==> call_ensures(deque_code, (other, e), code),
        old(last)@ == old(other)@,
    ensures
        object is Ok <==> opened is Ok && mode is Ok && wakers is Ok,
        object matches Ok(placed) ==> placed.0 == Object::Deque(opened->Ok_0) && placed.1 == mode->Ok_0
            && final(last)@ == old(last)@,
        opened is Err ==> object is Err && object->Err_0 == code && final(last)@ == final(other)@,
        opened is Ok && mode is Err ==> object is Err && object->Err_0 == mode->Err_0.code
            && final(last)@ == mode->Err_0.report().leaves(old(last)@),
        opened is Ok && mode is Ok && wakers is Err ==> object is Err && object->Err_0 == wakers->Err_0.code
            && final(last)@ == wakers->Err_0.report().leaves(old(last)@),
{
}

/// The arguments are accepted exactly when nothing is wrong with any of them,
/// and then handed on unchanged; the first one at fault is the one answered
/// for. A capacity is right when doubling one often enough gives it.
pub proof fn a_deque_is_made_with_a_power_of_two<'a, O, L>(
    last: &mut LastError,
    initialized: Result<(), Refused>,
    options: Result<O, Refused>,
    path: Result<&'a str, Refused>,
    capacity: u32,
    layout: Result<L, Refused>,
    read: Result<(O, &'a str, usize, L), i32>,
)
    requires
        call_ensures(create_arguments::<O, L>, (last, initialized, options, path, capacity, layout), read),
    ensures
        read is Ok <==> initialized is Ok && options is Ok && path is Ok && !(!is_power_of_two(capacity as nat))
            && layout is Ok,
        read matches Ok(all) ==> all.0 == options->Ok_0 && all.1 == path->Ok_0 && all.2 == capacity
            && all.3 == layout->Ok_0 && final(last)@ == old(last)@,
        initialized is Err ==> read is Err && read->Err_0 == initialized->Err_0.code
            && final(last)@ == initialized->Err_0.report().leaves(old(last)@),
        initialized is Ok && options is Err ==> read is Err && read->Err_0 == options->Err_0.code
            && final(last)@ == options->Err_0.report().leaves(old(last)@),
        initialized is Ok && options is Ok && path is Err ==> read is Err && read->Err_0 == path->Err_0.code
            && final(last)@ == path->Err_0.report().leaves(old(last)@),
        initialized is Ok && options is Ok && path is Ok && !is_power_of_two(capacity as nat) ==> read is Err
            && read->Err_0 == SUBETHA_E_INVALID_ARGUMENT,
        initialized is Ok && options is Ok && path is Ok && !(!is_power_of_two(capacity as nat))
            && layout is Err ==> read is Err && read->Err_0 == layout->Err_0.code
            && final(last)@ == layout->Err_0.report().leaves(old(last)@),
{
}

/// The arguments are accepted exactly when nothing is wrong with any of them,
/// and then handed on unchanged; the first one at fault is the one answered
/// for.
pub proof fn a_thief_opens_with_arguments_that_are_right<'a, O, L>(
    last: &mut LastError,
    initialized: Result<(), Refused>,
    options: Result<O, Refused>,
    path: Result<&'a str, Refused>,
    layout: Result<L, Refused>,
    read: Result<(O, &'a str, L), i32>,
)
    requires
        call_ensures(open_thief_arguments::<O, L>, (last, initialized, options, path, layout), read),
    ensures
        read is Ok <==> initialized is Ok && options is Ok && path is Ok && layout is Ok,
        read matches Ok(all) ==> all.0 == options->Ok_0 && all.1 == path->Ok_0 && all.2 == layout->Ok_0
            && final(last)@ == old(last)@,
        initialized is Err ==> read is Err && read->Err_0 == initialized->Err_0.code
            && final(last)@ == initialized->Err_0.report().leaves(old(last)@),
        initialized is Ok && options is Err ==> read is Err && read->Err_0 == options->Err_0.code
            && final(last)@ == options->Err_0.report().leaves(old(last)@),
        initialized is Ok && options is Ok && path is Err ==> read is Err && read->Err_0 == path->Err_0.code
            && final(last)@ == path->Err_0.report().leaves(old(last)@),
        initialized is Ok && options is Ok && path is Ok && layout is Err ==> read is Err
            && read->Err_0 == layout->Err_0.code && final(last)@ == layout->Err_0.report().leaves(old(last)@),
{
}

/// A flush that went well answers so, and one that did not answers exactly as
/// its error does.
pub proof fn a_flush_that_went_well_is_not_refused(
    last: &mut LastError,
    other: &mut LastError,
    went: Result<(), IoFailure>,
    answer: Result<(), i32>,
    code: i32,
)
    requires
        call_ensures(subetha_deque_flush, (last, went), answer),
        went matches Err(e) ==> call_ensures(io_code, (other, e), code),
        old(last)@ == old(other)@,
    ensures
        went matches Ok(value) ==> answer == Ok::<(), i32>(()) && final(last)@ == old(last)@,
        went is Err ==> answer == Err::<(), i32>(code) && final(last)@ == final(other)@,
{
}

/// A number is a power of two exactly when it is one, or even and its half is
/// a power of two; zero is none.
pub proof fn a_power_of_two_halves_to_one(n: u32, half: u32, whole: bool, halved: bool)
    requires
        call_ensures(power_of_two, (n,), whole),
        call_ensures(power_of_two, (half,), halved),
        half == n / 2,
    ensures
        n == 0 ==> !whole,
        n == 1 ==> whole,
        n > 1 && n % 2 == 1 ==> !whole,
        n > 1 && n % 2 == 0 ==> (whole <==> halved),
{
    if is_power_of_two(n as nat) {
        let k = choose|k: nat| n as nat == #[trigger] two_to(k);
        if k > 0 {
            assert(n == 2 * two_to((k - 1) as nat));
            assert(half as nat == two_to((k - 1) as nat));
        }
    }
    if is_power_of_two(half as nat) {
        let k = choose|k: nat| half as nat == #[trigger] two_to(k);
        assert(two_to(k + 1) == 2 * half);
    }
    assert(two_to(0) == 1);
    a_power_of_two_is_not_zero(n as nat);
}

proof fn a_power_of_two_is_not_zero(n: nat)
    ensures
        is_power_of_two(n) ==> n > 0,
{
    if is_power_of_two(n) {
        let k = choose|k: nat| n == #[trigger] two_to(k);
        two_to_is_not_zero(k);
    }
}

proof fn two_to_is_not_zero(k: nat)
    ensures
        two_to(k) > 0,
    decreases k,
{
    if k > 0 {
        two_to_is_not_zero((k - 1) as nat);
    }
}

/// Removing a deque removes its own file and one for each side that waits on
/// it.
pub proof fn a_deque_leaves_three_files(path: &str, names: (String, String, String))
    requires
        call_ensures(subetha_deque_unlink, (path,), names),
    ensures
        names.0@ == path@,
        names.1@ == path@ + ".cwaker.bin"@,
        names.2@ == path@ + ".pwaker.bin"@,
{
}

/// The numbers callers give and are given, as they were built against them.
pub proof fn the_numbers_are_the_ones_callers_know()
    ensures
        SUBETHA_DEQUE_OWNER == 0,
        SUBETHA_DEQUE_THIEF == 1,
{
}

/// A refusal says what was given and what it should have been.
pub proof fn a_push_too_large_says_by_how_much(
    last: &mut LastError,
    role: u32,
    len: usize,
    element_size: usize,
    allowed: Result<(), i32>,
)
    requires
        call_ensures(push_arguments, (last, role, len, element_size), allowed),
    ensures
        allowed is Err && role == SUBETHA_DEQUE_OWNER ==> final(last)@ == dec(len as nat) + " bytes exceed the "@
            + dec(element_size as nat) + "-byte element"@,
        role != SUBETHA_DEQUE_OWNER ==> final(last)@ == "this handle opened the deque as a thief"@,
{
}

/// A refusal says what was given and what it should have been.
pub proof fn a_capacity_at_fault_is_told<'a, O, L>(
    last: &mut LastError,
    initialized: Result<(), Refused>,
    options: Result<O, Refused>,
    path: Result<&'a str, Refused>,
    capacity: u32,
    layout: Result<L, Refused>,
    read: Result<(O, &'a str, usize, L), i32>,
)
    requires
        call_ensures(create_arguments::<O, L>, (last, initialized, options, path, capacity, layout), read),
    ensures
        initialized is Ok && options is Ok && path is Ok && !is_power_of_two(capacity as nat)
            ==> final(last)@ == "capacity "@ + dec(capacity as nat) + " is not a power of two of at least 1"@,
{
}

} // verus!
