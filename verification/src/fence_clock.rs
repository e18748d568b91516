//! The shared fence clock: a hybrid logical clock per participant in one file,
//! and the global fence by which all of their work is accounted for.
//!
//! A slot is named by a plain index rather than a handle, so registering and
//! unregistering cost nothing beyond the call. A process that dies holding a
//! slot leaves it registered, and the caller reclaims it by reading `pid` out
//! of a slot and unregistering the slots whose process is gone.
//!
//! A constructor's arguments are those every table of slots takes; they are
//! read by [`crate::arguments::read_arguments`].

use vstd::prelude::*;

use crate::arguments::{invalid_argument, refuse_if};
use crate::error::{
    answers, fail, fence_clock_code, fence_clock_code_report, told, FenceClockError, LastError,
    Report, SUBETHA_E_INVALID_ARGUMENT, SUBETHA_E_WRONG_KIND,
};
use crate::handle::Object;
use crate::text::{dec, push_dec};

verus! {

/// A reading of the hybrid clock.
#[allow(non_camel_case_types)]
#[derive(Clone, Copy, Default, Debug, PartialEq, Eq, Structural)]
pub struct subetha_hlc {
    /// Microseconds, from the clock the participants share.
    pub physical_us: u64,
    /// Ticks within one microsecond, so two events in the same
    /// microsecond still order.
    pub logical: u64,
}

/// One participant's slot.
#[allow(non_camel_case_types)]
#[derive(Clone, Copy, Default, Debug, PartialEq, Eq, Structural)]
pub struct subetha_fence_clock_slot {
    /// The process holding the slot; a caller reclaims a slot whose
    /// process is gone by unregistering it.
    pub pid: u32,
    /// That participant's clock as it last published it.
    pub hlc: subetha_hlc,
    /// When it last did, on the shared microsecond clock.
    pub last_updated_us: u64,
}

/// A snapshot of a fence clock.
#[allow(non_camel_case_types)]
#[derive(Clone, Copy, Default, Debug, PartialEq, Eq)]
pub struct subetha_fence_clock_stats {
    /// The mode this handle was created in.
    pub mode: u32,
    /// Slots the clock holds.
    pub capacity: u64,
    /// The shared microsecond reading right now.
    pub shared_clock_us: u64,
    /// The global fence as last published.
    pub fence: subetha_hlc,
    /// How many times a fence has been published.
    pub fence_epoch: u64,
}

/// The payload behind a fence clock's handle.
pub fn with_clock<'a, P>(last: &mut LastError, object: &'a Object<P>) -> (payload: Result<&'a P, i32>)
    ensures
        answers(
            payload,
            match *object {
                Object::FenceClock(p) => Ok(&p),
                _ => Err(told(SUBETHA_E_WRONG_KIND, "the handle does not name a fence clock"@)),
            },
            old(last)@,
            final(last)@,
        ),
{
    match object {
        Object::FenceClock(p) => Ok(p),
        _ => Err(fail(last, SUBETHA_E_WRONG_KIND, "the handle does not name a fence clock")),
    }
}

/// What naming a slot of a clock of `capacity` slots answers.
pub open spec fn slot_outcome(capacity: usize, slot: u32) -> Result<usize, Report> {
    if slot >= capacity {
        Err(
            invalid_argument(
                "slot "@ + dec(slot as nat) + " is past the "@ + dec(capacity as nat) + " the clock holds"@,
            ),
        )
    } else {
        Ok(slot as usize)
    }
}

/// A slot index the clock holds.
pub fn slot_of(last: &mut LastError, capacity: usize, slot: u32) -> (index: Result<usize, i32>)
    ensures
        answers(index, slot_outcome(capacity, slot), old(last)@, final(last)@),
{
    if slot as usize >= capacity {
        let mut text: String = String::from_str("slot ");
        push_dec(&mut text, slot as u64);
        text.append(" is past the ");
        push_dec(&mut text, capacity as u64);
        text.append(" the clock holds");
        return Err(fail(last, SUBETHA_E_INVALID_ARGUMENT, text.as_str()));
    }
    Ok(slot as usize)
}

/// Hand a reading back, once it has been made: the clock has moved whether
/// or not there is somewhere to write what it reads.
pub fn write_hlc(last: &mut LastError, out_null: bool, value: subetha_hlc) -> (written: Result<subetha_hlc, i32>)
    ensures
        answers(
            written,
            if out_null {
                Err(invalid_argument("out is null"@))
            } else {
                Ok(value)
            },
            old(last)@,
            final(last)@,
        ),
{
    match refuse_if(last, out_null, "out is null") {
        Ok(()) => Ok(value),
        Err(code) => Err(code),
    }
}

/// Make the object for a clock that was built or opened, or answer with why
/// it could not be.
pub fn place<P>(last: &mut LastError, opened: Result<P, FenceClockError>) -> (object: Result<Object<P>, i32>)
    ensures
        answers(
            object,
            match opened {
                Ok(p) => Ok(Object::FenceClock(p)),
                Err(e) => Err(fence_clock_code_report(e)),
            },
            old(last)@,
            final(last)@,
        ),
{
    match opened {
        Ok(p) => Ok(Object::FenceClock(p)),
        Err(e) => Err(fence_clock_code(last, e)),
    }
}

/// Somewhere to write the slot a registration takes.
pub fn register_arguments(
    last: &mut LastError,
    out_slot_null: bool,
) -> (answer: Result<(), i32>)
    ensures
        answers(
            answer,
            if out_slot_null {
                Err(invalid_argument("out_slot is null"@))
            } else {
                Ok(())
            },
            old(last)@,
            final(last)@,
        ),
{
    if out_slot_null {
        return Err(fail(last, SUBETHA_E_INVALID_ARGUMENT, "out_slot is null"));
    }
    Ok(())
}

/// The slot a registration took, or what it answers when it took none.
pub fn subetha_fence_clock_register(
    last: &mut LastError,
    registered: Result<usize, FenceClockError>,
) -> (answer: Result<u32, i32>)
    ensures
        answers(
            answer,
            match registered {
                Ok(slot) => Ok(slot as u32),
                Err(e) => Err(fence_clock_code_report(e)),
            },
            old(last)@,
            final(last)@,
        ),
{
    match registered {
        Ok(slot) => Ok(slot as u32),
        Err(e) => Err(fence_clock_code(last, e)),
    }
}

/// The arguments of a look at one slot, checked in order: the slot, then
/// somewhere to write what it holds and whether it holds anything.
pub fn read_slot_arguments(
    last: &mut LastError,
    capacity: usize,
    slot: u32,
    out_null: bool,
    out_registered_null: bool,
) -> (answer: Result<usize, i32>)
    ensures
        answers(
            answer,
            if slot_outcome(capacity, slot) is Err {
                Err(slot_outcome(capacity, slot)->Err_0)
            } else if out_null || out_registered_null {
                Err(invalid_argument("out or out_registered is null"@))
            } else {
                Ok(slot as usize)
            },
            old(last)@,
            final(last)@,
        ),
{
    let index: usize = match slot_of(last, capacity, slot) {
        Ok(index) => index,
        Err(code) => {
            return Err(code);
        },
    };
    if out_null || out_registered_null {
        return Err(fail(last, SUBETHA_E_INVALID_ARGUMENT, "out or out_registered is null"));
    }
    Ok(index)
}

/// Hand a slot's state back: what it holds and that it is held, or only
/// that it is not, the state left as it was.
pub fn subetha_fence_clock_read_slot(
    snapshot: Option<subetha_fence_clock_slot>,
    out: &mut subetha_fence_clock_slot,
) -> (registered: bool)
    ensures
        registered == (snapshot is Some),
        *final(out) == match snapshot {
            Some(found) => found,
            None => *old(out),
        },
{
    match snapshot {
        Some(found) => {
            *out = found;
            true
        },
        None => false,
    }
}

/// What a call on a clock answers, given how it went: its value, or the
/// code its error maps to.
pub fn outcome<T>(last: &mut LastError, went: Result<T, FenceClockError>) -> (answer: Result<T, i32>)
    ensures
        answers(
            answer,
            match went {
                Ok(value) => Ok(value),
                Err(e) => Err(fence_clock_code_report(e)),
            },
            old(last)@,
            final(last)@,
        ),
{
    match went {
        Ok(value) => Ok(value),
        Err(e) => Err(fence_clock_code(last, e)),
    }
}

/// A snapshot, from what the clock says.
pub fn stats(
    mode: u32,
    capacity: usize,
    shared_clock_us: u64,
    fence: subetha_hlc,
    fence_epoch: u64,
) -> (stats: subetha_fence_clock_stats)
    ensures
        stats == (subetha_fence_clock_stats {
            mode,
            capacity: capacity as u64,
            shared_clock_us,
            fence,
            fence_epoch,
        }),
{
    subetha_fence_clock_stats {
        mode,
        capacity: capacity as u64,
        shared_clock_us,
        fence,
        fence_epoch,
    }
}

/// A call on a fence clock reaches what stands behind a handle to a fence
/// clock, and nothing behind any other handle.
pub proof fn only_a_fence_clock_is_reached<P>(last: &mut LastError, object: &Object<P>, reached: Result<&P, i32>)
    requires
        call_ensures(with_clock::<P>, (last, object), reached),
    ensures
        reached is Ok <==> *object is FenceClock,
        reached matches Ok(payload) ==> *object == Object::FenceClock(*payload) && final(last)@ == old(last)@,
        reached matches Err(code) ==> code == SUBETHA_E_WRONG_KIND
            && final(last)@ == "the handle does not name a fence clock"@,
{
}

/// A clock that opened is placed as what it is; one that did not is answered
/// exactly as its error is.
pub proof fn a_clock_that_opened_is_placed_as_one<P>(
    last: &mut LastError,
    other: &mut LastError,
    opened: Result<P, FenceClockError>,
    answer: Result<Object<P>, i32>,
    code: i32,
)
    requires
        call_ensures(place::<P>, (last, opened), answer),
        opened matches Err(e) ==> call_ensures(fence_clock_code, (other, e), code),
        old(last)@ == old(other)@,
    ensures
        opened matches Ok(value) ==> answer == Ok::<Object<P>, i32>(Object::FenceClock(value))
            && final(last)@ == old(last)@,
        opened is Err ==> answer == Err::<Object<P>, i32>(code) && final(last)@ == final(other)@,
{
}

/// A call that went well answers with what it gave, and one that did not
/// answers exactly as its error does.
pub proof fn a_call_that_went_well_is_not_refused<T>(
    last: &mut LastError,
    other: &mut LastError,
    went: Result<T, FenceClockError>,
    answer: Result<T, i32>,
    code: i32,
)
    requires
        call_ensures(outcome::<T>, (last, went), answer),
        went matches Err(e) ==> call_ensures(fence_clock_code, (other, e), code),
        old(last)@ == old(other)@,
    ensures
        went matches Ok(value) ==> answer == Ok::<T, i32>(value) && final(last)@ == old(last)@,
        went is Err ==> answer == Err::<T, i32>(code) && final(last)@ == final(other)@,
{
}

/// A snapshot reports each thing it was handed under that thing's own name.
pub proof fn a_snapshot_reports_each_thing_as_it_is(
    mode: u32,
    capacity: usize,
    shared_clock_us: u64,
    fence: subetha_hlc,
    fence_epoch: u64,
    shown: subetha_fence_clock_stats,
)
    requires
        call_ensures(stats, (mode, capacity, shared_clock_us, fence, fence_epoch), shown),
    ensures
        shown.mode == mode,
        shown.capacity == capacity as u64,
        shown.shared_clock_us == shared_clock_us,
        shown.fence == fence,
        shown.fence_epoch == fence_epoch,
{
}

/// A slot is accepted exactly when the clock has it, and stands for itself.
pub proof fn a_slot_is_named_below_the_capacity(
    last: &mut LastError,
    capacity: usize,
    slot: u32,
    index: Result<usize, i32>,
)
    requires
        call_ensures(slot_of, (last, capacity, slot), index),
    ensures
        index is Ok <==> slot < capacity,
        index matches Ok(i) ==> i == slot && final(last)@ == old(last)@,
        index matches Err(code) ==> code == SUBETHA_E_INVALID_ARGUMENT,
{
}

/// A time is handed back unchanged wherever there is a place for it.
pub proof fn a_time_is_written_where_there_is_a_place(
    last: &mut LastError,
    out_null: bool,
    value: subetha_hlc,
    written: Result<subetha_hlc, i32>,
)
    requires
        call_ensures(write_hlc, (last, out_null, value), written),
    ensures
        written is Ok <==> !out_null,
        written matches Ok(v) ==> v == value && final(last)@ == old(last)@,
        written matches Err(code) ==> code == SUBETHA_E_INVALID_ARGUMENT && final(last)@ == "out is null"@,
{
}

/// A registration is tried exactly when there is a place for its slot.
pub proof fn a_registration_needs_a_place_for_its_slot(
    last: &mut LastError,
    out_slot_null: bool,
    answer: Result<(), i32>,
)
    requires
        call_ensures(register_arguments, (last, out_slot_null), answer),
    ensures
        answer is Ok <==> !out_slot_null,
        answer is Ok ==> final(last)@ == old(last)@,
        answer matches Err(code) ==> code == SUBETHA_E_INVALID_ARGUMENT && final(last)@ == "out_slot is null"@,
{
}

/// A slot is read exactly when the clock has it and there are places for what
/// it holds.
pub proof fn a_slot_is_read_where_it_is_there_and_can_be_written(
    last: &mut LastError,
    capacity: usize,
    slot: u32,
    out_null: bool,
    out_registered_null: bool,
    answer: Result<usize, i32>,
)
    requires
        call_ensures(read_slot_arguments, (last, capacity, slot, out_null, out_registered_null), answer),
    ensures
        answer is Ok <==> slot < capacity && !out_null && !out_registered_null,
        answer matches Ok(i) ==> i == slot && final(last)@ == old(last)@,
        answer matches Err(code) ==> code == SUBETHA_E_INVALID_ARGUMENT,
{
}

/// A registered slot is written and said to be; one nobody registered leaves
/// what was there.
pub proof fn a_slot_nobody_registered_is_not_written(
    snapshot: Option<subetha_fence_clock_slot>,
    out: &mut subetha_fence_clock_slot,
    registered: bool,
)
    requires
        call_ensures(subetha_fence_clock_read_slot, (snapshot, out), registered),
    ensures
        registered <==> snapshot is Some,
        snapshot matches Some(found) ==> *final(out) == found,
        snapshot is None ==> *final(out) == *old(out),
{
}

/// A registration that went well answers with its slot, and one that did not
/// answers exactly as its error does.
pub proof fn a_registration_answers_with_its_slot(
    last: &mut LastError,
    other: &mut LastError,
    registered: Result<usize, FenceClockError>,
    answer: Result<u32, i32>,
    code: i32,
)
    requires
        call_ensures(subetha_fence_clock_register, (last, registered), answer),
        registered matches Err(e) ==> call_ensures(fence_clock_code, (other, e), code),
        old(last)@ == old(other)@,
    ensures
        registered matches Ok(slot) ==> answer is Ok && final(last)@ == old(last)@ && (slot <= u32::MAX
            ==> answer->Ok_0 == slot),
        registered is Err ==> answer == Err::<u32, i32>(code) && final(last)@ == final(other)@,
{
}

/// A refusal says what was given and what it should have been.
pub proof fn a_slot_at_fault_is_told(last: &mut LastError, capacity: usize, slot: u32, index: Result<usize, i32>)
    requires
        call_ensures(slot_of, (last, capacity, slot), index),
    ensures
        index is Err ==> final(last)@ == "slot "@ + dec(slot as nat) + " is past the "@ + dec(capacity as nat)
            + " the clock holds"@,
{
}

} // verus!
