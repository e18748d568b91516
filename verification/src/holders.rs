//! The holder table: a fixed array of claimable slots, each stamped with the
//! process holding it, so a holder that died can be told from one that is
//! working.
//!
//! What a payload means is the caller's. It is one word per slot at any
//! encoding the processes sharing the file agree on, with two values
//! reserved because the table itself reads them: `SUBETHA_HOLDER_FREE` for a
//! slot nobody holds and `SUBETHA_HOLDER_RESERVED` for one claimed whose
//! payload is not decided yet.

use vstd::prelude::*;

use crate::arguments::{invalid_argument, refuse_if};
use crate::error::{
    answers, fail, holders_code, holders_code_report, told, LastError, Report, SharedHolderError,
    SUBETHA_E_INVALID_ARGUMENT, SUBETHA_E_OUT_OF_BOUNDS, SUBETHA_E_RING_FULL, SUBETHA_E_WRONG_KIND,
};
use crate::handle::Object;
use crate::text::{dec, push_dec};

verus! {

/// The state of a slot nobody holds.
pub const SUBETHA_HOLDER_FREE: u64 = 0;

/// The state of a slot claimed whose payload is not decided yet. A
/// caller's payload may not be this value.
pub const SUBETHA_HOLDER_RESERVED: u64 = 0xFFFF_FFFF_FFFF_FFFF;

/// A snapshot of a holder table.
#[allow(non_camel_case_types)]
#[derive(Clone, Copy, Default, Debug, PartialEq, Eq)]
pub struct subetha_holders_stats {
    /// The mode this handle was created in.
    pub mode: u32,
    /// Slots the table holds.
    pub capacity: u32,
    /// Slots held right now, across every process. A slot that is
    /// reserved but not published does not count.
    pub live: u32,
    /// Bytes the table takes on disk.
    pub file_size: u64,
}

/// The payload behind a holder table's handle.
pub fn with_holders<'a, P>(last: &mut LastError, object: &'a Object<P>) -> (payload: Result<&'a P, i32>)
    ensures
        answers(
            payload,
            match *object {
                Object::Holders(p) => Ok(&p),
                _ => Err(told(SUBETHA_E_WRONG_KIND, "the handle does not name a holder table"@)),
            },
            old(last)@,
            final(last)@,
        ),
{
    match object {
        Object::Holders(p) => Ok(p),
        _ => Err(fail(last, SUBETHA_E_WRONG_KIND, "the handle does not name a holder table")),
    }
}

/// What naming a slot of a table of `capacity` slots answers.
pub open spec fn slot_outcome(capacity: usize, slot: u32) -> Result<usize, Report> {
    if slot >= capacity {
        Err(
            told(
                SUBETHA_E_OUT_OF_BOUNDS,
                "slot "@ + dec(slot as nat) + " is past the "@ + dec(capacity as nat) + " the table holds"@,
            ),
        )
    } else {
        Ok(slot as usize)
    }
}

/// A slot index the table holds.
pub fn checked_slot(last: &mut LastError, capacity: usize, slot: u32) -> (index: Result<usize, i32>)
    ensures
        answers(index, slot_outcome(capacity, slot), old(last)@, final(last)@),
{
    if slot as usize >= capacity {
        let mut text: String = String::from_str("slot ");
        push_dec(&mut text, slot as u64);
        text.append(" is past the ");
        push_dec(&mut text, capacity as u64);
        text.append(" the table holds");
        return Err(fail(last, SUBETHA_E_OUT_OF_BOUNDS, text.as_str()));
    }
    Ok(slot as usize)
}

/// What setting a payload answers.
pub open spec fn payload_outcome(payload: u64) -> Result<u64, Report> {
    if payload == SUBETHA_HOLDER_FREE {
        Err(invalid_argument("a payload of SUBETHA_HOLDER_FREE makes the slot read as unheld"@))
    } else if payload == SUBETHA_HOLDER_RESERVED {
        Err(
            invalid_argument(
                "a payload of SUBETHA_HOLDER_RESERVED makes the slot read as still being decided"@,
            ),
        )
    } else {
        Ok(payload)
    }
}

/// A payload a caller may set. The two values the table reads for itself
/// are refused rather than stored, since storing one makes a held slot
/// read as free or as still being decided.
pub fn checked_payload(last: &mut LastError, payload: u64) -> (checked: Result<u64, i32>)
    ensures
        answers(checked, payload_outcome(payload), old(last)@, final(last)@),
{
    if payload == SUBETHA_HOLDER_FREE {
        return Err(
            fail(
                last,
                SUBETHA_E_INVALID_ARGUMENT,
                "a payload of SUBETHA_HOLDER_FREE makes the slot read as unheld",
            ),
        );
    }
    if payload == SUBETHA_HOLDER_RESERVED {
        return Err(
            fail(
                last,
                SUBETHA_E_INVALID_ARGUMENT,
                "a payload of SUBETHA_HOLDER_RESERVED makes the slot read as still being decided",
            ),
        );
    }
    Ok(payload)
}

/// Make the object for a holder table that was built or opened, or answer with why
/// it could not be.
pub fn place<P>(last: &mut LastError, opened: Result<P, SharedHolderError>) -> (object: Result<Object<P>, i32>)
    ensures
        answers(
            object,
            match opened {
                Ok(p) => Ok(Object::Holders(p)),
                Err(e) => Err(holders_code_report(e)),
            },
            old(last)@,
            final(last)@,
        ),
{
    match opened {
        Ok(p) => Ok(Object::Holders(p)),
        Err(e) => Err(holders_code(last, e)),
    }
}

/// The arguments of a claim, checked in order: the payload, then somewhere to
/// write the slot.
pub fn claim_arguments(last: &mut LastError, payload: u64, out_slot_null: bool) -> (checked: Result<u64, i32>)
    ensures
        answers(
            checked,
            if payload_outcome(payload) is Err {
                payload_outcome(payload)
            } else if out_slot_null {
                Err(invalid_argument("out_slot is null"@))
            } else {
                Ok(payload)
            },
            old(last)@,
            final(last)@,
        ),
{
    let payload: u64 = match checked_payload(last, payload) {
        Ok(payload) => payload,
        Err(code) => {
            return Err(code);
        },
    };
    match refuse_if(last, out_slot_null, "out_slot is null") {
        Ok(()) => Ok(payload),
        Err(code) => Err(code),
    }
}

/// The slot a claim or a reservation took; a full ring when every slot is
/// held.
pub fn claimed(taken: Option<usize>) -> (slot: Result<u32, i32>)
    ensures
        slot == match taken {
            Some(i) => Ok::<u32, i32>(i as u32),
            None => Err::<u32, i32>(SUBETHA_E_RING_FULL),
        },
{
    match taken {
        Some(i) => Ok(i as u32),
        None => Err(SUBETHA_E_RING_FULL),
    }
}

/// What publishing a payload in a slot answers.
pub open spec fn publish_outcome(capacity: usize, slot: u32, payload: u64) -> Result<(usize, u64), Report> {
    if slot_outcome(capacity, slot) is Err {
        Err(slot_outcome(capacity, slot)->Err_0)
    } else if payload_outcome(payload) is Err {
        Err(payload_outcome(payload)->Err_0)
    } else {
        Ok((slot as usize, payload))
    }
}

/// The arguments of a publish, checked in order: the slot, then the payload.
pub fn publish_arguments(last: &mut LastError, capacity: usize, slot: u32, payload: u64) -> (checked: Result<
    (usize, u64),
    i32,
>)
    ensures
        answers(checked, publish_outcome(capacity, slot, payload), old(last)@, final(last)@),
{
    let index: usize = match checked_slot(last, capacity, slot) {
        Ok(index) => index,
        Err(code) => {
            return Err(code);
        },
    };
    match checked_payload(last, payload) {
        Ok(payload) => Ok((index, payload)),
        Err(code) => Err(code),
    }
}

/// The arguments of a claim of one slot in particular, checked in order: the
/// slot, the payload, then somewhere to say whether it was claimed.
pub fn try_claim_slot_arguments(
    last: &mut LastError,
    capacity: usize,
    slot: u32,
    payload: u64,
    out_claimed_null: bool,
) -> (checked: Result<(usize, u64), i32>)
    ensures
        answers(
            checked,
            if publish_outcome(capacity, slot, payload) is Err {
                publish_outcome(capacity, slot, payload)
            } else if out_claimed_null {
                Err(invalid_argument("out_claimed is null"@))
            } else {
                Ok((slot as usize, payload))
            },
            old(last)@,
            final(last)@,
        ),
{
    let named: (usize, u64) = match publish_arguments(last, capacity, slot, payload) {
        Ok(named) => named,
        Err(code) => {
            return Err(code);
        },
    };
    match refuse_if(last, out_claimed_null, "out_claimed is null") {
        Ok(()) => Ok(named),
        Err(code) => Err(code),
    }
}

/// A snapshot, from what the table says.
pub fn stats(
    mode: u32,
    capacity: usize,
    live: usize,
    file_size: usize,
) -> (stats: subetha_holders_stats)
    ensures
        stats == (subetha_holders_stats {
            mode,
            capacity: capacity as u32,
            live: live as u32,
            file_size: file_size as u64,
        }),
{
    subetha_holders_stats {
        mode,
        capacity: capacity as u32,
        live: live as u32,
        file_size: file_size as u64,
    }
}

/// The payloads a caller may set are exactly those that read as neither a
/// free slot nor a reservation, and each is set as it was given.
pub proof fn an_accepted_payload_reads_as_itself(payload: u64)
    ensures
        payload_outcome(payload) is Ok <==> payload != SUBETHA_HOLDER_FREE && payload != SUBETHA_HOLDER_RESERVED,
        payload_outcome(payload) is Ok ==> payload_outcome(payload) == Ok::<u64, Report>(payload),
{
}

/// A call on a holder table reaches what stands behind a handle to a holder
/// table, and nothing behind any other handle.
pub proof fn only_a_holder_table_is_reached<P>(last: &mut LastError, object: &Object<P>, reached: Result<&P, i32>)
    requires
        call_ensures(with_holders::<P>, (last, object), reached),
    ensures
        reached is Ok <==> *object is Holders,
        reached matches Ok(payload) ==> *object == Object::Holders(*payload) && final(last)@ == old(last)@,
        reached matches Err(code) ==> code == SUBETHA_E_WRONG_KIND
            && final(last)@ == "the handle does not name a holder table"@,
{
}

/// A table that opened is placed as what it is; one that did not is answered
/// exactly as its error is.
pub proof fn a_table_that_opened_is_placed_as_one<P>(
    last: &mut LastError,
    other: &mut LastError,
    opened: Result<P, SharedHolderError>,
    answer: Result<Object<P>, i32>,
    code: i32,
)
    requires
        call_ensures(place::<P>, (last, opened), answer),
        opened matches Err(e) ==> call_ensures(holders_code, (other, e), code),
        old(last)@ == old(other)@,
    ensures
        opened matches Ok(value) ==> answer == Ok::<Object<P>, i32>(Object::Holders(value))
            && final(last)@ == old(last)@,
        opened is Err ==> answer == Err::<Object<P>, i32>(code) && final(last)@ == final(other)@,
{
}

/// A snapshot reports each thing it was handed under that thing's own name.
pub proof fn a_snapshot_reports_each_thing_as_it_is(
    mode: u32,
    capacity: usize,
    live: usize,
    file_size: usize,
    shown: subetha_holders_stats,
)
    requires
        call_ensures(stats, (mode, capacity, live, file_size), shown),
    ensures
        shown.mode == mode,
        shown.capacity == capacity as u32,
        shown.live == live as u32,
        shown.file_size == file_size as u64,
{
}

/// A slot is accepted exactly when the table has it, and stands for itself.
pub proof fn a_slot_is_named_below_the_capacity(
    last: &mut LastError,
    capacity: usize,
    slot: u32,
    index: Result<usize, i32>,
)
    requires
        call_ensures(checked_slot, (last, capacity, slot), index),
    ensures
        index is Ok <==> slot < capacity,
        index matches Ok(i) ==> i == slot && final(last)@ == old(last)@,
        index matches Err(code) ==> code == SUBETHA_E_OUT_OF_BOUNDS,
{
}

/// Every payload is accepted but the two a slot reads as free and as reserved
/// by, and stands for itself.
pub proof fn a_payload_is_neither_end_of_its_range(last: &mut LastError, payload: u64, checked: Result<u64, i32>)
    requires
        call_ensures(checked_payload, (last, payload), checked),
    ensures
        checked is Ok <==> 0 < payload < u64::MAX,
        checked matches Ok(v) ==> v == payload && final(last)@ == old(last)@,
        checked matches Err(code) ==> code == SUBETHA_E_INVALID_ARGUMENT,
{
}

/// A claim is tried exactly when its payload can be held and there is a place
/// for its slot.
pub proof fn a_claim_needs_a_payload_and_a_place_for_its_slot(
    last: &mut LastError,
    payload: u64,
    out_slot_null: bool,
    checked: Result<u64, i32>,
)
    requires
        call_ensures(claim_arguments, (last, payload, out_slot_null), checked),
    ensures
        checked is Ok <==> 0 < payload < u64::MAX && !out_slot_null,
        checked matches Ok(v) ==> v == payload && final(last)@ == old(last)@,
        checked matches Err(code) ==> code == SUBETHA_E_INVALID_ARGUMENT,
{
}

/// A slot that was claimed is handed out, and the table is full only when none
/// was.
pub proof fn a_table_is_full_only_when_no_slot_came(taken: Option<usize>, slot: Result<u32, i32>)
    requires
        call_ensures(claimed, (taken,), slot),
    ensures
        taken matches Some(i) ==> slot is Ok && (i <= u32::MAX ==> slot->Ok_0 == i),
        taken is None ==> slot == Err::<u32, i32>(SUBETHA_E_RING_FULL),
{
}

/// A payload is published exactly when its slot is there and it can be held; a
/// missing slot is out of bounds.
pub proof fn a_publish_names_a_slot_and_a_payload(
    last: &mut LastError,
    capacity: usize,
    slot: u32,
    payload: u64,
    checked: Result<(usize, u64), i32>,
)
    requires
        call_ensures(publish_arguments, (last, capacity, slot, payload), checked),
    ensures
        checked is Ok <==> slot < capacity && 0 < payload < u64::MAX,
        checked matches Ok(all) ==> all.0 == slot && all.1 == payload && final(last)@ == old(last)@,
        slot >= capacity ==> checked is Err && checked->Err_0 == SUBETHA_E_OUT_OF_BOUNDS,
        slot < capacity && checked is Err ==> checked->Err_0 == SUBETHA_E_INVALID_ARGUMENT,
{
}

/// A claim of one slot is tried exactly when the slot is there, the payload
/// can be held and there is a place for the answer.
pub proof fn a_claim_of_one_slot_names_it(
    last: &mut LastError,
    capacity: usize,
    slot: u32,
    payload: u64,
    out_claimed_null: bool,
    checked: Result<(usize, u64), i32>,
)
    requires
        call_ensures(try_claim_slot_arguments, (last, capacity, slot, payload, out_claimed_null), checked),
    ensures
        checked is Ok <==> slot < capacity && 0 < payload < u64::MAX && !out_claimed_null,
        checked matches Ok(all) ==> all.0 == slot && all.1 == payload && final(last)@ == old(last)@,
        slot >= capacity ==> checked is Err && checked->Err_0 == SUBETHA_E_OUT_OF_BOUNDS,
        slot < capacity && checked is Err ==> checked->Err_0 == SUBETHA_E_INVALID_ARGUMENT,
{
}

/// The numbers callers give and are given, as they were built against them.
pub proof fn the_numbers_are_the_ones_callers_know()
    ensures
        SUBETHA_HOLDER_FREE == 0,
        SUBETHA_HOLDER_RESERVED == 0xFFFF_FFFF_FFFF_FFFF,
{
}

/// A refusal says what was given and what it should have been.
pub proof fn a_slot_at_fault_is_told(last: &mut LastError, capacity: usize, slot: u32, index: Result<usize, i32>)
    requires
        call_ensures(checked_slot, (last, capacity, slot), index),
    ensures
        index is Err ==> final(last)@ == "slot "@ + dec(slot as nat) + " is past the "@ + dec(capacity as nat)
            + " the table holds"@,
{
}

/// A refusal says what was given and what it should have been.
pub proof fn a_payload_at_fault_is_told(last: &mut LastError, payload: u64, checked: Result<u64, i32>)
    requires
        call_ensures(checked_payload, (last, payload), checked),
    ensures
        payload == 0 ==> final(last)@ == "a payload of SUBETHA_HOLDER_FREE makes the slot read as unheld"@,
        payload == u64::MAX ==> final(last)@ == "a payload of SUBETHA_HOLDER_RESERVED makes the slot read as still being decided"@,
{
}

} // verus!
