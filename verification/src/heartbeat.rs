//! The heartbeat table: a fixed set of slots in a file where each process
//! registers itself and says, by beating, that it is still there.
//!
//! A slot carries the process id, the epoch it last beat at, a bitmap of up
//! to `SUBETHA_HEARTBEAT_IN_FLIGHT` work units it has taken, and a role a
//! caller assigns meaning to.

use vstd::prelude::*;

use crate::arguments::{invalid_argument, refuse_if};
use crate::error::{
    answers, fail, heartbeat_code, heartbeat_code_report, told, HeartbeatError, LastError, Report,
    SUBETHA_E_INVALID_ARGUMENT, SUBETHA_E_OUT_OF_BOUNDS, SUBETHA_E_WRONG_KIND,
};
use crate::handle::Object;
use crate::text::{dec, push_dec};

verus! {

/// The process id in a slot nobody holds.
pub const SUBETHA_HEARTBEAT_EMPTY_PID: u32 = 0;

/// Work units one slot's bitmap tracks, so a bit index runs from zero to
/// one below this.
pub const SUBETHA_HEARTBEAT_IN_FLIGHT: u32 = 64;

/// One slot's state, read under its version.
#[allow(non_camel_case_types)]
#[derive(Clone, Copy, Debug, PartialEq, Eq, Structural)]
pub struct subetha_heartbeat_slot {
    /// The process holding the slot, or `SUBETHA_HEARTBEAT_EMPTY_PID`.
    pub pid: u32,
    /// The role the holder set; the meaning is the caller's.
    pub role: u32,
    /// The epoch the holder last beat at.
    pub last_seen_epoch: u64,
    /// The work units the holder has taken, one per bit.
    pub in_flight_bitmap: u64,
}

impl Default for subetha_heartbeat_slot {
    /// A slot nobody holds.
    fn default() -> (slot: Self)
        ensures
            slot == (subetha_heartbeat_slot { pid: 0, role: 0, last_seen_epoch: 0, in_flight_bitmap: 0 }),
    {
        subetha_heartbeat_slot {
            pid: SUBETHA_HEARTBEAT_EMPTY_PID,
            role: 0,
            last_seen_epoch: 0,
            in_flight_bitmap: 0,
        }
    }
}

/// A snapshot of a heartbeat table.
#[allow(non_camel_case_types)]
#[derive(Clone, Copy, Default, Debug, PartialEq, Eq)]
pub struct subetha_heartbeat_stats {
    /// The mode this handle was created in.
    pub mode: u32,
    /// Slots the table holds.
    pub capacity: u32,
    /// Slots a process holds right now.
    pub registered: u32,
    /// The epoch a grace window is measured against.
    pub global_epoch: u64,
    /// Bytes the table takes on disk.
    pub file_size: u64,
}

/// The payload behind a heartbeat table's handle.
pub fn with_heartbeat<'a, P>(last: &mut LastError, object: &'a Object<P>) -> (payload: Result<&'a P, i32>)
    ensures
        answers(
            payload,
            match *object {
                Object::Heartbeat(p) => Ok(&p),
                _ => Err(told(SUBETHA_E_WRONG_KIND, "the handle does not name a heartbeat table"@)),
            },
            old(last)@,
            final(last)@,
        ),
{
    match object {
        Object::Heartbeat(p) => Ok(p),
        _ => Err(fail(last, SUBETHA_E_WRONG_KIND, "the handle does not name a heartbeat table")),
    }
}

/// What naming a slot of a table of `capacity` slots answers.
pub open spec fn slot_outcome(capacity: usize, slot: u32) -> Result<usize, Report> {
    if slot >= capacity {
        Err(
            told(
                SUBETHA_E_OUT_OF_BOUNDS,
                "slot "@ + dec(slot as nat) + " is past the "@ + dec(capacity as nat) + " the table holds"@,
            ),
        )
    } else {
        Ok(slot as usize)
    }
}

/// A slot index the table holds.
pub fn checked_slot(last: &mut LastError, capacity: usize, slot: u32) -> (index: Result<usize, i32>)
    ensures
        answers(index, slot_outcome(capacity, slot), old(last)@, final(last)@),
{
    if slot as usize >= capacity {
        let mut text: String = String::from_str("slot ");
        push_dec(&mut text, slot as u64);
        text.append(" is past the ");
        push_dec(&mut text, capacity as u64);
        text.append(" the table holds");
        return Err(fail(last, SUBETHA_E_OUT_OF_BOUNDS, text.as_str()));
    }
    Ok(slot as usize)
}

/// Make the object for a heartbeat table that was built or opened, or answer with why
/// it could not be.
pub fn place<P>(last: &mut LastError, opened: Result<P, HeartbeatError>) -> (object: Result<Object<P>, i32>)
    ensures
        answers(
            object,
            match opened {
                Ok(p) => Ok(Object::Heartbeat(p)),
                Err(e) => Err(heartbeat_code_report(e)),
            },
            old(last)@,
            final(last)@,
        ),
{
    match opened {
        Ok(p) => Ok(Object::Heartbeat(p)),
        Err(e) => Err(heartbeat_code(last, e)),
    }
}

/// The arguments of a registration, checked in order.
pub fn register_arguments(
    last: &mut LastError,
    pid: u32,
    out_slot_null: bool,
) -> (answer: Result<(), i32>)
    ensures
        answers(
            answer,
            if pid == SUBETHA_HEARTBEAT_EMPTY_PID {
                Err(invalid_argument("pid 0 is the value that means a free slot"@))
            } else if out_slot_null {
                Err(invalid_argument("out_slot is null"@))
            } else {
                Ok(())
            },
            old(last)@,
            final(last)@,
        ),
{
    if pid == SUBETHA_HEARTBEAT_EMPTY_PID {
        return Err(fail(last, SUBETHA_E_INVALID_ARGUMENT, "pid 0 is the value that means a free slot"));
    }
    if out_slot_null {
        return Err(fail(last, SUBETHA_E_INVALID_ARGUMENT, "out_slot is null"));
    }
    Ok(())
}

/// The slot a registration took, or what it answers when it took none.
pub fn subetha_heartbeat_register(
    last: &mut LastError,
    registered: Result<usize, HeartbeatError>,
) -> (answer: Result<u32, i32>)
    ensures
        answers(
            answer,
            match registered {
                Ok(slot) => Ok(slot as u32),
                Err(e) => Err(heartbeat_code_report(e)),
            },
            old(last)@,
            final(last)@,
        ),
{
    match registered {
        Ok(slot) => Ok(slot as u32),
        Err(e) => Err(heartbeat_code(last, e)),
    }
}

/// What naming one work unit of one slot answers.
pub open spec fn in_flight_outcome(capacity: usize, slot: u32, bit: u32) -> Result<(usize, u8), Report> {
    if slot_outcome(capacity, slot) is Err {
        Err(slot_outcome(capacity, slot)->Err_0)
    } else if bit >= SUBETHA_HEARTBEAT_IN_FLIGHT {
        Err(
            told(
                SUBETHA_E_OUT_OF_BOUNDS,
                "bit "@ + dec(bit as nat) + " is past the "@ + dec(SUBETHA_HEARTBEAT_IN_FLIGHT as nat)
                    + " a slot tracks"@,
            ),
        )
    } else {
        Ok((slot as usize, bit as u8))
    }
}

/// One work unit of one slot, for a call that marks or clears it.
pub fn in_flight_arguments(last: &mut LastError, capacity: usize, slot: u32, bit: u32) -> (unit: Result<
    (usize, u8),
    i32,
>)
    ensures
        answers(unit, in_flight_outcome(capacity, slot, bit), old(last)@, final(last)@),
{
    let slot: usize = match checked_slot(last, capacity, slot) {
        Ok(slot) => slot,
        Err(code) => {
            return Err(code);
        },
    };
    if bit >= SUBETHA_HEARTBEAT_IN_FLIGHT {
        let mut text: String = String::from_str("bit ");
        push_dec(&mut text, bit as u64);
        text.append(" is past the ");
        push_dec(&mut text, SUBETHA_HEARTBEAT_IN_FLIGHT as u64);
        text.append(" a slot tracks");
        return Err(fail(last, SUBETHA_E_OUT_OF_BOUNDS, text.as_str()));
    }
    Ok((slot, bit as u8))
}

/// The arguments of a read of one slot, checked in order.
pub fn read_slot_arguments(last: &mut LastError, capacity: usize, slot: u32, out_null: bool) -> (index: Result<
    usize,
    i32,
>)
    ensures
        answers(
            index,
            if slot_outcome(capacity, slot) is Err {
                slot_outcome(capacity, slot)
            } else if out_null {
                Err(invalid_argument("out is null"@))
            } else {
                Ok(slot as usize)
            },
            old(last)@,
            final(last)@,
        ),
{
    let index: usize = match checked_slot(last, capacity, slot) {
        Ok(index) => index,
        Err(code) => {
            return Err(code);
        },
    };
    match refuse_if(last, out_null, "out is null") {
        Ok(()) => Ok(index),
        Err(code) => Err(code),
    }
}

/// What a read of a slot shows: a slot nobody holds reads as empty, which
/// is not an error: a watcher walks every slot and reads the empty ones as
/// empty.
pub fn subetha_heartbeat_read_slot(snapshot: Option<subetha_heartbeat_slot>) -> (read: subetha_heartbeat_slot)
    ensures
        read == match snapshot {
            Some(held) => held,
            None => subetha_heartbeat_slot { pid: 0, role: 0, last_seen_epoch: 0, in_flight_bitmap: 0 },
        },
{
    match snapshot {
        Some(held) => held,
        None => subetha_heartbeat_slot::default(),
    }
}

/// How many of the slots are held.
pub open spec fn count_registered(slots: Seq<Option<subetha_heartbeat_slot>>) -> nat
    decreases slots.len(),
{
    if slots.len() == 0 {
        0
    } else {
        count_registered(slots.drop_last()) + if slots.last() is Some {
            1nat
        } else {
            0nat
        }
    }
}

/// A snapshot, from a walk of every slot and what the table says.
pub fn stats(
    mode: u32,
    slots: &[Option<subetha_heartbeat_slot>],
    global_epoch: u64,
    file_size: usize,
) -> (stats: subetha_heartbeat_stats)
    ensures
        stats == (subetha_heartbeat_stats {
            mode,
            capacity: slots@.len() as u32,
            registered: count_registered(slots@) as u32,
            global_epoch,
            file_size: file_size as u64,
        }),
{
    let mut registered: usize = 0;
    let mut i: usize = 0;
    while i < slots.len()
        invariant
            registered <= i <= slots@.len(),
            registered == count_registered(slots@.take(i as int)),
        decreases slots@.len() - i,
    {
        assert(slots@.take(i + 1).drop_last() =~= slots@.take(i as int));
        if slots[i].is_some() {
            registered += 1;
        }
        i += 1;
    }
    assert(slots@.take(i as int) =~= slots@);
    subetha_heartbeat_stats {
        mode,
        capacity: slots.len() as u32,
        registered: registered as u32,
        global_epoch,
        file_size: file_size as u64,
    }
}

/// A call on a heartbeat table reaches what stands behind a handle to a
/// heartbeat table, and nothing behind any other handle.
pub proof fn only_a_heartbeat_table_is_reached<P>(last: &mut LastError, object: &Object<P>, reached: Result<&P, i32>)
    requires
        call_ensures(with_heartbeat::<P>, (last, object), reached),
    ensures
        reached is Ok <==> *object is Heartbeat,
        reached matches Ok(payload) ==> *object == Object::Heartbeat(*payload) && final(last)@ == old(last)@,
        reached matches Err(code) ==> code == SUBETHA_E_WRONG_KIND
            && final(last)@ == "the handle does not name a heartbeat table"@,
{
}

/// A table that opened is placed as what it is; one that did not is answered
/// exactly as its error is.
pub proof fn a_table_that_opened_is_placed_as_one<P>(
    last: &mut LastError,
    other: &mut LastError,
    opened: Result<P, HeartbeatError>,
    answer: Result<Object<P>, i32>,
    code: i32,
)
    requires
        call_ensures(place::<P>, (last, opened), answer),
        opened matches Err(e) ==> call_ensures(heartbeat_code, (other, e), code),
        old(last)@ == old(other)@,
    ensures
        opened matches Ok(value) ==> answer == Ok::<Object<P>, i32>(Object::Heartbeat(value))
            && final(last)@ == old(last)@,
        opened is Err ==> answer == Err::<Object<P>, i32>(code) && final(last)@ == final(other)@,
{
}

/// A snapshot reports each thing it was handed under that thing's own name.
pub proof fn a_snapshot_reports_each_thing_as_it_is(
    mode: u32,
    slots: &[Option<subetha_heartbeat_slot>],
    global_epoch: u64,
    file_size: usize,
    shown: subetha_heartbeat_stats,
)
    requires
        call_ensures(stats, (mode, slots, global_epoch, file_size), shown),
    ensures
        shown.mode == mode,
        shown.capacity == slots@.len() as u32,
        shown.registered == count_registered(slots@) as u32,
        shown.global_epoch == global_epoch,
        shown.file_size == file_size as u64,
{
}

/// A slot is accepted exactly when the table has it, and stands for itself.
pub proof fn a_slot_is_named_below_the_capacity(
    last: &mut LastError,
    capacity: usize,
    slot: u32,
    index: Result<usize, i32>,
)
    requires
        call_ensures(checked_slot, (last, capacity, slot), index),
    ensures
        index is Ok <==> slot < capacity,
        index matches Ok(i) ==> i == slot && final(last)@ == old(last)@,
        index matches Err(code) ==> code == SUBETHA_E_OUT_OF_BOUNDS,
{
}

/// A process registers exactly when it has an id that is not the one of a free
/// slot, and there is a place for its slot.
pub proof fn any_process_but_none_registers(
    last: &mut LastError,
    pid: u32,
    out_slot_null: bool,
    answer: Result<(), i32>,
)
    requires
        call_ensures(register_arguments, (last, pid, out_slot_null), answer),
    ensures
        answer is Ok <==> pid != 0 && !out_slot_null,
        answer is Ok ==> final(last)@ == old(last)@,
        answer matches Err(code) ==> code == SUBETHA_E_INVALID_ARGUMENT,
{
}

/// A unit in flight is accepted exactly when its slot is there and its bit is
/// one of the sixty-four, and both stand for themselves.
pub proof fn a_unit_is_named_by_a_slot_and_one_of_its_bits(
    last: &mut LastError,
    capacity: usize,
    slot: u32,
    bit: u32,
    unit: Result<(usize, u8), i32>,
)
    requires
        call_ensures(in_flight_arguments, (last, capacity, slot, bit), unit),
    ensures
        unit is Ok <==> slot < capacity && bit < 64,
        unit matches Ok(named) ==> named.0 == slot && named.1 == bit && final(last)@ == old(last)@,
        unit matches Err(code) ==> code == SUBETHA_E_OUT_OF_BOUNDS,
{
}

/// A slot is read exactly when the table has it and there is a place for it.
pub proof fn a_slot_is_read_where_it_is_there_and_can_be_written(
    last: &mut LastError,
    capacity: usize,
    slot: u32,
    out_null: bool,
    index: Result<usize, i32>,
)
    requires
        call_ensures(read_slot_arguments, (last, capacity, slot, out_null), index),
    ensures
        index is Ok <==> slot < capacity && !out_null,
        index matches Ok(i) ==> i == slot && final(last)@ == old(last)@,
        slot >= capacity ==> index == Err::<usize, i32>(SUBETHA_E_OUT_OF_BOUNDS),
        slot < capacity && out_null ==> index == Err::<usize, i32>(SUBETHA_E_INVALID_ARGUMENT),
{
}

/// A held slot reads as it is, and a free one as no process.
pub proof fn a_free_slot_reads_as_no_process(snapshot: Option<subetha_heartbeat_slot>, read: subetha_heartbeat_slot)
    requires
        call_ensures(subetha_heartbeat_read_slot, (snapshot,), read),
    ensures
        snapshot matches Some(held) ==> read == held,
        snapshot is None ==> read.pid == 0 && read.role == 0 && read.last_seen_epoch == 0
            && read.in_flight_bitmap == 0,
{
}

/// A registration that went well answers with its slot, and one that did not
/// answers exactly as its error does.
pub proof fn a_registration_answers_with_its_slot(
    last: &mut LastError,
    other: &mut LastError,
    registered: Result<usize, HeartbeatError>,
    answer: Result<u32, i32>,
    code: i32,
)
    requires
        call_ensures(subetha_heartbeat_register, (last, registered), answer),
        registered matches Err(e) ==> call_ensures(heartbeat_code, (other, e), code),
        old(last)@ == old(other)@,
    ensures
        registered matches Ok(slot) ==> answer is Ok && final(last)@ == old(last)@ && (slot <= u32::MAX
            ==> answer->Ok_0 == slot),
        registered is Err ==> answer == Err::<u32, i32>(code) && final(last)@ == final(other)@,
{
}

/// The count of registered slots goes up by one with each slot that is taken
/// and down by one with each that is given back; slots that are all free
/// count none.
pub proof fn the_count_follows_the_slots(slots: Seq<Option<subetha_heartbeat_slot>>, i: int, held: subetha_heartbeat_slot)
    requires
        0 <= i < slots.len(),
    ensures
        slots[i] is None ==> count_registered(slots.update(i, Some(held))) == count_registered(slots) + 1,
        slots[i] is Some ==> count_registered(slots.update(i, None)) == count_registered(slots) - 1,
        (forall|k: int| 0 <= k < slots.len() ==> (#[trigger] slots[k]) is None) ==> count_registered(slots) == 0,
    decreases slots.len(),
{
    let front = slots.drop_last();
    if i == slots.len() - 1 {
        assert(slots.update(i, Some(held)).drop_last() =~= front);
        assert(slots.update(i, None).drop_last() =~= front);
        free_slots_are_not_counted(slots);
    } else {
        the_count_follows_the_slots(front, i, held);
        assert(slots.update(i, Some(held)).drop_last() =~= front.update(i, Some(held)));
        assert(slots.update(i, None).drop_last() =~= front.update(i, None));
        free_slots_are_not_counted(slots);
    }
}

proof fn free_slots_are_not_counted(slots: Seq<Option<subetha_heartbeat_slot>>)
    ensures
        (forall|k: int| 0 <= k < slots.len() ==> (#[trigger] slots[k]) is None) ==> count_registered(slots) == 0,
    decreases slots.len(),
{
    if slots.len() > 0 && forall|k: int| 0 <= k < slots.len() ==> (#[trigger] slots[k]) is None {
        let front = slots.drop_last();
        free_slots_are_not_counted(front);
        assert forall|k: int| 0 <= k < front.len() implies (#[trigger] front[k]) is None by {
            assert(slots[k] is None);
        }
        assert(slots[slots.len() - 1] is None);
    }
}

/// The numbers callers give and are given, as they were built against them.
pub proof fn the_numbers_are_the_ones_callers_know()
    ensures
        SUBETHA_HEARTBEAT_EMPTY_PID == 0,
        SUBETHA_HEARTBEAT_IN_FLIGHT == 64,
{
}

/// A refusal says what was given and what it should have been.
pub proof fn a_slot_at_fault_is_told(last: &mut LastError, capacity: usize, slot: u32, index: Result<usize, i32>)
    requires
        call_ensures(checked_slot, (last, capacity, slot), index),
    ensures
        index is Err ==> final(last)@ == "slot "@ + dec(slot as nat) + " is past the "@ + dec(capacity as nat)
            + " the table holds"@,
{
}

/// A refusal says what was given and what it should have been.
pub proof fn a_unit_at_fault_is_told(
    last: &mut LastError,
    capacity: usize,
    slot: u32,
    bit: u32,
    unit: Result<(usize, u8), i32>,
)
    requires
        call_ensures(in_flight_arguments, (last, capacity, slot, bit), unit),
    ensures
        slot >= capacity ==> final(last)@ == "slot "@ + dec(slot as nat) + " is past the "@
            + dec(capacity as nat) + " the table holds"@,
        slot < capacity && bit >= 64 ==> final(last)@ == "bit "@ + dec(bit as nat) + " is past the "@ + dec(64)
            + " a slot tracks"@,
{
}

/// A refusal says what was given and what it should have been.
pub proof fn a_registration_at_fault_is_told(
    last: &mut LastError,
    pid: u32,
    out_slot_null: bool,
    answer: Result<(), i32>,
)
    requires
        call_ensures(register_arguments, (last, pid, out_slot_null), answer),
    ensures
        pid == 0 ==> final(last)@ == "pid 0 is the value that means a free slot"@,
        pid != 0 && out_slot_null ==> final(last)@ == "out_slot is null"@,
{
}

} // verus!
