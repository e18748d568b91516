//! The bare Lamport single-producer single-consumer pair: a producer handle
//! and a consumer handle over one ring, try forms only, no wakers.

use vstd::prelude::*;

use crate::arguments::{given, invalid_argument};
use crate::error::{
    answers, fail, ring_code, ring_code_report, told, LastError, Refused, Report, RingError,
    SUBETHA_E_INVALID_ARGUMENT, SUBETHA_E_WRONG_KIND,
};
use crate::handle::{
    a_new_handle_names_its_object, a_table_has_room_until_its_indices_are_used_up, an_insert_adds_one_handle,
    count_held, handle_index, named_slot, names_its_slot, next_handle, placed, placing_keeps_the_table_in_order,
    placing_leaves_every_other_handle_alone, the_count_follows_the_objects, Object, Table,
};

verus! {

/// A snapshot of a Lamport pair's producer side.
#[allow(non_camel_case_types)]
#[derive(Clone, Copy, Default, Debug, PartialEq, Eq)]
pub struct subetha_lamport_producer_stats {
    /// The mode this handle was created in.
    pub mode: u32,
    /// Slots in the ring.
    pub capacity: u64,
    /// Items pushed so far.
    pub head: u64,
}

/// A snapshot of a Lamport pair's consumer side.
#[allow(non_camel_case_types)]
#[derive(Clone, Copy, Default, Debug, PartialEq, Eq)]
pub struct subetha_lamport_consumer_stats {
    /// The mode this handle was created in.
    pub mode: u32,
    /// Slots in the ring.
    pub capacity: u64,
    /// Items popped so far.
    pub tail: u64,
}

/// The payload behind a Lamport producer's handle.
pub fn with_producer<'a, P>(last: &mut LastError, object: &'a Object<P>) -> (payload: Result<&'a P, i32>)
    ensures
        answers(
            payload,
            match *object {
                Object::LamportProducer(p) => Ok(&p),
                _ => Err(told(SUBETHA_E_WRONG_KIND, "the handle does not name a Lamport producer"@)),
            },
            old(last)@,
            final(last)@,
        ),
{
    match object {
        Object::LamportProducer(p) => Ok(p),
        _ => Err(fail(last, SUBETHA_E_WRONG_KIND, "the handle does not name a Lamport producer")),
    }
}

/// The payload behind a Lamport consumer's handle.
pub fn with_consumer<'a, P>(last: &mut LastError, object: &'a Object<P>) -> (payload: Result<&'a P, i32>)
    ensures
        answers(
            payload,
            match *object {
                Object::LamportConsumer(p) => Ok(&p),
                _ => Err(told(SUBETHA_E_WRONG_KIND, "the handle does not name a Lamport consumer"@)),
            },
            old(last)@,
            final(last)@,
        ),
{
    match object {
        Object::LamportConsumer(p) => Ok(p),
        _ => Err(fail(last, SUBETHA_E_WRONG_KIND, "the handle does not name a Lamport consumer")),
    }
}

/// What [`pair_args`] answers.
pub open spec fn pair_args_outcome(
    out_producer_null: bool,
    out_consumer_null: bool,
    capacity: Result<usize, Refused>,
    mode: Result<u32, Refused>,
) -> Result<(usize, u32), Report> {
    if out_producer_null || out_consumer_null {
        Err(invalid_argument("out_producer or out_consumer is null"@))
    } else if capacity is Err {
        Err(capacity->Err_0.report())
    } else if mode is Err {
        Err(mode->Err_0.report())
    } else {
        Ok((capacity->Ok_0, mode->Ok_0))
    }
}

/// The arguments every pair constructor checks: somewhere to write both
/// handles, a ring capacity, and a mode.
pub fn pair_args(
    last: &mut LastError,
    out_producer_null: bool,
    out_consumer_null: bool,
    capacity: Result<usize, Refused>,
    mode: Result<u32, Refused>,
) -> (read: Result<(usize, u32), i32>)
    ensures
        answers(
            read,
            pair_args_outcome(out_producer_null, out_consumer_null, capacity, mode),
            old(last)@,
            final(last)@,
        ),
{
    if out_producer_null || out_consumer_null {
        return Err(fail(last, SUBETHA_E_INVALID_ARGUMENT, "out_producer or out_consumer is null"));
    }
    let capacity: usize = match given(last, capacity) {
        Ok(capacity) => capacity,
        Err(code) => {
            return Err(code);
        },
    };
    let mode: u32 = match given(last, mode) {
        Ok(mode) => mode,
        Err(code) => {
            return Err(code);
        },
    };
    Ok((capacity, mode))
}

/// Place a built pair and issue its two handles, the producer's first.
pub fn issue_pair<P>(table: &mut Table<P>, last: &mut LastError, pair: Result<(P, P), RingError>) -> (handles: Result<
    (u64, u64),
    i32,
>)
    requires
        old(table).wf(),
        old(table)@.has_room_for(2),
    ensures
        final(table).wf(),
        match pair {
            Err(e) => {
                &&& answers(handles, Err(ring_code_report(e)), old(last)@, final(last)@)
                &&& final(table)@ == old(table)@
            },
            Ok((producer, consumer)) => {
                let one = placed(old(table)@, Object::LamportProducer(producer));
                &&& handles == Ok::<(u64, u64), i32>((next_handle(old(table)@), next_handle(one)))
                &&& final(table)@ == placed(one, Object::LamportConsumer(consumer))
                &&& final(last)@ == old(last)@
            },
        },
{
    match pair {
        Err(e) => Err(ring_code(last, e)),
        Ok((producer, consumer)) => {
            proof {
                a_table_has_room_until_its_indices_are_used_up(table@);
                the_count_follows_the_objects(table@, Object::LamportProducer(producer), -1, seq![]);
            }
            let first: u64 = table.insert(Object::LamportProducer(producer));
            proof {
                a_table_has_room_until_its_indices_are_used_up(table@);
            }
            let second: u64 = table.insert(Object::LamportConsumer(consumer));
            Ok((first, second))
        },
    }
}

/// A snapshot of the producer side.
pub fn producer_stats(
    mode: u32,
    capacity: usize,
    head: u64,
) -> (stats: subetha_lamport_producer_stats)
    ensures
        stats == (subetha_lamport_producer_stats {
            mode,
            capacity: capacity as u64,
            head,
        }),
{
    subetha_lamport_producer_stats {
        mode,
        capacity: capacity as u64,
        head,
    }
}

/// A snapshot of the consumer side.
pub fn consumer_stats(
    mode: u32,
    capacity: usize,
    tail: u64,
) -> (stats: subetha_lamport_consumer_stats)
    ensures
        stats == (subetha_lamport_consumer_stats {
            mode,
            capacity: capacity as u64,
            tail,
        }),
{
    subetha_lamport_consumer_stats {
        mode,
        capacity: capacity as u64,
        tail,
    }
}

/// A call on the producer of a pair reaches what stands behind a handle to the
/// producer of a pair, and nothing behind any other handle.
pub proof fn only_a_pair_producer_is_reached<P>(last: &mut LastError, object: &Object<P>, reached: Result<&P, i32>)
    requires
        call_ensures(with_producer::<P>, (last, object), reached),
    ensures
        reached is Ok <==> *object is LamportProducer,
        reached matches Ok(payload) ==> *object == Object::LamportProducer(*payload) && final(last)@ == old(last)@,
        reached matches Err(code) ==> code == SUBETHA_E_WRONG_KIND
            && final(last)@ == "the handle does not name a Lamport producer"@,
{
}

/// A call on the consumer of a pair reaches what stands behind a handle to the
/// consumer of a pair, and nothing behind any other handle.
pub proof fn only_a_pair_consumer_is_reached<P>(last: &mut LastError, object: &Object<P>, reached: Result<&P, i32>)
    requires
        call_ensures(with_consumer::<P>, (last, object), reached),
    ensures
        reached is Ok <==> *object is LamportConsumer,
        reached matches Ok(payload) ==> *object == Object::LamportConsumer(*payload) && final(last)@ == old(last)@,
        reached matches Err(code) ==> code == SUBETHA_E_WRONG_KIND
            && final(last)@ == "the handle does not name a Lamport consumer"@,
{
}

/// A snapshot reports each thing it was handed under that thing's own name.
pub proof fn a_producers_snapshot_reports_each_thing_as_it_is(
    mode: u32,
    capacity: usize,
    head: u64,
    shown: subetha_lamport_producer_stats,
)
    requires
        call_ensures(producer_stats, (mode, capacity, head), shown),
    ensures
        shown.mode == mode,
        shown.capacity == capacity as u64,
        shown.head == head,
{
}

/// A snapshot reports each thing it was handed under that thing's own name.
pub proof fn a_consumers_snapshot_reports_each_thing_as_it_is(
    mode: u32,
    capacity: usize,
    tail: u64,
    shown: subetha_lamport_consumer_stats,
)
    requires
        call_ensures(consumer_stats, (mode, capacity, tail), shown),
    ensures
        shown.mode == mode,
        shown.capacity == capacity as u64,
        shown.tail == tail,
{
}

/// The arguments are accepted exactly when nothing is wrong with any of them,
/// and then handed on unchanged; the first one at fault is the one answered
/// for.
pub proof fn a_pair_is_made_with_arguments_that_are_right(
    last: &mut LastError,
    out_producer_null: bool,
    out_consumer_null: bool,
    capacity: Result<usize, Refused>,
    mode: Result<u32, Refused>,
    read: Result<(usize, u32), i32>,
)
    requires
        call_ensures(pair_args, (last, out_producer_null, out_consumer_null, capacity, mode), read),
    ensures
        read is Ok <==> !(out_producer_null || out_consumer_null) && capacity is Ok && mode is Ok,
        read matches Ok(all) ==> all.0 == capacity->Ok_0 && all.1 == mode->Ok_0 && final(last)@ == old(last)@,
        (out_producer_null || out_consumer_null) ==> read is Err && read->Err_0 == SUBETHA_E_INVALID_ARGUMENT
            && final(last)@ == "out_producer or out_consumer is null"@,
        !(out_producer_null || out_consumer_null) && capacity is Err ==> read is Err
            && read->Err_0 == capacity->Err_0.code && final(last)@ == capacity->Err_0.report().leaves(old(last)@),
        !(out_producer_null || out_consumer_null) && capacity is Ok && mode is Err ==> read is Err
            && read->Err_0 == mode->Err_0.code && final(last)@ == mode->Err_0.report().leaves(old(last)@),
{
}

/// A pair that was built has its producer under the first handle and its
/// consumer under the second; one that was not is answered exactly as its
/// error is, and nothing is placed.
pub proof fn a_pair_has_a_handle_for_each_of_its_sides<P>(
    table: &mut Table<P>,
    last: &mut LastError,
    pair: Result<(P, P), RingError>,
    handles: Result<(u64, u64), i32>,
    other: &mut LastError,
    code: i32,
)
    requires
        old(table).wf(),
        old(table)@.has_room_for(2),
        call_ensures(issue_pair::<P>, (table, last, pair), handles),
        pair matches Err(e) ==> call_ensures(ring_code, (other, e), code),
        old(last)@ == old(other)@,
    ensures
        handles is Ok <==> pair is Ok,
        handles matches Ok(both) ==> names_its_slot(final(table)@, both.0)
            && names_its_slot(final(table)@, both.1) && both.0 != both.1,
        handles matches Ok(both)
            ==> final(table)@.slots[handle_index(both.0) as int].object == Some(Object::LamportProducer(pair->Ok_0.0)) && final(table)@.slots[handle_index(both.0) as int].state is Live,
        handles matches Ok(both)
            ==> final(table)@.slots[handle_index(both.1) as int].object == Some(Object::LamportConsumer(pair->Ok_0.1)) && final(table)@.slots[handle_index(both.1) as int].state is Live,
        handles is Ok ==> count_held(final(table)@.slots) == count_held(old(table)@.slots) + 2,
        pair is Err ==> handles is Err && handles->Err_0 == code && final(table)@ == old(table)@
            && final(last)@ == final(other)@,
{
    if let Ok((producer, consumer)) = pair {
        let before = old(table)@;
        let first: Object<P> = Object::LamportProducer(producer);
        let second: Object<P> = Object::LamportConsumer(consumer);
        let one = placed(before, first);
        a_table_has_room_until_its_indices_are_used_up(before);
        a_new_handle_names_its_object(before, first);
        placing_keeps_the_table_in_order(before, first);
        the_count_follows_the_objects(before, first, -1, seq![]);
        a_table_has_room_until_its_indices_are_used_up(one);
        a_new_handle_names_its_object(one, second);
        the_count_follows_the_objects(one, second, -1, seq![]);
        an_insert_adds_one_handle(one, second, next_handle(before), ""@);
        placing_leaves_every_other_handle_alone(one, second, next_handle(before), ""@);
        assert(named_slot(one, next_handle(before), ""@) is Ok);
        assert(named_slot(placed(one, second), next_handle(one), ""@) is Ok);
    }
}

} // verus!
