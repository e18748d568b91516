//! The blocking MPMC grid: N producer handles, each the sole writer of its own
//! ring, and M consumer handles, each the sole drainer of a subset of those
//! rings, every side with a try and a waiting form.
//!
//! In files a grid under a prefix is `<prefix>.ring.<i>.bin` and
//! `<prefix>.pw.<i>.bin` per producer, `<prefix>.cw.<m>.bin` per consumer.

use vstd::prelude::*;

use crate::arguments::{given, invalid_argument};
use crate::error::{
    answers, blocking_code, blocking_code_report, fail, told, BlockingError, LastError, Refused,
    Report, SUBETHA_E_INVALID_ARGUMENT, SUBETHA_E_WRONG_KIND,
};
use crate::handle::{
    count_held, every_object_placed_stands_under_its_handle, handle_index, handles_for, names_its_slot, placed_all,
    placing_more_leaves_an_object_alone, Object, Table,
};
use crate::text::{dec, push_dec};

verus! {

/// A snapshot of one producer of a blocking MPMC grid.
#[allow(non_camel_case_types)]
#[derive(Clone, Copy, Default, Debug, PartialEq, Eq)]
pub struct subetha_mpmc_producer_stats {
    /// The mode this handle was created in.
    pub mode: u32,
    /// Slots in this producer's ring.
    pub capacity: u64,
    /// Items this producer pushed so far.
    pub head: u64,
    /// Waits refused because every waiter slot was in use.
    pub waker_full: u64,
}

/// A snapshot of one consumer of a blocking MPMC grid.
#[allow(non_camel_case_types)]
#[derive(Clone, Copy, Default, Debug, PartialEq, Eq)]
pub struct subetha_mpmc_consumer_stats {
    /// The mode this handle was created in.
    pub mode: u32,
    /// Producer rings in this consumer's subset.
    pub n_rings: u32,
    /// Items pending across the subset, read without a lock.
    pub approx_subset_len: u64,
    /// Waits refused because every waiter slot was in use.
    pub waker_full: u64,
}

/// The payload behind an MPMC producer's handle.
pub fn with_producer<'a, P>(last: &mut LastError, object: &'a Object<P>) -> (payload: Result<&'a P, i32>)
    ensures
        answers(
            payload,
            match *object {
                Object::MpmcProducer(p) => Ok(&p),
                _ => Err(told(SUBETHA_E_WRONG_KIND, "the handle does not name an MPMC producer"@)),
            },
            old(last)@,
            final(last)@,
        ),
{
    match object {
        Object::MpmcProducer(p) => Ok(p),
        _ => Err(fail(last, SUBETHA_E_WRONG_KIND, "the handle does not name an MPMC producer")),
    }
}

/// The payload behind an MPMC consumer's handle.
pub fn with_consumer<'a, P>(last: &mut LastError, object: &'a Object<P>) -> (payload: Result<&'a P, i32>)
    ensures
        answers(
            payload,
            match *object {
                Object::MpmcConsumer(p) => Ok(&p),
                _ => Err(told(SUBETHA_E_WRONG_KIND, "the handle does not name an MPMC consumer"@)),
            },
            old(last)@,
            final(last)@,
        ),
{
    match object {
        Object::MpmcConsumer(p) => Ok(p),
        _ => Err(fail(last, SUBETHA_E_WRONG_KIND, "the handle does not name an MPMC consumer")),
    }
}

/// What [`grid_args`] answers.
pub open spec fn grid_args_outcome(
    n_producers: u32,
    n_consumers: u32,
    out_producers_null: bool,
    out_consumers_null: bool,
    capacity: Result<usize, Refused>,
    mode: Result<u32, Refused>,
) -> Result<(usize, usize, usize, u32), Report> {
    if n_consumers == 0 {
        Err(invalid_argument("n_consumers must be at least 1"@))
    } else if n_producers < n_consumers {
        Err(invalid_argument("n_producers "@ + dec(n_producers as nat) + " is below n_consumers "@ + dec(n_consumers as nat) + "; every consumer owns at least one ring"@))
    } else if out_producers_null || out_consumers_null {
        Err(invalid_argument("out_producers or out_consumers is null"@))
    } else if capacity is Err {
        Err(capacity->Err_0.report())
    } else if mode is Err {
        Err(mode->Err_0.report())
    } else {
        Ok((n_producers as usize, n_consumers as usize, capacity->Ok_0, mode->Ok_0))
    }
}

/// The arguments every grid constructor checks: at least one consumer, at
/// least as many producers, somewhere to write the handles, a ring capacity,
/// and a mode.
pub fn grid_args(
    last: &mut LastError,
    n_producers: u32,
    n_consumers: u32,
    out_producers_null: bool,
    out_consumers_null: bool,
    capacity: Result<usize, Refused>,
    mode: Result<u32, Refused>,
) -> (read: Result<(usize, usize, usize, u32), i32>)
    ensures
        answers(
            read,
            grid_args_outcome(n_producers, n_consumers, out_producers_null, out_consumers_null, capacity, mode),
            old(last)@,
            final(last)@,
        ),
{
    if n_consumers == 0 {
        return Err(fail(last, SUBETHA_E_INVALID_ARGUMENT, "n_consumers must be at least 1"));
    }
    if n_producers < n_consumers {
        let mut text: String = String::from_str("n_producers ");
        push_dec(&mut text, n_producers as u64);
        text.append(" is below n_consumers ");
        push_dec(&mut text, n_consumers as u64);
        text.append("; every consumer owns at least one ring");
        return Err(fail(last, SUBETHA_E_INVALID_ARGUMENT, text.as_str()));
    }
    if out_producers_null || out_consumers_null {
        return Err(fail(last, SUBETHA_E_INVALID_ARGUMENT, "out_producers or out_consumers is null"));
    }
    let capacity: usize = match given(last, capacity) {
        Ok(capacity) => capacity,
        Err(code) => {
            return Err(code);
        },
    };
    let mode: u32 = match given(last, mode) {
        Ok(mode) => mode,
        Err(code) => {
            return Err(code);
        },
    };
    Ok((n_producers as usize, n_consumers as usize, capacity, mode))
}

/// The producers of a grid as objects.
pub open spec fn producers_of<P>(payloads: Seq<P>) -> Seq<Object<P>> {
    payloads.map_values(|p: P| Object::MpmcProducer(p))
}

/// The consumers of a grid as objects.
pub open spec fn consumers_of<P>(payloads: Seq<P>) -> Seq<Object<P>> {
    payloads.map_values(|p: P| Object::MpmcConsumer(p))
}

/// Place a built grid's objects and issue their handles, the producers'
/// first, each side in order.
pub fn issue_grid<P>(table: &mut Table<P>, producers: Vec<P>, consumers: Vec<P>) -> (handles: (Vec<u64>, Vec<u64>))
    requires
        old(table).wf(),
        old(table)@.has_room_for(producers@.len() + consumers@.len()),
    ensures
        final(table).wf(),
        handles.0@ == handles_for(old(table)@, producers_of(producers@)),
        handles.1@ == handles_for(
            placed_all(old(table)@, producers_of(producers@)),
            consumers_of(consumers@),
        ),
        final(table)@ == placed_all(
            placed_all(old(table)@, producers_of(producers@)),
            consumers_of(consumers@),
        ),
{
    let ghost made = producers@;
    let ghost drained = consumers@;
    let mut first: Vec<Object<P>> = Vec::new();
    for producer in it: producers
        invariant
            it.seq() == made,
            first@ == producers_of(made.take(it.index() as int)),
    {
        first.push(Object::MpmcProducer(producer));
        assert(first@ =~= producers_of(made.take(it.index() + 1)));
    }
    assert(made.take(made.len() as int) =~= made);
    let mut second: Vec<Object<P>> = Vec::new();
    for consumer in it: consumers
        invariant
            it.seq() == drained,
            second@ == consumers_of(drained.take(it.index() as int)),
    {
        second.push(Object::MpmcConsumer(consumer));
        assert(second@ =~= consumers_of(drained.take(it.index() + 1)));
    }
    assert(drained.take(drained.len() as int) =~= drained);
    let p: Vec<u64> = table.insert_all(first);
    let c: Vec<u64> = table.insert_all(second);
    (p, c)
}

/// A grid that was built, or what building it answers.
pub fn built<G>(last: &mut LastError, grid: Result<G, BlockingError>) -> (answer: Result<G, i32>)
    ensures
        answers(
            answer,
            match grid {
                Ok(grid) => Ok(grid),
                Err(e) => Err(blocking_code_report(e)),
            },
            old(last)@,
            final(last)@,
        ),
{
    match grid {
        Ok(grid) => Ok(grid),
        Err(e) => Err(blocking_code(last, e)),
    }
}

/// The files of the first `n` producers, two for each.
pub open spec fn producer_files(prefix: Seq<char>, n: nat) -> Seq<Seq<char>>
    decreases n,
{
    if n == 0 {
        seq![]
    } else {
        producer_files(prefix, (n - 1) as nat).push(
            prefix + ".ring."@ + dec((n - 1) as nat) + ".bin"@,
        ).push(prefix + ".pw."@ + dec((n - 1) as nat) + ".bin"@)
    }
}

/// The files of the first `n` consumers.
pub open spec fn consumer_files(prefix: Seq<char>, n: nat) -> Seq<Seq<char>>
    decreases n,
{
    if n == 0 {
        seq![]
    } else {
        consumer_files(prefix, (n - 1) as nat).push(prefix + ".cw."@ + dec((n - 1) as nat) + ".bin"@)
    }
}

/// Names as contracts speak of them.
pub open spec fn name_views(names: Seq<String>) -> Seq<Seq<char>> {
    names.map_values(|name: String| name@)
}

/// One numbered file beside `prefix`.
fn numbered(prefix: &str, middle: &str, i: u32) -> (name: String)
    ensures
        name@ == prefix@ + middle@ + dec(i as nat) + ".bin"@,
{
    let mut name: String = String::from_str(prefix);
    name.append(middle);
    push_dec(&mut name, i as u64);
    name.append(".bin");
    name
}

/// Every file a file-backed grid under `prefix` names, for the counts it was
/// created with, in the order an unlink removes them.
pub fn subetha_mpmc_unlink(prefix: &str, n_producers: u32, n_consumers: u32) -> (names: Vec<String>)
    ensures
        name_views(names@) == producer_files(prefix@, n_producers as nat) + consumer_files(
            prefix@,
            n_consumers as nat,
        ),
{
    let mut names: Vec<String> = Vec::new();
    assert(name_views(names@) =~= producer_files(prefix@, 0));
    let mut i: u32 = 0;
    while i < n_producers
        invariant
            i <= n_producers,
            name_views(names@) == producer_files(prefix@, i as nat),
        decreases n_producers - i,
    {
        let ghost had = names@;
        names.push(numbered(prefix, ".ring.", i));
        names.push(numbered(prefix, ".pw.", i));
        assert(name_views(names@) =~= producer_files(prefix@, (i + 1) as nat)) by {
            assert(name_views(names@).take(had.len() as int) =~= name_views(had));
        }
        i += 1;
    }
    assert(name_views(names@) =~= producer_files(prefix@, n_producers as nat) + consumer_files(prefix@, 0));
    let mut m: u32 = 0;
    while m < n_consumers
        invariant
            m <= n_consumers,
            name_views(names@) == producer_files(prefix@, n_producers as nat) + consumer_files(
                prefix@,
                m as nat,
            ),
        decreases n_consumers - m,
    {
        let ghost had = names@;
        names.push(numbered(prefix, ".cw.", m));
        assert(name_views(names@) =~= name_views(had).push(names@.last()@));
        assert(name_views(names@) =~= producer_files(prefix@, n_producers as nat) + consumer_files(
            prefix@,
            (m + 1) as nat,
        ));
        m += 1;
    }
    names
}

/// A snapshot of one producer.
pub fn producer_stats(
    mode: u32,
    capacity: usize,
    head: u64,
    waker_full: u64,
) -> (stats: subetha_mpmc_producer_stats)
    ensures
        stats == (subetha_mpmc_producer_stats {
            mode,
            capacity: capacity as u64,
            head,
            waker_full,
        }),
{
    subetha_mpmc_producer_stats {
        mode,
        capacity: capacity as u64,
        head,
        waker_full,
    }
}

/// A snapshot of one consumer.
pub fn consumer_stats(
    mode: u32,
    n_rings: usize,
    approx_subset_len: usize,
    waker_full: u64,
) -> (stats: subetha_mpmc_consumer_stats)
    ensures
        stats == (subetha_mpmc_consumer_stats {
            mode,
            n_rings: n_rings as u32,
            approx_subset_len: approx_subset_len as u64,
            waker_full,
        }),
{
    subetha_mpmc_consumer_stats {
        mode,
        n_rings: n_rings as u32,
        approx_subset_len: approx_subset_len as u64,
        waker_full,
    }
}

/// A call on a producer of a grid reaches what stands behind a handle to a
/// producer of a grid, and nothing behind any other handle.
pub proof fn only_a_grid_producer_is_reached<P>(last: &mut LastError, object: &Object<P>, reached: Result<&P, i32>)
    requires
        call_ensures(with_producer::<P>, (last, object), reached),
    ensures
        reached is Ok <==> *object is MpmcProducer,
        reached matches Ok(payload) ==> *object == Object::MpmcProducer(*payload) && final(last)@ == old(last)@,
        reached matches Err(code) ==> code == SUBETHA_E_WRONG_KIND
            && final(last)@ == "the handle does not name an MPMC producer"@,
{
}

/// A call on a consumer of a grid reaches what stands behind a handle to a
/// consumer of a grid, and nothing behind any other handle.
pub proof fn only_a_grid_consumer_is_reached<P>(last: &mut LastError, object: &Object<P>, reached: Result<&P, i32>)
    requires
        call_ensures(with_consumer::<P>, (last, object), reached),
    ensures
        reached is Ok <==> *object is MpmcConsumer,
        reached matches Ok(payload) ==> *object == Object::MpmcConsumer(*payload) && final(last)@ == old(last)@,
        reached matches Err(code) ==> code == SUBETHA_E_WRONG_KIND
            && final(last)@ == "the handle does not name an MPMC consumer"@,
{
}

/// A snapshot reports each thing it was handed under that thing's own name.
pub proof fn a_producers_snapshot_reports_each_thing_as_it_is(
    mode: u32,
    capacity: usize,
    head: u64,
    waker_full: u64,
    shown: subetha_mpmc_producer_stats,
)
    requires
        call_ensures(producer_stats, (mode, capacity, head, waker_full), shown),
    ensures
        shown.mode == mode,
        shown.capacity == capacity as u64,
        shown.head == head,
        shown.waker_full == waker_full,
{
}

/// A snapshot reports each thing it was handed under that thing's own name.
pub proof fn a_consumers_snapshot_reports_each_thing_as_it_is(
    mode: u32,
    n_rings: usize,
    approx_subset_len: usize,
    waker_full: u64,
    shown: subetha_mpmc_consumer_stats,
)
    requires
        call_ensures(consumer_stats, (mode, n_rings, approx_subset_len, waker_full), shown),
    ensures
        shown.mode == mode,
        shown.n_rings == n_rings as u32,
        shown.approx_subset_len == approx_subset_len as u64,
        shown.waker_full == waker_full,
{
}

/// The arguments are accepted exactly when nothing is wrong with any of them,
/// and then handed on unchanged; the first one at fault is the one answered
/// for. Every consumer owns at least one ring.
pub proof fn a_grid_is_made_with_arguments_that_are_right(
    last: &mut LastError,
    n_producers: u32,
    n_consumers: u32,
    out_producers_null: bool,
    out_consumers_null: bool,
    capacity: Result<usize, Refused>,
    mode: Result<u32, Refused>,
    read: Result<(usize, usize, usize, u32), i32>,
)
    requires
        call_ensures(grid_args, (last, n_producers, n_consumers, out_producers_null, out_consumers_null, capacity,
            mode), read),
    ensures
        read is Ok <==> n_consumers != 0 && n_producers >= n_consumers && !(out_producers_null
            || out_consumers_null) && capacity is Ok && mode is Ok,
        read matches Ok(all) ==> all.0 == n_producers && all.1 == n_consumers && all.2 == capacity->Ok_0
            && all.3 == mode->Ok_0 && final(last)@ == old(last)@,
        n_consumers == 0 ==> read is Err && read->Err_0 == SUBETHA_E_INVALID_ARGUMENT
            && final(last)@ == "n_consumers must be at least 1"@,
        n_consumers != 0 && n_producers < n_consumers ==> read is Err && read->Err_0 == SUBETHA_E_INVALID_ARGUMENT,
        n_consumers != 0 && n_producers >= n_consumers && (out_producers_null || out_consumers_null)
            ==> read is Err && read->Err_0 == SUBETHA_E_INVALID_ARGUMENT
            && final(last)@ == "out_producers or out_consumers is null"@,
        n_consumers != 0 && n_producers >= n_consumers && !(out_producers_null || out_consumers_null)
            && capacity is Err ==> read is Err && read->Err_0 == capacity->Err_0.code
            && final(last)@ == capacity->Err_0.report().leaves(old(last)@),
        n_consumers != 0 && n_producers >= n_consumers && !(out_producers_null || out_consumers_null)
            && capacity is Ok && mode is Err ==> read is Err && read->Err_0 == mode->Err_0.code
            && final(last)@ == mode->Err_0.report().leaves(old(last)@),
{
}

/// A grid that was built is handed on, and one that was not is answered
/// exactly as its error is.
pub proof fn a_grid_that_was_built_is_handed_on<G>(
    last: &mut LastError,
    other: &mut LastError,
    grid: Result<G, BlockingError>,
    answer: Result<G, i32>,
    code: i32,
)
    requires
        call_ensures(built::<G>, (last, grid), answer),
        grid matches Err(e) ==> call_ensures(blocking_code, (other, e), code),
        old(last)@ == old(other)@,
    ensures
        grid matches Ok(value) ==> answer == Ok::<G, i32>(value) && final(last)@ == old(last)@,
        grid is Err ==> answer == Err::<G, i32>(code) && final(last)@ == final(other)@,
{
}

/// Each producer of a grid stands under its own handle and each consumer under
/// its own, in order.
pub proof fn a_grid_has_a_handle_for_each_of_its_ends<P>(
    table: &mut Table<P>,
    producers: Vec<P>,
    consumers: Vec<P>,
    handles: (Vec<u64>, Vec<u64>),
    i: int,
    j: int,
)
    requires
        old(table).wf(),
        old(table)@.has_room_for(producers@.len() + consumers@.len()),
        call_ensures(issue_grid::<P>, (table, producers, consumers), handles),
    ensures
        handles.0@.len() == producers@.len() && handles.1@.len() == consumers@.len(),
        0 <= j < consumers@.len() ==> names_its_slot(final(table)@, handles.1@[j])
            && final(table)@.slots[handle_index(handles.1@[j]) as int].state is Live,
        0 <= j < consumers@.len()
            ==> final(table)@.slots[handle_index(handles.1@[j]) as int].object == Some(Object::MpmcConsumer(consumers@[j])),
        0 <= i < producers@.len() ==> names_its_slot(final(table)@, handles.0@[i])
            && final(table)@.slots[handle_index(handles.0@[i]) as int].state is Live,
        0 <= i < producers@.len()
            ==> final(table)@.slots[handle_index(handles.0@[i]) as int].object == Some(Object::MpmcProducer(producers@[i])),
        count_held(final(table)@.slots) == count_held(old(table)@.slots) + producers@.len() + consumers@.len(),
{
    let before = old(table)@;
    let first = producers_of(producers@);
    let second = consumers_of(consumers@);
    let middle = placed_all(before, first);
    every_object_placed_stands_under_its_handle(before, first, i);
    every_object_placed_stands_under_its_handle(middle, second, j);
    if 0 <= i < producers@.len() {
        placing_more_leaves_an_object_alone(middle, second, handle_index(handles.0@[i]) as int);
    }
}

/// Removing a grid removes for each producer its ring and its waker, in order,
/// and then for each consumer its waker, each numbered by its place.
pub proof fn a_grid_leaves_a_file_for_each_ring_and_each_waker(
    prefix: &str,
    n_producers: u32,
    n_consumers: u32,
    names: Vec<String>,
    i: int,
    j: int,
)
    requires
        call_ensures(subetha_mpmc_unlink, (prefix, n_producers, n_consumers), names),
    ensures
        names@.len() == 2 * n_producers + n_consumers,
        0 <= i < n_producers ==> names@[2 * i]@ == prefix@ + ".ring."@ + dec(i as nat) + ".bin"@,
        0 <= i < n_producers ==> names@[2 * i + 1]@ == prefix@ + ".pw."@ + dec(i as nat) + ".bin"@,
        0 <= j < n_consumers ==> names@[2 * n_producers + j]@ == prefix@ + ".cw."@ + dec(j as nat) + ".bin"@,
{
    a_producer_has_two_files(prefix@, n_producers as nat, i);
    a_consumer_has_one_file(prefix@, n_consumers as nat, j);
    assert(name_views(names@).len() == names@.len());
    if 0 <= i < n_producers {
        assert(name_views(names@)[2 * i] == names@[2 * i]@);
        assert(name_views(names@)[2 * i + 1] == names@[2 * i + 1]@);
    }
    if 0 <= j < n_consumers {
        assert(name_views(names@)[2 * n_producers + j] == names@[2 * n_producers + j]@);
    }
}

proof fn a_producer_has_two_files(prefix: Seq<char>, n: nat, i: int)
    ensures
        producer_files(prefix, n).len() == 2 * n,
        0 <= i < n ==> producer_files(prefix, n)[2 * i] == prefix + ".ring."@ + dec(i as nat) + ".bin"@,
        0 <= i < n ==> producer_files(prefix, n)[2 * i + 1] == prefix + ".pw."@ + dec(i as nat) + ".bin"@,
    decreases n,
{
    if n > 0 {
        a_producer_has_two_files(prefix, (n - 1) as nat, i);
    }
}

proof fn a_consumer_has_one_file(prefix: Seq<char>, n: nat, j: int)
    ensures
        consumer_files(prefix, n).len() == n,
        0 <= j < n ==> consumer_files(prefix, n)[j] == prefix + ".cw."@ + dec(j as nat) + ".bin"@,
    decreases n,
{
    if n > 0 {
        a_consumer_has_one_file(prefix, (n - 1) as nat, j);
    }
}

/// A refusal says what was given and what it should have been.
pub proof fn a_grid_at_fault_is_told(
    last: &mut LastError,
    n_producers: u32,
    n_consumers: u32,
    capacity: Result<usize, Refused>,
    mode: Result<u32, Refused>,
    read: Result<(usize, usize, usize, u32), i32>,
)
    requires
        call_ensures(grid_args, (last, n_producers, n_consumers, false, false, capacity, mode), read),
    ensures
        0 < n_consumers && n_producers < n_consumers ==> final(last)@ == "n_producers "@
            + dec(n_producers as nat) + " is below n_consumers "@ + dec(n_consumers as nat)
            + "; every consumer owns at least one ring"@,
{
}

} // verus!
