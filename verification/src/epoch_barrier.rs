//! The epoch barrier: a rendezvous across processes, where each one waits at
//! an epoch until the others reach it.
//!
//! The barrier counts arrivals in one shared word and takes its notion of how
//! many peers there are from a heartbeat table, so a process that dies between
//! rounds stops being waited for once its slot goes stale.

use vstd::prelude::*;

use crate::arguments::{given, invalid_argument};
use crate::error::{
    answers, barrier_code, barrier_code_report, fail, told, BarrierError, LastError, Refused,
    SUBETHA_E_INVALID_ARGUMENT, SUBETHA_E_WRONG_KIND,
};
use crate::handle::Object;

verus! {

/// Epochs a peer's heartbeat may fall behind before the barrier stops
/// counting it, when a caller asks for none in particular.
pub const SUBETHA_BARRIER_GRACE_DEFAULT: u64 = 3;

/// A snapshot of an epoch barrier.
#[allow(non_camel_case_types)]
#[derive(Clone, Copy, Default, Debug, PartialEq, Eq)]
pub struct subetha_epoch_barrier_stats {
    /// The mode this handle was created in.
    pub mode: u32,
    /// The epoch the barrier stands at.
    pub epoch: u32,
    /// Peers that have arrived at that epoch and not yet been released.
    pub arrived: u32,
    /// Peers the heartbeat table shows as live, which is how many an
    /// unqualified wait waits for.
    pub live_peers: u32,
    /// Epochs a heartbeat slot may be stale before it stops counting.
    pub grace_epochs: u64,
}

/// The payload behind an epoch barrier's handle.
pub fn with_barrier<'a, P>(last: &mut LastError, object: &'a Object<P>) -> (payload: Result<&'a P, i32>)
    ensures
        answers(
            payload,
            match *object {
                Object::EpochBarrier(p) => Ok(&p),
                _ => Err(told(SUBETHA_E_WRONG_KIND, "the handle does not name an epoch barrier"@)),
            },
            old(last)@,
            final(last)@,
        ),
{
    match object {
        Object::EpochBarrier(p) => Ok(p),
        _ => Err(fail(last, SUBETHA_E_WRONG_KIND, "the handle does not name an epoch barrier")),
    }
}

/// The heartbeat table a barrier is to count its peers in.
pub fn heartbeat_table<'a, P>(last: &mut LastError, object: &'a Object<P>) -> (payload: Result<&'a P, i32>)
    ensures
        answers(
            payload,
            match *object {
                Object::Heartbeat(p) => Ok(&p),
                _ => Err(told(SUBETHA_E_WRONG_KIND, "heartbeat does not name a heartbeat table"@)),
            },
            old(last)@,
            final(last)@,
        ),
{
    match object {
        Object::Heartbeat(p) => Ok(p),
        _ => Err(fail(last, SUBETHA_E_WRONG_KIND, "heartbeat does not name a heartbeat table")),
    }
}

/// The grace window a barrier is made with when asked for `grace_epochs`.
pub open spec fn grace_of(grace_epochs: u64) -> u64 {
    if grace_epochs == 0 {
        SUBETHA_BARRIER_GRACE_DEFAULT
    } else {
        grace_epochs
    }
}

/// The arguments every constructor reads, in order, so the first refusal
/// names the argument at fault.
pub fn read_arguments<'a, T>(
    last: &mut LastError,
    initialized: Result<(), Refused>,
    out_null: bool,
    path: Result<&'a str, Refused>,
    table: Result<T, Refused>,
    grace_epochs: u64,
    mode: Result<u32, Refused>,
) -> (answer: Result<(&'a str, T, u64, u32), i32>)
    ensures
        answers(
            answer,
            if initialized is Err {
                Err(initialized->Err_0.report())
            } else if out_null {
                Err(invalid_argument("out is null"@))
            } else if path is Err {
                Err(path->Err_0.report())
            } else if table is Err {
                Err(table->Err_0.report())
            } else if mode is Err {
                Err(mode->Err_0.report())
            } else {
                Ok((path->Ok_0, table->Ok_0, grace_of(grace_epochs), mode->Ok_0))
            },
            old(last)@,
            final(last)@,
        ),
{
    if let Err(code) = given(last, initialized) {
        return Err(code);
    }
    if out_null {
        return Err(fail(last, SUBETHA_E_INVALID_ARGUMENT, "out is null"));
    }
    let path: &'a str = match given(last, path) {
        Ok(path) => path,
        Err(code) => {
            return Err(code);
        },
    };
    let table: T = match given(last, table) {
        Ok(table) => table,
        Err(code) => {
            return Err(code);
        },
    };
    let grace: u64 = if grace_epochs == 0 {
        SUBETHA_BARRIER_GRACE_DEFAULT
    } else {
        grace_epochs
    };
    let mode: u32 = match given(last, mode) {
        Ok(mode) => mode,
        Err(code) => {
            return Err(code);
        },
    };
    Ok((path, table, grace, mode))
}

/// Make the object for a barrier that was built or opened, or answer with why
/// it could not be.
pub fn place<P>(last: &mut LastError, opened: Result<P, BarrierError>) -> (object: Result<Object<P>, i32>)
    ensures
        answers(
            object,
            match opened {
                Ok(p) => Ok(Object::EpochBarrier(p)),
                Err(e) => Err(barrier_code_report(e)),
            },
            old(last)@,
            final(last)@,
        ),
{
    match opened {
        Ok(p) => Ok(Object::EpochBarrier(p)),
        Err(e) => Err(barrier_code(last, e)),
    }
}

/// A wait for a quorum waits for somebody.
pub fn quorum_arguments(
    last: &mut LastError,
    quorum: u32,
) -> (answer: Result<(), i32>)
    ensures
        answers(
            answer,
            if quorum == 0 {
                Err(invalid_argument("quorum is zero"@))
            } else {
                Ok(())
            },
            old(last)@,
            final(last)@,
        ),
{
    if quorum == 0 {
        return Err(fail(last, SUBETHA_E_INVALID_ARGUMENT, "quorum is zero"));
    }
    Ok(())
}

/// What a call on a barrier answers, given how it went: its value, or the
/// code its error maps to.
pub fn outcome<T>(last: &mut LastError, went: Result<T, BarrierError>) -> (answer: Result<T, i32>)
    ensures
        answers(
            answer,
            match went {
                Ok(value) => Ok(value),
                Err(e) => Err(barrier_code_report(e)),
            },
            old(last)@,
            final(last)@,
        ),
{
    match went {
        Ok(value) => Ok(value),
        Err(e) => Err(barrier_code(last, e)),
    }
}

/// What an unlink removes beside the path it is given: the state file,
/// named after the path's last part.
pub fn subetha_epoch_barrier_unlink(last: &mut LastError, file_name: Option<&str>) -> (name: Result<String, i32>)
    ensures
        match file_name {
            Some(stem) => {
                &&& name matches Ok(named) && named@ == stem@ + ".state.bin"@
                &&& final(last)@ == old(last)@
            },
            None => {
                &&& name == Err::<String, i32>(SUBETHA_E_INVALID_ARGUMENT)
                &&& final(last)@ == "path names no file"@
            },
        },
{
    match file_name {
        Some(stem) => {
            let mut named: String = String::from_str(stem);
            named.append(".state.bin");
            Ok(named)
        },
        None => Err(fail(last, SUBETHA_E_INVALID_ARGUMENT, "path names no file")),
    }
}

/// A snapshot, from what the barrier says: its epoch and how many arrived at
/// it, and the peers its heartbeat table shows.
pub fn stats(
    mode: u32,
    snapshot: (u32, u32),
    live_peers: u32,
    grace_epochs: u64,
) -> (stats: subetha_epoch_barrier_stats)
    ensures
        stats == (subetha_epoch_barrier_stats {
            mode,
            epoch: snapshot.0,
            arrived: snapshot.1,
            live_peers,
            grace_epochs,
        }),
{
    subetha_epoch_barrier_stats {
        mode,
        epoch: snapshot.0,
        arrived: snapshot.1,
        live_peers,
        grace_epochs,
    }
}

/// A call on an epoch barrier reaches what stands behind a handle to an epoch
/// barrier, and nothing behind any other handle.
pub proof fn only_a_barrier_is_reached<P>(last: &mut LastError, object: &Object<P>, reached: Result<&P, i32>)
    requires
        call_ensures(with_barrier::<P>, (last, object), reached),
    ensures
        reached is Ok <==> *object is EpochBarrier,
        reached matches Ok(payload) ==> *object == Object::EpochBarrier(*payload) && final(last)@ == old(last)@,
        reached matches Err(code) ==> code == SUBETHA_E_WRONG_KIND
            && final(last)@ == "the handle does not name an epoch barrier"@,
{
}

/// A barrier is made on what stands behind a handle to a heartbeat table, and
/// on nothing else.
pub proof fn a_barrier_counts_the_peers_of_a_heartbeat_table<P>(
    last: &mut LastError,
    object: &Object<P>,
    reached: Result<&P, i32>,
)
    requires
        call_ensures(heartbeat_table::<P>, (last, object), reached),
    ensures
        reached is Ok <==> *object is Heartbeat,
        reached matches Ok(payload) ==> *object == Object::Heartbeat(*payload) && final(last)@ == old(last)@,
        reached matches Err(code) ==> code == SUBETHA_E_WRONG_KIND
            && final(last)@ == "heartbeat does not name a heartbeat table"@,
{
}

/// A barrier that opened is placed as what it is; one that did not is answered
/// exactly as its error is.
pub proof fn a_barrier_that_opened_is_placed_as_one<P>(
    last: &mut LastError,
    other: &mut LastError,
    opened: Result<P, BarrierError>,
    answer: Result<Object<P>, i32>,
    code: i32,
)
    requires
        call_ensures(place::<P>, (last, opened), answer),
        opened matches Err(e) ==> call_ensures(barrier_code, (other, e), code),
        old(last)@ == old(other)@,
    ensures
        opened matches Ok(value) ==> answer == Ok::<Object<P>, i32>(Object::EpochBarrier(value))
            && final(last)@ == old(last)@,
        opened is Err ==> answer == Err::<Object<P>, i32>(code) && final(last)@ == final(other)@,
{
}

/// A call that went well answers with what it gave, and one that did not
/// answers exactly as its error does.
pub proof fn a_call_that_went_well_is_not_refused<T>(
    last: &mut LastError,
    other: &mut LastError,
    went: Result<T, BarrierError>,
    answer: Result<T, i32>,
    code: i32,
)
    requires
        call_ensures(outcome::<T>, (last, went), answer),
        went matches Err(e) ==> call_ensures(barrier_code, (other, e), code),
        old(last)@ == old(other)@,
    ensures
        went matches Ok(value) ==> answer == Ok::<T, i32>(value) && final(last)@ == old(last)@,
        went is Err ==> answer == Err::<T, i32>(code) && final(last)@ == final(other)@,
{
}

/// A snapshot reports each thing it was handed under that thing's own name.
pub proof fn a_snapshot_reports_each_thing_as_it_is(
    mode: u32,
    snapshot: (u32, u32),
    live_peers: u32,
    grace_epochs: u64,
    shown: subetha_epoch_barrier_stats,
)
    requires
        call_ensures(stats, (mode, snapshot, live_peers, grace_epochs), shown),
    ensures
        shown.mode == mode,
        shown.epoch == snapshot.0,
        shown.arrived == snapshot.1,
        shown.live_peers == live_peers,
        shown.grace_epochs == grace_epochs,
{
}

/// The arguments are accepted exactly when nothing is wrong with any of them,
/// and then handed on unchanged; the first one at fault is the one answered
/// for. A grace of zero epochs stands for three.
pub proof fn a_barrier_is_made_with_arguments_that_are_right<'a, T>(
    last: &mut LastError,
    initialized: Result<(), Refused>,
    out_null: bool,
    path: Result<&'a str, Refused>,
    table: Result<T, Refused>,
    grace_epochs: u64,
    mode: Result<u32, Refused>,
    read: Result<(&'a str, T, u64, u32), i32>,
)
    requires
        call_ensures(read_arguments::<T>, (last, initialized, out_null, path, table, grace_epochs, mode), read),
    ensures
        read is Ok <==> initialized is Ok && !out_null && path is Ok && table is Ok && mode is Ok,
        read matches Ok(all) ==> all.0 == path->Ok_0 && all.1 == table->Ok_0 && (grace_epochs > 0
            ==> all.2 == grace_epochs) && (grace_epochs == 0 ==> all.2 == 3) && all.3 == mode->Ok_0
            && final(last)@ == old(last)@,
        initialized is Err ==> read is Err && read->Err_0 == initialized->Err_0.code
            && final(last)@ == initialized->Err_0.report().leaves(old(last)@),
        initialized is Ok && out_null ==> read is Err && read->Err_0 == SUBETHA_E_INVALID_ARGUMENT
            && final(last)@ == "out is null"@,
        initialized is Ok && !out_null && path is Err ==> read is Err && read->Err_0 == path->Err_0.code
            && final(last)@ == path->Err_0.report().leaves(old(last)@),
        initialized is Ok && !out_null && path is Ok && table is Err ==> read is Err
            && read->Err_0 == table->Err_0.code && final(last)@ == table->Err_0.report().leaves(old(last)@),
        initialized is Ok && !out_null && path is Ok && table is Ok && mode is Err ==> read is Err
            && read->Err_0 == mode->Err_0.code && final(last)@ == mode->Err_0.report().leaves(old(last)@),
{
}

/// Any quorum but zero is accepted.
pub proof fn a_quorum_is_at_least_one(last: &mut LastError, quorum: u32, answer: Result<(), i32>)
    requires
        call_ensures(quorum_arguments, (last, quorum), answer),
    ensures
        answer is Ok <==> quorum > 0,
        answer is Ok ==> final(last)@ == old(last)@,
        answer matches Err(code) ==> code == SUBETHA_E_INVALID_ARGUMENT && final(last)@ == "quorum is zero"@,
{
}

/// Removing a barrier removes the state file named after it, and a path that
/// names no file is refused.
pub proof fn a_barrier_leaves_a_state_file(last: &mut LastError, file_name: Option<&str>, name: Result<String, i32>)
    requires
        call_ensures(subetha_epoch_barrier_unlink, (last, file_name), name),
    ensures
        name is Ok <==> file_name is Some,
        file_name matches Some(stem) ==> name->Ok_0@ == stem@ + ".state.bin"@ && final(last)@ == old(last)@,
        name matches Err(code) ==> code == SUBETHA_E_INVALID_ARGUMENT && final(last)@ == "path names no file"@,
{
}

/// The numbers callers give and are given, as they were built against them.
pub proof fn the_numbers_are_the_ones_callers_know()
    ensures
        SUBETHA_BARRIER_GRACE_DEFAULT == 3,
{
}

} // verus!
