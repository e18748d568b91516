//! Leader election: among the processes attached to one file, exactly one is
//! the leader, and which one converges without a vote.
//!
//! The rule is the lowest live process id. A caller claims leadership when
//! nobody holds it, when its own id is below the current leader's, or when
//! the leader's heartbeat has fallen more than the grace window behind the
//! global epoch. The election term goes up on every handover.

use vstd::prelude::*;

use crate::arguments::{given, invalid_argument};
use crate::error::{
    answers, fail, leader_code, leader_code_report, told, LastError, LeaderError, Refused, Report,
    SUBETHA_E_INVALID_ARGUMENT, SUBETHA_E_WRONG_KIND,
};
use crate::handle::Object;

verus! {

/// The process id that leads nothing; every real process id differs.
pub const SUBETHA_LEADER_NONE: u32 = 0;

/// The grace window to pass when a caller has no reason to pick another.
pub const SUBETHA_LEADER_DEFAULT_GRACE: u64 = 3;

/// A snapshot of an election.
#[allow(non_camel_case_types)]
#[derive(Clone, Copy, Default, Debug, PartialEq, Eq)]
pub struct subetha_leader_stats {
    /// The mode this handle was created in.
    pub mode: u32,
    /// The process id leading right now, or `SUBETHA_LEADER_NONE`.
    pub leader_pid: u32,
    /// How many times leadership has changed hands. A follower watching
    /// for a change polls this rather than the process id, which can
    /// come back to a value it held before.
    pub election_term: u32,
    /// The epoch the leader last beat at.
    pub leader_heartbeat: u64,
    /// The epoch the grace window is measured against.
    pub global_epoch: u64,
}

/// The payload behind an election's handle.
pub fn with_leader<'a, P>(last: &mut LastError, object: &'a Object<P>) -> (payload: Result<&'a P, i32>)
    ensures
        answers(
            payload,
            match *object {
                Object::Leader(p) => Ok(&p),
                _ => Err(told(SUBETHA_E_WRONG_KIND, "the handle does not name a leader election"@)),
            },
            old(last)@,
            final(last)@,
        ),
{
    match object {
        Object::Leader(p) => Ok(p),
        _ => Err(fail(last, SUBETHA_E_WRONG_KIND, "the handle does not name a leader election")),
    }
}

/// What naming a process answers.
pub open spec fn pid_outcome(pid: u32) -> Result<u32, Report> {
    if pid == SUBETHA_LEADER_NONE {
        Err(invalid_argument("pid 0 is the value that means no leader"@))
    } else {
        Ok(pid)
    }
}

/// A process id that can lead. Zero is the value that means nobody, so a
/// caller passing it is refused rather than taken as a step-down.
pub fn checked_pid(last: &mut LastError, pid: u32) -> (checked: Result<u32, i32>)
    ensures
        answers(checked, pid_outcome(pid), old(last)@, final(last)@),
{
    if pid == SUBETHA_LEADER_NONE {
        return Err(fail(last, SUBETHA_E_INVALID_ARGUMENT, "pid 0 is the value that means no leader"));
    }
    Ok(pid)
}

/// What [`read_arguments`] answers.
pub open spec fn read_arguments_outcome<'a>(
    initialized: Result<(), Refused>,
    out_null: bool,
    path: Result<&'a str, Refused>,
    mode: Result<u32, Refused>,
) -> Result<(&'a str, u32), Report> {
    if initialized is Err {
        Err(initialized->Err_0.report())
    } else if out_null {
        Err(invalid_argument("out is null"@))
    } else if path is Err {
        Err(path->Err_0.report())
    } else if mode is Err {
        Err(mode->Err_0.report())
    } else {
        Ok((path->Ok_0, mode->Ok_0))
    }
}

/// The arguments every constructor reads, in order, so the first refusal
/// names the argument at fault.
pub fn read_arguments<'a>(
    last: &mut LastError,
    initialized: Result<(), Refused>,
    out_null: bool,
    path: Result<&'a str, Refused>,
    mode: Result<u32, Refused>,
) -> (read: Result<(&'a str, u32), i32>)
    ensures
        answers(
            read,
            read_arguments_outcome(initialized, out_null, path, mode),
            old(last)@,
            final(last)@,
        ),
{
    if let Err(code) = given(last, initialized) {
        return Err(code);
    }
    if out_null {
        return Err(fail(last, SUBETHA_E_INVALID_ARGUMENT, "out is null"));
    }
    let path: &'a str = match given(last, path) {
        Ok(path) => path,
        Err(code) => {
            return Err(code);
        },
    };
    let mode: u32 = match given(last, mode) {
        Ok(mode) => mode,
        Err(code) => {
            return Err(code);
        },
    };
    Ok((path, mode))
}

/// Make the object for an election that was built or opened, or answer with why
/// it could not be.
pub fn place<P>(last: &mut LastError, opened: Result<P, LeaderError>) -> (object: Result<Object<P>, i32>)
    ensures
        answers(
            object,
            match opened {
                Ok(p) => Ok(Object::Leader(p)),
                Err(e) => Err(leader_code_report(e)),
            },
            old(last)@,
            final(last)@,
        ),
{
    match opened {
        Ok(p) => Ok(Object::Leader(p)),
        Err(e) => Err(leader_code(last, e)),
    }
}

/// What a call on an election answers, given how it went: its value, or the
/// code its error maps to.
pub fn outcome<T>(last: &mut LastError, went: Result<T, LeaderError>) -> (answer: Result<T, i32>)
    ensures
        answers(
            answer,
            match went {
                Ok(value) => Ok(value),
                Err(e) => Err(leader_code_report(e)),
            },
            old(last)@,
            final(last)@,
        ),
{
    match went {
        Ok(value) => Ok(value),
        Err(e) => Err(leader_code(last, e)),
    }
}

/// The arguments of a claim to leadership, checked in order.
pub fn try_claim_arguments(
    last: &mut LastError,
    pid: u32,
    out_claimed_null: bool,
) -> (answer: Result<u32, i32>)
    ensures
        answers(
            answer,
            if pid_outcome(pid) is Err {
                pid_outcome(pid)
            } else if out_claimed_null {
                Err(invalid_argument("out_claimed is null"@))
            } else {
                Ok(pid)
            },
            old(last)@,
            final(last)@,
        ),
{
    if let Err(code) = checked_pid(last, pid) {
        return Err(code);
    }
    if out_claimed_null {
        return Err(fail(last, SUBETHA_E_INVALID_ARGUMENT, "out_claimed is null"));
    }
    Ok(pid)
}

/// A snapshot, from what the election says.
pub fn stats(
    mode: u32,
    current_leader: Option<u32>,
    election_term: u32,
    leader_heartbeat: u64,
    global_epoch: u64,
) -> (stats: subetha_leader_stats)
    ensures
        stats == (subetha_leader_stats {
            mode,
            leader_pid: match current_leader {
                Some(pid) => pid,
                None => SUBETHA_LEADER_NONE,
            },
            election_term,
            leader_heartbeat,
            global_epoch,
        }),
{
    subetha_leader_stats {
        mode,
        leader_pid: current_leader.unwrap_or(SUBETHA_LEADER_NONE),
        election_term,
        leader_heartbeat,
        global_epoch,
    }
}

/// A call on an election reaches what stands behind a handle to an election,
/// and nothing behind any other handle.
pub proof fn only_an_election_is_reached<P>(last: &mut LastError, object: &Object<P>, reached: Result<&P, i32>)
    requires
        call_ensures(with_leader::<P>, (last, object), reached),
    ensures
        reached is Ok <==> *object is Leader,
        reached matches Ok(payload) ==> *object == Object::Leader(*payload) && final(last)@ == old(last)@,
        reached matches Err(code) ==> code == SUBETHA_E_WRONG_KIND
            && final(last)@ == "the handle does not name a leader election"@,
{
}

/// An election that opened is placed as what it is; one that did not is
/// answered exactly as its error is.
pub proof fn an_election_that_opened_is_placed_as_one<P>(
    last: &mut LastError,
    other: &mut LastError,
    opened: Result<P, LeaderError>,
    answer: Result<Object<P>, i32>,
    code: i32,
)
    requires
        call_ensures(place::<P>, (last, opened), answer),
        opened matches Err(e) ==> call_ensures(leader_code, (other, e), code),
        old(last)@ == old(other)@,
    ensures
        opened matches Ok(value) ==> answer == Ok::<Object<P>, i32>(Object::Leader(value))
            && final(last)@ == old(last)@,
        opened is Err ==> answer == Err::<Object<P>, i32>(code) && final(last)@ == final(other)@,
{
}

/// A call that went well answers with what it gave, and one that did not
/// answers exactly as its error does.
pub proof fn a_call_that_went_well_is_not_refused<T>(
    last: &mut LastError,
    other: &mut LastError,
    went: Result<T, LeaderError>,
    answer: Result<T, i32>,
    code: i32,
)
    requires
        call_ensures(outcome::<T>, (last, went), answer),
        went matches Err(e) ==> call_ensures(leader_code, (other, e), code),
        old(last)@ == old(other)@,
    ensures
        went matches Ok(value) ==> answer == Ok::<T, i32>(value) && final(last)@ == old(last)@,
        went is Err ==> answer == Err::<T, i32>(code) && final(last)@ == final(other)@,
{
}

/// A snapshot reports each thing it was handed under that thing's own name.
pub proof fn a_snapshot_reports_each_thing_as_it_is(
    mode: u32,
    current_leader: Option<u32>,
    election_term: u32,
    leader_heartbeat: u64,
    global_epoch: u64,
    shown: subetha_leader_stats,
)
    requires
        call_ensures(stats, (mode, current_leader, election_term, leader_heartbeat, global_epoch), shown),
    ensures
        shown.mode == mode,
        shown.leader_pid == match current_leader { Some(pid) => pid, None => SUBETHA_LEADER_NONE, },
        shown.election_term == election_term,
        shown.leader_heartbeat == leader_heartbeat,
        shown.global_epoch == global_epoch,
{
}

/// Every process id but zero, which means no leader, is accepted and stands
/// for itself.
pub proof fn any_process_but_none_is_named(last: &mut LastError, pid: u32, checked: Result<u32, i32>)
    requires
        call_ensures(checked_pid, (last, pid), checked),
    ensures
        checked is Ok <==> pid != 0,
        checked matches Ok(p) ==> p == pid && final(last)@ == old(last)@,
        checked matches Err(code) ==> code == SUBETHA_E_INVALID_ARGUMENT
            && final(last)@ == "pid 0 is the value that means no leader"@,
{
}

/// The arguments are accepted exactly when nothing is wrong with any of them,
/// and then handed on unchanged; the first one at fault is the one answered
/// for.
pub proof fn an_election_is_made_with_arguments_that_are_right<'a>(
    last: &mut LastError,
    initialized: Result<(), Refused>,
    out_null: bool,
    path: Result<&'a str, Refused>,
    mode: Result<u32, Refused>,
    read: Result<(&'a str, u32), i32>,
)
    requires
        call_ensures(read_arguments, (last, initialized, out_null, path, mode), read),
    ensures
        read is Ok <==> initialized is Ok && !out_null && path is Ok && mode is Ok,
        read matches Ok(all) ==> all.0 == path->Ok_0 && all.1 == mode->Ok_0 && final(last)@ == old(last)@,
        initialized is Err ==> read is Err && read->Err_0 == initialized->Err_0.code
            && final(last)@ == initialized->Err_0.report().leaves(old(last)@),
        initialized is Ok && out_null ==> read is Err && read->Err_0 == SUBETHA_E_INVALID_ARGUMENT
            && final(last)@ == "out is null"@,
        initialized is Ok && !out_null && path is Err ==> read is Err && read->Err_0 == path->Err_0.code
            && final(last)@ == path->Err_0.report().leaves(old(last)@),
        initialized is Ok && !out_null && path is Ok && mode is Err ==> read is Err
            && read->Err_0 == mode->Err_0.code && final(last)@ == mode->Err_0.report().leaves(old(last)@),
{
}

/// The arguments are accepted exactly when nothing is wrong with any of them,
/// and then handed on unchanged; the first one at fault is the one answered
/// for.
pub proof fn any_process_claims_where_the_answer_can_be_written(
    last: &mut LastError,
    pid: u32,
    out_claimed_null: bool,
    answer: Result<u32, i32>,
)
    requires
        call_ensures(try_claim_arguments, (last, pid, out_claimed_null), answer),
    ensures
        answer is Ok <==> pid != 0 && !out_claimed_null,
        answer matches Ok(all) ==> all == pid && final(last)@ == old(last)@,
        pid == 0 ==> answer is Err && answer->Err_0 == SUBETHA_E_INVALID_ARGUMENT,
        pid != 0 && out_claimed_null ==> answer is Err && answer->Err_0 == SUBETHA_E_INVALID_ARGUMENT
            && final(last)@ == "out_claimed is null"@,
{
}

/// The numbers callers give and are given, as they were built against them.
pub proof fn the_numbers_are_the_ones_callers_know()
    ensures
        SUBETHA_LEADER_NONE == 0,
        SUBETHA_LEADER_DEFAULT_GRACE == 3,
{
}

} // verus!
