//! The owner lease: one process at a time holds a resource, and a holder
//! that dies loses it rather than keeping it for good.
//!
//! A lease is held by a process id, and a holder is displaced in two ways: a
//! lower process id preempts it outright, and a heartbeat that has fallen
//! more than the grace window behind the global epoch marks it gone. The
//! payload travels with the lease.

use vstd::prelude::*;

use crate::arguments::{given, invalid_argument};
use crate::error::{
    answers, fail, lease_code, lease_code_report, told, LastError, LeaseError, Refused, Report,
    SUBETHA_E_INVALID_ARGUMENT, SUBETHA_E_NOT_OWNER, SUBETHA_E_WRONG_KIND,
};
use crate::handle::Object;
use crate::text::{dec, push_dec};

verus! {

/// The largest payload a lease carries.
pub const SUBETHA_LEASE_PAYLOAD_MAX: u64 = 48;

/// The process id that holds no lease; every real process id differs.
pub const SUBETHA_LEASE_NO_OWNER: u32 = 0;

/// A snapshot of an owner lease.
#[allow(non_camel_case_types)]
#[derive(Clone, Copy, Default, Debug, PartialEq, Eq)]
pub struct subetha_owner_lease_stats {
    /// The mode this handle was created in.
    pub mode: u32,
    /// Bytes the payload holds, as the region records it.
    pub payload_size: u32,
    /// The process id holding the lease, or `SUBETHA_LEASE_NO_OWNER`.
    pub owner_pid: u32,
    /// How many times the lease has changed hands.
    pub lease_term: u32,
    /// The payload's version, odd while a write is in flight.
    pub seq_version: u32,
    /// The epoch the owner last beat at.
    pub heartbeat_epoch: u64,
    /// The epoch the grace window is measured against.
    pub global_epoch: u64,
}

/// The payload behind an owner lease's handle.
pub fn with_lease<'a, P>(last: &mut LastError, object: &'a Object<P>) -> (payload: Result<&'a P, i32>)
    ensures
        answers(
            payload,
            match *object {
                Object::OwnerLease(p) => Ok(&p),
                _ => Err(told(SUBETHA_E_WRONG_KIND, "the handle does not name an owner lease"@)),
            },
            old(last)@,
            final(last)@,
        ),
{
    match object {
        Object::OwnerLease(p) => Ok(p),
        _ => Err(fail(last, SUBETHA_E_WRONG_KIND, "the handle does not name an owner lease")),
    }
}

/// What naming a process answers.
pub open spec fn pid_outcome(pid: u32) -> Result<u32, Report> {
    if pid == SUBETHA_LEASE_NO_OWNER {
        Err(invalid_argument("pid 0 is the value that means no owner"@))
    } else {
        Ok(pid)
    }
}

/// A process id a lease can be held by. Zero is the value that means
/// nobody, so a caller passing it is refused rather than taken as a
/// release.
pub fn checked_pid(last: &mut LastError, pid: u32) -> (checked: Result<u32, i32>)
    ensures
        answers(checked, pid_outcome(pid), old(last)@, final(last)@),
{
    if pid == SUBETHA_LEASE_NO_OWNER {
        return Err(fail(last, SUBETHA_E_INVALID_ARGUMENT, "pid 0 is the value that means no owner"));
    }
    Ok(pid)
}

/// What [`read_arguments`] answers.
pub open spec fn read_arguments_outcome<'a>(
    initialized: Result<(), Refused>,
    out_null: bool,
    path: Result<&'a str, Refused>,
    payload_size: u32,
    mode: Result<u32, Refused>,
) -> Result<(&'a str, usize, u32), Report> {
    if initialized is Err {
        Err(initialized->Err_0.report())
    } else if out_null {
        Err(invalid_argument("out is null"@))
    } else if path is Err {
        Err(path->Err_0.report())
    } else if payload_size == 0 || payload_size as u64 > SUBETHA_LEASE_PAYLOAD_MAX {
        Err(invalid_argument("payload_size "@ + dec(payload_size as nat) + " is zero or above "@ + dec(SUBETHA_LEASE_PAYLOAD_MAX as nat)))
    } else if mode is Err {
        Err(mode->Err_0.report())
    } else {
        Ok((path->Ok_0, payload_size as usize, mode->Ok_0))
    }
}

/// The arguments every constructor reads, in order, so the first refusal
/// names the argument at fault.
pub fn read_arguments<'a>(
    last: &mut LastError,
    initialized: Result<(), Refused>,
    out_null: bool,
    path: Result<&'a str, Refused>,
    payload_size: u32,
    mode: Result<u32, Refused>,
) -> (read: Result<(&'a str, usize, u32), i32>)
    ensures
        answers(
            read,
            read_arguments_outcome(initialized, out_null, path, payload_size, mode),
            old(last)@,
            final(last)@,
        ),
{
    if let Err(code) = given(last, initialized) {
        return Err(code);
    }
    if out_null {
        return Err(fail(last, SUBETHA_E_INVALID_ARGUMENT, "out is null"));
    }
    let path: &'a str = match given(last, path) {
        Ok(path) => path,
        Err(code) => {
            return Err(code);
        },
    };
    if payload_size == 0 || payload_size as u64 > SUBETHA_LEASE_PAYLOAD_MAX {
        let mut text: String = String::from_str("payload_size ");
        push_dec(&mut text, payload_size as u64);
        text.append(" is zero or above ");
        push_dec(&mut text, SUBETHA_LEASE_PAYLOAD_MAX);
        return Err(fail(last, SUBETHA_E_INVALID_ARGUMENT, text.as_str()));
    }
    let mode: u32 = match given(last, mode) {
        Ok(mode) => mode,
        Err(code) => {
            return Err(code);
        },
    };
    Ok((path, payload_size as usize, mode))
}

/// Make the object for a lease that was built or opened, or answer with why
/// it could not be.
pub fn place<P>(last: &mut LastError, opened: Result<P, LeaseError>) -> (object: Result<Object<P>, i32>)
    ensures
        answers(
            object,
            match opened {
                Ok(p) => Ok(Object::OwnerLease(p)),
                Err(e) => Err(lease_code_report(e)),
            },
            old(last)@,
            final(last)@,
        ),
{
    match opened {
        Ok(p) => Ok(Object::OwnerLease(p)),
        Err(e) => Err(lease_code(last, e)),
    }
}

/// What a call on a lease answers, given how it went: its value, or the
/// code its error maps to.
pub fn outcome<T>(last: &mut LastError, went: Result<T, LeaseError>) -> (answer: Result<T, i32>)
    ensures
        answers(
            answer,
            match went {
                Ok(value) => Ok(value),
                Err(e) => Err(lease_code_report(e)),
            },
            old(last)@,
            final(last)@,
        ),
{
    match went {
        Ok(value) => Ok(value),
        Err(e) => Err(lease_code(last, e)),
    }
}

/// The arguments of a try at the lease, checked in order.
pub fn try_acquire_arguments(
    last: &mut LastError,
    pid: u32,
    out_acquired_null: bool,
) -> (answer: Result<u32, i32>)
    ensures
        answers(
            answer,
            if pid_outcome(pid) is Err {
                pid_outcome(pid)
            } else if out_acquired_null {
                Err(invalid_argument("out_acquired is null"@))
            } else {
                Ok(pid)
            },
            old(last)@,
            final(last)@,
        ),
{
    if let Err(code) = checked_pid(last, pid) {
        return Err(code);
    }
    if out_acquired_null {
        return Err(fail(last, SUBETHA_E_INVALID_ARGUMENT, "out_acquired is null"));
    }
    Ok(pid)
}

/// The arguments of a write that do not need the bytes, checked in order.
pub fn write_arguments(
    last: &mut LastError,
    pid: u32,
    len: usize,
    payload_size: usize,
) -> (answer: Result<u32, i32>)
    ensures
        answers(
            answer,
            if pid_outcome(pid) is Err {
                pid_outcome(pid)
            } else if len > payload_size {
                Err(invalid_argument(dec(len as nat) + " bytes exceed the "@ + dec(payload_size as nat) + "-byte payload"@))
            } else {
                Ok(pid)
            },
            old(last)@,
            final(last)@,
        ),
{
    if let Err(code) = checked_pid(last, pid) {
        return Err(code);
    }
    if len > payload_size {
        let mut text: String = String::new();
        push_dec(&mut text, len as u64);
        text.append(" bytes exceed the ");
        push_dec(&mut text, payload_size as u64);
        text.append("-byte payload");
        return Err(fail(last, SUBETHA_E_INVALID_ARGUMENT, text.as_str()));
    }
    Ok(pid)
}

/// Whether a read or a write went through: it does only for the process that
/// holds the lease.
pub fn held_by(
    last: &mut LastError,
    pid: u32,
    holds: bool,
) -> (answer: Result<(), i32>)
    ensures
        answers(
            answer,
            if !holds {
                Err(told(SUBETHA_E_NOT_OWNER, "pid "@ + dec(pid as nat) + " does not hold the lease"@))
            } else {
                Ok(())
            },
            old(last)@,
            final(last)@,
        ),
{
    if !holds {
        let mut text: String = String::from_str("pid ");
        push_dec(&mut text, pid as u64);
        text.append(" does not hold the lease");
        return Err(fail(last, SUBETHA_E_NOT_OWNER, text.as_str()));
    }
    Ok(())
}

/// A snapshot, from what the lease says.
pub fn stats(
    mode: u32,
    payload_size: usize,
    current_owner: Option<u32>,
    lease_term: u32,
    seq_version: u32,
    heartbeat_epoch: u64,
    global_epoch: u64,
) -> (stats: subetha_owner_lease_stats)
    ensures
        stats == (subetha_owner_lease_stats {
            mode,
            payload_size: payload_size as u32,
            owner_pid: match current_owner {
                Some(pid) => pid,
                None => SUBETHA_LEASE_NO_OWNER,
            },
            lease_term,
            seq_version,
            heartbeat_epoch,
            global_epoch,
        }),
{
    subetha_owner_lease_stats {
        mode,
        payload_size: payload_size as u32,
        owner_pid: current_owner.unwrap_or(SUBETHA_LEASE_NO_OWNER),
        lease_term,
        seq_version,
        heartbeat_epoch,
        global_epoch,
    }
}

/// A call on an owner lease reaches what stands behind a handle to an owner
/// lease, and nothing behind any other handle.
pub proof fn only_a_lease_is_reached<P>(last: &mut LastError, object: &Object<P>, reached: Result<&P, i32>)
    requires
        call_ensures(with_lease::<P>, (last, object), reached),
    ensures
        reached is Ok <==> *object is OwnerLease,
        reached matches Ok(payload) ==> *object == Object::OwnerLease(*payload) && final(last)@ == old(last)@,
        reached matches Err(code) ==> code == SUBETHA_E_WRONG_KIND
            && final(last)@ == "the handle does not name an owner lease"@,
{
}

/// A lease that opened is placed as what it is; one that did not is answered
/// exactly as its error is.
pub proof fn a_lease_that_opened_is_placed_as_one<P>(
    last: &mut LastError,
    other: &mut LastError,
    opened: Result<P, LeaseError>,
    answer: Result<Object<P>, i32>,
    code: i32,
)
    requires
        call_ensures(place::<P>, (last, opened), answer),
        opened matches Err(e) ==> call_ensures(lease_code, (other, e), code),
        old(last)@ == old(other)@,
    ensures
        opened matches Ok(value) ==> answer == Ok::<Object<P>, i32>(Object::OwnerLease(value))
            && final(last)@ == old(last)@,
        opened is Err ==> answer == Err::<Object<P>, i32>(code) && final(last)@ == final(other)@,
{
}

/// A call that went well answers with what it gave, and one that did not
/// answers exactly as its error does.
pub proof fn a_call_that_went_well_is_not_refused<T>(
    last: &mut LastError,
    other: &mut LastError,
    went: Result<T, LeaseError>,
    answer: Result<T, i32>,
    code: i32,
)
    requires
        call_ensures(outcome::<T>, (last, went), answer),
        went matches Err(e) ==> call_ensures(lease_code, (other, e), code),
        old(last)@ == old(other)@,
    ensures
        went matches Ok(value) ==> answer == Ok::<T, i32>(value) && final(last)@ == old(last)@,
        went is Err ==> answer == Err::<T, i32>(code) && final(last)@ == final(other)@,
{
}

/// A snapshot reports each thing it was handed under that thing's own name.
pub proof fn a_snapshot_reports_each_thing_as_it_is(
    mode: u32,
    payload_size: usize,
    current_owner: Option<u32>,
    lease_term: u32,
    seq_version: u32,
    heartbeat_epoch: u64,
    global_epoch: u64,
    shown: subetha_owner_lease_stats,
)
    requires
        call_ensures(stats, (mode, payload_size, current_owner, lease_term, seq_version, heartbeat_epoch,
            global_epoch), shown),
    ensures
        shown.mode == mode,
        shown.payload_size == payload_size as u32,
        shown.owner_pid == match current_owner { Some(pid) => pid, None => SUBETHA_LEASE_NO_OWNER, },
        shown.lease_term == lease_term,
        shown.seq_version == seq_version,
        shown.heartbeat_epoch == heartbeat_epoch,
        shown.global_epoch == global_epoch,
{
}

/// Every process id but zero, which means no owner, is accepted and stands for
/// itself.
pub proof fn any_process_but_none_is_named(last: &mut LastError, pid: u32, checked: Result<u32, i32>)
    requires
        call_ensures(checked_pid, (last, pid), checked),
    ensures
        checked is Ok <==> pid != 0,
        checked matches Ok(p) ==> p == pid && final(last)@ == old(last)@,
        checked matches Err(code) ==> code == SUBETHA_E_INVALID_ARGUMENT
            && final(last)@ == "pid 0 is the value that means no owner"@,
{
}

/// The arguments are accepted exactly when nothing is wrong with any of them,
/// and then handed on unchanged; the first one at fault is the one answered
/// for. A payload has one to forty-eight bytes.
pub proof fn a_lease_is_made_with_arguments_that_are_right<'a>(
    last: &mut LastError,
    initialized: Result<(), Refused>,
    out_null: bool,
    path: Result<&'a str, Refused>,
    payload_size: u32,
    mode: Result<u32, Refused>,
    read: Result<(&'a str, usize, u32), i32>,
)
    requires
        call_ensures(read_arguments, (last, initialized, out_null, path, payload_size, mode), read),
    ensures
        read is Ok <==> initialized is Ok && !out_null && path is Ok && !(payload_size == 0
            || payload_size > 48) && mode is Ok,
        read matches Ok(all) ==> all.0 == path->Ok_0 && all.1 == payload_size && all.2 == mode->Ok_0
            && final(last)@ == old(last)@,
        initialized is Err ==> read is Err && read->Err_0 == initialized->Err_0.code
            && final(last)@ == initialized->Err_0.report().leaves(old(last)@),
        initialized is Ok && out_null ==> read is Err && read->Err_0 == SUBETHA_E_INVALID_ARGUMENT
            && final(last)@ == "out is null"@,
        initialized is Ok && !out_null && path is Err ==> read is Err && read->Err_0 == path->Err_0.code
            && final(last)@ == path->Err_0.report().leaves(old(last)@),
        initialized is Ok && !out_null && path is Ok && (payload_size == 0 || payload_size > 48) ==> read is Err
            && read->Err_0 == SUBETHA_E_INVALID_ARGUMENT,
        initialized is Ok && !out_null && path is Ok && !(payload_size == 0 || payload_size > 48)
            && mode is Err ==> read is Err && read->Err_0 == mode->Err_0.code
            && final(last)@ == mode->Err_0.report().leaves(old(last)@),
{
}

/// The arguments are accepted exactly when nothing is wrong with any of them,
/// and then handed on unchanged; the first one at fault is the one answered
/// for.
pub proof fn any_process_acquires_where_the_answer_can_be_written(
    last: &mut LastError,
    pid: u32,
    out_acquired_null: bool,
    answer: Result<u32, i32>,
)
    requires
        call_ensures(try_acquire_arguments, (last, pid, out_acquired_null), answer),
    ensures
        answer is Ok <==> pid != 0 && !out_acquired_null,
        answer matches Ok(all) ==> all == pid && final(last)@ == old(last)@,
        pid == 0 ==> answer is Err && answer->Err_0 == SUBETHA_E_INVALID_ARGUMENT,
        pid != 0 && out_acquired_null ==> answer is Err && answer->Err_0 == SUBETHA_E_INVALID_ARGUMENT
            && final(last)@ == "out_acquired is null"@,
{
}

/// The arguments are accepted exactly when nothing is wrong with any of them,
/// and then handed on unchanged; the first one at fault is the one answered
/// for.
pub proof fn a_write_fits_up_to_the_whole_payload(
    last: &mut LastError,
    pid: u32,
    len: usize,
    payload_size: usize,
    answer: Result<u32, i32>,
)
    requires
        call_ensures(write_arguments, (last, pid, len, payload_size), answer),
    ensures
        answer is Ok <==> pid != 0 && len <= payload_size,
        answer matches Ok(all) ==> all == pid && final(last)@ == old(last)@,
        pid == 0 ==> answer is Err && answer->Err_0 == SUBETHA_E_INVALID_ARGUMENT,
        pid != 0 && len > payload_size ==> answer is Err && answer->Err_0 == SUBETHA_E_INVALID_ARGUMENT,
{
}

/// A call is let through for the process that holds the lease alone.
pub proof fn only_the_holder_reads_and_writes(last: &mut LastError, pid: u32, holds: bool, answer: Result<(), i32>)
    requires
        call_ensures(held_by, (last, pid, holds), answer),
    ensures
        answer is Ok <==> holds,
        answer is Ok ==> final(last)@ == old(last)@,
        answer matches Err(code) ==> code == SUBETHA_E_NOT_OWNER,
{
}

/// The numbers callers give and are given, as they were built against them.
pub proof fn the_numbers_are_the_ones_callers_know()
    ensures
        SUBETHA_LEASE_PAYLOAD_MAX == 48,
        SUBETHA_LEASE_NO_OWNER == 0,
{
}

/// A refusal says what was given and what it should have been.
pub proof fn a_write_at_fault_is_told(
    last: &mut LastError,
    pid: u32,
    len: usize,
    payload_size: usize,
    answer: Result<u32, i32>,
)
    requires
        call_ensures(write_arguments, (last, pid, len, payload_size), answer),
    ensures
        pid != 0 && len > payload_size ==> final(last)@ == dec(len as nat) + " bytes exceed the "@
            + dec(payload_size as nat) + "-byte payload"@,
        pid == 0 ==> final(last)@ == "pid 0 is the value that means no owner"@,
{
}

/// A refusal says what was given and what it should have been.
pub proof fn who_does_not_hold_the_lease_is_told(last: &mut LastError, pid: u32, answer: Result<(), i32>)
    requires
        call_ensures(held_by, (last, pid, false), answer),
    ensures
        final(last)@ == "pid "@ + dec(pid as nat) + " does not hold the lease"@,
{
}

} // verus!
