//! The pub/sub ring: one publisher that never waits for anyone, and
//! subscribers that each carry their own absolute position, anonymous or in a
//! file that survives a restart. A publish assigns the item a position; a
//! read at a position finds it, or finds it not yet published, or finds it
//! overwritten, in which case the subscriber's position moves to the ring's
//! head.

use vstd::prelude::*;

use crate::arguments::{given, invalid_argument, refuse_if};
use crate::error::{
    answers, bare, fail, io_code, io_code_report, told, IoFailure, LastError, Refused, Report,
    SUBETHA_E_BUFFER_TOO_SMALL, SUBETHA_E_INVALID_ARGUMENT, SUBETHA_E_PUBSUB_LOST,
    SUBETHA_E_PUBSUB_PENDING, SUBETHA_E_WRONG_KIND,
};
use crate::handle::Object;
use crate::text::{dec, push_dec};

verus! {

/// Bytes one pub/sub slot carries; a publish zero-fills past its payload
/// and a read yields the whole slot.
pub const SUBETHA_PUBSUB_PAYLOAD_BYTES: usize = 56;

/// A snapshot of a pub/sub ring.
#[allow(non_camel_case_types)]
#[derive(Clone, Copy, Default, Debug, PartialEq, Eq)]
pub struct subetha_pubsub_stats {
    /// The mode this handle was created in.
    pub mode: u32,
    /// Slots in the ring.
    pub capacity: u64,
    /// The position the next publish takes; items published so far.
    pub head: u64,
}

/// Why a read at a position found no item.
#[derive(Clone, Copy, Debug, PartialEq, Eq, Structural)]
pub enum PubSubReadError {
    /// The position has not been published yet.
    Pending,
    /// The position was overwritten.
    Lost,
}

/// A subscriber's position in the ring.
pub struct Position {
    at: u64,
}

impl View for Position {
    type V = u64;

    closed spec fn view(&self) -> u64 {
        self.at
    }
}

impl Position {
    /// A subscriber that starts at `at`.
    pub fn new(at: u64) -> (position: Self)
        ensures
            position@ == at,
    {
        Position { at }
    }

    /// Where the subscriber stands.
    pub fn get(&self) -> (at: u64)
        ensures
            at == self@,
    {
        self.at
    }

    /// Move forward by `by`; where the subscriber then stands.
    pub fn advance(&mut self, by: u64) -> (at: u64)
        requires
            old(self)@ + by <= u64::MAX,
        ensures
            at == old(self)@ + by,
            final(self)@ == at,
    {
        self.at = self.at + by;
        self.at
    }

    /// Set the position outright.
    pub fn set(&mut self, to: u64)
        ensures
            final(self)@ == to,
    {
        self.at = to;
    }
}

/// What a subscriber keeps.
pub struct SubscriberObject {
    position: Position,
    mode: u32,
}

/// What reading at `position` comes to when the read went as `read` and the
/// ring's head is `head`: the answer, and the position afterwards.
pub open spec fn next_outcome(position: u64, read: Result<(), PubSubReadError>, head: u64) -> (
    Result<(), Report>,
    int,
) {
    match read {
        Ok(()) => (Ok(()), position + 1),
        Err(PubSubReadError::Lost) => (
            Err(
                told(
                    SUBETHA_E_PUBSUB_LOST,
                    "position "@ + dec(position as nat)
                        + " was overwritten; the subscriber now stands at the head"@,
                ),
            ),
            head as int,
        ),
        Err(PubSubReadError::Pending) => (Err(bare(SUBETHA_E_PUBSUB_PENDING)), position as int),
    }
}

impl SubscriberObject {
    /// Where the subscriber stands.
    pub closed spec fn at(&self) -> u64 {
        self.position@
    }

    /// The mode it was made in.
    pub closed spec fn mode_number(&self) -> u32 {
        self.mode
    }

    /// A subscriber that starts at `at`.
    pub fn new(at: u64, mode: u32) -> (object: Self)
        ensures
            object.at() == at,
            object.mode_number() == mode,
    {
        SubscriberObject { position: Position::new(at), mode }
    }

    /// The position a read is to look at.
    pub fn position(&self) -> (at: u64)
        ensures
            at == self.at(),
    {
        self.position.get()
    }

    /// The mode a subscriber was created in.
    pub fn mode(&self) -> (mode: u32)
        ensures
            mode == self.mode_number(),
    {
        self.mode
    }

    /// The item at the subscriber's position was read, and the subscriber
    /// moves past it; or it was not. A lost position moves to the ring's
    /// head before the code is returned.
    pub fn try_next(&mut self, last: &mut LastError, read: Result<(), PubSubReadError>, head: u64) -> (answer: Result<
        (),
        i32,
    >)
        requires
            read is Ok ==> old(self).at() < u64::MAX,
        ensures
            answers(answer, next_outcome(old(self).at(), read, head).0, old(last)@, final(last)@),
            final(self).at() == next_outcome(old(self).at(), read, head).1,
            final(self).mode_number() == old(self).mode_number(),
    {
        let position: u64 = self.position.get();
        match read {
            Ok(()) => {
                self.position.advance(1);
                Ok(())
            },
            Err(PubSubReadError::Lost) => {
                self.position.set(head);
                let mut text: String = String::from_str("position ");
                push_dec(&mut text, position);
                text.append(" was overwritten; the subscriber now stands at the head");
                Err(fail(last, SUBETHA_E_PUBSUB_LOST, text.as_str()))
            },
            Err(PubSubReadError::Pending) => Err(SUBETHA_E_PUBSUB_PENDING),
        }
    }

    /// Move the position forward by `by` without reading.
    pub fn skip(&mut self, by: u64) -> (at: u64)
        requires
            old(self).at() + by <= u64::MAX,
        ensures
            at == old(self).at() + by,
            final(self).at() == at,
            final(self).mode_number() == old(self).mode_number(),
    {
        self.position.advance(by)
    }

    /// Set the position outright.
    pub fn set_position(&mut self, to: u64)
        ensures
            final(self).at() == to,
            final(self).mode_number() == old(self).mode_number(),
    {
        self.position.set(to)
    }
}

/// The position after a run of reads that each went as `reads` says, the
/// head standing at `heads` for each.
pub open spec fn position_after(start: u64, reads: Seq<Result<(), PubSubReadError>>, heads: Seq<u64>) -> int
    decreases reads.len(),
{
    if reads.len() == 0 {
        start as int
    } else {
        let before = position_after(start, reads.drop_last(), heads.drop_last());
        match reads.last() {
            Ok(()) => before + 1,
            Err(PubSubReadError::Lost) => heads.last() as int,
            Err(PubSubReadError::Pending) => before,
        }
    }
}

/// A subscriber reads in order and misses nothing it is not told of: while
/// no read is lost, it stands past its start by exactly the reads that found
/// an item.
pub proof fn a_subscriber_reads_in_order(start: u64, reads: Seq<Result<(), PubSubReadError>>, heads: Seq<u64>)
    requires
        reads.len() == heads.len(),
        forall|i: int| 0 <= i < reads.len() ==> #[trigger] reads[i] != Err::<(), PubSubReadError>(PubSubReadError::Lost),
    ensures
        position_after(start, reads, heads) == start + reads.filter(|r: Result<(), PubSubReadError>| r is Ok).len(),
    decreases reads.len(),
{
    reveal(Seq::filter);
    if reads.len() > 0 {
        assert forall|i: int| 0 <= i < reads.drop_last().len() implies #[trigger] reads.drop_last()[i] != Err::<
            (),
            PubSubReadError,
        >(PubSubReadError::Lost) by {
            assert(reads[i] == reads.drop_last()[i]);
        }
        a_subscriber_reads_in_order(start, reads.drop_last(), heads.drop_last());
    }
}

/// A lost subscriber stands at the head.
pub proof fn a_lost_subscriber_stands_at_the_head(position: u64, head: u64)
    ensures
        next_outcome(position, Err(PubSubReadError::Lost), head).1 == head,
        next_outcome(position, Err(PubSubReadError::Lost), head).0 is Err,
{
}

/// The payload behind a pub/sub ring's handle.
pub fn with_pubsub<'a, P>(last: &mut LastError, object: &'a Object<P>) -> (payload: Result<&'a P, i32>)
    ensures
        answers(
            payload,
            match *object {
                Object::PubSub(p) => Ok(&p),
                _ => Err(told(SUBETHA_E_WRONG_KIND, "the handle does not name a pub/sub ring"@)),
            },
            old(last)@,
            final(last)@,
        ),
{
    match object {
        Object::PubSub(p) => Ok(p),
        _ => Err(fail(last, SUBETHA_E_WRONG_KIND, "the handle does not name a pub/sub ring")),
    }
}

/// The payload behind a subscriber's handle.
pub fn with_subscriber<'a, P>(last: &mut LastError, object: &'a Object<P>) -> (payload: Result<&'a P, i32>)
    ensures
        answers(
            payload,
            match *object {
                Object::Subscriber(p) => Ok(&p),
                _ => Err(told(SUBETHA_E_WRONG_KIND, "the handle does not name a subscriber"@)),
            },
            old(last)@,
            final(last)@,
        ),
{
    match object {
        Object::Subscriber(p) => Ok(p),
        _ => Err(fail(last, SUBETHA_E_WRONG_KIND, "the handle does not name a subscriber")),
    }
}

/// Make the object for a ring that was made or opened, in a mode and with a
/// waker beside it, each read in order: the ring, the mode, the waker.
pub fn place<P>(last: &mut LastError, ring: Result<P, IoFailure>, mode: Result<u32, Refused>, waker: Result<(), Refused>)
    -> (object: Result<(Object<P>, u32), i32>)
    ensures
        answers(
            object,
            match ring {
                Err(e) => Err(io_code_report(e)),
                Ok(p) => if mode is Err {
                    Err(mode->Err_0.report())
                } else if waker is Err {
                    Err(waker->Err_0.report())
                } else {
                    Ok((Object::PubSub(p), mode->Ok_0))
                },
            },
            old(last)@,
            final(last)@,
        ),
{
    match ring {
        Err(e) => Err(io_code(last, e)),
        Ok(p) => {
            let mode: u32 = match given(last, mode) {
                Ok(mode) => mode,
                Err(code) => {
                    return Err(code);
                },
            };
            match given(last, waker) {
                Ok(()) => Ok((Object::PubSub(p), mode)),
                Err(code) => Err(code),
            }
        },
    }
}

/// What [`anon_arguments`] answers.
pub open spec fn anon_arguments_outcome(
    initialized: Result<(), Refused>,
    options: Result<(), Refused>,
    capacity: Result<usize, Refused>,
) -> Result<usize, Report> {
    if initialized is Err {
        Err(initialized->Err_0.report())
    } else if options is Err {
        Err(options->Err_0.report())
    } else if capacity is Err {
        Err(capacity->Err_0.report())
    } else {
        Ok(capacity->Ok_0)
    }
}

/// The arguments of a ring in anonymous memory, read in order.
pub fn anon_arguments(
    last: &mut LastError,
    initialized: Result<(), Refused>,
    options: Result<(), Refused>,
    capacity: Result<usize, Refused>,
) -> (read: Result<usize, i32>)
    ensures
        answers(
            read,
            anon_arguments_outcome(initialized, options, capacity),
            old(last)@,
            final(last)@,
        ),
{
    if let Err(code) = given(last, initialized) {
        return Err(code);
    }
    if let Err(code) = given(last, options) {
        return Err(code);
    }
    let capacity: usize = match given(last, capacity) {
        Ok(capacity) => capacity,
        Err(code) => {
            return Err(code);
        },
    };
    Ok(capacity)
}

/// What [`file_arguments`] answers.
pub open spec fn file_arguments_outcome<'a>(
    initialized: Result<(), Refused>,
    options: Result<(), Refused>,
    path: Result<&'a str, Refused>,
    capacity: Result<usize, Refused>,
) -> Result<(&'a str, usize), Report> {
    if initialized is Err {
        Err(initialized->Err_0.report())
    } else if options is Err {
        Err(options->Err_0.report())
    } else if path is Err {
        Err(path->Err_0.report())
    } else if capacity is Err {
        Err(capacity->Err_0.report())
    } else {
        Ok((path->Ok_0, capacity->Ok_0))
    }
}

/// The arguments of a ring in a file, read in order.
pub fn file_arguments<'a>(
    last: &mut LastError,
    initialized: Result<(), Refused>,
    options: Result<(), Refused>,
    path: Result<&'a str, Refused>,
    capacity: Result<usize, Refused>,
) -> (read: Result<(&'a str, usize), i32>)
    ensures
        answers(
            read,
            file_arguments_outcome(initialized, options, path, capacity),
            old(last)@,
            final(last)@,
        ),
{
    if let Err(code) = given(last, initialized) {
        return Err(code);
    }
    if let Err(code) = given(last, options) {
        return Err(code);
    }
    let path: &'a str = match given(last, path) {
        Ok(path) => path,
        Err(code) => {
            return Err(code);
        },
    };
    let capacity: usize = match given(last, capacity) {
        Ok(capacity) => capacity,
        Err(code) => {
            return Err(code);
        },
    };
    Ok((path, capacity))
}

/// What [`shm_arguments`] answers.
pub open spec fn shm_arguments_outcome<'a>(
    initialized: Result<(), Refused>,
    options: Result<(), Refused>,
    name: Result<&'a str, Refused>,
    namespace: Result<u32, Refused>,
    capacity: Result<usize, Refused>,
    sddl: Result<(), Refused>,
) -> Result<(&'a str, u32, usize), Report> {
    if initialized is Err {
        Err(initialized->Err_0.report())
    } else if options is Err {
        Err(options->Err_0.report())
    } else if name is Err {
        Err(name->Err_0.report())
    } else if namespace is Err {
        Err(namespace->Err_0.report())
    } else if capacity is Err {
        Err(capacity->Err_0.report())
    } else if sddl is Err {
        Err(sddl->Err_0.report())
    } else {
        Ok((name->Ok_0, namespace->Ok_0, capacity->Ok_0))
    }
}

/// The arguments of a ring in named shared memory, read in order: the name,
/// its namespace, the capacity, and the descriptor.
pub fn shm_arguments<'a>(
    last: &mut LastError,
    initialized: Result<(), Refused>,
    options: Result<(), Refused>,
    name: Result<&'a str, Refused>,
    namespace: Result<u32, Refused>,
    capacity: Result<usize, Refused>,
    sddl: Result<(), Refused>,
) -> (read: Result<(&'a str, u32, usize), i32>)
    ensures
        answers(
            read,
            shm_arguments_outcome(initialized, options, name, namespace, capacity, sddl),
            old(last)@,
            final(last)@,
        ),
{
    if let Err(code) = given(last, initialized) {
        return Err(code);
    }
    if let Err(code) = given(last, options) {
        return Err(code);
    }
    let name: &'a str = match given(last, name) {
        Ok(name) => name,
        Err(code) => {
            return Err(code);
        },
    };
    let namespace: u32 = match given(last, namespace) {
        Ok(namespace) => namespace,
        Err(code) => {
            return Err(code);
        },
    };
    let capacity: usize = match given(last, capacity) {
        Ok(capacity) => capacity,
        Err(code) => {
            return Err(code);
        },
    };
    if let Err(code) = given(last, sddl) {
        return Err(code);
    }
    Ok((name, namespace, capacity))
}

/// Somewhere to read a whole slot into.
pub fn read_at_arguments(
    last: &mut LastError,
    out_null: bool,
    cap: usize,
) -> (answer: Result<(), i32>)
    ensures
        answers(
            answer,
            if out_null {
                Err(invalid_argument("out is null"@))
            } else if cap < SUBETHA_PUBSUB_PAYLOAD_BYTES {
                Err(told(SUBETHA_E_BUFFER_TOO_SMALL, dec(SUBETHA_PUBSUB_PAYLOAD_BYTES as nat) + " bytes needed, "@ + dec(cap as nat) + " given"@))
            } else {
                Ok(())
            },
            old(last)@,
            final(last)@,
        ),
{
    if out_null {
        return Err(fail(last, SUBETHA_E_INVALID_ARGUMENT, "out is null"));
    }
    if cap < SUBETHA_PUBSUB_PAYLOAD_BYTES {
        let mut text: String = String::new();
        push_dec(&mut text, SUBETHA_PUBSUB_PAYLOAD_BYTES as u64);
        text.append(" bytes needed, ");
        push_dec(&mut text, cap as u64);
        text.append(" given");
        return Err(fail(last, SUBETHA_E_BUFFER_TOO_SMALL, text.as_str()));
    }
    Ok(())
}

/// What a read at an absolute position answers.
pub fn subetha_pubsub_read_at(last: &mut LastError, position: u64, read: Result<(), PubSubReadError>) -> (answer: Result<
    (),
    i32,
>)
    ensures
        answers(
            answer,
            match read {
                Ok(()) => Ok(()),
                Err(PubSubReadError::Pending) => Err(bare(SUBETHA_E_PUBSUB_PENDING)),
                Err(PubSubReadError::Lost) => Err(
                    told(
                        SUBETHA_E_PUBSUB_LOST,
                        "position "@ + dec(position as nat) + " was overwritten"@,
                    ),
                ),
            },
            old(last)@,
            final(last)@,
        ),
{
    match read {
        Ok(()) => Ok(()),
        Err(PubSubReadError::Pending) => Err(SUBETHA_E_PUBSUB_PENDING),
        Err(PubSubReadError::Lost) => {
            let mut text: String = String::from_str("position ");
            push_dec(&mut text, position);
            text.append(" was overwritten");
            Err(fail(last, SUBETHA_E_PUBSUB_LOST, text.as_str()))
        },
    }
}

/// Make a subscriber whose position is kept in the handle: the mode, then
/// somewhere to write the handle.
pub fn subetha_pubsub_subscribe(last: &mut LastError, position: u64, mode: Result<u32, Refused>, out_null: bool)
    -> (subscriber: Result<SubscriberObject, i32>)
    ensures
        if mode is Err {
            answers(subscriber, Err(mode->Err_0.report()), old(last)@, final(last)@)
        } else if out_null {
            answers(subscriber, Err(invalid_argument("out is null"@)), old(last)@, final(last)@)
        } else {
            &&& subscriber matches Ok(made) && made.at() == position && made.mode_number() == mode->Ok_0
            &&& final(last)@ == old(last)@
        },
{
    let mode: u32 = match given(last, mode) {
        Ok(mode) => mode,
        Err(code) => {
            return Err(code);
        },
    };
    match refuse_if(last, out_null, "out is null") {
        Ok(()) => Ok(SubscriberObject::new(position, mode)),
        Err(code) => Err(code),
    }
}

/// The arguments of a subscriber whose position is kept in a file, read in
/// order before the file is touched.
pub fn subscribe_file_arguments<'a>(
    last: &mut LastError,
    position_path: Result<&'a str, Refused>,
    mode: Result<u32, Refused>,
) -> (read: Result<(&'a str, u32), i32>)
    ensures
        answers(
            read,
            if position_path is Err {
                Err(position_path->Err_0.report())
            } else if mode is Err {
                Err(mode->Err_0.report())
            } else {
                Ok((position_path->Ok_0, mode->Ok_0))
            },
            old(last)@,
            final(last)@,
        ),
{
    let path: &'a str = match given(last, position_path) {
        Ok(path) => path,
        Err(code) => {
            return Err(code);
        },
    };
    match given(last, mode) {
        Ok(mode) => Ok((path, mode)),
        Err(code) => Err(code),
    }
}

/// Make a subscriber that resumes at the position its file holds: the file,
/// then somewhere to write the handle.
pub fn subetha_pubsub_subscribe_file(
    last: &mut LastError,
    position: Result<u64, IoFailure>,
    mode: u32,
    out_null: bool,
) -> (subscriber: Result<SubscriberObject, i32>)
    ensures
        match position {
            Err(e) => answers(subscriber, Err(io_code_report(e)), old(last)@, final(last)@),
            Ok(at) => if out_null {
                answers(subscriber, Err(invalid_argument("out is null"@)), old(last)@, final(last)@)
            } else {
                &&& subscriber matches Ok(made) && made.at() == at && made.mode_number() == mode
                &&& final(last)@ == old(last)@
            },
        },
{
    match position {
        Err(e) => Err(io_code(last, e)),
        Ok(at) => match refuse_if(last, out_null, "out is null") {
            Ok(()) => Ok(SubscriberObject::new(at, mode)),
            Err(code) => Err(code),
        },
    }
}

/// What an unlink removes: the ring's file and its waker's.
pub fn subetha_pubsub_unlink(path: &str) -> (names: (String, String))
    ensures
        names.0@ == path@,
        names.1@ == path@ + ".cwaker.bin"@,
{
    let mut waker: String = String::from_str(path);
    waker.append(".cwaker.bin");
    (String::from_str(path), waker)
}

/// A snapshot, from what the ring says.
pub fn stats(
    mode: u32,
    capacity: usize,
    head: u64,
) -> (stats: subetha_pubsub_stats)
    ensures
        stats == (subetha_pubsub_stats {
            mode,
            capacity: capacity as u64,
            head,
        }),
{
    subetha_pubsub_stats {
        mode,
        capacity: capacity as u64,
        head,
    }
}

/// A call on a pub/sub ring reaches what stands behind a handle to a pub/sub
/// ring, and nothing behind any other handle.
pub proof fn only_a_pubsub_ring_is_reached<P>(last: &mut LastError, object: &Object<P>, reached: Result<&P, i32>)
    requires
        call_ensures(with_pubsub::<P>, (last, object), reached),
    ensures
        reached is Ok <==> *object is PubSub,
        reached matches Ok(payload) ==> *object == Object::PubSub(*payload) && final(last)@ == old(last)@,
        reached matches Err(code) ==> code == SUBETHA_E_WRONG_KIND
            && final(last)@ == "the handle does not name a pub/sub ring"@,
{
}

/// A call on a subscriber reaches what stands behind a handle to a subscriber,
/// and nothing behind any other handle.
pub proof fn only_a_subscriber_is_reached<P>(last: &mut LastError, object: &Object<P>, reached: Result<&P, i32>)
    requires
        call_ensures(with_subscriber::<P>, (last, object), reached),
    ensures
        reached is Ok <==> *object is Subscriber,
        reached matches Ok(payload) ==> *object == Object::Subscriber(*payload) && final(last)@ == old(last)@,
        reached matches Err(code) ==> code == SUBETHA_E_WRONG_KIND
            && final(last)@ == "the handle does not name a subscriber"@,
{
}

/// A snapshot reports each thing it was handed under that thing's own name.
pub proof fn a_snapshot_reports_each_thing_as_it_is(
    mode: u32,
    capacity: usize,
    head: u64,
    shown: subetha_pubsub_stats,
)
    requires
        call_ensures(stats, (mode, capacity, head), shown),
    ensures
        shown.mode == mode,
        shown.capacity == capacity as u64,
        shown.head == head,
{
}

/// Removing a ring removes its own file and its waker's.
pub proof fn a_pubsub_ring_leaves_two_files(path: &str, names: (String, String))
    requires
        call_ensures(subetha_pubsub_unlink, (path,), names),
    ensures
        names.0@ == path@,
        names.1@ == path@ + ".cwaker.bin"@,
{
}

/// The arguments are accepted exactly when nothing is wrong with any of them,
/// and then handed on unchanged; the first one at fault is the one answered
/// for.
pub proof fn a_ring_in_memory_is_made_with_arguments_that_are_right(
    last: &mut LastError,
    initialized: Result<(), Refused>,
    options: Result<(), Refused>,
    capacity: Result<usize, Refused>,
    read: Result<usize, i32>,
)
    requires
        call_ensures(anon_arguments, (last, initialized, options, capacity), read),
    ensures
        read is Ok <==> initialized is Ok && options is Ok && capacity is Ok,
        read matches Ok(all) ==> all == capacity->Ok_0 && final(last)@ == old(last)@,
        initialized is Err ==> read is Err && read->Err_0 == initialized->Err_0.code
            && final(last)@ == initialized->Err_0.report().leaves(old(last)@),
        initialized is Ok && options is Err ==> read is Err && read->Err_0 == options->Err_0.code
            && final(last)@ == options->Err_0.report().leaves(old(last)@),
        initialized is Ok && options is Ok && capacity is Err ==> read is Err
            && read->Err_0 == capacity->Err_0.code && final(last)@ == capacity->Err_0.report().leaves(old(last)@),
{
}

/// The arguments are accepted exactly when nothing is wrong with any of them,
/// and then handed on unchanged; the first one at fault is the one answered
/// for.
pub proof fn a_ring_in_a_file_is_made_with_arguments_that_are_right<'a>(
    last: &mut LastError,
    initialized: Result<(), Refused>,
    options: Result<(), Refused>,
    path: Result<&'a str, Refused>,
    capacity: Result<usize, Refused>,
    read: Result<(&'a str, usize), i32>,
)
    requires
        call_ensures(file_arguments, (last, initialized, options, path, capacity), read),
    ensures
        read is Ok <==> initialized is Ok && options is Ok && path is Ok && capacity is Ok,
        read matches Ok(all) ==> all.0 == path->Ok_0 && all.1 == capacity->Ok_0 && final(last)@ == old(last)@,
        initialized is Err ==> read is Err && read->Err_0 == initialized->Err_0.code
            && final(last)@ == initialized->Err_0.report().leaves(old(last)@),
        initialized is Ok && options is Err ==> read is Err && read->Err_0 == options->Err_0.code
            && final(last)@ == options->Err_0.report().leaves(old(last)@),
        initialized is Ok && options is Ok && path is Err ==> read is Err && read->Err_0 == path->Err_0.code
            && final(last)@ == path->Err_0.report().leaves(old(last)@),
        initialized is Ok && options is Ok && path is Ok && capacity is Err ==> read is Err
            && read->Err_0 == capacity->Err_0.code && final(last)@ == capacity->Err_0.report().leaves(old(last)@),
{
}

/// The arguments are accepted exactly when nothing is wrong with any of them,
/// and then handed on unchanged; the first one at fault is the one answered
/// for.
pub proof fn a_ring_in_shared_memory_is_made_with_arguments_that_are_right<'a>(
    last: &mut LastError,
    initialized: Result<(), Refused>,
    options: Result<(), Refused>,
    name: Result<&'a str, Refused>,
    namespace: Result<u32, Refused>,
    capacity: Result<usize, Refused>,
    sddl: Result<(), Refused>,
    read: Result<(&'a str, u32, usize), i32>,
)
    requires
        call_ensures(shm_arguments, (last, initialized, options, name, namespace, capacity, sddl), read),
    ensures
        read is Ok <==> initialized is Ok && options is Ok && name is Ok && namespace is Ok && capacity is Ok
            && sddl is Ok,
        read matches Ok(all) ==> all.0 == name->Ok_0 && all.1 == namespace->Ok_0 && all.2 == capacity->Ok_0
            && final(last)@ == old(last)@,
        initialized is Err ==> read is Err && read->Err_0 == initialized->Err_0.code
            && final(last)@ == initialized->Err_0.report().leaves(old(last)@),
        initialized is Ok && options is Err ==> read is Err && read->Err_0 == options->Err_0.code
            && final(last)@ == options->Err_0.report().leaves(old(last)@),
        initialized is Ok && options is Ok && name is Err ==> read is Err && read->Err_0 == name->Err_0.code
            && final(last)@ == name->Err_0.report().leaves(old(last)@),
        initialized is Ok && options is Ok && name is Ok && namespace is Err ==> read is Err
            && read->Err_0 == namespace->Err_0.code && final(last)@ == namespace->Err_0.report().leaves(old(last)@),
        initialized is Ok && options is Ok && name is Ok && namespace is Ok && capacity is Err ==> read is Err
            && read->Err_0 == capacity->Err_0.code && final(last)@ == capacity->Err_0.report().leaves(old(last)@),
        initialized is Ok && options is Ok && name is Ok && namespace is Ok && capacity is Ok && sddl is Err
            ==> read is Err && read->Err_0 == sddl->Err_0.code
            && final(last)@ == sddl->Err_0.report().leaves(old(last)@),
{
}

/// A position is read into any buffer of fifty-six bytes or more; a shorter
/// one is too small.
pub proof fn a_read_has_room_for_a_whole_payload(
    last: &mut LastError,
    out_null: bool,
    cap: usize,
    answer: Result<(), i32>,
)
    requires
        call_ensures(read_at_arguments, (last, out_null, cap), answer),
    ensures
        answer is Ok <==> !out_null && cap >= 56,
        answer is Ok ==> final(last)@ == old(last)@,
        out_null ==> answer == Err::<(), i32>(SUBETHA_E_INVALID_ARGUMENT),
        !out_null && cap < 56 ==> answer == Err::<(), i32>(SUBETHA_E_BUFFER_TOO_SMALL),
{
}

/// A position that was read answers well, one not yet published is pending,
/// and one overwritten is lost.
pub proof fn a_read_tells_what_is_to_come_from_what_is_gone(
    last: &mut LastError,
    position: u64,
    read: Result<(), PubSubReadError>,
    answer: Result<(), i32>,
)
    requires
        call_ensures(subetha_pubsub_read_at, (last, position, read), answer),
    ensures
        answer is Ok <==> read is Ok,
        read is Ok || read->Err_0 is Pending ==> final(last)@ == old(last)@,
        read is Err && read->Err_0 is Pending ==> answer == Err::<(), i32>(SUBETHA_E_PUBSUB_PENDING),
        read is Err && read->Err_0 is Lost ==> answer == Err::<(), i32>(SUBETHA_E_PUBSUB_LOST),
{
}

/// A subscriber moves on by one past an item it read, stays where an item is
/// still to come, and stands at the head once it lost its place; its mode
/// never changes.
pub proof fn a_subscriber_moves_past_what_it_read_and_no_further(
    subscriber: &mut SubscriberObject,
    last: &mut LastError,
    read: Result<(), PubSubReadError>,
    head: u64,
    answer: Result<(), i32>,
)
    requires
        read is Ok ==> old(subscriber).at() < u64::MAX,
        call_ensures(SubscriberObject::try_next, (subscriber, last, read, head), answer),
    ensures
        answer is Ok <==> read is Ok,
        read is Ok ==> final(subscriber).at() == old(subscriber).at() + 1 && final(last)@ == old(last)@,
        read is Err && read->Err_0 is Pending ==> final(subscriber).at() == old(subscriber).at()
            && answer == Err::<(), i32>(SUBETHA_E_PUBSUB_PENDING) && final(last)@ == old(last)@,
        read is Err && read->Err_0 is Lost ==> final(subscriber).at() == head
            && answer == Err::<(), i32>(SUBETHA_E_PUBSUB_LOST),
        final(subscriber).mode_number() == old(subscriber).mode_number(),
{
}

/// A subscriber stands where it was made, skips as far as it is told, and
/// stands where it is set.
pub proof fn a_subscriber_stands_where_it_was_put(
    at: u64,
    mode: u32,
    made: SubscriberObject,
    shown: u64,
    shown_mode: u32,
)
    requires
        call_ensures(SubscriberObject::new, (at, mode), made),
        call_ensures(SubscriberObject::position, (&made,), shown),
        call_ensures(SubscriberObject::mode, (&made,), shown_mode),
    ensures
        shown == at,
        shown_mode == mode,
{
}

/// A skip moves a subscriber on by as much as it is told and says where it
/// stands then; a set puts it where it is told. Neither changes its mode.
pub proof fn a_skip_and_a_set_move_a_subscriber(
    skipping: &mut SubscriberObject,
    by: u64,
    at: u64,
    setting: &mut SubscriberObject,
    to: u64,
    done: (),
)
    requires
        old(skipping).at() + by <= u64::MAX,
        call_ensures(SubscriberObject::skip, (skipping, by), at),
        call_ensures(SubscriberObject::set_position, (setting, to), done),
    ensures
        at == old(skipping).at() + by,
        final(skipping).at() == at,
        final(skipping).mode_number() == old(skipping).mode_number(),
        final(setting).at() == to,
        final(setting).mode_number() == old(setting).mode_number(),
{
}

/// A subscriber is made exactly when its mode was read and there is a place
/// for its handle, and stands where it was asked to.
pub proof fn a_subscriber_starts_where_it_was_asked_to(
    last: &mut LastError,
    position: u64,
    mode: Result<u32, Refused>,
    out_null: bool,
    subscriber: Result<SubscriberObject, i32>,
)
    requires
        call_ensures(subetha_pubsub_subscribe, (last, position, mode, out_null), subscriber),
    ensures
        subscriber is Ok <==> mode is Ok && !out_null,
        subscriber matches Ok(made) ==> made.at() == position && made.mode_number() == mode->Ok_0
            && final(last)@ == old(last)@,
        mode is Err ==> subscriber is Err && subscriber->Err_0 == mode->Err_0.code
            && final(last)@ == mode->Err_0.report().leaves(old(last)@),
        mode is Ok && out_null ==> subscriber is Err && subscriber->Err_0 == SUBETHA_E_INVALID_ARGUMENT,
{
}

/// The arguments are accepted exactly when nothing is wrong with any of them,
/// and then handed on unchanged; the first one at fault is the one answered
/// for.
pub proof fn a_subscriber_in_a_file_is_made_with_arguments_that_are_right<'a>(
    last: &mut LastError,
    position_path: Result<&'a str, Refused>,
    mode: Result<u32, Refused>,
    read: Result<(&'a str, u32), i32>,
)
    requires
        call_ensures(subscribe_file_arguments, (last, position_path, mode), read),
    ensures
        read is Ok <==> position_path is Ok && mode is Ok,
        read matches Ok(all) ==> all.0 == position_path->Ok_0 && all.1 == mode->Ok_0 && final(last)@ == old(last)@,
        position_path is Err ==> read is Err && read->Err_0 == position_path->Err_0.code
            && final(last)@ == position_path->Err_0.report().leaves(old(last)@),
        position_path is Ok && mode is Err ==> read is Err && read->Err_0 == mode->Err_0.code
            && final(last)@ == mode->Err_0.report().leaves(old(last)@),
{
}

/// A subscriber in a file is made exactly when the file opened and there is a
/// place for its handle, and stands where the file says.
pub proof fn a_subscriber_in_a_file_starts_where_the_file_says(
    last: &mut LastError,
    other: &mut LastError,
    position: Result<u64, IoFailure>,
    mode: u32,
    out_null: bool,
    subscriber: Result<SubscriberObject, i32>,
    code: i32,
)
    requires
        call_ensures(subetha_pubsub_subscribe_file, (last, position, mode, out_null), subscriber),
        position matches Err(e) ==> call_ensures(io_code, (other, e), code),
        old(last)@ == old(other)@,
    ensures
        subscriber is Ok <==> position is Ok && !out_null,
        subscriber matches Ok(made) ==> made.at() == position->Ok_0 && made.mode_number() == mode
            && final(last)@ == old(last)@,
        position is Err ==> subscriber is Err && subscriber->Err_0 == code && final(last)@ == final(other)@,
        position is Ok && out_null ==> subscriber is Err && subscriber->Err_0 == SUBETHA_E_INVALID_ARGUMENT,
{
}

/// A ring that opened is placed as one, under the mode it was given, once its
/// waker is there; an open that failed is answered exactly as its error is.
pub proof fn a_ring_that_opened_is_placed_as_one<P>(
    last: &mut LastError,
    other: &mut LastError,
    ring: Result<P, IoFailure>,
    mode: Result<u32, Refused>,
    waker: Result<(), Refused>,
    object: Result<(Object<P>, u32), i32>,
    code: i32,
)
    requires
        call_ensures(place::<P>, (last, ring, mode, waker), object),
        ring matches Err(e) ==> call_ensures(io_code, (other, e), code),
        old(last)@ == old(other)@,
    ensures
        object is Ok <==> ring is Ok && mode is Ok && waker is Ok,
        object matches Ok(placed) ==> placed.0 == Object::PubSub(ring->Ok_0) && placed.1 == mode->Ok_0
            && final(last)@ == old(last)@,
        ring is Err ==> object is Err && object->Err_0 == code && final(last)@ == final(other)@,
        ring is Ok && mode is Err ==> object is Err && object->Err_0 == mode->Err_0.code
            && final(last)@ == mode->Err_0.report().leaves(old(last)@),
        ring is Ok && mode is Ok && waker is Err ==> object is Err && object->Err_0 == waker->Err_0.code
            && final(last)@ == waker->Err_0.report().leaves(old(last)@),
{
}

/// The numbers callers give and are given, as they were built against them.
pub proof fn the_numbers_are_the_ones_callers_know()
    ensures
        SUBETHA_PUBSUB_PAYLOAD_BYTES == 56,
{
}

/// A position is where it was put, moves on by what it is told and is then
/// where it says.
pub proof fn a_position_is_where_it_was_put(
    at: u64,
    made: Position,
    read: u64,
    moving: &mut Position,
    by: u64,
    now: u64,
    setting: &mut Position,
    to: u64,
    done: (),
)
    requires
        call_ensures(Position::new, (at,), made),
        call_ensures(Position::get, (&made,), read),
        old(moving)@ + by <= u64::MAX,
        call_ensures(Position::advance, (moving, by), now),
        call_ensures(Position::set, (setting, to), done),
    ensures
        read == at,
        now == old(moving)@ + by && final(moving)@ == now,
        final(setting)@ == to,
{
}

/// A refusal says what was given and what it should have been.
pub proof fn a_buffer_at_fault_is_told(last: &mut LastError, out_null: bool, cap: usize, answer: Result<(), i32>)
    requires
        call_ensures(read_at_arguments, (last, out_null, cap), answer),
    ensures
        out_null ==> final(last)@ == "out is null"@,
        !out_null && cap < 56 ==> final(last)@ == dec(56) + " bytes needed, "@ + dec(cap as nat) + " given"@,
{
}

/// A refusal says what was given and what it should have been.
pub proof fn a_lost_position_is_told(last: &mut LastError, position: u64, answer: Result<(), i32>)
    requires
        call_ensures(subetha_pubsub_read_at, (last, position, Err(PubSubReadError::Lost)), answer),
    ensures
        final(last)@ == "position "@ + dec(position as nat) + " was overwritten"@,
{
}

/// A subscriber that lost its place is told which it was and where it stands
/// now.
pub proof fn a_subscriber_that_lost_its_place_is_told_which(
    subscriber: &mut SubscriberObject,
    last: &mut LastError,
    head: u64,
    answer: Result<(), i32>,
)
    requires
        call_ensures(SubscriberObject::try_next, (subscriber, last, Err(PubSubReadError::Lost), head), answer),
    ensures
        final(last)@ == "position "@ + dec(old(subscriber).at() as nat)
            + " was overwritten; the subscriber now stands at the head"@,
{
}

} // verus!
