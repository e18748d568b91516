//! Quality-of-service policy: what a workload needs, held where a sidecar
//! reads it on every scan and a caller changes it while traffic runs.
//!
//! Each field is set on its own. There is deliberately no call that writes the
//! whole policy at once: a caller that needs several fields to land together
//! sets them in the order that leaves every intermediate state safe to act on.

use vstd::prelude::*;

use crate::arguments::{given, invalid_argument, refuse_if};
use crate::error::{
    answers, fail, told, LastError, Refused, Report, SUBETHA_E_INVALID_ARGUMENT,
    SUBETHA_E_WRONG_KIND,
};
use crate::handle::Object;
use crate::locale::{locale_constant, locale_number, RingLocale};
use crate::text::{dec, push_dec};

verus! {

/// In-process memory; the bytes go when the process does.
pub const SUBETHA_QOS_VOLATILE: u32 = 0;

/// Named shared memory; outlives the producer while a holder keeps it.
pub const SUBETHA_QOS_TRANSIENT: u32 = 1;

/// File-backed; the bytes reach the page cache and can be flushed.
pub const SUBETHA_QOS_PERSISTENT: u32 = 2;

/// Loss is acceptable.
pub const SUBETHA_QOS_BEST_EFFORT: u32 = 0;

/// Loss is not.
pub const SUBETHA_QOS_RELIABLE: u32 = 1;

/// Keep the last `history_depth` items.
pub const SUBETHA_QOS_KEEP_LAST: u32 = 0;

/// Keep everything, so `history_depth` says nothing.
pub const SUBETHA_QOS_KEEP_ALL: u32 = 1;

/// Each producer's items stay in its own order; producers do not order
/// against each other.
pub const SUBETHA_QOS_PER_PRODUCER: u32 = 0;

/// One order across every producer.
pub const SUBETHA_QOS_GLOBAL_FIFO: u32 = 1;

/// The streaming preset: volatile, best-effort, last 1024, 100 ms.
pub const SUBETHA_QOS_PRESET_STREAMING: u32 = 0;

/// The reliable publish-subscribe preset.
pub const SUBETHA_QOS_PRESET_RELIABLE_PUBSUB: u32 = 1;

/// The persistent log preset.
pub const SUBETHA_QOS_PRESET_PERSISTENT_LOG: u32 = 2;

/// A policy read in one call.
#[allow(non_camel_case_types)]
#[derive(Clone, Copy, Default, Debug, PartialEq, Eq, Structural)]
pub struct subetha_qos {
    /// One of `SUBETHA_QOS_VOLATILE`, `_TRANSIENT`, `_PERSISTENT`.
    pub durability: u32,
    /// One of `SUBETHA_QOS_BEST_EFFORT`, `_RELIABLE`.
    pub reliability: u32,
    /// One of `SUBETHA_QOS_KEEP_LAST`, `_KEEP_ALL`.
    pub history_kind: u32,
    /// How many items to keep, when `history_kind` is
    /// `SUBETHA_QOS_KEEP_LAST`. Zero and meaningless otherwise.
    pub history_depth: u32,
    /// The latency budget in nanoseconds.
    pub max_latency_nanos: u64,
    /// One of `SUBETHA_QOS_PER_PRODUCER`, `_GLOBAL_FIFO`.
    pub ordering: u32,
}

/// Where the items are kept.
#[derive(Clone, Copy, Debug, PartialEq, Eq, Structural)]
pub enum Durability {
    /// In the memory of one process.
    Volatile,
    /// In named shared memory.
    Transient,
    /// In a file.
    Persistent,
}

/// Whether loss is acceptable.
#[derive(Clone, Copy, Debug, PartialEq, Eq, Structural)]
pub enum Reliability {
    /// It is.
    BestEffort,
    /// It is not.
    Reliable,
}

/// How many items are kept.
#[derive(Clone, Copy, Debug, PartialEq, Eq, Structural)]
pub enum History {
    /// Every one.
    KeepAll,
    /// The last so many.
    KeepLastN(u32),
}

/// Which items keep their order.
#[derive(Clone, Copy, Debug, PartialEq, Eq, Structural)]
pub enum QosOrdering {
    /// Each producer's.
    PerProducer,
    /// All of them.
    GlobalFifo,
}

/// A policy the library makes by itself.
#[derive(Clone, Copy, Debug, PartialEq, Eq, Structural)]
pub enum Preset {
    /// Volatile and best-effort.
    Streaming,
    /// Publish and subscribe without loss.
    ReliablePubSub,
    /// A log in a file.
    PersistentLog,
}

/// What a workload needs.
#[derive(Clone, Copy, Debug, PartialEq, Eq, Structural)]
pub struct QosPolicy {
    /// Where the items are kept.
    pub durability: Durability,
    /// Whether loss is acceptable.
    pub reliability: Reliability,
    /// How many items are kept.
    pub history: History,
    /// The latency budget in nanoseconds.
    pub max_latency_nanos: u128,
    /// Which items keep their order.
    pub ordering: QosOrdering,
}

/// The payload behind a policy's handle.
pub fn with_policy<'a, P>(last: &mut LastError, object: &'a Object<P>) -> (payload: Result<&'a P, i32>)
    ensures
        answers(
            payload,
            match *object {
                Object::QosPolicy(p) => Ok(&p),
                _ => Err(told(SUBETHA_E_WRONG_KIND, "the handle does not name a quality-of-service policy"@)),
            },
            old(last)@,
            final(last)@,
        ),
{
    match object {
        Object::QosPolicy(p) => Ok(p),
        _ => Err(fail(last, SUBETHA_E_WRONG_KIND, "the handle does not name a quality-of-service policy")),
    }
}

/// The durability a number stands for, if it stands for one.
pub open spec fn durability_of_outcome(tag: u32) -> Result<Durability, Report> {
    if tag == SUBETHA_QOS_VOLATILE {
        Ok(Durability::Volatile)
    } else if tag == SUBETHA_QOS_TRANSIENT {
        Ok(Durability::Transient)
    } else if tag == SUBETHA_QOS_PERSISTENT {
        Ok(Durability::Persistent)
    } else {
        Err(invalid_argument("durability "@ + dec(tag as nat) + " names none"@))
    }
}

/// The durability a number stands for.
pub fn durability_of(last: &mut LastError, tag: u32) -> (named: Result<Durability, i32>)
    ensures
        answers(named, durability_of_outcome(tag), old(last)@, final(last)@),
{
    match tag {
        SUBETHA_QOS_VOLATILE => Ok(Durability::Volatile),
        SUBETHA_QOS_TRANSIENT => Ok(Durability::Transient),
        SUBETHA_QOS_PERSISTENT => Ok(Durability::Persistent),
        other => {
            let mut text: String = String::from_str("durability ");
            push_dec(&mut text, other as u64);
            text.append(" names none");
            Err(fail(last, SUBETHA_E_INVALID_ARGUMENT, text.as_str()))
        },
    }
}

/// The reliability a number stands for, if it stands for one.
pub open spec fn reliability_of_outcome(tag: u32) -> Result<Reliability, Report> {
    if tag == SUBETHA_QOS_BEST_EFFORT {
        Ok(Reliability::BestEffort)
    } else if tag == SUBETHA_QOS_RELIABLE {
        Ok(Reliability::Reliable)
    } else {
        Err(invalid_argument("reliability "@ + dec(tag as nat) + " names none"@))
    }
}

/// The reliability a number stands for.
pub fn reliability_of(last: &mut LastError, tag: u32) -> (named: Result<Reliability, i32>)
    ensures
        answers(named, reliability_of_outcome(tag), old(last)@, final(last)@),
{
    match tag {
        SUBETHA_QOS_BEST_EFFORT => Ok(Reliability::BestEffort),
        SUBETHA_QOS_RELIABLE => Ok(Reliability::Reliable),
        other => {
            let mut text: String = String::from_str("reliability ");
            push_dec(&mut text, other as u64);
            text.append(" names none");
            Err(fail(last, SUBETHA_E_INVALID_ARGUMENT, text.as_str()))
        },
    }
}

/// The ordering a number stands for, if it stands for one.
pub open spec fn ordering_of_outcome(tag: u32) -> Result<QosOrdering, Report> {
    if tag == SUBETHA_QOS_PER_PRODUCER {
        Ok(QosOrdering::PerProducer)
    } else if tag == SUBETHA_QOS_GLOBAL_FIFO {
        Ok(QosOrdering::GlobalFifo)
    } else {
        Err(invalid_argument("ordering "@ + dec(tag as nat) + " names none"@))
    }
}

/// The ordering a number stands for.
pub fn ordering_of(last: &mut LastError, tag: u32) -> (named: Result<QosOrdering, i32>)
    ensures
        answers(named, ordering_of_outcome(tag), old(last)@, final(last)@),
{
    match tag {
        SUBETHA_QOS_PER_PRODUCER => Ok(QosOrdering::PerProducer),
        SUBETHA_QOS_GLOBAL_FIFO => Ok(QosOrdering::GlobalFifo),
        other => {
            let mut text: String = String::from_str("ordering ");
            push_dec(&mut text, other as u64);
            text.append(" names none");
            Err(fail(last, SUBETHA_E_INVALID_ARGUMENT, text.as_str()))
        },
    }
}

/// The preset a number stands for, if it stands for one.
pub open spec fn preset_of_outcome(tag: u32) -> Result<Preset, Report> {
    if tag == SUBETHA_QOS_PRESET_STREAMING {
        Ok(Preset::Streaming)
    } else if tag == SUBETHA_QOS_PRESET_RELIABLE_PUBSUB {
        Ok(Preset::ReliablePubSub)
    } else if tag == SUBETHA_QOS_PRESET_PERSISTENT_LOG {
        Ok(Preset::PersistentLog)
    } else {
        Err(invalid_argument("preset "@ + dec(tag as nat) + " names none"@))
    }
}

/// The preset a number stands for.
pub fn preset_of(last: &mut LastError, tag: u32) -> (named: Result<Preset, i32>)
    ensures
        answers(named, preset_of_outcome(tag), old(last)@, final(last)@),
{
    match tag {
        SUBETHA_QOS_PRESET_STREAMING => Ok(Preset::Streaming),
        SUBETHA_QOS_PRESET_RELIABLE_PUBSUB => Ok(Preset::ReliablePubSub),
        SUBETHA_QOS_PRESET_PERSISTENT_LOG => Ok(Preset::PersistentLog),
        other => {
            let mut text: String = String::from_str("preset ");
            push_dec(&mut text, other as u64);
            text.append(" names none");
            Err(fail(last, SUBETHA_E_INVALID_ARGUMENT, text.as_str()))
        },
    }
}

/// The history a kind and a depth stand for, if they stand for one.
pub open spec fn history_of_outcome(kind: u32, depth: u32) -> Result<History, Report> {
    if kind == SUBETHA_QOS_KEEP_ALL {
        Ok(History::KeepAll)
    } else if kind == SUBETHA_QOS_KEEP_LAST && depth == 0 {
        Err(invalid_argument("keeping the last zero items keeps nothing; ask for keep-all or a depth"@))
    } else if kind == SUBETHA_QOS_KEEP_LAST {
        Ok(History::KeepLastN(depth))
    } else {
        Err(invalid_argument("history kind "@ + dec(kind as nat) + " names none"@))
    }
}

/// The history a kind and a depth stand for. The depth is read only for
/// `SUBETHA_QOS_KEEP_LAST`, and a depth of zero there is refused rather than
/// kept as a policy that keeps nothing.
pub fn history_of(last: &mut LastError, kind: u32, depth: u32) -> (named: Result<History, i32>)
    ensures
        answers(named, history_of_outcome(kind, depth), old(last)@, final(last)@),
{
    match kind {
        SUBETHA_QOS_KEEP_ALL => Ok(History::KeepAll),
        SUBETHA_QOS_KEEP_LAST => {
            if depth == 0 {
                return Err(
                    fail(
                        last,
                        SUBETHA_E_INVALID_ARGUMENT,
                        "keeping the last zero items keeps nothing; ask for keep-all or a depth",
                    ),
                );
            }
            Ok(History::KeepLastN(depth))
        },
        other => {
            let mut text: String = String::from_str("history kind ");
            push_dec(&mut text, other as u64);
            text.append(" names none");
            Err(fail(last, SUBETHA_E_INVALID_ARGUMENT, text.as_str()))
        },
    }
}

/// What a policy of the fields in `want` answers: every field validated, in
/// order, before anything is built.
pub open spec fn policy_outcome(want: subetha_qos) -> Result<QosPolicy, Report> {
    if durability_of_outcome(want.durability) is Err {
        Err(durability_of_outcome(want.durability)->Err_0)
    } else if reliability_of_outcome(want.reliability) is Err {
        Err(reliability_of_outcome(want.reliability)->Err_0)
    } else if history_of_outcome(want.history_kind, want.history_depth) is Err {
        Err(history_of_outcome(want.history_kind, want.history_depth)->Err_0)
    } else if ordering_of_outcome(want.ordering) is Err {
        Err(ordering_of_outcome(want.ordering)->Err_0)
    } else {
        Ok(
            QosPolicy {
                durability: durability_of_outcome(want.durability)->Ok_0,
                reliability: reliability_of_outcome(want.reliability)->Ok_0,
                history: history_of_outcome(want.history_kind, want.history_depth)->Ok_0,
                max_latency_nanos: want.max_latency_nanos as u128,
                ordering: ordering_of_outcome(want.ordering)->Ok_0,
            },
        )
    }
}

/// The preset a caller asks a policy of, and the mode, read in order.
pub fn subetha_qos_create_preset(
    last: &mut LastError,
    initialized: Result<(), Refused>,
    out_null: bool,
    mode: Result<u32, Refused>,
    preset: u32,
) -> (answer: Result<(Preset, u32), i32>)
    ensures
        answers(
            answer,
            if initialized is Err {
                Err(initialized->Err_0.report())
            } else if out_null {
                Err(invalid_argument("out is null"@))
            } else if mode is Err {
                Err(mode->Err_0.report())
            } else if preset_of_outcome(preset) is Err {
                Err(preset_of_outcome(preset)->Err_0)
            } else {
                Ok((preset_of_outcome(preset)->Ok_0, mode->Ok_0))
            },
            old(last)@,
            final(last)@,
        ),
{
    if let Err(code) = given(last, initialized) {
        return Err(code);
    }
    if out_null {
        return Err(fail(last, SUBETHA_E_INVALID_ARGUMENT, "out is null"));
    }
    let mode: u32 = match given(last, mode) {
        Ok(mode) => mode,
        Err(code) => {
            return Err(code);
        },
    };
    let named: Preset = match preset_of(last, preset) {
        Ok(named) => named,
        Err(code) => {
            return Err(code);
        },
    };
    Ok((named, mode))
}

/// A policy made from every field at once, and its mode. Every field is
/// validated before anything is built, so a refusal leaves no policy.
/// `initial` is absent where the caller gave none.
pub fn subetha_qos_create(
    last: &mut LastError,
    initialized: Result<(), Refused>,
    out_null: bool,
    initial: Option<subetha_qos>,
    mode: Result<u32, Refused>,
) -> (policy: Result<(QosPolicy, u32), i32>)
    ensures
        answers(
            policy,
            if initialized is Err {
                Err(initialized->Err_0.report())
            } else if out_null || initial is None {
                Err(invalid_argument("initial or out is null"@))
            } else if mode is Err {
                Err(mode->Err_0.report())
            } else {
                match policy_outcome(initial->Some_0) {
                    Ok(made) => Ok((made, mode->Ok_0)),
                    Err(report) => Err(report),
                }
            },
            old(last)@,
            final(last)@,
        ),
{
    if let Err(code) = given(last, initialized) {
        return Err(code);
    }
    if out_null {
        return Err(fail(last, SUBETHA_E_INVALID_ARGUMENT, "initial or out is null"));
    }
    let want: subetha_qos = match initial {
        Some(want) => want,
        None => {
            return Err(fail(last, SUBETHA_E_INVALID_ARGUMENT, "initial or out is null"));
        },
    };
    let mode: u32 = match given(last, mode) {
        Ok(mode) => mode,
        Err(code) => {
            return Err(code);
        },
    };
    let durability: Durability = match durability_of(last, want.durability) {
        Ok(durability) => durability,
        Err(code) => {
            return Err(code);
        },
    };
    let reliability: Reliability = match reliability_of(last, want.reliability) {
        Ok(reliability) => reliability,
        Err(code) => {
            return Err(code);
        },
    };
    let history: History = match history_of(last, want.history_kind, want.history_depth) {
        Ok(history) => history,
        Err(code) => {
            return Err(code);
        },
    };
    let ordering: QosOrdering = match ordering_of(last, want.ordering) {
        Ok(ordering) => ordering,
        Err(code) => {
            return Err(code);
        },
    };
    Ok(
        (
            QosPolicy {
                durability,
                reliability,
                history,
                max_latency_nanos: want.max_latency_nanos as u128,
                ordering,
            },
            mode,
        ),
    )
}

/// The number of a durability.
pub open spec fn durability_number(value: Durability) -> u32 {
    match value {
        Durability::Volatile => SUBETHA_QOS_VOLATILE,
        Durability::Transient => SUBETHA_QOS_TRANSIENT,
        Durability::Persistent => SUBETHA_QOS_PERSISTENT,
    }
}

/// The number of a durability.
pub fn durability_constant(value: Durability) -> (number: u32)
    ensures
        number == durability_number(value),
{
    match value {
        Durability::Volatile => SUBETHA_QOS_VOLATILE,
        Durability::Transient => SUBETHA_QOS_TRANSIENT,
        Durability::Persistent => SUBETHA_QOS_PERSISTENT,
    }
}

/// The number of a reliability.
pub open spec fn reliability_number(value: Reliability) -> u32 {
    match value {
        Reliability::BestEffort => SUBETHA_QOS_BEST_EFFORT,
        Reliability::Reliable => SUBETHA_QOS_RELIABLE,
    }
}

/// The number of a reliability.
pub fn reliability_constant(value: Reliability) -> (number: u32)
    ensures
        number == reliability_number(value),
{
    match value {
        Reliability::BestEffort => SUBETHA_QOS_BEST_EFFORT,
        Reliability::Reliable => SUBETHA_QOS_RELIABLE,
    }
}

/// The number of an ordering.
pub open spec fn ordering_number(value: QosOrdering) -> u32 {
    match value {
        QosOrdering::PerProducer => SUBETHA_QOS_PER_PRODUCER,
        QosOrdering::GlobalFifo => SUBETHA_QOS_GLOBAL_FIFO,
    }
}

/// The number of an ordering.
pub fn ordering_constant(value: QosOrdering) -> (number: u32)
    ensures
        number == ordering_number(value),
{
    match value {
        QosOrdering::PerProducer => SUBETHA_QOS_PER_PRODUCER,
        QosOrdering::GlobalFifo => SUBETHA_QOS_GLOBAL_FIFO,
    }
}

/// A policy as the numbers a caller reads. A budget past the widest a caller
/// can be told reads as that.
pub open spec fn policy_numbers(policy: QosPolicy) -> subetha_qos {
    subetha_qos {
        durability: durability_number(policy.durability),
        reliability: reliability_number(policy.reliability),
        history_kind: match policy.history {
            History::KeepAll => SUBETHA_QOS_KEEP_ALL,
            History::KeepLastN(_) => SUBETHA_QOS_KEEP_LAST,
        },
        history_depth: match policy.history {
            History::KeepAll => 0,
            History::KeepLastN(n) => n,
        },
        max_latency_nanos: if policy.max_latency_nanos <= u64::MAX {
            policy.max_latency_nanos as u64
        } else {
            u64::MAX
        },
        ordering: ordering_number(policy.ordering),
    }
}

/// Read the whole policy, where there is somewhere to write it.
pub fn subetha_qos_read(last: &mut LastError, out_null: bool, snapshot: QosPolicy) -> (read: Result<subetha_qos, i32>)
    ensures
        answers(
            read,
            if out_null {
                Err(invalid_argument("out is null"@))
            } else {
                Ok(policy_numbers(snapshot))
            },
            old(last)@,
            final(last)@,
        ),
{
    if out_null {
        return Err(fail(last, SUBETHA_E_INVALID_ARGUMENT, "out is null"));
    }
    let (history_kind, history_depth): (u32, u32) = match snapshot.history {
        History::KeepAll => (SUBETHA_QOS_KEEP_ALL, 0),
        History::KeepLastN(n) => (SUBETHA_QOS_KEEP_LAST, n),
    };
    let max_latency_nanos: u64 = if snapshot.max_latency_nanos <= u64::MAX as u128 {
        snapshot.max_latency_nanos as u64
    } else {
        u64::MAX
    };
    Ok(
        subetha_qos {
            durability: durability_constant(snapshot.durability),
            reliability: reliability_constant(snapshot.reliability),
            history_kind,
            history_depth,
            max_latency_nanos,
            ordering: ordering_constant(snapshot.ordering),
        },
    )
}

/// What a caller asked for reads back as it was given, but for a depth given
/// with keep-all, which reads as zero.
pub proof fn a_policy_reads_back_as_it_was_made(want: subetha_qos)
    requires
        policy_outcome(want) is Ok,
    ensures
        policy_numbers(policy_outcome(want)->Ok_0) == (subetha_qos {
            history_depth: if want.history_kind == SUBETHA_QOS_KEEP_ALL {
                0
            } else {
                want.history_depth
            },
            ..want
        }),
{
}

/// No policy keeps nothing: whatever fields it is made from or history it is
/// set to, it keeps every item or the last so many, and never the last zero.
pub proof fn no_policy_keeps_nothing(want: subetha_qos)
    ensures
        policy_outcome(want) matches Ok(made) ==> made.history != History::KeepLastN(0),
        forall|kind: u32, depth: u32| #[trigger]
            history_of_outcome(kind, depth) != Ok::<History, Report>(History::KeepLastN(0)),
{
}

/// What a policy reads as makes that policy again, where its budget can be
/// told and it does not keep the last zero items.
pub proof fn what_is_read_makes_the_same_policy(policy: QosPolicy)
    requires
        policy.max_latency_nanos <= u64::MAX,
        policy.history != History::KeepLastN(0),
    ensures
        policy_outcome(policy_numbers(policy)) == Ok::<QosPolicy, Report>(policy),
{
}

impl QosPolicy {
    /// Set the durability; a number that names none changes nothing.
    pub fn set_durability(&mut self, last: &mut LastError, durability: u32) -> (answer: Result<(), i32>)
        ensures
            match durability_of_outcome(durability) {
                Ok(named) => {
                    &&& answer == Ok::<(), i32>(())
                    &&& final(last)@ == old(last)@
                    &&& *final(self) == (QosPolicy { durability: named, ..*old(self) })
                },
                Err(report) => {
                    &&& answers(answer, Err(report), old(last)@, final(last)@)
                    &&& *final(self) == *old(self)
                },
            },
    {
        match durability_of(last, durability) {
            Ok(named) => {
                self.durability = named;
                Ok(())
            },
            Err(code) => Err(code),
        }
    }

    /// Set the reliability; a number that names none changes nothing.
    pub fn set_reliability(&mut self, last: &mut LastError, reliability: u32) -> (answer: Result<(), i32>)
        ensures
            match reliability_of_outcome(reliability) {
                Ok(named) => {
                    &&& answer == Ok::<(), i32>(())
                    &&& final(last)@ == old(last)@
                    &&& *final(self) == (QosPolicy { reliability: named, ..*old(self) })
                },
                Err(report) => {
                    &&& answers(answer, Err(report), old(last)@, final(last)@)
                    &&& *final(self) == *old(self)
                },
            },
    {
        match reliability_of(last, reliability) {
            Ok(named) => {
                self.reliability = named;
                Ok(())
            },
            Err(code) => Err(code),
        }
    }

    /// Set the history; a kind that names none, or a depth of zero to keep,
    /// changes nothing.
    pub fn set_history(&mut self, last: &mut LastError, kind: u32, depth: u32) -> (answer: Result<(), i32>)
        ensures
            match history_of_outcome(kind, depth) {
                Ok(named) => {
                    &&& answer == Ok::<(), i32>(())
                    &&& final(last)@ == old(last)@
                    &&& *final(self) == (QosPolicy { history: named, ..*old(self) })
                },
                Err(report) => {
                    &&& answers(answer, Err(report), old(last)@, final(last)@)
                    &&& *final(self) == *old(self)
                },
            },
    {
        match history_of(last, kind, depth) {
            Ok(named) => {
                self.history = named;
                Ok(())
            },
            Err(code) => Err(code),
        }
    }

    /// Set the latency budget in nanoseconds.
    pub fn set_max_latency(&mut self, nanos: u64)
        ensures
            *final(self) == (QosPolicy { max_latency_nanos: nanos as u128, ..*old(self) }),
    {
        self.max_latency_nanos = nanos as u128;
    }

    /// Set the ordering; a number that names none changes nothing.
    pub fn set_ordering(&mut self, last: &mut LastError, ordering: u32) -> (answer: Result<(), i32>)
        ensures
            match ordering_of_outcome(ordering) {
                Ok(named) => {
                    &&& answer == Ok::<(), i32>(())
                    &&& final(last)@ == old(last)@
                    &&& *final(self) == (QosPolicy { ordering: named, ..*old(self) })
                },
                Err(report) => {
                    &&& answers(answer, Err(report), old(last)@, final(last)@)
                    &&& *final(self) == *old(self)
                },
            },
    {
        match ordering_of(last, ordering) {
            Ok(named) => {
                self.ordering = named;
                Ok(())
            },
            Err(code) => Err(code),
        }
    }
}

/// The locale a policy's durability asks for, as a number, where there is
/// somewhere to write it.
pub fn subetha_qos_recommended_locale(last: &mut LastError, out_null: bool, locale: RingLocale) -> (number: Result<
    u32,
    i32,
>)
    ensures
        answers(
            number,
            if out_null {
                Err(invalid_argument("out is null"@))
            } else {
                Ok(locale_number(locale))
            },
            old(last)@,
            final(last)@,
        ),
{
    match refuse_if(last, out_null, "out is null") {
        Ok(()) => Ok(locale_constant(locale)),
        Err(code) => Err(code),
    }
}

/// A call on a policy reaches what stands behind a handle to a policy, and
/// nothing behind any other handle.
pub proof fn only_a_policy_is_reached<P>(last: &mut LastError, object: &Object<P>, reached: Result<&P, i32>)
    requires
        call_ensures(with_policy::<P>, (last, object), reached),
    ensures
        reached is Ok <==> *object is QosPolicy,
        reached matches Ok(payload) ==> *object == Object::QosPolicy(*payload) && final(last)@ == old(last)@,
        reached matches Err(code) ==> code == SUBETHA_E_WRONG_KIND
            && final(last)@ == "the handle does not name a quality-of-service policy"@,
{
}

/// A durability is named by its own number and by no other, and has that
/// number when it is read.
pub proof fn a_durability_is_named_by_its_number(
    last: &mut LastError,
    tag: u32,
    named: Result<Durability, i32>,
    number: u32,
)
    requires
        call_ensures(durability_of, (last, tag), named),
        named matches Ok(value) ==> call_ensures(durability_constant, (value,), number),
    ensures
        named is Ok <==> tag < 3,
        named is Ok ==> final(last)@ == old(last)@,
        named matches Err(code) ==> code == SUBETHA_E_INVALID_ARGUMENT,
        tag == 0 ==> named == Ok::<Durability, i32>(Durability::Volatile),
        tag == 1 ==> named == Ok::<Durability, i32>(Durability::Transient),
        tag == 2 ==> named == Ok::<Durability, i32>(Durability::Persistent),
        named is Ok ==> number == tag,
{
}

/// A reliability is named by its own number and by no other, and has that
/// number when it is read.
pub proof fn a_reliability_is_named_by_its_number(
    last: &mut LastError,
    tag: u32,
    named: Result<Reliability, i32>,
    number: u32,
)
    requires
        call_ensures(reliability_of, (last, tag), named),
        named matches Ok(value) ==> call_ensures(reliability_constant, (value,), number),
    ensures
        named is Ok <==> tag < 2,
        named is Ok ==> final(last)@ == old(last)@,
        named matches Err(code) ==> code == SUBETHA_E_INVALID_ARGUMENT,
        tag == 0 ==> named == Ok::<Reliability, i32>(Reliability::BestEffort),
        tag == 1 ==> named == Ok::<Reliability, i32>(Reliability::Reliable),
        named is Ok ==> number == tag,
{
}

/// An ordering is named by its own number and by no other, and has that number
/// when it is read.
pub proof fn an_ordering_is_named_by_its_number(
    last: &mut LastError,
    tag: u32,
    named: Result<QosOrdering, i32>,
    number: u32,
)
    requires
        call_ensures(ordering_of, (last, tag), named),
        named matches Ok(value) ==> call_ensures(ordering_constant, (value,), number),
    ensures
        named is Ok <==> tag < 2,
        named is Ok ==> final(last)@ == old(last)@,
        named matches Err(code) ==> code == SUBETHA_E_INVALID_ARGUMENT,
        tag == 0 ==> named == Ok::<QosOrdering, i32>(QosOrdering::PerProducer),
        tag == 1 ==> named == Ok::<QosOrdering, i32>(QosOrdering::GlobalFifo),
        named is Ok ==> number == tag,
{
}

/// A preset is named by its own number and by no other.
pub proof fn a_preset_is_named_by_its_number(last: &mut LastError, tag: u32, named: Result<Preset, i32>)
    requires
        call_ensures(preset_of, (last, tag), named),
    ensures
        named is Ok <==> tag < 3,
        named is Ok ==> final(last)@ == old(last)@,
        named matches Err(code) ==> code == SUBETHA_E_INVALID_ARGUMENT,
        tag == 0 ==> named == Ok::<Preset, i32>(Preset::Streaming),
        tag == 1 ==> named == Ok::<Preset, i32>(Preset::ReliablePubSub),
        tag == 2 ==> named == Ok::<Preset, i32>(Preset::PersistentLog),
{
}

/// Keeping everything takes any depth, and keeping the last items takes any
/// depth but zero and keeps that many; no other kind is a history.
pub proof fn a_history_keeps_everything_or_the_last_so_many(
    last: &mut LastError,
    kind: u32,
    depth: u32,
    named: Result<History, i32>,
)
    requires
        call_ensures(history_of, (last, kind, depth), named),
    ensures
        named is Ok <==> kind == 1 || (kind == 0 && depth > 0),
        kind == 1 ==> named == Ok::<History, i32>(History::KeepAll),
        kind == 0 && depth > 0 ==> named == Ok::<History, i32>(History::KeepLastN(depth)),
        named is Ok ==> final(last)@ == old(last)@,
        named matches Err(code) ==> code == SUBETHA_E_INVALID_ARGUMENT,
{
}

/// The arguments are accepted exactly when nothing is wrong with any of them,
/// and then handed on unchanged; the first one at fault is the one answered
/// for.
pub proof fn a_preset_is_made_with_arguments_that_are_right(
    last: &mut LastError,
    initialized: Result<(), Refused>,
    out_null: bool,
    mode: Result<u32, Refused>,
    preset: u32,
    answer: Result<(Preset, u32), i32>,
)
    requires
        call_ensures(subetha_qos_create_preset, (last, initialized, out_null, mode, preset), answer),
    ensures
        answer is Ok <==> initialized is Ok && !out_null && mode is Ok && preset <= 2,
        answer matches Ok(all) ==> (preset == 0 ==> all.0 == Preset::Streaming) && (preset == 1
            ==> all.0 == Preset::ReliablePubSub) && (preset == 2 ==> all.0 == Preset::PersistentLog)
            && all.1 == mode->Ok_0 && final(last)@ == old(last)@,
        initialized is Err ==> answer is Err && answer->Err_0 == initialized->Err_0.code
            && final(last)@ == initialized->Err_0.report().leaves(old(last)@),
        initialized is Ok && out_null ==> answer is Err && answer->Err_0 == SUBETHA_E_INVALID_ARGUMENT
            && final(last)@ == "out is null"@,
        initialized is Ok && !out_null && mode is Err ==> answer is Err && answer->Err_0 == mode->Err_0.code
            && final(last)@ == mode->Err_0.report().leaves(old(last)@),
        initialized is Ok && !out_null && mode is Ok && preset > 2 ==> answer is Err
            && answer->Err_0 == SUBETHA_E_INVALID_ARGUMENT,
{
}

/// A policy is made exactly when each of its numbers names something and it
/// keeps something; read back, it gives the numbers it was made from, but for
/// a depth given with keep-all, which reads as zero.
pub proof fn a_policy_is_made_of_what_was_asked_and_reads_back_so(
    last: &mut LastError,
    again: &mut LastError,
    initial: subetha_qos,
    mode: Result<u32, Refused>,
    policy: Result<(QosPolicy, u32), i32>,
    read: Result<subetha_qos, i32>,
)
    requires
        call_ensures(subetha_qos_create, (last, Ok(()), false, Some(initial), mode), policy),
        policy matches Ok(made) ==> call_ensures(subetha_qos_read, (again, false, made.0), read),
    ensures
        policy is Ok <==> mode is Ok && initial.durability < 3 && initial.reliability < 2
            && (initial.history_kind == 1 || (initial.history_kind == 0 && initial.history_depth > 0))
            && initial.ordering < 2,
        policy matches Ok(made) ==> made.1 == mode->Ok_0,
        policy is Ok ==> read is Ok && read->Ok_0.durability == initial.durability
            && read->Ok_0.reliability == initial.reliability && read->Ok_0.history_kind == initial.history_kind
            && read->Ok_0.max_latency_nanos == initial.max_latency_nanos && read->Ok_0.ordering == initial.ordering,
        policy is Ok && initial.history_kind == 0 ==> read->Ok_0.history_depth == initial.history_depth,
        policy is Ok && initial.history_kind == 1 ==> read->Ok_0.history_depth == 0,
        mode is Err ==> policy is Err && policy->Err_0 == mode->Err_0.code
            && final(last)@ == mode->Err_0.report().leaves(old(last)@),
        mode is Ok && policy is Err ==> policy->Err_0 == SUBETHA_E_INVALID_ARGUMENT,
{
}

/// A policy is not made before the library is, without its fields, or without
/// a place for it, and is not read without one.
pub proof fn a_policy_needs_its_fields_and_a_place(
    last: &mut LastError,
    again: &mut LastError,
    initialized: Result<(), Refused>,
    out_null: bool,
    initial: Option<subetha_qos>,
    mode: Result<u32, Refused>,
    snapshot: QosPolicy,
    policy: Result<(QosPolicy, u32), i32>,
    read: Result<subetha_qos, i32>,
)
    requires
        call_ensures(subetha_qos_create, (last, initialized, out_null, initial, mode), policy),
        call_ensures(subetha_qos_read, (again, out_null, snapshot), read),
    ensures
        initialized is Err ==> policy is Err && policy->Err_0 == initialized->Err_0.code
            && final(last)@ == initialized->Err_0.report().leaves(old(last)@),
        initialized is Ok && (out_null || initial is None) ==> policy is Err
            && policy->Err_0 == SUBETHA_E_INVALID_ARGUMENT,
        read is Ok <==> !out_null,
        read matches Err(code) ==> code == SUBETHA_E_INVALID_ARGUMENT && final(again)@ == "out is null"@,
{
}

/// Setting the durability to a number that names one sets it to that one and
/// changes nothing else; any other number changes nothing at all.
pub proof fn setting_the_durability_changes_nothing_else(
    policy: &mut QosPolicy,
    last: &mut LastError,
    tag: u32,
    answer: Result<(), i32>,
)
    requires
        call_ensures(QosPolicy::set_durability, (policy, last, tag), answer),
    ensures
        answer is Ok <==> tag < 3,
        tag == 0 ==> final(policy).durability == Durability::Volatile,
        tag == 1 ==> final(policy).durability == Durability::Transient,
        tag == 2 ==> final(policy).durability == Durability::Persistent,
        answer is Err ==> answer->Err_0 == SUBETHA_E_INVALID_ARGUMENT
            && final(policy).durability == old(policy).durability,
        final(policy).reliability == old(policy).reliability && final(policy).history == old(policy).history
            && final(policy).max_latency_nanos == old(policy).max_latency_nanos
            && final(policy).ordering == old(policy).ordering,
{
}

/// Setting the reliability to a number that names one sets it to that one and
/// changes nothing else; any other number changes nothing at all.
pub proof fn setting_the_reliability_changes_nothing_else(
    policy: &mut QosPolicy,
    last: &mut LastError,
    tag: u32,
    answer: Result<(), i32>,
)
    requires
        call_ensures(QosPolicy::set_reliability, (policy, last, tag), answer),
    ensures
        answer is Ok <==> tag < 2,
        tag == 0 ==> final(policy).reliability == Reliability::BestEffort,
        tag == 1 ==> final(policy).reliability == Reliability::Reliable,
        answer is Err ==> answer->Err_0 == SUBETHA_E_INVALID_ARGUMENT
            && final(policy).reliability == old(policy).reliability,
        final(policy).durability == old(policy).durability && final(policy).history == old(policy).history
            && final(policy).max_latency_nanos == old(policy).max_latency_nanos
            && final(policy).ordering == old(policy).ordering,
{
}

/// Setting the ordering to a number that names one sets it to that one and
/// changes nothing else; any other number changes nothing at all.
pub proof fn setting_the_ordering_changes_nothing_else(
    policy: &mut QosPolicy,
    last: &mut LastError,
    tag: u32,
    answer: Result<(), i32>,
)
    requires
        call_ensures(QosPolicy::set_ordering, (policy, last, tag), answer),
    ensures
        answer is Ok <==> tag < 2,
        tag == 0 ==> final(policy).ordering == QosOrdering::PerProducer,
        tag == 1 ==> final(policy).ordering == QosOrdering::GlobalFifo,
        answer is Err ==> answer->Err_0 == SUBETHA_E_INVALID_ARGUMENT
            && final(policy).ordering == old(policy).ordering,
        final(policy).durability == old(policy).durability
            && final(policy).reliability == old(policy).reliability
            && final(policy).history == old(policy).history
            && final(policy).max_latency_nanos == old(policy).max_latency_nanos,
{
}

/// Setting the history sets it to what was asked where that keeps something,
/// and changes nothing else; otherwise nothing changes at all.
pub proof fn setting_the_history_changes_nothing_else(
    policy: &mut QosPolicy,
    last: &mut LastError,
    kind: u32,
    depth: u32,
    answer: Result<(), i32>,
)
    requires
        call_ensures(QosPolicy::set_history, (policy, last, kind, depth), answer),
    ensures
        answer is Ok <==> kind == 1 || (kind == 0 && depth > 0),
        kind == 1 ==> final(policy).history == History::KeepAll,
        kind == 0 && depth > 0 ==> final(policy).history == History::KeepLastN(depth),
        answer is Err ==> answer->Err_0 == SUBETHA_E_INVALID_ARGUMENT
            && final(policy).history == old(policy).history,
        final(policy).durability == old(policy).durability
            && final(policy).reliability == old(policy).reliability
            && final(policy).max_latency_nanos == old(policy).max_latency_nanos
            && final(policy).ordering == old(policy).ordering,
{
}

/// Setting the latency budget sets it to what was asked and changes nothing
/// else.
pub proof fn setting_the_latency_changes_nothing_else(policy: &mut QosPolicy, nanos: u64, done: ())
    requires
        call_ensures(QosPolicy::set_max_latency, (policy, nanos), done),
    ensures
        final(policy).max_latency_nanos == nanos,
        final(policy).durability == old(policy).durability
            && final(policy).reliability == old(policy).reliability
            && final(policy).history == old(policy).history && final(policy).ordering == old(policy).ordering,
{
}

/// A recommended locale is told by its number wherever there is a place for
/// it.
pub proof fn a_recommended_locale_is_told_by_its_number(
    last: &mut LastError,
    out_null: bool,
    locale: RingLocale,
    number: Result<u32, i32>,
    constant: u32,
)
    requires
        call_ensures(subetha_qos_recommended_locale, (last, out_null, locale), number),
        call_ensures(locale_constant, (locale,), constant),
    ensures
        number is Ok <==> !out_null,
        number matches Ok(n) ==> n == constant && final(last)@ == old(last)@,
        number matches Err(code) ==> code == SUBETHA_E_INVALID_ARGUMENT && final(last)@ == "out is null"@,
{
}

/// The numbers callers give and are given, as they were built against them.
pub proof fn the_numbers_are_the_ones_callers_know()
    ensures
        SUBETHA_QOS_VOLATILE == 0,
        SUBETHA_QOS_TRANSIENT == 1,
        SUBETHA_QOS_PERSISTENT == 2,
        SUBETHA_QOS_BEST_EFFORT == 0,
        SUBETHA_QOS_RELIABLE == 1,
        SUBETHA_QOS_KEEP_LAST == 0,
        SUBETHA_QOS_KEEP_ALL == 1,
        SUBETHA_QOS_PER_PRODUCER == 0,
        SUBETHA_QOS_GLOBAL_FIFO == 1,
        SUBETHA_QOS_PRESET_STREAMING == 0,
        SUBETHA_QOS_PRESET_RELIABLE_PUBSUB == 1,
        SUBETHA_QOS_PRESET_PERSISTENT_LOG == 2,
{
}

/// A refusal says what was given and what it should have been.
pub proof fn a_durability_at_fault_is_told(last: &mut LastError, tag: u32, named: Result<Durability, i32>)
    requires
        call_ensures(durability_of, (last, tag), named),
    ensures
        named is Err ==> final(last)@ == "durability "@ + dec(tag as nat) + " names none"@,
{
}

/// A refusal says what was given and what it should have been.
pub proof fn a_reliability_at_fault_is_told(last: &mut LastError, tag: u32, named: Result<Reliability, i32>)
    requires
        call_ensures(reliability_of, (last, tag), named),
    ensures
        named is Err ==> final(last)@ == "reliability "@ + dec(tag as nat) + " names none"@,
{
}

/// A refusal says what was given and what it should have been.
pub proof fn an_ordering_at_fault_is_told(last: &mut LastError, tag: u32, named: Result<QosOrdering, i32>)
    requires
        call_ensures(ordering_of, (last, tag), named),
    ensures
        named is Err ==> final(last)@ == "ordering "@ + dec(tag as nat) + " names none"@,
{
}

/// A refusal says what was given and what it should have been.
pub proof fn a_preset_at_fault_is_told(last: &mut LastError, tag: u32, named: Result<Preset, i32>)
    requires
        call_ensures(preset_of, (last, tag), named),
    ensures
        named is Err ==> final(last)@ == "preset "@ + dec(tag as nat) + " names none"@,
{
}

/// A refusal says what was given and what it should have been.
pub proof fn a_history_at_fault_is_told(last: &mut LastError, kind: u32, depth: u32, named: Result<History, i32>)
    requires
        call_ensures(history_of, (last, kind, depth), named),
    ensures
        named is Err && kind == 0
            ==> final(last)@ == "keeping the last zero items keeps nothing; ask for keep-all or a depth"@,
        named is Err && kind != 0 ==> final(last)@ == "history kind "@ + dec(kind as nat) + " names none"@,
{
}

} // verus!
