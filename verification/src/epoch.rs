//! Telling a destroy when every call that might be inside an object has
//! left.
//!
//! A call publishes that it is inside one, into a word of its own thread's,
//! and clears it on the way out. A destroy marks the object closing, then
//! looks at every thread's word and waits for the ones that were already
//! inside. The two sides need to agree on an order, since the call must not
//! read the object as live after the destroy has closed it and seen the
//! thread quiet, and there are two ways to get that: where the host can
//! fence every thread from one of them, the destroy pays for it and a call
//! publishes with a plain store; everywhere else the call fences itself.
//!
//! Either way the promise is the same: a call in flight blocks a destroy,
//! and a handle whose object is closing is refused.
//!
//! Here the words, the epoch and the decisions are one owner's at a time.
//! Asking the host for a fence, issuing one and yielding while a wait is not
//! over are the caller's.

use vstd::arithmetic::div_mod::{
    lemma_fundamental_div_mod, lemma_fundamental_div_mod_converse, lemma_mod_bound, lemma_small_mod,
};
use vstd::prelude::*;

use crate::error::{answers, fail, told, LastError, Report, SUBETHA_E_NOT_SUPPORTED};

verus! {

/// How the two sides agree on an order has not been decided yet.
pub const BARRIER_UNKNOWN: usize = 0;

/// The destroy fences every thread; a call publishes with a plain store.
pub const BARRIER_PROCESS_WIDE: usize = 1;

/// The call fences itself.
pub const BARRIER_PER_CALL: usize = 2;

/// The word a thread publishes into.
///
/// Zero while the thread is inside no call. Otherwise the low half names
/// the slot it is inside, one past the slot's index so that zero can mean
/// none, and the high half carries the epoch it read on the way in. Both
/// travel in one word because a destroy has to read them together: a
/// thread inside another slot is none of its business, and a thread that
/// came in after the destroy published cannot have seen the object live.
pub struct ThreadEpoch {
    /// The word.
    pub word: u64,
}

impl ThreadEpoch {
    /// A thread inside no call.
    pub fn new() -> (epoch: Self)
        ensures
            epoch.word == 0,
    {
        ThreadEpoch { word: 0 }
    }
}

/// The slot a published word names, one past its index, and the epoch it
/// was published in.
pub open spec fn published(word: u64) -> (nat, u32) {
    ((word & 0xFFFF_FFFF) as nat, (word >> 32) as u32)
}

/// The word naming `slot` in `epoch`.
pub open spec fn mark(slot: u32, epoch: u32) -> u64 {
    ((epoch as u64) << 32) | ((slot + 1) as u64)
}

/// The slot a published word names, and the epoch it was published in.
pub fn unpack(word: u64) -> (named: (u64, u32))
    ensures
        named.0 == published(word).0,
        named.1 == published(word).1,
{
    (word & 0xFFFF_FFFF, (word >> 32) as u32)
}

/// The word naming `slot` in `epoch`.
pub fn pack(slot: u32, epoch: u32) -> (word: u64)
    ensures
        word == mark(slot, epoch),
{
    ((epoch as u64) << 32) | (slot as u64 + 1)
}

/// A published word names the slot and the epoch it was made from, and is
/// never the word of a quiet thread, for every slot but the last `u32`.
pub proof fn a_word_names_what_it_was_made_from(slot: u32, epoch: u32)
    requires
        slot < u32::MAX,
    ensures
        published(mark(slot, epoch)) == ((slot + 1) as nat, epoch),
        mark(slot, epoch) != 0,
{
    let next = (slot + 1) as u64;
    assert((((epoch as u64) << 32) | next) & 0xFFFF_FFFF == next && ((((epoch as u64) << 32) | next) >> 32)
        as u32 == epoch && (((epoch as u64) << 32) | next) != 0) by (bit_vector)
        requires
            0 < next <= 0xFFFF_FFFF,
    ;
}

/// A quiet thread's word names no slot.
pub proof fn a_quiet_word_names_no_slot()
    ensures
        published(0) == (0nat, 0u32),
{
    assert(0u64 & 0xFFFF_FFFF == 0 && (0u64 >> 32) as u32 == 0) by (bit_vector);
}

/// The host a process runs on, as far as fencing goes.
#[derive(Clone, Copy, Debug, PartialEq, Eq, Structural)]
pub enum Host {
    /// Drains every thread's store buffer on request, always.
    Windows,
    /// Fences the process's threads once it accepted a registration.
    Linux,
    /// Has no such call.
    Other,
}

/// Whether the host has the barrier. `accepted` is what the kernel said to
/// the registration, where there is one to make.
pub fn register_process_wide_barrier(host: Host, accepted: bool) -> (available: bool)
    ensures
        available == (host == Host::Windows || (host == Host::Linux && accepted)),
{
    match host {
        Host::Windows => true,
        Host::Linux => accepted,
        Host::Other => false,
    }
}

/// Whether the destroy has to fence for itself after asking the host for
/// the barrier. `accepted` is what the kernel said to the request, where
/// there is one to make: a kernel that took the registration and then
/// refused the barrier leaves a fence of our own as the strongest thing
/// left.
pub fn process_wide_barrier(host: Host, accepted: bool) -> (fence: bool)
    ensures
        fence == (host == Host::Other || (host == Host::Linux && !accepted)),
{
    match host {
        Host::Windows => false,
        Host::Linux => !accepted,
        Host::Other => true,
    }
}

/// Every word ever handed to a thread, and the ones a finished thread gave
/// back; the epoch every destroy bumps; and how the two sides agree on an
/// order, decided once.
///
/// A word is never dropped: the next thread to arrive takes a returned one,
/// so the table stands at the high-water mark of threads that have been
/// inside a call at once.
pub struct Registry {
    all: Vec<ThreadEpoch>,
    free: Vec<usize>,
    global: u32,
    barrier: usize,
}

/// A registry as contracts speak of it.
pub struct RegistryView {
    /// The words, by thread.
    pub words: Seq<u64>,
    /// The words finished threads gave back, the next to go out last.
    pub free: Seq<usize>,
    /// The epoch a call publishes.
    pub epoch: u32,
    /// How the two sides agree on an order.
    pub barrier: usize,
}

impl View for Registry {
    type V = RegistryView;

    closed spec fn view(&self) -> RegistryView {
        RegistryView {
            words: self.all@.map_values(|t: ThreadEpoch| t.word),
            free: self.free@,
            epoch: self.global,
            barrier: self.barrier,
        }
    }
}

impl RegistryView {
    /// The words given back exist, each once, and are quiet.
    pub open spec fn wf(self) -> bool {
        &&& forall|k: int|
            0 <= k < self.free.len() ==> (#[trigger] self.free[k]) < self.words.len()
                && self.words[self.free[k] as int] == 0
        &&& self.free.no_duplicates()
        &&& self.barrier <= BARRIER_PER_CALL
    }

    /// Whether no thread is inside a call on `slot`.
    pub open spec fn clear_of(self, slot: u32) -> bool {
        forall|t: int| 0 <= t < self.words.len() ==> published(#[trigger] self.words[t]).0 != slot + 1
    }
}

/// The word the next thread to arrive takes: the last one given back, else a
/// new one.
pub open spec fn joining(registry: RegistryView) -> nat {
    if registry.free.len() > 0 {
        registry.free.last() as nat
    } else {
        registry.words.len()
    }
}

/// The registry once another thread has taken its word.
pub open spec fn joined(registry: RegistryView) -> RegistryView {
    if registry.free.len() > 0 {
        RegistryView { free: registry.free.drop_last(), ..registry }
    } else {
        RegistryView { words: registry.words.push(0), ..registry }
    }
}

/// The registry once a thread has ended.
pub open spec fn retired(registry: RegistryView, thread: usize) -> RegistryView {
    RegistryView {
        words: registry.words.update(thread as int, 0),
        free: registry.free.push(thread),
        ..registry
    }
}

/// The order the two sides agree on once the host's answer is known.
pub open spec fn settled_barrier(known: usize, available: bool) -> usize {
    if known != BARRIER_UNKNOWN {
        known
    } else if available {
        BARRIER_PROCESS_WIDE
    } else {
        BARRIER_PER_CALL
    }
}

impl Registry {
    /// No thread has been inside a call yet.
    pub fn new() -> (registry: Self)
        ensures
            registry@ == (RegistryView { words: seq![], free: seq![], epoch: 1, barrier: BARRIER_UNKNOWN }),
            registry@.wf(),
    {
        let registry = Registry { all: Vec::new(), free: Vec::new(), global: 1, barrier: BARRIER_UNKNOWN };
        assert(registry@.words =~= seq![]);
        assert(registry@.free =~= seq![]);
        registry
    }

    /// The word a thread has published.
    pub fn word(&self, thread: usize) -> (word: u64)
        requires
            thread < self@.words.len(),
        ensures
            word == self@.words[thread as int],
    {
        self.all[thread].word
    }

    /// Take a word for a thread making its first call: one a finished thread
    /// gave back if there is one, else a new one.
    pub fn join(&mut self) -> (thread: usize)
        requires
            old(self)@.wf(),
        ensures
            final(self)@.wf(),
            thread == joining(old(self)@),
            final(self)@ == joined(old(self)@),
            thread < final(self)@.words.len(),
            final(self)@.words[thread as int] == 0,
            !final(self)@.free.contains(thread),
    {
        match self.free.pop() {
            Some(thread) => {
                proof {
                    let before = old(self)@.free;
                    assert(self@.free =~= before.drop_last());
                    assert(self@.words =~= old(self)@.words);
                    assert forall|k: int| 0 <= k < self@.free.len() implies (#[trigger] self@.free[k])
                        < self@.words.len() && self@.words[self@.free[k] as int] == 0 && self@.free[k]
                        != thread by {
                        assert(before[k] == self@.free[k]);
                        assert(before[before.len() - 1] == thread);
                    }
                    assert(before[before.len() - 1] == thread);
                }
                thread
            },
            None => {
                let thread: usize = self.all.len();
                self.all.push(ThreadEpoch::new());
                proof {
                    assert(self@.words =~= old(self)@.words.push(0));
                    assert(self@.free =~= old(self)@.free);
                    assert forall|k: int| 0 <= k < self@.free.len() implies (#[trigger] self@.free[k])
                        < self@.words.len() && self@.words[self@.free[k] as int] == 0 by {
                        assert(old(self)@.free[k] < old(self)@.words.len());
                    }
                }
                thread
            },
        }
    }

    /// A thread has ended: clear its word and give it back.
    pub fn retire(&mut self, thread: usize)
        requires
            old(self)@.wf(),
            thread < old(self)@.words.len(),
            !old(self)@.free.contains(thread),
        ensures
            final(self)@.wf(),
            final(self)@ == retired(old(self)@, thread),
    {
        self.all.set(thread, ThreadEpoch { word: 0 });
        self.free.push(thread);
        proof {
            let before = old(self)@;
            assert(self@.words =~= before.words.update(thread as int, 0));
            assert(self@.free =~= before.free.push(thread));
            assert forall|k: int| 0 <= k < self@.free.len() implies (#[trigger] self@.free[k])
                < self@.words.len() && self@.words[self@.free[k] as int] == 0 by {
                if k < before.free.len() {
                    assert(before.free[k] < before.words.len());
                }
            }
            assert(self@.free.no_duplicates()) by {
                assert forall|i: int, j: int|
                    0 <= i < self@.free.len() && 0 <= j < self@.free.len() && i != j implies self@.free[i]
                    != self@.free[j] by {
                    if i < before.free.len() && j < before.free.len() {
                        assert(before.free[i] != before.free[j]);
                    } else if i < before.free.len() {
                        assert(before.free.contains(before.free[i]));
                    } else {
                        assert(before.free.contains(before.free[j]));
                    }
                }
            }
        }
    }

    /// Whether no thread is inside a call on `slot`.
    pub fn is_clear_of(&self, slot: u32) -> (clear: bool)
        ensures
            clear == self@.clear_of(slot),
    {
        let mut t: usize = 0;
        while t < self.all.len()
            invariant
                t <= self.all@.len(),
                self@.words.len() == self.all@.len(),
                forall|k: int| 0 <= k < t ==> published(#[trigger] self@.words[k]).0 != slot + 1,
            decreases self.all@.len() - t,
        {
            let word: u64 = self.all[t].word;
            assert(self@.words[t as int] == word);
            let (inside, _): (u64, u32) = unpack(word);
            if inside == slot as u64 + 1 {
                return false;
            }
            t += 1;
        }
        true
    }
}

/// How many thread words the registry holds: the high-water mark of
/// threads that have been inside a call at once, since a word is never
/// dropped.
pub fn registry_len(registry: &Registry) -> (len: usize)
    ensures
        len == registry@.words.len(),
{
    registry.all.len()
}

/// Whether the host can fence every thread from one of them, asked once
/// and remembered: `available` is its answer, read only while nothing has
/// been decided.
pub fn barrier_kind(registry: &mut Registry, available: bool) -> (kind: usize)
    ensures
        kind == settled_barrier(old(registry)@.barrier, available),
        final(registry)@ == (RegistryView { barrier: kind, ..old(registry)@ }),
{
    if registry.barrier == BARRIER_UNKNOWN {
        registry.barrier = if available {
            BARRIER_PROCESS_WIDE
        } else {
            BARRIER_PER_CALL
        };
    }
    registry.barrier
}

/// A call in flight. Giving it up with [`Inside::leave`] lets a destroy that
/// is waiting proceed.
pub struct Inside {
    thread: usize,
    fence: bool,
}

impl Inside {
    /// The thread the call is on.
    pub closed spec fn thread(&self) -> nat {
        self.thread as nat
    }

    /// Whether the call has to fence itself before it reads whether the
    /// slot's object is live.
    pub closed spec fn fences(&self) -> bool {
        self.fence
    }

    /// Whether the call has to fence itself before it reads whether the
    /// slot's object is live: the publish must land before that read, and a
    /// store followed by a load of another word is exactly what a processor
    /// is free to reorder.
    pub fn must_fence(&self) -> (fence: bool)
        ensures
            fence == self.fences(),
    {
        self.fence
    }

    /// The call is over: its thread is quiet again.
    pub fn leave(self, registry: &mut Registry)
        requires
            old(registry)@.wf(),
            self.thread() < old(registry)@.words.len(),
        ensures
            final(registry)@.wf(),
            final(registry)@ == (RegistryView {
                words: old(registry)@.words.update(self.thread() as int, 0),
                ..old(registry)@
            }),
    {
        registry.all.set(self.thread, ThreadEpoch { word: 0 });
        assert(registry@.words =~= old(registry)@.words.update(self.thread() as int, 0));
        assert forall|k: int| 0 <= k < registry@.free.len() implies (#[trigger] registry@.free[k])
            < registry@.words.len() && registry@.words[registry@.free[k] as int] == 0 by {
            assert(old(registry)@.free[k] < old(registry)@.words.len());
        }
    }
}

/// Why a thread may not enter a call, if it may not: its locals are gone,
/// or its word already names a call.
pub open spec fn entry_refusal(registry: RegistryView, local: Result<usize, String>) -> Option<Report> {
    match local {
        Err(gone) => Some(
            told(
                SUBETHA_E_NOT_SUPPORTED,
                "the calling thread is being torn down and has no call word: "@ + gone@,
            ),
        ),
        Ok(thread) => if registry.words[thread as int] != 0 {
            Some(
                told(
                    SUBETHA_E_NOT_SUPPORTED,
                    "this thread is already inside a call; an entry point cannot borrow a second handle"@,
                ),
            )
        } else {
            None
        },
    }
}

/// The registry once `thread` is inside a call on `slot`.
pub open spec fn entered(registry: RegistryView, thread: nat, slot: u32, available: bool) -> RegistryView {
    RegistryView {
        words: registry.words.update(thread as int, mark(slot, registry.epoch)),
        barrier: settled_barrier(registry.barrier, available),
        ..registry
    }
}

/// Publish that a thread is inside a call on `slot`, before it reads
/// whether that slot's object is live.
///
/// Refused on a thread whose locals have already been torn down, which is
/// a thread on its way out and so not one that should be starting a call -
/// `local` then carries what its runtime said - and refused while the
/// thread is already inside one: the word holds a single slot, and a call
/// that borrowed a second handle inside the first would unpublish the one a
/// destroy is waiting on.
pub fn enter(
    registry: &mut Registry,
    last: &mut LastError,
    local: Result<usize, String>,
    slot: u32,
    available: bool,
) -> (inside: Result<Inside, i32>)
    requires
        old(registry)@.wf(),
        local matches Ok(thread) ==> thread < old(registry)@.words.len() && !old(registry)@.free.contains(
            thread,
        ),
    ensures
        final(registry)@.wf(),
        match entry_refusal(old(registry)@, local) {
            Some(report) => {
                &&& answers(inside, Err(report), old(last)@, final(last)@)
                &&& final(registry)@ == old(registry)@
            },
            None => {
                &&& local is Ok
                &&& inside matches Ok(guard)
                &&& guard.thread() == local->Ok_0
                &&& guard.fences() == (final(registry)@.barrier != BARRIER_PROCESS_WIDE)
                &&& final(last)@ == old(last)@
                &&& final(registry)@ == entered(old(registry)@, local->Ok_0 as nat, slot, available)
            },
        },
{
    match local {
        Err(gone) => {
            let mut text: String = String::from_str(
                "the calling thread is being torn down and has no call word: ",
            );
            text.append(gone.as_str());
            Err(fail(last, SUBETHA_E_NOT_SUPPORTED, text.as_str()))
        },
        Ok(thread) => {
            assert(registry.all@[thread as int].word == registry@.words[thread as int]);
            if registry.all[thread].word != 0 {
                return Err(
                    fail(
                        last,
                        SUBETHA_E_NOT_SUPPORTED,
                        "this thread is already inside a call; an entry point cannot borrow a second handle",
                    ),
                );
            }
            let word: u64 = pack(slot, registry.global);
            registry.all.set(thread, ThreadEpoch { word });
            let kind: usize = barrier_kind(registry, available);
            proof {
                assert(registry@.words =~= old(registry)@.words.update(thread as int, word));
                assert forall|k: int| 0 <= k < registry@.free.len() implies (#[trigger] registry@.free[k])
                    < registry@.words.len() && registry@.words[registry@.free[k] as int] == 0 by {
                    assert(old(registry)@.free[k] < old(registry)@.words.len());
                    assert(old(registry)@.free.contains(old(registry)@.free[k]));
                }
            }
            Ok(Inside { thread, fence: kind != BARRIER_PROCESS_WIDE })
        },
    }
}

/// Whether an epoch is at or past `target`, read as a difference: epochs
/// wrap, and two of them are only ever less than half the range apart.
pub open spec fn at_or_past(epoch: u32, target: u32) -> bool {
    (epoch - target) % 0x1_0000_0000 < 0x8000_0000
}

/// Whether a wait for the calls on `slots` that began before `target` has
/// nothing to wait for in a thread that published `word`.
pub open spec fn lets_pass(word: u64, target: u32, slots: Seq<u32>) -> bool {
    at_or_past(published(word).1, target) || forall|k: int|
        0 <= k < slots.len() ==> published(word).0 != #[trigger] slots[k] + 1
}

/// A wait for the calls that were inside some slots when it began.
pub struct Wait {
    target: u32,
    slots: Vec<u32>,
}

impl Wait {
    /// The epoch a call has to carry to have begun after the wait did.
    pub closed spec fn target(&self) -> u32 {
        self.target
    }

    /// The slots waited on.
    pub closed spec fn slots(&self) -> Seq<u32> {
        self.slots@
    }

    /// Whether the wait is over: every thread's word lets it pass.
    pub open spec fn over(&self, registry: RegistryView) -> bool {
        forall|t: int|
            0 <= t < registry.words.len() ==> lets_pass(#[trigger] registry.words[t], self.target(), self.slots())
    }

    /// Whether the wait has nothing to wait for in a thread that published
    /// `word`: the thread is quiet, or inside a call on another slot, or
    /// inside one that began after the wait did and so cannot have read any
    /// of these slots as live.
    pub fn passes(&self, word: u64) -> (done: bool)
        ensures
            done == lets_pass(word, self.target(), self.slots()),
    {
        let (published_slot, published_epoch): (u64, u32) = unpack(word);
        let ahead: u32 = published_epoch.wrapping_sub(self.target);
        let signed: i32 = ahead as i32;
        assert(ahead as i32 >= 0 <==> ahead < 0x8000_0000) by (bit_vector);
        if signed >= 0 {
            return true;
        }
        let mut k: usize = 0;
        while k < self.slots.len()
            invariant
                k <= self.slots@.len(),
                published_slot == published(word).0,
                forall|j: int| 0 <= j < k ==> published(word).0 != #[trigger] self.slots@[j] + 1,
                !at_or_past(published(word).1, self.target),
            decreases self.slots@.len() - k,
        {
            let slot: u32 = self.slots[k];
            if published_slot == slot as u64 + 1 {
                return false;
            }
            k += 1;
        }
        true
    }

    /// Whether the wait is over: it has nothing to wait for in any thread.
    pub fn is_over(&self, registry: &Registry) -> (over: bool)
        ensures
            over == self.over(registry@),
    {
        let mut t: usize = 0;
        while t < registry.all.len()
            invariant
                t <= registry.all@.len(),
                registry@.words.len() == registry.all@.len(),
                forall|k: int|
                    0 <= k < t ==> lets_pass(#[trigger] registry@.words[k], self.target(), self.slots()),
            decreases registry.all@.len() - t,
        {
            let word: u64 = registry.all[t].word;
            assert(registry@.words[t as int] == word);
            if !self.passes(word) {
                return false;
            }
            t += 1;
        }
        true
    }
}

/// The epoch after `epoch`; it wraps.
pub open spec fn next_epoch(epoch: u32) -> u32 {
    if epoch == u32::MAX {
        0
    } else {
        (epoch + 1) as u32
    }
}

/// Begin waiting until no thread is inside a call on `slot` that began
/// before the caller closed it. The caller has already marked the slot
/// closing; it goes on once the wait is over.
pub fn wait_for_calls_on(registry: &mut Registry, slot: u32) -> (wait: Wait)
    ensures
        wait.target() == next_epoch(old(registry)@.epoch),
        wait.slots() == seq![slot],
        final(registry)@ == (RegistryView { epoch: next_epoch(old(registry)@.epoch), ..old(registry)@ }),
{
    let mut slots: Vec<u32> = Vec::new();
    slots.push(slot);
    let wait = wait_for_calls_on_all(registry, slots);
    assert(wait.slots() =~= seq![slot]);
    wait
}

/// [`wait_for_calls_on`] for a batch of slots under a single barrier. An
/// empty batch has nothing to wait for and leaves the epoch alone.
pub fn wait_for_calls_on_all(registry: &mut Registry, slots: Vec<u32>) -> (wait: Wait)
    ensures
        wait.slots() == slots@,
        if slots@.len() == 0 {
            &&& wait.target() == old(registry)@.epoch
            &&& final(registry)@ == old(registry)@
        } else {
            &&& wait.target() == next_epoch(old(registry)@.epoch)
            &&& final(registry)@ == (RegistryView { epoch: next_epoch(old(registry)@.epoch), ..old(registry)@ })
        },
{
    if slots.len() == 0 {
        return Wait { target: registry.global, slots };
    }
    registry.global = registry.global.wrapping_add(1);
    Wait { target: registry.global, slots }
}

/// The epoch `bumps` destroys after `epoch`.
pub open spec fn epoch_after(epoch: u32, bumps: nat) -> u32 {
    ((epoch + bumps) % 0x1_0000_0000) as u32
}

/// The remainder of the number after `a`, from that of `a`.
pub(crate) proof fn a_remainder_steps_with_its_number(a: int, m: int)
    requires
        a >= 0,
        m > 1,
    ensures
        (a + 1) % m == if a % m == m - 1 {
            0
        } else {
            a % m + 1
        },
{
    let q = a / m;
    let r = a % m;
    lemma_fundamental_div_mod(a, m);
    lemma_mod_bound(a, m);
    if r == m - 1 {
        assert(m * (q + 1) == m * q + m) by (nonlinear_arith);
        lemma_fundamental_div_mod_converse(a + 1, m, q + 1, 0);
    } else {
        lemma_fundamental_div_mod_converse(a + 1, m, q, r + 1);
    }
}

/// One more destroy moves the epoch on to the next.
pub proof fn a_destroy_steps_the_epoch(epoch: u32, bumps: nat)
    ensures
        epoch_after(epoch, 0) == epoch,
        next_epoch(epoch_after(epoch, bumps)) == epoch_after(epoch, bumps + 1),
{
    lemma_small_mod(epoch as nat, 0x1_0000_0000);
    lemma_mod_bound(epoch + bumps, 0x1_0000_0000);
    a_remainder_steps_with_its_number(epoch + bumps, 0x1_0000_0000);
}

/// A call in flight blocks a destroy: a wait on the slot a thread is inside
/// does not pass that thread while its word stands, however many other
/// destroys began between the call and the wait, short of half the range of
/// an epoch.
pub proof fn a_call_in_flight_blocks_a_wait_on_its_slot(
    slot: u32,
    epoch: u32,
    bumps: nat,
    slots: Seq<u32>,
)
    requires
        slot < u32::MAX,
        0 < bumps <= 0x8000_0000,
        slots.contains(slot),
    ensures
        !lets_pass(mark(slot, epoch), epoch_after(epoch, bumps), slots),
{
    a_word_names_what_it_was_made_from(slot, epoch);
    let k = choose|k: int| 0 <= k < slots.len() && slots[k] == slot;
    assert(slots[k] == slot);
    assert((epoch - epoch_after(epoch, bumps)) % 0x1_0000_0000 == 0x1_0000_0000 - bumps);
}

/// A wait ignores a call on a slot outside its batch.
pub proof fn a_wait_ignores_calls_on_other_slots(slot: u32, epoch: u32, target: u32, slots: Seq<u32>)
    requires
        slot < u32::MAX,
        !slots.contains(slot),
    ensures
        lets_pass(mark(slot, epoch), target, slots),
{
    a_word_names_what_it_was_made_from(slot, epoch);
    assert forall|k: int| 0 <= k < slots.len() implies published(mark(slot, epoch)).0 != #[trigger] slots[k]
        + 1 by {
        assert(slots.contains(slots[k]));
    }
}

/// A wait returns at once when every thread is quiet.
pub proof fn a_wait_passes_a_quiet_thread(target: u32, slots: Seq<u32>)
    ensures
        lets_pass(0, target, slots),
{
    a_quiet_word_names_no_slot();
}

/// A call that begins once the wait has bumped the epoch never holds it up,
/// whichever slot it names, so a thread seen to pass stays past: its later
/// calls carry the target epoch or one after it.
pub proof fn a_later_call_does_not_hold_a_wait_up(
    slot: u32,
    target: u32,
    bumps: nat,
    slots: Seq<u32>,
)
    requires
        slot < u32::MAX,
        bumps < 0x8000_0000,
    ensures
        lets_pass(mark(slot, epoch_after(target, bumps)), target, slots),
{
    a_word_names_what_it_was_made_from(slot, epoch_after(target, bumps));
    assert((epoch_after(target, bumps) - target) % 0x1_0000_0000 == bumps);
}

/// A second borrow on one thread is refused and leaves the first published:
/// a thread that is inside a call may not enter another.
pub proof fn a_second_borrow_is_refused(registry: RegistryView, thread: usize, first: u32, second: u32, available: bool)
    requires
        thread < registry.words.len(),
        first < u32::MAX,
    ensures
        entry_refusal(entered(registry, thread as nat, first, available), Ok(thread)) is Some,
{
    a_word_names_what_it_was_made_from(first, registry.epoch);
}

/// Threads that run one after another share one word: a thread that joins
/// after another retired takes the word it gave back, so the registry grows
/// only when more threads are inside calls at once than ever before.
pub proof fn a_retired_word_goes_to_the_next_thread(registry: RegistryView, thread: usize)
    requires
        thread < registry.words.len(),
    ensures
        joining(retired(registry, thread)) == thread,
        joined(retired(registry, thread)).words.len() == registry.words.len(),
        joined(retired(registry, thread)).free == registry.free,
{
    assert(registry.free.push(thread).drop_last() =~= registry.free);
}

/// A word is the epoch above the number of its slot, counted from one, and
/// comes apart into the two.
pub proof fn a_word_is_an_epoch_over_a_slot(slot: u32, epoch: u32, word: u64, named: (u64, u32))
    requires
        slot < u32::MAX,
        call_ensures(pack, (slot, epoch), word),
        call_ensures(unpack, (word,), named),
    ensures
        word == epoch * 0x1_0000_0000 + slot + 1,
        named.0 == slot + 1 && named.1 == epoch,
{
    a_word_names_what_it_was_made_from(slot, epoch);
    let next = (slot + 1) as u64;
    assert(((epoch as u64) << 32) | next == epoch * 0x1_0000_0000 + next) by (bit_vector)
        requires
            next <= 0xFFFF_FFFF,
    ;
}

/// A thread enters a call exactly when it has a word and the word is quiet,
/// and its word names the slot and the epoch then; otherwise it is refused and
/// nothing changes. No other word changes.
pub proof fn a_thread_enters_one_call_at_a_time(
    registry: &mut Registry,
    last: &mut LastError,
    local: Result<usize, String>,
    slot: u32,
    available: bool,
    inside: Result<Inside, i32>,
)
    requires
        old(registry)@.wf(),
        local matches Ok(thread) ==> thread < old(registry)@.words.len() && !old(registry)@.free.contains(thread),
        slot < u32::MAX,
        call_ensures(enter, (registry, last, local, slot, available), inside),
    ensures
        inside is Ok <==> local is Ok && old(registry)@.words[local->Ok_0 as int] == 0,
        inside matches Ok(guard) ==> guard.thread() == local->Ok_0 && final(last)@ == old(last)@,
        inside is Ok ==> published(final(registry)@.words[local->Ok_0 as int]) == ((slot
            + 1) as nat, old(registry)@.epoch),
        inside is Ok ==> forall|t: int| 0 <= t < old(registry)@.words.len() && t != local->Ok_0
            ==> (#[trigger] final(registry)@.words[t]) == old(registry)@.words[t],
        inside is Ok ==> final(registry)@.epoch == old(registry)@.epoch
            && final(registry)@.free == old(registry)@.free
            && final(registry)@.words.len() == old(registry)@.words.len(),
        inside matches Err(code) ==> code == SUBETHA_E_NOT_SUPPORTED && final(registry)@ == old(registry)@,
        inside matches Ok(guard) ==> (guard.fences() <==> final(registry)@.barrier != 1),
{
    a_word_names_what_it_was_made_from(slot, old(registry)@.epoch);
}

/// Leaving a call leaves its own thread's word at zero and changes nothing
/// else; whether the call fences for itself is what it was told when it began.
pub proof fn leaving_a_call_quiets_its_word(
    inside: Inside,
    registry: &mut Registry,
    done: (),
    guard: &Inside,
    fence: bool,
)
    requires
        old(registry)@.wf(),
        inside.thread() < old(registry)@.words.len(),
        call_ensures(Inside::leave, (inside, registry), done),
        call_ensures(Inside::must_fence, (guard,), fence),
    ensures
        final(registry)@.words[inside.thread() as int] == 0,
        final(registry)@.words.len() == old(registry)@.words.len(),
        forall|t: int| 0 <= t < old(registry)@.words.len() && t != inside.thread()
            ==> (#[trigger] final(registry)@.words[t]) == old(registry)@.words[t],
        final(registry)@.epoch == old(registry)@.epoch && final(registry)@.free == old(registry)@.free
            && final(registry)@.barrier == old(registry)@.barrier,
        fence <==> guard.fences(),
{
}

/// What the host answers first is kept: one where it fences a whole process,
/// two where each call fences for itself; nothing else changes.
pub proof fn the_barrier_is_settled_once_and_kept(registry: &mut Registry, available: bool, kind: usize)
    requires
        call_ensures(barrier_kind, (registry, available), kind),
    ensures
        old(registry)@.barrier != 0 ==> kind == old(registry)@.barrier,
        old(registry)@.barrier == 0 && available ==> kind == 1,
        old(registry)@.barrier == 0 && !available ==> kind == 2,
        final(registry)@.barrier == kind,
        final(registry)@.words == old(registry)@.words && final(registry)@.free == old(registry)@.free
            && final(registry)@.epoch == old(registry)@.epoch,
{
}

/// A host fences a whole process always, once it accepted to, or never; a
/// destroy fences for itself where it does not, and never where it does.
pub proof fn a_destroy_fences_where_the_host_does_not(host: Host, accepted: bool, available: bool, fence: bool)
    requires
        call_ensures(register_process_wide_barrier, (host, accepted), available),
        call_ensures(process_wide_barrier, (host, accepted), fence),
    ensures
        host is Windows ==> available,
        host is Linux ==> (available <==> accepted),
        host is Other ==> !available,
        fence <==> !available,
{
}

/// A new registry has no words and stands in its first epoch; a thread that
/// joins takes a quiet word nobody has, the last one given back or else a new
/// one at the end, and one that ends gives its own back quiet.
pub proof fn a_registry_starts_quiet_and_grows_by_need(
    made: Registry,
    joining_one: &mut Registry,
    thread: usize,
    ending: &mut Registry,
    gone: usize,
    done: (),
)
    requires
        call_ensures(Registry::new, (), made),
        old(joining_one)@.wf(),
        call_ensures(Registry::join, (joining_one,), thread),
        old(ending)@.wf(),
        gone < old(ending)@.words.len(),
        !old(ending)@.free.contains(gone),
        call_ensures(Registry::retire, (ending, gone), done),
    ensures
        made@.words.len() == 0 && made@.free.len() == 0 && made@.epoch == 1 && made@.barrier == 0,
        final(joining_one)@.words[thread as int] == 0 && !final(joining_one)@.free.contains(thread),
        old(joining_one)@.free.len() == 0 ==> thread == old(joining_one)@.words.len()
            && final(joining_one)@.words.len() == old(joining_one)@.words.len() + 1,
        old(joining_one)@.free.len() > 0 ==> thread == old(joining_one)@.free.last()
            && final(joining_one)@.words == old(joining_one)@.words,
        forall|t: int| 0 <= t < old(joining_one)@.words.len()
            ==> (#[trigger] final(joining_one)@.words[t]) == old(joining_one)@.words[t],
        final(ending)@.words[gone as int] == 0 && final(ending)@.free.last() == gone
            && final(ending)@.free.len() == old(ending)@.free.len() + 1,
        forall|t: int| 0 <= t < old(ending)@.words.len() && t != gone
            ==> (#[trigger] final(ending)@.words[t]) == old(ending)@.words[t],
        final(joining_one)@.epoch == old(joining_one)@.epoch && final(ending)@.epoch == old(ending)@.epoch,
{
}

/// A registry tells each word as it stands, how many there are, and whether
/// any names a slot.
pub proof fn a_registry_tells_its_words(
    registry: &Registry,
    thread: usize,
    word: u64,
    slot: u32,
    clear: bool,
    len: usize,
)
    requires
        thread < registry@.words.len(),
        call_ensures(Registry::word, (registry, thread), word),
        call_ensures(Registry::is_clear_of, (registry, slot), clear),
        call_ensures(registry_len, (registry,), len),
    ensures
        word == registry@.words[thread as int],
        clear && published(word).0 > 0 ==> published(word).0 != slot + 1,
        !clear ==> exists|t: int| 0 <= t < registry@.words.len()
            && published(#[trigger] registry@.words[t]).0 == slot + 1,
        len == registry@.words.len(),
{
}

/// A wait on slots waits for exactly those, for calls of the epochs before the
/// one it begins; a wait on none begins no epoch. No word changes.
pub proof fn a_wait_begins_a_new_epoch(
    one: &mut Registry,
    slot: u32,
    wait: Wait,
    all: &mut Registry,
    slots: Vec<u32>,
    batch: Wait,
)
    requires
        call_ensures(wait_for_calls_on, (one, slot), wait),
        call_ensures(wait_for_calls_on_all, (all, slots), batch),
    ensures
        wait.slots() == seq![slot] && batch.slots() == slots@,
        old(one)@.epoch < u32::MAX ==> wait.target() == old(one)@.epoch + 1,
        old(one)@.epoch == u32::MAX ==> wait.target() == 0,
        final(one)@.epoch == wait.target() && final(all)@.epoch == batch.target(),
        slots@.len() > 0 && old(all)@.epoch < u32::MAX ==> batch.target() == old(all)@.epoch + 1,
        slots@.len() > 0 && old(all)@.epoch == u32::MAX ==> batch.target() == 0,
        slots@.len() == 0 ==> final(all)@ == old(all)@,
        final(one)@.words == old(one)@.words && final(all)@.words == old(all)@.words,
{
}

/// A word holds a wait up exactly when it names one of the wait's slots in an
/// epoch before the one the wait began, as far as half of the epochs tell
/// before from after; a wait is over when no word does.
pub proof fn a_wait_is_held_up_only_by_earlier_calls_on_its_slots(
    wait: &Wait,
    word: u64,
    done: bool,
    registry: &Registry,
    over: bool,
)
    requires
        call_ensures(Wait::passes, (wait, word), done),
        call_ensures(Wait::is_over, (wait, registry), over),
    ensures
        !done <==> (exists|k: int| 0 <= k < wait.slots().len() && published(word).0 == #[trigger] wait.slots()[k]
            + 1) && (published(word).1 - wait.target()) % 0x1_0000_0000 >= 0x8000_0000,
        over <==> forall|t: int| 0 <= t < registry@.words.len()
            ==> lets_pass(#[trigger] registry@.words[t], wait.target(), wait.slots()),
{
}

/// What is known of the host's barrier has three numbers.
pub proof fn the_numbers_of_the_barrier_are_fixed()
    ensures
        BARRIER_UNKNOWN == 0 && BARRIER_PROCESS_WIDE == 1 && BARRIER_PER_CALL == 2,
{
}

} // verus!
