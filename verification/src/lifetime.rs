//! What a table of objects and a registry of threads promise together: an
//! object is not taken out while a call is inside it.
//!
//! A call borrows an object, runs, and releases it. A destroy closes the
//! slot, begins a wait, and takes the object out once the wait is over.
//! Between any two of these steps other threads take theirs, in any order.
//! What is proved here holds after every step of every such run.
//!
//! A destroy numbers the epochs, and a word carries an epoch's number in
//! thirty-two bits, so the promise is kept for calls that are not outlasted
//! by more than half of those numbers.
//!
//! A panic inside an object that is being destroyed leaves it poisoned, and
//! so lets a second destroy of it through. Either of the two may take it
//! out. The steps leave out only the other one taking anything out of the
//! slot after that.

use vstd::prelude::*;

use crate::epoch::{
    a_call_in_flight_blocks_a_wait_on_its_slot, a_wait_ignores_calls_on_other_slots, a_wait_passes_a_quiet_thread,
    entered, epoch_after, joined, lets_pass, mark, next_epoch, retired, RegistryView, BARRIER_UNKNOWN,
};
use crate::handle::{
    a_held_slot_may_change_while_it_is_held, a_table_with_room_keeps_its_side, borrow_outcome, close_refusal, freed,
    freeing_keeps_the_table_in_order, handle_generation, handle_index, in_state, is_shut, named_slot, placed,
    placing_keeps_the_table_in_order, poisoned, roomy, slot_wf, Object, SlotView, State, TableView,
};

verus! {

/// A call under way.
pub struct Call<P> {
    /// The handle it was made through.
    pub handle: u64,
    /// The object it borrowed.
    pub object: Object<P>,
    /// How many epochs there had been when it began.
    pub began: nat,
}

/// Everything the promise is about, at one moment.
pub struct World<P> {
    /// The objects.
    pub table: TableView<P>,
    /// The threads' words and the epoch.
    pub registry: RegistryView,
    /// How many epochs there have been.
    pub epochs: nat,
    /// The calls under way, by thread.
    pub calls: Map<usize, Call<P>>,
    /// The destroys that are waiting, each the slot it closed and the epoch it
    /// waits for.
    pub waits: Set<(u32, nat)>,
}

/// The number of the epoch that is the `n`th.
pub open spec fn epoch_number(n: nat) -> u32 {
    (n % 0x1_0000_0000) as u32
}

/// Before anything has happened.
pub open spec fn beginning<P>() -> World<P> {
    World {
        table: TableView { slots: seq![], free: seq![] },
        registry: RegistryView { words: seq![], free: seq![], epoch: 1, barrier: BARRIER_UNKNOWN },
        epochs: 1,
        calls: Map::empty(),
        waits: Set::empty(),
    }
}

impl<P> World<P> {
    /// Whether the call on `thread` has what it borrowed: its word says it is
    /// inside, and its handle still names the object it borrowed.
    pub open spec fn has_its_object(self, thread: usize) -> bool {
        let call = self.calls[thread];
        let index = handle_index(call.handle);
        &&& index < self.table.slots.len()
        &&& self.table.slots[index as int].state != State::Free
        &&& self.table.slots[index as int].generation == handle_generation(call.handle)
        &&& self.table.slots[index as int].object == Some(call.object)
        &&& thread < self.registry.words.len()
        &&& !self.registry.free.contains(thread)
        &&& self.registry.words[thread as int] == mark(index, epoch_number(call.began))
        &&& call.began <= self.epochs
    }

    /// Whether the destroy waiting on slot `wait.0` for epoch `wait.1` is one
    /// that every call inside the slot began before.
    pub open spec fn waits_for_calls(self, wait: (u32, nat)) -> bool {
        &&& wait.0 < self.table.slots.len()
        &&& is_shut(self.table.slots[wait.0 as int].state)
        &&& wait.1 <= self.epochs
        &&& forall|t: usize| #[trigger]
            self.calls.contains_key(t) && handle_index(self.calls[t].handle) == wait.0 ==> self.calls[t].began < wait.1
    }

    /// The promise, and what it rests on: every call under way has its
    /// object, every other thread is quiet, and every waiting destroy waits
    /// for the calls inside its slot.
    pub open spec fn sound(self) -> bool {
        &&& self.table.wf()
        &&& self.registry.wf()
        &&& self.registry.epoch == epoch_number(self.epochs)
        &&& forall|t: usize| #[trigger] self.calls.contains_key(t) ==> self.has_its_object(t)
        &&& forall|t: int|
            0 <= t < self.registry.words.len() && !self.calls.contains_key(t as usize)
                ==> #[trigger] self.registry.words[t] == 0
        &&& self.registry.words.len() <= usize::MAX
        &&& forall|w: (u32, nat)| #[trigger] self.waits.contains(w) ==> self.waits_for_calls(w)
    }

    /// Whether no waiting destroy is ahead of a call inside its slot by more
    /// than half the numbers an epoch has.
    pub open spec fn recent(self) -> bool {
        forall|w: (u32, nat), t: usize|
            #![trigger self.waits.contains(w), self.calls.contains_key(t)]
            self.waits.contains(w) && self.calls.contains_key(t) && handle_index(self.calls[t].handle) == w.0
                ==> w.1 <= self.calls[t].began + 0x8000_0000
    }

    /// A thread borrows an object.
    pub open spec fn borrow_step(self, thread: usize, available: bool, handle: u64, kind: u32, after: World<P>) -> bool {
        let outcome = borrow_outcome(self.table, self.registry, Ok(thread), available, handle, kind);
        let object = self.table.slots[handle_index(handle) as int].object;
        &&& thread < self.registry.words.len()
        &&& !self.registry.free.contains(thread)
        &&& after == (World {
            registry: outcome.1,
            calls: if outcome.0 is None {
                self.calls.insert(thread, Call { handle, object: object->Some_0, began: self.epochs })
            } else {
                self.calls
            },
            ..self
        })
    }

    /// A call ends.
    pub open spec fn release_step(self, thread: usize, after: World<P>) -> bool {
        &&& self.calls.contains_key(thread)
        &&& after == (World {
            registry: RegistryView {
                words: self.registry.words.update(thread as int, 0),
                ..self.registry
            },
            calls: self.calls.remove(thread),
            ..self
        })
    }

    /// A call panics.
    pub open spec fn poison_step(self, thread: usize, message: Seq<char>, after: World<P>) -> bool {
        let index = handle_index(self.calls[thread].handle) as int;
        &&& self.calls.contains_key(thread)
        &&& after == (World { table: poisoned(self.table, index, message), ..self })
    }

    /// A destroy closes a slot.
    pub open spec fn close_step(self, handle: u64, after: World<P>) -> bool {
        &&& close_refusal(self.table, handle) is None
        &&& after == (World {
            table: in_state(self.table, handle_index(handle) as int, State::Closing),
            ..self
        })
    }

    /// A destroy that closed a slot begins to wait.
    pub open spec fn wait_step(self, index: u32, after: World<P>) -> bool {
        &&& index < self.table.slots.len()
        &&& is_shut(self.table.slots[index as int].state)
        &&& after == (World {
            registry: RegistryView { epoch: next_epoch(self.registry.epoch), ..self.registry },
            epochs: self.epochs + 1,
            waits: self.waits.insert((index, self.epochs + 1)),
            ..self
        })
    }

    /// Whether the wait on slot `wait.0` for epoch `wait.1` is over.
    pub open spec fn wait_is_over(self, wait: (u32, nat)) -> bool {
        &&& self.waits.contains(wait)
        &&& forall|t: int|
            0 <= t < self.registry.words.len() ==> lets_pass(
                #[trigger] self.registry.words[t],
                epoch_number(wait.1),
                seq![wait.0],
            )
    }

    /// A destroy whose wait is over takes the object out, and no other destroy
    /// of it is left with anything to take.
    pub open spec fn retire_step(self, wait: (u32, nat), after: World<P>) -> bool {
        &&& self.wait_is_over(wait)
        &&& after == (World {
            table: freed(self.table, wait.0 as int),
            waits: self.waits.filter(|w: (u32, nat)| w.0 != wait.0),
            ..self
        })
    }

    /// An object is placed.
    pub open spec fn insert_step(self, object: Object<P>, after: World<P>) -> bool {
        &&& self.table.has_room()
        &&& after == (World { table: placed(self.table, object), ..self })
    }

    /// A thread makes its first call.
    pub open spec fn join_step(self, after: World<P>) -> bool {
        &&& self.registry.words.len() < usize::MAX
        &&& after == (World { registry: joined(self.registry), ..self })
    }

    /// A thread that is inside no call ends.
    pub open spec fn end_step(self, thread: usize, after: World<P>) -> bool {
        &&& thread < self.registry.words.len()
        &&& !self.registry.free.contains(thread)
        &&& !self.calls.contains_key(thread)
        &&& after == (World { registry: retired(self.registry, thread), ..self })
    }

    /// One step of one thread.
    pub open spec fn step(self, after: World<P>) -> bool {
        ||| exists|thread: usize, available: bool, handle: u64, kind: u32|
            #![auto]
            self.borrow_step(thread, available, handle, kind, after)
        ||| exists|thread: usize| #[trigger] self.release_step(thread, after)
        ||| exists|thread: usize, message: Seq<char>| #[trigger] self.poison_step(thread, message, after)
        ||| exists|handle: u64| #[trigger] self.close_step(handle, after)
        ||| exists|index: u32| #[trigger] self.wait_step(index, after)
        ||| exists|wait: (u32, nat)| #[trigger] self.retire_step(wait, after)
        ||| exists|object: Object<P>| #[trigger] self.insert_step(object, after)
        ||| self.join_step(after)
        ||| exists|thread: usize| #[trigger] self.end_step(thread, after)
    }
}

/// A wait that is over has no call inside its slot.
pub proof fn a_wait_is_not_over_while_a_call_is_inside<P>(world: World<P>, wait: (u32, nat))
    requires
        world.sound(),
        world.recent(),
        world.wait_is_over(wait),
    ensures
        forall|t: usize| #[trigger] world.calls.contains_key(t) ==> handle_index(world.calls[t].handle) != wait.0,
{
    let index = wait.0;
    assert forall|t: usize| #[trigger] world.calls.contains_key(t) implies handle_index(world.calls[t].handle)
        != index by {
        let call = world.calls[t];
        if handle_index(call.handle) == index {
            assert(world.has_its_object(t));
            assert(world.waits_for_calls(wait));
            assert(world.table.slots.len() <= 0x8000_0000);
            let bumps = (wait.1 - call.began) as nat;
            assert(seq![index].contains(index)) by {
                assert(seq![index][0] == index);
            }
            assert(epoch_after(epoch_number(call.began), bumps) == epoch_number(wait.1));
            a_call_in_flight_blocks_a_wait_on_its_slot(index, epoch_number(call.began), bumps, seq![index]);
            assert(lets_pass(world.registry.words[t as int], epoch_number(wait.1), seq![index]));
        }
    }
}

/// A destroy waits for the calls inside its slot and for nothing else: once
/// none is left there, its wait is over, whatever other slots are doing.
pub proof fn a_wait_is_over_once_its_calls_have_left<P>(world: World<P>, wait: (u32, nat))
    requires
        world.sound(),
        world.waits.contains(wait),
        forall|t: usize| #[trigger] world.calls.contains_key(t) ==> handle_index(world.calls[t].handle) != wait.0,
    ensures
        world.wait_is_over(wait),
{
    let index = wait.0;
    let target = epoch_number(wait.1);
    assert forall|t: int| 0 <= t < world.registry.words.len() implies lets_pass(
        #[trigger] world.registry.words[t],
        target,
        seq![index],
    ) by {
        if world.calls.contains_key(t as usize) {
            let call = world.calls[t as usize];
            let other = handle_index(call.handle);
            assert(world.has_its_object(t as usize));
            assert(!seq![index].contains(other));
            a_wait_ignores_calls_on_other_slots(other, epoch_number(call.began), target, seq![index]);
        } else {
            a_wait_passes_a_quiet_thread(target, seq![index]);
        }
    }
}

proof fn a_borrow_keeps_the_promise<P>(
    world: World<P>,
    thread: usize,
    available: bool,
    handle: u64,
    kind: u32,
    after: World<P>,
)
    requires
        world.sound(),
        world.borrow_step(thread, available, handle, kind, after),
    ensures
        after.sound(),
{
    let outcome = borrow_outcome(world.table, world.registry, Ok(thread), available, handle, kind);
    let index = handle_index(handle);
    if outcome.0 is None {
        let slot = world.table.slots[index as int];
        assert(slot_wf(slot));
        assert(named_slot(world.table, handle, ": its object was destroyed"@) is Ok);
        assert(slot.state == State::Live);
        assert(after.registry == entered(world.registry, thread as nat, index, available));
        assert forall|k: int| 0 <= k < after.registry.free.len() implies (#[trigger] after.registry.free[k])
            < after.registry.words.len() && after.registry.words[after.registry.free[k] as int] == 0 by {
            assert(world.registry.free[k] < world.registry.words.len());
            assert(world.registry.free.contains(world.registry.free[k]));
        }
        assert forall|t: usize| #[trigger] after.calls.contains_key(t) implies after.has_its_object(t) by {
            if t != thread {
                assert(world.calls.contains_key(t));
                assert(world.has_its_object(t));
            }
        }
        assert forall|t: int|
            0 <= t < after.registry.words.len() && !after.calls.contains_key(
                t as usize,
            ) implies #[trigger] after.registry.words[t] == 0 by {
            assert(!world.calls.contains_key(t as usize));
            assert(world.registry.words[t] == 0);
        }
        assert forall|w: (u32, nat)| #[trigger] after.waits.contains(w) implies after.waits_for_calls(w) by {
            assert(world.waits_for_calls(w));
            assert(w.0 != index);
            assert forall|t: usize| #[trigger]
                after.calls.contains_key(t) && handle_index(after.calls[t].handle) == w.0 implies after.calls[t].began
                < w.1 by {
                assert(t != thread);
                assert(world.calls.contains_key(t));
            }
        }
    } else {
        assert(after.registry.words == world.registry.words);
        assert(after.registry.free == world.registry.free);
        same_calls_keep_the_promise(world, after);
    }
}

/// A step that leaves the words, the calls, the waits and the epoch alone,
/// and only lets slots that hold no call or wait change, keeps the promise.
proof fn same_calls_keep_the_promise<P>(world: World<P>, after: World<P>)
    requires
        world.sound(),
        after.table.wf(),
        after.registry.wf(),
        after.registry.words == world.registry.words,
        after.registry.free == world.registry.free,
        after.registry.epoch == world.registry.epoch,
        after.epochs == world.epochs,
        after.calls == world.calls,
        after.waits == world.waits,
        world.table.slots.len() <= after.table.slots.len(),
        forall|i: int|
            0 <= i < world.table.slots.len() && (#[trigger] world.table.slots[i]).state != State::Free ==> {
                &&& after.table.slots[i].state != State::Free
                &&& after.table.slots[i].generation == world.table.slots[i].generation
                &&& after.table.slots[i].object == world.table.slots[i].object
                &&& is_shut(world.table.slots[i].state) ==> is_shut(after.table.slots[i].state)
            },
    ensures
        after.sound(),
{
    assert forall|t: usize| #[trigger] after.calls.contains_key(t) implies after.has_its_object(t) by {
        assert(world.calls.contains_key(t));
        assert(world.has_its_object(t));
        let index = handle_index(world.calls[t].handle) as int;
        assert(world.table.slots[index].state != State::Free);
    }
    assert forall|w: (u32, nat)| #[trigger] after.waits.contains(w) implies after.waits_for_calls(w) by {
        assert(world.waits.contains(w));
        assert(world.waits_for_calls(w));
        assert(world.table.slots[w.0 as int].state != State::Free);
    }
}

proof fn a_release_keeps_the_promise<P>(world: World<P>, thread: usize, after: World<P>)
    requires
        world.sound(),
        world.release_step(thread, after),
    ensures
        after.sound(),
{
    assert(world.has_its_object(thread));
    assert forall|k: int| 0 <= k < after.registry.free.len() implies (#[trigger] after.registry.free[k])
        < after.registry.words.len() && after.registry.words[after.registry.free[k] as int] == 0 by {
        assert(world.registry.free[k] < world.registry.words.len());
    }
    assert forall|t: usize| #[trigger] after.calls.contains_key(t) implies after.has_its_object(t) by {
        assert(world.calls.contains_key(t));
        assert(world.has_its_object(t));
    }
    assert forall|t: int|
        0 <= t < after.registry.words.len() && !after.calls.contains_key(
            t as usize,
        ) implies #[trigger] after.registry.words[t] == 0 by {
        if t != thread {
            assert(!world.calls.contains_key(t as usize));
            assert(world.registry.words[t] == 0);
        }
    }
    assert forall|w: (u32, nat)| #[trigger] after.waits.contains(w) implies after.waits_for_calls(w) by {
        assert(world.waits_for_calls(w));
    }
}

proof fn a_poisoning_keeps_the_promise<P>(world: World<P>, thread: usize, message: Seq<char>, after: World<P>)
    requires
        world.sound(),
        world.poison_step(thread, message, after),
    ensures
        after.sound(),
{
    assert(world.has_its_object(thread));
    let index = handle_index(world.calls[thread].handle) as int;
    assert(slot_wf(world.table.slots[index]));
    a_held_slot_may_change_while_it_is_held(
        world.table,
        index,
        SlotView {
            state: State::Poisoned,
            message: Some(message),
            ..world.table.slots[index]
        },
    );
    same_calls_keep_the_promise(world, after);
}

proof fn a_close_keeps_the_promise<P>(world: World<P>, handle: u64, after: World<P>)
    requires
        world.sound(),
        world.close_step(handle, after),
    ensures
        after.sound(),
{
    let index = handle_index(handle) as int;
    assert(slot_wf(world.table.slots[index]));
    a_held_slot_may_change_while_it_is_held(
        world.table,
        index,
        SlotView { state: State::Closing, ..world.table.slots[index] },
    );
    same_calls_keep_the_promise(world, after);
}

proof fn a_wait_keeps_the_promise<P>(world: World<P>, index: u32, after: World<P>)
    requires
        world.sound(),
        world.wait_step(index, after),
    ensures
        after.sound(),
{
    assert forall|t: usize| #[trigger] after.calls.contains_key(t) implies after.has_its_object(t) by {
        assert(world.has_its_object(t));
    }
    assert forall|w: (u32, nat)| #[trigger] after.waits.contains(w) implies after.waits_for_calls(w) by {
        if w != (index, after.epochs) {
            assert(world.waits.contains(w));
            assert(world.waits_for_calls(w));
        } else {
            assert forall|t: usize| #[trigger]
                after.calls.contains_key(t) && handle_index(after.calls[t].handle) == w.0 implies after.calls[t].began
                < w.1 by {
                assert(world.has_its_object(t));
            }
        }
    }
}

proof fn a_retirement_keeps_the_promise<P>(world: World<P>, wait: (u32, nat), after: World<P>)
    requires
        world.sound(),
        world.recent(),
        world.retire_step(wait, after),
    ensures
        after.sound(),
{
    a_wait_is_not_over_while_a_call_is_inside(world, wait);
    assert(world.waits_for_calls(wait));
    freeing_keeps_the_table_in_order(world.table, wait.0 as int);
    assert forall|t: usize| #[trigger] after.calls.contains_key(t) implies after.has_its_object(t) by {
        assert(world.calls.contains_key(t));
        assert(world.has_its_object(t));
    }
    assert forall|w: (u32, nat)| #[trigger] after.waits.contains(w) implies after.waits_for_calls(w) by {
        assert(world.waits.contains(w));
        assert(world.waits_for_calls(w));
    }
}

proof fn an_insertion_keeps_the_promise<P>(world: World<P>, object: Object<P>, after: World<P>)
    requires
        world.sound(),
        world.insert_step(object, after),
    ensures
        after.sound(),
{
    a_table_with_room_keeps_its_side(world.table);
    placing_keeps_the_table_in_order(world.table, object);
    let ready = roomy(world.table);
    let index = ready.free[ready.free.len() - 1];
    assert(ready.slots[index as int].state == State::Free);
    assert forall|i: int|
        0 <= i < world.table.slots.len() && (#[trigger] world.table.slots[i]).state
            != State::Free implies after.table.slots[i] == world.table.slots[i] by {
        assert(ready.slots[i] == world.table.slots[i]);
    }
    same_calls_keep_the_promise(world, after);
}

proof fn a_joining_keeps_the_promise<P>(world: World<P>, after: World<P>)
    requires
        world.sound(),
        world.join_step(after),
    ensures
        after.sound(),
{
    let free = world.registry.free;
    if free.len() > 0 {
        let taken = free[free.len() - 1];
        assert forall|k: int| 0 <= k < after.registry.free.len() implies (#[trigger] after.registry.free[k])
            < after.registry.words.len() && after.registry.words[after.registry.free[k] as int] == 0 by {
            assert(free[k] < world.registry.words.len());
        }
    } else {
        assert forall|t: int| 0 <= t < world.registry.words.len() implies after.registry.words[t]
            == world.registry.words[t] by {}
    }
    assert forall|t: usize| #[trigger] after.calls.contains_key(t) implies after.has_its_object(t) by {
        assert(world.calls.contains_key(t));
        assert(world.has_its_object(t));
        if after.registry.free.contains(t) {
            let k = choose|k: int| 0 <= k < after.registry.free.len() && after.registry.free[k] == t;
            assert(free[k] == t);
        }
    }
    assert forall|t: int|
        0 <= t < after.registry.words.len() && !after.calls.contains_key(
            t as usize,
        ) implies #[trigger] after.registry.words[t] == 0 by {
        if t < world.registry.words.len() {
            assert(world.registry.words[t] == 0);
        }
    }
    assert forall|w: (u32, nat)| #[trigger] after.waits.contains(w) implies after.waits_for_calls(w) by {
        assert(world.waits_for_calls(w));
    }
}

proof fn an_ending_keeps_the_promise<P>(world: World<P>, thread: usize, after: World<P>)
    requires
        world.sound(),
        world.end_step(thread, after),
    ensures
        after.sound(),
{
    let free = world.registry.free;
    assert(world.registry.words[thread as int] == 0);
    assert(after.registry.words =~= world.registry.words);
    assert forall|k: int| 0 <= k < after.registry.free.len() implies (#[trigger] after.registry.free[k])
        < after.registry.words.len() && after.registry.words[after.registry.free[k] as int] == 0 by {
        if k < free.len() {
            assert(free[k] < world.registry.words.len());
        }
    }
    assert forall|a: int, b: int|
        0 <= a < after.registry.free.len() && 0 <= b < after.registry.free.len() && a
            != b implies after.registry.free[a] != after.registry.free[b] by {
        if a < free.len() && b < free.len() {
            assert(free[a] != free[b]);
        } else if a < free.len() {
            assert(free.contains(free[a]));
        } else {
            assert(free.contains(free[b]));
        }
    }
    assert forall|t: usize| #[trigger] after.calls.contains_key(t) implies after.has_its_object(t) by {
        assert(world.calls.contains_key(t));
        assert(world.has_its_object(t));
        if after.registry.free.contains(t) {
            let k = choose|k: int| 0 <= k < after.registry.free.len() && after.registry.free[k] == t;
            if k < free.len() {
                assert(free[k] == t);
            }
        }
    }
    assert forall|w: (u32, nat)| #[trigger] after.waits.contains(w) implies after.waits_for_calls(w) by {
        assert(world.waits_for_calls(w));
    }
}

/// Whatever step any thread takes next, every call under way still has the
/// object it borrowed.
pub proof fn every_step_keeps_the_promise<P>(world: World<P>, after: World<P>)
    requires
        world.sound(),
        world.recent(),
        world.step(after),
    ensures
        after.sound(),
{
    if exists|thread: usize, available: bool, handle: u64, kind: u32|
        #![auto]
        world.borrow_step(thread, available, handle, kind, after) {
        let (thread, available, handle, kind) = choose|thread: usize, available: bool, handle: u64, kind: u32|
            #![auto]
            world.borrow_step(thread, available, handle, kind, after);
        a_borrow_keeps_the_promise(world, thread, available, handle, kind, after);
    } else if exists|thread: usize| #[trigger] world.release_step(thread, after) {
        let thread = choose|thread: usize| #[trigger] world.release_step(thread, after);
        a_release_keeps_the_promise(world, thread, after);
    } else if exists|thread: usize, message: Seq<char>| #[trigger] world.poison_step(thread, message, after) {
        let (thread, message) = choose|thread: usize, message: Seq<char>| #[trigger]
            world.poison_step(thread, message, after);
        a_poisoning_keeps_the_promise(world, thread, message, after);
    } else if exists|handle: u64| #[trigger] world.close_step(handle, after) {
        let handle = choose|handle: u64| #[trigger] world.close_step(handle, after);
        a_close_keeps_the_promise(world, handle, after);
    } else if exists|index: u32| #[trigger] world.wait_step(index, after) {
        let index = choose|index: u32| #[trigger] world.wait_step(index, after);
        a_wait_keeps_the_promise(world, index, after);
    } else if exists|wait: (u32, nat)| #[trigger] world.retire_step(wait, after) {
        let wait = choose|wait: (u32, nat)| #[trigger] world.retire_step(wait, after);
        a_retirement_keeps_the_promise(world, wait, after);
    } else if exists|object: Object<P>| #[trigger] world.insert_step(object, after) {
        let object = choose|object: Object<P>| #[trigger] world.insert_step(object, after);
        an_insertion_keeps_the_promise(world, object, after);
    } else if world.join_step(after) {
        a_joining_keeps_the_promise(world, after);
    } else {
        let thread = choose|thread: usize| #[trigger] world.end_step(thread, after);
        an_ending_keeps_the_promise(world, thread, after);
    }
}

/// Whether `worlds` is a run from the beginning, one step after another.
pub open spec fn is_run<P>(worlds: Seq<World<P>>) -> bool {
    &&& worlds.len() > 0
    &&& worlds[0] == beginning::<P>()
    &&& forall|k: int| 0 <= k < worlds.len() - 1 ==> (#[trigger] worlds[k]).step(worlds[k + 1])
}

/// However borrows, releases, panics, destroys, new objects and threads that
/// come and go are interleaved, a call in flight has the object it borrowed
/// until it is over: no destroy takes it out, and no other object takes its
/// place under the call's handle.
pub proof fn a_call_in_flight_sees_its_object_alive<P>(worlds: Seq<World<P>>, k: int, thread: usize)
    requires
        is_run(worlds),
        0 <= k < worlds.len(),
        forall|j: int| 0 <= j < k ==> (#[trigger] worlds[j]).recent(),
        worlds[k].calls.contains_key(thread),
    ensures
        worlds[k].has_its_object(thread),
{
    every_moment_of_a_run_is_sound(worlds, k);
}

proof fn every_moment_of_a_run_is_sound<P>(worlds: Seq<World<P>>, k: int)
    requires
        is_run(worlds),
        0 <= k < worlds.len(),
        forall|j: int| 0 <= j < k ==> (#[trigger] worlds[j]).recent(),
    ensures
        worlds[k].sound(),
    decreases k,
{
    if k > 0 {
        every_moment_of_a_run_is_sound(worlds, k - 1);
        assert(worlds[k - 1].step(worlds[k - 1 + 1]));
        every_step_keeps_the_promise(worlds[k - 1], worlds[k]);
    }
}

} // verus!
