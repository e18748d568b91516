//! The epoch table: a counter in a file and the pins held against it, so a
//! scan reads one fixed view of a store while writers keep running.
//!
//! A writer that supersedes a record leaves the old version in place and
//! stamps it with the epoch it stopped being current in. A scan takes a
//! pin and, for each record, reads the version that was current at the
//! pinned epoch.
//!
//! A write that touches several records stamps them all with a single epoch
//! taken from a ticket. While the ticket is open its epoch is reserved and
//! not published.
//!
//! A pin and a ticket are tokens. The counter, its pins and its tickets are
//! shared with other processes and live outside; what is here is what one
//! handle knows of the ones taken through it.

use vstd::prelude::*;

use crate::arguments::{copy_front, invalid_argument};
use crate::error::{
    answers, answers_code, bare, epochs_code, epochs_code_report, fail, told, EpochError, LastError, Report,
    SUBETHA_E_EPOCHS_PINS_EXHAUSTED, SUBETHA_E_EPOCHS_TICKETS_EXHAUSTED, SUBETHA_E_INVALID_ARGUMENT,
    SUBETHA_E_WRONG_KIND, SUBETHA_OK,
};
use crate::handle::Object;
use crate::holds::{
    a_drain_takes_every_hold, a_token_names_what_it_was_made_from, a_walk_finds_a_free_slot, claimed_slots,
    count_claimed, emptied, first_free, free_slots_do_not_count, fresh, given_back, named_hold, slot_of, tagged,
    taken, the_count_follows_a_slot, the_count_is_at_most_the_length, the_tag_is_the_top_bit, token_for,
    token_slot, Hold, HoldTable, ReleaseError, BLOCK, MAX_SLOTS,
};

verus! {

/// The epoch a version carries while it is still current: no pin can be
/// at or above it, so `subetha_pin_sees` answers true for it.
pub const SUBETHA_EPOCH_LIVE: u64 = 0xFFFF_FFFF_FFFF_FFFF;

/// A snapshot of an epoch table.
#[allow(non_camel_case_types)]
#[derive(Clone, Copy, Default, Debug, PartialEq, Eq)]
pub struct subetha_epochs_stats {
    /// The mode this handle was created in.
    pub mode: u32,
    /// Pins the table holds, which is also the ticket count.
    pub capacity: u64,
    /// The published epoch: what a pin takes right now.
    pub now: u64,
    /// Epochs at or below this have no reader.
    pub reclaim_horizon: u64,
    /// Pins outstanding across every process.
    pub live_pins: u64,
    /// Tickets open across every process.
    pub open_tickets: u64,
    /// Bytes the table takes on disk.
    pub file_size: u64,
}

/// One pin's or ticket's epoch and its slot in the shared table.
#[derive(Clone, Copy, Debug, PartialEq, Eq, Structural)]
pub struct HeldEpoch {
    /// The epoch it stands at.
    pub epoch: u64,
    /// The slot it took in the shared table.
    pub slot: usize,
}

/// The pins taken through one handle, or the tickets: the tokens out, and
/// what each is holding.
///
/// A lock hold needs nothing but the token, because releasing it is the
/// same act whichever one it is. A pin carries an epoch the caller reads and
/// a slot the release has to give back, so those travel here rather than in
/// the token, which has room for a slot and a generation and no more.
pub struct HeldEpochs {
    table: HoldTable,
    state: Vec<HeldEpoch>,
}

/// The tokens out and what each slot was last used for.
pub struct HeldView {
    /// The slots of the token table.
    pub holds: Seq<Hold>,
    /// The epoch and the shared slot beside each.
    pub state: Seq<HeldEpoch>,
    /// The slot the next token is looked for at first.
    pub next_look: nat,
}

impl View for HeldEpochs {
    type V = HeldView;

    closed spec fn view(&self) -> HeldView {
        HeldView { holds: self.table@, state: self.state@, next_look: self.table.next_look() }
    }
}

/// The epoch and the shared slot `token` stands for, or why it stands for
/// none.
pub open spec fn held_by(held: HeldView, token: u64) -> Result<HeldEpoch, ReleaseError> {
    match named_hold(held.holds, token) {
        Ok(_) => Ok(held.state[token_slot(token) as int]),
        Err(e) => Err(e),
    }
}

/// The state beside a table of `capacity` holds none of which was ever taken;
/// of one, where `capacity` is zero.
pub open spec fn unused(capacity: usize) -> Seq<HeldEpoch> {
    Seq::new(
        if capacity == 0 {
            1nat
        } else {
            capacity as nat
        },
        |i: int| HeldEpoch { epoch: 0, slot: 0 },
    )
}

/// What a handle to a table of `capacity` starts with: no token out, and the
/// first slot next.
pub open spec fn nothing_held(capacity: usize) -> HeldView {
    HeldView { holds: Seq::new(BLOCK as nat, |i: int| fresh()), state: unused(capacity), next_look: 0 }
}

/// The shared slots behind the tokens out, in order.
pub open spec fn outstanding(held: HeldView) -> Seq<usize> {
    claimed_slots(held.holds).map_values(|entry: (usize, u32)| held.state[entry.0 as int].slot)
}

/// What is held once slot `i` has been taken for `entry`.
pub open spec fn issued_from(held: HeldView, i: nat, entry: HeldEpoch) -> HeldView {
    HeldView {
        holds: held.holds.update(i as int, taken(held.holds[i as int], 0)),
        state: held.state.update(i as int, entry),
        next_look: i + 1,
    }
}

/// What is held once the token table has grown by a block.
pub open spec fn grown(held: HeldView) -> HeldView {
    HeldView { holds: held.holds + Seq::new(BLOCK as nat, |k: int| fresh()), ..held }
}

/// What is held once the token of slot `i` has been spent.
pub open spec fn spent_from(held: HeldView, i: nat) -> HeldView {
    HeldView { holds: held.holds.update(i as int, given_back(held.holds[i as int])), ..held }
}

impl HeldEpochs {
    /// The token table.
    pub closed spec fn tokens(&self) -> HoldTable {
        self.table
    }

    /// The token table keeps its side, is bounded, and has state beside each
    /// slot it may use.
    pub open spec fn wf(&self) -> bool {
        &&& self.tokens().wf()
        &&& self.tokens()@ == self@.holds
        &&& self.tokens().next_look() == self@.next_look
        &&& self.tokens().limit() matches Some(ceiling) && self@.state.len() == ceiling
    }

    /// Nothing held, and room for `capacity` holds; for one where `capacity`
    /// is zero.
    pub fn new(capacity: usize) -> (held: Self)
        ensures
            held.wf(),
            held@ == nothing_held(capacity),
    {
        let n: usize = if capacity == 0 {
            1
        } else {
            capacity
        };
        let mut state: Vec<HeldEpoch> = Vec::new();
        let mut i: usize = 0;
        while i < n
            invariant
                i <= n,
                state@ == Seq::new(i as nat, |k: int| HeldEpoch { epoch: 0, slot: 0 }),
            decreases n - i,
        {
            state.push(HeldEpoch { epoch: 0, slot: 0 });
            i += 1;
        }
        HeldEpochs { table: HoldTable::bounded(capacity), state }
    }

    /// Issue a token for `epoch` and `slot`, or `None` when as many stand as
    /// the table allows.
    pub fn take(&mut self, epoch: u64, slot: usize) -> (issued: Option<u64>)
        requires
            old(self).wf(),
        ensures
            final(self).wf(),
            final(self).tokens().limit() == old(self).tokens().limit(),
            match first_free(
                old(self)@.holds,
                old(self).tokens().usable(),
                old(self)@.next_look % old(self).tokens().usable(),
                0,
            ) {
                Some(i) => {
                    &&& i < old(self)@.state.len()
                    &&& issued == Some(token_for(i, old(self)@.holds[i as int].generation))
                    &&& final(self)@ == issued_from(old(self)@, i, HeldEpoch { epoch, slot })
                },
                None => if old(self).tokens().full_grown() {
                    issued is None && final(self)@ == old(self)@
                } else {
                    let i = old(self)@.holds.len();
                    &&& i < old(self)@.state.len()
                    &&& issued == Some(token_for(i, 1))
                    &&& final(self)@ == issued_from(grown(old(self)@), i, HeldEpoch { epoch, slot })
                },
            },
    {
        match self.table.claim(0) {
            Some(token) => {
                let at: usize = slot_of(token);
                proof {
                    let before = old(self).table;
                    match first_free(before@, before.usable(), before.next_look() % before.usable(), 0) {
                        Some(i) => {
                            a_token_names_what_it_was_made_from(i, before@[i as int].generation);
                        },
                        None => {
                            a_token_names_what_it_was_made_from(before@.len(), 1);
                        },
                    }
                }
                self.state.set(at, HeldEpoch { epoch, slot });
                Some(token)
            },
            None => None,
        }
    }

    /// The epoch `token` stands at.
    pub fn epoch_of(&self, token: u64) -> (epoch: Result<u64, ReleaseError>)
        requires
            self.wf(),
        ensures
            epoch == match held_by(self@, token) {
                Ok(held) => Ok::<u64, ReleaseError>(held.epoch),
                Err(e) => Err::<u64, ReleaseError>(e),
            },
    {
        match self.table.kind(token) {
            Ok(_) => {
                let at: usize = slot_of(token);
                assert(self@.holds[at as int].claimed);
                Ok(self.state[at].epoch)
            },
            Err(e) => Err(e),
        }
    }

    /// Spend `token`: the slot it stands for in the shared table comes back,
    /// to be given up there.
    pub fn spend(&mut self, token: u64) -> (slot: Result<usize, ReleaseError>)
        requires
            old(self).wf(),
        ensures
            final(self).wf(),
            final(self).tokens().limit() == old(self).tokens().limit(),
            match held_by(old(self)@, token) {
                Ok(held) => {
                    &&& slot == Ok::<usize, ReleaseError>(held.slot)
                    &&& final(self)@ == spent_from(old(self)@, token_slot(token))
                },
                Err(e) => slot == Err::<usize, ReleaseError>(e) && final(self)@ == old(self)@,
            },
    {
        // The slot is read before the token is released: afterwards the
        // entry belongs to whoever claims it next.
        let named: usize = slot_of(token);
        let last_index: usize = self.state.len() - 1;
        let index: usize = if named < last_index {
            named
        } else {
            last_index
        };
        let slot: usize = self.state[index].slot;
        proof {
            if named_hold(self@.holds, token) is Ok {
                assert(self@.holds[named as int].claimed);
            }
        }
        match self.table.release(token) {
            Ok(_) => Ok(slot),
            Err(e) => Err(e),
        }
    }

    /// Tokens handed out and not had back.
    pub fn live(&self) -> (n: usize)
        requires
            self.wf(),
        ensures
            n == count_claimed(self@.holds),
    {
        self.table.live()
    }

    /// Spend every token out: the slots they stand for in the shared table
    /// come back, to be given up there.
    pub fn drain(&mut self) -> (slots: Vec<usize>)
        requires
            old(self).wf(),
        ensures
            final(self).wf(),
            final(self).tokens().limit() == old(self).tokens().limit(),
            slots@ == outstanding(old(self)@),
            final(self)@ == (HeldView { holds: emptied(old(self)@.holds), ..old(self)@ }),
    {
        let ghost before = self@;
        let drained: Vec<(usize, u32)> = self.table.drain();
        let mut slots: Vec<usize> = Vec::new();
        let mut i: usize = 0;
        while i < drained.len()
            invariant
                i <= drained@.len(),
                self.state@ == before.state,
                drained@ == claimed_slots(before.holds),
                slots@ == outstanding(before).take(i as int),
                forall|k: int| before.state.len() <= k < before.holds.len() ==> !(#[trigger] before.holds[k]).claimed,
                before.holds.len() <= MAX_SLOTS,
            decreases drained@.len() - i,
        {
            proof {
                a_drained_slot_was_held(before.holds, i as int);
                assert(outstanding(before).take(i + 1) =~= outstanding(before).take(i as int).push(
                    outstanding(before)[i as int],
                ));
            }
            let index: usize = drained[i].0;
            assert(before.holds[index as int].claimed);
            slots.push(self.state[index].slot);
            i += 1;
        }
        assert(outstanding(before).take(i as int) =~= outstanding(before));
        slots
    }
}

/// What a drain reports was held.
proof fn a_drained_slot_was_held(holds: Seq<Hold>, k: int)
    requires
        0 <= k < claimed_slots(holds).len(),
        holds.len() <= MAX_SLOTS,
    ensures
        claimed_slots(holds)[k].0 < holds.len(),
        holds[claimed_slots(holds)[k].0 as int].claimed,
    decreases holds.len(),
{
    let front = holds.drop_last();
    if k < claimed_slots(front).len() {
        a_drained_slot_was_held(front, k);
    }
}

/// What one handle knows of the epoch table it names.
pub struct EpochsObject {
    mode: u32,
    pins: HeldEpochs,
    tickets: HeldEpochs,
}

impl EpochsObject {
    /// The mode the handle was created in.
    pub closed spec fn mode(&self) -> u32 {
        self.mode
    }

    /// The pins taken through the handle.
    pub closed spec fn pins(&self) -> HeldEpochs {
        self.pins
    }

    /// The tickets taken through the handle.
    pub closed spec fn tickets(&self) -> HeldEpochs {
        self.tickets
    }

    /// Both sides are in order.
    pub open spec fn wf(&self) -> bool {
        self.pins().wf() && self.tickets().wf()
    }

    /// A handle to an epoch table of `capacity` pins and as many tickets:
    /// both sides are sized to the table's own capacity, which is what it
    /// allows of each, so neither refuses where the table would not have.
    pub fn new(capacity: usize, mode: u32) -> (object: Self)
        ensures
            object.wf(),
            object.mode() == mode,
            object.pins()@ == nothing_held(capacity),
            object.tickets()@ == nothing_held(capacity),
    {
        EpochsObject { mode, pins: HeldEpochs::new(capacity), tickets: HeldEpochs::new(capacity) }
    }

    /// A snapshot, from what the shared table says.
    pub fn stats(
        &self,
        capacity: usize,
        now: u64,
        reclaim_horizon: u64,
        live_pins: usize,
        open_tickets: usize,
        file_size: usize,
    ) -> (stats: subetha_epochs_stats)
        ensures
            stats == (subetha_epochs_stats {
                mode: self.mode(),
                capacity: capacity as u64,
                now,
                reclaim_horizon,
                live_pins: live_pins as u64,
                open_tickets: open_tickets as u64,
                file_size: file_size as u64,
            }),
    {
        subetha_epochs_stats {
            mode: self.mode,
            capacity: capacity as u64,
            now,
            reclaim_horizon,
            live_pins: live_pins as u64,
            open_tickets: open_tickets as u64,
            file_size: file_size as u64,
        }
    }

    /// Spend every pin and ticket still outstanding, for a handle on its way
    /// out: the shared table outlives it, so a pin left held would hold the
    /// reclaim horizon down for every process and a ticket left open would
    /// hold the published epoch below itself, with nothing able to clear
    /// either. The pin slots to release come back, and the ticket slots to
    /// publish.
    pub fn drain(&mut self) -> (slots: (Vec<usize>, Vec<usize>))
        requires
            old(self).wf(),
        ensures
            final(self).wf(),
            slots.0@ == outstanding(old(self).pins()@),
            slots.1@ == outstanding(old(self).tickets()@),
            final(self).mode() == old(self).mode(),
            final(self).pins()@ == (HeldView {
                holds: emptied(old(self).pins()@.holds),
                ..old(self).pins()@
            }),
            final(self).tickets()@ == (HeldView {
                holds: emptied(old(self).tickets()@.holds),
                ..old(self).tickets()@
            }),
            count_claimed(final(self).pins()@.holds) == 0,
            count_claimed(final(self).tickets()@.holds) == 0,
    {
        proof {
            a_drain_takes_every_hold(self.pins@.holds);
            a_drain_takes_every_hold(self.tickets@.holds);
        }
        let pins: Vec<usize> = self.pins.drain();
        let tickets: Vec<usize> = self.tickets.drain();
        (pins, tickets)
    }
}

/// The payload behind an epoch table's handle.
pub fn with_epochs<'a, P>(last: &mut LastError, object: &'a Object<P>) -> (payload: Result<&'a P, i32>)
    ensures
        answers(
            payload,
            match *object {
                Object::Epochs(p) => Ok(&p),
                _ => Err(told(SUBETHA_E_WRONG_KIND, "the handle does not name an epoch table"@)),
            },
            old(last)@,
            final(last)@,
        ),
{
    match object {
        Object::Epochs(p) => Ok(p),
        _ => Err(fail(last, SUBETHA_E_WRONG_KIND, "the handle does not name an epoch table")),
    }
}

/// The refusal a token that names no live hold earns, worded for what it
/// was a hold of.
pub open spec fn refusal(what: Seq<char>, e: ReleaseError) -> Report {
    match e {
        ReleaseError::NotHeld => invalid_argument(
            "the token names no "@ + what + " on this table: it ended already, or never began"@,
        ),
        ReleaseError::Stale => invalid_argument(
            "the token is from a "@ + what + " that ended, and its slot has been taken since"@,
        ),
        ReleaseError::NoSuchSlot => invalid_argument("the token names no "@ + what + " slot on this table"@),
        ReleaseError::NotAToken => invalid_argument("that is a handle, not a "@ + what + " token"@),
    }
}

/// The refusal a token that names no live hold earns, worded for what it
/// was a hold of.
pub fn refuse(last: &mut LastError, what: &str, e: ReleaseError) -> (code: i32)
    ensures
        answers_code(code, refusal(what@, e), old(last)@, final(last)@),
{
    let mut text: String;
    match e {
        ReleaseError::NotHeld => {
            text = String::from_str("the token names no ");
            text.append(what);
            text.append(" on this table: it ended already, or never began");
        },
        ReleaseError::Stale => {
            text = String::from_str("the token is from a ");
            text.append(what);
            text.append(" that ended, and its slot has been taken since");
        },
        ReleaseError::NoSuchSlot => {
            text = String::from_str("the token names no ");
            text.append(what);
            text.append(" slot on this table");
        },
        ReleaseError::NotAToken => {
            text = String::from_str("that is a handle, not a ");
            text.append(what);
            text.append(" token");
        },
    }
    fail(last, SUBETHA_E_INVALID_ARGUMENT, text.as_str())
}

/// The one shape every epoch reader shares: a value for an out-parameter.
pub fn write_u64(last: &mut LastError, out_null: bool, value: u64) -> (written: Result<u64, i32>)
    ensures
        answers(
            written,
            if out_null {
                Err(invalid_argument("out is null"@))
            } else {
                Ok(value)
            },
            old(last)@,
            final(last)@,
        ),
{
    if out_null {
        Err(fail(last, SUBETHA_E_INVALID_ARGUMENT, "out is null"))
    } else {
        Ok(value)
    }
}

/// Make the object for an epoch table that was opened with `capacity` pins,
/// or answer with why it could not be.
pub fn place(last: &mut LastError, opened: Result<usize, EpochError>, mode: u32) -> (object: Result<EpochsObject, i32>)
    ensures
        match opened {
            Ok(capacity) => {
                &&& object matches Ok(made) && made.wf() && made.mode() == mode
                &&& object->Ok_0.pins()@ == nothing_held(capacity)
                &&& object->Ok_0.tickets()@ == nothing_held(capacity)
                &&& final(last)@ == old(last)@
            },
            Err(e) => answers(object, Err(epochs_code_report(e)), old(last)@, final(last)@),
        },
{
    match opened {
        Ok(capacity) => Ok(EpochsObject::new(capacity, mode)),
        Err(e) => Err(epochs_code(last, e)),
    }
}

/// What taking a pin or a ticket comes to.
#[derive(Clone, Copy, Debug)]
pub struct Taken {
    /// The code to answer with.
    pub code: i32,
    /// The token, when one was issued.
    pub token: Option<u64>,
    /// The slot of the shared table to give back, when it was claimed and no
    /// token could be issued for it.
    pub give_back: Option<usize>,
}

/// Issue a token for what the shared table claimed.
fn issue(
    held: &mut HeldEpochs,
    last: &mut LastError,
    claimed: Result<(usize, u64), EpochError>,
    exhausted: i32,
) -> (taken: Taken)
    requires
        old(held).wf(),
    ensures
        final(held).wf(),
        issue_outcome(*old(held), *final(held), claimed, exhausted, taken, old(last)@, final(last)@),
{
    match claimed {
        Ok((slot, epoch)) => match held.take(epoch, slot) {
            Some(token) => Taken { code: SUBETHA_OK, token: Some(token), give_back: None },
            None => Taken { code: exhausted, token: None, give_back: Some(slot) },
        },
        Err(e) => {
            let code: i32 = epochs_code(last, e);
            Taken { code, token: None, give_back: None }
        },
    }
}

/// Issuing a token for what the shared table claimed: the table's own
/// refusal is answered as it is; otherwise a free slot's token goes out with
/// the claim kept beside it, and where none is free the claim goes back and
/// nothing here changes.
pub open spec fn issue_outcome(
    before: HeldEpochs,
    after: HeldEpochs,
    claimed: Result<(usize, u64), EpochError>,
    exhausted: i32,
    taken: Taken,
    detail: Seq<char>,
    detail_after: Seq<char>,
) -> bool {
    &&& after.tokens().limit() == before.tokens().limit()
    &&& match claimed {
        Err(e) => {
            &&& taken == (Taken { code: epochs_code_report(e).code, token: None, give_back: None })
            &&& detail_after == epochs_code_report(e).leaves(detail)
            &&& after@ == before@
        },
        Ok((slot, epoch)) => {
            &&& detail_after == detail
            &&& match first_free(
                before@.holds,
                before.tokens().usable(),
                before@.next_look % before.tokens().usable(),
                0,
            ) {
                Some(i) => {
                    &&& taken == (Taken {
                        code: SUBETHA_OK,
                        token: Some(token_for(i, before@.holds[i as int].generation)),
                        give_back: None,
                    })
                    &&& after@ == issued_from(before@, i, HeldEpoch { epoch, slot })
                },
                None => if before.tokens().full_grown() {
                    &&& taken == (Taken { code: exhausted, token: None, give_back: Some(slot) })
                    &&& after@ == before@
                } else {
                    let i = before@.holds.len();
                    &&& taken == (Taken { code: SUBETHA_OK, token: Some(token_for(i, 1)), give_back: None })
                    &&& after@ == issued_from(grown(before@), i, HeldEpoch { epoch, slot })
                },
            }
        },
    }
}

/// Issue a token for the pin the shared table claimed, its slot there and
/// its epoch. A pin nobody could get a token for is let go rather than left
/// held, so a refusal leaves the horizon where it was.
pub fn subetha_epochs_pin(
    object: &mut EpochsObject,
    last: &mut LastError,
    claimed: Result<(usize, u64), EpochError>,
) -> (taken: Taken)
    requires
        old(object).wf(),
    ensures
        final(object).wf(),
        final(object).mode() == old(object).mode(),
        final(object).tickets() == old(object).tickets(),
        issue_outcome(
            old(object).pins(),
            final(object).pins(),
            claimed,
            SUBETHA_E_EPOCHS_PINS_EXHAUSTED,
            taken,
            old(last)@,
            final(last)@,
        ),
{
    issue(&mut object.pins, last, claimed, SUBETHA_E_EPOCHS_PINS_EXHAUSTED)
}

/// Issue a token for the ticket the shared table claimed. Publishing an
/// epoch nobody can stamp against would let readers past a write that never
/// happened, so a ticket nobody could get a token for goes back instead.
pub fn subetha_epochs_begin(
    object: &mut EpochsObject,
    last: &mut LastError,
    claimed: Result<(usize, u64), EpochError>,
) -> (taken: Taken)
    requires
        old(object).wf(),
    ensures
        final(object).wf(),
        final(object).mode() == old(object).mode(),
        final(object).pins() == old(object).pins(),
        issue_outcome(
            old(object).tickets(),
            final(object).tickets(),
            claimed,
            SUBETHA_E_EPOCHS_TICKETS_EXHAUSTED,
            taken,
            old(last)@,
            final(last)@,
        ),
{
    issue(&mut object.tickets, last, claimed, SUBETHA_E_EPOCHS_TICKETS_EXHAUSTED)
}

/// What reading the epoch of a token answers.
pub open spec fn epoch_outcome(held: HeldView, what: Seq<char>, token: u64, out_null: bool) -> Result<u64, Report> {
    match held_by(held, token) {
        Err(e) => Err(refusal(what, e)),
        Ok(held) => if out_null {
            Err(invalid_argument("out is null"@))
        } else {
            Ok(held.epoch)
        },
    }
}

/// The epoch the pin `token` names. A reader shows it to each record to
/// pick the version it should see.
pub fn subetha_pin_epoch(object: &EpochsObject, last: &mut LastError, token: u64, out_null: bool) -> (epoch: Result<
    u64,
    i32,
>)
    requires
        object.wf(),
    ensures
        answers(epoch, epoch_outcome(object.pins()@, "pin"@, token, out_null), old(last)@, final(last)@),
{
    match object.pins.epoch_of(token) {
        Ok(epoch) => write_u64(last, out_null, epoch),
        Err(e) => Err(refuse(last, "pin", e)),
    }
}

/// The epoch every record of the compound write `token` names is stamped
/// with.
pub fn subetha_ticket_epoch(object: &EpochsObject, last: &mut LastError, token: u64, out_null: bool) -> (epoch: Result<
    u64,
    i32,
>)
    requires
        object.wf(),
    ensures
        answers(epoch, epoch_outcome(object.tickets()@, "ticket"@, token, out_null), old(last)@, final(last)@),
{
    match object.tickets.epoch_of(token) {
        Ok(epoch) => write_u64(last, out_null, epoch),
        Err(e) => Err(refuse(last, "ticket", e)),
    }
}

/// Whether a pin at `epoch` sees a version superseded at `superseded_at`.
pub open spec fn sees(epoch: u64, superseded_at: u64) -> bool {
    superseded_at > epoch
}

/// Whether a version superseded at `superseded_at` is visible to this
/// pin: true when it was superseded after the pin was taken, and for
/// `SUBETHA_EPOCH_LIVE`, which is the version still current.
pub fn subetha_pin_sees(
    object: &EpochsObject,
    last: &mut LastError,
    token: u64,
    superseded_at: u64,
    out_null: bool,
) -> (visible: Result<bool, i32>)
    requires
        object.wf(),
    ensures
        answers(
            visible,
            if out_null {
                Err(invalid_argument("out is null"@))
            } else {
                match held_by(object.pins()@, token) {
                    Ok(held) => Ok(sees(held.epoch, superseded_at)),
                    Err(e) => Err(refusal("pin"@, e)),
                }
            },
            old(last)@,
            final(last)@,
        ),
{
    if out_null {
        return Err(fail(last, SUBETHA_E_INVALID_ARGUMENT, "out is null"));
    }
    match object.pins.epoch_of(token) {
        Ok(epoch) => Ok(superseded_at > epoch),
        Err(e) => Err(refuse(last, "pin", e)),
    }
}

/// What spending a token comes to: the shared slot to give up, or the
/// refusal, which changes nothing.
pub open spec fn spend_outcome(
    before: HeldView,
    after: HeldView,
    what: Seq<char>,
    token: u64,
    slot: Result<usize, i32>,
    detail: Seq<char>,
    detail_after: Seq<char>,
) -> bool {
    match held_by(before, token) {
        Ok(held) => {
            &&& slot == Ok::<usize, i32>(held.slot)
            &&& detail_after == detail
            &&& after == spent_from(before, token_slot(token))
        },
        Err(e) => {
            &&& answers(slot, Err(refusal(what, e)), detail, detail_after)
            &&& after == before
        },
    }
}

/// Let the pin `token` names go: its slot in the shared table comes back, to
/// be released there. The token names nothing afterwards; one released twice
/// is refused rather than freeing a pin slot another scan has since taken.
pub fn subetha_pin_release(object: &mut EpochsObject, last: &mut LastError, token: u64) -> (slot: Result<usize, i32>)
    requires
        old(object).wf(),
    ensures
        final(object).wf(),
        final(object).mode() == old(object).mode(),
        final(object).tickets() == old(object).tickets(),
        spend_outcome(
            old(object).pins()@,
            final(object).pins()@,
            "pin"@,
            token,
            slot,
            old(last)@,
            final(last)@,
        ),
{
    match object.pins.spend(token) {
        Ok(slot) => Ok(slot),
        Err(e) => Err(refuse(last, "pin", e)),
    }
}

/// Make the write visible: the ticket's slot in the shared table comes back,
/// to be published there. The token names nothing afterwards; one published
/// twice is refused rather than freeing a ticket slot another writer has
/// since taken.
pub fn subetha_ticket_publish(object: &mut EpochsObject, last: &mut LastError, token: u64) -> (slot: Result<
    usize,
    i32,
>)
    requires
        old(object).wf(),
    ensures
        final(object).wf(),
        final(object).mode() == old(object).mode(),
        final(object).pins() == old(object).pins(),
        spend_outcome(
            old(object).tickets()@,
            final(object).tickets()@,
            "ticket"@,
            token,
            slot,
            old(last)@,
            final(last)@,
        ),
{
    match object.tickets.spend(token) {
        Ok(slot) => Ok(slot),
        Err(e) => Err(refuse(last, "ticket", e)),
    }
}

/// Pins and tickets this handle has handed out and not had back, which a
/// caller reads to find a leak: both return to zero once every token
/// taken has been released or published.
pub fn subetha_epochs_held(object: &EpochsObject, last: &mut LastError, out_pins_null: bool, out_tickets_null: bool)
    -> (held: Result<(u64, u64), i32>)
    requires
        object.wf(),
    ensures
        answers(
            held,
            if out_pins_null || out_tickets_null {
                Err(invalid_argument("out_pins or out_tickets is null"@))
            } else {
                Ok((count_claimed(object.pins()@.holds) as u64, count_claimed(object.tickets()@.holds) as u64))
            },
            old(last)@,
            final(last)@,
        ),
{
    if out_pins_null || out_tickets_null {
        return Err(fail(last, SUBETHA_E_INVALID_ARGUMENT, "out_pins or out_tickets is null"));
    }
    Ok((object.pins.live() as u64, object.tickets.live() as u64))
}

/// Hand back the epochs whose ticket is held by a process that is gone: at
/// most as many as `out` takes, and how many there are, which may exceed it;
/// a caller that sees it exceed calls again with a larger buffer.
pub fn subetha_epochs_dead_tickets(
    last: &mut LastError,
    dead: &[u64],
    out_null: bool,
    out: &mut [u64],
    out_count_null: bool,
) -> (found: Result<usize, i32>)
    ensures
        if out_count_null || (out_null && old(out)@.len() != 0) {
            &&& answers(found, Err(invalid_argument("out or out_count is null"@)), old(last)@, final(last)@)
            &&& final(out)@ == old(out)@
        } else {
            &&& found matches Ok(count) && count == dead@.len()
            &&& final(last)@ == old(last)@
            &&& final(out)@ == if dead@.len() <= old(out)@.len() {
                dead@ + old(out)@.skip(dead@.len() as int)
            } else {
                dead@.take(old(out)@.len() as int)
            }
        },
{
    if out_count_null || (out_null && out.len() != 0) {
        return Err(fail(last, SUBETHA_E_INVALID_ARGUMENT, "out or out_count is null"));
    }
    let n: usize = if dead.len() <= out.len() {
        dead.len()
    } else {
        out.len()
    };
    let mut i: usize = 0;
    while i < n
        invariant
            i <= n,
            n <= dead@.len(),
            n <= out@.len(),
            n == dead@.len() || n == out@.len(),
            out@.len() == old(out)@.len(),
            forall|k: int| 0 <= k < i ==> out@[k] == dead@[k],
            forall|k: int| i <= k < out@.len() ==> out@[k] == old(out)@[k],
        decreases n - i,
    {
        out[i] = dead[i];
        i += 1;
    }
    Ok(dead.len())
}

/// A pin sees exactly the versions superseded after it was taken, and always
/// the version still current: no pin stands at the epoch that means live.
pub proof fn a_pin_sees_what_was_superseded_after_it(epoch: u64, superseded_at: u64)
    requires
        epoch < SUBETHA_EPOCH_LIVE,
    ensures
        sees(epoch, SUBETHA_EPOCH_LIVE),
        sees(epoch, superseded_at) <==> !(superseded_at <= epoch),
{
}

/// A token reads back the epoch it was issued at and spends to the slot it
/// was issued for, and a second spend is refused.
pub proof fn a_token_gives_back_what_it_was_issued_for(held: HeldView, i: nat, entry: HeldEpoch)
    requires
        i < held.holds.len() <= MAX_SLOTS,
        i < held.state.len(),
        !held.holds[i as int].claimed,
    ensures
        ({
            let token = token_for(i, held.holds[i as int].generation);
            let issued = issued_from(held, i, entry);
            let spent = spent_from(issued, i);
            &&& held_by(issued, token) == Ok::<HeldEpoch, ReleaseError>(entry)
            &&& held_by(spent, token) == Err::<HeldEpoch, ReleaseError>(ReleaseError::NotHeld)
        }),
{
    a_token_names_what_it_was_made_from(i, held.holds[i as int].generation);
}

/// A call on an epoch table reaches what stands behind a handle to an epoch
/// table, and nothing behind any other handle.
pub proof fn only_an_epoch_table_is_reached<P>(last: &mut LastError, object: &Object<P>, reached: Result<&P, i32>)
    requires
        call_ensures(with_epochs::<P>, (last, object), reached),
    ensures
        reached is Ok <==> *object is Epochs,
        reached matches Ok(payload) ==> *object == Object::Epochs(*payload) && final(last)@ == old(last)@,
        reached matches Err(code) ==> code == SUBETHA_E_WRONG_KIND
            && final(last)@ == "the handle does not name an epoch table"@,
{
}

/// A pin's token reads back the epoch that was claimed and is released once,
/// giving back the slot that was claimed; a second time it is refused.
pub proof fn a_pin_stands_for_what_was_claimed_until_it_is_released(
    taking: &mut EpochsObject,
    last: &mut LastError,
    slot: usize,
    epoch: u64,
    taken: Taken,
    after: &EpochsObject,
    second: &mut LastError,
    read: Result<u64, i32>,
    ending: &mut EpochsObject,
    third: &mut LastError,
    ended: Result<usize, i32>,
    again: &mut EpochsObject,
    fourth: &mut LastError,
    twice: Result<usize, i32>,
)
    requires
        old(taking).wf(),
        call_ensures(subetha_epochs_pin, (taking, last, Ok((slot, epoch))), taken),
        taken.token is Some,
        after.wf() && after.pins()@ == final(taking).pins()@,
        call_ensures(subetha_pin_epoch, (after, second, taken.token->Some_0, false), read),
        old(ending).wf() && old(ending).pins()@ == final(taking).pins()@,
        call_ensures(subetha_pin_release, (ending, third, taken.token->Some_0), ended),
        old(again).wf() && old(again).pins()@ == final(ending).pins()@,
        call_ensures(subetha_pin_release, (again, fourth, taken.token->Some_0), twice),
    ensures
        read == Ok::<u64, i32>(epoch),
        ended == Ok::<usize, i32>(slot),
        twice == Err::<usize, i32>(SUBETHA_E_INVALID_ARGUMENT),
{
    let held = old(taking).pins();
    let usable = held.tokens().usable();
    a_walk_finds_a_free_slot(held@.holds, usable, held@.next_look % usable, 0);
    match first_free(held@.holds, usable, held@.next_look % usable, 0) {
        Some(i) => a_token_gives_back_what_it_was_issued_for(held@, i, HeldEpoch { epoch, slot }),
        None => {
            let wide = grown(held@);
            assert(wide.holds[held@.holds.len() as int] == fresh());
            a_token_gives_back_what_it_was_issued_for(wide, held@.holds.len(), HeldEpoch { epoch, slot });
        },
    }
}

/// A pin that was claimed either has a token, or is handed back and refused as
/// exhausted with nothing changed; one that was not claimed has neither. The
/// tickets never change.
pub proof fn a_pin_nobody_can_name_is_let_go(
    object: &mut EpochsObject,
    last: &mut LastError,
    claimed: Result<(usize, u64), EpochError>,
    taken: Taken,
    other: &mut LastError,
    code: i32,
)
    requires
        old(object).wf(),
        call_ensures(subetha_epochs_pin, (object, last, claimed), taken),
        claimed matches Err(e) ==> call_ensures(epochs_code, (other, e), code),
        old(last)@ == old(other)@,
    ensures
        taken.code == SUBETHA_OK <==> taken.token is Some,
        taken.token is Some ==> claimed is Ok && taken.give_back is None && final(last)@ == old(last)@,
        claimed is Ok && taken.token is None ==> taken.code == SUBETHA_E_EPOCHS_PINS_EXHAUSTED
            && taken.give_back == Some(claimed->Ok_0.0) && final(object).pins()@ == old(object).pins()@,
        claimed is Err ==> taken.code == code && taken.token is None && taken.give_back is None
            && final(object).pins()@ == old(object).pins()@ && final(last)@ == final(other)@,
        final(object).tickets() == old(object).tickets() && final(object).mode() == old(object).mode(),
{
    if let Err(e) = claimed {
        no_epoch_error_is_a_success(e);
    }
}

/// A ticket's token reads back the epoch that was claimed and is published
/// once, giving back the slot that was claimed; a second time it is refused.
pub proof fn a_ticket_stands_for_what_was_claimed_until_it_is_published(
    taking: &mut EpochsObject,
    last: &mut LastError,
    slot: usize,
    epoch: u64,
    taken: Taken,
    after: &EpochsObject,
    second: &mut LastError,
    read: Result<u64, i32>,
    ending: &mut EpochsObject,
    third: &mut LastError,
    ended: Result<usize, i32>,
    again: &mut EpochsObject,
    fourth: &mut LastError,
    twice: Result<usize, i32>,
)
    requires
        old(taking).wf(),
        call_ensures(subetha_epochs_begin, (taking, last, Ok((slot, epoch))), taken),
        taken.token is Some,
        after.wf() && after.tickets()@ == final(taking).tickets()@,
        call_ensures(subetha_ticket_epoch, (after, second, taken.token->Some_0, false), read),
        old(ending).wf() && old(ending).tickets()@ == final(taking).tickets()@,
        call_ensures(subetha_ticket_publish, (ending, third, taken.token->Some_0), ended),
        old(again).wf() && old(again).tickets()@ == final(ending).tickets()@,
        call_ensures(subetha_ticket_publish, (again, fourth, taken.token->Some_0), twice),
    ensures
        read == Ok::<u64, i32>(epoch),
        ended == Ok::<usize, i32>(slot),
        twice == Err::<usize, i32>(SUBETHA_E_INVALID_ARGUMENT),
{
    let held = old(taking).tickets();
    let usable = held.tokens().usable();
    a_walk_finds_a_free_slot(held@.holds, usable, held@.next_look % usable, 0);
    match first_free(held@.holds, usable, held@.next_look % usable, 0) {
        Some(i) => a_token_gives_back_what_it_was_issued_for(held@, i, HeldEpoch { epoch, slot }),
        None => {
            let wide = grown(held@);
            assert(wide.holds[held@.holds.len() as int] == fresh());
            a_token_gives_back_what_it_was_issued_for(wide, held@.holds.len(), HeldEpoch { epoch, slot });
        },
    }
}

/// A ticket that was claimed either has a token, or is handed back and refused
/// as exhausted with nothing changed; one that was not claimed has neither.
/// The pins never change.
pub proof fn a_ticket_nobody_can_name_is_let_go(
    object: &mut EpochsObject,
    last: &mut LastError,
    claimed: Result<(usize, u64), EpochError>,
    taken: Taken,
    other: &mut LastError,
    code: i32,
)
    requires
        old(object).wf(),
        call_ensures(subetha_epochs_begin, (object, last, claimed), taken),
        claimed matches Err(e) ==> call_ensures(epochs_code, (other, e), code),
        old(last)@ == old(other)@,
    ensures
        taken.code == SUBETHA_OK <==> taken.token is Some,
        taken.token is Some ==> claimed is Ok && taken.give_back is None && final(last)@ == old(last)@,
        claimed is Ok && taken.token is None ==> taken.code == SUBETHA_E_EPOCHS_TICKETS_EXHAUSTED
            && taken.give_back == Some(claimed->Ok_0.0) && final(object).tickets()@ == old(object).tickets()@,
        claimed is Err ==> taken.code == code && taken.token is None && taken.give_back is None
            && final(object).tickets()@ == old(object).tickets()@ && final(last)@ == final(other)@,
        final(object).pins() == old(object).pins() && final(object).mode() == old(object).mode(),
{
    if let Err(e) = claimed {
        no_epoch_error_is_a_success(e);
    }
}

proof fn no_epoch_error_is_a_success(e: EpochError)
    ensures
        epochs_code_report(e).code != SUBETHA_OK,
{
}

/// A token is spent only where it names a hold; any other value is refused and
/// changes nothing, whichever side it is given to.
pub proof fn a_token_that_names_no_hold_ends_nothing(
    object: &mut EpochsObject,
    last: &mut LastError,
    token: u64,
    slot: Result<usize, i32>,
    publishing: &mut EpochsObject,
    other: &mut LastError,
    published: Result<usize, i32>,
)
    requires
        old(object).wf(),
        call_ensures(subetha_pin_release, (object, last, token), slot),
        old(publishing).wf(),
        call_ensures(subetha_ticket_publish, (publishing, other, token), published),
    ensures
        slot is Ok ==> count_claimed(final(object).pins()@.holds) == count_claimed(old(object).pins()@.holds) - 1 && final(last)@ == old(last)@,
        slot is Err ==> slot->Err_0 == SUBETHA_E_INVALID_ARGUMENT && final(object).pins()@ == old(object).pins()@,
        token < 0x8000_0000_0000_0000 ==> slot is Err && published is Err,
        published is Ok ==> count_claimed(final(publishing).tickets()@.holds) == count_claimed(old(publishing).tickets()@.holds) - 1 && final(other)@ == old(other)@,
        published is Err ==> published->Err_0 == SUBETHA_E_INVALID_ARGUMENT
            && final(publishing).tickets()@ == old(publishing).tickets()@,
        final(object).tickets() == old(object).tickets() && final(publishing).pins() == old(publishing).pins(),
{
    the_tag_is_the_top_bit(token);
    if slot is Ok {
        let holds = old(object).pins()@.holds;
        the_count_follows_a_slot(holds, token_slot(token) as int, given_back(holds[token_slot(token) as int]));
    }
    if published is Ok {
        let holds = old(publishing).tickets()@.holds;
        the_count_follows_a_slot(holds, token_slot(token) as int, given_back(holds[token_slot(token) as int]));
    }
}

/// A pin sees a version exactly when the version was superseded after the
/// epoch the pin reads as.
pub proof fn a_pin_sees_a_version_exactly_while_it_was_current(
    object: &EpochsObject,
    last: &mut LastError,
    token: u64,
    superseded_at: u64,
    visible: Result<bool, i32>,
    other: &mut LastError,
    epoch: Result<u64, i32>,
)
    requires
        object.wf(),
        call_ensures(subetha_pin_sees, (object, last, token, superseded_at, false), visible),
        call_ensures(subetha_pin_epoch, (object, other, token, false), epoch),
    ensures
        visible is Ok <==> epoch is Ok,
        visible matches Ok(seen) ==> (seen <==> superseded_at > epoch->Ok_0) && final(last)@ == old(last)@,
        visible matches Err(code) ==> code == SUBETHA_E_INVALID_ARGUMENT,
{
}

/// What is told of a token, a count or a number is told only where there is a
/// place for it.
pub proof fn an_answer_needs_a_place(
    object: &EpochsObject,
    last: &mut LastError,
    token: u64,
    superseded_at: u64,
    visible: Result<bool, i32>,
    other: &mut LastError,
    epoch: Result<u64, i32>,
    third: &mut LastError,
    out_pins_null: bool,
    out_tickets_null: bool,
    held: Result<(u64, u64), i32>,
    fourth: &mut LastError,
    out_null: bool,
    value: u64,
    written: Result<u64, i32>,
)
    requires
        object.wf(),
        call_ensures(subetha_pin_sees, (object, last, token, superseded_at, true), visible),
        call_ensures(subetha_pin_epoch, (object, other, token, true), epoch),
        call_ensures(subetha_epochs_held, (object, third, out_pins_null, out_tickets_null), held),
        call_ensures(write_u64, (fourth, out_null, value), written),
    ensures
        visible == Err::<bool, i32>(SUBETHA_E_INVALID_ARGUMENT),
        epoch == Err::<u64, i32>(SUBETHA_E_INVALID_ARGUMENT),
        held is Ok <==> !out_pins_null && !out_tickets_null,
        held matches Err(code) ==> code == SUBETHA_E_INVALID_ARGUMENT,
        written is Ok <==> !out_null,
        written matches Ok(v) ==> v == value && final(fourth)@ == old(fourth)@,
        written matches Err(code) ==> code == SUBETHA_E_INVALID_ARGUMENT,
{
}

/// What is held is counted apart for pins and for tickets; a new table holds
/// none of either, under the mode it was made in.
pub proof fn a_table_tells_how_many_it_holds(
    object: &EpochsObject,
    last: &mut LastError,
    held: Result<(u64, u64), i32>,
    capacity: usize,
    mode: u32,
    made: EpochsObject,
    other: &mut LastError,
    none: Result<(u64, u64), i32>,
)
    requires
        object.wf(),
        call_ensures(subetha_epochs_held, (object, last, false, false), held),
        call_ensures(EpochsObject::new, (capacity, mode), made),
        call_ensures(subetha_epochs_held, (&made, other, false, false), none),
    ensures
        held is Ok && held->Ok_0.0 == count_claimed(object.pins()@.holds)
            && held->Ok_0.1 == count_claimed(object.tickets()@.holds),
        none == Ok::<(u64, u64), i32>((0, 0)),
        made.mode() == mode,
{
    the_count_is_at_most_the_length(object.pins()@.holds);
    the_count_is_at_most_the_length(object.tickets()@.holds);
    free_slots_do_not_count(Seq::empty(), made.pins()@.holds);
    free_slots_do_not_count(Seq::empty(), made.tickets()@.holds);
    assert(Seq::<Hold>::empty() + made.pins()@.holds =~= made.pins()@.holds);
    assert(Seq::<Hold>::empty() + made.tickets()@.holds =~= made.tickets()@.holds);
}

/// A drain hands back the shared slot behind each token that was out, pins and
/// tickets apart, and leaves none out.
pub proof fn a_drain_hands_back_every_slot_behind_a_token(
    object: &mut EpochsObject,
    slots: (Vec<usize>, Vec<usize>),
    i: int,
)
    requires
        old(object).wf(),
        call_ensures(EpochsObject::drain, (object,), slots),
    ensures
        slots.0@.len() == count_claimed(old(object).pins()@.holds)
            && slots.1@.len() == count_claimed(old(object).tickets()@.holds),
        count_claimed(final(object).pins()@.holds) == 0 && count_claimed(final(object).tickets()@.holds) == 0,
        0 <= i < old(object).pins()@.holds.len() && old(object).pins()@.holds[i].claimed
            ==> slots.0@.contains(old(object).pins()@.state[i].slot),
        0 <= i < old(object).tickets()@.holds.len() && old(object).tickets()@.holds[i].claimed
            ==> slots.1@.contains(old(object).tickets()@.state[i].slot),
        final(object).mode() == old(object).mode(),
{
    every_slot_behind_a_token_is_outstanding(old(object).pins()@, i);
    every_slot_behind_a_token_is_outstanding(old(object).tickets()@, i);
}

proof fn every_slot_behind_a_token_is_outstanding(held: HeldView, i: int)
    requires
        held.holds.len() <= MAX_SLOTS,
    ensures
        outstanding(held).len() == count_claimed(held.holds),
        0 <= i < held.holds.len() && held.holds[i].claimed ==> outstanding(held).contains(held.state[i].slot),
{
    a_drain_takes_every_hold(held.holds);
    if 0 <= i < held.holds.len() && held.holds[i].claimed {
        let entry = (i as usize, held.holds[i].kind);
        assert(claimed_slots(held.holds).contains(entry));
        let k = choose|k: int| 0 <= k < claimed_slots(held.holds).len() && claimed_slots(held.holds)[k] == entry;
        assert(outstanding(held)[k] == held.state[i].slot);
    }
}

/// A snapshot reports each thing it was handed under that thing's own name.
pub proof fn a_snapshot_reports_each_thing_as_it_is(
    object: &EpochsObject,
    capacity: usize,
    now: u64,
    reclaim_horizon: u64,
    live_pins: usize,
    open_tickets: usize,
    file_size: usize,
    shown: subetha_epochs_stats,
)
    requires
        call_ensures(EpochsObject::stats, (object, capacity, now, reclaim_horizon, live_pins, open_tickets,
            file_size), shown),
    ensures
        shown.mode == object.mode() && shown.capacity == capacity && shown.now == now,
        shown.reclaim_horizon == reclaim_horizon && shown.live_pins == live_pins,
        shown.open_tickets == open_tickets && shown.file_size == file_size,
{
}

/// All dead tickets are counted whatever the buffer, and as many as fit are
/// told, in order from the front; with nowhere to count, nothing is told.
pub proof fn dead_tickets_are_counted_and_told_as_far_as_they_fit(
    last: &mut LastError,
    dead: &[u64],
    out_null: bool,
    out: &mut [u64],
    out_count_null: bool,
    found: Result<usize, i32>,
    i: int,
)
    requires
        call_ensures(subetha_epochs_dead_tickets, (last, dead, out_null, out, out_count_null), found),
    ensures
        found is Ok <==> !out_count_null && (!out_null || old(out)@.len() == 0),
        found matches Ok(n) ==> n == dead@.len() && final(last)@ == old(last)@,
        found matches Err(code) ==> code == SUBETHA_E_INVALID_ARGUMENT && final(out)@ == old(out)@,
        final(out)@.len() == old(out)@.len(),
        found is Ok && 0 <= i < old(out)@.len() && i < dead@.len() ==> final(out)@[i] == dead@[i],
        found is Ok && dead@.len() <= i < old(out)@.len() ==> final(out)@[i] == old(out)@[i],
{
}

/// An epoch table that opened holds no pin and no ticket, in the mode it was
/// given; one that did not is answered exactly as its error is.
pub proof fn an_epoch_table_that_opened_holds_nothing_yet(
    last: &mut LastError,
    other: &mut LastError,
    opened: Result<usize, EpochError>,
    mode: u32,
    object: Result<EpochsObject, i32>,
    code: i32,
)
    requires
        call_ensures(place, (last, opened, mode), object),
        opened matches Err(e) ==> call_ensures(epochs_code, (other, e), code),
        old(last)@ == old(other)@,
    ensures
        object is Ok <==> opened is Ok,
        object matches Ok(made) ==> made.wf() && made.mode() == mode && final(last)@ == old(last)@,
        object matches Ok(made) ==> forall|i: int| 0 <= i < made.pins()@.holds.len()
            ==> !(#[trigger] made.pins()@.holds[i]).claimed,
        object matches Ok(made) ==> forall|i: int| 0 <= i < made.tickets()@.holds.len()
            ==> !(#[trigger] made.tickets()@.holds[i]).claimed,
        opened is Ok && opened->Ok_0 > 0 ==> object->Ok_0.pins().tokens().limit() == Some(opened->Ok_0)
            && object->Ok_0.tickets().tokens().limit() == Some(opened->Ok_0),
        opened is Err ==> object is Err && object->Err_0 == code && final(last)@ == final(other)@,
{
}

/// The numbers callers give and are given, as they were built against them.
pub proof fn the_numbers_are_the_ones_callers_know()
    ensures
        SUBETHA_EPOCH_LIVE == 0xFFFF_FFFF_FFFF_FFFF,
{
}

/// Whatever is wrong with a token, it is the argument that is at fault.
pub proof fn a_token_that_names_no_hold_is_an_argument_at_fault(
    last: &mut LastError,
    what: &str,
    e: ReleaseError,
    code: i32,
)
    requires
        call_ensures(refuse, (last, what, e), code),
    ensures
        code == SUBETHA_E_INVALID_ARGUMENT,
        e is NotHeld ==> final(last)@ == "the token names no "@ + what@
            + " on this table: it ended already, or never began"@,
        e is Stale ==> final(last)@ == "the token is from a "@ + what@
            + " that ended, and its slot has been taken since"@,
        e is NoSuchSlot ==> final(last)@ == "the token names no "@ + what@ + " slot on this table"@,
        e is NotAToken ==> final(last)@ == "that is a handle, not a "@ + what@ + " token"@,
{
}

/// What is taken reads back the epoch it was taken at and is spent to the slot
/// it was taken for, once; each counts while it stands.
pub proof fn what_is_taken_reads_back_and_is_spent_once(
    taking: &mut HeldEpochs,
    epoch: u64,
    slot: usize,
    issued: Option<u64>,
    after: &HeldEpochs,
    read: Result<u64, ReleaseError>,
    live: usize,
    spending: &mut HeldEpochs,
    spent: Result<usize, ReleaseError>,
    again: &mut HeldEpochs,
    twice: Result<usize, ReleaseError>,
)
    requires
        old(taking).wf(),
        call_ensures(HeldEpochs::take, (taking, epoch, slot), issued),
        issued is Some,
        after.wf() && after@ == final(taking)@,
        call_ensures(HeldEpochs::epoch_of, (after, issued->Some_0), read),
        call_ensures(HeldEpochs::live, (after,), live),
        old(spending).wf() && old(spending)@ == final(taking)@,
        call_ensures(HeldEpochs::spend, (spending, issued->Some_0), spent),
        old(again).wf() && old(again)@ == final(spending)@,
        call_ensures(HeldEpochs::spend, (again, issued->Some_0), twice),
    ensures
        read == Ok::<u64, ReleaseError>(epoch),
        spent == Ok::<usize, ReleaseError>(slot),
        twice == Err::<usize, ReleaseError>(ReleaseError::NotHeld),
        live == count_claimed(old(taking)@.holds) + 1,
{
    let held = old(taking)@;
    let usable = old(taking).tokens().usable();
    a_walk_finds_a_free_slot(held.holds, usable, held.next_look % usable, 0);
    match first_free(held.holds, usable, held.next_look % usable, 0) {
        Some(i) => {
            a_token_gives_back_what_it_was_issued_for(held, i, HeldEpoch { epoch, slot });
            the_count_follows_a_slot(held.holds, i as int, taken(held.holds[i as int], 0));
        },
        None => {
            let wide = grown(held);
            let n = held.holds.len();
            assert(wide.holds[n as int] == fresh());
            a_token_gives_back_what_it_was_issued_for(wide, n, HeldEpoch { epoch, slot });
            free_slots_do_not_count(held.holds, Seq::new(BLOCK as nat, |k: int| fresh()));
            the_count_follows_a_slot(wide.holds, n as int, taken(fresh(), 0));
        },
    }
}

} // verus!
