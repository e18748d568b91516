//! The slot table behind every hold a caller takes and gives back: a
//! lock's read or write hold, a semaphore's permit, an epoch pin, an
//! epoch ticket.
//!
//! # How a token stays exact
//!
//! Each slot carries a generation that steps on every release. A token
//! names a slot and the generation it was claimed at, so a token released
//! twice fails its second check against a generation that has moved on,
//! and a token from an earlier hold of the same slot fails the same way.
//!
//! # Why it grows
//!
//! Some of the primitives beneath cap what a table would need - one
//! writer, a number of permits, the epoch table's pin capacity - and some
//! do not: a read lock counts its readers and sets no ceiling. A fixed
//! table would therefore invent a limit that is not the lock's.
//!
//! So it grows, in blocks that are appended and never moved. A token names
//! an absolute slot index, and appending leaves every existing index
//! meaning what it did, so a hold taken before a growth is unaffected by
//! one.

use vstd::arithmetic::div_mod::{lemma_mod_add_multiples_vanish, lemma_small_mod};
use vstd::prelude::*;

verus! {

/// A slot's word: the generation in the high half, and in the low half
/// the kind the hold was taken as, with bit 0 saying it is claimed.
pub const CLAIMED: u64 = 1;

/// Where the kind begins in a slot's word.
pub const KIND_SHIFT: u32 = 1;

/// The bits of the kind in a slot's word.
pub const KIND_MASK: u64 = 0xFE;

/// Where the generation begins in a slot's word.
pub const GENERATION_SHIFT: u32 = 32;

/// Set on every token, and never on a handle: a handle's index counts up
/// from zero, so the top bit of one is always clear. A value handed to
/// the wrong one of the two is refused on this bit rather than decoded as
/// a plausible member of the other family.
pub const TOKEN_TAG: u64 = 0x8000_0000_0000_0000;

/// Bit 62 belongs to the family that issued the token; a lock says read
/// or write with it. The slot index has the thirty bits below that, and a
/// table refuses to grow past `MAX_SLOTS` rather than wrap into them.
pub const MAX_SLOTS: usize = 0x4000_0000;

/// Where the slot begins in a token.
pub const SLOT_SHIFT: u32 = 32;

/// The bits of the slot in a token.
pub const SLOT_MASK: u64 = 0x3FFF_FFFF_0000_0000;

/// Slots per block. Blocks are appended and never moved, so a slot's
/// index means the same thing for the life of the table.
pub const BLOCK: usize = 64;

/// One slot: the generation it stands at, the kind it is held as, and
/// whether it is held.
pub struct Hold {
    /// Steps on every release.
    pub generation: u32,
    /// What the hold was taken as; seven bits.
    pub kind: u32,
    /// Whether the slot is held.
    pub claimed: bool,
}

/// The slot a word stands for.
pub open spec fn hold_of(word: u64) -> Hold {
    Hold {
        generation: (word >> GENERATION_SHIFT) as u32,
        kind: ((word & KIND_MASK) >> KIND_SHIFT) as u32,
        claimed: word & CLAIMED != 0,
    }
}

/// The generation half of a slot's word.
pub fn generation_of(word: u64) -> (generation: u32)
    ensures
        generation == hold_of(word).generation,
{
    (word >> GENERATION_SHIFT) as u32
}

/// Whether a slot's word says it is held.
pub fn is_claimed(word: u64) -> (claimed: bool)
    ensures
        claimed == hold_of(word).claimed,
{
    word & CLAIMED != 0
}

/// The kind in a slot's word.
pub fn kind_of(word: u64) -> (kind: u32)
    ensures
        kind == hold_of(word).kind,
{
    ((word & KIND_MASK) >> KIND_SHIFT) as u32
}

/// The word for a slot: its generation over thirty-two bits that hold seven
/// bits of the kind and whether it is claimed, and nothing else.
pub fn word(generation: u32, kind: u32, claimed: bool) -> (w: u64)
    ensures
        w == ((generation as u64) << 32) | (((kind as u64) << 1) & 0xFE) | (if claimed {
            1u64
        } else {
            0u64
        }),
        hold_of(w) == (Hold { generation, kind: kind % 128, claimed }),
{
    let bit: u64 = if claimed {
        1
    } else {
        0
    };
    let w: u64 = ((generation as u64) << GENERATION_SHIFT) | (((kind as u64) << KIND_SHIFT) & KIND_MASK) | bit;
    assert((w >> 32) as u32 == generation && ((w & 0xFE) >> 1) as u32 == kind % 128 && (w & 1 != 0) == (bit
        == 1)) by (bit_vector)
        requires
            bit == 0 || bit == 1,
            w == ((generation as u64) << 32u32) | (((kind as u64) << 1u32) & 0xFE) | bit,
    ;
    w
}

/// Whether `value` carries the tag every token does.
pub open spec fn tagged(value: u64) -> bool {
    value & TOKEN_TAG != 0
}

/// The slot a token names.
pub open spec fn token_slot(token: u64) -> nat {
    ((token & SLOT_MASK) >> SLOT_SHIFT) as nat
}

/// The generation a token names.
pub open spec fn token_generation(token: u64) -> u32 {
    token as u32
}

/// The token naming `slot` at `generation`.
pub open spec fn token_for(slot: nat, generation: u32) -> u64 {
    TOKEN_TAG | (((slot as u64) << SLOT_SHIFT) & SLOT_MASK) | (generation as u64)
}

/// Whether `value` is a hold token rather than a handle.
pub fn is_token(value: u64) -> (yes: bool)
    ensures
        yes == tagged(value),
{
    value & TOKEN_TAG != 0
}

/// The slot a token names, for a family carrying per-hold state of its own
/// in an array beside the table. The tag and the family bit are not part
/// of the index and are masked off here rather than at each caller.
pub fn slot_of(token: u64) -> (slot: usize)
    ensures
        slot == token_slot(token),
        slot < MAX_SLOTS,
{
    assert(((token & SLOT_MASK) >> SLOT_SHIFT) < 0x4000_0000) by (bit_vector);
    ((token & SLOT_MASK) >> SLOT_SHIFT) as usize
}

/// The value a caller carries between taking a hold and giving it back.
/// It names a slot and the generation that slot stood at, which is what
/// makes a stale one recognizable rather than merely unlikely.
pub fn token(slot: usize, generation: u32) -> (t: u64)
    ensures
        t == token_for(slot as nat, generation),
{
    TOKEN_TAG | (((slot as u64) << SLOT_SHIFT) & SLOT_MASK) | (generation as u64)
}

/// The slot and the generation a token names.
pub fn split(token: u64) -> (named: (usize, u32))
    ensures
        named.0 == token_slot(token),
        named.0 < MAX_SLOTS,
        named.1 == token_generation(token),
{
    (slot_of(token), token as u32)
}

/// A token carries the tag, and names the slot and the generation it was
/// made from, for every slot a table can hold.
pub proof fn a_token_names_what_it_was_made_from(slot: nat, generation: u32)
    requires
        slot < MAX_SLOTS,
    ensures
        tagged(token_for(slot, generation)),
        token_slot(token_for(slot, generation)) == slot,
        token_generation(token_for(slot, generation)) == generation,
{
    let s = slot as u64;
    let t = token_for(slot, generation);
    assert(t & TOKEN_TAG != 0 && (t & SLOT_MASK) >> SLOT_SHIFT == s && t as u32 == generation) by (bit_vector)
        requires
            s < 0x4000_0000,
            t == TOKEN_TAG | ((s << SLOT_SHIFT) & SLOT_MASK) | (generation as u64),
    ;
}

/// A value is a token exactly when its top bit is set.
pub proof fn the_tag_is_the_top_bit(value: u64)
    ensures
        tagged(value) <==> value >= 0x8000_0000_0000_0000,
{
    assert(value & TOKEN_TAG != 0 <==> value >= 0x8000_0000_0000_0000) by (bit_vector);
}

/// Why a release was refused, so each family can say it in its own words.
#[derive(Debug, Clone, Copy, PartialEq, Eq, Structural)]
pub enum ReleaseError {
    /// The token names no slot in this table.
    NoSuchSlot,
    /// The slot is not held: either it never was, or this token has
    /// already been given back once.
    NotHeld,
    /// The slot is held, but at a later generation - so this token
    /// belongs to a hold that ended and the slot has been taken since.
    Stale,
    /// The value carries no token tag, so it is a handle or a forgery
    /// rather than a hold this table ever issued.
    NotAToken,
}

/// The hold `token` names in a table whose slots are `slots`, or why it
/// names none.
pub open spec fn named_hold(slots: Seq<Hold>, token: u64) -> Result<Hold, ReleaseError> {
    if !tagged(token) {
        Err(ReleaseError::NotAToken)
    } else if token_slot(token) >= slots.len() {
        Err(ReleaseError::NoSuchSlot)
    } else {
        let hold = slots[token_slot(token) as int];
        if !hold.claimed {
            Err(ReleaseError::NotHeld)
        } else if hold.generation != token_generation(token) {
            Err(ReleaseError::Stale)
        } else {
            Ok(hold)
        }
    }
}

/// A slot nobody has ever held.
pub open spec fn fresh() -> Hold {
    Hold { generation: 1, kind: 0, claimed: false }
}

/// A slot taken as `kind`.
pub open spec fn taken(hold: Hold, kind: u32) -> Hold {
    Hold { generation: hold.generation, kind: kind % 128, claimed: true }
}

/// A slot given back: free, one generation on.
pub open spec fn given_back(hold: Hold) -> Hold {
    Hold { generation: next_generation(hold.generation), kind: 0, claimed: false }
}

/// The generation after `generation`; it wraps.
pub open spec fn next_generation(generation: u32) -> u32 {
    if generation == u32::MAX {
        0
    } else {
        (generation + 1) as u32
    }
}

/// The first free slot on a walk of the first `usable` slots that starts at
/// `start` and wraps round, `step` steps having been taken.
pub open spec fn first_free(slots: Seq<Hold>, usable: nat, start: nat, step: nat) -> Option<nat>
    decreases usable - step,
{
    if step >= usable {
        None
    } else {
        let i = (start + step) % usable;
        if !slots[i as int].claimed {
            Some(i)
        } else {
            first_free(slots, usable, start, step + 1)
        }
    }
}

/// How many of `slots` are held.
pub open spec fn count_claimed(slots: Seq<Hold>) -> nat
    decreases slots.len(),
{
    if slots.len() == 0 {
        0
    } else {
        count_claimed(slots.drop_last()) + if slots.last().claimed {
            1nat
        } else {
            0nat
        }
    }
}

/// The held slots in order, each with the kind it is held as.
pub open spec fn claimed_slots(slots: Seq<Hold>) -> Seq<(usize, u32)>
    decreases slots.len(),
{
    if slots.len() == 0 {
        seq![]
    } else if slots.last().claimed {
        claimed_slots(slots.drop_last()).push(((slots.len() - 1) as usize, slots.last().kind))
    } else {
        claimed_slots(slots.drop_last())
    }
}

/// Every held slot given back, the others as they were.
pub open spec fn emptied(slots: Seq<Hold>) -> Seq<Hold> {
    slots.map_values(
        |hold: Hold|
            if hold.claimed {
                given_back(hold)
            } else {
                hold
            },
    )
}

/// A block of slots nobody has held.
///
/// Generation 1 rather than 0, so a token is never all zeroes and a caller
/// passing an uninitialized variable is refused rather than resolving to
/// slot 0's first hold.
pub fn fresh_block() -> (block: Vec<u64>)
    ensures
        block@.len() == BLOCK,
        forall|i: int| 0 <= i < block@.len() ==> #[trigger] block@[i] == 0x1_0000_0000,
        forall|i: int| 0 <= i < block@.len() ==> hold_of(#[trigger] block@[i]) == fresh(),
{
    let mut slots: Vec<u64> = Vec::with_capacity(BLOCK);
    let mut i: usize = 0;
    while i < BLOCK
        invariant
            i <= BLOCK,
            slots@.len() == i,
            forall|k: int| 0 <= k < slots@.len() ==> #[trigger] slots@[k] == 0x1_0000_0000,
            forall|k: int| 0 <= k < slots@.len() ==> hold_of(#[trigger] slots@[k]) == fresh(),
        decreases BLOCK - i,
    {
        assert(((1u32 as u64) << 32) | (((0u32 as u64) << 1) & 0xFE) | 0u64 == 0x1_0000_0000) by (bit_vector);
        slots.push(word(1, 0, false));
        i += 1;
    }
    slots
}

/// The table. One owner changes it at a time.
pub struct HoldTable {
    words: Vec<u64>,
    /// The most slots this table may ever hold, when the primitive
    /// beneath has a limit of its own. `None` where it has none: a table
    /// that stopped growing would refuse a hold the primitive itself would
    /// have allowed.
    ceiling: Option<usize>,
    /// Where the next claim starts looking. Only a hint: a claim is
    /// correct from any starting point, and this keeps a table whose
    /// early slots are held from walking them every time.
    hint: usize,
}

impl View for HoldTable {
    type V = Seq<Hold>;

    closed spec fn view(&self) -> Seq<Hold> {
        self.words@.map_values(|w: u64| hold_of(w))
    }
}

impl HoldTable {
    /// The most slots the table may ever hold, when there is a limit.
    pub closed spec fn limit(&self) -> Option<usize> {
        self.ceiling
    }

    /// The slot the next claim looks at first.
    pub closed spec fn next_look(&self) -> nat {
        self.hint as nat
    }

    /// Slots a claim may use: a block holds sixty-four slots however small
    /// the ceiling is, so the ceiling bounds the walk.
    pub open spec fn usable(&self) -> nat {
        match self.limit() {
            Some(ceiling) => if ceiling <= self@.len() {
                ceiling as nat
            } else {
                self@.len()
            },
            None => self@.len(),
        }
    }

    /// Whether the table may not grow any further.
    pub open spec fn full_grown(&self) -> bool {
        self@.len() >= MAX_SLOTS || (self.limit() matches Some(ceiling) && self@.len() >= ceiling)
    }

    /// The slots come in whole blocks, no more of them than a token can
    /// name; nothing past the ceiling is ever held.
    pub open spec fn wf(&self) -> bool {
        &&& BLOCK <= self@.len() <= MAX_SLOTS
        &&& self@.len() % (BLOCK as nat) == 0
        &&& self.limit() matches Some(ceiling) ==> ceiling >= 1
        &&& self.next_look() <= self.usable()
        &&& forall|i: int| self.usable() <= i < self@.len() ==> !(#[trigger] self@[i]).claimed
    }

    /// A table for a primitive that limits how many holds can stand at
    /// once. It never grows past `ceiling`, because reaching it means the
    /// primitive would have refused anyway.
    pub fn bounded(ceiling: usize) -> (table: Self)
        ensures
            table.wf(),
            table.limit() == Some(if ceiling == 0 {
                1usize
            } else {
                ceiling
            }),
            table@ == Seq::new(BLOCK as nat, |i: int| fresh()),
            table.next_look() == 0,
    {
        if ceiling == 0 {
            Self::build(Some(1))
        } else {
            Self::build(Some(ceiling))
        }
    }

    /// A table for a primitive that sets no such limit, which grows to
    /// whatever the caller actually holds at once.
    pub fn unbounded() -> (table: Self)
        ensures
            table.wf(),
            table.limit() is None,
            table@ == Seq::new(BLOCK as nat, |i: int| fresh()),
            table.next_look() == 0,
    {
        Self::build(None)
    }

    fn build(ceiling: Option<usize>) -> (table: Self)
        requires
            ceiling matches Some(c) ==> c >= 1,
        ensures
            table.wf(),
            table.limit() == ceiling,
            table@ == Seq::new(BLOCK as nat, |i: int| fresh()),
            table.next_look() == 0,
    {
        let table = HoldTable { words: fresh_block(), ceiling, hint: 0 };
        assert(table@ =~= Seq::new(BLOCK as nat, |i: int| fresh()));
        table
    }

    /// Slots a caller may hold at once: the primitive's own ceiling when
    /// it has one, and otherwise what the table has grown to, which is
    /// the high-water mark of concurrent holds rounded up to a block.
    pub fn capacity(&self) -> (slots: usize)
        ensures
            slots == match self.limit() {
                Some(ceiling) => ceiling as nat,
                None => self@.len(),
            },
    {
        match self.ceiling {
            Some(ceiling) => ceiling,
            None => self.words.len(),
        }
    }

    /// Slots a claim walks: those there are, up to the ceiling.
    fn walked(&self) -> (slots: usize)
        ensures
            slots == self.usable(),
    {
        let len: usize = self.words.len();
        match self.ceiling {
            Some(ceiling) => if ceiling <= len {
                ceiling
            } else {
                len
            },
            None => len,
        }
    }

    /// Holds outstanding right now.
    pub fn live(&self) -> (holds: usize)
        ensures
            holds == count_claimed(self@),
    {
        let mut n: usize = 0;
        let mut i: usize = 0;
        while i < self.words.len()
            invariant
                i <= self.words@.len(),
                self@.len() == self.words@.len(),
                n == count_claimed(self@.take(i as int)),
                n <= i,
            decreases self.words@.len() - i,
        {
            assert(self@.take(i + 1).drop_last() =~= self@.take(i as int));
            if is_claimed(self.words[i]) {
                n += 1;
            }
            i += 1;
        }
        assert(self@.take(i as int) =~= self@);
        n
    }

    /// The first free slot on a walk from `start` over the first `usable`
    /// slots.
    fn scan(&self, usable: usize, start: usize) -> (found: Option<usize>)
        requires
            self.wf(),
            0 < usable <= self@.len(),
            start < usable,
        ensures
            match found {
                Some(i) => first_free(self@, usable as nat, start as nat, 0) == Some(i as nat) && i < usable
                    && !self@[i as int].claimed,
                None => first_free(self@, usable as nat, start as nat, 0) is None,
            },
    {
        let mut step: usize = 0;
        while step < usable
            invariant
                step <= usable,
                0 < usable <= self@.len() <= MAX_SLOTS,
                start < usable,
                self@.len() == self.words@.len(),
                first_free(self@, usable as nat, start as nat, 0) == first_free(
                    self@,
                    usable as nat,
                    start as nat,
                    step as nat,
                ),
            decreases usable - step,
        {
            let i: usize = (start + step) % usable;
            if !is_claimed(self.words[i]) {
                return Some(i);
            }
            step += 1;
        }
        None
    }

    /// Take slot `i`, which is free, for a hold of `kind`.
    fn take_slot(&mut self, i: usize, kind: u32) -> (t: u64)
        requires
            old(self).wf(),
            i < old(self).usable(),
            !old(self)@[i as int].claimed,
        ensures
            final(self).wf(),
            final(self).limit() == old(self).limit(),
            final(self).next_look() == i + 1,
            t == token_for(i as nat, old(self)@[i as int].generation),
            final(self)@ == old(self)@.update(i as int, taken(old(self)@[i as int], kind)),
    {
        let generation: u32 = generation_of(self.words[i]);
        self.words.set(i, word(generation, kind, true));
        self.hint = i + 1;
        assert(self@ =~= old(self)@.update(i as int, taken(old(self)@[i as int], kind)));
        token(i, generation)
    }

    /// Take a slot for a hold of `kind`, or `None` when a bounded table
    /// is at its ceiling - which means the primitive beneath is at its
    /// own limit and would have refused too.
    pub fn claim(&mut self, kind: u32) -> (claimed: Option<u64>)
        requires
            old(self).wf(),
        ensures
            final(self).wf(),
            final(self).limit() == old(self).limit(),
            match first_free(
                old(self)@,
                old(self).usable(),
                old(self).next_look() % old(self).usable(),
                0,
            ) {
                Some(i) => {
                    &&& i < old(self).usable()
                    &&& claimed == Some(token_for(i, old(self)@[i as int].generation))
                    &&& final(self)@ == old(self)@.update(i as int, taken(old(self)@[i as int], kind))
                    &&& final(self).next_look() == i + 1
                },
                None => if old(self).full_grown() {
                    claimed is None && final(self)@ == old(self)@ && final(self).next_look() == old(
                        self,
                    ).next_look()
                } else {
                    &&& claimed == Some(token_for(old(self)@.len(), 1))
                    &&& final(self)@ == (old(self)@ + Seq::new(BLOCK as nat, |i: int| fresh())).update(
                        old(self)@.len() as int,
                        taken(fresh(), kind),
                    )
                    &&& final(self).next_look() == old(self)@.len() + 1
                },
            },
    {
        let len: usize = self.words.len();
        assert(self@.len() == len);
        let usable: usize = self.walked();
        let start: usize = self.hint % usable;
        match self.scan(usable, start) {
            Some(i) => {
                return Some(self.take_slot(i, kind));
            },
            None => {},
        }
        if let Some(ceiling) = self.ceiling {
            if len >= ceiling {
                return None;
            }
        }
        // A token carries the slot index in thirty bits, so growing
        // past this would issue an index that decodes as another one.
        if len >= MAX_SLOTS {
            return None;
        }
        proof {
            a_walk_finds_nothing_only_when_all_are_held(self@, usable as nat, start as nat);
        }
        self.grow(len);
        let wider: usize = self.walked();
        let from: usize = self.hint % wider;
        proof {
            assert(from == self.hint) by {
                lemma_small_mod(self.hint as nat, wider as nat);
            }
            a_walk_stops_at_the_first_free_slot(self@, wider as nat, from as nat, len as nat);
        }
        match self.scan(wider, from) {
            Some(i) => Some(self.take_slot(i, kind)),
            None => None,
        }
    }

    /// Append a block, unless the table has grown past `seen` already.
    fn grow(&mut self, seen: usize)
        requires
            old(self).wf(),
            seen == old(self)@.len(),
            seen < MAX_SLOTS,
            old(self).limit() matches Some(ceiling) ==> seen < ceiling,
        ensures
            final(self).wf(),
            final(self).limit() == old(self).limit(),
            final(self).next_look() == old(self).next_look(),
            final(self)@ == old(self)@ + Seq::new(BLOCK as nat, |i: int| fresh()),
    {
        if self.words.len() > seen {
            return;
        }
        let mut block: Vec<u64> = fresh_block();
        self.words.append(&mut block);
        assert(self@ =~= old(self)@ + Seq::new(BLOCK as nat, |i: int| fresh()));
    }

    /// Give `token`'s slot back, and report the kind it was held as so
    /// the caller knows which release to run on the primitive.
    ///
    /// The generation steps here, which is what makes this token unusable
    /// afterwards.
    pub fn release(&mut self, token: u64) -> (released: Result<u32, ReleaseError>)
        requires
            old(self).wf(),
        ensures
            final(self).wf(),
            final(self).limit() == old(self).limit(),
            final(self).next_look() == old(self).next_look(),
            match named_hold(old(self)@, token) {
                Ok(hold) => {
                    &&& released == Ok::<u32, ReleaseError>(hold.kind)
                    &&& final(self)@ == old(self)@.update(token_slot(token) as int, given_back(hold))
                },
                Err(e) => released == Err::<u32, ReleaseError>(e) && final(self)@ == old(self)@,
            },
    {
        if !is_token(token) {
            return Err(ReleaseError::NotAToken);
        }
        let (slot, generation): (usize, u32) = split(token);
        if slot >= self.words.len() {
            return Err(ReleaseError::NoSuchSlot);
        }
        let seen: u64 = self.words[slot];
        assert(self@[slot as int] == hold_of(seen));
        if !is_claimed(seen) {
            return Err(ReleaseError::NotHeld);
        }
        if generation_of(seen) != generation {
            return Err(ReleaseError::Stale);
        }
        let kind: u32 = kind_of(seen);
        self.words.set(slot, word(generation.wrapping_add(1), 0, false));
        assert(self@ =~= old(self)@.update(slot as int, given_back(hold_of(seen))));
        Ok(kind)
    }

    /// What `token` is held as, without giving it back. It refuses for the
    /// same reasons `release` does and says which, so a caller that passed
    /// a handle is told that rather than that its hold has ended.
    pub fn kind(&self, token: u64) -> (kind: Result<u32, ReleaseError>)
        ensures
            match named_hold(self@, token) {
                Ok(hold) => kind == Ok::<u32, ReleaseError>(hold.kind),
                Err(e) => kind == Err::<u32, ReleaseError>(e),
            },
    {
        if !is_token(token) {
            return Err(ReleaseError::NotAToken);
        }
        let (slot, generation): (usize, u32) = split(token);
        if slot >= self.words.len() {
            return Err(ReleaseError::NoSuchSlot);
        }
        let seen: u64 = self.words[slot];
        assert(self@[slot as int] == hold_of(seen));
        if !is_claimed(seen) {
            return Err(ReleaseError::NotHeld);
        }
        if generation_of(seen) != generation {
            return Err(ReleaseError::Stale);
        }
        Ok(kind_of(seen))
    }

    /// Take every live hold and report what each was held as, leaving the
    /// table empty.
    ///
    /// An object going away with holds outstanding is what this is for: a
    /// hold nobody gave back would leave the primitive beneath saying it is
    /// held with nothing left able to release it, so the owner gives each
    /// one back first. Each entry is the slot's index and what it was held
    /// as: the index because an owner may keep state of its own beside the
    /// table, keyed the way a token's slot keys it.
    pub fn drain(&mut self) -> (drained: Vec<(usize, u32)>)
        requires
            old(self).wf(),
        ensures
            final(self).wf(),
            final(self).limit() == old(self).limit(),
            final(self).next_look() == old(self).next_look(),
            drained@ == claimed_slots(old(self)@),
            final(self)@ == emptied(old(self)@),
    {
        let mut drained: Vec<(usize, u32)> = Vec::new();
        let mut i: usize = 0;
        let ghost slots = self@;
        while i < self.words.len()
            invariant
                i <= self.words@.len(),
                slots == old(self)@,
                self.words@.len() == slots.len(),
                self.ceiling == old(self).ceiling,
                self.hint == old(self).hint,
                drained@ == claimed_slots(slots.take(i as int)),
                forall|k: int|
                    0 <= k < i ==> hold_of(#[trigger] self.words@[k]) == emptied(slots)[k],
                forall|k: int| i <= k < slots.len() ==> hold_of(#[trigger] self.words@[k]) == slots[k],
            decreases slots.len() - i,
        {
            assert(slots.take(i + 1).drop_last() =~= slots.take(i as int));
            let seen: u64 = self.words[i];
            if is_claimed(seen) {
                let generation: u32 = generation_of(seen);
                self.words.set(i, word(generation.wrapping_add(1), 0, false));
                drained.push((i, kind_of(seen)));
            }
            i += 1;
        }
        assert(slots.take(i as int) =~= slots);
        assert(self@ =~= emptied(slots));
        drained
    }
}

/// A walk that starts at `start` reaches slot `i`.
proof fn a_walk_reaches_every_slot(usable: nat, start: nat, i: nat) -> (step: nat)
    requires
        start < usable,
        i < usable,
    ensures
        step < usable,
        (start + step) % usable == i,
{
    if i >= start {
        lemma_small_mod(i, usable);
        (i - start) as nat
    } else {
        lemma_mod_add_multiples_vanish(i as int, usable as int);
        lemma_small_mod(i, usable);
        (i + usable - start) as nat
    }
}

/// A walk from `step` on passes over held slots only up to the slot it
/// finds, and over `usable` of them when it finds none.
proof fn a_walk_passes_held_slots(slots: Seq<Hold>, usable: nat, start: nat, step: nat, later: nat)
    requires
        step <= later < usable,
        first_free(slots, usable, start, step) is None,
    ensures
        slots[((start + later) % usable) as int].claimed,
    decreases later - step,
{
    if step < later {
        a_walk_passes_held_slots(slots, usable, start, step + 1, later);
    }
}

/// A walk that finds no free slot has seen every one of them held.
pub proof fn a_walk_finds_nothing_only_when_all_are_held(slots: Seq<Hold>, usable: nat, start: nat)
    requires
        start < usable <= slots.len(),
    ensures
        first_free(slots, usable, start, 0) is None <==> forall|i: int|
            0 <= i < usable ==> (#[trigger] slots[i]).claimed,
{
    if first_free(slots, usable, start, 0) is None {
        assert forall|i: int| 0 <= i < usable implies (#[trigger] slots[i]).claimed by {
            let step = a_walk_reaches_every_slot(usable, start, i as nat);
            a_walk_passes_held_slots(slots, usable, start, 0, step);
        }
    } else {
        a_walk_finds_a_free_slot(slots, usable, start, 0);
    }
}

/// What a walk finds is one of the slots it may use, and free.
pub proof fn a_walk_finds_a_free_slot(slots: Seq<Hold>, usable: nat, start: nat, step: nat)
    requires
        usable <= slots.len(),
    ensures
        first_free(slots, usable, start, step) matches Some(i) ==> i < usable && !slots[i as int].claimed,
    decreases usable - step,
{
    if step < usable {
        a_walk_finds_a_free_slot(slots, usable, start, step + 1);
    }
}

/// Where every slot below `end` is held and `end` is free, a walk that
/// starts at or before `end` stops there.
proof fn a_walk_stops_at_the_first_free_slot(slots: Seq<Hold>, usable: nat, start: nat, end: nat)
    requires
        start <= end < usable <= slots.len(),
        forall|i: int| 0 <= i < end ==> (#[trigger] slots[i]).claimed,
        !slots[end as int].claimed,
    ensures
        first_free(slots, usable, start, 0) == Some(end),
{
    a_walk_goes_on_to(slots, usable, start, 0, (end - start) as nat);
    lemma_small_mod(end, usable);
}

proof fn a_walk_goes_on_to(slots: Seq<Hold>, usable: nat, start: nat, step: nat, later: nat)
    requires
        step <= later,
        start + later < usable <= slots.len(),
        forall|i: int| start + step <= i < start + later ==> (#[trigger] slots[i]).claimed,
    ensures
        first_free(slots, usable, start, step) == first_free(slots, usable, start, later),
    decreases later - step,
{
    if step < later {
        lemma_small_mod((start + step) as nat, usable);
        a_walk_goes_on_to(slots, usable, start, step + 1, later);
    }
}

/// The generation `steps` releases after `generation`.
pub open spec fn generation_after(generation: u32, steps: nat) -> u32 {
    ((generation + steps) % 0x1_0000_0000) as u32
}

/// One release moves a slot on by one generation.
pub proof fn a_release_steps_the_generation(hold: Hold)
    ensures
        given_back(hold).generation == generation_after(hold.generation, 1),
{
}

/// A token names the hold it was claimed for until it is given back, and
/// names nothing afterwards: a second release is refused rather than freeing
/// a slot the next holder may already be relying on.
pub proof fn a_token_is_good_once(slots: Seq<Hold>, slot: nat, kind: u32)
    requires
        slot < slots.len() <= MAX_SLOTS,
        !slots[slot as int].claimed,
    ensures
        ({
            let t = token_for(slot, slots[slot as int].generation);
            let held = taken(slots[slot as int], kind);
            let claimed = slots.update(slot as int, held);
            let released = claimed.update(slot as int, given_back(held));
            &&& named_hold(claimed, t) == Ok::<Hold, ReleaseError>(held)
            &&& named_hold(released, t) == Err::<Hold, ReleaseError>(ReleaseError::NotHeld)
        }),
{
    a_token_names_what_it_was_made_from(slot, slots[slot as int].generation);
}

/// A token from an earlier hold of a slot is refused however the slot stands
/// now, for as long as fewer than 2^32 holds of it have ended since: as not
/// held while the slot is free, and as stale while someone else holds it.
pub proof fn a_token_from_an_earlier_hold_is_refused(
    slots: Seq<Hold>,
    slot: nat,
    generation: u32,
    ended_since: nat,
)
    requires
        slot < slots.len() <= MAX_SLOTS,
        0 < ended_since < 0x1_0000_0000,
        slots[slot as int].generation == generation_after(generation, ended_since),
    ensures
        named_hold(slots, token_for(slot, generation)) == Err::<Hold, ReleaseError>(
            if slots[slot as int].claimed {
                ReleaseError::Stale
            } else {
                ReleaseError::NotHeld
            },
        ),
{
    a_token_names_what_it_was_made_from(slot, generation);
}

/// What a token names depends on its own slot alone: claiming, releasing or
/// growing anywhere else leaves it as it was.
pub proof fn a_token_depends_on_its_own_slot_alone(before: Seq<Hold>, after: Seq<Hold>, t: u64)
    requires
        before.len() <= after.len(),
        token_slot(t) < before.len(),
        before[token_slot(t) as int] == after[token_slot(t) as int],
    ensures
        named_hold(before, t) == named_hold(after, t),
{
}

/// A value without the tag - a handle, or a caller's unset variable - names
/// no hold in any table.
pub proof fn an_untagged_value_names_no_hold(slots: Seq<Hold>, value: u64)
    requires
        value < 0x8000_0000_0000_0000,
    ensures
        named_hold(slots, value) == Err::<Hold, ReleaseError>(ReleaseError::NotAToken),
{
    the_tag_is_the_top_bit(value);
}

/// Two holds standing at once have different tokens.
pub proof fn standing_holds_have_different_tokens(slots: Seq<Hold>, i: nat, j: nat)
    requires
        i < slots.len() <= MAX_SLOTS,
        j < slots.len(),
        i != j,
    ensures
        token_for(i, slots[i as int].generation) != token_for(j, slots[j as int].generation),
{
    a_token_names_what_it_was_made_from(i, slots[i as int].generation);
    a_token_names_what_it_was_made_from(j, slots[j as int].generation);
}

/// Changing one slot changes the count by what changed in that slot.
pub proof fn the_count_follows_a_slot(slots: Seq<Hold>, i: int, hold: Hold)
    requires
        0 <= i < slots.len(),
    ensures
        count_claimed(slots.update(i, hold)) == count_claimed(slots) + (if hold.claimed {
            1int
        } else {
            0
        }) - (if slots[i].claimed {
            1int
        } else {
            0
        }),
    decreases slots.len(),
{
    if i == slots.len() - 1 {
        assert(slots.update(i, hold).drop_last() =~= slots.drop_last());
    } else {
        the_count_follows_a_slot(slots.drop_last(), i, hold);
        assert(slots.update(i, hold).drop_last() =~= slots.drop_last().update(i, hold));
    }
}

/// Slots nobody holds do not change the count.
pub(crate) proof fn free_slots_do_not_count(slots: Seq<Hold>, more: Seq<Hold>)
    requires
        forall|i: int| 0 <= i < more.len() ==> !(#[trigger] more[i]).claimed,
    ensures
        count_claimed(slots + more) == count_claimed(slots),
    decreases more.len(),
{
    if more.len() == 0 {
        assert(slots + more =~= slots);
    } else {
        free_slots_do_not_count(slots, more.drop_last());
        assert((slots + more).drop_last() =~= slots + more.drop_last());
        assert((slots + more).last() == more.last());
    }
}

/// No more slots are held than there are, and all of them only when every
/// one is.
pub(crate) proof fn the_count_is_at_most_the_length(slots: Seq<Hold>)
    ensures
        count_claimed(slots) <= slots.len(),
        count_claimed(slots) == slots.len() <==> forall|i: int|
            0 <= i < slots.len() ==> (#[trigger] slots[i]).claimed,
    decreases slots.len(),
{
    if slots.len() > 0 {
        let front = slots.drop_last();
        the_count_is_at_most_the_length(front);
        if forall|i: int| 0 <= i < slots.len() ==> (#[trigger] slots[i]).claimed {
            assert forall|i: int| 0 <= i < front.len() implies (#[trigger] front[i]).claimed by {
                assert(slots[i].claimed);
            }
            assert(slots[slots.len() - 1].claimed);
        } else if count_claimed(slots) == slots.len() {
            assert forall|i: int| 0 <= i < slots.len() implies (#[trigger] slots[i]).claimed by {
                if i < front.len() {
                    assert(front[i].claimed);
                }
            }
        }
    }
}

/// A bounded table never holds more than its ceiling at once, and refuses a
/// claim exactly when that many holds stand, or as many as tokens can name
/// where the ceiling is above that.
pub proof fn a_bounded_table_stops_at_its_ceiling(table: HoldTable, ceiling: usize)
    requires
        table.wf(),
        table.limit() == Some(ceiling),
    ensures
        count_claimed(table@) <= ceiling,
        count_claimed(table@) == (if ceiling <= MAX_SLOTS {
            ceiling
        } else {
            MAX_SLOTS
        }) <==> table.full_grown() && first_free(
            table@,
            table.usable(),
            table.next_look() % table.usable(),
            0,
        ) is None,
{
    let usable = table.usable();
    let front = table@.take(usable as int);
    let rest = table@.skip(usable as int);
    assert(table@ =~= front + rest);
    assert forall|i: int| 0 <= i < rest.len() implies !(#[trigger] rest[i]).claimed by {
        assert(!table@[usable + i].claimed);
    }
    free_slots_do_not_count(front, rest);
    the_count_is_at_most_the_length(front);
    a_walk_finds_nothing_only_when_all_are_held(table@, usable, table.next_look() % usable);
    assert((forall|i: int| 0 <= i < front.len() ==> (#[trigger] front[i]).claimed) <==> (forall|i: int|
        0 <= i < usable ==> (#[trigger] table@[i]).claimed)) by {
        if forall|i: int| 0 <= i < front.len() ==> (#[trigger] front[i]).claimed {
            assert forall|i: int| 0 <= i < usable implies (#[trigger] table@[i]).claimed by {
                assert(front[i].claimed);
            }
        }
    }
}

/// A table with no ceiling refuses a claim only when every slot a token can
/// name is held.
pub proof fn an_unbounded_table_refuses_only_past_the_last_name(table: HoldTable)
    requires
        table.wf(),
        table.limit() is None,
    ensures
        table.full_grown() && first_free(
            table@,
            table.usable(),
            table.next_look() % table.usable(),
            0,
        ) is None <==> count_claimed(table@) == MAX_SLOTS,
{
    the_count_is_at_most_the_length(table@);
    a_walk_finds_nothing_only_when_all_are_held(
        table@,
        table.usable(),
        table.next_look() % table.usable(),
    );
}

/// A drained table holds nothing, and what the drain reports is one entry
/// for each hold that stood, the slots ascending, and nothing else.
pub proof fn a_drain_takes_every_hold(slots: Seq<Hold>)
    requires
        slots.len() <= MAX_SLOTS,
    ensures
        count_claimed(emptied(slots)) == 0,
        claimed_slots(slots).len() == count_claimed(slots),
        forall|i: int| 0 <= i < slots.len() && slots[i].claimed ==> claimed_slots(slots).contains(
            (i as usize, #[trigger] slots[i].kind),
        ),
        forall|k: int|
            0 <= k < claimed_slots(slots).len() ==> {
                let (slot, kind) = #[trigger] claimed_slots(slots)[k];
                slot < slots.len() && slots[slot as int].claimed && slots[slot as int].kind == kind
            },
        forall|j: int, k: int|
            0 <= j < k < claimed_slots(slots).len() ==> (#[trigger] claimed_slots(slots)[j]).0 < (
            #[trigger] claimed_slots(slots)[k]).0,
    decreases slots.len(),
{
    if slots.len() > 0 {
        let front = slots.drop_last();
        a_drain_takes_every_hold(front);
        assert forall|k: int| 0 <= k < claimed_slots(slots).len() implies {
            let (slot, kind) = #[trigger] claimed_slots(slots)[k];
            slot < slots.len() && slots[slot as int].claimed && slots[slot as int].kind == kind
        } by {
            if k < claimed_slots(front).len() {
                assert(claimed_slots(slots)[k] == claimed_slots(front)[k]);
                assert(front[claimed_slots(front)[k].0 as int] == slots[claimed_slots(front)[k].0 as int]);
            }
        }
        assert forall|j: int, k: int| 0 <= j < k < claimed_slots(slots).len() implies (
        #[trigger] claimed_slots(slots)[j]).0 < (#[trigger] claimed_slots(slots)[k]).0 by {
            assert(claimed_slots(slots)[j] == claimed_slots(front)[j]);
            if k < claimed_slots(front).len() {
                assert(claimed_slots(slots)[k] == claimed_slots(front)[k]);
            }
        }
        assert(emptied(slots).drop_last() =~= emptied(front));
        assert forall|i: int| 0 <= i < slots.len() && slots[i].claimed implies claimed_slots(
            slots,
        ).contains((i as usize, #[trigger] slots[i].kind)) by {
            if i < front.len() {
                assert(front[i] == slots[i]);
                assert(front[i].kind == slots[i].kind);
                let entry = (i as usize, front[i].kind);
                assert(claimed_slots(front).contains(entry));
                let at = choose|k: int| 0 <= k < claimed_slots(front).len() && claimed_slots(front)[k] == entry;
                assert(claimed_slots(slots)[at] == entry);
            } else {
                let at = claimed_slots(slots).len() - 1;
                assert(claimed_slots(slots)[at] == (i as usize, slots[i].kind));
            }
        }
    }
}

/// A word comes apart into the generation, the seven bits of the kind and the
/// mark it was made of.
pub proof fn a_word_is_a_generation_over_a_kind_and_a_mark(
    generation: u32,
    kind: u32,
    claimed: bool,
    w: u64,
    g: u32,
    k: u32,
    c: bool,
)
    requires
        call_ensures(word, (generation, kind, claimed), w),
        call_ensures(generation_of, (w,), g),
        call_ensures(kind_of, (w,), k),
        call_ensures(is_claimed, (w,), c),
    ensures
        g == generation,
        k == kind % 128,
        c == claimed,
{
}

/// A token has the top bit, its slot above thirty-two bits of generation, and
/// comes apart into the two; a value is a token exactly when it has the top
/// bit.
pub proof fn a_token_is_a_slot_over_a_generation(
    slot: usize,
    generation: u32,
    t: u64,
    named: (usize, u32),
    alone: usize,
    value: u64,
    yes: bool,
)
    requires
        slot < MAX_SLOTS,
        call_ensures(token, (slot, generation), t),
        call_ensures(split, (t,), named),
        call_ensures(slot_of, (t,), alone),
        call_ensures(is_token, (value,), yes),
    ensures
        t == 0x8000_0000_0000_0000 + slot * 0x1_0000_0000 + generation,
        named.0 == slot && named.1 == generation && alone == slot,
        yes <==> value >= 0x8000_0000_0000_0000,
{
    a_token_names_what_it_was_made_from(slot as nat, generation);
    the_tag_is_the_top_bit(value);
    let s = slot as u64;
    assert(TOKEN_TAG | ((s << SLOT_SHIFT) & SLOT_MASK) | (generation as u64) == 0x8000_0000_0000_0000 + s * 0x1_0000_0000
        + generation) by (bit_vector)
        requires
            s < 0x4000_0000,
    ;
}

/// A bounded table has the capacity it was made with, or one where that was
/// zero; an unbounded one has the slots there are. A new table holds nothing.
pub proof fn a_table_holds_as_many_as_it_was_made_for(
    ceiling: usize,
    bounded: HoldTable,
    capacity: usize,
    live: usize,
    unbounded: HoldTable,
    slots: usize,
)
    requires
        call_ensures(HoldTable::bounded, (ceiling,), bounded),
        call_ensures(HoldTable::capacity, (&bounded,), capacity),
        call_ensures(HoldTable::live, (&bounded,), live),
        call_ensures(HoldTable::unbounded, (), unbounded),
        call_ensures(HoldTable::capacity, (&unbounded,), slots),
    ensures
        ceiling > 0 ==> capacity == ceiling,
        ceiling == 0 ==> capacity == 1,
        live == 0,
        slots == 64 && slots == unbounded@.len(),
{
    free_slots_do_not_count(Seq::empty(), bounded@);
    assert(Seq::<Hold>::empty() + bounded@ =~= bounded@);
}

/// A claim takes one slot nobody held, within the ceiling, as the kind it was
/// made for, and answers with the token that names it; every other slot stays
/// as it was. It is refused exactly when as many holds stand as the ceiling,
/// or the tokens, allow, and then nothing changes.
pub proof fn a_claim_takes_one_free_slot(table: &mut HoldTable, kind: u32, claimed: Option<u64>)
    requires
        old(table).wf(),
        call_ensures(HoldTable::claim, (table, kind), claimed),
    ensures
        claimed matches Some(t) ==> tagged(t) && token_slot(t) < final(table)@.len(),
        claimed matches Some(t) ==> (token_slot(t) < old(table)@.len()
            ==> !old(table)@[token_slot(t) as int].claimed),
        claimed matches Some(t) ==> final(table)@[token_slot(t) as int].claimed
            && final(table)@[token_slot(t) as int].kind == kind % 128
            && final(table)@[token_slot(t) as int].generation == token_generation(t),
        claimed matches Some(t) ==> (old(table).limit() matches Some(ceiling) ==> token_slot(t) < ceiling),
        claimed matches Some(t) ==> forall|i: int| 0 <= i < old(table)@.len() && i != token_slot(t)
            ==> (#[trigger] final(table)@[i]) == old(table)@[i],
        claimed is Some ==> count_claimed(final(table)@) == count_claimed(old(table)@) + 1,
        claimed is None ==> final(table)@ == old(table)@,
        old(table).limit() is None ==> (claimed is None <==> count_claimed(old(table)@) == MAX_SLOTS),
        old(table).limit() matches Some(ceiling) ==> (claimed is None
            <==> count_claimed(old(table)@) == (if ceiling <= MAX_SLOTS { ceiling } else { MAX_SLOTS })),
        final(table).limit() == old(table).limit(),
{
    let before = old(table)@;
    let usable = old(table).usable();
    let start = old(table).next_look() % usable;
    a_walk_finds_a_free_slot(before, usable, start, 0);
    match old(table).limit() {
        Some(ceiling) => a_bounded_table_stops_at_its_ceiling(*old(table), ceiling),
        None => an_unbounded_table_refuses_only_past_the_last_name(*old(table)),
    }
    match first_free(before, usable, start, 0) {
        Some(i) => {
            a_token_names_what_it_was_made_from(i, before[i as int].generation);
            the_count_follows_a_slot(before, i as int, taken(before[i as int], kind));
        },
        None => {
            if !old(table).full_grown() {
                let more = Seq::new(BLOCK as nat, |k: int| fresh());
                let wide = before + more;
                a_token_names_what_it_was_made_from(before.len(), 1);
                free_slots_do_not_count(before, more);
                the_count_follows_a_slot(wide, before.len() as int, taken(fresh(), kind));
                assert(wide[before.len() as int] == fresh());
            }
        },
    }
}

/// A claim looks first past the slot the last one took, wrapping at the end,
/// and takes that slot if it is free; the next looks past what this one took.
pub proof fn a_claim_looks_on_from_the_last_one(table: &mut HoldTable, kind: u32, claimed: Option<u64>)
    requires
        old(table).wf(),
        call_ensures(HoldTable::claim, (table, kind), claimed),
        !old(table)@[(old(table).next_look() % old(table).usable()) as int].claimed,
    ensures
        claimed is Some,
        token_slot(claimed->Some_0) == old(table).next_look() % old(table).usable(),
        final(table).next_look() == token_slot(claimed->Some_0) + 1,
{
    let usable = old(table).usable();
    let start = old(table).next_look() % usable;
    lemma_small_mod(start, usable);
    a_token_names_what_it_was_made_from(start, old(table)@[start as int].generation);
}

/// What a claim took is told and given back as the kind it was taken as, and a
/// second release of the same token is refused as not held.
pub proof fn a_hold_is_given_back_once_and_as_it_was_taken(
    claiming: &mut HoldTable,
    kind: u32,
    claimed: Option<u64>,
    after: &HoldTable,
    told: Result<u32, ReleaseError>,
    releasing: &mut HoldTable,
    released: Result<u32, ReleaseError>,
    again: &mut HoldTable,
    second: Result<u32, ReleaseError>,
)
    requires
        old(claiming).wf(),
        call_ensures(HoldTable::claim, (claiming, kind), claimed),
        claimed is Some,
        after@ == final(claiming)@,
        call_ensures(HoldTable::kind, (after, claimed->Some_0), told),
        old(releasing).wf() && old(releasing)@ == final(claiming)@,
        call_ensures(HoldTable::release, (releasing, claimed->Some_0), released),
        old(again).wf() && old(again)@ == final(releasing)@,
        call_ensures(HoldTable::release, (again, claimed->Some_0), second),
    ensures
        told == Ok::<u32, ReleaseError>(kind % 128),
        released == Ok::<u32, ReleaseError>(kind % 128),
        second == Err::<u32, ReleaseError>(ReleaseError::NotHeld),
{
    a_claim_takes_one_free_slot(claiming, kind, claimed);
}

/// A release succeeds exactly on a token whose slot is held at the token's
/// generation; it frees that slot one generation on and changes no other, and
/// the count goes down by one. Any other value is told apart and changes
/// nothing.
pub proof fn a_release_frees_only_the_hold_its_token_names(
    table: &mut HoldTable,
    token: u64,
    released: Result<u32, ReleaseError>,
)
    requires
        old(table).wf(),
        call_ensures(HoldTable::release, (table, token), released),
    ensures
        released is Ok <==> token >= 0x8000_0000_0000_0000 && token_slot(token) < old(table)@.len()
            && old(table)@[token_slot(token) as int].claimed
            && old(table)@[token_slot(token) as int].generation == token_generation(token),
        released matches Ok(kind) ==> kind == old(table)@[token_slot(token) as int].kind,
        released is Ok ==> !final(table)@[token_slot(token) as int].claimed
            && count_claimed(final(table)@) == count_claimed(old(table)@) - 1,
        released is Ok ==> final(table)@[token_slot(token) as int].generation == (if token_generation(token) == u32::MAX { 0 } else { token_generation(token) + 1 }),
        released is Ok ==> forall|i: int| 0 <= i < old(table)@.len() && i != token_slot(token)
            ==> (#[trigger] final(table)@[i]) == old(table)@[i],
        released is Err ==> final(table)@ == old(table)@,
        released is Err && token < 0x8000_0000_0000_0000 ==> released->Err_0 is NotAToken,
        released is Err && token >= 0x8000_0000_0000_0000 && token_slot(token) >= old(table)@.len()
            ==> released->Err_0 is NoSuchSlot,
        released is Err && token >= 0x8000_0000_0000_0000 && token_slot(token) < old(table)@.len()
            ==> (if old(table)@[token_slot(token) as int].claimed { released->Err_0 is Stale } else { released->Err_0 is NotHeld }),
        final(table)@.len() == old(table)@.len() && final(table).limit() == old(table).limit()
            && final(table).next_look() == old(table).next_look(),
{
    the_tag_is_the_top_bit(token);
    if released is Ok {
        let slot = token_slot(token) as int;
        the_count_follows_a_slot(old(table)@, slot, given_back(old(table)@[slot]));
    }
}

/// A drain tells of every hold that stood, by its slot and its kind, slots
/// ascending, and of nothing else; it leaves no hold, every slot that was held
/// one generation on and every other as it was.
pub proof fn a_drain_frees_every_hold_and_tells_of_each(table: &mut HoldTable, drained: Vec<(usize, u32)>)
    requires
        old(table).wf(),
        call_ensures(HoldTable::drain, (table,), drained),
    ensures
        drained@.len() == count_claimed(old(table)@),
        count_claimed(final(table)@) == 0,
        forall|i: int| 0 <= i < old(table)@.len() && old(table)@[i].claimed
            ==> drained@.contains((i as usize, #[trigger] old(table)@[i].kind)),
        forall|k: int| 0 <= k < drained@.len() ==> (#[trigger] drained@[k]).0 < old(table)@.len()
            && old(table)@[drained@[k].0 as int].claimed && old(table)@[drained@[k].0 as int].kind == drained@[k].1,
        forall|j: int, k: int| 0 <= j < k < drained@.len()
            ==> (#[trigger] drained@[j]).0 < (#[trigger] drained@[k]).0,
        forall|i: int| 0 <= i < old(table)@.len() ==> !(#[trigger] final(table)@[i]).claimed,
        forall|i: int| 0 <= i < old(table)@.len() && !old(table)@[i].claimed
            ==> (#[trigger] final(table)@[i]) == old(table)@[i],
        forall|i: int| 0 <= i < old(table)@.len() && old(table)@[i].claimed
            ==> (#[trigger] final(table)@[i]).generation == (if old(table)@[i].generation == u32::MAX { 0 } else { old(table)@[i].generation + 1 }),
        final(table)@.len() == old(table)@.len() && final(table).limit() == old(table).limit(),
{
    a_drain_takes_every_hold(old(table)@);
}

/// What a token and a word are made of.
pub proof fn the_numbers_of_a_token_are_fixed()
    ensures
        TOKEN_TAG == 0x8000_0000_0000_0000 && MAX_SLOTS == 0x4000_0000 && BLOCK == 64,
{
}

/// A block is sixty-four slots nobody has held, each at its first generation.
pub proof fn a_block_starts_free(block: Vec<u64>, i: int)
    requires
        call_ensures(fresh_block, (), block),
    ensures
        block@.len() == 64,
        0 <= i < 64 ==> block@[i] == 0x1_0000_0000,
        0 <= i < 64 ==> !hold_of(block@[i]).claimed && hold_of(block@[i]).generation == 1,
{
}

proof fn a_walk_passes_only_held_slots(slots: Seq<Hold>, usable: nat, start: nat, step: nat) -> (steps: nat)
    ensures
        first_free(slots, usable, start, step) matches Some(i) ==> {
            &&& step <= steps < usable
            &&& i == (start + steps) % usable
            &&& forall|k: nat|
                step <= k < steps ==> slots[(#[trigger] ((start + k) % usable)) as int].claimed
        },
    decreases usable - step,
{
    if step >= usable {
        step
    } else if !slots[((start + step) % usable) as int].claimed {
        step
    } else {
        a_walk_passes_only_held_slots(slots, usable, start, step + 1)
    }
}

/// A claim takes the nearest free slot on from where the last one left off,
/// wrapping at the end: every slot before it on that walk is held. Only where
/// every slot it may use is held does it take a new one, the first there is.
/// The next claim looks on from past the slot this one took.
pub proof fn a_claim_takes_the_nearest_free_slot(table: &mut HoldTable, kind: u32, claimed: Option<u64>)
    requires
        old(table).wf(),
        call_ensures(HoldTable::claim, (table, kind), claimed),
    ensures
        claimed matches Some(t) ==> (token_slot(t) < old(table)@.len() ==> exists|steps: nat| {
            &&& steps < old(table).usable()
            &&& token_slot(t) == #[trigger] ((old(table).next_look() % old(table).usable() + steps)
                % old(table).usable())
            &&& forall|k: nat|
                k < steps ==> old(table)@[(#[trigger] ((old(table).next_look() % old(table).usable() + k)
                    % old(table).usable())) as int].claimed
        }),
        claimed matches Some(t) ==> (token_slot(t) >= old(table)@.len() ==> {
            &&& token_slot(t) == old(table)@.len()
            &&& forall|i: int| 0 <= i < old(table).usable() ==> (#[trigger] old(table)@[i]).claimed
        }),
        claimed matches Some(t) ==> final(table).next_look() == token_slot(t) + 1,
        claimed is None ==> final(table).next_look() == old(table).next_look(),
{
    let before = old(table)@;
    let usable = old(table).usable();
    let start = old(table).next_look() % usable;
    let steps = a_walk_passes_only_held_slots(before, usable, start, 0);
    a_walk_finds_nothing_only_when_all_are_held(before, usable, start);
    match first_free(before, usable, start, 0) {
        Some(i) => {
            a_token_names_what_it_was_made_from(i, before[i as int].generation);
            assert(token_slot(claimed->Some_0) == (start + steps) % usable);
        },
        None => {
            if !old(table).full_grown() {
                a_token_names_what_it_was_made_from(before.len(), 1);
            }
        },
    }
}

} // verus!
