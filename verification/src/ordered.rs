//! Exact global order on a stamped adaptive ring, from the consumer's side.
//!
//! The receiver picks the cheapest strategy that is exact for the ring's
//! stamp source: time-based stamps are delivered directly, since the merge
//! already orders them; shared-counter stamps are merged by stamp and
//! re-ordered in a window sized to the producer count; and past 256 producers
//! the ring is flipped to the strict merge and delivered directly. The window
//! holds items while the stream runs; a flush drains it at the end.

use vstd::prelude::*;

use crate::arguments::{given, invalid_argument, reading};
use crate::error::{
    answers, bare, fail, ring_code, ring_code_report, told, LastError, Refused, RingError,
    SUBETHA_E_INVALID_ARGUMENT, SUBETHA_E_RING_EMPTY, SUBETHA_E_RING_NOT_STAMPED,
    SUBETHA_E_WRONG_KIND,
};
use crate::handle::Object;

verus! {

/// Strategy: the merge by stamp with a consumer-side re-ordering window.
pub const SUBETHA_ORDERED_REORDER: u32 = 0;

/// Strategy: the strict merge; the pop is exact, nothing is buffered.
pub const SUBETHA_ORDERED_STRICT: u32 = 1;

/// Strategy: direct delivery; the stamps need no correction.
pub const SUBETHA_ORDERED_DIRECT: u32 = 2;

/// The most producers a re-ordering window is sized for.
pub const REORDER_PRODUCER_CAP: usize = 256;

/// A snapshot of an ordered receiver.
#[allow(non_camel_case_types)]
#[derive(Clone, Copy, Default, Debug, PartialEq, Eq)]
pub struct subetha_ordered_stats {
    /// The mode this handle was created in.
    pub mode: u32,
    /// One of the `SUBETHA_ORDERED_` constants.
    pub strategy: u32,
    /// The re-ordering window, in items; zero outside the reorder strategy.
    pub window: u32,
    /// Items held in the window right now.
    pub buffered: u32,
    /// Times the window had to grow past the producer count.
    pub corrections: u64,
    /// Ordering-mode flips the ring refused while this receiver ran.
    pub mode_refusals: u64,
}

/// What a ring's stamps are taken from.
#[derive(Clone, Copy, Debug, PartialEq, Eq, Structural)]
pub enum StampKind {
    /// One counter every producer shares.
    SharedCounter,
    /// A clock.
    Clock,
}

/// How a ring merges its producers.
#[derive(Clone, Copy, Debug, PartialEq, Eq, Structural)]
pub enum OrderingMode {
    /// By stamp, as far as items are there.
    MergeByStamp,
    /// By stamp, exactly.
    MergeStrict,
}

/// How a receiver delivers in order.
#[derive(Clone, Copy, Debug, PartialEq, Eq, Structural)]
pub enum Strategy {
    /// Through a window of items, growing to at most `cap`.
    Reorder {
        /// Items the window holds before it releases one.
        window: usize,
        /// The most it may be widened to.
        cap: usize,
    },
    /// The ring's own strict merge.
    Strict,
    /// As the ring hands items out.
    Direct,
}

/// The larger of two numbers.
pub open spec fn larger(a: usize, b: usize) -> usize {
    if a >= b {
        a
    } else {
        b
    }
}

/// The cheapest strategy that is exact for a ring's stamp source, and the
/// merge mode the ring is set to to match.
pub open spec fn chosen(
    stamps: Option<StampKind>,
    producers: usize,
    floor: usize,
    cap: usize,
) -> (Strategy, Option<OrderingMode>) {
    if stamps == Some(StampKind::SharedCounter) {
        if producers <= REORDER_PRODUCER_CAP {
            let window = larger(producers, floor);
            (Strategy::Reorder { window, cap: larger(window, cap) }, Some(OrderingMode::MergeByStamp))
        } else {
            (Strategy::Strict, Some(OrderingMode::MergeStrict))
        }
    } else {
        (Strategy::Direct, None)
    }
}

fn larger_of(a: usize, b: usize) -> (c: usize)
    ensures
        c == larger(a, b),
{
    if a >= b {
        a
    } else {
        b
    }
}

/// Pick the strategy for the ring's stamp source and the merge mode to set
/// the ring to. `published` is how many producers have published, `max` how
/// many the ring was made for; `floor` and `cap` bound a window.
pub fn choose_strategy(
    stamps: Option<StampKind>,
    published: usize,
    max: usize,
    floor: usize,
    cap: usize,
) -> (picked: (Strategy, Option<OrderingMode>))
    ensures
        picked == chosen(stamps, larger(published, max), floor, cap),
{
    let producers: usize = larger_of(published, max);
    match stamps {
        Some(StampKind::SharedCounter) => {
            if producers <= REORDER_PRODUCER_CAP {
                let window: usize = larger_of(producers, floor);
                (Strategy::Reorder { window, cap: larger_of(window, cap) }, Some(OrderingMode::MergeByStamp))
            } else {
                (Strategy::Strict, Some(OrderingMode::MergeStrict))
            }
        },
        _ => (Strategy::Direct, None),
    }
}

/// A window is at least as wide as there are producers, which is what makes
/// re-ordering by stamp exact, and nothing is buffered where it could not be:
/// past the producer cap the ring merges strictly, and clock stamps need no
/// correction.
pub proof fn a_window_covers_every_producer(
    stamps: Option<StampKind>,
    producers: usize,
    floor: usize,
    cap: usize,
)
    ensures
        chosen(stamps, producers, floor, cap).0 matches Strategy::Reorder { window, cap: most } ==> {
            &&& producers <= window <= most
            &&& floor <= window
            &&& producers <= REORDER_PRODUCER_CAP
        },
        stamps == Some(StampKind::SharedCounter) && producers > REORDER_PRODUCER_CAP ==> chosen(
            stamps,
            producers,
            floor,
            cap,
        ) == (Strategy::Strict, Some(OrderingMode::MergeStrict)),
        stamps != Some(StampKind::SharedCounter) ==> chosen(stamps, producers, floor, cap) == (
            Strategy::Direct,
            None::<OrderingMode>,
        ),
{
}

/// What a receiver keeps: its strategy, and how often the ring refused to
/// change its merge mode.
pub struct OrderedObject {
    strategy: Strategy,
    mode_refusals: u64,
    mode: u32,
}

impl OrderedObject {
    /// How it delivers.
    pub closed spec fn strategy(&self) -> Strategy {
        self.strategy
    }

    /// Refused flips so far.
    pub closed spec fn refusals(&self) -> u64 {
        self.mode_refusals
    }

    /// The mode it was made in.
    pub closed spec fn mode(&self) -> u32 {
        self.mode
    }

    /// A receiver with `strategy`, after the ring was set to match it; a
    /// flip the ring refused is counted.
    pub fn new(strategy: Strategy, flip_refused: bool, mode: u32) -> (object: Self)
        ensures
            object.strategy() == strategy,
            object.mode() == mode,
            object.refusals() == if flip_refused {
                1u64
            } else {
                0u64
            },
    {
        OrderedObject {
            strategy,
            mode_refusals: if flip_refused {
                1
            } else {
                0
            },
            mode,
        }
    }

    /// Whether the window has to be widened for the producers there are now:
    /// what to widen it to, and whether the ring is to be flipped to the
    /// strict merge first.
    pub fn widening(&self, producers: usize, window: usize) -> (widen: Option<(usize, bool)>)
        ensures
            widen == if self.strategy() is Reorder && producers > window {
                Some(
                    if producers > REORDER_PRODUCER_CAP {
                        (REORDER_PRODUCER_CAP, true)
                    } else {
                        (producers, false)
                    },
                )
            } else {
                None
            },
    {
        match self.strategy {
            Strategy::Reorder { .. } => {
                if producers > window {
                    if producers > REORDER_PRODUCER_CAP {
                        Some((REORDER_PRODUCER_CAP, true))
                    } else {
                        Some((producers, false))
                    }
                } else {
                    None
                }
            },
            _ => None,
        }
    }

    /// Count a flip the ring refused; the count wraps.
    pub fn flip_refused(&mut self)
        ensures
            final(self).strategy() == old(self).strategy(),
            final(self).mode() == old(self).mode(),
            final(self).refusals() == (if old(self).refusals() == u64::MAX {
                0
            } else {
                old(self).refusals() + 1
            }),
    {
        self.mode_refusals = self.mode_refusals.wrapping_add(1);
    }

    /// What to do first for the next in-order item.
    pub fn begin(&self) -> (first: Next)
        ensures
            first == if self.strategy() is Reorder {
                Next::Pull
            } else {
                Next::Deliver
            },
    {
        match self.strategy {
            Strategy::Reorder { .. } => Next::Pull,
            _ => Next::Deliver,
        }
    }

    /// One buffered item, given what the window handed out; nothing is ever
    /// buffered outside the reorder strategy.
    pub fn flush(&self, taken: Option<(u64, usize)>) -> (item: Result<(usize, u64), i32>)
        ensures
            item == if self.strategy() is Reorder && taken is Some {
                Ok::<(usize, u64), i32>((taken->Some_0.1, taken->Some_0.0))
            } else {
                Err::<(usize, u64), i32>(SUBETHA_E_RING_EMPTY)
            },
    {
        match self.strategy {
            Strategy::Reorder { .. } => match taken {
                Some((stamp, len)) => Ok((len, stamp)),
                None => Err(SUBETHA_E_RING_EMPTY),
            },
            _ => Err(SUBETHA_E_RING_EMPTY),
        }
    }

    /// A snapshot, from what the window says where there is one.
    pub fn stats(&self, window: usize, buffered: usize, corrections: u64) -> (stats: subetha_ordered_stats)
        ensures
            stats == (subetha_ordered_stats {
                mode: self.mode(),
                strategy: match self.strategy() {
                    Strategy::Reorder { .. } => SUBETHA_ORDERED_REORDER,
                    Strategy::Strict => SUBETHA_ORDERED_STRICT,
                    Strategy::Direct => SUBETHA_ORDERED_DIRECT,
                },
                window: if self.strategy() is Reorder {
                    window as u32
                } else {
                    0
                },
                buffered: if self.strategy() is Reorder {
                    buffered as u32
                } else {
                    0
                },
                corrections: if self.strategy() is Reorder {
                    corrections
                } else {
                    0
                },
                mode_refusals: self.refusals(),
            }),
    {
        let (strategy, window, buffered, corrections): (u32, u32, u32, u64) = match self.strategy {
            Strategy::Reorder { .. } => (SUBETHA_ORDERED_REORDER, window as u32, buffered as u32, corrections),
            Strategy::Strict => (SUBETHA_ORDERED_STRICT, 0, 0, 0),
            Strategy::Direct => (SUBETHA_ORDERED_DIRECT, 0, 0, 0),
        };
        subetha_ordered_stats {
            mode: self.mode,
            strategy,
            window,
            buffered,
            corrections,
            mode_refusals: self.mode_refusals,
        }
    }
}

/// What to do for the next in-order item.
#[derive(Clone, Copy, Debug, PartialEq, Eq, Structural)]
pub enum Next {
    /// Receive from the ring straight into the caller's buffer and answer.
    Deliver,
    /// Receive from the ring into scratch, and say how it went.
    Pull,
    /// Put what was received into the window, take what it releases, and say
    /// what that was; where it was nothing, there may be more to pull.
    PushAndTake,
    /// Take what the window releases and say what that was; the ring has
    /// nothing more.
    Take,
    /// Answer with this item: its length and its stamp.
    Item(usize, u64),
    /// Answer with this code.
    Answer(i32),
}

/// What follows a pull from the ring.
pub fn after_pull(last: &mut LastError, pulled: Result<(), RingError>) -> (next: Next)
    ensures
        match pulled {
            Ok(()) => next == Next::PushAndTake && final(last)@ == old(last)@,
            Err(RingError::Empty) => next == Next::Take && final(last)@ == old(last)@,
            Err(e) => {
                &&& next == Next::Answer(ring_code_report(e).code)
                &&& final(last)@ == ring_code_report(e).leaves(old(last)@)
            },
        },
{
    match pulled {
        Ok(()) => Next::PushAndTake,
        Err(RingError::Empty) => Next::Take,
        Err(e) => Next::Answer(ring_code(last, e)),
    }
}

/// What follows a take from the window. `more` says whether the ring may
/// have more: then a window that releases nothing is pulled into again, so
/// an empty ring means it has nothing more right now, and what the window
/// still holds comes out of a flush.
pub fn after_take(more: bool, taken: Option<(u64, usize)>) -> (next: Next)
    ensures
        next == match taken {
            Some((stamp, len)) => Next::Item(len, stamp),
            None => if more {
                Next::Pull
            } else {
                Next::Answer(SUBETHA_E_RING_EMPTY)
            },
        },
{
    match taken {
        Some((stamp, len)) => Next::Item(len, stamp),
        None => {
            if more {
                Next::Pull
            } else {
                Next::Answer(SUBETHA_E_RING_EMPTY)
            }
        },
    }
}

/// The arguments of a new receiver, checked in order: somewhere to write the
/// handle, a mode, and a ring with stamps.
pub fn subetha_ring_ordered_receiver(
    last: &mut LastError,
    out_null: bool,
    mode: Result<u32, Refused>,
    stamps: Option<StampKind>,
) -> (resolved: Result<(u32, StampKind), i32>)
    ensures
        answers(
            resolved,
            if out_null {
                Err(invalid_argument("out is null"@))
            } else if mode is Err {
                Err(mode->Err_0.report())
            } else {
                match stamps {
                    None => Err(bare(SUBETHA_E_RING_NOT_STAMPED)),
                    Some(kind) => Ok((mode->Ok_0, kind)),
                }
            },
            old(last)@,
            final(last)@,
        ),
{
    if out_null {
        return Err(fail(last, SUBETHA_E_INVALID_ARGUMENT, "out is null"));
    }
    let mode: u32 = match given(last, mode) {
        Ok(mode) => mode,
        Err(code) => {
            return Err(code);
        },
    };
    match stamps {
        None => Err(SUBETHA_E_RING_NOT_STAMPED),
        Some(kind) => Ok((mode, kind)),
    }
}

/// Somewhere to write an item: its stamp, then its bytes and length.
pub fn item_arguments<B>(last: &mut LastError, out_stamp_null: bool, buffer: Result<B, Refused>) -> (into: Result<
    B,
    i32,
>)
    ensures
        answers(
            into,
            if out_stamp_null {
                Err(invalid_argument("out_stamp is null"@))
            } else {
                reading(buffer)
            },
            old(last)@,
            final(last)@,
        ),
{
    if out_stamp_null {
        return Err(fail(last, SUBETHA_E_INVALID_ARGUMENT, "out_stamp is null"));
    }
    given(last, buffer)
}

/// The payload behind an ordered receiver's handle.
pub fn with_ordered<'a, P>(last: &mut LastError, object: &'a Object<P>) -> (payload: Result<&'a P, i32>)
    ensures
        answers(
            payload,
            match *object {
                Object::Ordered(p) => Ok(&p),
                _ => Err(told(SUBETHA_E_WRONG_KIND, "the handle does not name an ordered receiver"@)),
            },
            old(last)@,
            final(last)@,
        ),
{
    match object {
        Object::Ordered(p) => Ok(p),
        _ => Err(fail(last, SUBETHA_E_WRONG_KIND, "the handle does not name an ordered receiver")),
    }
}

/// A call on an ordered receiver reaches what stands behind a handle to an
/// ordered receiver, and nothing behind any other handle.
pub proof fn only_an_ordered_receiver_is_reached<P>(
    last: &mut LastError,
    object: &Object<P>,
    reached: Result<&P, i32>,
)
    requires
        call_ensures(with_ordered::<P>, (last, object), reached),
    ensures
        reached is Ok <==> *object is Ordered,
        reached matches Ok(payload) ==> *object == Object::Ordered(*payload) && final(last)@ == old(last)@,
        reached matches Err(code) ==> code == SUBETHA_E_WRONG_KIND
            && final(last)@ == "the handle does not name an ordered receiver"@,
{
}

/// A ring stamped from one counter is delivered in order, never as it comes:
/// up to two hundred and fifty-six producers through a window that holds one
/// item of each at least, and is as wide as the floor, with the ring merging
/// by stamp; past that by the ring's own strict merge. The producers are those
/// that published or those the ring was made for, whichever are more.
pub proof fn shared_stamps_are_put_in_order(
    published: usize,
    max: usize,
    floor: usize,
    cap: usize,
    picked: (Strategy, Option<OrderingMode>),
)
    requires
        call_ensures(choose_strategy, (Some(StampKind::SharedCounter), published, max, floor, cap), picked),
    ensures
        !(picked.0 is Direct),
        picked.0 is Reorder <==> published <= 256 && max <= 256,
        picked.0 is Reorder ==> picked.1 == Some(OrderingMode::MergeByStamp),
        picked.0 is Strict ==> picked.1 == Some(OrderingMode::MergeStrict),
        picked.0 matches Strategy::Reorder { window, cap: most } ==> window >= published && window >= max
            && window >= floor && (window == published || window == max || window == floor),
        picked.0 matches Strategy::Reorder { window, cap: most } ==> most >= window && most >= cap
            && (most == window || most == cap),
{
}

/// A ring stamped from a clock, or not at all, is delivered as it comes and
/// its merge mode is left alone.
pub proof fn other_stamps_are_delivered_as_they_come(
    stamps: Option<StampKind>,
    published: usize,
    max: usize,
    floor: usize,
    cap: usize,
    picked: (Strategy, Option<OrderingMode>),
)
    requires
        call_ensures(choose_strategy, (stamps, published, max, floor, cap), picked),
    ensures
        picked.0 is Direct <==> stamps != Some(StampKind::SharedCounter),
        picked.0 is Direct ==> picked.1 is None,
{
}

/// A receiver keeps the strategy and the mode it was made with, begins by
/// pulling exactly where it has a window to fill, and has counted one refusal
/// exactly where its first was.
pub proof fn a_receiver_starts_by_its_strategy(
    strategy: Strategy,
    flip_refused: bool,
    mode: u32,
    object: OrderedObject,
    first: Next,
)
    requires
        call_ensures(OrderedObject::new, (strategy, flip_refused, mode), object),
        call_ensures(OrderedObject::begin, (&object,), first),
    ensures
        object.strategy() == strategy,
        object.mode() == mode,
        object.refusals() == (if flip_refused { 1int } else { 0 }),
        first == Next::Pull <==> strategy is Reorder,
        first == Next::Deliver <==> !(strategy is Reorder),
{
}

/// A window is widened exactly when more producers publish than it holds, to
/// as many as there are or to two hundred and fifty-six, and past that the
/// ring is asked to merge strictly.
pub proof fn a_window_widens_with_its_producers(
    object: &OrderedObject,
    producers: usize,
    window: usize,
    widen: Option<(usize, bool)>,
)
    requires
        call_ensures(OrderedObject::widening, (object, producers, window), widen),
    ensures
        widen is Some <==> object.strategy() is Reorder && producers > window,
        widen matches Some(wide) ==> wide.0 <= producers && wide.0 <= 256 && (wide.0 == producers || wide.0 == 256),
        widen matches Some(wide) ==> (wide.1 <==> producers > 256),
{
}

/// A refused flip is counted, and changes nothing else.
pub proof fn a_refused_flip_is_counted(object: &mut OrderedObject, done: ())
    requires
        call_ensures(OrderedObject::flip_refused, (object,), done),
    ensures
        final(object).strategy() == old(object).strategy(),
        final(object).mode() == old(object).mode(),
        old(object).refusals() < u64::MAX ==> final(object).refusals() == old(object).refusals() + 1,
{
}

/// A flush hands over the item the window released, its length and its stamp,
/// and says the ring is empty where there is no window or nothing in it.
pub proof fn a_flush_hands_over_what_the_window_held(
    object: &OrderedObject,
    taken: Option<(u64, usize)>,
    item: Result<(usize, u64), i32>,
)
    requires
        call_ensures(OrderedObject::flush, (object, taken), item),
    ensures
        item is Ok <==> object.strategy() is Reorder && taken is Some,
        item matches Ok(all) ==> all.0 == taken->Some_0.1 && all.1 == taken->Some_0.0,
        item matches Err(code) ==> code == SUBETHA_E_RING_EMPTY,
{
}

/// A snapshot tells the strategy by its number, and of a window only where
/// there is one.
pub proof fn a_snapshot_tells_of_a_window_only_where_there_is_one(
    object: &OrderedObject,
    window: usize,
    buffered: usize,
    corrections: u64,
    shown: subetha_ordered_stats,
)
    requires
        call_ensures(OrderedObject::stats, (object, window, buffered, corrections), shown),
    ensures
        shown.mode == object.mode(),
        shown.mode_refusals == object.refusals(),
        shown.strategy == 0 <==> object.strategy() is Reorder,
        shown.strategy == 1 <==> object.strategy() is Strict,
        shown.strategy == 2 <==> object.strategy() is Direct,
        object.strategy() is Reorder ==> shown.window == window as u32 && shown.buffered == buffered as u32
            && shown.corrections == corrections,
        !(object.strategy() is Reorder) ==> shown.window == 0 && shown.buffered == 0 && shown.corrections == 0,
{
}

/// What was pulled goes into the window; an empty ring leaves only what the
/// window still holds; any other refusal is answered exactly as its error.
pub proof fn an_item_that_came_goes_through_the_window(
    last: &mut LastError,
    other: &mut LastError,
    pulled: Result<(), RingError>,
    next: Next,
    code: i32,
)
    requires
        call_ensures(after_pull, (last, pulled), next),
        pulled matches Err(e) ==> call_ensures(ring_code, (other, e), code),
        old(last)@ == old(other)@,
    ensures
        next == Next::PushAndTake <==> pulled is Ok,
        next == Next::Take <==> pulled is Err && pulled->Err_0 is Empty,
        pulled is Err && !(pulled->Err_0 is Empty) ==> next == Next::Answer(code) && final(last)@ == final(other)@,
        pulled is Ok || pulled->Err_0 is Empty ==> final(last)@ == old(last)@,
{
}

/// An item the window released is the answer, with its own length and stamp;
/// where it released none, more is pulled while there may be more, and
/// otherwise the ring is empty.
pub proof fn the_window_is_pulled_for_until_it_releases_or_the_ring_is_empty(
    more: bool,
    taken: Option<(u64, usize)>,
    next: Next,
)
    requires
        call_ensures(after_take, (more, taken), next),
    ensures
        taken matches Some(item) ==> next == Next::Item(item.1, item.0),
        taken is None && more ==> next == Next::Pull,
        taken is None && !more ==> next == Next::Answer(SUBETHA_E_RING_EMPTY),
{
}

/// The arguments are accepted exactly when nothing is wrong with any of them,
/// and then handed on unchanged; the first one at fault is the one answered
/// for.
pub proof fn an_item_needs_a_place_for_its_stamp<B>(
    last: &mut LastError,
    out_stamp_null: bool,
    buffer: Result<B, Refused>,
    into: Result<B, i32>,
)
    requires
        call_ensures(item_arguments::<B>, (last, out_stamp_null, buffer), into),
    ensures
        into is Ok <==> !out_stamp_null && buffer is Ok,
        into matches Ok(all) ==> all == buffer->Ok_0 && final(last)@ == old(last)@,
        out_stamp_null ==> into is Err && into->Err_0 == SUBETHA_E_INVALID_ARGUMENT
            && final(last)@ == "out_stamp is null"@,
        !out_stamp_null && buffer is Err ==> into is Err && into->Err_0 == buffer->Err_0.code
            && final(last)@ == buffer->Err_0.report().leaves(old(last)@),
{
}

/// The arguments are accepted exactly when nothing is wrong with any of them,
/// and then handed on unchanged; the first one at fault is the one answered
/// for.
pub proof fn only_a_stamped_ring_has_an_ordered_receiver(
    last: &mut LastError,
    out_null: bool,
    mode: Result<u32, Refused>,
    stamps: Option<StampKind>,
    resolved: Result<(u32, StampKind), i32>,
)
    requires
        call_ensures(subetha_ring_ordered_receiver, (last, out_null, mode, stamps), resolved),
    ensures
        resolved is Ok <==> !out_null && mode is Ok && !(stamps is None),
        resolved matches Ok(all) ==> all.0 == mode->Ok_0 && stamps == Some(all.1) && final(last)@ == old(last)@,
        out_null ==> resolved is Err && resolved->Err_0 == SUBETHA_E_INVALID_ARGUMENT
            && final(last)@ == "out is null"@,
        !out_null && mode is Err ==> resolved is Err && resolved->Err_0 == mode->Err_0.code
            && final(last)@ == mode->Err_0.report().leaves(old(last)@),
        !out_null && mode is Ok && stamps is None ==> resolved is Err
            && resolved->Err_0 == SUBETHA_E_RING_NOT_STAMPED,
{
}

/// The numbers callers give and are given, as they were built against them.
pub proof fn the_numbers_are_the_ones_callers_know()
    ensures
        SUBETHA_ORDERED_REORDER == 0,
        SUBETHA_ORDERED_STRICT == 1,
        SUBETHA_ORDERED_DIRECT == 2,
        REORDER_PRODUCER_CAP == 256,
{
}

} // verus!
