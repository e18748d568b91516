//! The cascade tower.
//!
//! A tower of some levels. The last holds values; each level above holds one
//! index per slot naming a slot on the level below. A cascade is a path of
//! indices, one per level. No maximum depth is imposed.
//!
//! A read does not follow the indices it is given. At every level it checks
//! the slot named there actually points at the next index in the path, and
//! refuses at the first level that disagrees.

use vstd::prelude::*;

use crate::arguments::{copy_front, given, invalid_argument, reading, refuse_if};
use crate::error::{
    answers, answers_code, fail, refused, told, LastError, Refused, RegionError, Report,
    SUBETHA_E_INVALID_ARGUMENT, SUBETHA_E_MAP_FULL, SUBETHA_E_RING_IO,
    SUBETHA_E_RING_LAYOUT_MISMATCH, SUBETHA_E_WRONG_KIND, SUBETHA_OK,
};
use crate::handle::Object;
use crate::text::{dec, push_dec};

verus! {

/// The index that means "nothing here" at any level of a path.
pub const SUBETHA_TOWER_NIL: u32 = 0xFFFF_FFFF;

/// A snapshot of a shared tower.
#[allow(non_camel_case_types)]
#[derive(Clone, Copy, Default, Debug, PartialEq, Eq)]
pub struct subetha_tower_stats {
    /// The mode this handle was created in.
    pub mode: u32,
    /// Levels including the leaf. A path has this many entries.
    pub depth: u32,
    /// Values stored at the leaf.
    pub len: u64,
    /// Bytes in a leaf value.
    pub value_size: u64,
}

/// What a level of a tower refusing answers.
pub open spec fn level_code_report(e: RegionError) -> Report {
    match e {
        RegionError::Full => told(SUBETHA_E_MAP_FULL, "a level of the tower has no free slot"@),
        RegionError::InvalidPtr => told(SUBETHA_E_INVALID_ARGUMENT, "the path names a slot that is not live"@),
        RegionError::LayoutMismatch => told(
            SUBETHA_E_RING_LAYOUT_MISMATCH,
            "a level on disk was built with a different shape"@,
        ),
        RegionError::IoError(kind) => told(SUBETHA_E_RING_IO, "the tower could not be reached: "@ + kind@),
        RegionError::PayloadTooLarge => told(SUBETHA_E_RING_IO, "the tower refused: PayloadTooLarge"@),
    }
}

/// The map from a level's error to the code that names it.
pub fn level_code(last: &mut LastError, e: RegionError) -> (code: i32)
    ensures
        answers_code(code, level_code_report(e), old(last)@, final(last)@),
{
    match e {
        RegionError::Full => fail(last, SUBETHA_E_MAP_FULL, "a level of the tower has no free slot"),
        RegionError::InvalidPtr => fail(
            last,
            SUBETHA_E_INVALID_ARGUMENT,
            "the path names a slot that is not live",
        ),
        RegionError::LayoutMismatch => fail(
            last,
            SUBETHA_E_RING_LAYOUT_MISMATCH,
            "a level on disk was built with a different shape",
        ),
        RegionError::IoError(kind) => {
            let mut text: String = String::from_str("the tower could not be reached: ");
            text.append(kind.as_str());
            fail(last, SUBETHA_E_RING_IO, text.as_str())
        },
        RegionError::PayloadTooLarge => fail(last, SUBETHA_E_RING_IO, "the tower refused: PayloadTooLarge"),
    }
}

/// What a tower refuses with.
#[derive(Debug)]
pub enum RawTowerError {
    /// A path or a value of another length.
    WrongSize {
        /// What the tower expects.
        expected: u64,
        /// What was given.
        found: u64,
    },
    /// No levels.
    ZeroDepth,
    /// The path holds nil at a level.
    NilAtLevel(u64),
    /// The path stops describing the tower at a level.
    BrokenAtLevel(u64),
    /// A level refused.
    Region(RegionError),
}

/// What `code_for` answers.
pub open spec fn code_for_report(e: RawTowerError) -> Report {
    match e {
        RawTowerError::WrongSize { expected, found } => told(SUBETHA_E_INVALID_ARGUMENT, "this tower expects "@ + dec(expected as nat) + " here, and "@ + dec(found as nat) + " was given"@),
        RawTowerError::ZeroDepth => told(SUBETHA_E_INVALID_ARGUMENT, "a tower needs at least one level"@),
        RawTowerError::NilAtLevel(level) => told(SUBETHA_E_INVALID_ARGUMENT, "the path holds nil at level "@ + dec(level as nat)),
        RawTowerError::BrokenAtLevel(level) => told(SUBETHA_E_INVALID_ARGUMENT, "the path no longer describes the tower from level "@ + dec(level as nat) + " down: the slot named there does not point at the next index"@),
        RawTowerError::Region(inner) => level_code_report(inner),
    }
}

/// The map from a tower's error to the code that names it.
pub fn code_for(last: &mut LastError, e: RawTowerError) -> (code: i32)
    ensures
        answers_code(code, code_for_report(e), old(last)@, final(last)@),
{
    match e {
        RawTowerError::WrongSize { expected, found } => {
            let mut text: String = String::from_str("this tower expects ");
            push_dec(&mut text, expected);
            text.append(" here, and ");
            push_dec(&mut text, found);
            text.append(" was given");
            fail(last, SUBETHA_E_INVALID_ARGUMENT, text.as_str())
        },
        RawTowerError::ZeroDepth => fail(last, SUBETHA_E_INVALID_ARGUMENT, "a tower needs at least one level"),
        RawTowerError::NilAtLevel(level) => {
            let mut text: String = String::from_str("the path holds nil at level ");
            push_dec(&mut text, level);
            fail(last, SUBETHA_E_INVALID_ARGUMENT, text.as_str())
        },
        RawTowerError::BrokenAtLevel(level) => {
            let mut text: String = String::from_str("the path no longer describes the tower from level ");
            push_dec(&mut text, level);
            text.append(" down: the slot named there does not point at the next index");
            fail(last, SUBETHA_E_INVALID_ARGUMENT, text.as_str())
        },
        RawTowerError::Region(inner) => level_code(last, inner),
    }
}

/// The payload behind a tower's handle.
pub fn with_tower<'a, P>(last: &mut LastError, object: &'a Object<P>) -> (payload: Result<&'a P, i32>)
    ensures
        answers(
            payload,
            match *object {
                Object::Tower(p) => Ok(&p),
                _ => Err(told(SUBETHA_E_WRONG_KIND, "the handle does not name a tower"@)),
            },
            old(last)@,
            final(last)@,
        ),
{
    match object {
        Object::Tower(p) => Ok(p),
        _ => Err(fail(last, SUBETHA_E_WRONG_KIND, "the handle does not name a tower")),
    }
}

/// The intermediate levels read so far, in order, or the first refusal.
pub open spec fn levels_read(entries: Seq<(Result<String, Refused>, u64)>) -> Result<Seq<(Seq<char>, usize)>, Report>
    decreases entries.len(),
{
    if entries.len() == 0 {
        Ok(seq![])
    } else {
        match levels_read(entries.drop_last()) {
            Err(report) => Err(report),
            Ok(levels) => match entries.last().0 {
                Err(refusal) => Err(refusal.report()),
                Ok(path) => Ok(levels.push((path@, entries.last().1 as usize))),
            },
        }
    }
}

/// What [`read_levels`] answers.
pub open spec fn levels_outcome(
    level_paths_null: bool,
    level_capacities_null: bool,
    entries: Seq<(Result<String, Refused>, u64)>,
) -> Result<Seq<(Seq<char>, usize)>, Report> {
    if entries.len() == 0 {
        Ok(seq![])
    } else if level_paths_null || level_capacities_null {
        Err(
            invalid_argument(
                "level_paths or level_capacities is null with n_levels above zero"@,
            ),
        )
    } else {
        levels_read(entries)
    }
}

/// A refusal among the first entries is the refusal of all of them.
proof fn an_early_refusal_stands(entries: Seq<(Result<String, Refused>, u64)>, n: nat)
    requires
        n <= entries.len(),
        levels_read(entries.take(n as int)) is Err,
    ensures
        levels_read(entries) == levels_read(entries.take(n as int)),
    decreases entries.len() - n,
{
    if n == entries.len() {
        assert(entries.take(n as int) =~= entries);
    } else {
        assert(entries.take(n as int + 1).drop_last() =~= entries.take(n as int));
        an_early_refusal_stands(entries, n + 1);
    }
}

/// The paths and capacities of levels, as contracts speak of them.
pub open spec fn level_views(levels: Seq<(String, usize)>) -> Seq<(Seq<char>, usize)> {
    levels.map_values(|level: (String, usize)| (level.0@, level.1))
}

/// The intermediate levels, top first, as paths and capacities. Either array
/// may be null when there are no levels; a path that cannot be read stops
/// the walk.
pub fn read_levels(
    last: &mut LastError,
    level_paths_null: bool,
    level_capacities_null: bool,
    entries: Vec<(Result<String, Refused>, u64)>,
) -> (levels: Result<Vec<(String, usize)>, i32>)
    ensures
        match levels_outcome(level_paths_null, level_capacities_null, entries@) {
            Ok(wanted) => {
                &&& levels matches Ok(read) && level_views(read@) == wanted
                &&& final(last)@ == old(last)@
            },
            Err(report) => answers(levels, Err(report), old(last)@, final(last)@),
        },
{
    let ghost all = entries@;
    if entries.len() == 0 {
        let none: Vec<(String, usize)> = Vec::new();
        assert(level_views(none@) =~= seq![]);
        return Ok(none);
    }
    if level_paths_null || level_capacities_null {
        return Err(
            fail(
                last,
                SUBETHA_E_INVALID_ARGUMENT,
                "level_paths or level_capacities is null with n_levels above zero",
            ),
        );
    }
    let mut levels: Vec<(String, usize)> = Vec::new();
    assert(all.take(0) =~= seq![]);
    assert(level_views(levels@) =~= seq![]);
    for entry in it: entries
        invariant
            it.seq() == all,
            !level_paths_null && !level_capacities_null && all.len() > 0,
            levels_read(all.take(it.index() as int)) == Ok::<Seq<(Seq<char>, usize)>, Report>(level_views(levels@)),
            last@ == old(last)@,
            levels_outcome(level_paths_null, level_capacities_null, all) == levels_read(all),
    {
        assert(all.take(it.index() + 1).drop_last() =~= all.take(it.index() as int));
        let ghost had = levels@;
        match entry.0 {
            Ok(path) => {
                levels.push((path, entry.1 as usize));
                assert(level_views(levels@) =~= level_views(had).push((path@, entry.1 as usize)));
            },
            Err(refusal) => {
                proof {
                    an_early_refusal_stands(all, (it.index() + 1) as nat);
                }
                return Err(refused(last, refusal));
            },
        }
    }
    assert(all.take(all.len() as int) =~= all);
    Ok(levels)
}

/// The arguments a constructor reads before the levels, in order.
pub fn leaf_arguments<'a>(
    last: &mut LastError,
    initialized: Result<(), Refused>,
    out_null: bool,
    leaf_path: Result<&'a str, Refused>,
) -> (leaf: Result<&'a str, i32>)
    ensures
        answers(
            leaf,
            if initialized is Err {
                Err(initialized->Err_0.report())
            } else if out_null {
                Err(invalid_argument("out is null"@))
            } else {
                reading(leaf_path)
            },
            old(last)@,
            final(last)@,
        ),
{
    if let Err(code) = given(last, initialized) {
        return Err(code);
    }
    if out_null {
        return Err(fail(last, SUBETHA_E_INVALID_ARGUMENT, "out is null"));
    }
    given(last, leaf_path)
}

/// Everything a constructor reads, in order: the leaf path, the value size,
/// the intermediate levels top first, and the mode.
pub fn read_arguments<'a>(
    last: &mut LastError,
    initialized: Result<(), Refused>,
    out_null: bool,
    leaf_path: Result<&'a str, Refused>,
    value_size: u64,
    level_paths_null: bool,
    level_capacities_null: bool,
    entries: Vec<(Result<String, Refused>, u64)>,
    mode: Result<u32, Refused>,
) -> (read: Result<(&'a str, usize, Vec<(String, usize)>, u32), i32>)
    ensures
        if initialized is Err {
            answers(read, Err(initialized->Err_0.report()), old(last)@, final(last)@)
        } else if out_null {
            answers(read, Err(invalid_argument("out is null"@)), old(last)@, final(last)@)
        } else if leaf_path is Err {
            answers(read, Err(leaf_path->Err_0.report()), old(last)@, final(last)@)
        } else {
            match levels_outcome(level_paths_null, level_capacities_null, entries@) {
                Err(report) => answers(read, Err(report), old(last)@, final(last)@),
                Ok(wanted) => if mode is Err {
                    answers(read, Err(mode->Err_0.report()), old(last)@, final(last)@)
                } else {
                    &&& read matches Ok(all)
                    &&& all.0 == leaf_path->Ok_0
                    &&& all.1 == value_size as usize
                    &&& level_views(all.2@) == wanted
                    &&& all.3 == mode->Ok_0
                    &&& final(last)@ == old(last)@
                },
            }
        },
{
    let leaf: &'a str = match leaf_arguments(last, initialized, out_null, leaf_path) {
        Ok(leaf) => leaf,
        Err(code) => {
            return Err(code);
        },
    };
    let levels: Vec<(String, usize)> = match read_levels(last, level_paths_null, level_capacities_null, entries) {
        Ok(levels) => levels,
        Err(code) => {
            return Err(code);
        },
    };
    match given(last, mode) {
        Ok(mode) => Ok((leaf, value_size as usize, levels, mode)),
        Err(code) => Err(code),
    }
}

/// Make the object for a tower that was built or opened, or answer with why
/// it could not be.
pub fn place<P>(last: &mut LastError, opened: Result<P, RawTowerError>) -> (object: Result<Object<P>, i32>)
    ensures
        answers(
            object,
            match opened {
                Ok(p) => Ok(Object::Tower(p)),
                Err(e) => Err(code_for_report(e)),
            },
            old(last)@,
            final(last)@,
        ),
{
    match opened {
        Ok(p) => Ok(Object::Tower(p)),
        Err(e) => Err(code_for(last, e)),
    }
}

/// What a call on a tower answers, given how it went: its value, or the
/// code its error maps to.
pub fn outcome<T>(last: &mut LastError, went: Result<T, RawTowerError>) -> (answer: Result<T, i32>)
    ensures
        answers(
            answer,
            match went {
                Ok(value) => Ok(value),
                Err(e) => Err(code_for_report(e)),
            },
            old(last)@,
            final(last)@,
        ),
{
    match went {
        Ok(value) => Ok(value),
        Err(e) => Err(code_for(last, e)),
    }
}

/// The arguments of a store, checked in order: the value's bytes, then
/// somewhere to write the path.
pub fn store_arguments<'a>(last: &mut LastError, value: Result<&'a [u8], Refused>, path_null: bool) -> (bytes: Result<
    &'a [u8],
    i32,
>)
    ensures
        answers(
            bytes,
            if value is Err {
                Err(value->Err_0.report())
            } else if path_null {
                Err(invalid_argument("path is null"@))
            } else {
                Ok(value->Ok_0)
            },
            old(last)@,
            final(last)@,
        ),
{
    let bytes: &'a [u8] = match given(last, value) {
        Ok(bytes) => bytes,
        Err(code) => {
            return Err(code);
        },
    };
    match refuse_if(last, path_null, "path is null") {
        Ok(()) => Ok(bytes),
        Err(code) => Err(code),
    }
}

/// What a read answers: the value goes to the caller only where every level
/// of the path agreed, and nothing is written on a refusal.
pub fn subetha_tower_get(last: &mut LastError, went: Result<(), RawTowerError>, scratch: &[u8], value_out: &mut [u8])
    -> (code: i32)
    requires
        scratch@.len() == old(value_out)@.len(),
    ensures
        match went {
            Ok(()) => code == SUBETHA_OK && final(value_out)@ == scratch@ && final(last)@ == old(last)@,
            Err(e) => {
                &&& answers_code(code, code_for_report(e), old(last)@, final(last)@)
                &&& final(value_out)@ == old(value_out)@
            },
        },
{
    match went {
        Ok(()) => {
            copy_front(scratch, value_out);
            assert(value_out@ =~= scratch@);
            SUBETHA_OK
        },
        Err(e) => code_for(last, e),
    }
}

/// A snapshot, from what the tower says.
pub fn stats(
    mode: u32,
    depth: usize,
    len: usize,
    value_size: usize,
) -> (stats: subetha_tower_stats)
    ensures
        stats == (subetha_tower_stats {
            mode,
            depth: depth as u32,
            len: len as u64,
            value_size: value_size as u64,
        }),
{
    subetha_tower_stats {
        mode,
        depth: depth as u32,
        len: len as u64,
        value_size: value_size as u64,
    }
}

/// A call on a tower reaches what stands behind a handle to a tower, and
/// nothing behind any other handle.
pub proof fn only_a_tower_is_reached<P>(last: &mut LastError, object: &Object<P>, reached: Result<&P, i32>)
    requires
        call_ensures(with_tower::<P>, (last, object), reached),
    ensures
        reached is Ok <==> *object is Tower,
        reached matches Ok(payload) ==> *object == Object::Tower(*payload) && final(last)@ == old(last)@,
        reached matches Err(code) ==> code == SUBETHA_E_WRONG_KIND
            && final(last)@ == "the handle does not name a tower"@,
{
}

/// A tower that opened is placed as what it is; one that did not is answered
/// exactly as its error is.
pub proof fn a_tower_that_opened_is_placed_as_one<P>(
    last: &mut LastError,
    other: &mut LastError,
    opened: Result<P, RawTowerError>,
    answer: Result<Object<P>, i32>,
    code: i32,
)
    requires
        call_ensures(place::<P>, (last, opened), answer),
        opened matches Err(e) ==> call_ensures(code_for, (other, e), code),
        old(last)@ == old(other)@,
    ensures
        opened matches Ok(value) ==> answer == Ok::<Object<P>, i32>(Object::Tower(value))
            && final(last)@ == old(last)@,
        opened is Err ==> answer == Err::<Object<P>, i32>(code) && final(last)@ == final(other)@,
{
}

/// A call that went well answers with what it gave, and one that did not
/// answers exactly as its error does.
pub proof fn a_call_that_went_well_is_not_refused<T>(
    last: &mut LastError,
    other: &mut LastError,
    went: Result<T, RawTowerError>,
    answer: Result<T, i32>,
    code: i32,
)
    requires
        call_ensures(outcome::<T>, (last, went), answer),
        went matches Err(e) ==> call_ensures(code_for, (other, e), code),
        old(last)@ == old(other)@,
    ensures
        went matches Ok(value) ==> answer == Ok::<T, i32>(value) && final(last)@ == old(last)@,
        went is Err ==> answer == Err::<T, i32>(code) && final(last)@ == final(other)@,
{
}

/// A snapshot reports each thing it was handed under that thing's own name.
pub proof fn a_snapshot_reports_each_thing_as_it_is(
    mode: u32,
    depth: usize,
    len: usize,
    value_size: usize,
    shown: subetha_tower_stats,
)
    requires
        call_ensures(stats, (mode, depth, len, value_size), shown),
    ensures
        shown.mode == mode,
        shown.depth == depth as u32,
        shown.len == len as u64,
        shown.value_size == value_size as u64,
{
}

/// Levels are read exactly when there are none, or every path among them was
/// and both lists are there; then each path and capacity stands at its own
/// place.
pub proof fn levels_are_read_in_order_and_all_or_none(
    last: &mut LastError,
    level_paths_null: bool,
    level_capacities_null: bool,
    entries: Vec<(Result<String, Refused>, u64)>,
    levels: Result<Vec<(String, usize)>, i32>,
)
    requires
        call_ensures(read_levels, (last, level_paths_null, level_capacities_null, entries), levels),
    ensures
        levels is Ok <==> entries@.len() == 0 || (!level_paths_null && !level_capacities_null
            && forall|i: int| 0 <= i < entries@.len() ==> (#[trigger] entries@[i]).0 is Ok),
        levels matches Ok(read) ==> read@.len() == entries@.len() && final(last)@ == old(last)@,
        levels matches Ok(read) ==> forall|i: int| 0 <= i < read@.len()
            ==> (#[trigger] read@[i]).0@ == entries@[i].0->Ok_0@ && (entries@[i].1 <= usize::MAX
            ==> read@[i].1 == entries@[i].1),
        entries@.len() > 0 && (level_paths_null || level_capacities_null) ==> levels is Err
            && levels->Err_0 == SUBETHA_E_INVALID_ARGUMENT,
{
    every_level_is_read_at_its_place(entries@);
    if let Ok(read) = levels {
        assert forall|i: int| 0 <= i < read@.len() implies level_views(read@)[i] == ((#[trigger] read@[i]).0@, read@[i].1) by {}
        assert(level_views(read@).len() == read@.len());
    }
}

proof fn every_level_is_read_at_its_place(entries: Seq<(Result<String, Refused>, u64)>)
    ensures
        levels_read(entries) is Ok <==> forall|i: int| 0 <= i < entries.len() ==> (#[trigger] entries[i]).0 is Ok,
        levels_read(entries) matches Ok(levels) ==> levels.len() == entries.len() && forall|i: int|
            0 <= i < entries.len() ==> (#[trigger] levels[i]) == (entries[i].0->Ok_0@, entries[i].1 as usize),
    decreases entries.len(),
{
    if entries.len() > 0 {
        let front = entries.drop_last();
        every_level_is_read_at_its_place(front);
        let n = entries.len() - 1;
        if forall|i: int| 0 <= i < entries.len() ==> (#[trigger] entries[i]).0 is Ok {
            assert forall|i: int| 0 <= i < front.len() implies (#[trigger] front[i]).0 is Ok by {
                assert(entries[i].0 is Ok);
            }
            assert(entries[n].0 is Ok);
        }
        if levels_read(entries) is Ok {
            assert forall|i: int| 0 <= i < entries.len() implies (#[trigger] entries[i]).0 is Ok by {
                if i < n {
                    assert(front[i].0 is Ok);
                }
            }
            let levels = levels_read(entries)->Ok_0;
            let before = levels_read(front)->Ok_0;
            assert forall|i: int| 0 <= i < entries.len() implies (#[trigger] levels[i]) == (
                entries[i].0->Ok_0@,
                entries[i].1 as usize,
            ) by {
                if i < n {
                    assert(levels[i] == before[i]);
                    assert(front[i] == entries[i]);
                }
            }
        }
    }
}

/// The arguments are accepted exactly when nothing is wrong with any of them,
/// and then handed on unchanged; the first one at fault is the one answered
/// for.
pub proof fn a_leaf_is_read_where_there_is_a_place_for_the_tower<'a>(
    last: &mut LastError,
    initialized: Result<(), Refused>,
    out_null: bool,
    leaf_path: Result<&'a str, Refused>,
    read: Result<&'a str, i32>,
)
    requires
        call_ensures(leaf_arguments, (last, initialized, out_null, leaf_path), read),
    ensures
        read is Ok <==> initialized is Ok && !out_null && leaf_path is Ok,
        read matches Ok(all) ==> all == leaf_path->Ok_0 && final(last)@ == old(last)@,
        initialized is Err ==> read is Err && read->Err_0 == initialized->Err_0.code
            && final(last)@ == initialized->Err_0.report().leaves(old(last)@),
        initialized is Ok && out_null ==> read is Err && read->Err_0 == SUBETHA_E_INVALID_ARGUMENT
            && final(last)@ == "out is null"@,
        initialized is Ok && !out_null && leaf_path is Err ==> read is Err
            && read->Err_0 == leaf_path->Err_0.code && final(last)@ == leaf_path->Err_0.report().leaves(old(last)@),
{
}

/// A tower's arguments are accepted exactly when nothing is wrong with any of
/// them, and then its leaf, its value size, its levels and its mode are the
/// ones given.
pub proof fn a_tower_is_made_with_arguments_that_are_right<'a>(
    last: &mut LastError,
    initialized: Result<(), Refused>,
    out_null: bool,
    leaf_path: Result<&'a str, Refused>,
    value_size: u64,
    level_paths_null: bool,
    level_capacities_null: bool,
    entries: Vec<(Result<String, Refused>, u64)>,
    mode: Result<u32, Refused>,
    read: Result<(&'a str, usize, Vec<(String, usize)>, u32), i32>,
    other: &mut LastError,
    levels: Result<Vec<(String, usize)>, i32>,
)
    requires
        call_ensures(read_arguments, (last, initialized, out_null, leaf_path, value_size, level_paths_null,
            level_capacities_null, entries, mode), read),
        call_ensures(read_levels, (other, level_paths_null, level_capacities_null, entries), levels),
    ensures
        read is Ok <==> initialized is Ok && !out_null && leaf_path is Ok && levels is Ok && mode is Ok,
        read matches Ok(all) ==> all.0 == leaf_path->Ok_0 && (value_size <= usize::MAX ==> all.1 == value_size)
            && level_views(all.2@) == level_views(levels->Ok_0@) && all.3 == mode->Ok_0
            && final(last)@ == old(last)@,
        initialized is Err ==> read is Err && read->Err_0 == initialized->Err_0.code
            && final(last)@ == initialized->Err_0.report().leaves(old(last)@),
        initialized is Ok && out_null ==> read is Err && read->Err_0 == SUBETHA_E_INVALID_ARGUMENT,
        initialized is Ok && !out_null && leaf_path is Err ==> read is Err
            && read->Err_0 == leaf_path->Err_0.code && final(last)@ == leaf_path->Err_0.report().leaves(old(last)@),
        initialized is Ok && !out_null && leaf_path is Ok && levels is Err ==> read is Err
            && read->Err_0 == levels->Err_0,
{
}

/// The arguments are accepted exactly when nothing is wrong with any of them,
/// and then handed on unchanged; the first one at fault is the one answered
/// for.
pub proof fn a_value_is_stored_where_its_path_can_be_written<'a>(
    last: &mut LastError,
    value: Result<&'a [u8], Refused>,
    path_null: bool,
    bytes: Result<&'a [u8], i32>,
)
    requires
        call_ensures(store_arguments, (last, value, path_null), bytes),
    ensures
        bytes is Ok <==> value is Ok && !path_null,
        bytes matches Ok(all) ==> all == value->Ok_0 && final(last)@ == old(last)@,
        value is Err ==> bytes is Err && bytes->Err_0 == value->Err_0.code
            && final(last)@ == value->Err_0.report().leaves(old(last)@),
        value is Ok && path_null ==> bytes is Err && bytes->Err_0 == SUBETHA_E_INVALID_ARGUMENT
            && final(last)@ == "path is null"@,
{
}

/// A read that went well fills the buffer with the value, and a refused one
/// leaves it alone and answers exactly as its error does.
pub proof fn a_refused_read_leaves_the_buffer_alone(
    last: &mut LastError,
    other: &mut LastError,
    went: Result<(), RawTowerError>,
    scratch: &[u8],
    value_out: &mut [u8],
    answer: i32,
    code: i32,
)
    requires
        scratch@.len() == old(value_out)@.len(),
        call_ensures(subetha_tower_get, (last, went, scratch, value_out), answer),
        went matches Err(e) ==> call_ensures(code_for, (other, e), code),
        old(last)@ == old(other)@,
    ensures
        went is Ok ==> answer == SUBETHA_OK && final(value_out)@ == scratch@ && final(last)@ == old(last)@,
        went is Err ==> answer == code && final(value_out)@ == old(value_out)@ && final(last)@ == final(other)@,
{
}

/// The numbers callers give and are given, as they were built against them.
pub proof fn the_numbers_are_the_ones_callers_know()
    ensures
        SUBETHA_TOWER_NIL == 0xFFFF_FFFF,
{
}

/// Each level error answers with its own code. One with specifics leaves them,
/// and one without leaves what was there.
pub proof fn each_level_error_has_its_code(last: &mut LastError, e: RegionError, code: i32)
    requires
        call_ensures(level_code, (last, e), code),
    ensures
        e matches RegionError::Full ==> code == 118 && final(last)@ == "a level of the tower has no free slot"@,
        e matches RegionError::InvalidPtr ==> code == 3 && final(last)@ == "the path names a slot that is not live"@,
        e matches RegionError::LayoutMismatch ==> code == 102
            && final(last)@ == "a level on disk was built with a different shape"@,
        e matches RegionError::IoError(kind) ==> code == 107
            && final(last)@ == "the tower could not be reached: "@ + kind@,
        e matches RegionError::PayloadTooLarge ==> code == 107
            && final(last)@ == "the tower refused: PayloadTooLarge"@,
{
}

/// Each error answers with its own code. One with specifics leaves them, and
/// one without leaves what was there. One that comes from beneath answers
/// exactly as it does there.
pub proof fn each_error_has_its_code(
    last: &mut LastError,
    other: &mut LastError,
    e: RawTowerError,
    code: i32,
    beneath: i32,
)
    requires
        call_ensures(code_for, (last, e), code),
        e matches RawTowerError::Region(inner) ==> call_ensures(level_code, (other, inner), beneath),
        old(last)@ == old(other)@,
    ensures
        e matches RawTowerError::WrongSize { expected, found } ==> code == 3
            && final(last)@ == "this tower expects "@ + dec(expected as nat) + " here, and "@ + dec(found as nat)
            + " was given"@,
        e matches RawTowerError::ZeroDepth ==> code == 3 && final(last)@ == "a tower needs at least one level"@,
        e matches RawTowerError::NilAtLevel(level) ==> code == 3
            && final(last)@ == "the path holds nil at level "@ + dec(level as nat),
        e matches RawTowerError::BrokenAtLevel(level) ==> code == 3
            && final(last)@ == "the path no longer describes the tower from level "@ + dec(level as nat)
            + " down: the slot named there does not point at the next index"@,
        e matches RawTowerError::Region(inner) ==> code == beneath && final(last)@ == final(other)@,
{
}

} // verus!
