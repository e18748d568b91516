//! NaN-boxed values: one 64-bit word holding a double, a 32-bit integer, a
//! boolean, nil, or an offset pointer, told apart by the bit pattern a double
//! reserves for its quiet NaNs.
//!
//! Unlike every other family there is no handle and nothing shared. Reading a
//! value as the wrong type answers false and leaves the output untouched
//! rather than returning a number from the wrong bits.

use vstd::prelude::*;

verus! {

/// The word holds a double.
pub const SUBETHA_NAN_F64: u32 = 0;

/// The word holds nil.
pub const SUBETHA_NAN_NIL: u32 = 1;

/// The word holds a signed 32-bit integer.
pub const SUBETHA_NAN_I32: u32 = 2;

/// The word holds an unsigned 32-bit integer.
pub const SUBETHA_NAN_U32: u32 = 3;

/// The word holds a boolean.
pub const SUBETHA_NAN_BOOL: u32 = 4;

/// The word holds an offset pointer.
pub const SUBETHA_NAN_OFFSET_PTR: u32 = 5;

/// The word holds a tag this library does not name. A caller reading one
/// is talking to a newer writer and should leave the value alone rather
/// than guess at it.
pub const SUBETHA_NAN_RESERVED: u32 = 6;

/// The widest tag the two-level form accepts. Thirty two would leave no
/// index bits.
pub const SUBETHA_NAN_MAX_TAG_BITS: u32 = 31;

/// What a word holds.
#[derive(Clone, Copy, Debug, PartialEq, Eq, Structural)]
pub enum NaNValueType {
    /// A double.
    F64,
    /// Nil.
    Nil,
    /// A signed 32-bit integer.
    I32,
    /// An unsigned 32-bit integer.
    U32,
    /// A boolean.
    Bool,
    /// An offset pointer.
    OffsetPtr,
    /// A tag this library does not name.
    Reserved(u8),
}

/// The number of what a word holds.
pub open spec fn type_number(held: NaNValueType) -> u32 {
    match held {
        NaNValueType::F64 => SUBETHA_NAN_F64,
        NaNValueType::Nil => SUBETHA_NAN_NIL,
        NaNValueType::I32 => SUBETHA_NAN_I32,
        NaNValueType::U32 => SUBETHA_NAN_U32,
        NaNValueType::Bool => SUBETHA_NAN_BOOL,
        NaNValueType::OffsetPtr => SUBETHA_NAN_OFFSET_PTR,
        NaNValueType::Reserved(_) => SUBETHA_NAN_RESERVED,
    }
}

/// Which of the `SUBETHA_NAN_` kinds a word holds.
pub fn subetha_nan_type(held: NaNValueType) -> (kind: u32)
    ensures
        kind == type_number(held),
{
    match held {
        NaNValueType::F64 => SUBETHA_NAN_F64,
        NaNValueType::Nil => SUBETHA_NAN_NIL,
        NaNValueType::I32 => SUBETHA_NAN_I32,
        NaNValueType::U32 => SUBETHA_NAN_U32,
        NaNValueType::Bool => SUBETHA_NAN_BOOL,
        NaNValueType::OffsetPtr => SUBETHA_NAN_OFFSET_PTR,
        NaNValueType::Reserved(_) => SUBETHA_NAN_RESERVED,
    }
}

/// Two words with different sorts of value in them have different kinds,
/// unless neither tag is one this library names.
pub proof fn a_kind_names_one_sort_of_value(a: NaNValueType, b: NaNValueType)
    ensures
        type_number(a) == type_number(b) <==> (a == b || (a is Reserved && b is Reserved)),
{
}

/// Hand a value back through `out`, where the word held one of its type and
/// there is somewhere to write it. Whether it held one is the answer either
/// way; a word that held something else leaves `out` as it was.
pub fn handed_back<T>(read: Option<T>, out_null: bool, out: &mut T) -> (held: bool)
    ensures
        held == (read is Some),
        *final(out) == match read {
            Some(value) => if out_null {
                *old(out)
            } else {
                value
            },
            None => *old(out),
        },
{
    match read {
        Some(value) => {
            if !out_null {
                *out = value;
            }
            true
        },
        None => false,
    }
}

/// Hand the two parts of a tagged word back, each where there is somewhere
/// to write it; a word that is not tagged leaves both as they were.
pub fn subetha_nan_as_tagged(
    read: Option<(u32, u32)>,
    index_out_null: bool,
    index_out: &mut u32,
    tag_out_null: bool,
    tag_out: &mut u32,
) -> (held: bool)
    ensures
        held == (read is Some),
        *final(index_out) == match read {
            Some((index, _)) => if index_out_null {
                *old(index_out)
            } else {
                index
            },
            None => *old(index_out),
        },
        *final(tag_out) == match read {
            Some((_, tag)) => if tag_out_null {
                *old(tag_out)
            } else {
                tag
            },
            None => *old(tag_out),
        },
{
    match read {
        Some((index, tag)) => {
            if !index_out_null {
                *index_out = index;
            }
            if !tag_out_null {
                *tag_out = tag;
            }
            true
        },
        None => false,
    }
}

/// Each kind of value has its own number, and every reserved tag the same one.
pub proof fn a_kind_of_value_has_its_number(held: NaNValueType, kind: u32)
    requires
        call_ensures(subetha_nan_type, (held,), kind),
    ensures
        kind == 0 <==> held is F64,
        kind == 1 <==> held is Nil,
        kind == 2 <==> held is I32,
        kind == 3 <==> held is U32,
        kind == 4 <==> held is Bool,
        kind == 5 <==> held is OffsetPtr,
        kind == 6 <==> held is Reserved,
{
}

/// A value that was read is written where there is a place for it and said to
/// be held; one of another kind writes nothing.
pub proof fn a_value_of_another_kind_writes_nothing<T>(read: Option<T>, out_null: bool, out: &mut T, held: bool)
    requires
        call_ensures(handed_back::<T>, (read, out_null, out), held),
    ensures
        held <==> read is Some,
        read is Some && !out_null ==> *final(out) == read->Some_0,
        read is None || out_null ==> *final(out) == *old(out),
{
}

/// A tagged value writes its index and its tag, each where there is a place
/// for it; one of another kind writes neither.
pub proof fn a_tagged_value_writes_its_index_and_its_tag(
    read: Option<(u32, u32)>,
    index_out_null: bool,
    index_out: &mut u32,
    tag_out_null: bool,
    tag_out: &mut u32,
    held: bool,
)
    requires
        call_ensures(subetha_nan_as_tagged, (read, index_out_null, index_out, tag_out_null, tag_out), held),
    ensures
        held <==> read is Some,
        read is Some && !index_out_null ==> *final(index_out) == read->Some_0.0,
        read is Some && !tag_out_null ==> *final(tag_out) == read->Some_0.1,
        read is None || index_out_null ==> *final(index_out) == *old(index_out),
        read is None || tag_out_null ==> *final(tag_out) == *old(tag_out),
{
}

/// The numbers callers give and are given, as they were built against them.
pub proof fn the_numbers_are_the_ones_callers_know()
    ensures
        SUBETHA_NAN_F64 == 0,
        SUBETHA_NAN_NIL == 1,
        SUBETHA_NAN_I32 == 2,
        SUBETHA_NAN_U32 == 3,
        SUBETHA_NAN_BOOL == 4,
        SUBETHA_NAN_OFFSET_PTR == 5,
        SUBETHA_NAN_RESERVED == 6,
        SUBETHA_NAN_MAX_TAG_BITS == 31,
{
}

} // verus!
