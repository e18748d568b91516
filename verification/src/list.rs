//! The shared linked list: a doubly-linked list in a file at an element
//! layout the caller declares. A push returns the node's index, which names
//! the same node in every process and stays valid until that node is removed.
//!
//! A walk runs from the first node or the last and ends when it comes back
//! to `SUBETHA_LIST_HEAD_INDEX`.

use vstd::prelude::*;

use crate::arguments::{given, invalid_argument};
use crate::error::{
    answers, bare, fail, list_code, list_code_report, told, LastError, LinkedListError, Refused,
    Report, SUBETHA_E_INVALID_ARGUMENT, SUBETHA_E_RING_EMPTY, SUBETHA_E_WRONG_KIND,
};
use crate::handle::Object;
use crate::text::{dec, push_dec};

verus! {

/// The sentinel head's index. A walk that reaches it has run out of
/// nodes, and no node of the caller's ever carries it.
pub const SUBETHA_LIST_HEAD_INDEX: u32 = 0;

/// The index that names no node.
pub const SUBETHA_LIST_NIL_INDEX: u32 = 0xFFFF_FFFF;

/// A snapshot of a shared linked list.
#[allow(non_camel_case_types)]
#[derive(Clone, Copy, Default, Debug, PartialEq, Eq)]
pub struct subetha_list_stats {
    /// The mode this handle was created in.
    pub mode: u32,
    /// Nodes the list can hold, the sentinel head among them.
    pub capacity: u64,
    /// Nodes in the list, the sentinel head excluded.
    pub len: u64,
    /// Bytes per value.
    pub element_size: u64,
    /// The value alignment the layout declares.
    pub alignment: u64,
    /// The layout tag the list was created with.
    pub tag: u64,
    /// Bytes one node takes, its two link words included.
    pub node_size: u64,
}

/// The layout a caller declares its elements in.
#[derive(Clone, Copy, Debug, PartialEq, Eq, Structural)]
pub struct ElementLayout {
    /// Bytes per element.
    pub slot_size: usize,
    /// The alignment of an element.
    pub alignment: usize,
    /// A number of the caller's that tells layouts of one size apart.
    pub tag: u64,
}

/// The payload behind a list's handle.
pub fn with_list<'a, P>(last: &mut LastError, object: &'a Object<P>) -> (payload: Result<&'a P, i32>)
    ensures
        answers(
            payload,
            match *object {
                Object::List(p) => Ok(&p),
                _ => Err(told(SUBETHA_E_WRONG_KIND, "the handle does not name a list"@)),
            },
            old(last)@,
            final(last)@,
        ),
{
    match object {
        Object::List(p) => Ok(p),
        _ => Err(fail(last, SUBETHA_E_WRONG_KIND, "the handle does not name a list")),
    }
}

/// What a list capacity has to be: room for the sentinel head and at least
/// one node.
pub open spec fn capacity_outcome(capacity: u32) -> Result<usize, Report> {
    if capacity < 2 {
        Err(
            invalid_argument(
                "capacity "@ + dec(capacity as nat) + " leaves no room past the sentinel head"@,
            ),
        )
    } else if capacity == SUBETHA_LIST_NIL_INDEX {
        Err(invalid_argument("capacity is the index that names no node"@))
    } else {
        Ok(capacity as usize)
    }
}

/// A list capacity: room for the sentinel head and at least one node.
pub fn list_capacity(last: &mut LastError, capacity: u32) -> (checked: Result<usize, i32>)
    ensures
        answers(checked, capacity_outcome(capacity), old(last)@, final(last)@),
{
    if capacity < 2 {
        let mut text: String = String::from_str("capacity ");
        push_dec(&mut text, capacity as u64);
        text.append(" leaves no room past the sentinel head");
        return Err(fail(last, SUBETHA_E_INVALID_ARGUMENT, text.as_str()));
    }
    if capacity == SUBETHA_LIST_NIL_INDEX {
        return Err(fail(last, SUBETHA_E_INVALID_ARGUMENT, "capacity is the index that names no node"));
    }
    Ok(capacity as usize)
}

/// What [`read_arguments`] answers.
pub open spec fn read_arguments_outcome<'a>(
    initialized: Result<(), Refused>,
    out_null: bool,
    path: Result<&'a str, Refused>,
    capacity: u32,
    layout: Result<ElementLayout, Refused>,
    mode: Result<u32, Refused>,
) -> Result<(&'a str, usize, ElementLayout, u32), Report> {
    if initialized is Err {
        Err(initialized->Err_0.report())
    } else if out_null {
        Err(invalid_argument("out is null"@))
    } else if path is Err {
        Err(path->Err_0.report())
    } else if capacity_outcome(capacity) is Err {
        Err(capacity_outcome(capacity)->Err_0)
    } else if layout is Err {
        Err(layout->Err_0.report())
    } else if mode is Err {
        Err(mode->Err_0.report())
    } else {
        Ok((path->Ok_0, capacity as usize, layout->Ok_0, mode->Ok_0))
    }
}

/// The arguments every constructor reads, in order, so the first refusal
/// names the argument at fault.
pub fn read_arguments<'a>(
    last: &mut LastError,
    initialized: Result<(), Refused>,
    out_null: bool,
    path: Result<&'a str, Refused>,
    capacity: u32,
    layout: Result<ElementLayout, Refused>,
    mode: Result<u32, Refused>,
) -> (read: Result<(&'a str, usize, ElementLayout, u32), i32>)
    ensures
        answers(
            read,
            read_arguments_outcome(initialized, out_null, path, capacity, layout, mode),
            old(last)@,
            final(last)@,
        ),
{
    if let Err(code) = given(last, initialized) {
        return Err(code);
    }
    if out_null {
        return Err(fail(last, SUBETHA_E_INVALID_ARGUMENT, "out is null"));
    }
    let path: &'a str = match given(last, path) {
        Ok(path) => path,
        Err(code) => {
            return Err(code);
        },
    };
    let capacity: usize = match list_capacity(last, capacity) {
        Ok(capacity) => capacity,
        Err(code) => {
            return Err(code);
        },
    };
    let layout: ElementLayout = match given(last, layout) {
        Ok(layout) => layout,
        Err(code) => {
            return Err(code);
        },
    };
    match given(last, mode) {
        Ok(mode) => Ok((path, capacity, layout, mode)),
        Err(code) => Err(code),
    }
}

/// A value argument of exactly the list's element size.
pub fn value_of<'a>(last: &mut LastError, data: Result<&'a [u8], Refused>, element_size: usize) -> (value: Result<
    &'a [u8],
    i32,
>)
    ensures
        answers(
            value,
            match data {
                Err(refusal) => Err(refusal.report()),
                Ok(bytes) => if bytes@.len() != element_size {
                    Err(
                        invalid_argument(
                            "a value is "@ + dec(element_size as nat) + " bytes, not "@ + dec(bytes@.len()),
                        ),
                    )
                } else {
                    Ok(bytes)
                },
            },
            old(last)@,
            final(last)@,
        ),
{
    let bytes: &'a [u8] = match given(last, data) {
        Ok(bytes) => bytes,
        Err(code) => {
            return Err(code);
        },
    };
    if bytes.len() != element_size {
        let mut text: String = String::from_str("a value is ");
        push_dec(&mut text, element_size as u64);
        text.append(" bytes, not ");
        push_dec(&mut text, bytes.len() as u64);
        return Err(fail(last, SUBETHA_E_INVALID_ARGUMENT, text.as_str()));
    }
    Ok(bytes)
}

/// The arguments of a push, checked in order: somewhere to write the index,
/// then the value.
pub fn push_arguments<'a>(
    last: &mut LastError,
    out_index_null: bool,
    data: Result<&'a [u8], Refused>,
    element_size: usize,
) -> (value: Result<&'a [u8], i32>)
    ensures
        answers(
            value,
            if out_index_null {
                Err(invalid_argument("out_index is null"@))
            } else {
                match data {
                    Err(refusal) => Err(refusal.report()),
                    Ok(bytes) => if bytes@.len() != element_size {
                        Err(
                            invalid_argument(
                                "a value is "@ + dec(element_size as nat) + " bytes, not "@ + dec(bytes@.len()),
                            ),
                        )
                    } else {
                        Ok(bytes)
                    },
                }
            },
            old(last)@,
            final(last)@,
        ),
{
    if out_index_null {
        return Err(fail(last, SUBETHA_E_INVALID_ARGUMENT, "out_index is null"));
    }
    value_of(last, data, element_size)
}

/// What taking a node from an end answers: the length of its value, or that
/// the list holds no node.
pub fn popped(last: &mut LastError, went: Result<bool, LinkedListError>, element_size: usize) -> (len: Result<
    usize,
    i32,
>)
    ensures
        answers(
            len,
            match went {
                Ok(true) => Ok(element_size),
                Ok(false) => Err(bare(SUBETHA_E_RING_EMPTY)),
                Err(e) => Err(list_code_report(e)),
            },
            old(last)@,
            final(last)@,
        ),
{
    match went {
        Ok(true) => Ok(element_size),
        Ok(false) => Err(SUBETHA_E_RING_EMPTY),
        Err(e) => Err(list_code(last, e)),
    }
}

/// Make the object for a list that was built or opened, or answer with why
/// it could not be.
pub fn place<P>(last: &mut LastError, opened: Result<P, LinkedListError>) -> (object: Result<Object<P>, i32>)
    ensures
        answers(
            object,
            match opened {
                Ok(p) => Ok(Object::List(p)),
                Err(e) => Err(list_code_report(e)),
            },
            old(last)@,
            final(last)@,
        ),
{
    match opened {
        Ok(p) => Ok(Object::List(p)),
        Err(e) => Err(list_code(last, e)),
    }
}

/// What a call on a list answers, given how it went: its value, or the
/// code its error maps to.
pub fn outcome<T>(last: &mut LastError, went: Result<T, LinkedListError>) -> (answer: Result<T, i32>)
    ensures
        answers(
            answer,
            match went {
                Ok(value) => Ok(value),
                Err(e) => Err(list_code_report(e)),
            },
            old(last)@,
            final(last)@,
        ),
{
    match went {
        Ok(value) => Ok(value),
        Err(e) => Err(list_code(last, e)),
    }
}

/// A snapshot, from what the list says.
pub fn stats(
    mode: u32,
    capacity: usize,
    len: usize,
    layout: ElementLayout,
    node_size: usize,
) -> (stats: subetha_list_stats)
    ensures
        stats == (subetha_list_stats {
            mode,
            capacity: capacity as u64,
            len: len as u64,
            element_size: layout.slot_size as u64,
            alignment: layout.alignment as u64,
            tag: layout.tag,
            node_size: node_size as u64,
        }),
{
    subetha_list_stats {
        mode,
        capacity: capacity as u64,
        len: len as u64,
        element_size: layout.slot_size as u64,
        alignment: layout.alignment as u64,
        tag: layout.tag,
        node_size: node_size as u64,
    }
}

/// A call on a list reaches what stands behind a handle to a list, and nothing
/// behind any other handle.
pub proof fn only_a_list_is_reached<P>(last: &mut LastError, object: &Object<P>, reached: Result<&P, i32>)
    requires
        call_ensures(with_list::<P>, (last, object), reached),
    ensures
        reached is Ok <==> *object is List,
        reached matches Ok(payload) ==> *object == Object::List(*payload) && final(last)@ == old(last)@,
        reached matches Err(code) ==> code == SUBETHA_E_WRONG_KIND
            && final(last)@ == "the handle does not name a list"@,
{
}

/// A list that opened is placed as what it is; one that did not is answered
/// exactly as its error is.
pub proof fn a_list_that_opened_is_placed_as_one<P>(
    last: &mut LastError,
    other: &mut LastError,
    opened: Result<P, LinkedListError>,
    answer: Result<Object<P>, i32>,
    code: i32,
)
    requires
        call_ensures(place::<P>, (last, opened), answer),
        opened matches Err(e) ==> call_ensures(list_code, (other, e), code),
        old(last)@ == old(other)@,
    ensures
        opened matches Ok(value) ==> answer == Ok::<Object<P>, i32>(Object::List(value))
            && final(last)@ == old(last)@,
        opened is Err ==> answer == Err::<Object<P>, i32>(code) && final(last)@ == final(other)@,
{
}

/// A call that went well answers with what it gave, and one that did not
/// answers exactly as its error does.
pub proof fn a_call_that_went_well_is_not_refused<T>(
    last: &mut LastError,
    other: &mut LastError,
    went: Result<T, LinkedListError>,
    answer: Result<T, i32>,
    code: i32,
)
    requires
        call_ensures(outcome::<T>, (last, went), answer),
        went matches Err(e) ==> call_ensures(list_code, (other, e), code),
        old(last)@ == old(other)@,
    ensures
        went matches Ok(value) ==> answer == Ok::<T, i32>(value) && final(last)@ == old(last)@,
        went is Err ==> answer == Err::<T, i32>(code) && final(last)@ == final(other)@,
{
}

/// A snapshot reports each thing it was handed under that thing's own name.
pub proof fn a_snapshot_reports_each_thing_as_it_is(
    mode: u32,
    capacity: usize,
    len: usize,
    layout: ElementLayout,
    node_size: usize,
    shown: subetha_list_stats,
)
    requires
        call_ensures(stats, (mode, capacity, len, layout, node_size), shown),
    ensures
        shown.mode == mode,
        shown.capacity == capacity as u64,
        shown.len == len as u64,
        shown.element_size == layout.slot_size as u64,
        shown.alignment == layout.alignment as u64,
        shown.tag == layout.tag,
        shown.node_size == node_size as u64,
{
}

/// A capacity is accepted exactly when it leaves a node past the head and an
/// index to name none, and stands for itself.
pub proof fn a_list_has_room_past_its_head(last: &mut LastError, capacity: u32, checked: Result<usize, i32>)
    requires
        call_ensures(list_capacity, (last, capacity), checked),
    ensures
        checked is Ok <==> 2 <= capacity < u32::MAX,
        checked matches Ok(n) ==> n == capacity && final(last)@ == old(last)@,
        checked matches Err(code) ==> code == SUBETHA_E_INVALID_ARGUMENT,
{
}

/// The arguments are accepted exactly when nothing is wrong with any of them,
/// and then handed on unchanged; the first one at fault is the one answered
/// for.
pub proof fn a_list_is_made_with_arguments_that_are_right<'a>(
    last: &mut LastError,
    initialized: Result<(), Refused>,
    out_null: bool,
    path: Result<&'a str, Refused>,
    capacity: u32,
    layout: Result<ElementLayout, Refused>,
    mode: Result<u32, Refused>,
    read: Result<(&'a str, usize, ElementLayout, u32), i32>,
)
    requires
        call_ensures(read_arguments, (last, initialized, out_null, path, capacity, layout, mode), read),
    ensures
        read is Ok <==> initialized is Ok && !out_null && path is Ok && !(capacity < 2 || capacity == u32::MAX)
            && layout is Ok && mode is Ok,
        read matches Ok(all) ==> all.0 == path->Ok_0 && all.1 == capacity && all.2 == layout->Ok_0
            && all.3 == mode->Ok_0 && final(last)@ == old(last)@,
        initialized is Err ==> read is Err && read->Err_0 == initialized->Err_0.code
            && final(last)@ == initialized->Err_0.report().leaves(old(last)@),
        initialized is Ok && out_null ==> read is Err && read->Err_0 == SUBETHA_E_INVALID_ARGUMENT
            && final(last)@ == "out is null"@,
        initialized is Ok && !out_null && path is Err ==> read is Err && read->Err_0 == path->Err_0.code
            && final(last)@ == path->Err_0.report().leaves(old(last)@),
        initialized is Ok && !out_null && path is Ok && (capacity < 2 || capacity == u32::MAX) ==> read is Err
            && read->Err_0 == SUBETHA_E_INVALID_ARGUMENT,
        initialized is Ok && !out_null && path is Ok && !(capacity < 2 || capacity == u32::MAX)
            && layout is Err ==> read is Err && read->Err_0 == layout->Err_0.code
            && final(last)@ == layout->Err_0.report().leaves(old(last)@),
        initialized is Ok && !out_null && path is Ok && !(capacity < 2 || capacity == u32::MAX) && layout is Ok
            && mode is Err ==> read is Err && read->Err_0 == mode->Err_0.code
            && final(last)@ == mode->Err_0.report().leaves(old(last)@),
{
}

/// The arguments are accepted exactly when nothing is wrong with any of them,
/// and then handed on unchanged; the first one at fault is the one answered
/// for.
pub proof fn a_value_is_exactly_an_element_long<'a>(
    last: &mut LastError,
    data: Result<&'a [u8], Refused>,
    element_size: usize,
    value: Result<&'a [u8], i32>,
)
    requires
        call_ensures(value_of, (last, data, element_size), value),
    ensures
        value is Ok <==> data is Ok && data->Ok_0@.len() == element_size,
        value matches Ok(all) ==> all == data->Ok_0 && final(last)@ == old(last)@,
        data is Err ==> value is Err && value->Err_0 == data->Err_0.code
            && final(last)@ == data->Err_0.report().leaves(old(last)@),
        data is Ok && data->Ok_0@.len() != element_size ==> value is Err
            && value->Err_0 == SUBETHA_E_INVALID_ARGUMENT,
{
}

/// The arguments are accepted exactly when nothing is wrong with any of them,
/// and then handed on unchanged; the first one at fault is the one answered
/// for.
pub proof fn a_pushed_value_is_exactly_an_element_long<'a>(
    last: &mut LastError,
    out_index_null: bool,
    data: Result<&'a [u8], Refused>,
    element_size: usize,
    value: Result<&'a [u8], i32>,
)
    requires
        call_ensures(push_arguments, (last, out_index_null, data, element_size), value),
    ensures
        value is Ok <==> !out_index_null && data is Ok && data->Ok_0@.len() == element_size,
        value matches Ok(all) ==> all == data->Ok_0 && final(last)@ == old(last)@,
        out_index_null ==> value is Err && value->Err_0 == SUBETHA_E_INVALID_ARGUMENT
            && final(last)@ == "out_index is null"@,
        !out_index_null && data is Err ==> value is Err && value->Err_0 == data->Err_0.code
            && final(last)@ == data->Err_0.report().leaves(old(last)@),
        !out_index_null && data is Ok && data->Ok_0@.len() != element_size ==> value is Err
            && value->Err_0 == SUBETHA_E_INVALID_ARGUMENT,
{
}

/// A pop that took a value reports a whole element, one that took none says
/// the list is empty, and a failure answers exactly as its error.
pub proof fn a_list_is_empty_only_when_nothing_was_popped(
    last: &mut LastError,
    other: &mut LastError,
    went: Result<bool, LinkedListError>,
    element_size: usize,
    len: Result<usize, i32>,
    code: i32,
)
    requires
        call_ensures(popped, (last, went, element_size), len),
        went matches Err(e) ==> call_ensures(list_code, (other, e), code),
        old(last)@ == old(other)@,
    ensures
        went == Ok::<bool, LinkedListError>(true) ==> len == Ok::<usize, i32>(element_size)
            && final(last)@ == old(last)@,
        went == Ok::<bool, LinkedListError>(false) ==> len == Err::<usize, i32>(SUBETHA_E_RING_EMPTY),
        went is Err ==> len == Err::<usize, i32>(code) && final(last)@ == final(other)@,
{
}

/// The numbers callers give and are given, as they were built against them.
pub proof fn the_numbers_are_the_ones_callers_know()
    ensures
        SUBETHA_LIST_HEAD_INDEX == 0,
        SUBETHA_LIST_NIL_INDEX == 0xFFFF_FFFF,
{
}

/// A refusal says what was given and what it should have been.
pub proof fn a_capacity_at_fault_is_told(last: &mut LastError, capacity: u32, checked: Result<usize, i32>)
    requires
        call_ensures(list_capacity, (last, capacity), checked),
    ensures
        capacity < 2 ==> final(last)@ == "capacity "@ + dec(capacity as nat)
            + " leaves no room past the sentinel head"@,
        capacity == u32::MAX ==> final(last)@ == "capacity is the index that names no node"@,
{
}

/// A refusal says what was given and what it should have been.
pub proof fn a_value_at_fault_is_told<'a>(
    last: &mut LastError,
    data: &'a [u8],
    element_size: usize,
    value: Result<&'a [u8], i32>,
)
    requires
        call_ensures(value_of, (last, Ok(data), element_size), value),
    ensures
        value is Err ==> final(last)@ == "a value is "@ + dec(element_size as nat) + " bytes, not "@
            + dec(data@.len()),
{
}

} // verus!
