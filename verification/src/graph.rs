//! The shared directed graph. Node and edge values cross as byte buffers of
//! exactly the sizes the graph was created with. A buffer of any other length
//! is refused rather than padded.
//!
//! Out-edges are read one at a time, from a node's first edge to the next,
//! until the answer is `SUBETHA_GRAPH_NIL`.
//!
//! An edge to a node index nothing allocated is refused, because a dangling
//! edge is indistinguishable from a live one afterwards. Removing an edge from
//! a node that does not own it is refused, because freeing it would leave the
//! chain that does own it pointing at a free slot.

use vstd::prelude::*;

use crate::arguments::{copy_front, given, invalid_argument};
use crate::error::{
    answers, answers_code, fail, told, LastError, Refused, RegionError, Report,
    SUBETHA_E_INVALID_ARGUMENT, SUBETHA_E_MAP_FULL, SUBETHA_E_RING_IO,
    SUBETHA_E_RING_LAYOUT_MISMATCH, SUBETHA_E_WRONG_KIND,
};
use crate::handle::Object;
use crate::text::{dec, push_dec};

verus! {

/// The index that names no node and no edge; what a walk of a node's edges
/// ends with.
pub const SUBETHA_GRAPH_NIL: u32 = 0xFFFF_FFFF;

/// A snapshot of a shared graph.
#[allow(non_camel_case_types)]
#[derive(Clone, Copy, Default, Debug, PartialEq, Eq)]
pub struct subetha_graph_stats {
    /// The mode this handle was created in.
    pub mode: u32,
    /// Nodes it holds now.
    pub node_count: u64,
    /// Edges it holds now.
    pub edge_count: u64,
    /// Nodes it can hold.
    pub max_nodes: u64,
    /// Edges it can hold.
    pub max_edges: u64,
    /// Bytes in a node's value.
    pub node_value_size: u64,
    /// Bytes in an edge's value.
    pub edge_value_size: u64,
}

/// What the slots beneath a graph refusing answers.
pub open spec fn slot_code_report(e: RegionError) -> Report {
    match e {
        RegionError::Full => told(SUBETHA_E_MAP_FULL, "the graph has no free slot"@),
        RegionError::LayoutMismatch => told(
            SUBETHA_E_RING_LAYOUT_MISMATCH,
            "the graph on disk was built with different value sizes"@,
        ),
        RegionError::IoError(kind) => told(SUBETHA_E_RING_IO, "the graph could not be reached: "@ + kind@),
        RegionError::InvalidPtr => told(SUBETHA_E_RING_IO, "the graph refused: InvalidPtr"@),
        RegionError::PayloadTooLarge => told(SUBETHA_E_RING_IO, "the graph refused: PayloadTooLarge"@),
    }
}

/// The map from the error of a graph's slots to the code that names it.
pub fn slot_code(last: &mut LastError, e: RegionError) -> (code: i32)
    ensures
        answers_code(code, slot_code_report(e), old(last)@, final(last)@),
{
    match e {
        RegionError::Full => fail(last, SUBETHA_E_MAP_FULL, "the graph has no free slot"),
        RegionError::LayoutMismatch => fail(
            last,
            SUBETHA_E_RING_LAYOUT_MISMATCH,
            "the graph on disk was built with different value sizes",
        ),
        RegionError::IoError(kind) => {
            let mut text: String = String::from_str("the graph could not be reached: ");
            text.append(kind.as_str());
            fail(last, SUBETHA_E_RING_IO, text.as_str())
        },
        RegionError::InvalidPtr => fail(last, SUBETHA_E_RING_IO, "the graph refused: InvalidPtr"),
        RegionError::PayloadTooLarge => fail(last, SUBETHA_E_RING_IO, "the graph refused: PayloadTooLarge"),
    }
}

/// What a graph refuses with.
#[derive(Debug)]
pub enum RawGraphError {
    /// A value is not the size the graph was created with.
    WrongSize {
        /// Bytes the graph uses there.
        expected: u64,
        /// Bytes the caller gave.
        found: u64,
    },
    /// The index names no live node.
    InvalidNode,
    /// The index names no live edge on the node.
    InvalidEdge,
    /// The slots beneath refused.
    Region(RegionError),
}

/// What `code_for` answers.
pub open spec fn code_for_report(e: RawGraphError) -> Report {
    match e {
        RawGraphError::WrongSize { expected, found } => told(SUBETHA_E_INVALID_ARGUMENT, "this graph uses "@ + dec(expected as nat) + "-byte values here, and "@ + dec(found as nat) + " was given"@),
        RawGraphError::InvalidNode => told(SUBETHA_E_INVALID_ARGUMENT, "that index names no live node"@),
        RawGraphError::InvalidEdge => told(SUBETHA_E_INVALID_ARGUMENT, "that index names no live edge on this node"@),
        RawGraphError::Region(e) => slot_code_report(e),
    }
}

/// The map from a graph's error to the code that names it.
pub fn code_for(last: &mut LastError, e: RawGraphError) -> (code: i32)
    ensures
        answers_code(code, code_for_report(e), old(last)@, final(last)@),
{
    match e {
        RawGraphError::WrongSize { expected, found } => {
            let mut text: String = String::from_str("this graph uses ");
            push_dec(&mut text, expected);
            text.append("-byte values here, and ");
            push_dec(&mut text, found);
            text.append(" was given");
            fail(last, SUBETHA_E_INVALID_ARGUMENT, text.as_str())
        },
        RawGraphError::InvalidNode => fail(last, SUBETHA_E_INVALID_ARGUMENT, "that index names no live node"),
        RawGraphError::InvalidEdge => fail(last, SUBETHA_E_INVALID_ARGUMENT, "that index names no live edge on this node"),
        RawGraphError::Region(e) => slot_code(last, e),
    }
}

/// The payload behind a graph's handle.
pub fn with_graph<'a, P>(last: &mut LastError, object: &'a Object<P>) -> (payload: Result<&'a P, i32>)
    ensures
        answers(
            payload,
            match *object {
                Object::Graph(p) => Ok(&p),
                _ => Err(told(SUBETHA_E_WRONG_KIND, "the handle does not name a graph"@)),
            },
            old(last)@,
            final(last)@,
        ),
{
    match object {
        Object::Graph(p) => Ok(p),
        _ => Err(fail(last, SUBETHA_E_WRONG_KIND, "the handle does not name a graph")),
    }
}

/// The arguments every constructor reads, in order, so the first refusal
/// names the argument at fault.
pub fn read_arguments<'a>(
    last: &mut LastError,
    initialized: Result<(), Refused>,
    out_null: bool,
    base_path: Result<&'a str, Refused>,
    node_value_size: u64,
    edge_value_size: u64,
    mode: Result<u32, Refused>,
) -> (answer: Result<(&'a str, usize, usize, u32), i32>)
    ensures
        answers(
            answer,
            if initialized is Err {
                Err(initialized->Err_0.report())
            } else if out_null {
                Err(invalid_argument("out is null"@))
            } else if base_path is Err {
                Err(base_path->Err_0.report())
            } else if mode is Err {
                Err(mode->Err_0.report())
            } else if node_value_size == 0 || edge_value_size == 0 {
                Err(invalid_argument("a node or edge value of zero bytes carries nothing"@))
            } else {
                Ok((base_path->Ok_0, node_value_size as usize, edge_value_size as usize, mode->Ok_0))
            },
            old(last)@,
            final(last)@,
        ),
{
    if let Err(code) = given(last, initialized) {
        return Err(code);
    }
    if out_null {
        return Err(fail(last, SUBETHA_E_INVALID_ARGUMENT, "out is null"));
    }
    let base_path: &'a str = match given(last, base_path) {
        Ok(base_path) => base_path,
        Err(code) => {
            return Err(code);
        },
    };
    let mode: u32 = match given(last, mode) {
        Ok(mode) => mode,
        Err(code) => {
            return Err(code);
        },
    };
    if node_value_size == 0 || edge_value_size == 0 {
        return Err(fail(last, SUBETHA_E_INVALID_ARGUMENT, "a node or edge value of zero bytes carries nothing"));
    }
    Ok((base_path, node_value_size as usize, edge_value_size as usize, mode))
}

/// Make the object for a graph that was built or opened, or answer with why
/// it could not be.
pub fn place<P>(last: &mut LastError, opened: Result<P, RawGraphError>) -> (object: Result<Object<P>, i32>)
    ensures
        answers(
            object,
            match opened {
                Ok(p) => Ok(Object::Graph(p)),
                Err(e) => Err(code_for_report(e)),
            },
            old(last)@,
            final(last)@,
        ),
{
    match opened {
        Ok(p) => Ok(Object::Graph(p)),
        Err(e) => Err(code_for(last, e)),
    }
}

/// The arguments of an addition, read in order: somewhere to write the index,
/// named `what` for a refusal, then the value.
pub fn add_arguments<'a>(
    last: &mut LastError,
    index_out_null: bool,
    what: &str,
    value: Result<&'a [u8], Refused>,
) -> (answer: Result<&'a [u8], i32>)
    ensures
        answers(
            answer,
            if index_out_null {
                Err(invalid_argument(what@ + " is null"@))
            } else if value is Err {
                Err(value->Err_0.report())
            } else {
                Ok(value->Ok_0)
            },
            old(last)@,
            final(last)@,
        ),
{
    if index_out_null {
        let mut text: String = String::from_str(what);
        text.append(" is null");
        return Err(fail(last, SUBETHA_E_INVALID_ARGUMENT, text.as_str()));
    }
    let value: &'a [u8] = match given(last, value) {
        Ok(value) => value,
        Err(code) => {
            return Err(code);
        },
    };
    Ok(value)
}

/// Somewhere to copy a node's value to.
pub fn node_value_arguments(
    last: &mut LastError,
    value_out_null: bool,
) -> (answer: Result<(), i32>)
    ensures
        answers(
            answer,
            if value_out_null {
                Err(invalid_argument("value_out is null"@))
            } else {
                Ok(())
            },
            old(last)@,
            final(last)@,
        ),
{
    if value_out_null {
        return Err(fail(last, SUBETHA_E_INVALID_ARGUMENT, "value_out is null"));
    }
    Ok(())
}

/// Somewhere to copy an edge's value to and to write the node it points at.
pub fn edge_target_arguments(
    last: &mut LastError,
    value_out_null: bool,
    dst_out_null: bool,
) -> (answer: Result<(), i32>)
    ensures
        answers(
            answer,
            if value_out_null || dst_out_null {
                Err(invalid_argument("value_out or dst_out is null"@))
            } else {
                Ok(())
            },
            old(last)@,
            final(last)@,
        ),
{
    if value_out_null || dst_out_null {
        return Err(fail(last, SUBETHA_E_INVALID_ARGUMENT, "value_out or dst_out is null"));
    }
    Ok(())
}

/// Hand a value back through a caller's buffer where the read went well; a
/// refused read leaves the buffer as it was.
pub fn value_read<T>(last: &mut LastError, went: Result<T, RawGraphError>, scratch: &[u8], value_out: &mut [u8])
    -> (answer: Result<T, i32>)
    requires
        scratch@.len() <= old(value_out)@.len(),
    ensures
        answers(
            answer,
            match went {
                Ok(value) => Ok(value),
                Err(e) => Err(code_for_report(e)),
            },
            old(last)@,
            final(last)@,
        ),
        final(value_out)@ == if went is Ok {
            scratch@ + old(value_out)@.skip(scratch@.len() as int)
        } else {
            old(value_out)@
        },
{
    match went {
        Ok(value) => {
            copy_front(scratch, value_out);
            Ok(value)
        },
        Err(e) => Err(code_for(last, e)),
    }
}

/// What a call on a graph answers, given how it went: its value, or the
/// code its error maps to.
pub fn outcome<T>(last: &mut LastError, went: Result<T, RawGraphError>) -> (answer: Result<T, i32>)
    ensures
        answers(
            answer,
            match went {
                Ok(value) => Ok(value),
                Err(e) => Err(code_for_report(e)),
            },
            old(last)@,
            final(last)@,
        ),
{
    match went {
        Ok(value) => Ok(value),
        Err(e) => Err(code_for(last, e)),
    }
}

/// A snapshot, from what the graph says.
pub fn stats(
    mode: u32,
    node_count: usize,
    edge_count: usize,
    max_nodes: usize,
    max_edges: usize,
    node_value_size: usize,
    edge_value_size: usize,
) -> (stats: subetha_graph_stats)
    ensures
        stats == (subetha_graph_stats {
            mode,
            node_count: node_count as u64,
            edge_count: edge_count as u64,
            max_nodes: max_nodes as u64,
            max_edges: max_edges as u64,
            node_value_size: node_value_size as u64,
            edge_value_size: edge_value_size as u64,
        }),
{
    subetha_graph_stats {
        mode,
        node_count: node_count as u64,
        edge_count: edge_count as u64,
        max_nodes: max_nodes as u64,
        max_edges: max_edges as u64,
        node_value_size: node_value_size as u64,
        edge_value_size: edge_value_size as u64,
    }
}

/// A call on a graph reaches what stands behind a handle to a graph, and
/// nothing behind any other handle.
pub proof fn only_a_graph_is_reached<P>(last: &mut LastError, object: &Object<P>, reached: Result<&P, i32>)
    requires
        call_ensures(with_graph::<P>, (last, object), reached),
    ensures
        reached is Ok <==> *object is Graph,
        reached matches Ok(payload) ==> *object == Object::Graph(*payload) && final(last)@ == old(last)@,
        reached matches Err(code) ==> code == SUBETHA_E_WRONG_KIND
            && final(last)@ == "the handle does not name a graph"@,
{
}

/// A graph that opened is placed as what it is; one that did not is answered
/// exactly as its error is.
pub proof fn a_graph_that_opened_is_placed_as_one<P>(
    last: &mut LastError,
    other: &mut LastError,
    opened: Result<P, RawGraphError>,
    answer: Result<Object<P>, i32>,
    code: i32,
)
    requires
        call_ensures(place::<P>, (last, opened), answer),
        opened matches Err(e) ==> call_ensures(code_for, (other, e), code),
        old(last)@ == old(other)@,
    ensures
        opened matches Ok(value) ==> answer == Ok::<Object<P>, i32>(Object::Graph(value))
            && final(last)@ == old(last)@,
        opened is Err ==> answer == Err::<Object<P>, i32>(code) && final(last)@ == final(other)@,
{
}

/// A call that went well answers with what it gave, and one that did not
/// answers exactly as its error does.
pub proof fn a_call_that_went_well_is_not_refused<T>(
    last: &mut LastError,
    other: &mut LastError,
    went: Result<T, RawGraphError>,
    answer: Result<T, i32>,
    code: i32,
)
    requires
        call_ensures(outcome::<T>, (last, went), answer),
        went matches Err(e) ==> call_ensures(code_for, (other, e), code),
        old(last)@ == old(other)@,
    ensures
        went matches Ok(value) ==> answer == Ok::<T, i32>(value) && final(last)@ == old(last)@,
        went is Err ==> answer == Err::<T, i32>(code) && final(last)@ == final(other)@,
{
}

/// A snapshot reports each thing it was handed under that thing's own name.
pub proof fn a_snapshot_reports_each_thing_as_it_is(
    mode: u32,
    node_count: usize,
    edge_count: usize,
    max_nodes: usize,
    max_edges: usize,
    node_value_size: usize,
    edge_value_size: usize,
    shown: subetha_graph_stats,
)
    requires
        call_ensures(stats, (mode, node_count, edge_count, max_nodes, max_edges, node_value_size, edge_value_size),
            shown),
    ensures
        shown.mode == mode,
        shown.node_count == node_count as u64,
        shown.edge_count == edge_count as u64,
        shown.max_nodes == max_nodes as u64,
        shown.max_edges == max_edges as u64,
        shown.node_value_size == node_value_size as u64,
        shown.edge_value_size == edge_value_size as u64,
{
}

/// The arguments are accepted exactly when nothing is wrong with any of them,
/// and then handed on unchanged; the first one at fault is the one answered
/// for.
pub proof fn a_graph_is_made_with_arguments_that_are_right<'a>(
    last: &mut LastError,
    initialized: Result<(), Refused>,
    out_null: bool,
    base_path: Result<&'a str, Refused>,
    node_value_size: u64,
    edge_value_size: u64,
    mode: Result<u32, Refused>,
    read: Result<(&'a str, usize, usize, u32), i32>,
)
    requires
        call_ensures(read_arguments, (last, initialized, out_null, base_path, node_value_size, edge_value_size,
            mode), read),
    ensures
        read is Ok <==> initialized is Ok && !out_null && base_path is Ok && mode is Ok
            && !(node_value_size == 0 || edge_value_size == 0),
        read matches Ok(all) ==> all.0 == base_path->Ok_0 && (node_value_size <= usize::MAX
            ==> all.1 == node_value_size) && (edge_value_size <= usize::MAX ==> all.2 == edge_value_size)
            && all.3 == mode->Ok_0 && final(last)@ == old(last)@,
        initialized is Err ==> read is Err && read->Err_0 == initialized->Err_0.code
            && final(last)@ == initialized->Err_0.report().leaves(old(last)@),
        initialized is Ok && out_null ==> read is Err && read->Err_0 == SUBETHA_E_INVALID_ARGUMENT
            && final(last)@ == "out is null"@,
        initialized is Ok && !out_null && base_path is Err ==> read is Err
            && read->Err_0 == base_path->Err_0.code && final(last)@ == base_path->Err_0.report().leaves(old(last)@),
        initialized is Ok && !out_null && base_path is Ok && mode is Err ==> read is Err
            && read->Err_0 == mode->Err_0.code && final(last)@ == mode->Err_0.report().leaves(old(last)@),
        initialized is Ok && !out_null && base_path is Ok && mode is Ok && (node_value_size == 0
            || edge_value_size == 0) ==> read is Err && read->Err_0 == SUBETHA_E_INVALID_ARGUMENT
            && final(last)@ == "a node or edge value of zero bytes carries nothing"@,
{
}

/// The arguments are accepted exactly when nothing is wrong with any of them,
/// and then handed on unchanged; the first one at fault is the one answered
/// for.
pub proof fn a_value_is_added_where_its_index_can_be_written<'a>(
    last: &mut LastError,
    index_out_null: bool,
    what: &str,
    value: Result<&'a [u8], Refused>,
    read: Result<&'a [u8], i32>,
)
    requires
        call_ensures(add_arguments, (last, index_out_null, what, value), read),
    ensures
        read is Ok <==> !index_out_null && value is Ok,
        read matches Ok(all) ==> all == value->Ok_0 && final(last)@ == old(last)@,
        index_out_null ==> read is Err && read->Err_0 == SUBETHA_E_INVALID_ARGUMENT && final(last)@ == (what@
            + " is null"@),
        !index_out_null && value is Err ==> read is Err && read->Err_0 == value->Err_0.code
            && final(last)@ == value->Err_0.report().leaves(old(last)@),
{
}

/// A node's value is read exactly when there is a place for it.
pub proof fn a_node_value_needs_a_place(last: &mut LastError, value_out_null: bool, answer: Result<(), i32>)
    requires
        call_ensures(node_value_arguments, (last, value_out_null), answer),
    ensures
        answer is Ok <==> !value_out_null,
        answer is Ok ==> final(last)@ == old(last)@,
        answer matches Err(code) ==> code == SUBETHA_E_INVALID_ARGUMENT && final(last)@ == "value_out is null"@,
{
}

/// An edge is read exactly when there are places for its value and for where
/// it leads.
pub proof fn an_edge_needs_places_for_its_value_and_its_end(
    last: &mut LastError,
    value_out_null: bool,
    dst_out_null: bool,
    answer: Result<(), i32>,
)
    requires
        call_ensures(edge_target_arguments, (last, value_out_null, dst_out_null), answer),
    ensures
        answer is Ok <==> !value_out_null && !dst_out_null,
        answer is Ok ==> final(last)@ == old(last)@,
        answer matches Err(code) ==> code == SUBETHA_E_INVALID_ARGUMENT
            && final(last)@ == "value_out or dst_out is null"@,
{
}

/// A read that went well puts the value in front of the buffer and answers
/// with what it gave; a refused one leaves the buffer alone and answers
/// exactly as its error does.
pub proof fn a_refused_read_leaves_the_buffer_alone<T>(
    last: &mut LastError,
    other: &mut LastError,
    went: Result<T, RawGraphError>,
    scratch: &[u8],
    value_out: &mut [u8],
    answer: Result<T, i32>,
    code: i32,
)
    requires
        scratch@.len() <= old(value_out)@.len(),
        call_ensures(value_read::<T>, (last, went, scratch, value_out), answer),
        went matches Err(e) ==> call_ensures(code_for, (other, e), code),
        old(last)@ == old(other)@,
    ensures
        went matches Ok(value) ==> answer == Ok::<T, i32>(value) && final(last)@ == old(last)@,
        went is Err ==> answer == Err::<T, i32>(code) && final(last)@ == final(other)@
            && final(value_out)@ == old(value_out)@,
        final(value_out)@.len() == old(value_out)@.len(),
        went is Ok ==> forall|i: int| 0 <= i < old(value_out)@.len()
            ==> (#[trigger] final(value_out)@[i]) == if i < scratch@.len() { scratch@[i] } else { old(value_out)@[i] },
{
}

/// The numbers callers give and are given, as they were built against them.
pub proof fn the_numbers_are_the_ones_callers_know()
    ensures
        SUBETHA_GRAPH_NIL == 0xFFFF_FFFF,
{
}

/// Each slot error answers with its own code. One with specifics leaves them,
/// and one without leaves what was there.
pub proof fn each_slot_error_has_its_code(last: &mut LastError, e: RegionError, code: i32)
    requires
        call_ensures(slot_code, (last, e), code),
    ensures
        e matches RegionError::Full ==> code == 118 && final(last)@ == "the graph has no free slot"@,
        e matches RegionError::LayoutMismatch ==> code == 102
            && final(last)@ == "the graph on disk was built with different value sizes"@,
        e matches RegionError::IoError(kind) ==> code == 107
            && final(last)@ == "the graph could not be reached: "@ + kind@,
        e matches RegionError::InvalidPtr ==> code == 107 && final(last)@ == "the graph refused: InvalidPtr"@,
        e matches RegionError::PayloadTooLarge ==> code == 107
            && final(last)@ == "the graph refused: PayloadTooLarge"@,
{
}

/// Each error answers with its own code. One with specifics leaves them, and
/// one without leaves what was there. One that comes from beneath answers
/// exactly as it does there.
pub proof fn each_error_has_its_code(
    last: &mut LastError,
    other: &mut LastError,
    e: RawGraphError,
    code: i32,
    beneath: i32,
)
    requires
        call_ensures(code_for, (last, e), code),
        e matches RawGraphError::Region(e) ==> call_ensures(slot_code, (other, e), beneath),
        old(last)@ == old(other)@,
    ensures
        e matches RawGraphError::WrongSize { expected, found } ==> code == 3
            && final(last)@ == "this graph uses "@ + dec(expected as nat) + "-byte values here, and "@
            + dec(found as nat) + " was given"@,
        e matches RawGraphError::InvalidNode ==> code == 3 && final(last)@ == "that index names no live node"@,
        e matches RawGraphError::InvalidEdge ==> code == 3
            && final(last)@ == "that index names no live edge on this node"@,
        e matches RawGraphError::Region(e) ==> code == beneath && final(last)@ == final(other)@,
{
}

} // verus!
