//! The shared hash map: an open-addressed table in a file that any number of
//! processes insert into, look up and remove from, at key and value sizes the
//! caller declares. Every operation copies bytes; a key or value that is not
//! exactly its declared size is refused.

use vstd::prelude::*;

use crate::arguments::{given, invalid_argument};
use crate::error::{
    answers, bare, fail, map_code, map_code_report, told, LastError, MapError, Refused, Report,
    SUBETHA_E_INVALID_ARGUMENT, SUBETHA_E_MAP_KEY_ABSENT, SUBETHA_E_WRONG_KIND,
};
use crate::handle::Object;
use crate::text::{dec, push_dec};

verus! {

/// The insert placed a new entry.
pub const SUBETHA_MAP_INSERTED: u32 = 0;

/// The insert overwrote an existing entry's value.
pub const SUBETHA_MAP_UPDATED: u32 = 1;

/// The most bytes a key and a value take together in one entry.
pub const SUBETHA_HASHMAP_PAYLOAD_BYTES: usize = 48;

/// The payload behind a hash map's handle.
pub fn with_map<'a, P>(last: &mut LastError, object: &'a Object<P>) -> (payload: Result<&'a P, i32>)
    ensures
        answers(
            payload,
            match *object {
                Object::HashMap(p) => Ok(&p),
                _ => Err(told(SUBETHA_E_WRONG_KIND, "the handle does not name a hash map"@)),
            },
            old(last)@,
            final(last)@,
        ),
{
    match object {
        Object::HashMap(p) => Ok(p),
        _ => Err(fail(last, SUBETHA_E_WRONG_KIND, "the handle does not name a hash map")),
    }
}

/// What the sizes of a key and a value have to be.
pub open spec fn sizes_outcome(key_size: u32, value_size: u32) -> Result<(usize, usize), Report> {
    if key_size == 0 {
        Err(invalid_argument("key_size is zero"@))
    } else if key_size + value_size > SUBETHA_HASHMAP_PAYLOAD_BYTES {
        Err(
            invalid_argument(
                "key_size "@ + dec(key_size as nat) + " plus value_size "@ + dec(value_size as nat) + " exceed the "@
                    + dec(SUBETHA_HASHMAP_PAYLOAD_BYTES as nat) + "-byte entry"@,
            ),
        )
    } else {
        Ok((key_size as usize, value_size as usize))
    }
}

/// The sizes a constructor takes: a non-empty key and a key plus value that
/// fit one entry.
pub fn checked_sizes(last: &mut LastError, key_size: u32, value_size: u32) -> (checked: Result<(usize, usize), i32>)
    ensures
        answers(checked, sizes_outcome(key_size, value_size), old(last)@, final(last)@),
{
    if key_size == 0 {
        return Err(fail(last, SUBETHA_E_INVALID_ARGUMENT, "key_size is zero"));
    }
    if key_size as u64 + value_size as u64 > SUBETHA_HASHMAP_PAYLOAD_BYTES as u64 {
        let mut text: String = String::from_str("key_size ");
        push_dec(&mut text, key_size as u64);
        text.append(" plus value_size ");
        push_dec(&mut text, value_size as u64);
        text.append(" exceed the ");
        push_dec(&mut text, SUBETHA_HASHMAP_PAYLOAD_BYTES as u64);
        text.append("-byte entry");
        return Err(fail(last, SUBETHA_E_INVALID_ARGUMENT, text.as_str()));
    }
    Ok((key_size as usize, value_size as usize))
}

/// What a map's capacity has to be.
pub open spec fn capacity_outcome(capacity: u32) -> Result<usize, Report> {
    if capacity < 2 {
        Err(invalid_argument("capacity "@ + dec(capacity as nat) + " is below 2"@))
    } else {
        Ok(capacity as usize)
    }
}

/// A map's capacity.
pub fn map_capacity(last: &mut LastError, capacity: u32) -> (checked: Result<usize, i32>)
    ensures
        answers(checked, capacity_outcome(capacity), old(last)@, final(last)@),
{
    if capacity < 2 {
        let mut text: String = String::from_str("capacity ");
        push_dec(&mut text, capacity as u64);
        text.append(" is below 2");
        return Err(fail(last, SUBETHA_E_INVALID_ARGUMENT, text.as_str()));
    }
    Ok(capacity as usize)
}

/// The arguments every constructor reads, in order, so the first refusal
/// names the argument at fault.
pub fn read_arguments<'a>(
    last: &mut LastError,
    initialized: Result<(), Refused>,
    out_null: bool,
    path: Result<&'a str, Refused>,
    capacity: u32,
    key_size: u32,
    value_size: u32,
    mode: Result<u32, Refused>,
) -> (answer: Result<(&'a str, usize, usize, usize, u32), i32>)
    ensures
        answers(
            answer,
            if initialized is Err {
                Err(initialized->Err_0.report())
            } else if out_null {
                Err(invalid_argument("out is null"@))
            } else if path is Err {
                Err(path->Err_0.report())
            } else if capacity_outcome(capacity) is Err {
                Err(capacity_outcome(capacity)->Err_0)
            } else if sizes_outcome(key_size, value_size) is Err {
                Err(sizes_outcome(key_size, value_size)->Err_0)
            } else if mode is Err {
                Err(mode->Err_0.report())
            } else {
                Ok((path->Ok_0, capacity as usize, key_size as usize, value_size as usize, mode->Ok_0))
            },
            old(last)@,
            final(last)@,
        ),
{
    if let Err(code) = given(last, initialized) {
        return Err(code);
    }
    if out_null {
        return Err(fail(last, SUBETHA_E_INVALID_ARGUMENT, "out is null"));
    }
    let path: &'a str = match given(last, path) {
        Ok(path) => path,
        Err(code) => {
            return Err(code);
        },
    };
    let slots: usize = match map_capacity(last, capacity) {
        Ok(slots) => slots,
        Err(code) => {
            return Err(code);
        },
    };
    let sizes: (usize, usize) = match checked_sizes(last, key_size, value_size) {
        Ok(sizes) => sizes,
        Err(code) => {
            return Err(code);
        },
    };
    let mode: u32 = match given(last, mode) {
        Ok(mode) => mode,
        Err(code) => {
            return Err(code);
        },
    };
    Ok((path, slots, sizes.0, sizes.1, mode))
}

/// Make the object for a map that was built or opened, or answer with why
/// it could not be.
pub fn place<P>(last: &mut LastError, opened: Result<P, MapError>) -> (object: Result<Object<P>, i32>)
    ensures
        answers(
            object,
            match opened {
                Ok(p) => Ok(Object::HashMap(p)),
                Err(e) => Err(map_code_report(e)),
            },
            old(last)@,
            final(last)@,
        ),
{
    match opened {
        Ok(p) => Ok(Object::HashMap(p)),
        Err(e) => Err(map_code(last, e)),
    }
}

/// What a key argument answers: exactly the map's key size.
pub open spec fn key_outcome<'a>(key: Result<&'a [u8], Refused>, key_size: usize) -> Result<&'a [u8], Report> {
    match key {
        Err(refusal) => Err(refusal.report()),
        Ok(bytes) => if bytes@.len() != key_size {
            Err(
                invalid_argument(
                    "a key is "@ + dec(key_size as nat) + " bytes, not "@ + dec(bytes@.len()),
                ),
            )
        } else {
            Ok(bytes)
        },
    }
}

/// A key argument of exactly the map's key size.
pub fn key_of<'a>(last: &mut LastError, key: Result<&'a [u8], Refused>, key_size: usize) -> (bytes: Result<&'a [u8], i32>)
    ensures
        answers(bytes, key_outcome(key, key_size), old(last)@, final(last)@),
{
    let bytes: &'a [u8] = match given(last, key) {
        Ok(bytes) => bytes,
        Err(code) => {
            return Err(code);
        },
    };
    if bytes.len() != key_size {
        let mut text: String = String::from_str("a key is ");
        push_dec(&mut text, key_size as u64);
        text.append(" bytes, not ");
        push_dec(&mut text, bytes.len() as u64);
        return Err(fail(last, SUBETHA_E_INVALID_ARGUMENT, text.as_str()));
    }
    Ok(bytes)
}

/// What a value argument, called `what`, answers: exactly the map's value
/// size.
pub open spec fn value_outcome<'a>(value: Result<&'a [u8], Refused>, value_size: usize, what: Seq<char>) -> Result<
    &'a [u8],
    Report,
> {
    match value {
        Err(refusal) => Err(refusal.report()),
        Ok(bytes) => if bytes@.len() != value_size {
            Err(
                invalid_argument(
                    what + " is "@ + dec(bytes@.len()) + " bytes, not "@ + dec(value_size as nat),
                ),
            )
        } else {
            Ok(bytes)
        },
    }
}

/// A value argument of exactly the map's value size, called `what` where it
/// is refused.
pub fn value_of<'a>(last: &mut LastError, value: Result<&'a [u8], Refused>, value_size: usize, what: &str) -> (bytes: Result<
    &'a [u8],
    i32,
>)
    ensures
        answers(bytes, value_outcome(value, value_size, what@), old(last)@, final(last)@),
{
    let bytes: &'a [u8] = match given(last, value) {
        Ok(bytes) => bytes,
        Err(code) => {
            return Err(code);
        },
    };
    if bytes.len() != value_size {
        let mut text: String = String::from_str(what);
        text.append(" is ");
        push_dec(&mut text, bytes.len() as u64);
        text.append(" bytes, not ");
        push_dec(&mut text, value_size as u64);
        return Err(fail(last, SUBETHA_E_INVALID_ARGUMENT, text.as_str()));
    }
    Ok(bytes)
}

/// The arguments of an insert, checked in order: the key, then the value.
pub fn insert_arguments<'a>(
    last: &mut LastError,
    key: Result<&'a [u8], Refused>,
    value: Result<&'a [u8], Refused>,
    key_size: usize,
    value_size: usize,
) -> (answer: Result<(&'a [u8], &'a [u8]), i32>)
    ensures
        answers(
            answer,
            if key_outcome(key, key_size) is Err {
                Err(key_outcome(key, key_size)->Err_0)
            } else if value_outcome(value, value_size, "the value"@) is Err {
                Err(value_outcome(value, value_size, "the value"@)->Err_0)
            } else {
                Ok((key->Ok_0, value->Ok_0))
            },
            old(last)@,
            final(last)@,
        ),
{
    let key_bytes: &'a [u8] = match key_of(last, key, key_size) {
        Ok(key_bytes) => key_bytes,
        Err(code) => {
            return Err(code);
        },
    };
    let value_bytes: &'a [u8] = match value_of(last, value, value_size, "the value") {
        Ok(value_bytes) => value_bytes,
        Err(code) => {
            return Err(code);
        },
    };
    Ok((key_bytes, value_bytes))
}

/// What an insert did.
#[derive(Clone, Copy, Debug, PartialEq, Eq, Structural)]
pub enum InsertOutcome {
    /// It placed a new entry.
    Inserted,
    /// It overwrote an existing entry's value.
    Updated,
}

/// What an insert reports, given how it went: whether the entry is new.
pub fn subetha_hashmap_insert(
    last: &mut LastError,
    went: Result<InsertOutcome, MapError>,
) -> (answer: Result<u32, i32>)
    ensures
        answers(
            answer,
            match went {
                Ok(InsertOutcome::Inserted) => Ok(SUBETHA_MAP_INSERTED),
                Ok(InsertOutcome::Updated) => Ok(SUBETHA_MAP_UPDATED),
                Err(e) => Err(map_code_report(e)),
            },
            old(last)@,
            final(last)@,
        ),
{
    match went {
        Ok(InsertOutcome::Inserted) => Ok(SUBETHA_MAP_INSERTED),
        Ok(InsertOutcome::Updated) => Ok(SUBETHA_MAP_UPDATED),
        Err(e) => Err(map_code(last, e)),
    }
}

/// The keys of a batched read: an array whose stride spans a key.
pub fn get_many_arguments(
    last: &mut LastError,
    count: usize,
    keys_null: bool,
    key_stride: usize,
    key_size: usize,
) -> (answer: Result<(), i32>)
    ensures
        answers(
            answer,
            if count != 0 && keys_null {
                Err(invalid_argument("keys is null with a non-zero count"@))
            } else if count != 0 && key_stride < key_size {
                Err(invalid_argument("a key stride of "@ + dec(key_stride as nat) + " does not span a key of "@ + dec(key_size as nat) + " bytes"@))
            } else {
                Ok(())
            },
            old(last)@,
            final(last)@,
        ),
{
    if count != 0 && keys_null {
        return Err(fail(last, SUBETHA_E_INVALID_ARGUMENT, "keys is null with a non-zero count"));
    }
    if count != 0 && key_stride < key_size {
        let mut text: String = String::from_str("a key stride of ");
        push_dec(&mut text, key_stride as u64);
        text.append(" does not span a key of ");
        push_dec(&mut text, key_size as u64);
        text.append(" bytes");
        return Err(fail(last, SUBETHA_E_INVALID_ARGUMENT, text.as_str()));
    }
    Ok(())
}

/// The arguments of an insert that leaves an entry be, checked in order:
/// somewhere to say whether one was there, the key, the value, somewhere to
/// copy the value that was there.
pub fn insert_if_absent_arguments<'a, B>(
    last: &mut LastError,
    out_present_null: bool,
    key: Result<&'a [u8], Refused>,
    value: Result<&'a [u8], Refused>,
    buffer: Result<B, Refused>,
    key_size: usize,
    value_size: usize,
) -> (answer: Result<(&'a [u8], &'a [u8], B), i32>)
    ensures
        answers(
            answer,
            if out_present_null {
                Err(invalid_argument("out_present is null"@))
            } else if key_outcome(key, key_size) is Err {
                Err(key_outcome(key, key_size)->Err_0)
            } else if value_outcome(value, value_size, "the value"@) is Err {
                Err(value_outcome(value, value_size, "the value"@)->Err_0)
            } else if buffer is Err {
                Err(buffer->Err_0.report())
            } else {
                Ok((key->Ok_0, value->Ok_0, buffer->Ok_0))
            },
            old(last)@,
            final(last)@,
        ),
{
    if out_present_null {
        return Err(fail(last, SUBETHA_E_INVALID_ARGUMENT, "out_present is null"));
    }
    let key_bytes: &'a [u8] = match key_of(last, key, key_size) {
        Ok(key_bytes) => key_bytes,
        Err(code) => {
            return Err(code);
        },
    };
    let value_bytes: &'a [u8] = match value_of(last, value, value_size, "the value") {
        Ok(value_bytes) => value_bytes,
        Err(code) => {
            return Err(code);
        },
    };
    let buffer: B = match given(last, buffer) {
        Ok(buffer) => buffer,
        Err(code) => {
            return Err(code);
        },
    };
    Ok((key_bytes, value_bytes, buffer))
}

/// What an insert that leaves an entry be reports: whether a value was
/// already there, and the bytes of it that were copied out.
pub fn subetha_hashmap_insert_if_absent(
    last: &mut LastError,
    went: Result<bool, MapError>,
    value_size: usize,
) -> (answer: Result<(bool, usize), i32>)
    ensures
        answers(
            answer,
            match went {
                Ok(present) => Ok((present, if present { value_size } else { 0 })),
                Err(e) => Err(map_code_report(e)),
            },
            old(last)@,
            final(last)@,
        ),
{
    match went {
        Ok(present) => Ok((present, if present { value_size } else { 0 })),
        Err(e) => Err(map_code(last, e)),
    }
}

/// The arguments of a lookup or a removal, checked in order: the key, then
/// somewhere to copy the value.
pub fn get_arguments<'a, B>(
    last: &mut LastError,
    key: Result<&'a [u8], Refused>,
    buffer: Result<B, Refused>,
    key_size: usize,
) -> (answer: Result<(&'a [u8], B), i32>)
    ensures
        answers(
            answer,
            if key_outcome(key, key_size) is Err {
                Err(key_outcome(key, key_size)->Err_0)
            } else if buffer is Err {
                Err(buffer->Err_0.report())
            } else {
                Ok((key->Ok_0, buffer->Ok_0))
            },
            old(last)@,
            final(last)@,
        ),
{
    let key_bytes: &'a [u8] = match key_of(last, key, key_size) {
        Ok(key_bytes) => key_bytes,
        Err(code) => {
            return Err(code);
        },
    };
    let buffer: B = match given(last, buffer) {
        Ok(buffer) => buffer,
        Err(code) => {
            return Err(code);
        },
    };
    Ok((key_bytes, buffer))
}

/// What finding a key's value answers, given how the look went: the bytes
/// copied out, or that the key has no entry.
pub open spec fn found_outcome(went: Result<bool, MapError>, value_size: usize) -> Result<usize, Report> {
    match went {
        Ok(true) => Ok(value_size),
        Ok(false) => Err(bare(SUBETHA_E_MAP_KEY_ABSENT)),
        Err(e) => Err(map_code_report(e)),
    }
}

/// What a lookup answers, given how it went: the bytes of the value it copied
/// out, or that the key has no entry.
pub fn subetha_hashmap_get(
    last: &mut LastError,
    went: Result<bool, MapError>,
    value_size: usize,
) -> (answer: Result<usize, i32>)
    ensures
        answers(
            answer,
            found_outcome(went, value_size),
            old(last)@,
            final(last)@,
        ),
{
    match went {
        Ok(true) => Ok(value_size),
        Ok(false) => Err(SUBETHA_E_MAP_KEY_ABSENT),
        Err(e) => Err(map_code(last, e)),
    }
}

/// What a removal answers, given how it went: the bytes of the value the key
/// had, or that it had none.
pub fn subetha_hashmap_remove(
    last: &mut LastError,
    went: Result<bool, MapError>,
    value_size: usize,
) -> (answer: Result<usize, i32>)
    ensures
        answers(
            answer,
            found_outcome(went, value_size),
            old(last)@,
            final(last)@,
        ),
{
    match went {
        Ok(true) => Ok(value_size),
        Ok(false) => Err(SUBETHA_E_MAP_KEY_ABSENT),
        Err(e) => Err(map_code(last, e)),
    }
}

/// The arguments of a test for a key, checked in order.
pub fn contains_arguments<'a>(
    last: &mut LastError,
    out_null: bool,
    key: Result<&'a [u8], Refused>,
    key_size: usize,
) -> (answer: Result<&'a [u8], i32>)
    ensures
        answers(
            answer,
            if out_null {
                Err(invalid_argument("out is null"@))
            } else if key_outcome(key, key_size) is Err {
                Err(key_outcome(key, key_size)->Err_0)
            } else {
                Ok(key->Ok_0)
            },
            old(last)@,
            final(last)@,
        ),
{
    if out_null {
        return Err(fail(last, SUBETHA_E_INVALID_ARGUMENT, "out is null"));
    }
    let key_bytes: &'a [u8] = match key_of(last, key, key_size) {
        Ok(key_bytes) => key_bytes,
        Err(code) => {
            return Err(code);
        },
    };
    Ok(key_bytes)
}

/// The arguments of a compare-and-exchange, checked in order: somewhere to say
/// whether it swapped, the key, the value expected, the new one, somewhere to
/// copy the current one.
pub fn compare_exchange_arguments<'a, B>(
    last: &mut LastError,
    out_swapped_null: bool,
    key: Result<&'a [u8], Refused>,
    expected: Result<&'a [u8], Refused>,
    new: Result<&'a [u8], Refused>,
    buffer: Result<B, Refused>,
    key_size: usize,
    value_size: usize,
) -> (answer: Result<(&'a [u8], &'a [u8], &'a [u8], B), i32>)
    ensures
        answers(
            answer,
            if out_swapped_null {
                Err(invalid_argument("out_swapped is null"@))
            } else if key_outcome(key, key_size) is Err {
                Err(key_outcome(key, key_size)->Err_0)
            } else if value_outcome(expected, value_size, "expected"@) is Err {
                Err(value_outcome(expected, value_size, "expected"@)->Err_0)
            } else if value_outcome(new, value_size, "new"@) is Err {
                Err(value_outcome(new, value_size, "new"@)->Err_0)
            } else if buffer is Err {
                Err(buffer->Err_0.report())
            } else {
                Ok((key->Ok_0, expected->Ok_0, new->Ok_0, buffer->Ok_0))
            },
            old(last)@,
            final(last)@,
        ),
{
    if out_swapped_null {
        return Err(fail(last, SUBETHA_E_INVALID_ARGUMENT, "out_swapped is null"));
    }
    let key_bytes: &'a [u8] = match key_of(last, key, key_size) {
        Ok(key_bytes) => key_bytes,
        Err(code) => {
            return Err(code);
        },
    };
    let expected_bytes: &'a [u8] = match value_of(last, expected, value_size, "expected") {
        Ok(expected_bytes) => expected_bytes,
        Err(code) => {
            return Err(code);
        },
    };
    let new_bytes: &'a [u8] = match value_of(last, new, value_size, "new") {
        Ok(new_bytes) => new_bytes,
        Err(code) => {
            return Err(code);
        },
    };
    let buffer: B = match given(last, buffer) {
        Ok(buffer) => buffer,
        Err(code) => {
            return Err(code);
        },
    };
    Ok((key_bytes, expected_bytes, new_bytes, buffer))
}

/// What a compare-and-exchange reports: whether it swapped, and the bytes of
/// the current value that were copied out when it did not.
pub fn subetha_hashmap_compare_exchange(
    last: &mut LastError,
    went: Result<bool, MapError>,
    value_size: usize,
) -> (answer: Result<(bool, usize), i32>)
    ensures
        answers(
            answer,
            match went {
                Ok(swapped) => Ok((swapped, if swapped { 0 } else { value_size })),
                Err(e) => Err(map_code_report(e)),
            },
            old(last)@,
            final(last)@,
        ),
{
    match went {
        Ok(swapped) => Ok((swapped, if swapped { 0 } else { value_size })),
        Err(e) => Err(map_code(last, e)),
    }
}

/// The arguments of one step of a walk, checked in order: the cursor and
/// somewhere to say whether there was an entry, then somewhere to copy its
/// key and its value.
pub fn next_arguments<B>(
    last: &mut LastError,
    cursor_null: bool,
    out_found_null: bool,
    key_buffer: Result<B, Refused>,
    value_buffer: Result<B, Refused>,
) -> (answer: Result<(B, B), i32>)
    ensures
        answers(
            answer,
            if cursor_null || out_found_null {
                Err(invalid_argument("cursor or out_found is null"@))
            } else if key_buffer is Err {
                Err(key_buffer->Err_0.report())
            } else if value_buffer is Err {
                Err(value_buffer->Err_0.report())
            } else {
                Ok((key_buffer->Ok_0, value_buffer->Ok_0))
            },
            old(last)@,
            final(last)@,
        ),
{
    if cursor_null || out_found_null {
        return Err(fail(last, SUBETHA_E_INVALID_ARGUMENT, "cursor or out_found is null"));
    }
    let key_buffer: B = match given(last, key_buffer) {
        Ok(key_buffer) => key_buffer,
        Err(code) => {
            return Err(code);
        },
    };
    let value_buffer: B = match given(last, value_buffer) {
        Ok(value_buffer) => value_buffer,
        Err(code) => {
            return Err(code);
        },
    };
    Ok((key_buffer, value_buffer))
}

/// What one step of a walk hands back.
#[derive(Clone, Copy, Debug, PartialEq, Eq, Structural)]
pub struct Step {
    /// Where the walk stands afterwards.
    pub cursor: u64,
    /// Bytes of the key that were copied out.
    pub key_len: usize,
    /// Bytes of the value that were copied out.
    pub value_len: usize,
    /// Whether there was an entry.
    pub found: bool,
}

/// What a step of a walk that stood at `cursor` answers, given how it went.
pub open spec fn next_outcome(
    went: Result<Option<usize>, MapError>,
    cursor: u64,
    key_size: usize,
    value_size: usize,
) -> Result<Step, Report> {
    match went {
        Ok(Some(next)) => Ok(
            Step { cursor: next as u64, key_len: key_size, value_len: value_size, found: true },
        ),
        Ok(None) => Ok(Step { cursor, key_len: 0, value_len: 0, found: false }),
        Err(e) => Err(map_code_report(e)),
    }
}

/// What a step of a walk that stood at `cursor` hands back: one entry and
/// where to go on, or, once the table is walked, nothing copied and the walk
/// where it was.
pub fn subetha_hashmap_next(
    last: &mut LastError,
    went: Result<Option<usize>, MapError>,
    cursor: u64,
    key_size: usize,
    value_size: usize,
) -> (step: Result<Step, i32>)
    ensures
        answers(step, next_outcome(went, cursor, key_size, value_size), old(last)@, final(last)@),
{
    match went {
        Ok(Some(next)) => Ok(
            Step { cursor: next as u64, key_len: key_size, value_len: value_size, found: true },
        ),
        Ok(None) => Ok(Step { cursor, key_len: 0, value_len: 0, found: false }),
        Err(e) => Err(map_code(last, e)),
    }
}

/// What a compaction reports, given how it went: the tombstones it reclaimed.
pub fn subetha_hashmap_compact(
    last: &mut LastError,
    went: Result<usize, MapError>,
) -> (answer: Result<u64, i32>)
    ensures
        answers(
            answer,
            match went {
                Ok(reclaimed) => Ok(reclaimed as u64),
                Err(e) => Err(map_code_report(e)),
            },
            old(last)@,
            final(last)@,
        ),
{
    match went {
        Ok(reclaimed) => Ok(reclaimed as u64),
        Err(e) => Err(map_code(last, e)),
    }
}

/// What a call on a map answers, given how it went: its value, or the
/// code its error maps to.
pub fn outcome<T>(last: &mut LastError, went: Result<T, MapError>) -> (answer: Result<T, i32>)
    ensures
        answers(
            answer,
            match went {
                Ok(value) => Ok(value),
                Err(e) => Err(map_code_report(e)),
            },
            old(last)@,
            final(last)@,
        ),
{
    match went {
        Ok(value) => Ok(value),
        Err(e) => Err(map_code(last, e)),
    }
}

/// A call on a hash map reaches what stands behind a handle to a hash map, and
/// nothing behind any other handle.
pub proof fn only_a_hash_map_is_reached<P>(last: &mut LastError, object: &Object<P>, reached: Result<&P, i32>)
    requires
        call_ensures(with_map::<P>, (last, object), reached),
    ensures
        reached is Ok <==> *object is HashMap,
        reached matches Ok(payload) ==> *object == Object::HashMap(*payload) && final(last)@ == old(last)@,
        reached matches Err(code) ==> code == SUBETHA_E_WRONG_KIND
            && final(last)@ == "the handle does not name a hash map"@,
{
}

/// A map that opened is placed as what it is; one that did not is answered
/// exactly as its error is.
pub proof fn a_map_that_opened_is_placed_as_one<P>(
    last: &mut LastError,
    other: &mut LastError,
    opened: Result<P, MapError>,
    answer: Result<Object<P>, i32>,
    code: i32,
)
    requires
        call_ensures(place::<P>, (last, opened), answer),
        opened matches Err(e) ==> call_ensures(map_code, (other, e), code),
        old(last)@ == old(other)@,
    ensures
        opened matches Ok(value) ==> answer == Ok::<Object<P>, i32>(Object::HashMap(value))
            && final(last)@ == old(last)@,
        opened is Err ==> answer == Err::<Object<P>, i32>(code) && final(last)@ == final(other)@,
{
}

/// A call that went well answers with what it gave, and one that did not
/// answers exactly as its error does.
pub proof fn a_call_that_went_well_is_not_refused<T>(
    last: &mut LastError,
    other: &mut LastError,
    went: Result<T, MapError>,
    answer: Result<T, i32>,
    code: i32,
)
    requires
        call_ensures(outcome::<T>, (last, went), answer),
        went matches Err(e) ==> call_ensures(map_code, (other, e), code),
        old(last)@ == old(other)@,
    ensures
        went matches Ok(value) ==> answer == Ok::<T, i32>(value) && final(last)@ == old(last)@,
        went is Err ==> answer == Err::<T, i32>(code) && final(last)@ == final(other)@,
{
}

/// Sizes are accepted exactly when the key is not empty and key and value
/// together fit the forty-eight bytes of an entry, and then handed on.
pub proof fn an_entry_holds_its_key_and_its_value(
    last: &mut LastError,
    key_size: u32,
    value_size: u32,
    checked: Result<(usize, usize), i32>,
)
    requires
        call_ensures(checked_sizes, (last, key_size, value_size), checked),
    ensures
        checked is Ok <==> key_size > 0 && key_size + value_size <= 48,
        checked matches Ok(sizes) ==> sizes.0 == key_size && sizes.1 == value_size && final(last)@ == old(last)@,
        checked matches Err(code) ==> code == SUBETHA_E_INVALID_ARGUMENT,
{
}

/// A capacity of two or more is accepted and stands for itself.
pub proof fn a_map_has_two_slots_or_more(last: &mut LastError, capacity: u32, checked: Result<usize, i32>)
    requires
        call_ensures(map_capacity, (last, capacity), checked),
    ensures
        checked is Ok <==> capacity >= 2,
        checked matches Ok(n) ==> n == capacity && final(last)@ == old(last)@,
        checked matches Err(code) ==> code == SUBETHA_E_INVALID_ARGUMENT,
{
}

/// The arguments are accepted exactly when nothing is wrong with any of them,
/// and then handed on unchanged; the first one at fault is the one answered
/// for.
pub proof fn a_map_is_made_with_arguments_that_are_right<'a>(
    last: &mut LastError,
    initialized: Result<(), Refused>,
    out_null: bool,
    path: Result<&'a str, Refused>,
    capacity: u32,
    key_size: u32,
    value_size: u32,
    mode: Result<u32, Refused>,
    read: Result<(&'a str, usize, usize, usize, u32), i32>,
)
    requires
        call_ensures(read_arguments, (last, initialized, out_null, path, capacity, key_size, value_size, mode),
            read),
    ensures
        read is Ok <==> initialized is Ok && !out_null && path is Ok && capacity >= 2 && !(key_size == 0
            || key_size + value_size > 48) && mode is Ok,
        read matches Ok(all) ==> all.0 == path->Ok_0 && all.1 == capacity && all.2 == key_size
            && all.3 == value_size && all.4 == mode->Ok_0 && final(last)@ == old(last)@,
        initialized is Err ==> read is Err && read->Err_0 == initialized->Err_0.code
            && final(last)@ == initialized->Err_0.report().leaves(old(last)@),
        initialized is Ok && out_null ==> read is Err && read->Err_0 == SUBETHA_E_INVALID_ARGUMENT
            && final(last)@ == "out is null"@,
        initialized is Ok && !out_null && path is Err ==> read is Err && read->Err_0 == path->Err_0.code
            && final(last)@ == path->Err_0.report().leaves(old(last)@),
        initialized is Ok && !out_null && path is Ok && capacity < 2 ==> read is Err
            && read->Err_0 == SUBETHA_E_INVALID_ARGUMENT,
        initialized is Ok && !out_null && path is Ok && capacity >= 2 && (key_size == 0 || key_size
            + value_size > 48) ==> read is Err && read->Err_0 == SUBETHA_E_INVALID_ARGUMENT,
        initialized is Ok && !out_null && path is Ok && capacity >= 2 && !(key_size == 0 || key_size
            + value_size > 48) && mode is Err ==> read is Err && read->Err_0 == mode->Err_0.code
            && final(last)@ == mode->Err_0.report().leaves(old(last)@),
{
}

/// The arguments are accepted exactly when nothing is wrong with any of them,
/// and then handed on unchanged; the first one at fault is the one answered
/// for.
pub proof fn a_key_has_the_size_of_the_maps_keys<'a>(
    last: &mut LastError,
    key: Result<&'a [u8], Refused>,
    key_size: usize,
    bytes: Result<&'a [u8], i32>,
)
    requires
        call_ensures(key_of, (last, key, key_size), bytes),
    ensures
        bytes is Ok <==> key is Ok && key->Ok_0@.len() == key_size,
        bytes matches Ok(all) ==> all == key->Ok_0 && final(last)@ == old(last)@,
        key is Err ==> bytes is Err && bytes->Err_0 == key->Err_0.code
            && final(last)@ == key->Err_0.report().leaves(old(last)@),
        key is Ok && key->Ok_0@.len() != key_size ==> bytes is Err && bytes->Err_0 == SUBETHA_E_INVALID_ARGUMENT,
{
}

/// The arguments are accepted exactly when nothing is wrong with any of them,
/// and then handed on unchanged; the first one at fault is the one answered
/// for.
pub proof fn a_value_has_the_size_of_the_maps_values<'a>(
    last: &mut LastError,
    value: Result<&'a [u8], Refused>,
    value_size: usize,
    what: &str,
    bytes: Result<&'a [u8], i32>,
)
    requires
        call_ensures(value_of, (last, value, value_size, what), bytes),
    ensures
        bytes is Ok <==> value is Ok && value->Ok_0@.len() == value_size,
        bytes matches Ok(all) ==> all == value->Ok_0 && final(last)@ == old(last)@,
        value is Err ==> bytes is Err && bytes->Err_0 == value->Err_0.code
            && final(last)@ == value->Err_0.report().leaves(old(last)@),
        value is Ok && value->Ok_0@.len() != value_size ==> bytes is Err
            && bytes->Err_0 == SUBETHA_E_INVALID_ARGUMENT,
{
}

/// The arguments are accepted exactly when nothing is wrong with any of them,
/// and then handed on unchanged; the first one at fault is the one answered
/// for.
pub proof fn an_insert_takes_a_key_and_a_value_of_the_maps_sizes<'a>(
    last: &mut LastError,
    key: Result<&'a [u8], Refused>,
    value: Result<&'a [u8], Refused>,
    key_size: usize,
    value_size: usize,
    answer: Result<(&'a [u8], &'a [u8]), i32>,
)
    requires
        call_ensures(insert_arguments, (last, key, value, key_size, value_size), answer),
    ensures
        answer is Ok <==> key is Ok && key->Ok_0@.len() == key_size && value is Ok
            && value->Ok_0@.len() == value_size,
        answer matches Ok(all) ==> all.0 == key->Ok_0 && all.1 == value->Ok_0 && final(last)@ == old(last)@,
        key is Err ==> answer is Err && answer->Err_0 == key->Err_0.code
            && final(last)@ == key->Err_0.report().leaves(old(last)@),
        key is Ok && key->Ok_0@.len() != key_size ==> answer is Err && answer->Err_0 == SUBETHA_E_INVALID_ARGUMENT,
        key is Ok && key->Ok_0@.len() == key_size && value is Err ==> answer is Err
            && answer->Err_0 == value->Err_0.code && final(last)@ == value->Err_0.report().leaves(old(last)@),
        key is Ok && key->Ok_0@.len() == key_size && value is Ok && value->Ok_0@.len() != value_size
            ==> answer is Err && answer->Err_0 == SUBETHA_E_INVALID_ARGUMENT,
{
}

/// The arguments are accepted exactly when nothing is wrong with any of them,
/// and then handed on unchanged; the first one at fault is the one answered
/// for.
pub proof fn an_insert_where_absent_takes_what_an_insert_takes<'a, B>(
    last: &mut LastError,
    out_present_null: bool,
    key: Result<&'a [u8], Refused>,
    value: Result<&'a [u8], Refused>,
    buffer: Result<B, Refused>,
    key_size: usize,
    value_size: usize,
    answer: Result<(&'a [u8], &'a [u8], B), i32>,
)
    requires
        call_ensures(insert_if_absent_arguments::<B>, (last, out_present_null, key, value, buffer, key_size,
            value_size), answer),
    ensures
        answer is Ok <==> !out_present_null && key is Ok && key->Ok_0@.len() == key_size && value is Ok
            && value->Ok_0@.len() == value_size && buffer is Ok,
        answer matches Ok(all) ==> all.0 == key->Ok_0 && all.1 == value->Ok_0 && all.2 == buffer->Ok_0
            && final(last)@ == old(last)@,
        out_present_null ==> answer is Err && answer->Err_0 == SUBETHA_E_INVALID_ARGUMENT
            && final(last)@ == "out_present is null"@,
        !out_present_null && key is Err ==> answer is Err && answer->Err_0 == key->Err_0.code
            && final(last)@ == key->Err_0.report().leaves(old(last)@),
        !out_present_null && key is Ok && key->Ok_0@.len() != key_size ==> answer is Err
            && answer->Err_0 == SUBETHA_E_INVALID_ARGUMENT,
        !out_present_null && key is Ok && key->Ok_0@.len() == key_size && value is Err ==> answer is Err
            && answer->Err_0 == value->Err_0.code && final(last)@ == value->Err_0.report().leaves(old(last)@),
        !out_present_null && key is Ok && key->Ok_0@.len() == key_size && value is Ok
            && value->Ok_0@.len() != value_size ==> answer is Err && answer->Err_0 == SUBETHA_E_INVALID_ARGUMENT,
        !out_present_null && key is Ok && key->Ok_0@.len() == key_size && value is Ok
            && value->Ok_0@.len() == value_size && buffer is Err ==> answer is Err
            && answer->Err_0 == buffer->Err_0.code && final(last)@ == buffer->Err_0.report().leaves(old(last)@),
{
}

/// The arguments are accepted exactly when nothing is wrong with any of them,
/// and then handed on unchanged; the first one at fault is the one answered
/// for.
pub proof fn a_get_takes_a_key_of_the_maps_size<'a, B>(
    last: &mut LastError,
    key: Result<&'a [u8], Refused>,
    buffer: Result<B, Refused>,
    key_size: usize,
    answer: Result<(&'a [u8], B), i32>,
)
    requires
        call_ensures(get_arguments::<B>, (last, key, buffer, key_size), answer),
    ensures
        answer is Ok <==> key is Ok && key->Ok_0@.len() == key_size && buffer is Ok,
        answer matches Ok(all) ==> all.0 == key->Ok_0 && all.1 == buffer->Ok_0 && final(last)@ == old(last)@,
        key is Err ==> answer is Err && answer->Err_0 == key->Err_0.code
            && final(last)@ == key->Err_0.report().leaves(old(last)@),
        key is Ok && key->Ok_0@.len() != key_size ==> answer is Err && answer->Err_0 == SUBETHA_E_INVALID_ARGUMENT,
        key is Ok && key->Ok_0@.len() == key_size && buffer is Err ==> answer is Err
            && answer->Err_0 == buffer->Err_0.code && final(last)@ == buffer->Err_0.report().leaves(old(last)@),
{
}

/// The arguments are accepted exactly when nothing is wrong with any of them,
/// and then handed on unchanged; the first one at fault is the one answered
/// for.
pub proof fn a_lookup_takes_a_key_of_the_maps_size<'a>(
    last: &mut LastError,
    out_null: bool,
    key: Result<&'a [u8], Refused>,
    key_size: usize,
    answer: Result<&'a [u8], i32>,
)
    requires
        call_ensures(contains_arguments, (last, out_null, key, key_size), answer),
    ensures
        answer is Ok <==> !out_null && key is Ok && key->Ok_0@.len() == key_size,
        answer matches Ok(all) ==> all == key->Ok_0 && final(last)@ == old(last)@,
        out_null ==> answer is Err && answer->Err_0 == SUBETHA_E_INVALID_ARGUMENT && final(last)@ == "out is null"@,
        !out_null && key is Err ==> answer is Err && answer->Err_0 == key->Err_0.code
            && final(last)@ == key->Err_0.report().leaves(old(last)@),
        !out_null && key is Ok && key->Ok_0@.len() != key_size ==> answer is Err
            && answer->Err_0 == SUBETHA_E_INVALID_ARGUMENT,
{
}

/// The arguments are accepted exactly when nothing is wrong with any of them,
/// and then handed on unchanged; the first one at fault is the one answered
/// for.
pub proof fn an_exchange_takes_a_key_and_two_values_of_the_maps_sizes<'a, B>(
    last: &mut LastError,
    out_swapped_null: bool,
    key: Result<&'a [u8], Refused>,
    expected: Result<&'a [u8], Refused>,
    new: Result<&'a [u8], Refused>,
    buffer: Result<B, Refused>,
    key_size: usize,
    value_size: usize,
    answer: Result<(&'a [u8], &'a [u8], &'a [u8], B), i32>,
)
    requires
        call_ensures(compare_exchange_arguments::<B>, (last, out_swapped_null, key, expected, new, buffer,
            key_size, value_size), answer),
    ensures
        answer is Ok <==> !out_swapped_null && key is Ok && key->Ok_0@.len() == key_size && expected is Ok
            && expected->Ok_0@.len() == value_size && new is Ok && new->Ok_0@.len() == value_size && buffer is Ok,
        answer matches Ok(all) ==> all.0 == key->Ok_0 && all.1 == expected->Ok_0 && all.2 == new->Ok_0
            && all.3 == buffer->Ok_0 && final(last)@ == old(last)@,
        out_swapped_null ==> answer is Err && answer->Err_0 == SUBETHA_E_INVALID_ARGUMENT
            && final(last)@ == "out_swapped is null"@,
        !out_swapped_null && key is Err ==> answer is Err && answer->Err_0 == key->Err_0.code
            && final(last)@ == key->Err_0.report().leaves(old(last)@),
        !out_swapped_null && key is Ok && key->Ok_0@.len() != key_size ==> answer is Err
            && answer->Err_0 == SUBETHA_E_INVALID_ARGUMENT,
        !out_swapped_null && key is Ok && key->Ok_0@.len() == key_size && expected is Err ==> answer is Err
            && answer->Err_0 == expected->Err_0.code && final(last)@ == expected->Err_0.report().leaves(old(last)@),
        !out_swapped_null && key is Ok && key->Ok_0@.len() == key_size && expected is Ok
            && expected->Ok_0@.len() != value_size ==> answer is Err && answer->Err_0 == SUBETHA_E_INVALID_ARGUMENT,
        !out_swapped_null && key is Ok && key->Ok_0@.len() == key_size && expected is Ok
            && expected->Ok_0@.len() == value_size && new is Err ==> answer is Err
            && answer->Err_0 == new->Err_0.code && final(last)@ == new->Err_0.report().leaves(old(last)@),
        !out_swapped_null && key is Ok && key->Ok_0@.len() == key_size && expected is Ok
            && expected->Ok_0@.len() == value_size && new is Ok && new->Ok_0@.len() != value_size
            ==> answer is Err && answer->Err_0 == SUBETHA_E_INVALID_ARGUMENT,
        !out_swapped_null && key is Ok && key->Ok_0@.len() == key_size && expected is Ok
            && expected->Ok_0@.len() == value_size && new is Ok && new->Ok_0@.len() == value_size
            && buffer is Err ==> answer is Err && answer->Err_0 == buffer->Err_0.code
            && final(last)@ == buffer->Err_0.report().leaves(old(last)@),
{
}

/// The arguments are accepted exactly when nothing is wrong with any of them,
/// and then handed on unchanged; the first one at fault is the one answered
/// for.
pub proof fn a_step_needs_places_for_what_it_finds<B>(
    last: &mut LastError,
    cursor_null: bool,
    out_found_null: bool,
    key_buffer: Result<B, Refused>,
    value_buffer: Result<B, Refused>,
    answer: Result<(B, B), i32>,
)
    requires
        call_ensures(next_arguments::<B>, (last, cursor_null, out_found_null, key_buffer, value_buffer), answer),
    ensures
        answer is Ok <==> !(cursor_null || out_found_null) && key_buffer is Ok && value_buffer is Ok,
        answer matches Ok(all) ==> all.0 == key_buffer->Ok_0 && all.1 == value_buffer->Ok_0
            && final(last)@ == old(last)@,
        (cursor_null || out_found_null) ==> answer is Err && answer->Err_0 == SUBETHA_E_INVALID_ARGUMENT
            && final(last)@ == "cursor or out_found is null"@,
        !(cursor_null || out_found_null) && key_buffer is Err ==> answer is Err
            && answer->Err_0 == key_buffer->Err_0.code
            && final(last)@ == key_buffer->Err_0.report().leaves(old(last)@),
        !(cursor_null || out_found_null) && key_buffer is Ok && value_buffer is Err ==> answer is Err
            && answer->Err_0 == value_buffer->Err_0.code
            && final(last)@ == value_buffer->Err_0.report().leaves(old(last)@),
{
}

/// Several keys are looked up exactly when they are there and each stride
/// spans a key; no keys at all are always looked up.
pub proof fn many_keys_are_a_stride_apart(
    last: &mut LastError,
    count: usize,
    keys_null: bool,
    key_stride: usize,
    key_size: usize,
    answer: Result<(), i32>,
)
    requires
        call_ensures(get_many_arguments, (last, count, keys_null, key_stride, key_size), answer),
    ensures
        answer is Ok <==> count == 0 || (!keys_null && key_stride >= key_size),
        answer is Ok ==> final(last)@ == old(last)@,
        answer matches Err(code) ==> code == SUBETHA_E_INVALID_ARGUMENT,
{
}

/// An insert tells a new key from one whose value it replaced, and answers a
/// failure exactly as its error.
pub proof fn an_insert_says_whether_the_key_was_new(
    last: &mut LastError,
    other: &mut LastError,
    went: Result<InsertOutcome, MapError>,
    answer: Result<u32, i32>,
    code: i32,
)
    requires
        call_ensures(subetha_hashmap_insert, (last, went), answer),
        went matches Err(e) ==> call_ensures(map_code, (other, e), code),
        old(last)@ == old(other)@,
    ensures
        went == Ok::<InsertOutcome, MapError>(InsertOutcome::Inserted) ==> answer == Ok::<u32, i32>(0),
        went == Ok::<InsertOutcome, MapError>(InsertOutcome::Updated) ==> answer == Ok::<u32, i32>(1),
        went is Err ==> answer == Err::<u32, i32>(code) && final(last)@ == final(other)@,
        answer is Ok ==> final(last)@ == old(last)@,
{
}

/// A value that was there already is reported with its length; where there was
/// none, nothing was copied.
pub proof fn a_value_is_reported_only_where_one_was_there(
    last: &mut LastError,
    other: &mut LastError,
    went: Result<bool, MapError>,
    value_size: usize,
    answer: Result<(bool, usize), i32>,
    code: i32,
)
    requires
        call_ensures(subetha_hashmap_insert_if_absent, (last, went, value_size), answer),
        went matches Err(e) ==> call_ensures(map_code, (other, e), code),
        old(last)@ == old(other)@,
    ensures
        went matches Ok(present) ==> answer is Ok && answer->Ok_0.0 == present
            && answer->Ok_0.1 == (if present { value_size as int } else { 0 }),
        went is Err ==> answer == Err::<(bool, usize), i32>(code) && final(last)@ == final(other)@,
        answer is Ok ==> final(last)@ == old(last)@,
{
}

/// A get of a key that is there reports the whole value, and one of a key that
/// is not says so.
pub proof fn a_get_finds_a_key_or_says_it_is_absent(
    last: &mut LastError,
    other: &mut LastError,
    went: Result<bool, MapError>,
    value_size: usize,
    answer: Result<usize, i32>,
    code: i32,
)
    requires
        call_ensures(subetha_hashmap_get, (last, went, value_size), answer),
        went matches Err(e) ==> call_ensures(map_code, (other, e), code),
        old(last)@ == old(other)@,
    ensures
        went == Ok::<bool, MapError>(true) ==> answer == Ok::<usize, i32>(value_size),
        went == Ok::<bool, MapError>(false) ==> answer == Err::<usize, i32>(SUBETHA_E_MAP_KEY_ABSENT),
        went is Err ==> answer == Err::<usize, i32>(code) && final(last)@ == final(other)@,
        answer is Ok ==> final(last)@ == old(last)@,
{
}

/// A remove of a key that is there reports the whole value, and one of a key
/// that is not says so.
pub proof fn a_remove_finds_a_key_or_says_it_is_absent(
    last: &mut LastError,
    other: &mut LastError,
    went: Result<bool, MapError>,
    value_size: usize,
    answer: Result<usize, i32>,
    code: i32,
)
    requires
        call_ensures(subetha_hashmap_remove, (last, went, value_size), answer),
        went matches Err(e) ==> call_ensures(map_code, (other, e), code),
        old(last)@ == old(other)@,
    ensures
        went == Ok::<bool, MapError>(true) ==> answer == Ok::<usize, i32>(value_size),
        went == Ok::<bool, MapError>(false) ==> answer == Err::<usize, i32>(SUBETHA_E_MAP_KEY_ABSENT),
        went is Err ==> answer == Err::<usize, i32>(code) && final(last)@ == final(other)@,
        answer is Ok ==> final(last)@ == old(last)@,
{
}

/// An exchange says whether it swapped, and the value there is reported only
/// where it did not.
pub proof fn an_exchange_reports_the_value_it_did_not_swap(
    last: &mut LastError,
    other: &mut LastError,
    went: Result<bool, MapError>,
    value_size: usize,
    answer: Result<(bool, usize), i32>,
    code: i32,
)
    requires
        call_ensures(subetha_hashmap_compare_exchange, (last, went, value_size), answer),
        went matches Err(e) ==> call_ensures(map_code, (other, e), code),
        old(last)@ == old(other)@,
    ensures
        went matches Ok(swapped) ==> answer is Ok && answer->Ok_0.0 == swapped
            && answer->Ok_0.1 == (if swapped { 0 } else { value_size as int }),
        went is Err ==> answer == Err::<(bool, usize), i32>(code) && final(last)@ == final(other)@,
        answer is Ok ==> final(last)@ == old(last)@,
{
}

/// A step that found an entry moves the cursor there and reports a whole key
/// and a whole value; one that found none stays and reports nothing.
pub proof fn a_step_moves_only_to_an_entry_it_found(
    last: &mut LastError,
    other: &mut LastError,
    went: Result<Option<usize>, MapError>,
    cursor: u64,
    key_size: usize,
    value_size: usize,
    answer: Result<Step, i32>,
    code: i32,
)
    requires
        call_ensures(subetha_hashmap_next, (last, went, cursor, key_size, value_size), answer),
        went matches Err(e) ==> call_ensures(map_code, (other, e), code),
        old(last)@ == old(other)@,
    ensures
        went is Ok ==> answer is Ok && (answer->Ok_0.found <==> went->Ok_0 is Some),
        went is Ok && went->Ok_0 is Some ==> answer->Ok_0.cursor == went->Ok_0->Some_0
            && answer->Ok_0.key_len == key_size && answer->Ok_0.value_len == value_size,
        went is Ok && went->Ok_0 is None ==> answer->Ok_0.cursor == cursor && answer->Ok_0.key_len == 0
            && answer->Ok_0.value_len == 0,
        went is Err ==> answer == Err::<Step, i32>(code) && final(last)@ == final(other)@,
        answer is Ok ==> final(last)@ == old(last)@,
{
}

/// A compaction reports how many slots it reclaimed.
pub proof fn a_compaction_reports_what_it_reclaimed(
    last: &mut LastError,
    other: &mut LastError,
    went: Result<usize, MapError>,
    answer: Result<u64, i32>,
    code: i32,
)
    requires
        call_ensures(subetha_hashmap_compact, (last, went), answer),
        went matches Err(e) ==> call_ensures(map_code, (other, e), code),
        old(last)@ == old(other)@,
    ensures
        went matches Ok(n) ==> answer is Ok && answer->Ok_0 == n,
        went is Err ==> answer == Err::<u64, i32>(code) && final(last)@ == final(other)@,
        answer is Ok ==> final(last)@ == old(last)@,
{
}

/// The numbers callers give and are given, as they were built against them.
pub proof fn the_numbers_are_the_ones_callers_know()
    ensures
        SUBETHA_MAP_INSERTED == 0,
        SUBETHA_MAP_UPDATED == 1,
        SUBETHA_HASHMAP_PAYLOAD_BYTES == 48,
{
}

/// A refusal says what was given and what it should have been.
pub proof fn sizes_at_fault_are_told(
    last: &mut LastError,
    key_size: u32,
    value_size: u32,
    checked: Result<(usize, usize), i32>,
)
    requires
        call_ensures(checked_sizes, (last, key_size, value_size), checked),
    ensures
        key_size == 0 ==> final(last)@ == "key_size is zero"@,
        key_size > 0 && checked is Err ==> final(last)@ == "key_size "@ + dec(key_size as nat)
            + " plus value_size "@ + dec(value_size as nat) + " exceed the "@ + dec(48) + "-byte entry"@,
{
}

/// A refusal says what was given and what it should have been.
pub proof fn a_capacity_at_fault_is_told(last: &mut LastError, capacity: u32, checked: Result<usize, i32>)
    requires
        call_ensures(map_capacity, (last, capacity), checked),
    ensures
        checked is Err ==> final(last)@ == "capacity "@ + dec(capacity as nat) + " is below 2"@,
{
}

/// A refusal says what was given and what it should have been.
pub proof fn a_key_at_fault_is_told<'a>(
    last: &mut LastError,
    key: &'a [u8],
    key_size: usize,
    bytes: Result<&'a [u8], i32>,
)
    requires
        call_ensures(key_of, (last, Ok(key), key_size), bytes),
    ensures
        bytes is Err ==> final(last)@ == "a key is "@ + dec(key_size as nat) + " bytes, not "@ + dec(key@.len()),
{
}

/// A refusal says what was given and what it should have been.
pub proof fn a_value_at_fault_is_told<'a>(
    last: &mut LastError,
    value: &'a [u8],
    value_size: usize,
    what: &str,
    bytes: Result<&'a [u8], i32>,
)
    requires
        call_ensures(value_of, (last, Ok(value), value_size, what), bytes),
    ensures
        bytes is Err ==> final(last)@ == what@ + " is "@ + dec(value@.len()) + " bytes, not "@
            + dec(value_size as nat),
{
}

/// A refusal says what was given and what it should have been.
pub proof fn a_stride_at_fault_is_told(
    last: &mut LastError,
    count: usize,
    keys_null: bool,
    key_stride: usize,
    key_size: usize,
    answer: Result<(), i32>,
)
    requires
        call_ensures(get_many_arguments, (last, count, keys_null, key_stride, key_size), answer),
    ensures
        answer is Err && keys_null ==> final(last)@ == "keys is null with a non-zero count"@,
        answer is Err && !keys_null ==> final(last)@ == "a key stride of "@ + dec(key_stride as nat)
            + " does not span a key of "@ + dec(key_size as nat) + " bytes"@,
{
}

} // verus!
