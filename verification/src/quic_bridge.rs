//! The QUIC bridge: one half ships a ring's contents to a remote peer over
//! QUIC, the other receives into a ring.
//!
//! The peers authenticate, so a client has to be told which certificate to
//! trust. In strict mode a run drives the transfer on the calling thread and
//! returns when it ends. In managed mode the object owns a thread, the call
//! returns at once, and a snapshot says how far it has got.

use vstd::prelude::*;

use crate::arguments::{copy_front, given, invalid_argument};
use crate::error::{
    answers, answers_code, bare, fail, told, LastError, Refused, Report, SUBETHA_E_BUFFER_TOO_SMALL,
    SUBETHA_E_INVALID_ARGUMENT, SUBETHA_E_NOT_SUPPORTED, SUBETHA_E_RING_IO, SUBETHA_E_TIMEOUT, SUBETHA_E_WRONG_KIND,
    SUBETHA_OK,
};
use crate::handle::Object;

verus! {

/// A snapshot of a QUIC bridge.
#[allow(non_camel_case_types)]
#[derive(Clone, Copy, Default, Debug, PartialEq, Eq)]
pub struct subetha_quic_bridge_stats {
    /// The mode this handle was created in.
    pub mode: u32,
    /// Whether the half is a client or a server.
    pub role: u32,
    /// Items shipped or received so far.
    pub items: u64,
    /// Whether a run is under way right now.
    pub running: bool,
    /// Whether the last run finished.
    pub finished: bool,
    /// The code the last run ended with, or `SUBETHA_OK`.
    pub last_code: i32,
}

/// What a build without the transport answers, naming the feature so the
/// caller is told what to turn on rather than that the call is unknown.
pub fn unavailable(last: &mut LastError) -> (code: i32)
    ensures
        code == SUBETHA_E_NOT_SUPPORTED,
        final(last)@ == "this library was built without the quic-bridge feature"@,
{
    fail(last, SUBETHA_E_NOT_SUPPORTED, "this library was built without the quic-bridge feature")
}

/// What a bridge refuses with.
#[derive(Debug)]
pub enum QuicBridgeError {
    /// The certificates were refused; the text.
    Tls(String),
    /// The connection was refused; the text.
    Quic(String),
    /// The OS refused; the kind of the refusal.
    Io(String),
}

/// What `code_for` answers.
pub open spec fn code_for_report(e: QuicBridgeError) -> Report {
    match e {
        QuicBridgeError::Tls(said) => told(SUBETHA_E_RING_IO, "tls: "@ + said@),
        QuicBridgeError::Quic(said) => told(SUBETHA_E_RING_IO, "quic: "@ + said@),
        QuicBridgeError::Io(kind) => told(SUBETHA_E_RING_IO, "io error: "@ + kind@),
    }
}

/// The map from a bridge's error to the code that names it.
pub fn code_for(last: &mut LastError, e: QuicBridgeError) -> (code: i32)
    ensures
        answers_code(code, code_for_report(e), old(last)@, final(last)@),
{
    match e {
        QuicBridgeError::Tls(said) => {
            let mut text: String = String::from_str("tls: ");
            text.append(said.as_str());
            fail(last, SUBETHA_E_RING_IO, text.as_str())
        },
        QuicBridgeError::Quic(said) => {
            let mut text: String = String::from_str("quic: ");
            text.append(said.as_str());
            fail(last, SUBETHA_E_RING_IO, text.as_str())
        },
        QuicBridgeError::Io(kind) => {
            let mut text: String = String::from_str("io error: ");
            text.append(kind.as_str());
            fail(last, SUBETHA_E_RING_IO, text.as_str())
        },
    }
}

/// The payload behind a QUIC bridge's handle.
pub fn with_bridge<'a, P>(last: &mut LastError, object: &'a Object<P>) -> (payload: Result<&'a P, i32>)
    ensures
        answers(
            payload,
            match *object {
                Object::QuicBridge(p) => Ok(&p),
                _ => Err(told(SUBETHA_E_WRONG_KIND, "the handle does not name a QUIC bridge"@)),
            },
            old(last)@,
            final(last)@,
        ),
{
    match object {
        Object::QuicBridge(p) => Ok(p),
        _ => Err(fail(last, SUBETHA_E_WRONG_KIND, "the handle does not name a QUIC bridge")),
    }
}

/// Make the object for a bridge that was built or opened, or answer with why
/// it could not be.
pub fn place<P>(last: &mut LastError, opened: Result<P, QuicBridgeError>) -> (object: Result<Object<P>, i32>)
    ensures
        answers(
            object,
            match opened {
                Ok(p) => Ok(Object::QuicBridge(p)),
                Err(e) => Err(code_for_report(e)),
            },
            old(last)@,
            final(last)@,
        ),
{
    match opened {
        Ok(p) => Ok(Object::QuicBridge(p)),
        Err(e) => Err(code_for(last, e)),
    }
}

/// What a call on a bridge answers, given how it went: its value, or the
/// code its error maps to.
pub fn outcome<T>(last: &mut LastError, went: Result<T, QuicBridgeError>) -> (answer: Result<T, i32>)
    ensures
        answers(
            answer,
            match went {
                Ok(value) => Ok(value),
                Err(e) => Err(code_for_report(e)),
            },
            old(last)@,
            final(last)@,
        ),
{
    match went {
        Ok(value) => Ok(value),
        Err(e) => Err(code_for(last, e)),
    }
}

/// What a bytes argument has to be: there, and not empty.
pub open spec fn borrowed_outcome<'a>(bytes: Option<&'a [u8]>, what: Seq<char>) -> Result<&'a [u8], Report> {
    match bytes {
        None => Err(invalid_argument(what + " is null"@)),
        Some(b) => if b@.len() == 0 {
            Err(invalid_argument(what + " is empty"@))
        } else {
            Ok(b)
        },
    }
}

/// A bytes argument that is there and not empty.
pub fn borrowed<'a>(last: &mut LastError, bytes: Option<&'a [u8]>, what: &str) -> (given: Result<&'a [u8], i32>)
    ensures
        answers(given, borrowed_outcome(bytes, what@), old(last)@, final(last)@),
{
    match bytes {
        None => {
            let mut text: String = String::from_str(what);
            text.append(" is null");
            Err(fail(last, SUBETHA_E_INVALID_ARGUMENT, text.as_str()))
        },
        Some(b) => {
            if b.len() == 0 {
                let mut text: String = String::from_str(what);
                text.append(" is empty");
                return Err(fail(last, SUBETHA_E_INVALID_ARGUMENT, text.as_str()));
            }
            Ok(b)
        },
    }
}

/// What an address argument answers when its text names none: the argument,
/// the text, and what parsing it said.
pub fn bad_address(last: &mut LastError, what: &str, given: &str, said: &str) -> (code: i32)
    ensures
        code == SUBETHA_E_INVALID_ARGUMENT,
        final(last)@ == what@ + " "@ + given@ + ": "@ + said@,
{
    let mut text: String = String::from_str(what);
    text.append(" ");
    text.append(given);
    text.append(": ");
    text.append(said);
    fail(last, SUBETHA_E_INVALID_ARGUMENT, text.as_str())
}

/// The arguments of a client half, read in order: somewhere to write the
/// handle, the two addresses, the name it presents, the certificate it
/// trusts, and the mode.
pub fn client_arguments<'a, A>(
    last: &mut LastError,
    out_null: bool,
    server_addr: Result<A, Refused>,
    bind_addr: Result<A, Refused>,
    sni: Result<&'a str, Refused>,
    cert: Option<&'a [u8]>,
    mode: Result<u32, Refused>,
) -> (read: Result<(A, A, &'a str, &'a [u8], u32), i32>)
    ensures
        answers(
            read,
            if out_null {
                Err(invalid_argument("out is null"@))
            } else if server_addr is Err {
                Err(server_addr->Err_0.report())
            } else if bind_addr is Err {
                Err(bind_addr->Err_0.report())
            } else if sni is Err {
                Err(sni->Err_0.report())
            } else if borrowed_outcome(cert, "cert"@) is Err {
                Err(borrowed_outcome(cert, "cert"@)->Err_0)
            } else if mode is Err {
                Err(mode->Err_0.report())
            } else {
                Ok((server_addr->Ok_0, bind_addr->Ok_0, sni->Ok_0, cert->Some_0, mode->Ok_0))
            },
            old(last)@,
            final(last)@,
        ),
{
    if out_null {
        return Err(fail(last, SUBETHA_E_INVALID_ARGUMENT, "out is null"));
    }
    let server: A = match given(last, server_addr) {
        Ok(a) => a,
        Err(code) => {
            return Err(code);
        },
    };
    let bind: A = match given(last, bind_addr) {
        Ok(a) => a,
        Err(code) => {
            return Err(code);
        },
    };
    let name: &'a str = match given(last, sni) {
        Ok(name) => name,
        Err(code) => {
            return Err(code);
        },
    };
    let trusted: &'a [u8] = match borrowed(last, cert, "cert") {
        Ok(bytes) => bytes,
        Err(code) => {
            return Err(code);
        },
    };
    match given(last, mode) {
        Ok(mode) => Ok((server, bind, name, trusted, mode)),
        Err(code) => Err(code),
    }
}

/// The arguments of a server half, read in order: somewhere to write the
/// handle, the address, the certificate and its key, and the mode.
pub fn server_arguments<'a, A>(
    last: &mut LastError,
    out_null: bool,
    addr: Result<A, Refused>,
    cert: Option<&'a [u8]>,
    key: Option<&'a [u8]>,
    mode: Result<u32, Refused>,
) -> (read: Result<(A, &'a [u8], &'a [u8], u32), i32>)
    ensures
        answers(
            read,
            if out_null {
                Err(invalid_argument("out is null"@))
            } else if addr is Err {
                Err(addr->Err_0.report())
            } else if borrowed_outcome(cert, "cert"@) is Err {
                Err(borrowed_outcome(cert, "cert"@)->Err_0)
            } else if borrowed_outcome(key, "key"@) is Err {
                Err(borrowed_outcome(key, "key"@)->Err_0)
            } else if mode is Err {
                Err(mode->Err_0.report())
            } else {
                Ok((addr->Ok_0, cert->Some_0, key->Some_0, mode->Ok_0))
            },
            old(last)@,
            final(last)@,
        ),
{
    if out_null {
        return Err(fail(last, SUBETHA_E_INVALID_ARGUMENT, "out is null"));
    }
    let socket: A = match given(last, addr) {
        Ok(a) => a,
        Err(code) => {
            return Err(code);
        },
    };
    let cert_bytes: &'a [u8] = match borrowed(last, cert, "cert") {
        Ok(bytes) => bytes,
        Err(code) => {
            return Err(code);
        },
    };
    let key_bytes: &'a [u8] = match borrowed(last, key, "key") {
        Ok(bytes) => bytes,
        Err(code) => {
            return Err(code);
        },
    };
    match given(last, mode) {
        Ok(mode) => Ok((socket, cert_bytes, key_bytes, mode)),
        Err(code) => Err(code),
    }
}

/// Hand a minted certificate and its key back through a caller's two
/// buffers. Both are copied where each has room for its own, and otherwise
/// neither buffer is touched. Both counts come back either way, so a caller
/// that sized one buffer right and the other wrong learns both from one call.
///
/// The code, the certificate's count and the key's.
pub fn self_signed(
    cert: &[u8],
    key: &[u8],
    cert_null: bool,
    cert_out: &mut [u8],
    key_null: bool,
    key_out: &mut [u8],
) -> (answer: (i32, usize, usize))
    ensures
        answer.1 == cert@.len(),
        answer.2 == key@.len(),
        if !cert_null && cert@.len() <= old(cert_out)@.len() && !key_null && key@.len() <= old(key_out)@.len() {
            &&& answer.0 == SUBETHA_OK
            &&& final(cert_out)@ == cert@ + old(cert_out)@.skip(cert@.len() as int)
            &&& final(key_out)@ == key@ + old(key_out)@.skip(key@.len() as int)
        } else {
            &&& answer.0 == SUBETHA_E_BUFFER_TOO_SMALL
            &&& final(cert_out)@ == old(cert_out)@
            &&& final(key_out)@ == old(key_out)@
        },
{
    let cert_len: usize = cert.len();
    let key_len: usize = key.len();
    if cert_null || cert_out.len() < cert_len || key_null || key_out.len() < key_len {
        return (SUBETHA_E_BUFFER_TOO_SMALL, cert_len, key_len);
    }
    copy_front(cert, cert_out);
    copy_front(key, key_out);
    (SUBETHA_OK, cert_len, key_len)
}

/// The port a half listens on: the address a server was bound to, or the
/// kind of the OS's refusal to say; a client listens on none.
pub fn local_port(last: &mut LastError, bound: Option<Result<u16, String>>) -> (port: Result<u16, i32>)
    ensures
        answers(
            port,
            match bound {
                Some(Ok(p)) => Ok(p),
                Some(Err(kind)) => Err(told(SUBETHA_E_RING_IO, "io error: "@ + kind@)),
                None => Err(invalid_argument("a client half listens on no port"@)),
            },
            old(last)@,
            final(last)@,
        ),
{
    match bound {
        Some(Ok(p)) => Ok(p),
        Some(Err(kind)) => {
            let mut text: String = String::from_str("io error: ");
            text.append(kind.as_str());
            Err(fail(last, SUBETHA_E_RING_IO, text.as_str()))
        },
        None => Err(fail(last, SUBETHA_E_INVALID_ARGUMENT, "a client half listens on no port")),
    }
}

/// How one transfer under a deadline ended.
#[derive(Debug)]
pub enum Transfer {
    /// It ended by itself.
    Ended(Result<u64, QuicBridgeError>),
    /// The deadline passed first.
    Elapsed,
}

/// What [`bounded`] answers.
pub open spec fn bounded_report(ended: Transfer) -> Report {
    match ended {
        Transfer::Ended(Ok(_)) => bare(SUBETHA_OK),
        Transfer::Ended(Err(e)) => code_for_report(e),
        Transfer::Elapsed => bare(SUBETHA_E_TIMEOUT),
    }
}

/// A transfer under the caller's deadline, as a code.
pub fn bounded(last: &mut LastError, ended: Transfer) -> (code: i32)
    ensures
        answers_code(code, bounded_report(ended), old(last)@, final(last)@),
{
    match ended {
        Transfer::Ended(Ok(_)) => SUBETHA_OK,
        Transfer::Ended(Err(e)) => code_for(last, e),
        Transfer::Elapsed => SUBETHA_E_TIMEOUT,
    }
}

/// The items a transfer is known to have shipped or received: what it says
/// when it ended well, and none when it was refused or ran out of time.
pub fn carried(ended: &Transfer) -> (items: u64)
    ensures
        items == match *ended {
            Transfer::Ended(Ok(n)) => n,
            Transfer::Ended(Err(_)) => 0,
            Transfer::Elapsed => 0,
        },
{
    match ended {
        Transfer::Ended(Ok(n)) => *n,
        Transfer::Ended(Err(_)) => 0,
        Transfer::Elapsed => 0,
    }
}

/// What a run has done so far.
#[derive(Clone, Copy, Debug, PartialEq, Eq, Structural)]
pub struct Progress {
    /// Items the last run carried.
    pub items: u64,
    /// Whether a run is under way.
    pub running: bool,
    /// Whether the last run finished.
    pub finished: bool,
    /// The code it ended with.
    pub last_code: i32,
}

impl Progress {
    /// No run yet.
    pub fn new() -> (progress: Self)
        ensures
            progress == (Progress { items: 0, running: false, finished: false, last_code: 0 }),
    {
        Progress { items: 0, running: false, finished: false, last_code: 0 }
    }

    /// Begin a run: one at a time, under the deadline the caller gave in
    /// milliseconds, or without one where that is negative.
    pub fn begin(&mut self, last: &mut LastError, timeout_ms: i64) -> (deadline: Result<Option<u64>, i32>)
        ensures
            if old(self).running {
                &&& answers(
                    deadline,
                    Err(invalid_argument("a run is already under way on this bridge"@)),
                    old(last)@,
                    final(last)@,
                )
                &&& *final(self) == *old(self)
            } else {
                &&& deadline == Ok::<Option<u64>, i32>(
                    if timeout_ms < 0 {
                        None
                    } else {
                        Some(timeout_ms as u64)
                    },
                )
                &&& final(last)@ == old(last)@
                &&& *final(self) == (Progress { running: true, finished: false, ..*old(self) })
            },
    {
        if self.running {
            return Err(fail(last, SUBETHA_E_INVALID_ARGUMENT, "a run is already under way on this bridge"));
        }
        let deadline: Option<u64> = if timeout_ms < 0 {
            None
        } else {
            Some(timeout_ms as u64)
        };
        self.running = true;
        self.finished = false;
        Ok(deadline)
    }

    /// The run that was under way ended with `code`, having carried `items`.
    pub fn end(&mut self, items: u64, code: i32)
        ensures
            *final(self) == (Progress { items, running: false, finished: true, last_code: code }),
    {
        self.items = items;
        self.last_code = code;
        self.finished = true;
        self.running = false;
    }

    /// No thread could be had for the run: it is not under way after all.
    /// `said` is what asking for one said.
    pub fn abandon(&mut self, last: &mut LastError, said: &str) -> (code: i32)
        ensures
            code == SUBETHA_E_RING_IO,
            final(last)@ == "no thread for the run: "@ + said@,
            *final(self) == (Progress { running: false, ..*old(self) }),
    {
        self.running = false;
        let mut text: String = String::from_str("no thread for the run: ");
        text.append(said);
        fail(last, SUBETHA_E_RING_IO, text.as_str())
    }

    /// A snapshot of the bridge.
    pub fn stats(&self, mode: u32, role: u32) -> (stats: subetha_quic_bridge_stats)
        ensures
            stats == (subetha_quic_bridge_stats {
                mode,
                role,
                items: self.items,
                running: self.running,
                finished: self.finished,
                last_code: self.last_code,
            }),
    {
        subetha_quic_bridge_stats {
            mode,
            role,
            items: self.items,
            running: self.running,
            finished: self.finished,
            last_code: self.last_code,
        }
    }
}

/// What a call that could not get a runtime to drive its transfer on answers.
pub fn no_runtime(last: &mut LastError, said: &str) -> (code: i32)
    ensures
        code == SUBETHA_E_RING_IO,
        final(last)@ == "no runtime: "@ + said@,
{
    let mut text: String = String::from_str("no runtime: ");
    text.append(said);
    fail(last, SUBETHA_E_RING_IO, text.as_str())
}

/// A call on a QUIC bridge reaches what stands behind a handle to a QUIC
/// bridge, and nothing behind any other handle.
pub proof fn only_a_bridge_is_reached<P>(last: &mut LastError, object: &Object<P>, reached: Result<&P, i32>)
    requires
        call_ensures(with_bridge::<P>, (last, object), reached),
    ensures
        reached is Ok <==> *object is QuicBridge,
        reached matches Ok(payload) ==> *object == Object::QuicBridge(*payload) && final(last)@ == old(last)@,
        reached matches Err(code) ==> code == SUBETHA_E_WRONG_KIND
            && final(last)@ == "the handle does not name a QUIC bridge"@,
{
}

/// A bridge that opened is placed as what it is; one that did not is answered
/// exactly as its error is.
pub proof fn a_bridge_that_opened_is_placed_as_one<P>(
    last: &mut LastError,
    other: &mut LastError,
    opened: Result<P, QuicBridgeError>,
    answer: Result<Object<P>, i32>,
    code: i32,
)
    requires
        call_ensures(place::<P>, (last, opened), answer),
        opened matches Err(e) ==> call_ensures(code_for, (other, e), code),
        old(last)@ == old(other)@,
    ensures
        opened matches Ok(value) ==> answer == Ok::<Object<P>, i32>(Object::QuicBridge(value))
            && final(last)@ == old(last)@,
        opened is Err ==> answer == Err::<Object<P>, i32>(code) && final(last)@ == final(other)@,
{
}

/// A call that went well answers with what it gave, and one that did not
/// answers exactly as its error does.
pub proof fn a_call_that_went_well_is_not_refused<T>(
    last: &mut LastError,
    other: &mut LastError,
    went: Result<T, QuicBridgeError>,
    answer: Result<T, i32>,
    code: i32,
)
    requires
        call_ensures(outcome::<T>, (last, went), answer),
        went matches Err(e) ==> call_ensures(code_for, (other, e), code),
        old(last)@ == old(other)@,
    ensures
        went matches Ok(value) ==> answer == Ok::<T, i32>(value) && final(last)@ == old(last)@,
        went is Err ==> answer == Err::<T, i32>(code) && final(last)@ == final(other)@,
{
}

/// The arguments are accepted exactly when nothing is wrong with any of them,
/// and then handed on unchanged; the first one at fault is the one answered
/// for.
pub proof fn bytes_are_there_and_not_empty<'a>(
    last: &mut LastError,
    bytes: Option<&'a [u8]>,
    what: &str,
    given: Result<&'a [u8], i32>,
)
    requires
        call_ensures(borrowed, (last, bytes, what), given),
    ensures
        given is Ok <==> !(bytes is None) && bytes->Some_0@.len() != 0,
        given matches Ok(all) ==> Some(all) == bytes && final(last)@ == old(last)@,
        bytes is None ==> given is Err && given->Err_0 == SUBETHA_E_INVALID_ARGUMENT && final(last)@ == (what@
            + " is null"@),
        !(bytes is None) && bytes->Some_0@.len() == 0 ==> given is Err
            && given->Err_0 == SUBETHA_E_INVALID_ARGUMENT && final(last)@ == (what@ + " is empty"@),
{
}

/// The arguments are accepted exactly when nothing is wrong with any of them,
/// and then handed on unchanged; the first one at fault is the one answered
/// for.
pub proof fn a_client_is_made_with_arguments_that_are_right<'a, A>(
    last: &mut LastError,
    out_null: bool,
    server_addr: Result<A, Refused>,
    bind_addr: Result<A, Refused>,
    sni: Result<&'a str, Refused>,
    cert: Option<&'a [u8]>,
    mode: Result<u32, Refused>,
    read: Result<(A, A, &'a str, &'a [u8], u32), i32>,
)
    requires
        call_ensures(client_arguments::<A>, (last, out_null, server_addr, bind_addr, sni, cert, mode), read),
    ensures
        read is Ok <==> !out_null && server_addr is Ok && bind_addr is Ok && sni is Ok && !(cert is None)
            && cert->Some_0@.len() != 0 && mode is Ok,
        read matches Ok(all) ==> all.0 == server_addr->Ok_0 && all.1 == bind_addr->Ok_0 && all.2 == sni->Ok_0
            && Some(all.3) == cert && all.4 == mode->Ok_0 && final(last)@ == old(last)@,
        out_null ==> read is Err && read->Err_0 == SUBETHA_E_INVALID_ARGUMENT && final(last)@ == "out is null"@,
        !out_null && server_addr is Err ==> read is Err && read->Err_0 == server_addr->Err_0.code
            && final(last)@ == server_addr->Err_0.report().leaves(old(last)@),
        !out_null && server_addr is Ok && bind_addr is Err ==> read is Err
            && read->Err_0 == bind_addr->Err_0.code && final(last)@ == bind_addr->Err_0.report().leaves(old(last)@),
        !out_null && server_addr is Ok && bind_addr is Ok && sni is Err ==> read is Err
            && read->Err_0 == sni->Err_0.code && final(last)@ == sni->Err_0.report().leaves(old(last)@),
        !out_null && server_addr is Ok && bind_addr is Ok && sni is Ok && cert is None ==> read is Err
            && read->Err_0 == SUBETHA_E_INVALID_ARGUMENT && final(last)@ == ("cert"@ + " is null"@),
        !out_null && server_addr is Ok && bind_addr is Ok && sni is Ok && !(cert is None)
            && cert->Some_0@.len() == 0 ==> read is Err && read->Err_0 == SUBETHA_E_INVALID_ARGUMENT
            && final(last)@ == ("cert"@ + " is empty"@),
        !out_null && server_addr is Ok && bind_addr is Ok && sni is Ok && !(cert is None)
            && cert->Some_0@.len() != 0 && mode is Err ==> read is Err && read->Err_0 == mode->Err_0.code
            && final(last)@ == mode->Err_0.report().leaves(old(last)@),
{
}

/// The arguments are accepted exactly when nothing is wrong with any of them,
/// and then handed on unchanged; the first one at fault is the one answered
/// for.
pub proof fn a_server_is_made_with_arguments_that_are_right<'a, A>(
    last: &mut LastError,
    out_null: bool,
    addr: Result<A, Refused>,
    cert: Option<&'a [u8]>,
    key: Option<&'a [u8]>,
    mode: Result<u32, Refused>,
    read: Result<(A, &'a [u8], &'a [u8], u32), i32>,
)
    requires
        call_ensures(server_arguments::<A>, (last, out_null, addr, cert, key, mode), read),
    ensures
        read is Ok <==> !out_null && addr is Ok && !(cert is None) && cert->Some_0@.len() != 0 && !(key is None)
            && key->Some_0@.len() != 0 && mode is Ok,
        read matches Ok(all) ==> all.0 == addr->Ok_0 && Some(all.1) == cert && Some(all.2) == key
            && all.3 == mode->Ok_0 && final(last)@ == old(last)@,
        out_null ==> read is Err && read->Err_0 == SUBETHA_E_INVALID_ARGUMENT && final(last)@ == "out is null"@,
        !out_null && addr is Err ==> read is Err && read->Err_0 == addr->Err_0.code
            && final(last)@ == addr->Err_0.report().leaves(old(last)@),
        !out_null && addr is Ok && cert is None ==> read is Err && read->Err_0 == SUBETHA_E_INVALID_ARGUMENT,
        !out_null && addr is Ok && !(cert is None) && cert->Some_0@.len() == 0 ==> read is Err
            && read->Err_0 == SUBETHA_E_INVALID_ARGUMENT,
        !out_null && addr is Ok && !(cert is None) && cert->Some_0@.len() != 0 && key is None ==> read is Err
            && read->Err_0 == SUBETHA_E_INVALID_ARGUMENT,
        !out_null && addr is Ok && !(cert is None) && cert->Some_0@.len() != 0 && !(key is None)
            && key->Some_0@.len() == 0 ==> read is Err && read->Err_0 == SUBETHA_E_INVALID_ARGUMENT,
        !out_null && addr is Ok && !(cert is None) && cert->Some_0@.len() != 0 && !(key is None)
            && key->Some_0@.len() != 0 && mode is Err ==> read is Err && read->Err_0 == mode->Err_0.code
            && final(last)@ == mode->Err_0.report().leaves(old(last)@),
{
}

/// Both are copied exactly when each buffer is there and has room for its own,
/// every byte at its place; otherwise neither buffer changes. Both lengths are
/// reported either way, so a second call with that much room gets both.
pub proof fn a_certificate_and_its_key_are_handed_over_together(
    cert: &[u8],
    key: &[u8],
    cert_null: bool,
    cert_out: &mut [u8],
    key_null: bool,
    key_out: &mut [u8],
    answer: (i32, usize, usize),
)
    requires
        call_ensures(self_signed, (cert, key, cert_null, cert_out, key_null, key_out), answer),
    ensures
        answer.1 == cert@.len() && answer.2 == key@.len(),
        answer.0 == SUBETHA_OK <==> !cert_null && !key_null && old(cert_out)@.len() >= cert@.len()
            && old(key_out)@.len() >= key@.len(),
        answer.0 != SUBETHA_OK ==> answer.0 == SUBETHA_E_BUFFER_TOO_SMALL && final(cert_out)@ == old(cert_out)@
            && final(key_out)@ == old(key_out)@,
        answer.0 == SUBETHA_OK ==> forall|i: int| 0 <= i < cert@.len()
            ==> (#[trigger] final(cert_out)@[i]) == cert@[i],
        answer.0 == SUBETHA_OK ==> forall|i: int| 0 <= i < key@.len() ==> (#[trigger] final(key_out)@[i]) == key@[i],
{
}

/// A server answers with its port or with why it cannot say, and a client
/// listens on none.
pub proof fn only_a_server_listens_on_a_port(
    last: &mut LastError,
    bound: Option<Result<u16, String>>,
    port: Result<u16, i32>,
)
    requires
        call_ensures(local_port, (last, bound), port),
    ensures
        port is Ok <==> bound is Some && bound->Some_0 is Ok,
        port matches Ok(p) ==> p == bound->Some_0->Ok_0 && final(last)@ == old(last)@,
        bound is None ==> port is Err && port->Err_0 == SUBETHA_E_INVALID_ARGUMENT,
        bound is Some && bound->Some_0 is Err ==> port is Err && port->Err_0 == SUBETHA_E_RING_IO,
{
}

/// A transfer that ended well answers so and carried what it says; one that
/// was refused answers exactly as its error, one that outlasted its deadline
/// has run out of time, and neither carried anything that is known.
pub proof fn a_transfer_in_time_ends_by_itself(
    last: &mut LastError,
    other: &mut LastError,
    ended: Transfer,
    answer: i32,
    items: u64,
    code: i32,
)
    requires
        call_ensures(bounded, (last, ended), answer),
        call_ensures(carried, (&ended,), items),
        ended is Ended && ended->Ended_0 is Err ==> call_ensures(code_for, (other, ended->Ended_0->Err_0), code),
        old(last)@ == old(other)@,
    ensures
        ended is Ended && ended->Ended_0 is Ok ==> answer == SUBETHA_OK && items == ended->Ended_0->Ok_0
            && final(last)@ == old(last)@,
        ended is Ended && ended->Ended_0 is Err ==> answer == code && items == 0 && final(last)@ == final(other)@,
        ended is Elapsed ==> answer == SUBETHA_E_TIMEOUT && items == 0 && final(last)@ == old(last)@,
{
}

/// A run begins exactly when none is under way, under the deadline it was
/// given or none where that is negative, and until it ends or is abandoned no
/// other begins.
pub proof fn one_run_is_under_way_at_a_time(
    progress: &mut Progress,
    last: &mut LastError,
    timeout_ms: i64,
    deadline: Result<Option<u64>, i32>,
)
    requires
        call_ensures(Progress::begin, (progress, last, timeout_ms), deadline),
    ensures
        deadline is Ok <==> !old(progress).running,
        final(progress).running,
        final(progress).items == old(progress).items && final(progress).last_code == old(progress).last_code,
        deadline is Ok ==> !final(progress).finished && final(last)@ == old(last)@,
        deadline is Err ==> final(progress).finished == old(progress).finished
            && deadline->Err_0 == SUBETHA_E_INVALID_ARGUMENT,
        deadline matches Ok(limit) ==> (limit is None <==> timeout_ms < 0),
        deadline is Ok && timeout_ms >= 0 ==> deadline->Ok_0->Some_0 == timeout_ms,
{
}

/// Once a run has ended, a snapshot shows the items and the code it ended with
/// and that nothing is under way; an abandoned one leaves what the last run
/// showed.
pub proof fn a_run_that_ended_is_shown_with_its_code_and_its_items(
    ending: &mut Progress,
    items: u64,
    code: i32,
    done: (),
    abandoned: &mut Progress,
    last: &mut LastError,
    said: &str,
    answer: i32,
)
    requires
        call_ensures(Progress::end, (ending, items, code), done),
        call_ensures(Progress::abandon, (abandoned, last, said), answer),
    ensures
        final(ending).items == items && final(ending).last_code == code,
        final(ending).finished && !final(ending).running,
        !final(abandoned).running,
        final(abandoned).items == old(abandoned).items && final(abandoned).last_code == old(abandoned).last_code
            && final(abandoned).finished == old(abandoned).finished,
        answer == SUBETHA_E_RING_IO,
{
}

/// A snapshot reports each thing under its own name.
pub proof fn a_snapshot_reports_each_thing_as_it_is(
    progress: &Progress,
    mode: u32,
    role: u32,
    shown: subetha_quic_bridge_stats,
)
    requires
        call_ensures(Progress::stats, (progress, mode, role), shown),
    ensures
        shown.mode == mode && shown.role == role,
        shown.items == progress.items && shown.last_code == progress.last_code,
        shown.running == progress.running && shown.finished == progress.finished,
{
}

/// Before its first run a bridge has carried nothing, is not running and has
/// no code but the good one.
pub proof fn a_new_bridge_has_done_nothing(progress: Progress)
    requires
        call_ensures(Progress::new, (), progress),
    ensures
        progress.items == 0 && progress.last_code == SUBETHA_OK,
        !progress.running && !progress.finished,
{
}

/// A build without the transport, a call without a runtime and an address that
/// cannot be read each answer with their own code.
pub proof fn what_the_transport_cannot_do_is_said(
    last: &mut LastError,
    other: &mut LastError,
    third: &mut LastError,
    what: &str,
    given: &str,
    said: &str,
    missing: i32,
    stopped: i32,
    bad: i32,
)
    requires
        call_ensures(unavailable, (last,), missing),
        call_ensures(no_runtime, (other, said), stopped),
        call_ensures(bad_address, (third, what, given, said), bad),
    ensures
        missing == SUBETHA_E_NOT_SUPPORTED,
        stopped == SUBETHA_E_RING_IO && final(other)@ == "no runtime: "@ + said@,
        bad == SUBETHA_E_INVALID_ARGUMENT && final(third)@ == what@ + " "@ + given@ + ": "@ + said@,
{
}

/// Each error answers with its own code. One with specifics leaves them, and
/// one without leaves what was there.
pub proof fn each_error_has_its_code(last: &mut LastError, e: QuicBridgeError, code: i32)
    requires
        call_ensures(code_for, (last, e), code),
    ensures
        e matches QuicBridgeError::Tls(said) ==> code == 107 && final(last)@ == "tls: "@ + said@,
        e matches QuicBridgeError::Quic(said) ==> code == 107 && final(last)@ == "quic: "@ + said@,
        e matches QuicBridgeError::Io(kind) ==> code == 107 && final(last)@ == "io error: "@ + kind@,
{
}

} // verus!
