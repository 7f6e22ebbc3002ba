//! Errors reported by the client: a text, the library's result code, and
//! whether the error came from the broker's answer to a connection.

use vstd::prelude::*;
use vstd::string::*;
use crate::sys::{
    MOSQ_CONNECT_ERR_BADID, MOSQ_CONNECT_ERR_NOBROKER, MOSQ_CONNECT_ERR_OK, MOSQ_CONNECT_ERR_PROTOCOL,
    MOSQ_CONNECT_ERR_TIMEOUT,
};

verus! {

/// The text that describes a connection result code.
pub open spec fn connect_error_text(rc: i32) -> Seq<char> {
    if rc == MOSQ_CONNECT_ERR_OK {
        "connect: ok"@
    } else if rc == MOSQ_CONNECT_ERR_PROTOCOL {
        "connect: bad protocol version"@
    } else if rc == MOSQ_CONNECT_ERR_BADID {
        "connect: id rejected"@
    } else if rc == MOSQ_CONNECT_ERR_NOBROKER {
        "connect: broker unavailable"@
    } else if rc == MOSQ_CONNECT_ERR_TIMEOUT {
        "connect: timed out"@
    } else {
        "connect: unknown"@
    }
}

/// Describes a connection result code.
pub fn connect_error(rc: i32) -> (text: &'static str)
    ensures
        text@ == connect_error_text(rc),
{
    match rc {
        MOSQ_CONNECT_ERR_OK => "connect: ok",
        MOSQ_CONNECT_ERR_PROTOCOL => "connect: bad protocol version",
        MOSQ_CONNECT_ERR_BADID => "connect: id rejected",
        MOSQ_CONNECT_ERR_NOBROKER => "connect: broker unavailable",
        MOSQ_CONNECT_ERR_TIMEOUT => "connect: timed out",
        _ => "connect: unknown",
    }
}

/// What an error holds, as values.
pub struct ErrorView {
    pub text: Seq<char>,
    pub code: i32,
    pub connect: bool,
}

/// The error that a failed library call gives: the call's name, a colon, and
/// the library's description of the code.
pub open spec fn call_error(call: Seq<char>, rc: i32, reason: Seq<char>) -> ErrorView {
    ErrorView { text: call + ": "@ + reason, code: rc, connect: false }
}

/// The error that a refused or failed connection gives.
pub open spec fn connection_error(rc: i32) -> ErrorView {
    ErrorView { text: connect_error_text(rc), code: rc, connect: true }
}

/// An error from a failed call keeps the call's code and is no connection
/// error; a connection error keeps the connection code and its description.
pub proof fn errors_keep_their_code(call: Seq<char>, rc: i32, reason: Seq<char>)
    ensures
        call_error(call, rc, reason).code == rc,
        !call_error(call, rc, reason).connect,
        connection_error(rc).code == rc,
        connection_error(rc).connect,
        connection_error(rc).text == connect_error_text(rc),
{
}

/// The text of an error from a failed call is the call's name, then a colon
/// and a space, then the reason: it begins with the name, ends with the
/// reason, and is two characters longer than both together.
pub proof fn call_error_text_layout(call: Seq<char>, rc: i32, reason: Seq<char>)
    ensures
        call_error(call, rc, reason).text.len() == call.len() + 2 + reason.len(),
        call_error(call, rc, reason).text.subrange(0, call.len() as int) == call,
        call_error(call, rc, reason).text[call.len() as int] == ':',
        call_error(call, rc, reason).text[call.len() as int + 1] == ' ',
        call_error(call, rc, reason).text.subrange(call.len() as int + 2, call.len() + 2 + reason.len() as int) == reason,
{
    reveal_strlit(": ");
    let t = call_error(call, rc, reason).text;
    assert(t.subrange(0, call.len() as int) =~= call);
    assert(t.subrange(call.len() as int + 2, call.len() + 2 + reason.len() as int) =~= reason);
}

/// Our Error type
#[derive(Debug)]
pub struct Error {
    text: String,
    errcode: i32,
    connect: bool,
}

impl View for Error {
    type V = ErrorView;

    closed spec fn view(&self) -> ErrorView {
        ErrorView { text: self.text@, code: self.errcode, connect: self.connect }
    }
}

impl Error {
    /// create a new error from the name of a call, the code it returned and
    /// the library's description of that code
    pub fn new(msg: &str, rc: i32, reason: &str) -> (e: Error)
        ensures
            e@ == call_error(msg@, rc, reason@),
            e@.text == msg@ + ": "@ + reason@,
            e@.code == rc,
            !e@.connect,
    {
        let mut text = String::from_str(msg);
        text.append(": ");
        text.append(reason);
        Error { text, errcode: rc, connect: false }
    }

    /// create a new connection error
    pub fn new_connect(rc: i32) -> (e: Error)
        ensures
            e@ == connection_error(rc),
            e@.text == connect_error_text(rc),
            e@.code == rc,
            e@.connect,
    {
        Error { text: String::from_str(connect_error(rc)), errcode: rc, connect: true }
    }

    /// the outcome of a call that returned `rc`: success exactly when it is zero
    pub fn result(call: &str, rc: i32, reason: &str) -> (r: Result<(), Error>)
        ensures
            r is Ok <==> rc == 0,
            r matches Err(e) ==> e@ == call_error(call@, rc, reason@),
            r matches Err(e) ==> e@.code == rc && !e@.connect && e@.text == call@ + ": "@ + reason@,
    {
        if rc != 0 {
            Err(Error::new(call, rc, reason))
        } else {
            Ok(())
        }
    }

    /// underlying error code
    pub fn error(&self) -> (code: i32)
        ensures
            code == self@.code,
    {
        self.errcode
    }

    /// the text of the error
    pub fn description(&self) -> (text: &str)
        ensures
            text@ == self@.text,
    {
        self.text.as_str()
    }

    /// the text of the error, as a new string
    pub fn to_string(&self) -> (text: String)
        ensures
            text@ == self@.text,
    {
        self.text.clone()
    }

    /// whether the error came from the broker's answer to a connection
    pub fn is_connect(&self) -> (connect: bool)
        ensures
            connect == self@.connect,
    {
        self.connect
    }
}

} // verus!
