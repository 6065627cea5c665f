//! The taxonomy of failures of an RPC round trip, its text, and its
//! conversions to and from the wire-level error object.
use crate::outside::{anyhow_text, io_error_text, json_error_text};
use crate::rpc_error::RpcError;
use anyhow::Error as AnyhowError;
use serde_json::Error as JsonError;
use std::io::Error as IoError;
use vstd::prelude::*;
use vstd::std_specs::cmp::PartialEqSpec;
use vstd::std_specs::convert::FromSpec;

verus! {

/// A library error
#[derive(Debug)]
pub enum Error {
    /// Json error
    Json(JsonError),
    /// IO Error
    Io(IoError),
    /// Error response
    Rpc(RpcError),
    /// Response has neither error nor result
    NoErrorOrResult,
    /// Response to a request did not have the expected nonce
    NonceMismatch,
    /// Response to a request had a jsonrpc field other than "2.0"
    VersionMismatch,
}

/// The text of a decode failure whose cause reads `inner`.
pub open spec fn decode_failure_text(inner: Seq<char>) -> Seq<char> {
    "JSON decode error: "@ + inner
}

/// The text of a transport failure whose cause reads `inner`.
pub open spec fn transport_failure_text(inner: Seq<char>) -> Seq<char> {
    "IO error response: "@ + inner
}

/// The text of an error response from the peer.
pub open spec fn rpc_failure_text(r: RpcError) -> Seq<char> {
    "RPC error response: "@ + r.debug_text()
}

impl Error {
    /// Whether `s` is the one-line text of this error. For a decode or a
    /// transport failure that is the fixed prefix followed by the text of the
    /// underlying cause, whatever that reads.
    pub open spec fn displays_as(self, s: Seq<char>) -> bool {
        match self {
            Error::Json(_) => exists|t: Seq<char>| s == #[trigger] decode_failure_text(t),
            Error::Io(_) => exists|t: Seq<char>| s == #[trigger] transport_failure_text(t),
            Error::Rpc(r) => s == rpc_failure_text(r),
            Error::NoErrorOrResult => s == "Malformed RPC response"@,
            Error::NonceMismatch => s == "Nonce of response did not match nonce of request"@,
            Error::VersionMismatch => s == "`jsonrpc` field set to non-\"2.0\""@,
        }
    }

    /// Whether `out` is the wire-level error object of this error: the
    /// payload itself for an error response, and otherwise code -1, the
    /// error's text as the message, and no data.
    pub open spec fn converts_to(self, out: RpcError) -> bool {
        match self {
            Error::Rpc(r) => out == r,
            _ => out.code == -1 && out.data is None && self.displays_as(out.message@),
        }
    }

    /// The error that stands for a failure known only by its text: an error
    /// response with code -1, that text as the message, and no data.
    pub fn from_message(message: String) -> (r: Error)
        ensures
            r matches Error::Rpc(x) && x.code == -1 && x.message == message && x.data is None,
    {
        Error::Rpc(RpcError::from_message(message))
    }

    /// The one-line text of this error.
    pub fn to_string(&self) -> (r: String)
        ensures
            self.displays_as(r@),
    {
        match self {
            Error::Json(e) => {
                let t = json_error_text(e);
                let r = decode_failure_message(t.as_str());
                assert(r@ == decode_failure_text(t@));
                r
            },
            Error::Io(e) => {
                let t = io_error_text(e);
                let r = transport_failure_message(t.as_str());
                assert(r@ == transport_failure_text(t@));
                r
            },
            Error::Rpc(r) => rpc_failure_message(r),
            Error::NoErrorOrResult => String::from_str("Malformed RPC response"),
            Error::NonceMismatch => String::from_str(
                "Nonce of response did not match nonce of request",
            ),
            Error::VersionMismatch => String::from_str("`jsonrpc` field set to non-\"2.0\""),
        }
    }

    /// The underlying cause: the decode error of a decode failure, and none
    /// for any other error.
    pub fn cause(&self) -> (r: Option<&JsonError>)
        ensures
            match self {
                Error::Json(e) => r == Some(e),
                _ => r is None,
            },
    {
        match self {
            Error::Json(e) => Some(e),
            _ => None,
        }
    }
}

/// The text of a decode failure whose cause reads `inner`.
pub fn decode_failure_message(inner: &str) -> (r: String)
    ensures
        r@ == decode_failure_text(inner@),
{
    let mut s = String::from_str("JSON decode error: ");
    s.append(inner);
    s
}

/// The text of a transport failure whose cause reads `inner`.
pub fn transport_failure_message(inner: &str) -> (r: String)
    ensures
        r@ == transport_failure_text(inner@),
{
    let mut s = String::from_str("IO error response: ");
    s.append(inner);
    s
}

/// The text of an error response from the peer: its `Debug` text after a
/// fixed prefix.
pub fn rpc_failure_message(r: &RpcError) -> (s: String)
    ensures
        s@ == rpc_failure_text(*r),
{
    let mut s = String::from_str("RPC error response: ");
    let d = r.debug_string();
    s.append(d.as_str());
    s
}

impl From<JsonError> for Error {
    fn from(e: JsonError) -> (r: Error)
        ensures
            r == Error::Json(e),
    {
        Error::Json(e)
    }
}

impl vstd::std_specs::convert::FromSpecImpl<JsonError> for Error {
    open spec fn obeys_from_spec() -> bool {
        true
    }

    open spec fn from_spec(e: JsonError) -> Error {
        Error::Json(e)
    }
}

impl From<IoError> for Error {
    fn from(e: IoError) -> (r: Error)
        ensures
            r == Error::Io(e),
    {
        Error::Io(e)
    }
}

impl vstd::std_specs::convert::FromSpecImpl<IoError> for Error {
    open spec fn obeys_from_spec() -> bool {
        true
    }

    open spec fn from_spec(e: IoError) -> Error {
        Error::Io(e)
    }
}

impl From<RpcError> for Error {
    fn from(e: RpcError) -> (r: Error)
        ensures
            r == Error::Rpc(e),
    {
        Error::Rpc(e)
    }
}

impl vstd::std_specs::convert::FromSpecImpl<RpcError> for Error {
    open spec fn obeys_from_spec() -> bool {
        true
    }

    open spec fn from_spec(e: RpcError) -> Error {
        Error::Rpc(e)
    }
}

impl From<AnyhowError> for Error {
    /// Folds any failure into an error response with code -1 whose message
    /// is the failure's text.
    fn from(e: AnyhowError) -> (r: Error)
        ensures
            r matches Error::Rpc(x) && x.code == -1 && x.data is None,
    {
        let t = anyhow_text(&e);
        Error::from_message(t)
    }
}

impl vstd::std_specs::convert::FromSpecImpl<AnyhowError> for Error {
    /// The result depends on the text of the failure, which is not a
    /// function of anything stated here; `from` states what holds of it.
    open spec fn obeys_from_spec() -> bool {
        false
    }

    open spec fn from_spec(e: AnyhowError) -> Error {
        Error::Rpc(RpcError { code: -1i32, message: arbitrary(), data: None })
    }
}

impl From<Error> for RpcError {
    /// The wire-level error object of an error: the payload of an error
    /// response, and otherwise one with code -1 and the error's text.
    fn from(value: Error) -> (r: RpcError)
        ensures
            value.converts_to(r),
    {
        match value {
            Error::Rpc(rpc) => rpc,
            _ => {
                let t = value.to_string();
                RpcError::from_message(t)
            },
        }
    }
}

impl vstd::std_specs::convert::FromSpecImpl<Error> for RpcError {
    /// Only the payload of an error response is determined here; for the
    /// other errors `from` states what holds of the result.
    open spec fn obeys_from_spec() -> bool {
        false
    }

    open spec fn from_spec(value: Error) -> RpcError {
        match value {
            Error::Rpc(r) => r,
            _ => RpcError { code: -1i32, message: arbitrary(), data: None },
        }
    }
}

/// Converting a decode error gives a decode failure, and the fixed prefix
/// followed by the decode error's own text is that failure's text.
pub proof fn lemma_decode_failure(e: JsonError, inner: Seq<char>)
    ensures
        <Error as FromSpec<JsonError>>::obeys_from_spec(),
        <Error as FromSpec<JsonError>>::from_spec(e) == Error::Json(e),
        Error::Json(e).displays_as(decode_failure_text(inner)),
        Error::Json(e).displays_as(inner) ==> inner.take(19) == "JSON decode error: "@,
{
    if Error::Json(e).displays_as(inner) {
        let t = choose|t: Seq<char>| inner == #[trigger] decode_failure_text(t);
        assert(inner.take(19) =~= "JSON decode error: "@) by {
            reveal_strlit("JSON decode error: ");
        }
    }
}

/// Converting a transport error gives a transport failure, whose text is
/// the fixed prefix followed by the transport error's own text.
pub proof fn lemma_transport_failure(e: IoError, inner: Seq<char>)
    ensures
        <Error as FromSpec<IoError>>::obeys_from_spec(),
        <Error as FromSpec<IoError>>::from_spec(e) == Error::Io(e),
        Error::Io(e).displays_as(transport_failure_text(inner)),
        Error::Io(e).displays_as(inner) ==> inner.take(19) == "IO error response: "@,
{
    if Error::Io(e).displays_as(inner) {
        let t = choose|t: Seq<char>| inner == #[trigger] transport_failure_text(t);
        assert(inner.take(19) =~= "IO error response: "@) by {
            reveal_strlit("IO error response: ");
        }
    }
}

/// An error object turned into an error response and back is the same
/// error object, and compares equal to it.
pub proof fn lemma_rpc_round_trip(r: RpcError, out: RpcError)
    ensures
        <Error as FromSpec<RpcError>>::obeys_from_spec(),
        <Error as FromSpec<RpcError>>::from_spec(r) == Error::Rpc(r),
        Error::Rpc(r).converts_to(out) <==> out == r,
        Error::Rpc(r).converts_to(out) ==> out.eq_spec(&r),
{
}

/// Every error other than an error response becomes the wire-level error
/// object with code -1, the error's own text as the message, and no data.
pub proof fn lemma_other_to_wire(e: Error, out: RpcError)
    requires
        !(e is Rpc),
        e.converts_to(out),
    ensures
        out.code == -1,
        out.data is None,
        e.displays_as(out.message@),
        e is NoErrorOrResult ==> out.message@ == "Malformed RPC response"@,
        e is NonceMismatch ==> out.message@ == "Nonce of response did not match nonce of request"@,
        e is VersionMismatch ==> out.message@ == "`jsonrpc` field set to non-\"2.0\""@,
{
}

} // verus!
