//! The error every fallible operation of the bridge reports.

use vstd::prelude::*;

verus! {

/// The class of a failure.
#[derive(Clone, Copy, Debug, PartialEq, Eq, Structural)]
pub enum ErrorKind {
    /// The registration reply names another plugin than the one that asked.
    ProtocolMismatch,
    /// Bytes that are no envelope of the expected shape.
    Malformed,
    /// A command names an adapter or a device that is not registered.
    NotFound,
    /// An adapter or a device refused an operation.
    Capability,
    /// The duplex connection could not be written.
    Transport,
    /// Any other failure handed on from outside the bridge.
    Other,
}

/// A failure: its class and a message for the log.
#[derive(Clone, Debug, PartialEq)]
pub struct GatewayError {
    pub kind: ErrorKind,
    pub message: String,
}

/// What a `GatewayError` means in contracts.
pub struct GatewayErrorView {
    pub kind: ErrorKind,
    pub message: Seq<char>,
}

impl View for GatewayError {
    type V = GatewayErrorView;

    open spec fn view(&self) -> GatewayErrorView {
        GatewayErrorView { kind: self.kind, message: self.message@ }
    }
}

impl GatewayError {
    /// An error of the given class with the given message.
    pub fn new(kind: ErrorKind, message: &str) -> (e: GatewayError)
        ensures
            e@ == (GatewayErrorView { kind, message: message@ }),
    {
        GatewayError { kind, message: message.to_owned() }
    }

    /// The error for an identifier that is not registered.
    pub fn not_found(message: &str) -> (e: GatewayError)
        ensures
            e@ == (GatewayErrorView { kind: ErrorKind::NotFound, message: message@ }),
    {
        GatewayError::new(ErrorKind::NotFound, message)
    }

    /// The error for bytes that do not decode.
    pub fn malformed(message: &str) -> (e: GatewayError)
        ensures
            e@ == (GatewayErrorView { kind: ErrorKind::Malformed, message: message@ }),
    {
        GatewayError::new(ErrorKind::Malformed, message)
    }

    /// The class of this error.
    pub fn kind(&self) -> (k: ErrorKind)
        ensures
            k == self.kind,
    {
        self.kind
    }

    /// The message of this error.
    pub fn message(&self) -> (m: &str)
        ensures
            m@ == self.message@,
    {
        self.message.as_str()
    }
}

/// Wraps the text of a failure that arose outside the bridge, such as a
/// closed queue, as an error of class `Other`.
pub fn to_io_error(message: String) -> (e: GatewayError)
    ensures
        e.kind == ErrorKind::Other,
        e.message == message,
{
    GatewayError { kind: ErrorKind::Other, message }
}

} // verus!
