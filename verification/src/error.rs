//! What can go wrong between the client and the daemon.

use vstd::prelude::*;
use crate::text::joined;

verus! {

/// What a response was to be when it violated the protocol.
#[derive(Debug, Clone, Copy, PartialEq, Eq, Structural)]
pub enum Expected {
    /// A line that begins with `OK`.
    Acknowledgement,
    /// The line that opens a list.
    ListOpening,
    /// The description at the end of a device line.
    Description,
    /// The name of the variable in a variable line.
    VariableName,
    /// The value at the end of a variable line.
    VariableValue,
    /// No line at all: no command was outstanding.
    Nothing,
}

/// A failure of the connection or of the protocol.
#[derive(Debug, Clone, PartialEq, Eq)]
pub enum NutError {
    /// Connecting, reading or writing failed below the protocol. Carries
    /// the cause as the operating system words it.
    Network(String),
    /// The peer closed the connection before a response was complete.
    ConnectionClosed,
    /// A response did not have the expected framing. Carries what was
    /// expected, and the line that came.
    ProtocolViolation(Expected, String),
    /// The handshake with user name and password did not go through.
    /// Carries the message of what stopped it.
    AuthenticationFailed(String),
}

/// A failure, with its texts as sequences of characters.
pub enum Failure {
    Network(Seq<char>),
    ConnectionClosed,
    ProtocolViolation(Expected, Seq<char>),
    AuthenticationFailed(Seq<char>),
}

impl View for NutError {
    type V = Failure;

    open spec fn view(&self) -> Failure {
        match self {
            NutError::Network(cause) => Failure::Network(cause@),
            NutError::ConnectionClosed => Failure::ConnectionClosed,
            NutError::ProtocolViolation(expected, line) => Failure::ProtocolViolation(*expected, line@),
            NutError::AuthenticationFailed(detail) => Failure::AuthenticationFailed(detail@),
        }
    }
}

/// The message that is shown for a violation of the protocol.
pub open spec fn violation_message(expected: Expected, line: Seq<char>) -> Seq<char> {
    match expected {
        Expected::Acknowledgement => "Expected OK, got: "@ + line,
        Expected::ListOpening => "Unexpected response: "@ + line,
        Expected::Description => "Missing UPS desc"@,
        Expected::VariableName => "Missing var name"@,
        Expected::VariableValue => "Missing var value"@,
        Expected::Nothing => "Unexpected response: "@ + line,
    }
}

/// The message that is shown for a failure. A failure of the handshake
/// shows the message of what stopped it.
pub open spec fn message_of(failure: Failure) -> Seq<char> {
    match failure {
        Failure::Network(cause) => cause,
        Failure::ConnectionClosed => "Connection closed by server"@,
        Failure::ProtocolViolation(expected, line) => violation_message(expected, line),
        Failure::AuthenticationFailed(detail) => detail,
    }
}

/// What a failure becomes when it happens during the handshake.
pub open spec fn as_authentication_failure(failure: Failure) -> Failure {
    Failure::AuthenticationFailed(message_of(failure))
}

impl NutError {
    /// The message that is shown for this failure.
    pub fn message(&self) -> (text: String)
        ensures
            text@ == message_of(self@),
    {
        match self {
            NutError::Network(cause) => cause.clone(),
            NutError::ConnectionClosed => "Connection closed by server".to_owned(),
            NutError::ProtocolViolation(expected, line) => match expected {
                Expected::Acknowledgement => joined("Expected OK, got: ", line.as_str()),
                Expected::ListOpening => joined("Unexpected response: ", line.as_str()),
                Expected::Description => "Missing UPS desc".to_owned(),
                Expected::VariableName => "Missing var name".to_owned(),
                Expected::VariableValue => "Missing var value".to_owned(),
                Expected::Nothing => joined("Unexpected response: ", line.as_str()),
            },
            NutError::AuthenticationFailed(detail) => detail.clone(),
        }
    }

    /// This failure as one of the handshake.
    pub fn during_authentication(&self) -> (failure: NutError)
        ensures
            failure@ == as_authentication_failure(self@),
    {
        NutError::AuthenticationFailed(self.message())
    }
}

} // verus!
