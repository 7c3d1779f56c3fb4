//! The ways a single query can fail.

use vstd::prelude::*;

verus! {

/// Every failure a query can end in, from a bad command name to a reply
/// that is not text. All errors are terminal: the tool makes one attempt
/// and reports the first failure it meets.
#[derive(Clone, Copy, Debug, PartialEq, Eq, Structural)]
pub enum QueryError {
    /// The command name matches none of the recognized queries.
    UnknownCommand,
    /// The serial port could not be opened or configured.
    PortUnavailable,
    /// Writing the request failed, or only part of it was accepted.
    TransportWriteError,
    /// Reading the reply failed.
    TransportReadError,
    /// The reply bytes are not valid text.
    ResponseDecodeError,
}

impl QueryError {
    /// The diagnostic message for this error.
    pub open spec fn spec_message(self) -> Seq<char> {
        match self {
            QueryError::UnknownCommand => "unknown command name"@,
            QueryError::PortUnavailable => "serial port could not be opened"@,
            QueryError::TransportWriteError => "writing the request failed"@,
            QueryError::TransportReadError => "reading the reply failed"@,
            QueryError::ResponseDecodeError => "reply is not valid text"@,
        }
    }

    /// The message rendered at the process boundary when this error ends
    /// the run.
    pub fn message(&self) -> (r: &'static str)
        ensures
            r@ == self.spec_message(),
    {
        match self {
            QueryError::UnknownCommand => "unknown command name",
            QueryError::PortUnavailable => "serial port could not be opened",
            QueryError::TransportWriteError => "writing the request failed",
            QueryError::TransportReadError => "reading the reply failed",
            QueryError::ResponseDecodeError => "reply is not valid text",
        }
    }
}

} // verus!
