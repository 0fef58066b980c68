//! What can go wrong between the node and the count files.

use vstd::prelude::*;

verus! {

/// The failures of a run. All but `JoinMiss` and `BadRow` end it.
#[derive(Debug, Clone, PartialEq, Eq)]
pub enum RunError {
    /// The connection to the node could not be opened.
    ConnectionError,
    /// The node closed the stream in the middle of an exchange.
    ConnectionClosed,
    /// A read or write on the stream failed, other than by timing out.
    IoError,
    /// A complete answer that is not JSON; it carries the raw answer.
    ParseError(Vec<u8>),
    /// An answer without a field that must be there; it carries the field's name.
    MissingFieldError(String),
    /// The node did not say which block is its latest.
    NoUpstreamBlock,
    /// A trace step whose instruction is none of `EvmInst`; it carries the name.
    UnknownInstruction(String),
    /// A count, a sum or an index that does not fit its integer type.
    Overflow,
    /// A count file could not be written or rotated.
    WriteError,
    /// No price at or after a record's time; the record is skipped.
    JoinMiss,
    /// A line of a count file that does not start with a time; the line is skipped.
    BadRow,
}

/// A failure, with what it carries as mathematics.
pub enum Failure {
    ConnectionError,
    ConnectionClosed,
    IoError,
    ParseError(Seq<u8>),
    MissingFieldError(Seq<char>),
    NoUpstreamBlock,
    UnknownInstruction(Seq<char>),
    Overflow,
    WriteError,
    JoinMiss,
    BadRow,
}

impl View for RunError {
    type V = Failure;

    open spec fn view(&self) -> Failure {
        match self {
            RunError::ConnectionError => Failure::ConnectionError,
            RunError::ConnectionClosed => Failure::ConnectionClosed,
            RunError::IoError => Failure::IoError,
            RunError::ParseError(raw) => Failure::ParseError(raw@),
            RunError::MissingFieldError(field) => Failure::MissingFieldError(field@),
            RunError::NoUpstreamBlock => Failure::NoUpstreamBlock,
            RunError::UnknownInstruction(name) => Failure::UnknownInstruction(name@),
            RunError::Overflow => Failure::Overflow,
            RunError::WriteError => Failure::WriteError,
            RunError::JoinMiss => Failure::JoinMiss,
            RunError::BadRow => Failure::BadRow,
        }
    }
}

impl RunError {
    /// Whether the run can go on after this failure.
    pub fn is_recoverable(&self) -> (recoverable: bool)
        ensures
            recoverable == (*self is JoinMiss || *self is BadRow),
    {
        match self {
            RunError::JoinMiss => true,
            RunError::BadRow => true,
            _ => false,
        }
    }
}

} // verus!
