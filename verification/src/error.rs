//! The kinds of failure, and which of them the client survives.

use vstd::prelude::*;
use crate::driver::Event;

verus! {

/// A kind of failure.
#[derive(Clone, Copy, Debug, PartialEq, Eq, Structural)]
pub enum ErrorKind {
    /// No client could be made: the node is out of reach, the handshake
    /// failed, the address is malformed or the credential was turned down.
    Construction,
    /// The namespace is not valid.
    Namespace,
    /// The payload was refused when the blob was made.
    BlobConstruction,
    /// One element of the header feed was a failure.
    HeaderStream,
    /// The blob query for one height failed.
    BlobQuery,
    /// The submission failed.
    Submit,
}

/// What is done about a failure.
#[derive(Clone, Copy, Debug, PartialEq, Eq, Structural)]
pub enum Handling {
    /// It is reported and the loop goes on.
    Recovered,
    /// It is handed to the caller, which gives up.
    Fatal,
}

impl ErrorKind {
    /// The two kinds that the loop recovers from are a failed element of the
    /// header feed and a failed blob query. Every other kind is fatal.
    pub open spec fn spec_handling(self) -> Handling {
        match self {
            ErrorKind::HeaderStream | ErrorKind::BlobQuery => Handling::Recovered,
            _ => Handling::Fatal,
        }
    }

    /// What is done about a failure of this kind.
    pub fn handling(&self) -> (r: Handling)
        ensures
            r == self.spec_handling(),
    {
        match self {
            ErrorKind::HeaderStream => Handling::Recovered,
            ErrorKind::BlobQuery => Handling::Recovered,
            _ => Handling::Fatal,
        }
    }

    /// Whether a failure of this kind ends the process.
    pub fn is_fatal(&self) -> (r: bool)
        ensures
            r == (self.spec_handling() == Handling::Fatal),
    {
        match self.handling() {
            Handling::Fatal => true,
            Handling::Recovered => false,
        }
    }
}

/// The kind of failure that an event reports, if it reports one.
pub open spec fn spec_failure_kind(event: Event) -> Option<ErrorKind> {
    match event {
        Event::HeaderFailed { .. } => Some(ErrorKind::HeaderStream),
        Event::BlobsFailed { .. } => Some(ErrorKind::BlobQuery),
        _ => None,
    }
}

/// The kind of failure that an event reports, if it reports one.
pub fn failure_kind(event: &Event) -> (r: Option<ErrorKind>)
    ensures
        r == spec_failure_kind(*event),
{
    match event {
        Event::HeaderFailed { .. } => Some(ErrorKind::HeaderStream),
        Event::BlobsFailed { .. } => Some(ErrorKind::BlobQuery),
        _ => None,
    }
}

/// The status that the process ends with: zero where the feed ended with
/// no fatal failure, one where a fatal failure ended the process.
pub open spec fn spec_exit_code(fatal: Option<ErrorKind>) -> u8 {
    match fatal {
        None => 0u8,
        Some(_) => 1u8,
    }
}

/// The status that the process ends with.
pub fn exit_code(fatal: Option<ErrorKind>) -> (r: u8)
    ensures
        r == spec_exit_code(fatal),
        (r == 0) == (fatal is None),
{
    match fatal {
        None => 0,
        Some(_) => 1,
    }
}

/// The failures that events report are never fatal: each is of a kind that
/// the loop recovers from.
pub proof fn lemma_reported_failures_are_recovered(event: Event)
    requires
        spec_failure_kind(event) is Some,
    ensures
        spec_failure_kind(event)->Some_0.spec_handling() == Handling::Recovered,
{
}

} // verus!
