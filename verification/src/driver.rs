//! The driver: what the client does with each thing that arrives.
//!
//! The caller owns the connection. It awaits the next element of the header
//! feed or the answer to a blob query, hands it to [`Driver::step`] as an
//! [`Event`], writes out the line it gets back, and carries out the
//! [`Action`]. The driver asks for the blobs of each header's height before it
//! takes the next header, and a failure of either kind costs one line and
//! nothing else.

use vstd::prelude::*;
use crate::namespace::{app_id, app_namespace, v0_bytes, Namespace};
use crate::text::LogLine;

verus! {

/// What the driver is waiting for.
#[derive(Clone, Copy, Debug, PartialEq, Eq, Structural)]
pub enum Phase {
    /// The next element of the header feed.
    AwaitingHeader,
    /// The answer to the blob query at `height`.
    AwaitingBlobs { height: u64 },
    /// Nothing: the feed has ended.
    Finished,
}

/// What arrived.
#[derive(Debug, PartialEq, Eq)]
pub enum Event {
    /// The feed delivered a header; `display` is its printed form.
    Header { height: u64, display: String },
    /// The feed delivered a failure in place of a header.
    HeaderFailed { detail: String },
    /// The node answered the blob query with `count` blobs.
    Blobs { count: usize },
    /// The blob query failed.
    BlobsFailed { detail: String },
    /// The feed has ended.
    StreamEnded,
}

/// What the caller does next.
#[derive(Clone, Copy, Debug, PartialEq, Eq, Structural)]
pub enum Action {
    /// Await the next element of the header feed.
    AwaitHeader,
    /// Ask the node for all blobs of the driver's namespace at `height`.
    QueryBlobs { height: u64 },
    /// Return: there is nothing more to do.
    Stop,
}

/// Why an event was refused.
#[derive(Clone, Copy, Debug, PartialEq, Eq, Structural)]
pub enum DriverError {
    /// The event is not one that the driver's phase waits for.
    UnexpectedEvent,
}

/// The driver's answer to one event.
#[derive(Debug, PartialEq, Eq)]
pub struct Step {
    /// The line to write out, if the event calls for one.
    pub line: Option<LogLine>,
    /// What to do next.
    pub action: Action,
}

/// One move of the driver: the phase it enters, the line it reports and the
/// action it asks for.
pub struct Transition {
    pub phase: Phase,
    pub line: Option<LogLine>,
    pub action: Action,
}

/// The move that `event` causes in `phase`, or `None` where the phase does
/// not wait for such an event.
pub open spec fn spec_step(phase: Phase, event: Event) -> Option<Transition> {
    match (phase, event) {
        (Phase::AwaitingHeader, Event::Header { height, display }) => Some(
            Transition {
                phase: Phase::AwaitingBlobs { height },
                line: Some(LogLine::Header { display }),
                action: Action::QueryBlobs { height },
            },
        ),
        (Phase::AwaitingHeader, Event::HeaderFailed { detail }) => Some(
            Transition {
                phase: Phase::AwaitingHeader,
                line: Some(LogLine::HeaderError { detail }),
                action: Action::AwaitHeader,
            },
        ),
        (Phase::AwaitingHeader, Event::StreamEnded) => Some(
            Transition { phase: Phase::Finished, line: None, action: Action::Stop },
        ),
        (Phase::AwaitingBlobs { height }, Event::Blobs { count }) => Some(
            Transition {
                phase: Phase::AwaitingHeader,
                line: Some(LogLine::BlobsFound { count, height }),
                action: Action::AwaitHeader,
            },
        ),
        (Phase::AwaitingBlobs { height }, Event::BlobsFailed { detail }) => Some(
            Transition {
                phase: Phase::AwaitingHeader,
                line: Some(LogLine::BlobError { detail }),
                action: Action::AwaitHeader,
            },
        ),
        _ => None,
    }
}

/// The state of the header-driven loop.
#[derive(Debug)]
pub struct Driver {
    namespace: Namespace,
    phase: Phase,
}

impl Driver {
    /// What the driver is waiting for.
    pub closed spec fn spec_phase(&self) -> Phase {
        self.phase
    }

    /// The bytes of the namespace that the driver filters by.
    pub closed spec fn spec_namespace(&self) -> Seq<u8> {
        self.namespace@
    }

    /// A driver that filters by the application's namespace and waits for
    /// the first header.
    pub fn new() -> (r: Driver)
        ensures
            r.spec_phase() == Phase::AwaitingHeader,
            r.spec_namespace() == v0_bytes(app_id()),
    {
        Driver { namespace: app_namespace(), phase: Phase::AwaitingHeader }
    }

    /// What the driver is waiting for.
    pub fn phase(&self) -> (r: Phase)
        ensures
            r == self.spec_phase(),
    {
        self.phase
    }

    /// The namespace to name in every blob query.
    pub fn namespace(&self) -> (r: &Namespace)
        ensures
            r@ == self.spec_namespace(),
    {
        &self.namespace
    }

    /// Whether the feed has ended.
    pub fn is_finished(&self) -> (r: bool)
        ensures
            r == (self.spec_phase() == Phase::Finished),
    {
        match self.phase {
            Phase::Finished => true,
            _ => false,
        }
    }

    /// Takes one event. Where the phase waits for it, the driver moves as
    /// [`spec_step`] says and answers with the line and the next action.
    /// Any other event is refused and changes nothing.
    pub fn step(&mut self, event: Event) -> (r: Result<Step, DriverError>)
        ensures
            final(self).spec_namespace() == old(self).spec_namespace(),
            match spec_step(old(self).spec_phase(), event) {
                Some(t) => r is Ok && r->Ok_0.line == t.line && r->Ok_0.action == t.action
                    && final(self).spec_phase() == t.phase,
                None => r == Err::<Step, DriverError>(DriverError::UnexpectedEvent)
                    && final(self).spec_phase() == old(self).spec_phase(),
            },
    {
        match self.phase {
            Phase::AwaitingHeader => match event {
                Event::Header { height, display } => {
                    self.phase = Phase::AwaitingBlobs { height };
                    Ok(
                        Step {
                            line: Some(LogLine::Header { display }),
                            action: Action::QueryBlobs { height },
                        },
                    )
                },
                Event::HeaderFailed { detail } => Ok(
                    Step {
                        line: Some(LogLine::HeaderError { detail }),
                        action: Action::AwaitHeader,
                    },
                ),
                Event::StreamEnded => {
                    self.phase = Phase::Finished;
                    Ok(Step { line: None, action: Action::Stop })
                },
                _ => Err(DriverError::UnexpectedEvent),
            },
            Phase::AwaitingBlobs { height } => match event {
                Event::Blobs { count } => {
                    self.phase = Phase::AwaitingHeader;
                    Ok(
                        Step {
                            line: Some(LogLine::BlobsFound { count, height }),
                            action: Action::AwaitHeader,
                        },
                    )
                },
                Event::BlobsFailed { detail } => {
                    self.phase = Phase::AwaitingHeader;
                    Ok(
                        Step {
                            line: Some(LogLine::BlobError { detail }),
                            action: Action::AwaitHeader,
                        },
                    )
                },
                _ => Err(DriverError::UnexpectedEvent),
            },
            Phase::Finished => Err(DriverError::UnexpectedEvent),
        }
    }
}

} // verus!
