//! Submitting one blob and reading it back.
//!
//! As with the driver, the caller owns the connection: it submits the
//! session's blob, reports the height at which the node included it, fetches
//! the blobs of that height and hands them over to be checked against what
//! was sent.

use vstd::prelude::*;
use crate::blob::{share_commitment, Blob, BlobError};
use crate::namespace::{app_id, app_namespace, v0_bytes, Namespace};
use crate::text::LogLine;

verus! {

/// How a submission is to be paid for and how long it may take. An option
/// left out is chosen by the node.
#[derive(Clone, Copy, Debug, PartialEq, Eq, Structural)]
pub struct SubmitOptions {
    /// A hint for the gas price, in the node's smallest unit of price.
    pub gas_price: Option<u64>,
    /// The time allowed for the submission, in seconds.
    pub timeout_secs: Option<u64>,
}

impl Default for SubmitOptions {
    /// The options that leave every choice to the node.
    fn default() -> (r: SubmitOptions)
        ensures
            r == (SubmitOptions { gas_price: None, timeout_secs: None }),
    {
        SubmitOptions { gas_price: None, timeout_secs: None }
    }
}

/// The payload that the demonstration submits: the bytes of `Hello, World!`.
pub open spec fn hello_payload() -> Seq<u8> {
    seq![72u8, 101u8, 108u8, 108u8, 111u8, 44u8, 32u8, 87u8, 111u8, 114u8, 108u8, 100u8, 33u8]
}

/// The payload that the demonstration submits.
pub fn hello_payload_bytes() -> (r: Vec<u8>)
    ensures
        r@ == hello_payload(),
{
    let r: Vec<u8> = vec![
        72u8, 101u8, 108u8, 108u8, 111u8, 44u8, 32u8, 87u8, 111u8, 114u8, 108u8, 100u8, 33u8,
    ];
    assert(r@ =~= hello_payload());
    r
}

/// Why what was read back does not hold what was submitted.
#[derive(Clone, Copy, Debug, PartialEq, Eq, Structural)]
pub enum RoundTripError {
    /// The node reported no blob at all.
    NothingRetrieved,
    /// None of the blobs read back holds the submitted payload.
    DataMismatch,
    /// The submitted payload came back, but never with the submitted
    /// commitment.
    CommitmentMismatch,
}

/// Two blobs hold the same payload and the same commitment.
pub open spec fn same_content(a: Blob, b: Blob) -> bool {
    a.spec_data() == b.spec_data() && a.spec_commitment() == b.spec_commitment()
}

/// One of the blobs holds the payload and the commitment of `submitted`.
pub open spec fn holds_submitted(submitted: Blob, retrieved: Seq<Blob>) -> bool {
    exists|i: int|
        0 <= i < retrieved.len() && same_content(submitted, #[trigger] retrieved[i])
}

/// One of the blobs holds the payload of `submitted`.
pub open spec fn holds_data(submitted: Blob, retrieved: Seq<Blob>) -> bool {
    exists|i: int|
        0 <= i < retrieved.len() && (#[trigger] retrieved[i]).spec_data()
            == submitted.spec_data()
}

/// The verdict on what was read back. It is accepted exactly where at least
/// one of the blobs holds the payload and the commitment of the blob that
/// was submitted, however many blobs came with it. Where none does, the
/// error says how far the search came: nothing was read back, or the payload
/// did not come back, or it came back under another commitment.
pub open spec fn spec_round_trip(submitted: Blob, retrieved: Seq<Blob>) -> Result<
    (),
    RoundTripError,
> {
    if holds_submitted(submitted, retrieved) {
        Ok(())
    } else if retrieved.len() == 0 {
        Err(RoundTripError::NothingRetrieved)
    } else if !holds_data(submitted, retrieved) {
        Err(RoundTripError::DataMismatch)
    } else {
        Err(RoundTripError::CommitmentMismatch)
    }
}

/// Whether two blobs hold the same payload and the same commitment.
pub fn blobs_match(a: &Blob, b: &Blob) -> (r: bool)
    ensures
        r == same_content(*a, *b),
{
    b.has_data(a.data()) && b.has_commitment(a.commitment())
}

/// Whether one of the blobs read back holds the payload and the commitment
/// of the blob that was submitted.
pub fn contains_submitted(submitted: &Blob, retrieved: &Vec<Blob>) -> (r: bool)
    ensures
        r == holds_submitted(*submitted, retrieved@),
{
    let mut i: usize = 0;
    while i < retrieved.len()
        invariant
            i <= retrieved@.len(),
            forall|j: int| 0 <= j < i ==> !same_content(*submitted, #[trigger] retrieved@[j]),
        decreases retrieved@.len() - i,
    {
        if blobs_match(submitted, &retrieved[i]) {
            return true;
        }
        i += 1;
    }
    false
}

/// Whether one of the blobs read back holds the payload of the blob that
/// was submitted.
pub fn contains_data(submitted: &Blob, retrieved: &Vec<Blob>) -> (r: bool)
    ensures
        r == holds_data(*submitted, retrieved@),
{
    let mut i: usize = 0;
    while i < retrieved.len()
        invariant
            i <= retrieved@.len(),
            forall|j: int|
                0 <= j < i ==> (#[trigger] retrieved@[j]).spec_data() != submitted.spec_data(),
        decreases retrieved@.len() - i,
    {
        if retrieved[i].has_data(submitted.data()) {
            return true;
        }
        i += 1;
    }
    false
}

/// Checks what was read back against what was submitted.
pub fn check_round_trip(submitted: &Blob, retrieved: &Vec<Blob>) -> (r: Result<
    (),
    RoundTripError,
>)
    ensures
        r == spec_round_trip(*submitted, retrieved@),
{
    if contains_submitted(submitted, retrieved) {
        Ok(())
    } else if retrieved.len() == 0 {
        Err(RoundTripError::NothingRetrieved)
    } else if !contains_data(submitted, retrieved) {
        Err(RoundTripError::DataMismatch)
    } else {
        Err(RoundTripError::CommitmentMismatch)
    }
}

/// What was read back is accepted exactly where it holds the submitted
/// blob: at least one of the blobs has its payload and its commitment. How
/// many other blobs the node reported beside it makes no difference.
pub proof fn lemma_round_trip_accepts_a_match(submitted: Blob, retrieved: Seq<Blob>)
    ensures
        spec_round_trip(submitted, retrieved) is Ok <==> holds_submitted(submitted, retrieved),
{
}

/// A round trip that passes the check has brought the submitted blob back.
/// Something was read back, and one of the blobs holds the payload and the
/// commitment that were submitted. Where the submitted blob held the
/// commitment computed from its namespace and payload, that blob holds the
/// commitment that belongs to the payload it came back with.
pub proof fn lemma_checked_round_trip(submitted: Blob, retrieved: Seq<Blob>)
    requires
        spec_round_trip(submitted, retrieved) is Ok,
    ensures
        retrieved.len() > 0,
        holds_submitted(submitted, retrieved),
        exists|i: int|
            0 <= i < retrieved.len() && same_content(submitted, #[trigger] retrieved[i]) && (
            submitted.is_committed() ==> share_commitment(
                submitted.spec_namespace(),
                retrieved[i].spec_data(),
            ) == Some(retrieved[i].spec_commitment())),
{
    let i = choose|i: int|
        0 <= i < retrieved.len() && same_content(submitted, #[trigger] retrieved[i]);
    assert(same_content(submitted, retrieved[i]));
}

/// How far a submission has come.
#[derive(Clone, Copy, Debug, PartialEq, Eq, Structural)]
pub enum SubmitPhase {
    /// The blob is to be submitted; the session waits for the height at
    /// which it was included.
    Submitting,
    /// The blobs at `height` are to be fetched; the session waits for them.
    Retrieving { height: u64 },
    /// The blob came back with the payload and commitment it was sent with.
    Done,
    /// The submission or the read-back failed, or what came back does not
    /// hold what was sent.
    Failed,
}

/// What arrived.
#[derive(Debug, PartialEq, Eq)]
pub enum SubmitEvent {
    /// The node included the blob at `height`.
    Included { height: u64 },
    /// The submission failed.
    SubmitFailed { detail: String },
    /// The node reported these blobs for the session's namespace.
    Retrieved { blobs: Vec<Blob> },
    /// The blobs could not be read back.
    RetrieveFailed { detail: String },
}

/// What the caller does next.
#[derive(Clone, Copy, Debug, PartialEq, Eq, Structural)]
pub enum SubmitAction {
    /// Fetch all blobs of the session's namespace at `height`.
    Retrieve { height: u64 },
    /// Return: the round trip is complete.
    Finish,
}

/// Why a step of the session failed.
#[derive(Debug, PartialEq, Eq)]
pub enum SubmitError {
    /// The event is not one that the session's phase waits for.
    UnexpectedEvent,
    /// The submission failed; nothing is read back.
    SubmitFailed { detail: String },
    /// The blobs at the height of inclusion could not be read back.
    RetrieveFailed { detail: String },
    /// What was read back does not hold what was submitted.
    RoundTrip(RoundTripError),
}

/// The session's answer to one event.
#[derive(Debug, PartialEq, Eq)]
pub struct SubmitStep {
    /// The line to write out, if the event calls for one.
    pub line: Option<LogLine>,
    /// What to do next.
    pub action: SubmitAction,
}

/// One move of a session: the phase it enters, and the line and action it
/// answers with or the error it reports.
pub struct SubmitTransition {
    pub phase: SubmitPhase,
    pub outcome: Result<(Option<LogLine>, SubmitAction), SubmitError>,
}

/// The move that `event` causes in `phase` for a session that submitted
/// `blob`. A failed submission ends the session with nothing read back, and
/// so does a failed read-back: neither is passed over. An event that the
/// phase does not wait for is refused and leaves the phase as it is.
pub open spec fn spec_submit_step(
    blob: Blob,
    phase: SubmitPhase,
    event: SubmitEvent,
) -> SubmitTransition {
    match (phase, event) {
        (SubmitPhase::Submitting, SubmitEvent::Included { height }) => SubmitTransition {
            phase: SubmitPhase::Retrieving { height },
            outcome: Ok((Some(LogLine::Included { height }), SubmitAction::Retrieve { height })),
        },
        (SubmitPhase::Submitting, SubmitEvent::SubmitFailed { detail }) => SubmitTransition {
            phase: SubmitPhase::Failed,
            outcome: Err(SubmitError::SubmitFailed { detail }),
        },
        (SubmitPhase::Retrieving { height }, SubmitEvent::RetrieveFailed { detail }) => {
            SubmitTransition {
                phase: SubmitPhase::Failed,
                outcome: Err(SubmitError::RetrieveFailed { detail }),
            }
        },
        (SubmitPhase::Retrieving { height }, SubmitEvent::Retrieved { blobs }) => {
            match spec_round_trip(blob, blobs@) {
                Ok(_) => SubmitTransition {
                    phase: SubmitPhase::Done,
                    outcome: Ok((None, SubmitAction::Finish)),
                },
                Err(e) => SubmitTransition {
                    phase: SubmitPhase::Failed,
                    outcome: Err(SubmitError::RoundTrip(e)),
                },
            }
        },
        _ => SubmitTransition { phase, outcome: Err(SubmitError::UnexpectedEvent) },
    }
}

/// One submission of one blob, from sending it to reading it back.
#[derive(Debug)]
pub struct SubmitSession {
    blob: Blob,
    phase: SubmitPhase,
}

impl SubmitSession {
    /// The blob that the session submits.
    pub closed spec fn spec_blob(&self) -> Blob {
        self.blob
    }

    /// How far the session has come.
    pub closed spec fn spec_phase(&self) -> SubmitPhase {
        self.phase
    }

    /// A session that is about to submit `blob`.
    pub fn with_blob(blob: Blob) -> (r: SubmitSession)
        ensures
            r.spec_blob() == blob,
            r.spec_phase() == SubmitPhase::Submitting,
    {
        SubmitSession { blob, phase: SubmitPhase::Submitting }
    }

    /// A session that is about to submit `data` under `namespace`. It fails
    /// exactly where the payload is refused, before anything is sent; a
    /// payload whose length fits 32 bits is never refused.
    pub fn new(namespace: Namespace, data: Vec<u8>) -> (r: Result<SubmitSession, BlobError>)
        ensures
            data@.len() <= u32::MAX ==> r is Ok,
            match share_commitment(namespace@, data@) {
                Some(c) => r is Ok && r->Ok_0.spec_phase() == SubmitPhase::Submitting
                    && r->Ok_0.spec_blob().spec_namespace() == namespace@
                    && r->Ok_0.spec_blob().spec_data() == data@
                    && r->Ok_0.spec_blob().spec_commitment() == c,
                None => r == Err::<SubmitSession, BlobError>(BlobError::Rejected),
            },
    {
        match Blob::new(namespace, data) {
            Ok(blob) => Ok(SubmitSession::with_blob(blob)),
            Err(e) => Err(e),
        }
    }

    /// The session of the demonstration: `Hello, World!` under the
    /// application's namespace. It is always made: so short a payload is
    /// never refused.
    pub fn hello() -> (r: Result<SubmitSession, BlobError>)
        ensures
            r is Ok,
            match share_commitment(v0_bytes(app_id()), hello_payload()) {
                Some(c) => r is Ok && r->Ok_0.spec_phase() == SubmitPhase::Submitting
                    && r->Ok_0.spec_blob().spec_namespace() == v0_bytes(app_id())
                    && r->Ok_0.spec_blob().spec_data() == hello_payload()
                    && r->Ok_0.spec_blob().spec_commitment() == c,
                None => r == Err::<SubmitSession, BlobError>(BlobError::Rejected),
            },
    {
        SubmitSession::new(app_namespace(), hello_payload_bytes())
    }

    /// The blob to submit.
    pub fn blob(&self) -> (r: &Blob)
        ensures
            *r == self.spec_blob(),
    {
        &self.blob
    }

    /// The options to submit it with: every choice is left to the node.
    pub fn options(&self) -> (r: SubmitOptions)
        ensures
            r == (SubmitOptions { gas_price: None, timeout_secs: None }),
    {
        SubmitOptions { gas_price: None, timeout_secs: None }
    }

    /// How far the session has come.
    pub fn phase(&self) -> (r: SubmitPhase)
        ensures
            r == self.spec_phase(),
    {
        self.phase
    }

    /// Takes one event and moves as [`spec_submit_step`] says. The blob of
    /// the session never changes.
    pub fn step(&mut self, event: SubmitEvent) -> (r: Result<SubmitStep, SubmitError>)
        ensures
            final(self).spec_blob() == old(self).spec_blob(),
            final(self).spec_phase() == spec_submit_step(
                old(self).spec_blob(),
                old(self).spec_phase(),
                event,
            ).phase,
            match spec_submit_step(old(self).spec_blob(), old(self).spec_phase(), event).outcome {
                Ok((line, action)) => r is Ok && r->Ok_0.line == line && r->Ok_0.action
                    == action,
                Err(e) => r == Err::<SubmitStep, SubmitError>(e),
            },
    {
        match self.phase {
            SubmitPhase::Submitting => match event {
                SubmitEvent::Included { height } => {
                    self.phase = SubmitPhase::Retrieving { height };
                    Ok(
                        SubmitStep {
                            line: Some(LogLine::Included { height }),
                            action: SubmitAction::Retrieve { height },
                        },
                    )
                },
                SubmitEvent::SubmitFailed { detail } => {
                    self.phase = SubmitPhase::Failed;
                    Err(SubmitError::SubmitFailed { detail })
                },
                _ => Err(SubmitError::UnexpectedEvent),
            },
            SubmitPhase::Retrieving { height } => match event {
                SubmitEvent::Retrieved { blobs } => match check_round_trip(&self.blob, &blobs) {
                    Ok(_) => {
                        self.phase = SubmitPhase::Done;
                        Ok(SubmitStep { line: None, action: SubmitAction::Finish })
                    },
                    Err(e) => {
                        self.phase = SubmitPhase::Failed;
                        Err(SubmitError::RoundTrip(e))
                    },
                },
                SubmitEvent::RetrieveFailed { detail } => {
                    self.phase = SubmitPhase::Failed;
                    Err(SubmitError::RetrieveFailed { detail })
                },
                _ => Err(SubmitError::UnexpectedEvent),
            },
            _ => Err(SubmitError::UnexpectedEvent),
        }
    }
}

/// A session that is done or has failed takes no further event: whatever
/// arrives is refused and the phase stays. So nothing is read back after a
/// failed submission, and nothing follows a failed read-back.
pub proof fn lemma_session_ends(blob: Blob, phase: SubmitPhase, event: SubmitEvent)
    requires
        phase == SubmitPhase::Done || phase == SubmitPhase::Failed,
    ensures
        spec_submit_step(blob, phase, event).phase == phase,
        spec_submit_step(blob, phase, event).outcome == Err::<
            (Option<LogLine>, SubmitAction),
            SubmitError,
        >(SubmitError::UnexpectedEvent),
{
}

} // verus!
