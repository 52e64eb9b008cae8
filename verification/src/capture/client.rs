//! The client: what happens to a captured event, step by step.
//!
//! The store, the canonicalizer, the signer, the batch builder and the engine
//! that persists belong to the host. The client decides: it says what is asked
//! of each and what follows from the answer.
//!
//! ```text
//! stored event --capture_event--> Sign --signed--> Batch --batched--> Persist --persisted--> Finished
//! ```
use vstd::prelude::*;

use crate::base64url;
use crate::capture::seal;
use crate::capture::trace;
use crate::capture::trace::{BatchProvenance, CaptureOutcome, CompleteTrace, InboundEvent, TraceView};
use crate::json::{Json, JsonView};
use crate::text;

verus! {

/// Why a sealed trace could not be signed.
#[derive(Debug)]
pub enum SealSignError {
    /// The envelope could not be made canonical.
    Canonicalize(String),
    /// The signer refused or failed.
    HardwareSign(String),
    /// A signer that holds its own key failed; the text is its own.
    LocalSigner(String),
}

/// Why a signed trace could not be put into a batch. How the first two read is
/// lens-core's own wording; any other error keeps the builder's text.
#[derive(Debug)]
pub enum BatchBuildError {
    EmptyBatch,
    UnsignedTrace,
    Other(String),
}

/// Why an event could not be captured.
#[derive(Debug)]
pub enum ClientError {
    Seal(SealSignError),
    Batch(BatchBuildError),
    /// The engine did not take the batch; the text is its own.
    Persist(String),
}

/// What is said of a failed signature.
pub open spec fn seal_sign_error_text(error: SealSignError) -> Seq<char> {
    match error {
        SealSignError::Canonicalize(cause) => "canonicalize: "@ + cause@,
        SealSignError::HardwareSign(cause) => "hardware sign: "@ + cause@,
        SealSignError::LocalSigner(cause) => cause@,
    }
}

/// What is said of a failed batch.
pub open spec fn batch_build_error_text(error: BatchBuildError) -> Seq<char> {
    match error {
        BatchBuildError::EmptyBatch => "empty batch"@,
        BatchBuildError::UnsignedTrace => "unsigned trace"@,
        BatchBuildError::Other(cause) => cause@,
    }
}

/// What is said of a failed capture.
pub open spec fn client_error_text(error: ClientError) -> Seq<char> {
    match error {
        ClientError::Seal(cause) => "seal: "@ + seal_sign_error_text(cause),
        ClientError::Batch(cause) => "batch: "@ + batch_build_error_text(cause),
        ClientError::Persist(cause) => "persist: "@ + cause@,
    }
}

impl SealSignError {
    pub fn message(&self) -> (res: String)
        ensures
            res@ == seal_sign_error_text(*self),
    {
        match self {
            SealSignError::Canonicalize(cause) => text::join("canonicalize: ", cause.as_str()),
            SealSignError::HardwareSign(cause) => text::join("hardware sign: ", cause.as_str()),
            SealSignError::LocalSigner(cause) => cause.clone(),
        }
    }
}

impl BatchBuildError {
    pub fn message(&self) -> (res: String)
        ensures
            res@ == batch_build_error_text(*self),
    {
        match self {
            BatchBuildError::EmptyBatch => "empty batch".to_owned(),
            BatchBuildError::UnsignedTrace => "unsigned trace".to_owned(),
            BatchBuildError::Other(cause) => cause.clone(),
        }
    }
}

impl ClientError {
    pub fn message(&self) -> (res: String)
        ensures
            res@ == client_error_text(*self),
    {
        match self {
            ClientError::Seal(cause) => text::join("seal: ", cause.message().as_str()),
            ClientError::Batch(cause) => text::join("batch: ", cause.message().as_str()),
            ClientError::Persist(cause) => text::join("persist: ", cause.as_str()),
        }
    }
}

/// What the engine says of a batch that it took.
#[derive(Debug, Clone, Copy, PartialEq, Eq, Structural)]
pub struct SealSummary {
    /// How many event rows were written.
    pub trace_events_inserted: usize,
    /// How many traces verified under their signature.
    pub signatures_verified: usize,
}

/// What became of a captured event.
#[derive(Debug)]
pub enum CaptureEventOutcome {
    /// The first event of its thought: a trace was opened.
    Opened,
    /// A component was added to a trace in flight.
    Appended,
    /// The event's type is not known; the text is as it came.
    Rejected { raw: String },
    /// The owner has not consented to capture.
    ConsentBlocked { reason: String },
    /// The event ended its trace, which was signed and persisted.
    SealedAndPersisted { trace_id: String, summary: SealSummary },
}

/// A sealed trace that waits for a signature over `message`.
#[derive(Debug)]
pub struct PendingSignature {
    pub trace: CompleteTrace,
    pub message: Vec<u8>,
}

/// A signed trace that waits for the batch builder to wrap it, with what is said
/// once of the batch.
#[derive(Debug)]
pub struct PendingBatch<'a> {
    pub trace: CompleteTrace,
    pub provenance: &'a BatchProvenance,
}

/// A batch that waits for the engine to take it, through a scrubber.
#[derive(Debug)]
pub struct PendingPersist<'a, S> {
    pub trace_id: String,
    pub batch: Vec<u8>,
    pub scrubber: &'a S,
}

/// What is to be done next for an event.
#[derive(Debug)]
pub enum CaptureStep<'a, S> {
    /// Nothing: the event is captured.
    Finished(CaptureEventOutcome),
    /// Nothing: the event is lost.
    Failed(ClientError),
    /// The signer is to sign.
    Sign(PendingSignature),
    /// The batch builder is to wrap the signed trace.
    Batch(PendingBatch<'a>),
    /// The engine is to take the batch.
    Persist(PendingPersist<'a, S>),
}

/// A trace with the operator's profile and the batch's level where it has none
/// of its own.
pub open spec fn stamped(
    trace: TraceView,
    trace_level: Seq<char>,
    profile: Option<JsonView>,
) -> TraceView {
    TraceView {
        deployment_profile: if trace.deployment_profile is None {
            profile
        } else {
            trace.deployment_profile
        },
        trace_level: if trace.trace_level is None {
            Some(trace_level)
        } else {
            trace.trace_level
        },
        ..trace
    }
}

/// Fills in what a sealed trace lacks before it is signed.
pub fn stamp_trace(
    trace: &mut CompleteTrace,
    provenance: &BatchProvenance,
    deployment_profile: &Option<Json>,
)
    ensures
        final(trace)@ == stamped(
            old(trace)@,
            provenance.trace_level@,
            trace::opt_json(*deployment_profile),
        ),
{
    if trace.deployment_profile.is_none() {
        trace.deployment_profile = match deployment_profile {
            Some(profile) => Some(profile.clone()),
            None => None,
        };
    }
    if trace.trace_level.is_none() {
        trace.trace_level = Some(provenance.trace_level.clone());
    }
}

/// Whether an error says why a document could not be made canonical.
pub open spec fn is_canonicalize_error<C: Fn(&Json) -> Result<Vec<u8>, String>>(
    canonicalize: C,
    document: JsonView,
    error: SealSignError,
) -> bool {
    error matches SealSignError::Canonicalize(message) && exists|cause: String| #[trigger]
        seal::may_answer(canonicalize, document, Err(cause)) && message@
            == "canonicalize trace: "@ + cause@
}

/// Begins to sign a sealed trace: the signer is to sign the canonical bytes of
/// this trace, and [`PendingSignature::signed`] takes its answer. Where there are
/// no canonical bytes the trace comes back as it is.
pub fn sign_trace_via_hardware_signer<C: Fn(&Json) -> Result<Vec<u8>, String>>(
    trace: CompleteTrace,
    canonicalize: C,
) -> (res: Result<PendingSignature, (CompleteTrace, SealSignError)>)
    requires
        forall|document: &Json| #[trigger] call_requires(canonicalize, (document,)),
    ensures
        match res {
            Ok(pending) => pending.trace == trace && pending.over(canonicalize),
            Err((back, error)) => back == trace && is_canonicalize_error(
                canonicalize,
                seal::envelope(trace@),
                error,
            ),
        },
{
    match seal::canonical_bytes(&trace, canonicalize) {
        Ok(message) => Ok(PendingSignature { trace, message }),
        Err(message) => Err((trace, SealSignError::Canonicalize(message))),
    }
}

impl PendingSignature {
    /// Whether the message is what the canonicalizer may make of the trace.
    pub open spec fn over<C: Fn(&Json) -> Result<Vec<u8>, String>>(&self, canonicalize: C) -> bool {
        seal::may_answer(canonicalize, seal::envelope(self.trace@), Ok(self.message))
    }

    /// Puts the signer's answer to the message onto the trace. Where the signer
    /// failed the trace comes back as it is.
    pub fn signed(self, answer: Result<Vec<u8>, String>, key_id: &str) -> (res: (
        CompleteTrace,
        Result<(), SealSignError>,
    ))
        requires
            answer matches Ok(sig_bytes) ==> base64url::base64url_len(sig_bytes@.len())
                <= isize::MAX,
        ensures
            match answer {
                Ok(sig_bytes) => res.1 is Ok && res.0@ == seal::signed(
                    self.trace@,
                    sig_bytes@,
                    key_id@,
                ),
                Err(cause) => res.1 == Err::<(), SealSignError>(SealSignError::HardwareSign(cause))
                    && res.0 == self.trace,
            },
    {
        match answer {
            Ok(sig_bytes) => {
                let mut trace = self.trace;
                seal::apply_signature(&mut trace, sig_bytes.as_slice(), key_id);
                (trace, Ok(()))
            },
            Err(cause) => (self.trace, Err(SealSignError::HardwareSign(cause))),
        }
    }
}

/// The identifier of the trace that an event opens: that of its thought.
pub fn trace_id_for_new(event: &InboundEvent) -> (res: String)
    ensures
        res@ == event.thought_id@,
{
    event.thought_id.clone()
}

/// What a client stamps onto the traces that it seals, what is said once of each
/// batch, and the scrubber that the host chose for what leaves.
#[derive(Debug)]
pub struct CaptureClient<S> {
    pub scrubber: S,
    pub provenance: BatchProvenance,
    pub deployment_profile: Option<Json>,
}

impl<S> CaptureClient<S> {
    pub fn new(
        scrubber: S,
        provenance: BatchProvenance,
        deployment_profile: Option<Json>,
    ) -> (res: CaptureClient<S>)
        ensures
            res.scrubber == scrubber,
            res.provenance == provenance,
            res.deployment_profile == deployment_profile,
    {
        CaptureClient { scrubber, provenance, deployment_profile }
    }

    /// A trace as this client stamps it.
    pub open spec fn stamps(&self, trace: TraceView) -> TraceView {
        stamped(trace, self.provenance.trace_level@, trace::opt_json(self.deployment_profile))
    }

    /// What the store is asked in order to sweep traces that never ended: the
    /// time that the caller says it is, and the greatest age of a trace in flight
    /// in the signed seconds that the store counts in.
    pub fn orphan_sweep<N>(&self, now: N, max_age_secs: u64) -> (res: (N, i64))
        ensures
            res.0 == now,
            res.1 == if max_age_secs <= i64::MAX {
                max_age_secs as int
            } else {
                i64::MAX as int
            },
    {
        let max_age: i64 = if max_age_secs <= i64::MAX as u64 {
            max_age_secs as i64
        } else {
            i64::MAX
        };
        (now, max_age)
    }

    /// Whether what follows is right when the store has taken an event.
    pub open spec fn follows_stored<C: Fn(&Json) -> Result<Vec<u8>, String>>(
        &self,
        stored: CaptureOutcome,
        canonicalize: C,
        step: CaptureStep<'_, S>,
    ) -> bool {
        match stored {
            CaptureOutcome::Opened => step == CaptureStep::<S>::Finished(
                CaptureEventOutcome::Opened,
            ),
            CaptureOutcome::Appended => step == CaptureStep::<S>::Finished(
                CaptureEventOutcome::Appended,
            ),
            CaptureOutcome::UnknownEvent { raw } => step == CaptureStep::<S>::Finished(
                CaptureEventOutcome::Rejected { raw },
            ),
            CaptureOutcome::Sealed(trace) => match step {
                CaptureStep::Sign(pending) => pending.trace@ == self.stamps(trace@)
                    && pending.over(canonicalize),
                CaptureStep::Failed(ClientError::Seal(error)) => is_canonicalize_error(
                    canonicalize,
                    seal::envelope(self.stamps(trace@)),
                    error,
                ),
                _ => false,
            },
        }
    }

    /// Whether what follows is right when the signer has answered: the builder is
    /// handed the signed trace and this client's provenance.
    pub open spec fn follows_signed(
        &self,
        pending: PendingSignature,
        answer: Result<Vec<u8>, String>,
        key_id: Seq<char>,
        step: CaptureStep<'_, S>,
    ) -> bool {
        match answer {
            Ok(sig_bytes) => step matches CaptureStep::Batch(to_batch) && to_batch.trace@
                == seal::signed(pending.trace@, sig_bytes@, key_id) && *to_batch.provenance
                == self.provenance,
            Err(cause) => step == CaptureStep::<S>::Failed(
                ClientError::Seal(SealSignError::HardwareSign(cause)),
            ),
        }
    }

    /// Whether what follows is right when the batch builder has answered: the
    /// engine is handed the builder's bytes and this client's scrubber.
    pub open spec fn follows_batched(
        &self,
        to_batch: PendingBatch<'_>,
        answer: Result<Vec<u8>, BatchBuildError>,
        step: CaptureStep<'_, S>,
    ) -> bool {
        match answer {
            Ok(batch) => step matches CaptureStep::Persist(to_persist) && to_persist.trace_id
                == to_batch.trace.trace_id && to_persist.batch == batch && *to_persist.scrubber
                == self.scrubber,
            Err(cause) => step == CaptureStep::<S>::Failed(ClientError::Batch(cause)),
        }
    }

    /// Whether what follows is right when the engine has answered.
    pub open spec fn follows_persisted(
        &self,
        to_persist: PendingPersist<'_, S>,
        answer: Result<SealSummary, String>,
        step: CaptureStep<'_, S>,
    ) -> bool {
        match answer {
            Ok(summary) => step == CaptureStep::<S>::Finished(
                CaptureEventOutcome::SealedAndPersisted { trace_id: to_persist.trace_id, summary },
            ),
            Err(cause) => step == CaptureStep::<S>::Failed(ClientError::Persist(cause)),
        }
    }

    /// What follows when the store has taken an event. A trace that the event
    /// ended is stamped and made canonical, and waits for its signature over
    /// those bytes; anything else is an outcome of its own.
    pub fn capture_event<C: Fn(&Json) -> Result<Vec<u8>, String>>(
        &self,
        stored: CaptureOutcome,
        canonicalize: C,
    ) -> (res: CaptureStep<'_, S>)
        requires
            forall|document: &Json| #[trigger] call_requires(canonicalize, (document,)),
        ensures
            self.follows_stored(stored, canonicalize, res),
    {
        let mut trace = match stored {
            CaptureOutcome::Opened => {
                return CaptureStep::Finished(CaptureEventOutcome::Opened);
            },
            CaptureOutcome::Appended => {
                return CaptureStep::Finished(CaptureEventOutcome::Appended);
            },
            CaptureOutcome::UnknownEvent { raw } => {
                return CaptureStep::Finished(CaptureEventOutcome::Rejected { raw });
            },
            CaptureOutcome::Sealed(trace) => trace,
        };
        stamp_trace(&mut trace, &self.provenance, &self.deployment_profile);
        match sign_trace_via_hardware_signer(trace, canonicalize) {
            Ok(pending) => CaptureStep::Sign(pending),
            Err((_, error)) => CaptureStep::Failed(ClientError::Seal(error)),
        }
    }

    /// What follows when the signer has answered.
    pub fn signed(
        &self,
        pending: PendingSignature,
        answer: Result<Vec<u8>, String>,
        key_id: &str,
    ) -> (res: CaptureStep<'_, S>)
        requires
            answer matches Ok(sig_bytes) ==> base64url::base64url_len(sig_bytes@.len())
                <= isize::MAX,
        ensures
            self.follows_signed(pending, answer, key_id@, res),
    {
        let (trace, signed) = pending.signed(answer, key_id);
        match signed {
            Ok(_) => CaptureStep::Batch(PendingBatch { trace, provenance: &self.provenance }),
            Err(error) => CaptureStep::Failed(ClientError::Seal(error)),
        }
    }

    /// What follows when the batch builder has answered.
    pub fn batched(
        &self,
        to_batch: PendingBatch<'_>,
        answer: Result<Vec<u8>, BatchBuildError>,
    ) -> (res: CaptureStep<'_, S>)
        ensures
            self.follows_batched(to_batch, answer, res),
    {
        match answer {
            Ok(batch) => CaptureStep::Persist(
                PendingPersist {
                    trace_id: to_batch.trace.trace_id,
                    batch,
                    scrubber: &self.scrubber,
                },
            ),
            Err(cause) => CaptureStep::Failed(ClientError::Batch(cause)),
        }
    }

    /// What follows when the engine has answered.
    pub fn persisted(
        &self,
        to_persist: PendingPersist<'_, S>,
        answer: Result<SealSummary, String>,
    ) -> (res: CaptureStep<'_, S>)
        ensures
            self.follows_persisted(to_persist, answer, res),
    {
        match answer {
            Ok(summary) => CaptureStep::Finished(
                CaptureEventOutcome::SealedAndPersisted { trace_id: to_persist.trace_id, summary },
            ),
            Err(cause) => CaptureStep::Failed(ClientError::Persist(cause)),
        }
    }
}

} // verus!
