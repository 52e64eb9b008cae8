//! A batch of traces for the host: each is read, scored, signed by the host's
//! engine and put, and one that fails does not keep the others back.
use vstd::prelude::*;

use crate::codec;
use crate::detector::{DeclaredCohortAxes, Features};
use crate::ffi::engine;
use crate::ffi::engine::EngineAnswer;
use crate::ffi::value;
use crate::ffi::value::{HostDict, HostError, HostValue, HostView};
use crate::json::Json;
use crate::pipeline::lifecycle;
use crate::pipeline::lifecycle::{DetectionInputs, LensCore};
use crate::scoring::result::Severity;
use crate::text;
use crate::wire::signer;

verus! {

/// How many samples a cohort needs for a number.
pub const SAMPLE_SIZE_GATE: u32 = 500;

/// The calibration that is stamped where none is applied.
pub const NO_CALIBRATION: i32 = 0;

/// A severity on the wire.
pub open spec fn severity_text(severity: Severity) -> Seq<char> {
    match severity {
        Severity::Info => "info"@,
        Severity::Warning => "warning"@,
        Severity::Critical => "critical"@,
    }
}

/// A severity on the wire.
pub fn severity_str(severity: Severity) -> (res: &'static str)
    ensures
        res@ == severity_text(severity),
{
    match severity {
        Severity::Info => "info",
        Severity::Warning => "warning",
        Severity::Critical => "critical",
    }
}

/// Whether what is to be signed of a trace is what the host reads from its body
/// and its text.
pub open spec fn opened<
    H: Fn(&str) -> Vec<u8>,
    D: Fn(&Json) -> DeclaredCohortAxes,
    F: Fn(&Json, &DeclaredCohortAxes) -> Features,
    C: Fn(&DeclaredCohortAxes) -> Json,
>(
    event_json: Seq<char>,
    hash: H,
    declare: D,
    extract: F,
    cell: C,
    res: Result<DetectionInputs, HostError>,
) -> bool {
    match codec::parsed_json(event_json) {
        Err(cause) => res matches Err(error) && value::is_value_error(
            error,
            "invalid trace JSON: "@ + cause,
        ),
        Ok(body) => match lifecycle::trace_id_of(body) {
            None => res matches Err(error) && value::is_value_error(error, "missing trace_id"@),
            Some(id) => match codec::raw_json(event_json) {
                Err(cause) => res matches Err(error) && value::is_value_error(
                    error,
                    "invalid trace RawValue: "@ + cause,
                ),
                Ok(raw) => {
                    &&& res is Ok
                    &&& exists|asked: &str| #[trigger]
                        call_ensures(hash, (asked,), res->Ok_0.body_sha256) && asked@ == raw
                    &&& lifecycle::cold_start(
                        res->Ok_0,
                        id,
                        res->Ok_0.body_sha256,
                        NO_CALIBRATION,
                    )
                    &&& exists|features: Features| #[trigger]
                        lifecycle::may_read(
                            declare,
                            extract,
                            cell,
                            body,
                            features,
                            res->Ok_0.cohort_cell,
                        )
                },
            },
        },
    }
}

/// Reads and scores one trace: what is to be signed of it.
pub fn process_one<
    H: Fn(&str) -> Vec<u8>,
    D: Fn(&Json) -> DeclaredCohortAxes,
    F: Fn(&Json, &DeclaredCohortAxes) -> Features,
    C: Fn(&DeclaredCohortAxes) -> Json,
>(event_json: &str, hash: H, declare: D, extract: F, cell: C) -> (res: Result<
    DetectionInputs,
    HostError,
>)
    requires
        forall|raw: &str| #[trigger] call_requires(hash, (raw,)),
        forall|asked: &Json| #[trigger] call_requires(declare, (asked,)),
        forall|asked: &Json, declared: &DeclaredCohortAxes| #[trigger]
            call_requires(extract, (asked, declared)),
        forall|declared: &DeclaredCohortAxes| #[trigger] call_requires(cell, (declared,)),
    ensures
        opened(event_json@, hash, declare, extract, cell, res),
{
    let body = match codec::parse(event_json) {
        Ok(body) => body,
        Err(cause) => {
            return Err(HostError::value("invalid trace JSON: ", cause.as_str()));
        },
    };
    if lifecycle::read_trace_id(&body).is_none() {
        return Err(HostError::Value("missing trace_id".to_owned()));
    }
    let raw = match codec::parse_raw(event_json) {
        Ok(raw) => raw,
        Err(cause) => {
            return Err(HostError::value("invalid trace RawValue: ", cause.as_str()));
        },
    };
    let body_sha256 = hash(raw.as_str());
    match LensCore::new().prepare(
        &body,
        body_sha256,
        SAMPLE_SIZE_GATE,
        NO_CALIBRATION,
        declare,
        extract,
        cell,
    ) {
        Ok(pending) => {
            proof {
                assert(lifecycle::may_read(
                    declare,
                    extract,
                    cell,
                    body@,
                    pending.features,
                    pending.inputs.cohort_cell,
                ));
            }
            Ok(pending.inputs)
        },
        Err(error) => Err(HostError::Value(error.message())),
    }
}

/// A trace whose detection has canonical bytes, that wait for the engine's
/// Ed25519 signature.
#[derive(Debug)]
pub struct PreparedTrace {
    pub inputs: DetectionInputs,
    pub canonical_bytes: Vec<u8>,
}

/// A trace with its first signature, that waits for the engine's ML-DSA-65
/// signature over `bound_msg`.
#[derive(Debug)]
pub struct HalfSignedTrace {
    pub inputs: DetectionInputs,
    pub canonical_bytes: Vec<u8>,
    pub ed25519_sig: Vec<u8>,
    pub bound_msg: Vec<u8>,
}

/// A trace with both signatures, from which the event is to be assembled.
#[derive(Debug)]
pub struct SignedTrace {
    pub inputs: DetectionInputs,
    pub ed25519_sig: Vec<u8>,
    pub ml_dsa_65_sig: Vec<u8>,
}

/// A trace whose event is assembled under an identifier, and is to be written
/// out.
#[derive(Debug)]
pub struct AssembledTrace {
    pub inputs: DetectionInputs,
    pub detection_id: String,
}

/// A trace whose event waits for the engine to put it.
#[derive(Debug)]
pub struct WrittenTrace {
    pub inputs: DetectionInputs,
    pub detection_id: String,
    pub event_json: String,
}

/// What the host gets of a trace.
#[derive(Debug)]
pub struct PerTraceSummary {
    pub detection_id: String,
    pub trace_id: String,
    pub severity: &'static str,
}

/// What follows when the detection was made canonical.
pub fn trace_prepared(inputs: DetectionInputs, answer: Result<Vec<u8>, String>) -> (res: Result<
    PreparedTrace,
    HostError,
>)
    ensures
        match answer {
            Ok(canonical_bytes) => res == Ok::<PreparedTrace, HostError>(
                (PreparedTrace { inputs, canonical_bytes }),
            ),
            Err(cause) => res matches Err(error) && value::is_runtime_error(
                error,
                "prepare: "@ + cause@,
            ),
        },
{
    match answer {
        Ok(canonical_bytes) => Ok(PreparedTrace { inputs, canonical_bytes }),
        Err(cause) => Err(HostError::runtime("prepare: ", cause.as_str())),
    }
}

/// What follows when the engine has signed: the second signature is over the
/// canonical bytes followed by the first one.
pub fn trace_signed(prepared: PreparedTrace, answer: EngineAnswer<Vec<u8>>) -> (res: Result<
    HalfSignedTrace,
    HostError,
>)
    ensures
        exists|sig: Result<Vec<u8>, HostError>| #[trigger]
            engine::engine_result("engine.local_sign: "@, answer, sig) && match sig {
                Ok(ed25519_sig) => {
                    &&& res is Ok
                    &&& res->Ok_0.inputs == prepared.inputs
                    &&& res->Ok_0.canonical_bytes == prepared.canonical_bytes
                    &&& res->Ok_0.ed25519_sig == ed25519_sig
                    &&& res->Ok_0.bound_msg@ == prepared.canonical_bytes@ + ed25519_sig@
                },
                Err(error) => res == Err::<HalfSignedTrace, HostError>(error),
            },
{
    match engine::engine_given("engine.local_sign: ", answer) {
        Ok(ed25519_sig) => {
            let bound_msg = signer::bound_message(
                prepared.canonical_bytes.as_slice(),
                ed25519_sig.as_slice(),
            );
            Ok(
                HalfSignedTrace {
                    inputs: prepared.inputs,
                    canonical_bytes: prepared.canonical_bytes,
                    ed25519_sig,
                    bound_msg,
                },
            )
        },
        Err(error) => Err(error),
    }
}

/// What follows when the engine has signed a second time.
pub fn trace_pqc_signed(half: HalfSignedTrace, answer: EngineAnswer<Vec<u8>>) -> (res: Result<
    SignedTrace,
    HostError,
>)
    ensures
        exists|sig: Result<Vec<u8>, HostError>| #[trigger]
            engine::engine_result("engine.local_pqc_sign: "@, answer, sig) && match sig {
                Ok(ml_dsa_65_sig) => res == Ok::<SignedTrace, HostError>(
                    (SignedTrace {
                        inputs: half.inputs,
                        ed25519_sig: half.ed25519_sig,
                        ml_dsa_65_sig,
                    }),
                ),
                Err(error) => res == Err::<SignedTrace, HostError>(error),
            },
{
    match engine::engine_given("engine.local_pqc_sign: ", answer) {
        Ok(ml_dsa_65_sig) => Ok(
            SignedTrace { inputs: half.inputs, ed25519_sig: half.ed25519_sig, ml_dsa_65_sig },
        ),
        Err(error) => Err(error),
    }
}

/// What follows when the event was assembled under an identifier.
pub fn trace_assembled(signed: SignedTrace, answer: Result<String, String>) -> (res: Result<
    AssembledTrace,
    HostError,
>)
    ensures
        match answer {
            Ok(detection_id) => res == Ok::<AssembledTrace, HostError>(
                (AssembledTrace { inputs: signed.inputs, detection_id }),
            ),
            Err(cause) => res matches Err(error) && value::is_runtime_error(
                error,
                "assemble: "@ + cause@,
            ),
        },
{
    match answer {
        Ok(detection_id) => Ok(AssembledTrace { inputs: signed.inputs, detection_id }),
        Err(cause) => Err(HostError::runtime("assemble: ", cause.as_str())),
    }
}

/// What follows when the event was written out.
pub fn trace_written(assembled: AssembledTrace, answer: Result<String, String>) -> (res: Result<
    WrittenTrace,
    HostError,
>)
    ensures
        match answer {
            Ok(event_json) => res == Ok::<WrittenTrace, HostError>(
                (WrittenTrace {
                    inputs: assembled.inputs,
                    detection_id: assembled.detection_id,
                    event_json,
                }),
            ),
            Err(cause) => res matches Err(error) && value::is_runtime_error(
                error,
                "serialize event: "@ + cause@,
            ),
        },
{
    match answer {
        Ok(event_json) => Ok(
            WrittenTrace {
                inputs: assembled.inputs,
                detection_id: assembled.detection_id,
                event_json,
            },
        ),
        Err(cause) => Err(HostError::runtime("serialize event: ", cause.as_str())),
    }
}

/// What the host gets of a trace when the engine has put its event.
pub fn trace_put(written: WrittenTrace, answer: Result<(), String>) -> (res: Result<
    PerTraceSummary,
    HostError,
>)
    ensures
        match answer {
            Ok(_) => res is Ok && res->Ok_0.detection_id == written.detection_id
                && res->Ok_0.trace_id == written.inputs.trace_id && res->Ok_0.severity@
                == severity_text(written.inputs.severity),
            Err(cause) => res matches Err(error) && value::is_runtime_error(
                error,
                "engine.put_detection_event: "@ + cause@,
            ),
        },
{
    match answer {
        Ok(_) => Ok(
            PerTraceSummary {
                detection_id: written.detection_id,
                trace_id: written.inputs.trace_id,
                severity: severity_str(written.inputs.severity),
            },
        ),
        Err(cause) => Err(HostError::runtime("engine.put_detection_event: ", cause.as_str())),
    }
}

/// What the host gets of a trace, as it says it.
pub struct SummaryView {
    pub detection_id: Seq<char>,
    pub trace_id: Seq<char>,
    pub severity: Seq<char>,
}

impl View for PerTraceSummary {
    type V = SummaryView;

    open spec fn view(&self) -> SummaryView {
        SummaryView {
            detection_id: self.detection_id@,
            trace_id: self.trace_id@,
            severity: self.severity@,
        }
    }
}

/// How far a batch has come.
pub struct BatchView {
    pub batch_id: Seq<char>,
    /// The name of the key that every trace is signed under.
    pub signing_key_id: Seq<char>,
    /// How many traces the host handed over.
    pub received: nat,
    /// How many of them are through.
    pub seen: nat,
    /// What came of those that did not fail, in order.
    pub detections: Seq<SummaryView>,
}

/// A batch when one more trace is through: with its summary, or without one
/// where it failed.
pub open spec fn recorded(batch: BatchView, summary: Option<SummaryView>) -> BatchView {
    BatchView {
        seen: batch.seen + 1,
        detections: match summary {
            Some(summary) => batch.detections.push(summary),
            None => batch.detections,
        },
        ..batch
    }
}

/// A batch when some more traces are through.
pub open spec fn recorded_all(batch: BatchView, summaries: Seq<Option<SummaryView>>) -> BatchView
    decreases summaries.len(),
{
    if summaries.len() == 0 {
        batch
    } else {
        recorded(recorded_all(batch, summaries.drop_last()), summaries.last())
    }
}

/// What is said of a trace that failed.
pub open spec fn skip_text(index: nat, error: HostError) -> Seq<char> {
    "ciris_lens_core.process_trace_batch: trace "@ + text::decimal_text(index) + " skipped: "@
        + value::host_error_text(error)
}

/// What the host gets of one trace in the batch.
pub open spec fn summary_entry(summary: SummaryView) -> HostView {
    HostView::Dict(
        seq![
            ("detection_id"@, HostView::Text(summary.detection_id)),
            ("trace_id"@, HostView::Text(summary.trace_id)),
            ("severity"@, HostView::Text(summary.severity)),
        ],
    )
}

/// What the host gets of some traces, in order.
pub open spec fn summary_entries(summaries: Seq<SummaryView>) -> Seq<HostView> {
    summaries.map_values(|summary: SummaryView| summary_entry(summary))
}

/// What the host gets of a batch.
pub open spec fn batch_entries(batch: BatchView) -> Seq<(Seq<char>, HostView)> {
    seq![
        ("batch_id"@, HostView::Text(batch.batch_id)),
        ("traces_received"@, HostView::Count(batch.received)),
        ("traces_processed"@, HostView::Count(batch.detections.len())),
        ("detections"@, HostView::List(summary_entries(batch.detections))),
    ]
}

/// Whether a character is a hexadecimal digit in lower case.
pub open spec fn is_hex_digit(c: char) -> bool {
    ('0' <= c && c <= '9') || ('a' <= c && c <= 'f')
}

/// Whether a text is a random UUID (RFC 9562, version 4) with hyphens, in lower
/// case.
pub open spec fn is_random_uuid(text: Seq<char>) -> bool {
    &&& text.len() == 36
    &&& text[8] == '-' && text[13] == '-' && text[18] == '-' && text[23] == '-'
    &&& text[14] == '4'
    &&& text[19] == '8' || text[19] == '9' || text[19] == 'a' || text[19] == 'b'
    &&& forall|i: int|
        0 <= i < 36 && i != 8 && i != 13 && i != 18 && i != 23 ==> is_hex_digit(#[trigger] text[i])
}

/// `uuid::Uuid::new_v4`, as a text. Which UUID it is rests on chance: all that
/// holds of it is its form. Without a source of random bytes in the system the
/// call panics.
#[verifier::external_body]
fn random_uuid() -> (res: String)
    ensures
        is_random_uuid(res@),
{
    uuid::Uuid::new_v4().to_string()
}

/// What the host says of a batch besides its traces. Nothing that is done with
/// the batch depends on it.
#[derive(Debug)]
pub struct BatchArguments {
    pub batch_timestamp: String,
    pub consent_timestamp: Option<String>,
    pub trace_level: String,
    pub correlation_metadata: Option<String>,
}

/// Whether a batch is opened as it should be: under a random identifier and the
/// name of the engine's key, with no trace through yet, or not at all where the
/// engine does not name its key.
pub open spec fn batch_opened(
    received: usize,
    arguments: BatchArguments,
    key: EngineAnswer<String>,
    res: Result<TraceBatch, HostError>,
) -> bool {
    exists|named: Result<String, HostError>| #[trigger]
        engine::engine_result("engine.local_key_id(): "@, key, named) && match named {
            Ok(signing_key_id) => {
                &&& res is Ok
                &&& is_random_uuid(res->Ok_0@.batch_id)
                &&& res->Ok_0@.signing_key_id == signing_key_id@
                &&& res->Ok_0@.received == received
                &&& res->Ok_0@.seen == 0
                &&& res->Ok_0@.detections == Seq::<SummaryView>::empty()
            },
            Err(error) => res == Err::<TraceBatch, HostError>(error),
        }
}

/// Opens a batch, from the engine's answer to the question for its key's name.
/// The engine is asked once, before any trace: without an answer there is no
/// batch.
pub fn process_trace_batch(
    received: usize,
    arguments: BatchArguments,
    key: EngineAnswer<String>,
) -> (res: Result<TraceBatch, HostError>)
    ensures
        batch_opened(received, arguments, key, res),
{
    let batch_id = random_uuid();
    match engine::local_key_id(key) {
        Ok(signing_key_id) => Ok(TraceBatch::new(batch_id, signing_key_id, received)),
        Err(error) => Err(error),
    }
}

/// A batch on its way.
#[derive(Debug)]
pub struct TraceBatch {
    batch_id: String,
    signing_key_id: String,
    received: usize,
    seen: usize,
    detections: Vec<PerTraceSummary>,
}

impl View for TraceBatch {
    type V = BatchView;

    closed spec fn view(&self) -> BatchView {
        BatchView {
            batch_id: self.batch_id@,
            signing_key_id: self.signing_key_id@,
            received: self.received as nat,
            seen: self.seen as nat,
            detections: self.detections@.map_values(|summary: PerTraceSummary| summary@),
        }
    }
}

/// One trace for the host.
fn summary_dict(summary: &PerTraceSummary) -> (res: HostDict)
    ensures
        HostView::Dict(res@) == summary_entry(summary@),
{
    let mut entry = HostDict::new();
    entry.put_text("detection_id", summary.detection_id.as_str());
    entry.put_text("trace_id", summary.trace_id.as_str());
    entry.put_text("severity", summary.severity);
    proof {
        assert(HostView::Dict(entry@)->Dict_0 =~= summary_entry(summary@)->Dict_0);
    }
    entry
}

impl TraceBatch {
    #[verifier::type_invariant]
    spec fn counts_hold(self) -> bool {
        self.detections@.len() <= self.seen <= self.received
    }

    /// A batch of which no trace is through yet.
    pub fn new(batch_id: String, signing_key_id: String, received: usize) -> (res: TraceBatch)
        ensures
            res@ == (BatchView {
                batch_id: batch_id@,
                signing_key_id: signing_key_id@,
                received: received as nat,
                seen: 0,
                detections: Seq::empty(),
            }),
    {
        let res = TraceBatch {
            batch_id,
            signing_key_id,
            received,
            seen: 0,
            detections: Vec::new(),
        };
        proof {
            assert(res@.detections =~= Seq::<SummaryView>::empty());
        }
        res
    }

    /// The name of the key that every trace is signed under.
    pub fn signing_key_id(&self) -> (res: &str)
        ensures
            res@ == self@.signing_key_id,
    {
        self.signing_key_id.as_str()
    }

    /// Whether every trace is through.
    pub fn is_done(&self) -> (res: bool)
        ensures
            res == (self@.seen == self@.received),
    {
        proof {
            use_type_invariant(self);
        }
        self.seen == self.received
    }

    /// Takes what came of the next trace. One that failed is left out, and what
    /// is to be said of it comes back.
    pub fn record(&mut self, outcome: Result<PerTraceSummary, HostError>) -> (res: Option<String>)
        requires
            old(self)@.seen < old(self)@.received,
        ensures
            match outcome {
                Ok(summary) => final(self)@ == recorded(old(self)@, Some(summary@)) && res is None,
                Err(error) => final(self)@ == recorded(old(self)@, None) && (res matches Some(line)
                    && line@ == skip_text(old(self)@.seen, error)),
            },
    {
        proof {
            use_type_invariant(&*self);
        }
        let index: usize = self.seen;
        let mut detections: Vec<PerTraceSummary> = Vec::new();
        std::mem::swap(&mut detections, &mut self.detections);
        self.seen = index + 1;
        match outcome {
            Ok(summary) => {
                detections.push(summary);
                self.detections = detections;
                proof {
                    assert(self@.detections =~= old(self)@.detections.push(summary@));
                }
                None
            },
            Err(error) => {
                self.detections = detections;
                let mut line = text::join(
                    "ciris_lens_core.process_trace_batch: trace ",
                    text::decimal(index as u64).as_str(),
                );
                line.append(" skipped: ");
                line.append(error.message().as_str());
                Some(line)
            },
        }
    }

    /// The batch for the host.
    pub fn finish(self) -> (res: HostDict)
        ensures
            res@ == batch_entries(self@),
    {
        let mut detections: Vec<HostValue> = Vec::new();
        let mut i: usize = 0;
        while i < self.detections.len()
            invariant
                i <= self.detections@.len(),
                value::values_view(detections@) == summary_entries(
                    self@.detections.take(i as int),
                ),
            decreases self.detections@.len() - i,
        {
            let ghost before = detections@;
            let entry = HostValue::Dict(summary_dict(&self.detections[i]));
            proof {
                assert(entry@ == summary_entry(self@.detections[i as int]));
            }
            detections.push(entry);
            proof {
                assert(detections@.drop_last() =~= before);
                assert(value::values_view(detections@) =~= summary_entries(
                    self@.detections.take(i + 1),
                ));
            }
            i += 1;
        }
        proof {
            assert(self@.detections.take(i as int) =~= self@.detections);
        }
        let mut dict = HostDict::new();
        dict.put_text("batch_id", self.batch_id.as_str());
        dict.put_count("traces_received", self.received);
        dict.put_count("traces_processed", self.detections.len());
        dict.put("detections", HostValue::List(detections));
        proof {
            assert(dict@ =~= batch_entries(self@));
        }
        dict
    }
}

/// How many of some traces did not fail.
pub open spec fn succeeded(summaries: Seq<Option<SummaryView>>) -> nat
    decreases summaries.len(),
{
    if summaries.len() == 0 {
        0
    } else {
        succeeded(summaries.drop_last()) + if summaries.last() is Some {
            1nat
        } else {
            0nat
        }
    }
}

/// Every trace is accounted for: as many are through as were recorded, and the
/// host gets one detection for each that did not fail, so never more than that.
pub proof fn law_batch_counts(batch: BatchView, summaries: Seq<Option<SummaryView>>)
    ensures
        recorded_all(batch, summaries).seen == batch.seen + summaries.len(),
        recorded_all(batch, summaries).detections.len() == batch.detections.len() + succeeded(
            summaries,
        ),
        succeeded(summaries) <= summaries.len(),
        recorded_all(batch, summaries).received == batch.received,
        recorded_all(batch, summaries).batch_id == batch.batch_id,
        recorded_all(batch, summaries).signing_key_id == batch.signing_key_id,
    decreases summaries.len(),
{
    if summaries.len() > 0 {
        law_batch_counts(batch, summaries.drop_last());
    }
}

/// Whether two errors say the same.
pub open spec fn same_error(left: HostError, right: HostError) -> bool {
    value::host_error_text(left) == value::host_error_text(right) && match left {
        HostError::Value(_) => right is Value,
        HostError::Runtime(_) => right is Runtime,
        HostError::Raised(_) => right is Raised,
    }
}

/// What the batches' detections come to depends on their own detections and the
/// summaries alone.
proof fn lemma_recorded_alike(
    left: BatchView,
    right: BatchView,
    summaries: Seq<Option<SummaryView>>,
)
    requires
        left.detections == right.detections,
    ensures
        recorded_all(left, summaries).detections == recorded_all(right, summaries).detections,
    decreases summaries.len(),
{
    if summaries.len() > 0 {
        lemma_recorded_alike(left, right, summaries.drop_last());
    }
}

/// What the host says of a batch besides its traces changes nothing: two batches
/// of as many traces, with the same answer of the engine, are both opened or both
/// fail with the same error, and with the same summaries the host gets the same
/// counts and the same detections.
pub proof fn law_batch_ignores_its_arguments(
    received: usize,
    left_arguments: BatchArguments,
    right_arguments: BatchArguments,
    key: EngineAnswer<String>,
    left: Result<TraceBatch, HostError>,
    right: Result<TraceBatch, HostError>,
    summaries: Seq<Option<SummaryView>>,
)
    requires
        batch_opened(received, left_arguments, key, left),
        batch_opened(received, right_arguments, key, right),
    ensures
        left is Ok <==> key is Given,
        right is Ok <==> key is Given,
        key is Given ==> {
            let ours = recorded_all(left->Ok_0@, summaries);
            let theirs = recorded_all(right->Ok_0@, summaries);
            &&& ours.signing_key_id == theirs.signing_key_id
            &&& ours.received == theirs.received
            &&& ours.seen == theirs.seen
            &&& ours.detections == theirs.detections
        },
        key matches EngineAnswer::Failed(cause) ==> value::is_runtime_error(
            left->Err_0,
            "engine.local_key_id(): "@ + cause@,
        ),
        !(key is Given) ==> same_error(left->Err_0, right->Err_0),
{
    if key is Given {
        law_batch_counts(left->Ok_0@, summaries);
        law_batch_counts(right->Ok_0@, summaries);
        lemma_recorded_alike(left->Ok_0@, right->Ok_0@, summaries);
    }
}

/// One bad trace does not drop the others: what the host gets of a batch is the
/// same with a trace that failed in it and without.
pub proof fn law_failed_trace_drops_nothing(
    batch: BatchView,
    before: Seq<Option<SummaryView>>,
    after: Seq<Option<SummaryView>>,
)
    ensures
        recorded_all(batch, before.push(None) + after).detections == recorded_all(
            batch,
            before + after,
        ).detections,
    decreases after.len(),
{
    if after.len() == 0 {
        assert(before.push(None) + after =~= before.push(None));
        assert(before.push(None).drop_last() =~= before);
        assert(before + after =~= before);
    } else {
        let rest = after.drop_last();
        law_failed_trace_drops_nothing(batch, before, rest);
        assert((before.push(None) + after).drop_last() =~= before.push(None) + rest);
        assert((before + after).drop_last() =~= before + rest);
        assert((before.push(None) + after).last() == after.last());
        assert((before + after).last() == after.last());
    }
}

} // verus!
