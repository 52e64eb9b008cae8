//! One trace: read, scored, signed.
//!
//! Signing is the host's work. [`LensCore::process`] goes as far as what is to
//! be signed, and [`LensCore::finish`] takes the host's answer.
use vstd::prelude::*;

use crate::codec;
use crate::detector;
use crate::detector::{DeclaredCohortAxes, DetectionResult, Features};
use crate::json;
use crate::json::{Json, JsonView};
use crate::scoring::assembly;
use crate::scoring::result::{
    DetectionEvent, IndeterminateReason, ManifoldConformity, Score, Severity,
};
use crate::text;

verus! {

broadcast use json::lemma_json_view;

/// The version that every score and every detection is stamped with: that of the
/// package.
pub const LENS_CORE_VERSION: &'static str = "0.3.0";

/// The detector that detections are reported under.
pub const MANIFOLD_DETECTOR: &'static str = "manifold_conformity";

/// Why a trace was not processed.
#[derive(Debug)]
pub enum ProcessError {
    /// The body is not JSON.
    ParseBody(String),
    /// The body has no `trace_id`.
    MissingTraceId,
    /// The detection could not be signed.
    Sign(String),
}

/// What is said of a trace that was not processed.
pub open spec fn process_error_text(error: ProcessError) -> Seq<char> {
    match error {
        ProcessError::ParseBody(cause) => "parse body: "@ + cause@,
        ProcessError::MissingTraceId => "missing trace_id in envelope body"@,
        ProcessError::Sign(cause) => "sign: "@ + cause@,
    }
}

impl ProcessError {
    pub fn message(&self) -> (res: String)
        ensures
            res@ == process_error_text(*self),
    {
        match self {
            ProcessError::ParseBody(cause) => text::join("parse body: ", cause.as_str()),
            ProcessError::MissingTraceId => "missing trace_id in envelope body".to_owned(),
            ProcessError::Sign(cause) => text::join("sign: ", cause.as_str()),
        }
    }
}

/// What is signed of a trace.
#[derive(Debug)]
pub struct DetectionInputs {
    pub trace_id: String,
    pub body_sha256: Vec<u8>,
    pub detector: &'static str,
    pub severity: Severity,
    pub cohort_cell: Json,
    pub conformity: ManifoldConformity,
    pub lens_core_version: &'static str,
    pub ratchet_calibration_version: i32,
}

/// A trace that waits for its signature.
#[derive(Debug)]
pub struct PendingDetection {
    pub inputs: DetectionInputs,
    pub features: Features,
    /// Whether a detector flagged the trace.
    pub flagged: bool,
}

/// A trace's score and the host's signed event.
#[derive(Debug, Clone)]
pub struct Outcome<E> {
    pub score: Score,
    pub event: E,
}

/// How grave a score is.
pub open spec fn severity_of(conformity: ManifoldConformity) -> Severity {
    if conformity is Unavailable {
        Severity::Warning
    } else {
        Severity::Info
    }
}

/// How grave a score is. A number and the lack of one are telemetry; that
/// scoring failed is a warning.
pub fn severity_from(conformity: &ManifoldConformity) -> (res: Severity)
    ensures
        res == severity_of(*conformity),
{
    match conformity {
        ManifoldConformity::Numeric(_) => Severity::Info,
        ManifoldConformity::Indeterminate { .. } => Severity::Info,
        ManifoldConformity::Unavailable { .. } => Severity::Warning,
    }
}

/// The score of a detection.
pub fn score_detection(detection: DetectionResult, sample_size_gate: u32) -> (res:
    ManifoldConformity)
    ensures
        res == assembly::assembled(detector::assembly_input_of(detection), sample_size_gate),
{
    assembly::assemble(detector::assembly_input(detection), sample_size_gate)
}

/// The identifier in a trace's body, where there is one.
pub open spec fn trace_id_of(body: JsonView) -> Option<Seq<char>> {
    match json::field_of(body, "trace_id"@) {
        Some(JsonView::Text(id)) => Some(id),
        _ => None,
    }
}

/// The identifier in a trace's body, where there is one.
pub fn read_trace_id(body: &Json) -> (res: Option<String>)
    ensures
        match res {
            Some(id) => trace_id_of(body@) == Some(id@),
            None => trace_id_of(body@) is None,
        },
{
    match body.get("trace_id") {
        Some(value) => match value.as_str() {
            Some(id) => Some(id.to_owned()),
            None => None,
        },
        None => None,
    }
}

/// An axis in a cohort's name: a question mark where it is not declared.
pub open spec fn axis_text(axis: Option<String>) -> Seq<char> {
    match axis {
        Some(axis) => axis@,
        None => "?"@,
    }
}

/// The six axes of a cohort, with slashes between them.
pub open spec fn cohort_id_text(declared: DeclaredCohortAxes) -> Seq<char> {
    axis_text(declared.agent_role) + "/"@ + axis_text(declared.agent_template) + "/"@ + axis_text(
        declared.deployment_domain,
    ) + "/"@ + axis_text(declared.deployment_type) + "/"@ + axis_text(declared.deployment_region)
        + "/"@ + axis_text(declared.deployment_trust_mode)
}

fn axis_or_unknown(axis: &Option<String>) -> (res: &str)
    ensures
        res@ == axis_text(*axis),
{
    match axis {
        Some(axis) => axis.as_str(),
        None => "?",
    }
}

/// A cohort's name, for logs.
pub fn format_cohort_id(declared: &DeclaredCohortAxes) -> (res: String)
    ensures
        res@ == cohort_id_text(*declared),
{
    let mut id = axis_or_unknown(&declared.agent_role).to_owned();
    id.append("/");
    id.append(axis_or_unknown(&declared.agent_template));
    id.append("/");
    id.append(axis_or_unknown(&declared.deployment_domain));
    id.append("/");
    id.append(axis_or_unknown(&declared.deployment_type));
    id.append("/");
    id.append(axis_or_unknown(&declared.deployment_region));
    id.append("/");
    id.append(axis_or_unknown(&declared.deployment_trust_mode));
    id
}

/// What is signed of a trace in the cold-start window: no number, and nothing
/// for an operator to do.
pub open spec fn cold_start(
    inputs: DetectionInputs,
    trace_id: Seq<char>,
    body_sha256: Vec<u8>,
    ratchet_calibration_version: i32,
) -> bool {
    &&& inputs.trace_id@ == trace_id
    &&& inputs.body_sha256 == body_sha256
    &&& inputs.detector@ == MANIFOLD_DETECTOR@
    &&& inputs.severity == Severity::Info
    &&& inputs.conformity == (ManifoldConformity::Indeterminate {
        reason: IndeterminateReason::CohortColdStart,
    })
    &&& inputs.lens_core_version@ == LENS_CORE_VERSION@
    &&& inputs.ratchet_calibration_version == ratchet_calibration_version
}

/// Whether a cohort's axes, its features and its cell may be what the host reads
/// from a body: the axes from the body, the features from the body and those
/// axes, the cell from those axes.
pub open spec fn may_read<
    D: Fn(&Json) -> DeclaredCohortAxes,
    F: Fn(&Json, &DeclaredCohortAxes) -> Features,
    C: Fn(&DeclaredCohortAxes) -> Json,
>(declare: D, extract: F, cell: C, body: JsonView, features: Features, cohort_cell: Json) -> bool {
    exists|asked: &Json, declared: &DeclaredCohortAxes|
        asked@ == body && #[trigger] call_ensures(declare, (asked,), *declared) && call_ensures(
            extract,
            (asked, declared),
            features,
        ) && call_ensures(cell, (declared,), cohort_cell)
}

/// Whether what is to be signed of a trace whose body is read is right: a body
/// without an identifier is refused, and any other trace is in the cold-start
/// window, read as the host reads it and flagged by no detector.
pub open spec fn prepared<
    D: Fn(&Json) -> DeclaredCohortAxes,
    F: Fn(&Json, &DeclaredCohortAxes) -> Features,
    C: Fn(&DeclaredCohortAxes) -> Json,
>(
    body: JsonView,
    body_sha256: Vec<u8>,
    ratchet_calibration_version: i32,
    declare: D,
    extract: F,
    cell: C,
    res: Result<PendingDetection, ProcessError>,
) -> bool {
    match trace_id_of(body) {
        None => res == Err::<PendingDetection, ProcessError>(ProcessError::MissingTraceId),
        Some(id) => {
            &&& res is Ok
            &&& cold_start(res->Ok_0.inputs, id, body_sha256, ratchet_calibration_version)
            &&& !res->Ok_0.flagged
            &&& may_read(
                declare,
                extract,
                cell,
                body,
                res->Ok_0.features,
                res->Ok_0.inputs.cohort_cell,
            )
        },
    }
}

/// Whether what is to be signed of a trace is right, from the text of its body.
pub open spec fn processed<
    D: Fn(&Json) -> DeclaredCohortAxes,
    F: Fn(&Json, &DeclaredCohortAxes) -> Features,
    C: Fn(&DeclaredCohortAxes) -> Json,
>(
    body_text: Seq<char>,
    body_sha256: Vec<u8>,
    ratchet_calibration_version: i32,
    declare: D,
    extract: F,
    cell: C,
    res: Result<PendingDetection, ProcessError>,
) -> bool {
    match codec::parsed_json(body_text) {
        Err(cause) => res matches Err(ProcessError::ParseBody(message)) && message@ == cause,
        Ok(body) => prepared(
            body,
            body_sha256,
            ratchet_calibration_version,
            declare,
            extract,
            cell,
            res,
        ),
    }
}

/// Whether the outcome of a trace is right, given the host's answer to what was
/// to be signed. The score lists what is reported of the detection only where a
/// detector flagged the trace.
pub open spec fn finished<E>(
    pending: PendingDetection,
    answer: Result<(E, DetectionEvent), String>,
    res: Result<Outcome<E>, ProcessError>,
) -> bool {
    match answer {
        Ok((event, summary)) => {
            &&& res is Ok
            &&& res->Ok_0.event == event
            &&& res->Ok_0.score.conformity == pending.inputs.conformity
            &&& res->Ok_0.score.cohort_id@ == cohort_id_text(pending.features.declared)
            &&& res->Ok_0.score.lens_core_version@ == LENS_CORE_VERSION@
            &&& res->Ok_0.score.detection_events@ == (if pending.flagged {
                seq![summary]
            } else {
                Seq::empty()
            })
        },
        Err(cause) => res == Err::<Outcome<E>, ProcessError>(ProcessError::Sign(cause)),
    }
}

/// The handle through which traces are processed.
#[derive(Debug)]
pub struct LensCore {}

impl LensCore {
    pub fn new() -> (res: LensCore)
        ensures
            res == (LensCore {  }),
    {
        LensCore {  }
    }

    /// What is to be signed of a trace whose body is read. Every trace is in the
    /// cold-start window: no score has a number.
    pub fn prepare<
        D: Fn(&Json) -> DeclaredCohortAxes,
        F: Fn(&Json, &DeclaredCohortAxes) -> Features,
        C: Fn(&DeclaredCohortAxes) -> Json,
    >(
        &self,
        body: &Json,
        body_sha256: Vec<u8>,
        sample_size_gate: u32,
        ratchet_calibration_version: i32,
        declare: D,
        extract: F,
        cell: C,
    ) -> (res: Result<PendingDetection, ProcessError>)
        requires
            forall|asked: &Json| #[trigger] call_requires(declare, (asked,)),
            forall|asked: &Json, declared: &DeclaredCohortAxes| #[trigger]
                call_requires(extract, (asked, declared)),
            forall|declared: &DeclaredCohortAxes| #[trigger] call_requires(cell, (declared,)),
        ensures
            prepared(
                body@,
                body_sha256,
                ratchet_calibration_version,
                declare,
                extract,
                cell,
                res,
            ),
    {
        let trace_id = match read_trace_id(body) {
            Some(trace_id) => trace_id,
            None => {
                return Err(ProcessError::MissingTraceId);
            },
        };
        let declared = declare(body);
        let features = extract(body, &declared);
        let cohort_cell = cell(&declared);
        let detection = detector::detect(&features);
        let flagged = detector::is_flagged(&detection);
        let conformity = score_detection(detection, sample_size_gate);
        let severity = severity_from(&conformity);
        proof {
            assert(call_ensures(declare, (body,), *&declared));
        }
        let inputs = DetectionInputs {
            trace_id,
            body_sha256,
            detector: MANIFOLD_DETECTOR,
            severity,
            cohort_cell,
            conformity,
            lens_core_version: LENS_CORE_VERSION,
            ratchet_calibration_version,
        };
        Ok(PendingDetection { inputs, features, flagged })
    }

    /// What is to be signed of a trace, from the text of its body.
    pub fn process<
        D: Fn(&Json) -> DeclaredCohortAxes,
        F: Fn(&Json, &DeclaredCohortAxes) -> Features,
        C: Fn(&DeclaredCohortAxes) -> Json,
    >(
        &self,
        body_text: &str,
        body_sha256: Vec<u8>,
        sample_size_gate: u32,
        ratchet_calibration_version: i32,
        declare: D,
        extract: F,
        cell: C,
    ) -> (res: Result<PendingDetection, ProcessError>)
        requires
            forall|asked: &Json| #[trigger] call_requires(declare, (asked,)),
            forall|asked: &Json, declared: &DeclaredCohortAxes| #[trigger]
                call_requires(extract, (asked, declared)),
            forall|declared: &DeclaredCohortAxes| #[trigger] call_requires(cell, (declared,)),
        ensures
            processed(
                body_text@,
                body_sha256,
                ratchet_calibration_version,
                declare,
                extract,
                cell,
                res,
            ),
    {
        match codec::parse(body_text) {
            Ok(body) => self.prepare(
                &body,
                body_sha256,
                sample_size_gate,
                ratchet_calibration_version,
                declare,
                extract,
                cell,
            ),
            Err(cause) => Err(ProcessError::ParseBody(cause)),
        }
    }

    /// The outcome of a trace, from the host's answer to what was to be signed:
    /// the signed event and what is reported of it, or why there is none. What is
    /// reported goes into the score only where a detector flagged the trace.
    pub fn finish<E>(
        &self,
        pending: PendingDetection,
        answer: Result<(E, DetectionEvent), String>,
    ) -> (res: Result<Outcome<E>, ProcessError>)
        ensures
            finished(pending, answer, res),
    {
        match answer {
            Ok((event, summary)) => {
                let cohort_id = format_cohort_id(&pending.features.declared);
                let mut detection_events: Vec<DetectionEvent> = Vec::new();
                if pending.flagged {
                    detection_events.push(summary);
                }
                let score = Score {
                    conformity: pending.inputs.conformity,
                    cohort_id,
                    lens_core_version: LENS_CORE_VERSION,
                    detection_events,
                };
                Ok(Outcome { score, event })
            },
            Err(cause) => Err(ProcessError::Sign(cause)),
        }
    }
}

/// Until there are centroids every trace is in the cold-start window, whatever
/// sample size is asked for: what no detector reports has no number and is telemetry.
pub proof fn law_no_detection_is_cold_start(sample_size_gate: u32)
    ensures
        assembly::assembled(
            detector::assembly_input_of(DetectionResult::NoDetection),
            sample_size_gate,
        ) == (ManifoldConformity::Indeterminate { reason: IndeterminateReason::CohortColdStart }),
{
}

/// Whether a host reads a body the same way each time: documents that say the
/// same have the same axes, and with those axes the same features.
pub open spec fn reads_alike<
    D: Fn(&Json) -> DeclaredCohortAxes,
    F: Fn(&Json, &DeclaredCohortAxes) -> Features,
>(declare: D, extract: F) -> bool {
    &&& forall|
        left: &Json,
        right: &Json,
        ours: DeclaredCohortAxes,
        theirs: DeclaredCohortAxes,
    |
        left@ == right@ && #[trigger] call_ensures(declare, (left,), ours) && #[trigger]
        call_ensures(declare, (right,), theirs) ==> ours == theirs
    &&& forall|
        left: &Json,
        right: &Json,
        declared: &DeclaredCohortAxes,
        ours: Features,
        theirs: Features,
    |
        left@ == right@ && #[trigger] call_ensures(extract, (left, declared), ours) && #[trigger]
        call_ensures(extract, (right, declared), theirs) ==> ours == theirs
}

/// The score of a trace does not depend on the sample size that is asked for,
/// nor on the calibration: where a host reads a body the same way each time, two
/// runs of one trace have the same conformity, which is no number, the same
/// severity, the same cohort and the same version, and neither lists a
/// detection.
pub proof fn law_score_follows_the_body<
    D: Fn(&Json) -> DeclaredCohortAxes,
    F: Fn(&Json, &DeclaredCohortAxes) -> Features,
    C: Fn(&DeclaredCohortAxes) -> Json,
    E,
>(
    body_text: Seq<char>,
    body_sha256: Vec<u8>,
    left_calibration: i32,
    right_calibration: i32,
    declare: D,
    extract: F,
    cell: C,
    left: PendingDetection,
    right: PendingDetection,
    left_answer: Result<(E, DetectionEvent), String>,
    right_answer: Result<(E, DetectionEvent), String>,
    left_outcome: Outcome<E>,
    right_outcome: Outcome<E>,
)
    requires
        reads_alike(declare, extract),
        processed(body_text, body_sha256, left_calibration, declare, extract, cell, Ok(left)),
        processed(body_text, body_sha256, right_calibration, declare, extract, cell, Ok(right)),
        finished(left, left_answer, Ok(left_outcome)),
        finished(right, right_answer, Ok(right_outcome)),
    ensures
        left.inputs.conformity == (ManifoldConformity::Indeterminate {
            reason: IndeterminateReason::CohortColdStart,
        }),
        left.inputs.severity == Severity::Info,
        right.inputs.severity == left.inputs.severity,
        left_outcome.score.conformity == left.inputs.conformity,
        right_outcome.score.conformity == left.inputs.conformity,
        left_outcome.score.cohort_id@ == right_outcome.score.cohort_id@,
        left_outcome.score.lens_core_version@ == LENS_CORE_VERSION@,
        right_outcome.score.lens_core_version@ == LENS_CORE_VERSION@,
        left_outcome.score.detection_events@.len() == 0,
        right_outcome.score.detection_events@.len() == 0,
{
    let body = codec::parsed_json(body_text)->Ok_0;
    let (left_asked, left_declared) = choose|asked: &Json, declared: &DeclaredCohortAxes|
        asked@ == body && #[trigger] call_ensures(declare, (asked,), *declared) && call_ensures(
            extract,
            (asked, declared),
            left.features,
        ) && call_ensures(cell, (declared,), left.inputs.cohort_cell);
    let (right_asked, right_declared) = choose|asked: &Json, declared: &DeclaredCohortAxes|
        asked@ == body && #[trigger] call_ensures(declare, (asked,), *declared) && call_ensures(
            extract,
            (asked, declared),
            right.features,
        ) && call_ensures(cell, (declared,), right.inputs.cohort_cell);
    assert(*left_declared == *right_declared);
    assert(left.features == right.features);
}

/// A trace that no detector flagged has an empty list of detections in its
/// score, and one that a detector flagged has exactly one entry.
pub proof fn law_only_flagged_traces_list_detections<E>(
    pending: PendingDetection,
    event: E,
    summary: DetectionEvent,
    outcome: Outcome<E>,
)
    requires
        finished(pending, Ok((event, summary)), Ok(outcome)),
    ensures
        outcome.score.detection_events@.len() == if pending.flagged {
            1nat
        } else {
            0nat
        },
{
}

/// The identifier of a trace is the text under `trace_id` of its body, whatever
/// else the body holds; a body that is no object, or holds no text there, has
/// none.
pub proof fn law_trace_id_is_the_bodys(
    body: JsonView,
    fields: Map<Seq<char>, JsonView>,
    id: Seq<char>,
)
    ensures
        trace_id_of(JsonView::Object(fields)) == Some(id) <==> (fields.contains_key("trace_id"@)
            && fields["trace_id"@] == JsonView::Text(id)),
        trace_id_of(body) is Some <==> (body is Object && body->Object_0.contains_key("trace_id"@)
            && body->Object_0["trace_id"@] is Text),
{
}

/// Other fields of a body do not change its identifier.
pub proof fn law_trace_id_ignores_other_fields(
    fields: Map<Seq<char>, JsonView>,
    name: Seq<char>,
    value: JsonView,
)
    requires
        name != "trace_id"@,
    ensures
        trace_id_of(JsonView::Object(fields.insert(name, value))) == trace_id_of(
            JsonView::Object(fields),
        ),
        trace_id_of(JsonView::Object(fields.remove(name))) == trace_id_of(
            JsonView::Object(fields),
        ),
{
}

/// A cohort's name is its six axes in order with slashes between them: each as it
/// is declared, and a question mark where it is not.
pub proof fn law_cohort_name_is_its_axes(declared: DeclaredCohortAxes, axes: Seq<Seq<char>>)
    requires
        axes.len() == 6,
        declared.agent_role matches Some(axis) ==> axes[0] == axis@,
        declared.agent_role is None ==> axes[0] == "?"@,
        declared.agent_template matches Some(axis) ==> axes[1] == axis@,
        declared.agent_template is None ==> axes[1] == "?"@,
        declared.deployment_domain matches Some(axis) ==> axes[2] == axis@,
        declared.deployment_domain is None ==> axes[2] == "?"@,
        declared.deployment_type matches Some(axis) ==> axes[3] == axis@,
        declared.deployment_type is None ==> axes[3] == "?"@,
        declared.deployment_region matches Some(axis) ==> axes[4] == axis@,
        declared.deployment_region is None ==> axes[4] == "?"@,
        declared.deployment_trust_mode matches Some(axis) ==> axes[5] == axis@,
        declared.deployment_trust_mode is None ==> axes[5] == "?"@,
    ensures
        cohort_id_text(declared) == axes[0] + "/"@ + axes[1] + "/"@ + axes[2] + "/"@ + axes[3]
            + "/"@ + axes[4] + "/"@ + axes[5],
{
}

/// What is said of a trace that was not processed ends with the cause, whole.
pub proof fn law_process_errors_say_their_cause(cause: String)
    ensures
        process_error_text(ProcessError::ParseBody(cause)) == "parse body: "@ + cause@,
        process_error_text(ProcessError::Sign(cause)) == "sign: "@ + cause@,
{
}

/// What is signed of a trace is the trace's own: its identifier is the text under
/// `trace_id` of its body, its hash, its calibration and the host's cell are
/// those that were given, and the cell and the features are read from a document
/// that says the body, through the axes that are read from it.
pub proof fn law_signed_detection_is_the_traces<
    D: Fn(&Json) -> DeclaredCohortAxes,
    F: Fn(&Json, &DeclaredCohortAxes) -> Features,
    C: Fn(&DeclaredCohortAxes) -> Json,
>(
    body_text: Seq<char>,
    body_sha256: Vec<u8>,
    ratchet_calibration_version: i32,
    declare: D,
    extract: F,
    cell: C,
    pending: PendingDetection,
)
    requires
        processed(
            body_text,
            body_sha256,
            ratchet_calibration_version,
            declare,
            extract,
            cell,
            Ok(pending),
        ),
    ensures
        codec::parsed_json(body_text) is Ok,
        codec::parsed_json(body_text)->Ok_0 is Object,
        codec::parsed_json(body_text)->Ok_0->Object_0.contains_key("trace_id"@),
        codec::parsed_json(body_text)->Ok_0->Object_0["trace_id"@] == JsonView::Text(
            pending.inputs.trace_id@,
        ),
        pending.inputs.body_sha256@ == body_sha256@,
        pending.inputs.detector@ == "manifold_conformity"@,
        pending.inputs.severity == Severity::Info,
        pending.inputs.conformity == (ManifoldConformity::Indeterminate {
            reason: IndeterminateReason::CohortColdStart,
        }),
        pending.inputs.lens_core_version@ == "0.3.0"@,
        pending.inputs.ratchet_calibration_version == ratchet_calibration_version,
        !pending.flagged,
        exists|asked: &Json, declared: &DeclaredCohortAxes|
            asked@ == codec::parsed_json(body_text)->Ok_0 && #[trigger] call_ensures(
                declare,
                (asked,),
                *declared,
            ) && call_ensures(extract, (asked, declared), pending.features) && call_ensures(
                cell,
                (declared,),
                pending.inputs.cohort_cell,
            ),
{
}

/// Which traces are processed: those whose body is JSON with a text under
/// `trace_id`. Any other body is refused, with the parser's own text where it is
/// no JSON.
pub proof fn law_processed_iff_it_has_an_identifier<
    D: Fn(&Json) -> DeclaredCohortAxes,
    F: Fn(&Json, &DeclaredCohortAxes) -> Features,
    C: Fn(&DeclaredCohortAxes) -> Json,
>(
    body_text: Seq<char>,
    body_sha256: Vec<u8>,
    ratchet_calibration_version: i32,
    declare: D,
    extract: F,
    cell: C,
    res: Result<PendingDetection, ProcessError>,
)
    requires
        processed(
            body_text,
            body_sha256,
            ratchet_calibration_version,
            declare,
            extract,
            cell,
            res,
        ),
    ensures
        codec::parsed_json(body_text) matches Err(cause) ==> res is Err && res->Err_0 is ParseBody
            && res->Err_0->ParseBody_0@ == cause,
        codec::parsed_json(body_text) matches Ok(body) ==> {
            let named = body is Object && body->Object_0.contains_key("trace_id"@)
                && body->Object_0["trace_id"@] is Text;
            &&& named ==> res is Ok
            &&& !named ==> res == Err::<PendingDetection, ProcessError>(
                ProcessError::MissingTraceId,
            )
        },
{
}

/// The outcome of a trace is the host's event with the score that was to be
/// signed, under the cohort's name and the version; a flagged trace lists what is
/// reported of it. Without a signature there is no outcome, and the error is the
/// signer's own.
pub proof fn law_outcome_is_the_hosts_answer<E>(
    pending: PendingDetection,
    answer: Result<(E, DetectionEvent), String>,
    res: Result<Outcome<E>, ProcessError>,
)
    requires
        finished(pending, answer, res),
    ensures
        answer matches Ok((event, summary)) ==> {
            &&& res is Ok
            &&& res->Ok_0.event == event
            &&& res->Ok_0.score.conformity == pending.inputs.conformity
            &&& res->Ok_0.score.cohort_id@ == cohort_id_text(pending.features.declared)
            &&& res->Ok_0.score.lens_core_version@ == "0.3.0"@
            &&& pending.flagged ==> res->Ok_0.score.detection_events@.len() == 1
                && res->Ok_0.score.detection_events@[0] == summary
            &&& !pending.flagged ==> res->Ok_0.score.detection_events@.len() == 0
        },
        answer matches Err(cause) ==> res == Err::<Outcome<E>, ProcessError>(
            ProcessError::Sign(cause),
        ),
{
}

/// A score that says that scoring failed is never silent, and nothing else is a
/// warning.
pub proof fn law_only_failure_warns(conformity: ManifoldConformity)
    ensures
        severity_of(conformity) == Severity::Warning <==> conformity is Unavailable,
        severity_of(conformity) != Severity::Critical,
{
}

/// A trace goes through as a whole: the outcome has the host's event, the score
/// that was signed, and the name of the cohort that its body declares. The sample
/// size that is asked for changes nothing while no detector reports anything.
pub proof fn law_trace_goes_through<
    D: Fn(&Json) -> DeclaredCohortAxes,
    F: Fn(&Json, &DeclaredCohortAxes) -> Features,
    C: Fn(&DeclaredCohortAxes) -> Json,
    E,
>(
    core: LensCore,
    body_text: &str,
    body_sha256: Vec<u8>,
    sample_size_gate: u32,
    ratchet_calibration_version: i32,
    declare: D,
    extract: F,
    cell: C,
    pending: PendingDetection,
    event: E,
    summary: DetectionEvent,
    res: Result<Outcome<E>, ProcessError>,
)
    requires
        call_ensures(
            LensCore::process::<D, F, C>,
            (
                &core,
                body_text,
                body_sha256,
                sample_size_gate,
                ratchet_calibration_version,
                declare,
                extract,
                cell,
            ),
            Ok(pending),
        ),
        call_ensures(LensCore::finish::<E>, (&core, pending, Ok((event, summary))), res),
    ensures
        res is Ok,
        res->Ok_0.event == event,
        res->Ok_0.score.conformity == (ManifoldConformity::Indeterminate {
            reason: IndeterminateReason::CohortColdStart,
        }),
        res->Ok_0.score.cohort_id@ == cohort_id_text(pending.features.declared),
        res->Ok_0.score.detection_events@.len() == 0,
        pending.inputs.body_sha256@ == body_sha256@,
        pending.inputs.ratchet_calibration_version == ratchet_calibration_version,
        codec::parsed_json(body_text@) is Ok,
        trace_id_of(codec::parsed_json(body_text@)->Ok_0) == Some(pending.inputs.trace_id@),
{
    law_signed_detection_is_the_traces(
        body_text@,
        body_sha256,
        ratchet_calibration_version,
        declare,
        extract,
        cell,
        pending,
    );
}

/// The identifier that is read from a body is the text under `trace_id`, and there
/// is none where no text is.
pub proof fn law_read_trace_id_is_the_bodys(body: &Json, res: Option<String>)
    requires
        call_ensures(read_trace_id, (body,), res),
    ensures
        res is Some <==> (body@ is Object && body@->Object_0.contains_key("trace_id"@)
            && body@->Object_0["trace_id"@] is Text),
        res is Some ==> body@->Object_0["trace_id"@] == JsonView::Text(res->Some_0@),
{
}

} // verus!
