use ciris_lens_core::detector::{is_flagged, DeclaredCohortAxes, DetectionResult, Features};
use ciris_lens_core::json::{Json, JsonObject};
use ciris_lens_core::pipeline::lifecycle::{
    format_cohort_id, read_trace_id, score_detection, severity_from, LensCore, PendingDetection,
    ProcessError, LENS_CORE_VERSION,
};
use ciris_lens_core::scoring::result::{
    DetectionEvent, IndeterminateReason, ManifoldConformity, Severity, UnavailableReason,
};

fn axes(role: Option<&str>) -> DeclaredCohortAxes {
    DeclaredCohortAxes {
        agent_role: role.map(String::from),
        agent_template: None,
        deployment_domain: Some("general".into()),
        deployment_type: Some("production".into()),
        deployment_region: None,
        deployment_trust_mode: Some("sovereign".into()),
    }
}

fn declare(body: &Json) -> DeclaredCohortAxes {
    axes(body.get("role").and_then(|role| role.as_str()))
}

fn extract(_body: &Json, declared: &DeclaredCohortAxes) -> Features {
    Features {
        declared: axes(declared.agent_role.as_deref()),
    }
}

fn cell(declared: &DeclaredCohortAxes) -> Json {
    let mut object = JsonObject::new();
    if let Some(role) = &declared.agent_role {
        object.insert("agent_role".into(), Json::Text(role.clone()));
    }
    Json::Object(object)
}

fn process(text: &str) -> Result<PendingDetection, ProcessError> {
    LensCore::new().process(text, vec![1, 2], 500, 7, declare, extract, cell)
}

#[test]
fn every_trace_is_cold_start() {
    let pending = process(r#"{"trace_id": "t-1", "role": "ally"}"#).unwrap();
    let inputs = &pending.inputs;
    assert_eq!(inputs.trace_id, "t-1");
    assert_eq!(inputs.body_sha256, vec![1, 2]);
    assert_eq!(inputs.detector, "manifold_conformity");
    assert_eq!(inputs.severity, Severity::Info);
    assert!(matches!(
        inputs.conformity,
        ManifoldConformity::Indeterminate {
            reason: IndeterminateReason::CohortColdStart
        }
    ));
    assert_eq!(inputs.lens_core_version, LENS_CORE_VERSION);
    assert_eq!(inputs.ratchet_calibration_version, 7);
    assert_eq!(
        inputs.cohort_cell.get("agent_role").unwrap().as_str(),
        Some("ally")
    );
}

#[test]
fn outcome_carries_score_and_event() {
    let pending = process(r#"{"trace_id": "t-1", "role": "ally"}"#).unwrap();
    let summary = DetectionEvent {
        detector: "manifold_conformity",
        severity: Severity::Info,
        event_hash: "abc".into(),
    };
    let outcome = LensCore::new()
        .finish(pending, Ok((42u8, summary)))
        .unwrap();
    assert_eq!(outcome.event, 42);
    assert_eq!(
        outcome.score.cohort_id,
        "ally/?/general/production/?/sovereign"
    );
    assert_eq!(outcome.score.lens_core_version, LENS_CORE_VERSION);
    assert!(outcome.score.detection_events.is_empty());
    assert_eq!(outcome.clone().event, 42);
}

#[test]
fn only_a_flagged_trace_lists_its_detection() {
    let mut pending = process(r#"{"trace_id": "t-1"}"#).unwrap();
    assert!(!pending.flagged);
    pending.flagged = true;
    let summary = DetectionEvent {
        detector: "manifold_conformity",
        severity: Severity::Info,
        event_hash: "abc".into(),
    };
    let outcome = LensCore::new().finish(pending, Ok(((), summary))).unwrap();
    assert_eq!(outcome.score.detection_events.len(), 1);
    assert_eq!(outcome.score.detection_events[0].event_hash, "abc");
}

#[test]
fn what_flags_a_trace() {
    assert!(!is_flagged(&DetectionResult::NoDetection));
    assert!(is_flagged(&DetectionResult::Manifold {
        mahalanobis: 0,
        cohort_sample_count: 0
    }));
    assert!(is_flagged(&DetectionResult::DeclaredInferredMismatch {
        declared: Json::Null,
        inferred: Json::Null
    }));
}

#[test]
fn score_depends_on_neither_sample_size_nor_calibration() {
    let text = r#"{"trace_id": "t-1", "role": "ally"}"#;
    let run = |asked: u32, calibration: i32| {
        let core = LensCore::new();
        let pending = core
            .process(text, vec![], asked, calibration, declare, extract, cell)
            .unwrap();
        let summary = DetectionEvent {
            detector: "manifold_conformity",
            severity: pending.inputs.severity,
            event_hash: String::new(),
        };
        core.finish(pending, Ok(((), summary))).unwrap().score
    };
    let (left, right) = (run(0, 1), run(u32::MAX, -7));
    assert_eq!(format!("{:?}", left.conformity), format!("{:?}", right.conformity));
    assert_eq!(left.cohort_id, right.cohort_id);
    assert_eq!(left.lens_core_version, LENS_CORE_VERSION);
    assert_eq!(right.lens_core_version, LENS_CORE_VERSION);
    assert!(left.detection_events.is_empty() && right.detection_events.is_empty());
}

#[test]
fn each_process_error() {
    let parse = process("{").unwrap_err();
    assert!(matches!(parse, ProcessError::ParseBody(_)));
    let cause = serde_json::from_str::<serde_json::Value>("{").unwrap_err();
    assert_eq!(parse.message(), format!("parse body: {cause}"));
    for text in ["{}", "[]", r#"{"trace_id": 1}"#, r#"{"trace_id": null}"#] {
        let missing = process(text).unwrap_err();
        assert!(matches!(missing, ProcessError::MissingTraceId));
        assert_eq!(missing.message(), "missing trace_id in envelope body");
    }
    let pending = process(r#"{"trace_id": "t"}"#).unwrap();
    let answer: Result<(u8, DetectionEvent), String> = Err("no key".into());
    let sign = LensCore::new().finish(pending, answer).unwrap_err();
    assert_eq!(sign.message(), "sign: no key");
}

#[test]
fn severity_policy() {
    assert_eq!(
        severity_from(&ManifoldConformity::Numeric(0)),
        Severity::Info
    );
    assert_eq!(
        severity_from(&ManifoldConformity::Indeterminate {
            reason: IndeterminateReason::InferredCohortAmbiguous
        }),
        Severity::Info
    );
    assert_eq!(
        severity_from(&ManifoldConformity::Unavailable {
            reason: UnavailableReason::PersistReadFailure
        }),
        Severity::Warning
    );
}

#[test]
fn scored_detection_passes_the_sample_size() {
    let detection = DetectionResult::Manifold {
        mahalanobis: 3.0f64.to_bits(),
        cohort_sample_count: 3,
    };
    assert!(matches!(
        score_detection(detection, 3),
        ManifoldConformity::Numeric(bits) if f64::from_bits(bits) == 3.0
    ));
}

#[test]
fn cohort_id_marks_what_is_not_declared() {
    assert_eq!(
        format_cohort_id(&axes(None)),
        "?/?/general/production/?/sovereign"
    );
}

#[test]
fn trace_id_is_a_text() {
    let mut object = JsonObject::new();
    object.insert("trace_id".into(), Json::Text("x".into()));
    assert_eq!(read_trace_id(&Json::Object(object)), Some("x".into()));
    assert_eq!(read_trace_id(&Json::Text("x".into())), None);
}
