use ciris_lens_core::capture::client::{
    sign_trace_via_hardware_signer, trace_id_for_new, BatchBuildError,
    CaptureClient, CaptureEventOutcome, CaptureStep, ClientError, PendingBatch, SealSignError,
    SealSummary,
};
use ciris_lens_core::capture::seal::{verify_signature_over, verify_trace_signature};
use ciris_lens_core::capture::trace::{
    BatchProvenance, CaptureOutcome, CompleteTrace, InboundEvent, TraceComponent,
};
use ciris_lens_core::codec::{from_value, to_value};
use ciris_lens_core::json::Json;
use ed25519_dalek::{Signer, SigningKey};

const TRACE_SCHEMA_VERSION: &str = "2.7.9";

fn json(text: &str) -> Json {
    from_value(serde_json::from_str(text).unwrap())
}

fn canonicalize(document: &Json) -> Result<Vec<u8>, String> {
    serde_json::to_vec(&to_value(document.clone())).map_err(|e| e.to_string())
}

fn provenance() -> BatchProvenance {
    BatchProvenance {
        batch_timestamp: "2026-06-10T00:00:05+00:00".into(),
        consent_timestamp: "2026-01-01T00:00:00+00:00".into(),
        trace_level: "generic".into(),
        trace_schema_version: TRACE_SCHEMA_VERSION.into(),
        correlation_metadata: None,
    }
}

fn deployment_profile() -> Json {
    json(
        r#"{
            "agent_role": "ally",
            "agent_template": "ally-default",
            "deployment_domain": "general",
            "deployment_type": "production",
            "deployment_region": null,
            "deployment_trust_mode": "sovereign"
        }"#,
    )
}

fn sealed_trace_fixture() -> CompleteTrace {
    CompleteTrace {
        trace_id: "trace-client-1".into(),
        thought_id: "th_client_1".into(),
        task_id: Some("task-1".into()),
        agent_id_hash: "deadbeef".into(),
        started_at: "2026-06-10T00:00:00+00:00".into(),
        completed_at: Some("2026-06-10T00:00:02+00:00".into()),
        components: vec![
            TraceComponent {
                component_type: "observation".into(),
                event_type: "THOUGHT_START".into(),
                timestamp: "2026-06-10T00:00:00+00:00".into(),
                attempt_index: 0,
                data: json(r#"{"thought": "hello"}"#),
                agent_id_hash: "deadbeef".into(),
            },
            TraceComponent {
                component_type: "action".into(),
                event_type: "ACTION_RESULT".into(),
                timestamp: "2026-06-10T00:00:02+00:00".into(),
                attempt_index: 0,
                data: json(r#"{"action": "speak"}"#),
                agent_id_hash: "deadbeef".into(),
            },
        ],
        signature: None,
        signature_key_id: None,
        trace_level: Some("generic".into()),
        trace_schema_version: TRACE_SCHEMA_VERSION.into(),
        deployment_profile: Some(deployment_profile()),
    }
}

fn inbound(thought_id: &str) -> InboundEvent {
    InboundEvent {
        event_type: "THOUGHT_START".into(),
        thought_id: thought_id.into(),
        task_id: Some("task-1".into()),
        agent_id_hash: "deadbeef".into(),
        timestamp: "2026-06-10T00:00:00Z".into(),
        trace_level: Some("generic".into()),
        data: json(r#"{"k": "v"}"#),
    }
}

#[test]
fn seal_sign_wrap_stamps_missing_deployment_profile() {
    let sk = SigningKey::from_bytes(&[56u8; 32]);
    let client = CaptureClient::new("null", provenance(), Some(deployment_profile()));
    let mut trace = sealed_trace_fixture();
    trace.deployment_profile = None;
    let step = client.capture_event(CaptureOutcome::Sealed(trace), canonicalize);
    let CaptureStep::Sign(pending) = step else {
        panic!("expected Sign");
    };
    let answer = Ok(sk.sign(&pending.message).to_bytes().to_vec());
    let CaptureStep::Batch(to_batch) = client.signed(pending, answer, "k") else {
        panic!("expected Batch");
    };
    assert!(
        to_batch.trace.deployment_profile.is_some(),
        "deployment_profile must be present after stamping"
    );
}

#[test]
fn seal_sign_wrap_stamps_trace_level_from_provenance() {
    let sk = SigningKey::from_bytes(&[57u8; 32]);
    let client = CaptureClient::new("null", provenance(), None);
    let mut trace = sealed_trace_fixture();
    trace.trace_level = None;
    let step = client.capture_event(CaptureOutcome::Sealed(trace), canonicalize);
    let CaptureStep::Sign(pending) = step else {
        panic!("expected Sign");
    };
    let answer = Ok(sk.sign(&pending.message).to_bytes().to_vec());
    let CaptureStep::Batch(to_batch) = client.signed(pending, answer, "k2") else {
        panic!("expected Batch");
    };
    assert_eq!(to_batch.trace.trace_level.as_deref(), Some("generic"));
}

#[test]
fn stamping_overrides_nothing() {
    let mut other = provenance();
    other.trace_level = "full_traces".into();
    let client = CaptureClient::new("null", other, Some(json(r#"{"agent_role": "scout"}"#)));
    let step = client.capture_event(CaptureOutcome::Sealed(sealed_trace_fixture()), canonicalize);
    let CaptureStep::Sign(pending) = step else {
        panic!("expected Sign");
    };
    assert_eq!(pending.trace.trace_level.as_deref(), Some("generic"));
    assert_eq!(
        to_value(pending.trace.deployment_profile.unwrap()),
        to_value(deployment_profile())
    );
}

#[test]
fn sealed_trace_goes_all_the_way() {
    let sk = SigningKey::from_bytes(&[55u8; 32]);
    let vk = sk.verifying_key().to_bytes();
    let client = CaptureClient::new("the host's scrubber", provenance(), None);
    let step = client.capture_event(CaptureOutcome::Sealed(sealed_trace_fixture()), canonicalize);
    let CaptureStep::Sign(pending) = step else {
        panic!("expected Sign");
    };
    let message = pending.message.clone();
    let answer = Ok(sk.sign(&message).to_bytes().to_vec());
    let CaptureStep::Batch(to_batch) = client.signed(pending, answer, "client-test-key") else {
        panic!("expected Batch");
    };
    assert!(verify_signature_over(&to_batch.trace, &vk, &message));
    assert!(verify_trace_signature(&to_batch.trace, &vk, canonicalize));
    assert_eq!(
        to_batch.trace.signature_key_id.as_deref(),
        Some("client-test-key")
    );
    assert_eq!(
        to_batch.provenance.consent_timestamp,
        provenance().consent_timestamp
    );
    let CaptureStep::Persist(pending) = client.batched(to_batch, Ok(vec![1, 2, 3])) else {
        panic!("expected Persist");
    };
    assert_eq!(*pending.scrubber, "the host's scrubber");
    assert_eq!(pending.trace_id, "trace-client-1");
    assert_eq!(pending.batch, vec![1, 2, 3]);
    let summary = SealSummary {
        trace_events_inserted: 2,
        signatures_verified: 1,
    };
    match client.persisted(pending, Ok(summary)) {
        CaptureStep::Finished(CaptureEventOutcome::SealedAndPersisted {
            trace_id,
            summary: got,
        }) => {
            assert_eq!(trace_id, "trace-client-1");
            assert_eq!(got, summary);
        }
        other => panic!("expected SealedAndPersisted, got {other:?}"),
    }
}

#[test]
fn events_that_seal_nothing_finish_at_once() {
    let client = CaptureClient::new("null", provenance(), None);
    assert!(matches!(
        client.capture_event(CaptureOutcome::Opened, canonicalize),
        CaptureStep::Finished(CaptureEventOutcome::Opened)
    ));
    assert!(matches!(
        client.capture_event(CaptureOutcome::Appended, canonicalize),
        CaptureStep::Finished(CaptureEventOutcome::Appended)
    ));
    let raw = "THOUGHT_STRT_TYPO".to_string();
    match client.capture_event(CaptureOutcome::UnknownEvent { raw }, canonicalize) {
        CaptureStep::Finished(CaptureEventOutcome::Rejected { raw }) => {
            assert_eq!(raw, "THOUGHT_STRT_TYPO")
        }
        other => panic!("expected Rejected, got {other:?}"),
    }
}

#[test]
fn each_step_has_its_failure() {
    let client = CaptureClient::new("null", provenance(), None);
    let failed = |step: CaptureStep<&str>| match step {
        CaptureStep::Failed(error) => error.message(),
        other => panic!("expected Failed, got {other:?}"),
    };
    let sealed = || CaptureOutcome::Sealed(sealed_trace_fixture());
    assert_eq!(
        failed(client.capture_event(sealed(), |_: &Json| Err("bad".to_string()))),
        "seal: canonicalize: canonicalize trace: bad"
    );
    let CaptureStep::Sign(pending) = client.capture_event(sealed(), canonicalize) else {
        panic!("expected Sign");
    };
    assert_eq!(
        failed(client.signed(pending, Err("locked".into()), "k")),
        "seal: hardware sign: locked"
    );
    let about = provenance();
    let to_batch = || PendingBatch {
        trace: sealed_trace_fixture(),
        provenance: &about,
    };
    assert_eq!(
        failed(client.batched(
            to_batch(),
            Err(BatchBuildError::Other("too big".into()))
        )),
        "batch: too big"
    );
    let CaptureStep::Persist(pending) = client.batched(to_batch(), Ok(vec![])) else {
        panic!("expected Persist");
    };
    assert_eq!(
        failed(client.persisted(pending, Err("gone".into()))),
        "persist: gone"
    );
}

#[test]
fn lost_batch_is_not_retried() {
    let client = CaptureClient::new("null", provenance(), None);
    let about = provenance();
    let to_batch = PendingBatch {
        trace: sealed_trace_fixture(),
        provenance: &about,
    };
    let CaptureStep::Persist(pending) = client.batched(to_batch, Ok(vec![])) else {
        panic!("expected Persist");
    };
    assert!(matches!(
        client.persisted(pending, Err("gone".into())),
        CaptureStep::Failed(ClientError::Persist(_))
    ));
    assert!(matches!(
        client.capture_event(CaptureOutcome::Opened, canonicalize),
        CaptureStep::Finished(CaptureEventOutcome::Opened)
    ));
}

#[test]
fn sign_trace_via_local_signer_round_trips_verify() {
    let sk = SigningKey::from_bytes(&[58u8; 32]);
    let vk = sk.verifying_key().to_bytes();

    let pending =
        sign_trace_via_hardware_signer(sealed_trace_fixture(), canonicalize).expect("sign");
    let answer = Ok(sk.sign(&pending.message).to_bytes().to_vec());
    let (trace, signed) = pending.signed(answer, "hw-key-alias");
    signed.expect("sign");

    assert_eq!(trace.signature_key_id.as_deref(), Some("hw-key-alias"));
    assert!(
        verify_trace_signature(&trace, &vk, canonicalize),
        "signature stamped by local signer must verify"
    );
}

#[test]
fn failed_signer_leaves_the_trace() {
    let pending = sign_trace_via_hardware_signer(sealed_trace_fixture(), canonicalize).unwrap();
    let (trace, signed) = pending.signed(Err("locked".into()), "k");
    assert_eq!(signed.unwrap_err().message(), "hardware sign: locked");
    assert!(trace.signature.is_none());
    assert!(trace.signature_key_id.is_none());
}

#[test]
fn failed_canonicalizer_leaves_the_trace() {
    let failed =
        sign_trace_via_hardware_signer(sealed_trace_fixture(), |_: &Json| Err("no".to_string()));
    let (trace, error) = failed.unwrap_err();
    assert_eq!(error.message(), "canonicalize: canonicalize trace: no");
    assert_eq!(trace.trace_id, "trace-client-1");
    assert!(trace.signature.is_none());
}

#[test]
fn new_trace_is_named_after_its_thought() {
    assert_eq!(trace_id_for_new(&inbound("th1")), "th1");
}

#[test]
fn orphan_age_is_clamped() {
    let client = CaptureClient::new("null", provenance(), None);
    assert_eq!(client.orphan_sweep("now", 0), ("now", 0));
    assert_eq!(client.orphan_sweep("now", 3600), ("now", 3600));
    assert_eq!(
        client.orphan_sweep((), i64::MAX as u64),
        ((), i64::MAX)
    );
    assert_eq!(
        client.orphan_sweep((), i64::MAX as u64 + 1),
        ((), i64::MAX)
    );
    assert_eq!(client.orphan_sweep((), u64::MAX), ((), i64::MAX));
}

#[test]
fn client_error_display_is_actionable() {
    let batch_err = ClientError::Batch(BatchBuildError::EmptyBatch);
    assert!(batch_err.message().contains("batch"));

    let persist_err = ClientError::Persist("connection refused".into());
    assert!(persist_err.message().contains("persist"));
    assert!(persist_err.message().contains("connection refused"));

    let seal_err = ClientError::Seal(SealSignError::Canonicalize("oops".into()));
    assert!(seal_err.message().contains("seal"));
}

#[test]
fn client_error_exact_texts() {
    assert_eq!(
        ClientError::Batch(BatchBuildError::UnsignedTrace).message(),
        "batch: unsigned trace"
    );
    assert_eq!(
        ClientError::Batch(BatchBuildError::EmptyBatch).message(),
        "batch: empty batch"
    );
    assert_eq!(
        ClientError::Seal(SealSignError::LocalSigner("no key".into())).message(),
        "seal: no key"
    );
    assert_eq!(
        ClientError::Seal(SealSignError::HardwareSign("no key".into())).message(),
        "seal: hardware sign: no key"
    );
}

#[test]
fn seal_summary_fields_accessible() {
    let s = SealSummary {
        trace_events_inserted: 3,
        signatures_verified: 1,
    };
    assert_eq!(s.trace_events_inserted, 3);
    assert_eq!(s.signatures_verified, 1);
}
