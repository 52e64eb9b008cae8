use ciris_lens_core::capture::client::{CaptureEventOutcome, ClientError, SealSummary};
use ciris_lens_core::capture::trace::{BatchProvenance, CompleteTrace};
use ciris_lens_core::codec::{from_value, parse, render, to_value};
use ciris_lens_core::config::egress::TraceLevel;
use ciris_lens_core::detector::{DeclaredCohortAxes, Features};
use ciris_lens_core::ffi::batch::{
    process_one, process_trace_batch, severity_str, trace_assembled, trace_pqc_signed, trace_prepared, trace_put,
    trace_signed, trace_written, BatchArguments, PerTraceSummary, TraceBatch,
};
use ciris_lens_core::ffi::client::{
    capture_event, client_path, event_batched, event_keyed, event_persisted, event_signed,
    keep_correlation, outcome_to_dict, plan_client, settings_for, sovereign_captured,
    ClientArguments, ClientPath, CohabitationStep, EngineSummary, PendingKey, PendingSeal, PrepareOutcome,
    SummaryField,
};
use ciris_lens_core::ffi::engine::{local_key_id, EngineAnswer};
use ciris_lens_core::ffi::event::{dict_to_inbound_event, FieldValue};
use ciris_lens_core::ffi::relay::{install_relay, relay_attached, require_runtime};
use ciris_lens_core::ffi::scrub::{
    parse_level, scrub_trace, scrub_trace_answered, scrub_traces_batch,
    scrub_traces_batch_answered, stats_to_dict, ScrubStats, ScrubbedTrace,
};
use ciris_lens_core::ffi::value::{HostDict, HostError, HostValue};
use ciris_lens_core::json::Json;
use ciris_lens_core::scoring::result::Severity;

fn json(text: &str) -> Json {
    from_value(serde_json::from_str(text).unwrap())
}

fn json_error(text: &str) -> String {
    serde_json::from_str::<serde_json::Value>(text)
        .unwrap_err()
        .to_string()
}

fn shown(value: &HostValue) -> String {
    match value {
        HostValue::Text(text) => format!("{text:?}"),
        HostValue::Count(count) => format!("{count}"),
        HostValue::Flag(flag) => format!("{flag}"),
        HostValue::Dict(dict) => show(dict),
        HostValue::List(values) => {
            let items: Vec<String> = values.iter().map(shown).collect();
            format!("[{}]", items.join(", "))
        }
    }
}

fn show(dict: &HostDict) -> String {
    let items: Vec<String> = dict
        .entries
        .iter()
        .map(|(name, value)| format!("{name}: {}", shown(value)))
        .collect();
    format!("{{{}}}", items.join(", "))
}

fn value_error(error: HostError) -> String {
    match error {
        HostError::Value(message) => message,
        other => panic!("expected Value, got {other:?}"),
    }
}

fn runtime_error(error: HostError) -> String {
    match error {
        HostError::Runtime(message) => message,
        other => panic!("expected Runtime, got {other:?}"),
    }
}

#[test]
fn levels_are_read_or_refused() {
    assert_eq!(parse_level("generic").unwrap(), TraceLevel::Generic);
    assert_eq!(parse_level("detailed").unwrap(), TraceLevel::Detailed);
    assert_eq!(parse_level("full_traces").unwrap(), TraceLevel::FullTraces);
    assert_eq!(
        value_error(parse_level("a\"b\n").unwrap_err()),
        "invalid trace_level \"a\\\"b\\n\"; expected one of: generic, detailed, full_traces"
    );
}

#[test]
fn host_errors_print_with_their_type() {
    assert_eq!(HostError::Value("a".into()).message(), "ValueError: a");
    assert_eq!(HostError::Runtime("b".into()).message(), "RuntimeError: b");
    assert_eq!(
        HostError::Raised("TypeError: c".into()).message(),
        "TypeError: c"
    );
}

fn stats() -> ScrubStats {
    ScrubStats {
        entities_redacted: 1,
        regex_redactions: 2,
        fields_modified: 3,
        walker_max_depth: 4,
        ner_ran: true,
        ner_cache_hits: 5,
        ner_cache_misses: 6,
    }
}

const STATS_SHOWN: &str = "{entities_redacted: 1, regex_redactions: 2, fields_modified: 3, \
walker_max_depth: 4, ner_ran: true, ner_cache_hits: 5, ner_cache_misses: 6}";

#[test]
fn stats_have_seven_values() {
    assert_eq!(show(&stats_to_dict(&stats())), STATS_SHOWN);
}

#[test]
fn scrub_reads_the_trace_before_the_level() {
    let request = scrub_trace(r#"{"a": [1, null]}"#, "detailed").unwrap();
    assert_eq!(
        to_value(request.value).to_string(),
        r#"{"a":[1,null]}"#
    );
    assert_eq!(request.level, TraceLevel::Detailed);
    assert_eq!(
        value_error(scrub_trace("nope", "nope").unwrap_err()),
        format!("invalid trace JSON: {}", json_error("nope"))
    );
    assert!(value_error(scrub_trace("1", "nope").unwrap_err()).starts_with("invalid trace_level"));
}

#[test]
fn scrub_answers_with_a_json_text() {
    let scrubbed = ScrubbedTrace {
        value: json(r#"{"b": 1, "a": "x"}"#),
        stats: stats(),
    };
    assert_eq!(
        show(&scrub_trace_answered(Ok(scrubbed), "generic").unwrap()),
        format!(
            "{{trace: {:?}, level: \"generic\", stats: {STATS_SHOWN}}}",
            r#"{"a":"x","b":1}"#
        )
    );
    assert_eq!(
        runtime_error(scrub_trace_answered(Err("x".into()), "generic").unwrap_err()),
        "scrub failed: x"
    );
}

#[test]
fn scrub_batch_names_the_first_bad_trace() {
    let texts = vec!["1".to_string(), "{}".to_string()];
    let request = scrub_traces_batch(&texts, "generic").unwrap();
    assert_eq!(request.values.len(), 2);
    assert_eq!(request.level, TraceLevel::Generic);
    let texts = vec!["1".to_string(), "{".to_string(), "[".to_string()];
    assert_eq!(
        value_error(scrub_traces_batch(&texts, "nope").unwrap_err()),
        format!("invalid trace JSON at index 1: {}", json_error("{"))
    );
    assert!(
        value_error(scrub_traces_batch(&vec![], "nope").unwrap_err())
            .starts_with("invalid trace_level \"nope\"")
    );
}

#[test]
fn scrub_batch_keeps_the_order() {
    let scrubbed = |text: &str| ScrubbedTrace {
        value: json(text),
        stats: stats(),
    };
    let batch = vec![scrubbed("1"), scrubbed("2")];
    let dicts = scrub_traces_batch_answered(Ok(batch), "generic").unwrap();
    assert_eq!(dicts.len(), 2);
    assert!(show(&dicts[0]).starts_with("{trace: \"1\""));
    assert!(show(&dicts[1]).starts_with("{trace: \"2\""));
    assert_eq!(
        runtime_error(scrub_traces_batch_answered(Err("x".into()), "generic").unwrap_err()),
        "batch scrub failed: x"
    );
}

fn text_field(name: &str, text: &str) -> (String, FieldValue) {
    (name.to_string(), FieldValue::Text(text.to_string()))
}

fn required() -> Vec<(String, FieldValue)> {
    vec![
        text_field("event_type", "THOUGHT_START"),
        text_field("thought_id", "th1"),
        text_field("timestamp", "2026-06-10T00:00:00Z"),
        text_field("agent_id_hash", "deadbeef"),
    ]
}

fn no_dumps() -> Result<String, HostError> {
    panic!("nothing to write out")
}

#[test]
fn event_with_required_fields_only() {
    let event = dict_to_inbound_event(&required(), no_dumps).unwrap();
    assert_eq!(event.event_type, "THOUGHT_START");
    assert_eq!(event.thought_id, "th1");
    assert_eq!(event.timestamp, "2026-06-10T00:00:00Z");
    assert_eq!(event.agent_id_hash, "deadbeef");
    assert_eq!(event.task_id, None);
    assert_eq!(event.trace_level, None);
    assert_eq!(to_value(event.data).to_string(), "{}");
}

#[test]
fn event_with_everything() {
    let mut component = required();
    component.push(text_field("task_id", "task-1"));
    component.push(("trace_level".into(), FieldValue::Nothing));
    component.push(("data".into(), FieldValue::Other));
    let event = dict_to_inbound_event(&component, || Ok(r#"{"k": "v"}"#.to_string())).unwrap();
    assert_eq!(event.task_id.as_deref(), Some("task-1"));
    assert_eq!(event.trace_level, None);
    assert_eq!(to_value(event.data).to_string(), r#"{"k":"v"}"#);
}

#[test]
fn event_without_payload_of_its_own() {
    let mut component = required();
    component.push(("data".into(), FieldValue::Nothing));
    let event = dict_to_inbound_event(&component, no_dumps).unwrap();
    assert_eq!(to_value(event.data).to_string(), "{}");
}

#[test]
fn missing_and_mistyped_fields_are_named() {
    for (at, name) in [
        (0usize, "event_type"),
        (1, "thought_id"),
        (2, "timestamp"),
        (3, "agent_id_hash"),
    ] {
        let mut component = required();
        component.remove(at);
        assert_eq!(
            value_error(dict_to_inbound_event(&component, no_dumps).unwrap_err()),
            format!("component dict missing required field \"{name}\"")
        );
        for bad in [FieldValue::Nothing, FieldValue::Other] {
            let mut component = required();
            component[at].1 = bad;
            assert_eq!(
                value_error(dict_to_inbound_event(&component, no_dumps).unwrap_err()),
                format!("component field \"{name}\" must be a str")
            );
        }
    }
    for name in ["task_id", "trace_level"] {
        let mut component = required();
        component.push((name.into(), FieldValue::Other));
        assert_eq!(
            value_error(dict_to_inbound_event(&component, no_dumps).unwrap_err()),
            format!("component field \"{name}\" must be a str or None")
        );
    }
}

#[test]
fn payload_that_cannot_be_written_or_read() {
    let mut component = required();
    component.push(("data".into(), FieldValue::Other));
    let raised = dict_to_inbound_event(&component, || {
        Err(HostError::Raised("TypeError: set".into()))
    });
    assert!(matches!(raised, Err(HostError::Raised(_))));
    let unread = dict_to_inbound_event(&component, || Ok("NaN".to_string()));
    assert_eq!(
        value_error(unread.unwrap_err()),
        format!(
            "component field \"data\" is not JSON-serializable: {}",
            json_error("NaN")
        )
    );
}

fn axes() -> DeclaredCohortAxes {
    DeclaredCohortAxes {
        agent_role: None,
        agent_template: None,
        deployment_domain: None,
        deployment_type: None,
        deployment_region: None,
        deployment_trust_mode: None,
    }
}

fn hash(raw: &str) -> Vec<u8> {
    vec![raw.len() as u8]
}

fn declare(_: &Json) -> DeclaredCohortAxes {
    axes()
}

fn extract(_: &Json, _: &DeclaredCohortAxes) -> Features {
    Features { declared: axes() }
}

fn cell(_: &DeclaredCohortAxes) -> Json {
    Json::Null
}

#[test]
fn one_trace_goes_all_the_way() {
    let text = r#"  {"trace_id": "t-9"} "#;
    let inputs = process_one(text, hash, declare, extract, cell).unwrap();
    assert_eq!(inputs.trace_id, "t-9");
    assert_eq!(inputs.body_sha256, vec![19]);
    assert_eq!(inputs.ratchet_calibration_version, 0);
    let prepared = trace_prepared(inputs, Ok(vec![1, 2])).unwrap();
    let half = trace_signed(prepared, EngineAnswer::Given(vec![3, 4])).unwrap();
    assert_eq!(half.bound_msg, vec![1, 2, 3, 4]);
    let signed = trace_pqc_signed(half, EngineAnswer::Given(vec![5])).unwrap();
    assert_eq!(signed.ed25519_sig, vec![3, 4]);
    assert_eq!(signed.ml_dsa_65_sig, vec![5]);
    let assembled = trace_assembled(signed, Ok("d-1".into())).unwrap();
    let written = trace_written(assembled, Ok("{}".into())).unwrap();
    assert_eq!(written.event_json, "{}");
    let summary = trace_put(written, Ok(())).unwrap();
    assert_eq!(summary.detection_id, "d-1");
    assert_eq!(summary.trace_id, "t-9");
    assert_eq!(summary.severity, "info");
}

#[test]
fn each_step_of_a_trace_has_its_error() {
    let open = |text: &str| process_one(text, hash, declare, extract, cell);
    assert_eq!(
        value_error(open("{").unwrap_err()),
        format!("invalid trace JSON: {}", json_error("{"))
    );
    assert_eq!(value_error(open("{}").unwrap_err()), "missing trace_id");
    let text = r#"{"trace_id": "t"}"#;
    let inputs = || open(text).unwrap();
    let prepared = || trace_prepared(inputs(), Ok(vec![1])).unwrap();
    let half = || trace_signed(prepared(), EngineAnswer::Given(vec![2])).unwrap();
    let signed = || trace_pqc_signed(half(), EngineAnswer::Given(vec![3])).unwrap();
    let assembled = || trace_assembled(signed(), Ok("d".into())).unwrap();
    let written = || trace_written(assembled(), Ok("{}".into())).unwrap();
    let failed = || "x".to_string();
    assert_eq!(
        runtime_error(trace_prepared(inputs(), Err(failed())).unwrap_err()),
        "prepare: x"
    );
    assert_eq!(
        runtime_error(trace_signed(prepared(), EngineAnswer::Failed(failed())).unwrap_err()),
        "engine.local_sign: x"
    );
    assert!(matches!(
        trace_signed(prepared(), EngineAnswer::Mistyped(failed())),
        Err(HostError::Raised(_))
    ));
    assert_eq!(
        runtime_error(trace_pqc_signed(half(), EngineAnswer::Failed(failed())).unwrap_err()),
        "engine.local_pqc_sign: x"
    );
    assert_eq!(
        runtime_error(trace_assembled(signed(), Err(failed())).unwrap_err()),
        "assemble: x"
    );
    assert_eq!(
        runtime_error(trace_written(assembled(), Err(failed())).unwrap_err()),
        "serialize event: x"
    );
    assert_eq!(
        runtime_error(trace_put(written(), Err(failed())).unwrap_err()),
        "engine.put_detection_event: x"
    );
}

fn summary(id: &str) -> PerTraceSummary {
    PerTraceSummary {
        detection_id: id.to_string(),
        trace_id: format!("t-{id}"),
        severity: "info",
    }
}

#[test]
fn batch_skips_and_continues() {
    let mut batch = TraceBatch::new("b-1".into(), "key".into(), 3);
    assert!(!batch.is_done());
    assert_eq!(batch.record(Ok(summary("a"))), None);
    assert_eq!(
        batch.record(Err(HostError::Value("missing trace_id".into()))),
        Some(
            "ciris_lens_core.process_trace_batch: trace 1 skipped: ValueError: missing trace_id"
                .to_string()
        )
    );
    assert_eq!(batch.record(Ok(summary("c"))), None);
    assert!(batch.is_done());
    assert_eq!(
        show(&batch.finish()),
        "{batch_id: \"b-1\", traces_received: 3, traces_processed: 2, detections: [\
{detection_id: \"a\", trace_id: \"t-a\", severity: \"info\"}, \
{detection_id: \"c\", trace_id: \"t-c\", severity: \"info\"}]}"
    );
}

fn open_batch(received: usize, level: &str) -> Result<TraceBatch, HostError> {
    let arguments = BatchArguments {
        batch_timestamp: "2026-06-10T00:00:05+00:00".into(),
        consent_timestamp: None,
        trace_level: level.into(),
        correlation_metadata: None,
    };
    process_trace_batch(received, arguments, EngineAnswer::Given("key".into()))
}

#[test]
fn batch_ignores_its_arguments() {
    let run = |level: &str| {
        let mut batch = open_batch(2, level).unwrap();
        assert_eq!(batch.signing_key_id(), "key");
        batch.record(Ok(summary("a")));
        batch.record(Err(HostError::Value("x".into())));
        show(&batch.finish()).split_once(", ").unwrap().1.to_string()
    };
    assert_eq!(run("detailed"), run("bogus"));
}

#[test]
fn batch_needs_the_name_of_the_key() {
    let open = |key| {
        let arguments = BatchArguments {
            batch_timestamp: String::new(),
            consent_timestamp: None,
            trace_level: String::new(),
            correlation_metadata: None,
        };
        process_trace_batch(1, arguments, key).unwrap_err()
    };
    assert_eq!(
        runtime_error(open(EngineAnswer::Failed("closed".into()))),
        "engine.local_key_id(): closed"
    );
    assert!(matches!(
        open(EngineAnswer::Mistyped("TypeError".into())),
        HostError::Raised(_)
    ));
}

#[test]
fn batch_has_a_random_uuid() {
    let shown_id = || {
        let dict = open_batch(0, "detailed").unwrap().finish();
        match &dict.entries[0] {
            (name, HostValue::Text(id)) if name == "batch_id" => id.clone(),
            other => panic!("expected batch_id, got {other:?}"),
        }
    };
    let id = shown_id();
    assert_eq!(id.len(), 36);
    for (at, c) in id.chars().enumerate() {
        match at {
            8 | 13 | 18 | 23 => assert_eq!(c, '-'),
            14 => assert_eq!(c, '4'),
            19 => assert!("89ab".contains(c)),
            _ => assert!("0123456789abcdef".contains(c)),
        }
    }
    assert_ne!(id, shown_id());
}

#[test]
fn empty_batch() {
    let batch = TraceBatch::new("b-2".into(), "key".into(), 0);
    assert!(batch.is_done());
    assert_eq!(
        show(&batch.finish()),
        "{batch_id: \"b-2\", traces_received: 0, traces_processed: 0, detections: []}"
    );
}

#[test]
fn severities_on_the_wire() {
    assert_eq!(severity_str(Severity::Info), "info");
    assert_eq!(severity_str(Severity::Warning), "warning");
    assert_eq!(severity_str(Severity::Critical), "critical");
}

fn arguments(level: &str) -> ClientArguments {
    ClientArguments {
        consent_timestamp: Some("2026-01-01T00:00:00+00:00".into()),
        trace_level: level.into(),
        trace_schema_version: "2.7.9".into(),
        consent_attesting_key_id: None,
        local_copy_dir: Some("/tmp/copy".into()),
        deployment_region: None,
        deployment_type: Some("production".into()),
        agent_role: None,
        agent_template: None,
        share_location: true,
        user_location: None,
        user_timezone: Some("UTC".into()),
    }
}

#[test]
fn client_is_planned_from_its_arguments() {
    let plan = plan_client(arguments("generic"), false, no_dumps).unwrap();
    assert_eq!(plan.level, TraceLevel::Generic);
    assert!(!plan.warn_unscrubbed);
    assert!(plan.deployment_profile.is_none());
    assert_eq!(plan.correlation.deployment_region, "");
    assert_eq!(plan.correlation.deployment_type, "production");
    assert_eq!(plan.correlation.user_timezone, "UTC");
    assert!(plan.correlation.share_location);
    assert_eq!(plan.local_copy_dir.as_deref(), Some("/tmp/copy"));
    let plan = plan_client(arguments("detailed"), true, || Ok("{\"a\":1}".into())).unwrap();
    assert!(plan.warn_unscrubbed);
    assert_eq!(
        to_value(plan.deployment_profile.unwrap()).to_string(),
        "{\"a\":1}"
    );
}

#[test]
fn attesting_key_counts_only_on_the_process_engine() {
    let plan = || {
        let mut arguments = arguments("generic");
        arguments.consent_attesting_key_id = Some("attester".into());
        plan_client(arguments, true, || Ok("{}".into())).unwrap()
    };
    assert_eq!(
        settings_for(plan(), ClientPath::Sovereign)
            .consent_attesting_key_id
            .as_deref(),
        Some("attester")
    );
    let settings = settings_for(plan(), ClientPath::Cohabitation);
    assert_eq!(settings.consent_attesting_key_id, None);
    assert_eq!(settings.level, TraceLevel::Generic);
    assert_eq!(settings.trace_schema_version, "2.7.9");
    assert!(settings.deployment_profile.is_some());
    assert_eq!(settings.correlation.user_timezone, "UTC");
    assert_eq!(
        settings.consent_timestamp.as_deref(),
        Some("2026-01-01T00:00:00+00:00")
    );
    assert_eq!(settings.local_copy_dir.as_deref(), Some("/tmp/copy"));
}

#[test]
fn client_refuses_a_bad_level_first() {
    let e = plan_client(arguments("nope"), true, no_dumps).unwrap_err();
    assert!(value_error(e).starts_with("invalid trace_level \"nope\""));
    let e = plan_client(arguments("generic"), true, || Ok("nope".into())).unwrap_err();
    assert_eq!(
        value_error(e),
        format!(
            "deployment_profile: failed to parse as JSON: {}",
            json_error("nope")
        )
    );
    let e = plan_client(arguments("generic"), true, || {
        Err(HostError::Raised("TypeError".into()))
    });
    assert!(matches!(e, Err(HostError::Raised(_))));
}

#[test]
fn client_prefers_the_hosts_engine() {
    assert_eq!(client_path(true, false).unwrap(), ClientPath::Cohabitation);
    assert_eq!(client_path(true, true).unwrap(), ClientPath::Cohabitation);
    assert_eq!(client_path(false, true).unwrap(), ClientPath::Sovereign);
    assert_eq!(
        runtime_error(client_path(false, false).unwrap_err()),
        "no process Engine — host must construct ciris_persist.Engine first. \
         For pip cohabitation (two-wheel deployment) pass engine=<host_engine> \
         to LensClient to fix CIRISLensCore#43.1."
    );
    assert_eq!(keep_correlation(1u8, true), None);
    assert_eq!(keep_correlation(1u8, false), Some(1));
}

#[test]
fn outcomes_for_the_host() {
    assert_eq!(
        show(&outcome_to_dict(CaptureEventOutcome::Opened)),
        "{outcome: \"opened\"}"
    );
    assert_eq!(
        show(&outcome_to_dict(CaptureEventOutcome::Appended)),
        "{outcome: \"appended\"}"
    );
    assert_eq!(
        show(&outcome_to_dict(CaptureEventOutcome::Rejected {
            raw: "X".into()
        })),
        "{outcome: \"rejected\", raw: \"X\"}"
    );
    assert_eq!(
        show(&outcome_to_dict(CaptureEventOutcome::ConsentBlocked {
            reason: "withdrawn".into()
        })),
        "{outcome: \"consent_blocked\", reason: \"withdrawn\"}"
    );
    let sealed = CaptureEventOutcome::SealedAndPersisted {
        trace_id: "t".into(),
        summary: SealSummary {
            trace_events_inserted: 2,
            signatures_verified: 1,
        },
    };
    assert_eq!(
        show(&sovereign_captured(Ok(sealed)).unwrap()),
        "{outcome: \"sealed_and_persisted\", trace_id: \"t\", trace_events_inserted: 2, \
signatures_verified: 1}"
    );
    assert_eq!(
        runtime_error(sovereign_captured(Err(ClientError::Persist("x".into()))).unwrap_err()),
        "capture_event: persist: x"
    );
}

fn trace() -> CompleteTrace {
    CompleteTrace {
        trace_id: "t-1".into(),
        thought_id: "th".into(),
        task_id: None,
        agent_id_hash: "h".into(),
        started_at: "s".into(),
        completed_at: None,
        components: vec![],
        signature: None,
        signature_key_id: None,
        trace_level: None,
        trace_schema_version: "2.7.9".into(),
        deployment_profile: None,
    }
}

fn provenance() -> BatchProvenance {
    BatchProvenance {
        batch_timestamp: "b".into(),
        consent_timestamp: "c".into(),
        trace_level: "generic".into(),
        trace_schema_version: "2.7.9".into(),
        correlation_metadata: None,
    }
}

fn unkeyed() -> PendingKey {
    let ready = PrepareOutcome::ReadyToSeal {
        trace: trace(),
        provenance: provenance(),
    };
    match capture_event(ready, |trace: &CompleteTrace| {
        Ok(trace.trace_id.clone().into_bytes())
    }) {
        Ok(CohabitationStep::NameKey(pending)) => pending,
        other => panic!("expected NameKey, got {other:?}"),
    }
}

fn pending() -> PendingSeal {
    event_keyed(unkeyed(), EngineAnswer::Given("key".into())).unwrap()
}

#[test]
fn cohabitation_seals_through_the_hosts_engine() {
    let pending = pending();
    assert_eq!(pending.canonical, b"t-1".to_vec());
    let sealed = event_signed(pending, EngineAnswer::Given(vec![0; 64])).unwrap();
    assert_eq!(sealed.trace.signature_key_id.as_deref(), Some("key"));
    assert_eq!(sealed.trace.signature, Some("A".repeat(86)));
    let batch = event_batched(sealed, Ok(vec![1])).unwrap();
    assert_eq!(batch.trace_id, "t-1");
    assert_eq!(batch.batch, vec![1]);
    let given = EngineSummary {
        trace_events_inserted: SummaryField::Given(2),
        signatures_verified: SummaryField::Given(1),
    };
    assert_eq!(
        show(&event_persisted(batch.trace_id, EngineAnswer::Given(given)).unwrap()),
        "{outcome: \"sealed_and_persisted\", trace_id: \"t-1\", trace_events_inserted: 2, \
signatures_verified: 1}"
    );
}

#[test]
fn cohabitation_outcomes_that_seal_nothing() {
    let canonical = |_: &CompleteTrace| -> Result<Vec<u8>, String> { panic!("not sealed") };
    let finished = |prepared| match capture_event(prepared, canonical) {
        Ok(CohabitationStep::Finished(dict)) => show(&dict),
        other => panic!("expected Finished, got {other:?}"),
    };
    assert_eq!(finished(PrepareOutcome::Opened), "{outcome: \"opened\"}");
    assert_eq!(
        finished(PrepareOutcome::Appended),
        "{outcome: \"appended\"}"
    );
    assert_eq!(
        finished(PrepareOutcome::Rejected { raw: "r".into() }),
        "{outcome: \"rejected\", raw: \"r\"}"
    );
    assert_eq!(
        finished(PrepareOutcome::ConsentBlocked {
            reason: "no_consent".into()
        }),
        "{outcome: \"consent_blocked\", reason: \"no_consent\"}"
    );
}

#[test]
fn cohabitation_errors() {
    let ready = PrepareOutcome::ReadyToSeal {
        trace: trace(),
        provenance: provenance(),
    };
    assert_eq!(
        runtime_error(
            capture_event(ready, |_: &CompleteTrace| Err("x".to_string())).unwrap_err()
        ),
        "canonical_bytes: x"
    );
    assert_eq!(
        runtime_error(event_keyed(unkeyed(), EngineAnswer::Failed("x".into())).unwrap_err()),
        "engine.local_key_id(): x"
    );
    assert!(matches!(
        event_keyed(unkeyed(), EngineAnswer::Mistyped("TypeError".into())),
        Err(HostError::Raised(_))
    ));
    assert_eq!(
        runtime_error(local_key_id(EngineAnswer::Failed("x".into())).unwrap_err()),
        "engine.local_key_id(): x"
    );
    assert_eq!(local_key_id(EngineAnswer::Given("k".into())).unwrap(), "k");
    assert_eq!(
        runtime_error(
            event_signed(pending(), EngineAnswer::Failed("x".into())).unwrap_err()
        ),
        "engine.local_sign: x"
    );
    assert_eq!(
        runtime_error(
            event_signed(pending(), EngineAnswer::Given(vec![0; 63])).unwrap_err()
        ),
        "engine.local_sign returned 63 bytes, expected 64"
    );
    let sealed = event_signed(pending(), EngineAnswer::Given(vec![0; 64])).unwrap();
    assert_eq!(
        runtime_error(event_batched(sealed, Err("x".into())).unwrap_err()),
        "build_batch_bytes: x"
    );
    let persisted = |answer| event_persisted("t".into(), answer).unwrap_err();
    assert_eq!(
        runtime_error(persisted(EngineAnswer::Failed("x".into()))),
        "engine.receive_and_persist: x"
    );
    assert!(matches!(
        persisted(EngineAnswer::Mistyped("TypeError".into())),
        HostError::Raised(_)
    ));
    assert_eq!(
        runtime_error(persisted(EngineAnswer::Given(EngineSummary {
            trace_events_inserted: SummaryField::Missing,
            signatures_verified: SummaryField::Missing,
        }))),
        "receive_and_persist summary missing 'trace_events_inserted'"
    );
    assert_eq!(
        runtime_error(persisted(EngineAnswer::Given(EngineSummary {
            trace_events_inserted: SummaryField::Given(1),
            signatures_verified: SummaryField::Missing,
        }))),
        "receive_and_persist summary missing 'signatures_verified'"
    );
    assert!(matches!(
        persisted(EngineAnswer::Given(EngineSummary {
            trace_events_inserted: SummaryField::Mistyped("TypeError".into()),
            signatures_verified: SummaryField::Missing,
        })),
        HostError::Raised(_)
    ));
}

#[test]
fn relay_needs_engine_and_runtime() {
    assert!(install_relay(true, true).is_ok());
    assert_eq!(
        runtime_error(install_relay(false, false).unwrap_err()),
        "persist Engine not initialized — construct ciris_persist.Engine first"
    );
    assert_eq!(
        runtime_error(install_relay(true, false).unwrap_err()),
        "persist runtime handle not available"
    );
    assert!(require_runtime(true).is_ok());
    assert_eq!(
        runtime_error(require_runtime(false).unwrap_err()),
        "persist runtime handle not available"
    );
    assert!(relay_attached(Ok(())).is_ok());
    assert_eq!(
        runtime_error(relay_attached(Err("x".into())).unwrap_err()),
        "attach lens-core relay handler: x"
    );
}

#[test]
fn documents_read_and_write() {
    let text = r#"{"a":[null,true,-1,2.5,"x"],"b":{"c":{}}}"#;
    let document = parse(text).unwrap();
    assert_eq!(render(&document).unwrap(), text);
    assert_eq!(parse("[1,").unwrap_err(), json_error("[1,"));
    assert_eq!(
        render(&parse(r#"{"b":1,"a":2,"b":3}"#).unwrap()).unwrap(),
        r#"{"a":2,"b":3}"#
    );
}
