use ciris_lens_core::capture::seal::{
    apply_signature, build_canonical_envelope, canonical_bytes, encode_signature, strip_empty,
    verify_signature_over, verify_trace_signature,
};
use ciris_lens_core::capture::trace::{CompleteTrace, TraceComponent};
use ciris_lens_core::codec::{from_value, to_value};
use ciris_lens_core::json::Json;
use ed25519_dalek::{Signer, SigningKey};
use serde_json::Value;

const TRACE_SCHEMA_VERSION: &str = "2.7.9";

fn value(text: &str) -> Value {
    serde_json::from_str(text).unwrap()
}

fn json(text: &str) -> Json {
    from_value(value(text))
}

fn canonicalize(document: &Json) -> Result<Vec<u8>, String> {
    serde_json::to_vec(&to_value(document.clone())).map_err(|e| e.to_string())
}

fn component(event_type: &str, component_type: &str, ts: &str, data: Json) -> TraceComponent {
    TraceComponent {
        component_type: component_type.into(),
        event_type: event_type.into(),
        timestamp: ts.into(),
        attempt_index: 0,
        data,
        agent_id_hash: "agenthash".into(),
    }
}

fn sealed_trace() -> CompleteTrace {
    CompleteTrace {
        trace_id: "trace-1".into(),
        thought_id: "t1".into(),
        task_id: Some("task-1".into()),
        agent_id_hash: "agenthash".into(),
        started_at: "2026-06-08T00:00:00Z".into(),
        completed_at: Some("2026-06-08T00:00:02Z".into()),
        components: vec![
            component(
                "THOUGHT_START",
                "observation",
                "2026-06-08T00:00:00Z",
                json(r#"{"thought": "hi"}"#),
            ),
            component(
                "ACTION_RESULT",
                "action",
                "2026-06-08T00:00:02Z",
                json(r#"{"action": "SPEAK"}"#),
            ),
        ],
        signature: None,
        signature_key_id: None,
        trace_level: Some("FULL_TRACES".into()),
        trace_schema_version: TRACE_SCHEMA_VERSION.into(),
        deployment_profile: None,
    }
}

fn envelope(trace: &CompleteTrace) -> Value {
    to_value(build_canonical_envelope(trace))
}

#[test]
fn strip_empty_keeps_zero_and_false() {
    let v = json(r#"{"a": 0, "b": false, "c": null, "d": "", "e": [], "f": {}, "g": "x"}"#);
    let stripped = strip_empty(v);
    assert_eq!(to_value(stripped), value(r#"{"a": 0, "b": false, "g": "x"}"#));
}

#[test]
fn strip_empty_is_recursive() {
    let v = json(r#"{"outer": {"keep": 1, "drop": "", "nested": {"empty": null}}}"#);
    assert_eq!(to_value(strip_empty(v)), value(r#"{"outer": {"keep": 1}}"#));
}

#[test]
fn strip_empty_filters_null_from_arrays() {
    let v = json(r#"{"xs": [1, null, 2, "", 0]}"#);
    assert_eq!(to_value(strip_empty(v)), value(r#"{"xs": [1, 2, "", 0]}"#));
}

#[test]
fn strip_empty_leaves_scalars_and_nested_arrays() {
    for text in ["null", "true", "0", "-1.5", "\"\"", "\"x\"", "[]", "{}"] {
        assert_eq!(to_value(strip_empty(json(text))), value(text));
    }
    let v = json(r#"[{"a": null, "b": [null, {"c": ""}]}, null, []]"#);
    assert_eq!(to_value(strip_empty(v)), value(r#"[{"b": [{}]}, []]"#));
}

#[test]
fn strip_empty_twice_is_once() {
    let text = r#"{"a": {"b": [null, {"c": {}}], "d": {"e": ""}}, "f": [null]}"#;
    let once = strip_empty(json(text));
    let twice = strip_empty(once.clone());
    assert_eq!(to_value(once), to_value(twice));
    assert_eq!(to_value(strip_empty(json(text))), value(r#"{"a": {"b": [{}]}}"#));
}

#[test]
fn envelope_has_nine_top_level_fields_no_deployment_profile() {
    let env = envelope(&sealed_trace());
    let obj = env.as_object().unwrap();
    let mut keys: Vec<&str> = obj.keys().map(String::as_str).collect();
    keys.sort_unstable();
    assert_eq!(
        keys,
        vec![
            "agent_id_hash",
            "completed_at",
            "components",
            "started_at",
            "task_id",
            "thought_id",
            "trace_id",
            "trace_level",
            "trace_schema_version",
        ]
    );
}

#[test]
fn deployment_profile_present_iff_set() {
    let mut t = sealed_trace();
    assert!(build_canonical_envelope(&t).get("deployment_profile").is_none());
    t.deployment_profile = Some(json(r#"{"agent_role": "scout"}"#));
    assert_eq!(
        envelope(&t)["deployment_profile"],
        value(r#"{"agent_role": "scout"}"#)
    );
}

#[test]
fn component_carries_five_field_shape_and_wire_strings() {
    let env = envelope(&sealed_trace());
    let comp0 = &env["components"][0];
    assert_eq!(comp0["component_type"], "observation");
    assert_eq!(comp0["event_type"], "THOUGHT_START");
    assert_eq!(comp0["agent_id_hash"], "agenthash");
    assert_eq!(comp0["timestamp"], "2026-06-08T00:00:00Z");
    assert_eq!(comp0["data"], value(r#"{"thought": "hi"}"#));
    assert_eq!(comp0.as_object().unwrap().len(), 5);
}

#[test]
fn component_agent_id_hash_falls_back_to_trace() {
    let mut t = sealed_trace();
    t.components[0].agent_id_hash = String::new();
    let env = envelope(&t);
    assert_eq!(env["components"][0]["agent_id_hash"], "agenthash");
}

#[test]
fn component_hash_of_its_own_is_kept() {
    let mut t = sealed_trace();
    t.components[1].agent_id_hash = "other".into();
    let env = envelope(&t);
    assert_eq!(env["components"][0]["agent_id_hash"], "agenthash");
    assert_eq!(env["components"][1]["agent_id_hash"], "other");
}

#[test]
fn component_without_payload_loses_its_data() {
    let mut t = sealed_trace();
    t.components[0].data = json(r#"{"thought": "", "more": []}"#);
    t.components[0].timestamp = String::new();
    let env = envelope(&t);
    assert_eq!(
        env["components"][0],
        value(
            r#"{"agent_id_hash": "agenthash", "component_type": "observation",
                "event_type": "THOUGHT_START"}"#
        )
    );
}

#[test]
fn task_id_and_completed_at_null_when_absent() {
    let mut t = sealed_trace();
    t.task_id = None;
    t.completed_at = None;
    let env = envelope(&t);
    assert!(env.get("task_id").is_some());
    assert_eq!(env["task_id"], Value::Null);
    assert_eq!(env["completed_at"], Value::Null);
}

#[test]
fn canonical_bytes_are_byte_exact_sorted_compact() {
    let t = CompleteTrace {
        trace_id: "tr".into(),
        thought_id: "th".into(),
        task_id: None,
        agent_id_hash: "ah".into(),
        started_at: "2026-06-08T00:00:00Z".into(),
        completed_at: Some("2026-06-08T00:00:01Z".into()),
        components: vec![TraceComponent {
            component_type: "action".into(),
            event_type: "ACTION_RESULT".into(),
            timestamp: "2026-06-08T00:00:01Z".into(),
            attempt_index: 0,
            data: json(r#"{"k": "v"}"#),
            agent_id_hash: "ah".into(),
        }],
        signature: None,
        signature_key_id: None,
        trace_level: Some("GENERIC".into()),
        trace_schema_version: "2.7.9".into(),
        deployment_profile: None,
    };
    let bytes = canonical_bytes(&t, canonicalize).expect("canonicalize");
    let got = String::from_utf8(bytes).unwrap();
    let expected = [
        r#"{"agent_id_hash":"ah","completed_at":"2026-06-08T00:00:01Z","#,
        r#""components":[{"agent_id_hash":"ah","component_type":"action","#,
        r#""data":{"k":"v"},"event_type":"ACTION_RESULT","#,
        r#""timestamp":"2026-06-08T00:00:01Z"}],"started_at":"2026-06-08T00:00:00Z","#,
        r#""task_id":null,"thought_id":"th","trace_id":"tr","#,
        r#""trace_level":"GENERIC","trace_schema_version":"2.7.9"}"#,
    ]
    .concat();
    assert_eq!(got, expected);
}

#[test]
fn canonicalizer_error_names_the_step() {
    let failed = canonical_bytes(&sealed_trace(), |_: &Json| Err("no".to_string()));
    assert_eq!(failed.unwrap_err(), "canonicalize trace: no");
}

#[test]
fn encode_signature_is_urlsafe_no_pad() {
    let sig = [0xFBu8; 64];
    let enc = encode_signature(&sig);
    assert_eq!(enc.len(), 86);
    assert!(!enc.contains('='));
    assert!(!enc.contains('+') && !enc.contains('/'));
}

#[test]
fn encode_signature_exact_texts() {
    assert_eq!(encode_signature(&[]), "");
    assert_eq!(encode_signature(b"f"), "Zg");
    assert_eq!(encode_signature(b"fo"), "Zm8");
    assert_eq!(encode_signature(b"foo"), "Zm9v");
    assert_eq!(encode_signature(b"foob"), "Zm9vYg");
    assert_eq!(encode_signature(&[0xfb, 0xff, 0xfe]), "-__-");
}

#[test]
fn sign_verify_round_trip_matches_agent_algorithm() {
    let sk = SigningKey::from_bytes(&[7u8; 32]);
    let vk = sk.verifying_key();

    let mut t = sealed_trace();
    let msg = canonical_bytes(&t, canonicalize).expect("canonicalize");
    let sig = sk.sign(&msg);
    apply_signature(&mut t, &sig.to_bytes(), "agent-unified-key");

    assert_eq!(t.signature_key_id.as_deref(), Some("agent-unified-key"));
    assert!(
        verify_trace_signature(&t, &vk.to_bytes(), canonicalize),
        "freshly signed trace must verify"
    );
    assert!(verify_signature_over(&t, &vk.to_bytes(), &msg));
}

#[test]
fn signing_keeps_the_envelope() {
    let before = sealed_trace();
    let mut after = before.clone();
    apply_signature(&mut after, &[5u8; 64], "k");
    assert_eq!(envelope(&before), envelope(&after));
    assert_eq!(after.signature, Some(encode_signature(&[5u8; 64])));
}

#[test]
fn tampering_any_signed_field_invalidates() {
    let sk = SigningKey::from_bytes(&[9u8; 32]);
    let vk = sk.verifying_key().to_bytes();

    let mut t = sealed_trace();
    let sig = sk.sign(&canonical_bytes(&t, canonicalize).unwrap());
    apply_signature(&mut t, &sig.to_bytes(), "k");
    assert!(verify_trace_signature(&t, &vk, canonicalize));

    let mut tampered = t.clone();
    tampered.trace_id = "swapped".into();
    assert!(!verify_trace_signature(&tampered, &vk, canonicalize));

    let mut tampered2 = t.clone();
    tampered2.components[0].data = json(r#"{"thought": "EVIL"}"#);
    assert!(!verify_trace_signature(&tampered2, &vk, canonicalize));

    let other = SigningKey::from_bytes(&[1u8; 32]).verifying_key();
    assert!(!verify_trace_signature(&t, &other.to_bytes(), canonicalize));
}

#[test]
fn tampering_each_field_changes_the_envelope() {
    let base = envelope(&sealed_trace());
    let mut t = sealed_trace();
    t.thought_id = "x".into();
    assert_ne!(envelope(&t), base);
    let mut t = sealed_trace();
    t.task_id = None;
    assert_ne!(envelope(&t), base);
    let mut t = sealed_trace();
    t.task_id = Some(String::new());
    assert_ne!(envelope(&t), base);
    let mut t = sealed_trace();
    t.started_at = "x".into();
    assert_ne!(envelope(&t), base);
    let mut t = sealed_trace();
    t.completed_at = None;
    assert_ne!(envelope(&t), base);
    let mut t = sealed_trace();
    t.trace_level = Some("GENERIC".into());
    assert_ne!(envelope(&t), base);
    let mut t = sealed_trace();
    t.trace_schema_version = "2.7.0".into();
    assert_ne!(envelope(&t), base);
    let mut t = sealed_trace();
    t.deployment_profile = Some(Json::Null);
    assert_ne!(envelope(&t), base);
    let mut t = sealed_trace();
    t.components.pop();
    assert_ne!(envelope(&t), base);
    let mut t = sealed_trace();
    t.components[1].event_type = "ROUND".into();
    assert_ne!(envelope(&t), base);
}

#[test]
fn what_is_not_signed_keeps_the_envelope() {
    let base = envelope(&sealed_trace());
    let mut t = sealed_trace();
    t.components[0].attempt_index = 7;
    assert_eq!(envelope(&t), base);
    let mut t = sealed_trace();
    t.components[0].agent_id_hash = String::new();
    assert_eq!(envelope(&t), base);
    let mut t = sealed_trace();
    t.components[0].data = json(r#"{"thought": "hi", "note": ""}"#);
    assert_eq!(envelope(&t), base);
}

#[test]
fn verify_fails_closed_on_missing_or_garbled_signature() {
    let vk = SigningKey::from_bytes(&[3u8; 32]).verifying_key().to_bytes();
    let mut t = sealed_trace();
    assert!(!verify_trace_signature(&t, &vk, canonicalize));
    t.signature = Some("!!!not base64!!!".into());
    assert!(!verify_trace_signature(&t, &vk, canonicalize));
    t.signature = Some(encode_signature(&[0u8; 10]));
    assert!(!verify_trace_signature(&t, &vk, canonicalize));
}

#[test]
fn verify_refuses_texts_that_encoding_never_writes() {
    let sk = SigningKey::from_bytes(&[7u8; 32]);
    let vk = sk.verifying_key().to_bytes();
    let mut t = sealed_trace();
    let msg = canonical_bytes(&t, canonicalize).unwrap();
    let good = encode_signature(&sk.sign(&msg).to_bytes());
    t.signature = Some(good.clone());
    assert!(verify_signature_over(&t, &vk, &msg));
    t.signature = Some(format!("{good}=="));
    assert!(!verify_signature_over(&t, &vk, &msg));
    let last = good.chars().last().unwrap();
    let surplus = if last == 'A' { 'B' } else { '_' };
    t.signature = Some(format!("{}{surplus}", &good[..85]));
    assert!(!verify_signature_over(&t, &vk, &msg));
}

#[test]
fn verify_fails_closed_when_nothing_is_canonical_or_the_key_is_none() {
    let sk = SigningKey::from_bytes(&[7u8; 32]);
    let vk = sk.verifying_key().to_bytes();
    let mut t = sealed_trace();
    let msg = canonical_bytes(&t, canonicalize).unwrap();
    apply_signature(&mut t, &sk.sign(&msg).to_bytes(), "k");
    assert!(!verify_trace_signature(&t, &vk, |_: &Json| Err(
        "no".to_string()
    )));
    let mut no_key = [0xffu8; 32];
    no_key[31] = 0x7f;
    no_key[0] = 0xec;
    assert!(!verify_trace_signature(&t, &no_key, canonicalize));
}
