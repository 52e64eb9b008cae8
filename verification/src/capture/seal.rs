//! Sealing a trace: the canonical envelope that is signed, and the signature
//! over its canonical bytes.
use ed25519_dalek::Verifier;
use vstd::prelude::*;

use crate::base64url;
use crate::capture::trace;
use crate::capture::trace::{CompleteTrace, ComponentView, TraceComponent, TraceView};
use crate::json;
use crate::json::{Json, JsonObject, JsonView};
use crate::text;

verus! {

broadcast use json::lemma_json_view;

/// Whether a document is one of the four forms that count as empty:
/// `null`, `""`, `[]` and `{}`.
pub open spec fn is_empty_view(value: JsonView) -> bool {
    match value {
        JsonView::Null => true,
        JsonView::Text(text) => text.len() == 0,
        JsonView::Array(items) => items.len() == 0,
        JsonView::Object(fields) => fields == Map::<Seq<char>, JsonView>::empty(),
        _ => false,
    }
}

/// A document without what is empty: an object loses each field whose stripped
/// value is empty, an array loses its `null` items, and anything else stays.
pub open spec fn stripped(value: JsonView) -> JsonView
    decreases value,
{
    match value {
        JsonView::Object(fields) => JsonView::Object(
            Map::new(
                |name: Seq<char>|
                    fields.contains_key(name) && !is_empty_view(stripped(fields[name])),
                |name: Seq<char>|
                    if fields.contains_key(name) {
                        stripped(fields[name])
                    } else {
                        JsonView::Null
                    },
            ),
        ),
        JsonView::Array(items) => JsonView::Array(stripped_items(items)),
        other => other,
    }
}

/// The items of an array that are not `null`, each stripped.
pub open spec fn stripped_items(items: Seq<JsonView>) -> Seq<JsonView>
    decreases items,
{
    if items.len() == 0 {
        Seq::empty()
    } else {
        let rest = stripped_items(items.drop_last());
        if items.last() is Null {
            rest
        } else {
            rest.push(stripped(items.last()))
        }
    }
}

/// Stripping an object takes its fields one at a time.
proof fn lemma_stripped_insert(
    fields: Map<Seq<char>, JsonView>,
    name: Seq<char>,
    value: JsonView,
)
    requires
        !fields.contains_key(name),
    ensures
        stripped(JsonView::Object(fields.insert(name, value)))->Object_0 == (if is_empty_view(
            stripped(value),
        ) {
            stripped(JsonView::Object(fields))->Object_0
        } else {
            stripped(JsonView::Object(fields))->Object_0.insert(name, stripped(value))
        }),
{
    let more = fields.insert(name, value);
    let left = stripped(JsonView::Object(more))->Object_0;
    let kept = stripped(JsonView::Object(fields))->Object_0;
    let right = if is_empty_view(stripped(value)) {
        kept
    } else {
        kept.insert(name, stripped(value))
    };
    assert forall|key: Seq<char>| left.contains_key(key) <==> right.contains_key(key) by {
        if key != name {
            assert(more.contains_key(key) <==> fields.contains_key(key));
        }
    }
    assert(left =~= right);
}

/// Whether a document is one of the four empty forms. Numbers and booleans
/// never are.
fn is_empty(value: &Json) -> (res: bool)
    ensures
        res == is_empty_view(value@),
{
    match value {
        Json::Null => true,
        Json::Text(text) => text.as_str().is_empty(),
        Json::Array(items) => {
            proof {
                json::lemma_items_view(items@);
            }
            items.is_empty()
        },
        Json::Object(object) => object.is_empty(),
        _ => false,
    }
}

/// Strips what is empty from a document, at every depth. Zero and `false` are
/// values and stay; inside an array only `null` goes.
pub fn strip_empty(value: Json) -> (res: Json)
    ensures
        res@ == stripped(value@),
    decreases value@,
{
    let ghost whole = value@;
    match value {
        Json::Object(object) => {
            let fields = object.into_fields();
            let ghost all = fields@;
            let mut out = JsonObject::new();
            proof {
                assert(out@ =~= stripped(
                    JsonView::Object(json::fields_view(all.take(0))),
                )->Object_0);
            }
            for field in iter: fields
                invariant
                    iter.seq() == all,
                    json::distinct_names(all),
                    whole == value@,
                    whole == JsonView::Object(json::fields_view(all)),
                    out@ == stripped(
                        JsonView::Object(json::fields_view(all.take(iter.index() as int))),
                    )->Object_0,
            {
                let ghost at = iter.index();
                let ghost done = all.take(at);
                let (name, below) = field;
                proof {
                    json::lemma_fields_view(all);
                    assert(all[at] == field);
                    assert(whole->Object_0[name@] == below@);
                    assert(decreases_to!(whole => whole->Object_0[name@]));
                    assert(json::distinct_names(done)) by {
                        assert forall|i: int, j: int| #![trigger done[i], done[j]]
                            0 <= i < j < done.len() implies done[i].0@ != done[j].0@ by {
                            assert(all[i].0@ != all[j].0@);
                        }
                    }
                    json::lemma_fields_view(done);
                    if json::fields_view(done).contains_key(name@) {
                        let i = choose|i: int|
                            0 <= i < done.len() && #[trigger] done[i].0@ == name@;
                        assert(all[i].0@ == all[at].0@);
                    }
                    assert(all.take(at + 1).drop_last() =~= done);
                    lemma_stripped_insert(json::fields_view(done), name@, below@);
                }
                let kept = strip_empty(below);
                if !is_empty(&kept) {
                    out.insert(name, kept);
                }
            }
            proof {
                assert(all.take(all.len() as int) =~= all);
            }
            Json::Object(out)
        },
        Json::Array(items) => {
            let ghost all = items@;
            let mut out: Vec<Json> = Vec::new();
            for item in iter: items
                invariant
                    iter.seq() == all,
                    whole == value@,
                    whole == JsonView::Array(json::items_view(all)),
                    json::items_view(out@) == stripped_items(
                        json::items_view(all.take(iter.index() as int)),
                    ),
            {
                let ghost at = iter.index();
                proof {
                    json::lemma_items_view(all);
                    let below = whole->Array_0;
                    assert(below[at] == item@);
                    assert(decreases_to!(whole => below));
                    assert(decreases_to!(below => below[at]));
                    assert(all.take(at + 1).drop_last() =~= all.take(at));
                    assert(json::items_view(all.take(at + 1)).drop_last() =~= json::items_view(
                        all.take(at),
                    ));
                }
                if !item.is_null() {
                    let ghost before = out@;
                    out.push(strip_empty(item));
                    proof {
                        assert(out@.drop_last() =~= before);
                    }
                }
            }
            proof {
                assert(all.take(all.len() as int) =~= all);
            }
            Json::Array(out)
        },
        other => other,
    }
}

/// An optional text as a document: `null` where there is none.
pub open spec fn text_or_null(text: Option<Seq<char>>) -> JsonView {
    match text {
        Some(text) => JsonView::Text(text),
        None => JsonView::Null,
    }
}

/// The agent hash of a component: its own, or the trace's where its own is
/// blank.
pub open spec fn effective_hash(component: ComponentView, trace_hash: Seq<char>) -> Seq<char> {
    if component.agent_id_hash.len() == 0 {
        trace_hash
    } else {
        component.agent_id_hash
    }
}

/// The five fields of a component that are signed.
pub open spec fn component_fields(component: ComponentView, trace_hash: Seq<char>) -> Map<
    Seq<char>,
    JsonView,
> {
    map![
        "agent_id_hash"@ => JsonView::Text(effective_hash(component, trace_hash)),
        "component_type"@ => JsonView::Text(component.component_type),
        "data"@ => component.data,
        "event_type"@ => JsonView::Text(component.event_type),
        "timestamp"@ => JsonView::Text(component.timestamp),
    ]
}

/// A component as it is signed: its five fields without what is empty.
pub open spec fn component_envelope(component: ComponentView, trace_hash: Seq<char>) -> JsonView {
    stripped(JsonView::Object(component_fields(component, trace_hash)))
}

/// The components as they are signed, in order.
pub open spec fn component_envelopes(components: Seq<ComponentView>, trace_hash: Seq<char>) -> Seq<
    JsonView,
> {
    components.map_values(|component: ComponentView| component_envelope(component, trace_hash))
}

/// The nine fields that every signed trace has.
pub open spec fn base_fields(trace: TraceView) -> Map<Seq<char>, JsonView> {
    map![
        "trace_id"@ => JsonView::Text(trace.trace_id),
        "thought_id"@ => JsonView::Text(trace.thought_id),
        "task_id"@ => text_or_null(trace.task_id),
        "agent_id_hash"@ => JsonView::Text(trace.agent_id_hash),
        "started_at"@ => JsonView::Text(trace.started_at),
        "completed_at"@ => text_or_null(trace.completed_at),
        "trace_level"@ => text_or_null(trace.trace_level),
        "trace_schema_version"@ => JsonView::Text(trace.trace_schema_version),
        "components"@ => JsonView::Array(
            component_envelopes(trace.components, trace.agent_id_hash),
        ),
    ]
}

/// The document that is signed: the nine fields, and the deployment profile
/// where the trace has one.
pub open spec fn envelope(trace: TraceView) -> JsonView {
    JsonView::Object(
        match trace.deployment_profile {
            Some(profile) => base_fields(trace).insert("deployment_profile"@, profile),
            None => base_fields(trace),
        },
    )
}

fn text_value(text: &str) -> (res: Json)
    ensures
        res@ == JsonView::Text(text@),
{
    Json::Text(text.to_owned())
}

fn optional_text_value(text: &Option<String>) -> (res: Json)
    ensures
        res@ == text_or_null(trace::opt_text(*text)),
{
    match text {
        Some(text) => text_value(text.as_str()),
        None => Json::Null,
    }
}

/// The signed form of one component.
fn build_component_envelope(component: &TraceComponent, trace_hash: &str) -> (res: Json)
    ensures
        res@ == component_envelope(component@, trace_hash@),
{
    let agent_id_hash = if component.agent_id_hash.as_str().is_empty() {
        trace_hash
    } else {
        component.agent_id_hash.as_str()
    };
    let mut fields = JsonObject::new();
    fields.insert("agent_id_hash".to_owned(), text_value(agent_id_hash));
    fields.insert("component_type".to_owned(), text_value(component.component_type.as_str()));
    fields.insert("data".to_owned(), component.data.clone());
    fields.insert("event_type".to_owned(), text_value(component.event_type.as_str()));
    fields.insert("timestamp".to_owned(), text_value(component.timestamp.as_str()));
    strip_empty(Json::Object(fields))
}

/// Builds the document that is signed for a sealed trace. `task_id`,
/// `completed_at` and `trace_level` are `null` where the trace has none: only
/// the components lose what is empty.
pub fn build_canonical_envelope(trace: &CompleteTrace) -> (res: Json)
    ensures
        res@ == envelope(trace@),
{
    let mut components: Vec<Json> = Vec::new();
    let mut i: usize = 0;
    while i < trace.components.len()
        invariant
            i <= trace.components@.len(),
            json::items_view(components@) == component_envelopes(
                trace::components_view(trace.components@.take(i as int)),
                trace.agent_id_hash@,
            ),
        decreases trace.components@.len() - i,
    {
        let ghost before = components@;
        components.push(
            build_component_envelope(&trace.components[i], trace.agent_id_hash.as_str()),
        );
        proof {
            assert(components@.drop_last() =~= before);
            assert(trace.components@.take(i + 1).drop_last() =~= trace.components@.take(i as int));
            assert(json::items_view(components@) =~= component_envelopes(
                trace::components_view(trace.components@.take(i + 1)),
                trace.agent_id_hash@,
            ));
        }
        i += 1;
    }
    proof {
        assert(trace.components@.take(i as int) =~= trace.components@);
    }
    let mut fields = JsonObject::new();
    fields.insert("trace_id".to_owned(), text_value(trace.trace_id.as_str()));
    fields.insert("thought_id".to_owned(), text_value(trace.thought_id.as_str()));
    fields.insert("task_id".to_owned(), optional_text_value(&trace.task_id));
    fields.insert("agent_id_hash".to_owned(), text_value(trace.agent_id_hash.as_str()));
    fields.insert("started_at".to_owned(), text_value(trace.started_at.as_str()));
    fields.insert("completed_at".to_owned(), optional_text_value(&trace.completed_at));
    fields.insert("trace_level".to_owned(), optional_text_value(&trace.trace_level));
    fields.insert(
        "trace_schema_version".to_owned(),
        text_value(trace.trace_schema_version.as_str()),
    );
    fields.insert("components".to_owned(), Json::Array(components));
    if let Some(profile) = &trace.deployment_profile {
        fields.insert("deployment_profile".to_owned(), profile.clone());
    }
    Json::Object(fields)
}

/// Whether a canonicalizer may give an answer when it is handed a document
/// that says `document`.
pub open spec fn may_answer<C: Fn(&Json) -> Result<Vec<u8>, String>>(
    canonicalize: C,
    document: JsonView,
    answer: Result<Vec<u8>, String>,
) -> bool {
    exists|asked: &Json|
        asked@ == document && #[trigger] call_ensures(canonicalize, (asked,), answer)
}

/// The bytes of a sealed trace that are signed: what the canonicalizer makes of
/// the trace's envelope. Its error comes back as a text that names the step.
pub fn canonical_bytes<C: Fn(&Json) -> Result<Vec<u8>, String>>(
    trace: &CompleteTrace,
    canonicalize: C,
) -> (res: Result<Vec<u8>, String>)
    requires
        forall|document: &Json| #[trigger] call_requires(canonicalize, (document,)),
    ensures
        match res {
            Ok(bytes) => may_answer(canonicalize, envelope(trace@), Ok(bytes)),
            Err(message) => exists|error: String|
                #[trigger] may_answer(canonicalize, envelope(trace@), Err(error)) && message@
                    == "canonicalize trace: "@ + error@,
        },
{
    let document = build_canonical_envelope(trace);
    let answer = canonicalize(&document);
    proof {
        assert(may_answer(canonicalize, document@, answer));
    }
    match answer {
        Ok(bytes) => Ok(bytes),
        Err(error) => Err(text::join("canonicalize trace: ", error.as_str())),
    }
}

/// Encodes a signature for the `signature` field of a trace.
pub fn encode_signature(sig_bytes: &[u8]) -> (res: String)
    requires
        base64url::base64url_len(sig_bytes@.len()) <= isize::MAX,
    ensures
        res@ == base64url::base64url(sig_bytes@),
{
    base64url::encode(sig_bytes)
}

/// A trace with a signature and the name of the key that made it.
pub open spec fn signed(trace: TraceView, sig_bytes: Seq<u8>, key_id: Seq<char>) -> TraceView {
    TraceView {
        signature: Some(base64url::base64url(sig_bytes)),
        signature_key_id: Some(key_id),
        ..trace
    }
}

/// Stamps a signature onto a sealed trace.
pub fn apply_signature(trace: &mut CompleteTrace, sig_bytes: &[u8], key_id: &str)
    requires
        base64url::base64url_len(sig_bytes@.len()) <= isize::MAX,
    ensures
        final(trace)@ == signed(old(trace)@, sig_bytes@, key_id@),
{
    trace.signature = Some(encode_signature(sig_bytes));
    trace.signature_key_id = Some(key_id.to_owned());
}

/// The signature that a trace carries, where it carries one of 64 bytes in
/// URL-safe base64 without padding.
pub open spec fn carried_signature(trace: TraceView) -> Option<Seq<u8>> {
    match trace.signature {
        Some(text) => if exists|data: Seq<u8>|
            data.len() == 64 && #[trigger] base64url::base64url(data) == text {
            Some(
                choose|data: Seq<u8>|
                    data.len() == 64 && #[trigger] base64url::base64url(data) == text,
            )
        } else {
            None
        },
        None => None,
    }
}

/// Whether an Ed25519 key accepts a signature over a message.
pub uninterp spec fn ed25519_accepts(key: Seq<u8>, message: Seq<u8>, signature: Seq<u8>) -> bool;

/// `Verifier::verify` of `ed25519_dalek::VerifyingKey`, on the key and the
/// signature that the bytes are. The answer depends on the three byte strings
/// alone. Bytes that are no key and bytes that are no signature are accepted by
/// nothing.
#[verifier::external_body]
fn ed25519_verify(key: &[u8; 32], message: &[u8], signature: &[u8]) -> (res: bool)
    ensures
        res == ed25519_accepts(key@, message@, signature@),
{
    let key = ed25519_dalek::VerifyingKey::from_bytes(key);
    let signature = ed25519_dalek::Signature::from_slice(signature);
    match (key, signature) {
        (Ok(key), Ok(signature)) => key.verify(message, &signature).is_ok(),
        _ => false,
    }
}

/// Whether a trace carries a signature that the key accepts over a message.
pub open spec fn accepted_over(trace: TraceView, key: Seq<u8>, message: Seq<u8>) -> bool {
    match carried_signature(trace) {
        Some(signature) => ed25519_accepts(key, message, signature),
        None => false,
    }
}

/// The signature bytes of a trace, where they are there and well formed.
fn decode_signature(trace: &CompleteTrace) -> (res: Option<Vec<u8>>)
    ensures
        match res {
            Some(data) => carried_signature(trace@) == Some(data@),
            None => carried_signature(trace@) is None,
        },
{
    let encoded = match &trace.signature {
        Some(encoded) => encoded,
        None => {
            return None;
        },
    };
    match base64url::decode(encoded.as_str()) {
        Some(data) => {
            proof {
                assert forall|other: Seq<u8>| #[trigger]
                    base64url::base64url(other) == encoded@ implies other == data@ by {
                    base64url::lemma_base64url_injective(other, data@);
                }
            }
            if data.len() == 64 {
                Some(data)
            } else {
                None
            }
        },
        None => None,
    }
}

/// Checks the signature of a trace against bytes that are already canonical.
pub fn verify_signature_over(
    trace: &CompleteTrace,
    verifying_key: &[u8; 32],
    message: &[u8],
) -> (res: bool)
    ensures
        res == accepted_over(trace@, verifying_key@, message@),
{
    match decode_signature(trace) {
        Some(signature) => ed25519_verify(verifying_key, message, signature.as_slice()),
        None => false,
    }
}

/// Whether a verdict on a sealed trace is right: without a well-formed signature
/// it is a refusal, and with one it is the key's, over what the canonicalizer may
/// make of the trace, or a refusal where that fails.
pub open spec fn verified<C: Fn(&Json) -> Result<Vec<u8>, String>>(
    trace: TraceView,
    key: Seq<u8>,
    canonicalize: C,
    verdict: bool,
) -> bool {
    if carried_signature(trace) is None {
        !verdict
    } else {
        exists|answer: Result<Vec<u8>, String>| #[trigger]
            may_answer(canonicalize, envelope(trace), answer) && verdict == (answer matches Ok(
                message,
            ) && accepted_over(trace, key, message@))
    }
}

/// Checks the signature of a sealed trace, over the canonical bytes of the trace
/// as it stands. Any failure is a refusal: no signature, a garbled one, a
/// canonicalizer that fails, a signature that the key does not accept.
pub fn verify_trace_signature<C: Fn(&Json) -> Result<Vec<u8>, String>>(
    trace: &CompleteTrace,
    verifying_key: &[u8; 32],
    canonicalize: C,
) -> (res: bool)
    requires
        forall|document: &Json| #[trigger] call_requires(canonicalize, (document,)),
    ensures
        verified(trace@, verifying_key@, canonicalize, res),
{
    match decode_signature(trace) {
        Some(signature) => match canonical_bytes(trace, canonicalize) {
            Ok(message) => ed25519_verify(
                verifying_key,
                message.as_slice(),
                signature.as_slice(),
            ),
            Err(_) => false,
        },
        None => false,
    }
}

} // verus!
