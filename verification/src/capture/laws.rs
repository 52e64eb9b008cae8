//! What holds of sealing and signing as a whole.
use vstd::prelude::*;

use crate::base64url;
use crate::capture::client;
use crate::capture::client::{CaptureClient, PendingSignature, SealSignError};
use crate::capture::seal;
use crate::capture::trace::{
    CaptureOutcome, CompleteTrace, ComponentView, InboundEvent, TraceView,
};
use crate::json::{Json, JsonView};

verus! {

/// Whether nothing in a document is left to strip: no object, at any depth, has
/// an empty field, and no array has a `null` item.
pub open spec fn clean(value: JsonView) -> bool
    decreases value,
{
    match value {
        JsonView::Object(fields) => forall|name: Seq<char>| #[trigger]
            fields.contains_key(name) ==> {
                &&& fields[name] != JsonView::Null
                &&& fields[name] != JsonView::Text(Seq::empty())
                &&& fields[name] != JsonView::Array(Seq::empty())
                &&& fields[name] != JsonView::Object(Map::empty())
                &&& clean(fields[name])
            },
        JsonView::Array(items) => forall|i: int|
            0 <= i < items.len() ==> !(#[trigger] items[i] is Null) && clean(items[i]),
        _ => true,
    }
}

/// Stripping leaves nothing to strip, at any depth.
pub proof fn law_stripped_is_clean(value: JsonView)
    ensures
        clean(seal::stripped(value)),
    decreases value,
{
    match value {
        JsonView::Object(fields) => {
            let kept = seal::stripped(value)->Object_0;
            assert forall|name: Seq<char>| #[trigger] kept.contains_key(name) implies {
                &&& kept[name] != JsonView::Null
                &&& kept[name] != JsonView::Text(Seq::empty())
                &&& kept[name] != JsonView::Array(Seq::empty())
                &&& kept[name] != JsonView::Object(Map::empty())
                &&& clean(kept[name])
            } by {
                law_stripped_is_clean(fields[name]);
            }
        },
        JsonView::Array(items) => {
            lemma_stripped_items_are_clean(items);
        },
        _ => {},
    }
}

proof fn lemma_stripped_items_are_clean(items: Seq<JsonView>)
    ensures
        forall|i: int|
            0 <= i < seal::stripped_items(items).len() ==> !(#[trigger] seal::stripped_items(
                items,
            )[i] is Null) && clean(seal::stripped_items(items)[i]),
    decreases items,
{
    if items.len() > 0 {
        lemma_stripped_items_are_clean(items.drop_last());
        law_stripped_is_clean(items.last());
    }
}

/// A document with nothing to strip stays as it is.
pub proof fn law_clean_is_unchanged(value: JsonView)
    requires
        clean(value),
    ensures
        seal::stripped(value) == value,
    decreases value,
{
    match value {
        JsonView::Object(fields) => {
            let kept = seal::stripped(value)->Object_0;
            assert forall|name: Seq<char>| #[trigger] fields.contains_key(name) implies kept
                .contains_key(name) && kept[name] == fields[name] by {
                law_clean_is_unchanged(fields[name]);
                law_strip_drops_exactly_what_is_empty(fields, name);
            }
            assert(kept =~= fields);
        },
        JsonView::Array(items) => {
            lemma_clean_items_are_unchanged(items);
        },
        _ => {},
    }
}

proof fn lemma_clean_items_are_unchanged(items: Seq<JsonView>)
    requires
        forall|i: int| 0 <= i < items.len() ==> !(#[trigger] items[i] is Null) && clean(items[i]),
    ensures
        seal::stripped_items(items) == items,
    decreases items,
{
    if items.len() > 0 {
        lemma_clean_items_are_unchanged(items.drop_last());
        assert(items.last() == items[items.len() - 1]);
        law_clean_is_unchanged(items.last());
    }
    assert(seal::stripped_items(items) =~= items);
}

/// Stripping twice is stripping once.
pub proof fn law_strip_is_idempotent(value: JsonView)
    ensures
        seal::stripped(seal::stripped(value)) == seal::stripped(value),
{
    law_stripped_is_clean(value);
    law_clean_is_unchanged(seal::stripped(value));
}

/// A number or a boolean is never stripped: zero and `false` are values. As the
/// field of an object it stays under its name.
pub proof fn law_strip_keeps_numbers_and_booleans(
    fields: Map<Seq<char>, JsonView>,
    name: Seq<char>,
)
    requires
        fields.contains_key(name),
        fields[name] is Number || fields[name] is Bool,
    ensures
        seal::stripped(fields[name]) == fields[name],
        seal::stripped(JsonView::Object(fields))->Object_0.contains_key(name),
        seal::stripped(JsonView::Object(fields))->Object_0[name] == fields[name],
{
}

/// Stripping drops a field of an object if and only if its stripped value is
/// `null`, the empty text, the array without items or the object without fields.
/// Any other field stays under its name, stripped.
pub proof fn law_strip_drops_exactly_what_is_empty(
    fields: Map<Seq<char>, JsonView>,
    name: Seq<char>,
)
    ensures
        seal::stripped(JsonView::Object(fields)) is Object,
        ({
            let kept = seal::stripped(JsonView::Object(fields))->Object_0;
            let value = seal::stripped(fields[name]);
            &&& kept.contains_key(name) <==> (fields.contains_key(name) && value != JsonView::Null
                && value != JsonView::Text(Seq::empty()) && value != JsonView::Array(Seq::empty())
                && value != JsonView::Object(Map::empty()))
            &&& kept.contains_key(name) ==> kept[name] == value
        }),
{
    let value = seal::stripped(fields[name]);
    lemma_stripped_fields(fields);
    match value {
        JsonView::Text(text) => {
            if text.len() == 0 {
                assert(text =~= Seq::empty());
            }
        },
        JsonView::Array(items) => {
            if items.len() == 0 {
                assert(items =~= Seq::empty());
            }
        },
        _ => {},
    }
}

/// What is neither an object nor an array is not changed by stripping.
pub proof fn law_strip_keeps_scalars(value: JsonView)
    requires
        !(value is Object),
        !(value is Array),
    ensures
        seal::stripped(value) == value,
{
}

/// An array is stripped item by item, in order: stripping two arrays one after
/// the other is stripping the one and then the other.
pub proof fn law_strip_goes_item_by_item(left: Seq<JsonView>, right: Seq<JsonView>)
    ensures
        seal::stripped(JsonView::Array(left + right)) == JsonView::Array(
            seal::stripped(JsonView::Array(left))->Array_0 + seal::stripped(
                JsonView::Array(right),
            )->Array_0,
        ),
    decreases right.len(),
{
    let both = left + right;
    if right.len() == 0 {
        assert(both =~= left);
        assert(seal::stripped_items(left) + seal::stripped_items(right) =~= seal::stripped_items(
            left,
        ));
    } else {
        law_strip_goes_item_by_item(left, right.drop_last());
        assert(both.drop_last() =~= left + right.drop_last());
        assert(both.last() == right.last());
        assert(seal::stripped_items(both) =~= seal::stripped_items(left) + seal::stripped_items(
            right,
        ));
    }
}

/// Of one item nothing is left where it is `null`, and otherwise the item,
/// stripped: the empty forms stay inside an array.
pub proof fn law_strip_of_one_item(item: JsonView)
    ensures
        seal::stripped(JsonView::Array(seq![item])) == JsonView::Array(
            if item == JsonView::Null {
                Seq::empty()
            } else {
                seq![seal::stripped(item)]
            },
        ),
{
    let one = seq![item];
    assert(one.drop_last() =~= Seq::empty());
    assert(seal::stripped_items(Seq::<JsonView>::empty()) =~= Seq::empty());
    assert(seal::stripped_items(one) =~= (if item == JsonView::Null {
        Seq::empty()
    } else {
        seq![seal::stripped(item)]
    }));
}

/// A list with an item in it is signed: an array with an item that is not `null`
/// stays under its name, with an item in it.
pub proof fn law_list_with_an_item_is_kept(
    fields: Map<Seq<char>, JsonView>,
    name: Seq<char>,
    before: Seq<JsonView>,
    item: JsonView,
    after: Seq<JsonView>,
)
    requires
        fields.contains_key(name),
        fields[name] == JsonView::Array(before.push(item) + after),
        item != JsonView::Null,
    ensures
        ({
            let kept = seal::stripped(JsonView::Object(fields))->Object_0;
            &&& kept.contains_key(name)
            &&& kept[name] is Array
            &&& kept[name]->Array_0.contains(seal::stripped(item))
        }),
{
    law_strip_goes_item_by_item(before.push(item), after);
    law_strip_goes_item_by_item(before, seq![item]);
    law_strip_of_one_item(item);
    assert(before.push(item) =~= before + seq![item]);
    let list = seal::stripped(fields[name])->Array_0;
    let at = seal::stripped(JsonView::Array(before))->Array_0.len() as int;
    assert(list[at] == seal::stripped(item));
    law_strip_drops_exactly_what_is_empty(fields, name);
    assert(list.len() > 0);
}

/// Stripping gives no object a field that it did not have.
pub proof fn law_strip_adds_nothing(fields: Map<Seq<char>, JsonView>, name: Seq<char>)
    requires
        seal::stripped(JsonView::Object(fields))->Object_0.contains_key(name),
    ensures
        fields.contains_key(name),
        seal::stripped(JsonView::Object(fields))->Object_0[name] == seal::stripped(fields[name]),
{
}

/// What stripping keeps of an object, field by field.
proof fn lemma_stripped_fields(fields: Map<Seq<char>, JsonView>)
    ensures
        ({
            let kept = seal::stripped(JsonView::Object(fields))->Object_0;
            forall|name: Seq<char>| #![trigger kept.contains_key(name)] #![trigger kept[name]]
                fields.contains_key(name) ==> {
                    &&& kept.contains_key(name) <==> !seal::is_empty_view(
                        seal::stripped(fields[name]),
                    )
                    &&& kept.contains_key(name) ==> kept[name] == seal::stripped(fields[name])
                }
        }),
{
}

/// No two names in an envelope are the same.
proof fn lemma_envelope_names()
    ensures
        "trace_id"@.len() == 8,
        "thought_id"@.len() == 10,
        "thought_id"@[0] == 't',
        "task_id"@.len() == 7,
        "agent_id_hash"@.len() == 13,
        "started_at"@.len() == 10,
        "started_at"@[0] == 's',
        "completed_at"@.len() == 12,
        "trace_level"@.len() == 11,
        "trace_schema_version"@.len() == 20,
        "components"@.len() == 10,
        "components"@[0] == 'c',
        "deployment_profile"@.len() == 18,
{
    reveal_strlit("trace_id");
    reveal_strlit("thought_id");
    reveal_strlit("task_id");
    reveal_strlit("agent_id_hash");
    reveal_strlit("started_at");
    reveal_strlit("completed_at");
    reveal_strlit("trace_level");
    reveal_strlit("trace_schema_version");
    reveal_strlit("components");
    reveal_strlit("deployment_profile");
}

/// The names of the nine fields that every envelope has.
pub open spec fn base_names() -> Set<Seq<char>> {
    set![
        "trace_id"@,
        "thought_id"@,
        "task_id"@,
        "agent_id_hash"@,
        "started_at"@,
        "completed_at"@,
        "trace_level"@,
        "trace_schema_version"@,
        "components"@,
    ]
}

/// An envelope has the nine fields, whether or not the trace has a task, an end
/// or a level, and it has a deployment profile if and only if the trace has one.
pub proof fn law_envelope_fields(trace: TraceView)
    ensures
        seal::envelope(trace)->Object_0.dom() == (if trace.deployment_profile is Some {
            base_names().insert("deployment_profile"@)
        } else {
            base_names()
        }),
        base_names().len() == 9,
        !base_names().contains("deployment_profile"@),
{
    lemma_envelope_names();
    assert(seal::envelope(trace)->Object_0.dom() =~= (if trace.deployment_profile is Some {
        base_names().insert("deployment_profile"@)
    } else {
        base_names()
    }));
}

/// What each field of an envelope says.
pub proof fn law_envelope_values(trace: TraceView)
    ensures
        ({
            let fields = seal::envelope(trace)->Object_0;
            &&& fields["trace_id"@] == JsonView::Text(trace.trace_id)
            &&& fields["thought_id"@] == JsonView::Text(trace.thought_id)
            &&& fields["task_id"@] == seal::text_or_null(trace.task_id)
            &&& fields["agent_id_hash"@] == JsonView::Text(trace.agent_id_hash)
            &&& fields["started_at"@] == JsonView::Text(trace.started_at)
            &&& fields["completed_at"@] == seal::text_or_null(trace.completed_at)
            &&& fields["trace_level"@] == seal::text_or_null(trace.trace_level)
            &&& fields["trace_schema_version"@] == JsonView::Text(trace.trace_schema_version)
            &&& fields["components"@] == JsonView::Array(
                seal::component_envelopes(trace.components, trace.agent_id_hash),
            )
            &&& trace.deployment_profile matches Some(profile) ==> fields["deployment_profile"@]
                == profile
        }),
{
    lemma_envelope_names();
}

/// A trace's task, end and level stand in its envelope as texts, and as `null`
/// where the trace has none; each component has an entry, in order.
pub proof fn law_envelope_says_what_is_missing(trace: TraceView)
    ensures
        ({
            let fields = seal::envelope(trace)->Object_0;
            &&& trace.task_id matches Some(id) ==> fields["task_id"@] == JsonView::Text(id)
            &&& trace.task_id is None ==> fields["task_id"@] == JsonView::Null
            &&& trace.completed_at matches Some(at) ==> fields["completed_at"@] == JsonView::Text(
                at,
            )
            &&& trace.completed_at is None ==> fields["completed_at"@] == JsonView::Null
            &&& trace.trace_level matches Some(level) ==> fields["trace_level"@] == JsonView::Text(
                level,
            )
            &&& trace.trace_level is None ==> fields["trace_level"@] == JsonView::Null
            &&& fields["components"@] is Array
            &&& fields["components"@]->Array_0.len() == trace.components.len()
        }),
{
    law_envelope_values(trace);
}

/// What is signed of a component, in the envelope of its trace: five names and no
/// others, each with the component's own value unless that is empty. A blank hash
/// is the trace's, and the payload is stripped.
pub proof fn law_envelope_says_each_component(trace: TraceView, i: int)
    requires
        0 <= i < trace.components.len(),
    ensures
        ({
            let component = trace.components[i];
            let entry = seal::envelope(trace)->Object_0["components"@]->Array_0[i];
            let kept = entry->Object_0;
            let data = seal::stripped(component.data);
            let hash = if component.agent_id_hash.len() == 0 {
                trace.agent_id_hash
            } else {
                component.agent_id_hash
            };
            &&& entry is Object
            &&& forall|name: Seq<char>| #[trigger]
                kept.contains_key(name) ==> name == "agent_id_hash"@ || name == "component_type"@
                    || name == "data"@ || name == "event_type"@ || name == "timestamp"@
            &&& kept.contains_key("agent_id_hash"@) <==> hash.len() > 0
            &&& hash.len() > 0 ==> kept["agent_id_hash"@] == JsonView::Text(hash)
            &&& kept.contains_key("component_type"@) <==> component.component_type.len() > 0
            &&& component.component_type.len() > 0 ==> kept["component_type"@] == JsonView::Text(
                component.component_type,
            )
            &&& kept.contains_key("data"@) <==> (data != JsonView::Null && data != JsonView::Text(
                Seq::empty(),
            ) && data != JsonView::Array(Seq::empty()) && data != JsonView::Object(Map::empty()))
            &&& kept.contains_key("data"@) ==> kept["data"@] == data
            &&& kept.contains_key("event_type"@) <==> component.event_type.len() > 0
            &&& component.event_type.len() > 0 ==> kept["event_type"@] == JsonView::Text(
                component.event_type,
            )
            &&& kept.contains_key("timestamp"@) <==> component.timestamp.len() > 0
            &&& component.timestamp.len() > 0 ==> kept["timestamp"@] == JsonView::Text(
                component.timestamp,
            )
        }),
{
    law_envelope_values(trace);
    let component = trace.components[i];
    let fields = seal::component_fields(component, trace.agent_id_hash);
    lemma_component_envelope(component, trace.agent_id_hash);
    lemma_component_names();
    law_strip_drops_exactly_what_is_empty(fields, "data"@);
    assert(fields["data"@] == component.data);
    let kept = seal::component_envelope(component, trace.agent_id_hash)->Object_0;
    assert forall|name: Seq<char>| #[trigger] kept.contains_key(name) implies name
        == "agent_id_hash"@ || name == "component_type"@ || name == "data"@ || name
        == "event_type"@ || name == "timestamp"@ by {
        law_strip_drops_exactly_what_is_empty(fields, name);
        assert(fields.contains_key(name));
    }
}

/// No two names in a component's envelope are the same.
proof fn lemma_component_names()
    ensures
        "agent_id_hash"@.len() == 13,
        "component_type"@.len() == 14,
        "data"@.len() == 4,
        "event_type"@.len() == 10,
        "timestamp"@.len() == 9,
{
    reveal_strlit("agent_id_hash");
    reveal_strlit("component_type");
    reveal_strlit("data");
    reveal_strlit("event_type");
    reveal_strlit("timestamp");
}

/// What a component's envelope says of the component: each of its texts, and
/// its payload as far as stripping leaves it.
proof fn lemma_component_envelope(component: ComponentView, trace_hash: Seq<char>)
    ensures
        ({
            let kept = seal::component_envelope(component, trace_hash)->Object_0;
            let hash = seal::effective_hash(component, trace_hash);
            let data = seal::stripped(component.data);
            &&& kept.contains_key("agent_id_hash"@) <==> hash.len() > 0
            &&& hash.len() > 0 ==> kept["agent_id_hash"@] == JsonView::Text(hash)
            &&& kept.contains_key("component_type"@) <==> component.component_type.len() > 0
            &&& component.component_type.len() > 0 ==> kept["component_type"@] == JsonView::Text(
                component.component_type,
            )
            &&& kept.contains_key("data"@) <==> !seal::is_empty_view(data)
            &&& !seal::is_empty_view(data) ==> kept["data"@] == data
            &&& kept.contains_key("event_type"@) <==> component.event_type.len() > 0
            &&& component.event_type.len() > 0 ==> kept["event_type"@] == JsonView::Text(
                component.event_type,
            )
            &&& kept.contains_key("timestamp"@) <==> component.timestamp.len() > 0
            &&& component.timestamp.len() > 0 ==> kept["timestamp"@] == JsonView::Text(
                component.timestamp,
            )
        }),
{
    lemma_component_names();
    let fields = seal::component_fields(component, trace_hash);
    lemma_stripped_fields(fields);
    assert(fields["agent_id_hash"@] == JsonView::Text(
        seal::effective_hash(component, trace_hash),
    ));
    assert(fields["component_type"@] == JsonView::Text(component.component_type));
    assert(fields["data"@] == component.data);
    assert(fields["event_type"@] == JsonView::Text(component.event_type));
    assert(fields["timestamp"@] == JsonView::Text(component.timestamp));
}

/// Whether two payloads are signed alike: what stripping leaves of them is the
/// same, or nothing is left of either.
pub open spec fn signed_alike(left: JsonView, right: JsonView) -> bool {
    seal::stripped(left) == seal::stripped(right) || (seal::is_empty_view(seal::stripped(left))
        && seal::is_empty_view(seal::stripped(right)))
}

/// A component's envelope binds the component: two that are signed alike have
/// the same texts and payloads that are signed alike.
pub proof fn law_component_envelope_binds(
    left: ComponentView,
    left_hash: Seq<char>,
    right: ComponentView,
    right_hash: Seq<char>,
)
    requires
        seal::component_envelope(left, left_hash) == seal::component_envelope(right, right_hash),
    ensures
        seal::effective_hash(left, left_hash) == seal::effective_hash(right, right_hash),
        left.component_type == right.component_type,
        left.event_type == right.event_type,
        left.timestamp == right.timestamp,
        signed_alike(left.data, right.data),
{
    lemma_component_envelope(left, left_hash);
    lemma_component_envelope(right, right_hash);
    let left_own = seal::effective_hash(left, left_hash);
    let right_own = seal::effective_hash(right, right_hash);
    assert(left_own =~= right_own);
    assert(left.component_type =~= right.component_type);
    assert(left.event_type =~= right.event_type);
    assert(left.timestamp =~= right.timestamp);
}

/// The envelope binds the trace: two traces with one envelope have the same
/// fields, and components that are signed alike. So whoever changes a signed
/// field changes what the signature is checked against.
pub proof fn law_envelope_binds_trace(left: TraceView, right: TraceView)
    requires
        seal::envelope(left) == seal::envelope(right),
    ensures
        left.trace_id == right.trace_id,
        left.thought_id == right.thought_id,
        left.task_id == right.task_id,
        left.agent_id_hash == right.agent_id_hash,
        left.started_at == right.started_at,
        left.completed_at == right.completed_at,
        left.trace_level == right.trace_level,
        left.trace_schema_version == right.trace_schema_version,
        left.deployment_profile == right.deployment_profile,
        left.components.len() == right.components.len(),
        forall|i: int| #![trigger left.components[i]]
            0 <= i < left.components.len() ==> {
                let ours = left.components[i];
                let theirs = right.components[i];
                &&& seal::effective_hash(ours, left.agent_id_hash) == seal::effective_hash(
                    theirs,
                    right.agent_id_hash,
                )
                &&& ours.component_type == theirs.component_type
                &&& ours.event_type == theirs.event_type
                &&& ours.timestamp == theirs.timestamp
                &&& signed_alike(ours.data, theirs.data)
            },
{
    law_envelope_values(left);
    law_envelope_values(right);
    law_envelope_fields(left);
    law_envelope_fields(right);
    assert(base_names().insert("deployment_profile"@).contains("deployment_profile"@));
    let ours = seal::component_envelopes(left.components, left.agent_id_hash);
    let theirs = seal::component_envelopes(right.components, right.agent_id_hash);
    assert(ours == theirs);
    assert(ours.len() == left.components.len());
    assert(theirs.len() == right.components.len());
    assert forall|i: int| #![trigger left.components[i]]
        0 <= i < left.components.len() implies seal::component_envelope(
        left.components[i],
        left.agent_id_hash,
    ) == seal::component_envelope(right.components[i], right.agent_id_hash) by {
        assert(ours[i] == theirs[i]);
    }
    assert forall|i: int| #![trigger left.components[i]] 0 <= i < left.components.len() implies {
        let ours = left.components[i];
        let theirs = right.components[i];
        &&& seal::effective_hash(ours, left.agent_id_hash) == seal::effective_hash(
            theirs,
            right.agent_id_hash,
        )
        &&& ours.component_type == theirs.component_type
        &&& ours.event_type == theirs.event_type
        &&& ours.timestamp == theirs.timestamp
        &&& signed_alike(ours.data, theirs.data)
    } by {
        law_component_envelope_binds(
            left.components[i],
            left.agent_id_hash,
            right.components[i],
            right.agent_id_hash,
        );
    }
}

/// A component without a hash of its own is signed as one with the trace's.
pub proof fn law_blank_hash_is_the_traces(component: ComponentView, trace_hash: Seq<char>)
    requires
        component.agent_id_hash.len() == 0,
    ensures
        seal::component_envelope(component, trace_hash) == seal::component_envelope(
            (ComponentView { agent_id_hash: trace_hash, ..component }),
            trace_hash,
        ),
{
}

/// Which attempt a component stands for is not signed.
pub proof fn law_attempt_is_not_signed(
    component: ComponentView,
    attempt_index: nat,
    trace_hash: Seq<char>,
)
    ensures
        seal::component_envelope(
            (ComponentView { attempt_index, ..component }),
            trace_hash,
        ) == seal::component_envelope(component, trace_hash),
{
}

/// Signing does not change what is signed: the signature and the name of its
/// key are no part of the envelope.
pub proof fn law_signing_keeps_envelope(trace: TraceView, sig_bytes: Seq<u8>, key_id: Seq<char>)
    ensures
        seal::envelope(seal::signed(trace, sig_bytes, key_id)) == seal::envelope(trace),
{
}

/// Signing puts on the signature's text and the key's name, and touches nothing
/// else.
pub proof fn law_signing_changes_two_fields(
    trace: TraceView,
    sig_bytes: Seq<u8>,
    key_id: Seq<char>,
)
    ensures
        ({
            let signed = seal::signed(trace, sig_bytes, key_id);
            &&& signed.signature == Some(base64url::base64url(sig_bytes))
            &&& signed.signature_key_id == Some(key_id)
            &&& signed == (TraceView {
                signature: signed.signature,
                signature_key_id: signed.signature_key_id,
                ..trace
            })
        }),
{
}

/// A trace carries a signature if and only if its text is that of the 64 bytes.
pub proof fn law_carried_signature_is_the_text(trace: TraceView, data: Seq<u8>)
    ensures
        seal::carried_signature(trace) == Some(data) <==> (data.len() == 64 && trace.signature
            == Some(base64url::base64url(data))),
{
    if data.len() == 64 && trace.signature == Some(base64url::base64url(data)) {
        let text = base64url::base64url(data);
        assert(exists|other: Seq<u8>|
            other.len() == 64 && #[trigger] base64url::base64url(other) == text);
        let found = choose|other: Seq<u8>|
            other.len() == 64 && #[trigger] base64url::base64url(other) == text;
        base64url::lemma_base64url_injective(found, data);
    }
}

/// A trace is verified only over bytes that the canonicalizer made of a document
/// that says the trace's envelope, with the 64 bytes whose text it carries, and
/// only where the key accepts them.
pub proof fn law_verified_means_accepted<C: Fn(&Json) -> Result<Vec<u8>, String>>(
    canonicalize: C,
    trace: TraceView,
    key: Seq<u8>,
) -> (found: (&'static Json, Vec<u8>, Seq<u8>))
    requires
        seal::verified(trace, key, canonicalize, true),
    ensures
        found.0@ == seal::envelope(trace),
        call_ensures(canonicalize, (found.0,), Ok(found.1)),
        found.2.len() == 64,
        trace.signature == Some(base64url::base64url(found.2)),
        seal::ed25519_accepts(key, found.1@, found.2),
{
    let sig_bytes = seal::carried_signature(trace)->0;
    law_carried_signature_is_the_text(trace, sig_bytes);
    let answer = choose|answer: Result<Vec<u8>, String>| #[trigger]
        seal::may_answer(canonicalize, seal::envelope(trace), answer) && true == (
        answer matches Ok(message) && seal::accepted_over(trace, key, message@));
    let message = answer->Ok_0;
    let asked = choose|asked: &Json|
        asked@ == seal::envelope(trace) && #[trigger] call_ensures(
            canonicalize,
            (asked,),
            answer,
        );
    (asked, message, sig_bytes)
}

/// Without canonical bytes there is no verified trace: where the canonicalizer
/// fails on every document that says the trace's envelope, the trace is refused.
pub proof fn law_no_canonical_bytes_no_trust<C: Fn(&Json) -> Result<Vec<u8>, String>>(
    canonicalize: C,
    trace: TraceView,
    key: Seq<u8>,
    verdict: bool,
)
    requires
        seal::verified(trace, key, canonicalize, verdict),
        forall|asked: &Json, answer: Result<Vec<u8>, String>|
            asked@ == seal::envelope(trace) && #[trigger] call_ensures(
                canonicalize,
                (asked,),
                answer,
            ) ==> answer is Err,
    ensures
        !verdict,
{
}

/// What is stamped is what is read back: a signature of 64 bytes comes back
/// byte for byte.
pub proof fn law_signature_reads_back(trace: TraceView, sig_bytes: Seq<u8>, key_id: Seq<char>)
    requires
        sig_bytes.len() == 64,
    ensures
        seal::carried_signature(seal::signed(trace, sig_bytes, key_id)) == Some(sig_bytes),
{
    let text = base64url::base64url(sig_bytes);
    assert(exists|data: Seq<u8>| data.len() == 64 && #[trigger] base64url::base64url(data) == text);
    let found = choose|data: Seq<u8>|
        data.len() == 64 && #[trigger] base64url::base64url(data) == text;
    base64url::lemma_base64url_injective(found, sig_bytes);
}

/// A freshly signed trace verifies: where the key accepts a signature over some
/// bytes, it accepts the trace that was stamped with it, over the same bytes.
pub proof fn law_signed_trace_verifies(
    trace: TraceView,
    sig_bytes: Seq<u8>,
    key_id: Seq<char>,
    key: Seq<u8>,
    message: Seq<u8>,
)
    requires
        sig_bytes.len() == 64,
    ensures
        seal::accepted_over(seal::signed(trace, sig_bytes, key_id), key, message)
            == seal::ed25519_accepts(key, message, sig_bytes),
{
    law_signature_reads_back(trace, sig_bytes, key_id);
}

/// Whether a canonicalizer answers documents that say the same alike: with the
/// same bytes, or with none each time.
pub open spec fn answers_alike<C: Fn(&Json) -> Result<Vec<u8>, String>>(canonicalize: C) -> bool {
    forall|
        left: &Json,
        right: &Json,
        ours: Result<Vec<u8>, String>,
        theirs: Result<Vec<u8>, String>,
    |
        left@ == right@ && #[trigger] call_ensures(canonicalize, (left,), ours) && #[trigger]
        call_ensures(canonicalize, (right,), theirs) ==> match ours {
            Ok(bytes) => theirs is Ok && bytes@ == theirs->Ok_0@,
            Err(_) => theirs is Err,
        }
}

/// Signing and verifying never drift: for a canonicalizer that answers documents
/// alike, a trace that is stamped with 64 bytes is verified if and only if the
/// key accepts those bytes over the trace's canonical ones.
pub proof fn law_sign_then_verify<C: Fn(&Json) -> Result<Vec<u8>, String>>(
    canonicalize: C,
    trace: TraceView,
    message: Vec<u8>,
    sig_bytes: Seq<u8>,
    key_id: Seq<char>,
    key: Seq<u8>,
    verdict: bool,
)
    requires
        answers_alike(canonicalize),
        seal::may_answer(canonicalize, seal::envelope(trace), Ok(message)),
        sig_bytes.len() == 64,
        seal::verified(seal::signed(trace, sig_bytes, key_id), key, canonicalize, verdict),
    ensures
        verdict == seal::ed25519_accepts(key, message@, sig_bytes),
{
    let signed = seal::signed(trace, sig_bytes, key_id);
    law_signing_keeps_envelope(trace, sig_bytes, key_id);
    law_signature_reads_back(trace, sig_bytes, key_id);
    let answer = choose|answer: Result<Vec<u8>, String>| #[trigger]
        seal::may_answer(canonicalize, seal::envelope(signed), answer) && verdict == (
        answer matches Ok(found) && seal::accepted_over(signed, key, found@));
    let given: Result<Vec<u8>, String> = Ok(message);
    let first = choose|asked: &Json|
        asked@ == seal::envelope(trace) && #[trigger] call_ensures(canonicalize, (asked,), given);
    let second = choose|asked: &Json|
        asked@ == seal::envelope(signed) && #[trigger] call_ensures(
            canonicalize,
            (asked,),
            answer,
        );
    assert(first@ == second@);
    law_signed_trace_verifies(trace, sig_bytes, key_id, key, message@);
}

/// A trace is refused where it has no signature, and where the one it has is
/// not of 64 bytes in URL-safe base64 without padding.
pub proof fn law_bad_signature_is_refused(trace: TraceView, key: Seq<u8>, message: Seq<u8>)
    requires
        trace.signature matches Some(text) ==> forall|data: Seq<u8>| #[trigger]
            base64url::base64url(data) == text ==> data.len() != 64,
    ensures
        !seal::accepted_over(trace, key, message),
{
}

/// Stamping overrides nothing: a trace keeps the level and the profile that it
/// has, and everything else.
pub proof fn law_stamping_keeps_what_is_there(
    trace: TraceView,
    trace_level: Seq<char>,
    profile: Option<JsonView>,
)
    ensures
        ({
            let stamped = client::stamped(trace, trace_level, profile);
            &&& trace.trace_level is Some ==> stamped.trace_level == trace.trace_level
            &&& trace.deployment_profile is Some ==> stamped.deployment_profile
                == trace.deployment_profile
            &&& stamped == (TraceView {
                trace_level: stamped.trace_level,
                deployment_profile: stamped.deployment_profile,
                ..trace
            })
        }),
{
}

/// What a trace lacks comes from the operator and the batch, as it is: without a
/// profile of its own it gets the operator's, and without a level the batch's.
pub proof fn law_stamping_fills_in_what_is_given(
    trace: TraceView,
    trace_level: Seq<char>,
    profile: Option<JsonView>,
)
    ensures
        ({
            let stamped = client::stamped(trace, trace_level, profile);
            &&& trace.deployment_profile is None ==> stamped.deployment_profile == profile
            &&& trace.deployment_profile is Some ==> stamped.deployment_profile
                == trace.deployment_profile
            &&& trace.trace_level is None ==> stamped.trace_level == Some(trace_level)
            &&& trace.trace_level is Some ==> stamped.trace_level == trace.trace_level
            &&& stamped.trace_id == trace.trace_id
            &&& stamped.thought_id == trace.thought_id
            &&& stamped.task_id == trace.task_id
            &&& stamped.agent_id_hash == trace.agent_id_hash
            &&& stamped.started_at == trace.started_at
            &&& stamped.completed_at == trace.completed_at
            &&& stamped.components == trace.components
            &&& stamped.signature == trace.signature
            &&& stamped.signature_key_id == trace.signature_key_id
            &&& stamped.trace_schema_version == trace.trace_schema_version
        }),
{
}

/// A client stamps with its own provenance's level and its own profile.
pub proof fn law_client_stamps_what_it_was_made_with<S>(
    client: client::CaptureClient<S>,
    trace: TraceView,
)
    ensures
        trace.trace_level is None ==> client.stamps(trace).trace_level == Some(
            client.provenance.trace_level@,
        ),
        trace.trace_level is Some ==> client.stamps(trace).trace_level == trace.trace_level,
        trace.deployment_profile is None ==> match client.deployment_profile {
            Some(profile) => client.stamps(trace).deployment_profile == Some(profile@),
            None => client.stamps(trace).deployment_profile is None,
        },
        trace.deployment_profile is Some ==> client.stamps(trace).deployment_profile
            == trace.deployment_profile,
        client.stamps(trace).trace_id == trace.trace_id,
        client.stamps(trace).thought_id == trace.thought_id,
        client.stamps(trace).task_id == trace.task_id,
        client.stamps(trace).agent_id_hash == trace.agent_id_hash,
        client.stamps(trace).started_at == trace.started_at,
        client.stamps(trace).completed_at == trace.completed_at,
        client.stamps(trace).components == trace.components,
        client.stamps(trace).trace_schema_version == trace.trace_schema_version,
{
}

/// A stamped trace has a level, and it has a profile where it or the operator
/// had one. Stamping it again changes nothing.
pub proof fn law_stamped_is_complete(
    trace: TraceView,
    trace_level: Seq<char>,
    profile: Option<JsonView>,
)
    ensures
        ({
            let stamped = client::stamped(trace, trace_level, profile);
            &&& stamped.trace_level is Some
            &&& stamped.deployment_profile is Some <==> (trace.deployment_profile is Some
                || profile is Some)
            &&& client::stamped(stamped, trace_level, profile) == stamped
        }),
{
}

/// A signer signs this trace: what it is handed is what the canonicalizer may
/// make of the trace, before its answer is put on and after, and a key accepts
/// the trace over those bytes if and only if it accepts the answer.
pub proof fn law_signature_is_over_this_trace<C: Fn(&Json) -> Result<Vec<u8>, String>>(
    canonicalize: C,
    pending: client::PendingSignature,
    signed: CompleteTrace,
    sig_bytes: Seq<u8>,
    key_id: Seq<char>,
    key: Seq<u8>,
)
    requires
        pending.over(canonicalize),
        sig_bytes.len() == 64,
        signed@ == seal::signed(pending.trace@, sig_bytes, key_id),
    ensures
        seal::may_answer(canonicalize, seal::envelope(signed@), Ok(pending.message)),
        seal::accepted_over(signed@, key, pending.message@) == seal::ed25519_accepts(
            key,
            pending.message@,
            sig_bytes,
        ),
{
    law_signing_keeps_envelope(pending.trace@, sig_bytes, key_id);
    law_signed_trace_verifies(pending.trace@, sig_bytes, key_id, key, pending.message@);
}

/// What the store makes of an event is what the client makes of it. An event that
/// seals nothing is an outcome of its own at once, an unknown one with its text
/// as it came. One that seals a trace either waits for a signature over bytes
/// that the canonicalizer made of the stamped trace, or fails with the reason why
/// there are none.
pub proof fn law_event_follows_the_store<S, C: Fn(&Json) -> Result<Vec<u8>, String>>(
    client: client::CaptureClient<S>,
    stored: CaptureOutcome,
    canonicalize: C,
    step: client::CaptureStep<'_, S>,
)
    requires
        client.follows_stored(stored, canonicalize, step),
    ensures
        stored is Opened ==> step == client::CaptureStep::<S>::Finished(
            client::CaptureEventOutcome::Opened,
        ),
        stored is Appended ==> step == client::CaptureStep::<S>::Finished(
            client::CaptureEventOutcome::Appended,
        ),
        stored matches CaptureOutcome::UnknownEvent { raw } ==> step
            == client::CaptureStep::<S>::Finished(client::CaptureEventOutcome::Rejected { raw }),
        stored is Sealed ==> step is Sign || step is Failed,
        stored is Sealed && step is Sign ==> step->Sign_0.trace@ == client.stamps(
            stored->Sealed_0@,
        ) && exists|asked: &Json|
            asked@ == seal::envelope(step->Sign_0.trace@) && #[trigger] call_ensures(
                canonicalize,
                (asked,),
                Ok(step->Sign_0.message),
            ),
        stored is Sealed && step is Failed ==> exists|asked: &Json, cause: String, said: String|
            asked@ == seal::envelope(client.stamps(stored->Sealed_0@)) && #[trigger] call_ensures(
                canonicalize,
                (asked,),
                Err(cause),
            ) && #[trigger] said@ == "canonicalize trace: "@ + cause@ && step->Failed_0
                == client::ClientError::Seal(client::SealSignError::Canonicalize(said)),
{
    if stored is Sealed && step is Failed {
        let document = seal::envelope(client.stamps(stored->Sealed_0@));
        let said = step->Failed_0->Seal_0->Canonicalize_0;
        let cause = choose|cause: String| #[trigger]
            seal::may_answer(canonicalize, document, Err(cause)) && said@
                == "canonicalize trace: "@ + cause@;
        let given: Result<Vec<u8>, String> = Err(cause);
        let asked = choose|asked: &Json|
            asked@ == document && #[trigger] call_ensures(canonicalize, (asked,), given);
        assert(call_ensures(canonicalize, (asked,), Err(cause)));
        assert(said@ == "canonicalize trace: "@ + cause@);
    }
}

/// What each answer of the host leads to. A signature goes onto the trace that
/// was to be signed, byte for byte, and the trace goes on with the client's
/// provenance; a batch goes on as it was built, under the trace's identifier and
/// with the client's scrubber; the engine's counts come out as they are. Each
/// failure ends the event with its own text.
pub proof fn law_answers_lead_on<S>(
    client: client::CaptureClient<S>,
    pending: client::PendingSignature,
    signature: Result<Vec<u8>, String>,
    key_id: Seq<char>,
    after_signature: client::CaptureStep<'_, S>,
    to_batch: client::PendingBatch<'_>,
    built: Result<Vec<u8>, client::BatchBuildError>,
    after_batch: client::CaptureStep<'_, S>,
    to_persist: client::PendingPersist<'_, S>,
    taken: Result<client::SealSummary, String>,
    last: client::CaptureStep<'_, S>,
)
    requires
        client.follows_signed(pending, signature, key_id, after_signature),
        client.follows_batched(to_batch, built, after_batch),
        client.follows_persisted(to_persist, taken, last),
    ensures
        signature matches Ok(sig_bytes) ==> {
            &&& after_signature is Batch
            &&& *after_signature->Batch_0.provenance == client.provenance
            &&& after_signature->Batch_0.trace@.signature == Some(
                base64url::base64url(sig_bytes@),
            )
            &&& after_signature->Batch_0.trace@.signature_key_id == Some(key_id)
            &&& after_signature->Batch_0.trace@ == (TraceView {
                signature: after_signature->Batch_0.trace@.signature,
                signature_key_id: after_signature->Batch_0.trace@.signature_key_id,
                ..pending.trace@
            })
        },
        signature matches Err(cause) ==> after_signature == client::CaptureStep::<S>::Failed(
            client::ClientError::Seal(client::SealSignError::HardwareSign(cause)),
        ),
        built matches Ok(batch) ==> {
            &&& after_batch is Persist
            &&& after_batch->Persist_0.trace_id@ == to_batch.trace.trace_id@
            &&& after_batch->Persist_0.batch@ == batch@
            &&& *after_batch->Persist_0.scrubber == client.scrubber
        },
        built matches Err(cause) ==> after_batch == client::CaptureStep::<S>::Failed(
            client::ClientError::Batch(cause),
        ),
        taken matches Ok(summary) ==> {
            &&& last is Finished
            &&& last->Finished_0 is SealedAndPersisted
            &&& last->Finished_0->trace_id@ == to_persist.trace_id@
            &&& last->Finished_0->summary.trace_events_inserted == summary.trace_events_inserted
            &&& last->Finished_0->summary.signatures_verified == summary.signatures_verified
        },
        taken matches Err(cause) ==> last == client::CaptureStep::<S>::Failed(
            client::ClientError::Persist(cause),
        ),
{
}

/// What is said of a failure ends with its cause, whole, and begins with the step
/// that failed.
pub proof fn law_client_errors_say_their_cause(cause: String)
    ensures
        client::seal_sign_error_text(client::SealSignError::Canonicalize(cause))
            == "canonicalize: "@ + cause@,
        client::seal_sign_error_text(client::SealSignError::HardwareSign(cause))
            == "hardware sign: "@ + cause@,
        client::seal_sign_error_text(client::SealSignError::LocalSigner(cause)) == cause@,
        client::batch_build_error_text(client::BatchBuildError::Other(cause)) == cause@,
        client::client_error_text(client::ClientError::Persist(cause)) == "persist: "@ + cause@,
{
}

/// What is said of a failed capture ends with what its cause says.
pub proof fn law_client_errors_pass_on(
    seal: client::SealSignError,
    batch: client::BatchBuildError,
)
    ensures
        client::client_error_text(client::ClientError::Seal(seal)) == "seal: "@
            + client::seal_sign_error_text(seal),
        client::client_error_text(client::ClientError::Batch(batch)) == "batch: "@
            + client::batch_build_error_text(batch),
{
}

/// A trace holds what its fields hold, one by one.
pub proof fn law_trace_holds_its_fields(trace: CompleteTrace)
    ensures
        trace@.trace_id == trace.trace_id@,
        trace@.thought_id == trace.thought_id@,
        trace@.agent_id_hash == trace.agent_id_hash@,
        trace@.started_at == trace.started_at@,
        trace@.trace_schema_version == trace.trace_schema_version@,
        trace.task_id matches Some(text) ==> trace@.task_id == Some(text@),
        trace.task_id is None ==> trace@.task_id is None,
        trace.completed_at matches Some(text) ==> trace@.completed_at == Some(text@),
        trace.completed_at is None ==> trace@.completed_at is None,
        trace.trace_level matches Some(text) ==> trace@.trace_level == Some(text@),
        trace.trace_level is None ==> trace@.trace_level is None,
        trace.signature matches Some(text) ==> trace@.signature == Some(text@),
        trace.signature is None ==> trace@.signature is None,
        trace.signature_key_id matches Some(text) ==> trace@.signature_key_id == Some(text@),
        trace.signature_key_id is None ==> trace@.signature_key_id is None,
        trace.deployment_profile matches Some(profile) ==> trace@.deployment_profile == Some(
            profile@,
        ),
        trace.deployment_profile is None ==> trace@.deployment_profile is None,
        trace@.components.len() == trace.components@.len(),
        forall|i: int| #![trigger trace.components@[i]]
            0 <= i < trace.components@.len() ==> {
                let held = trace@.components[i];
                let own = trace.components@[i];
                &&& held.component_type == own.component_type@
                &&& held.event_type == own.event_type@
                &&& held.timestamp == own.timestamp@
                &&& held.attempt_index == own.attempt_index
                &&& held.data == own.data@
                &&& held.agent_id_hash == own.agent_id_hash@
            },
{
}

/// A sealed trace goes all the way as one trace. What is signed is canonical for
/// the trace as stamped; the builder gets that trace, signed, and the client's
/// provenance; the engine gets the builder's bytes and the scrubber that the
/// client was made with; and the outcome has the trace's identifier and the
/// engine's counts. A key accepts what the builder gets, over what was signed, if
/// and only if it accepts the signer's bytes.
pub proof fn law_sealed_trace_goes_all_the_way<S, C: Fn(&Json) -> Result<Vec<u8>, String>>(
    client: client::CaptureClient<S>,
    canonicalize: C,
    trace: CompleteTrace,
    pending: client::PendingSignature,
    sig_bytes: Vec<u8>,
    key_id: Seq<char>,
    to_batch: client::PendingBatch<'_>,
    batch: Vec<u8>,
    to_persist: client::PendingPersist<'_, S>,
    summary: client::SealSummary,
    last: client::CaptureStep<'_, S>,
    key: Seq<u8>,
)
    requires
        sig_bytes@.len() == 64,
        client.follows_stored(
            CaptureOutcome::Sealed(trace),
            canonicalize,
            client::CaptureStep::Sign(pending),
        ),
        client.follows_signed(
            pending,
            Ok(sig_bytes),
            key_id,
            client::CaptureStep::Batch(to_batch),
        ),
        client.follows_batched(to_batch, Ok(batch), client::CaptureStep::Persist(to_persist)),
        client.follows_persisted(to_persist, Ok(summary), last),
    ensures
        to_batch.trace@ == seal::signed(client.stamps(trace@), sig_bytes@, key_id),
        seal::may_answer(canonicalize, seal::envelope(to_batch.trace@), Ok(pending.message)),
        *to_batch.provenance == client.provenance,
        to_persist.batch == batch,
        *to_persist.scrubber == client.scrubber,
        seal::accepted_over(to_batch.trace@, key, pending.message@) == seal::ed25519_accepts(
            key,
            pending.message@,
            sig_bytes@,
        ),
        last matches client::CaptureStep::Finished(
            client::CaptureEventOutcome::SealedAndPersisted { trace_id, summary: counts },
        ) && trace_id@ == trace.trace_id@ && counts == summary,
{
    law_signature_is_over_this_trace(
        canonicalize,
        pending,
        to_batch.trace,
        sig_bytes@,
        key_id,
        key,
    );
}

/// A batch that the engine does not take is lost: the event fails with the
/// engine's text and nothing more is asked for it. The client holds nothing of
/// it back: where the store opens a trace for the next event, that is its
/// outcome.
pub proof fn law_failed_persist_is_final<S, C: Fn(&Json) -> Result<Vec<u8>, String>>(
    client: client::CaptureClient<S>,
    to_persist: client::PendingPersist<'_, S>,
    cause: String,
    step: client::CaptureStep<'_, S>,
    canonicalize: C,
    next: client::CaptureStep<'_, S>,
)
    requires
        client.follows_persisted(to_persist, Err(cause), step),
        client.follows_stored(CaptureOutcome::Opened, canonicalize, next),
    ensures
        step == client::CaptureStep::<S>::Failed(client::ClientError::Persist(cause)),
        next == client::CaptureStep::<S>::Finished(client::CaptureEventOutcome::Opened),
{
}

/// A trace that an event opens has the identifier of the event's thought.
pub proof fn law_new_trace_is_named_by_its_thought(event: &InboundEvent, trace_id: String)
    requires
        call_ensures(client::trace_id_for_new, (event,), trace_id),
    ensures
        trace_id@ == event.thought_id@,
{
}

/// The store is asked to sweep at the time that the caller says, and by the
/// caller's own age, as far as the store can count.
pub proof fn law_sweep_asks_for_the_callers_age<S, N>(
    capture: &CaptureClient<S>,
    now: N,
    max_age_secs: u64,
    asked: (N, i64),
)
    requires
        call_ensures(CaptureClient::<S>::orphan_sweep::<N>, (capture, now, max_age_secs), asked),
    ensures
        asked.0 == now,
        asked.1 >= 0,
        asked.1 <= max_age_secs,
        max_age_secs <= 0x7fff_ffff_ffff_ffff ==> asked.1 == max_age_secs,
        max_age_secs > 0x7fff_ffff_ffff_ffff ==> asked.1 == 0x7fff_ffff_ffff_ffff,
{
}

/// A signature that is put onto a trace by a signer is the signer's answer, under
/// the name that was given; without an answer the trace comes back as it was.
pub proof fn law_signers_answer_is_put_on(
    pending: PendingSignature,
    answer: Result<Vec<u8>, String>,
    key_id: &str,
    res: (CompleteTrace, Result<(), SealSignError>),
)
    requires
        call_ensures(PendingSignature::signed, (pending, answer, key_id), res),
    ensures
        res.1 is Ok <==> answer is Ok,
        answer is Ok ==> {
            &&& res.0@.signature == Some(base64url::base64url(answer->Ok_0@))
            &&& res.0@.signature_key_id == Some(key_id@)
            &&& res.0@.trace_id == pending.trace@.trace_id
            &&& res.0@.components == pending.trace@.components
        },
        answer is Err ==> res.0 == pending.trace && res.1->Err_0 == SealSignError::HardwareSign(
            answer->Err_0,
        ),
{
}

/// The document that is signed for a trace is built from that trace, and a
/// canonicalizer's failure comes back whole.
pub proof fn law_canonical_bytes_are_the_traces<C: Fn(&Json) -> Result<Vec<u8>, String>>(
    trace: &CompleteTrace,
    canonicalize: C,
    res: Result<Vec<u8>, String>,
)
    requires
        call_ensures(seal::canonical_bytes::<C>, (trace, canonicalize), res),
    ensures
        res is Ok ==> exists|document: &Json|
            document@ == seal::envelope(trace@) && #[trigger] call_ensures(
                canonicalize,
                (document,),
                Ok(res->Ok_0),
            ),
        res is Err ==> exists|document: &Json, cause: String|
            document@ == seal::envelope(trace@) && res->Err_0@ == "canonicalize trace: "@ + cause@
                && #[trigger] call_ensures(canonicalize, (document,), Err(cause)),
{
    if res is Err {
        let cause = choose|error: String| #[trigger]
            seal::may_answer(canonicalize, seal::envelope(trace@), Err(error)) && res->Err_0@
                == "canonicalize trace: "@ + error@;
        assert(seal::may_answer(canonicalize, seal::envelope(trace@), Err(cause)));
    }
}

} // verus!
