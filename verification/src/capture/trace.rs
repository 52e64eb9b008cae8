//! A captured trace and its components.
use vstd::prelude::*;

use crate::json::{Json, JsonView};

verus! {

/// The text behind an optional string.
pub open spec fn opt_text(text: Option<String>) -> Option<Seq<char>> {
    match text {
        Some(text) => Some(text@),
        None => None,
    }
}

/// The document behind an optional one.
pub open spec fn opt_json(document: Option<Json>) -> Option<JsonView> {
    match document {
        Some(document) => Some(document@),
        None => None,
    }
}

/// One reasoning event as it stands in a trace.
#[derive(Debug, Clone)]
pub struct TraceComponent {
    /// Wire name of the component's type, such as `observation`.
    pub component_type: String,
    /// Wire name of the event's type, such as `THOUGHT_START`.
    pub event_type: String,
    /// RFC-3339 time of the event.
    pub timestamp: String,
    pub attempt_index: u32,
    /// The event's payload.
    pub data: Json,
    /// Identity hash of the agent; blank where the trace's own hash stands for
    /// it.
    pub agent_id_hash: String,
}

/// A trace, from its first event to the one that seals it.
#[derive(Debug, Clone)]
pub struct CompleteTrace {
    pub trace_id: String,
    pub thought_id: String,
    pub task_id: Option<String>,
    pub agent_id_hash: String,
    pub started_at: String,
    pub completed_at: Option<String>,
    pub components: Vec<TraceComponent>,
    /// URL-safe base64 of the Ed25519 signature, without padding.
    pub signature: Option<String>,
    /// Name of the key that signed.
    pub signature_key_id: Option<String>,
    pub trace_level: Option<String>,
    pub trace_schema_version: String,
    /// The operator's cohort block.
    pub deployment_profile: Option<Json>,
}

/// An event as the agent reports it, before it is part of a trace.
#[derive(Debug, Clone)]
pub struct InboundEvent {
    /// Wire name of the event's type.
    pub event_type: String,
    pub thought_id: String,
    pub task_id: Option<String>,
    pub agent_id_hash: String,
    /// RFC-3339 time of the event.
    pub timestamp: String,
    pub trace_level: Option<String>,
    /// The event's payload.
    pub data: Json,
}

/// What the store of traces in flight made of an event.
#[derive(Debug, Clone)]
pub enum CaptureOutcome {
    /// The first event of its thought: a trace was opened.
    Opened,
    /// A component was added to a trace in flight.
    Appended,
    /// The event's type is not known.
    UnknownEvent { raw: String },
    /// The event ended its trace.
    Sealed(CompleteTrace),
}

/// What is said once of a batch of traces.
#[derive(Debug, Clone)]
pub struct BatchProvenance {
    pub batch_timestamp: String,
    pub consent_timestamp: String,
    pub trace_level: String,
    pub trace_schema_version: String,
    pub correlation_metadata: Option<Json>,
}

/// What a component holds.
pub struct ComponentView {
    pub component_type: Seq<char>,
    pub event_type: Seq<char>,
    pub timestamp: Seq<char>,
    pub attempt_index: nat,
    pub data: JsonView,
    pub agent_id_hash: Seq<char>,
}

/// What a trace holds.
pub struct TraceView {
    pub trace_id: Seq<char>,
    pub thought_id: Seq<char>,
    pub task_id: Option<Seq<char>>,
    pub agent_id_hash: Seq<char>,
    pub started_at: Seq<char>,
    pub completed_at: Option<Seq<char>>,
    pub components: Seq<ComponentView>,
    pub signature: Option<Seq<char>>,
    pub signature_key_id: Option<Seq<char>>,
    pub trace_level: Option<Seq<char>>,
    pub trace_schema_version: Seq<char>,
    pub deployment_profile: Option<JsonView>,
}

impl View for TraceComponent {
    type V = ComponentView;

    open spec fn view(&self) -> ComponentView {
        ComponentView {
            component_type: self.component_type@,
            event_type: self.event_type@,
            timestamp: self.timestamp@,
            attempt_index: self.attempt_index as nat,
            data: self.data@,
            agent_id_hash: self.agent_id_hash@,
        }
    }
}

/// What a list of components holds.
pub open spec fn components_view(components: Seq<TraceComponent>) -> Seq<ComponentView> {
    components.map_values(|component: TraceComponent| component@)
}

impl View for CompleteTrace {
    type V = TraceView;

    open spec fn view(&self) -> TraceView {
        TraceView {
            trace_id: self.trace_id@,
            thought_id: self.thought_id@,
            task_id: opt_text(self.task_id),
            agent_id_hash: self.agent_id_hash@,
            started_at: self.started_at@,
            completed_at: opt_text(self.completed_at),
            components: components_view(self.components@),
            signature: opt_text(self.signature),
            signature_key_id: opt_text(self.signature_key_id),
            trace_level: opt_text(self.trace_level),
            trace_schema_version: self.trace_schema_version@,
            deployment_profile: opt_json(self.deployment_profile),
        }
    }
}

} // verus!
