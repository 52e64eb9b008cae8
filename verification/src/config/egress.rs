//! What may be forwarded to whom.
use vstd::prelude::*;

use crate::json;
use crate::json::{Json, JsonObject, JsonView};
use crate::text;

verus! {

broadcast use json::lemma_json_view;

/// How much of a trace is meant.
#[derive(Debug, Clone, Copy, PartialEq, Eq, Structural)]
pub enum TraceLevel {
    /// Structure and numbers only, no content.
    Generic,
    Detailed,
    FullTraces,
}

/// A level's name on the wire.
pub open spec fn level_text(level: TraceLevel) -> Seq<char> {
    match level {
        TraceLevel::Generic => "generic"@,
        TraceLevel::Detailed => "detailed"@,
        TraceLevel::FullTraces => "full_traces"@,
    }
}

impl TraceLevel {
    /// The level's name on the wire.
    pub fn wire_name(self) -> (res: &'static str)
        ensures
            res@ == level_text(self),
    {
        match self {
            TraceLevel::Generic => "generic",
            TraceLevel::Detailed => "detailed",
            TraceLevel::FullTraces => "full_traces",
        }
    }

    /// The level with a name, where there is one.
    pub fn from_wire_name(name: &str) -> (res: Option<TraceLevel>)
        ensures
            match res {
                Some(level) => level_text(level) == name@,
                None => forall|level: TraceLevel| #[trigger] level_text(level) != name@,
            },
    {
        if text::same(name, "generic") {
            Some(TraceLevel::Generic)
        } else if text::same(name, "detailed") {
            Some(TraceLevel::Detailed)
        } else if text::same(name, "full_traces") {
            Some(TraceLevel::FullTraces)
        } else {
            None
        }
    }
}

/// No two levels have the same name on the wire.
pub proof fn law_level_names_differ(left: TraceLevel, right: TraceLevel)
    requires
        level_text(left) == level_text(right),
    ensures
        left == right,
{
    reveal_strlit("generic");
    reveal_strlit("detailed");
    reveal_strlit("full_traces");
    assert("generic"@.len() == 7);
    assert("detailed"@.len() == 8);
    assert("full_traces"@.len() == 11);
}

/// What may be forwarded to one upstream.
#[derive(Debug, Clone, Copy, PartialEq, Eq, Structural)]
#[non_exhaustive]
pub struct EgressFilter {
    /// The most that may cross the wire.
    pub trace_level: TraceLevel,
}

impl EgressFilter {
    pub fn new(trace_level: TraceLevel) -> (res: EgressFilter)
        ensures
            res.trace_level == trace_level,
    {
        EgressFilter { trace_level }
    }
}

/// A filter as a document: its level's name under `trace_level`.
pub open spec fn filter_view(filter: EgressFilter) -> JsonView {
    JsonView::Object(map!["trace_level"@ => JsonView::Text(level_text(filter.trace_level))])
}

/// Whether a document has a filter's level: under `trace_level`, by its name.
/// Other fields are left alone.
pub open spec fn says_filter(document: JsonView, filter: EgressFilter) -> bool {
    json::field_of(document, "trace_level"@) == Some(
        JsonView::Text(level_text(filter.trace_level)),
    )
}

impl EgressFilter {
    /// The filter as a document.
    pub fn to_json(&self) -> (res: Json)
        ensures
            res@ == filter_view(*self),
    {
        let mut object = JsonObject::new();
        object.insert(
            "trace_level".to_owned(),
            Json::Text(self.trace_level.wire_name().to_owned()),
        );
        Json::Object(object)
    }

    /// The filter that a document says, where it says one.
    pub fn from_json(document: &Json) -> (res: Option<EgressFilter>)
        ensures
            match res {
                Some(filter) => says_filter(document@, filter),
                None => forall|filter: EgressFilter|
                    #![trigger says_filter(document@, filter)]
                    !says_filter(document@, filter),
            },
    {
        match document.get("trace_level") {
            Some(value) => match value.as_str() {
                Some(name) => match TraceLevel::from_wire_name(name) {
                    Some(trace_level) => Some(EgressFilter::new(trace_level)),
                    None => None,
                },
                None => None,
            },
            None => None,
        }
    }
}

/// A filter that is written as a document reads back: the document says this
/// filter and no other.
pub proof fn law_filter_reads_back(filter: EgressFilter, other: EgressFilter)
    ensures
        says_filter(filter_view(filter), filter),
        says_filter(filter_view(filter), other) ==> other == filter,
{
    if says_filter(filter_view(filter), other) {
        law_level_names_differ(other.trace_level, filter.trace_level);
    }
}

/// A filter's document is an object with one field, under `trace_level`, which is
/// the name of the filter's level.
pub proof fn law_filter_document_has_one_field(filter: EgressFilter)
    ensures
        filter_view(filter) is Object,
        filter_view(filter)->Object_0.dom() == set!["trace_level"@],
        filter_view(filter)->Object_0["trace_level"@] == JsonView::Text(
            match filter.trace_level {
                TraceLevel::Generic => "generic"@,
                TraceLevel::Detailed => "detailed"@,
                TraceLevel::FullTraces => "full_traces"@,
            },
        ),
{
    assert(filter_view(filter)->Object_0.dom() =~= set!["trace_level"@]);
}

/// What a filter is read from: an object with one of the three names as a text
/// under `trace_level`, whatever else it holds, and nothing else.
pub proof fn law_filter_is_under_trace_level(document: JsonView, filter: EgressFilter)
    ensures
        says_filter(document, filter) <==> (document is Object && document->Object_0.contains_key(
            "trace_level"@,
        ) && document->Object_0["trace_level"@] is Text && match filter.trace_level {
            TraceLevel::Generic => document->Object_0["trace_level"@]->Text_0 == "generic"@,
            TraceLevel::Detailed => document->Object_0["trace_level"@]->Text_0 == "detailed"@,
            TraceLevel::FullTraces => document->Object_0["trace_level"@]->Text_0
                == "full_traces"@,
        }),
{
}

/// A document says at most one filter.
pub proof fn law_document_says_one_filter(
    document: JsonView,
    left: EgressFilter,
    right: EgressFilter,
)
    requires
        says_filter(document, left),
        says_filter(document, right),
    ensures
        left == right,
{
    law_level_names_differ(left.trace_level, right.trace_level);
}

impl Default for EgressFilter {
    /// Without a word from the operator no content is forwarded.
    fn default() -> (res: EgressFilter)
        ensures
            res.trace_level == TraceLevel::Generic,
    {
        EgressFilter::new(TraceLevel::Generic)
    }
}

/// A filter that is written out and read again is the filter that it was.
pub proof fn law_filter_survives_its_document(
    filter: EgressFilter,
    document: Json,
    res: Option<EgressFilter>,
)
    requires
        call_ensures(EgressFilter::to_json, (&filter,), document),
        call_ensures(EgressFilter::from_json, (&document,), res),
    ensures
        res == Some(filter),
{
    law_filter_reads_back(filter, filter);
    if res is Some {
        law_filter_reads_back(filter, res->Some_0);
    }
}

} // verus!
