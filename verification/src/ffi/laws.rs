//! What holds of the host's calls as a whole: what each entry of an answer is,
//! and what an answer says of the values that it was made from.
use vstd::prelude::*;

use crate::base64url;
use crate::capture;
use crate::capture::client::{CaptureEventOutcome, ClientError, SealSummary};
use crate::capture::trace::{BatchProvenance, CompleteTrace, InboundEvent};
use crate::codec;
use crate::config::egress;
use crate::config::egress::TraceLevel;
use crate::detector::{DeclaredCohortAxes, Features};
use crate::ffi::batch;
use crate::ffi::batch::{
    AssembledTrace, BatchArguments, BatchView, HalfSignedTrace, PerTraceSummary, PreparedTrace,
    SignedTrace, SummaryView, TraceBatch, WrittenTrace,
};
use crate::ffi::client;
use crate::ffi::client::{
    ClientArguments, ClientPath, ClientPlan, CohabitationStep, EngineSummary, PendingBatch,
    PendingKey, PendingSeal, PrepareOutcome, SealedTrace, SummaryField,
};
use crate::ffi::engine;
use crate::ffi::engine::EngineAnswer;
use crate::ffi::event;
use crate::ffi::event::FieldValue;
use crate::ffi::relay;
use crate::ffi::scrub;
use crate::ffi::scrub::{ScrubBatchRequest, ScrubRequest, ScrubStats, ScrubbedTrace};
use crate::ffi::value;
use crate::ffi::value::{HostDict, HostError, HostValue, HostView};
use crate::json::{Json, JsonView};
use crate::pipeline::lifecycle::DetectionInputs;
use crate::scoring::result::{IndeterminateReason, ManifoldConformity, Severity};
use crate::text;

verus! {

/// What a value says is what it holds.
pub proof fn law_values_say_what_they_hold(
    text: String,
    count: usize,
    flag: bool,
    dict: HostDict,
    values: Vec<HostValue>,
)
    ensures
        HostValue::Text(text)@ == HostView::Text(text@),
        HostValue::Count(count)@ == HostView::Count(count as nat),
        HostValue::Flag(flag)@ == HostView::Flag(flag),
        HostValue::Dict(dict)@ == HostView::Dict(dict@),
        HostValue::List(values)@ is List,
        HostValue::List(values)@->List_0.len() == values@.len(),
        forall|i: int|
            0 <= i < values@.len() ==> HostValue::List(values)@->List_0[i] == (
            #[trigger] values@[i])@,
        dict@.len() == dict.entries@.len(),
        forall|i: int|
            0 <= i < dict.entries@.len() ==> #[trigger] dict@[i] == (
                dict.entries@[i].0@,
                dict.entries@[i].1@,
            ),
{
    lemma_values(values@);
    lemma_entries(dict.entries@);
}

proof fn lemma_values(values: Seq<HostValue>)
    ensures
        value::values_view(values).len() == values.len(),
        forall|i: int|
            0 <= i < values.len() ==> value::values_view(values)[i] == value::value_view(
                #[trigger] values[i],
            ),
    decreases values.len(),
{
    if values.len() > 0 {
        let rest = values.drop_last();
        lemma_values(rest);
        assert forall|i: int| 0 <= i < values.len() implies value::values_view(values)[i]
            == value::value_view(#[trigger] values[i]) by {
            if i < rest.len() {
                assert(values[i] == rest[i]);
            }
        }
    }
}

proof fn lemma_entries(entries: Seq<(String, HostValue)>)
    ensures
        value::entries_view(entries).len() == entries.len(),
        forall|i: int|
            0 <= i < entries.len() ==> #[trigger] value::entries_view(entries)[i] == (
                entries[i].0@,
                value::value_view(entries[i].1),
            ),
    decreases entries.len(),
{
    if entries.len() > 0 {
        let rest = entries.drop_last();
        lemma_entries(rest);
        assert forall|i: int| 0 <= i < entries.len() implies #[trigger] value::entries_view(
            entries,
        )[i] == (entries[i].0@, value::value_view(entries[i].1)) by {
            if i < rest.len() {
                assert(entries[i] == rest[i]);
                assert(value::entries_view(entries)[i] == value::entries_view(rest)[i]);
            }
        }
    }
}

/// What the host prints of an error ends with its message, whole, behind the name
/// of its class; what the host raised itself is printed as it is.
pub proof fn law_errors_print_their_message(message: String)
    ensures
        value::host_error_text(HostError::Value(message)) == "ValueError: "@ + message@,
        value::host_error_text(HostError::Runtime(message)) == "RuntimeError: "@ + message@,
        value::host_error_text(HostError::Raised(message)) == message@,
{
}

/// An error is of one class and has one message.
pub proof fn law_errors_are_told_apart(error: HostError, message: Seq<char>)
    ensures
        value::is_value_error(error, message) <==> (error is Value && error->Value_0@ == message),
        value::is_runtime_error(error, message) <==> (error is Runtime && error->Runtime_0@
            == message),
{
}

/// What the engine gives comes through as it is; a failure names the call and
/// then its cause, whole; what is of another type is the host's own error.
pub proof fn law_engine_answers_come_through<T>(
    call: Seq<char>,
    answer: EngineAnswer<T>,
    res: Result<T, HostError>,
)
    requires
        engine::engine_result(call, answer, res),
    ensures
        answer is Given <==> res is Ok,
        answer is Given ==> res->Ok_0 == answer->Given_0,
        answer is Failed ==> res->Err_0 is Runtime && res->Err_0->Runtime_0@ == call
            + answer->Failed_0@,
        answer is Mistyped ==> res->Err_0 is Raised && res->Err_0->Raised_0 == answer->Mistyped_0,
{
}

/// A level is read from its own name and from nothing else; the refusal shows
/// the text that was given.
pub proof fn law_level_is_its_name(level: Seq<char>, res: Result<TraceLevel, HostError>)
    requires
        scrub::level_answer(level, res),
    ensures
        res is Ok <==> (level == "generic"@ || level == "detailed"@ || level == "full_traces"@),
        res is Ok && res->Ok_0 is Generic ==> level == "generic"@,
        res is Ok && res->Ok_0 is Detailed ==> level == "detailed"@,
        res is Ok && res->Ok_0 is FullTraces ==> level == "full_traces"@,
        res is Err ==> res->Err_0 is Value && res->Err_0->Value_0@ == "invalid trace_level "@
            + text::debug_text(level) + "; expected one of: generic, detailed, full_traces"@,
        scrub::is_level(level) <==> res is Ok,
        scrub::level_error_text(level) == "invalid trace_level "@ + text::debug_text(level)
            + "; expected one of: generic, detailed, full_traces"@,
{
    assert(egress::level_text(TraceLevel::Generic) == "generic"@);
    assert(egress::level_text(TraceLevel::Detailed) == "detailed"@);
    assert(egress::level_text(TraceLevel::FullTraces) == "full_traces"@);
    match res {
        Ok(known) => {
            assert(egress::level_text(known) == level);
        },
        Err(_) => {},
    }
}

proof fn lemma_scrubbed_names()
    ensures
        "trace"@ != "level"@,
        "trace"@ != "stats"@,
        "level"@ != "stats"@,
{
    reveal_strlit("trace");
    reveal_strlit("level");
    reveal_strlit("stats");
    assert("trace"@[0] == 't');
    assert("level"@[0] == 'l');
    assert("stats"@[0] == 's');
}

/// What the host gets of a scrubbed trace has three entries: the one named
/// `trace` is the trace as it was written out, the one named `level` is the level
/// that was asked for, and the one named `stats` is the counts.
pub proof fn law_scrubbed_entries(trace: Seq<char>, level: Seq<char>, stats: ScrubStats)
    ensures
        ({
            let entries = scrub::scrubbed_view(trace, level, stats);
            &&& entries.len() == 3
            &&& entries.contains(("trace"@, HostView::Text(trace)))
            &&& entries.contains(("level"@, HostView::Text(level)))
            &&& entries.contains(("stats"@, HostView::Dict(scrub::stats_view(stats))))
            &&& forall|i: int| #![trigger entries[i]]
                0 <= i < entries.len() ==> {
                    &&& entries[i].0 == "trace"@ ==> entries[i].1 == HostView::Text(trace)
                    &&& entries[i].0 == "level"@ ==> entries[i].1 == HostView::Text(level)
                    &&& entries[i].0 == "stats"@ ==> entries[i].1 == HostView::Dict(
                        scrub::stats_view(stats),
                    )
                }
            &&& entries[0].0 == "trace"@
            &&& entries[1].0 == "level"@
            &&& entries[2].0 == "stats"@
        }),
{
    lemma_scrubbed_names();
    let entries = scrub::scrubbed_view(trace, level, stats);
    assert(entries[0] == ("trace"@, HostView::Text(trace)));
    assert(entries[1] == ("level"@, HostView::Text(level)));
    assert(entries[2] == ("stats"@, HostView::Dict(scrub::stats_view(stats))));
}

/// The host sees which level it asked for, and which trace came back: answers for
/// two levels, or of two traces, are not the same.
pub proof fn law_scrubbed_answers_differ(
    left_trace: Seq<char>,
    right_trace: Seq<char>,
    left_level: Seq<char>,
    right_level: Seq<char>,
    left_stats: ScrubStats,
    right_stats: ScrubStats,
)
    requires
        scrub::scrubbed_view(left_trace, left_level, left_stats) == scrub::scrubbed_view(
            right_trace,
            right_level,
            right_stats,
        ),
    ensures
        left_level == right_level,
        left_trace == right_trace,
        left_stats == right_stats,
{
    let left = scrub::scrubbed_view(left_trace, left_level, left_stats);
    let right = scrub::scrubbed_view(right_trace, right_level, right_stats);
    assert(left[0] == right[0]);
    assert(left[1] == right[1]);
    assert(left[2] == right[2]);
    let ours = scrub::stats_view(left_stats);
    let theirs = scrub::stats_view(right_stats);
    assert(ours[0] == theirs[0]);
    assert(ours[1] == theirs[1]);
    assert(ours[2] == theirs[2]);
    assert(ours[3] == theirs[3]);
    assert(ours[4] == theirs[4]);
    assert(ours[5] == theirs[5]);
    assert(ours[6] == theirs[6]);
}

proof fn lemma_stats_names()
    ensures
        "entities_redacted"@.len() == 17,
        "regex_redactions"@.len() == 16,
        "regex_redactions"@[0] == 'r',
        "fields_modified"@.len() == 15,
        "walker_max_depth"@.len() == 16,
        "walker_max_depth"@[0] == 'w',
        "ner_ran"@.len() == 7,
        "ner_cache_hits"@.len() == 14,
        "ner_cache_misses"@.len() == 16,
        "ner_cache_misses"@[0] == 'n',
{
    reveal_strlit("entities_redacted");
    reveal_strlit("regex_redactions");
    reveal_strlit("fields_modified");
    reveal_strlit("walker_max_depth");
    reveal_strlit("ner_ran");
    reveal_strlit("ner_cache_hits");
    reveal_strlit("ner_cache_misses");
}

/// Each count of the scrubber's is under its own name, and nothing else is there.
pub proof fn law_counts_are_under_their_names(stats: ScrubStats)
    ensures
        ({
            let entries = scrub::stats_view(stats);
            &&& entries.len() == 7
            &&& entries.contains(
                ("entities_redacted"@, HostView::Count(stats.entities_redacted as nat)),
            )
            &&& entries.contains(
                ("regex_redactions"@, HostView::Count(stats.regex_redactions as nat)),
            )
            &&& entries.contains(("fields_modified"@, HostView::Count(stats.fields_modified as nat)))
            &&& entries.contains(
                ("walker_max_depth"@, HostView::Count(stats.walker_max_depth as nat)),
            )
            &&& entries.contains(("ner_ran"@, HostView::Flag(stats.ner_ran)))
            &&& entries.contains(("ner_cache_hits"@, HostView::Count(stats.ner_cache_hits as nat)))
            &&& entries.contains(
                ("ner_cache_misses"@, HostView::Count(stats.ner_cache_misses as nat)),
            )
            &&& forall|i: int, j: int|
                #![trigger entries[i], entries[j]]
                0 <= i < j < entries.len() ==> entries[i].0 != entries[j].0
        }),
{
    lemma_stats_names();
    let entries = scrub::stats_view(stats);
    assert(entries[0] == ("entities_redacted"@, HostView::Count(stats.entities_redacted as nat)));
    assert(entries[1] == ("regex_redactions"@, HostView::Count(stats.regex_redactions as nat)));
    assert(entries[2] == ("fields_modified"@, HostView::Count(stats.fields_modified as nat)));
    assert(entries[3] == ("walker_max_depth"@, HostView::Count(stats.walker_max_depth as nat)));
    assert(entries[4] == ("ner_ran"@, HostView::Flag(stats.ner_ran)));
    assert(entries[5] == ("ner_cache_hits"@, HostView::Count(stats.ner_cache_hits as nat)));
    assert(entries[6] == ("ner_cache_misses"@, HostView::Count(stats.ner_cache_misses as nat)));
}

/// A scrubbed trace reaches the host exactly where it can be written out: then the
/// host gets the text of the trace itself under `trace` and the level that it
/// asked for under `level`, and else the reason.
pub proof fn law_scrubbed_trace_reaches_the_host(
    value: JsonView,
    stats: ScrubStats,
    level: Seq<char>,
    res: Result<HostDict, HostError>,
)
    requires
        scrub::scrubbed_answer(value, stats, level, res),
    ensures
        res is Ok <==> codec::rendered_json(value) is Ok,
        res is Ok ==> {
            let entries = res->Ok_0@;
            &&& entries.len() == 3
            &&& entries.contains(("trace"@, HostView::Text(codec::rendered_json(value)->Ok_0)))
            &&& entries.contains(("level"@, HostView::Text(level)))
            &&& entries.contains(("stats"@, HostView::Dict(scrub::stats_view(stats))))
            &&& forall|i: int| #![trigger entries[i]]
                0 <= i < entries.len() && entries[i].0 == "level"@ ==> entries[i].1
                    == HostView::Text(level)
            &&& forall|i: int| #![trigger entries[i]]
                0 <= i < entries.len() && entries[i].0 == "trace"@ ==> entries[i].1
                    == HostView::Text(codec::rendered_json(value)->Ok_0)
        },
        res is Err ==> res->Err_0 is Runtime && res->Err_0->Runtime_0@
            == "serialize scrubbed trace: "@ + codec::rendered_json(value)->Err_0,
{
    if res is Ok {
        law_scrubbed_entries(codec::rendered_json(value)->Ok_0, level, stats);
    }
}

/// The trace that a batch is refused for is the first that is no JSON, and the
/// refusal names its place and its cause.
pub proof fn law_first_bad_trace_is_named(traces: Seq<String>, index: int, error: HostError)
    requires
        scrub::first_bad(traces, index, error),
    ensures
        0 <= index < traces.len(),
        forall|i: int| 0 <= i < index ==> codec::parsed_json((#[trigger] traces[i])@) is Ok,
        codec::parsed_json(traces[index]@) is Err,
        error is Value,
        error->Value_0@ == "invalid trace JSON at index "@ + text::decimal_text(index as nat)
            + ": "@ + codec::parsed_json(traces[index]@)->Err_0,
{
}

/// A batch is read where each of its traces is JSON, and is not where one is not.
pub proof fn law_batch_is_read_trace_by_trace(traces: Seq<String>, end: int)
    ensures
        scrub::read_before(traces, end) <==> (forall|i: int|
            0 <= i < end ==> codec::parsed_json((#[trigger] traces[i])@) is Ok),
{
}

/// The trace that an answer ends at is the first that cannot be written out, and
/// the error says why.
pub proof fn law_first_unwritten_trace_is_named(
    batch: Seq<ScrubbedTrace>,
    index: int,
    error: HostError,
)
    requires
        scrub::first_unwritten(batch, index, error),
    ensures
        0 <= index < batch.len(),
        forall|i: int|
            0 <= i < index ==> codec::rendered_json((#[trigger] batch[i]).value@) is Ok,
        codec::rendered_json(batch[index].value@) is Err,
        error is Runtime,
        error->Runtime_0@ == "serialize scrubbed trace: "@ + codec::rendered_json(
            batch[index].value@,
        )->Err_0,
{
}

/// A batch is written where each of its traces can be, and is not where one
/// cannot.
pub proof fn law_batch_is_written_trace_by_trace(batch: Seq<ScrubbedTrace>, end: int)
    ensures
        scrub::written_before(batch, end) <==> (forall|i: int|
            0 <= i < end ==> codec::rendered_json((#[trigger] batch[i]).value@) is Ok),
{
}

/// What is looked up under a name is the last value that stands under it, and
/// there is none exactly where the name does not occur.
pub proof fn law_lookup_is_by_name(component: Seq<(String, FieldValue)>, name: Seq<char>)
    ensures
        event::lookup(component, name) is None <==> (forall|i: int|
            0 <= i < component.len() ==> (#[trigger] component[i]).0@ != name),
        event::lookup(component, name) is Some ==> exists|i: int|
            0 <= i < component.len() && (#[trigger] component[i]).0@ == name && component[i].1
                == event::lookup(component, name)->Some_0 && (forall|j: int|
                i < j < component.len() ==> (#[trigger] component[j]).0@ != name),
    decreases component.len(),
{
    if component.len() > 0 {
        let rest = component.drop_last();
        let end = component.len() - 1;
        assert(component[end] == component.last());
        if component.last().0@ != name {
            law_lookup_is_by_name(rest, name);
            assert(forall|i: int| 0 <= i < rest.len() ==> component[i] == #[trigger] rest[i]);
            if event::lookup(component, name) is None {
                assert forall|i: int| 0 <= i < component.len() implies (#[trigger] component[i]).0@
                    != name by {
                    if i < end {
                        assert(rest[i] == component[i]);
                    }
                }
            } else {
                let found = choose|i: int|
                    0 <= i < rest.len() && (#[trigger] rest[i]).0@ == name && rest[i].1
                        == event::lookup(rest, name)->Some_0 && (forall|j: int|
                        i < j < rest.len() ==> (#[trigger] rest[j]).0@ != name);
                assert(component[found] == rest[found]);
                assert forall|j: int| found < j < component.len() implies (
                #[trigger] component[j]).0@ != name by {
                    if j < end {
                        assert(rest[j] == component[j]);
                    }
                }
            }
        }
    }
}

/// A required field is the text under its name; where there is none, or something
/// else, the refusal names the field.
pub proof fn law_required_field(component: Seq<(String, FieldValue)>, name: Seq<char>)
    ensures
        ({
            let found = event::lookup(component, name);
            let read = event::required_text(component, name);
            &&& read is Ok <==> (found is Some && found->Some_0 is Text)
            &&& read is Ok ==> read->Ok_0 == found->Some_0->Text_0@
            &&& found is None ==> read->Err_0 == "component dict missing required field "@
                + seq!['"'] + name + seq!['"']
            &&& found is Some && !(found->Some_0 is Text) ==> read->Err_0 == "component field "@
                + seq!['"'] + name + seq!['"'] + " must be a str"@
        }),
{
    assert(text::quoted(name) =~= seq!['"'] + name + seq!['"']);
    assert("component dict missing required field "@ + text::quoted(name)
        =~= "component dict missing required field "@ + seq!['"'] + name + seq!['"']);
    assert("component field "@ + text::quoted(name) =~= "component field "@ + seq!['"'] + name
        + seq!['"']);
}

/// An optional field is the text under its name, and nothing where there is none
/// or the host says nothing; for anything else the refusal names the field.
pub proof fn law_optional_field(component: Seq<(String, FieldValue)>, name: Seq<char>)
    ensures
        ({
            let found = event::lookup(component, name);
            let read = event::optional_text(component, name);
            &&& read is Err <==> (found is Some && found->Some_0 is Other)
            &&& found is None || found->Some_0 is Nothing ==> read == Ok::<
                Option<Seq<char>>,
                Seq<char>,
            >(None)
            &&& found is Some && found->Some_0 is Text ==> read == Ok::<
                Option<Seq<char>>,
                Seq<char>,
            >(Some(found->Some_0->Text_0@))
            &&& read is Err ==> read->Err_0 == "component field "@ + seq!['"'] + name + seq!['"']
                + " must be a str or None"@
        }),
{
    assert("component field "@ + text::quoted(name) =~= "component field "@ + seq!['"'] + name
        + seq!['"']);
}

/// The fields are read in one order, and the first that is not what it should be
/// is the one that the refusal is about: where the fields before it can be read
/// and it cannot, what is said is what is said of it.
pub proof fn law_first_bad_field_is_named(component: Seq<(String, FieldValue)>, index: int)
    requires
        0 <= index < 6,
    ensures
        ({
            let names = seq![
                "event_type"@,
                "thought_id"@,
                "timestamp"@,
                "agent_id_hash"@,
                "task_id"@,
                "trace_level"@,
            ];
            let read = |i: int|
                if i < 4 {
                    event::lookup(component, names[i]) is Some && event::lookup(
                        component,
                        names[i],
                    )->Some_0 is Text
                } else {
                    !(event::lookup(component, names[i]) is Some && event::lookup(
                        component,
                        names[i],
                    )->Some_0 is Other)
                };
            (forall|i: int| 0 <= i < index ==> #[trigger] read(i)) && !read(index)
                ==> event::first_field_error(component) == Some(
                if index < 4 {
                    event::required_text(component, names[index])->Err_0
                } else {
                    event::optional_text(component, names[index])->Err_0
                },
            )
        }),
{
    let names = seq![
        "event_type"@,
        "thought_id"@,
        "timestamp"@,
        "agent_id_hash"@,
        "task_id"@,
        "trace_level"@,
    ];
    let read = |i: int|
        if i < 4 {
            event::lookup(component, names[i]) is Some && event::lookup(
                component,
                names[i],
            )->Some_0 is Text
        } else {
            !(event::lookup(component, names[i]) is Some && event::lookup(
                component,
                names[i],
            )->Some_0 is Other)
        };
    if (forall|i: int| 0 <= i < index ==> #[trigger] read(i)) && !read(index) {
        if index > 0 {
            assert(read(0));
        }
        if index > 1 {
            assert(read(1));
        }
        if index > 2 {
            assert(read(2));
        }
        if index > 3 {
            assert(read(3));
        }
        if index > 4 {
            assert(read(4));
        }
    }
}

/// An event holds, in each of its fields, the text that the component has under
/// the name of the field, and the payload that was read.
pub proof fn law_event_holds_its_component(
    component: Seq<(String, FieldValue)>,
    data: JsonView,
    inbound: InboundEvent,
    text: String,
)
    requires
        event::event_of(component, data, inbound),
    ensures
        inbound.data@ == data,
        event::lookup(component, "event_type"@) == Some(FieldValue::Text(text))
            ==> inbound.event_type@ == text@,
        event::lookup(component, "thought_id"@) == Some(FieldValue::Text(text))
            ==> inbound.thought_id@ == text@,
        event::lookup(component, "timestamp"@) == Some(FieldValue::Text(text))
            ==> inbound.timestamp@ == text@,
        event::lookup(component, "agent_id_hash"@) == Some(FieldValue::Text(text))
            ==> inbound.agent_id_hash@ == text@,
        event::lookup(component, "task_id"@) == Some(FieldValue::Text(text)) ==> inbound.task_id
            is Some && inbound.task_id->Some_0@ == text@,
        event::lookup(component, "trace_level"@) == Some(FieldValue::Text(text))
            ==> inbound.trace_level is Some && inbound.trace_level->Some_0@ == text@,
        event::lookup(component, "task_id"@) is None || event::lookup(
            component,
            "task_id"@,
        )->Some_0 is Nothing ==> inbound.task_id is None,
        event::lookup(component, "trace_level"@) is None || event::lookup(
            component,
            "trace_level"@,
        )->Some_0 is Nothing ==> inbound.trace_level is None,
        event::lookup(component, "event_type"@) is Some && event::lookup(
            component,
            "event_type"@,
        )->Some_0 is Text,
        event::lookup(component, "thought_id"@) is Some && event::lookup(
            component,
            "thought_id"@,
        )->Some_0 is Text,
        event::lookup(component, "timestamp"@) is Some && event::lookup(
            component,
            "timestamp"@,
        )->Some_0 is Text,
        event::lookup(component, "agent_id_hash"@) is Some && event::lookup(
            component,
            "agent_id_hash"@,
        )->Some_0 is Text,
{
}

/// A component has a payload where something other than nothing stands under
/// `data`.
pub proof fn law_payload_is_under_data(component: Seq<(String, FieldValue)>)
    ensures
        event::has_data(component) <==> (event::lookup(component, "data"@) is Some
            && !(event::lookup(component, "data"@)->Some_0 is Nothing)),
{
}

/// The payload of an event is what the host's text says; where the host could not
/// write one, its error comes through, and a text that is no JSON is refused with
/// the cause.
pub proof fn law_payload_is_what_was_written(
    component: Seq<(String, FieldValue)>,
    written: Result<String, HostError>,
    res: Result<InboundEvent, HostError>,
)
    requires
        event::data_answer(component, written, res),
    ensures
        written is Err ==> res is Err && res->Err_0 == written->Err_0,
        written is Ok ==> (res is Ok <==> codec::parsed_json(written->Ok_0@) is Ok),
        res is Ok ==> written is Ok && codec::parsed_json(written->Ok_0@) == Ok::<
            JsonView,
            Seq<char>,
        >(res->Ok_0.data@),
        res is Ok ==> event::event_of(component, res->Ok_0.data@, res->Ok_0),
        written is Ok && res is Err ==> res->Err_0 is Value && res->Err_0->Value_0@
            == "component field \"data\" is not JSON-serializable: "@ + codec::parsed_json(
            written->Ok_0@,
        )->Err_0,
{
}

/// A plan has each text that the host gives as it is given, and an empty one
/// where the host leaves it out.
pub proof fn law_plan_says_its_arguments(
    arguments: ClientArguments,
    profile: Option<JsonView>,
    plan: ClientPlan,
)
    requires
        client::planned(arguments, profile, plan),
    ensures
        plan.trace_level@ == arguments.trace_level@,
        plan.trace_schema_version@ == arguments.trace_schema_version@,
        plan.consent_timestamp == arguments.consent_timestamp,
        plan.consent_attesting_key_id == arguments.consent_attesting_key_id,
        plan.local_copy_dir == arguments.local_copy_dir,
        plan.correlation.share_location == arguments.share_location,
        profile is Some <==> plan.deployment_profile is Some,
        profile is Some ==> plan.deployment_profile->Some_0@ == profile->Some_0,
        plan.level is Generic ==> arguments.trace_level@ == "generic"@,
        plan.level is Detailed ==> arguments.trace_level@ == "detailed"@,
        plan.level is FullTraces ==> arguments.trace_level@ == "full_traces"@,
        plan.warn_unscrubbed <==> !(plan.level is Generic),
        arguments.deployment_region matches Some(text) ==> plan.correlation.deployment_region@
            == text@,
        arguments.deployment_region is None ==> plan.correlation.deployment_region@.len() == 0,
        arguments.deployment_type matches Some(text) ==> plan.correlation.deployment_type@
            == text@,
        arguments.deployment_type is None ==> plan.correlation.deployment_type@.len() == 0,
        arguments.agent_role matches Some(text) ==> plan.correlation.agent_role@ == text@,
        arguments.agent_role is None ==> plan.correlation.agent_role@.len() == 0,
        arguments.agent_template matches Some(text) ==> plan.correlation.agent_template@ == text@,
        arguments.agent_template is None ==> plan.correlation.agent_template@.len() == 0,
        arguments.user_location matches Some(text) ==> plan.correlation.user_location@ == text@,
        arguments.user_location is None ==> plan.correlation.user_location@.len() == 0,
        arguments.user_timezone matches Some(text) ==> plan.correlation.user_timezone@ == text@,
        arguments.user_timezone is None ==> plan.correlation.user_timezone@.len() == 0,
{
    reveal_strlit("");
    reveal_strlit("generic");
    reveal_strlit("detailed");
    reveal_strlit("full_traces");
    assert("generic"@.len() == 7);
    assert("detailed"@.len() == 8);
    assert("full_traces"@.len() == 11);
}

/// A client's profile is what the host's text says; where the host could not
/// write one, its error comes through, and a text that is no JSON is refused with
/// the cause.
pub proof fn law_profile_is_what_was_written(
    arguments: ClientArguments,
    written: Result<String, HostError>,
    res: Result<ClientPlan, HostError>,
)
    requires
        client::profile_answer(arguments, written, res),
    ensures
        written is Err ==> res is Err && res->Err_0 == written->Err_0,
        written is Ok ==> (res is Ok <==> codec::parsed_json(written->Ok_0@) is Ok),
        res is Ok ==> written is Ok && res->Ok_0.deployment_profile is Some
            && codec::parsed_json(written->Ok_0@) == Ok::<JsonView, Seq<char>>(
            res->Ok_0.deployment_profile->Some_0@,
        ) && client::planned(
            arguments,
            Some(res->Ok_0.deployment_profile->Some_0@),
            res->Ok_0,
        ),
        written is Ok && res is Err ==> res->Err_0 is Value && res->Err_0->Value_0@
            == "deployment_profile: failed to parse as JSON: "@ + codec::parsed_json(
            written->Ok_0@,
        )->Err_0,
{
}

/// On either engine a client is made with all of its plan, but for the key under
/// which consent is attested.
pub proof fn law_settings_keep_the_plan(plan: ClientPlan, path: ClientPath)
    ensures
        ({
            let settings = client::path_settings(plan, path);
            &&& settings.level == plan.level
            &&& settings.trace_level == plan.trace_level
            &&& settings.trace_schema_version == plan.trace_schema_version
            &&& settings.deployment_profile == plan.deployment_profile
            &&& settings.correlation == plan.correlation
            &&& settings.consent_timestamp == plan.consent_timestamp
            &&& settings.local_copy_dir == plan.local_copy_dir
            &&& settings.warn_unscrubbed == plan.warn_unscrubbed
            &&& path is Sovereign ==> settings.consent_attesting_key_id
                == plan.consent_attesting_key_id
            &&& path is Cohabitation ==> settings.consent_attesting_key_id is None
        }),
{
}

proof fn lemma_outcome_names()
    ensures
        "outcome"@.len() == 7,
        "raw"@.len() == 3,
        "trace_id"@.len() == 8,
        "trace_events_inserted"@.len() == 21,
        "signatures_verified"@.len() == 19,
        "reason"@.len() == 6,
{
    reveal_strlit("outcome");
    reveal_strlit("raw");
    reveal_strlit("trace_id");
    reveal_strlit("trace_events_inserted");
    reveal_strlit("signatures_verified");
    reveal_strlit("reason");
}

/// What the host gets of an outcome names it under `outcome`, has each of its
/// values under the value's own name, and nothing else.
pub proof fn law_outcome_entries(raw: String, reason: String, trace_id: String, summary: SealSummary)
    ensures
        client::outcome_entries(CaptureEventOutcome::Opened) == seq![
            ("outcome"@, HostView::Text("opened"@)),
        ],
        client::outcome_entries(CaptureEventOutcome::Appended) == seq![
            ("outcome"@, HostView::Text("appended"@)),
        ],
        ({
            let entries = client::outcome_entries(CaptureEventOutcome::Rejected { raw });
            &&& entries.len() == 2
            &&& entries.contains(("outcome"@, HostView::Text("rejected"@)))
            &&& entries.contains(("raw"@, HostView::Text(raw@)))
        }),
        ({
            let entries = client::outcome_entries(CaptureEventOutcome::ConsentBlocked { reason });
            &&& entries.len() == 2
            &&& entries.contains(("outcome"@, HostView::Text("consent_blocked"@)))
            &&& entries.contains(("reason"@, HostView::Text(reason@)))
        }),
        ({
            let entries = client::outcome_entries(
                CaptureEventOutcome::SealedAndPersisted { trace_id, summary },
            );
            &&& entries.len() == 4
            &&& entries.contains(("outcome"@, HostView::Text("sealed_and_persisted"@)))
            &&& entries.contains(("trace_id"@, HostView::Text(trace_id@)))
            &&& entries.contains(
                ("trace_events_inserted"@, HostView::Count(summary.trace_events_inserted as nat)),
            )
            &&& entries.contains(
                ("signatures_verified"@, HostView::Count(summary.signatures_verified as nat)),
            )
        }),
{
    let rejected = client::outcome_entries(CaptureEventOutcome::Rejected { raw });
    assert(rejected[0] == ("outcome"@, HostView::Text("rejected"@)));
    assert(rejected[1] == ("raw"@, HostView::Text(raw@)));
    let blocked = client::outcome_entries(CaptureEventOutcome::ConsentBlocked { reason });
    assert(blocked[0] == ("outcome"@, HostView::Text("consent_blocked"@)));
    assert(blocked[1] == ("reason"@, HostView::Text(reason@)));
    let sealed = client::outcome_entries(
        CaptureEventOutcome::SealedAndPersisted { trace_id, summary },
    );
    assert(sealed[0] == ("outcome"@, HostView::Text("sealed_and_persisted"@)));
    assert(sealed[1] == ("trace_id"@, HostView::Text(trace_id@)));
    assert(sealed[2] == (
        "trace_events_inserted"@,
        HostView::Count(summary.trace_events_inserted as nat),
    ));
    assert(sealed[3] == (
        "signatures_verified"@,
        HostView::Count(summary.signatures_verified as nat),
    ));
}

/// No name occurs twice in what the host gets of an outcome.
pub proof fn law_outcome_names_differ(outcome: CaptureEventOutcome, i: int, j: int)
    requires
        0 <= i < j < client::outcome_entries(outcome).len(),
    ensures
        client::outcome_entries(outcome)[i].0 != client::outcome_entries(outcome)[j].0,
{
    lemma_outcome_names();
}

/// An event that sealed nothing ends with what the host gets of its outcome.
pub proof fn law_finished_is_the_outcome(step: CohabitationStep, outcome: CaptureEventOutcome)
    ensures
        client::finished_with(step, outcome) <==> (step is Finished && step->Finished_0@
            == client::outcome_entries(outcome)),
{
}

/// The refusal of a signature says how long it is.
pub proof fn law_short_signature_says_its_length(len: nat)
    ensures
        client::short_signature_text(len) == "engine.local_sign returned "@ + text::decimal_text(
            len,
        ) + " bytes, expected 64"@,
{
}

/// A count of the engine's comes through as it is; one that is not there is said
/// to be missing, and one that is no count is the host's own error.
pub proof fn law_count_comes_through(
    missing: Seq<char>,
    field: SummaryField,
    res: Result<usize, HostError>,
)
    requires
        client::field_result(missing, field, res),
    ensures
        field is Given <==> res is Ok,
        field is Given ==> res->Ok_0 == field->Given_0,
        field is Missing ==> res->Err_0 is Runtime && res->Err_0->Runtime_0@ == missing,
        field is Mistyped ==> res->Err_0 is Raised && res->Err_0->Raised_0 == field->Mistyped_0,
{
}

/// Both counts of a summary come through, each as its own; where one does not, the
/// error is about it, and about the first where neither does.
pub proof fn law_summary_comes_through(summary: EngineSummary, res: Result<SealSummary, HostError>)
    requires
        client::summary_result(summary, res),
    ensures
        res is Ok <==> (summary.trace_events_inserted is Given && summary.signatures_verified
            is Given),
        res is Ok ==> res->Ok_0.trace_events_inserted == summary.trace_events_inserted->Given_0,
        res is Ok ==> res->Ok_0.signatures_verified == summary.signatures_verified->Given_0,
        summary.trace_events_inserted is Missing ==> res->Err_0 is Runtime
            && res->Err_0->Runtime_0@
            == "receive_and_persist summary missing 'trace_events_inserted'"@,
        summary.trace_events_inserted is Mistyped ==> res->Err_0 == HostError::Raised(
            summary.trace_events_inserted->Mistyped_0,
        ),
        summary.trace_events_inserted is Given && summary.signatures_verified is Missing
            ==> res->Err_0 is Runtime && res->Err_0->Runtime_0@
            == "receive_and_persist summary missing 'signatures_verified'"@,
        summary.trace_events_inserted is Given && summary.signatures_verified is Mistyped
            ==> res->Err_0 == HostError::Raised(summary.signatures_verified->Mistyped_0),
{
}

/// What is to be signed of a trace in a batch is the trace's own: the identifier
/// is the text under `trace_id` of its body, the hash is the host's of the text as
/// it was handed over, and no calibration is applied.
pub proof fn law_opened_trace_is_the_hosts<
    H: Fn(&str) -> Vec<u8>,
    D: Fn(&Json) -> DeclaredCohortAxes,
    F: Fn(&Json, &DeclaredCohortAxes) -> Features,
    C: Fn(&DeclaredCohortAxes) -> Json,
>(
    event_json: Seq<char>,
    hash: H,
    declare: D,
    extract: F,
    cell: C,
    inputs: DetectionInputs,
)
    requires
        batch::opened(event_json, hash, declare, extract, cell, Ok(inputs)),
    ensures
        codec::parsed_json(event_json) is Ok,
        codec::parsed_json(event_json)->Ok_0 is Object,
        codec::parsed_json(event_json)->Ok_0->Object_0.contains_key("trace_id"@),
        codec::parsed_json(event_json)->Ok_0->Object_0["trace_id"@] == JsonView::Text(
            inputs.trace_id@,
        ),
        codec::raw_json(event_json) is Ok,
        exists|asked: &str| #[trigger]
            call_ensures(hash, (asked,), inputs.body_sha256) && asked@ == codec::raw_json(
                event_json,
            )->Ok_0,
        exists|asked: &Json, declared: &DeclaredCohortAxes|
            asked@ == codec::parsed_json(event_json)->Ok_0 && #[trigger] call_ensures(
                declare,
                (asked,),
                *declared,
            ) && call_ensures(cell, (declared,), inputs.cohort_cell),
        inputs.detector@ == "manifold_conformity"@,
        inputs.severity == Severity::Info,
        inputs.conformity == (ManifoldConformity::Indeterminate {
            reason: IndeterminateReason::CohortColdStart,
        }),
        inputs.ratchet_calibration_version == 0,
        inputs.lens_core_version@ == "0.3.0"@,
{
}

/// Which traces of a batch are opened: those that are JSON with a text under
/// `trace_id`. The refusal of any other says why.
pub proof fn law_trace_is_opened_iff_it_has_an_identifier<
    H: Fn(&str) -> Vec<u8>,
    D: Fn(&Json) -> DeclaredCohortAxes,
    F: Fn(&Json, &DeclaredCohortAxes) -> Features,
    C: Fn(&DeclaredCohortAxes) -> Json,
>(
    event_json: Seq<char>,
    hash: H,
    declare: D,
    extract: F,
    cell: C,
    res: Result<DetectionInputs, HostError>,
)
    requires
        batch::opened(event_json, hash, declare, extract, cell, res),
    ensures
        codec::parsed_json(event_json) matches Err(cause) ==> res is Err && res->Err_0 is Value
            && res->Err_0->Value_0@ == "invalid trace JSON: "@ + cause,
        codec::parsed_json(event_json) matches Ok(body) ==> {
            let named = body is Object && body->Object_0.contains_key("trace_id"@)
                && body->Object_0["trace_id"@] is Text;
            &&& !named ==> res is Err && res->Err_0 is Value && res->Err_0->Value_0@
                == "missing trace_id"@
            &&& named && codec::raw_json(event_json) is Ok ==> res is Ok
            &&& named && codec::raw_json(event_json) is Err ==> res is Err && res->Err_0 is Value
                && res->Err_0->Value_0@ == "invalid trace RawValue: "@ + codec::raw_json(
                event_json,
            )->Err_0
        },
{
}

/// One more trace changes two things of a batch: one more is through, and its
/// summary stands behind those that are there, or nothing does where it failed.
pub proof fn law_recording_is_one_step(batch: BatchView, summary: SummaryView)
    ensures
        ({
            let kept = batch::recorded(batch, Some(summary));
            &&& kept.seen == batch.seen + 1
            &&& kept.detections.len() == batch.detections.len() + 1
            &&& kept.detections.last() == summary
            &&& forall|i: int|
                0 <= i < batch.detections.len() ==> #[trigger] kept.detections[i]
                    == batch.detections[i]
            &&& kept.batch_id == batch.batch_id
            &&& kept.signing_key_id == batch.signing_key_id
            &&& kept.received == batch.received
        }),
        ({
            let left_out = batch::recorded(batch, None);
            &&& left_out.seen == batch.seen + 1
            &&& left_out.detections == batch.detections
            &&& left_out.batch_id == batch.batch_id
            &&& left_out.signing_key_id == batch.signing_key_id
            &&& left_out.received == batch.received
        }),
{
}

/// Traces can be recorded in parts: those of the second part are recorded on top
/// of what the first part came to.
pub proof fn law_recording_goes_in_parts(
    batch: BatchView,
    first: Seq<Option<SummaryView>>,
    second: Seq<Option<SummaryView>>,
)
    ensures
        batch::recorded_all(batch, Seq::empty()) == batch,
        batch::recorded_all(batch, first + second) == batch::recorded_all(
            batch::recorded_all(batch, first),
            second,
        ),
    decreases second.len(),
{
    if second.len() == 0 {
        assert(first + second =~= first);
    } else {
        law_recording_goes_in_parts(batch, first, second.drop_last());
        assert((first + second).drop_last() =~= first + second.drop_last());
        assert((first + second).last() == second.last());
    }
}

/// Every trace that did not fail is among the detections.
pub proof fn law_every_summary_is_kept(
    batch: BatchView,
    summaries: Seq<Option<SummaryView>>,
    i: int,
)
    requires
        0 <= i < summaries.len(),
        summaries[i] is Some,
    ensures
        batch::recorded_all(batch, summaries).detections.contains(summaries[i]->Some_0),
    decreases summaries.len(),
{
    let rest = batch::recorded_all(batch, summaries.drop_last());
    let whole = batch::recorded_all(batch, summaries);
    if i == summaries.len() - 1 {
        assert(whole.detections[rest.detections.len() as int] == summaries[i]->Some_0);
    } else {
        law_every_summary_is_kept(batch, summaries.drop_last(), i);
        assert(summaries.drop_last()[i] == summaries[i]);
        let at = rest.detections.index_of(summaries[i]->Some_0);
        assert(whole.detections[at] == rest.detections[at]);
    }
}

/// What is said of a trace that failed names its place in the batch, and ends
/// with what the host prints of the error.
pub proof fn law_skipped_trace_is_named(index: nat, error: HostError)
    ensures
        batch::skip_text(index, error) == "ciris_lens_core.process_trace_batch: trace "@
            + text::decimal_text(index) + " skipped: "@ + value::host_error_text(error),
{
}

proof fn lemma_batch_names()
    ensures
        "batch_id"@.len() == 8,
        "traces_received"@.len() == 15,
        "traces_processed"@.len() == 16,
        "detections"@.len() == 10,
        "detection_id"@.len() == 12,
        "trace_id"@.len() == 8,
        "trace_id"@[0] == 't',
        "severity"@.len() == 8,
        "severity"@[0] == 's',
{
    reveal_strlit("batch_id");
    reveal_strlit("traces_received");
    reveal_strlit("traces_processed");
    reveal_strlit("detections");
    reveal_strlit("detection_id");
    reveal_strlit("trace_id");
    reveal_strlit("severity");
}

/// What the host gets of one trace has its three texts, each under its own name.
pub proof fn law_summary_entries(summary: SummaryView)
    ensures
        batch::summary_entry(summary) is Dict,
        ({
            let entries = batch::summary_entry(summary)->Dict_0;
            &&& entries.len() == 3
            &&& entries.contains(("detection_id"@, HostView::Text(summary.detection_id)))
            &&& entries.contains(("trace_id"@, HostView::Text(summary.trace_id)))
            &&& entries.contains(("severity"@, HostView::Text(summary.severity)))
            &&& forall|i: int, j: int|
                #![trigger entries[i], entries[j]]
                0 <= i < j < entries.len() ==> entries[i].0 != entries[j].0
        }),
{
    lemma_batch_names();
    let entries = batch::summary_entry(summary)->Dict_0;
    assert(entries[0] == ("detection_id"@, HostView::Text(summary.detection_id)));
    assert(entries[1] == ("trace_id"@, HostView::Text(summary.trace_id)));
    assert(entries[2] == ("severity"@, HostView::Text(summary.severity)));
}

/// What the host gets of a batch: its identifier, how many traces were handed
/// over, how many of them have a detection, and under `detections` one entry for
/// each of these, in order.
pub proof fn law_batch_entries(batch: BatchView)
    ensures
        ({
            let entries = batch::batch_entries(batch);
            let listed = batch::summary_entries(batch.detections);
            &&& entries.len() == 4
            &&& entries.contains(("batch_id"@, HostView::Text(batch.batch_id)))
            &&& entries.contains(("traces_received"@, HostView::Count(batch.received)))
            &&& entries.contains(("traces_processed"@, HostView::Count(batch.detections.len())))
            &&& entries.contains(("detections"@, HostView::List(listed)))
            &&& forall|i: int, j: int|
                #![trigger entries[i], entries[j]]
                0 <= i < j < entries.len() ==> entries[i].0 != entries[j].0
            &&& listed.len() == batch.detections.len()
            &&& forall|i: int|
                0 <= i < batch.detections.len() ==> #[trigger] listed[i] == batch::summary_entry(
                    batch.detections[i],
                )
        }),
{
    lemma_batch_names();
    let entries = batch::batch_entries(batch);
    let listed = batch::summary_entries(batch.detections);
    assert(entries[0] == ("batch_id"@, HostView::Text(batch.batch_id)));
    assert(entries[1] == ("traces_received"@, HostView::Count(batch.received)));
    assert(entries[2] == ("traces_processed"@, HostView::Count(batch.detections.len())));
    assert(entries[3] == ("detections"@, HostView::List(listed)));
}

/// A severity's name tells it apart from the others.
pub proof fn law_severities_have_their_names(severity: Severity)
    ensures
        severity is Info <==> batch::severity_text(severity) == "info"@,
        severity is Warning <==> batch::severity_text(severity) == "warning"@,
        severity is Critical <==> batch::severity_text(severity) == "critical"@,
{
    reveal_strlit("info");
    reveal_strlit("warning");
    reveal_strlit("critical");
    assert("info"@.len() == 4);
    assert("warning"@.len() == 7);
    assert("critical"@.len() == 8);
}

/// A batch starts under an identifier in the form of a UUID and the name that the
/// engine gives for its key, with all of its traces before it and nothing found;
/// without that name there is none, and the error names the question.
pub proof fn law_batch_starts_empty(
    received: usize,
    arguments: BatchArguments,
    key: EngineAnswer<String>,
    res: Result<TraceBatch, HostError>,
)
    requires
        batch::batch_opened(received, arguments, key, res),
    ensures
        res is Ok <==> key is Given,
        res is Ok ==> {
            &&& res->Ok_0@.signing_key_id == key->Given_0@
            &&& res->Ok_0@.received == received
            &&& res->Ok_0@.seen == 0
            &&& res->Ok_0@.detections.len() == 0
            &&& res->Ok_0@.batch_id.len() == 36
            &&& res->Ok_0@.batch_id[14] == '4'
            &&& res->Ok_0@.batch_id[19] == '8' || res->Ok_0@.batch_id[19] == '9'
                || res->Ok_0@.batch_id[19] == 'a' || res->Ok_0@.batch_id[19] == 'b'
            &&& forall|i: int|
                0 <= i < 36 ==> if i == 8 || i == 13 || i == 18 || i == 23 {
                    #[trigger] res->Ok_0@.batch_id[i] == '-'
                } else {
                    ('0' <= res->Ok_0@.batch_id[i] && res->Ok_0@.batch_id[i] <= '9') || ('a'
                        <= res->Ok_0@.batch_id[i] && res->Ok_0@.batch_id[i] <= 'f')
                }
        },
        key is Failed ==> res->Err_0 is Runtime && res->Err_0->Runtime_0@
            == "engine.local_key_id(): "@ + key->Failed_0@,
        key is Mistyped ==> res->Err_0 is Raised && res->Err_0->Raised_0 == key->Mistyped_0,
{
}

/// A trace keeps its identifier and its severity on its way through a batch: what
/// the host gets of it names the trace that was opened, under the identifier that
/// the event was assembled under.
pub proof fn law_summary_names_the_opened_trace(
    inputs: DetectionInputs,
    canonical: Result<Vec<u8>, String>,
    prepared: PreparedTrace,
    first: EngineAnswer<Vec<u8>>,
    half: HalfSignedTrace,
    second: EngineAnswer<Vec<u8>>,
    signed: SignedTrace,
    assembly: Result<String, String>,
    assembled: AssembledTrace,
    writing: Result<String, String>,
    written: WrittenTrace,
    putting: Result<(), String>,
    summary: PerTraceSummary,
)
    requires
        call_ensures(batch::trace_prepared, (inputs, canonical), Ok(prepared)),
        call_ensures(batch::trace_signed, (prepared, first), Ok(half)),
        call_ensures(batch::trace_pqc_signed, (half, second), Ok(signed)),
        call_ensures(batch::trace_assembled, (signed, assembly), Ok(assembled)),
        call_ensures(batch::trace_written, (assembled, writing), Ok(written)),
        call_ensures(batch::trace_put, (written, putting), Ok(summary)),
    ensures
        canonical is Ok,
        prepared.canonical_bytes == canonical->Ok_0,
        first is Given,
        half.ed25519_sig == first->Given_0,
        half.bound_msg@ == canonical->Ok_0@ + first->Given_0@,
        second is Given,
        signed.inputs == inputs,
        signed.ed25519_sig == first->Given_0,
        signed.ml_dsa_65_sig == second->Given_0,
        assembly is Ok,
        writing is Ok,
        written.event_json == writing->Ok_0,
        written.detection_id == assembly->Ok_0,
        putting is Ok,
        summary.detection_id == assembly->Ok_0,
        summary.trace_id == inputs.trace_id,
        inputs.severity is Info ==> summary.severity@ == "info"@,
        inputs.severity is Warning ==> summary.severity@ == "warning"@,
        inputs.severity is Critical ==> summary.severity@ == "critical"@,
{
}

/// What the scrubber is asked is what the host gave: the document that the text
/// says, at the level that was named. A text that is no JSON is refused first, and
/// then a level that there is not.
pub proof fn law_scrub_request_is_the_hosts(
    trace_json: &str,
    level: &str,
    res: Result<ScrubRequest, HostError>,
)
    requires
        call_ensures(scrub::scrub_trace, (trace_json, level), res),
    ensures
        ({
            let read = codec::parsed_json(trace_json@);
            let known = level@ == "generic"@ || level@ == "detailed"@ || level@ == "full_traces"@;
            &&& res is Ok <==> read is Ok && known
            &&& res is Ok ==> read == Ok::<JsonView, Seq<char>>(res->Ok_0.value@)
            &&& res is Ok && res->Ok_0.level is Generic ==> level@ == "generic"@
            &&& res is Ok && res->Ok_0.level is Detailed ==> level@ == "detailed"@
            &&& res is Ok && res->Ok_0.level is FullTraces ==> level@ == "full_traces"@
            &&& read is Err ==> res->Err_0 is Value && res->Err_0->Value_0@
                == "invalid trace JSON: "@ + read->Err_0
            &&& read is Ok && !known ==> res->Err_0 is Value && res->Err_0->Value_0@
                == "invalid trace_level "@ + text::debug_text(level@)
                + "; expected one of: generic, detailed, full_traces"@
        }),
{
    if codec::parsed_json(trace_json@) is Ok {
        match res {
            Ok(request) => {
                law_level_is_its_name(level@, Ok(request.level));
            },
            Err(error) => {
                law_level_is_its_name(level@, Err(error));
            },
        }
    }
}

/// What the scrubber answers for one trace reaches the host as it is: its own
/// document written out, and its own reason where it failed.
pub proof fn law_scrub_answer_is_the_scrubbers(
    answer: Result<ScrubbedTrace, String>,
    level: &str,
    res: Result<HostDict, HostError>,
)
    requires
        call_ensures(scrub::scrub_trace_answered, (answer, level), res),
    ensures
        res is Ok <==> answer is Ok && codec::rendered_json(answer->Ok_0.value@) is Ok,
        res is Ok ==> {
            let entries = res->Ok_0@;
            &&& entries.len() == 3
            &&& entries.contains(
                ("trace"@, HostView::Text(codec::rendered_json(answer->Ok_0.value@)->Ok_0)),
            )
            &&& entries.contains(("level"@, HostView::Text(level@)))
            &&& entries.contains(("stats"@, HostView::Dict(scrub::stats_view(answer->Ok_0.stats))))
        },
        answer is Err ==> res->Err_0 is Runtime && res->Err_0->Runtime_0@ == "scrub failed: "@
            + answer->Err_0@,
{
    if answer is Ok {
        law_scrubbed_trace_reaches_the_host(
            answer->Ok_0.value@,
            answer->Ok_0.stats,
            level@,
            res,
        );
    }
}

/// A batch is asked for trace by trace, in order and all at the one level that was
/// named; it is refused where one of its traces is no JSON or there is no such
/// level.
pub proof fn law_scrub_batch_request_is_the_hosts(
    traces: &Vec<String>,
    level: &str,
    res: Result<ScrubBatchRequest, HostError>,
)
    requires
        call_ensures(scrub::scrub_traces_batch, (traces, level), res),
    ensures
        res is Ok <==> (level@ == "generic"@ || level@ == "detailed"@ || level@ == "full_traces"@)
            && (forall|i: int|
            0 <= i < traces@.len() ==> codec::parsed_json((#[trigger] traces@[i])@) is Ok),
        res is Ok ==> {
            let request = res->Ok_0;
            &&& request.values@.len() == traces@.len()
            &&& forall|i: int|
                0 <= i < traces@.len() ==> codec::parsed_json((#[trigger] traces@[i])@) == Ok::<
                    JsonView,
                    Seq<char>,
                >(request.values@[i]@)
            &&& request.level is Generic ==> level@ == "generic"@
            &&& request.level is Detailed ==> level@ == "detailed"@
            &&& request.level is FullTraces ==> level@ == "full_traces"@
        },
        res is Err ==> res->Err_0 is Value,
{
    law_batch_is_read_trace_by_trace(traces@, traces@.len() as int);
    if scrub::read_before(traces@, traces@.len() as int) {
        match res {
            Ok(request) => {
                law_level_is_its_name(level@, Ok(request.level));
            },
            Err(error) => {
                law_level_is_its_name(level@, Err(error));
            },
        }
    } else {
        let index = choose|index: int| #[trigger] scrub::first_bad(traces@, index, res->Err_0);
        law_first_bad_trace_is_named(traces@, index, res->Err_0);
    }
}

/// What the host gets of a batch is one entry for each trace, in order: each says
/// the level that was asked for and holds its own trace, written out.
pub proof fn law_scrub_batch_answer_is_the_scrubbers(
    answer: Result<Vec<ScrubbedTrace>, String>,
    level: &str,
    res: Result<Vec<HostDict>, HostError>,
)
    requires
        call_ensures(scrub::scrub_traces_batch_answered, (answer, level), res),
    ensures
        answer is Err ==> res is Err && res->Err_0 is Runtime && res->Err_0->Runtime_0@
            == "batch scrub failed: "@ + answer->Err_0@,
        answer is Ok ==> (res is Ok <==> (forall|i: int|
            0 <= i < answer->Ok_0@.len() ==> codec::rendered_json(
                (#[trigger] answer->Ok_0@[i]).value@,
            ) is Ok)),
        res is Ok ==> answer is Ok && res->Ok_0@.len() == answer->Ok_0@.len(),
        res is Ok ==> forall|i: int|
            0 <= i < answer->Ok_0@.len() ==> {
                let entries = (#[trigger] res->Ok_0@[i])@;
                &&& entries.len() == 3
                &&& entries.contains(("level"@, HostView::Text(level@)))
                &&& entries.contains(
                    (
                        "trace"@,
                        HostView::Text(codec::rendered_json(answer->Ok_0@[i].value@)->Ok_0),
                    ),
                )
                &&& entries.contains(
                    ("stats"@, HostView::Dict(scrub::stats_view(answer->Ok_0@[i].stats))),
                )
            },
{
    if answer is Ok {
        let batch = answer->Ok_0@;
        law_batch_is_written_trace_by_trace(batch, batch.len() as int);
        if scrub::written_before(batch, batch.len() as int) {
            assert forall|i: int| 0 <= i < batch.len() implies ({
                let entries = (#[trigger] res->Ok_0@[i])@;
                &&& entries.len() == 3
                &&& entries.contains(("level"@, HostView::Text(level@)))
                &&& entries.contains(
                    ("trace"@, HostView::Text(codec::rendered_json(batch[i].value@)->Ok_0)),
                )
                &&& entries.contains(
                    ("stats"@, HostView::Dict(scrub::stats_view(batch[i].stats))),
                )
            }) by {
                assert(batch[i] == answer->Ok_0@[i]);
                law_scrubbed_trace_reaches_the_host(
                    batch[i].value@,
                    batch[i].stats,
                    level@,
                    Ok(res->Ok_0@[i]),
                );
            }
        }
    }
}

/// A component becomes an event exactly where its fields can be read and its
/// payload too; without a payload the event has an empty object.
pub proof fn law_component_becomes_its_event<D: Fn() -> Result<String, HostError>>(
    component: &Vec<(String, FieldValue)>,
    dumps: D,
    res: Result<InboundEvent, HostError>,
)
    requires
        call_ensures(event::dict_to_inbound_event::<D>, (component, dumps), res),
    ensures
        res is Ok ==> event::first_field_error(component@) is None && event::event_of(
            component@,
            res->Ok_0.data@,
            res->Ok_0,
        ),
        event::first_field_error(component@) is Some ==> res is Err && res->Err_0 is Value
            && res->Err_0->Value_0@ == event::first_field_error(component@)->Some_0,
        event::first_field_error(component@) is None && (event::lookup(component@, "data"@) is None
            || event::lookup(component@, "data"@)->Some_0 is Nothing) ==> res is Ok
            && res->Ok_0.data@ == JsonView::Object(Map::<Seq<char>, JsonView>::empty()),
        event::first_field_error(component@) is None && event::lookup(component@, "data"@) is Some
            && !(event::lookup(component@, "data"@)->Some_0 is Nothing) ==> exists|
            written: Result<String, HostError>,
        |
            #[trigger] call_ensures(dumps, (), written) && (match written {
                Err(error) => res is Err && res->Err_0 == error,
                Ok(written) => match codec::parsed_json(written@) {
                    Ok(data) => res is Ok && res->Ok_0.data@ == data,
                    Err(cause) => res is Err && res->Err_0 is Value && res->Err_0->Value_0@
                        == "component field \"data\" is not JSON-serializable: "@ + cause,
                },
            }),
{
    law_payload_is_under_data(component@);
    if event::first_field_error(component@) is None && event::has_data(component@) {
        let written = choose|written: Result<String, HostError>| #[trigger]
            call_ensures(dumps, (), written) && event::data_answer(component@, written, res);
        law_payload_is_what_was_written(component@, written, res);
    }
}

/// A client is planned exactly where there is such a level and its profile can be
/// read, and then with what the host said.
pub proof fn law_client_is_planned_as_said<D: Fn() -> Result<String, HostError>>(
    arguments: ClientArguments,
    has_profile: bool,
    dumps: D,
    res: Result<ClientPlan, HostError>,
)
    requires
        call_ensures(client::plan_client::<D>, (arguments, has_profile, dumps), res),
    ensures
        ({
            let level = arguments.trace_level@;
            let known = level == "generic"@ || level == "detailed"@ || level == "full_traces"@;
            &&& !known ==> res is Err && res->Err_0 is Value && res->Err_0->Value_0@
                == "invalid trace_level "@ + text::debug_text(level)
                + "; expected one of: generic, detailed, full_traces"@
            &&& known && !has_profile ==> res is Ok && res->Ok_0.deployment_profile is None
                && client::planned(arguments, None, res->Ok_0)
            &&& known && has_profile ==> exists|written: Result<String, HostError>| #[trigger]
                call_ensures(dumps, (), written) && (match written {
                    Err(error) => res is Err && res->Err_0 == error,
                    Ok(written) => match codec::parsed_json(written@) {
                        Ok(profile) => res is Ok && client::planned(
                            arguments,
                            Some(profile),
                            res->Ok_0,
                        ),
                        Err(cause) => res is Err && res->Err_0 is Value && res->Err_0->Value_0@
                            == "deployment_profile: failed to parse as JSON: "@ + cause,
                    },
                })
        }),
{
    lemma_levels(arguments.trace_level@);
    if scrub::is_level(arguments.trace_level@) && has_profile {
        let written = choose|written: Result<String, HostError>| #[trigger]
            call_ensures(dumps, (), written) && client::profile_answer(arguments, written, res);
        assert(call_ensures(dumps, (), written));
    }
}

proof fn lemma_levels(level: Seq<char>)
    ensures
        scrub::is_level(level) <==> (level == "generic"@ || level == "detailed"@ || level
            == "full_traces"@),
{
    assert(egress::level_text(TraceLevel::Generic) == "generic"@);
    assert(egress::level_text(TraceLevel::Detailed) == "detailed"@);
    assert(egress::level_text(TraceLevel::FullTraces) == "full_traces"@);
}

/// A trace that an event ended goes through a host's engine as it is: it is signed
/// under the name of the engine's key with the engine's own signature, keeps its
/// provenance, and the host gets its identifier with the engine's counts.
pub proof fn law_trace_goes_through_a_hosts_engine<
    C: Fn(&CompleteTrace) -> Result<Vec<u8>, String>,
>(
    sealed: CompleteTrace,
    provenance: BatchProvenance,
    canonical_bytes_for: C,
    to_key: PendingKey,
    key: EngineAnswer<String>,
    to_sign: PendingSeal,
    signature: EngineAnswer<Vec<u8>>,
    to_batch: SealedTrace,
    batch: Result<Vec<u8>, String>,
    to_persist: PendingBatch,
    counts: EngineAnswer<EngineSummary>,
    res: HostDict,
)
    requires
        call_ensures(
            client::capture_event::<C>,
            (PrepareOutcome::ReadyToSeal { trace: sealed, provenance }, canonical_bytes_for),
            Ok(CohabitationStep::NameKey(to_key)),
        ),
        call_ensures(client::event_keyed, (to_key, key), Ok(to_sign)),
        call_ensures(client::event_signed, (to_sign, signature), Ok(to_batch)),
        call_ensures(client::event_batched, (to_batch, batch), Ok(to_persist)),
        call_ensures(client::event_persisted, (to_persist.trace_id, counts), Ok(res)),
    ensures
        call_ensures(canonical_bytes_for, (&sealed,), Ok(to_sign.canonical)),
        to_sign.trace == sealed,
        to_sign.provenance == provenance,
        key is Given,
        to_sign.key_id == key->Given_0,
        signature is Given,
        signature->Given_0@.len() == 64,
        to_batch.provenance == provenance,
        to_batch.trace@.signature == Some(base64url::base64url(signature->Given_0@)),
        to_batch.trace@.signature_key_id == Some(key->Given_0@),
        to_batch.trace@.components == sealed@.components,
        to_batch.trace@.trace_id == sealed@.trace_id,
        to_batch.trace@.thought_id == sealed@.thought_id,
        to_batch.trace@.task_id == sealed@.task_id,
        to_batch.trace@.agent_id_hash == sealed@.agent_id_hash,
        to_batch.trace@.started_at == sealed@.started_at,
        to_batch.trace@.completed_at == sealed@.completed_at,
        to_batch.trace@.trace_level == sealed@.trace_level,
        to_batch.trace@.trace_schema_version == sealed@.trace_schema_version,
        to_batch.trace@.deployment_profile == sealed@.deployment_profile,
        batch is Ok,
        to_persist.batch == batch->Ok_0,
        to_persist.trace_id@ == sealed.trace_id@,
        counts is Given,
        counts->Given_0.trace_events_inserted is Given,
        counts->Given_0.signatures_verified is Given,
        res@.len() == 4,
        res@.contains(("outcome"@, HostView::Text("sealed_and_persisted"@))),
        res@.contains(("trace_id"@, HostView::Text(sealed.trace_id@))),
        res@.contains(
            (
                "trace_events_inserted"@,
                HostView::Count(counts->Given_0.trace_events_inserted->Given_0 as nat),
            ),
        ),
        res@.contains(
            (
                "signatures_verified"@,
                HostView::Count(counts->Given_0.signatures_verified->Given_0 as nat),
            ),
        ),
{
    let summary = SealSummary {
        trace_events_inserted: counts->Given_0.trace_events_inserted->Given_0,
        signatures_verified: counts->Given_0.signatures_verified->Given_0,
    };
    assert(to_batch.trace@.trace_id == to_batch.trace.trace_id@);
    law_outcome_entries(to_persist.trace_id, to_persist.trace_id, to_persist.trace_id, summary);
}

/// An event that ended no trace reaches the host as what became of it, on either
/// engine.
pub proof fn law_other_events_reach_the_host<C: Fn(&CompleteTrace) -> Result<Vec<u8>, String>>(
    prepared: PrepareOutcome,
    outcome: CaptureEventOutcome,
    canonical_bytes_for: C,
    res: Result<CohabitationStep, HostError>,
)
    requires
        call_ensures(client::capture_event::<C>, (prepared, canonical_bytes_for), res),
        match prepared {
            PrepareOutcome::Opened => outcome is Opened,
            PrepareOutcome::Appended => outcome is Appended,
            PrepareOutcome::Rejected { raw } => outcome == (CaptureEventOutcome::Rejected { raw }),
            PrepareOutcome::ConsentBlocked { reason } => outcome == (
            CaptureEventOutcome::ConsentBlocked { reason }),
            PrepareOutcome::ReadyToSeal { .. } => false,
        },
    ensures
        res is Ok,
        res->Ok_0 is Finished,
        res->Ok_0->Finished_0@ == client::outcome_entries(outcome),
{
}

/// On the process's own engine the host gets the outcome, or all that is said of
/// the failure.
pub proof fn law_own_engine_answers_the_host(
    answer: Result<CaptureEventOutcome, ClientError>,
    res: Result<HostDict, HostError>,
)
    requires
        call_ensures(client::sovereign_captured, (answer,), res),
    ensures
        res is Ok <==> answer is Ok,
        res is Ok ==> res->Ok_0@ == client::outcome_entries(answer->Ok_0),
        res is Err ==> res->Err_0 is Runtime && res->Err_0->Runtime_0@ == "capture_event: "@
            + capture::client::client_error_text(answer->Err_0),
{
}

/// A step that fails on a host's engine names the step and its cause: no trace
/// goes on without its canonical bytes, its key's name, a whole signature or its
/// batch.
pub proof fn law_failed_steps_are_named(
    to_key: PendingKey,
    key: EngineAnswer<String>,
    keyed: Result<PendingSeal, HostError>,
    to_sign: PendingSeal,
    signature: EngineAnswer<Vec<u8>>,
    signed: Result<SealedTrace, HostError>,
    to_batch: SealedTrace,
    batch: Result<Vec<u8>, String>,
    batched: Result<PendingBatch, HostError>,
    trace_id: String,
    counts: EngineAnswer<EngineSummary>,
    persisted: Result<HostDict, HostError>,
)
    requires
        call_ensures(client::event_keyed, (to_key, key), keyed),
        call_ensures(client::event_signed, (to_sign, signature), signed),
        call_ensures(client::event_batched, (to_batch, batch), batched),
        call_ensures(client::event_persisted, (trace_id, counts), persisted),
    ensures
        keyed is Ok <==> key is Given,
        key is Failed ==> keyed->Err_0 is Runtime && keyed->Err_0->Runtime_0@
            == "engine.local_key_id(): "@ + key->Failed_0@,
        key is Mistyped ==> keyed->Err_0 == HostError::Raised(key->Mistyped_0),
        signed is Ok <==> signature is Given && signature->Given_0@.len() == 64,
        signature is Failed ==> signed->Err_0 is Runtime && signed->Err_0->Runtime_0@
            == "engine.local_sign: "@ + signature->Failed_0@,
        signature is Mistyped ==> signed->Err_0 == HostError::Raised(signature->Mistyped_0),
        signature is Given && signature->Given_0@.len() != 64 ==> signed->Err_0 is Runtime
            && signed->Err_0->Runtime_0@ == "engine.local_sign returned "@ + text::decimal_text(
            signature->Given_0@.len(),
        ) + " bytes, expected 64"@,
        batched is Ok <==> batch is Ok,
        batch is Err ==> batched->Err_0 is Runtime && batched->Err_0->Runtime_0@
            == "build_batch_bytes: "@ + batch->Err_0@,
        counts is Failed ==> persisted is Err && persisted->Err_0 is Runtime
            && persisted->Err_0->Runtime_0@ == "engine.receive_and_persist: "@ + counts->Failed_0@,
        counts is Mistyped ==> persisted == Err::<HostDict, HostError>(
            HostError::Raised(counts->Mistyped_0),
        ),
        persisted is Ok <==> counts is Given && counts->Given_0.trace_events_inserted is Given
            && counts->Given_0.signatures_verified is Given,
{
}

/// A step that fails for a trace of a batch names the step and its cause, and
/// nothing of the trace goes on.
pub proof fn law_failed_traces_are_named(
    inputs: DetectionInputs,
    canonical: Result<Vec<u8>, String>,
    prepared: Result<PreparedTrace, HostError>,
    to_sign: PreparedTrace,
    first: EngineAnswer<Vec<u8>>,
    half: Result<HalfSignedTrace, HostError>,
    half_signed: HalfSignedTrace,
    second: EngineAnswer<Vec<u8>>,
    signed: Result<SignedTrace, HostError>,
)
    requires
        call_ensures(batch::trace_prepared, (inputs, canonical), prepared),
        call_ensures(batch::trace_signed, (to_sign, first), half),
        call_ensures(batch::trace_pqc_signed, (half_signed, second), signed),
    ensures
        prepared is Ok <==> canonical is Ok,
        canonical is Err ==> prepared->Err_0 is Runtime && prepared->Err_0->Runtime_0@
            == "prepare: "@ + canonical->Err_0@,
        half is Ok <==> first is Given,
        first is Failed ==> half->Err_0 is Runtime && half->Err_0->Runtime_0@
            == "engine.local_sign: "@ + first->Failed_0@,
        first is Mistyped ==> half->Err_0 == HostError::Raised(first->Mistyped_0),
        signed is Ok <==> second is Given,
        second is Failed ==> signed->Err_0 is Runtime && signed->Err_0->Runtime_0@
            == "engine.local_pqc_sign: "@ + second->Failed_0@,
        second is Mistyped ==> signed->Err_0 == HostError::Raised(second->Mistyped_0),
{
}

/// A step after the signatures that fails for a trace of a batch names the step
/// and its cause.
pub proof fn law_unfinished_traces_are_named(
    signed: SignedTrace,
    assembly: Result<String, String>,
    assembled: Result<AssembledTrace, HostError>,
    to_write: AssembledTrace,
    writing: Result<String, String>,
    written: Result<WrittenTrace, HostError>,
    to_put: WrittenTrace,
    putting: Result<(), String>,
    put: Result<PerTraceSummary, HostError>,
)
    requires
        call_ensures(batch::trace_assembled, (signed, assembly), assembled),
        call_ensures(batch::trace_written, (to_write, writing), written),
        call_ensures(batch::trace_put, (to_put, putting), put),
    ensures
        assembled is Ok <==> assembly is Ok,
        assembly is Err ==> assembled->Err_0 is Runtime && assembled->Err_0->Runtime_0@
            == "assemble: "@ + assembly->Err_0@,
        written is Ok <==> writing is Ok,
        writing is Err ==> written->Err_0 is Runtime && written->Err_0->Runtime_0@
            == "serialize event: "@ + writing->Err_0@,
        put is Ok <==> putting is Ok,
        putting is Err ==> put->Err_0 is Runtime && put->Err_0->Runtime_0@
            == "engine.put_detection_event: "@ + putting->Err_0@,
{
}

/// The relay is put onto an edge that takes it, and the edge's own reason is said
/// where it does not.
pub proof fn law_edge_answers_for_the_relay(
    answer: Result<(), String>,
    res: Result<(), HostError>,
)
    requires
        call_ensures(relay::relay_attached, (answer,), res),
    ensures
        res is Ok <==> answer is Ok,
        res is Err ==> res->Err_0 is Runtime && res->Err_0->Runtime_0@
            == "attach lens-core relay handler: "@ + answer->Err_0@,
{
}

} // verus!
