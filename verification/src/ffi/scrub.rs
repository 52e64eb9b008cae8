//! Scrubbing for the host. The scrubber is the substrate's: these are the
//! requests that it gets, and what the host gets of its answers.
use vstd::prelude::*;

use crate::codec;
use crate::config::egress;
use crate::config::egress::TraceLevel;
use crate::ffi::value;
use crate::ffi::value::{HostDict, HostError, HostValue, HostView};
use crate::json::{Json, JsonView};
use crate::text;

verus! {

/// What is said of a level that there is not.
pub open spec fn level_error_text(level: Seq<char>) -> Seq<char> {
    "invalid trace_level "@ + text::debug_text(level)
        + "; expected one of: generic, detailed, full_traces"@
}

/// Whether a text is the name of a level.
pub open spec fn is_level(level: Seq<char>) -> bool {
    exists|known: TraceLevel| #[trigger] egress::level_text(known) == level
}

/// Whether the answer for a level's name is the right one.
pub open spec fn level_answer(level: Seq<char>, res: Result<TraceLevel, HostError>) -> bool {
    match res {
        Ok(known) => egress::level_text(known) == level,
        Err(error) => !is_level(level) && value::is_value_error(error, level_error_text(level)),
    }
}

/// The level with a name.
pub fn parse_level(level: &str) -> (res: Result<TraceLevel, HostError>)
    ensures
        level_answer(level@, res),
{
    match TraceLevel::from_wire_name(level) {
        Some(known) => Ok(known),
        None => {
            let mut message = text::join("invalid trace_level ", text::debug(level).as_str());
            message.append("; expected one of: generic, detailed, full_traces");
            Err(HostError::Value(message))
        },
    }
}

/// Naming a level and reading the name gives the level back, and every name
/// that is read is a level's own.
pub proof fn law_level_reads_back(level: TraceLevel, res: Result<TraceLevel, HostError>)
    requires
        level_answer(egress::level_text(level), res),
    ensures
        res == Ok::<TraceLevel, HostError>(level),
{
    match res {
        Ok(known) => {
            egress::law_level_names_differ(known, level);
        },
        Err(_) => {
            assert(is_level(egress::level_text(level)));
        },
    }
}

/// What the scrubber counted.
#[derive(Debug, Clone, Copy)]
pub struct ScrubStats {
    pub entities_redacted: usize,
    pub regex_redactions: usize,
    pub fields_modified: usize,
    pub walker_max_depth: usize,
    pub ner_ran: bool,
    pub ner_cache_hits: usize,
    pub ner_cache_misses: usize,
}

/// A trace after scrubbing.
#[derive(Debug)]
pub struct ScrubbedTrace {
    pub value: Json,
    pub stats: ScrubStats,
}

/// What the host gets of the counts: seven values.
pub open spec fn stats_view(stats: ScrubStats) -> Seq<(Seq<char>, HostView)> {
    seq![
        ("entities_redacted"@, HostView::Count(stats.entities_redacted as nat)),
        ("regex_redactions"@, HostView::Count(stats.regex_redactions as nat)),
        ("fields_modified"@, HostView::Count(stats.fields_modified as nat)),
        ("walker_max_depth"@, HostView::Count(stats.walker_max_depth as nat)),
        ("ner_ran"@, HostView::Flag(stats.ner_ran)),
        ("ner_cache_hits"@, HostView::Count(stats.ner_cache_hits as nat)),
        ("ner_cache_misses"@, HostView::Count(stats.ner_cache_misses as nat)),
    ]
}

/// The counts for the host.
pub fn stats_to_dict(stats: &ScrubStats) -> (res: HostDict)
    ensures
        res@ == stats_view(*stats),
{
    let mut dict = HostDict::new();
    dict.put_count("entities_redacted", stats.entities_redacted);
    dict.put_count("regex_redactions", stats.regex_redactions);
    dict.put_count("fields_modified", stats.fields_modified);
    dict.put_count("walker_max_depth", stats.walker_max_depth);
    dict.put("ner_ran", HostValue::Flag(stats.ner_ran));
    dict.put_count("ner_cache_hits", stats.ner_cache_hits);
    dict.put_count("ner_cache_misses", stats.ner_cache_misses);
    proof {
        assert(dict@ =~= stats_view(*stats));
    }
    dict
}

/// What the host gets of a scrubbed trace: the trace as a JSON text, the level
/// as it was asked for, and the counts.
pub open spec fn scrubbed_view(trace: Seq<char>, level: Seq<char>, stats: ScrubStats) -> Seq<
    (Seq<char>, HostView),
> {
    seq![
        ("trace"@, HostView::Text(trace)),
        ("level"@, HostView::Text(level)),
        ("stats"@, HostView::Dict(stats_view(stats))),
    ]
}

/// Whether the answer for a scrubbed trace is the right one.
pub open spec fn scrubbed_answer(
    value: JsonView,
    stats: ScrubStats,
    level: Seq<char>,
    res: Result<HostDict, HostError>,
) -> bool {
    match codec::rendered_json(value) {
        Ok(trace) => res matches Ok(dict) && dict@ == scrubbed_view(trace, level, stats),
        Err(cause) => res matches Err(error) && value::is_runtime_error(
            error,
            "serialize scrubbed trace: "@ + cause,
        ),
    }
}

/// A scrubbed trace for the host.
pub fn scrubbed_to_dict(scrubbed: &ScrubbedTrace, level: &str) -> (res: Result<
    HostDict,
    HostError,
>)
    ensures
        scrubbed_answer(scrubbed.value@, scrubbed.stats, level@, res),
{
    let trace = match codec::render(&scrubbed.value) {
        Ok(trace) => trace,
        Err(cause) => {
            return Err(HostError::runtime("serialize scrubbed trace: ", cause.as_str()));
        },
    };
    let mut dict = HostDict::new();
    dict.put("trace", HostValue::Text(trace));
    dict.put_text("level", level);
    dict.put("stats", HostValue::Dict(stats_to_dict(&scrubbed.stats)));
    proof {
        assert(dict@ =~= scrubbed_view(trace@, level@, scrubbed.stats));
    }
    Ok(dict)
}

/// What the scrubber is asked for one trace.
#[derive(Debug)]
pub struct ScrubRequest {
    pub value: Json,
    pub level: TraceLevel,
}

/// What the scrubber is asked for many traces.
#[derive(Debug)]
pub struct ScrubBatchRequest {
    pub values: Vec<Json>,
    pub level: TraceLevel,
}

/// Reads the request to scrub one trace: first the trace, then the level.
pub fn scrub_trace(trace_json: &str, level: &str) -> (res: Result<ScrubRequest, HostError>)
    ensures
        match codec::parsed_json(trace_json@) {
            Err(cause) => res matches Err(error) && value::is_value_error(
                error,
                "invalid trace JSON: "@ + cause,
            ),
            Ok(trace) => match res {
                Ok(request) => request.value@ == trace && level_answer(level@, Ok(request.level)),
                Err(error) => level_answer(level@, Err(error)),
            },
        },
{
    match codec::parse(trace_json) {
        Ok(value) => match parse_level(level) {
            Ok(level) => Ok(ScrubRequest { value, level }),
            Err(error) => Err(error),
        },
        Err(cause) => Err(HostError::value("invalid trace JSON: ", cause.as_str())),
    }
}

/// What the host gets of the scrubber's answer for one trace.
pub fn scrub_trace_answered(answer: Result<ScrubbedTrace, String>, level: &str) -> (res: Result<
    HostDict,
    HostError,
>)
    ensures
        match answer {
            Ok(scrubbed) => scrubbed_answer(scrubbed.value@, scrubbed.stats, level@, res),
            Err(cause) => res matches Err(error) && value::is_runtime_error(
                error,
                "scrub failed: "@ + cause@,
            ),
        },
{
    match answer {
        Ok(scrubbed) => scrubbed_to_dict(&scrubbed, level),
        Err(cause) => Err(HostError::runtime("scrub failed: ", cause.as_str())),
    }
}

/// Whether the traces before an index are JSON.
pub open spec fn read_before(traces: Seq<String>, end: int) -> bool {
    forall|i: int| 0 <= i < end ==> codec::parsed_json((#[trigger] traces[i])@) is Ok
}

/// What is said of a trace in a batch that is not JSON.
pub open spec fn index_error_text(index: nat, cause: Seq<char>) -> Seq<char> {
    "invalid trace JSON at index "@ + text::decimal_text(index) + ": "@ + cause
}

/// Whether the first trace that is not JSON is at an index, and an error says
/// so.
pub open spec fn first_bad(traces: Seq<String>, index: int, error: HostError) -> bool {
    &&& 0 <= index < traces.len()
    &&& read_before(traces, index)
    &&& codec::parsed_json(traces[index]@) matches Err(cause) && value::is_value_error(
        error,
        index_error_text(index as nat, cause),
    )
}

/// Reads the request to scrub many traces: first every trace, then the level.
/// The first trace that is not JSON ends it.
pub fn scrub_traces_batch(traces_json: &Vec<String>, level: &str) -> (res: Result<
    ScrubBatchRequest,
    HostError,
>)
    ensures
        read_before(traces_json@, traces_json@.len() as int) ==> match res {
            Ok(request) => {
                &&& request.values@.len() == traces_json@.len()
                &&& forall|i: int|
                    0 <= i < traces_json@.len() ==> codec::parsed_json(
                        (#[trigger] traces_json@[i])@,
                    ) == Ok::<JsonView, Seq<char>>(request.values@[i]@)
                &&& level_answer(level@, Ok(request.level))
            },
            Err(error) => level_answer(level@, Err(error)),
        },
        !read_before(traces_json@, traces_json@.len() as int) ==> res is Err && exists|
            index: int,
        |
            #[trigger] first_bad(traces_json@, index, res->Err_0),
{
    let mut values: Vec<Json> = Vec::new();
    let mut i: usize = 0;
    while i < traces_json.len()
        invariant
            i <= traces_json@.len(),
            values@.len() == i,
            forall|k: int|
                0 <= k < i ==> codec::parsed_json((#[trigger] traces_json@[k])@) == Ok::<
                    JsonView,
                    Seq<char>,
                >(values@[k]@),
        decreases traces_json@.len() - i,
    {
        match codec::parse(traces_json[i].as_str()) {
            Ok(value) => {
                values.push(value);
            },
            Err(cause) => {
                let mut message = text::join(
                    "invalid trace JSON at index ",
                    text::decimal(i as u64).as_str(),
                );
                message.append(": ");
                message.append(cause.as_str());
                let error = HostError::Value(message);
                proof {
                    assert(first_bad(traces_json@, i as int, error));
                }
                return Err(error);
            },
        }
        i += 1;
    }
    match parse_level(level) {
        Ok(level) => Ok(ScrubBatchRequest { values, level }),
        Err(error) => Err(error),
    }
}

/// Whether each trace of a batch can be written as a JSON text.
pub open spec fn written_before(batch: Seq<ScrubbedTrace>, end: int) -> bool {
    forall|i: int| 0 <= i < end ==> codec::rendered_json((#[trigger] batch[i]).value@) is Ok
}

/// Whether the first trace that cannot be written is at an index, and an error
/// says so.
pub open spec fn first_unwritten(batch: Seq<ScrubbedTrace>, index: int, error: HostError) -> bool {
    &&& 0 <= index < batch.len()
    &&& written_before(batch, index)
    &&& codec::rendered_json(batch[index].value@) matches Err(cause) && value::is_runtime_error(
        error,
        "serialize scrubbed trace: "@ + cause,
    )
}

/// What the host gets of the scrubber's answer for many traces: one entry for
/// each, in order.
pub fn scrub_traces_batch_answered(
    answer: Result<Vec<ScrubbedTrace>, String>,
    level: &str,
) -> (res: Result<Vec<HostDict>, HostError>)
    ensures
        match answer {
            Err(cause) => res matches Err(error) && value::is_runtime_error(
                error,
                "batch scrub failed: "@ + cause@,
            ),
            Ok(batch) => {
                &&& written_before(batch@, batch@.len() as int) ==> {
                    &&& res is Ok
                    &&& res->Ok_0@.len() == batch@.len()
                    &&& forall|i: int|
                        0 <= i < batch@.len() ==> scrubbed_answer(
                            (#[trigger] batch@[i]).value@,
                            batch@[i].stats,
                            level@,
                            Ok(res->Ok_0@[i]),
                        )
                }
                &&& !written_before(batch@, batch@.len() as int) ==> res is Err && exists|
                    index: int,
                |
                    #[trigger] first_unwritten(batch@, index, res->Err_0)
            },
        },
{
    let batch = match answer {
        Ok(batch) => batch,
        Err(cause) => {
            return Err(HostError::runtime("batch scrub failed: ", cause.as_str()));
        },
    };
    let mut out: Vec<HostDict> = Vec::new();
    let mut i: usize = 0;
    while i < batch.len()
        invariant
            i <= batch@.len(),
            out@.len() == i,
            written_before(batch@, i as int),
            forall|k: int|
                0 <= k < i ==> scrubbed_answer(
                    (#[trigger] batch@[k]).value@,
                    batch@[k].stats,
                    level@,
                    Ok(out@[k]),
                ),
            answer == Ok::<Vec<ScrubbedTrace>, String>(batch),
        decreases batch@.len() - i,
    {
        match scrubbed_to_dict(&batch[i], level) {
            Ok(dict) => {
                out.push(dict);
            },
            Err(error) => {
                proof {
                    assert(first_unwritten(batch@, i as int, error));
                }
                return Err(error);
            },
        }
        i += 1;
    }
    Ok(out)
}

} // verus!
