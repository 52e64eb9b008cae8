//! Reading a captured event from what the host hands over.
use vstd::prelude::*;

use crate::capture::trace;
use crate::capture::trace::InboundEvent;
use crate::codec;
use crate::ffi::value;
use crate::ffi::value::HostError;
use crate::json;
use crate::json::{Json, JsonObject, JsonView};
use crate::text;

verus! {

broadcast use json::lemma_json_view;

/// A value in the host's component.
#[derive(Debug)]
pub enum FieldValue {
    /// The host's word for nothing.
    Nothing,
    Text(String),
    /// Anything else.
    Other,
}

/// The value under a name, where there is one.
pub open spec fn lookup(component: Seq<(String, FieldValue)>, name: Seq<char>) -> Option<FieldValue>
    decreases component.len(),
{
    if component.len() == 0 {
        None
    } else if component.last().0@ == name {
        Some(component.last().1)
    } else {
        lookup(component.drop_last(), name)
    }
}

/// Finds the value under a name.
fn find<'a>(component: &'a Vec<(String, FieldValue)>, name: &str) -> (res: Option<&'a FieldValue>)
    ensures
        match res {
            Some(found) => lookup(component@, name@) == Some(*found),
            None => lookup(component@, name@) is None,
        },
{
    let mut i: usize = component.len();
    proof {
        assert(component@.take(i as int) =~= component@);
    }
    while i > 0
        invariant
            i <= component@.len(),
            lookup(component@, name@) == lookup(component@.take(i as int), name@),
        decreases i,
    {
        proof {
            assert(component@.take(i as int).drop_last() =~= component@.take(i - 1));
            assert(component@.take(i as int).last() == component@[i - 1]);
        }
        i -= 1;
        if text::same(component[i].0.as_str(), name) {
            return Some(&component[i].1);
        }
    }
    None
}

/// The text under a name that must be there, or what is said where it is not.
pub open spec fn required_text(component: Seq<(String, FieldValue)>, name: Seq<char>) -> Result<
    Seq<char>,
    Seq<char>,
> {
    match lookup(component, name) {
        None => Err("component dict missing required field "@ + text::quoted(name)),
        Some(FieldValue::Text(found)) => Ok(found@),
        Some(_) => Err("component field "@ + text::quoted(name) + " must be a str"@),
    }
}

/// The text under a name that need not be there, or what is said where it is
/// something else.
pub open spec fn optional_text(component: Seq<(String, FieldValue)>, name: Seq<char>) -> Result<
    Option<Seq<char>>,
    Seq<char>,
> {
    match lookup(component, name) {
        None => Ok(None),
        Some(FieldValue::Nothing) => Ok(None),
        Some(FieldValue::Text(found)) => Ok(Some(found@)),
        Some(FieldValue::Other) => Err(
            "component field "@ + text::quoted(name) + " must be a str or None"@,
        ),
    }
}

/// A text between double quotes.
fn quote(name: &str) -> (res: String)
    ensures
        res@ == text::quoted(name@),
{
    let mut res = text::join("\"", name);
    res.append("\"");
    proof {
        reveal_strlit("\"");
        assert("\""@ =~= seq!['"']);
    }
    res
}

fn require_str(component: &Vec<(String, FieldValue)>, name: &str) -> (res: Result<
    String,
    HostError,
>)
    ensures
        match required_text(component@, name@) {
            Ok(found) => res matches Ok(text) && text@ == found,
            Err(message) => res matches Err(error) && value::is_value_error(error, message),
        },
{
    match find(component, name) {
        None => Err(
            HostError::value("component dict missing required field ", quote(name).as_str()),
        ),
        Some(FieldValue::Text(found)) => Ok(found.clone()),
        Some(_) => {
            let mut message = text::join("component field ", quote(name).as_str());
            message.append(" must be a str");
            Err(HostError::Value(message))
        },
    }
}

fn optional_str(component: &Vec<(String, FieldValue)>, name: &str) -> (res: Result<
    Option<String>,
    HostError,
>)
    ensures
        match optional_text(component@, name@) {
            Ok(found) => res matches Ok(text) && trace::opt_text(text) == found,
            Err(message) => res matches Err(error) && value::is_value_error(error, message),
        },
{
    match find(component, name) {
        None => Ok(None),
        Some(FieldValue::Nothing) => Ok(None),
        Some(FieldValue::Text(found)) => Ok(Some(found.clone())),
        Some(FieldValue::Other) => {
            let mut message = text::join("component field ", quote(name).as_str());
            message.append(" must be a str or None");
            Err(HostError::Value(message))
        },
    }
}

/// What is said of the first field, in the order in which they are read, that is
/// not what it should be.
pub open spec fn first_field_error(component: Seq<(String, FieldValue)>) -> Option<Seq<char>> {
    if required_text(component, "event_type"@) is Err {
        Some(required_text(component, "event_type"@)->Err_0)
    } else if required_text(component, "thought_id"@) is Err {
        Some(required_text(component, "thought_id"@)->Err_0)
    } else if required_text(component, "timestamp"@) is Err {
        Some(required_text(component, "timestamp"@)->Err_0)
    } else if required_text(component, "agent_id_hash"@) is Err {
        Some(required_text(component, "agent_id_hash"@)->Err_0)
    } else if optional_text(component, "task_id"@) is Err {
        Some(optional_text(component, "task_id"@)->Err_0)
    } else if optional_text(component, "trace_level"@) is Err {
        Some(optional_text(component, "trace_level"@)->Err_0)
    } else {
        None
    }
}

/// Whether an event is what a component's fields and a payload say.
pub open spec fn event_of(
    component: Seq<(String, FieldValue)>,
    data: JsonView,
    event: InboundEvent,
) -> bool {
    &&& required_text(component, "event_type"@) == Ok::<Seq<char>, Seq<char>>(event.event_type@)
    &&& required_text(component, "thought_id"@) == Ok::<Seq<char>, Seq<char>>(event.thought_id@)
    &&& required_text(component, "timestamp"@) == Ok::<Seq<char>, Seq<char>>(event.timestamp@)
    &&& required_text(component, "agent_id_hash"@) == Ok::<Seq<char>, Seq<char>>(
        event.agent_id_hash@,
    )
    &&& optional_text(component, "task_id"@) == Ok::<Option<Seq<char>>, Seq<char>>(
        trace::opt_text(event.task_id),
    )
    &&& optional_text(component, "trace_level"@) == Ok::<Option<Seq<char>>, Seq<char>>(
        trace::opt_text(event.trace_level),
    )
    &&& event.data@ == data
}

/// Whether a component has a payload of its own.
pub open spec fn has_data(component: Seq<(String, FieldValue)>) -> bool {
    lookup(component, "data"@) matches Some(found) && !(found is Nothing)
}

/// Whether the answer for a payload that the host wrote out as a text is the
/// right one.
pub open spec fn data_answer(
    component: Seq<(String, FieldValue)>,
    written: Result<String, HostError>,
    res: Result<InboundEvent, HostError>,
) -> bool {
    match written {
        Err(error) => res == Err::<InboundEvent, HostError>(error),
        Ok(written) => match codec::parsed_json(written@) {
            Ok(data) => res matches Ok(event) && event_of(component, data, event),
            Err(cause) => res matches Err(error) && value::is_value_error(
                error,
                "component field \"data\" is not JSON-serializable: "@ + cause,
            ),
        },
    }
}

/// Reads an event from the host's component. The four required fields are read
/// first, then the two that may be missing, then the payload, which the host
/// writes out as a JSON text; without one it is an empty object. The first field
/// that is not what it should be ends it.
pub fn dict_to_inbound_event<D: Fn() -> Result<String, HostError>>(
    component: &Vec<(String, FieldValue)>,
    dumps: D,
) -> (res: Result<InboundEvent, HostError>)
    requires
        call_requires(dumps, ()),
    ensures
        match first_field_error(component@) {
            Some(message) => res matches Err(error) && value::is_value_error(error, message),
            None => if has_data(component@) {
                exists|written: Result<String, HostError>| #[trigger]
                    call_ensures(dumps, (), written) && data_answer(component@, written, res)
            } else {
                res matches Ok(event) && event_of(
                    component@,
                    JsonView::Object(Map::<Seq<char>, JsonView>::empty()),
                    event,
                )
            },
        },
{
    let event_type = match require_str(component, "event_type") {
        Ok(found) => found,
        Err(error) => {
            return Err(error);
        },
    };
    let thought_id = match require_str(component, "thought_id") {
        Ok(found) => found,
        Err(error) => {
            return Err(error);
        },
    };
    let timestamp = match require_str(component, "timestamp") {
        Ok(found) => found,
        Err(error) => {
            return Err(error);
        },
    };
    let agent_id_hash = match require_str(component, "agent_id_hash") {
        Ok(found) => found,
        Err(error) => {
            return Err(error);
        },
    };
    let task_id = match optional_str(component, "task_id") {
        Ok(found) => found,
        Err(error) => {
            return Err(error);
        },
    };
    let trace_level = match optional_str(component, "trace_level") {
        Ok(found) => found,
        Err(error) => {
            return Err(error);
        },
    };
    let data = match find(component, "data") {
        None => Json::Object(JsonObject::new()),
        Some(FieldValue::Nothing) => Json::Object(JsonObject::new()),
        Some(_) => {
            let written = dumps();
            match written {
                Err(error) => {
                    return Err(error);
                },
                Ok(written) => match codec::parse(written.as_str()) {
                    Ok(data) => data,
                    Err(cause) => {
                        return Err(
                            HostError::value(
                                "component field \"data\" is not JSON-serializable: ",
                                cause.as_str(),
                            ),
                        );
                    },
                },
            }
        },
    };
    Ok(
        InboundEvent {
            event_type,
            thought_id,
            task_id,
            agent_id_hash,
            timestamp,
            trace_level,
            data,
        },
    )
}

/// A missing field is never silent: a component without a text under one of the
/// four required names is refused, and so is one whose task or level is there
/// and neither a text nor nothing.
pub proof fn law_bad_field_is_refused(component: Seq<(String, FieldValue)>)
    ensures
        first_field_error(component) is None <==> {
            &&& lookup(component, "event_type"@) matches Some(FieldValue::Text(_))
            &&& lookup(component, "thought_id"@) matches Some(FieldValue::Text(_))
            &&& lookup(component, "timestamp"@) matches Some(FieldValue::Text(_))
            &&& lookup(component, "agent_id_hash"@) matches Some(FieldValue::Text(_))
            &&& !(lookup(component, "task_id"@) matches Some(FieldValue::Other))
            &&& !(lookup(component, "trace_level"@) matches Some(FieldValue::Other))
        },
{
}

} // verus!
