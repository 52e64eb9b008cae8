//! The way between [`Json`] and `serde_json`.
//!
//! A `serde_json::Value` is opaque here. It is opened and built one level at a
//! time; the recursion over its parts is verified.
use vstd::prelude::*;

use crate::json;
use crate::json::{Json, JsonObject, JsonView};

verus! {

broadcast use json::lemma_json_view;

/// A document of `serde_json`.
#[verifier::external_type_specification]
#[verifier::external_body]
pub struct ExValue(serde_json::Value);

/// What a document of `serde_json` says.
pub uninterp spec fn value_view(value: serde_json::Value) -> JsonView;

/// What `serde_json` reads out of a text: the document, or why there is none.
pub uninterp spec fn parsed_json(text: Seq<char>) -> Result<JsonView, Seq<char>>;

/// What `serde_json` writes for a document: the text, or why there is none.
pub uninterp spec fn rendered_json(value: JsonView) -> Result<Seq<char>, Seq<char>>;

/// What a list of documents of `serde_json` says, in order.
pub open spec fn values_view(values: Seq<serde_json::Value>) -> Seq<JsonView> {
    values.map_values(|value: serde_json::Value| value_view(value))
}

/// What named documents of `serde_json` say, by name.
pub open spec fn named_values_view(fields: Seq<(String, serde_json::Value)>) -> Map<
    Seq<char>,
    JsonView,
>
    decreases fields,
{
    if fields.len() == 0 {
        Map::empty()
    } else {
        named_values_view(fields.drop_last()).insert(
            fields.last().0@,
            value_view(fields.last().1),
        )
    }
}

/// One level of a document of `serde_json`.
enum Node {
    Null,
    Bool(bool),
    Number(serde_json::Number),
    Text(String),
    Array(Vec<serde_json::Value>),
    Object(Vec<(String, serde_json::Value)>),
}

/// What one level, with the documents below it, says.
spec fn node_view(node: Node) -> JsonView {
    match node {
        Node::Null => JsonView::Null,
        Node::Bool(flag) => JsonView::Bool(flag),
        Node::Number(number) => JsonView::Number(number),
        Node::Text(text) => JsonView::Text(text@),
        Node::Array(items) => JsonView::Array(values_view(items@)),
        Node::Object(fields) => JsonView::Object(named_values_view(fields@)),
    }
}

/// Tells the variants of `serde_json::Value` apart. The fields of an object
/// come out of a `serde_json::Map`, which holds each name once.
#[verifier::external_body]
fn open_value(value: serde_json::Value) -> (res: Node)
    ensures
        node_view(res) == value_view(value),
        res matches Node::Object(fields) ==> json::distinct_names(fields@),
{
    match value {
        serde_json::Value::Null => Node::Null,
        serde_json::Value::Bool(flag) => Node::Bool(flag),
        serde_json::Value::Number(number) => Node::Number(number),
        serde_json::Value::String(text) => Node::Text(text),
        serde_json::Value::Array(items) => Node::Array(items),
        serde_json::Value::Object(fields) => Node::Object(fields.into_iter().collect()),
    }
}

/// Builds a `serde_json::Value` out of its variant. An object is collected
/// into a `serde_json::Map`, which keeps every field where the names differ.
#[verifier::external_body]
fn close_value(node: Node) -> (res: serde_json::Value)
    requires
        node matches Node::Object(fields) ==> json::distinct_names(fields@),
    ensures
        value_view(res) == node_view(node),
{
    match node {
        Node::Null => serde_json::Value::Null,
        Node::Bool(flag) => serde_json::Value::Bool(flag),
        Node::Number(number) => serde_json::Value::Number(number),
        Node::Text(text) => serde_json::Value::String(text),
        Node::Array(items) => serde_json::Value::Array(items),
        Node::Object(fields) => serde_json::Value::Object(fields.into_iter().collect()),
    }
}

/// `serde_json::from_str` into a `serde_json::Value`. The outcome depends on
/// the text alone; what is a document and how an error reads is left to
/// `serde_json`.
#[verifier::external_body]
fn parse_value(text: &str) -> (res: Result<serde_json::Value, String>)
    ensures
        parsed_json(text@) == (match res {
            Ok(value) => Ok::<JsonView, Seq<char>>(value_view(value)),
            Err(error) => Err(error@),
        }),
{
    serde_json::from_str::<serde_json::Value>(text).map_err(|error| error.to_string())
}

/// The text of the document in a text, as it stands there, or why there is no
/// document.
pub uninterp spec fn raw_json(text: Seq<char>) -> Result<Seq<char>, Seq<char>>;

/// `serde_json::from_str` into a `serde_json::value::RawValue`, and its text
/// through `RawValue::get`. The outcome depends on the text alone.
#[verifier::external_body]
pub(crate) fn parse_raw(text: &str) -> (res: Result<String, String>)
    ensures
        raw_json(text@) == (match res {
            Ok(raw) => Ok::<Seq<char>, Seq<char>>(raw@),
            Err(error) => Err(error@),
        }),
{
    let raw = serde_json::from_str::<Box<serde_json::value::RawValue>>(text);
    raw.map(|raw| raw.get().to_string()).map_err(|error| error.to_string())
}

/// `serde_json::to_string` of a `serde_json::Value`. The outcome depends on
/// what the document says alone.
#[verifier::external_body]
fn render_value(value: &serde_json::Value) -> (res: Result<String, String>)
    ensures
        rendered_json(value_view(*value)) == (match res {
            Ok(text) => Ok::<Seq<char>, Seq<char>>(text@),
            Err(error) => Err(error@),
        }),
{
    serde_json::to_string(value).map_err(|error| error.to_string())
}

/// Named documents, one by one.
proof fn lemma_named_values_view(fields: Seq<(String, serde_json::Value)>)
    requires
        json::distinct_names(fields),
    ensures
        forall|i: int| #![trigger fields[i]]
            0 <= i < fields.len() ==> named_values_view(fields).contains_key(fields[i].0@)
                && named_values_view(fields)[fields[i].0@] == value_view(fields[i].1),
    decreases fields,
{
    if fields.len() > 0 {
        let rest = fields.drop_last();
        assert(json::distinct_names(rest)) by {
            assert forall|i: int, j: int| #![trigger rest[i], rest[j]]
                0 <= i < j < rest.len() implies rest[i].0@ != rest[j].0@ by {
                assert(rest[i] == fields[i] && rest[j] == fields[j]);
            }
        }
        lemma_named_values_view(rest);
        let last = fields.len() - 1;
        assert forall|i: int| #![trigger fields[i]]
            0 <= i < fields.len() implies named_values_view(fields).contains_key(fields[i].0@)
            && named_values_view(fields)[fields[i].0@] == value_view(fields[i].1) by {
            if i < last {
                assert(rest[i] == fields[i]);
                assert(fields[i].0@ != fields[last].0@);
            }
        }
    }
}

/// A document of `serde_json` as a [`Json`].
pub fn from_value(value: serde_json::Value) -> (res: Json)
    ensures
        res@ == value_view(value),
    decreases value_view(value),
{
    let node = open_value(value);
    match node {
        Node::Null => Json::Null,
        Node::Bool(flag) => Json::Bool(flag),
        Node::Number(number) => Json::Number(number),
        Node::Text(text) => Json::Text(text),
        Node::Array(values) => {
            let ghost all = values@;
            let mut items: Vec<Json> = Vec::new();
            for item in iter: values
                invariant
                    iter.seq() == all,
                    value_view(value) == JsonView::Array(values_view(all)),
                    json::items_view(items@) == values_view(all.take(iter.index() as int)),
            {
                let ghost at = iter.index();
                proof {
                    let below = value_view(value)->Array_0;
                    assert(below[at] == value_view(item));
                    assert(decreases_to!(value_view(value) => below));
                    assert(decreases_to!(below => below[at]));
                }
                let ghost before = items@;
                items.push(from_value(item));
                proof {
                    assert(items@.drop_last() =~= before);
                    assert(values_view(all.take(at + 1)) =~= values_view(all.take(at)).push(
                        value_view(item),
                    ));
                }
            }
            proof {
                assert(all.take(all.len() as int) =~= all);
            }
            Json::Array(items)
        },
        Node::Object(fields) => {
            let ghost all = fields@;
            let mut object = JsonObject::new();
            for field in iter: fields
                invariant
                    iter.seq() == all,
                    json::distinct_names(all),
                    value_view(value) == JsonView::Object(named_values_view(all)),
                    object@ == named_values_view(all.take(iter.index() as int)),
            {
                let ghost at = iter.index();
                let (name, below) = field;
                proof {
                    lemma_named_values_view(all);
                    assert(all[at] == field);
                    let level = value_view(value);
                    assert(level->Object_0[name@] == value_view(below));
                    assert(decreases_to!(level => level->Object_0[name@]));
                }
                object.insert(name, from_value(below));
                proof {
                    assert(all.take(at + 1).drop_last() =~= all.take(at));
                }
            }
            proof {
                assert(all.take(all.len() as int) =~= all);
            }
            Json::Object(object)
        },
    }
}

/// A [`Json`] as a document of `serde_json`.
pub fn to_value(document: Json) -> (res: serde_json::Value)
    ensures
        value_view(res) == document@,
    decreases document@,
{
    let ghost whole = document@;
    match document {
        Json::Null => close_value(Node::Null),
        Json::Bool(flag) => close_value(Node::Bool(flag)),
        Json::Number(number) => close_value(Node::Number(number)),
        Json::Text(text) => close_value(Node::Text(text)),
        Json::Array(items) => {
            let ghost all = items@;
            let mut values: Vec<serde_json::Value> = Vec::new();
            for item in iter: items
                invariant
                    iter.seq() == all,
                    whole == document@,
                    whole == JsonView::Array(json::items_view(all)),
                    values_view(values@) == json::items_view(all.take(iter.index() as int)),
            {
                let ghost at = iter.index();
                proof {
                    json::lemma_items_view(all);
                    let below = whole->Array_0;
                    assert(below[at] == item@);
                    assert(decreases_to!(whole => below));
                    assert(decreases_to!(below => below[at]));
                }
                let ghost before = values@;
                values.push(to_value(item));
                proof {
                    assert(values_view(values@) =~= values_view(before).push(item@));
                    assert(all.take(at + 1).drop_last() =~= all.take(at));
                }
            }
            proof {
                assert(all.take(all.len() as int) =~= all);
            }
            close_value(Node::Array(values))
        },
        Json::Object(object) => {
            let fields = object.into_fields();
            let ghost all = fields@;
            let mut values: Vec<(String, serde_json::Value)> = Vec::new();
            for field in iter: fields
                invariant
                    iter.seq() == all,
                    json::distinct_names(all),
                    whole == document@,
                    whole == JsonView::Object(json::fields_view(all)),
                    values@.len() == iter.index(),
                    forall|k: int|
                        0 <= k < values@.len() ==> (#[trigger] values@[k]).0@ == all[k].0@,
                    named_values_view(values@) == json::fields_view(
                        all.take(iter.index() as int),
                    ),
            {
                let ghost at = iter.index();
                let (name, below) = field;
                proof {
                    json::lemma_fields_view(all);
                    assert(all[at] == field);
                    assert(whole->Object_0[name@] == below@);
                    assert(decreases_to!(whole => whole->Object_0[name@]));
                }
                let ghost before = values@;
                values.push((name, to_value(below)));
                proof {
                    assert(values@.drop_last() =~= before);
                    assert(all.take(at + 1).drop_last() =~= all.take(at));
                }
            }
            proof {
                assert(all.take(all.len() as int) =~= all);
                assert forall|i: int, j: int| #![trigger values@[i], values@[j]]
                    0 <= i < j < values@.len() implies values@[i].0@ != values@[j].0@ by {
                    assert(all[i].0@ != all[j].0@);
                }
            }
            close_value(Node::Object(values))
        },
    }
}

/// Reads a document out of a text.
pub fn parse(text: &str) -> (res: Result<Json, String>)
    ensures
        match res {
            Ok(document) => parsed_json(text@) == Ok::<JsonView, Seq<char>>(document@),
            Err(error) => parsed_json(text@) == Err::<JsonView, Seq<char>>(error@),
        },
{
    match parse_value(text) {
        Ok(value) => Ok(from_value(value)),
        Err(error) => Err(error),
    }
}

/// Writes a document as a text.
pub fn render(document: &Json) -> (res: Result<String, String>)
    ensures
        match res {
            Ok(text) => rendered_json(document@) == Ok::<Seq<char>, Seq<char>>(text@),
            Err(error) => rendered_json(document@) == Err::<Seq<char>, Seq<char>>(error@),
        },
{
    let value = to_value(document.clone());
    render_value(&value)
}

} // verus!
