//! JSON documents: the library's own type, what it stands for, and the way to
//! and from `serde_json`.
use vstd::prelude::*;

verus! {

/// What a JSON document says.
#[verifier::ext_equal]
pub enum JsonView {
    Null,
    Bool(bool),
    Number(serde_json::Number),
    Text(Seq<char>),
    Array(Seq<JsonView>),
    Object(Map<Seq<char>, JsonView>),
}

/// A JSON number of `serde_json`. Numbers are carried, never read.
#[verifier::external_type_specification]
#[verifier::external_body]
pub struct ExNumber(serde_json::Number);

/// A JSON document.
#[derive(Debug)]
pub enum Json {
    Null,
    Bool(bool),
    Number(serde_json::Number),
    Text(String),
    Array(Vec<Json>),
    Object(JsonObject),
}

/// The fields of a JSON object. No name occurs twice.
#[derive(Debug)]
pub struct JsonObject {
    fields: Vec<(String, Json)>,
}

/// What a document says.
pub closed spec fn json_view(json: Json) -> JsonView
    decreases json,
{
    match json {
        Json::Null => JsonView::Null,
        Json::Bool(flag) => JsonView::Bool(flag),
        Json::Number(number) => JsonView::Number(number),
        Json::Text(text) => JsonView::Text(text@),
        Json::Array(items) => JsonView::Array(items_view(items@)),
        Json::Object(object) => JsonView::Object(fields_view(object.fields@)),
    }
}

/// What the items of an array say, in order.
pub open spec fn items_view(items: Seq<Json>) -> Seq<JsonView>
    decreases items,
{
    if items.len() == 0 {
        Seq::empty()
    } else {
        items_view(items.drop_last()).push(json_view(items.last()))
    }
}

/// What the fields of an object say, by name.
pub open spec fn fields_view(fields: Seq<(String, Json)>) -> Map<Seq<char>, JsonView>
    decreases fields,
{
    if fields.len() == 0 {
        Map::empty()
    } else {
        fields_view(fields.drop_last()).insert(fields.last().0@, json_view(fields.last().1))
    }
}

/// Whether no two fields have the same name.
pub open spec fn distinct_names<T>(fields: Seq<(String, T)>) -> bool {
    forall|i: int, j: int| #![trigger fields[i], fields[j]]
        0 <= i < j < fields.len() ==> fields[i].0@ != fields[j].0@
}

impl View for Json {
    type V = JsonView;

    open spec fn view(&self) -> JsonView {
        json_view(*self)
    }
}

impl View for JsonObject {
    type V = Map<Seq<char>, JsonView>;

    closed spec fn view(&self) -> Map<Seq<char>, JsonView> {
        fields_view(self.fields@)
    }
}

/// A document says what its constructor says of its parts.
pub broadcast proof fn lemma_json_view(json: Json)
    ensures
        #[trigger] json_view(json) == (match json {
            Json::Null => JsonView::Null,
            Json::Bool(flag) => JsonView::Bool(flag),
            Json::Number(number) => JsonView::Number(number),
            Json::Text(text) => JsonView::Text(text@),
            Json::Array(items) => JsonView::Array(items_view(items@)),
            Json::Object(object) => JsonView::Object(object@),
        }),
{
}

/// The items of an array, one by one.
pub proof fn lemma_items_view(items: Seq<Json>)
    ensures
        items_view(items).len() == items.len(),
        forall|i: int| 0 <= i < items.len() ==> #[trigger] items_view(items)[i] == json_view(items[i]),
    decreases items,
{
    if items.len() > 0 {
        lemma_items_view(items.drop_last());
    }
}

/// The fields of an object, one by one.
pub proof fn lemma_fields_view(fields: Seq<(String, Json)>)
    requires
        distinct_names(fields),
    ensures
        fields_view(fields).dom().finite(),
        forall|i: int| #![trigger fields[i]]
            0 <= i < fields.len() ==> fields_view(fields).contains_key(fields[i].0@)
                && fields_view(fields)[fields[i].0@] == json_view(fields[i].1),
        forall|name: Seq<char>| #[trigger]
            fields_view(fields).contains_key(name) ==> exists|i: int|
                0 <= i < fields.len() && #[trigger] fields[i].0@ == name,
    decreases fields,
{
    if fields.len() > 0 {
        let rest = fields.drop_last();
        assert(distinct_names(rest)) by {
            assert forall|i: int, j: int| #![trigger rest[i], rest[j]]
                0 <= i < j < rest.len() implies rest[i].0@ != rest[j].0@ by {
                assert(rest[i] == fields[i] && rest[j] == fields[j]);
            }
        }
        lemma_fields_view(rest);
        let last = fields.len() - 1;
        assert forall|i: int| #![trigger fields[i]] 0 <= i < fields.len() implies fields_view(
            fields,
        ).contains_key(fields[i].0@) && fields_view(fields)[fields[i].0@] == json_view(
            fields[i].1,
        ) by {
            if i < last {
                assert(rest[i] == fields[i]);
                assert(fields[i].0@ != fields[last].0@);
            }
        }
        assert forall|name: Seq<char>| #[trigger] fields_view(fields).contains_key(name) implies exists|
            i: int,
        |
            0 <= i < fields.len() && #[trigger] fields[i].0@ == name by {
            if name == fields[last].0@ {
                assert(fields[last].0@ == name);
            } else {
                assert(fields_view(rest).contains_key(name));
                let i = choose|i: int| 0 <= i < rest.len() && #[trigger] rest[i].0@ == name;
                assert(fields[i].0@ == name);
            }
        }
    }
}

/// Replacing one value, or adding a field with a new name, changes the object
/// at that name alone.
proof fn lemma_fields_update(fields: Seq<(String, Json)>, at: int, field: (String, Json))
    requires
        distinct_names(fields),
        0 <= at < fields.len(),
        fields[at].0@ == field.0@,
    ensures
        distinct_names(fields.update(at, field)),
        fields_view(fields.update(at, field)) == fields_view(fields).insert(
            field.0@,
            json_view(field.1),
        ),
{
    let changed = fields.update(at, field);
    assert forall|i: int, j: int| #![trigger changed[i], changed[j]]
        0 <= i < j < changed.len() implies changed[i].0@ != changed[j].0@ by {
        assert(fields[i].0@ != fields[j].0@);
    }
    lemma_fields_view(fields);
    lemma_fields_view(changed);
    let before = fields_view(fields).insert(field.0@, json_view(field.1));
    let after = fields_view(changed);
    assert forall|name: Seq<char>| after.contains_key(name) <==> before.contains_key(name) by {
        if after.contains_key(name) {
            let i = choose|i: int| 0 <= i < changed.len() && #[trigger] changed[i].0@ == name;
            assert(fields[i].0@ == name);
        }
        if before.contains_key(name) && name != field.0@ {
            let i = choose|i: int| 0 <= i < fields.len() && #[trigger] fields[i].0@ == name;
            assert(changed[i].0@ == name);
        }
        if name == field.0@ {
            assert(changed[at].0@ == name);
        }
    }
    assert forall|name: Seq<char>| after.contains_key(name) implies after[name] == before[name] by {
        let i = choose|i: int| 0 <= i < changed.len() && #[trigger] changed[i].0@ == name;
        assert(after[changed[i].0@] == json_view(changed[i].1));
        if i != at {
            assert(fields[i] == changed[i]);
            assert(fields[i].0@ != fields[at].0@);
        }
    }
    assert(after =~= before);
}

impl JsonObject {
    #[verifier::type_invariant]
    spec fn names_are_distinct(self) -> bool {
        distinct_names(self.fields@)
    }

    /// An object without fields.
    pub fn new() -> (res: JsonObject)
        ensures
            res@ == Map::<Seq<char>, JsonView>::empty(),
    {
        JsonObject { fields: Vec::new() }
    }

    /// Whether there is no field.
    pub fn is_empty(&self) -> (res: bool)
        ensures
            res == (self@ == Map::<Seq<char>, JsonView>::empty()),
    {
        proof {
            use_type_invariant(self);
            lemma_fields_view(self.fields@);
            if self.fields@.len() > 0 {
                assert(self@.contains_key(self.fields@[0].0@));
            }
        }
        self.fields.is_empty()
    }

    /// The value under a name.
    pub fn get(&self, name: &str) -> (res: Option<&Json>)
        ensures
            match res {
                Some(value) => self@.contains_key(name@) && self@[name@] == value@,
                None => !self@.contains_key(name@),
            },
    {
        proof {
            use_type_invariant(self);
            lemma_fields_view(self.fields@);
        }
        let mut i: usize = 0;
        while i < self.fields.len()
            invariant
                i <= self.fields@.len(),
                distinct_names(self.fields@),
                forall|k: int| 0 <= k < i ==> (#[trigger] self.fields@[k]).0@ != name@,
            decreases self.fields@.len() - i,
        {
            if crate::text::same(self.fields[i].0.as_str(), name) {
                proof {
                    lemma_fields_view(self.fields@);
                    assert(self.fields@[i as int].0@ == name@);
                }
                return Some(&self.fields[i].1);
            }
            i += 1;
        }
        None
    }

    /// Puts a value under a name, in place of what was there.
    pub fn insert(&mut self, name: String, value: Json)
        ensures
            final(self)@ == old(self)@.insert(name@, value@),
    {
        proof {
            use_type_invariant(&*self);
        }
        let mut fields: Vec<(String, Json)> = Vec::new();
        std::mem::swap(&mut fields, &mut self.fields);
        let ghost before = fields@;
        let mut i: usize = 0;
        while i < fields.len()
            invariant
                i <= fields@.len(),
                fields@ == before,
                distinct_names(before),
                fields_view(before) == old(self)@,
                forall|k: int| 0 <= k < i ==> (#[trigger] before[k]).0@ != name@,
            decreases fields@.len() - i,
        {
            if fields[i].0 == name {
                proof {
                    lemma_fields_update(before, i as int, (name, value));
                }
                fields.set(i, (name, value));
                self.fields = fields;
                return;
            }
            i += 1;
        }
        fields.push((name, value));
        proof {
            assert(fields@.drop_last() =~= before);
            assert(distinct_names(fields@));
        }
        self.fields = fields;
    }

    /// The fields, each name once.
    pub fn into_fields(self) -> (res: Vec<(String, Json)>)
        ensures
            distinct_names(res@),
            fields_view(res@) == self@,
    {
        proof {
            use_type_invariant(&self);
        }
        self.fields
    }
}

/// Copies of the items of an array.
fn clone_items(items: &Vec<Json>) -> (res: Vec<Json>)
    ensures
        items_view(res@) == items_view(items@),
    decreases items,
{
    let mut res: Vec<Json> = Vec::new();
    let mut i: usize = 0;
    while i < items.len()
        invariant
            i <= items@.len(),
            items_view(res@) == items_view(items@.take(i as int)),
        decreases items@.len() - i,
    {
        let item = items[i].clone();
        proof {
            assert(items@.take(i + 1).drop_last() =~= items@.take(i as int));
        }
        let ghost before = res@;
        res.push(item);
        proof {
            assert(res@.drop_last() =~= before);
        }
        i += 1;
    }
    proof {
        assert(items@.take(i as int) =~= items@);
    }
    res
}

/// Copies of the fields of an object.
fn clone_fields(fields: &Vec<(String, Json)>) -> (res: Vec<(String, Json)>)
    ensures
        fields_view(res@) == fields_view(fields@),
        res@.len() == fields@.len(),
        forall|i: int| 0 <= i < res@.len() ==> (#[trigger] res@[i]).0@ == fields@[i].0@,
    decreases fields,
{
    let mut res: Vec<(String, Json)> = Vec::new();
    let mut i: usize = 0;
    while i < fields.len()
        invariant
            i <= fields@.len(),
            res@.len() == i,
            forall|k: int| 0 <= k < i ==> (#[trigger] res@[k]).0@ == fields@[k].0@,
            fields_view(res@) == fields_view(fields@.take(i as int)),
        decreases fields@.len() - i,
    {
        let name = fields[i].0.clone();
        let value = fields[i].1.clone();
        proof {
            assert(fields@.take(i + 1).drop_last() =~= fields@.take(i as int));
        }
        let ghost before = res@;
        res.push((name, value));
        proof {
            assert(res@.drop_last() =~= before);
        }
        i += 1;
    }
    proof {
        assert(fields@.take(i as int) =~= fields@);
    }
    res
}

impl Clone for Json {
    fn clone(&self) -> (res: Json)
        ensures
            res@ == self@,
        decreases self,
    {
        match self {
            Json::Null => Json::Null,
            Json::Bool(flag) => Json::Bool(*flag),
            Json::Number(number) => Json::Number(number.clone()),
            Json::Text(text) => Json::Text(text.clone()),
            Json::Array(items) => Json::Array(clone_items(items)),
            Json::Object(object) => {
                proof {
                    use_type_invariant(object);
                }
                let fields = clone_fields(&object.fields);
                proof {
                    assert forall|i: int, j: int| #![trigger fields@[i], fields@[j]]
                        0 <= i < j < fields@.len() implies fields@[i].0@ != fields@[j].0@ by {
                        assert(object.fields@[i].0@ != object.fields@[j].0@);
                    }
                }
                Json::Object(JsonObject { fields })
            },
        }
    }
}

/// `serde_json::Number` is a plain value: its copy is the same number.
pub assume_specification[ <serde_json::Number as Clone>::clone ](
    number: &serde_json::Number,
) -> (res: serde_json::Number)
    ensures
        res == *number,
;

impl Json {
    /// Whether the document is `null`.
    pub fn is_null(&self) -> (res: bool)
        ensures
            res == (self@ is Null),
    {
        match self {
            Json::Null => true,
            _ => false,
        }
    }

    /// The value under a name, where the document is an object that has it.
    pub fn get(&self, name: &str) -> (res: Option<&Json>)
        ensures
            match res {
                Some(value) => field_of(self@, name@) == Some(value@),
                None => field_of(self@, name@) is None,
            },
    {
        match self {
            Json::Object(object) => object.get(name),
            _ => None,
        }
    }

    /// The text, where the document is one.
    pub fn as_str(&self) -> (res: Option<&str>)
        ensures
            match res {
                Some(text) => self@ == JsonView::Text(text@),
                None => !(self@ is Text),
            },
    {
        match self {
            Json::Text(text) => Some(text.as_str()),
            _ => None,
        }
    }
}

/// The value under a name, where a document is an object that has it.
pub open spec fn field_of(value: JsonView, name: Seq<char>) -> Option<JsonView> {
    match value {
        JsonView::Object(fields) => if fields.contains_key(name) {
            Some(fields[name])
        } else {
            None
        },
        _ => None,
    }
}

/// A document has a value under a name if and only if it is an object that holds
/// it there.
pub proof fn law_field_is_the_objects(document: JsonView, name: Seq<char>, value: JsonView)
    ensures
        field_of(document, name) == Some(value) <==> (document is Object
            && document->Object_0.contains_key(name) && document->Object_0[name] == value),
{
}

} // verus!
