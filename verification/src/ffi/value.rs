//! Values and errors as the host sees them.
use vstd::prelude::*;

use crate::text;

verus! {

/// A value that is handed to the host.
#[derive(Debug)]
pub enum HostValue {
    Text(String),
    Count(usize),
    Flag(bool),
    Dict(HostDict),
    List(Vec<HostValue>),
}

/// Named values, in the order in which they were put in.
#[derive(Debug)]
pub struct HostDict {
    pub entries: Vec<(String, HostValue)>,
}

/// What a value says.
#[verifier::ext_equal]
pub enum HostView {
    Text(Seq<char>),
    Count(nat),
    Flag(bool),
    Dict(Seq<(Seq<char>, HostView)>),
    List(Seq<HostView>),
}

/// What a value says.
pub open spec fn value_view(value: HostValue) -> HostView
    decreases value,
{
    match value {
        HostValue::Text(text) => HostView::Text(text@),
        HostValue::Count(count) => HostView::Count(count as nat),
        HostValue::Flag(flag) => HostView::Flag(flag),
        HostValue::Dict(dict) => HostView::Dict(entries_view(dict.entries@)),
        HostValue::List(values) => HostView::List(values_view(values@)),
    }
}

/// What named values say, in order.
pub open spec fn entries_view(entries: Seq<(String, HostValue)>) -> Seq<(Seq<char>, HostView)>
    decreases entries,
{
    if entries.len() == 0 {
        Seq::empty()
    } else {
        entries_view(entries.drop_last()).push((entries.last().0@, value_view(entries.last().1)))
    }
}

/// What the values of a list say, in order.
pub open spec fn values_view(values: Seq<HostValue>) -> Seq<HostView>
    decreases values,
{
    if values.len() == 0 {
        Seq::empty()
    } else {
        values_view(values.drop_last()).push(value_view(values.last()))
    }
}

impl View for HostValue {
    type V = HostView;

    open spec fn view(&self) -> HostView {
        value_view(*self)
    }
}

impl View for HostDict {
    type V = Seq<(Seq<char>, HostView)>;

    open spec fn view(&self) -> Seq<(Seq<char>, HostView)> {
        entries_view(self.entries@)
    }
}

impl HostDict {
    /// No values.
    pub fn new() -> (res: HostDict)
        ensures
            res@ == Seq::<(Seq<char>, HostView)>::empty(),
    {
        HostDict { entries: Vec::new() }
    }

    /// Puts a value behind those that are there.
    pub fn put(&mut self, name: &str, value: HostValue)
        ensures
            final(self)@ == old(self)@.push((name@, value@)),
    {
        self.entries.push((name.to_owned(), value));
        proof {
            assert(self.entries@.drop_last() =~= old(self).entries@);
        }
    }

    /// Puts a text behind the values that are there.
    pub fn put_text(&mut self, name: &str, value: &str)
        ensures
            final(self)@ == old(self)@.push((name@, HostView::Text(value@))),
    {
        self.put(name, HostValue::Text(value.to_owned()));
    }

    /// Puts a count behind the values that are there.
    pub fn put_count(&mut self, name: &str, value: usize)
        ensures
            final(self)@ == old(self)@.push((name@, HostView::Count(value as nat))),
    {
        self.put(name, HostValue::Count(value));
    }
}

/// What a call of the host fails with.
#[derive(Debug)]
pub enum HostError {
    /// An argument is not what it should be.
    Value(String),
    /// Something that is not in the arguments went wrong.
    Runtime(String),
    /// The host's own code raised; the text is what it says of it.
    Raised(String),
}

/// What the host prints of an error.
pub open spec fn host_error_text(error: HostError) -> Seq<char> {
    match error {
        HostError::Value(message) => "ValueError: "@ + message@,
        HostError::Runtime(message) => "RuntimeError: "@ + message@,
        HostError::Raised(message) => message@,
    }
}

/// Whether an error says that an argument is not what it should be.
pub open spec fn is_value_error(error: HostError, message: Seq<char>) -> bool {
    error matches HostError::Value(said) && said@ == message
}

/// Whether an error says that something else went wrong.
pub open spec fn is_runtime_error(error: HostError, message: Seq<char>) -> bool {
    error matches HostError::Runtime(said) && said@ == message
}

impl HostError {
    /// An error about an argument, with what caused it.
    pub fn value(what: &str, cause: &str) -> (res: HostError)
        ensures
            is_value_error(res, what@ + cause@),
    {
        HostError::Value(text::join(what, cause))
    }

    /// An error about anything else, with what caused it.
    pub fn runtime(what: &str, cause: &str) -> (res: HostError)
        ensures
            is_runtime_error(res, what@ + cause@),
    {
        HostError::Runtime(text::join(what, cause))
    }

    /// What the host prints of the error.
    pub fn message(&self) -> (res: String)
        ensures
            res@ == host_error_text(*self),
    {
        match self {
            HostError::Value(message) => text::join("ValueError: ", message.as_str()),
            HostError::Runtime(message) => text::join("RuntimeError: ", message.as_str()),
            HostError::Raised(message) => message.clone(),
        }
    }
}

} // verus!
