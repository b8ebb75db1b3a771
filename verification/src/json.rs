//! The JSON documents that reports travel as: a value tree that the host
//! hands to its serialiser as it is.

use crate::event::opt_text;
use vstd::prelude::*;

verus! {

/// A JSON value, as far as reports need one.
#[derive(Debug, PartialEq, Eq)]
pub enum Json {
    Null,
    Number(u64),
    Text(String),
    List(Vec<Json>),
    /// The members of an object, in the order in which they were added.
    Object(Vec<(String, Json)>),
}

/// What a [`Json`] value holds, as mathematical values.
pub enum JsonView {
    Null,
    Number(u64),
    Text(Seq<char>),
    List(Seq<JsonView>),
    Object(Seq<(Seq<char>, JsonView)>),
}

impl Json {
    /// The value as mathematical values, level by level.
    pub open spec fn model(&self) -> JsonView
        decreases self,
    {
        match self {
            Json::Null => JsonView::Null,
            Json::Number(n) => JsonView::Number(*n),
            Json::Text(s) => JsonView::Text(s@),
            Json::List(items) => JsonView::List(
                Seq::new(
                    items@.len(),
                    |i: int|
                        if 0 <= i < items@.len() {
                            items@[i].model()
                        } else {
                            JsonView::Null
                        },
                ),
            ),
            Json::Object(members) => JsonView::Object(
                Seq::new(
                    members@.len(),
                    |i: int|
                        if 0 <= i < members@.len() {
                            (members@[i].0@, members@[i].1.model())
                        } else {
                            (Seq::empty(), JsonView::Null)
                        },
                ),
            ),
        }
    }
}

impl View for Json {
    type V = JsonView;

    open spec fn view(&self) -> JsonView {
        self.model()
    }
}

/// The JSON value of an optional text: the text, or `null`.
pub open spec fn text_or_null(text: Option<Seq<char>>) -> JsonView {
    match text {
        Some(s) => JsonView::Text(s),
        None => JsonView::Null,
    }
}

/// The JSON value of an optional number: the number, or `null`.
pub open spec fn number_or_null(number: Option<u32>) -> JsonView {
    match number {
        Some(n) => JsonView::Number(n as u64),
        None => JsonView::Null,
    }
}

impl Json {
    /// A JSON string.
    pub fn text(s: &str) -> (json: Json)
        ensures
            json@ == JsonView::Text(s@),
    {
        Json::Text(s.to_owned())
    }

    /// The JSON value of an optional text: the text, or `null`.
    pub fn text_or_null(text: &Option<String>) -> (json: Json)
        ensures
            json@ == text_or_null(opt_text(*text)),
    {
        match text {
            Some(s) => Json::Text(s.clone()),
            None => Json::Null,
        }
    }

    /// The JSON value of an optional number: the number, or `null`.
    pub fn number_or_null(number: Option<u32>) -> (json: Json)
        ensures
            json@ == number_or_null(number),
    {
        match number {
            Some(n) => Json::Number(n as u64),
            None => Json::Null,
        }
    }

    /// A member of a JSON object.
    pub fn member(key: &str, value: Json) -> (member: (String, Json))
        ensures
            member.0@ == key@,
            member.1@ == value@,
    {
        (key.to_owned(), value)
    }

    /// A JSON array of the given values.
    pub fn list(items: Vec<Json>) -> (json: Json)
        ensures
            json@ == JsonView::List(items@.map_values(|j: Json| j@)),
    {
        let json = Json::List(items);
        assert(json@->List_0 =~= items@.map_values(|j: Json| j@));
        json
    }

    /// A JSON object of the given members, in their order.
    pub fn object(members: Vec<(String, Json)>) -> (json: Json)
        ensures
            json@ == JsonView::Object(
                members@.map_values(|m: (String, Json)| (m.0@, m.1@)),
            ),
    {
        let json = Json::Object(members);
        assert(json@->Object_0 =~= members@.map_values(|m: (String, Json)| (m.0@, m.1@)));
        json
    }
}

} // verus!
