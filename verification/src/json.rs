//! JSON documents.

use crate::string_map::{self, StringMap};
use crate::text::{self, decimal_text};
use vstd::prelude::*;

verus! {

/// A JSON document. A number is kept as the text that writes it.
#[derive(Debug, PartialEq, Eq)]
pub enum Json {
    Null,
    Bool(bool),
    Number(String),
    Text(String),
    Array(Vec<Json>),
    Object(StringMap<Json>),
}

/// The mathematical model of a document: an object is the sequence of its
/// members in the order of their keys.
#[verifier::ext_equal]
pub enum JsonView {
    Null,
    Bool(bool),
    Number(Seq<char>),
    Text(Seq<char>),
    Array(Seq<JsonView>),
    Object(Seq<(Seq<char>, JsonView)>),
}

/// The model of a document.
pub closed spec fn json_view(json: Json) -> JsonView
    decreases json,
{
    match json {
        Json::Null => JsonView::Null,
        Json::Bool(value) => JsonView::Bool(value),
        Json::Number(text) => JsonView::Number(text@),
        Json::Text(text) => JsonView::Text(text@),
        Json::Array(items) => JsonView::Array(
            Seq::new(
                items@.len(),
                |i: int|
                    if 0 <= i < items@.len() {
                        json_view(items@[i])
                    } else {
                        JsonView::Null
                    },
            ),
        ),
        Json::Object(members) => JsonView::Object(
            Seq::new(
                members.entries@.len(),
                |i: int|
                    if 0 <= i < members.entries@.len() {
                        (members.entries@[i].0@, json_view(members.entries@[i].1))
                    } else {
                        arbitrary()
                    },
            ),
        ),
    }
}

impl View for Json {
    type V = JsonView;

    open spec fn view(&self) -> JsonView {
        json_view(*self)
    }
}

/// The models of a list of documents.
pub open spec fn json_views(items: Seq<Json>) -> Seq<JsonView> {
    Seq::new(items.len(), |i: int| items[i]@)
}

/// What the model of each kind of document is.
pub proof fn lemma_json_view(json: Json)
    ensures
        json@ == (match json {
            Json::Null => JsonView::Null,
            Json::Bool(value) => JsonView::Bool(value),
            Json::Number(text) => JsonView::Number(text@),
            Json::Text(text) => JsonView::Text(text@),
            Json::Array(items) => JsonView::Array(json_views(items@)),
            Json::Object(members) => JsonView::Object(members@),
        }),
{
    match json {
        Json::Array(items) => {
            assert(json@->Array_0 =~= json_views(items@));
        },
        Json::Object(members) => {
            string_map::lemma_map_view(members);
            assert(json@->Object_0 =~= members@);
        },
        _ => {},
    }
}

/// The member of an object under a key; `None` for any other document.
pub open spec fn member(json: JsonView, key: Seq<char>) -> Option<JsonView> {
    match json {
        JsonView::Object(members) => string_map::entry_of(members, key),
        _ => None,
    }
}

/// The member that a path of keys leads to.
pub open spec fn member_at(json: JsonView, path: Seq<Seq<char>>) -> Option<JsonView>
    decreases path.len(),
{
    if path.len() == 0 {
        Some(json)
    } else {
        match member(json, path[0]) {
            Some(inner) => member_at(inner, path.drop_first()),
            None => None,
        }
    }
}

/// The text of a document that is a string.
pub open spec fn text_in(json: JsonView) -> Option<Seq<char>> {
    match json {
        JsonView::Text(text) => Some(text),
        _ => None,
    }
}

impl Json {
    /// A string.
    pub fn text(text: String) -> (json: Json)
        ensures
            json@ == JsonView::Text(text@),
    {
        let json = Json::Text(text);
        proof {
            lemma_json_view(json);
        }
        json
    }

    /// A string that holds a copy of `text`.
    pub fn text_from(text: &str) -> (json: Json)
        ensures
            json@ == JsonView::Text(text@),
    {
        Json::text(text.to_owned())
    }

    /// A whole number.
    pub fn number(value: u64) -> (json: Json)
        ensures
            json@ == JsonView::Number(text::decimal(value as nat)),
    {
        let json = Json::Number(decimal_text(value));
        proof {
            lemma_json_view(json);
        }
        json
    }

    /// A truth value.
    pub fn bool(value: bool) -> (json: Json)
        ensures
            json@ == JsonView::Bool(value),
    {
        let json = Json::Bool(value);
        proof {
            lemma_json_view(json);
        }
        json
    }

    /// A list.
    pub fn array(items: Vec<Json>) -> (json: Json)
        ensures
            json@ == JsonView::Array(json_views(items@)),
    {
        let json = Json::Array(items);
        proof {
            lemma_json_view(json);
        }
        json
    }

    /// An object.
    pub fn object(members: StringMap<Json>) -> (json: Json)
        ensures
            json@ == JsonView::Object(members@),
    {
        let json = Json::Object(members);
        proof {
            lemma_json_view(json);
        }
        json
    }

    /// The member of an object under a key.
    pub fn get(&self, key: &str) -> (value: Option<&Json>)
        ensures
            match value {
                Some(found) => member(self@, key@) == Some(found@),
                None => member(self@, key@) is None,
            },
    {
        proof {
            lemma_json_view(*self);
        }
        match self {
            Json::Object(members) => members.get(key),
            _ => None,
        }
    }

    /// The text of a string.
    pub fn as_text(&self) -> (value: Option<&String>)
        ensures
            match value {
                Some(found) => text_in(self@) == Some(found@),
                None => text_in(self@) is None,
            },
    {
        proof {
            lemma_json_view(*self);
        }
        match self {
            Json::Text(text) => Some(text),
            _ => None,
        }
    }

    /// The items of a list.
    pub fn as_array(&self) -> (value: Option<&Vec<Json>>)
        ensures
            match value {
                Some(found) => self@ == JsonView::Array(json_views(found@)),
                None => !(self@ is Array),
            },
    {
        proof {
            lemma_json_view(*self);
        }
        match self {
            Json::Array(items) => Some(items),
            _ => None,
        }
    }

    /// The members of an object.
    pub fn as_object(&self) -> (value: Option<&StringMap<Json>>)
        ensures
            match value {
                Some(found) => self@ == JsonView::Object(found@),
                None => !(self@ is Object),
            },
    {
        proof {
            lemma_json_view(*self);
        }
        match self {
            Json::Object(members) => Some(members),
            _ => None,
        }
    }
}

impl Clone for Json {
    fn clone(&self) -> (json: Self)
        ensures
            json@ == self@,
        decreases self,
    {
        proof {
            lemma_json_view(*self);
        }
        match self {
            Json::Null => Json::Null,
            Json::Bool(value) => Json::Bool(*value),
            Json::Number(text) => Json::Number(text.clone()),
            Json::Text(text) => Json::Text(text.clone()),
            Json::Array(items) => {
                let mut copies: Vec<Json> = Vec::new();
                let mut at: usize = 0;
                while at < items.len()
                    invariant
                        at <= items.len(),
                        self == Json::Array(*items),
                        copies@.len() == at,
                        forall|i: int| 0 <= i < at ==> (#[trigger] copies@[i])@ == items@[i]@,
                    decreases items.len() - at,
                {
                    assert(decreases_to!(*self => self->Array_0@[at as int]));
                    let copy = items[at].clone();
                    copies.push(copy);
                    at = at + 1;
                }
                assert(json_views(copies@) =~= json_views(items@));
                Json::array(copies)
            },
            Json::Object(members) => {
                let mut copies: StringMap<Json> = StringMap::new();
                let length: usize = members.len();
                let mut at: usize = 0;
                while at < length
                    invariant
                        at <= length == members@.len(),
                        self == Json::Object(*members),
                        string_map::sorted_keys(members@),
                        copies@ == members@.take(at as int),
                    decreases length - at,
                {
                    let key = members.key_at(at).clone();
                    proof {
                        string_map::lemma_map_view(*members);
                        string_map::lemma_with_entry_last(
                            copies@,
                            members@[at as int].0,
                            members@[at as int].1,
                        );
                    }
                    assert(decreases_to!(*self => self->Object_0.entries@[at as int].1));
                    let value = members.entries[at].1.clone();
                    copies.insert(key, value);
                    at = at + 1;
                    assert(members@.take(at as int) =~= members@.take(at - 1).push(members@[at - 1]));
                }
                assert(members@.take(at as int) =~= members@);
                Json::object(copies)
            },
        }
    }
}

/// The members of a document that is an object, and none of any other.
pub open spec fn members_of(json: Option<JsonView>) -> Seq<(Seq<char>, JsonView)> {
    match json {
        Some(JsonView::Object(members)) => members,
        _ => Seq::empty(),
    }
}

/// The members of a document that is an object, once more; none of any other.
pub fn copied_members(json: Option<&Json>) -> (copies: StringMap<Json>)
    ensures
        copies@ == members_of(
            match json {
                Some(json) => Some(json@),
                None => None,
            },
        ),
{
    let mut copies: StringMap<Json> = StringMap::new();
    if let Some(json) = json {
        if let Some(members) = json.as_object() {
            let length: usize = members.len();
            let mut at: usize = 0;
            while at < length
                invariant
                    at <= length == members@.len(),
                    string_map::sorted_keys(members@),
                    copies@ == members@.take(at as int),
                decreases length - at,
            {
                proof {
                    string_map::lemma_with_entry_last(
                        copies@,
                        members@[at as int].0,
                        members@[at as int].1,
                    );
                }
                copies.insert(members.key_at(at).clone(), members.value_at(at).clone());
                at = at + 1;
                assert(members@.take(at as int) =~= members@.take(at - 1).push(members@[at - 1]));
            }
            assert(members@.take(at as int) =~= members@);
        }
    }
    copies
}

/// A map of texts as an object of strings.
pub open spec fn text_members(map: Seq<(Seq<char>, Seq<char>)>) -> Seq<(Seq<char>, JsonView)> {
    Seq::new(map.len(), |i: int| (map[i].0, JsonView::Text(map[i].1)))
}

/// A map of texts as an object of strings.
pub fn text_object(map: &StringMap<String>) -> (json: Json)
    ensures
        json@ == JsonView::Object(text_members(map@)),
{
    let mut members: StringMap<Json> = StringMap::new();
    let length: usize = map.len();
    let mut at: usize = 0;
    while at < length
        invariant
            at <= length == map@.len(),
            string_map::sorted_keys(map@),
            members@ == text_members(map@).take(at as int),
        decreases length - at,
    {
        proof {
            let value = JsonView::Text(map@[at as int].1);
            assert forall|i: int| 0 <= i < members@.len() implies text::text_lt(
                #[trigger] members@[i].0,
                map@[at as int].0,
            ) by {
                assert(members@[i].0 == map@[i].0);
            }
            string_map::lemma_with_entry_last(members@, map@[at as int].0, value);
        }
        members.insert(map.key_at(at).clone(), Json::text(map.value_at(at).clone()));
        at = at + 1;
        assert(text_members(map@).take(at as int) =~= text_members(map@).take(at - 1).push(
            text_members(map@)[at - 1],
        ));
    }
    assert(text_members(map@).take(at as int) =~= text_members(map@));
    Json::object(members)
}

} // verus!
