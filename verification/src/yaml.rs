//! Reading a YAML text into a document.

use crate::json::{self, Json, JsonView};
use crate::string_map::{self, StringMap};
use vstd::prelude::*;

verus! {

/// `serde_json::Value`, the document type that the YAML reader fills.
#[verifier::external_type_specification]
#[verifier::external_body]
pub struct ExternalValue(serde_json::Value);

/// The document that a `serde_json::Value` holds.
pub uninterp spec fn held_document(value: serde_json::Value) -> JsonView;

/// What `serde_yaml::from_str` makes of a text: a document, or the message of its
/// error.
pub uninterp spec fn yaml_document(source: Seq<char>) -> Result<JsonView, Seq<char>>;

/// One level of a `serde_json::Value`.
pub enum ValueParts {
    Null,
    Bool(bool),
    Number(String),
    Text(String),
    Array(Vec<serde_json::Value>),
    Object(Vec<(String, serde_json::Value)>),
}

/// The document that the parts of a value make.
pub open spec fn parts_document(parts: ValueParts) -> JsonView {
    match parts {
        ValueParts::Null => JsonView::Null,
        ValueParts::Bool(value) => JsonView::Bool(value),
        ValueParts::Number(number) => JsonView::Number(number@),
        ValueParts::Text(content) => JsonView::Text(content@),
        ValueParts::Array(items) => JsonView::Array(
            Seq::new(items@.len(), |i: int| held_document(items@[i])),
        ),
        ValueParts::Object(members) => JsonView::Object(
            string_map::entries_from(
                Seq::new(members@.len(), |i: int| (members@[i].0@, held_document(members@[i].1))),
            ),
        ),
    }
}

/// `serde_yaml::from_str` into a `serde_json::Value`. The result depends on the
/// text alone; what the YAML grammar accepts is left unsaid.
#[verifier::external_body]
fn parse_yaml(source: &str) -> (document: Result<serde_json::Value, String>)
    ensures
        match document {
            Ok(value) => yaml_document(source@) == Ok::<JsonView, Seq<char>>(held_document(value)),
            Err(message) => yaml_document(source@) == Err::<JsonView, Seq<char>>(message@),
        },
{
    serde_yaml::from_str(source).map_err(|error| error.to_string())
}

/// The variant of a `serde_json::Value` and what it holds. A number is its text;
/// an object hands out its members, no key twice.
#[verifier::external_body]
fn open_value(value: serde_json::Value) -> (parts: ValueParts)
    ensures
        held_document(value) == parts_document(parts),
        match parts {
            ValueParts::Object(members) => forall|i: int, j: int|
                0 <= i < j < members@.len() ==> (#[trigger] members@[i]).0@ != (
                #[trigger] members@[j]).0@,
            _ => true,
        },
{
    match value {
        serde_json::Value::Null => ValueParts::Null,
        serde_json::Value::Bool(value) => ValueParts::Bool(value),
        serde_json::Value::Number(number) => ValueParts::Number(number.to_string()),
        serde_json::Value::String(content) => ValueParts::Text(content),
        serde_json::Value::Array(items) => ValueParts::Array(items),
        serde_json::Value::Object(members) => ValueParts::Object(members.into_iter().collect()),
    }
}

/// A member of an object stands below the object.
proof fn lemma_member_below(pairs: Seq<(Seq<char>, JsonView)>, at: int)
    requires
        0 <= at < pairs.len(),
        forall|j: int| at < j < pairs.len() ==> #[trigger] pairs[j].0 != pairs[at].0,
    ensures
        decreases_to!(JsonView::Object(string_map::entries_from(pairs)) => pairs[at].1),
{
    let entries = string_map::entries_from(pairs);
    string_map::lemma_entries_from_hold(pairs, at);
    string_map::lemma_entry_of_index(entries, pairs[at].0);
    let i = choose|i: int|
        0 <= i < entries.len() && #[trigger] entries[i].0 == pairs[at].0 && entries[i].1
            == pairs[at].1;
    let object = JsonView::Object(entries);
    assert(decreases_to!(object => object->Object_0[i].1));
}

/// The document that a value holds.
fn document_of(value: serde_json::Value) -> (document: Json)
    ensures
        document@ == held_document(value),
    decreases held_document(value),
{
    let ghost whole = held_document(value);
    let parts = open_value(value);
    match parts {
        ValueParts::Null => {
            proof {
                json::lemma_json_view(Json::Null);
            }
            Json::Null
        },
        ValueParts::Bool(value) => Json::bool(value),
        ValueParts::Number(number) => {
            let document = Json::Number(number);
            proof {
                json::lemma_json_view(document);
            }
            document
        },
        ValueParts::Text(content) => Json::text(content),
        ValueParts::Array(items) => {
            let mut documents: Vec<Json> = Vec::new();
            for item in iter: items
                invariant
                    iter.seq() == items@,
                    whole == held_document(value),
                    whole == JsonView::Array(
                        Seq::new(items@.len(), |i: int| held_document(items@[i])),
                    ),
                    documents@.len() == iter.index(),
                    forall|i: int|
                        0 <= i < iter.index() ==> (#[trigger] documents@[i])@ == held_document(items@[i]),
            {
                assert(decreases_to!(whole => whole->Array_0[iter.index() as int]));
                documents.push(document_of(item));
            }
            assert(json::json_views(documents@) =~= whole->Array_0);
            Json::array(documents)
        },
        ValueParts::Object(members) => {
            let ghost pairs = Seq::new(
                members@.len(),
                |i: int| (members@[i].0@, held_document(members@[i].1)),
            );
            let mut documents: Vec<(String, Json)> = Vec::new();
            for entry in iter: members
                invariant
                    iter.seq() == members@,
                    whole == held_document(value),
                    pairs == Seq::new(
                        members@.len(),
                        |i: int| (members@[i].0@, held_document(members@[i].1)),
                    ),
                    whole == JsonView::Object(string_map::entries_from(pairs)),
                    forall|i: int, j: int|
                        0 <= i < j < members@.len() ==> (#[trigger] members@[i]).0@ != (
                        #[trigger] members@[j]).0@,
                    documents@.len() == iter.index(),
                    forall|i: int|
                        0 <= i < iter.index() ==> (#[trigger] documents@[i]).0 == members@[i].0
                            && documents@[i].1@ == held_document(members@[i].1),
            {
                proof {
                    let at = iter.index() as int;
                    assert(pairs[at] == (members@[at].0@, held_document(members@[at].1)));
                    lemma_member_below(pairs, at);
                }
                documents.push((entry.0, document_of(entry.1)));
            }
            assert(Seq::new(documents@.len(), |i: int| (documents@[i].0@, documents@[i].1@))
                =~= pairs);
            Json::object(StringMap::from_pairs(documents))
        },
    }
}

/// Reads a YAML text, and so a JSON text too, into a document. A text that is
/// none gives the message of the reader's error.
pub fn read_yaml(source: &str) -> (document: Result<Json, String>)
    ensures
        match document {
            Ok(json) => yaml_document(source@) == Ok::<JsonView, Seq<char>>(json@),
            Err(message) => yaml_document(source@) == Err::<JsonView, Seq<char>>(message@),
        },
{
    match parse_yaml(source) {
        Ok(value) => Ok(document_of(value)),
        Err(message) => Err(message),
    }
}

} // verus!
