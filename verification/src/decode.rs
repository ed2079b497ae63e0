//! Reading records out of JSON documents.
//!
//! The provider writes a record as an object, whose members go by the names
//! of the fields. A record is also accepted as an array that holds the
//! values of all of its fields in their order. A field that may be absent is
//! absent where the object has no such member, and where the value is
//! `null`. One of a closed set of names is a string, or an object whose one
//! member has the name as its key and `null` as its value.

use crate::json::{lemma_array_view, lemma_object_view, member, Json, JsonView};
use vstd::prelude::*;

verus! {

/// Whether a document can be read as a record of `fields` fields: an
/// object, or an array of exactly that many items.
pub open spec fn is_record(document: JsonView, fields: nat) -> bool {
    match document {
        JsonView::Object(_) => true,
        JsonView::Array(items) => items.len() == fields,
        _ => false,
    }
}

/// The value that a record holds for a field, given the name of the field
/// and its place among the fields: the member of that name of an object,
/// the item at that place of an array.
pub open spec fn field(document: JsonView, name: Seq<char>, index: int) -> Option<JsonView> {
    match document {
        JsonView::Object(members) => member(members, name),
        JsonView::Array(items) => if 0 <= index < items.len() {
            Some(items[index])
        } else {
            None
        },
        _ => None,
    }
}

/// The name that a value spells out: that of a string, or the key of an
/// object whose one member has the value `null`.
pub open spec fn variant_name(value: JsonView) -> Option<Seq<char>> {
    match value {
        JsonView::String(name) => Some(name),
        JsonView::Object(members) => if members.len() == 1 && members[0].1 is Null {
            Some(members[0].0)
        } else {
            None
        },
        _ => None,
    }
}

/// Reads a place that may hold a text. An absent value and `null` mean that
/// there is none; any other value has to be a string. The outer `None` says
/// that the place cannot be read.
pub open spec fn optional_text(slot: Option<JsonView>) -> Option<Option<Seq<char>>> {
    match slot {
        None => Some(None),
        Some(JsonView::Null) => Some(None),
        Some(JsonView::String(text)) => Some(Some(text)),
        Some(_) => None,
    }
}

/// Reads a place that has to hold a text: a string, and nothing else.
pub open spec fn required_text(slot: Option<JsonView>) -> Option<Seq<char>> {
    match slot {
        Some(JsonView::String(text)) => Some(text),
        _ => None,
    }
}

/// Reads a place that has to hold a number.
pub open spec fn required_number(slot: Option<JsonView>) -> Option<serde_json::Number> {
    match slot {
        Some(JsonView::Number(number)) => Some(number),
        _ => None,
    }
}

/// The model of a place in a record.
pub open spec fn slot_view(slot: Option<&Json>) -> Option<JsonView> {
    match slot {
        Some(value) => Some(value@),
        None => None,
    }
}

/// The model of an optional text.
pub open spec fn text_view(text: Option<String>) -> Option<Seq<char>> {
    match text {
        Some(text) => Some(text@),
        None => None,
    }
}

/// The model of the outcome of reading a place that may hold a text.
pub open spec fn optional_text_view(read: Option<Option<String>>) -> Option<Option<Seq<char>>> {
    match read {
        Some(text) => Some(text_view(text)),
        None => None,
    }
}

impl Json {
    /// Whether the document can be read as a record of `fields` fields.
    pub fn is_record(&self, fields: usize) -> (r: bool)
        ensures
            r == is_record(self@, fields as nat),
    {
        match self {
            Json::Object(_) => true,
            Json::Array(items) => {
                proof {
                    lemma_array_view(*items);
                }
                items.len() == fields
            },
            _ => false,
        }
    }

    /// The value that a record holds for a field, given the name of the
    /// field and its place among the fields.
    pub fn field(&self, name: &str, index: usize) -> (r: Option<&Json>)
        ensures
            slot_view(r) == field(self@, name@, index as int),
    {
        match self {
            Json::Object(_) => self.get(name),
            Json::Array(items) => {
                proof {
                    lemma_array_view(*items);
                }
                if index < items.len() {
                    Some(&items[index])
                } else {
                    None
                }
            },
            _ => None,
        }
    }

    /// The name that the value spells out.
    pub fn variant_name(&self) -> (r: Option<&str>)
        ensures
            match r {
                Some(name) => variant_name(self@) == Some(name@),
                None => variant_name(self@) is None,
            },
    {
        match self {
            Json::String(name) => Some(name.as_str()),
            Json::Object(members) => {
                proof {
                    lemma_object_view(*members);
                }
                if members.len() == 1 {
                    match &members[0].1 {
                        Json::Null => Some(members[0].0.as_str()),
                        _ => None,
                    }
                } else {
                    None
                }
            },
            _ => None,
        }
    }
}

/// Reads a place that may hold a text.
pub fn read_optional_text(slot: Option<&Json>) -> (r: Option<Option<String>>)
    ensures
        optional_text_view(r) == optional_text(slot_view(slot)),
{
    match slot {
        None => Some(None),
        Some(Json::Null) => Some(None),
        Some(Json::String(text)) => Some(Some(text.clone())),
        Some(_) => None,
    }
}

/// Reads a place that has to hold a text.
pub fn read_required_text(slot: Option<&Json>) -> (r: Option<String>)
    ensures
        text_view(r) == required_text(slot_view(slot)),
{
    match slot {
        Some(Json::String(text)) => Some(text.clone()),
        _ => None,
    }
}

/// Reads a place that has to hold a number.
pub fn read_required_number(slot: Option<&Json>) -> (r: Option<serde_json::Number>)
    ensures
        r == required_number(slot_view(slot)),
{
    match slot {
        Some(Json::Number(number)) => Some(number.clone()),
        _ => None,
    }
}

} // verus!
