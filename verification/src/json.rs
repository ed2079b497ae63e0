//! JSON documents as the client reads and writes them.
//!
//! A document is held as a tree of the library's own, [`Json`], so that the
//! rules that read provider payloads and build request bodies are ordinary
//! verified code. Turning text into a tree and a tree into text is left to
//! `serde_json`: [`json_parse`] and [`json_text`] name what it makes of a
//! text and of a document, and the functions that call it are taken on
//! trust.

use vstd::prelude::*;

verus! {

broadcast use {vstd::group_vstd_default, vstd::std_specs::vec::axiom_vec_index_decreases};

#[verifier::external_type_specification]
#[verifier::external_body]
pub struct ExNumber(serde_json::Number);

#[verifier::external_type_specification]
#[verifier::external_body]
pub struct ExValue(serde_json::Value);

#[verifier::external_type_specification]
#[verifier::external_body]
pub struct ExJsonError(serde_json::Error);

/// A JSON document.
///
/// Numbers are carried as `serde_json` numbers and never inspected. The
/// members of an object are kept in sequence; where a key occurs more than
/// once, the last occurrence is the one that counts.
#[derive(Debug)]
pub enum Json {
    Null,
    Bool(bool),
    Number(serde_json::Number),
    String(String),
    Array(Vec<Json>),
    Object(Vec<(String, Json)>),
}

/// The mathematical model of a [`Json`] document.
pub enum JsonView {
    Null,
    Bool(bool),
    Number(serde_json::Number),
    String(Seq<char>),
    Array(Seq<JsonView>),
    Object(Seq<(Seq<char>, JsonView)>),
}

impl View for Json {
    type V = JsonView;

    open spec fn view(&self) -> JsonView
        decreases self,
    {
        match self {
            Json::Null => JsonView::Null,
            Json::Bool(b) => JsonView::Bool(*b),
            Json::Number(n) => JsonView::Number(*n),
            Json::String(s) => JsonView::String(s@),
            Json::Array(items) => JsonView::Array(
                Seq::new(
                    items@.len(),
                    |i: int|
                        if 0 <= i < items@.len() {
                            items[i].view()
                        } else {
                            JsonView::Null
                        },
                ),
            ),
            Json::Object(members) => JsonView::Object(
                Seq::new(
                    members@.len(),
                    |i: int|
                        if 0 <= i < members@.len() {
                            (members[i].0@, members[i].1.view())
                        } else {
                            (Seq::empty(), JsonView::Null)
                        },
                ),
            ),
        }
    }
}

/// The value that `members` gives to `key`: that of the last member with
/// that key, or `None` where no member has it.
pub open spec fn member(members: Seq<(Seq<char>, JsonView)>, key: Seq<char>) -> Option<JsonView>
    decreases members.len(),
{
    if members.len() == 0 {
        None
    } else if members.last().0 == key {
        Some(members.last().1)
    } else {
        member(members.drop_last(), key)
    }
}

/// The keys that occur in `members`.
pub open spec fn keys(members: Seq<(Seq<char>, JsonView)>) -> Set<Seq<char>> {
    Set::new(|key: Seq<char>| member(members, key) is Some)
}

/// What `serde_json` makes of a text: the document it parses to, or the
/// description of the failure.
pub uninterp spec fn json_parse(text: Seq<char>) -> Result<JsonView, Seq<char>>;

/// The compact text that `serde_json` writes for a document, where it
/// writes one.
pub uninterp spec fn json_text(document: JsonView) -> Option<Seq<char>>;

/// The `serde_json` number that stands for a whole number.
pub uninterp spec fn number_of_u64(value: u64) -> serde_json::Number;

/// `Clone` of `serde_json::Number`: the same number.
pub assume_specification[ <serde_json::Number as Clone>::clone ](
    number: &serde_json::Number,
) -> (r: serde_json::Number)
    ensures
        r == *number,
;

/// `==` on string slices: true exactly when both hold the same characters.
#[verifier::external_body]
pub(crate) fn same_text(a: &str, b: &str) -> (r: bool)
    ensures
        r == (a@ == b@),
{
    a == b
}

/// Copies a `serde_json::Value` into a [`Json`], variant by variant.
#[verifier::external_body]
fn from_value(value: &serde_json::Value) -> Json {
    match value {
        serde_json::Value::Null => Json::Null,
        serde_json::Value::Bool(b) => Json::Bool(*b),
        serde_json::Value::Number(n) => Json::Number(n.clone()),
        serde_json::Value::String(s) => Json::String(s.clone()),
        serde_json::Value::Array(items) => Json::Array(items.iter().map(from_value).collect()),
        serde_json::Value::Object(members) => Json::Object(
            members.iter().map(|(k, v)| (k.clone(), from_value(v))).collect(),
        ),
    }
}

/// Copies a [`Json`] into a `serde_json::Value`, variant by variant.
#[verifier::external_body]
fn to_value(document: &Json) -> serde_json::Value {
    match document {
        Json::Null => serde_json::Value::Null,
        Json::Bool(b) => serde_json::Value::Bool(*b),
        Json::Number(n) => serde_json::Value::Number(n.clone()),
        Json::String(s) => serde_json::Value::String(s.clone()),
        Json::Array(items) => serde_json::Value::Array(items.iter().map(to_value).collect()),
        Json::Object(members) => serde_json::Value::Object(
            members.iter().map(|(k, v)| (k.clone(), to_value(v))).collect(),
        ),
    }
}

/// `serde_json::from_str` at `serde_json::Value`: the parsed document, or
/// the error that `serde_json` reports together with its text. The outcome
/// depends on the text alone, and [`json_parse`] names it.
#[verifier::external_body]
pub(crate) fn parse_text(text: &str) -> (r: Result<Json, (serde_json::Error, String)>)
    ensures
        match r {
            Ok(document) => json_parse(text@) == Ok::<JsonView, Seq<char>>(document@),
            Err((_, reason)) => json_parse(text@) == Err::<JsonView, Seq<char>>(reason@),
        },
{
    match serde_json::from_str::<serde_json::Value>(text) {
        Ok(value) => Ok(from_value(&value)),
        Err(error) => {
            let reason = error.to_string();
            Err((error, reason))
        },
    }
}

/// `serde::de::Error::custom` at `serde_json::Error`: an error of
/// `serde_json` that carries the given message.
#[verifier::external_body]
pub(crate) fn decode_error(message: &str) -> serde_json::Error {
    <serde_json::Error as serde::de::Error>::custom(message)
}

/// `serde_json::to_string` on the document: its compact text, or the error
/// that `serde_json` reports. [`json_text`] names the text.
#[verifier::external_body]
pub(crate) fn encode_text(document: &Json) -> (r: Result<String, serde_json::Error>)
    ensures
        match r {
            Ok(text) => json_text(document@) == Some(text@),
            Err(_) => json_text(document@) is None,
        },
{
    serde_json::to_string(&to_value(document))
}

/// `serde_json::Number::from` on a `u64`.
#[verifier::external_body]
pub(crate) fn whole_number(value: u64) -> (r: serde_json::Number)
    ensures
        r == number_of_u64(value),
{
    serde_json::Number::from(value)
}

/// The model of an object, member by member.
pub proof fn lemma_object_view(members: Vec<(String, Json)>)
    ensures
        Json::Object(members)@ is Object,
        Json::Object(members)@->Object_0.len() == members@.len(),
        forall|k: int|
            0 <= k < members@.len() ==> #[trigger] Json::Object(members)@->Object_0[k] == (
                members@[k].0@,
                members@[k].1@,
            ),
{
    reveal_with_fuel(<Json as View>::view, 2);
}

/// The model of an array, item by item.
pub proof fn lemma_array_view(items: Vec<Json>)
    ensures
        Json::Array(items)@ is Array,
        Json::Array(items)@->Array_0.len() == items@.len(),
        forall|k: int|
            0 <= k < items@.len() ==> #[trigger] Json::Array(items)@->Array_0[k] == items@[k]@,
{
    reveal_with_fuel(<Json as View>::view, 2);
}

impl Json {
    /// The value of the member `key` of an object: that of its last member
    /// with that key. `None` for a document that is no object and for an
    /// object without such a member.
    pub fn get(&self, key: &str) -> (r: Option<&Json>)
        ensures
            match self@ {
                JsonView::Object(members) => match r {
                    Some(value) => member(members, key@) == Some(value@),
                    None => member(members, key@) is None,
                },
                _ => r is None,
            },
    {
        match self {
            Json::Object(members) => {
                let ghost all = self@->Object_0;
                proof {
                    lemma_object_view(*members);
                }
                let mut found: Option<&Json> = None;
                let mut i: usize = 0;
                while i < members.len()
                    invariant
                        i <= members.len(),
                        all.len() == members@.len(),
                        forall|k: int|
                            0 <= k < all.len() ==> all[k] == (members@[k].0@, members@[k].1@),
                        match found {
                            Some(value) => member(all.take(i as int), key@) == Some(value@),
                            None => member(all.take(i as int), key@) is None,
                        },
                    decreases members.len() - i,
                {
                    assert(all.take(i + 1).drop_last() == all.take(i as int));
                    assert(all.take(i + 1).last() == all[i as int]);
                    if same_text(members[i].0.as_str(), key) {
                        found = Some(&members[i].1);
                    }
                    i += 1;
                }
                assert(all.take(i as int) == all);
                found
            },
            _ => None,
        }
    }
}

} // verus!
