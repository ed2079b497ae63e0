//! Telling a provider's answers apart.
//!
//! The provider answers a failed call in more than one shape: with a plain
//! text, with a JSON array of errors, with a single error as a JSON object,
//! or with something else. The functions here bring every such answer into
//! one error, and pass a successful answer on as it came.

use crate::error::{
    decode_entry, lemma_collection_view, RequestError, RequestErrorView, SwishClientError,
    SwishClientErrorView,
};
use crate::json::{json_parse, lemma_array_view, parse_text, Json, JsonView};
use crate::status::HttpStatus;
use vstd::prelude::*;
use vstd::string::*;

verus! {

/// The errors that the items of a payload decode to, in the order of the
/// items. An item that is no well-formed entry is left out.
pub open spec fn decoded_entries(items: Seq<JsonView>, status: u16) -> Seq<SwishClientErrorView>
    decreases items.len(),
{
    if items.len() == 0 {
        Seq::empty()
    } else {
        let before = decoded_entries(items.drop_last(), status);
        match decode_entry(items.last(), status) {
            Some(error) => before.push(SwishClientErrorView::Swish(error)),
            None => before,
        }
    }
}

/// An error without code and additional information.
pub open spec fn plain_error(status: u16, message: Seq<char>) -> SwishClientErrorView {
    SwishClientErrorView::Swish(
        RequestErrorView {
            http_status: status,
            code: None,
            message,
            additional_information: None,
        },
    )
}

/// The error that stands for a failed answer other than "not found", given
/// what parsing its body as JSON has led to. A body that is no JSON gives
/// one error, whose message is the description of the parse failure. An
/// array gives a collection, of the entries that its items decode to. An
/// object that is a well-formed entry gives that one error. Any other JSON
/// holds no entry, and gives an empty collection.
pub open spec fn rejection_view(
    status: u16,
    parsed: Result<JsonView, Seq<char>>,
) -> SwishClientErrorView {
    match parsed {
        Err(reason) => plain_error(status, reason),
        Ok(JsonView::Array(items)) => SwishClientErrorView::ErrorCollection(
            decoded_entries(items, status),
        ),
        Ok(JsonView::Object(members)) => match decode_entry(JsonView::Object(members), status) {
            Some(error) => SwishClientErrorView::Swish(error),
            None => SwishClientErrorView::ErrorCollection(Seq::empty()),
        },
        Ok(_) => SwishClientErrorView::ErrorCollection(Seq::empty()),
    }
}

/// The error that an answer stands for, and `None` for a successful one.
/// "Not found" comes first and gives one error whose message is the body as
/// it is; any other status outside the success class gives the rejection
/// that its body, parsed as JSON, leads to.
pub open spec fn failure_of(status: u16, body: Seq<char>) -> Option<SwishClientErrorView> {
    if status == 404 {
        Some(plain_error(404, body))
    } else if !(200 <= status < 300) {
        Some(rejection_view(status, json_parse(body)))
    } else {
        None
    }
}

/// Every error of a decoded payload is a provider error that carries the
/// status of the response, and no payload gives more errors than it has
/// items.
pub proof fn lemma_entries_stamped(items: Seq<JsonView>, status: u16)
    ensures
        decoded_entries(items, status).len() <= items.len(),
        forall|i: int|
            0 <= i < decoded_entries(items, status).len() ==> {
                &&& #[trigger] decoded_entries(items, status)[i] is Swish
                &&& decoded_entries(items, status)[i]->Swish_0.http_status == status
            },
    decreases items.len(),
{
    if items.len() > 0 {
        lemma_entries_stamped(items.drop_last(), status);
    }
}

/// A malformed item changes nothing about what a payload decodes to: it is
/// left out, and the items around it are kept.
pub proof fn lemma_malformed_entry_dropped(
    before: Seq<JsonView>,
    entry: JsonView,
    after: Seq<JsonView>,
    status: u16,
)
    requires
        decode_entry(entry, status) is None,
    ensures
        decoded_entries(before + seq![entry] + after, status) == decoded_entries(
            before + after,
            status,
        ),
    decreases after.len(),
{
    if after.len() == 0 {
        assert(before + seq![entry] + after == before.push(entry));
        assert(before.push(entry).drop_last() == before);
        assert(before + after == before);
    } else {
        let with = before + seq![entry] + after;
        let without = before + after;
        assert(with.drop_last() == before + seq![entry] + after.drop_last());
        assert(without.drop_last() == before + after.drop_last());
        assert(with.last() == after.last());
        assert(without.last() == after.last());
        lemma_malformed_entry_dropped(before, entry, after.drop_last(), status);
    }
}

/// A well-formed item at the end of a payload gives the last of its errors.
pub proof fn lemma_entry_kept(items: Seq<JsonView>, entry: JsonView, status: u16)
    requires
        decode_entry(entry, status) is Some,
    ensures
        decoded_entries(items.push(entry), status) == decoded_entries(items, status).push(
            SwishClientErrorView::Swish(decode_entry(entry, status)->Some_0),
        ),
{
    assert(items.push(entry).drop_last() == items);
}

/// "Not found" gives one error that carries the body as it is, whatever
/// the body holds.
pub proof fn lemma_not_found(body: Seq<char>)
    ensures
        failure_of(404, body) == Some(plain_error(404, body)),
{
}

/// An answer is a failure exactly when its status is outside the success
/// class.
pub proof fn lemma_failure_iff_not_success(status: u16, body: Seq<char>)
    ensures
        failure_of(status, body) is None <==> 200 <= status < 300,
{
}

/// The models of the errors of a sequence.
pub open spec fn error_views(errors: Seq<SwishClientError>) -> Seq<SwishClientErrorView> {
    Seq::new(errors.len(), |i: int| errors[i]@)
}

/// The model of what parsing a body has led to.
pub open spec fn parsed_view(parsed: Result<Json, String>) -> Result<JsonView, Seq<char>> {
    match parsed {
        Ok(document) => Ok(document@),
        Err(reason) => Err(reason@),
    }
}

fn plain(status: HttpStatus, message: String) -> (r: SwishClientError)
    ensures
        r@ == plain_error(status@, message@),
{
    SwishClientError::Swish(
        RequestError { http_status: status, code: None, message, additional_information: None },
    )
}

/// The error for a failed answer other than "not found", from the status of
/// the answer and the outcome of parsing its body as JSON.
pub fn rejection(status: HttpStatus, parsed: Result<Json, String>) -> (r: SwishClientError)
    ensures
        r@ == rejection_view(status@, parsed_view(parsed)),
{
    match parsed {
        Err(reason) => plain(status, reason),
        Ok(Json::Array(items)) => {
            let ghost all = Json::Array(items)@->Array_0;
            proof {
                lemma_array_view(items);
            }
            let mut errors: Vec<SwishClientError> = Vec::new();
            let mut i: usize = 0;
            while i < items.len()
                invariant
                    i <= items.len(),
                    all.len() == items@.len(),
                    forall|k: int| 0 <= k < all.len() ==> all[k] == #[trigger] items@[k]@,
                    error_views(errors@) == decoded_entries(all.take(i as int), status@),
                decreases items.len() - i,
            {
                assert(all.take(i + 1).drop_last() == all.take(i as int));
                assert(all.take(i + 1).last() == all[i as int]);
                let ghost before = errors@;
                match RequestError::from_json(&items[i], status) {
                    Some(error) => {
                        errors.push(SwishClientError::Swish(error));
                        assert(error_views(errors@) == error_views(before).push(
                            SwishClientErrorView::Swish(error@),
                        ));
                    },
                    None => {},
                }
                i += 1;
            }
            assert(all.take(i as int) == all);
            proof {
                lemma_collection_view(errors);
                assert(SwishClientError::ErrorCollection(errors)@->ErrorCollection_0
                    == error_views(errors@));
            }
            SwishClientError::ErrorCollection(errors)
        },
        Ok(document) => {
            let single = match &document {
                Json::Object(_) => RequestError::from_json(&document, status),
                _ => None,
            };
            match single {
                Some(error) => SwishClientError::Swish(error),
                None => {
                    let errors: Vec<SwishClientError> = Vec::new();
                    proof {
                        lemma_collection_view(errors);
                        assert(SwishClientError::ErrorCollection(errors)@->ErrorCollection_0
                            == Seq::<SwishClientErrorView>::empty());
                    }
                    SwishClientError::ErrorCollection(errors)
                },
            }
        },
    }
}

/// The error that an answer stands for, and `None` for a successful one.
pub fn failed(status: HttpStatus, body: &str) -> (r: Option<SwishClientError>)
    ensures
        match r {
            Some(error) => failure_of(status@, body@) == Some(error@),
            None => failure_of(status@, body@) is None,
        },
{
    if status.is_not_found() {
        return Some(plain(status, String::from_str(body)));
    }
    if !status.is_success() {
        let parsed = match parse_text(body) {
            Ok(document) => Ok(document),
            Err((_, reason)) => Err(reason),
        };
        return Some(rejection(status, parsed));
    }
    None
}

/// Tells a successful answer from a failed one. A successful answer is
/// passed on: its body and its headers, as they came. A failed one becomes
/// the error that [`failure_of`] describes.
pub fn classify_response(
    status: HttpStatus,
    headers: hyper::HeaderMap<hyper::header::HeaderValue>,
    body: &str,
) -> (r: Result<(String, hyper::HeaderMap<hyper::header::HeaderValue>), SwishClientError>)
    ensures
        match r {
            Ok((text, passed)) => failure_of(status@, body@) is None && text@ == body@ && passed
                == headers,
            Err(error) => failure_of(status@, body@) == Some(error@),
        },
{
    match failed(status, body) {
        Some(error) => Err(error),
        None => Ok((String::from_str(body), headers)),
    }
}

} // verus!
