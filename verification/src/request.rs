//! Requests to the provider, as plain values.
//!
//! The library does not send anything: it says what is to be sent. A request
//! is a method, the text of an absolute URI that `hyper` accepts, and, for a
//! `POST`, a JSON text as its body.

use crate::error::SwishClientError;
use crate::json::{encode_text, json_text, Json};
use vstd::prelude::*;
use vstd::string::*;

verus! {

/// Whether `hyper` accepts a text as a URI.
pub uninterp spec fn uri_is_valid(text: Seq<char>) -> bool;

/// `str::parse` at `hyper::Uri`, for its verdict alone: nothing where the
/// text is a URI, and the error that `hyper` reports where it is none.
#[verifier::external_body]
fn check_uri(text: &str) -> (r: Result<(), hyper::http::uri::InvalidUri>)
    ensures
        r is Ok <==> uri_is_valid(text@),
{
    text.parse::<hyper::Uri>().map(|_| ())
}

/// The content type of a request that has a body.
pub const JSON_CONTENT_TYPE: &'static str = "application/json";

/// The methods that the client uses.
#[derive(Debug, Clone, Copy, PartialEq, Eq)]
pub enum Method {
    Get,
    Post,
}

/// A request that is ready to be sent.
#[derive(Debug)]
pub struct ApiRequest {
    pub method: Method,
    /// The absolute URI of the request.
    pub uri: String,
    /// The JSON text to send, for a `POST`.
    pub body: Option<String>,
}

/// The mathematical model of an [`ApiRequest`].
pub struct ApiRequestView {
    pub method: Method,
    pub uri: Seq<char>,
    pub body: Option<Seq<char>>,
}

impl View for ApiRequest {
    type V = ApiRequestView;

    open spec fn view(&self) -> ApiRequestView {
        ApiRequestView {
            method: self.method,
            uri: self.uri@,
            body: match self.body {
                Some(text) => Some(text@),
                None => None,
            },
        }
    }
}

impl ApiRequest {
    /// The content type to announce: that of JSON for a request with a
    /// body, none for one without.
    pub fn content_type(&self) -> (r: Option<&'static str>)
        ensures
            r is Some <==> self@.body is Some,
            r matches Some(name) ==> name@ == JSON_CONTENT_TYPE@,
    {
        match self.body {
            Some(_) => Some(JSON_CONTENT_TYPE),
            None => None,
        }
    }
}

/// The request or the error that building a request ends in, given the
/// method, the text of the URI and, for a `POST`, the document to send. A
/// text that is no URI is refused first; a document that cannot be written
/// as text is refused next.
pub open spec fn built(
    uri: Seq<char>,
    document: Option<crate::json::JsonView>,
    r: Result<ApiRequest, SwishClientError>,
) -> bool {
    match r {
        Ok(request) => {
            &&& uri_is_valid(uri)
            &&& request@.uri == uri
            &&& match document {
                Some(document) => {
                    &&& request@.method == Method::Post
                    &&& json_text(document) == request@.body
                    &&& request@.body is Some
                },
                None => request@.method == Method::Get && request@.body is None,
            }
        },
        Err(error) => if uri_is_valid(uri) {
            &&& error is Json
            &&& document matches Some(document)
            &&& json_text(document) is None
        } else {
            error is Uri
        },
    }
}

/// Builds a request from the text of its URI and, for a `POST`, the
/// document to send as its body.
pub fn build_request(uri: String, document: Option<&Json>) -> (r: Result<
    ApiRequest,
    SwishClientError,
>)
    ensures
        built(
            uri@,
            match document {
                Some(document) => Some(document@),
                None => None,
            },
            r,
        ),
{
    match check_uri(uri.as_str()) {
        Ok(_) => {},
        Err(error) => {
            return Err(SwishClientError::Uri(error));
        },
    }
    match document {
        Some(document) => match encode_text(document) {
            Ok(text) => Ok(ApiRequest { method: Method::Post, uri, body: Some(text) }),
            Err(error) => Err(SwishClientError::Json(error)),
        },
        None => Ok(ApiRequest { method: Method::Get, uri, body: None }),
    }
}

} // verus!
