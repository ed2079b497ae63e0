//! # The error module
//!
//! Contains all the errors that can occur.

use crate::decode::{
    field, is_record, optional_text, read_optional_text, read_required_text, required_text,
    slot_view, text_view, variant_name,
};
use crate::json::{same_text, Json, JsonView};
use crate::status::{status_text, HttpStatus};
use vstd::prelude::*;
use vstd::string::*;

verus! {

broadcast use {vstd::group_vstd_default, vstd::std_specs::vec::axiom_vec_index_decreases};

/// The error codes that the provider is known to answer with.
#[derive(Debug, Clone, Copy, PartialEq, Eq)]
pub enum ErrorCode {
    /// PayeePaymentReference is invalid.
    FF08,
    /// Callback URL is missing or does not use Https.
    RP03,
    /// Payer alias is invalid.
    BE18,
    /// Payee alias is missing or empty.
    RP01,
    /// Amount value is missing or not a valid number.
    PA02,
    /// Amount value is too low.
    AM06,
    /// Amount value is too large.
    AM02,
    /// Invalid or missing Currency.
    AM03,
    /// Wrong formatted message.
    RP02,
    /// Another active PaymentRequest already exists for this payerAlias.
    /// Only applicable for E-Commerce.
    RP06,
    /// Payer not Enrolled.
    ACMT03,
    /// Counterpart is not activated.
    ACMT01,
    /// Payee not Enrolled.
    ACMT07,
    /// Parameter is not correct.
    PA01,
    /// Original Payment not found or original payment is more than than 13
    /// months old.
    RF02,
}

/// The code that the provider writes as `name`, where it is a known one.
pub open spec fn code_named(name: Seq<char>) -> Option<ErrorCode> {
    if name == "FF08"@ {
        Some(ErrorCode::FF08)
    } else if name == "RP03"@ {
        Some(ErrorCode::RP03)
    } else if name == "BE18"@ {
        Some(ErrorCode::BE18)
    } else if name == "RP01"@ {
        Some(ErrorCode::RP01)
    } else if name == "PA02"@ {
        Some(ErrorCode::PA02)
    } else if name == "AM06"@ {
        Some(ErrorCode::AM06)
    } else if name == "AM02"@ {
        Some(ErrorCode::AM02)
    } else if name == "AM03"@ {
        Some(ErrorCode::AM03)
    } else if name == "RP02"@ {
        Some(ErrorCode::RP02)
    } else if name == "RP06"@ {
        Some(ErrorCode::RP06)
    } else if name == "ACMT03"@ {
        Some(ErrorCode::ACMT03)
    } else if name == "ACMT01"@ {
        Some(ErrorCode::ACMT01)
    } else if name == "ACMT07"@ {
        Some(ErrorCode::ACMT07)
    } else if name == "PA01"@ {
        Some(ErrorCode::PA01)
    } else if name == "RF02"@ {
        Some(ErrorCode::RF02)
    } else {
        None
    }
}

impl ErrorCode {
    /// The code that the provider writes as `name`; `None` for any other
    /// text.
    pub fn from_name(name: &str) -> (r: Option<ErrorCode>)
        ensures
            r == code_named(name@),
    {
        if same_text(name, "FF08") {
            Some(ErrorCode::FF08)
        } else if same_text(name, "RP03") {
            Some(ErrorCode::RP03)
        } else if same_text(name, "BE18") {
            Some(ErrorCode::BE18)
        } else if same_text(name, "RP01") {
            Some(ErrorCode::RP01)
        } else if same_text(name, "PA02") {
            Some(ErrorCode::PA02)
        } else if same_text(name, "AM06") {
            Some(ErrorCode::AM06)
        } else if same_text(name, "AM02") {
            Some(ErrorCode::AM02)
        } else if same_text(name, "AM03") {
            Some(ErrorCode::AM03)
        } else if same_text(name, "RP02") {
            Some(ErrorCode::RP02)
        } else if same_text(name, "RP06") {
            Some(ErrorCode::RP06)
        } else if same_text(name, "ACMT03") {
            Some(ErrorCode::ACMT03)
        } else if same_text(name, "ACMT01") {
            Some(ErrorCode::ACMT01)
        } else if same_text(name, "ACMT07") {
            Some(ErrorCode::ACMT07)
        } else if same_text(name, "PA01") {
            Some(ErrorCode::PA01)
        } else if same_text(name, "RF02") {
            Some(ErrorCode::RF02)
        } else {
            None
        }
    }
}

/// One error as the provider reports it, together with the HTTP status of
/// the response that carried it.
#[derive(Debug, Clone)]
pub struct RequestError {
    pub http_status: HttpStatus,
    pub code: Option<ErrorCode>,
    pub message: String,
    pub additional_information: Option<String>,
}

/// The mathematical model of a [`RequestError`].
pub struct RequestErrorView {
    pub http_status: u16,
    pub code: Option<ErrorCode>,
    pub message: Seq<char>,
    pub additional_information: Option<Seq<char>>,
}

impl View for RequestError {
    type V = RequestErrorView;

    open spec fn view(&self) -> RequestErrorView {
        RequestErrorView {
            http_status: self.http_status@,
            code: self.code,
            message: self.message@,
            additional_information: text_view(self.additional_information),
        }
    }
}

/// The code that a JSON value stands for: the known code that it names.
pub open spec fn code_of(value: JsonView) -> Option<ErrorCode> {
    match variant_name(value) {
        Some(name) => code_named(name),
        None => None,
    }
}

/// Reads a place that may hold a code. An absent value and `null` mean that
/// there is none; any other value has to stand for a code. The outer `None`
/// says that the place cannot be read.
pub open spec fn optional_code(slot: Option<JsonView>) -> Option<Option<ErrorCode>> {
    match slot {
        None => Some(None),
        Some(JsonView::Null) => Some(None),
        Some(value) => match code_of(value) {
            Some(code) => Some(Some(code)),
            None => None,
        },
    }
}

/// The error that an entry of a provider payload decodes to, stamped with
/// the status of the response; `None` where the entry is malformed. An
/// entry is a record of three fields: `errorCode`, which may be absent,
/// `errorMessage`, and `additionalInformation`, which may be absent.
pub open spec fn decode_entry(entry: JsonView, status: u16) -> Option<RequestErrorView> {
    let code = optional_code(field(entry, "errorCode"@, 0));
    let message = required_text(field(entry, "errorMessage"@, 1));
    let information = optional_text(field(entry, "additionalInformation"@, 2));
    if is_record(entry, 3) && code is Some && message is Some && information is Some {
        Some(
            RequestErrorView {
                http_status: status,
                code: code->Some_0,
                message: message->Some_0,
                additional_information: information->Some_0,
            },
        )
    } else {
        None
    }
}

/// The model of what an optional result holds.
pub open spec fn error_view(error: Option<RequestError>) -> Option<RequestErrorView> {
    match error {
        Some(error) => Some(error@),
        None => None,
    }
}

fn read_optional_code(slot: Option<&Json>) -> (r: Option<Option<ErrorCode>>)
    ensures
        r == optional_code(slot_view(slot)),
{
    match slot {
        None => Some(None),
        Some(Json::Null) => Some(None),
        Some(value) => {
            let code = match value.variant_name() {
                Some(name) => ErrorCode::from_name(name),
                None => None,
            };
            match code {
                Some(code) => Some(Some(code)),
                None => None,
            }
        },
    }
}

impl RequestError {
    /// Decodes one entry of a provider payload and stamps it with the status
    /// of the response. `None` where the entry is malformed.
    pub fn from_json(entry: &Json, status: HttpStatus) -> (r: Option<RequestError>)
        ensures
            error_view(r) == decode_entry(entry@, status@),
    {
        if !entry.is_record(3) {
            return None;
        }
        let code = read_optional_code(entry.field("errorCode", 0))?;
        let message = read_required_text(entry.field("errorMessage", 1))?;
        let additional_information = read_optional_text(entry.field("additionalInformation", 2))?;
        Some(RequestError { http_status: status, code, message, additional_information })
    }

    /// The error as it is printed: the status line of the response, such as
    /// `422 Unprocessable Entity`.
    pub fn to_string(&self) -> (r: String)
        ensures
            r@ == status_text(self@.http_status),
    {
        self.http_status.to_string()
    }
}

impl Default for RequestError {
    /// Status 200, no code, an empty message and no additional information.
    fn default() -> (r: RequestError)
        ensures
            r@ == (RequestErrorView {
                http_status: 200,
                code: None,
                message: Seq::empty(),
                additional_information: None,
            }),
    {
        RequestError {
            http_status: HttpStatus::default(),
            code: None,
            message: String::new(),
            additional_information: None,
        }
    }
}

#[verifier::external_type_specification]
#[verifier::external_body]
pub struct ExHyperError(hyper::Error);

#[verifier::external_type_specification]
#[verifier::external_body]
pub struct ExInvalidUri(hyper::http::uri::InvalidUri);

#[verifier::external_type_specification]
#[verifier::external_body]
pub struct ExIoError(std::io::Error);

/// Several errors that one call has given rise to.
pub type ErrorCollection = Vec<SwishClientError>;

/// Everything that can go wrong in a call.
#[derive(Debug)]
pub enum SwishClientError {
    /// The provider has rejected the request.
    Swish(RequestError),
    /// A response lacks something that the client has to read from it.
    Parse(String),
    /// The transport has failed.
    Http(hyper::Error),
    /// The address of the request is no URI.
    Uri(hyper::http::uri::InvalidUri),
    /// The certificate material could not be read.
    Io(std::io::Error),
    /// A JSON text could not be written or read.
    Json(serde_json::Error),
    /// The provider has rejected the request with a list of errors, which
    /// may be empty.
    ErrorCollection(ErrorCollection),
}

/// The mathematical model of a [`SwishClientError`].
pub enum SwishClientErrorView {
    Swish(RequestErrorView),
    Parse(Seq<char>),
    Http(hyper::Error),
    Uri(hyper::http::uri::InvalidUri),
    Io(std::io::Error),
    Json(serde_json::Error),
    ErrorCollection(Seq<SwishClientErrorView>),
}

impl View for SwishClientError {
    type V = SwishClientErrorView;

    open spec fn view(&self) -> SwishClientErrorView
        decreases self,
    {
        match self {
            SwishClientError::Swish(error) => SwishClientErrorView::Swish(error@),
            SwishClientError::Parse(reason) => SwishClientErrorView::Parse(reason@),
            SwishClientError::Http(error) => SwishClientErrorView::Http(*error),
            SwishClientError::Uri(error) => SwishClientErrorView::Uri(*error),
            SwishClientError::Io(error) => SwishClientErrorView::Io(*error),
            SwishClientError::Json(error) => SwishClientErrorView::Json(*error),
            SwishClientError::ErrorCollection(errors) => SwishClientErrorView::ErrorCollection(
                Seq::new(
                    errors@.len(),
                    |i: int|
                        if 0 <= i < errors@.len() {
                            errors[i].view()
                        } else {
                            SwishClientErrorView::Parse(Seq::empty())
                        },
                ),
            ),
        }
    }
}

/// The model of a collection, error by error.
pub proof fn lemma_collection_view(errors: Vec<SwishClientError>)
    ensures
        SwishClientError::ErrorCollection(errors)@ is ErrorCollection,
        SwishClientError::ErrorCollection(errors)@->ErrorCollection_0.len() == errors@.len(),
        forall|k: int|
            0 <= k < errors@.len() ==> #[trigger] SwishClientError::ErrorCollection(
                errors,
            )@->ErrorCollection_0[k] == errors@[k]@,
{
    reveal_with_fuel(<SwishClientError as View>::view, 2);
}

impl From<RequestError> for SwishClientError {
    fn from(error: RequestError) -> (r: SwishClientError) {
        SwishClientError::Swish(error)
    }
}

impl vstd::std_specs::convert::FromSpecImpl<RequestError> for SwishClientError {
    open spec fn obeys_from_spec() -> bool {
        true
    }

    open spec fn from_spec(error: RequestError) -> SwishClientError {
        SwishClientError::Swish(error)
    }
}

impl From<ErrorCollection> for SwishClientError {
    fn from(errors: ErrorCollection) -> (r: SwishClientError) {
        SwishClientError::ErrorCollection(errors)
    }
}

impl vstd::std_specs::convert::FromSpecImpl<ErrorCollection> for SwishClientError {
    open spec fn obeys_from_spec() -> bool {
        true
    }

    open spec fn from_spec(errors: ErrorCollection) -> SwishClientError {
        SwishClientError::ErrorCollection(errors)
    }
}

impl From<hyper::Error> for SwishClientError {
    fn from(error: hyper::Error) -> (r: SwishClientError) {
        SwishClientError::Http(error)
    }
}

impl vstd::std_specs::convert::FromSpecImpl<hyper::Error> for SwishClientError {
    open spec fn obeys_from_spec() -> bool {
        true
    }

    open spec fn from_spec(error: hyper::Error) -> SwishClientError {
        SwishClientError::Http(error)
    }
}

impl From<hyper::http::uri::InvalidUri> for SwishClientError {
    fn from(error: hyper::http::uri::InvalidUri) -> (r: SwishClientError) {
        SwishClientError::Uri(error)
    }
}

impl vstd::std_specs::convert::FromSpecImpl<hyper::http::uri::InvalidUri> for SwishClientError {
    open spec fn obeys_from_spec() -> bool {
        true
    }

    open spec fn from_spec(error: hyper::http::uri::InvalidUri) -> SwishClientError {
        SwishClientError::Uri(error)
    }
}

impl From<std::io::Error> for SwishClientError {
    fn from(error: std::io::Error) -> (r: SwishClientError) {
        SwishClientError::Io(error)
    }
}

impl vstd::std_specs::convert::FromSpecImpl<std::io::Error> for SwishClientError {
    open spec fn obeys_from_spec() -> bool {
        true
    }

    open spec fn from_spec(error: std::io::Error) -> SwishClientError {
        SwishClientError::Io(error)
    }
}

impl From<serde_json::Error> for SwishClientError {
    fn from(error: serde_json::Error) -> (r: SwishClientError) {
        SwishClientError::Json(error)
    }
}

impl vstd::std_specs::convert::FromSpecImpl<serde_json::Error> for SwishClientError {
    open spec fn obeys_from_spec() -> bool {
        true
    }

    open spec fn from_spec(error: serde_json::Error) -> SwishClientError {
        SwishClientError::Json(error)
    }
}

/// What every printed error starts with: a colon and a space.
pub open spec fn text_prefix() -> Seq<char> {
    seq![':', ' ']
}

/// What closes each entry of a printed collection: a comma and a space.
pub open spec fn text_separator() -> Seq<char> {
    seq![',', ' ']
}

/// The text that an error is printed as: the prefix, and then the status
/// line of a provider error, the reason of a parse error, or the texts of
/// the errors of a collection, each closed by the separator. `None` where
/// an error of `hyper`, `serde_json` or the standard library is part of it,
/// whose text is that error's own.
pub open spec fn error_text(error: SwishClientErrorView) -> Option<Seq<char>>
    decreases error, 0nat,
{
    match error {
        SwishClientErrorView::Swish(error) => Some(
            text_prefix() + status_text(error.http_status),
        ),
        SwishClientErrorView::Parse(reason) => Some(text_prefix() + reason),
        SwishClientErrorView::ErrorCollection(errors) => match listed_text(errors) {
            Some(listed) => Some(text_prefix() + listed),
            None => None,
        },
        _ => None,
    }
}

/// The texts of the errors of a sequence, each closed by the separator.
pub open spec fn listed_text(errors: Seq<SwishClientErrorView>) -> Option<Seq<char>>
    decreases errors, errors.len(),
{
    if errors.len() == 0 {
        Some(Seq::empty())
    } else {
        match (listed_text(errors.drop_last()), error_text(errors.last())) {
            (Some(before), Some(text)) => Some(before + text + text_separator()),
            _ => None,
        }
    }
}

impl SwishClientError {
    /// The error as it is printed. Where [`error_text`] gives a text, this
    /// is it; in every case the text starts with the prefix.
    pub fn to_string(&self) -> (r: String)
        ensures
            error_text(self@) matches Some(text) ==> r@ == text,
            r@.len() >= 2,
            r@.take(2) == text_prefix(),
        decreases self,
    {
        let mut text = String::from_str(": ");
        proof {
            reveal_strlit(": ");
            assert(text@ == text_prefix());
        }
        match self {
            SwishClientError::Swish(error) => {
                text.append(error.to_string().as_str());
            },
            SwishClientError::Parse(reason) => {
                text.append(reason.as_str());
            },
            SwishClientError::Http(error) => {
                text.append(error.to_string().as_str());
            },
            SwishClientError::Uri(error) => {
                text.append(error.to_string().as_str());
            },
            SwishClientError::Io(error) => {
                text.append(error.to_string().as_str());
            },
            SwishClientError::Json(error) => {
                text.append(error.to_string().as_str());
            },
            SwishClientError::ErrorCollection(errors) => {
                let ghost all = self@->ErrorCollection_0;
                proof {
                    lemma_collection_view(*errors);
                }
                let mut i: usize = 0;
                while i < errors.len()
                    invariant
                        i <= errors.len(),
                        all.len() == errors@.len(),
                        forall|k: int| 0 <= k < all.len() ==> all[k] == #[trigger] errors@[k]@,
                        forall|k: int|
                            0 <= k < errors@.len() ==> decreases_to!(self => #[trigger] errors@[k]),
                        text@.len() >= 2,
                        text@.take(2) == text_prefix(),
                        listed_text(all.take(i as int)) matches Some(listed) ==> text@
                            == text_prefix() + listed,
                    decreases errors.len() - i,
                {
                    assert(all.take(i + 1).drop_last() == all.take(i as int));
                    assert(all.take(i + 1).last() == all[i as int]);
                    let ghost before = text@;
                    let entry = errors[i].to_string();
                    text.append(entry.as_str());
                    text.append(", ");
                    proof {
                        reveal_strlit(", ");
                        assert(text@ == before + entry@ + text_separator());
                        assert(text@.take(2) == before.take(2));
                        if listed_text(all.take(i + 1)) is Some {
                            let listed = listed_text(all.take(i as int))->Some_0;
                            assert(text@ == text_prefix() + (listed + entry@ + text_separator()));
                        }
                    }
                    i += 1;
                }
                assert(all.take(i as int) == all);
            },
        }
        text
    }
}

} // verus!
