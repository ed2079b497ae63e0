//! Reading the outcome of a call from the response that came back.
//!
//! A call that creates a resource is answered in the headers: the location
//! of the resource, whose last segment is its identifier, and for a payment
//! a token. A call that fetches a resource is answered in the body, a JSON
//! record. Either way a failed answer gives the error that it stands for.

use crate::client::{
    currency_named, status_named, CreatedPayment, CreatedPaymentView, CreatedRefund,
    CreatedRefundView, Currency, Payment, PaymentView, Refund, RefundView, Status,
};
use crate::decode::{
    field, is_record, optional_text, read_optional_text, read_required_number,
    read_required_text, required_number, required_text, slot_view, text_view, variant_name,
};
use crate::error::{SwishClientError, SwishClientErrorView};
use crate::headers::{
    header_text, header_values, last_segment, lemma_last_segment_after_slash, locate,
    location_name, resource_id, token_name,
};
use crate::json::{decode_error, json_parse, parse_text, Json, JsonView};
use crate::response::{classify_response, failed, failure_of};
use crate::status::HttpStatus;
use vstd::prelude::*;
use vstd::string::*;

verus! {

/// What a parse error says where a response lacks the location of the
/// resource that the call has created.
pub const MISSING_LOCATION: &'static str = "could not find resource location";

/// The payment that a successful answer speaks of, given the location and
/// the token that its headers hold. The identifier of the payment is the
/// last segment of its location. Without a location there is no payment
/// but a parse error.
pub open spec fn payment_at(
    location: Option<Seq<char>>,
    request_token: Option<Seq<char>>,
) -> Result<CreatedPaymentView, SwishClientErrorView> {
    match location {
        Some(location) => Ok(
            CreatedPaymentView { id: last_segment(location), location, request_token },
        ),
        None => Err(SwishClientErrorView::Parse(MISSING_LOCATION@)),
    }
}

/// The refund that a successful answer speaks of, given the location that
/// its headers hold. The identifier of the refund is the last segment of
/// its location. Without a location there is no refund but a parse error.
pub open spec fn refund_at(location: Option<Seq<char>>) -> Result<
    CreatedRefundView,
    SwishClientErrorView,
> {
    match location {
        Some(location) => Ok(CreatedRefundView { id: last_segment(location), location }),
        None => Err(SwishClientErrorView::Parse(MISSING_LOCATION@)),
    }
}

/// The outcome of a call that creates a payment, read from the response.
/// A failed answer gives the error that it stands for. A successful one
/// gives the payment at the location that the `location` header holds,
/// with the token that the `paymentrequesttoken` header holds.
pub open spec fn created_payment(
    status: u16,
    headers: Map<Seq<char>, Seq<Seq<u8>>>,
    body: Seq<char>,
) -> Result<CreatedPaymentView, SwishClientErrorView> {
    match failure_of(status, body) {
        Some(error) => Err(error),
        None => payment_at(
            header_text(headers, location_name()),
            header_text(headers, token_name()),
        ),
    }
}

/// The outcome of a call that creates a refund, read from the response: as
/// for a payment, but for the token, which a refund does not have.
pub open spec fn created_refund(
    status: u16,
    headers: Map<Seq<char>, Seq<Seq<u8>>>,
    body: Seq<char>,
) -> Result<CreatedRefundView, SwishClientErrorView> {
    match failure_of(status, body) {
        Some(error) => Err(error),
        None => refund_at(header_text(headers, location_name())),
    }
}

/// The model of the outcome of a call that creates a payment.
pub open spec fn created_payment_view(outcome: Result<CreatedPayment, SwishClientError>) -> Result<
    CreatedPaymentView,
    SwishClientErrorView,
> {
    match outcome {
        Ok(payment) => Ok(payment@),
        Err(error) => Err(error@),
    }
}

/// The model of the outcome of a call that creates a refund.
pub open spec fn created_refund_view(outcome: Result<CreatedRefund, SwishClientError>) -> Result<
    CreatedRefundView,
    SwishClientErrorView,
> {
    match outcome {
        Ok(refund) => Ok(refund@),
        Err(error) => Err(error@),
    }
}

impl CreatedPayment {
    /// The payment that a successful answer speaks of, given the location
    /// and the token that its headers hold.
    pub fn from_location(location: Option<String>, request_token: Option<String>) -> (r: Result<
        CreatedPayment,
        SwishClientError,
    >)
        ensures
            created_payment_view(r) == payment_at(text_view(location), text_view(request_token)),
    {
        match location {
            Some(location) => {
                let id = resource_id(location.as_str());
                Ok(CreatedPayment { id, location, request_token })
            },
            None => Err(SwishClientError::Parse(String::from_str(MISSING_LOCATION))),
        }
    }

    /// Reads the outcome of a call that creates a payment from the status,
    /// the headers and the body of the response.
    pub fn from_response(
        status: HttpStatus,
        headers: hyper::HeaderMap<hyper::header::HeaderValue>,
        body: &str,
    ) -> (r: Result<CreatedPayment, SwishClientError>)
        ensures
            created_payment_view(r) == created_payment(status@, header_values(headers), body@),
    {
        let (_, headers) = match classify_response(status, headers, body) {
            Ok(passed) => passed,
            Err(error) => {
                return Err(error);
            },
        };
        let (location, request_token) = locate(&headers);
        CreatedPayment::from_location(location, request_token)
    }
}

impl CreatedRefund {
    /// The refund that a successful answer speaks of, given the location
    /// that its headers hold.
    pub fn from_location(location: Option<String>) -> (r: Result<CreatedRefund, SwishClientError>)
        ensures
            created_refund_view(r) == refund_at(text_view(location)),
    {
        match location {
            Some(location) => {
                let id = resource_id(location.as_str());
                Ok(CreatedRefund { id, location })
            },
            None => Err(SwishClientError::Parse(String::from_str(MISSING_LOCATION))),
        }
    }

    /// Reads the outcome of a call that creates a refund from the status,
    /// the headers and the body of the response.
    pub fn from_response(
        status: HttpStatus,
        headers: hyper::HeaderMap<hyper::header::HeaderValue>,
        body: &str,
    ) -> (r: Result<CreatedRefund, SwishClientError>)
        ensures
            created_refund_view(r) == created_refund(status@, header_values(headers), body@),
    {
        let (_, headers) = match classify_response(status, headers, body) {
            Ok(passed) => passed,
            Err(error) => {
                return Err(error);
            },
        };
        let (location, _) = locate(&headers);
        CreatedRefund::from_location(location)
    }
}

/// A successful answer without a location is a parse error, for a payment
/// and for a refund, whatever else the answer holds.
pub proof fn lemma_missing_location(
    status: u16,
    headers: Map<Seq<char>, Seq<Seq<u8>>>,
    body: Seq<char>,
)
    requires
        200 <= status < 300,
        header_text(headers, location_name()) is None,
    ensures
        created_payment(status, headers, body) == Err::<CreatedPaymentView, SwishClientErrorView>(
            SwishClientErrorView::Parse(MISSING_LOCATION@),
        ),
        created_refund(status, headers, body) == Err::<CreatedRefundView, SwishClientErrorView>(
            SwishClientErrorView::Parse(MISSING_LOCATION@),
        ),
{
}

/// A successful answer whose location ends in a `/` and an identifier gives
/// the payment with that identifier, the whole location and the token of
/// the answer.
pub proof fn lemma_created_payment(
    status: u16,
    headers: Map<Seq<char>, Seq<Seq<u8>>>,
    body: Seq<char>,
    head: Seq<char>,
    id: Seq<char>,
)
    requires
        200 <= status < 300,
        header_text(headers, location_name()) == Some(head + seq!['/'] + id),
        forall|i: int| 0 <= i < id.len() ==> id[i] != '/',
    ensures
        created_payment(status, headers, body) == Ok::<CreatedPaymentView, SwishClientErrorView>(
            CreatedPaymentView {
                id,
                location: head + seq!['/'] + id,
                request_token: header_text(headers, token_name()),
            },
        ),
{
    lemma_last_segment_after_slash(head, id);
}

/// A failed answer gives the error that it stands for, whatever its
/// headers hold.
pub proof fn lemma_failure_passed_on(
    status: u16,
    headers: Map<Seq<char>, Seq<Seq<u8>>>,
    body: Seq<char>,
)
    requires
        !(200 <= status < 300),
    ensures
        failure_of(status, body) is Some,
        created_payment(status, headers, body) == Err::<CreatedPaymentView, SwishClientErrorView>(
            failure_of(status, body)->Some_0,
        ),
        created_refund(status, headers, body) == Err::<CreatedRefundView, SwishClientErrorView>(
            failure_of(status, body)->Some_0,
        ),
{
}

/// Reads a place that may hold a status. An absent value and `null` mean
/// that there is none; any other value has to name a status. The outer
/// `None` says that the place cannot be read.
pub open spec fn optional_status(slot: Option<JsonView>) -> Option<Option<Status>> {
    match slot {
        None => Some(None),
        Some(JsonView::Null) => Some(None),
        Some(value) => match variant_name(value) {
            Some(name) => match status_named(name) {
                Some(status) => Some(Some(status)),
                None => None,
            },
            None => None,
        },
    }
}

/// Reads a place that has to hold a currency: a value that names one.
pub open spec fn required_currency(slot: Option<JsonView>) -> Option<Currency> {
    match slot {
        Some(value) => match variant_name(value) {
            Some(name) => currency_named(name),
            None => None,
        },
        None => None,
    }
}

/// The payment that a document decodes to; `None` where the document is no
/// payment. A payment is a record of thirteen fields, of which `id`,
/// `amount`, `dateCreated` and `currency` have to be there.
pub open spec fn decode_payment(document: JsonView) -> Option<PaymentView> {
    let id = required_text(field(document, "id"@, 0));
    let amount = required_number(field(document, "amount"@, 1));
    let payee_payment_reference = optional_text(field(document, "payeePaymentReference"@, 2));
    let payment_reference = optional_text(field(document, "paymentReference"@, 3));
    let payer_alias = optional_text(field(document, "payerAlias"@, 4));
    let payee_alias = optional_text(field(document, "payeeAlias"@, 5));
    let message = optional_text(field(document, "message"@, 6));
    let status = optional_status(field(document, "status"@, 7));
    let date_created = required_text(field(document, "dateCreated"@, 8));
    let currency = required_currency(field(document, "currency"@, 9));
    let date_paid = optional_text(field(document, "datePaid"@, 10));
    let error_code = optional_text(field(document, "errorCode"@, 11));
    let error_message = optional_text(field(document, "errorMessage"@, 12));
    if is_record(document, 13) && id is Some && amount is Some && payee_payment_reference is Some
        && payment_reference is Some && payer_alias is Some && payee_alias is Some && message
        is Some && status is Some && date_created is Some && currency is Some && date_paid
        is Some && error_code is Some && error_message is Some {
        Some(
            PaymentView {
                id: id->Some_0,
                amount: amount->Some_0,
                payee_payment_reference: payee_payment_reference->Some_0,
                payment_reference: payment_reference->Some_0,
                payer_alias: payer_alias->Some_0,
                payee_alias: payee_alias->Some_0,
                message: message->Some_0,
                status: status->Some_0,
                date_created: date_created->Some_0,
                currency: currency->Some_0,
                date_paid: date_paid->Some_0,
                error_code: error_code->Some_0,
                error_message: error_message->Some_0,
            },
        )
    } else {
        None
    }
}

/// The refund that a document decodes to; `None` where the document is no
/// refund. A refund is a record of fourteen fields, of which `id`,
/// `amount`, `dateCreated` and `currency` have to be there.
pub open spec fn decode_refund(document: JsonView) -> Option<RefundView> {
    let id = required_text(field(document, "id"@, 0));
    let amount = required_number(field(document, "amount"@, 1));
    let payer_payment_reference = optional_text(field(document, "payerPaymentReference"@, 2));
    let original_payment_reference = optional_text(
        field(document, "originalpaymentReference"@, 3),
    );
    let payer_alias = optional_text(field(document, "payerAlias"@, 4));
    let payee_alias = optional_text(field(document, "payeeAlias"@, 5));
    let message = optional_text(field(document, "message"@, 6));
    let status = optional_status(field(document, "status"@, 7));
    let date_created = required_text(field(document, "dateCreated"@, 8));
    let currency = required_currency(field(document, "currency"@, 9));
    let date_paid = optional_text(field(document, "datePaid"@, 10));
    let error_code = optional_text(field(document, "errorCode"@, 11));
    let error_message = optional_text(field(document, "errorMessage"@, 12));
    let additional_information = optional_text(field(document, "additionalInformation"@, 13));
    if is_record(document, 14) && id is Some && amount is Some && payer_payment_reference is Some
        && original_payment_reference is Some && payer_alias is Some && payee_alias is Some
        && message is Some && status is Some && date_created is Some && currency is Some
        && date_paid is Some && error_code is Some && error_message is Some
        && additional_information is Some {
        Some(
            RefundView {
                id: id->Some_0,
                amount: amount->Some_0,
                payer_payment_reference: payer_payment_reference->Some_0,
                original_payment_reference: original_payment_reference->Some_0,
                payer_alias: payer_alias->Some_0,
                payee_alias: payee_alias->Some_0,
                message: message->Some_0,
                status: status->Some_0,
                date_created: date_created->Some_0,
                currency: currency->Some_0,
                date_paid: date_paid->Some_0,
                error_code: error_code->Some_0,
                error_message: error_message->Some_0,
                additional_information: additional_information->Some_0,
            },
        )
    } else {
        None
    }
}

fn read_optional_status(slot: Option<&Json>) -> (r: Option<Option<Status>>)
    ensures
        r == optional_status(slot_view(slot)),
{
    match slot {
        None => Some(None),
        Some(Json::Null) => Some(None),
        Some(value) => {
            let status = match value.variant_name() {
                Some(name) => Status::from_name(name),
                None => None,
            };
            match status {
                Some(status) => Some(Some(status)),
                None => None,
            }
        },
    }
}

fn read_required_currency(slot: Option<&Json>) -> (r: Option<Currency>)
    ensures
        r == required_currency(slot_view(slot)),
{
    match slot {
        Some(value) => match value.variant_name() {
            Some(name) => Currency::from_name(name),
            None => None,
        },
        None => None,
    }
}

/// The model of an optional payment.
pub open spec fn payment_view(payment: Option<Payment>) -> Option<PaymentView> {
    match payment {
        Some(payment) => Some(payment@),
        None => None,
    }
}

/// The model of an optional refund.
pub open spec fn refund_view(refund: Option<Refund>) -> Option<RefundView> {
    match refund {
        Some(refund) => Some(refund@),
        None => None,
    }
}

/// What the error says where the body of a response is no payment.
pub const NO_PAYMENT: &'static str = "the document is no payment";

/// What the error says where the body of a response is no refund.
pub const NO_REFUND: &'static str = "the document is no refund";

/// What the body of a response decodes to as a payment.
pub open spec fn payment_in(body: Seq<char>) -> Option<PaymentView> {
    match json_parse(body) {
        Ok(document) => decode_payment(document),
        Err(_) => None,
    }
}

/// What the body of a response decodes to as a refund.
pub open spec fn refund_in(body: Seq<char>) -> Option<RefundView> {
    match json_parse(body) {
        Ok(document) => decode_refund(document),
        Err(_) => None,
    }
}

impl Payment {
    /// Decodes a payment. `None` where the document is no payment.
    pub fn from_json(document: &Json) -> (r: Option<Payment>)
        ensures
            payment_view(r) == decode_payment(document@),
    {
        if !document.is_record(13) {
            return None;
        }
        let id = read_required_text(document.field("id", 0))?;
        let amount = read_required_number(document.field("amount", 1))?;
        let payee_payment_reference = read_optional_text(
            document.field("payeePaymentReference", 2),
        )?;
        let payment_reference = read_optional_text(document.field("paymentReference", 3))?;
        let payer_alias = read_optional_text(document.field("payerAlias", 4))?;
        let payee_alias = read_optional_text(document.field("payeeAlias", 5))?;
        let message = read_optional_text(document.field("message", 6))?;
        let status = read_optional_status(document.field("status", 7))?;
        let date_created = read_required_text(document.field("dateCreated", 8))?;
        let currency = read_required_currency(document.field("currency", 9))?;
        let date_paid = read_optional_text(document.field("datePaid", 10))?;
        let error_code = read_optional_text(document.field("errorCode", 11))?;
        let error_message = read_optional_text(document.field("errorMessage", 12))?;
        Some(
            Payment {
                id,
                amount,
                payee_payment_reference,
                payment_reference,
                payer_alias,
                payee_alias,
                message,
                status,
                date_created,
                currency,
                date_paid,
                error_code,
                error_message,
            },
        )
    }

    /// Reads the outcome of a call that fetches a payment from the status
    /// and the body of the response.
    pub fn from_response(status: HttpStatus, body: &str) -> (r: Result<Payment, SwishClientError>)
        ensures
            match r {
                Ok(payment) => failure_of(status@, body@) is None && payment_in(body@) == Some(
                    payment@,
                ),
                Err(error) => match failure_of(status@, body@) {
                    Some(failure) => error@ == failure,
                    None => error is Json && payment_in(body@) is None,
                },
            },
    {
        match failed(status, body) {
            Some(error) => {
                return Err(error);
            },
            None => {},
        }
        let document = match parse_text(body) {
            Ok(document) => document,
            Err((error, _)) => {
                return Err(SwishClientError::Json(error));
            },
        };
        match Payment::from_json(&document) {
            Some(payment) => Ok(payment),
            None => Err(SwishClientError::Json(decode_error(NO_PAYMENT))),
        }
    }
}

impl Refund {
    /// Decodes a refund. `None` where the document is no refund.
    pub fn from_json(document: &Json) -> (r: Option<Refund>)
        ensures
            refund_view(r) == decode_refund(document@),
    {
        if !document.is_record(14) {
            return None;
        }
        let id = read_required_text(document.field("id", 0))?;
        let amount = read_required_number(document.field("amount", 1))?;
        let payer_payment_reference = read_optional_text(
            document.field("payerPaymentReference", 2),
        )?;
        let original_payment_reference = read_optional_text(
            document.field("originalpaymentReference", 3),
        )?;
        let payer_alias = read_optional_text(document.field("payerAlias", 4))?;
        let payee_alias = read_optional_text(document.field("payeeAlias", 5))?;
        let message = read_optional_text(document.field("message", 6))?;
        let status = read_optional_status(document.field("status", 7))?;
        let date_created = read_required_text(document.field("dateCreated", 8))?;
        let currency = read_required_currency(document.field("currency", 9))?;
        let date_paid = read_optional_text(document.field("datePaid", 10))?;
        let error_code = read_optional_text(document.field("errorCode", 11))?;
        let error_message = read_optional_text(document.field("errorMessage", 12))?;
        let additional_information = read_optional_text(
            document.field("additionalInformation", 13),
        )?;
        Some(
            Refund {
                id,
                amount,
                payer_payment_reference,
                original_payment_reference,
                payer_alias,
                payee_alias,
                message,
                status,
                date_created,
                currency,
                date_paid,
                error_code,
                error_message,
                additional_information,
            },
        )
    }

    /// Reads the outcome of a call that fetches a refund from the status
    /// and the body of the response.
    pub fn from_response(status: HttpStatus, body: &str) -> (r: Result<Refund, SwishClientError>)
        ensures
            match r {
                Ok(refund) => failure_of(status@, body@) is None && refund_in(body@) == Some(
                    refund@,
                ),
                Err(error) => match failure_of(status@, body@) {
                    Some(failure) => error@ == failure,
                    None => error is Json && refund_in(body@) is None,
                },
            },
    {
        match failed(status, body) {
            Some(error) => {
                return Err(error);
            },
            None => {},
        }
        let document = match parse_text(body) {
            Ok(document) => document,
            Err((error, _)) => {
                return Err(SwishClientError::Json(error));
            },
        };
        match Refund::from_json(&document) {
            Some(refund) => Ok(refund),
            None => Err(SwishClientError::Json(decode_error(NO_REFUND))),
        }
    }
}

} // verus!
