//! # The SwishClient
//!
//! This is the client that's used to make calls to the Swish API.
//!
//! The client does no I/O of its own. For each call it gives the request to
//! send; the outcome of the call is read from the response that came back,
//! by the type that the call results in.

use crate::decode::text_view;
use crate::encode::{payment_members, refund_members, with_payee, with_payer};
use crate::error::SwishClientError;
use crate::json::{number_of_u64, same_text, whole_number, Json, JsonView};
use crate::request::{build_request, built, ApiRequest};
use vstd::prelude::*;
use vstd::string::*;

verus! {

/// The address that every call goes to, up to the path of the call.
pub const SWISH_API_URL: &'static str = "https://mss.cpc.getswish.net/swish-cpcapi/api/v1/";

/// The client used to make call to the Swish API.
#[derive(Debug)]
pub struct SwishClient {
    merchant_swish_number: String,
    swish_api_url: String,
    passphrase: String,
    cert_path: String,
    root_cert_path: String,
}

/// The currency the Swish API supports.
#[derive(Debug, Clone, Copy, PartialEq, Eq)]
pub enum Currency {
    /// SEK is currently the only currency supported at Swish.
    SEK,
}

/// The name that a currency goes by in a request.
pub open spec fn currency_name(currency: Currency) -> Seq<char> {
    match currency {
        Currency::SEK => "SEK"@,
    }
}

impl Currency {
    /// The name that the currency goes by in a request.
    pub fn name(&self) -> (r: &'static str)
        ensures
            r@ == currency_name(*self),
    {
        match self {
            Currency::SEK => "SEK",
        }
    }

    /// The currency that goes by `name`; `None` for any other text.
    pub fn from_name(name: &str) -> (r: Option<Currency>)
        ensures
            r == currency_named(name@),
    {
        if same_text(name, "SEK") {
            Some(Currency::SEK)
        } else {
            None
        }
    }
}

impl Default for Currency {
    fn default() -> (r: Currency)
        ensures
            r == Currency::SEK,
    {
        Currency::SEK
    }
}

/// The currency that goes by a name, where there is one.
pub open spec fn currency_named(name: Seq<char>) -> Option<Currency> {
    if name == "SEK"@ {
        Some(Currency::SEK)
    } else {
        None
    }
}

/// The status of an operation.
#[derive(Debug, Clone, Copy, PartialEq, Eq)]
pub enum Status {
    Created,
    Paid,
    Error,
    Validated,
    Initiated,
}

/// The status that the provider writes as `name`, where there is one.
pub open spec fn status_named(name: Seq<char>) -> Option<Status> {
    if name == "CREATED"@ {
        Some(Status::Created)
    } else if name == "PAID"@ {
        Some(Status::Paid)
    } else if name == "ERROR"@ {
        Some(Status::Error)
    } else if name == "VALIDATED"@ {
        Some(Status::Validated)
    } else if name == "INITIATED"@ {
        Some(Status::Initiated)
    } else {
        None
    }
}

impl Status {
    /// The status that the provider writes as `name`; `None` for any other
    /// text.
    pub fn from_name(name: &str) -> (r: Option<Status>)
        ensures
            r == status_named(name@),
    {
        if same_text(name, "CREATED") {
            Some(Status::Created)
        } else if same_text(name, "PAID") {
            Some(Status::Paid)
        } else if same_text(name, "ERROR") {
            Some(Status::Error)
        } else if same_text(name, "VALIDATED") {
            Some(Status::Validated)
        } else if same_text(name, "INITIATED") {
            Some(Status::Initiated)
        } else {
            None
        }
    }
}

/// This is what will be returned when a payment is
/// successfully created at Swish.
#[derive(Debug)]
pub struct CreatedPayment {
    pub id: String,
    pub location: String,
    pub request_token: Option<String>,
}

/// The mathematical model of a [`CreatedPayment`].
pub struct CreatedPaymentView {
    pub id: Seq<char>,
    pub location: Seq<char>,
    pub request_token: Option<Seq<char>>,
}

impl View for CreatedPayment {
    type V = CreatedPaymentView;

    open spec fn view(&self) -> CreatedPaymentView {
        CreatedPaymentView {
            id: self.id@,
            location: self.location@,
            request_token: text_view(self.request_token),
        }
    }
}

/// This will be returned when a refund
/// is successfully created.
#[derive(Debug)]
pub struct CreatedRefund {
    pub id: String,
    pub location: String,
}

/// The mathematical model of a [`CreatedRefund`].
pub struct CreatedRefundView {
    pub id: Seq<char>,
    pub location: Seq<char>,
}

impl View for CreatedRefund {
    type V = CreatedRefundView;

    open spec fn view(&self) -> CreatedRefundView {
        CreatedRefundView { id: self.id@, location: self.location@ }
    }
}

/// This is all the data that's returned from the
/// Swish API when fetching a payment.
#[derive(Debug, Clone)]
pub struct Payment {
    pub id: String,
    pub amount: serde_json::Number,
    pub payee_payment_reference: Option<String>,
    pub payment_reference: Option<String>,
    pub payer_alias: Option<String>,
    pub payee_alias: Option<String>,
    pub message: Option<String>,
    pub status: Option<Status>,
    pub date_created: String,
    pub currency: Currency,
    pub date_paid: Option<String>,
    // Errors can occur
    pub error_code: Option<String>,
    pub error_message: Option<String>,
}

/// The mathematical model of a [`Payment`].
pub struct PaymentView {
    pub id: Seq<char>,
    pub amount: serde_json::Number,
    pub payee_payment_reference: Option<Seq<char>>,
    pub payment_reference: Option<Seq<char>>,
    pub payer_alias: Option<Seq<char>>,
    pub payee_alias: Option<Seq<char>>,
    pub message: Option<Seq<char>>,
    pub status: Option<Status>,
    pub date_created: Seq<char>,
    pub currency: Currency,
    pub date_paid: Option<Seq<char>>,
    pub error_code: Option<Seq<char>>,
    pub error_message: Option<Seq<char>>,
}

impl View for Payment {
    type V = PaymentView;

    open spec fn view(&self) -> PaymentView {
        PaymentView {
            id: self.id@,
            amount: self.amount,
            payee_payment_reference: text_view(self.payee_payment_reference),
            payment_reference: text_view(self.payment_reference),
            payer_alias: text_view(self.payer_alias),
            payee_alias: text_view(self.payee_alias),
            message: text_view(self.message),
            status: self.status,
            date_created: self.date_created@,
            currency: self.currency,
            date_paid: text_view(self.date_paid),
            error_code: text_view(self.error_code),
            error_message: text_view(self.error_message),
        }
    }
}

/// This is all the data that's returned
/// from the Swish API when fetching a refund.
#[derive(Debug, Clone)]
pub struct Refund {
    pub id: String,
    pub amount: serde_json::Number,
    pub payer_payment_reference: Option<String>,
    pub original_payment_reference: Option<String>,
    pub payer_alias: Option<String>,
    pub payee_alias: Option<String>,
    pub message: Option<String>,
    pub status: Option<Status>,
    pub date_created: String,
    pub currency: Currency,
    pub date_paid: Option<String>,
    // Errors can occur
    pub error_code: Option<String>,
    pub error_message: Option<String>,
    pub additional_information: Option<String>,
}

/// The mathematical model of a [`Refund`].
pub struct RefundView {
    pub id: Seq<char>,
    pub amount: serde_json::Number,
    pub payer_payment_reference: Option<Seq<char>>,
    pub original_payment_reference: Option<Seq<char>>,
    pub payer_alias: Option<Seq<char>>,
    pub payee_alias: Option<Seq<char>>,
    pub message: Option<Seq<char>>,
    pub status: Option<Status>,
    pub date_created: Seq<char>,
    pub currency: Currency,
    pub date_paid: Option<Seq<char>>,
    pub error_code: Option<Seq<char>>,
    pub error_message: Option<Seq<char>>,
    pub additional_information: Option<Seq<char>>,
}

impl View for Refund {
    type V = RefundView;

    open spec fn view(&self) -> RefundView {
        RefundView {
            id: self.id@,
            amount: self.amount,
            payer_payment_reference: text_view(self.payer_payment_reference),
            original_payment_reference: text_view(self.original_payment_reference),
            payer_alias: text_view(self.payer_alias),
            payee_alias: text_view(self.payee_alias),
            message: text_view(self.message),
            status: self.status,
            date_created: self.date_created@,
            currency: self.currency,
            date_paid: text_view(self.date_paid),
            error_code: text_view(self.error_code),
            error_message: text_view(self.error_message),
            additional_information: text_view(self.additional_information),
        }
    }
}

/// Params used to create a new payment.
#[derive(Debug)]
pub struct PaymentParams<'a> {
    pub payee_payment_reference: Option<&'a str>,
    pub payer_alias: Option<&'a str>,
    pub payee_alias: &'a str,
    pub amount: serde_json::Number,
    pub currency: Currency,
    pub message: Option<&'a str>,
    pub callback_url: &'a str,
}

/// The mathematical model of [`PaymentParams`].
pub struct PaymentParamsView {
    pub payee_payment_reference: Option<Seq<char>>,
    pub payer_alias: Option<Seq<char>>,
    pub payee_alias: Seq<char>,
    pub amount: serde_json::Number,
    pub currency: Currency,
    pub message: Option<Seq<char>>,
    pub callback_url: Seq<char>,
}

/// The model of an optional text.
pub open spec fn slice_view(text: Option<&str>) -> Option<Seq<char>> {
    match text {
        Some(text) => Some(text@),
        None => None,
    }
}

impl<'a> View for PaymentParams<'a> {
    type V = PaymentParamsView;

    open spec fn view(&self) -> PaymentParamsView {
        PaymentParamsView {
            payee_payment_reference: slice_view(self.payee_payment_reference),
            payer_alias: slice_view(self.payer_alias),
            payee_alias: self.payee_alias@,
            amount: self.amount,
            currency: self.currency,
            message: slice_view(self.message),
            callback_url: self.callback_url@,
        }
    }
}

/// Params used to create a new refund.
#[derive(Debug)]
pub struct RefundParams<'a> {
    pub payer_payment_reference: Option<&'a str>,
    pub original_payment_reference: &'a str,
    pub payment_reference: Option<&'a str>,
    pub payer_alias: &'a str,
    pub payee_alias: &'a str,
    pub amount: serde_json::Number,
    pub currency: Currency,
    pub message: Option<&'a str>,
    pub callback_url: &'a str,
}

/// The mathematical model of [`RefundParams`].
pub struct RefundParamsView {
    pub payer_payment_reference: Option<Seq<char>>,
    pub original_payment_reference: Seq<char>,
    pub payment_reference: Option<Seq<char>>,
    pub payer_alias: Seq<char>,
    pub payee_alias: Seq<char>,
    pub amount: serde_json::Number,
    pub currency: Currency,
    pub message: Option<Seq<char>>,
    pub callback_url: Seq<char>,
}

impl<'a> View for RefundParams<'a> {
    type V = RefundParamsView;

    open spec fn view(&self) -> RefundParamsView {
        RefundParamsView {
            payer_payment_reference: slice_view(self.payer_payment_reference),
            original_payment_reference: self.original_payment_reference@,
            payment_reference: slice_view(self.payment_reference),
            payer_alias: self.payer_alias@,
            payee_alias: self.payee_alias@,
            amount: self.amount,
            currency: self.currency,
            message: slice_view(self.message),
            callback_url: self.callback_url@,
        }
    }
}

impl<'a> Default for PaymentParams<'a> {
    /// No references, aliases or message, an empty callback address, the
    /// amount zero and the one currency there is.
    fn default() -> (r: PaymentParams<'a>)
        ensures
            r@ == (PaymentParamsView {
                payee_payment_reference: None,
                payer_alias: None,
                payee_alias: Seq::empty(),
                amount: number_of_u64(0),
                currency: Currency::SEK,
                message: None,
                callback_url: Seq::empty(),
            }),
    {
        proof {
            reveal_strlit("");
            assert(""@ =~= Seq::<char>::empty());
        }
        PaymentParams {
            payee_payment_reference: None,
            payer_alias: None,
            payee_alias: "",
            amount: whole_number(0),
            currency: Currency::SEK,
            message: None,
            callback_url: "",
        }
    }
}

impl<'a> Default for RefundParams<'a> {
    /// No optional references or message, empty texts elsewhere, the amount
    /// zero and the one currency there is.
    fn default() -> (r: RefundParams<'a>)
        ensures
            r@ == (RefundParamsView {
                payer_payment_reference: None,
                original_payment_reference: Seq::empty(),
                payment_reference: None,
                payer_alias: Seq::empty(),
                payee_alias: Seq::empty(),
                amount: number_of_u64(0),
                currency: Currency::SEK,
                message: None,
                callback_url: Seq::empty(),
            }),
    {
        proof {
            reveal_strlit("");
            assert(""@ =~= Seq::<char>::empty());
        }
        RefundParams {
            payer_payment_reference: None,
            original_payment_reference: "",
            payment_reference: None,
            payer_alias: "",
            payee_alias: "",
            amount: whole_number(0),
            currency: Currency::SEK,
            message: None,
            callback_url: "",
        }
    }
}

impl SwishClient {
    /// The merchant's Swish number, which receives the payments.
    pub closed spec fn merchant(&self) -> Seq<char> {
        self.merchant_swish_number@
    }

    /// The address that the calls go to, up to the path of a call.
    pub closed spec fn api_url(&self) -> Seq<char> {
        self.swish_api_url@
    }

    /// The path to the certificate, the path to the root certificate and
    /// the passphrase to the certificate.
    pub closed spec fn credentials(&self) -> (Seq<char>, Seq<char>, Seq<char>) {
        (self.cert_path@, self.root_cert_path@, self.passphrase@)
    }

    /// Creates a new SwishClient
    ///
    /// # Arguments
    ///
    /// * `merchant_swish_number` - The merchants swish number which will receive the payments.
    /// * `cert_path` - The path to the certificate.
    /// * `root_cert_path` - The path to the root certificate.
    /// * `passphrase` - The passphrase to the certificate.
    ///
    /// # Returns
    /// A configured [`SwishClient`], whose calls go to [`SWISH_API_URL`].
    pub fn new(
        merchant_swish_number: &str,
        cert_path: &str,
        root_cert_path: &str,
        passphrase: &str,
    ) -> (r: SwishClient)
        ensures
            r.merchant() == merchant_swish_number@,
            r.api_url() == SWISH_API_URL@,
            r.credentials() == (cert_path@, root_cert_path@, passphrase@),
    {
        SwishClient {
            merchant_swish_number: String::from_str(merchant_swish_number),
            swish_api_url: String::from_str(SWISH_API_URL),
            passphrase: String::from_str(passphrase),
            cert_path: String::from_str(cert_path),
            root_cert_path: String::from_str(root_cert_path),
        }
    }

    /// The merchant's Swish number.
    pub fn merchant_swish_number(&self) -> (r: &str)
        ensures
            r@ == self.merchant(),
    {
        self.merchant_swish_number.as_str()
    }

    /// The address that the calls go to, up to the path of a call.
    pub fn swish_api_url(&self) -> (r: &str)
        ensures
            r@ == self.api_url(),
    {
        self.swish_api_url.as_str()
    }

    /// The path to the certificate.
    pub fn cert_path(&self) -> (r: &str)
        ensures
            r@ == self.credentials().0,
    {
        self.cert_path.as_str()
    }

    /// The path to the root certificate.
    pub fn root_cert_path(&self) -> (r: &str)
        ensures
            r@ == self.credentials().1,
    {
        self.root_cert_path.as_str()
    }

    /// The passphrase to the certificate.
    pub fn passphrase(&self) -> (r: &str)
        ensures
            r@ == self.credentials().2,
    {
        self.passphrase.as_str()
    }

    /// The text of the URI for a path below the address of the API.
    fn uri_text(&self, path: &str) -> (r: String)
        ensures
            r@ == self.api_url() + path@,
    {
        let mut uri = self.swish_api_url.clone();
        uri.append(path);
        uri
    }

    /// The request for a http POST to the Swish API, with a JSON document
    /// as its body.
    ///
    /// # Arguments
    ///
    /// * `path` - A string path
    /// * `document` - The document that is sent as the body
    pub fn post(&self, path: &str, document: &Json) -> (r: Result<ApiRequest, SwishClientError>)
        ensures
            built(self.api_url() + path@, Some(document@), r),
    {
        build_request(self.uri_text(path), Some(document))
    }

    /// The request for a http GET to the Swish API.
    ///
    /// # Arguments
    ///
    /// * `path` - A string path
    pub fn get(&self, path: &str) -> (r: Result<ApiRequest, SwishClientError>)
        ensures
            built(self.api_url() + path@, None, r),
    {
        build_request(self.uri_text(path), None)
    }

    /// The request that creates a payment with the provided
    /// [`PaymentParams`]. The payee is the merchant, whatever the params
    /// say.
    ///
    /// # Arguments
    ///
    /// * `params` - [`PaymentParams`].
    pub fn create_payment(&self, params: PaymentParams) -> (r: Result<
        ApiRequest,
        SwishClientError,
    >)
        ensures
            built(
                self.api_url() + "paymentrequests"@,
                Some(JsonView::Object(payment_members(with_payee(params@, self.merchant())))),
                r,
            ),
    {
        let payment_params = PaymentParams {
            payee_alias: self.merchant_swish_number.as_str(),
            ..params
        };
        let document = payment_params.into_json();
        self.post("paymentrequests", &document)
    }

    /// The request that gets a payment for a given `payment_id`.
    ///
    /// # Arguments
    ///
    /// * `payment_id` - A string id for a payment
    pub fn get_payment(&self, payment_id: &str) -> (r: Result<ApiRequest, SwishClientError>)
        ensures
            built(self.api_url() + "paymentrequests/"@ + payment_id@, None, r),
    {
        let mut path = String::from_str("paymentrequests/");
        path.append(payment_id);
        assert(self.api_url() + path@ =~= self.api_url() + "paymentrequests/"@ + payment_id@);
        self.get(path.as_str())
    }

    /// The request that creates a refund with the provided
    /// [`RefundParams`]. The payer is the merchant, whatever the params
    /// say.
    ///
    /// # Arguments
    ///
    /// * `params` - [`RefundParams`].
    pub fn create_refund(&self, params: RefundParams) -> (r: Result<ApiRequest, SwishClientError>)
        ensures
            built(
                self.api_url() + "refunds"@,
                Some(JsonView::Object(refund_members(with_payer(params@, self.merchant())))),
                r,
            ),
    {
        let refund_params = RefundParams {
            payer_alias: self.merchant_swish_number.as_str(),
            ..params
        };
        let document = refund_params.into_json();
        self.post("refunds", &document)
    }

    /// The request that gets a refund for a given `refund_id`.
    ///
    /// # Arguments
    ///
    /// * `refund_id` - A string id for a refund
    pub fn get_refund(&self, refund_id: &str) -> (r: Result<ApiRequest, SwishClientError>)
        ensures
            built(self.api_url() + "refunds/"@ + refund_id@, None, r),
    {
        let mut path = String::from_str("refunds/");
        path.append(refund_id);
        assert(self.api_url() + path@ =~= self.api_url() + "refunds/"@ + refund_id@);
        self.get(path.as_str())
    }
}

} // verus!
