use hyper::header::{HeaderName, HeaderValue, LOCATION};
use hyper::HeaderMap;
use swish_api::client::{CreatedPayment, CreatedRefund};
use swish_api::outcome::MISSING_LOCATION;
use swish_api::error::{ErrorCode, SwishClientError};
use swish_api::headers::{locate, resource_id};
use swish_api::status::HttpStatus;

const TOKEN: &str = "f34DS34lfd0d03fdDselkfd3ffk21AbC";

fn status(code: u16) -> HttpStatus {
    HttpStatus::from_u16(code).unwrap()
}

fn token_name() -> HeaderName {
    HeaderName::from_static("paymentrequesttoken")
}

fn headers(location: Option<&str>, token: Option<&str>) -> HeaderMap {
    let mut headers = HeaderMap::new();
    if let Some(location) = location {
        headers.insert(LOCATION, HeaderValue::from_str(location).unwrap());
    }
    if let Some(token) = token {
        headers.insert(token_name(), HeaderValue::from_str(token).unwrap());
    }
    headers
}

#[test]
fn a_created_payment_is_read_from_the_headers() {
    let location = "https://host/api/v1/paymentrequests/ABC123";
    assert_eq!(TOKEN.len(), 32);
    let payment =
        CreatedPayment::from_response(status(201), headers(Some(location), Some(TOKEN)), "")
            .unwrap();
    assert_eq!(payment.id, "ABC123");
    assert_eq!(payment.location, location);
    assert_eq!(payment.request_token.as_deref(), Some(TOKEN));
}

#[test]
fn a_created_payment_needs_no_token() {
    let location = "https://host/api/v1/paymentrequests/ABC123";
    let payment =
        CreatedPayment::from_response(status(201), headers(Some(location), None), "ignored")
            .unwrap();
    assert_eq!(payment.id, "ABC123");
    assert_eq!(payment.location, location);
    assert_eq!(payment.request_token, None);
}

#[test]
fn a_successful_answer_without_location_is_a_parse_error() {
    for code in [200u16, 201, 202] {
        match CreatedPayment::from_response(status(code), headers(None, Some(TOKEN)), "") {
            Err(SwishClientError::Parse(reason)) => {
                assert_eq!(reason, "could not find resource location");
                assert_eq!(reason, MISSING_LOCATION);
            }
            other => panic!("unexpected result: {:?}", other),
        }
        match CreatedRefund::from_response(status(code), headers(None, None), "") {
            Err(SwishClientError::Parse(reason)) => {
                assert_eq!(reason, "could not find resource location")
            }
            other => panic!("unexpected result: {:?}", other),
        }
    }
}

#[test]
fn a_created_refund_is_read_from_the_location() {
    let location = "https://host/api/v1/refunds/5D59DA1B1632424E874DDB219AD54597";
    let refund =
        CreatedRefund::from_response(status(201), headers(Some(location), Some(TOKEN)), "")
            .unwrap();
    assert_eq!(refund.id, "5D59DA1B1632424E874DDB219AD54597");
    assert_eq!(refund.location, location);
}

#[test]
fn a_failed_answer_is_passed_on_whatever_the_headers_hold() {
    let location = "https://host/api/v1/paymentrequests/ABC123";
    let body = r#"[{"errorCode":"RP06","errorMessage":"already exists"}]"#;
    match CreatedPayment::from_response(status(422), headers(Some(location), Some(TOKEN)), body) {
        Err(SwishClientError::ErrorCollection(errors)) => {
            assert_eq!(errors.len(), 1);
            match &errors[0] {
                SwishClientError::Swish(error) => {
                    assert_eq!(error.http_status.as_u16(), 422);
                    assert_eq!(error.code, Some(ErrorCode::RP06));
                    assert_eq!(error.message, "already exists");
                }
                other => panic!("unexpected entry: {:?}", other),
            }
        }
        other => panic!("unexpected result: {:?}", other),
    }
    match CreatedRefund::from_response(status(404), headers(Some(location), None), "gone") {
        Err(SwishClientError::Swish(error)) => {
            assert_eq!(error.http_status.as_u16(), 404);
            assert_eq!(error.message, "gone");
        }
        other => panic!("unexpected result: {:?}", other),
    }
}

#[test]
fn the_identifier_is_the_last_segment_of_the_location() {
    assert_eq!(resource_id("https://host/api/v1/paymentrequests/ABC123"), "ABC123");
    assert_eq!(resource_id("a/b"), "b");
    assert_eq!(resource_id("/b"), "b");
    assert_eq!(resource_id("//"), "");
}

#[test]
fn a_location_without_separator_is_its_own_identifier() {
    assert_eq!(resource_id("ABC123"), "ABC123");
    assert_eq!(resource_id(""), "");
    let payment =
        CreatedPayment::from_response(status(201), headers(Some("ABC123"), None), "").unwrap();
    assert_eq!(payment.id, "ABC123");
    assert_eq!(payment.location, "ABC123");
}

#[test]
fn a_location_that_ends_in_a_separator_has_an_empty_identifier() {
    assert_eq!(resource_id("https://host/api/v1/paymentrequests/"), "");
    let refund = CreatedRefund::from_response(
        status(201),
        headers(Some("https://host/api/v1/refunds/"), None),
        "",
    )
    .unwrap();
    assert_eq!(refund.id, "");
    assert_eq!(refund.location, "https://host/api/v1/refunds/");
}

#[test]
fn the_identifier_of_a_location_with_wide_characters() {
    assert_eq!(resource_id("å/ä/ö"), "ö");
    assert_eq!(resource_id("betalning/€uro"), "€uro");
}

#[test]
fn locate_reads_both_headers() {
    let (location, token) = locate(&headers(Some("x/y"), Some(TOKEN)));
    assert_eq!(location.as_deref(), Some("x/y"));
    assert_eq!(token.as_deref(), Some(TOKEN));
    let (location, token) = locate(&HeaderMap::new());
    assert_eq!(location, None);
    assert_eq!(token, None);
}

#[test]
fn locate_takes_the_first_of_several_values() {
    let mut headers = HeaderMap::new();
    headers.append(LOCATION, HeaderValue::from_static("first/1"));
    headers.append(LOCATION, HeaderValue::from_static("second/2"));
    headers.append(token_name(), HeaderValue::from_static("one"));
    headers.append(token_name(), HeaderValue::from_static("two"));
    let (location, token) = locate(&headers);
    assert_eq!(location.as_deref(), Some("first/1"));
    assert_eq!(token.as_deref(), Some("one"));
}

#[test]
fn header_names_are_found_whatever_their_case() {
    let mut headers = HeaderMap::new();
    headers.insert(
        HeaderName::from_bytes(b"Location").unwrap(),
        HeaderValue::from_static("https://host/p/7"),
    );
    headers.insert(
        HeaderName::from_bytes(b"PaymentRequestToken").unwrap(),
        HeaderValue::from_static("token"),
    );
    let payment = CreatedPayment::from_response(status(201), headers, "").unwrap();
    assert_eq!(payment.id, "7");
    assert_eq!(payment.request_token.as_deref(), Some("token"));
}

#[test]
fn a_value_that_is_no_visible_text_counts_as_absent() {
    let mut headers = HeaderMap::new();
    headers.insert(LOCATION, HeaderValue::from_bytes(b"https://host/p/\xfa").unwrap());
    headers.insert(token_name(), HeaderValue::from_bytes(b"tok\xffen").unwrap());
    let (location, token) = locate(&headers);
    assert_eq!(location, None);
    assert_eq!(token, None);
    match CreatedPayment::from_response(status(201), headers, "") {
        Err(SwishClientError::Parse(reason)) => assert_eq!(reason, MISSING_LOCATION),
        other => panic!("unexpected result: {:?}", other),
    }
}

#[test]
fn a_value_with_spaces_and_tabs_is_a_text() {
    let mut headers = HeaderMap::new();
    headers.insert(LOCATION, HeaderValue::from_bytes(b"a b\tc/d e").unwrap());
    let (location, _) = locate(&headers);
    assert_eq!(location.as_deref(), Some("a b\tc/d e"));
    let refund = CreatedRefund::from_response(status(200), headers, "").unwrap();
    assert_eq!(refund.id, "d e");
}
