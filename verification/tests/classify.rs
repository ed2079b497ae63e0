use hyper::header::{HeaderValue, CONTENT_TYPE};
use hyper::HeaderMap;
use swish_api::error::{ErrorCode, RequestError, SwishClientError};
use swish_api::json::Json;
use swish_api::response::{classify_response, failed, rejection};
use swish_api::status::HttpStatus;

fn status(code: u16) -> HttpStatus {
    HttpStatus::from_u16(code).unwrap()
}

fn text(value: &str) -> Json {
    Json::String(value.to_string())
}

fn object(members: Vec<(&str, Json)>) -> Json {
    Json::Object(members.into_iter().map(|(key, value)| (key.to_string(), value)).collect())
}

fn collection(error: SwishClientError) -> Vec<RequestError> {
    match error {
        SwishClientError::ErrorCollection(errors) => errors
            .into_iter()
            .map(|error| match error {
                SwishClientError::Swish(error) => error,
                other => panic!("unexpected entry: {:?}", other),
            })
            .collect(),
        other => panic!("unexpected error: {:?}", other),
    }
}

fn single(error: SwishClientError) -> RequestError {
    match error {
        SwishClientError::Swish(error) => error,
        other => panic!("unexpected error: {:?}", other),
    }
}

#[test]
fn not_found_gives_one_error_with_the_body_as_message() {
    let result = classify_response(status(404), HeaderMap::new(), "not found");
    let error = single(result.unwrap_err());
    assert_eq!(error.http_status.as_u16(), 404);
    assert!(error.code.is_none());
    assert_eq!(error.message, "not found");
    assert!(error.additional_information.is_none());
}

#[test]
fn not_found_is_decided_before_the_body_is_read_as_json() {
    let body = r#"[{"errorCode":"RP01","errorMessage":"x"}]"#;
    let error = single(classify_response(status(404), HeaderMap::new(), body).unwrap_err());
    assert_eq!(error.http_status.as_u16(), 404);
    assert!(error.code.is_none());
    assert_eq!(error.message, body);
}

#[test]
fn a_malformed_entry_is_dropped_and_the_others_are_kept() {
    let body = r#"[{"errorCode":"RP01","errorMessage":"x"}, {"bogus":true}]"#;
    let errors = collection(classify_response(status(422), HeaderMap::new(), body).unwrap_err());
    assert_eq!(errors.len(), 1);
    assert_eq!(errors[0].http_status.as_u16(), 422);
    assert_eq!(errors[0].code, Some(ErrorCode::RP01));
    assert_eq!(errors[0].message, "x");
    assert!(errors[0].additional_information.is_none());
}

#[test]
fn every_entry_is_stamped_with_the_status_of_the_response() {
    let body = r#"[
        {"errorCode":"PA02","errorMessage":"Amount value is missing or not a valid number"},
        {"errorCode":"RP03","errorMessage":"Callback URL is missing or does not use Https",
         "additionalInformation":"http"},
        {"errorCode":null,"errorMessage":"no code"}
    ]"#;
    let errors = collection(failed(status(400), body).unwrap());
    assert_eq!(errors.len(), 3);
    for error in errors.iter() {
        assert_eq!(error.http_status.as_u16(), 400);
    }
    assert_eq!(errors[0].code, Some(ErrorCode::PA02));
    assert_eq!(errors[0].message, "Amount value is missing or not a valid number");
    assert_eq!(errors[1].code, Some(ErrorCode::RP03));
    assert_eq!(errors[1].additional_information.as_deref(), Some("http"));
    assert_eq!(errors[2].code, None);
    assert_eq!(errors[2].message, "no code");
}

#[test]
fn an_empty_array_gives_an_empty_collection() {
    let errors = collection(failed(status(500), "[]").unwrap());
    assert!(errors.is_empty());
}

#[test]
fn an_array_of_malformed_entries_gives_an_empty_collection() {
    let body = r#"[1, "two", null, {"errorCode":"RP01"}, {"errorMessage":7}]"#;
    let errors = collection(failed(status(500), body).unwrap());
    assert!(errors.is_empty());
}

#[test]
fn an_object_that_is_an_entry_gives_that_one_error() {
    let body = r#"{"errorCode":"RP01","errorMessage":"x","additionalInformation":"more"}"#;
    let error = single(failed(status(400), body).unwrap());
    assert_eq!(error.http_status.as_u16(), 400);
    assert_eq!(error.code, Some(ErrorCode::RP01));
    assert_eq!(error.message, "x");
    assert_eq!(error.additional_information.as_deref(), Some("more"));

    let error = single(failed(status(403), r#"{"errorMessage":"forbidden"}"#).unwrap());
    assert_eq!(error.http_status.as_u16(), 403);
    assert_eq!(error.code, None);
    assert_eq!(error.message, "forbidden");
}

#[test]
fn json_that_holds_no_entry_gives_an_empty_collection() {
    assert!(collection(failed(status(400), r#"{"bogus":true}"#).unwrap()).is_empty());
    assert!(collection(failed(status(400), r#"{"errorCode":"XX99","errorMessage":"x"}"#).unwrap())
        .is_empty());
    assert!(collection(failed(status(400), "{}").unwrap()).is_empty());
    assert!(collection(failed(status(400), "17").unwrap()).is_empty());
    assert!(collection(failed(status(400), "null").unwrap()).is_empty());
    assert!(collection(failed(status(400), "\"text\"").unwrap()).is_empty());
    assert!(collection(failed(status(400), "true").unwrap()).is_empty());
}

#[test]
fn an_array_is_a_list_of_entries_and_never_one_entry() {
    let body = r#"["RP01", "x", null]"#;
    assert!(collection(failed(status(400), body).unwrap()).is_empty());
    let body = r#"[["RP01", "x", null]]"#;
    let errors = collection(failed(status(400), body).unwrap());
    assert_eq!(errors.len(), 1);
    assert_eq!(errors[0].code, Some(ErrorCode::RP01));
    assert_eq!(errors[0].message, "x");
}

#[test]
fn a_body_that_is_no_json_gives_one_error_with_the_parse_failure() {
    let body = "<html>Bad Gateway</html>";
    let expected = serde_json::from_str::<serde_json::Value>(body).unwrap_err().to_string();
    let error = single(failed(status(502), body).unwrap());
    assert_eq!(error.http_status.as_u16(), 502);
    assert!(error.code.is_none());
    assert_eq!(error.message, expected);
    assert_eq!(error.message, "expected value at line 1 column 1");
    assert!(error.additional_information.is_none());
}

#[test]
fn an_empty_body_of_a_failed_answer_is_no_json() {
    let error = single(failed(status(500), "").unwrap());
    assert_eq!(error.http_status.as_u16(), 500);
    assert_eq!(error.message, "EOF while parsing a value at line 1 column 0");
}

#[test]
fn a_successful_answer_passes_body_and_headers_on() {
    let mut headers = HeaderMap::new();
    headers.insert(CONTENT_TYPE, HeaderValue::from_static("application/json"));
    let (body, passed) = classify_response(status(200), headers.clone(), "{\"id\":\"1\"}").unwrap();
    assert_eq!(body, "{\"id\":\"1\"}");
    assert_eq!(passed, headers);
    assert!(failed(status(200), "anything").is_none());
    assert!(failed(status(299), "anything").is_none());
}

#[test]
fn every_status_outside_the_success_class_is_a_failure() {
    for code in [100u16, 199, 300, 302, 400, 401, 403, 415, 422, 500, 504, 599] {
        assert!(failed(status(code), "[]").is_some(), "status {}", code);
    }
    for code in [200u16, 201, 202, 204, 299] {
        assert!(failed(status(code), "[]").is_none(), "status {}", code);
    }
}

#[test]
fn rejection_of_a_parse_failure_carries_its_description() {
    let error = single(rejection(status(503), Err("some reason".to_string())));
    assert_eq!(error.http_status.as_u16(), 503);
    assert!(error.code.is_none());
    assert_eq!(error.message, "some reason");
    assert!(error.additional_information.is_none());
}

#[test]
fn rejection_of_an_array_decodes_item_by_item() {
    let document = Json::Array(vec![
        object(vec![("errorCode", text("RP01")), ("errorMessage", text("x"))]),
        object(vec![("bogus", Json::Bool(true))]),
        object(vec![("errorMessage", text("y")), ("additionalInformation", text("more"))]),
    ]);
    let errors = collection(rejection(status(422), Ok(document)));
    assert_eq!(errors.len(), 2);
    assert_eq!(errors[0].code, Some(ErrorCode::RP01));
    assert_eq!(errors[0].message, "x");
    assert_eq!(errors[1].code, None);
    assert_eq!(errors[1].message, "y");
    assert_eq!(errors[1].additional_information.as_deref(), Some("more"));
    assert_eq!(errors[1].http_status.as_u16(), 422);
}

#[test]
fn rejection_of_an_object_is_the_entry_that_it_is() {
    let document = object(vec![("errorMessage", text("x")), ("errorCode", text("PA01"))]);
    let error = single(rejection(status(400), Ok(document)));
    assert_eq!(error.http_status.as_u16(), 400);
    assert_eq!(error.code, Some(ErrorCode::PA01));
    assert_eq!(error.message, "x");
    assert_eq!(error.additional_information, None);
}

#[test]
fn rejection_of_a_document_without_entries_is_empty() {
    let document = object(vec![("errorCode", text("PA01"))]);
    assert!(collection(rejection(status(400), Ok(document))).is_empty());
    assert!(collection(rejection(status(400), Ok(Json::Null))).is_empty());
    assert!(collection(rejection(status(400), Ok(text("x")))).is_empty());
    assert!(collection(rejection(status(400), Ok(Json::Array(vec![])))).is_empty());
}

#[test]
fn an_entry_as_an_object() {
    let entry = object(vec![
        ("errorCode", text("ACMT03")),
        ("errorMessage", text("Payer not Enrolled")),
        ("additionalInformation", Json::Null),
        ("unknown", Json::Bool(false)),
    ]);
    let error = RequestError::from_json(&entry, status(422)).unwrap();
    assert_eq!(error.http_status.as_u16(), 422);
    assert_eq!(error.code, Some(ErrorCode::ACMT03));
    assert_eq!(error.message, "Payer not Enrolled");
    assert_eq!(error.additional_information, None);
}

#[test]
fn an_entry_as_an_array_of_three() {
    let entry = Json::Array(vec![text("RF02"), text("not found"), text("old")]);
    let error = RequestError::from_json(&entry, status(422)).unwrap();
    assert_eq!(error.code, Some(ErrorCode::RF02));
    assert_eq!(error.message, "not found");
    assert_eq!(error.additional_information.as_deref(), Some("old"));

    let short = Json::Array(vec![text("RF02"), text("not found")]);
    assert!(RequestError::from_json(&short, status(422)).is_none());
    let long = Json::Array(vec![text("RF02"), text("not found"), Json::Null, Json::Null]);
    assert!(RequestError::from_json(&long, status(422)).is_none());
}

#[test]
fn a_code_as_an_object_with_one_null_member() {
    let entry = object(vec![
        ("errorCode", object(vec![("AM06", Json::Null)])),
        ("errorMessage", text("too low")),
    ]);
    let error = RequestError::from_json(&entry, status(422)).unwrap();
    assert_eq!(error.code, Some(ErrorCode::AM06));

    let entry = object(vec![
        ("errorCode", object(vec![("AM06", Json::Bool(true))])),
        ("errorMessage", text("too low")),
    ]);
    assert!(RequestError::from_json(&entry, status(422)).is_none());
}

#[test]
fn an_entry_with_an_unknown_code_is_malformed() {
    let entry = object(vec![("errorCode", text("XX99")), ("errorMessage", text("x"))]);
    assert!(RequestError::from_json(&entry, status(422)).is_none());
    let entry = object(vec![("errorCode", text("rp01")), ("errorMessage", text("x"))]);
    assert!(RequestError::from_json(&entry, status(422)).is_none());
    let body = r#"[
        {"errorCode":"XX99","errorMessage":"x"},
        {"errorCode":"BE18","errorMessage":"y"}
    ]"#;
    let errors = collection(failed(status(422), body).unwrap());
    assert_eq!(errors.len(), 1);
    assert_eq!(errors[0].code, Some(ErrorCode::BE18));
}

#[test]
fn an_entry_needs_a_message_that_is_a_text() {
    assert!(RequestError::from_json(&object(vec![("errorCode", text("RP01"))]), status(422))
        .is_none());
    assert!(RequestError::from_json(
        &object(vec![("errorMessage", Json::Null)]),
        status(422)
    )
    .is_none());
    assert!(RequestError::from_json(
        &object(vec![("errorMessage", text("x")), ("additionalInformation", Json::Bool(true))]),
        status(422)
    )
    .is_none());
    assert!(RequestError::from_json(&text("x"), status(422)).is_none());
    assert!(RequestError::from_json(&Json::Null, status(422)).is_none());
}
