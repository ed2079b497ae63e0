use swish_api::error::{ErrorCode, ErrorCollection, RequestError, SwishClientError};
use swish_api::status::HttpStatus;

fn status(code: u16) -> HttpStatus {
    HttpStatus::from_u16(code).unwrap()
}

fn request_error(code: u16) -> RequestError {
    RequestError {
        http_status: status(code),
        code: None,
        message: "a message".to_string(),
        additional_information: None,
    }
}

fn json_error() -> serde_json::Error {
    serde_json::from_str::<serde_json::Value>("{").unwrap_err()
}

fn io_error() -> std::io::Error {
    std::io::Error::new(std::io::ErrorKind::NotFound, "no such certificate")
}

fn uri_error() -> hyper::http::uri::InvalidUri {
    "not a uri".parse::<hyper::Uri>().unwrap_err()
}

#[test]
fn a_status_has_a_number_from_100_up_to_600() {
    assert!(HttpStatus::from_u16(0).is_none());
    assert!(HttpStatus::from_u16(99).is_none());
    assert_eq!(HttpStatus::from_u16(100).unwrap().as_u16(), 100);
    assert_eq!(HttpStatus::from_u16(404).unwrap().as_u16(), 404);
    assert_eq!(HttpStatus::from_u16(599).unwrap().as_u16(), 599);
    assert!(HttpStatus::from_u16(600).is_none());
    assert!(HttpStatus::from_u16(u16::MAX).is_none());
    for code in 100u16..600 {
        assert_eq!(
            HttpStatus::from_u16(code).is_some(),
            hyper::StatusCode::from_u16(code).is_ok()
        );
    }
}

#[test]
fn the_success_class_is_200_to_299() {
    assert!(!status(199).is_success());
    assert!(status(200).is_success());
    assert!(status(201).is_success());
    assert!(status(299).is_success());
    assert!(!status(300).is_success());
    assert!(!status(404).is_success());
    assert!(status(404).is_not_found());
    assert!(!status(403).is_not_found());
    for code in 100u16..600 {
        let theirs = hyper::StatusCode::from_u16(code).unwrap();
        assert_eq!(status(code).is_success(), theirs.is_success());
        assert_eq!(status(code).is_not_found(), theirs == hyper::StatusCode::NOT_FOUND);
    }
}

#[test]
fn a_status_is_printed_with_its_reason() {
    assert_eq!(status(200).to_string(), "200 OK");
    assert_eq!(status(404).to_string(), "404 Not Found");
    assert_eq!(status(422).to_string(), "422 Unprocessable Entity");
    assert_eq!(status(599).to_string(), "599 <unknown status code>");
    for code in 100u16..600 {
        let theirs = hyper::StatusCode::from_u16(code).unwrap();
        assert_eq!(status(code).to_string(), theirs.to_string());
    }
}

#[test]
fn the_default_status_is_ok() {
    assert_eq!(HttpStatus::default().as_u16(), 200);
    assert_eq!(HttpStatus::default(), status(200));
}

#[test]
fn the_default_request_error_is_empty() {
    let error = RequestError::default();
    assert_eq!(error.http_status.as_u16(), 200);
    assert_eq!(error.code, None);
    assert_eq!(error.message, "");
    assert_eq!(error.additional_information, None);
}

#[test]
fn a_request_error_is_printed_as_its_status() {
    assert_eq!(request_error(404).to_string(), "404 Not Found");
    assert_eq!(request_error(422).to_string(), "422 Unprocessable Entity");
    let mut error = request_error(400);
    error.code = Some(ErrorCode::PA02);
    error.additional_information = Some("more".to_string());
    assert_eq!(error.to_string(), "400 Bad Request");
}

#[test]
fn every_code_has_its_name() {
    let codes = [
        ("FF08", ErrorCode::FF08),
        ("RP03", ErrorCode::RP03),
        ("BE18", ErrorCode::BE18),
        ("RP01", ErrorCode::RP01),
        ("PA02", ErrorCode::PA02),
        ("AM06", ErrorCode::AM06),
        ("AM02", ErrorCode::AM02),
        ("AM03", ErrorCode::AM03),
        ("RP02", ErrorCode::RP02),
        ("RP06", ErrorCode::RP06),
        ("ACMT03", ErrorCode::ACMT03),
        ("ACMT01", ErrorCode::ACMT01),
        ("ACMT07", ErrorCode::ACMT07),
        ("PA01", ErrorCode::PA01),
        ("RF02", ErrorCode::RF02),
    ];
    for (name, code) in codes {
        assert_eq!(ErrorCode::from_name(name), Some(code));
        assert_eq!(format!("{:?}", code), name);
    }
    for name in ["", "ff08", "FF08 ", " FF08", "FF0", "FF088", "ACMT02", "null"] {
        assert_eq!(ErrorCode::from_name(name), None, "{:?}", name);
    }
}

#[test]
fn a_provider_error_is_printed_behind_the_prefix() {
    let error = SwishClientError::Swish(request_error(404));
    assert_eq!(error.to_string(), ": 404 Not Found");
}

#[test]
fn a_parse_error_is_printed_with_its_reason() {
    let error = SwishClientError::Parse("could not find resource location".to_string());
    assert_eq!(error.to_string(), ": could not find resource location");
    assert_eq!(SwishClientError::Parse(String::new()).to_string(), ": ");
}

#[test]
fn an_outside_error_is_printed_behind_the_prefix() {
    assert_eq!(
        SwishClientError::Json(json_error()).to_string(),
        format!(": {}", json_error())
    );
    assert_eq!(
        SwishClientError::Json(json_error()).to_string(),
        ": EOF while parsing an object at line 1 column 1"
    );
    assert_eq!(SwishClientError::Io(io_error()).to_string(), ": no such certificate");
    assert_eq!(
        SwishClientError::Uri(uri_error()).to_string(),
        format!(": {}", uri_error())
    );
}

#[test]
fn a_collection_is_printed_entry_by_entry() {
    assert_eq!(SwishClientError::ErrorCollection(vec![]).to_string(), ": ");
    let one = SwishClientError::ErrorCollection(vec![SwishClientError::Swish(request_error(422))]);
    assert_eq!(one.to_string(), ": : 422 Unprocessable Entity, ");
    let two = SwishClientError::ErrorCollection(vec![
        SwishClientError::Swish(request_error(422)),
        SwishClientError::Parse("p".to_string()),
    ]);
    assert_eq!(two.to_string(), ": : 422 Unprocessable Entity, : p, ");
    let nested = SwishClientError::ErrorCollection(vec![
        SwishClientError::ErrorCollection(vec![SwishClientError::Parse("a".to_string())]),
        SwishClientError::Io(io_error()),
        one,
    ]);
    assert_eq!(
        nested.to_string(),
        ": : : a, , : no such certificate, : : 422 Unprocessable Entity, , "
    );
}

#[test]
fn every_kind_of_error_converts_into_the_one_error() {
    assert!(matches!(
        SwishClientError::from(request_error(400)),
        SwishClientError::Swish(error) if error.http_status.as_u16() == 400
            && error.message == "a message"
    ));
    let errors: ErrorCollection = vec![SwishClientError::Parse("x".to_string())];
    assert!(matches!(
        SwishClientError::from(errors),
        SwishClientError::ErrorCollection(errors) if errors.len() == 1
    ));
    assert!(matches!(SwishClientError::from(json_error()), SwishClientError::Json(_)));
    assert!(matches!(
        SwishClientError::from(io_error()),
        SwishClientError::Io(error) if error.kind() == std::io::ErrorKind::NotFound
    ));
    assert!(matches!(SwishClientError::from(uri_error()), SwishClientError::Uri(_)));
}

#[test]
fn the_question_mark_converts_too() {
    fn read() -> Result<(), SwishClientError> {
        Err(io_error())?;
        Ok(())
    }
    assert!(matches!(read(), Err(SwishClientError::Io(_))));
}
