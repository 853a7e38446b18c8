use blockfrost_http_client::json::{read_text, read_u64, Field};
use blockfrost_http_client::response::{parse_service_error, service_error};
use blockfrost_http_client::{
    try_deserializing, try_deserializing_value, Error, HTTPResponse, HttpErrorInner,
};

const FORBIDDEN: &[u8] =
    br#"{"status_code":403,"error":"Forbidden","message":"Invalid project token."}"#;

fn forbidden() -> HttpErrorInner {
    HttpErrorInner {
        status_code: 403,
        error: "Forbidden".to_string(),
        message: "Invalid project token.".to_string(),
    }
}

fn serialization_detail(r: Result<u32, Error>) -> String {
    match r {
        Err(Error::SerdeJson(detail)) => detail,
        other => panic!("expected a serialization error, got {:?}", other),
    }
}

#[test]
fn a_parsed_result_is_returned_as_it_is() {
    let r = try_deserializing(Some(42u32), b"42");
    assert!(matches!(r, Ok(42)));
}

#[test]
fn a_parsed_result_wins_over_an_envelope_in_the_body() {
    let r = try_deserializing(Some("genesis".to_string()), FORBIDDEN);
    match r {
        Ok(inner) => assert_eq!(inner, "genesis"),
        other => panic!("expected the result, got {:?}", other),
    }
}

#[test]
fn a_parsed_result_wins_over_a_body_that_is_no_json() {
    let r = try_deserializing(Some(7u8), b"\xff\xfe not json");
    assert!(matches!(r, Ok(7)));
}

#[test]
fn an_envelope_becomes_a_service_error_with_its_fields_copied() {
    let r = try_deserializing::<u32>(None, FORBIDDEN);
    match r {
        Err(Error::HttpError { status_code, error, message }) => {
            assert_eq!(status_code, 403);
            assert_eq!(error, "Forbidden");
            assert_eq!(message, "Invalid project token.");
        }
        other => panic!("expected a service error, got {:?}", other),
    }
}

#[test]
fn an_envelope_may_hold_more_members() {
    let body = br#"{"extra":[1,2],"message":"m","error":"e","status_code":0}"#;
    match try_deserializing::<u32>(None, body) {
        Err(Error::HttpError { status_code, error, message }) => {
            assert_eq!(status_code, 0);
            assert_eq!(error, "e");
            assert_eq!(message, "m");
        }
        other => panic!("expected a service error, got {:?}", other),
    }
}

#[test]
fn the_largest_status_code_is_65535() {
    let body = br#"{"status_code":65535,"error":"","message":""}"#;
    assert_eq!(
        parse_service_error(body),
        Ok(HttpErrorInner { status_code: 65535, error: String::new(), message: String::new() })
    );
    let body = br#"{"status_code":65536,"error":"","message":""}"#;
    assert_eq!(
        serialization_detail(try_deserializing(None, body)),
        "invalid value for field `status_code`"
    );
}

#[test]
fn a_body_of_neither_shape_is_a_serialization_error() {
    let r = try_deserializing::<u32>(None, br#"{"foo":1}"#);
    assert_eq!(serialization_detail(r), "missing field `status_code`");
}

#[test]
fn a_body_that_is_no_json_carries_the_complaint_of_the_parser() {
    let body = b"not json";
    let expected = serde_json::from_slice::<serde_json::Value>(body).unwrap_err().to_string();
    assert_eq!(serialization_detail(try_deserializing(None, body)), expected);
    assert!(expected.contains("line 1"));
}

#[test]
fn an_empty_body_is_a_serialization_error() {
    let expected = serde_json::from_slice::<serde_json::Value>(b"").unwrap_err().to_string();
    assert_eq!(serialization_detail(try_deserializing(None, b"")), expected);
}

#[test]
fn the_first_defective_member_is_named() {
    let cases: Vec<(&[u8], &str)> = vec![
        (br#"{}"#, "missing field `status_code`"),
        (br#"[403,"Forbidden","no"]"#, "missing field `status_code`"),
        (br#"null"#, "missing field `status_code`"),
        (br#"{"status_code":"403","error":"e","message":"m"}"#, "invalid value for field `status_code`"),
        (br#"{"status_code":-1,"error":"e","message":"m"}"#, "invalid value for field `status_code`"),
        (br#"{"status_code":403.0,"error":"e","message":"m"}"#, "invalid value for field `status_code`"),
        (br#"{"status_code":403,"message":"m"}"#, "missing field `error`"),
        (br#"{"status_code":403,"error":5,"message":"m"}"#, "invalid value for field `error`"),
        (br#"{"status_code":403,"error":"e"}"#, "missing field `message`"),
        (br#"{"status_code":403,"error":"e","message":null}"#, "invalid value for field `message`"),
        (br#"{"status_code":403,"error":7,"message":8}"#, "invalid value for field `error`"),
        (br#"{"status_code":70000,"message":8}"#, "invalid value for field `status_code`"),
    ];
    for (body, detail) in cases {
        assert_eq!(serialization_detail(try_deserializing(None, body)), detail);
    }
}

#[test]
fn a_failed_resolution_never_yields_a_result() {
    let bodies: Vec<&[u8]> = vec![b"", b"{}", b"0", FORBIDDEN, b"[", br#"{"status_code":1}"#];
    for body in bodies {
        assert!(try_deserializing::<u32>(None, body).is_err());
        assert!(try_deserializing::<String>(None, body).is_err());
    }
}

#[test]
fn any_json_text_resolves_as_a_document() {
    let body = br#"{"fields":[{"int":42},{"bytes":"0a0b"}],"constructor":0}"#;
    let expected: serde_json::Value = serde_json::from_slice(body).unwrap();
    match try_deserializing_value(body) {
        Ok(doc) => {
            assert_eq!(doc, expected);
            assert_eq!(doc["fields"][0]["int"].as_u64(), Some(42));
        }
        other => panic!("expected the document, got {:?}", other),
    }
}

#[test]
fn an_envelope_resolves_as_a_document_too() {
    match try_deserializing_value(FORBIDDEN) {
        Ok(doc) => assert_eq!(doc["status_code"].as_u64(), Some(403)),
        other => panic!("expected the document, got {:?}", other),
    }
}

#[test]
fn a_document_that_is_no_json_is_a_serialization_error() {
    let body = b"{\"a\":";
    let expected = serde_json::from_slice::<serde_json::Value>(body).unwrap_err().to_string();
    match try_deserializing_value(body) {
        Err(Error::SerdeJson(detail)) => assert_eq!(detail, expected),
        other => panic!("expected a serialization error, got {:?}", other),
    }
}

#[test]
fn the_envelope_is_read_from_bytes_and_from_a_document() {
    assert_eq!(parse_service_error(FORBIDDEN), Ok(forbidden()));
    let doc: serde_json::Value = serde_json::from_slice(FORBIDDEN).unwrap();
    assert_eq!(service_error(&doc), Ok(forbidden()));
    let doc: serde_json::Value = serde_json::from_slice(b"{\"error\":\"e\"}").unwrap();
    assert_eq!(service_error(&doc), Err("missing field `status_code`".to_string()));
}

#[test]
fn members_are_read_by_key_and_kind() {
    let doc: serde_json::Value =
        serde_json::from_slice(br#"{"n":18446744073709551615,"s":"text","neg":-3,"f":1.5}"#)
            .unwrap();
    assert_eq!(read_u64(&doc, "n"), Field::Present(u64::MAX));
    assert_eq!(read_u64(&doc, "s"), Field::Mismatch);
    assert_eq!(read_u64(&doc, "neg"), Field::Mismatch);
    assert_eq!(read_u64(&doc, "f"), Field::Mismatch);
    assert_eq!(read_u64(&doc, "absent"), Field::Missing);
    assert_eq!(read_text(&doc, "s"), Field::Present("text".to_string()));
    assert_eq!(read_text(&doc, "n"), Field::Mismatch);
    assert_eq!(read_text(&doc, "absent"), Field::Missing);
    let not_an_object: serde_json::Value = serde_json::from_slice(b"[1,2]").unwrap();
    assert_eq!(read_u64(&not_an_object, "n"), Field::Missing);
    assert_eq!(read_text(&not_an_object, "0"), Field::Missing);
}

#[test]
fn three_fields_make_an_envelope() {
    let made = HttpErrorInner::from_fields(
        Field::Present(404),
        Field::Present("Not Found".to_string()),
        Field::Present("The requested component has not been found.".to_string()),
    );
    assert_eq!(
        made,
        Ok(HttpErrorInner {
            status_code: 404,
            error: "Not Found".to_string(),
            message: "The requested component has not been found.".to_string(),
        })
    );
    let text = |s: &str| Field::Present(s.to_string());
    assert_eq!(
        HttpErrorInner::from_fields(Field::Missing, Field::Missing, Field::Missing),
        Err("missing field `status_code`".to_string())
    );
    assert_eq!(
        HttpErrorInner::from_fields(Field::Mismatch, text("e"), text("m")),
        Err("invalid value for field `status_code`".to_string())
    );
    assert_eq!(
        HttpErrorInner::from_fields(Field::Present(65536), Field::Missing, text("m")),
        Err("invalid value for field `status_code`".to_string())
    );
    assert_eq!(
        HttpErrorInner::from_fields(Field::Present(1), Field::Missing, Field::Mismatch),
        Err("missing field `error`".to_string())
    );
    assert_eq!(
        HttpErrorInner::from_fields(Field::Present(1), text("e"), Field::Mismatch),
        Err("invalid value for field `message`".to_string())
    );
}

#[test]
fn a_classified_response_becomes_an_outcome() {
    assert!(matches!(HTTPResponse::HttpOk(5u8).into_result(), Ok(5)));
    match HTTPResponse::<u8>::HttpError(forbidden()).into_result() {
        Err(Error::HttpError { status_code, error, message }) => {
            assert_eq!((status_code, error.as_str(), message.as_str()),
                (403, "Forbidden", "Invalid project token."));
        }
        other => panic!("expected a service error, got {:?}", other),
    }
}

#[test]
fn every_failure_has_exactly_one_of_nine_kinds() {
    let failures = vec![
        Error::Reqwest("connection refused".to_string()),
        Error::SerdeJson("expected value at line 1 column 1".to_string()),
        Error::Url(url::ParseError::EmptyHost),
        Error::Config("project_id".to_string()),
        Error::FileRead(std::io::Error::new(std::io::ErrorKind::PermissionDenied, "denied")),
        Error::Toml("expected an equals".to_string()),
        Error::EvaluateTxResult("no budget in the result".to_string()),
        Error::EvaluateTxFailure("script failed".to_string()),
        Error::HttpError { status_code: 418, error: "e".to_string(), message: "m".to_string() },
    ];
    let kinds: Vec<usize> = failures
        .iter()
        .map(|failure| match failure {
            Error::Reqwest(_) => 0,
            Error::SerdeJson(_) => 1,
            Error::Url(_) => 2,
            Error::Config(_) => 3,
            Error::FileRead(_) => 4,
            Error::Toml(_) => 5,
            Error::EvaluateTxResult(_) => 6,
            Error::EvaluateTxFailure(_) => 7,
            Error::HttpError { .. } => 8,
        })
        .collect();
    assert_eq!(kinds, vec![0, 1, 2, 3, 4, 5, 6, 7, 8]);
}
