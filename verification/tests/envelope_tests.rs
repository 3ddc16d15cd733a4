use cryptowatch::api::rest::{ApiError, Details, ExchangeAPI, List};
use cryptowatch::api::rest::models::Exchange;

fn exchanges() -> ExchangeAPI {
    ExchangeAPI {}
}

#[test]
fn result_payload_decodes() {
    let body = r#"{"result":{"symbol":"kraken","name":"Kraken","active":true},"allowance":{"cost":10}}"#;
    let ex: Exchange = exchanges().details_decode(body).unwrap();
    assert_eq!(ex.symbol, "kraken");
    assert_eq!(ex.name, "Kraken");
    assert!(ex.active);
}

#[test]
fn result_wins_over_error() {
    let body = r#"{"result":{"symbol":"kraken","name":"Kraken","active":true},"error":"ignored"}"#;
    let ex: Exchange = exchanges().details_decode(body).unwrap();
    assert_eq!(ex.symbol, "kraken");
}

#[test]
fn error_surfaces_exactly() {
    let body = r#"{"error":"not found"}"#;
    let err = exchanges().details_decode(body).unwrap_err();
    match err {
        ApiError::ApplicationError(m) => assert_eq!(m, "not found"),
        _ => panic!("expected the application error"),
    }
}

#[test]
fn empty_envelope_is_its_own_error() {
    let body = r#"{"allowance":{"cost":10}}"#;
    let err = exchanges().details_decode(body).unwrap_err();
    assert!(matches!(err, ApiError::EmptyEnvelope));
}

#[test]
fn empty_envelope_is_never_an_empty_list() {
    let body = r#"{}"#;
    let r = exchanges().list_decode(body);
    assert!(matches!(r, Err(ApiError::EmptyEnvelope)));
}

#[test]
fn null_result_counts_as_absent() {
    let body = r#"{"result":null,"error":"boom"}"#;
    let err = exchanges().details_decode(body).unwrap_err();
    match err {
        ApiError::ApplicationError(m) => assert_eq!(m, "boom"),
        _ => panic!("expected the application error"),
    }
}

#[test]
fn unparseable_body_is_malformed() {
    let err = exchanges().details_decode("nonsense").unwrap_err();
    assert!(matches!(err, ApiError::MalformedEnvelope));
}

#[test]
fn non_object_body_is_malformed() {
    let err = exchanges().details_decode("[1,2,3]").unwrap_err();
    assert!(matches!(err, ApiError::MalformedEnvelope));
}

#[test]
fn non_string_error_is_malformed() {
    let err = exchanges().details_decode(r#"{"error":5}"#).unwrap_err();
    assert!(matches!(err, ApiError::MalformedEnvelope));
}

#[test]
fn cursor_with_non_string_token_is_malformed() {
    let body = r#"{"result":[],"cursor":{"last":5,"hasMore":true}}"#;
    let r = exchanges().list_decode(body);
    assert!(matches!(r, Err(ApiError::MalformedEnvelope)));
}

#[test]
fn cursor_missing_flag_is_malformed() {
    let body = r#"{"result":[],"cursor":{"last":"abc"}}"#;
    let r = exchanges().list_decode(body);
    assert!(matches!(r, Err(ApiError::MalformedEnvelope)));
}

#[test]
fn unexpected_shape_carries_the_raw_json() {
    let err = exchanges().details_decode(r#"{"result":42}"#).unwrap_err();
    match err {
        ApiError::UnexpectedShape(v) => assert_eq!(v, serde_json::Value::from(42u64)),
        _ => panic!("expected the shape error"),
    }
}

#[test]
fn trailing_garbage_is_malformed() {
    let err = exchanges().details_decode(r#"{"error":"x"} trailing"#).unwrap_err();
    assert!(matches!(err, ApiError::MalformedEnvelope));
}

#[test]
fn envelope_passes_allowance_through() {
    let body = r#"{"result":[],"allowance":{"cost":10,"remaining":90},"cursor":{"last":"t","hasMore":false}}"#;
    let env = cryptowatch::api::rest::parse_envelope(body).unwrap();
    let allowance = env.allowance.expect("the quota metadata must be kept");
    assert_eq!(allowance.get("cost").unwrap().as_u64(), Some(10));
    assert!(env.error.is_none());
    assert!(env.result.is_some());
    let cursor = env.cursor.unwrap();
    assert_eq!(cursor.last, "t");
    assert!(!cursor.has_more);
}

#[test]
fn cursor_round_trips_unmodified() {
    let body = r#"{"result":[],"cursor":{"last":"abc","hasMore":true}}"#;
    let page = exchanges().list_decode(body).unwrap();
    assert_eq!(page.result.len(), 0);
    let cursor = page.cursor.unwrap();
    assert_eq!(cursor.last, "abc");
    assert!(cursor.has_more);
}
