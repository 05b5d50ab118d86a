use axum_extractor_config::Rejection;
use axum_extractor_config::RejectionKind;
use axum_extractor_config::Response;
use axum_extractor_config::extensions::Extensions;
use axum_extractor_config::via_extensions::JsonConfig;
use axum_extractor_config::via_extensions::json_from_request;

type Handler = fn(Rejection) -> Response;

/// Decode a structured-body payload with the real decoding library and hand
/// the outcome to the extractor, as the host glue does.
fn decode_u32(body: &str) -> Result<u32, Rejection> {
    serde_json::from_str::<u32>(body).map_err(|err| Rejection {
        kind: if err.is_data() {
            RejectionKind::DataError
        } else {
            RejectionKind::SyntaxError
        },
        message: err.to_string(),
    })
}

#[test]
fn encode_decode_extract_round_trip() {
    let encoded = serde_json::to_string(&123u32).expect("encode");
    assert_eq!(encoded, "123");
    let store: Extensions<JsonConfig<Handler>> = Extensions::new();
    let extracted = json_from_request(decode_u32(&encoded), &store, 1).expect("well-formed");
    assert_eq!(extracted.0, 123);
}

#[test]
fn repeated_decode_of_one_body_extracts_one_value() {
    let body = "123";
    let store: Extensions<JsonConfig<Handler>> = Extensions::new();
    let first = json_from_request(decode_u32(body), &store, 1).expect("well-formed");
    let second = json_from_request(decode_u32(body), &store, 1).expect("well-formed");
    assert_eq!(first.0, second.0);
}

#[test]
fn malformed_body_gets_default_rejection() {
    let store: Extensions<JsonConfig<Handler>> = Extensions::new();
    let resp = json_from_request(decode_u32("\"foo\""), &store, 1).expect_err("malformed");
    assert_eq!(resp.status, 422);
    assert_eq!(resp.content_type, "text/plain; charset=utf-8");
    assert!(resp.body.contains("invalid type: string \"foo\", expected u32"));
}
