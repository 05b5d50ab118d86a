use axum_extractor_config::Rejection;
use axum_extractor_config::RejectionKind;
use axum_extractor_config::via_types::Form;
use axum_extractor_config::via_types::Json;
use axum_extractor_config::via_types::form_from_request;
use axum_extractor_config::via_types::json_from_request;
use axum_extractor_config::via_types::query_from_request;

const DATA_ERROR_MESSAGE: &str = "Failed to deserialize the JSON body into the target type: \
     invalid type: string \"foo\", expected u32 at line 1 column 11";

#[test]
fn mod_json_ok() {
    let extracted =
        json_from_request::<u32, Rejection>(Ok(123)).expect("decode succeeded");
    assert_eq!(extracted.0, 123);
}

#[test]
fn mod_json_default_rejection() {
    let rejection = Rejection {
        kind: RejectionKind::DataError,
        message: String::from(DATA_ERROR_MESSAGE),
    };
    let resp = json_from_request::<u32, Rejection>(Err(rejection)).expect_err("decode failed");
    assert_eq!(resp.status, 422);
    assert_eq!(resp.content_type, "text/plain; charset=utf-8");
    assert_eq!(resp.body, DATA_ERROR_MESSAGE);
}

#[test]
fn static_query_default_rejection() {
    let rejection = Rejection {
        kind: RejectionKind::DataError,
        message: String::from("Failed to deserialize query string"),
    };
    let resp = query_from_request::<u32, Rejection>(Err(rejection)).expect_err("decode failed");
    assert_eq!(resp.status, 422);
    assert_eq!(resp.body, "Failed to deserialize query string");
}

#[test]
fn static_form_ok() {
    let extracted = form_from_request::<u32, Rejection>(Ok(8)).expect("decode succeeded");
    assert_eq!(extracted.0, 8);
}

#[test]
fn json_new_wraps_value() {
    let wrapped: Json<u32, Rejection> = Json::new(5);
    assert_eq!(wrapped.0, 5);
}

#[test]
fn form_new_wraps_value() {
    let wrapped: Form<u32, Rejection> = Form::new(6);
    assert_eq!(wrapped.0, 6);
}
