use axum_extractor_config::Config;
use axum_extractor_config::Rejection;
use axum_extractor_config::Response;
use axum_extractor_config::config::LayerStep;
use axum_extractor_config::config::duplicate_config_response;
use axum_extractor_config::extensions::Extensions;
use axum_extractor_config::via_extensions::JsonConfig;

type Handler = fn(Rejection) -> Response;

const JSON_KEY: u64 = 1;

fn config_name() -> String {
    String::from("axum_extractor_config::via_extensions::JsonConfig")
}

#[test]
fn config_new_into_inner_round_trip() {
    let config: Config<u64> = Config::new(12);
    assert_eq!(config.into_inner(), 12);
}

#[test]
fn layer_installs_once() {
    let mut store: Extensions<JsonConfig<Handler>> = Extensions::new();
    let carrier = Config::new(JsonConfig::<Handler>::new());
    let layered = carrier.layer((), JSON_KEY, config_name());
    match layered.call(&mut store) {
        LayerStep::Proceed => {}
        LayerStep::ShortCircuit(_) => panic!("first installation must proceed"),
    }
    assert!(store.contains_key(JSON_KEY));
}

#[test]
fn error_on_duplicate_config() {
    let mut store: Extensions<JsonConfig<Handler>> = Extensions::new();
    let first = Config::new(JsonConfig::<Handler>::new()).layer((), JSON_KEY, config_name());
    let second = Config::new(JsonConfig::<Handler>::new()).layer((), JSON_KEY, config_name());
    match first.call(&mut store) {
        LayerStep::Proceed => {}
        LayerStep::ShortCircuit(_) => panic!("first installation must proceed"),
    }
    let resp = match second.call(&mut store) {
        LayerStep::ShortCircuit(resp) => resp,
        LayerStep::Proceed => panic!("second installation must short-circuit"),
    };
    assert_eq!(resp.status, 500);
    assert_eq!(resp.content_type, "text/plain; charset=utf-8");
    assert_eq!(
        resp.body,
        "Config of type \"axum_extractor_config::via_extensions::JsonConfig\" \
         was already added. Configs can you be added once"
    );
}

#[test]
fn duplicate_even_when_store_was_prefilled() {
    let mut store: Extensions<JsonConfig<Handler>> = Extensions::new();
    assert!(store.insert(JSON_KEY, JsonConfig::<Handler>::new()));
    let layered = Config::new(JsonConfig::<Handler>::new()).layer((), JSON_KEY, config_name());
    match layered.call(&mut store) {
        LayerStep::ShortCircuit(resp) => assert_eq!(resp.status, 500),
        LayerStep::Proceed => panic!("installation over a present carrier must short-circuit"),
    }
}

#[test]
fn duplicate_response_message_shape() {
    let resp = duplicate_config_response("a::B");
    assert_eq!(resp.status, 500);
    assert_eq!(resp.content_type, "text/plain; charset=utf-8");
    assert_eq!(
        resp.body,
        "Config of type \"a::B\" was already added. Configs can you be added once"
    );
}

#[test]
fn from_request_reads_installed_carrier() {
    let mut store: Extensions<u64> = Extensions::new();
    assert!(Config::from_request(&store, 9).is_none());
    let layered = Config::new(55u64).layer((), 9, String::from("cfg"));
    match layered.call(&mut store) {
        LayerStep::Proceed => {}
        LayerStep::ShortCircuit(_) => panic!("first installation must proceed"),
    }
    let carrier = Config::from_request(&store, 9).expect("carrier must be installed");
    assert_eq!(carrier.into_inner(), 55);
}
