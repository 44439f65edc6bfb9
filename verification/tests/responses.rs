use rust_property::record::Properties;
use rust_property::response::{
    health_check, insert_response, lookup_response, server_error, Body, Response, STATUS_NOT_FOUND,
    STATUS_OK, STATUS_SERVER_ERROR,
};
use serde_json::Value;

fn json(text: &str) -> Value {
    serde_json::from_str(text).unwrap()
}

#[test]
fn status_codes() {
    assert_eq!(STATUS_OK, 200);
    assert_eq!(STATUS_NOT_FOUND, 404);
    assert_eq!(STATUS_SERVER_ERROR, 500);
}

#[test]
fn health_check_confirms() {
    let response = health_check();
    assert_eq!(
        response,
        Response { status: 200, body: Body::Message("API is running 🚀".to_string()) }
    );
}

#[test]
fn health_check_is_the_same_every_time() {
    let first = health_check();
    for _ in 0..1000 {
        assert_eq!(health_check(), first);
    }
}

#[test]
fn insert_accepted_is_confirmed() {
    let response = insert_response(Ok(()));
    assert_eq!(response, Response { status: 200, body: Body::Message("Success".to_string()) });
}

#[test]
fn insert_refused_is_a_server_error_with_the_words() {
    let response = insert_response(Err("write conflict".to_string()));
    assert_eq!(
        response,
        Response { status: 500, body: Body::Text("Error: write conflict".to_string()) }
    );
}

#[test]
fn insert_refused_with_no_words() {
    let response = insert_response(Err(String::new()));
    assert_eq!(response, Response { status: 500, body: Body::Text("Error: ".to_string()) });
}

#[test]
fn lookup_found_gives_the_payload_alone() {
    let record = Properties {
        model_id: "m1".to_string(),
        name: "color".to_string(),
        data: json(r#"{"r":255,"g":0,"b":0}"#),
    };
    let response = lookup_response(Ok(Some(record)));
    assert_eq!(response.status, 200);
    assert_eq!(response.body, Body::Payload(json(r#"{"r":255,"g":0,"b":0}"#)));
}

#[test]
fn lookup_found_null_payload() {
    let record =
        Properties { model_id: "m".to_string(), name: "n".to_string(), data: Value::Null };
    let response = lookup_response(Ok(Some(record)));
    assert_eq!(response, Response { status: 200, body: Body::Payload(Value::Null) });
}

#[test]
fn lookup_missing_is_not_found() {
    let response = lookup_response(Ok(None));
    assert_eq!(response, Response { status: 404, body: Body::Text("Not Found".to_string()) });
}

#[test]
fn lookup_failed_is_a_server_error_with_the_words() {
    let response = lookup_response(Err("connection reset".to_string()));
    assert_eq!(
        response,
        Response { status: 500, body: Body::Text("Error: connection reset".to_string()) }
    );
}

#[test]
fn server_error_keeps_the_words_after_the_prefix() {
    let response = server_error("timed out: 30s".to_string());
    assert_eq!(response.status, 500);
    assert_eq!(response.body, Body::Text("Error: timed out: 30s".to_string()));
}

#[test]
fn not_found_differs_from_failure() {
    let missing = lookup_response(Ok(None));
    let failed = lookup_response(Err("Not Found".to_string()));
    assert_ne!(missing.status, failed.status);
    assert_eq!(failed.body, Body::Text("Error: Not Found".to_string()));
}
