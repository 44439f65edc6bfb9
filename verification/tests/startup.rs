use rust_property::config::{bind_address, mongo_uri, CORS_MAX_AGE, JSON_LIMIT};
use rust_property::gateway::{
    advance, begin, ConnectAction, ConnectEvent, ConnectState, ConnectionError,
};
use rust_property::service::{
    allowed_headers, allowed_methods, Header, Method, Operation, ANY_ORIGIN, COLLECTION, DATABASE,
    MODELS_PATH, PROPERTY_PATH,
};

fn some(text: &str) -> Option<String> {
    Some(text.to_string())
}

#[test]
fn mongo_uri_with_nothing_set() {
    assert_eq!(mongo_uri(None, None), "mongodb://localhost:27017/?directConnection=true");
}

#[test]
fn mongo_uri_with_both_set() {
    assert_eq!(
        mongo_uri(some("db.internal"), some("27018")),
        "mongodb://db.internal:27018/?directConnection=true"
    );
}

#[test]
fn mongo_uri_defaults_each_alone() {
    assert_eq!(mongo_uri(some("db"), None), "mongodb://db:27017/?directConnection=true");
    assert_eq!(mongo_uri(None, some("1")), "mongodb://localhost:1/?directConnection=true");
}

#[test]
fn mongo_uri_keeps_an_empty_setting() {
    assert_eq!(mongo_uri(some(""), some("")), "mongodb://:/?directConnection=true");
}

#[test]
fn bind_address_with_nothing_set() {
    assert_eq!(bind_address(None, None), "localhost:8081");
}

#[test]
fn bind_address_defaults_each_alone() {
    assert_eq!(bind_address(some("0.0.0.0"), None), "0.0.0.0:8081");
    assert_eq!(bind_address(None, some("9000")), "localhost:9000");
    assert_eq!(bind_address(some("0.0.0.0"), some("9000")), "0.0.0.0:9000");
}

#[test]
fn limits() {
    assert_eq!(JSON_LIMIT, 50_000_000);
    assert_eq!(CORS_MAX_AGE, 3600);
}

#[test]
fn names_and_paths() {
    assert_eq!(DATABASE, "bimtiles");
    assert_eq!(COLLECTION, "properties");
    assert_eq!(MODELS_PATH, "/api/v1/models");
    assert_eq!(PROPERTY_PATH, "/api/v1/models/{model_id}/properties/{name}");
}

#[test]
fn operations_and_where_they_are_reached() {
    assert_eq!(Operation::HealthCheck.method(), Method::Get);
    assert_eq!(Operation::HealthCheck.path(), "/api/v1/models");
    assert_eq!(Operation::InsertProperties.method(), Method::Post);
    assert_eq!(Operation::InsertProperties.path(), "/api/v1/models");
    assert_eq!(Operation::GetProperties.method(), Method::Get);
    assert_eq!(Operation::GetProperties.path(), "/api/v1/models/{model_id}/properties/{name}");
}

#[test]
fn cross_origin_policy() {
    assert!(ANY_ORIGIN);
    assert_eq!(allowed_methods(), vec![Method::Get, Method::Post, Method::Put, Method::Delete]);
    assert_eq!(allowed_headers(), vec![Header::ContentType, Header::Authorization]);
}

#[test]
fn no_operation_is_reached_by_put_or_delete() {
    for operation in
        [Operation::HealthCheck, Operation::InsertProperties, Operation::GetProperties]
    {
        assert_ne!(operation.method(), Method::Put);
        assert_ne!(operation.method(), Method::Delete);
    }
}

#[test]
fn begin_orders_a_client_on_the_connection_string() {
    let (state, action) = begin(None, None);
    assert_eq!(state, ConnectState::Opening);
    assert_eq!(
        action,
        ConnectAction::Open("mongodb://localhost:27017/?directConnection=true".to_string())
    );
    let (state, action) = begin(some("db"), some("5"));
    assert_eq!(state, ConnectState::Opening);
    assert_eq!(action, ConnectAction::Open("mongodb://db:5/?directConnection=true".to_string()));
}

#[test]
fn connect_then_probe_then_serve() {
    let (state, _) = begin(None, None);
    let (state, action) = advance(state, ConnectEvent::Opened).unwrap();
    assert_eq!(state, ConnectState::Probing);
    assert_eq!(action, ConnectAction::Probe);
    let (state, action) = advance(state, ConnectEvent::Answered).unwrap();
    assert_eq!(state, ConnectState::Ready);
    assert_eq!(action, ConnectAction::Serve);
}

#[test]
fn a_client_that_does_not_open_aborts() {
    let step = advance(ConnectState::Opening, ConnectEvent::Refused("no route".to_string()));
    assert_eq!(
        step,
        Some((
            ConnectState::Failed,
            ConnectAction::Abort(ConnectionError { message: "no route".to_string() })
        ))
    );
}

#[test]
fn a_probe_that_fails_aborts() {
    let step = advance(ConnectState::Probing, ConnectEvent::Refused("timeout".to_string()));
    assert_eq!(
        step,
        Some((
            ConnectState::Failed,
            ConnectAction::Abort(ConnectionError { message: "timeout".to_string() })
        ))
    );
}

#[test]
fn an_event_out_of_place_is_not_taken() {
    assert_eq!(advance(ConnectState::Opening, ConnectEvent::Answered), None);
    assert_eq!(advance(ConnectState::Probing, ConnectEvent::Opened), None);
}

#[test]
fn a_finished_attempt_takes_no_event() {
    for state in [ConnectState::Ready, ConnectState::Failed] {
        assert_eq!(advance(state, ConnectEvent::Opened), None);
        assert_eq!(advance(state, ConnectEvent::Answered), None);
        assert_eq!(advance(state, ConnectEvent::Refused("late".to_string())), None);
    }
}
