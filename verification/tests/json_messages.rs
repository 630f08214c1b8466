use yak_mania::api::{graphql_reply_outcome, graphql_request_body, mutation_result, registered_player_id, ApiError};
use yak_mania::json::{json_object, member_text};
use yak_mania::websocket::{
    connection_ack_of_frame, connection_init_message, data_of_frame, derive_ws_endpoint,
    frame_payload_text, frame_type, kind_of_frame, start_ack_of_frame, stop_message,
    subscribe_message, AckStep, WsMessageKind,
};

#[test]
fn objects_are_written_in_member_order() {
    let members = vec![
        ("b".to_string(), "\"x\\\"y\"".to_string()),
        ("a".to_string(), "{}".to_string()),
    ];
    assert_eq!(json_object(&members), "{\"b\":\"x\\\"y\",\"a\":{}}");
    assert_eq!(json_object(&Vec::new()), "{}");
}

#[test]
fn request_and_protocol_messages() {
    assert_eq!(graphql_request_body("query { a }"), "{\"query\":\"query { a }\"}");
    assert_eq!(connection_init_message(), "{\"type\":\"connection_init\"}");
    assert_eq!(stop_message("s1"), "{\"id\":\"s1\",\"type\":\"stop\"}");
    let msg = subscribe_message("s1", "h.example", "k", "subscription { x }");
    assert_eq!(
        msg,
        "{\"id\":\"s1\",\"payload\":{\"data\":\"{\\\"query\\\":\\\"subscription { x }\\\",\\\"variables\\\":{}}\",\"extensions\":{\"authorization\":{\"host\":\"h.example\",\"x-api-key\":\"k\"}}},\"type\":\"start\"}"
    );
    // the message is JSON with the original's structure
    let v: serde_json::Value = serde_json::from_str(&msg).unwrap();
    let data: serde_json::Value = serde_json::from_str(v["payload"]["data"].as_str().unwrap()).unwrap();
    assert_eq!(data["query"], "subscription { x }");
    assert_eq!(v["payload"]["extensions"]["authorization"]["x-api-key"], "k");
}

#[test]
fn endpoint_keeps_the_graphql_host() {
    let e = derive_ws_endpoint("https://abc.appsync-api.us-east-1.amazonaws.com/graphql", "k").unwrap();
    assert_eq!(e.host, "abc.appsync-api.us-east-1.amazonaws.com");
}

#[test]
fn graphql_reply_texts() {
    assert_eq!(graphql_reply_outcome("{\"data\":{\"x\":1}}").unwrap(), "{\"x\":1}");
    match graphql_reply_outcome("{\"errors\":[{\"errorType\":\"NoMoreYak\",\"message\":\"none\"}]}") {
        Err(ApiError::GraphQL { error_type, message }) => {
            assert_eq!(error_type, "NoMoreYak");
            assert_eq!(message, "none");
        }
        other => panic!("unexpected {other:?}"),
    }
    match graphql_reply_outcome("{\"errors\":[{}],\"data\":null}") {
        Err(ApiError::GraphQL { error_type, message }) => {
            assert_eq!(error_type, "Unknown");
            assert_eq!(message, "no message");
        }
        other => panic!("unexpected {other:?}"),
    }
    // an empty error list is no error
    assert_eq!(graphql_reply_outcome("{\"errors\":[],\"data\":{}}").unwrap(), "{}");
    match graphql_reply_outcome("{}") {
        Err(ApiError::Parse(m)) => assert_eq!(m, "missing 'data' field in response"),
        other => panic!("unexpected {other:?}"),
    }
    match graphql_reply_outcome("not json") {
        Err(ApiError::Parse(m)) => {
            assert_eq!(m, serde_json::from_str::<serde_json::Value>("not json").unwrap_err().to_string())
        }
        other => panic!("unexpected {other:?}"),
    }
}

#[test]
fn mutation_results_and_registration() {
    assert_eq!(mutation_result("{\"buyBabyYak\":{\"sampled\":true}}", "buyBabyYak").unwrap(), "{\"sampled\":true}");
    match mutation_result("{}", "sellGrownYak") {
        Err(ApiError::Parse(m)) => assert_eq!(m, "missing 'sellGrownYak' in response"),
        other => panic!("unexpected {other:?}"),
    }
    let data = "{\"registerNewPlayer\":{\"player\":{\"id\":\"67e55044-10b1-426f-9247-bb680e5fe0c8\"}}}";
    assert_eq!(registered_player_id(data).unwrap(), "67e55044-10b1-426f-9247-bb680e5fe0c8");
    match registered_player_id("{\"registerNewPlayer\":{}}") {
        Err(ApiError::Parse(m)) => assert_eq!(m, "missing player.id in registerNewPlayer"),
        other => panic!("unexpected {other:?}"),
    }
    assert_eq!(member_text("{\"gameUpdated\":[1]}", "gameUpdated").unwrap(), Some("[1]".to_string()));
    assert_eq!(member_text("{}", "gameUpdated").unwrap(), None);
}

#[test]
fn protocol_frames() {
    assert_eq!(frame_type("{\"type\":\"ka\"}").unwrap(), "ka");
    assert_eq!(frame_type("{}").unwrap(), "");
    assert!(frame_type("{").is_err());
    assert_eq!(kind_of_frame("{\"type\":\"data\"}").unwrap(), WsMessageKind::Data);
    assert_eq!(kind_of_frame("{\"type\":7}").unwrap(), WsMessageKind::Unknown);
    assert_eq!(
        connection_ack_of_frame("{\"type\":\"connection_ack\",\"payload\":{\"connectionTimeoutMs\":1000}}").unwrap(),
        Some(1000)
    );
    assert_eq!(connection_ack_of_frame("{\"type\":\"connection_ack\"}").unwrap(), Some(300_000));
    assert_eq!(connection_ack_of_frame("{\"type\":\"ka\"}").unwrap(), None);
    assert_eq!(start_ack_of_frame("{\"type\":\"start_ack\",\"id\":\"s1\"}", "s1").unwrap(), AckStep::Acknowledged);
    assert_eq!(start_ack_of_frame("{\"type\":\"start_ack\",\"id\":\"s2\"}", "s1").unwrap(), AckStep::KeepWaiting);
    assert_eq!(start_ack_of_frame("{\"type\":\"error\",\"payload\":{\"e\":1}}", "s1").unwrap(), AckStep::Failed);
    assert_eq!(frame_payload_text("{\"type\":\"error\",\"payload\":{\"e\":1}}"), "{\"e\":1}");
    assert_eq!(frame_payload_text("{}"), "");
    let (id, data) = data_of_frame("{\"id\":\"s1\",\"type\":\"data\",\"payload\":{\"data\":{\"gameUpdated\":{}}}}").unwrap();
    assert_eq!(id.as_deref(), Some("s1"));
    assert_eq!(data.as_deref(), Some("{\"gameUpdated\":{}}"));
}

fn object(members: Vec<(&str, serde_json::Value)>) -> serde_json::Value {
    let mut map = serde_json::Map::new();
    for (k, v) in members {
        map.insert(k.to_string(), v);
    }
    serde_json::Value::Object(map)
}

fn text(s: &str) -> serde_json::Value {
    serde_json::Value::String(s.to_string())
}

#[test]
fn messages_match_serde_json_output() {
    let stop = object(vec![("type", text("stop")), ("id", text("s9"))]);
    assert_eq!(stop_message("s9"), stop.to_string());
    let init = object(vec![("type", text("connection_init"))]);
    assert_eq!(connection_init_message(), init.to_string());
    let request = object(vec![("query", text("q \"x\"")), ("variables", object(vec![]))]);
    let start = object(vec![
        ("id", text("s9")),
        ("type", text("start")),
        (
            "payload",
            object(vec![
                ("data", text(&request.to_string())),
                (
                    "extensions",
                    object(vec![(
                        "authorization",
                        object(vec![("host", text("h")), ("x-api-key", text("k"))]),
                    )]),
                ),
            ]),
        ),
    ]);
    assert_eq!(subscribe_message("s9", "h", "k", "q \"x\""), start.to_string());
    assert_eq!(graphql_request_body("q"), object(vec![("query", text("q"))]).to_string());
}
