use serde_json::Value;
use thunderbird_api::client::{Exchange, ThunderbirdClient};
use thunderbird_api::router::{
    descriptor, forward_to_extension, handle_locally, reshape, route, translate, wrap_text,
    Reshape, Route,
};
use thunderbird_api::types::{JsonRpcRequest, JsonRpcResponse};

fn json(text: &str) -> Value {
    serde_json::from_str(text).expect("test text is JSON")
}

fn request(id: Option<Value>, method: &str, params: Option<Value>) -> JsonRpcRequest {
    JsonRpcRequest { jsonrpc: "2.0".to_string(), id, method: method.to_string(), params }
}

#[test]
fn descriptor_is_the_fixed_one() {
    assert_eq!(
        descriptor(),
        json(
            r#"{"protocolVersion":"2024-11-05","capabilities":{"tools":{}},
                "serverInfo":{"name":"thunderbird-bridge","version":"0.4.0"}}"#
        )
    );
}

#[test]
fn initialize_is_answered_locally() {
    let r = handle_locally(&request(Some(Value::from(1)), "initialize", None))
        .expect("handled locally")
        .expect("answered");
    assert_eq!(r.jsonrpc, "2.0");
    assert_eq!(r.id, Some(Value::from(1)));
    assert_eq!(r.result, Some(descriptor()));
    assert!(r.error.is_none());
}

#[test]
fn initialize_ignores_its_parameters() {
    let plain = handle_locally(&request(Some(Value::from("a")), "initialize", None))
        .expect("handled locally")
        .expect("answered");
    let with_params = handle_locally(&request(
        Some(Value::from("a")),
        "initialize",
        Some(json(r#"{"protocolVersion":"1999-01-01","capabilities":{"x":1}}"#)),
    ))
    .expect("handled locally")
    .expect("answered");
    assert_eq!(plain.to_value(), with_params.to_value());
    assert_eq!(with_params.result, Some(descriptor()));
}

#[test]
fn resources_list_is_empty() {
    let r = handle_locally(&request(Some(Value::from(2)), "resources/list", None))
        .expect("handled locally")
        .expect("answered");
    assert_eq!(r.id, Some(Value::from(2)));
    assert_eq!(r.result, Some(json(r#"{"resources":[]}"#)));
}

#[test]
fn resources_list_twice_gives_the_same_answer() {
    let q = request(Some(Value::from(9)), "resources/list", None);
    let first = handle_locally(&q).expect("handled locally").expect("answered");
    let second = handle_locally(&q).expect("handled locally").expect("answered");
    assert_eq!(first.to_value(), second.to_value());
    assert_eq!(
        first.to_value(),
        json(r#"{"jsonrpc":"2.0","id":9,"result":{"resources":[]}}"#)
    );
}

#[test]
fn prompts_list_is_empty() {
    let r = handle_locally(&request(Some(Value::from(3)), "prompts/list", None))
        .expect("handled locally")
        .expect("answered");
    assert_eq!(r.result, Some(json(r#"{"prompts":[]}"#)));
}

#[test]
fn notifications_get_no_answer() {
    let silent = handle_locally(&request(None, "notifications/initialized", None));
    assert!(matches!(silent, Some(None)));
    let with_id = handle_locally(&request(Some(Value::from(1)), "notifications/cancelled", None));
    assert!(matches!(with_id, Some(None)));
    let bare = handle_locally(&request(Some(Value::from(1)), "notifications/", None));
    assert!(matches!(bare, Some(None)));
}

#[test]
fn other_methods_are_not_local() {
    assert!(handle_locally(&request(Some(Value::from(1)), "tools/list", None)).is_none());
    assert!(handle_locally(&request(Some(Value::from(1)), "tools/call", None)).is_none());
    assert!(handle_locally(&request(Some(Value::from(1)), "notifications", None)).is_none());
    assert!(handle_locally(&request(Some(Value::from(1)), "Initialize", None)).is_none());
    assert!(handle_locally(&request(Some(Value::from(1)), "initialize ", None)).is_none());
    assert!(handle_locally(&request(Some(Value::from(1)), "", None)).is_none());
}

#[test]
fn tools_list_becomes_list_tools() {
    let (out, kind) = translate(&request(
        Some(Value::from(4)),
        "tools/list",
        Some(json(r#"{"cursor":"x"}"#)),
    ));
    assert_eq!(out.jsonrpc, "2.0");
    assert_eq!(out.id, Some(Value::from(4)));
    assert_eq!(out.method, "listTools");
    assert!(out.params.is_none());
    assert_eq!(kind, Reshape::Unchanged);
}

#[test]
fn tools_call_becomes_a_call_of_the_tool() {
    let (out, kind) = translate(&request(
        Some(Value::from("c")),
        "tools/call",
        Some(json(r#"{"name":"foo","arguments":{"x":1}}"#)),
    ));
    assert_eq!(out.jsonrpc, "2.0");
    assert_eq!(out.id, Some(Value::from("c")));
    assert_eq!(out.method, "foo");
    assert_eq!(out.params, Some(json(r#"{"x":1}"#)));
    assert_eq!(kind, Reshape::TextContent);
}

#[test]
fn tools_call_without_arguments_forwards_empty_object() {
    let (out, _) = translate(&request(
        Some(Value::from(1)),
        "tools/call",
        Some(json(r#"{"name":"foo"}"#)),
    ));
    assert_eq!(out.method, "foo");
    assert_eq!(out.params, Some(json("{}")));
}

#[test]
fn tools_call_defaults_fill_what_is_missing_or_mistyped() {
    let (none, _) = translate(&request(Some(Value::from(1)), "tools/call", None));
    assert_eq!(none.method, "");
    assert_eq!(none.params, Some(json("{}")));

    let (mistyped, _) = translate(&request(
        Some(Value::from(1)),
        "tools/call",
        Some(json(r#"{"name":5,"arguments":[1,2]}"#)),
    ));
    assert_eq!(mistyped.method, "");
    assert_eq!(mistyped.params, Some(json("{}")));

    let (scalar, _) = translate(&request(Some(Value::from(1)), "tools/call", Some(json("7"))));
    assert_eq!(scalar.method, "");
    assert_eq!(scalar.params, Some(json("{}")));
}

#[test]
fn other_requests_are_forwarded_as_they_are() {
    let q = request(Some(Value::from(8)), "searchMessages", Some(json(r#"{"q":"x"}"#)));
    let (out, kind) = translate(&q);
    assert_eq!(out.to_value(), q.to_value());
    assert_eq!(kind, Reshape::Unchanged);
}

#[test]
fn route_tells_the_three_outcomes_apart() {
    match route(&request(Some(Value::from(1)), "initialize", None)) {
        Route::Local(Some(r)) => assert_eq!(r.result, Some(descriptor())),
        other => panic!("unexpected route {:?}", other),
    }
    assert!(matches!(
        route(&request(None, "notifications/initialized", None)),
        Route::Local(None)
    ));
    match route(&request(Some(Value::from(1)), "tools/list", None)) {
        Route::TranslatedForward { request, reshape } => {
            assert_eq!(request.method, "listTools");
            assert_eq!(reshape, Reshape::Unchanged);
        }
        other => panic!("unexpected route {:?}", other),
    }
    match route(&request(
        Some(Value::from(1)),
        "tools/call",
        Some(json(r#"{"name":"foo"}"#)),
    )) {
        Route::TranslatedForward { request, reshape } => {
            assert_eq!(request.method, "foo");
            assert_eq!(reshape, Reshape::TextContent);
        }
        other => panic!("unexpected route {:?}", other),
    }
    assert!(matches!(
        route(&request(Some(Value::from(1)), "getMessage", None)),
        Route::VerbatimForward
    ));
}

#[test]
fn wrap_text_makes_a_single_text_block() {
    let r = wrap_text(Some(Value::from(1)), "hello".to_string());
    assert_eq!(r.id, Some(Value::from(1)));
    assert_eq!(r.result, Some(json(r#"{"content":[{"type":"text","text":"hello"}]}"#)));
    assert!(r.error.is_none());
}

#[test]
fn tool_result_is_wrapped_as_text() {
    let reply = JsonRpcResponse::success(Some(Value::from(1)), json(r#"{"y":2}"#));
    let r = reshape(Reshape::TextContent, reply);
    assert_eq!(r.id, Some(Value::from(1)));
    assert_eq!(
        r.result,
        Some(json(r#"{"content":[{"type":"text","text":"{\"y\":2}"}]}"#))
    );
    assert!(r.error.is_none());
}

#[test]
fn tool_error_is_not_wrapped() {
    let reply = JsonRpcResponse::error(Some(Value::from(1)), -1, "boom".to_string());
    let r = reshape(Reshape::TextContent, reply);
    assert_eq!(
        r.to_value(),
        json(r#"{"jsonrpc":"2.0","id":1,"error":{"code":-1,"message":"boom"}}"#)
    );
}

#[test]
fn unchanged_reply_is_handed_back() {
    let reply = JsonRpcResponse::success(Some(Value::from(1)), json(r#"{"tools":[]}"#));
    let r = reshape(Reshape::Unchanged, reply);
    assert_eq!(r.to_value(), json(r#"{"jsonrpc":"2.0","id":1,"result":{"tools":[]}}"#));
}

#[test]
fn tools_call_round_trip_with_a_back_end() {
    // A back-end that answers {"y":2} to the call of foo with {"x":1}.
    let client = ThunderbirdClient::new();
    let q = request(
        Some(Value::from(11)),
        "tools/call",
        Some(json(r#"{"name":"foo","arguments":{"x":1}}"#)),
    );
    let r = forward_to_extension(&client, &q, |url: &str, body: &str| {
        assert_eq!(url, "http://localhost:8766/");
        let sent: Value = serde_json::from_str(body).expect("body is JSON");
        assert_eq!(sent, json(r#"{"jsonrpc":"2.0","id":11,"method":"foo","params":{"x":1}}"#));
        Exchange::Body(r#"{"jsonrpc":"2.0","id":11,"result":{"y":2}}"#.to_string())
    });
    assert_eq!(
        r.to_value(),
        json(
            r#"{"jsonrpc":"2.0","id":11,
                "result":{"content":[{"type":"text","text":"{\"y\":2}"}]}}"#
        )
    );
}

#[test]
fn tools_call_error_from_the_back_end_is_propagated() {
    let client = ThunderbirdClient::new();
    let q = request(
        Some(Value::from(12)),
        "tools/call",
        Some(json(r#"{"name":"foo","arguments":{}}"#)),
    );
    let r = forward_to_extension(&client, &q, |_: &str, _: &str| {
        Exchange::Body(
            r#"{"jsonrpc":"2.0","id":12,"error":{"code":-1,"message":"boom"}}"#.to_string(),
        )
    });
    assert_eq!(
        r.to_value(),
        json(r#"{"jsonrpc":"2.0","id":12,"error":{"code":-1,"message":"boom"}}"#)
    );
}

#[test]
fn tools_list_forwards_list_tools_and_returns_the_reply() {
    let client = ThunderbirdClient::new();
    let q = request(Some(Value::from(13)), "tools/list", None);
    let r = forward_to_extension(&client, &q, |_: &str, body: &str| {
        let sent: Value = serde_json::from_str(body).expect("body is JSON");
        assert_eq!(sent, json(r#"{"jsonrpc":"2.0","id":13,"method":"listTools"}"#));
        Exchange::Body(r#"{"jsonrpc":"2.0","id":13,"result":{"tools":[{"name":"a"}]}}"#.to_string())
    });
    assert_eq!(
        r.to_value(),
        json(r#"{"jsonrpc":"2.0","id":13,"result":{"tools":[{"name":"a"}]}}"#)
    );
}

#[test]
fn unknown_method_is_forwarded_verbatim() {
    let client = ThunderbirdClient::new();
    let q = request(Some(Value::from("v")), "getMessage", Some(json(r#"{"id":5}"#)));
    let r = forward_to_extension(&client, &q, |_: &str, body: &str| {
        let sent: Value = serde_json::from_str(body).expect("body is JSON");
        assert_eq!(
            sent,
            json(r#"{"jsonrpc":"2.0","id":"v","method":"getMessage","params":{"id":5}}"#)
        );
        Exchange::Body(r#"{"jsonrpc":"2.0","id":"v","result":"mail"}"#.to_string())
    });
    assert_eq!(r.to_value(), json(r#"{"jsonrpc":"2.0","id":"v","result":"mail"}"#));
}

#[test]
fn unreachable_back_end_gives_internal_error_for_every_forwarded_method() {
    let client = ThunderbirdClient::new();
    for method in ["tools/list", "tools/call", "getMessage"] {
        let q = request(Some(Value::from(21)), method, None);
        let r = forward_to_extension(&client, &q, |_: &str, _: &str| {
            Exchange::Unreachable("connection refused".to_string())
        });
        assert_eq!(r.id, Some(Value::from(21)));
        assert!(r.result.is_none());
        let e = r.error.expect("error is present");
        assert_eq!(e.code, -32603);
        assert_eq!(
            e.message,
            "Connection failed: connection refused. Is Thunderbird running with the API extension?"
        );
    }
}
