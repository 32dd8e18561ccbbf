use serde_json::Value;
use thunderbird_api::bridge::{handle_line, read_request, render_response, respond, Output};
use thunderbird_api::client::{Exchange, ThunderbirdClient};
use thunderbird_api::types::{JsonRpcRequest, JsonRpcResponse};

fn json(text: &str) -> Value {
    serde_json::from_str(text).expect("test text is JSON")
}

fn no_exchange(_: &str, _: &str) -> Exchange {
    panic!("the back-end must not be contacted")
}

fn line_of(output: Output) -> Value {
    match output {
        Output::Line(text) => {
            assert!(!text.contains('\n'));
            json(&text)
        }
        other => panic!("unexpected output {:?}", other),
    }
}

#[test]
fn blank_lines_give_nothing() {
    let client = ThunderbirdClient::new();
    assert!(matches!(handle_line(&client, "", no_exchange), Output::Silent));
    assert!(matches!(handle_line(&client, "   ", no_exchange), Output::Silent));
    assert!(matches!(handle_line(&client, "\t \r", no_exchange), Output::Silent));
    assert!(matches!(handle_line(&client, "\u{a0}\u{2003}\u{3000}", no_exchange), Output::Silent));
}

#[test]
fn malformed_line_gives_parse_error_with_null_id() {
    let client = ThunderbirdClient::new();
    let out = line_of(handle_line(&client, "{not json", no_exchange));
    assert_eq!(out.get("jsonrpc"), Some(&Value::from("2.0")));
    assert_eq!(out.get("id"), Some(&Value::Null));
    assert!(out.get("result").is_none());
    let error = out.get("error").expect("error is present");
    assert_eq!(error.get("code"), Some(&Value::from(-32700)));
    let message = error.get("message").and_then(|m| m.as_str()).expect("message is text");
    assert!(message.starts_with("Parse error: "));
    assert!(message.len() > "Parse error: ".len());
}

#[test]
fn bare_scalar_is_a_parse_error() {
    let client = ThunderbirdClient::new();
    let out = line_of(handle_line(&client, "42", no_exchange));
    assert_eq!(
        out,
        json(
            r#"{"jsonrpc":"2.0","id":null,
                "error":{"code":-32700,"message":"Parse error: expected a JSON object"}}"#
        )
    );
}

#[test]
fn id_is_salvaged_from_a_document_that_is_no_request() {
    let client = ThunderbirdClient::new();
    let out = line_of(handle_line(&client, r#"{"id":7,"params":{}}"#, no_exchange));
    assert_eq!(
        out,
        json(
            r#"{"jsonrpc":"2.0","id":7,
                "error":{"code":-32700,"message":"Parse error: missing or invalid field `jsonrpc`"}}"#
        )
    );
    let out = line_of(handle_line(&client, r#"{"jsonrpc":"2.0","id":"s"}"#, no_exchange));
    assert_eq!(
        out,
        json(
            r#"{"jsonrpc":"2.0","id":"s",
                "error":{"code":-32700,"message":"Parse error: missing or invalid field `method`"}}"#
        )
    );
}

#[test]
fn document_without_id_that_is_no_request_gets_null_id() {
    let client = ThunderbirdClient::new();
    let out = line_of(handle_line(&client, r#"{"jsonrpc":"2.0"}"#, no_exchange));
    assert_eq!(out.get("id"), Some(&Value::Null));
    assert_eq!(
        out.get("error").and_then(|e| e.get("code")),
        Some(&Value::from(-32700))
    );
}

#[test]
fn initialize_line_is_answered() {
    let client = ThunderbirdClient::new();
    let out = line_of(handle_line(
        &client,
        r#"{"jsonrpc":"2.0","id":1,"method":"initialize","params":{"clientInfo":{"name":"x"}}}"#,
        no_exchange,
    ));
    assert_eq!(
        out,
        json(
            r#"{"jsonrpc":"2.0","id":1,"result":{"protocolVersion":"2024-11-05",
                "capabilities":{"tools":{}},
                "serverInfo":{"name":"thunderbird-bridge","version":"0.4.0"}}}"#
        )
    );
}

#[test]
fn response_line_is_compact_json() {
    let client = ThunderbirdClient::new();
    match handle_line(&client, r#"{"jsonrpc":"2.0","id":2,"method":"prompts/list"}"#, no_exchange) {
        Output::Line(text) => {
            assert_eq!(text, r#"{"id":2,"jsonrpc":"2.0","result":{"prompts":[]}}"#)
        }
        other => panic!("unexpected output {:?}", other),
    }
}

#[test]
fn response_keeps_the_type_of_the_id() {
    let client = ThunderbirdClient::new();
    let out = line_of(handle_line(
        &client,
        r#"{"jsonrpc":"2.0","id":"1","method":"resources/list"}"#,
        no_exchange,
    ));
    assert_eq!(out.get("id"), Some(&Value::from("1")));
    let out = line_of(handle_line(
        &client,
        r#"{"jsonrpc":"2.0","id":1.5,"method":"resources/list"}"#,
        no_exchange,
    ));
    assert_eq!(out.get("id"), Some(&json("1.5")));
}

#[test]
fn notification_lines_give_nothing() {
    let client = ThunderbirdClient::new();
    assert!(matches!(
        handle_line(&client, r#"{"jsonrpc":"2.0","method":"notifications/initialized"}"#, no_exchange),
        Output::Silent
    ));
    assert!(matches!(
        handle_line(
            &client,
            r#"{"jsonrpc":"2.0","id":3,"method":"notifications/cancelled"}"#,
            no_exchange
        ),
        Output::Silent
    ));
}

#[test]
fn request_without_id_gives_nothing() {
    let client = ThunderbirdClient::new();
    assert!(matches!(
        handle_line(&client, r#"{"jsonrpc":"2.0","method":"initialize"}"#, no_exchange),
        Output::Silent
    ));
    assert!(matches!(
        handle_line(&client, r#"{"jsonrpc":"2.0","id":null,"method":"resources/list"}"#, no_exchange),
        Output::Silent
    ));
    let silent = handle_line(
        &client,
        r#"{"jsonrpc":"2.0","method":"getMessage"}"#,
        |_: &str, _: &str| Exchange::Body(r#"{"jsonrpc":"2.0","id":null,"result":1}"#.to_string()),
    );
    assert!(matches!(silent, Output::Silent));
}

#[test]
fn forwarded_line_is_answered_with_the_reply() {
    let client = ThunderbirdClient::new();
    let out = line_of(handle_line(
        &client,
        r#"{"jsonrpc":"2.0","id":4,"method":"tools/call","params":{"name":"foo","arguments":{"x":1}}}"#,
        |url: &str, body: &str| {
            assert_eq!(url, "http://localhost:8766/");
            assert_eq!(
                json(body),
                json(r#"{"jsonrpc":"2.0","id":4,"method":"foo","params":{"x":1}}"#)
            );
            Exchange::Body(r#"{"jsonrpc":"2.0","id":4,"result":{"y":2}}"#.to_string())
        },
    ));
    assert_eq!(
        out,
        json(
            r#"{"jsonrpc":"2.0","id":4,
                "result":{"content":[{"type":"text","text":"{\"y\":2}"}]}}"#
        )
    );
}

#[test]
fn forwarded_line_with_unreachable_back_end_gives_internal_error() {
    let client = ThunderbirdClient::new();
    let out = line_of(handle_line(
        &client,
        r#"{"jsonrpc":"2.0","id":"x","method":"tools/list"}"#,
        |_: &str, _: &str| Exchange::Unreachable("connection refused".to_string()),
    ));
    assert_eq!(out.get("id"), Some(&Value::from("x")));
    assert_eq!(
        out.get("error").and_then(|e| e.get("code")),
        Some(&Value::from(-32603))
    );
}

#[test]
fn read_request_reports_the_parser_words() {
    let failed = read_request(Err("some words".to_string())).unwrap_err();
    assert!(failed.id.is_none());
    let e = failed.error.expect("error is present");
    assert_eq!(e.code, -32700);
    assert_eq!(e.message, "Parse error: some words");
    let fine = read_request(Ok(json(r#"{"jsonrpc":"2.0","id":1,"method":"m"}"#)))
        .expect("is a request");
    assert_eq!(fine.method, "m");
}

#[test]
fn render_response_gives_one_line() {
    let r = JsonRpcResponse::success(Some(Value::from(1)), Value::from("two\nlines"));
    match render_response(&r) {
        Output::Line(text) => {
            assert_eq!(text, r#"{"id":1,"jsonrpc":"2.0","result":"two\nlines"}"#);
        }
        other => panic!("unexpected output {:?}", other),
    }
}

#[test]
fn respond_answers_a_request_value() {
    let client = ThunderbirdClient::new();
    let q = JsonRpcRequest {
        jsonrpc: "2.0".to_string(),
        id: Some(Value::from(1)),
        method: "resources/list".to_string(),
        params: None,
    };
    let out = line_of(respond(&client, &q, no_exchange));
    assert_eq!(out, json(r#"{"jsonrpc":"2.0","id":1,"result":{"resources":[]}}"#));
}
