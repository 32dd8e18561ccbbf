//! The decision that the bridge takes on each request: answer it locally,
//! translate it and forward it, or forward it as it is.

use crate::client::{received, unsent, Exchange, ThunderbirdClient};
use crate::json::{
    array_value, empty_map, json_of, json_of_option, member, member_of, no_members, object_value,
    render_outcome, render_text, text_member_of, text_value, Json,
};
use crate::text::{has_prefix, same_text};
use crate::types::{
    clone_value, request_json, success_response, text_member, JsonRpcRequest, JsonRpcResponse,
    RequestView, ResponseView, PROTOCOL_TAG,
};
use serde_json::Value;
use vstd::prelude::*;

verus! {

/// How the reply of the back-end becomes the response to the request.
#[derive(Clone, Copy, PartialEq, Eq, Structural, Debug)]
pub enum Reshape {
    /// The reply is the response.
    Unchanged,
    /// A result is serialised and wrapped as a single block of text. An error
    /// is handed on as it is.
    TextContent,
}

/// What the bridge does with a request.
#[derive(Debug)]
pub enum Route {
    /// The bridge answers by itself, with a response or, for a
    /// notification, with nothing.
    Local(Option<JsonRpcResponse>),
    /// The bridge sends `request` in place of the one it got, and reshapes
    /// the reply.
    TranslatedForward { request: JsonRpcRequest, reshape: Reshape },
    /// The bridge sends the request as it is and hands the reply back as it
    /// is.
    VerbatimForward,
}

/// The content of a [`Route`].
pub enum RouteView {
    Local(Option<ResponseView>),
    TranslatedForward { request: RequestView, reshape: Reshape },
    VerbatimForward,
}

impl View for Route {
    type V = RouteView;

    open spec fn view(&self) -> RouteView {
        match self {
            Route::Local(answer) => RouteView::Local(response_view(*answer)),
            Route::TranslatedForward { request, reshape } => RouteView::TranslatedForward {
                request: request@,
                reshape: *reshape,
            },
            Route::VerbatimForward => RouteView::VerbatimForward,
        }
    }
}

/// The content of an optional response.
pub open spec fn response_view(response: Option<JsonRpcResponse>) -> Option<ResponseView> {
    match response {
        Some(r) => Some(r@),
        None => None,
    }
}

/// The content of an optional local answer.
pub open spec fn answer_view(answer: Option<Option<JsonRpcResponse>>) -> Option<
    Option<ResponseView>,
> {
    match answer {
        Some(a) => Some(response_view(a)),
        None => None,
    }
}

/// An object with the one member `value` under `key`.
pub open spec fn single(key: Seq<char>, value: Json) -> Json {
    Json::Object(no_members().insert(key, value))
}

/// The identity of the bridge: its name and its version.
pub open spec fn server_identity() -> Json {
    Json::Object(
        no_members().insert("name"@, Json::Text("thunderbird-bridge"@)).insert(
            "version"@,
            Json::Text("0.4.0"@),
        ),
    )
}

/// The fixed descriptor that answers `initialize`: the protocol version, a
/// capability set that holds tool invocation alone, and the identity of the
/// bridge.
pub open spec fn capability_descriptor() -> Json {
    Json::Object(
        no_members().insert("protocolVersion"@, Json::Text("2024-11-05"@)).insert(
            "capabilities"@,
            single("tools"@, Json::Object(no_members())),
        ).insert("serverInfo"@, server_identity()),
    )
}

/// The empty collection under `key` that answers a listing.
pub open spec fn empty_listing(key: Seq<char>) -> Json {
    single(key, Json::Array(Seq::empty()))
}

/// Whether a method names a notification, to which nothing is answered.
pub open spec fn is_notification(method: Seq<char>) -> bool {
    "notifications/"@.is_prefix_of(method)
}

/// The answer that the bridge gives by itself: a response, nothing for a
/// notification, or no answer at all where the request is to be forwarded.
/// The method decides, and the first line that fits it.
pub open spec fn local_answer(request: RequestView) -> Option<Option<ResponseView>> {
    if request.method == "initialize"@ {
        Some(Some(success_response(request.id, capability_descriptor())))
    } else if request.method == "resources/list"@ {
        Some(Some(success_response(request.id, empty_listing("resources"@))))
    } else if request.method == "prompts/list"@ {
        Some(Some(success_response(request.id, empty_listing("prompts"@))))
    } else if is_notification(request.method) {
        Some(None)
    } else {
        None
    }
}

/// The tool that the parameters of `tools/call` name: the string under
/// `name`, or the empty text where there is none.
pub open spec fn tool_name(params: Option<Json>) -> Seq<char> {
    match params {
        Some(p) => match text_member_of(p, "name"@) {
            Some(name) => name,
            None => Seq::empty(),
        },
        None => Seq::empty(),
    }
}

/// The arguments that the parameters of `tools/call` hold: the object under
/// `arguments`, or the empty object where there is none.
pub open spec fn tool_arguments(params: Option<Json>) -> Json {
    match params {
        Some(p) => match member_of(p, "arguments"@) {
            Some(Json::Object(members)) => Json::Object(members),
            _ => Json::Object(no_members()),
        },
        None => Json::Object(no_members()),
    }
}

/// The request that goes to the back-end in place of `request`. The
/// identifier is kept in every case.
pub open spec fn outbound(request: RequestView) -> RequestView {
    if request.method == "tools/list"@ {
        RequestView { jsonrpc: PROTOCOL_TAG@, id: request.id, method: "listTools"@, params: None }
    } else if request.method == "tools/call"@ {
        RequestView {
            jsonrpc: PROTOCOL_TAG@,
            id: request.id,
            method: tool_name(request.params),
            params: Some(tool_arguments(request.params)),
        }
    } else {
        request
    }
}

/// How the reply to the forwarded form of `request` is reshaped.
pub open spec fn reshaping(request: RequestView) -> Reshape {
    if request.method == "tools/call"@ {
        Reshape::TextContent
    } else {
        Reshape::Unchanged
    }
}

/// The decision on `request`.
pub open spec fn route_of(request: RequestView) -> RouteView {
    match local_answer(request) {
        Some(answer) => RouteView::Local(answer),
        None => if request.method == "tools/list"@ || request.method == "tools/call"@ {
            RouteView::TranslatedForward {
                request: outbound(request),
                reshape: reshaping(request),
            }
        } else {
            RouteView::VerbatimForward
        },
    }
}

/// The result that wraps `text` as a single block of text.
pub open spec fn text_block(text: Seq<char>) -> Json {
    single(
        "content"@,
        Json::Array(
            seq![
                Json::Object(
                    no_members().insert("type"@, Json::Text("text"@)).insert(
                        "text"@,
                        Json::Text(text),
                    ),
                ),
            ],
        ),
    )
}

/// The compact text of a tree, or the empty text where it has none.
pub open spec fn rendered_or_empty(doc: Json) -> Seq<char> {
    match render_outcome(doc) {
        Ok(text) => text,
        Err(_) => Seq::empty(),
    }
}

/// The response that the reply `response` of the back-end becomes.
pub open spec fn reshaped(kind: Reshape, response: ResponseView) -> ResponseView {
    match kind {
        Reshape::Unchanged => response,
        Reshape::TextContent => match response.result {
            Some(result) => success_response(response.id, text_block(rendered_or_empty(result))),
            None => response,
        },
    }
}

/// The response to `request` where the transport reported `exchange`: what
/// the client makes of the exchange, reshaped as the method asks.
pub open spec fn reply_to(request: RequestView, exchange: Exchange) -> ResponseView {
    reshaped(reshaping(request), received(request.id, exchange))
}

/// Whether `response` is what forwarding `request` to `target` through
/// `transport` gives. Where the forwarded form of the request has no
/// serialised form, no exchange is made and the response says so. Otherwise
/// the transport was handed the target and that form, and the response is
/// [`reply_to`] the exchange that it reported.
pub open spec fn forwarded<F: FnOnce(&str, &str) -> Exchange>(
    transport: F,
    target: Seq<char>,
    request: RequestView,
    response: ResponseView,
) -> bool {
    match render_outcome(request_json(outbound(request))) {
        Ok(text) => exists|url: &str, body: &str, exchange: Exchange|
            url@ == target && body@ == text && #[trigger] call_ensures(
                transport,
                (url, body),
                exchange,
            ) && response == reply_to(request, exchange),
        Err(words) => response == unsent(request.id, words),
    }
}

fn single_value(key: &str, value: Value) -> (doc: Value)
    ensures
        json_of(doc) == single(key@, json_of(value)),
{
    let mut members = empty_map();
    members.insert(key.to_owned(), value);
    object_value(members)
}

fn empty_object() -> (doc: Value)
    ensures
        json_of(doc) == Json::Object(no_members()),
{
    object_value(empty_map())
}

fn listing(key: &str) -> (doc: Value)
    ensures
        json_of(doc) == empty_listing(key@),
{
    let items: Vec<Value> = Vec::new();
    let list = array_value(items);
    assert(items@.map_values(|item: Value| json_of(item)) =~= Seq::<Json>::empty());
    single_value(key, list)
}

/// The descriptor that answers `initialize`.
pub fn descriptor() -> (doc: Value)
    ensures
        json_of(doc) == capability_descriptor(),
{
    let mut identity = empty_map();
    identity.insert("name".to_owned(), text_value("thunderbird-bridge".to_owned()));
    identity.insert("version".to_owned(), text_value("0.4.0".to_owned()));
    let mut members = empty_map();
    members.insert("protocolVersion".to_owned(), text_value("2024-11-05".to_owned()));
    members.insert("capabilities".to_owned(), single_value("tools", empty_object()));
    members.insert("serverInfo".to_owned(), object_value(identity));
    object_value(members)
}

/// Answers a request without the back-end, where the bridge answers by
/// itself: `Some(Some(..))` with the response, `Some(None)` for a
/// notification, `None` where the request is to be forwarded.
pub fn handle_locally(request: &JsonRpcRequest) -> (answer: Option<Option<JsonRpcResponse>>)
    ensures
        answer_view(answer) == local_answer(request@),
        match answer {
            Some(Some(response)) => response.well_formed(),
            _ => true,
        },
{
    let method = request.method.as_str();
    if same_text(method, "initialize") {
        Some(Some(JsonRpcResponse::success(clone_value(&request.id), descriptor())))
    } else if same_text(method, "resources/list") {
        Some(Some(JsonRpcResponse::success(clone_value(&request.id), listing("resources"))))
    } else if same_text(method, "prompts/list") {
        Some(Some(JsonRpcResponse::success(clone_value(&request.id), listing("prompts"))))
    } else if has_prefix(method, "notifications/") {
        Some(None)
    } else {
        None
    }
}

fn name_of(params: &Option<Value>) -> (name: String)
    ensures
        name@ == tool_name(json_of_option(*params)),
{
    match params {
        Some(p) => match text_member(p, "name") {
            Some(name) => name,
            None => String::new(),
        },
        None => String::new(),
    }
}

fn arguments_of(params: &Option<Value>) -> (arguments: Value)
    ensures
        json_of(arguments) == tool_arguments(json_of_option(*params)),
{
    match params {
        Some(p) => match member(p, "arguments") {
            Some(a) => if a.is_object() {
                a.clone()
            } else {
                empty_object()
            },
            None => empty_object(),
        },
        None => empty_object(),
    }
}

/// The request that goes to the back-end in place of `request`, and how the
/// reply is to be reshaped. `tools/list` becomes `listTools` without
/// parameters. `tools/call` becomes a call of the tool it names, with its
/// arguments as the parameters. Any other request goes as it is.
pub fn translate(request: &JsonRpcRequest) -> (shaped: (JsonRpcRequest, Reshape))
    ensures
        shaped.0@ == outbound(request@),
        shaped.1 == reshaping(request@),
{
    let method = request.method.as_str();
    if same_text(method, "tools/list") {
        proof {
            reveal_strlit("tools/list");
            reveal_strlit("tools/call");
            assert("tools/list"@[6] != "tools/call"@[6]);
        }
        (
            JsonRpcRequest {
                jsonrpc: PROTOCOL_TAG.to_owned(),
                id: clone_value(&request.id),
                method: "listTools".to_owned(),
                params: None,
            },
            Reshape::Unchanged,
        )
    } else if same_text(method, "tools/call") {
        (
            JsonRpcRequest {
                jsonrpc: PROTOCOL_TAG.to_owned(),
                id: clone_value(&request.id),
                method: name_of(&request.params),
                params: Some(arguments_of(&request.params)),
            },
            Reshape::TextContent,
        )
    } else {
        (request.clone(), Reshape::Unchanged)
    }
}

/// Decides what to do with a request.
pub fn route(request: &JsonRpcRequest) -> (decision: Route)
    ensures
        decision@ == route_of(request@),
{
    match handle_locally(request) {
        Some(answer) => Route::Local(answer),
        None => {
            let method = request.method.as_str();
            if same_text(method, "tools/list") || same_text(method, "tools/call") {
                let shaped = translate(request);
                Route::TranslatedForward { request: shaped.0, reshape: shaped.1 }
            } else {
                Route::VerbatimForward
            }
        },
    }
}

/// The successful response that carries `text` as a single block of text.
pub fn wrap_text(id: Option<Value>, text: String) -> (response: JsonRpcResponse)
    ensures
        response@ == success_response(json_of_option(id), text_block(text@)),
        response.well_formed(),
{
    let mut block = empty_map();
    block.insert("type".to_owned(), text_value("text".to_owned()));
    block.insert("text".to_owned(), text_value(text));
    let mut items: Vec<Value> = Vec::new();
    items.push(object_value(block));
    let list = array_value(items);
    assert(items@.map_values(|item: Value| json_of(item)) =~= seq![json_of(items@[0])]);
    JsonRpcResponse::success(id, single_value("content", list))
}

/// Reshapes the reply of the back-end into the response to the request.
pub fn reshape(kind: Reshape, response: JsonRpcResponse) -> (shaped: JsonRpcResponse)
    ensures
        shaped@ == reshaped(kind, response@),
        response.well_formed() ==> shaped.well_formed(),
{
    match kind {
        Reshape::Unchanged => response,
        Reshape::TextContent => match &response.result {
            Some(result) => {
                let text = match render_text(result) {
                    Ok(text) => text,
                    Err(_) => String::new(),
                };
                wrap_text(response.id, text)
            },
            None => response,
        },
    }
}

/// Forwards a request to the back-end, translated where its method asks for
/// it, and hands back the reply, reshaped where its method asks for it.
pub fn forward_to_extension<F: FnOnce(&str, &str) -> Exchange>(
    client: &ThunderbirdClient,
    request: &JsonRpcRequest,
    transport: F,
) -> (response: JsonRpcResponse)
    requires
        forall|url: &str, body: &str|
            url@ == client.target() ==> call_requires(transport, (url, body)),
    ensures
        forwarded(transport, client.target(), request@, response@),
        response.well_formed(),
{
    let shaped = translate(request);
    let reply = client.send_raw(&shaped.0, transport);
    reshape(shaped.1, reply)
}

} // verus!
