//! The client of the back-end service: what is sent, and how whatever comes
//! back becomes a response.
//!
//! The HTTP exchange itself is not made here. The caller supplies it as a
//! function from the target and the body to an [`Exchange`], and the client
//! decides everything around it.

use crate::json::{
    integer_value, json_of, json_of_option, parse_outcome, parse_text, render_outcome, render_text,
    text_outcome, tree_outcome, Json, JsonNumber,
};
use crate::sanitize::{sanitize_json, sanitized};
use crate::text::joined;
use crate::types::{
    clone_value, error_response, fault_text, request_json, response_of, JsonRpcRequest,
    JsonRpcResponse, RequestView, ResponseView, INTERNAL_ERROR, PARSE_ERROR, PROTOCOL_TAG,
};
use serde_json::Value;
use vstd::prelude::*;

verus! {

/// The fixed local target of the back-end service.
pub const THUNDERBIRD_URL: &'static str = "http://localhost:8766/";

/// The bound, in seconds, on the whole of one exchange with the back-end.
pub const REQUEST_TIMEOUT_SECS: u64 = 30;

/// What the transport reports of one POST to the back-end.
#[derive(Clone, Debug)]
pub enum Exchange {
    /// The body of the reply as text, whatever its HTTP status.
    Body(String),
    /// The target could not be reached. Holds the transport's own words.
    Unreachable(String),
    /// The body of the reply could not be read. Holds the transport's own
    /// words.
    Unreadable(String),
}

/// Why a direct call of a tool gave no value.
#[derive(Clone, Debug)]
pub enum ToolFailure {
    /// The response carried an error. Holds its message.
    Reported(String),
    /// The response carried neither a result nor an error.
    NoResult,
}

/// The response, or the parser's or the decoder's words, that the outcome of
/// a parse gives.
pub open spec fn read_response(parsed: Result<Json, Seq<char>>) -> Result<ResponseView, Seq<char>> {
    match parsed {
        Ok(doc) => match response_of(doc) {
            Ok(response) => Ok(response),
            Err(fault) => Err(fault_text(fault)),
        },
        Err(message) => Err(message),
    }
}

/// The response that a reply's body gives, where `first` is the outcome of
/// parsing the body as it came and `second` that of parsing its repair: the
/// first where it is a response, else the second where it is one, else a
/// parse error with the words of the second failure.
pub open spec fn settled(
    id: Option<Json>,
    first: Result<Json, Seq<char>>,
    second: Result<Json, Seq<char>>,
) -> ResponseView {
    match read_response(first) {
        Ok(response) => response,
        Err(_) => match read_response(second) {
            Ok(response) => response,
            Err(message) => error_response(
                id,
                PARSE_ERROR,
                "Invalid JSON from Thunderbird: "@ + message,
            ),
        },
    }
}

/// The response that the body of a reply gives for the request of identifier
/// `id`.
pub open spec fn reply_of(id: Option<Json>, body: Seq<char>) -> ResponseView {
    settled(id, parse_outcome(body), parse_outcome(sanitized(body)))
}

/// The response that an exchange gives for the request of identifier `id`.
pub open spec fn received(id: Option<Json>, exchange: Exchange) -> ResponseView {
    match exchange {
        Exchange::Body(body) => reply_of(id, body@),
        Exchange::Unreachable(words) => error_response(
            id,
            INTERNAL_ERROR,
            "Connection failed: "@ + words@
                + ". Is Thunderbird running with the API extension?"@,
        ),
        Exchange::Unreadable(words) => error_response(
            id,
            INTERNAL_ERROR,
            "Failed to read response body: "@ + words@,
        ),
    }
}

/// The response to a request that could not be serialised.
pub open spec fn unsent(id: Option<Json>, words: Seq<char>) -> ResponseView {
    error_response(id, PARSE_ERROR, "Failed to serialize request: "@ + words)
}

/// Whether `response` is what sending `request` to `target` through
/// `transport` gives. Where the request has no serialised form, no exchange
/// is made and the response says so. Otherwise the transport was handed the
/// target and the serialised request, and the response is what [`received`]
/// makes of the exchange that it reported.
pub open spec fn sent<F: FnOnce(&str, &str) -> Exchange>(
    transport: F,
    target: Seq<char>,
    request: RequestView,
    response: ResponseView,
) -> bool {
    match render_outcome(request_json(request)) {
        Ok(text) => exists|url: &str, body: &str, exchange: Exchange|
            url@ == target && body@ == text && #[trigger] call_ensures(
                transport,
                (url, body),
                exchange,
            ) && response == received(request.id, exchange),
        Err(words) => response == unsent(request.id, words),
    }
}

/// The request that a direct call of the tool `name` sends.
pub open spec fn tool_request(name: Seq<char>, args: Json) -> RequestView {
    RequestView {
        jsonrpc: PROTOCOL_TAG@,
        id: Some(Json::Number(JsonNumber::Integer(1))),
        method: name,
        params: Some(args),
    }
}

/// The words of a tool failure.
pub open spec fn failure_text(failure: ToolFailure) -> Seq<char> {
    match failure {
        ToolFailure::Reported(message) => message@,
        ToolFailure::NoResult => "No result in response"@,
    }
}

impl ToolFailure {
    /// The words of the failure.
    pub fn message(&self) -> (words: String)
        ensures
            words@ == failure_text(*self),
    {
        match self {
            ToolFailure::Reported(message) => message.clone(),
            ToolFailure::NoResult => "No result in response".to_owned(),
        }
    }
}

/// The content of what a direct call hands back.
pub open spec fn tool_view(outcome: Result<Value, ToolFailure>) -> Result<Json, Seq<char>> {
    match outcome {
        Ok(value) => Ok(json_of(value)),
        Err(failure) => Err(failure_text(failure)),
    }
}

/// What a direct call makes of a response: the message of its error where it
/// has one, else its result, else the report that it has none.
pub open spec fn tool_value(response: ResponseView) -> Result<Json, Seq<char>> {
    match response.error {
        Some(error) => Err(error.message),
        None => match response.result {
            Some(result) => Ok(result),
            None => Err("No result in response"@),
        },
    }
}

/// Reads a response from the outcome of a parse.
pub fn decode_reply(parsed: Result<Value, String>) -> (decoded: Result<JsonRpcResponse, String>)
    ensures
        reply_view(decoded) == read_response(tree_outcome(parsed)),
        decoded is Ok ==> decoded.unwrap().well_formed(),
{
    match parsed {
        Ok(doc) => match JsonRpcResponse::from_value(&doc) {
            Ok(response) => Ok(response),
            Err(fault) => Err(fault.message()),
        },
        Err(message) => Err(message),
    }
}

/// The content of a decoded reply.
pub open spec fn reply_view(decoded: Result<JsonRpcResponse, String>) -> Result<
    ResponseView,
    Seq<char>,
> {
    match decoded {
        Ok(response) => Ok(response@),
        Err(message) => Err(message@),
    }
}

/// Turns the body of a reply into a response. The body is parsed as it came.
/// Only where that gives no response is it repaired and parsed once more.
pub fn parse_reply(id: &Option<Value>, body: &str) -> (response: JsonRpcResponse)
    ensures
        response@ == reply_of(json_of_option(*id), body@),
        response.well_formed(),
{
    match decode_reply(parse_text(body)) {
        Ok(response) => response,
        Err(_) => {
            let repaired = sanitize_json(body);
            match decode_reply(parse_text(repaired.as_str())) {
                Ok(response) => response,
                Err(message) => JsonRpcResponse::error(
                    clone_value(id),
                    PARSE_ERROR,
                    joined("Invalid JSON from Thunderbird: ", message.as_str()),
                ),
            }
        },
    }
}

/// Turns what the transport reported into a response. Every failure becomes
/// an error response under the identifier of the request.
pub fn receive(id: &Option<Value>, exchange: Exchange) -> (response: JsonRpcResponse)
    ensures
        response@ == received(json_of_option(*id), exchange),
        response.well_formed(),
{
    match exchange {
        Exchange::Body(body) => parse_reply(id, body.as_str()),
        Exchange::Unreachable(words) => {
            let start = joined("Connection failed: ", words.as_str());
            let message = joined(
                start.as_str(),
                ". Is Thunderbird running with the API extension?",
            );
            JsonRpcResponse::error(clone_value(id), INTERNAL_ERROR, message)
        },
        Exchange::Unreadable(words) => JsonRpcResponse::error(
            clone_value(id),
            INTERNAL_ERROR,
            joined("Failed to read response body: ", words.as_str()),
        ),
    }
}

/// The body that carries a request to the back-end, or the words of the
/// failure to make one.
pub fn encode_request(request: &JsonRpcRequest) -> (body: Result<String, String>)
    ensures
        text_outcome(body) == render_outcome(request_json(request@)),
{
    let doc = request.to_value();
    render_text(&doc)
}

/// What a direct call makes of a response.
pub fn tool_outcome(response: JsonRpcResponse) -> (outcome: Result<Value, ToolFailure>)
    ensures
        tool_view(outcome) == tool_value(response@),
{
    match response.error {
        Some(error) => Err(ToolFailure::Reported(error.message)),
        None => match response.result {
            Some(result) => Ok(result),
            None => Err(ToolFailure::NoResult),
        },
    }
}

/// A client of the back-end service. It holds the connection target and the
/// time limit, which never change once it is made.
#[derive(Clone, Debug)]
pub struct ThunderbirdClient {
    url: String,
    timeout_secs: u64,
}

impl Default for ThunderbirdClient {
    fn default() -> (client: ThunderbirdClient)
        ensures
            client.target() == THUNDERBIRD_URL@,
            client.time_limit() == REQUEST_TIMEOUT_SECS,
    {
        ThunderbirdClient::new()
    }
}

impl ThunderbirdClient {
    /// The target that requests are posted to.
    pub closed spec fn target(&self) -> Seq<char> {
        self.url@
    }

    /// The bound, in seconds, on one exchange.
    pub closed spec fn time_limit(&self) -> u64 {
        self.timeout_secs
    }

    /// A client of the fixed local target, with the fixed time limit.
    pub fn new() -> (client: ThunderbirdClient)
        ensures
            client.target() == THUNDERBIRD_URL@,
            client.time_limit() == REQUEST_TIMEOUT_SECS,
    {
        ThunderbirdClient { url: THUNDERBIRD_URL.to_owned(), timeout_secs: REQUEST_TIMEOUT_SECS }
    }

    /// The target that requests are posted to.
    pub fn url(&self) -> (url: &str)
        ensures
            url@ == self.target(),
    {
        self.url.as_str()
    }

    /// The bound, in seconds, on one exchange.
    pub fn timeout_secs(&self) -> (limit: u64)
        ensures
            limit == self.time_limit(),
    {
        self.timeout_secs
    }

    /// Sends a request and hands back the response. Nothing fails outward:
    /// a request that cannot be serialised is answered without an exchange,
    /// and whatever the one exchange reports becomes a response as
    /// [`received`] says.
    ///
    /// `transport` makes the exchange: it posts the body, its second
    /// argument, to the target, its first.
    pub fn send_raw<F: FnOnce(&str, &str) -> Exchange>(
        &self,
        request: &JsonRpcRequest,
        transport: F,
    ) -> (response: JsonRpcResponse)
        requires
            forall|url: &str, body: &str|
                url@ == self.target() ==> call_requires(transport, (url, body)),
        ensures
            sent(transport, self.target(), request@, response@),
            response.well_formed(),
    {
        match encode_request(request) {
            Ok(body) => {
                let exchange = transport(self.url.as_str(), body.as_str());
                receive(&request.id, exchange)
            },
            Err(words) => JsonRpcResponse::error(
                clone_value(&request.id),
                PARSE_ERROR,
                joined("Failed to serialize request: ", words.as_str()),
            ),
        }
    }

    /// Calls the tool `name` with `args` and hands back the bare result, or
    /// the message of the error that came in its place.
    pub fn call_tool<F: FnOnce(&str, &str) -> Exchange>(
        &self,
        name: &str,
        args: Value,
        transport: F,
    ) -> (outcome: Result<Value, ToolFailure>)
        requires
            forall|url: &str, body: &str|
                url@ == self.target() ==> call_requires(transport, (url, body)),
        ensures
            exists|response: ResponseView| #[trigger]
                sent(transport, self.target(), tool_request(name@, json_of(args)), response)
                    && tool_view(outcome) == tool_value(response),
    {
        let request = JsonRpcRequest {
            jsonrpc: PROTOCOL_TAG.to_owned(),
            id: Some(integer_value(1)),
            method: name.to_owned(),
            params: Some(args),
        };
        let response = self.send_raw(&request, transport);
        tool_outcome(response)
    }
}

} // verus!
