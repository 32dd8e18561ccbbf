//! One line in, at most one line out: the whole path of a request through the
//! bridge.

use crate::client::{Exchange, ThunderbirdClient};
use crate::json::{
    member_of, parse_outcome, parse_text, present, render_outcome, render_text, tree_outcome, Json,
};
use crate::router::{forward_to_extension, forwarded, handle_locally, is_notification, local_answer};
use crate::text::{blank, is_blank, joined};
use crate::types::{
    error_response, fault_text, present_member, request_of, response_json, JsonRpcRequest,
    JsonRpcResponse, RequestView, ResponseView, PARSE_ERROR,
};
use serde_json::Value;
use vstd::prelude::*;

verus! {

/// What is to be done for one line of input.
#[derive(Clone, Debug)]
pub enum Output {
    /// Nothing is written.
    Silent,
    /// The text is written as one line and flushed at once.
    Line(String),
    /// The response could not be serialised. Nothing is written, and the
    /// words go to the diagnostic channel.
    Fault(String),
}

/// The content of an [`Output`].
pub enum OutputView {
    Silent,
    Line(Seq<char>),
    Fault(Seq<char>),
}

impl View for Output {
    type V = OutputView;

    open spec fn view(&self) -> OutputView {
        match self {
            Output::Silent => OutputView::Silent,
            Output::Line(text) => OutputView::Line(text@),
            Output::Fault(words) => OutputView::Fault(words@),
        }
    }
}

/// The request that a parsed line holds, or the response that reports why
/// it holds none. A text that is no JSON is reported without an identifier.
/// A document that is no request is reported under the identifier that it
/// carries, if any.
pub open spec fn intake(parsed: Result<Json, Seq<char>>) -> Result<RequestView, ResponseView> {
    match parsed {
        Ok(doc) => match request_of(doc) {
            Ok(request) => Ok(request),
            Err(fault) => Err(
                error_response(
                    present(member_of(doc, "id"@)),
                    PARSE_ERROR,
                    "Parse error: "@ + fault_text(fault),
                ),
            ),
        },
        Err(words) => Err(error_response(None, PARSE_ERROR, "Parse error: "@ + words)),
    }
}

/// The content of what reading a request gave.
pub open spec fn intake_view(read: Result<JsonRpcRequest, JsonRpcResponse>) -> Result<
    RequestView,
    ResponseView,
> {
    match read {
        Ok(request) => Ok(request@),
        Err(response) => Err(response@),
    }
}

/// The output that carries a response: its compact JSON text on one line.
pub open spec fn written(response: ResponseView) -> OutputView {
    match render_outcome(response_json(response)) {
        Ok(text) => OutputView::Line(text),
        Err(words) => OutputView::Fault(words),
    }
}

/// The output for the response to a request: nothing where the request has
/// no identifier, which marks a notification.
pub open spec fn shown(request: RequestView, response: ResponseView) -> OutputView {
    if request.id.is_some() {
        written(response)
    } else {
        OutputView::Silent
    }
}

/// Whether `output` is what the bridge gives for `request`: the local answer
/// where the bridge answers by itself, else the reply to the forwarded
/// request, and nothing in either case for a notification.
pub open spec fn handled<F: FnOnce(&str, &str) -> Exchange>(
    transport: F,
    target: Seq<char>,
    request: RequestView,
    output: OutputView,
) -> bool {
    match local_answer(request) {
        Some(Some(response)) => output == shown(request, response),
        Some(None) => output == OutputView::Silent,
        None => exists|response: ResponseView| #[trigger]
            forwarded(transport, target, request, response) && output == shown(
                request,
                response,
            ),
    }
}

/// Whether `output` is what the bridge gives for one line of input. A blank
/// line gives nothing. A line that holds no request gives the report of
/// that. Any other line gives what its request gives.
pub open spec fn line_handled<F: FnOnce(&str, &str) -> Exchange>(
    transport: F,
    target: Seq<char>,
    line: Seq<char>,
    output: OutputView,
) -> bool {
    if blank(line) {
        output == OutputView::Silent
    } else {
        match intake(parse_outcome(line)) {
            Ok(request) => handled(transport, target, request, output),
            Err(response) => output == written(response),
        }
    }
}

/// The lines for which nothing is written: the blank ones, and the
/// notifications, which are the requests without an identifier and those
/// whose method begins with `notifications/`. Every other line gets exactly
/// one response.
pub open spec fn silent(line: Seq<char>) -> bool {
    blank(line) || match intake(parse_outcome(line)) {
        Ok(request) => request.id.is_none() || is_notification(request.method),
        Err(_) => false,
    }
}

/// Reads a request from the outcome of parsing a line.
pub fn read_request(parsed: Result<Value, String>) -> (read: Result<
    JsonRpcRequest,
    JsonRpcResponse,
>)
    ensures
        intake_view(read) == intake(tree_outcome(parsed)),
{
    match parsed {
        Ok(doc) => match JsonRpcRequest::from_value(&doc) {
            Ok(request) => Ok(request),
            Err(fault) => {
                let words = fault.message();
                Err(
                    JsonRpcResponse::error(
                        present_member(&doc, "id"),
                        PARSE_ERROR,
                        joined("Parse error: ", words.as_str()),
                    ),
                )
            },
        },
        Err(words) => Err(
            JsonRpcResponse::error(None, PARSE_ERROR, joined("Parse error: ", words.as_str())),
        ),
    }
}

/// The line that carries a response.
pub fn render_response(response: &JsonRpcResponse) -> (output: Output)
    ensures
        output@ == written(response@),
{
    let doc = response.to_value();
    match render_text(&doc) {
        Ok(text) => Output::Line(text),
        Err(words) => Output::Fault(words),
    }
}

/// Handles a request: answers it locally or forwards it, and gives the line
/// to write, if any. A request without an identifier and a request whose
/// method begins with `notifications/` are notifications, and give nothing.
pub fn respond<F: FnOnce(&str, &str) -> Exchange>(
    client: &ThunderbirdClient,
    request: &JsonRpcRequest,
    transport: F,
) -> (output: Output)
    requires
        forall|url: &str, body: &str|
            url@ == client.target() ==> call_requires(transport, (url, body)),
    ensures
        handled(transport, client.target(), request@, output@),
        output@ == OutputView::Silent <==> request@.id.is_none() || is_notification(
            request@.method,
        ),
{
    proof {
        if is_notification(request@.method) {
            crate::laws::notification_has_no_answer(request@);
        }
    }
    match handle_locally(request) {
        Some(Some(response)) => {
            if request.id.is_some() {
                render_response(&response)
            } else {
                Output::Silent
            }
        },
        Some(None) => Output::Silent,
        None => {
            let response = forward_to_extension(client, request, transport);
            if request.id.is_some() {
                render_response(&response)
            } else {
                Output::Silent
            }
        },
    }
}

/// Handles one line of input, and gives the line to write, if any.
pub fn handle_line<F: FnOnce(&str, &str) -> Exchange>(
    client: &ThunderbirdClient,
    line: &str,
    transport: F,
) -> (output: Output)
    requires
        forall|url: &str, body: &str|
            url@ == client.target() ==> call_requires(transport, (url, body)),
    ensures
        line_handled(transport, client.target(), line@, output@),
        output@ == OutputView::Silent <==> silent(line@),
{
    if is_blank(line) {
        return Output::Silent;
    }
    match read_request(parse_text(line)) {
        Ok(request) => respond(client, &request, transport),
        Err(response) => render_response(&response),
    }
}

} // verus!
