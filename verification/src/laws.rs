//! What holds of the bridge as a whole, stated over the functions that say
//! what each part does.

use crate::client::{read_response, received, reply_of, unsent, Exchange};
use crate::json::{member_of, no_members, parse_outcome, Json};
use crate::sanitize::sanitized;
use crate::types::{
    error_json, error_of, request_json, request_of, response_json, response_of, ErrorView,
};
use crate::router::{
    capability_descriptor, empty_listing, is_notification, local_answer, outbound, reply_to,
    reshaped, Reshape,
};
use crate::types::{
    error_response, success_response, RequestView, ResponseView, INTERNAL_ERROR, PARSE_ERROR,
};
use vstd::prelude::*;

verus! {

/// A request whose method begins with `notifications/` gets no answer and is
/// not forwarded, whatever else it holds.
pub proof fn notification_has_no_answer(request: RequestView)
    requires
        is_notification(request.method),
    ensures
        local_answer(request) == Some(None::<ResponseView>),
{
    reveal_strlit("notifications/");
    reveal_strlit("initialize");
    reveal_strlit("resources/list");
    reveal_strlit("prompts/list");
    let prefix = "notifications/"@;
    assert(prefix[0] == 'n');
    assert(request.method.subrange(0, prefix.len() as int)[0] == request.method[0]);
    assert("initialize"@[0] == 'i');
    assert("resources/list"@[0] == 'r');
    assert("prompts/list"@[0] == 'p');
}

/// A response that the bridge makes by itself carries the identifier of the
/// request.
pub proof fn local_answer_keeps_id(request: RequestView)
    ensures
        match local_answer(request) {
            Some(Some(response)) => response.id == request.id,
            _ => true,
        },
{
}

/// Reshaping a reply leaves its identifier as it is.
pub proof fn reshaping_keeps_id(kind: Reshape, reply: ResponseView)
    ensures
        reshaped(kind, reply).id == reply.id,
{
}

/// The request that is sent in place of another carries the same identifier.
pub proof fn outbound_keeps_id(request: RequestView)
    ensures
        outbound(request).id == request.id,
{
}

/// Every response that the client makes by itself, for want of a reply that
/// parses, carries the identifier of the request: the report of a request
/// that could not be serialised, of a target that could not be reached, and
/// of a body that could not be read.
pub proof fn failure_keeps_id(id: Option<Json>, words: Seq<char>, exchange: Exchange)
    requires
        !(exchange is Body),
    ensures
        unsent(id, words).id == id,
        received(id, exchange).id == id,
        received(id, exchange).result.is_none(),
{
}

/// A body that gives no response, neither as it came nor repaired, gives a
/// parse error under the identifier of the request.
pub proof fn invalid_reply_is_parse_error(id: Option<Json>, body: Seq<char>)
    requires
        read_response(parse_outcome(body)) is Err,
        read_response(parse_outcome(sanitized(body))) is Err,
    ensures
        reply_of(id, body).id == id,
        reply_of(id, body).result.is_none(),
        reply_of(id, body).error.is_some(),
        reply_of(id, body).error.unwrap().code == PARSE_ERROR,
{
}

/// A body that gives a response as it came is never repaired: the response
/// is the one that it gives.
pub proof fn valid_reply_is_taken_as_it_came(id: Option<Json>, body: Seq<char>)
    requires
        read_response(parse_outcome(body)) is Ok,
    ensures
        Ok::<ResponseView, Seq<char>>(reply_of(id, body)) == read_response(parse_outcome(body)),
{
}

/// The response to a forwarded request carries the identifier of the
/// request, whatever the transport reported, provided that a body that gives
/// a response gives one under that identifier.
pub proof fn reply_keeps_id(request: RequestView, exchange: Exchange)
    requires
        match exchange {
            Exchange::Body(body) => reply_of(request.id, body@).id == request.id,
            _ => true,
        },
    ensures
        reply_to(request, exchange).id == request.id,
{
}

/// A response never carries both a result and an error: not one that the
/// bridge makes by itself, not one that the client makes of an exchange, and
/// not one that comes of reshaping a reply that carries at most one.
pub proof fn responses_are_well_formed(
    request: RequestView,
    id: Option<Json>,
    exchange: Exchange,
    kind: Reshape,
    reply: ResponseView,
)
    ensures
        match local_answer(request) {
            Some(Some(response)) => response.well_formed(),
            _ => true,
        },
        received(id, exchange).well_formed(),
        reply.well_formed() ==> reshaped(kind, reply).well_formed(),
        reply_to(request, exchange).well_formed(),
{
    match exchange {
        Exchange::Body(body) => {
            reply_is_well_formed(id, body@);
            reply_is_well_formed(request.id, body@);
        },
        _ => {},
    }
}

/// The response that the body of a reply gives carries at most one of a
/// result and an error.
pub proof fn reply_is_well_formed(id: Option<Json>, body: Seq<char>)
    ensures
        reply_of(id, body).well_formed(),
{
}

/// The member names of the envelopes differ from one another.
proof fn member_names_differ()
    ensures
        "jsonrpc"@ != "method"@,
        "jsonrpc"@ != "id"@,
        "jsonrpc"@ != "params"@,
        "jsonrpc"@ != "result"@,
        "jsonrpc"@ != "error"@,
        "method"@ != "id"@,
        "method"@ != "params"@,
        "id"@ != "params"@,
        "id"@ != "result"@,
        "id"@ != "error"@,
        "result"@ != "error"@,
        "code"@ != "message"@,
{
    reveal_strlit("jsonrpc");
    reveal_strlit("method");
    reveal_strlit("id");
    reveal_strlit("params");
    reveal_strlit("result");
    reveal_strlit("error");
    reveal_strlit("code");
    reveal_strlit("message");
    assert("jsonrpc"@.len() == 7);
    assert("method"@.len() == 6);
    assert("id"@.len() == 2);
    assert("params"@.len() == 6);
    assert("result"@.len() == 6);
    assert("error"@.len() == 5);
    assert("code"@.len() == 4);
    assert("message"@.len() == 7);
    assert("method"@[0] == 'm');
    assert("params"@[0] == 'p');
    assert("result"@[0] == 'r');
}

/// Reading the JSON form of an error object gives the error object back.
pub proof fn error_object_round_trips(error: ErrorView)
    ensures
        error_of(error_json(error)) == Some(error),
{
    member_names_differ();
}

/// Reading the JSON form of a request gives the request back, provided that
/// neither its identifier nor its parameters are `null`, which reads as
/// absent.
pub proof fn request_round_trips(request: RequestView)
    requires
        request.id != Some(Json::Null),
        request.params != Some(Json::Null),
    ensures
        request_of(request_json(request)) == Ok::<RequestView, crate::types::EnvelopeFault>(
            request,
        ),
{
    member_names_differ();
}

/// Reading the JSON form of a response gives the response back, provided
/// that it carries at most one of a result and an error, and that neither
/// its identifier nor its result are `null`, which reads as absent.
pub proof fn response_round_trips(response: ResponseView)
    requires
        response.well_formed(),
        response.id != Some(Json::Null),
        response.result != Some(Json::Null),
    ensures
        response_of(response_json(response)) == Ok::<ResponseView, crate::types::EnvelopeFault>(
            response,
        ),
{
    member_names_differ();
    match response.error {
        Some(error) => {
            error_object_round_trips(error);
        },
        None => {},
    }
}

/// `initialize` is answered with the fixed descriptor, whatever its
/// parameters are.
pub proof fn initialize_ignores_parameters(request: RequestView, params: Option<Json>)
    requires
        request.method == "initialize"@,
    ensures
        local_answer(request) == Some(
            Some(success_response(request.id, capability_descriptor())),
        ),
        local_answer(RequestView { params, ..request }) == local_answer(request),
{
}

/// `tools/call` without arguments is forwarded with the empty object as its
/// parameters.
pub proof fn missing_arguments_become_empty_object(request: RequestView)
    requires
        request.method == "tools/call"@,
        match request.params {
            Some(params) => member_of(params, "arguments"@).is_none(),
            None => true,
        },
    ensures
        outbound(request).params == Some(Json::Object(no_members())),
{
    reveal_strlit("tools/list");
    reveal_strlit("tools/call");
    assert("tools/list"@[6] != "tools/call"@[6]);
}

/// A reply without a result, such as one that carries an error, is handed on
/// as it is: it is never wrapped as content.
pub proof fn error_reply_is_handed_on(kind: Reshape, reply: ResponseView)
    requires
        reply.result.is_none(),
    ensures
        reshaped(kind, reply) == reply,
{
}

/// A back-end that cannot be reached gives an internal error under the
/// identifier of the request, for every request that is forwarded.
pub proof fn unreachable_is_internal_error(request: RequestView, words: String)
    ensures
        reply_to(request, Exchange::Unreachable(words)) == error_response(
            request.id,
            INTERNAL_ERROR,
            "Connection failed: "@ + words@
                + ". Is Thunderbird running with the API extension?"@,
        ),
{
}

/// Answering a listing leaves nothing behind: the same request gets the same
/// answer, the empty collection, every time.
pub proof fn listing_is_repeatable(first: RequestView, second: RequestView)
    requires
        first == second,
        first.method == "resources/list"@,
    ensures
        local_answer(first) == local_answer(second),
        local_answer(first) == Some(
            Some(success_response(first.id, empty_listing("resources"@))),
        ),
{
    reveal_strlit("initialize");
    reveal_strlit("resources/list");
    assert("initialize"@.len() != "resources/list"@.len());
}

} // verus!
