//! The message envelopes that both dialects share, and their JSON form.

use crate::json::{
    empty_map, integer_of, integer_value, json_of, json_of_option, member, member_of, no_members,
    null_value, object_value, present, text_member_of, text_value, Json, JsonNumber,
};
use serde_json::Value;
use vstd::prelude::*;

verus! {

/// The protocol tag that the bridge stamps on every envelope it makes.
pub const PROTOCOL_TAG: &'static str = "2.0";

/// Code of an error that malformed JSON or a failed serialisation causes.
pub const PARSE_ERROR: i64 = -32700;

/// Code of an error that the transport to the back-end causes.
pub const INTERNAL_ERROR: i64 = -32603;

/// The error object of a response.
#[derive(Debug)]
pub struct JsonRpcError {
    pub code: i64,
    pub message: String,
}

/// A request of either dialect.
#[derive(Debug)]
pub struct JsonRpcRequest {
    pub jsonrpc: String,
    /// Absent on a notification, to which no response is ever made.
    pub id: Option<Value>,
    pub method: String,
    pub params: Option<Value>,
}

/// A response of either dialect. It carries a result or an error, never
/// both: see [`JsonRpcResponse::well_formed`].
#[derive(Debug)]
pub struct JsonRpcResponse {
    pub jsonrpc: String,
    pub id: Option<Value>,
    pub result: Option<Value>,
    pub error: Option<JsonRpcError>,
}

/// The content of a [`JsonRpcError`].
pub struct ErrorView {
    pub code: i64,
    pub message: Seq<char>,
}

/// The content of a [`JsonRpcRequest`].
pub struct RequestView {
    pub jsonrpc: Seq<char>,
    pub id: Option<Json>,
    pub method: Seq<char>,
    pub params: Option<Json>,
}

/// The content of a [`JsonRpcResponse`].
pub struct ResponseView {
    pub jsonrpc: Seq<char>,
    pub id: Option<Json>,
    pub result: Option<Json>,
    pub error: Option<ErrorView>,
}

impl View for JsonRpcError {
    type V = ErrorView;

    open spec fn view(&self) -> ErrorView {
        ErrorView { code: self.code, message: self.message@ }
    }
}

impl View for JsonRpcRequest {
    type V = RequestView;

    open spec fn view(&self) -> RequestView {
        RequestView {
            jsonrpc: self.jsonrpc@,
            id: json_of_option(self.id),
            method: self.method@,
            params: json_of_option(self.params),
        }
    }
}

impl ResponseView {
    /// A response carries a result or an error, never both.
    pub open spec fn well_formed(self) -> bool {
        !(self.result.is_some() && self.error.is_some())
    }
}

/// The content of an optional error object.
pub open spec fn error_view(error: Option<JsonRpcError>) -> Option<ErrorView> {
    match error {
        Some(e) => Some(e@),
        None => None,
    }
}

impl View for JsonRpcResponse {
    type V = ResponseView;

    open spec fn view(&self) -> ResponseView {
        ResponseView {
            jsonrpc: self.jsonrpc@,
            id: json_of_option(self.id),
            result: json_of_option(self.result),
            error: error_view(self.error),
        }
    }
}

/// The response that reports `result` for the request of identifier `id`.
pub open spec fn success_response(id: Option<Json>, result: Json) -> ResponseView {
    ResponseView { jsonrpc: PROTOCOL_TAG@, id, result: Some(result), error: None }
}

/// The response that reports an error for the request of identifier `id`.
pub open spec fn error_response(id: Option<Json>, code: i64, message: Seq<char>) -> ResponseView {
    ResponseView {
        jsonrpc: PROTOCOL_TAG@,
        id,
        result: None,
        error: Some(ErrorView { code, message }),
    }
}

/// A copy of an optional value.
pub fn clone_value(value: &Option<Value>) -> (copy: Option<Value>)
    ensures
        json_of_option(copy) == json_of_option(*value),
{
    match value {
        Some(v) => Some(v.clone()),
        None => None,
    }
}

impl Clone for JsonRpcError {
    fn clone(&self) -> (copy: JsonRpcError)
        ensures
            copy@ == self@,
    {
        JsonRpcError { code: self.code, message: self.message.clone() }
    }
}

impl Clone for JsonRpcRequest {
    fn clone(&self) -> (copy: JsonRpcRequest)
        ensures
            copy@ == self@,
    {
        JsonRpcRequest {
            jsonrpc: self.jsonrpc.clone(),
            id: clone_value(&self.id),
            method: self.method.clone(),
            params: clone_value(&self.params),
        }
    }
}

impl Clone for JsonRpcResponse {
    fn clone(&self) -> (copy: JsonRpcResponse)
        ensures
            copy@ == self@,
    {
        JsonRpcResponse {
            jsonrpc: self.jsonrpc.clone(),
            id: clone_value(&self.id),
            result: clone_value(&self.result),
            error: match &self.error {
                Some(e) => Some(e.clone()),
                None => None,
            },
        }
    }
}

/// Why a JSON document is not an envelope.
#[derive(Clone, Copy, PartialEq, Eq, Structural, Debug)]
pub enum EnvelopeFault {
    /// The document is not an object.
    NotObject,
    /// The member `jsonrpc` is missing or is not a string.
    ProtocolTag,
    /// The member `method` is missing or is not a string.
    Method,
    /// The member `error` is not an object with an integer `code` and a
    /// string `message`.
    ErrorObject,
    /// The document carries both a result and an error.
    ResultAndError,
}

/// The words that describe a fault.
pub open spec fn fault_text(fault: EnvelopeFault) -> Seq<char> {
    match fault {
        EnvelopeFault::NotObject => "expected a JSON object"@,
        EnvelopeFault::ProtocolTag => "missing or invalid field `jsonrpc`"@,
        EnvelopeFault::Method => "missing or invalid field `method`"@,
        EnvelopeFault::ErrorObject => "invalid field `error`"@,
        EnvelopeFault::ResultAndError => "both `result` and `error` are present"@,
    }
}

impl EnvelopeFault {
    /// The words that describe the fault.
    pub fn message(&self) -> (words: String)
        ensures
            words@ == fault_text(*self),
    {
        match self {
            EnvelopeFault::NotObject => "expected a JSON object".to_owned(),
            EnvelopeFault::ProtocolTag => "missing or invalid field `jsonrpc`".to_owned(),
            EnvelopeFault::Method => "missing or invalid field `method`".to_owned(),
            EnvelopeFault::ErrorObject => "invalid field `error`".to_owned(),
            EnvelopeFault::ResultAndError => "both `result` and `error` are present".to_owned(),
        }
    }
}

/// The request that a JSON document denotes. The protocol tag and the method
/// are required strings. The identifier and the parameters are optional, and
/// `null` counts as absent. Other members are ignored.
pub open spec fn request_of(doc: Json) -> Result<RequestView, EnvelopeFault> {
    if !(doc is Object) {
        Err(EnvelopeFault::NotObject)
    } else if text_member_of(doc, "jsonrpc"@).is_none() {
        Err(EnvelopeFault::ProtocolTag)
    } else if text_member_of(doc, "method"@).is_none() {
        Err(EnvelopeFault::Method)
    } else {
        Ok(
            RequestView {
                jsonrpc: text_member_of(doc, "jsonrpc"@).unwrap(),
                id: present(member_of(doc, "id"@)),
                method: text_member_of(doc, "method"@).unwrap(),
                params: present(member_of(doc, "params"@)),
            },
        )
    }
}

/// The error object that a JSON document denotes: an object with an integer
/// `code` that a signed 64-bit word holds and a string `message`.
pub open spec fn error_of(doc: Json) -> Option<ErrorView> {
    if integer_of_member(doc, "code"@).is_some() && text_member_of(doc, "message"@).is_some() {
        Some(
            ErrorView {
                code: integer_of_member(doc, "code"@).unwrap(),
                message: text_member_of(doc, "message"@).unwrap(),
            },
        )
    } else {
        None
    }
}

/// The integer under `key` in `doc`, if `doc` is an object that has one.
pub open spec fn integer_of_member(doc: Json, key: Seq<char>) -> Option<i64> {
    match member_of(doc, key) {
        Some(m) => integer_of(m),
        None => None,
    }
}

/// The response that a JSON document denotes. The protocol tag is a required
/// string. The identifier, the result and the error are optional, and `null`
/// counts as absent. A document with both a result and an error denotes no
/// response. Other members are ignored.
pub open spec fn response_of(doc: Json) -> Result<ResponseView, EnvelopeFault> {
    if !(doc is Object) {
        Err(EnvelopeFault::NotObject)
    } else if text_member_of(doc, "jsonrpc"@).is_none() {
        Err(EnvelopeFault::ProtocolTag)
    } else if present(member_of(doc, "error"@)).is_some() && error_of(
        member_of(doc, "error"@).unwrap(),
    ).is_none() {
        Err(EnvelopeFault::ErrorObject)
    } else if present(member_of(doc, "error"@)).is_some() && present(
        member_of(doc, "result"@),
    ).is_some() {
        Err(EnvelopeFault::ResultAndError)
    } else {
        Ok(
            ResponseView {
                jsonrpc: text_member_of(doc, "jsonrpc"@).unwrap(),
                id: present(member_of(doc, "id"@)),
                result: present(member_of(doc, "result"@)),
                error: match present(member_of(doc, "error"@)) {
                    Some(e) => error_of(e),
                    None => None,
                },
            },
        )
    }
}

/// The JSON object that carries a request: the protocol tag and the method,
/// and the identifier and the parameters where they are present.
pub open spec fn request_json(request: RequestView) -> Json {
    let fixed = no_members().insert("jsonrpc"@, Json::Text(request.jsonrpc)).insert(
        "method"@,
        Json::Text(request.method),
    );
    let identified = match request.id {
        Some(id) => fixed.insert("id"@, id),
        None => fixed,
    };
    let complete = match request.params {
        Some(params) => identified.insert("params"@, params),
        None => identified,
    };
    Json::Object(complete)
}

/// The JSON object that carries an error object.
pub open spec fn error_json(error: ErrorView) -> Json {
    Json::Object(
        no_members().insert("code"@, Json::Number(JsonNumber::Integer(error.code as int))).insert(
            "message"@,
            Json::Text(error.message),
        ),
    )
}

/// The JSON object that carries a response: the protocol tag, the identifier
/// (`null` where it is absent), and the result or the error where present.
pub open spec fn response_json(response: ResponseView) -> Json {
    let fixed = no_members().insert("jsonrpc"@, Json::Text(response.jsonrpc)).insert(
        "id"@,
        match response.id {
            Some(id) => id,
            None => Json::Null,
        },
    );
    let resulted = match response.result {
        Some(result) => fixed.insert("result"@, result),
        None => fixed,
    };
    let complete = match response.error {
        Some(error) => resulted.insert("error"@, error_json(error)),
        None => resulted,
    };
    Json::Object(complete)
}

/// The content of the outcome of reading a request.
pub open spec fn request_outcome(decoded: Result<JsonRpcRequest, EnvelopeFault>) -> Result<
    RequestView,
    EnvelopeFault,
> {
    match decoded {
        Ok(request) => Ok(request@),
        Err(fault) => Err(fault),
    }
}

/// The content of the outcome of reading a response.
pub open spec fn response_outcome(decoded: Result<JsonRpcResponse, EnvelopeFault>) -> Result<
    ResponseView,
    EnvelopeFault,
> {
    match decoded {
        Ok(response) => Ok(response@),
        Err(fault) => Err(fault),
    }
}

/// The member under `key`, copied, where `doc` is an object that has one and
/// it is not `null`.
pub(crate) fn present_member(doc: &Value, key: &str) -> (found: Option<Value>)
    ensures
        json_of_option(found) == present(member_of(json_of(*doc), key@)),
{
    match member(doc, key) {
        Some(m) => if m.is_null() {
            None
        } else {
            Some(m.clone())
        },
        None => None,
    }
}

/// The string under `key`, copied, where `doc` is an object that has one.
pub(crate) fn text_member(doc: &Value, key: &str) -> (found: Option<String>)
    ensures
        match found {
            Some(s) => text_member_of(json_of(*doc), key@) == Some(s@),
            None => text_member_of(json_of(*doc), key@).is_none(),
        },
{
    match member(doc, key) {
        Some(m) => match m.as_str() {
            Some(s) => Some(s.to_owned()),
            None => None,
        },
        None => None,
    }
}

impl JsonRpcError {
    /// Reads an error object from its JSON form.
    pub fn from_value(doc: &Value) -> (decoded: Option<JsonRpcError>)
        ensures
            error_view(decoded) == error_of(json_of(*doc)),
    {
        let code = match member(doc, "code") {
            Some(m) => match m.as_i64() {
                Some(n) => n,
                None => { return None; },
            },
            None => { return None; },
        };
        match text_member(doc, "message") {
            Some(message) => Some(JsonRpcError { code, message }),
            None => None,
        }
    }

    /// The JSON form of the error object.
    pub fn to_value(&self) -> (doc: Value)
        ensures
            json_of(doc) == error_json(self@),
    {
        let mut members = empty_map();
        members.insert("code".to_owned(), integer_value(self.code));
        members.insert("message".to_owned(), text_value(self.message.clone()));
        object_value(members)
    }
}

impl JsonRpcRequest {
    /// Reads a request from its JSON form.
    pub fn from_value(doc: &Value) -> (decoded: Result<JsonRpcRequest, EnvelopeFault>)
        ensures
            request_outcome(decoded) == request_of(json_of(*doc)),
    {
        if !doc.is_object() {
            return Err(EnvelopeFault::NotObject);
        }
        let jsonrpc = match text_member(doc, "jsonrpc") {
            Some(tag) => tag,
            None => { return Err(EnvelopeFault::ProtocolTag); },
        };
        let method = match text_member(doc, "method") {
            Some(method) => method,
            None => { return Err(EnvelopeFault::Method); },
        };
        let id = present_member(doc, "id");
        let params = present_member(doc, "params");
        Ok(JsonRpcRequest { jsonrpc, id, method, params })
    }

    /// The JSON form of the request.
    pub fn to_value(&self) -> (doc: Value)
        ensures
            json_of(doc) == request_json(self@),
    {
        let mut members = empty_map();
        members.insert("jsonrpc".to_owned(), text_value(self.jsonrpc.clone()));
        members.insert("method".to_owned(), text_value(self.method.clone()));
        match &self.id {
            Some(id) => { members.insert("id".to_owned(), id.clone()); },
            None => {},
        }
        match &self.params {
            Some(params) => { members.insert("params".to_owned(), params.clone()); },
            None => {},
        }
        object_value(members)
    }
}

impl JsonRpcResponse {
    /// A response carries a result or an error, never both.
    pub open spec fn well_formed(&self) -> bool {
        self@.well_formed()
    }

    /// The response that reports `result`, under the bridge's own protocol
    /// tag.
    pub fn success(id: Option<Value>, result: Value) -> (response: JsonRpcResponse)
        ensures
            response@ == success_response(json_of_option(id), json_of(result)),
            response.well_formed(),
    {
        JsonRpcResponse {
            jsonrpc: PROTOCOL_TAG.to_owned(),
            id,
            result: Some(result),
            error: None,
        }
    }

    /// The response that reports an error, under the bridge's own protocol
    /// tag.
    pub fn error(id: Option<Value>, code: i64, message: String) -> (response: JsonRpcResponse)
        ensures
            response@ == error_response(json_of_option(id), code, message@),
            response.well_formed(),
    {
        JsonRpcResponse {
            jsonrpc: PROTOCOL_TAG.to_owned(),
            id,
            result: None,
            error: Some(JsonRpcError { code, message }),
        }
    }

    /// Reads a response from its JSON form.
    pub fn from_value(doc: &Value) -> (decoded: Result<JsonRpcResponse, EnvelopeFault>)
        ensures
            response_outcome(decoded) == response_of(json_of(*doc)),
            decoded is Ok ==> decoded.unwrap().well_formed(),
    {
        if !doc.is_object() {
            return Err(EnvelopeFault::NotObject);
        }
        let jsonrpc = match text_member(doc, "jsonrpc") {
            Some(tag) => tag,
            None => { return Err(EnvelopeFault::ProtocolTag); },
        };
        let error = match present_member(doc, "error") {
            Some(e) => match JsonRpcError::from_value(&e) {
                Some(error) => Some(error),
                None => { return Err(EnvelopeFault::ErrorObject); },
            },
            None => None,
        };
        let result = present_member(doc, "result");
        if error.is_some() && result.is_some() {
            return Err(EnvelopeFault::ResultAndError);
        }
        let id = present_member(doc, "id");
        Ok(JsonRpcResponse { jsonrpc, id, result, error })
    }

    /// The JSON form of the response.
    pub fn to_value(&self) -> (doc: Value)
        ensures
            json_of(doc) == response_json(self@),
    {
        let mut members = empty_map();
        members.insert("jsonrpc".to_owned(), text_value(self.jsonrpc.clone()));
        let id = match &self.id {
            Some(id) => id.clone(),
            None => null_value(),
        };
        members.insert("id".to_owned(), id);
        match &self.result {
            Some(result) => { members.insert("result".to_owned(), result.clone()); },
            None => {},
        }
        match &self.error {
            Some(error) => { members.insert("error".to_owned(), error.to_value()); },
            None => {},
        }
        object_value(members)
    }
}

} // verus!
