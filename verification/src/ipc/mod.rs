//! The request/response side of the daemon connection.
//!
//! A connection carries one JSON document per line. `RpcClient` numbers the
//! requests of one connection and decides, line by line, whether what arrived
//! answers the pending call. Reading and writing the lines is the caller's
//! part.

use crate::json::{
    array_value, empty_object, get_bool, get_or_null, get_str, insert_member,
    json_of, json_parse, json_text, member, member_bool, member_or_null, member_text,
    models_of, parse_value, text_value, value_get, value_text, JsonModel,
};
use crate::text::{decimal, decimal_text, same_text, texts_of, trimmed, trimmed_text};
use vstd::prelude::*;
use vstd::string::StringExecFns;

pub mod types;

verus! {

/// A call to make: the daemon method and its parameters.
pub struct Call {
    pub method: String,
    pub params: serde_json::Value,
}

/// The object with the single member `key`.
pub open spec fn object1(key: Seq<char>, value: JsonModel) -> JsonModel {
    JsonModel::Object(Map::empty().insert(key, value))
}

/// An array of JSON strings.
pub open spec fn text_array(texts: Seq<Seq<char>>) -> JsonModel {
    JsonModel::Array(Seq::new(texts.len(), |i: int| JsonModel::Str(texts[i])))
}

/// The call of `method` with the one text parameter `key`.
pub fn text_call(method: &str, key: &str, value: &str) -> (r: Call)
    ensures
        r.method@ == method@,
        json_of(r.params) == object1(key@, JsonModel::Str(value@)),
{
    let mut params = empty_object();
    insert_member(&mut params, key, text_value(value));
    Call { method: method.to_owned(), params }
}

/// The call of `method` without parameters.
pub fn plain_call(method: &str) -> (r: Call)
    ensures
        r.method@ == method@,
        json_of(r.params) == JsonModel::Object(Map::empty()),
{
    Call { method: method.to_owned(), params: empty_object() }
}

/// The JSON array of the given texts, in their order.
pub fn text_list(texts: &Vec<String>) -> (r: serde_json::Value)
    ensures
        json_of(r) == text_array(texts_of(texts@)),
{
    let mut items: Vec<serde_json::Value> = Vec::new();
    let mut i: usize = 0;
    while i < texts.len()
        invariant
            i <= texts.len(),
            items@.len() == i,
            forall|k: int| 0 <= k < i ==> json_of(#[trigger] items@[k]) == JsonModel::Str(texts@[k]@),
        decreases texts.len() - i,
    {
        items.push(text_value(texts[i].as_str()));
        i += 1;
    }
    assert(models_of(items@) =~= Seq::new(
        texts_of(texts@).len(),
        |i: int| JsonModel::Str(texts_of(texts@)[i]),
    ));
    array_value(items)
}

/// The members of a request frame.
pub open spec fn request_model(id: Seq<char>, method: Seq<char>, params: JsonModel) -> JsonModel {
    JsonModel::Object(
        Map::empty().insert("id"@, JsonModel::Str(id)).insert("type"@, JsonModel::Str("req"@)).insert(
            "method"@,
            JsonModel::Str(method),
        ).insert("params"@, params),
    )
}

/// The line that carries a request, if the request can be written.
pub open spec fn request_line(id: Seq<char>, method: Seq<char>, params: JsonModel) -> Option<
    Seq<char>,
> {
    match json_text(request_model(id, method, params)) {
        Some(text) => Some(text + seq!['\n']),
        None => None,
    }
}

/// Writes the request frame for a call: one line, newline included.
pub fn frame_request(id: &str, call: Call) -> (r: Option<String>)
    ensures
        match r {
            Some(line) => request_line(id@, call.method@, json_of(call.params)) == Some(line@),
            None => request_line(id@, call.method@, json_of(call.params)) is None,
        },
{
    let mut frame = empty_object();
    insert_member(&mut frame, "id", text_value(id));
    insert_member(&mut frame, "type", text_value("req"));
    insert_member(&mut frame, "method", text_value(call.method.as_str()));
    insert_member(&mut frame, "params", call.params);
    match value_text(&frame) {
        Some(text) => {
            proof {
                reveal_strlit("\n");
                assert("\n"@ =~= seq!['\n']);
            }
            Some(text.concat("\n"))
        },
        None => None,
    }
}

/// The call that subscribes to the named channels of events.
pub fn subscribe_call(channels: &Vec<String>) -> (r: Call)
    ensures
        r.method@ == "events.subscribe"@,
        json_of(r.params) == object1("channels"@, text_array(texts_of(channels@))),
{
    let mut params = empty_object();
    insert_member(&mut params, "channels", text_list(channels));
    Call { method: "events.subscribe".to_owned(), params }
}

/// The line that opens an event stream: the subscription to `channels`, as
/// the request `1` of its connection.
pub fn subscribe_line(channels: &Vec<String>) -> (r: Option<String>)
    ensures
        match r {
            Some(line) => request_line(
                "1"@,
                "events.subscribe"@,
                object1("channels"@, text_array(texts_of(channels@))),
            ) == Some(line@),
            None => request_line(
                "1"@,
                "events.subscribe"@,
                object1("channels"@, text_array(texts_of(channels@))),
            ) is None,
        },
{
    frame_request("1", subscribe_call(channels))
}

/// Why a call failed.
pub enum RpcError {
    /// The connection ended before the response came.
    Disconnected,
    /// The endpoint could not be reached, or reading or writing failed.
    Transport { message: String },
    /// The daemon answered with `ok: false`.
    Daemon { message: String },
    /// The request could not be written as JSON.
    Encode,
}

impl RpcError {
    /// The text of the error as shown to the user.
    pub open spec fn message_text(self) -> Seq<char> {
        match self {
            RpcError::Disconnected => "daemon disconnected"@,
            RpcError::Transport { message } => message@,
            RpcError::Daemon { message } => message@,
            RpcError::Encode => "request could not be encoded"@,
        }
    }

    /// The text of the error as shown to the user.
    pub fn message(&self) -> (r: String)
        ensures
            r@ == self.message_text(),
    {
        match self {
            RpcError::Disconnected => "daemon disconnected".to_owned(),
            RpcError::Transport { message } => message.clone(),
            RpcError::Daemon { message } => message.clone(),
            RpcError::Encode => "request could not be encoded".to_owned(),
        }
    }
}

/// A request that has been framed and awaits its response.
pub struct PendingCall {
    /// The id that the response must carry.
    pub id: String,
    /// The line to send.
    pub line: String,
}

/// What a received line means to a pending call.
pub enum RpcStep {
    /// The line is not the awaited response: keep reading.
    Ignore,
    /// The call is over, with this result.
    Resolve(Result<serde_json::Value, RpcError>),
}

/// The message of a failed response: the daemon's, or a generic one where the
/// frame carries none.
pub open spec fn error_text(frame: JsonModel) -> Seq<char> {
    match member(frame, "error"@) {
        Some(error) => match member_text(error, "message"@) {
            Some(message) => message,
            None => "RPC error"@,
        },
        None => "RPC error"@,
    }
}

/// Whether `frame` is the response to the request `id`.
pub open spec fn answers(frame: JsonModel, id: Seq<char>) -> bool {
    &&& member_text(frame, "type"@) == Some("res"@)
    &&& member_text(frame, "id"@) == Some(id)
}

/// Whether a response reports success.
pub open spec fn succeeded(frame: JsonModel) -> bool {
    member_bool(frame, "ok"@) == Some(true)
}

/// What `step` holds, over the models of its values.
pub open spec fn step_matches(step: RpcStep, frame: Option<JsonModel>, id: Seq<char>) -> bool {
    match frame {
        Some(frame) => if !answers(frame, id) {
            step is Ignore
        } else if succeeded(frame) {
            step matches RpcStep::Resolve(Ok(result)) && json_of(result) == member_or_null(
                frame,
                "result"@,
            )
        } else {
            step matches RpcStep::Resolve(Err(RpcError::Daemon { message })) && message@
                == error_text(frame)
        },
        None => step is Ignore,
    }
}

/// Decides what a parsed frame means to the call `id`.
///
/// A frame that is no response, or the response to another request, is
/// ignored. The response to `id` ends the call: with its `result` (`null`
/// where it has none) if `ok` is `true`, else with the daemon's message.
pub fn classify_response(frame: &serde_json::Value, id: &str) -> (r: RpcStep)
    ensures
        step_matches(r, Some(json_of(*frame)), id@),
{
    let is_response = match get_str(frame, "type") {
        Some(kind) => same_text(kind, "res"),
        None => false,
    };
    if !is_response {
        return RpcStep::Ignore;
    }
    let is_ours = match get_str(frame, "id") {
        Some(frame_id) => same_text(frame_id, id),
        None => false,
    };
    if !is_ours {
        return RpcStep::Ignore;
    }
    match get_bool(frame, "ok") {
        Some(true) => { return RpcStep::Resolve(Ok(get_or_null(frame, "result"))); },
        _ => {},
    }
    let message = match value_get(frame, "error") {
        Some(error) => match get_str(error, "message") {
            Some(text) => text.to_owned(),
            None => "RPC error".to_owned(),
        },
        None => "RPC error".to_owned(),
    };
    RpcStep::Resolve(Err(RpcError::Daemon { message }))
}

/// The numbering of the requests on one connection.
pub struct RpcClient {
    next_id: u64,
}

impl RpcClient {
    /// The number that the next request gets.
    pub closed spec fn next_id(&self) -> u64 {
        self.next_id
    }

    /// The client of a fresh connection: its first request is number 1.
    pub fn new() -> (r: Self)
        ensures
            r.next_id() == 1,
    {
        RpcClient { next_id: 1 }
    }

    /// Whether the connection has a request number left for another call.
    pub fn can_begin(&self) -> (r: bool)
        ensures
            r == (self.next_id() < u64::MAX),
    {
        self.next_id < u64::MAX
    }

    /// Begins a call: takes the next request number as the id, in decimal, and
    /// frames the request. The number is used up whether or not the request
    /// could be written.
    pub fn begin(&mut self, call: Call) -> (r: Result<PendingCall, RpcError>)
        requires
            old(self).next_id() < u64::MAX,
        ensures
            final(self).next_id() == old(self).next_id() + 1,
            match r {
                Ok(pending) => {
                    &&& pending.id@ == decimal_text(old(self).next_id() as nat)
                    &&& request_line(pending.id@, call.method@, json_of(call.params)) == Some(
                        pending.line@,
                    )
                },
                Err(e) => {
                    &&& e is Encode
                    &&& request_line(
                        decimal_text(old(self).next_id() as nat),
                        call.method@,
                        json_of(call.params),
                    ) is None
                },
            },
    {
        let id = decimal(self.next_id);
        self.next_id = self.next_id + 1;
        match frame_request(id.as_str(), call) {
            Some(line) => Ok(PendingCall { id, line }),
            None => Err(RpcError::Encode),
        }
    }

    /// Decides what a received line means to the call `id`: a line that is
    /// blank or no JSON document is ignored, any other is classified by
    /// `classify_response`.
    pub fn on_line(id: &str, line: &str) -> (r: RpcStep)
        ensures
            step_matches(r, json_parse(trimmed_text(line@)), id@),
    {
        match parse_value(trimmed(line).as_str()) {
            Some(frame) => classify_response(&frame, id),
            None => RpcStep::Ignore,
        }
    }

    /// The result of a call whose connection ended before the response.
    pub fn on_disconnect() -> (r: Result<serde_json::Value, RpcError>)
        ensures
            r matches Err(RpcError::Disconnected),
    {
        Err(RpcError::Disconnected)
    }
}

/// A response to one request of a connection is no response to another: the
/// requests carry different numbers, and so different ids.
pub proof fn lemma_response_answers_one_request(frame: JsonModel, one: nat, other: nat)
    requires
        one != other,
        answers(frame, decimal_text(one)),
    ensures
        !answers(frame, decimal_text(other)),
{
    if decimal_text(one) == decimal_text(other) {
        crate::text::lemma_decimal_injective(one, other);
    }
}

} // verus!
