//! The messages between the bridge and the app-server: JSON-RPC, one message to a
//! line, and the requests that wait for their answers.

use std::collections::HashMap;

use vstd::prelude::*;

use crate::calls::{
    plain_problem, problem, problem_after, problem_with_cause, Problem, ProblemView,
};
use crate::json::{
    copy_or_null, fields, find_entry, found_in_more, no_entries, opt_json, or_null, with, Json,
    JsonView,
};
use crate::json_text::{
    json_text, parse_json, parsed_json, plain, settled, tidy, tidy_values_are_written_as_they_are,
    to_text, RAW_VALUE_KEY,
};
use crate::text::{concat3, concat4, or_text, parse_unsigned, text_or, unsigned_value};

verus! {

// ---------------------------------------------------------------------------
// Messages that come in
// ---------------------------------------------------------------------------

/// An error that the app-server answers with.
#[derive(Debug, PartialEq)]
pub struct JsonRpcFailure {
    pub message: String,
    pub data: Option<Json>,
}

/// What an error says.
pub struct FailureView {
    pub message: Seq<char>,
    pub data: Option<JsonView>,
}

/// A message of the app-server.
#[allow(inconsistent_fields)]
#[derive(Debug, PartialEq)]
pub enum ParsedJsonRpcMessage {
    Response { id: u64, result: Result<Json, JsonRpcFailure> },
    Notification { method: String, params: Json },
    Request { id: Json, method: String, params: Json },
}

/// What a message says.
#[allow(inconsistent_fields)]
pub enum MessageView {
    Result { id: u64, result: JsonView },
    Failure { id: u64, failure: FailureView },
    Notification { method: Seq<char>, params: JsonView },
    Request { id: JsonView, method: Seq<char>, params: JsonView },
}

/// Why a line is no message; of one that is no JSON, with the reason.
#[derive(Debug, PartialEq, Eq)]
pub enum MessageError {
    InvalidJson(String),
    NotAnObject,
    MissingNumericId,
}

/// Why a line is no message, as contracts speak of it.
pub enum MessageErrorView {
    InvalidJson(Seq<char>),
    NotAnObject,
    MissingNumericId,
}

impl View for MessageError {
    type V = MessageErrorView;

    open spec fn view(&self) -> MessageErrorView {
        match *self {
            MessageError::InvalidJson(reason) => MessageErrorView::InvalidJson(reason@),
            MessageError::NotAnObject => MessageErrorView::NotAnObject,
            MessageError::MissingNumericId => MessageErrorView::MissingNumericId,
        }
    }
}

impl MessageErrorView {
    /// It as a problem: behind a line that is no JSON is the reason.
    pub open spec fn problem(self) -> ProblemView {
        match self {
            MessageErrorView::InvalidJson(reason) => problem_after("invalid JSON"@, reason),
            MessageErrorView::NotAnObject => plain_problem("JSON-RPC message must be an object"@),
            MessageErrorView::MissingNumericId => plain_problem(
                "JSON-RPC response missing numeric id"@,
            ),
        }
    }
}

impl MessageError {
    /// It as a problem.
    pub fn to_problem(&self) -> (made: Problem)
        ensures
            made@ == self@.problem(),
    {
        match self {
            MessageError::InvalidJson(reason) => problem_with_cause(
                "invalid JSON",
                reason.as_str(),
            ),
            MessageError::NotAnObject => problem("JSON-RPC message must be an object"),
            MessageError::MissingNumericId => problem("JSON-RPC response missing numeric id"),
        }
    }

    /// What is said of it.
    pub fn to_text(&self) -> (text: String)
        ensures
            text@ == self@.problem().message,
    {
        self.to_problem().message
    }
}

impl View for JsonRpcFailure {
    type V = FailureView;

    open spec fn view(&self) -> FailureView {
        FailureView { message: self.message@, data: opt_json(self.data) }
    }
}

impl View for ParsedJsonRpcMessage {
    type V = MessageView;

    open spec fn view(&self) -> MessageView {
        match *self {
            ParsedJsonRpcMessage::Response { id, result: Ok(result) } => MessageView::Result {
                id,
                result: result@,
            },
            ParsedJsonRpcMessage::Response { id, result: Err(failure) } => MessageView::Failure {
                id,
                failure: failure@,
            },
            ParsedJsonRpcMessage::Notification { method, params } => MessageView::Notification {
                method: method@,
                params: params@,
            },
            ParsedJsonRpcMessage::Request { id, method, params } => MessageView::Request {
                id: id@,
                method: method@,
                params: params@,
            },
        }
    }
}

/// What a reading says.
pub open spec fn reading_view(reading: Result<ParsedJsonRpcMessage, MessageError>) -> Result<
    MessageView,
    MessageErrorView,
> {
    match reading {
        Ok(message) => Ok(message@),
        Err(error) => Err(error@),
    }
}

/// The number of a request: a number, or a text that is one.
pub open spec fn request_number(id: JsonView) -> Option<u64> {
    match id.as_u64() {
        Some(n) => Some(n),
        None => match id {
            JsonView::Text(text) => match unsigned_value(text, u64::MAX as nat) {
                Some(n) => Some(n as u64),
                None => None,
            },
            _ => None,
        },
    }
}

/// The message that a value is: a request or a notification where it names a method,
/// and else the answer to a request.
pub open spec fn message_in(value: JsonView) -> Result<MessageView, MessageErrorView> {
    if !(value is Object) {
        Err(MessageErrorView::NotAnObject)
    } else {
        match value.text_at("method"@) {
            Some(method) => {
                let params = or_null(value.get("params"@));
                match value.get("id"@) {
                    Some(id) => Ok(MessageView::Request { id, method, params }),
                    None => Ok(MessageView::Notification { method, params }),
                }
            },
            None => {
                let number = match value.get("id"@) {
                    Some(id) => request_number(id),
                    None => None,
                };
                match number {
                    None => Err(MessageErrorView::MissingNumericId),
                    Some(id) => match value.get("error"@) {
                        Some(error) => Ok(
                            MessageView::Failure {
                                id,
                                failure: FailureView {
                                    message: text_or(
                                        error.text_at("message"@),
                                        "Codex app-server returned an error"@,
                                    ),
                                    data: error.get("data"@),
                                },
                            },
                        ),
                        None => Ok(
                            MessageView::Result { id, result: or_null(value.get("result"@)) },
                        ),
                    },
                }
            },
        }
    }
}

/// The message that a line is.
pub open spec fn message_on(line: Seq<char>) -> Result<MessageView, MessageErrorView> {
    match parsed_json(line) {
        Ok(value) => message_in(value),
        Err(reason) => Err(MessageErrorView::InvalidJson(reason)),
    }
}

/// The number of a request.
pub fn json_rpc_id_as_u64(id: &Json) -> (number: Option<u64>)
    ensures
        number == request_number(id@),
{
    match id.as_u64() {
        Some(n) => Some(n),
        None => match id.as_text() {
            Some(text) => parse_unsigned(text, u64::MAX),
            None => None,
        },
    }
}

/// The message that a value is.
pub fn classify_message(value: &Json) -> (message: Result<ParsedJsonRpcMessage, MessageError>)
    ensures
        reading_view(message) == message_in(value@),
{
    match value {
        Json::Object(_) => {},
        _ => return Err(MessageError::NotAnObject),
    }
    if let Some(method) = value.text_at("method") {
        let params = copy_or_null(value.get("params"));
        return match value.get("id") {
            Some(id) => Ok(
                ParsedJsonRpcMessage::Request { id: id.copy(), method: method.to_owned(), params },
            ),
            None => Ok(ParsedJsonRpcMessage::Notification { method: method.to_owned(), params }),
        };
    }
    let number = match value.get("id") {
        Some(id) => json_rpc_id_as_u64(id),
        None => None,
    };
    let id: u64 = match number {
        Some(id) => id,
        None => return Err(MessageError::MissingNumericId),
    };
    match value.get("error") {
        Some(error) => {
            let message = or_text(
                error.text_at("message"),
                "Codex app-server returned an error",
            ).to_owned();
            let data = match error.get("data") {
                Some(data) => Some(data.copy()),
                None => None,
            };
            Ok(
                ParsedJsonRpcMessage::Response {
                    id,
                    result: Err(JsonRpcFailure { message, data }),
                },
            )
        },
        None => Ok(
            ParsedJsonRpcMessage::Response { id, result: Ok(copy_or_null(value.get("result"))) },
        ),
    }
}

/// Reads the message that a line is.
pub fn parse_json_rpc_line(line: &str) -> (message: Result<ParsedJsonRpcMessage, MessageError>)
    ensures
        reading_view(message) == message_on(line@),
{
    match parse_json(line) {
        Ok(value) => classify_message(&value),
        Err(error) => Err(MessageError::InvalidJson(error.message)),
    }
}

/// What is shown of an error.
pub open spec fn failure_text(failure: FailureView) -> Seq<char> {
    match failure.data {
        Some(data) => failure.message + ": "@ + json_text(settled(data)),
        None => failure.message,
    }
}

impl JsonRpcFailure {
    /// What is shown of the error.
    pub fn to_text(&self) -> (text: String)
        ensures
            text@ == failure_text(self@),
    {
        match &self.data {
            Some(data) => concat3(self.message.as_str(), ": ", to_text(data).as_str()),
            None => self.message.clone(),
        }
    }
}

// ---------------------------------------------------------------------------
// Messages that go out
// ---------------------------------------------------------------------------

/// A request.
pub open spec fn request_message(id: u64, method: Seq<char>, params: JsonView) -> JsonView {
    JsonView::Object(
        fields().push(("jsonrpc"@, JsonView::Text("2.0"@))).push(
            ("id"@, JsonView::Int(id as int)),
        ).push(("method"@, JsonView::Text(method))).push(("params"@, params)),
    )
}

/// The answer to a request.
pub open spec fn result_message(id: JsonView, result: JsonView) -> JsonView {
    JsonView::Object(
        fields().push(("jsonrpc"@, JsonView::Text("2.0"@))).push(("id"@, id)).push(
            ("result"@, result),
        ),
    )
}

/// The answer to a request that failed.
pub open spec fn error_message(id: JsonView, message: Seq<char>) -> JsonView {
    JsonView::Object(
        fields().push(("jsonrpc"@, JsonView::Text("2.0"@))).push(("id"@, id)).push(
            (
                "error"@,
                JsonView::Object(
                    fields().push(("code"@, JsonView::Int(-32603))).push(
                        ("message"@, JsonView::Text(message)),
                    ),
                ),
            ),
        ),
    )
}

/// The line of a message.
pub open spec fn line_of(message: JsonView) -> Seq<char> {
    json_text(settled(message))
}

/// That the keys of messages differ from each other.
proof fn keys_of_messages_differ()
    ensures
        "jsonrpc"@ != "id"@,
        "jsonrpc"@ != "method"@,
        "jsonrpc"@ != "params"@,
        "jsonrpc"@ != "result"@,
        "jsonrpc"@ != "error"@,
        "id"@ != "method"@,
        "id"@ != "params"@,
        "id"@ != "result"@,
        "id"@ != "error"@,
        "method"@ != "params"@,
        "method"@ != "result"@,
        "method"@ != "error"@,
        "params"@ != "error"@,
        "result"@ != "error"@,
        "code"@ != "message"@,
        "code"@ != "data"@,
        "message"@ != "data"@,
        "jsonrpc"@ != RAW_VALUE_KEY@,
        "code"@ != RAW_VALUE_KEY@,
{
    reveal_strlit("$serde_json::private::RawValue");
    assert(RAW_VALUE_KEY@[0] == '$');
    reveal_strlit("jsonrpc");
    reveal_strlit("id");
    reveal_strlit("method");
    reveal_strlit("params");
    reveal_strlit("result");
    reveal_strlit("error");
    reveal_strlit("code");
    reveal_strlit("message");
    reveal_strlit("data");
    assert("jsonrpc"@[0] == 'j');
    assert("jsonrpc"@.len() == 7 && "id"@.len() == 2 && "error"@.len() == 5);
    assert("method"@[0] == 'm' && "params"@[0] == 'p' && "result"@[0] == 'r');
    assert("method"@.len() == 6 && "params"@.len() == 6 && "result"@.len() == 6);
    assert("code"@[0] == 'c' && "data"@[0] == 'd' && "message"@.len() == 7);
    assert("code"@.len() == 4 && "data"@.len() == 4);
}

/// A request is that request.
proof fn requests_are_requests(id: u64, method: Seq<char>, params: JsonView)
    ensures
        message_in(request_message(id, method, params)) == Ok::<MessageView, MessageErrorView>(
            MessageView::Request { id: JsonView::Int(id as int), method, params },
        ),
        tidy(params) ==> tidy(request_message(id, method, params)),
        plain(params, 126) ==> plain(request_message(id, method, params), 127),
{
    broadcast use found_in_more;

    keys_of_messages_differ();
    reveal_with_fuel(tidy, 2);
    reveal_with_fuel(plain, 2);
}

/// The answer to a request is the answer to that request, with its result.
proof fn results_are_results(id: JsonView, number: u64, result: JsonView)
    requires
        request_number(id) == Some(number),
    ensures
        message_in(result_message(id, result)) == Ok::<MessageView, MessageErrorView>(
            MessageView::Result { id: number, result },
        ),
        tidy(result) ==> tidy(result_message(id, result)),
        plain(result, 126) ==> plain(result_message(id, result), 127),
{
    broadcast use found_in_more;

    keys_of_messages_differ();
    reveal_with_fuel(tidy, 2);
    reveal_with_fuel(plain, 2);
}

/// The answer to a request that failed is the answer to that request, with its message.
proof fn errors_are_errors(id: JsonView, number: u64, message: Seq<char>)
    requires
        request_number(id) == Some(number),
    ensures
        message_in(error_message(id, message)) == Ok::<MessageView, MessageErrorView>(
            MessageView::Failure { id: number, failure: FailureView { message, data: None } },
        ),
        tidy(error_message(id, message)),
        plain(error_message(id, message), 127),
{
    broadcast use found_in_more;

    keys_of_messages_differ();
    reveal_with_fuel(tidy, 2);
    reveal_with_fuel(plain, 2);
    let error = JsonView::Object(
        fields().push(("code"@, JsonView::Int(-32603))).push(("message"@, JsonView::Text(message))),
    );
    assert(error.text_at("message"@) == Some(message));
    assert(find_entry(fields(), "data"@) is None);
    assert(error.get("data"@) is None);
    assert(error_message(id, message).get("error"@) == Some(error));
    assert(tidy(error));
    assert(plain(error, 126));
}

/// The line of a request. It reads back as that request.
pub fn request_line(id: u64, method: &str, params: Json) -> (line: String)
    ensures
        line@ == line_of(request_message(id, method@, params@)),
        tidy(params@) && plain(params@, 126) ==> message_on(line@) == Ok::<
            MessageView,
            MessageErrorView,
        >(
            MessageView::Request { id: JsonView::Int(id as int), method: method@, params: params@ },
        ),
{
    proof {
        requests_are_requests(id, method@, params@);
        if tidy(params@) {
            tidy_values_are_written_as_they_are(request_message(id, method@, params@));
        }
    }
    let entries = with(no_entries(), "jsonrpc", Json::text("2.0"));
    let entries = with(entries, "id", Json::UInt(id));
    let entries = with(entries, "method", Json::text(method));
    to_text(&Json::object(with(entries, "params", params)))
}

/// The line of the answer to a request. It reads back as the answer to that request.
pub fn response_line(id: Json, result: Json) -> (line: String)
    ensures
        line@ == line_of(result_message(id@, result@)),
        tidy(result@) && plain(result@, 126) ==> (request_number(id@) matches Some(number)
            ==> message_on(line@) == Ok::<MessageView, MessageErrorView>(
            MessageView::Result { id: number, result: result@ },
        )),
{
    proof {
        if request_number(id@) is Some && tidy(result@) {
            results_are_results(id@, request_number(id@)->0, result@);
            tidy_values_are_written_as_they_are(result_message(id@, result@));
        }
    }
    let entries = with(no_entries(), "jsonrpc", Json::text("2.0"));
    let entries = with(entries, "id", id);
    to_text(&Json::object(with(entries, "result", result)))
}

/// The line of the answer to a request that failed. It reads back as the answer to that
/// request, with its message.
pub fn error_response_line(id: Json, message: &str) -> (line: String)
    ensures
        line@ == line_of(error_message(id@, message@)),
        request_number(id@) matches Some(number) ==> message_on(line@) == Ok::<
            MessageView,
            MessageErrorView,
        >(
            MessageView::Failure {
                id: number,
                failure: FailureView { message: message@, data: None },
            },
        ),
{
    proof {
        if request_number(id@) is Some {
            errors_are_errors(id@, request_number(id@)->0, message@);
            tidy_values_are_written_as_they_are(error_message(id@, message@));
        }
    }
    let error = with(no_entries(), "code", Json::integer(-32603));
    let error = with(error, "message", Json::text(message));
    let entries = with(no_entries(), "jsonrpc", Json::text("2.0"));
    let entries = with(entries, "id", id);
    to_text(&Json::object(with(entries, "error", Json::object(error))))
}

/// What is said where a request could not be sent.
pub open spec fn send_failure_text(method: Seq<char>, error: Seq<char>) -> Seq<char> {
    "failed to send Codex request `"@ + method + "`: "@ + error
}

/// What is said of a request that could not be sent.
pub fn send_failure(method: &str, error: &str) -> (text: String)
    ensures
        text@ == send_failure_text(method@, error@),
{
    concat4("failed to send Codex request `", method, "`: ", error)
}

// ---------------------------------------------------------------------------
// Requests that wait for their answers
// ---------------------------------------------------------------------------

/// The number that follows a number: the next one, and the first again after the last.
pub open spec fn number_after(id: u64) -> u64 {
    if id == u64::MAX {
        0
    } else {
        (id + 1) as u64
    }
}

/// Who waits for answers, after somebody more began to wait.
pub open spec fn begun<W>(waiting: Map<u64, W>, id: u64, waiter: W) -> Map<u64, W> {
    waiting.insert(id, waiter)
}

/// Who waits for answers, after one was taken.
pub open spec fn finished<W>(waiting: Map<u64, W>, id: u64) -> Map<u64, W> {
    waiting.remove(id)
}

/// The requests that were sent and not answered yet, each with what waits for it.
pub struct PendingRequests<W> {
    next_id: u64,
    waiting: HashMap<u64, W>,
}

impl<W> PendingRequests<W> {
    /// The number of the next request.
    pub closed spec fn next(&self) -> u64 {
        self.next_id
    }

    /// What waits for each request.
    pub closed spec fn waiting(&self) -> Map<u64, W> {
        self.waiting@
    }

    /// No request was sent yet; the first has the number one.
    pub fn new() -> (pending: PendingRequests<W>)
        ensures
            pending.next() == 1,
            pending.waiting() == Map::<u64, W>::empty(),
    {
        PendingRequests { next_id: 1, waiting: HashMap::new() }
    }

    /// Numbers a request, and remembers what waits for its answer.
    pub fn begin(&mut self, waiter: W) -> (id: u64)
        ensures
            id == old(self).next(),
            final(self).next() == number_after(id),
            final(self).waiting() == begun(old(self).waiting(), id, waiter),
    {
        broadcast use vstd::std_specs::hash::group_hash_axioms;

        let id: u64 = self.next_id;
        self.next_id = if id == u64::MAX {
            0
        } else {
            id + 1
        };
        self.waiting.insert(id, waiter);
        id
    }

    /// Takes what waits for the answer to a request: the answer has come, or the
    /// request could not be sent.
    pub fn finish(&mut self, id: u64) -> (waiter: Option<W>)
        ensures
            final(self).next() == old(self).next(),
            final(self).waiting() == finished(old(self).waiting(), id),
            match waiter {
                Some(waiter) => old(self).waiting().contains_key(id) && old(self).waiting()[id]
                    == waiter,
                None => !old(self).waiting().contains_key(id),
            },
    {
        broadcast use vstd::std_specs::hash::group_hash_axioms;

        self.waiting.remove(&id)
    }

    /// Takes all that waits: no answer will come any more.
    pub fn drain_pending(&mut self) -> (all: HashMap<u64, W>)
        ensures
            final(self).next() == old(self).next(),
            final(self).waiting() == Map::<u64, W>::empty(),
            all@ == old(self).waiting(),
    {
        broadcast use vstd::std_specs::hash::group_hash_axioms;

        let mut all: HashMap<u64, W> = HashMap::new();
        std::mem::swap(&mut all, &mut self.waiting);
        all
    }
}

/// That every request that waits has a number below the next one.
pub open spec fn numbered_below<W>(waiting: Map<u64, W>, next: u64) -> bool {
    forall|id: u64| #[trigger] waiting.contains_key(id) ==> id < next
}

/// Requests are told apart by their numbers, until there are no more numbers: a new one
/// takes nothing away from those that wait, taking the answer to one takes nothing away
/// from the others, and no answer is taken twice.
pub proof fn requests_are_told_apart<W>(waiting: Map<u64, W>, next: u64, waiter: W, id: u64)
    requires
        numbered_below(waiting, next),
        next < u64::MAX,
    ensures
        !waiting.contains_key(next),
        numbered_below(waiting.insert(next, waiter), (next + 1) as u64),
        waiting.insert(next, waiter).remove(next) == waiting,
        numbered_below(waiting.remove(id), next),
        !waiting.remove(id).contains_key(id),
        forall|other: u64|
            other != id && #[trigger] waiting.contains_key(other) ==> waiting.remove(
                id,
            ).contains_key(other) && waiting.remove(id)[other] == waiting[other],
{
    assert(waiting.insert(next, waiter).remove(next) =~= waiting);
}

/// The error that all that waits is told when the app-server is gone.
pub fn closed_failure(message: &str) -> (failure: JsonRpcFailure)
    ensures
        failure@ == (FailureView { message: message@, data: None }),
{
    JsonRpcFailure { message: message.to_owned(), data: None }
}

} // verus!
