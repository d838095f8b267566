//! What the messages of the app-server are read as, and what is sent to it.

use vstd::prelude::*;

use crate::calls::ProblemView;
use crate::json::{found_in_more, JsonView};
use crate::json_text::{json_text, parsed_json, settled};
use crate::rpc::{
    begun, error_message, failure_text, finished, message_in, message_on, number_after,
    request_message, request_number, result_message, send_failure_text, FailureView,
    MessageErrorView, MessageView,
};
use crate::text::{decimal, decimal_parses_back};

verus! {

/// The value under a key, or null.
pub open spec fn value_or_null(value: JsonView, key: Seq<char>) -> JsonView {
    match value.get(key) {
        Some(found) => found,
        None => JsonView::Null,
    }
}

/// A message that names a method asks for something where it has an id, and tells something
/// where it has none; either way it carries its parameters.
pub proof fn methods_make_requests_and_notifications(value: JsonView, method: Seq<char>)
    requires
        value.text_at("method"@) == Some(method),
    ensures
        ({
            let params = value_or_null(value, "params"@);
            match value.get("id"@) {
                Some(id) => message_in(value) == Ok::<MessageView, MessageErrorView>(
                    MessageView::Request { id, method, params },
                ),
                None => message_in(value) == Ok::<MessageView, MessageErrorView>(
                    MessageView::Notification { method, params },
                ),
            }
        }),
{
}

/// Whether a value stands for a number of a request: the number itself, or its digits.
pub open spec fn stands_for_number(id: JsonView, number: u64) -> bool {
    id == JsonView::Int(number as int) || id == JsonView::Text(decimal(number as nat))
}

/// A message without a method answers the request whose number it has: with the error where it
/// has one, and else with the result.
pub proof fn numbers_make_answers(value: JsonView, id: JsonView, number: u64)
    requires
        value is Object,
        value.text_at("method"@) is None,
        value.get("id"@) == Some(id),
        stands_for_number(id, number),
    ensures
        request_number(id) == Some(number),
        match value.get("error"@) {
            Some(error) => message_in(value) == Ok::<MessageView, MessageErrorView>(
                MessageView::Failure {
                    id: number,
                    failure: FailureView {
                        message: match error.get("message"@) {
                            Some(JsonView::Text(message)) => message,
                            _ => "Codex app-server returned an error"@,
                        },
                        data: error.get("data"@),
                    },
                },
            ),
            None => message_in(value) == Ok::<MessageView, MessageErrorView>(
                MessageView::Result { id: number, result: value_or_null(value, "result"@) },
            ),
        },
{
    decimal_parses_back(number as nat, u64::MAX as nat);
}

/// What is no object is no message, and what has neither a method nor a number is none.
pub proof fn other_values_are_no_messages(value: JsonView)
    ensures
        value !is Object ==> message_in(value) == Err::<MessageView, MessageErrorView>(
            MessageErrorView::NotAnObject,
        ),
        value is Object && value.text_at("method"@) is None && (value.get("id"@) is None
            || value.get("id"@)->0 is Null || value.get("id"@)->0 is Bool || value.get("id"@)->0
            is Object || value.get("id"@)->0 is Array) ==> message_in(value) == Err::<
            MessageView,
            MessageErrorView,
        >(MessageErrorView::MissingNumericId),
{
}

/// A line is read as the message that its value is, and one that is no value says why.
pub proof fn lines_are_read_as_their_value(line: Seq<char>)
    ensures
        parsed_json(line) matches Ok(value) ==> message_on(line) == message_in(value),
        parsed_json(line) matches Err(reason) ==> message_on(line) == Err::<
            MessageView,
            MessageErrorView,
        >(MessageErrorView::InvalidJson(reason)),
{
}

/// What is no message says why.
pub proof fn message_errors_say_what_is_wrong(reason: Seq<char>)
    ensures
        MessageErrorView::InvalidJson(reason).problem() == (ProblemView {
            message: "invalid JSON"@,
            cause: Some(reason),
        }),
        MessageErrorView::NotAnObject.problem() == (ProblemView {
            message: "JSON-RPC message must be an object"@,
            cause: None,
        }),
        MessageErrorView::MissingNumericId.problem() == (ProblemView {
            message: "JSON-RPC response missing numeric id"@,
            cause: None,
        }),
{
}

/// What is sent says what it is: a request its number, method and parameters, an answer the id
/// that it answers and the result, and an error what went wrong.
pub proof fn messages_say_what_they_are(
    number: u64,
    method: Seq<char>,
    params: JsonView,
    id: JsonView,
    result: JsonView,
    message: Seq<char>,
)
    ensures
        ({
            let request = request_message(number, method, params);
            let answer = result_message(id, result);
            let error = error_message(id, message);
            &&& request.text_at("jsonrpc"@) == Some("2.0"@)
            &&& request.get("id"@) == Some(JsonView::Int(number as int))
            &&& request.text_at("method"@) == Some(method)
            &&& request.get("params"@) == Some(params)
            &&& answer.text_at("jsonrpc"@) == Some("2.0"@)
            &&& answer.get("id"@) == Some(id)
            &&& answer.get("result"@) == Some(result)
            &&& answer.get("error"@) is None && answer.get("method"@) is None
            &&& error.text_at("jsonrpc"@) == Some("2.0"@)
            &&& error.get("id"@) == Some(id)
            &&& error.get("result"@) is None && error.get("method"@) is None
            &&& error.get2("error"@, "message"@) == Some(JsonView::Text(message))
            &&& error.get2("error"@, "code"@) == Some(JsonView::Int(-32603))
        }),
{
    broadcast use found_in_more;

    reveal_strlit("jsonrpc");
    reveal_strlit("id");
    reveal_strlit("method");
    reveal_strlit("params");
    reveal_strlit("result");
    reveal_strlit("error");
    reveal_strlit("code");
    reveal_strlit("message");
    assert("jsonrpc"@.len() == 7 && "id"@.len() == 2 && "error"@.len() == 5);
    assert("method"@.len() == 6 && "method"@[0] == 'm');
    assert("params"@.len() == 6 && "params"@[0] == 'p');
    assert("result"@.len() == 6 && "result"@[0] == 'r');
    assert("code"@.len() == 4 && "message"@.len() == 7 && "message"@[0] == 'm');
}

/// A failure says its message, and its data behind it where it has any; and a request that
/// could not be sent is told by its method and by why.
pub proof fn failures_say_what_went_wrong(
    message: Seq<char>,
    data: JsonView,
    method: Seq<char>,
    error: Seq<char>,
)
    ensures
        failure_text(FailureView { message, data: None }) == message,
        failure_text(FailureView { message, data: Some(data) }) == message + ": "@ + json_text(
            settled(data),
        ),
        send_failure_text(method, error) == "failed to send Codex request `"@ + method + "`: "@
            + error,
{
}

/// Whoever began to wait under a number is found under it, and no longer once the answer was
/// taken; and nobody else is touched.
pub proof fn answers_are_taken_once<W>(waiting: Map<u64, W>, id: u64, waiter: W, other: u64)
    requires
        other != id,
    ensures
        begun(waiting, id, waiter).contains_key(id) && begun(waiting, id, waiter)[id] == waiter,
        !finished(waiting, id).contains_key(id),
        begun(waiting, id, waiter).contains_key(other) == waiting.contains_key(other),
        finished(waiting, id).contains_key(other) == waiting.contains_key(other),
        waiting.contains_key(other) ==> begun(waiting, id, waiter)[other] == waiting[other]
            && finished(waiting, id)[other] == waiting[other],
{
}

/// Requests are numbered one after the other.
pub proof fn requests_are_numbered_in_order(id: u64)
    ensures
        id < u64::MAX ==> number_after(id) == id + 1,
        number_after(u64::MAX) == 0,
{
}

} // verus!
