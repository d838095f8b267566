//! Requests to the app-server, and problems with them.

use vstd::prelude::*;

use crate::json::{fields, no_entries, with, Json, JsonView};
use crate::text::{concat3, opt_string};

verus! {

/// A request to the app-server.
#[derive(Debug, PartialEq)]
pub struct RpcCall {
    pub method: String,
    pub params: Json,
}

/// What a request says.
pub struct CallView {
    pub method: Seq<char>,
    pub params: JsonView,
}

impl View for RpcCall {
    type V = CallView;

    open spec fn view(&self) -> CallView {
        CallView { method: self.method@, params: self.params@ }
    }
}

/// Makes a request.
pub fn call(method: &str, params: Json) -> (made: RpcCall)
    ensures
        made@ == (CallView { method: method@, params: params@ }),
{
    RpcCall { method: method.to_owned(), params }
}

/// What went wrong, and what was behind it.
#[derive(Debug, PartialEq, Eq)]
pub struct Problem {
    pub message: String,
    pub cause: Option<String>,
}

/// What a problem says.
pub struct ProblemView {
    pub message: Seq<char>,
    pub cause: Option<Seq<char>>,
}

impl View for Problem {
    type V = ProblemView;

    open spec fn view(&self) -> ProblemView {
        ProblemView { message: self.message@, cause: opt_string(self.cause) }
    }
}

/// A problem and what was behind it, in one line.
pub open spec fn in_one_line(problem: ProblemView) -> Seq<char> {
    match problem.cause {
        Some(cause) => problem.message + ": "@ + cause,
        None => problem.message,
    }
}

impl Problem {
    /// The problem and what was behind it, in one line.
    pub fn to_line(&self) -> (line: String)
        ensures
            line@ == in_one_line(self@),
    {
        match &self.cause {
            Some(cause) => concat3(self.message.as_str(), ": ", cause.as_str()),
            None => self.message.clone(),
        }
    }
}

/// A problem with nothing behind it.
pub open spec fn plain_problem(message: Seq<char>) -> ProblemView {
    ProblemView { message, cause: None }
}

/// A problem with another behind it.
pub open spec fn problem_after(message: Seq<char>, cause: Seq<char>) -> ProblemView {
    ProblemView { message, cause: Some(cause) }
}

/// A problem with nothing behind it.
pub fn problem(message: &str) -> (made: Problem)
    ensures
        made@ == plain_problem(message@),
{
    Problem { message: message.to_owned(), cause: None }
}

/// A problem with another behind it.
pub fn problem_with_cause(message: &str, cause: &str) -> (made: Problem)
    ensures
        made@ == problem_after(message@, cause@),
{
    Problem { message: message.to_owned(), cause: Some(cause.to_owned()) }
}

/// The parameters that name a thread and nothing else.
pub open spec fn thread_query(thread: Seq<char>) -> JsonView {
    JsonView::Object(fields().push(("threadId"@, JsonView::Text(thread))))
}

/// The parameters that name a thread and nothing else.
pub fn thread_params(thread: &str) -> (params: Json)
    ensures
        params@ == thread_query(thread@),
{
    Json::object(with(no_entries(), "threadId", Json::text(thread)))
}

} // verus!
