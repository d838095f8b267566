//! Requests of the app-server to the bridge: what is asked of the user for each of
//! them, and what is answered.

use vstd::prelude::*;

use crate::approvals::{
    approval_question, approval_reply, approval_request, approval_response, permissions_question,
    permissions_reply, permissions_request, permissions_response, request_view, OutcomeView,
    PermissionOutcome, PermissionRequest, PermissionRequestView,
};
use crate::elicitation::{
    elicitation_choices, elicitation_id, elicitation_outcome, elicitation_question,
    mcp_elicitation_choices, mcp_elicitation_request, mcp_elicitation_response,
    mcp_elicitation_tool_call_id,
};
use crate::json::{fields, no_entries, with, Json, JsonView};
use crate::protocol::{
    text_content, unchanged, ContentView, ToolCallStatus, ToolCallUpdate, ToolCallUpdateView,
};
use crate::table::Table;
use crate::text::{concat3, opt_string, or_text, same_text, text_or};
use crate::user_input::{
    input_outcome, input_question, user_input_request, user_input_response_from_outcome,
};

verus! {

/// The kinds of requests.
#[derive(Clone, Copy, Debug, PartialEq, Eq, Structural)]
pub enum ServerRequestKind {
    CommandApproval,
    FileChangeApproval,
    Permissions,
    UserInput,
    Elicitation,
    CurrentTime,
    Unsupported,
}

/// The kind of the request of a method.
pub open spec fn kind_of_request(method: Seq<char>) -> ServerRequestKind {
    if method == "item/commandExecution/requestApproval"@ {
        ServerRequestKind::CommandApproval
    } else if method == "item/fileChange/requestApproval"@ {
        ServerRequestKind::FileChangeApproval
    } else if method == "item/permissions/requestApproval"@ {
        ServerRequestKind::Permissions
    } else if method == "item/tool/requestUserInput"@ {
        ServerRequestKind::UserInput
    } else if method == "mcpServer/elicitation/request"@ {
        ServerRequestKind::Elicitation
    } else if method == "currentTime/read"@ {
        ServerRequestKind::CurrentTime
    } else {
        ServerRequestKind::Unsupported
    }
}

/// The kind of the request of a method.
pub fn server_request_kind(method: &str) -> (kind: ServerRequestKind)
    ensures
        kind == kind_of_request(method@),
{
    if same_text(method, "item/commandExecution/requestApproval") {
        ServerRequestKind::CommandApproval
    } else if same_text(method, "item/fileChange/requestApproval") {
        ServerRequestKind::FileChangeApproval
    } else if same_text(method, "item/permissions/requestApproval") {
        ServerRequestKind::Permissions
    } else if same_text(method, "item/tool/requestUserInput") {
        ServerRequestKind::UserInput
    } else if same_text(method, "mcpServer/elicitation/request") {
        ServerRequestKind::Elicitation
    } else if same_text(method, "currentTime/read") {
        ServerRequestKind::CurrentTime
    } else {
        ServerRequestKind::Unsupported
    }
}

/// What is to be done for a request: the user is asked, it is answered at once, or it
/// is answered with an error.
#[derive(Debug, PartialEq)]
pub enum ServerRequestAction {
    Ask(PermissionRequest),
    Answer(Json),
    Reject(String),
}

/// What is to be done for a request, as contracts speak of it.
pub enum ServerActionView {
    Ask(PermissionRequestView),
    Answer(JsonView),
    Reject(Seq<char>),
}

impl View for ServerRequestAction {
    type V = ServerActionView;

    open spec fn view(&self) -> ServerActionView {
        match *self {
            ServerRequestAction::Ask(request) => ServerActionView::Ask(request@),
            ServerRequestAction::Answer(answer) => ServerActionView::Answer(answer@),
            ServerRequestAction::Reject(error) => ServerActionView::Reject(error@),
        }
    }
}

/// What is done with a question: it is asked, or there is a reason not to.
pub open spec fn asked(question: Result<PermissionRequestView, Seq<char>>) -> ServerActionView {
    match question {
        Ok(question) => ServerActionView::Ask(question),
        Err(error) => ServerActionView::Reject(error),
    }
}

/// What the app-server is told of the time.
pub open spec fn time_reply(now: i64) -> JsonView {
    JsonView::Object(fields().push(("currentTimeAt"@, JsonView::Int(now as int))))
}

/// What is to be done for a request, at a time.
pub open spec fn request_action(
    method: Seq<char>,
    params: JsonView,
    known: Set<Seq<char>>,
    now: i64,
) -> ServerActionView {
    match kind_of_request(method) {
        ServerRequestKind::CommandApproval => asked(
            approval_question(params, "Run command"@, "accept"@, "decline"@, known),
        ),
        ServerRequestKind::FileChangeApproval => asked(
            approval_question(params, "Apply file changes"@, "accept"@, "decline"@, known),
        ),
        ServerRequestKind::Permissions => asked(permissions_question(params, known)),
        ServerRequestKind::UserInput => asked(input_question(params, known)),
        ServerRequestKind::Elicitation => asked(elicitation_question(params, known)),
        ServerRequestKind::CurrentTime => ServerActionView::Answer(time_reply(now)),
        ServerRequestKind::Unsupported => ServerActionView::Reject(
            "unsupported Codex app-server request `"@ + method + "`"@,
        ),
    }
}

/// What comes of the answer of the user: what the app-server is told, what is changed
/// of the tool call that stands for the question, and a page to open.
#[derive(Debug, PartialEq)]
pub struct ServerReply {
    pub result: Json,
    pub update: Option<ToolCallUpdate>,
    pub url: Option<String>,
}

/// What comes of the answer of the user, as contracts speak of it.
pub struct ServerReplyView {
    pub result: JsonView,
    pub update: Option<ToolCallUpdateView>,
    pub url: Option<Seq<char>>,
}

impl View for ServerReply {
    type V = ServerReplyView;

    open spec fn view(&self) -> ServerReplyView {
        ServerReplyView {
            result: self.result@,
            update: match self.update {
                Some(update) => Some(update@),
                None => None,
            },
            url: opt_string(self.url),
        }
    }
}

/// The end of the tool call that stands for a question.
pub open spec fn question_end(
    id: Seq<char>,
    status: ToolCallStatus,
    summary: Seq<char>,
) -> ToolCallUpdateView {
    ToolCallUpdateView {
        status: Some(status),
        content: Some(seq![ContentView::Text(summary)]),
        ..unchanged(id)
    }
}

/// What the app-server is told where the thread is gone that was to ask.
pub open spec fn asking_failure(method: Seq<char>) -> Seq<char> {
    match kind_of_request(method) {
        ServerRequestKind::Permissions => "failed to request native Codex permissions approval"@,
        ServerRequestKind::UserInput => "failed to request native Codex user input"@,
        ServerRequestKind::Elicitation => "failed to request native Codex MCP elicitation"@,
        _ => "failed to request native Codex approval"@,
    }
}

/// What comes of the answer of the user to the question for a request.
pub open spec fn request_reply(
    method: Seq<char>,
    params: JsonView,
    outcome: OutcomeView,
) -> ServerReplyView {
    match kind_of_request(method) {
        ServerRequestKind::Permissions => ServerReplyView {
            result: permissions_reply(params, outcome),
            update: None,
            url: None,
        },
        ServerRequestKind::UserInput => {
            let (result, status, summary) = input_outcome(params, outcome);
            let item = text_or(params.text_at("itemId"@), ""@);
            ServerReplyView { result, update: Some(question_end(item, status, summary)), url: None }
        },
        ServerRequestKind::Elicitation => {
            let selected = match outcome {
                OutcomeView::Selected { option_id, .. } => Some(option_id),
                OutcomeView::Cancelled => None,
            };
            let ended = elicitation_outcome(params, elicitation_choices(params), selected);
            ServerReplyView {
                result: ended.response,
                update: Some(question_end(elicitation_id(params), ended.status, ended.summary)),
                url: ended.url,
            }
        },
        _ => ServerReplyView {
            result: approval_reply(params, outcome, "accept"@),
            update: None,
            url: None,
        },
    }
}

/// Calls `chrono::Utc::now` and `chrono::DateTime::timestamp`: the seconds since the
/// start of 1970 by the clock of the system, which has to be set to a time after that.
/// Nothing is claimed of the result.
#[verifier::external_body]
fn current_timestamp() -> (now: i64) {
    chrono::Utc::now().timestamp()
}

/// What is done with a question.
fn ask(question: Result<PermissionRequest, String>) -> (action: ServerRequestAction)
    ensures
        action@ == asked(request_view(question)),
{
    match question {
        Ok(question) => ServerRequestAction::Ask(question),
        Err(error) => ServerRequestAction::Reject(error),
    }
}

/// What the app-server is told of the time.
pub fn current_time_response(now: i64) -> (reply: Json)
    ensures
        reply@ == time_reply(now),
{
    Json::object(with(no_entries(), "currentTimeAt", Json::integer(now)))
}

/// What is to be done for a request, at a time.
pub fn server_request_at<S>(method: &str, params: &Json, sessions: &Table<S>, now: i64) -> (action:
    ServerRequestAction)
    ensures
        action@ == request_action(method@, params@, sessions@.dom(), now),
{
    match server_request_kind(method) {
        ServerRequestKind::CommandApproval => ask(
            approval_request(params, "Run command", "accept", "decline", sessions),
        ),
        ServerRequestKind::FileChangeApproval => ask(
            approval_request(params, "Apply file changes", "accept", "decline", sessions),
        ),
        ServerRequestKind::Permissions => ask(permissions_request(params, sessions)),
        ServerRequestKind::UserInput => ask(user_input_request(params, sessions)),
        ServerRequestKind::Elicitation => ask(mcp_elicitation_request(params, sessions)),
        ServerRequestKind::CurrentTime => ServerRequestAction::Answer(current_time_response(now)),
        ServerRequestKind::Unsupported => ServerRequestAction::Reject(
            concat3("unsupported Codex app-server request `", method, "`"),
        ),
    }
}

/// What is to be done for a request, now.
pub fn handle_server_request<S>(method: &str, params: &Json, sessions: &Table<S>) -> (action:
    ServerRequestAction)
    ensures
        exists|now: i64| action@ == #[trigger]
            request_action(method@, params@, sessions@.dom(), now),
{
    let now: i64 = match server_request_kind(method) {
        ServerRequestKind::CurrentTime => current_timestamp(),
        _ => 0,
    };
    let action = server_request_at(method, params, sessions, now);
    assert(action@ == request_action(method@, params@, sessions@.dom(), now));
    action
}

/// What the app-server is told where the thread is gone that was to ask.
pub fn request_failure(method: &str) -> (error: &'static str)
    ensures
        error@ == asking_failure(method@),
{
    match server_request_kind(method) {
        ServerRequestKind::Permissions => "failed to request native Codex permissions approval",
        ServerRequestKind::UserInput => "failed to request native Codex user input",
        ServerRequestKind::Elicitation => "failed to request native Codex MCP elicitation",
        _ => "failed to request native Codex approval",
    }
}

/// The end of the tool call that stands for a question.
pub fn update_permission_tool_call(id: &str, status: ToolCallStatus, summary: String) -> (update:
    ToolCallUpdate)
    ensures
        update@ == question_end(id@, status, summary@),
{
    let mut update = ToolCallUpdate::new(id);
    update.status = Some(status);
    update.content = Some(text_content(summary));
    update
}

/// What comes of the answer of the user to the question for a request.
pub fn answer_server_request(method: &str, params: &Json, outcome: &PermissionOutcome) -> (reply:
    ServerReply)
    ensures
        reply@ == request_reply(method@, params@, outcome@),
{
    match server_request_kind(method) {
        ServerRequestKind::Permissions => ServerReply {
            result: permissions_response(params, outcome),
            update: None,
            url: None,
        },
        ServerRequestKind::UserInput => {
            let (result, status, summary) = user_input_response_from_outcome(params, outcome);
            let item = or_text(params.text_at("itemId"), "");
            ServerReply {
                result,
                update: Some(update_permission_tool_call(item, status, summary)),
                url: None,
            }
        },
        ServerRequestKind::Elicitation => {
            let choices = mcp_elicitation_choices(params);
            let selected = match outcome {
                PermissionOutcome::Selected { option_id, .. } => Some(option_id.as_str()),
                PermissionOutcome::Cancelled => None,
            };
            let ended = mcp_elicitation_response(params, &choices, selected);
            let id = mcp_elicitation_tool_call_id(params);
            ServerReply {
                result: ended.response,
                update: Some(
                    update_permission_tool_call(id.as_str(), ended.status, ended.summary),
                ),
                url: ended.url,
            }
        },
        _ => ServerReply {
            result: approval_response(params, outcome, "accept"),
            update: None,
            url: None,
        },
    }
}

/// Nothing is asked in a thread that is not known: a request for one is answered with an
/// error.
pub proof fn unknown_threads_are_not_asked(
    method: Seq<char>,
    params: JsonView,
    known: Set<Seq<char>>,
    now: i64,
)
    ensures
        match request_action(method, params, known, now) {
            ServerActionView::Ask(question) => known.contains(question.session)
                && params.text_at("threadId"@) == Some(question.session),
            _ => true,
        },
{
}

} // verus!
