//! The items of a Codex turn: what a tool call is called, how far it has come,
//! what it puts out, and the terminals that commands run in.

use vstd::prelude::*;

use crate::json::{
    collect_texts, copy_or_null, entry_views, fields, no_entries, opt_json, or_null, read_text, text_array,
    text_in, text_items, text_or_null, texts_among, with, write_text, Json, JsonView,
};
use crate::json_text::{json_text, settled, to_text};
use crate::protocol::{ToolCallStatus, ToolKind};
use crate::text::{
    after_prefix, concat2, concat3, concat4, either, opt_string, opt_text, or_text, owned,
    same_text, strip_prefix, text_or, texts,
};

verus! {

// ---------------------------------------------------------------------------
// Titles, kinds and states
// ---------------------------------------------------------------------------

/// The name of the agent that an item is for.
pub open spec fn agent_name(item: JsonView) -> Option<Seq<char>> {
    text_in(
        either(
            item.get_either("name"@, "agentName"@),
            item.get_either("subagentName"@, "agent"@),
        ),
    )
}

/// A text with something before and behind it, or a default where there is none.
pub open spec fn framed(
    before: Seq<char>,
    text: Option<Seq<char>>,
    behind: Seq<char>,
    default: Seq<char>,
) -> Seq<char> {
    match text {
        Some(text) => before + text + behind,
        None => default,
    }
}

/// What a tool call is called.
pub open spec fn title_of(item: JsonView) -> Seq<char> {
    let kind = item.text_at("type"@);
    let tool = item.text_at("tool"@);
    if kind == Some("commandExecution"@) {
        framed("Run `"@, item.text_at("command"@), "`"@, "Run command"@)
    } else if kind == Some("fileChange"@) {
        "Apply file changes"@
    } else if kind == Some("mcpToolCall"@) {
        text_or(item.text_at("server"@), "MCP"@) + ": "@ + text_or(tool, "tool"@)
    } else if kind == Some("dynamicToolCall"@) {
        framed("Tool: "@, tool, ""@, "Dynamic tool"@)
    } else if kind == Some("collabAgentToolCall"@) {
        match (agent_name(item), tool) {
            (Some(name), Some(tool)) => "Subagent "@ + name + ": "@ + tool,
            (Some(name), None) => "Subagent: "@ + name,
            (None, Some(tool)) => "Subagent: "@ + tool,
            (None, None) => "Subagent"@,
        }
    } else if kind == Some("webSearch"@) {
        framed("Search the web for `"@, item.text_at("query"@), "`"@, "Search the web"@)
    } else if kind == Some("imageGeneration"@) {
        "Image generation"@
    } else {
        "Codex tool"@
    }
}

/// How far a tool call has come.
pub open spec fn status_of(item: JsonView, completed: bool) -> ToolCallStatus {
    let status = item.text_at("status"@);
    if status == Some("completed"@) {
        ToolCallStatus::Completed
    } else if status == Some("failed"@) || status == Some("declined"@) {
        ToolCallStatus::Failed
    } else if completed {
        ToolCallStatus::Completed
    } else {
        ToolCallStatus::InProgress
    }
}

/// What the tool of an item type does.
pub open spec fn kind_of(item_type: Seq<char>) -> ToolKind {
    if item_type == "webSearch"@ {
        ToolKind::Fetch
    } else if item_type == "fileChange"@ {
        ToolKind::Edit
    } else if item_type == "commandExecution"@ {
        ToolKind::Execute
    } else {
        ToolKind::Other
    }
}

/// What a tool call put out: its output, or else its error.
pub open spec fn output_of(item: JsonView) -> Option<Seq<char>> {
    match item.text_at("aggregatedOutput"@) {
        Some(output) => if output.len() > 0 {
            Some(output)
        } else {
            error_of(item)
        },
        None => error_of(item),
    }
}

/// The error of a tool call, as text.
pub open spec fn error_of(item: JsonView) -> Option<Seq<char>> {
    match item.get("error"@) {
        Some(error) => if error is Null {
            None
        } else {
            Some("Error: "@ + json_text(settled(error)))
        },
        None => None,
    }
}

/// The name of the agent that an item is for.
pub fn collab_agent_name(item: &Json) -> (name: Option<String>)
    ensures
        opt_string(name) == agent_name(item@),
{
    let name = match item.get_either("name", "agentName") {
        Some(name) => Some(name),
        None => item.get_either("subagentName", "agent"),
    };
    owned(read_text(name))
}

/// A text with something before and behind it, or a default.
fn frame(before: &str, text: Option<&str>, behind: &str, default: &str) -> (whole: String)
    ensures
        whole@ == framed(before@, opt_text(text), behind@, default@),
{
    match text {
        Some(text) => concat3(before, text, behind),
        None => default.to_owned(),
    }
}

/// Whether a text is there and is a given one.
pub fn is_text(text: Option<&str>, expected: &str) -> (same: bool)
    ensures
        same == (opt_text(text) == Some(expected@)),
{
    match text {
        Some(text) => same_text(text, expected),
        None => false,
    }
}

/// What a tool call is called.
pub fn tool_title(item: &Json) -> (title: String)
    ensures
        title@ == title_of(item@),
{
    let kind = item.text_at("type");
    let tool = item.text_at("tool");
    if is_text(kind, "commandExecution") {
        frame("Run `", item.text_at("command"), "`", "Run command")
    } else if is_text(kind, "fileChange") {
        "Apply file changes".to_owned()
    } else if is_text(kind, "mcpToolCall") {
        concat3(or_text(item.text_at("server"), "MCP"), ": ", or_text(tool, "tool"))
    } else if is_text(kind, "dynamicToolCall") {
        frame("Tool: ", tool, "", "Dynamic tool")
    } else if is_text(kind, "collabAgentToolCall") {
        match (collab_agent_name(item), tool) {
            (Some(name), Some(tool)) => concat4("Subagent ", name.as_str(), ": ", tool),
            (Some(name), None) => concat2("Subagent: ", name.as_str()),
            (None, Some(tool)) => concat2("Subagent: ", tool),
            (None, None) => "Subagent".to_owned(),
        }
    } else if is_text(kind, "webSearch") {
        frame("Search the web for `", item.text_at("query"), "`", "Search the web")
    } else if is_text(kind, "imageGeneration") {
        "Image generation".to_owned()
    } else {
        "Codex tool".to_owned()
    }
}

/// How far a tool call has come.
pub fn tool_status_from_item(item: &Json, completed: bool) -> (status: ToolCallStatus)
    ensures
        status == status_of(item@, completed),
{
    let status = item.text_at("status");
    if is_text(status, "completed") {
        ToolCallStatus::Completed
    } else if is_text(status, "failed") || is_text(status, "declined") {
        ToolCallStatus::Failed
    } else if completed {
        ToolCallStatus::Completed
    } else {
        ToolCallStatus::InProgress
    }
}

/// What the tool of an item type does.
pub fn tool_kind_for_item_type(item_type: &str) -> (kind: ToolKind)
    ensures
        kind == kind_of(item_type@),
{
    if same_text(item_type, "webSearch") {
        ToolKind::Fetch
    } else if same_text(item_type, "fileChange") {
        ToolKind::Edit
    } else if same_text(item_type, "commandExecution") {
        ToolKind::Execute
    } else {
        ToolKind::Other
    }
}

/// What a tool call put out.
pub fn tool_item_content(item: &Json) -> (output: Option<String>)
    ensures
        opt_string(output) == output_of(item@),
{
    if let Some(output) = item.text_at("aggregatedOutput") {
        if !output.is_empty() {
            return Some(output.to_owned());
        }
    }
    match item.get("error") {
        Some(error) => match error {
            Json::Null => None,
            _ => Some(concat2("Error: ", to_text(error).as_str())),
        },
        None => None,
    }
}

// ---------------------------------------------------------------------------
// Terminals of commands
// ---------------------------------------------------------------------------

/// The terminal in which a command runs.
pub open spec fn terminal_of(item_id: Seq<char>) -> Seq<char> {
    "codex-native-command:"@ + item_id
}

/// What is told of a terminal when its command starts.
pub open spec fn terminal_info(item_id: Seq<char>, item: JsonView) -> JsonView {
    let cwd = text_in(
        either(item.get_either("cwd"@, "cd"@), item.get("workingDirectory"@)),
    );
    JsonView::Object(
        fields().push(
            (
                "terminal_info"@,
                JsonView::Object(
                    fields().push(("terminal_id"@, JsonView::Text(terminal_of(item_id)))).push(
                        ("cwd"@, text_or_null(cwd)),
                    ),
                ),
            ),
        ),
    )
}

/// What a terminal puts out.
pub open spec fn terminal_output(item_id: Seq<char>, data: Seq<char>) -> (Seq<char>, JsonView) {
    (
        "terminal_output"@,
        JsonView::Object(
            fields().push(("terminal_id"@, JsonView::Text(terminal_of(item_id)))).push(
                ("data"@, JsonView::Text(data)),
            ),
        ),
    )
}

/// How the command of a terminal ended.
pub open spec fn terminal_exit(item_id: Seq<char>, item: JsonView) -> (Seq<char>, JsonView) {
    let exit_code = match item.get_either("exitCode"@, "exit_code"@) {
        Some(code) => match code.as_u64() {
            Some(code) => JsonView::Int(code as int),
            None => JsonView::Null,
        },
        None => JsonView::Null,
    };
    (
        "terminal_exit"@,
        JsonView::Object(
            fields().push(("terminal_id"@, JsonView::Text(terminal_of(item_id)))).push(
                ("exit_code"@, exit_code),
            ).push(("signal"@, text_or_null(item.text_at("signal"@)))),
        ),
    )
}

/// What is told of a terminal when its command has ended.
pub open spec fn completion_meta(
    item_id: Seq<char>,
    item: JsonView,
    output: Option<Seq<char>>,
) -> JsonView {
    let entries = match output {
        Some(output) => fields().push(terminal_output(item_id, output)),
        None => fields(),
    };
    JsonView::Object(entries.push(terminal_exit(item_id, item)))
}

/// What of the output of a command has not been streamed yet: all of it where
/// nothing was streamed, else what follows the streamed part; nothing where there
/// is no more, or where the output does not start with what was streamed.
pub open spec fn missing_output(
    completed: Option<Seq<char>>,
    streamed: Option<Seq<char>>,
) -> Option<Seq<char>> {
    match completed {
        Some(whole) => {
            let streamed = text_or(streamed, Seq::empty());
            match after_prefix(whole, streamed) {
                Some(rest) => if rest.len() > 0 {
                    Some(rest)
                } else {
                    None
                },
                None => None,
            }
        },
        None => None,
    }
}

/// The terminal in which a command runs.
pub fn command_terminal_id(item_id: &str) -> (terminal: String)
    ensures
        terminal@ == terminal_of(item_id@),
{
    concat2("codex-native-command:", item_id)
}

/// What is told of a terminal when its command starts.
pub fn command_terminal_info_meta(item_id: &str, item: &Json) -> (meta: Json)
    ensures
        meta@ == terminal_info(item_id@, item@),
{
    let cwd = match item.get_either("cwd", "cd") {
        Some(cwd) => Some(cwd),
        None => item.get("workingDirectory"),
    };
    let entries = with(no_entries(), "terminal_id", Json::Text(command_terminal_id(item_id)));
    let info = Json::object(with(entries, "cwd", write_text(read_text(cwd))));
    Json::object(with(no_entries(), "terminal_info", info))
}

/// Adds what a terminal puts out.
pub fn with_terminal_output(
    entries: Vec<(String, Json)>,
    item_id: &str,
    data: &str,
) -> (more: Vec<(String, Json)>)
    ensures
        entry_views(more@) == entry_views(entries@).push(
            terminal_output(item_id@, data@),
        ),
{
    let inner = with(no_entries(), "terminal_id", Json::Text(command_terminal_id(item_id)));
    let output = Json::object(with(inner, "data", Json::text(data)));
    with(entries, "terminal_output", output)
}

/// What is told of a terminal when its command has ended.
pub fn command_terminal_completion_meta(
    item_id: &str,
    item: &Json,
    output: Option<&str>,
) -> (meta: Json)
    ensures
        meta@ == completion_meta(item_id@, item@, opt_text(output)),
{
    let entries = match output {
        Some(output) => with_terminal_output(no_entries(), item_id, output),
        None => no_entries(),
    };
    let exit_code = match item.get_either("exitCode", "exit_code") {
        Some(code) => match code.as_u64() {
            Some(code) => Json::UInt(code),
            None => Json::Null,
        },
        None => Json::Null,
    };
    let inner = with(no_entries(), "terminal_id", Json::Text(command_terminal_id(item_id)));
    let inner = with(inner, "exit_code", exit_code);
    let inner = with(inner, "signal", write_text(item.text_at("signal")));
    Json::object(with(entries, "terminal_exit", Json::object(inner)))
}

/// What of the output of a command has not been streamed yet.
pub fn command_completion_output_delta<'a>(
    completed_output: Option<&'a str>,
    streamed_output: Option<&str>,
) -> (delta: Option<&'a str>)
    ensures
        opt_text(delta) == missing_output(opt_text(completed_output), opt_text(streamed_output)),
{
    let completed = match completed_output {
        Some(output) => output,
        None => return None,
    };
    let streamed = or_text(streamed_output, "");
    proof {
        reveal_strlit("");
        assert(""@ =~= Seq::<char>::empty());
    }
    match strip_prefix(completed, streamed) {
        Some(rest) => if rest.is_empty() {
            None
        } else {
            Some(rest)
        },
        None => None,
    }
}

/// What was streamed and what is missing make up the whole output, whenever the
/// output starts with what was streamed; and nothing is replayed that was
/// streamed before.
pub proof fn streamed_and_missing_make_the_output(
    whole: Seq<char>,
    streamed: Seq<char>,
    rest: Seq<char>,
)
    requires
        whole == streamed + rest,
    ensures
        missing_output(Some(whole), Some(streamed)) == (if rest.len() > 0 {
            Some(rest)
        } else {
            None
        }),
        streamed + text_or(missing_output(Some(whole), Some(streamed)), Seq::empty()) == whole,
{
    assert(whole.take(streamed.len() as int) =~= streamed);
    assert(whole.skip(streamed.len() as int) =~= rest);
    if rest.len() == 0 {
        assert(rest =~= Seq::<char>::empty());
    }
}

// ---------------------------------------------------------------------------
// Agents that work together
// ---------------------------------------------------------------------------

/// What is told of a call to another agent; nothing for any other item.
pub open spec fn collab_meta(item: JsonView) -> Option<JsonView> {
    if item.text_at("type"@) != Some("collabAgentToolCall"@) {
        None
    } else {
        let threads = texts_among(item.items_at("receiverThreadIds"@));
        let named = fields().push(("tool_name"@, JsonView::Text("spawn_agent"@)));
        let session = JsonView::Object(
            fields().push(("session_id"@, JsonView::Text(threads[0]))).push(
                ("message_start_index"@, JsonView::Int(0)),
            ).push(("message_end_index"@, JsonView::Null)),
        );
        let addressed = if threads.len() > 0 {
            named.push(("subagent_session_info"@, session))
        } else {
            named
        };
        let details = fields().push(("tool"@, or_null(item.get("tool"@)))).push(
            ("name"@, text_or_null(agent_name(item))),
        ).push(("status"@, or_null(item.get("status"@)))).push(
            ("receiver_thread_ids"@, JsonView::Array(text_items(threads))),
        ).push(("summary"@, or_null(item.get("summary"@)))).push(
            ("output"@, or_null(item.get_either("aggregatedOutput"@, "output"@))),
        );
        Some(JsonView::Object(addressed.push(("codex_native_collab"@, JsonView::Object(details)))))
    }
}

/// What is told of a call to another agent.
pub fn collab_tool_call_meta(item: &Json) -> (meta: Option<Json>)
    ensures
        opt_json(meta) == collab_meta(item@),
{
    if !is_text(item.text_at("type"), "collabAgentToolCall") {
        return None;
    }
    let threads = collect_texts(&item.items_at("receiverThreadIds"));
    let mut entries = with(no_entries(), "tool_name", Json::text("spawn_agent"));
    assert(texts(threads@).len() == threads@.len());
    if threads.len() > 0 {
        let session = with(no_entries(), "session_id", Json::text(threads[0].as_str()));
        let session = with(session, "message_start_index", Json::UInt(0));
        let session = with(session, "message_end_index", Json::Null);
        entries = with(entries, "subagent_session_info", Json::object(session));
    }
    let name = match collab_agent_name(item) {
        Some(name) => Json::Text(name),
        None => Json::Null,
    };
    let details = with(no_entries(), "tool", copy_or_null(item.get("tool")));
    let details = with(details, "name", name);
    let details = with(details, "status", copy_or_null(item.get("status")));
    let details = with(details, "receiver_thread_ids", text_array(&threads));
    let details = with(details, "summary", copy_or_null(item.get("summary")));
    let output = copy_or_null(item.get_either("aggregatedOutput", "output"));
    let details = with(details, "output", output);
    Some(Json::object(with(entries, "codex_native_collab", Json::object(details))))
}

} // verus!
