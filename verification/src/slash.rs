//! Slash commands: how they are found in a prompt, and what each of them does step by
//! step.

use vstd::prelude::*;

use crate::calls::{
    call, plain_problem, problem, problem_after, problem_with_cause, thread_params, thread_query,
    CallView, Problem, ProblemView, RpcCall,
};
use crate::config::{config_read_call, read_query};
use crate::items::is_text;
use crate::json::{
    fields, item_views, item_views_push, no_entries, read_text, text_in, with, Json, JsonView,
};
use crate::listing::{
    config_text, fork_text, format_config_read, format_hooks_list, format_mcp_status_list,
    format_model_list, format_plugin_list, format_skills_list, format_thread_fork,
    format_thread_history, history_text, hooks_text, model_list_text, plugins_text, servers_text,
    skills_text,
};
use crate::models::{model_list_params, model_list_query};
use crate::protocol::StopReason;
use crate::text::{
    after_prefix, chars_of, is_white, is_whitespace, lowercased, opt_string, opt_text, same_text,
    strip_prefix, to_ascii_lowercase, trim, trim_start, trimmed, trimmed_start,
};
use crate::updates::{goal_message, goal_text};

verus! {

// ---------------------------------------------------------------------------
// Commands
// ---------------------------------------------------------------------------

/// What is done with the goal of a thread.
#[derive(Debug, PartialEq, Eq)]
pub enum GoalCommand {
    Status,
    Clear,
    Pause,
    Resume,
    SetTo(String),
}

/// A slash command.
#[derive(Debug, PartialEq)]
pub enum NativeSlashCommand {
    Review { target: Json },
    Compact,
    Goal(GoalCommand),
    Model,
    Config,
    Skills,
    Plugins,
    Hooks,
    Mcp,
    Fork,
    History,
}

/// What is done with the goal of a thread, as contracts speak of it.
pub enum GoalView {
    Status,
    Clear,
    Pause,
    Resume,
    SetTo(Seq<char>),
}

/// A slash command, as contracts speak of it.
pub enum CommandView {
    Review { target: JsonView },
    Compact,
    Goal(GoalView),
    Model,
    Config,
    Skills,
    Plugins,
    Hooks,
    Mcp,
    Fork,
    History,
}

impl View for GoalCommand {
    type V = GoalView;

    open spec fn view(&self) -> GoalView {
        match *self {
            GoalCommand::Status => GoalView::Status,
            GoalCommand::Clear => GoalView::Clear,
            GoalCommand::Pause => GoalView::Pause,
            GoalCommand::Resume => GoalView::Resume,
            GoalCommand::SetTo(objective) => GoalView::SetTo(objective@),
        }
    }
}

impl View for NativeSlashCommand {
    type V = CommandView;

    open spec fn view(&self) -> CommandView {
        match *self {
            NativeSlashCommand::Review { target } => CommandView::Review { target: target@ },
            NativeSlashCommand::Compact => CommandView::Compact,
            NativeSlashCommand::Goal(goal) => CommandView::Goal(goal@),
            NativeSlashCommand::Model => CommandView::Model,
            NativeSlashCommand::Config => CommandView::Config,
            NativeSlashCommand::Skills => CommandView::Skills,
            NativeSlashCommand::Plugins => CommandView::Plugins,
            NativeSlashCommand::Hooks => CommandView::Hooks,
            NativeSlashCommand::Mcp => CommandView::Mcp,
            NativeSlashCommand::Fork => CommandView::Fork,
            NativeSlashCommand::History => CommandView::History,
        }
    }
}

/// How many characters stand before the first white space.
pub open spec fn word_length(s: Seq<char>) -> nat
    decreases s.len(),
{
    if s.len() == 0 || is_white(s[0]) {
        0
    } else {
        1 + word_length(s.skip(1))
    }
}

/// The text of the first block of a prompt.
pub open spec fn first_text(input: Seq<JsonView>) -> Option<Seq<char>> {
    if input.len() == 0 || input[0].text_at("type"@) != Some("text"@) {
        None
    } else {
        input[0].text_at("text"@)
    }
}

/// The name of a slash command and what stands behind it: a slash, and directly behind
/// it a word.
pub open spec fn command_parts(text: Seq<char>) -> Option<(Seq<char>, Seq<char>)> {
    match after_prefix(text, "/"@) {
        Some(stripped) => {
            let size = word_length(stripped) as int;
            if size == 0 {
                None
            } else {
                Some((stripped.take(size), trimmed_start(stripped.skip(size))))
            }
        },
        None => None,
    }
}

/// What a review is of: the instructions that are given, or else the changes that are
/// not committed.
pub open spec fn review_target(rest: Seq<char>) -> JsonView {
    JsonView::Object(
        if trimmed(rest).len() == 0 {
            fields().push(("type"@, JsonView::Text("uncommittedChanges"@)))
        } else {
            fields().push(("type"@, JsonView::Text("custom"@))).push(
                ("instructions"@, JsonView::Text(trimmed(rest))),
            )
        },
    )
}

/// What is done with the goal.
pub open spec fn goal_command(rest: Seq<char>) -> GoalView {
    let objective = trimmed(rest);
    let word = lowercased(objective);
    if word == ""@ || word == "status"@ {
        GoalView::Status
    } else if word == "clear"@ {
        GoalView::Clear
    } else if word == "pause"@ {
        GoalView::Pause
    } else if word == "resume"@ {
        GoalView::Resume
    } else {
        GoalView::SetTo(objective)
    }
}

/// The command of a name; nothing where there is no such command.
pub open spec fn named_command(name: Seq<char>, rest: Seq<char>) -> Option<CommandView> {
    if name == "review"@ {
        Some(CommandView::Review { target: review_target(rest) })
    } else if name == "compact"@ {
        Some(CommandView::Compact)
    } else if name == "goal"@ {
        Some(CommandView::Goal(goal_command(rest)))
    } else if name == "model"@ {
        Some(CommandView::Model)
    } else if name == "config"@ {
        Some(CommandView::Config)
    } else if name == "skills"@ {
        Some(CommandView::Skills)
    } else if name == "plugins"@ {
        Some(CommandView::Plugins)
    } else if name == "hooks"@ {
        Some(CommandView::Hooks)
    } else if name == "mcp"@ {
        Some(CommandView::Mcp)
    } else if name == "fork"@ {
        Some(CommandView::Fork)
    } else if name == "history"@ {
        Some(CommandView::History)
    } else {
        None
    }
}

/// The slash command that a prompt is; nothing where it is none.
pub open spec fn command_in(input: Seq<JsonView>) -> Option<CommandView> {
    match first_text(input) {
        Some(text) => match command_parts(text) {
            Some((name, rest)) => named_command(name, rest),
            None => None,
        },
        None => None,
    }
}

/// The text of the first block of a prompt.
fn read_first_text(input: &Vec<Json>) -> (text: Option<&str>)
    ensures
        opt_text(text) == first_text(item_views(input@)),
{
    if input.len() == 0 {
        return None;
    }
    assert(item_views(input@)[0] == input@[0]@);
    if !is_text(input[0].text_at("type"), "text") {
        return None;
    }
    input[0].text_at("text")
}

/// How many characters stand before the first white space.
fn measure_word(chars: &Vec<char>) -> (size: usize)
    ensures
        size == word_length(chars@),
        size <= chars@.len(),
{
    let mut i: usize = 0;
    assert(chars@.skip(0) =~= chars@);
    while i < chars.len() && !is_whitespace(chars[i])
        invariant
            i <= chars@.len(),
            word_length(chars@) == i + word_length(chars@.skip(i as int)),
        decreases chars@.len() - i,
    {
        assert(chars@.skip(i as int).skip(1) =~= chars@.skip(i + 1));
        i = i + 1;
    }
    i
}

/// The name of the slash command that a prompt starts with, and what stands behind it.
pub fn extract_native_slash_command<'a>(input: &'a Vec<Json>) -> (parts: Option<(&'a str, &'a str)>)
    ensures
        match parts {
            Some((name, rest)) => {
                &&& first_text(item_views(input@)) is Some
                &&& command_parts(first_text(item_views(input@))->0) == Some((name@, rest@))
            },
            None => first_text(item_views(input@)) is None || command_parts(
                first_text(item_views(input@))->0,
            ) is None,
        },
{
    let text = match read_first_text(input) {
        Some(text) => text,
        None => return None,
    };
    let stripped = match strip_prefix(text, "/") {
        Some(stripped) => stripped,
        None => return None,
    };
    let chars = chars_of(stripped);
    let size = measure_word(&chars);
    if size == 0 {
        return None;
    }
    let name = stripped.substring_char(0, size);
    let behind = stripped.substring_char(size, chars.len());
    proof {
        assert(name@ =~= stripped@.take(size as int));
        assert(behind@ =~= stripped@.skip(size as int));
    }
    Some((name, trim_start(behind)))
}

/// What a review is of.
fn make_review_target(rest: &str) -> (target: Json)
    ensures
        target@ == review_target(rest@),
{
    let instructions = trim(rest);
    if instructions.is_empty() {
        Json::object(with(no_entries(), "type", Json::text("uncommittedChanges")))
    } else {
        let entries = with(no_entries(), "type", Json::text("custom"));
        Json::object(with(entries, "instructions", Json::text(instructions)))
    }
}

/// What is done with the goal.
fn read_goal_command(rest: &str) -> (command: GoalCommand)
    ensures
        command@ == goal_command(rest@),
{
    let objective = trim(rest);
    let lower = to_ascii_lowercase(objective);
    let word = lower.as_str();
    if same_text(word, "") || same_text(word, "status") {
        GoalCommand::Status
    } else if same_text(word, "clear") {
        GoalCommand::Clear
    } else if same_text(word, "pause") {
        GoalCommand::Pause
    } else if same_text(word, "resume") {
        GoalCommand::Resume
    } else {
        GoalCommand::SetTo(objective.to_owned())
    }
}

/// The slash command that a prompt is.
pub fn native_slash_command(input: &Vec<Json>) -> (command: Option<NativeSlashCommand>)
    ensures
        match command {
            Some(command) => command_in(item_views(input@)) == Some(command@),
            None => command_in(item_views(input@)) is None,
        },
{
    let (name, rest) = match extract_native_slash_command(input) {
        Some(parts) => parts,
        None => return None,
    };
    if same_text(name, "review") {
        Some(NativeSlashCommand::Review { target: make_review_target(rest) })
    } else if same_text(name, "compact") {
        Some(NativeSlashCommand::Compact)
    } else if same_text(name, "goal") {
        Some(NativeSlashCommand::Goal(read_goal_command(rest)))
    } else if same_text(name, "model") {
        Some(NativeSlashCommand::Model)
    } else if same_text(name, "config") {
        Some(NativeSlashCommand::Config)
    } else if same_text(name, "skills") {
        Some(NativeSlashCommand::Skills)
    } else if same_text(name, "plugins") {
        Some(NativeSlashCommand::Plugins)
    } else if same_text(name, "hooks") {
        Some(NativeSlashCommand::Hooks)
    } else if same_text(name, "mcp") {
        Some(NativeSlashCommand::Mcp)
    } else if same_text(name, "fork") {
        Some(NativeSlashCommand::Fork)
    } else if same_text(name, "history") {
        Some(NativeSlashCommand::History)
    } else {
        None
    }
}

// ---------------------------------------------------------------------------
// Steps
// ---------------------------------------------------------------------------

/// What is to be done next for a slash command.
#[derive(Debug, PartialEq)]
pub enum SlashNext {
    /// Show a text in the thread, after the list of threads was refreshed where that is
    /// asked for.
    Show { refresh: bool, text: String },
    /// Wait for a turn to start, for a while.
    AwaitStart,
    /// Wait for a turn to end.
    AwaitTurn(String),
    /// The command is done.
    Done { forget_start: bool, reason: StopReason },
    /// The command failed.
    Fail { forget_start: bool, problem: Problem },
}

/// What is to be done next, as contracts speak of it.
pub enum NextView {
    Show { refresh: bool, text: Seq<char> },
    AwaitStart,
    AwaitTurn(Seq<char>),
    Done { forget_start: bool, reason: StopReason },
    Fail { forget_start: bool, problem: ProblemView },
}

impl View for SlashNext {
    type V = NextView;

    open spec fn view(&self) -> NextView {
        match *self {
            SlashNext::Show { refresh, text } => NextView::Show { refresh, text: text@ },
            SlashNext::AwaitStart => NextView::AwaitStart,
            SlashNext::AwaitTurn(turn) => NextView::AwaitTurn(turn@),
            SlashNext::Done { forget_start, reason } => NextView::Done { forget_start, reason },
            SlashNext::Fail { forget_start, problem } => NextView::Fail {
                forget_start,
                problem: problem@,
            },
        }
    }
}

/// Whether a command waits for the next turn to start, for which it has to be watched
/// before the request is sent.
pub open spec fn starts_a_turn(command: CommandView) -> bool {
    command is Compact
}

/// The parameters with which a goal is changed.
pub open spec fn goal_change(session: Seq<char>, goal: GoalView) -> JsonView {
    let base = fields().push(("threadId"@, JsonView::Text(session)));
    JsonView::Object(
        match goal {
            GoalView::Pause => base.push(("status"@, JsonView::Text("paused"@))),
            GoalView::SetTo(objective) => base.push(
                ("objective"@, JsonView::Text(objective)),
            ).push(("status"@, JsonView::Text("active"@))),
            _ => base.push(("status"@, JsonView::Text("active"@))),
        },
    )
}

/// The request that a command makes.
pub open spec fn command_call(command: CommandView, session: Seq<char>) -> CallView {
    let empty = JsonView::Array(Seq::empty());
    match command {
        CommandView::Review { target } => CallView {
            method: "review/start"@,
            params: JsonView::Object(
                fields().push(("threadId"@, JsonView::Text(session))).push(
                    ("target"@, target),
                ).push(("delivery"@, JsonView::Text("inline"@))),
            ),
        },
        CommandView::Compact => CallView {
            method: "thread/compact/start"@,
            params: thread_query(session),
        },
        CommandView::Goal(GoalView::Status) => CallView {
            method: "thread/goal/get"@,
            params: thread_query(session),
        },
        CommandView::Goal(GoalView::Clear) => CallView {
            method: "thread/goal/clear"@,
            params: thread_query(session),
        },
        CommandView::Goal(goal) => CallView {
            method: "thread/goal/set"@,
            params: goal_change(session, goal),
        },
        CommandView::Model => CallView { method: "model/list"@, params: model_list_query() },
        CommandView::Config => read_query(),
        CommandView::Skills => CallView {
            method: "skills/list"@,
            params: JsonView::Object(
                fields().push(("cwds"@, empty)).push(("forceReload"@, JsonView::Bool(false))),
            ),
        },
        CommandView::Plugins => CallView {
            method: "plugin/list"@,
            params: JsonView::Object(
                fields().push(("cwds"@, JsonView::Null)).push(
                    ("marketplaceKinds"@, JsonView::Null),
                ),
            ),
        },
        CommandView::Hooks => CallView {
            method: "hooks/list"@,
            params: JsonView::Object(fields().push(("cwds"@, empty))),
        },
        CommandView::Mcp => CallView {
            method: "mcpServerStatus/list"@,
            params: JsonView::Object(
                fields().push(("cursor"@, JsonView::Null)).push(("limit"@, JsonView::Null)).push(
                    ("detail"@, JsonView::Text("toolsAndAuthOnly"@)),
                ),
            ),
        },
        CommandView::Fork => CallView {
            method: "thread/fork"@,
            params: JsonView::Object(
                fields().push(("threadId"@, JsonView::Text(session))).push(
                    ("threadSource"@, JsonView::Text("appServer"@)),
                ),
            ),
        },
        CommandView::History => CallView {
            method: "thread/list"@,
            params: JsonView::Object(
                fields().push(
                    ("sourceKinds"@, listed_sources()),
                ).push(("limit"@, JsonView::Int(20))),
            ),
        },
    }
}

/// What is said where the request of a command fails.
pub open spec fn call_problem(command: CommandView) -> Seq<char> {
    match command {
        CommandView::Review { .. } => "failed to start native Codex review"@,
        CommandView::Compact => "failed to start native Codex compaction"@,
        CommandView::Goal(GoalView::Status) => "failed to read native Codex goal"@,
        CommandView::Goal(GoalView::Clear) => "failed to clear native Codex goal"@,
        CommandView::Goal(_) => "failed to update native Codex goal"@,
        CommandView::Model => "failed to list native Codex models"@,
        CommandView::Config => "failed to read native Codex configuration"@,
        CommandView::Skills => "failed to list native Codex skills"@,
        CommandView::Plugins => "failed to list native Codex plugins"@,
        CommandView::Hooks => "failed to list native Codex hooks"@,
        CommandView::Mcp => "failed to list native Codex MCP servers"@,
        CommandView::Fork => "failed to fork native Codex thread"@,
        CommandView::History => "failed to list native Codex history"@,
    }
}

/// What is said where what a command found cannot be shown.
pub open spec fn show_problem(command: CommandView) -> Seq<char> {
    match command {
        CommandView::Goal(_) => "failed to show native Codex goal"@,
        CommandView::Model => "failed to show native Codex model list"@,
        CommandView::Config => "failed to show native Codex configuration"@,
        CommandView::Skills => "failed to show native Codex skills"@,
        CommandView::Plugins => "failed to show native Codex plugins"@,
        CommandView::Hooks => "failed to show native Codex hooks"@,
        CommandView::Mcp => "failed to show native Codex MCP servers"@,
        CommandView::Fork => "failed to show native Codex fork result"@,
        _ => "failed to show native Codex history"@,
    }
}

/// What is shown of the goal of a thread.
pub open spec fn goal_status_text(response: JsonView) -> Seq<char> {
    match response.get("goal"@) {
        Some(goal) => goal_text(goal),
        None => "No active goal."@,
    }
}

/// What is to be done when the request of a command has been answered.
pub open spec fn after_reply(command: CommandView, response: JsonView) -> NextView {
    let done = NextView::Done { forget_start: false, reason: StopReason::EndTurn };
    match command {
        CommandView::Review { .. } => match text_in(response.get2("turn"@, "id"@)) {
            Some(turn) => NextView::AwaitTurn(turn),
            None => NextView::Fail {
                forget_start: false,
                problem: plain_problem("Codex review/start response did not include turn.id"@),
            },
        },
        CommandView::Compact => NextView::AwaitStart,
        CommandView::Goal(GoalView::Status) => NextView::Show {
            refresh: false,
            text: goal_status_text(response),
        },
        CommandView::Goal(_) => done,
        CommandView::Model => NextView::Show { refresh: false, text: model_list_text(response) },
        CommandView::Config => NextView::Show { refresh: false, text: config_text(response) },
        CommandView::Skills => NextView::Show { refresh: false, text: skills_text(response) },
        CommandView::Plugins => NextView::Show { refresh: false, text: plugins_text(response) },
        CommandView::Hooks => NextView::Show { refresh: false, text: hooks_text(response) },
        CommandView::Mcp => NextView::Show { refresh: false, text: servers_text(response) },
        CommandView::Fork => NextView::Show { refresh: true, text: fork_text(response) },
        CommandView::History => NextView::Show { refresh: false, text: history_text(response) },
    }
}

/// What is to be done when the request of a command has been answered, or has failed.
pub open spec fn after_call(command: CommandView, reply: Result<JsonView, Seq<char>>) -> NextView {
    match reply {
        Ok(response) => after_reply(command, response),
        Err(error) => NextView::Fail {
            forget_start: starts_a_turn(command),
            problem: problem_after(call_problem(command), error),
        },
    }
}

/// What is to be done when a turn has started, or has not started in time.
pub open spec fn after_start(turn: Option<Seq<char>>) -> NextView {
    match turn {
        Some(turn) => NextView::AwaitTurn(turn),
        None => NextView::Done { forget_start: true, reason: StopReason::EndTurn },
    }
}

/// What is to be done when what a command found has been shown, or could not be.
pub open spec fn after_show(command: CommandView, shown: Result<(), Seq<char>>) -> NextView {
    match shown {
        Ok(_) => NextView::Done { forget_start: false, reason: StopReason::EndTurn },
        Err(error) => NextView::Fail {
            forget_start: false,
            problem: problem_after(show_problem(command), error),
        },
    }
}

/// Whether a command waits for the next turn to start.
pub fn watches_turn_start(command: &NativeSlashCommand) -> (watches: bool)
    ensures
        watches == starts_a_turn(command@),
{
    match command {
        NativeSlashCommand::Compact => true,
        _ => false,
    }
}

/// The parameters with which a goal is changed.
fn goal_params(session: &str, goal: &GoalCommand) -> (params: Json)
    ensures
        params@ == goal_change(session@, goal@),
{
    let base = with(no_entries(), "threadId", Json::text(session));
    match goal {
        GoalCommand::Pause => Json::object(with(base, "status", Json::text("paused"))),
        GoalCommand::SetTo(objective) => {
            let entries = with(base, "objective", Json::text(objective.as_str()));
            Json::object(with(entries, "status", Json::text("active")))
        },
        _ => Json::object(with(base, "status", Json::text("active"))),
    }
}

/// An empty array.
fn empty_array() -> (value: Json)
    ensures
        value@ == JsonView::Array(Seq::empty()),
{
    let items: Vec<Json> = Vec::new();
    assert(item_views(items@) =~= Seq::empty());
    Json::array(items)
}

/// The kinds of threads that are listed.
pub open spec fn listed_sources() -> JsonView {
    JsonView::Array(seq![JsonView::Text("appServer"@)])
}

/// The kinds of threads that are listed.
pub fn source_kinds() -> (value: Json)
    ensures
        value@ == listed_sources(),
{
    broadcast use item_views_push;

    let mut items: Vec<Json> = Vec::new();
    assert(item_views(items@) =~= Seq::empty());
    items.push(Json::text("appServer"));
    Json::array(items)
}

/// The request that a command makes.
pub fn slash_command_call(command: &NativeSlashCommand, session: &str) -> (made: RpcCall)
    ensures
        made@ == command_call(command@, session@),
{
    match command {
        NativeSlashCommand::Review { target } => {
            let entries = with(no_entries(), "threadId", Json::text(session));
            let entries = with(entries, "target", target.copy());
            call("review/start", Json::object(with(entries, "delivery", Json::text("inline"))))
        },
        NativeSlashCommand::Compact => call("thread/compact/start", thread_params(session)),
        NativeSlashCommand::Goal(goal) => match goal {
            GoalCommand::Status => call("thread/goal/get", thread_params(session)),
            GoalCommand::Clear => call("thread/goal/clear", thread_params(session)),
            _ => call("thread/goal/set", goal_params(session, goal)),
        },
        NativeSlashCommand::Model => call("model/list", model_list_params()),
        NativeSlashCommand::Config => config_read_call(),
        NativeSlashCommand::Skills => {
            let entries = with(no_entries(), "cwds", empty_array());
            call("skills/list", Json::object(with(entries, "forceReload", Json::Bool(false))))
        },
        NativeSlashCommand::Plugins => {
            let entries = with(no_entries(), "cwds", Json::Null);
            call("plugin/list", Json::object(with(entries, "marketplaceKinds", Json::Null)))
        },
        NativeSlashCommand::Hooks => call(
            "hooks/list",
            Json::object(with(no_entries(), "cwds", empty_array())),
        ),
        NativeSlashCommand::Mcp => {
            let entries = with(no_entries(), "cursor", Json::Null);
            let entries = with(entries, "limit", Json::Null);
            let entries = with(entries, "detail", Json::text("toolsAndAuthOnly"));
            call("mcpServerStatus/list", Json::object(entries))
        },
        NativeSlashCommand::Fork => {
            let entries = with(no_entries(), "threadId", Json::text(session));
            let entries = with(entries, "threadSource", Json::text("appServer"));
            call("thread/fork", Json::object(entries))
        },
        NativeSlashCommand::History => {
            let entries = with(no_entries(), "sourceKinds", source_kinds());
            call("thread/list", Json::object(with(entries, "limit", Json::UInt(20))))
        },
    }
}

/// What is said where the request of a command fails.
fn describe_call_problem(command: &NativeSlashCommand) -> (text: &'static str)
    ensures
        text@ == call_problem(command@),
{
    match command {
        NativeSlashCommand::Review { .. } => "failed to start native Codex review",
        NativeSlashCommand::Compact => "failed to start native Codex compaction",
        NativeSlashCommand::Goal(GoalCommand::Status) => "failed to read native Codex goal",
        NativeSlashCommand::Goal(GoalCommand::Clear) => "failed to clear native Codex goal",
        NativeSlashCommand::Goal(_) => "failed to update native Codex goal",
        NativeSlashCommand::Model => "failed to list native Codex models",
        NativeSlashCommand::Config => "failed to read native Codex configuration",
        NativeSlashCommand::Skills => "failed to list native Codex skills",
        NativeSlashCommand::Plugins => "failed to list native Codex plugins",
        NativeSlashCommand::Hooks => "failed to list native Codex hooks",
        NativeSlashCommand::Mcp => "failed to list native Codex MCP servers",
        NativeSlashCommand::Fork => "failed to fork native Codex thread",
        NativeSlashCommand::History => "failed to list native Codex history",
    }
}

/// What is said where what a command found cannot be shown.
fn describe_show_problem(command: &NativeSlashCommand) -> (text: &'static str)
    ensures
        text@ == show_problem(command@),
{
    match command {
        NativeSlashCommand::Goal(_) => "failed to show native Codex goal",
        NativeSlashCommand::Model => "failed to show native Codex model list",
        NativeSlashCommand::Config => "failed to show native Codex configuration",
        NativeSlashCommand::Skills => "failed to show native Codex skills",
        NativeSlashCommand::Plugins => "failed to show native Codex plugins",
        NativeSlashCommand::Hooks => "failed to show native Codex hooks",
        NativeSlashCommand::Mcp => "failed to show native Codex MCP servers",
        NativeSlashCommand::Fork => "failed to show native Codex fork result",
        _ => "failed to show native Codex history",
    }
}

/// What is shown of the goal of a thread.
pub fn show_goal_status(response: &Json) -> (text: String)
    ensures
        text@ == goal_status_text(response@),
{
    match response.get("goal") {
        Some(goal) => goal_message(goal),
        None => "No active goal.".to_owned(),
    }
}

/// Shows a text in the thread.
fn show(text: String) -> (next: SlashNext)
    ensures
        next@ == (NextView::Show { refresh: false, text: text@ }),
{
    SlashNext::Show { refresh: false, text }
}

/// What is to be done when the request of a command has been answered, or has failed.
pub fn slash_command_replied(command: &NativeSlashCommand, reply: Result<&Json, &str>) -> (next:
    SlashNext)
    ensures
        next@ == after_call(
            command@,
            match reply {
                Ok(response) => Ok(response@),
                Err(error) => Err(error@),
            },
        ),
{
    let response = match reply {
        Ok(response) => response,
        Err(error) => return SlashNext::Fail {
            forget_start: watches_turn_start(command),
            problem: problem_with_cause(describe_call_problem(command), error),
        },
    };
    match command {
        NativeSlashCommand::Review { .. } => match read_text(response.get2("turn", "id")) {
            Some(turn) => SlashNext::AwaitTurn(turn.to_owned()),
            None => SlashNext::Fail {
                forget_start: false,
                problem: problem("Codex review/start response did not include turn.id"),
            },
        },
        NativeSlashCommand::Compact => SlashNext::AwaitStart,
        NativeSlashCommand::Goal(GoalCommand::Status) => show(show_goal_status(response)),
        NativeSlashCommand::Goal(_) => SlashNext::Done {
            forget_start: false,
            reason: StopReason::EndTurn,
        },
        NativeSlashCommand::Model => show(format_model_list(response)),
        NativeSlashCommand::Config => show(format_config_read(response)),
        NativeSlashCommand::Skills => show(format_skills_list(response)),
        NativeSlashCommand::Plugins => show(format_plugin_list(response)),
        NativeSlashCommand::Hooks => show(format_hooks_list(response)),
        NativeSlashCommand::Mcp => show(format_mcp_status_list(response)),
        NativeSlashCommand::Fork => SlashNext::Show {
            refresh: true,
            text: format_thread_fork(response),
        },
        NativeSlashCommand::History => show(format_thread_history(response)),
    }
}

/// What is to be done when a turn has started, or has not started in time.
pub fn slash_command_started(turn: Option<String>) -> (next: SlashNext)
    ensures
        next@ == after_start(opt_string(turn)),
{
    match turn {
        Some(turn) => SlashNext::AwaitTurn(turn),
        None => SlashNext::Done { forget_start: true, reason: StopReason::EndTurn },
    }
}

/// What is to be done when what a command found has been shown, or could not be.
pub fn slash_command_shown(command: &NativeSlashCommand, shown: Result<(), &str>) -> (next:
    SlashNext)
    ensures
        next@ == after_show(
            command@,
            match shown {
                Ok(_) => Ok(()),
                Err(error) => Err(error@),
            },
        ),
{
    match shown {
        Ok(_) => SlashNext::Done { forget_start: false, reason: StopReason::EndTurn },
        Err(error) => SlashNext::Fail {
            forget_start: false,
            problem: problem_with_cause(describe_show_problem(command), error),
        },
    }
}

/// A prompt that does not start with a slash is no slash command.
pub proof fn commands_start_with_a_slash(input: Seq<JsonView>)
    requires
        command_in(input) is Some,
    ensures
        input.len() > 0,
        input[0].text_at("text"@) is Some,
        input[0].text_at("text"@)->0.len() > 1,
        input[0].text_at("text"@)->0[0] == '/',
{
    reveal_strlit("/");
    let text = input[0].text_at("text"@)->0;
    let stripped = after_prefix(text, "/"@)->0;
    assert(text.take(1)[0] == text[0]);
    word_length_is_bounded(stripped);
}

proof fn word_length_is_bounded(s: Seq<char>)
    ensures
        word_length(s) <= s.len(),
    decreases s.len(),
{
    if s.len() > 0 && !is_white(s[0]) {
        word_length_is_bounded(s.skip(1));
    }
}

/// The start of a turn is watched for by exactly those commands that go on to wait for
/// it, and the watch is given up wherever such a command ends without a turn.
pub proof fn starts_are_not_left_watched(command: CommandView, reply: Result<JsonView, Seq<char>>)
    ensures
        after_call(command, reply) is AwaitStart <==> starts_a_turn(command) && reply is Ok,
        starts_a_turn(command) && reply is Err ==> (after_call(command, reply) matches
            NextView::Fail { forget_start, .. } && forget_start),
        after_start(None) == (NextView::Done { forget_start: true, reason: StopReason::EndTurn }),
{
}

} // verus!
