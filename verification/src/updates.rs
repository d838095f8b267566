//! Notifications of the app-server: the session updates that each of them gives,
//! and the output of tools that is gathered on the way.

use vstd::prelude::*;

use crate::changes::{changes_content, file_change_contents};
use crate::history::{is_other_tool, is_other_tool_call, user_chunks, user_message_chunks};
use crate::items::{
    command_completion_output_delta, is_text, kind_of, missing_output, output_of, status_of,
    streamed_and_missing_make_the_output, terminal_output, tool_item_content, tool_kind_for_item_type, tool_status_from_item,
    with_terminal_output,
};
use crate::json::{
    collect_texts, fields, no_entries, or_null, ref_views, read_text, text_in, texts_among, Json,
    JsonView,
};
use crate::json_text::{inline_text, value_to_inline_string};
use crate::listing::shown;
use crate::protocol::{
    addressed_views, no_updates, nothing, one_update, only, plan_views, plan_views_push,
    text_content, unchanged, update_views, ContentView, PlanEntry, PlanEntryPriority,
    PlanEntryStatus, PlanEntryView, SessionUpdate, TokenUsage, ToolCall, ToolCallStatus,
    ToolCallUpdate, ToolCallUpdateView, ToolCallView, ToolKind, UpdateView,
};
use crate::table::{at, text_map, Table};
use crate::text::{
    blank, concat2, concat3, concat4, concat6, decimal, decimal_text, first_line, is_blank, join,
    joined, opt_string, opt_text, or_text, push_line, same_text, take_all, take_step, text_or,
    texts,
};
use crate::tool_calls::{
    command_end, command_start, edit_end, edit_start, end_command, end_edit, end_tool, raw_output,
    raw_output_of, start_command, start_edit, start_tool, tool_end, tool_start,
};

verus! {

// ---------------------------------------------------------------------------
// Messages
// ---------------------------------------------------------------------------

/// A text that is not blank.
pub open spec fn not_blank(text: Option<Seq<char>>) -> Option<Seq<char>> {
    match text {
        Some(text) => if is_blank(text) {
            None
        } else {
            Some(text)
        },
        None => None,
    }
}

/// A text that is not blank, with something before it; else nothing.
pub open spec fn suffix(before: Seq<char>, text: Option<Seq<char>>) -> Seq<char> {
    match not_blank(text) {
        Some(text) => before + text,
        None => ""@,
    }
}

/// A message in the thread that a notification names, where there is one to give.
pub open spec fn message_updates(params: JsonView, text: Option<Seq<char>>) -> Seq<
    (Seq<char>, UpdateView),
> {
    match (params.text_at("threadId"@), text) {
        (Some(thread), Some(text)) => only(thread, UpdateView::AgentMessageChunk(text)),
        _ => nothing(),
    }
}

/// What is said of a goal.
pub open spec fn goal_text(goal: JsonView) -> Seq<char> {
    let head = seq![
        "Goal updated ("@ + text_or(goal.text_at("status"@), "unknown"@) + "): "@ + text_or(
            goal.text_at("objective"@),
            "No objective"@,
        ),
    ];
    let used = match goal.u64_at("tokensUsed"@) {
        Some(n) => head.push("Tokens used: "@ + decimal(n as nat)),
        None => head,
    };
    joined(
        match goal.u64_at("tokenBudget"@) {
            Some(n) => used.push("Token budget: "@ + decimal(n as nat)),
            None => used,
        },
        "\n"@,
    )
}

/// What is said of a goal that was set; nothing where it is not named.
pub open spec fn goal_updated_text(params: JsonView) -> Option<Seq<char>> {
    match params.get("goal"@) {
        Some(goal) => Some(goal_text(goal)),
        None => None,
    }
}

/// What is said of a warning.
pub open spec fn warning_text(params: JsonView) -> Seq<char> {
    "Codex warning: "@ + text_or(params.text_at("message"@), "Codex warning"@)
}

/// What is said of a warning on safety.
pub open spec fn guardian_warning_text(params: JsonView) -> Seq<char> {
    "Codex safety warning: "@ + text_or(params.text_at("message"@), "Codex safety warning"@)
}

/// What is said of a turn that another model takes over.
pub open spec fn rerouted_text(params: JsonView) -> Seq<char> {
    let reason = match params.get("reason"@) {
        Some(reason) => inline_text(reason),
        None => "unspecified"@,
    };
    "Codex rerouted this turn from `"@ + text_or(params.text_at("fromModel"@), "current model"@)
        + "` to `"@ + text_or(params.text_at("toModel"@), "fallback model"@) + "` ("@ + (reason
        + ")."@)
}

/// What is said of checks that are held back; nothing where there are none.
pub open spec fn verification_text(params: JsonView) -> Option<Seq<char>> {
    let count = params.items_at("verifications"@).len();
    if count == 0 {
        None
    } else {
        Some(
            "Codex is buffering model safety verification for "@ + decimal(count) + " check(s)."@,
        )
    }
}

/// What is said of safety checks that hold a model back; nothing where they are not
/// to be shown.
pub open spec fn buffering_text(params: JsonView) -> Option<Seq<char>> {
    if params.bool_at("showBufferingUi"@) != Some(true) {
        None
    } else {
        let reasons = shown(texts_among(params.items_at("reasons"@)), 3);
        let because = if reasons.len() == 0 {
            ""@
        } else {
            ": "@ + joined(reasons, ", "@)
        };
        let faster = match params.text_at("fasterModel"@) {
            Some(model) => " A faster fallback may use `"@ + model + "`."@,
            None => ""@,
        };
        Some(
            "Codex is buffering safety checks for `"@ + text_or(
                params.text_at("model"@),
                "selected model"@,
            ) + "`"@ + because + "."@ + faster,
        )
    }
}

/// What is said of a warning on the configuration.
pub open spec fn config_warning_text(params: JsonView) -> Seq<char> {
    "Configuration warning: "@ + text_or(
        params.text_at("summary"@),
        "Codex configuration warning"@,
    ) + suffix("\n"@, params.text_at("details"@))
}

/// What is said of an error.
pub open spec fn error_text(params: JsonView) -> Seq<char> {
    let error = or_null(params.get("error"@));
    let retry = if params.bool_at("willRetry"@) == Some(true) {
        "\nCodex will retry."@
    } else {
        ""@
    };
    "Codex error: "@ + text_or(error.text_at("message"@), "Codex error"@) + suffix(
        "\n"@,
        error.text_at("additionalDetails"@),
    ) + retry
}

/// What is said of a server that did not start; nothing where it did.
pub open spec fn startup_text(params: JsonView) -> Option<Seq<char>> {
    match params.text_at("status"@) {
        Some(status) => if status == "failed"@ || status == "cancelled"@ {
            Some(
                "Codex MCP server `"@ + text_or(params.text_at("name"@), "MCP server"@) + "` "@
                    + status + suffix(": "@, params.text_at("error"@)) + "."@,
            )
        } else {
            None
        },
        None => None,
    }
}

/// A text that is not blank, with something before it; else nothing.
fn suffix_of(before: &str, text: Option<&str>) -> (whole: String)
    ensures
        whole@ == suffix(before@, opt_text(text)),
{
    match text {
        Some(text) => if blank(text) {
            "".to_owned()
        } else {
            concat2(before, text)
        },
        None => "".to_owned(),
    }
}

/// A message in a thread.
pub fn text_message_update(thread: &str, text: String) -> (updates: Vec<(String, SessionUpdate)>)
    ensures
        addressed_views(updates@) == only(thread@, UpdateView::AgentMessageChunk(text@)),
{
    one_update(thread, SessionUpdate::AgentMessageChunk(text))
}

/// A message in the thread that a notification names.
fn message_update(params: &Json, text: Option<String>) -> (updates: Vec<(String, SessionUpdate)>)
    ensures
        addressed_views(updates@) == message_updates(params@, opt_string(text)),
{
    match params.text_at("threadId") {
        Some(thread) => match text {
            Some(text) => text_message_update(thread, text),
            None => no_updates(),
        },
        None => no_updates(),
    }
}

/// What is said of a goal.
pub fn goal_message(goal: &Json) -> (text: String)
    ensures
        text@ == goal_text(goal@),
{
    let head = concat4(
        "Goal updated (",
        or_text(goal.text_at("status"), "unknown"),
        "): ",
        or_text(goal.text_at("objective"), "No objective"),
    );
    let mut lines = first_line(head.as_str());
    if let Some(used) = goal.u64_at("tokensUsed") {
        push_line(&mut lines, concat2("Tokens used: ", decimal_text(used).as_str()));
    }
    if let Some(budget) = goal.u64_at("tokenBudget") {
        push_line(&mut lines, concat2("Token budget: ", decimal_text(budget).as_str()));
    }
    join(&lines, "\n")
}

/// A goal that was set.
pub fn thread_goal_update(params: &Json) -> (updates: Vec<(String, SessionUpdate)>)
    ensures
        addressed_views(updates@) == message_updates(params@, goal_updated_text(params@)),
{
    let text = match params.get("goal") {
        Some(goal) => Some(goal_message(goal)),
        None => None,
    };
    message_update(params, text)
}

/// A goal that was cleared.
pub fn thread_goal_cleared_update(params: &Json) -> (updates: Vec<(String, SessionUpdate)>)
    ensures
        addressed_views(updates@) == message_updates(params@, Some("Goal cleared."@)),
{
    message_update(params, Some("Goal cleared.".to_owned()))
}

/// A turn that another model takes over.
pub fn model_rerouted_update(params: &Json) -> (updates: Vec<(String, SessionUpdate)>)
    ensures
        addressed_views(updates@) == message_updates(params@, Some(rerouted_text(params@))),
{
    let reason = match params.get("reason") {
        Some(reason) => value_to_inline_string(reason),
        None => "unspecified".to_owned(),
    };
    let end = concat2(reason.as_str(), ").");
    let text = concat6(
        "Codex rerouted this turn from `",
        or_text(params.text_at("fromModel"), "current model"),
        "` to `",
        or_text(params.text_at("toModel"), "fallback model"),
        "` (",
        end.as_str(),
    );
    message_update(params, Some(text))
}

/// Checks that are held back.
pub fn model_verification_update(params: &Json) -> (updates: Vec<(String, SessionUpdate)>)
    ensures
        addressed_views(updates@) == message_updates(params@, verification_text(params@)),
{
    let checks = params.items_at("verifications");
    assert(ref_views(checks@).len() == checks@.len());
    let text = if checks.len() == 0 {
        None
    } else {
        Some(
            concat3(
                "Codex is buffering model safety verification for ",
                decimal_text(checks.len() as u64).as_str(),
                " check(s).",
            ),
        )
    };
    message_update(params, text)
}

/// Safety checks that hold a model back.
pub fn model_safety_buffering_update(params: &Json) -> (updates: Vec<(String, SessionUpdate)>)
    ensures
        addressed_views(updates@) == message_updates(params@, buffering_text(params@)),
{
    match params.bool_at("showBufferingUi") {
        Some(true) => {},
        _ => return message_update(params, None),
    }
    let mut reasons = collect_texts(&params.items_at("reasons"));
    let ghost all = texts(reasons@);
    assert(all.len() == reasons@.len());
    if reasons.len() > 3 {
        reasons.truncate(3);
    }
    assert(texts(reasons@) =~= shown(all, 3));
    let because = if reasons.len() == 0 {
        "".to_owned()
    } else {
        concat2(": ", join(&reasons, ", ").as_str())
    };
    let faster = match params.text_at("fasterModel") {
        Some(model) => concat3(" A faster fallback may use `", model, "`."),
        None => "".to_owned(),
    };
    let text = concat6(
        "Codex is buffering safety checks for `",
        or_text(params.text_at("model"), "selected model"),
        "`",
        because.as_str(),
        ".",
        faster.as_str(),
    );
    message_update(params, Some(text))
}

/// A warning on the configuration.
pub fn config_warning_update(params: &Json) -> (updates: Vec<(String, SessionUpdate)>)
    ensures
        addressed_views(updates@) == message_updates(params@, Some(config_warning_text(params@))),
{
    let text = concat3(
        "Configuration warning: ",
        or_text(params.text_at("summary"), "Codex configuration warning"),
        suffix_of("\n", params.text_at("details")).as_str(),
    );
    message_update(params, Some(text))
}

/// A warning.
pub fn warning_update(params: &Json) -> (updates: Vec<(String, SessionUpdate)>)
    ensures
        addressed_views(updates@) == message_updates(params@, Some(warning_text(params@))),
{
    let message = or_text(params.text_at("message"), "Codex warning");
    message_update(params, Some(concat2("Codex warning: ", message)))
}

/// A warning on safety.
pub fn guardian_warning_update(params: &Json) -> (updates: Vec<(String, SessionUpdate)>)
    ensures
        addressed_views(updates@) == message_updates(
            params@,
            Some(guardian_warning_text(params@)),
        ),
{
    let message = or_text(params.text_at("message"), "Codex safety warning");
    message_update(params, Some(concat2("Codex safety warning: ", message)))
}

/// An error.
pub fn error_update(params: &Json) -> (updates: Vec<(String, SessionUpdate)>)
    ensures
        addressed_views(updates@) == message_updates(params@, Some(error_text(params@))),
{
    let null = Json::Null;
    let error = match params.get("error") {
        Some(error) => error,
        None => &null,
    };
    let retry = match params.bool_at("willRetry") {
        Some(true) => "\nCodex will retry.",
        _ => "",
    };
    let text = concat4(
        "Codex error: ",
        or_text(error.text_at("message"), "Codex error"),
        suffix_of("\n", error.text_at("additionalDetails")).as_str(),
        retry,
    );
    message_update(params, Some(text))
}

/// A server that did not start.
pub fn mcp_startup_status_update(params: &Json) -> (updates: Vec<(String, SessionUpdate)>)
    ensures
        addressed_views(updates@) == message_updates(params@, startup_text(params@)),
{
    let text = match params.text_at("status") {
        Some(status) => if same_text(status, "failed") || same_text(status, "cancelled") {
            Some(
                concat6(
                    "Codex MCP server `",
                    or_text(params.text_at("name"), "MCP server"),
                    "` ",
                    status,
                    suffix_of(": ", params.text_at("error")).as_str(),
                    ".",
                ),
            )
        } else {
            None
        },
        None => None,
    };
    message_update(params, text)
}

/// A context that was compacted.
pub fn compacted_update(params: &Json) -> (updates: Vec<(String, SessionUpdate)>)
    ensures
        addressed_views(updates@) == message_updates(params@, Some("Context compacted."@)),
{
    message_update(params, Some("Context compacted.".to_owned()))
}

// ---------------------------------------------------------------------------
// Text, plans, names and usage
// ---------------------------------------------------------------------------

/// A piece of what the agent says, or of what it thinks.
pub open spec fn delta_updates(params: JsonView, thought: bool) -> Seq<(Seq<char>, UpdateView)> {
    match (params.text_at("threadId"@), params.text_at("delta"@)) {
        (Some(thread), Some(delta)) => only(
            thread,
            if thought {
                UpdateView::AgentThoughtChunk(delta)
            } else {
                UpdateView::AgentMessageChunk(delta)
            },
        ),
        _ => nothing(),
    }
}

/// How far a step of a plan has come.
pub open spec fn step_status(status: Option<Seq<char>>) -> PlanEntryStatus {
    if status == Some("completed"@) {
        PlanEntryStatus::Completed
    } else if status == Some("inProgress"@) {
        PlanEntryStatus::InProgress
    } else {
        PlanEntryStatus::Pending
    }
}

/// The steps of a plan.
pub open spec fn plan_entries(steps: Seq<JsonView>) -> Seq<PlanEntryView>
    decreases steps.len(),
{
    if steps.len() == 0 {
        Seq::empty()
    } else {
        let entries = plan_entries(steps.drop_last());
        match steps.last().text_at("step"@) {
            Some(content) => entries.push(
                PlanEntryView {
                    content,
                    priority: PlanEntryPriority::Medium,
                    status: step_status(steps.last().text_at("status"@)),
                },
            ),
            None => entries,
        }
    }
}

/// A plan that was changed.
pub open spec fn plan_updates(params: JsonView) -> Seq<(Seq<char>, UpdateView)> {
    match params.text_at("threadId"@) {
        Some(thread) => only(thread, UpdateView::Plan(plan_entries(params.items_at("plan"@)))),
        None => nothing(),
    }
}

/// A thread that was named.
pub open spec fn name_updates(params: JsonView) -> Seq<(Seq<char>, UpdateView)> {
    match (params.text_at("threadId"@), params.text_at("threadName"@)) {
        (Some(thread), Some(title)) => only(thread, UpdateView::SessionInfoUpdate { title }),
        _ => nothing(),
    }
}

/// A number, or zero where there is none.
pub open spec fn or_zero(n: Option<u64>) -> u64 {
    match n {
        Some(n) => n,
        None => 0,
    }
}

/// The sum of two numbers, or the largest number where that is larger.
pub open spec fn saturating_sum(a: u64, b: u64) -> u64 {
    if a + b > u64::MAX {
        u64::MAX
    } else {
        (a + b) as u64
    }
}

/// The tokens that a session has used: the total that is given, or else the sum of
/// its parts; and how many it can use, which is taken to be the same where it is
/// not given.
pub open spec fn usage_of(usage: JsonView, total: JsonView) -> TokenUsage {
    let input_tokens = or_zero(total.u64_at("inputTokens"@));
    let output_tokens = or_zero(total.u64_at("outputTokens"@));
    let cache_read_input_tokens = or_zero(total.u64_at("cachedInputTokens"@));
    let used = match total.u64_at("totalTokens"@) {
        Some(used) => used,
        None => saturating_sum(
            saturating_sum(input_tokens, output_tokens),
            cache_read_input_tokens,
        ),
    };
    TokenUsage {
        used,
        size: match usage.u64_at("modelContextWindow"@) {
            Some(size) => size,
            None => used,
        },
        input_tokens,
        output_tokens,
        cache_read_input_tokens,
        cache_creation_input_tokens: 0,
    }
}

/// The tokens that a session has used.
pub open spec fn usage_updates(params: JsonView) -> Seq<(Seq<char>, UpdateView)> {
    match (params.text_at("threadId"@), params.get2("tokenUsage"@, "total"@)) {
        (Some(thread), Some(total)) => only(
            thread,
            UpdateView::UsageUpdate(usage_of(params.get("tokenUsage"@)->0, total)),
        ),
        _ => nothing(),
    }
}

/// A piece of what the agent says, or of what it thinks.
pub fn text_delta_update(params: &Json, thought: bool) -> (updates: Vec<(String, SessionUpdate)>)
    ensures
        addressed_views(updates@) == delta_updates(params@, thought),
{
    match (params.text_at("threadId"), params.text_at("delta")) {
        (Some(thread), Some(delta)) => if thought {
            one_update(thread, SessionUpdate::AgentThoughtChunk(delta.to_owned()))
        } else {
            one_update(thread, SessionUpdate::AgentMessageChunk(delta.to_owned()))
        },
        _ => no_updates(),
    }
}

/// The steps of a plan.
fn read_plan(steps: &Vec<&Json>) -> (entries: Vec<PlanEntry>)
    ensures
        plan_views(entries@) == plan_entries(ref_views(steps@)),
{
    broadcast use plan_views_push;

    let ghost all = ref_views(steps@);
    let mut entries: Vec<PlanEntry> = Vec::new();
    let mut i: usize = 0;
    proof {
        take_all(all);
        assert(plan_views(entries@) =~= plan_entries(all.take(0)));
    }
    while i < steps.len()
        invariant
            i <= steps@.len(),
            all == ref_views(steps@),
            plan_views(entries@) == plan_entries(all.take(i as int)),
        decreases steps@.len() - i,
    {
        proof {
            take_step(all, i as int);
        }
        if let Some(content) = steps[i].text_at("step") {
            let status = steps[i].text_at("status");
            let status = if is_text(status, "completed") {
                PlanEntryStatus::Completed
            } else if is_text(status, "inProgress") {
                PlanEntryStatus::InProgress
            } else {
                PlanEntryStatus::Pending
            };
            entries.push(
                PlanEntry {
                    content: content.to_owned(),
                    priority: PlanEntryPriority::Medium,
                    status,
                },
            );
        }
        i = i + 1;
    }
    proof {
        take_all(all);
    }
    entries
}

/// A plan that was changed.
pub fn plan_update(params: &Json) -> (updates: Vec<(String, SessionUpdate)>)
    ensures
        addressed_views(updates@) == plan_updates(params@),
{
    match params.text_at("threadId") {
        Some(thread) => one_update(
            thread,
            SessionUpdate::Plan(read_plan(&params.items_at("plan"))),
        ),
        None => no_updates(),
    }
}

/// A thread that was named.
pub fn thread_name_update(params: &Json) -> (updates: Vec<(String, SessionUpdate)>)
    ensures
        addressed_views(updates@) == name_updates(params@),
{
    match (params.text_at("threadId"), params.text_at("threadName")) {
        (Some(thread), Some(title)) => one_update(
            thread,
            SessionUpdate::SessionInfoUpdate { title: title.to_owned() },
        ),
        _ => no_updates(),
    }
}

/// A number, or zero where there is none.
fn number_or_zero(n: Option<u64>) -> (value: u64)
    ensures
        value == or_zero(n),
{
    match n {
        Some(n) => n,
        None => 0,
    }
}

/// The tokens that a session has used.
pub fn token_usage_update(params: &Json) -> (updates: Vec<(String, SessionUpdate)>)
    ensures
        addressed_views(updates@) == usage_updates(params@),
{
    let thread = match params.text_at("threadId") {
        Some(thread) => thread,
        None => return no_updates(),
    };
    let usage = match params.get("tokenUsage") {
        Some(usage) => usage,
        None => return no_updates(),
    };
    let total = match usage.get("total") {
        Some(total) => total,
        None => return no_updates(),
    };
    let input_tokens: u64 = number_or_zero(total.u64_at("inputTokens"));
    let output_tokens: u64 = number_or_zero(total.u64_at("outputTokens"));
    let cache_read_input_tokens: u64 = number_or_zero(total.u64_at("cachedInputTokens"));
    let used: u64 = match total.u64_at("totalTokens") {
        Some(used) => used,
        None => input_tokens.saturating_add(output_tokens).saturating_add(cache_read_input_tokens),
    };
    let size: u64 = match usage.u64_at("modelContextWindow") {
        Some(size) => size,
        None => used,
    };
    one_update(
        thread,
        SessionUpdate::UsageUpdate(
            TokenUsage {
                used,
                size,
                input_tokens,
                output_tokens,
                cache_read_input_tokens,
                cache_creation_input_tokens: 0,
            },
        ),
    )
}

// ---------------------------------------------------------------------------
// The output of tools
// ---------------------------------------------------------------------------

/// The outputs after more output of a tool has come.
pub open spec fn grown(
    outputs: Map<Seq<char>, Seq<char>>,
    item: Seq<char>,
    delta: Seq<char>,
) -> Map<Seq<char>, Seq<char>> {
    outputs.insert(item, text_or(at(outputs, item), Seq::empty()) + delta)
}

/// The outputs after a notification that carries more output.
pub open spec fn outputs_after_delta(
    params: JsonView,
    outputs: Map<Seq<char>, Seq<char>>,
) -> Map<Seq<char>, Seq<char>> {
    match (params.text_at("threadId"@), params.text_at("itemId"@), params.text_at("delta"@)) {
        (Some(_), Some(item), Some(delta)) => grown(outputs, item, delta),
        _ => outputs,
    }
}

/// More output of a tool: all of its output so far is shown.
pub open spec fn tool_output_updates(
    params: JsonView,
    outputs: Map<Seq<char>, Seq<char>>,
) -> Seq<(Seq<char>, UpdateView)> {
    match (params.text_at("threadId"@), params.text_at("itemId"@), params.text_at("delta"@)) {
        (Some(thread), Some(item), Some(delta)) => only(
            thread,
            UpdateView::ToolCallUpdate(
                ToolCallUpdateView {
                    content: Some(seq![ContentView::Text(grown(outputs, item, delta)[item])]),
                    ..unchanged(item)
                },
            ),
        ),
        _ => nothing(),
    }
}

/// More output of a command: its terminal gets the new output, and the raw output is
/// all of it so far.
pub open spec fn command_output_updates(
    params: JsonView,
    outputs: Map<Seq<char>, Seq<char>>,
) -> Seq<(Seq<char>, UpdateView)> {
    match (params.text_at("threadId"@), params.text_at("itemId"@), params.text_at("delta"@)) {
        (Some(thread), Some(item), Some(delta)) => only(
            thread,
            UpdateView::ToolCallUpdate(
                ToolCallUpdateView {
                    raw_output: Some(raw_output(grown(outputs, item, delta)[item])),
                    meta: Some(JsonView::Object(fields().push(terminal_output(item, delta)))),
                    ..unchanged(item)
                },
            ),
        ),
        _ => nothing(),
    }
}

/// Input that was typed into the terminal of a command.
pub open spec fn interaction_updates(params: JsonView) -> Seq<(Seq<char>, UpdateView)> {
    match (params.text_at("threadId"@), params.text_at("itemId"@), params.text_at("stdin"@)) {
        (Some(thread), Some(item), Some(stdin)) => only(
            thread,
            UpdateView::ToolCallUpdate(
                ToolCallUpdateView {
                    meta: Some(
                        JsonView::Object(
                            fields().push(terminal_output(item, "\n"@ + stdin + "\n"@)),
                        ),
                    ),
                    ..unchanged(item)
                },
            ),
        ),
        _ => nothing(),
    }
}

/// A change to files that was changed itself.
pub open spec fn patch_updates(params: JsonView) -> Seq<(Seq<char>, UpdateView)> {
    match (params.text_at("threadId"@), params.text_at("itemId"@)) {
        (Some(thread), Some(item)) => only(
            thread,
            UpdateView::ToolCallUpdate(
                ToolCallUpdateView {
                    kind: Some(ToolKind::Edit),
                    content: Some(changes_content(params.get("changes"@))),
                    ..unchanged(item)
                },
            ),
        ),
        _ => nothing(),
    }
}

/// The progress of a tool.
pub open spec fn progress_updates(params: JsonView) -> Seq<(Seq<char>, UpdateView)> {
    match (params.text_at("threadId"@), params.text_at("itemId"@), params.text_at("message"@)) {
        (Some(thread), Some(item), Some(message)) => only(
            thread,
            UpdateView::ToolCallUpdate(
                ToolCallUpdateView {
                    content: Some(seq![ContentView::Text(message)]),
                    ..unchanged(item)
                },
            ),
        ),
        _ => nothing(),
    }
}

/// Adds to the output of a tool, and returns all of it so far.
fn grow(outputs: &mut Table<String>, item: &str, delta: &str) -> (output: String)
    ensures
        text_map(final(outputs)@) == grown(text_map(old(outputs)@), item@, delta@),
        output@ == grown(text_map(old(outputs)@), item@, delta@)[item@],
{
    let mut output = match outputs.get(item) {
        Some(output) => output.clone(),
        None => String::new(),
    };
    proof {
        if !outputs@.contains_key(item@) {
            assert(output@ =~= Seq::<char>::empty());
        }
    }
    output.append(delta);
    outputs.insert(item, output.clone());
    assert(text_map(outputs@) =~= grown(text_map(old(outputs)@), item@, delta@));
    output
}

/// More output of a tool.
pub fn tool_output_delta_update(params: &Json, outputs: &mut Table<String>) -> (updates: Vec<
    (String, SessionUpdate),
>)
    ensures
        addressed_views(updates@) == tool_output_updates(params@, text_map(old(outputs)@)),
        text_map(final(outputs)@) == outputs_after_delta(params@, text_map(old(outputs)@)),
{
    match (params.text_at("threadId"), params.text_at("itemId"), params.text_at("delta")) {
        (Some(thread), Some(item), Some(delta)) => {
            let output = grow(outputs, item, delta);
            let mut update = ToolCallUpdate::new(item);
            update.content = Some(text_content(output));
            one_update(thread, SessionUpdate::ToolCallUpdate(update))
        },
        _ => no_updates(),
    }
}

/// More output of a command.
pub fn command_output_delta_update(params: &Json, outputs: &mut Table<String>) -> (updates: Vec<
    (String, SessionUpdate),
>)
    ensures
        addressed_views(updates@) == command_output_updates(params@, text_map(old(outputs)@)),
        text_map(final(outputs)@) == outputs_after_delta(params@, text_map(old(outputs)@)),
{
    match (params.text_at("threadId"), params.text_at("itemId"), params.text_at("delta")) {
        (Some(thread), Some(item), Some(delta)) => {
            let output = grow(outputs, item, delta);
            let mut update = ToolCallUpdate::new(item);
            update.raw_output = Some(raw_output_of(output.as_str()));
            update.meta = Some(Json::object(with_terminal_output(no_entries(), item, delta)));
            one_update(thread, SessionUpdate::ToolCallUpdate(update))
        },
        _ => no_updates(),
    }
}

/// Input that was typed into the terminal of a command.
pub fn terminal_interaction_update(params: &Json) -> (updates: Vec<(String, SessionUpdate)>)
    ensures
        addressed_views(updates@) == interaction_updates(params@),
{
    match (params.text_at("threadId"), params.text_at("itemId"), params.text_at("stdin")) {
        (Some(thread), Some(item), Some(stdin)) => {
            let data = concat3("\n", stdin, "\n");
            let mut update = ToolCallUpdate::new(item);
            update.meta = Some(
                Json::object(with_terminal_output(no_entries(), item, data.as_str())),
            );
            one_update(thread, SessionUpdate::ToolCallUpdate(update))
        },
        _ => no_updates(),
    }
}

/// A change to files that was changed itself.
pub fn file_change_patch_update(params: &Json) -> (updates: Vec<(String, SessionUpdate)>)
    ensures
        addressed_views(updates@) == patch_updates(params@),
{
    match (params.text_at("threadId"), params.text_at("itemId")) {
        (Some(thread), Some(item)) => {
            let mut update = ToolCallUpdate::new(item);
            update.kind = Some(ToolKind::Edit);
            update.content = Some(file_change_contents(params.get("changes")));
            one_update(thread, SessionUpdate::ToolCallUpdate(update))
        },
        _ => no_updates(),
    }
}

/// The progress of a tool.
pub fn mcp_tool_progress_update(params: &Json) -> (updates: Vec<(String, SessionUpdate)>)
    ensures
        addressed_views(updates@) == progress_updates(params@),
{
    match (params.text_at("threadId"), params.text_at("itemId"), params.text_at("message")) {
        (Some(thread), Some(item), Some(message)) => {
            let mut update = ToolCallUpdate::new(item);
            update.content = Some(text_content(message.to_owned()));
            one_update(thread, SessionUpdate::ToolCallUpdate(update))
        },
        _ => no_updates(),
    }
}

// ---------------------------------------------------------------------------
// Items and hooks
// ---------------------------------------------------------------------------

/// Some updates, all for one session.
pub open spec fn addressed(id: Seq<char>, updates: Seq<UpdateView>) -> Seq<(Seq<char>, UpdateView)> {
    Seq::new(updates.len(), |i: int| (id, updates[i]))
}

/// A command that starts or has ended. When it has ended, its terminal gets what of
/// its output has not been streamed.
pub open spec fn command_updates(
    thread: Seq<char>,
    item: JsonView,
    completed: bool,
    outputs: Map<Seq<char>, Seq<char>>,
) -> Seq<(Seq<char>, UpdateView)> {
    let status = status_of(item, completed);
    match item.text_at("id"@) {
        Some(id) => only(
            thread,
            if completed {
                let rest = missing_output(output_of(item), at(outputs, id));
                UpdateView::ToolCallUpdate(command_end(id, item, status, rest))
            } else {
                UpdateView::ToolCall(command_start(id, item, status))
            },
        ),
        None => nothing(),
    }
}

/// A change to files that starts or has ended.
pub open spec fn edit_updates(
    thread: Seq<char>,
    item: JsonView,
    completed: bool,
) -> Seq<(Seq<char>, UpdateView)> {
    let status = status_of(item, completed);
    match item.text_at("id"@) {
        Some(id) => only(
            thread,
            if completed {
                UpdateView::ToolCallUpdate(edit_end(id, item, status))
            } else {
                UpdateView::ToolCall(edit_start(id, item, status))
            },
        ),
        None => nothing(),
    }
}

/// Another tool that starts or has ended.
pub open spec fn tool_updates(
    thread: Seq<char>,
    item: JsonView,
    kind: ToolKind,
    completed: bool,
) -> Seq<(Seq<char>, UpdateView)> {
    let status = status_of(item, completed);
    match item.text_at("id"@) {
        Some(id) => only(
            thread,
            if completed {
                UpdateView::ToolCallUpdate(tool_end(id, item, Some(kind), status))
            } else {
                UpdateView::ToolCall(tool_start(id, item, kind, status))
            },
        ),
        None => nothing(),
    }
}

/// An item that starts or has ended.
pub open spec fn item_updates(
    params: JsonView,
    completed: bool,
    outputs: Map<Seq<char>, Seq<char>>,
) -> Seq<(Seq<char>, UpdateView)> {
    match (params.text_at("threadId"@), params.get("item"@)) {
        (Some(thread), Some(item)) => match item.text_at("type"@) {
            Some(kind) => if kind == "userMessage"@ && !completed {
                addressed(thread, user_chunks(item.items_at("content"@)))
            } else if kind == "commandExecution"@ {
                command_updates(thread, item, completed, outputs)
            } else if kind == "fileChange"@ {
                edit_updates(thread, item, completed)
            } else if is_other_tool(Some(kind)) {
                tool_updates(thread, item, kind_of(kind), completed)
            } else {
                nothing()
            },
            None => nothing(),
        },
        _ => nothing(),
    }
}

/// A hook that starts or has ended.
pub open spec fn hook_updates(params: JsonView, completed: bool) -> Seq<(Seq<char>, UpdateView)> {
    let name = text_or(text_in(params.get_either("hookName"@, "name"@)), "hook"@);
    let id = text_or(text_in(params.get_either("itemId"@, "hookId"@)), "hook:"@ + name);
    match params.text_at("threadId"@) {
        Some(thread) => only(
            thread,
            if completed {
                UpdateView::ToolCallUpdate(
                    ToolCallUpdateView {
                        status: Some(ToolCallStatus::Completed),
                        ..unchanged(id)
                    },
                )
            } else {
                UpdateView::ToolCall(
                    ToolCallView {
                        id,
                        title: "Hook: "@ + name,
                        kind: ToolKind::Other,
                        status: ToolCallStatus::InProgress,
                        content: Seq::empty(),
                        raw_input: None,
                        meta: None,
                    },
                )
            },
        ),
        None => nothing(),
    }
}

/// Addresses some updates to one session.
fn address(id: &str, updates: Vec<SessionUpdate>) -> (all: Vec<(String, SessionUpdate)>)
    ensures
        addressed_views(all@) == addressed(id@, update_views(updates@)),
{
    let ghost whole = updates@;
    let mut all: Vec<(String, SessionUpdate)> = Vec::new();
    for update in it: updates.into_iter()
        invariant
            it.seq() == whole,
            all@.len() == it.index(),
            forall|j: int|
                0 <= j < it.index() ==> (#[trigger] all@[j]).0@ == id@ && all@[j].1 == whole[j],
    {
        all.push((id.to_owned(), update));
    }
    assert(addressed_views(all@) =~= addressed(id@, update_views(whole)));
    all
}

/// A command that starts or has ended.
pub fn command_lifecycle_update(
    thread: &str,
    item: &Json,
    completed: bool,
    outputs: &Table<String>,
) -> (updates: Vec<(String, SessionUpdate)>)
    ensures
        addressed_views(updates@) == command_updates(
            thread@,
            item@,
            completed,
            text_map(outputs@),
        ),
{
    let id = match item.text_at("id") {
        Some(id) => id,
        None => return no_updates(),
    };
    let status = tool_status_from_item(item, completed);
    if completed {
        let output = tool_item_content(item);
        let whole = match &output {
            Some(output) => Some(output.as_str()),
            None => None,
        };
        let streamed = match outputs.get(id) {
            Some(streamed) => Some(streamed.as_str()),
            None => None,
        };
        let rest = command_completion_output_delta(whole, streamed);
        one_update(thread, SessionUpdate::ToolCallUpdate(end_command(id, item, status, rest)))
    } else {
        one_update(thread, SessionUpdate::ToolCall(start_command(id, item, status)))
    }
}

/// A change to files that starts or has ended.
pub fn file_change_lifecycle_update(thread: &str, item: &Json, completed: bool) -> (updates: Vec<
    (String, SessionUpdate),
>)
    ensures
        addressed_views(updates@) == edit_updates(thread@, item@, completed),
{
    let id = match item.text_at("id") {
        Some(id) => id,
        None => return no_updates(),
    };
    let status = tool_status_from_item(item, completed);
    if completed {
        one_update(thread, SessionUpdate::ToolCallUpdate(end_edit(id, item, status)))
    } else {
        one_update(thread, SessionUpdate::ToolCall(start_edit(id, item, status)))
    }
}

/// Another tool that starts or has ended.
pub fn tool_lifecycle_update(
    thread: &str,
    item: &Json,
    kind: ToolKind,
    completed: bool,
) -> (updates: Vec<(String, SessionUpdate)>)
    ensures
        addressed_views(updates@) == tool_updates(thread@, item@, kind, completed),
{
    let id = match item.text_at("id") {
        Some(id) => id,
        None => return no_updates(),
    };
    let status = tool_status_from_item(item, completed);
    if completed {
        one_update(thread, SessionUpdate::ToolCallUpdate(end_tool(id, item, Some(kind), status)))
    } else {
        one_update(thread, SessionUpdate::ToolCall(start_tool(id, item, kind, status)))
    }
}

/// What the user said.
pub fn user_message_update(thread: &str, item: &Json) -> (updates: Vec<(String, SessionUpdate)>)
    ensures
        addressed_views(updates@) == addressed(
            thread@,
            user_chunks(item@.items_at("content"@)),
        ),
{
    address(thread, user_message_chunks(&item.items_at("content")))
}

/// An item that starts or has ended.
pub fn item_lifecycle_update(
    params: &Json,
    completed: bool,
    outputs: &Table<String>,
) -> (updates: Vec<(String, SessionUpdate)>)
    ensures
        addressed_views(updates@) == item_updates(params@, completed, text_map(outputs@)),
{
    let thread = match params.text_at("threadId") {
        Some(thread) => thread,
        None => return no_updates(),
    };
    let item = match params.get("item") {
        Some(item) => item,
        None => return no_updates(),
    };
    let kind = match item.text_at("type") {
        Some(kind) => kind,
        None => return no_updates(),
    };
    if same_text(kind, "userMessage") && !completed {
        user_message_update(thread, item)
    } else if same_text(kind, "commandExecution") {
        command_lifecycle_update(thread, item, completed, outputs)
    } else if same_text(kind, "fileChange") {
        file_change_lifecycle_update(thread, item, completed)
    } else if is_other_tool_call(Some(kind)) {
        tool_lifecycle_update(thread, item, tool_kind_for_item_type(kind), completed)
    } else {
        no_updates()
    }
}

/// A hook that starts or has ended.
pub fn hook_lifecycle_update(params: &Json, completed: bool) -> (updates: Vec<
    (String, SessionUpdate),
>)
    ensures
        addressed_views(updates@) == hook_updates(params@, completed),
{
    let thread = match params.text_at("threadId") {
        Some(thread) => thread,
        None => return no_updates(),
    };
    let name = or_text(read_text(params.get_either("hookName", "name")), "hook");
    let fallback = concat2("hook:", name);
    let id = or_text(read_text(params.get_either("itemId", "hookId")), fallback.as_str());
    if completed {
        let mut update = ToolCallUpdate::new(id);
        update.status = Some(ToolCallStatus::Completed);
        one_update(thread, SessionUpdate::ToolCallUpdate(update))
    } else {
        let call = ToolCall {
            id: id.to_owned(),
            title: concat2("Hook: ", name),
            kind: ToolKind::Other,
            status: ToolCallStatus::InProgress,
            content: Vec::new(),
            raw_input: None,
            meta: None,
        };
        assert(call@.content =~= Seq::<ContentView>::empty());
        one_update(thread, SessionUpdate::ToolCall(call))
    }
}

// ---------------------------------------------------------------------------
// Notifications
// ---------------------------------------------------------------------------

/// The session updates that a notification gives.
pub open spec fn notification_updates(
    method: Seq<char>,
    params: JsonView,
    outputs: Map<Seq<char>, Seq<char>>,
) -> Seq<(Seq<char>, UpdateView)> {
    if method == "item/commandExecution/outputDelta"@ {
        command_output_updates(params, outputs)
    } else if method == "item/fileChange/outputDelta"@ {
        tool_output_updates(params, outputs)
    } else if method == "item/agentMessage/delta"@ {
        delta_updates(params, false)
    } else if method == "item/reasoning/textDelta"@ {
        delta_updates(params, true)
    } else if method == "item/reasoning/summaryTextDelta"@ {
        delta_updates(params, true)
    } else if method == "turn/plan/updated"@ {
        plan_updates(params)
    } else if method == "thread/name/updated"@ {
        name_updates(params)
    } else if method == "thread/goal/updated"@ {
        message_updates(params, goal_updated_text(params))
    } else if method == "thread/goal/cleared"@ {
        message_updates(params, Some("Goal cleared."@))
    } else if method == "thread/tokenUsage/updated"@ {
        usage_updates(params)
    } else if method == "model/rerouted"@ {
        message_updates(params, Some(rerouted_text(params)))
    } else if method == "model/verification"@ {
        message_updates(params, verification_text(params))
    } else if method == "model/safetyBuffering/updated"@ {
        message_updates(params, buffering_text(params))
    } else if method == "configWarning"@ {
        message_updates(params, Some(config_warning_text(params)))
    } else if method == "warning"@ {
        message_updates(params, Some(warning_text(params)))
    } else if method == "guardianWarning"@ {
        message_updates(params, Some(guardian_warning_text(params)))
    } else if method == "error"@ {
        message_updates(params, Some(error_text(params)))
    } else if method == "mcpServer/startupStatus/updated"@ {
        message_updates(params, startup_text(params))
    } else if method == "item/commandExecution/terminalInteraction"@ {
        interaction_updates(params)
    } else if method == "item/fileChange/patchUpdated"@ {
        patch_updates(params)
    } else if method == "item/mcpToolCall/progress"@ {
        progress_updates(params)
    } else if method == "item/started"@ {
        item_updates(params, false, outputs)
    } else if method == "item/completed"@ {
        item_updates(params, true, outputs)
    } else if method == "hook/started"@ {
        hook_updates(params, false)
    } else if method == "hook/completed"@ {
        hook_updates(params, true)
    } else if method == "context/compacted"@ {
        message_updates(params, Some("Context compacted."@))
    } else {
        nothing()
    }
}

/// The outputs of tools after a notification.
pub open spec fn outputs_after(
    method: Seq<char>,
    params: JsonView,
    outputs: Map<Seq<char>, Seq<char>>,
) -> Map<Seq<char>, Seq<char>> {
    if method == "item/commandExecution/outputDelta"@ || method == "item/fileChange/outputDelta"@ {
        outputs_after_delta(params, outputs)
    } else {
        outputs
    }
}

/// The session updates that a notification gives.
pub fn session_updates_from_notification(
    method: &str,
    params: &Json,
    outputs: &mut Table<String>,
) -> (updates: Vec<(String, SessionUpdate)>)
    ensures
        addressed_views(updates@) == notification_updates(
            method@,
            params@,
            text_map(old(outputs)@),
        ),
        text_map(final(outputs)@) == outputs_after(method@, params@, text_map(old(outputs)@)),
{
    if same_text(method, "item/commandExecution/outputDelta") {
        command_output_delta_update(params, outputs)
    } else if same_text(method, "item/fileChange/outputDelta") {
        tool_output_delta_update(params, outputs)
    } else if same_text(method, "item/agentMessage/delta") {
        text_delta_update(params, false)
    } else if same_text(method, "item/reasoning/textDelta") {
        text_delta_update(params, true)
    } else if same_text(method, "item/reasoning/summaryTextDelta") {
        text_delta_update(params, true)
    } else if same_text(method, "turn/plan/updated") {
        plan_update(params)
    } else if same_text(method, "thread/name/updated") {
        thread_name_update(params)
    } else if same_text(method, "thread/goal/updated") {
        thread_goal_update(params)
    } else if same_text(method, "thread/goal/cleared") {
        thread_goal_cleared_update(params)
    } else if same_text(method, "thread/tokenUsage/updated") {
        token_usage_update(params)
    } else if same_text(method, "model/rerouted") {
        model_rerouted_update(params)
    } else if same_text(method, "model/verification") {
        model_verification_update(params)
    } else if same_text(method, "model/safetyBuffering/updated") {
        model_safety_buffering_update(params)
    } else if same_text(method, "configWarning") {
        config_warning_update(params)
    } else if same_text(method, "warning") {
        warning_update(params)
    } else if same_text(method, "guardianWarning") {
        guardian_warning_update(params)
    } else if same_text(method, "error") {
        error_update(params)
    } else if same_text(method, "mcpServer/startupStatus/updated") {
        mcp_startup_status_update(params)
    } else if same_text(method, "item/commandExecution/terminalInteraction") {
        terminal_interaction_update(params)
    } else if same_text(method, "item/fileChange/patchUpdated") {
        file_change_patch_update(params)
    } else if same_text(method, "item/mcpToolCall/progress") {
        mcp_tool_progress_update(params)
    } else if same_text(method, "item/started") {
        item_lifecycle_update(params, false, outputs)
    } else if same_text(method, "item/completed") {
        item_lifecycle_update(params, true, outputs)
    } else if same_text(method, "hook/started") {
        hook_lifecycle_update(params, false)
    } else if same_text(method, "hook/completed") {
        hook_lifecycle_update(params, true)
    } else if same_text(method, "context/compacted") {
        compacted_update(params)
    } else {
        no_updates()
    }
}

/// Every update that a notification gives is for the thread that the notification
/// names.
pub proof fn updates_are_for_the_named_thread(
    method: Seq<char>,
    params: JsonView,
    outputs: Map<Seq<char>, Seq<char>>,
    i: int,
)
    requires
        0 <= i < notification_updates(method, params, outputs).len(),
    ensures
        params.text_at("threadId"@) == Some(notification_updates(method, params, outputs)[i].0),
{
}

/// A notification that names no thread gives no update and changes no output.
pub proof fn nothing_without_a_thread(
    method: Seq<char>,
    params: JsonView,
    outputs: Map<Seq<char>, Seq<char>>,
)
    requires
        params.text_at("threadId"@) is None,
    ensures
        notification_updates(method, params, outputs) == nothing(),
        outputs_after(method, params, outputs) == outputs,
{
}

/// A notification changes the output of no tool but the one that it names.
pub proof fn other_outputs_stay(
    method: Seq<char>,
    params: JsonView,
    outputs: Map<Seq<char>, Seq<char>>,
    item: Seq<char>,
)
    requires
        params.text_at("itemId"@) != Some(item),
    ensures
        at(outputs_after(method, params, outputs), item) == at(outputs, item),
{
}

/// The outputs after some more pieces of the output of a tool.
pub open spec fn all_grown(
    outputs: Map<Seq<char>, Seq<char>>,
    item: Seq<char>,
    deltas: Seq<Seq<char>>,
) -> Map<Seq<char>, Seq<char>>
    decreases deltas.len(),
{
    if deltas.len() == 0 {
        outputs
    } else {
        grown(all_grown(outputs, item, deltas.drop_last()), item, deltas.last())
    }
}

/// Some pieces, one after the other.
pub open spec fn together(deltas: Seq<Seq<char>>) -> Seq<char>
    decreases deltas.len(),
{
    if deltas.len() == 0 {
        Seq::empty()
    } else {
        together(deltas.drop_last()) + deltas.last()
    }
}

/// What is gathered of the output of a tool is all of its pieces in order.
pub proof fn outputs_gather_every_piece(
    outputs: Map<Seq<char>, Seq<char>>,
    item: Seq<char>,
    deltas: Seq<Seq<char>>,
)
    requires
        deltas.len() > 0,
        !outputs.contains_key(item),
    ensures
        at(all_grown(outputs, item, deltas), item) == Some(together(deltas)),
    decreases deltas.len(),
{
    let init = deltas.drop_last();
    let before = all_grown(outputs, item, init);
    assert(all_grown(outputs, item, deltas) == grown(before, item, deltas.last()));
    if init.len() > 0 {
        outputs_gather_every_piece(outputs, item, init);
    } else {
        assert(before == outputs);
        assert(together(init) =~= Seq::<char>::empty());
        assert(Seq::<char>::empty() + deltas.last() =~= together(deltas));
    }
}

/// When a command has ended, its terminal has got the whole output: what was
/// streamed before, and now exactly what was missing.
pub proof fn terminal_gets_the_whole_output(
    thread: Seq<char>,
    item: JsonView,
    id: Seq<char>,
    outputs: Map<Seq<char>, Seq<char>>,
    streamed: Seq<char>,
    rest: Seq<char>,
)
    requires
        item.text_at("id"@) == Some(id),
        at(outputs, id) == Some(streamed),
        output_of(item) == Some(streamed + rest),
    ensures
        command_updates(thread, item, true, outputs) == only(
            thread,
            UpdateView::ToolCallUpdate(
                command_end(
                    id,
                    item,
                    status_of(item, true),
                    if rest.len() > 0 {
                        Some(rest)
                    } else {
                        None
                    },
                ),
            ),
        ),
{
    streamed_and_missing_make_the_output(streamed + rest, streamed, rest);
}

} // verus!
