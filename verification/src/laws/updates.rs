//! What notifications come to: each law speaks of the updates that a notification gives,
//! in terms of what the notification carries.

use vstd::prelude::*;

use crate::history::user_chunks;
use crate::json::{found_in_more, JsonView};
use crate::json_text::{json_text, settled};

use crate::laws::values::all_texts_are_kept;
use crate::laws::words::{item_states, item_types, notification_names};
use crate::protocol::{
    ContentView, PlanEntryPriority, PlanEntryStatus, ToolCallStatus, ToolCallUpdateView, ToolKind,
    UpdateView,
};
use crate::table::at;

use crate::updates::{notification_updates, outputs_after, plan_entries};

verus! {

/// Whether items of a type are tool calls.
pub open spec fn names_a_tool(kind: Option<Seq<char>>) -> bool {
    ||| kind == Some("commandExecution"@)
    ||| kind == Some("fileChange"@)
    ||| kind == Some("mcpToolCall"@)
    ||| kind == Some("dynamicToolCall"@)
    ||| kind == Some("collabAgentToolCall"@)
    ||| kind == Some("webSearch"@)
    ||| kind == Some("imageGeneration"@)
}

/// Whether an item says that it failed, or that it was declined.
pub open spec fn says_failed(item: JsonView) -> bool {
    item.text_at("status"@) == Some("failed"@) || item.text_at("status"@) == Some("declined"@)
}

/// That a kind is that of the tool of an item: commands are executed, changes to files
/// are edits, and searches fetch.
pub open spec fn fits_type(kind: ToolKind, item: JsonView) -> bool {
    let named = item.text_at("type"@);
    &&& kind == ToolKind::Execute <==> named == Some("commandExecution"@)
    &&& kind == ToolKind::Edit <==> named == Some("fileChange"@)
    &&& kind == ToolKind::Fetch <==> named == Some("webSearch"@)
}

/// That a notification gives a single update, for a thread.
pub open spec fn single(updates: Seq<(Seq<char>, UpdateView)>, thread: Seq<char>) -> bool {
    updates.len() == 1 && updates[0].0 == thread
}

/// The end of a tool call is told as it was: failed exactly where the item failed or was
/// declined, and else completed, whatever the tool.
pub proof fn ends_tell_whether_tools_failed(
    params: JsonView,
    thread: Seq<char>,
    item: JsonView,
    id: Seq<char>,
    outputs: Map<Seq<char>, Seq<char>>,
)
    requires
        params.text_at("threadId"@) == Some(thread),
        params.get("item"@) == Some(item),
        item.text_at("id"@) == Some(id),
        names_a_tool(item.text_at("type"@)),
    ensures
        ({
            let updates = notification_updates("item/completed"@, params, outputs);
            let update = updates[0].1->ToolCallUpdate_0;
            &&& single(updates, thread)
            &&& updates[0].1 is ToolCallUpdate
            &&& update.id == id
            &&& update.status == Some(
                if says_failed(item) {
                    ToolCallStatus::Failed
                } else {
                    ToolCallStatus::Completed
                },
            )
            &&& update.kind is Some
            &&& fits_type(update.kind->0, item)
            &&& update.title is None
            &&& update.raw_input is None
        }),
{
    notification_names();
    item_types();
    item_states();
}

/// The start of a tool call is told with the item itself, as in progress unless the item
/// has come further already.
pub proof fn starts_tell_what_was_called(
    params: JsonView,
    thread: Seq<char>,
    item: JsonView,
    id: Seq<char>,
    outputs: Map<Seq<char>, Seq<char>>,
)
    requires
        params.text_at("threadId"@) == Some(thread),
        params.get("item"@) == Some(item),
        item.text_at("id"@) == Some(id),
        names_a_tool(item.text_at("type"@)),
    ensures
        ({
            let updates = notification_updates("item/started"@, params, outputs);
            let call = updates[0].1->ToolCall_0;
            &&& single(updates, thread)
            &&& updates[0].1 is ToolCall
            &&& call.id == id
            &&& call.raw_input == Some(item)
            &&& fits_type(call.kind, item)
            &&& call.status == (if says_failed(item) {
                ToolCallStatus::Failed
            } else if item.text_at("status"@) == Some("completed"@) {
                ToolCallStatus::Completed
            } else {
                ToolCallStatus::InProgress
            })
        }),
{
    notification_names();
    item_types();
    item_states();
}

/// The update of a tool call that says nothing but what is added to it.
pub open spec fn silent(id: Seq<char>) -> ToolCallUpdateView {
    ToolCallUpdateView {
        id,
        kind: None,
        status: None,
        title: None,
        content: None,
        raw_input: None,
        raw_output: None,
        meta: None,
    }
}

/// The title that an item is to be shown under.
pub open spec fn title_for(item: JsonView) -> Seq<char> {
    let named = item.text_at("type"@);
    let tool = item.text_at("tool"@);
    if named == Some("commandExecution"@) {
        match item.text_at("command"@) {
            Some(command) => "Run `"@ + command + "`"@,
            None => "Run command"@,
        }
    } else if named == Some("fileChange"@) {
        "Apply file changes"@
    } else if named == Some("mcpToolCall"@) {
        (match item.text_at("server"@) {
            Some(server) => server,
            None => "MCP"@,
        }) + ": "@ + (match tool {
            Some(tool) => tool,
            None => "tool"@,
        })
    } else if named == Some("dynamicToolCall"@) {
        match tool {
            Some(tool) => "Tool: "@ + tool,
            None => "Dynamic tool"@,
        }
    } else if named == Some("webSearch"@) {
        match item.text_at("query"@) {
            Some(query) => "Search the web for `"@ + query + "`"@,
            None => "Search the web"@,
        }
    } else {
        "Image generation"@
    }
}

/// The name of a subagent, under one of the keys that it can have.
pub open spec fn agent_in(item: JsonView) -> Option<Seq<char>> {
    let named = if item.get("name"@) is Some {
        item.get("name"@)
    } else if item.get("agentName"@) is Some {
        item.get("agentName"@)
    } else if item.get("subagentName"@) is Some {
        item.get("subagentName"@)
    } else {
        item.get("agent"@)
    };
    match named {
        Some(JsonView::Text(name)) => Some(name),
        _ => None,
    }
}

/// A tool call is shown under a title that names what is called: the command, the tool and
/// its server, or what is searched for.
pub proof fn titles_name_what_is_called(
    params: JsonView,
    thread: Seq<char>,
    item: JsonView,
    id: Seq<char>,
    outputs: Map<Seq<char>, Seq<char>>,
)
    requires
        params.text_at("threadId"@) == Some(thread),
        params.get("item"@) == Some(item),
        item.text_at("id"@) == Some(id),
        names_a_tool(item.text_at("type"@)),
    ensures
        ({
            let call = notification_updates("item/started"@, params, outputs)[0].1->ToolCall_0;
            let tool = item.text_at("tool"@);
            &&& item.text_at("type"@) != Some("collabAgentToolCall"@) ==> call.title == title_for(
                item,
            )
            &&& item.text_at("type"@) == Some("collabAgentToolCall"@) ==> call.title == (match (
                agent_in(item),
                tool,
            ) {
                (Some(name), Some(tool)) => "Subagent "@ + name + ": "@ + tool,
                (Some(name), None) => "Subagent: "@ + name,
                (None, Some(tool)) => "Subagent: "@ + tool,
                (None, None) => "Subagent"@,
            })
        }),
{
    notification_names();
    item_types();
    reveal_strlit("");
    if let Some(tool) = item.text_at("tool"@) {
        assert("Tool: "@ + tool + ""@ =~= "Tool: "@ + tool);
    }
}

/// The end of a tool other than a command or a change to files shows its output, or its
/// error where it has no output, and nothing where it has neither.
pub proof fn ends_show_the_output_of_tools(
    params: JsonView,
    thread: Seq<char>,
    item: JsonView,
    id: Seq<char>,
    outputs: Map<Seq<char>, Seq<char>>,
)
    requires
        params.text_at("threadId"@) == Some(thread),
        params.get("item"@) == Some(item),
        item.text_at("id"@) == Some(id),
        names_a_tool(item.text_at("type"@)),
        item.text_at("type"@) != Some("commandExecution"@),
        item.text_at("type"@) != Some("fileChange"@),
    ensures
        ({
            let end = notification_updates("item/completed"@, params, outputs)[0].1
                ->ToolCallUpdate_0;
            let start = notification_updates("item/started"@, params, outputs)[0].1->ToolCall_0;
            let output = item.text_at("aggregatedOutput"@);
            let error = item.get("error"@);
            &&& end.raw_output is None
            &&& start.content.len() == 0
            &&& end.meta == start.meta
            &&& end.meta is Some <==> item.text_at("type"@) == Some("collabAgentToolCall"@)
            &&& output is Some && output->0.len() > 0 ==> end.content == Some(
                seq![ContentView::Text(output->0)],
            )
            &&& output is None || output->0.len() == 0 ==> end.content == (if error is Some
                && error->0 !is Null {
                Some(seq![ContentView::Text("Error: "@ + json_text(settled(error->0)))])
            } else {
                None
            })
        }),
{
    notification_names();
    item_types();
}

/// What an item gives under a key, or null.
pub open spec fn given(item: JsonView, key: Seq<char>) -> JsonView {
    match item.get(key) {
        Some(value) => value,
        None => JsonView::Null,
    }
}

/// The call of a subagent says which agent it is, what it was asked to do, and which thread
/// it runs in where one is named.
pub proof fn subagents_are_told_of(
    params: JsonView,
    thread: Seq<char>,
    item: JsonView,
    id: Seq<char>,
    outputs: Map<Seq<char>, Seq<char>>,
    threads: Seq<JsonView>,
)
    requires
        params.text_at("threadId"@) == Some(thread),
        params.get("item"@) == Some(item),
        item.text_at("id"@) == Some(id),
        item.text_at("type"@) == Some("collabAgentToolCall"@),
        item.get("receiverThreadIds"@) == Some(JsonView::Array(threads)),
        forall|i: int| 0 <= i < threads.len() ==> #[trigger] threads[i] is Text,
    ensures
        ({
            let meta = notification_updates("item/started"@, params, outputs)[0].1->ToolCall_0.meta;
            let native = meta->0.get("codex_native_collab"@)->0;
            let info = meta->0.get("subagent_session_info"@);
            &&& meta is Some
            &&& meta->0.text_at("tool_name"@) == Some("spawn_agent"@)
            &&& meta->0.get("codex_native_collab"@) is Some
            &&& native.get("receiver_thread_ids"@) == Some(JsonView::Array(threads))
            &&& native.get("tool"@) == Some(given(item, "tool"@))
            &&& native.get("status"@) == Some(given(item, "status"@))
            &&& native.get("summary"@) == Some(given(item, "summary"@))
            &&& native.get("name"@) == Some(
                match agent_in(item) {
                    Some(name) => JsonView::Text(name),
                    None => JsonView::Null,
                },
            )
            &&& native.get("output"@) == Some(
                if item.get("aggregatedOutput"@) is Some {
                    given(item, "aggregatedOutput"@)
                } else {
                    given(item, "output"@)
                },
            )
            &&& threads.len() == 0 ==> info is None
            &&& threads.len() > 0 ==> info is Some && info->0.get("session_id"@) == Some(threads[0])
                && info->0.get("message_start_index"@) == Some(JsonView::Int(0))
                && info->0.get("message_end_index"@) == Some(JsonView::Null)
        }),
{
    broadcast use found_in_more;

    notification_names();
    item_types();
    subagent_keys();
    all_texts_are_kept(threads);
    if threads.len() > 0 {
        assert(threads[0] is Text);
    }
}

proof fn subagent_keys()
    ensures
        "tool_name"@.len() == 9,
        "subagent_session_info"@.len() == 21,
        "codex_native_collab"@.len() == 19 && "codex_native_collab"@[0] == 'c',
        "session_id"@.len() == 10,
        "message_start_index"@.len() == 19 && "message_start_index"@[0] == 'm',
        "message_end_index"@.len() == 17,
        "tool"@.len() == 4 && "tool"@[0] == 't',
        "name"@.len() == 4 && "name"@[0] == 'n',
        "status"@.len() == 6 && "status"@[0] == 's',
        "receiver_thread_ids"@.len() == 19 && "receiver_thread_ids"@[0] == 'r',
        "summary"@.len() == 7,
        "output"@.len() == 6 && "output"@[0] == 'o',
{
    reveal_strlit("tool_name");
    reveal_strlit("subagent_session_info");
    reveal_strlit("codex_native_collab");
    reveal_strlit("session_id");
    reveal_strlit("message_start_index");
    reveal_strlit("message_end_index");
    reveal_strlit("tool");
    reveal_strlit("name");
    reveal_strlit("status");
    reveal_strlit("receiver_thread_ids");
    reveal_strlit("summary");
    reveal_strlit("output");
}

/// A change to files ends with the item itself, and shows what its changes show while they
/// are being made: the update of a patch with the same changes shows the same.
pub proof fn patches_and_ends_show_the_same(
    params: JsonView,
    patch: JsonView,
    thread: Seq<char>,
    item: JsonView,
    id: Seq<char>,
    outputs: Map<Seq<char>, Seq<char>>,
)
    requires
        params.text_at("threadId"@) == Some(thread),
        params.get("item"@) == Some(item),
        item.text_at("id"@) == Some(id),
        item.text_at("type"@) == Some("fileChange"@),
        patch.text_at("threadId"@) == Some(thread),
        patch.text_at("itemId"@) == Some(id),
        patch.get("changes"@) == item.get("changes"@),
    ensures
        ({
            let end = notification_updates("item/completed"@, params, outputs);
            let shown = notification_updates("item/fileChange/patchUpdated"@, patch, outputs);
            let start = notification_updates("item/started"@, params, outputs);
            let content = end[0].1->ToolCallUpdate_0.content;
            &&& content is Some
            &&& end[0].1->ToolCallUpdate_0.raw_output == Some(item)
            &&& end[0].1->ToolCallUpdate_0.meta is None
            &&& shown == seq![
                (
                    thread,
                    UpdateView::ToolCallUpdate(
                        ToolCallUpdateView {
                            kind: Some(ToolKind::Edit),
                            content,
                            ..silent(id)
                        },
                    ),
                ),
            ]
            &&& start[0].1->ToolCall_0.content.len() == 0
            &&& start[0].1->ToolCall_0.meta is None
        }),
{
    notification_names();
    item_types();
}

/// A piece of a message is told as a piece of a message, and a piece of a thought as a piece
/// of a thought, with exactly its text.
pub proof fn pieces_are_told_as_they_come(
    params: JsonView,
    thread: Seq<char>,
    delta: Seq<char>,
    outputs: Map<Seq<char>, Seq<char>>,
)
    requires
        params.text_at("threadId"@) == Some(thread),
        params.text_at("delta"@) == Some(delta),
    ensures
        notification_updates("item/agentMessage/delta"@, params, outputs) == seq![
            (thread, UpdateView::AgentMessageChunk(delta)),
        ],
        notification_updates("item/reasoning/textDelta"@, params, outputs) == seq![
            (thread, UpdateView::AgentThoughtChunk(delta)),
        ],
        notification_updates("item/reasoning/summaryTextDelta"@, params, outputs) == seq![
            (thread, UpdateView::AgentThoughtChunk(delta)),
        ],
{
    notification_names();
}

/// Whether a method brings a piece of the output of a command or of a change to files.
pub open spec fn brings_output(method: Seq<char>) -> bool {
    method == "item/commandExecution/outputDelta"@ || method == "item/fileChange/outputDelta"@
}

/// A piece of output is added to what was gathered of the output of its item, and to nothing
/// else; what brings no output leaves what was gathered.
pub proof fn pieces_are_gathered_by_item(
    method: Seq<char>,
    params: JsonView,
    outputs: Map<Seq<char>, Seq<char>>,
    item: Seq<char>,
    delta: Seq<char>,
    other: Seq<char>,
)
    requires
        params.text_at("threadId"@) is Some,
        params.text_at("itemId"@) == Some(item),
        params.text_at("delta"@) == Some(delta),
        other != item,
    ensures
        brings_output(method) ==> ({
            let after = outputs_after(method, params, outputs);
            &&& after.contains_key(item)
            &&& outputs.contains_key(item) ==> after[item] == outputs[item] + delta
            &&& !outputs.contains_key(item) ==> after[item] == delta
            &&& at(after, other) == at(outputs, other)
        }),
        !brings_output(method) ==> outputs_after(method, params, outputs) == outputs,
{
    notification_names();
    assert(Seq::<char>::empty() + delta =~= delta);
}

/// What is shown of a change to files that is still writing output is all the output that was
/// gathered so far, in the call of its item.
pub proof fn output_of_changes_is_shown_so_far(
    params: JsonView,
    outputs: Map<Seq<char>, Seq<char>>,
    thread: Seq<char>,
    item: Seq<char>,
)
    requires
        params.text_at("threadId"@) == Some(thread),
        params.text_at("itemId"@) == Some(item),
        params.text_at("delta"@) is Some,
    ensures
        ({
            let method = "item/fileChange/outputDelta"@;
            notification_updates(method, params, outputs) == seq![
                (
                    thread,
                    UpdateView::ToolCallUpdate(
                        ToolCallUpdateView {
                            content: Some(
                                seq![ContentView::Text(outputs_after(method, params, outputs)[item])],
                            ),
                            ..silent(item)
                        },
                    ),
                ),
            ]
        }),
{
    notification_names();
}

/// The progress of a tool is shown in its call as it is told.
pub proof fn progress_is_shown(
    params: JsonView,
    outputs: Map<Seq<char>, Seq<char>>,
    thread: Seq<char>,
    item: Seq<char>,
    message: Seq<char>,
)
    requires
        params.text_at("threadId"@) == Some(thread),
        params.text_at("itemId"@) == Some(item),
        params.text_at("message"@) == Some(message),
    ensures
        notification_updates("item/mcpToolCall/progress"@, params, outputs) == seq![
            (
                thread,
                UpdateView::ToolCallUpdate(
                    ToolCallUpdateView {
                        content: Some(seq![ContentView::Text(message)]),
                        ..silent(item)
                    },
                ),
            ),
        ],
{
    notification_names();
}

/// A plan whose steps all have a text is told step by step, each with the status that it has:
/// completed, in progress, or else pending.
pub proof fn plans_are_told_step_by_step(
    params: JsonView,
    outputs: Map<Seq<char>, Seq<char>>,
    thread: Seq<char>,
)
    requires
        params.text_at("threadId"@) == Some(thread),
        forall|i: int|
            0 <= i < params.items_at("plan"@).len() ==> (#[trigger] params.items_at(
                "plan"@,
            )[i]).text_at("step"@) is Some,
    ensures
        ({
            let updates = notification_updates("turn/plan/updated"@, params, outputs);
            let steps = params.items_at("plan"@);
            let entries = updates[0].1->Plan_0;
            &&& single(updates, thread)
            &&& updates[0].1 is Plan
            &&& entries.len() == steps.len()
            &&& forall|i: int|
                0 <= i < steps.len() ==> {
                    let entry = #[trigger] entries[i];
                    let status = steps[i].text_at("status"@);
                    &&& Some(entry.content) == steps[i].text_at("step"@)
                    &&& entry.priority == PlanEntryPriority::Medium
                    &&& entry.status == PlanEntryStatus::Completed <==> status == Some(
                        "completed"@,
                    )
                    &&& entry.status == PlanEntryStatus::InProgress <==> status == Some(
                        "inProgress"@,
                    )
                }
        }),
{
    notification_names();
    every_step_is_an_entry(params.items_at("plan"@));
}

proof fn every_step_is_an_entry(steps: Seq<JsonView>)
    requires
        forall|i: int| 0 <= i < steps.len() ==> (#[trigger] steps[i]).text_at("step"@) is Some,
    ensures
        plan_entries(steps).len() == steps.len(),
        forall|i: int|
            0 <= i < steps.len() ==> {
                let entry = #[trigger] plan_entries(steps)[i];
                let status = steps[i].text_at("status"@);
                &&& Some(entry.content) == steps[i].text_at("step"@)
                &&& entry.priority == PlanEntryPriority::Medium
                &&& entry.status == PlanEntryStatus::Completed <==> status == Some("completed"@)
                &&& entry.status == PlanEntryStatus::InProgress <==> status == Some(
                    "inProgress"@,
                )
            },
    decreases steps.len(),
{
    item_states();
    if steps.len() > 0 {
        let init = steps.drop_last();
        assert(forall|i: int| 0 <= i < init.len() ==> #[trigger] init[i] == steps[i]);
        every_step_is_an_entry(init);
        let last = steps[steps.len() - 1];
        assert(last.text_at("step"@) is Some);
        let entries = plan_entries(steps);
        assert forall|i: int| 0 <= i < steps.len() implies {
            let entry = #[trigger] entries[i];
            let status = steps[i].text_at("status"@);
            &&& Some(entry.content) == steps[i].text_at("step"@)
            &&& entry.priority == PlanEntryPriority::Medium
            &&& entry.status == PlanEntryStatus::Completed <==> status == Some("completed"@)
            &&& entry.status == PlanEntryStatus::InProgress <==> status == Some("inProgress"@)
        } by {
            if i < init.len() {
                assert(entries[i] == plan_entries(init)[i]);
                assert(init[i] == steps[i]);
            }
        }
    }
}

/// A step without a text is left out of a plan, and changes nothing for the others.
pub proof fn empty_steps_are_left_out(
    params: JsonView,
    shorter: JsonView,
    outputs: Map<Seq<char>, Seq<char>>,
    steps: Seq<JsonView>,
    step: JsonView,
)
    requires
        params.text_at("threadId"@) == shorter.text_at("threadId"@),
        params.get("plan"@) == Some(JsonView::Array(steps.push(step))),
        shorter.get("plan"@) == Some(JsonView::Array(steps)),
        step.text_at("step"@) is None,
    ensures
        notification_updates("turn/plan/updated"@, params, outputs) == notification_updates(
            "turn/plan/updated"@,
            shorter,
            outputs,
        ),
{
    notification_names();
    assert(steps.push(step).drop_last() =~= steps);
}

/// A thread that is given a name is given exactly that name.
pub proof fn names_are_told(
    params: JsonView,
    outputs: Map<Seq<char>, Seq<char>>,
    thread: Seq<char>,
    title: Seq<char>,
)
    requires
        params.text_at("threadId"@) == Some(thread),
        params.text_at("threadName"@) == Some(title),
    ensures
        notification_updates("thread/name/updated"@, params, outputs) == seq![
            (thread, UpdateView::SessionInfoUpdate { title }),
        ],
{
    notification_names();
}

/// A number that may be missing, which then counts as nothing.
pub open spec fn count_of(n: Option<u64>) -> int {
    match n {
        Some(n) => n as int,
        None => 0,
    }
}

/// The tokens that were used are told as they were counted. Where no total is given it is the
/// sum of what was read, written and found in the cache, as far as that can be counted; where
/// no size of the window is given it is what was used.
pub proof fn usage_is_told_as_counted(
    params: JsonView,
    outputs: Map<Seq<char>, Seq<char>>,
    thread: Seq<char>,
    usage: JsonView,
    total: JsonView,
)
    requires
        params.text_at("threadId"@) == Some(thread),
        params.get("tokenUsage"@) == Some(usage),
        usage.get("total"@) == Some(total),
    ensures
        ({
            let updates = notification_updates("thread/tokenUsage/updated"@, params, outputs);
            let told = updates[0].1->UsageUpdate_0;
            let read = count_of(total.u64_at("inputTokens"@));
            let written = count_of(total.u64_at("outputTokens"@));
            let cached = count_of(total.u64_at("cachedInputTokens"@));
            &&& single(updates, thread)
            &&& updates[0].1 is UsageUpdate
            &&& told.input_tokens == read
            &&& told.output_tokens == written
            &&& told.cache_read_input_tokens == cached
            &&& told.cache_creation_input_tokens == 0
            &&& total.u64_at("totalTokens"@) matches Some(used) ==> told.used == used
            &&& total.u64_at("totalTokens"@) is None ==> told.used == (if read + written + cached
                <= u64::MAX {
                read + written + cached
            } else {
                u64::MAX as int
            })
            &&& usage.u64_at("modelContextWindow"@) matches Some(size) ==> told.size == size
            &&& usage.u64_at("modelContextWindow"@) is None ==> told.size == told.used
        }),
{
    notification_names();
}

/// A hook is shown by its name while it runs, and its end is told under the id that its start
/// was told under.
pub proof fn hooks_end_where_they_started(
    params: JsonView,
    outputs: Map<Seq<char>, Seq<char>>,
    thread: Seq<char>,
)
    requires
        params.text_at("threadId"@) == Some(thread),
    ensures
        ({
            let starts = notification_updates("hook/started"@, params, outputs);
            let ends = notification_updates("hook/completed"@, params, outputs);
            let start = starts[0].1->ToolCall_0;
            let named = match params.get("hookName"@) {
                Some(name) => Some(name),
                None => params.get("name"@),
            };
            let name = match named {
                Some(JsonView::Text(name)) => name,
                _ => "hook"@,
            };
            let called = match params.get("itemId"@) {
                Some(id) => Some(id),
                None => params.get("hookId"@),
            };
            &&& single(starts, thread) && single(ends, thread)
            &&& starts[0].1 is ToolCall
            &&& start.status == ToolCallStatus::InProgress
            &&& start.title == "Hook: "@ + name
            &&& start.id == (match called {
                Some(JsonView::Text(id)) => id,
                _ => "hook:"@ + name,
            })
            &&& ends[0].1 == UpdateView::ToolCallUpdate(
                ToolCallUpdateView {
                    status: Some(ToolCallStatus::Completed),
                    ..silent(start.id)
                },
            )
        }),
{
    notification_names();
}

/// A notification of a name that is not known, and one that names no thread, is told to
/// nobody.
pub proof fn other_notifications_are_not_told(
    method: Seq<char>,
    params: JsonView,
    outputs: Map<Seq<char>, Seq<char>>,
)
    requires
        params.text_at("threadId"@) is None || method == "turn/started"@ || method
            == "turn/completed"@ || method == "thread/settings/updated"@ || method
            == "thread/archived"@ || method == "thread/unarchived"@ || method == "thread/deleted"@,
    ensures
        notification_updates(method, params, outputs).len() == 0,
{
    notification_names();
}

/// What the user said is told, piece by piece, when it is said and not again when it ends.
pub proof fn user_messages_are_told_once(
    params: JsonView,
    outputs: Map<Seq<char>, Seq<char>>,
    thread: Seq<char>,
    item: JsonView,
)
    requires
        params.text_at("threadId"@) == Some(thread),
        params.get("item"@) == Some(item),
        item.text_at("type"@) == Some("userMessage"@),
        forall|i: int|
            0 <= i < item.items_at("content"@).len() ==> ({
                let input = #[trigger] item.items_at("content"@)[i];
                input.text_at("type"@) == Some("text"@) && input.text_at("text"@) is Some
            }),
    ensures
        ({
            let updates = notification_updates("item/started"@, params, outputs);
            let content = item.items_at("content"@);
            &&& updates.len() == content.len()
            &&& forall|i: int|
                0 <= i < content.len() ==> #[trigger] updates[i] == (
                    thread,
                    UpdateView::UserMessageChunk(content[i].text_at("text"@)->0),
                )
            &&& notification_updates("item/completed"@, params, outputs).len() == 0
        }),
{
    notification_names();
    item_types();
    every_text_is_a_chunk(item.items_at("content"@));
}

/// Texts of the user are told one by one.
pub proof fn every_text_is_a_chunk(content: Seq<JsonView>)
    requires
        forall|i: int|
            0 <= i < content.len() ==> ({
                let input = #[trigger] content[i];
                input.text_at("type"@) == Some("text"@) && input.text_at("text"@) is Some
            }),
    ensures
        user_chunks(content).len() == content.len(),
        forall|i: int|
            0 <= i < content.len() ==> #[trigger] user_chunks(content)[i]
                == UpdateView::UserMessageChunk(content[i].text_at("text"@)->0),
    decreases content.len(),
{
    if content.len() > 0 {
        let init = content.drop_last();
        assert(forall|i: int| 0 <= i < init.len() ==> #[trigger] init[i] == content[i]);
        every_text_is_a_chunk(init);
        let last = content[content.len() - 1];
        assert(last.text_at("type"@) == Some("text"@));
        let chunks = user_chunks(content);
        assert forall|i: int| 0 <= i < content.len() implies #[trigger] chunks[i]
            == UpdateView::UserMessageChunk(content[i].text_at("text"@)->0) by {
            if i < init.len() {
                assert(chunks[i] == user_chunks(init)[i]);
                assert(init[i] == content[i]);
            }
        }
    }
}

} // verus!
