//! The history of a thread: the session updates that a thread that was read gives
//! back.

use vstd::prelude::*;

use crate::items::{
    is_text, kind_of, output_of, status_of, tool_item_content, tool_kind_for_item_type,
    tool_status_from_item,
};
use crate::json::{item_views, items_in, ref_views, Json, JsonView};
use crate::protocol::{
    update_views, update_views_push, SessionUpdate, UpdateView,
};
use crate::text::{concat3, opt_string, opt_text, or_text, owned, take_all, take_step, text_or};
use crate::tool_calls::{
    command_end, command_start, edit_end, edit_start, end_command, end_edit, end_tool,
    start_command, start_edit, start_tool, tool_end, tool_start,
};

verus! {

/// The text of a piece of user input.
pub open spec fn input_text(input: JsonView) -> Option<Seq<char>> {
    let kind = input.text_at("type"@);
    if kind == Some("text"@) {
        input.text_at("text"@)
    } else if kind == Some("localImage"@) {
        match input.text_at("path"@) {
            Some(path) => Some("[Local image: "@ + path + "]"@),
            None => None,
        }
    } else if kind == Some("image"@) {
        match input.text_at("url"@) {
            Some(url) => Some("[Image: "@ + url + "]"@),
            None => None,
        }
    } else {
        None
    }
}

/// What the user said, piece by piece.
pub open spec fn user_chunks(content: Seq<JsonView>) -> Seq<UpdateView>
    decreases content.len(),
{
    if content.len() == 0 {
        Seq::empty()
    } else {
        let chunks = user_chunks(content.drop_last());
        match input_text(content.last()) {
            Some(text) => chunks.push(UpdateView::UserMessageChunk(text)),
            None => chunks,
        }
    }
}

/// What the agent thought, piece by piece.
pub open spec fn thought_chunks(content: Seq<JsonView>) -> Seq<UpdateView>
    decreases content.len(),
{
    if content.len() == 0 {
        Seq::empty()
    } else {
        let chunks = thought_chunks(content.drop_last());
        match content.last().as_text() {
            Some(text) => chunks.push(UpdateView::AgentThoughtChunk(text)),
            None => chunks,
        }
    }
}

/// A tool call that has ended: its start and its end.
pub open spec fn tool_history(item: JsonView) -> Seq<UpdateView> {
    let kind = item.text_at("type"@);
    let status = status_of(item, true);
    match item.text_at("id"@) {
        Some(id) => if kind == Some("commandExecution"@) {
            seq![UpdateView::ToolCall(command_start(id, item, status))].push(
                UpdateView::ToolCallUpdate(command_end(id, item, status, output_of(item))),
            )
        } else if kind == Some("fileChange"@) {
            seq![UpdateView::ToolCall(edit_start(id, item, status))].push(
                UpdateView::ToolCallUpdate(edit_end(id, item, status)),
            )
        } else {
            seq![
                UpdateView::ToolCall(
                    tool_start(id, item, kind_of(text_or(kind, Seq::empty())), status),
                ),
            ].push(UpdateView::ToolCallUpdate(tool_end(id, item, None, status)))
        },
        None => Seq::empty(),
    }
}

/// Whether an item is a tool call.
pub open spec fn is_tool_call(kind: Option<Seq<char>>) -> bool {
    ||| kind == Some("commandExecution"@)
    ||| kind == Some("fileChange"@)
    ||| is_other_tool(kind)
}

/// Whether an item is a tool call that is neither a command nor a change to files.
pub open spec fn is_other_tool(kind: Option<Seq<char>>) -> bool {
    ||| kind == Some("mcpToolCall"@)
    ||| kind == Some("dynamicToolCall"@)
    ||| kind == Some("collabAgentToolCall"@)
    ||| kind == Some("webSearch"@)
    ||| kind == Some("imageGeneration"@)
}

/// The session updates of an item of the history.
pub open spec fn item_history(item: JsonView) -> Seq<UpdateView> {
    let kind = item.text_at("type"@);
    if kind == Some("userMessage"@) {
        user_chunks(item.items_at("content"@))
    } else if kind == Some("agentMessage"@) {
        match item.text_at("text"@) {
            Some(text) => seq![UpdateView::AgentMessageChunk(text)],
            None => Seq::empty(),
        }
    } else if kind == Some("reasoning"@) {
        thought_chunks(items_in(item.get_either("summary"@, "content"@)))
    } else if is_tool_call(kind) {
        tool_history(item)
    } else {
        Seq::empty()
    }
}

/// The session updates of some items, one after the other.
pub open spec fn items_history(items: Seq<JsonView>) -> Seq<UpdateView>
    decreases items.len(),
{
    if items.len() == 0 {
        Seq::empty()
    } else {
        items_history(items.drop_last()) + item_history(items.last())
    }
}

/// The session updates of some turns, one after the other.
pub open spec fn turns_history(turns: Seq<JsonView>) -> Seq<UpdateView>
    decreases turns.len(),
{
    if turns.len() == 0 {
        Seq::empty()
    } else {
        turns_history(turns.drop_last()) + items_history(turns.last().items_at("items"@))
    }
}

/// The session updates of a thread that was read.
pub open spec fn thread_history(response: JsonView) -> Seq<UpdateView> {
    turns_history(items_in(response.get2("thread"@, "turns"@)))
}

/// The text of a piece of user input.
pub fn user_input_to_content_block(input: &Json) -> (text: Option<String>)
    ensures
        opt_string(text) == input_text(input@),
{
    let kind = input.text_at("type");
    if is_text(kind, "text") {
        owned(input.text_at("text"))
    } else if is_text(kind, "localImage") {
        match input.text_at("path") {
            Some(path) => Some(concat3("[Local image: ", path, "]")),
            None => None,
        }
    } else if is_text(kind, "image") {
        match input.text_at("url") {
            Some(url) => Some(concat3("[Image: ", url, "]")),
            None => None,
        }
    } else {
        None
    }
}

/// No updates.
fn no_history() -> (updates: Vec<SessionUpdate>)
    ensures
        update_views(updates@) == Seq::<UpdateView>::empty(),
{
    let updates: Vec<SessionUpdate> = Vec::new();
    assert(update_views(updates@) =~= Seq::<UpdateView>::empty());
    updates
}

/// What the user said, piece by piece.
pub fn user_message_chunks(content: &Vec<&Json>) -> (chunks: Vec<SessionUpdate>)
    ensures
        update_views(chunks@) == user_chunks(ref_views(content@)),
{
    broadcast use update_views_push;

    let ghost all = ref_views(content@);
    let mut chunks = no_history();
    let mut i: usize = 0;
    proof {
        take_all(all);
    }
    while i < content.len()
        invariant
            i <= content@.len(),
            all == ref_views(content@),
            update_views(chunks@) == user_chunks(all.take(i as int)),
        decreases content@.len() - i,
    {
        proof {
            take_step(all, i as int);
        }
        if let Some(text) = user_input_to_content_block(content[i]) {
            chunks.push(SessionUpdate::UserMessageChunk(text));
        }
        i = i + 1;
    }
    proof {
        take_all(all);
    }
    chunks
}

/// What the agent thought, piece by piece.
pub fn reasoning_history_updates(item: &Json) -> (chunks: Vec<SessionUpdate>)
    ensures
        update_views(chunks@) == thought_chunks(
            items_in(item@.get_either("summary"@, "content"@)),
        ),
{
    broadcast use update_views_push;

    let mut chunks = no_history();
    let content = match item.get_either("summary", "content") {
        Some(content) => match content.as_array() {
            Some(content) => content,
            None => return chunks,
        },
        None => return chunks,
    };
    let ghost all = item_views(content@);
    let mut i: usize = 0;
    proof {
        take_all(all);
    }
    while i < content.len()
        invariant
            i <= content@.len(),
            all == item_views(content@),
            update_views(chunks@) == thought_chunks(all.take(i as int)),
        decreases content@.len() - i,
    {
        proof {
            take_step(all, i as int);
        }
        if let Some(text) = content[i].as_text() {
            chunks.push(SessionUpdate::AgentThoughtChunk(text.to_owned()));
        }
        i = i + 1;
    }
    proof {
        take_all(all);
    }
    chunks
}

/// A tool call that has ended: its start and its end.
pub fn tool_history_updates(item: &Json) -> (updates: Vec<SessionUpdate>)
    ensures
        update_views(updates@) == tool_history(item@),
{
    broadcast use update_views_push;

    let mut updates = no_history();
    let id = match item.text_at("id") {
        Some(id) => id,
        None => return updates,
    };
    let kind = item.text_at("type");
    let status = tool_status_from_item(item, true);
    if is_text(kind, "commandExecution") {
        let output = tool_item_content(item);
        let rest = match &output {
            Some(output) => Some(output.as_str()),
            None => None,
        };
        updates.push(SessionUpdate::ToolCall(start_command(id, item, status)));
        updates.push(SessionUpdate::ToolCallUpdate(end_command(id, item, status, rest)));
    } else if is_text(kind, "fileChange") {
        updates.push(SessionUpdate::ToolCall(start_edit(id, item, status)));
        updates.push(SessionUpdate::ToolCallUpdate(end_edit(id, item, status)));
    } else {
        proof {
            reveal_strlit("");
            assert(""@ =~= Seq::<char>::empty());
        }
        let tool_kind = tool_kind_for_item_type(or_text(kind, ""));
        updates.push(SessionUpdate::ToolCall(start_tool(id, item, tool_kind, status)));
        updates.push(SessionUpdate::ToolCallUpdate(end_tool(id, item, None, status)));
    }
    updates
}

/// Whether an item is a tool call that is neither a command nor a change to files.
pub fn is_other_tool_call(kind: Option<&str>) -> (other: bool)
    ensures
        other == is_other_tool(opt_text(kind)),
{
    is_text(kind, "mcpToolCall") || is_text(kind, "dynamicToolCall") || is_text(
        kind,
        "collabAgentToolCall",
    ) || is_text(kind, "webSearch") || is_text(kind, "imageGeneration")
}

/// The session updates of an item of the history.
pub fn history_update_from_item(item: &Json) -> (updates: Vec<SessionUpdate>)
    ensures
        update_views(updates@) == item_history(item@),
{
    broadcast use update_views_push;

    let kind = item.text_at("type");
    if is_text(kind, "userMessage") {
        user_message_chunks(&item.items_at("content"))
    } else if is_text(kind, "agentMessage") {
        let mut updates = no_history();
        if let Some(text) = item.text_at("text") {
            updates.push(SessionUpdate::AgentMessageChunk(text.to_owned()));
        }
        updates
    } else if is_text(kind, "reasoning") {
        reasoning_history_updates(item)
    } else if is_text(kind, "commandExecution") || is_text(kind, "fileChange")
        || is_other_tool_call(kind) {
        tool_history_updates(item)
    } else {
        no_history()
    }
}

/// Adds the session updates of some items.
fn append_items(updates: &mut Vec<SessionUpdate>, items: &Vec<&Json>)
    ensures
        update_views(final(updates)@) == update_views(old(updates)@) + items_history(
            ref_views(items@),
        ),
{
    let ghost all = ref_views(items@);
    let ghost start = update_views(updates@);
    let mut i: usize = 0;
    proof {
        take_all(all);
        assert(start + items_history(all.take(0)) =~= start);
    }
    while i < items.len()
        invariant
            i <= items@.len(),
            all == ref_views(items@),
            update_views(updates@) == start + items_history(all.take(i as int)),
        decreases items@.len() - i,
    {
        proof {
            take_step(all, i as int);
        }
        let mut more = history_update_from_item(items[i]);
        let ghost before = updates@;
        let ghost added = more@;
        updates.append(&mut more);
        proof {
            assert(update_views(before + added) =~= update_views(before) + update_views(added));
            assert(update_views(updates@) =~= start + items_history(all.take(i + 1)));
        }
        i = i + 1;
    }
    proof {
        take_all(all);
    }
}

/// The session updates of a thread that was read.
pub fn history_updates_from_thread_read(response: &Json) -> (updates: Vec<SessionUpdate>)
    ensures
        update_views(updates@) == thread_history(response@),
{
    let mut updates = no_history();
    let turns = match response.get2("thread", "turns") {
        Some(turns) => match turns.as_array() {
            Some(turns) => turns,
            None => return updates,
        },
        None => return updates,
    };
    let ghost all = item_views(turns@);
    let mut i: usize = 0;
    proof {
        take_all(all);
    }
    while i < turns.len()
        invariant
            i <= turns@.len(),
            all == item_views(turns@),
            update_views(updates@) == turns_history(all.take(i as int)),
        decreases turns@.len() - i,
    {
        proof {
            take_step(all, i as int);
        }
        append_items(&mut updates, &turns[i].items_at("items"));
        i = i + 1;
    }
    proof {
        take_all(all);
    }
    updates
}

} // verus!
