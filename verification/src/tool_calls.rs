//! Tool calls as the editor sees them: what is told when the call of an item
//! starts, and what when it has ended.

use vstd::prelude::*;

use crate::changes::{changes_content, file_change_contents};
use crate::items::{
    collab_meta, collab_tool_call_meta, command_terminal_completion_meta, command_terminal_id,
    command_terminal_info_meta, completion_meta, output_of, terminal_info, terminal_of, title_of,
    tool_item_content, tool_title,
};
use crate::json::{fields, no_entries, with, Json, JsonView};
use crate::protocol::{
    content_views, content_views_push, text_content, unchanged, ContentView, ToolCall,
    ToolCallContent, ToolCallStatus, ToolCallUpdate, ToolCallUpdateView, ToolCallView, ToolKind,
};
use crate::text::opt_text;

verus! {

/// An output as the raw output of a tool call.
pub open spec fn raw_output(output: Seq<char>) -> JsonView {
    JsonView::Object(fields().push(("output"@, JsonView::Text(output))))
}

/// A command that starts: it is shown by its terminal.
pub open spec fn command_start(
    id: Seq<char>,
    item: JsonView,
    status: ToolCallStatus,
) -> ToolCallView {
    ToolCallView {
        id,
        title: title_of(item),
        kind: ToolKind::Execute,
        status,
        content: seq![ContentView::Terminal(terminal_of(id))],
        raw_input: Some(item),
        meta: Some(terminal_info(id, item)),
    }
}

/// A command that has ended: its terminal gets the rest of the output, and how it
/// ended.
pub open spec fn command_end(
    id: Seq<char>,
    item: JsonView,
    status: ToolCallStatus,
    rest: Option<Seq<char>>,
) -> ToolCallUpdateView {
    ToolCallUpdateView {
        kind: Some(ToolKind::Execute),
        status: Some(status),
        raw_output: match output_of(item) {
            Some(output) => Some(raw_output(output)),
            None => None,
        },
        meta: Some(completion_meta(id, item, rest)),
        ..unchanged(id)
    }
}

/// A change to files that starts.
pub open spec fn edit_start(id: Seq<char>, item: JsonView, status: ToolCallStatus) -> ToolCallView {
    ToolCallView {
        id,
        title: title_of(item),
        kind: ToolKind::Edit,
        status,
        content: Seq::empty(),
        raw_input: Some(item),
        meta: None,
    }
}

/// A change to files that has ended: it is shown by its diffs.
pub open spec fn edit_end(
    id: Seq<char>,
    item: JsonView,
    status: ToolCallStatus,
) -> ToolCallUpdateView {
    ToolCallUpdateView {
        kind: Some(ToolKind::Edit),
        status: Some(status),
        content: Some(changes_content(item.get("changes"@))),
        raw_output: Some(item),
        ..unchanged(id)
    }
}

/// Another tool that starts.
pub open spec fn tool_start(
    id: Seq<char>,
    item: JsonView,
    kind: ToolKind,
    status: ToolCallStatus,
) -> ToolCallView {
    ToolCallView {
        id,
        title: title_of(item),
        kind,
        status,
        content: Seq::empty(),
        raw_input: Some(item),
        meta: collab_meta(item),
    }
}

/// Another tool that has ended: it is shown by what it put out.
pub open spec fn tool_end(
    id: Seq<char>,
    item: JsonView,
    kind: Option<ToolKind>,
    status: ToolCallStatus,
) -> ToolCallUpdateView {
    ToolCallUpdateView {
        kind,
        status: Some(status),
        content: match output_of(item) {
            Some(output) => Some(seq![ContentView::Text(output)]),
            None => None,
        },
        meta: collab_meta(item),
        ..unchanged(id)
    }
}

/// An output as the raw output of a tool call.
pub fn raw_output_of(output: &str) -> (value: Json)
    ensures
        value@ == raw_output(output@),
{
    Json::object(with(no_entries(), "output", Json::text(output)))
}

/// No content.
fn no_content() -> (content: Vec<ToolCallContent>)
    ensures
        content_views(content@) == Seq::<ContentView>::empty(),
{
    let content: Vec<ToolCallContent> = Vec::new();
    assert(content_views(content@) =~= Seq::<ContentView>::empty());
    content
}

/// A command that starts.
pub fn start_command(id: &str, item: &Json, status: ToolCallStatus) -> (call: ToolCall)
    ensures
        call@ == command_start(id@, item@, status),
{
    broadcast use content_views_push;

    let mut content = no_content();
    content.push(ToolCallContent::Terminal(command_terminal_id(id)));
    ToolCall {
        id: id.to_owned(),
        title: tool_title(item),
        kind: ToolKind::Execute,
        status,
        content,
        raw_input: Some(item.copy()),
        meta: Some(command_terminal_info_meta(id, item)),
    }
}

/// A command that has ended.
pub fn end_command(
    id: &str,
    item: &Json,
    status: ToolCallStatus,
    rest: Option<&str>,
) -> (update: ToolCallUpdate)
    ensures
        update@ == command_end(id@, item@, status, opt_text(rest)),
{
    let output = match tool_item_content(item) {
        Some(output) => Some(raw_output_of(output.as_str())),
        None => None,
    };
    let mut update = ToolCallUpdate::new(id);
    update.kind = Some(ToolKind::Execute);
    update.status = Some(status);
    update.raw_output = output;
    update.meta = Some(command_terminal_completion_meta(id, item, rest));
    update
}

/// A change to files that starts.
pub fn start_edit(id: &str, item: &Json, status: ToolCallStatus) -> (call: ToolCall)
    ensures
        call@ == edit_start(id@, item@, status),
{
    ToolCall {
        id: id.to_owned(),
        title: tool_title(item),
        kind: ToolKind::Edit,
        status,
        content: no_content(),
        raw_input: Some(item.copy()),
        meta: None,
    }
}

/// A change to files that has ended.
pub fn end_edit(id: &str, item: &Json, status: ToolCallStatus) -> (update: ToolCallUpdate)
    ensures
        update@ == edit_end(id@, item@, status),
{
    let mut update = ToolCallUpdate::new(id);
    update.kind = Some(ToolKind::Edit);
    update.status = Some(status);
    update.content = Some(file_change_contents(item.get("changes")));
    update.raw_output = Some(item.copy());
    update
}

/// Another tool that starts.
pub fn start_tool(
    id: &str,
    item: &Json,
    kind: ToolKind,
    status: ToolCallStatus,
) -> (call: ToolCall)
    ensures
        call@ == tool_start(id@, item@, kind, status),
{
    ToolCall {
        id: id.to_owned(),
        title: tool_title(item),
        kind,
        status,
        content: no_content(),
        raw_input: Some(item.copy()),
        meta: collab_tool_call_meta(item),
    }
}

/// Another tool that has ended.
pub fn end_tool(
    id: &str,
    item: &Json,
    kind: Option<ToolKind>,
    status: ToolCallStatus,
) -> (update: ToolCallUpdate)
    ensures
        update@ == tool_end(id@, item@, kind, status),
{
    let mut update = ToolCallUpdate::new(id);
    update.kind = kind;
    update.status = Some(status);
    if let Some(output) = tool_item_content(item) {
        update.content = Some(text_content(output));
    }
    update.meta = collab_tool_call_meta(item);
    update
}

} // verus!
