//! What is shown of commands: the terminal that a command runs in, and what that terminal
//! is told while the command runs and when it ends.

use vstd::prelude::*;

use crate::json::{found_in_more, JsonView};
use crate::laws::questions::object_of;
use crate::laws::words::{item_types, notification_names, terminal_keys};
use crate::protocol::ContentView;

use crate::terminals::{events_in, terminal_in, TerminalEventView};
use crate::updates::{notification_updates, outputs_after};

verus! {

/// Whether a notification is about an item that is a command.
pub open spec fn is_about_command(
    params: JsonView,
    thread: Seq<char>,
    item: JsonView,
    id: Seq<char>,
) -> bool {
    &&& params.text_at("threadId"@) == Some(thread)
    &&& params.get("item"@) == Some(item)
    &&& item.text_at("type"@) == Some("commandExecution"@)
    &&& item.text_at("id"@) == Some(id)
}

/// The terminal that the start of a command opens.
pub open spec fn opened(params: JsonView, outputs: Map<Seq<char>, Seq<char>>) -> Seq<char> {
    terminal_in(notification_updates("item/started"@, params, outputs)[0].1)->0.id
}

/// The directory that an item names.
pub open spec fn directory_of(item: JsonView) -> Option<JsonView> {
    match (item.get("cwd"@), item.get("cd"@)) {
        (Some(cwd), _) => Some(cwd),
        (None, Some(cwd)) => Some(cwd),
        (None, None) => item.get("workingDirectory"@),
    }
}

/// The start of a command opens a terminal under the title of the command, in the directory
/// that the command runs in, and shows that terminal.
pub proof fn commands_open_their_terminal(
    params: JsonView,
    thread: Seq<char>,
    item: JsonView,
    id: Seq<char>,
    outputs: Map<Seq<char>, Seq<char>>,
)
    requires
        is_about_command(params, thread, item, id),
    ensures
        ({
            let start = notification_updates("item/started"@, params, outputs)[0].1;
            let opens = terminal_in(start);
            &&& start is ToolCall
            &&& opens is Some
            &&& opens->0.label == start->ToolCall_0.title
            &&& opens->0.cwd == (match directory_of(item) {
                Some(JsonView::Text(cwd)) => Some(cwd),
                _ => None,
            })
            &&& start->ToolCall_0.content == seq![ContentView::Terminal(opens->0.id)]
            &&& events_in(start).len() == 0
        }),
{
    broadcast use found_in_more;

    notification_names();
    item_types();
    terminal_keys();
}

/// The terminals of two commands differ, and a command always has the same one.
pub proof fn terminals_are_told_apart(
    params: JsonView,
    thread: Seq<char>,
    item: JsonView,
    id: Seq<char>,
    outputs: Map<Seq<char>, Seq<char>>,
    others: JsonView,
    other_thread: Seq<char>,
    other: JsonView,
    other_id: Seq<char>,
    other_outputs: Map<Seq<char>, Seq<char>>,
)
    requires
        is_about_command(params, thread, item, id),
        is_about_command(others, other_thread, other, other_id),
    ensures
        opened(params, outputs) == opened(others, other_outputs) <==> id == other_id,
{
    broadcast use found_in_more;

    notification_names();
    item_types();
    terminal_keys();
    let head = "codex-native-command:"@;
    assert((head + id).skip(head.len() as int) =~= id);
    assert((head + other_id).skip(head.len() as int) =~= other_id);
}

/// A piece of output goes to the terminal of its command as it is, and all that was gathered
/// so far becomes the output of the call.
pub proof fn output_goes_to_the_terminal(
    params: JsonView,
    thread: Seq<char>,
    item: JsonView,
    id: Seq<char>,
    outputs: Map<Seq<char>, Seq<char>>,
    piece: JsonView,
    delta: Seq<char>,
)
    requires
        is_about_command(params, thread, item, id),
        piece.text_at("threadId"@) == Some(thread),
        piece.text_at("itemId"@) == Some(id),
        piece.text_at("delta"@) == Some(delta),
    ensures
        ({
            let method = "item/commandExecution/outputDelta"@;
            let updates = notification_updates(method, piece, outputs);
            let update = updates[0].1->ToolCallUpdate_0;
            &&& updates.len() == 1 && updates[0].0 == thread
            &&& updates[0].1 is ToolCallUpdate
            &&& update.id == id
            &&& update.status is None && update.content is None && update.title is None
            &&& update.raw_output == Some(
                object_of("output"@, JsonView::Text(outputs_after(method, piece, outputs)[id])),
            )
            &&& events_in(updates[0].1) == seq![
                TerminalEventView::Output { terminal: opened(params, outputs), data: delta },
            ]
        }),
{
    broadcast use found_in_more;

    notification_names();
    item_types();
    terminal_keys();
    let method = "item/commandExecution/outputDelta"@;
    let update = notification_updates(method, piece, outputs)[0].1;
    assert(events_in(update) =~= seq![
        TerminalEventView::Output { terminal: opened(params, outputs), data: delta },
    ]);
}

/// What the user types goes to the terminal of the command on a line of its own.
pub proof fn typing_goes_to_the_terminal(
    params: JsonView,
    thread: Seq<char>,
    item: JsonView,
    id: Seq<char>,
    outputs: Map<Seq<char>, Seq<char>>,
    typed: JsonView,
    stdin: Seq<char>,
)
    requires
        is_about_command(params, thread, item, id),
        typed.text_at("threadId"@) == Some(thread),
        typed.text_at("itemId"@) == Some(id),
        typed.text_at("stdin"@) == Some(stdin),
    ensures
        ({
            let updates = notification_updates(
                "item/commandExecution/terminalInteraction"@,
                typed,
                outputs,
            );
            &&& updates.len() == 1 && updates[0].0 == thread
            &&& updates[0].1 is ToolCallUpdate
            &&& updates[0].1->ToolCallUpdate_0.id == id
            &&& updates[0].1->ToolCallUpdate_0.raw_output is None
            &&& updates[0].1->ToolCallUpdate_0.status is None
            &&& events_in(updates[0].1) == seq![
                TerminalEventView::Output {
                    terminal: opened(params, outputs),
                    data: "\n"@ + stdin + "\n"@,
                },
            ]
        }),
{
    broadcast use found_in_more;

    notification_names();
    item_types();
    terminal_keys();
    let update = notification_updates(
        "item/commandExecution/terminalInteraction"@,
        typed,
        outputs,
    )[0].1;
    assert(events_in(update) =~= seq![
        TerminalEventView::Output {
            terminal: opened(params, outputs),
            data: "\n"@ + stdin + "\n"@,
        },
    ]);
}

/// The exit that an item tells of.
pub open spec fn exit_of(item: JsonView, terminal: Seq<char>) -> TerminalEventView {
    TerminalEventView::Exit {
        terminal,
        exit_code: match item.get("exitCode"@) {
            Some(code) => match code.as_u64() {
                Some(code) => Some(code as u32),
                None => None,
            },
            None => match item.u64_at("exit_code"@) {
                Some(code) => Some(code as u32),
                None => None,
            },
        },
        signal: item.text_at("signal"@),
    }
}

/// The end of a command gives its terminal what it has not got yet of the output, if there is
/// any, and then the exit; so that with what was streamed before the terminal has got the
/// whole output, once.
pub proof fn ends_complete_the_terminal(
    params: JsonView,
    thread: Seq<char>,
    item: JsonView,
    id: Seq<char>,
    outputs: Map<Seq<char>, Seq<char>>,
    streamed: Seq<char>,
    rest: Seq<char>,
)
    requires
        is_about_command(params, thread, item, id),
        outputs.contains_key(id) ==> outputs[id] == streamed,
        !outputs.contains_key(id) ==> streamed.len() == 0,
        item.text_at("aggregatedOutput"@) == Some(streamed + rest),
        streamed.len() + rest.len() > 0,
    ensures
        ({
            let end = notification_updates("item/completed"@, params, outputs)[0].1;
            let terminal = opened(params, outputs);
            let exit = exit_of(item, terminal);
            &&& end->ToolCallUpdate_0.content is None
            &&& end->ToolCallUpdate_0.raw_output == Some(
                object_of("output"@, JsonView::Text(streamed + rest)),
            )
            &&& rest.len() > 0 ==> events_in(end) == seq![
                TerminalEventView::Output { terminal, data: rest },
            ].push(exit)
            &&& rest.len() == 0 ==> events_in(end) == seq![exit]
        }),
{
    broadcast use found_in_more;

    notification_names();
    item_types();
    terminal_keys();
    let whole = streamed + rest;
    assert(whole.take(streamed.len() as int) =~= streamed);
    assert(whole.skip(streamed.len() as int) =~= rest);
    if !outputs.contains_key(id) {
        assert(streamed =~= Seq::<char>::empty());
    }
    let end = notification_updates("item/completed"@, params, outputs)[0].1;
    let terminal = opened(params, outputs);
    let exit = exit_of(item, terminal);
    if rest.len() > 0 {
        assert(events_in(end) =~= seq![TerminalEventView::Output { terminal, data: rest }].push(
            exit,
        ));
    } else {
        assert(events_in(end) =~= seq![exit]);
    }
}

/// A command whose output does not go on from what was streamed gives its terminal nothing
/// but the exit.
pub proof fn other_output_is_not_repeated(
    params: JsonView,
    thread: Seq<char>,
    item: JsonView,
    id: Seq<char>,
    outputs: Map<Seq<char>, Seq<char>>,
    output: Seq<char>,
)
    requires
        is_about_command(params, thread, item, id),
        outputs.contains_key(id),
        item.text_at("aggregatedOutput"@) == Some(output),
        output.len() > 0,
        output.len() < outputs[id].len() || output.take(outputs[id].len() as int) != outputs[id],
    ensures
        events_in(notification_updates("item/completed"@, params, outputs)[0].1) == seq![
            exit_of(item, opened(params, outputs)),
        ],
{
    broadcast use found_in_more;

    notification_names();
    item_types();
    terminal_keys();
    let end = notification_updates("item/completed"@, params, outputs)[0].1;
    assert(events_in(end) =~= seq![exit_of(item, opened(params, outputs))]);
}

/// A command that ends without output and without an error tells its terminal of its exit and
/// gives no output.
pub proof fn silent_commands_only_exit(
    params: JsonView,
    thread: Seq<char>,
    item: JsonView,
    id: Seq<char>,
    outputs: Map<Seq<char>, Seq<char>>,
)
    requires
        is_about_command(params, thread, item, id),
        item.get("aggregatedOutput"@) is None,
        item.get("error"@) is None,
    ensures
        ({
            let end = notification_updates("item/completed"@, params, outputs)[0].1;
            &&& end->ToolCallUpdate_0.raw_output is None
            &&& events_in(end) == seq![exit_of(item, opened(params, outputs))]
        }),
{
    broadcast use found_in_more;

    notification_names();
    item_types();
    terminal_keys();
    let end = notification_updates("item/completed"@, params, outputs)[0].1;
    assert(events_in(end) =~= seq![exit_of(item, opened(params, outputs))]);
}

/// Nothing but a command has a terminal.
pub proof fn only_commands_have_terminals(
    params: JsonView,
    thread: Seq<char>,
    item: JsonView,
    outputs: Map<Seq<char>, Seq<char>>,
    i: int,
)
    requires
        params.text_at("threadId"@) == Some(thread),
        params.get("item"@) == Some(item),
        item.text_at("type"@) == Some("fileChange"@) || item.text_at("type"@) == Some(
            "mcpToolCall"@,
        ) || item.text_at("type"@) == Some("dynamicToolCall"@) || item.text_at("type"@) == Some(
            "webSearch"@,
        ) || item.text_at("type"@) == Some("imageGeneration"@),
        0 <= i,
    ensures
        ({
            let starts = notification_updates("item/started"@, params, outputs);
            let ends = notification_updates("item/completed"@, params, outputs);
            &&& i < starts.len() ==> terminal_in(starts[i].1) is None
            &&& i < ends.len() ==> events_in(ends[i].1).len() == 0
        }),
{
    notification_names();
    item_types();
}

} // verus!
