//! The terminals that session updates tell of: those that are to be created, and what
//! happens in them.

use vstd::prelude::*;

use crate::json::{opt_json, opt_view, Json, JsonView};
use crate::protocol::{SessionUpdate, UpdateView};
use crate::text::{opt_string, owned};

verus! {

/// A terminal that is to be created.
#[derive(Debug, PartialEq, Eq)]
pub struct TerminalInfo {
    pub id: String,
    pub label: String,
    pub cwd: Option<String>,
}

/// What is said of a terminal that is to be created.
pub struct TerminalInfoView {
    pub id: Seq<char>,
    pub label: Seq<char>,
    pub cwd: Option<Seq<char>>,
}

impl View for TerminalInfo {
    type V = TerminalInfoView;

    open spec fn view(&self) -> TerminalInfoView {
        TerminalInfoView { id: self.id@, label: self.label@, cwd: opt_string(self.cwd) }
    }
}

/// Something that happens in a terminal.
#[derive(Debug, PartialEq, Eq)]
pub enum TerminalEvent {
    Output { terminal: String, data: String },
    Exit { terminal: String, exit_code: Option<u32>, signal: Option<String> },
}

/// What happens in a terminal, as contracts speak of it.
pub enum TerminalEventView {
    Output { terminal: Seq<char>, data: Seq<char> },
    Exit { terminal: Seq<char>, exit_code: Option<u32>, signal: Option<Seq<char>> },
}

impl View for TerminalEvent {
    type V = TerminalEventView;

    open spec fn view(&self) -> TerminalEventView {
        match *self {
            TerminalEvent::Output { terminal, data } => TerminalEventView::Output {
                terminal: terminal@,
                data: data@,
            },
            TerminalEvent::Exit { terminal, exit_code, signal } => TerminalEventView::Exit {
                terminal: terminal@,
                exit_code,
                signal: opt_string(signal),
            },
        }
    }
}

/// What some events say.
pub open spec fn event_views(events: Seq<TerminalEvent>) -> Seq<TerminalEventView> {
    Seq::new(events.len(), |i: int| events[i]@)
}

/// What is told under a key beside an update.
pub open spec fn told(meta: Option<JsonView>, key: Seq<char>) -> Option<JsonView> {
    match meta {
        Some(meta) => meta.get(key),
        None => None,
    }
}

/// The terminal that an update asks for: one that a tool call tells of.
pub open spec fn terminal_in(update: UpdateView) -> Option<TerminalInfoView> {
    match update {
        UpdateView::ToolCall(call) => match told(call.meta, "terminal_info"@) {
            Some(info) => match info.text_at("terminal_id"@) {
                Some(id) => Some(
                    TerminalInfoView { id, label: call.title, cwd: info.text_at("cwd"@) },
                ),
                None => None,
            },
            None => None,
        },
        _ => None,
    }
}

/// The output that is told of.
pub open spec fn output_in(meta: Option<JsonView>) -> Seq<TerminalEventView> {
    match told(meta, "terminal_output"@) {
        Some(output) => match (output.text_at("terminal_id"@), output.text_at("data"@)) {
            (Some(terminal), Some(data)) => seq![TerminalEventView::Output { terminal, data }],
            _ => Seq::empty(),
        },
        None => Seq::empty(),
    }
}

/// The end that is told of. Of an exit code that is larger than a `u32`, the low bits
/// count.
pub open spec fn exit_in(meta: Option<JsonView>) -> Seq<TerminalEventView> {
    match told(meta, "terminal_exit"@) {
        Some(exit) => match exit.text_at("terminal_id"@) {
            Some(terminal) => seq![
                TerminalEventView::Exit {
                    terminal,
                    exit_code: match exit.u64_at("exit_code"@) {
                        Some(code) => Some(code as u32),
                        None => None,
                    },
                    signal: exit.text_at("signal"@),
                },
            ],
            None => Seq::empty(),
        },
        None => Seq::empty(),
    }
}

/// What an update tells of terminals: output first, and then the end.
pub open spec fn events_in(update: UpdateView) -> Seq<TerminalEventView> {
    match update {
        UpdateView::ToolCallUpdate(update) => output_in(update.meta) + exit_in(update.meta),
        _ => Seq::empty(),
    }
}

/// What is told under a key beside an update.
fn read_told<'a>(meta: &'a Option<Json>, key: &str) -> (value: Option<&'a Json>)
    ensures
        opt_view(value) == told(opt_json(*meta), key@),
{
    match meta {
        Some(meta) => meta.get(key),
        None => None,
    }
}

/// The terminal that an update asks for.
pub fn native_terminal_info_from_update(update: &SessionUpdate) -> (terminal: Option<TerminalInfo>)
    ensures
        match terminal {
            Some(terminal) => terminal_in(update@) == Some(terminal@),
            None => terminal_in(update@) is None,
        },
{
    let call = match update {
        SessionUpdate::ToolCall(call) => call,
        _ => return None,
    };
    let info = match read_told(&call.meta, "terminal_info") {
        Some(info) => info,
        None => return None,
    };
    match info.text_at("terminal_id") {
        Some(id) => Some(
            TerminalInfo {
                id: id.to_owned(),
                label: call.title.clone(),
                cwd: owned(info.text_at("cwd")),
            },
        ),
        None => None,
    }
}

/// What an update tells of terminals.
pub fn stream_native_terminal_update(update: &SessionUpdate) -> (events: Vec<TerminalEvent>)
    ensures
        event_views(events@) == events_in(update@),
{
    let mut events: Vec<TerminalEvent> = Vec::new();
    assert(event_views(events@) =~= Seq::empty());
    let call = match update {
        SessionUpdate::ToolCallUpdate(call) => call,
        _ => return events,
    };
    if let Some(output) = read_told(&call.meta, "terminal_output") {
        if let (Some(terminal), Some(data)) = (
            output.text_at("terminal_id"),
            output.text_at("data"),
        ) {
            events.push(
                TerminalEvent::Output { terminal: terminal.to_owned(), data: data.to_owned() },
            );
        }
    }
    assert(event_views(events@) =~= output_in(call@.meta));
    if let Some(exit) = read_told(&call.meta, "terminal_exit") {
        if let Some(terminal) = exit.text_at("terminal_id") {
            let exit_code = match exit.u64_at("exit_code") {
                Some(code) => Some(
                    #[verifier::truncate]
                    (code as u32),
                ),
                None => None,
            };
            events.push(
                TerminalEvent::Exit {
                    terminal: terminal.to_owned(),
                    exit_code,
                    signal: owned(exit.text_at("signal")),
                },
            );
        }
    }
    assert(event_views(events@) =~= events_in(update@));
    events
}

} // verus!
