//! What the bridge hands to the editor: session updates, tool calls, permission
//! options and plans, each with the view that contracts speak of.

use vstd::prelude::*;

use crate::json::{opt_json, Json, JsonView};
use crate::text::opt_string;

verus! {

/// Why a turn ended.
#[derive(Clone, Copy, Debug, PartialEq, Eq, Structural)]
pub enum StopReason {
    EndTurn,
    Cancelled,
}

/// What a tool does.
#[derive(Clone, Copy, Debug, PartialEq, Eq, Structural)]
pub enum ToolKind {
    Edit,
    Execute,
    Fetch,
    Other,
}

/// How far a tool call has come.
#[derive(Clone, Copy, Debug, PartialEq, Eq, Structural)]
pub enum ToolCallStatus {
    Pending,
    InProgress,
    Completed,
    Failed,
}

/// What choosing a permission option means.
#[derive(Clone, Copy, Debug, PartialEq, Eq, Structural)]
pub enum PermissionOptionKind {
    AllowOnce,
    AllowAlways,
    RejectOnce,
    RejectAlways,
}

/// How far a step of a plan has come.
#[derive(Clone, Copy, Debug, PartialEq, Eq, Structural)]
pub enum PlanEntryStatus {
    Pending,
    InProgress,
    Completed,
}

/// How much a step of a plan matters.
#[derive(Clone, Copy, Debug, PartialEq, Eq, Structural)]
pub enum PlanEntryPriority {
    High,
    Medium,
    Low,
}

/// A step of a plan.
#[derive(Debug, PartialEq)]
pub struct PlanEntry {
    pub content: String,
    pub priority: PlanEntryPriority,
    pub status: PlanEntryStatus,
}

/// What a step of a plan says.
pub struct PlanEntryView {
    pub content: Seq<char>,
    pub priority: PlanEntryPriority,
    pub status: PlanEntryStatus,
}

/// A choice that is put to the user.
#[derive(Debug, PartialEq)]
pub struct PermissionOption {
    pub id: String,
    pub name: String,
    pub kind: PermissionOptionKind,
}

/// What a choice says.
pub struct PermissionOptionView {
    pub id: Seq<char>,
    pub name: Seq<char>,
    pub kind: PermissionOptionKind,
}

/// A piece of what a tool call shows.
#[derive(Debug, PartialEq)]
pub enum ToolCallContent {
    Text(String),
    Diff { path: String, old_text: Option<String>, new_text: String },
    Terminal(String),
}

/// What a piece of a tool call says.
pub enum ContentView {
    Text(Seq<char>),
    Diff { path: Seq<char>, old_text: Option<Seq<char>>, new_text: Seq<char> },
    Terminal(Seq<char>),
}

/// A tool call that begins.
#[derive(Debug, PartialEq)]
pub struct ToolCall {
    pub id: String,
    pub title: String,
    pub kind: ToolKind,
    pub status: ToolCallStatus,
    pub content: Vec<ToolCallContent>,
    pub raw_input: Option<Json>,
    pub meta: Option<Json>,
}

/// What a tool call that begins says.
pub struct ToolCallView {
    pub id: Seq<char>,
    pub title: Seq<char>,
    pub kind: ToolKind,
    pub status: ToolCallStatus,
    pub content: Seq<ContentView>,
    pub raw_input: Option<JsonView>,
    pub meta: Option<JsonView>,
}

/// A change to a tool call; what is absent stays as it was.
#[derive(Debug, PartialEq)]
pub struct ToolCallUpdate {
    pub id: String,
    pub kind: Option<ToolKind>,
    pub status: Option<ToolCallStatus>,
    pub title: Option<String>,
    pub content: Option<Vec<ToolCallContent>>,
    pub raw_input: Option<Json>,
    pub raw_output: Option<Json>,
    pub meta: Option<Json>,
}

/// What a change to a tool call says.
pub struct ToolCallUpdateView {
    pub id: Seq<char>,
    pub kind: Option<ToolKind>,
    pub status: Option<ToolCallStatus>,
    pub title: Option<Seq<char>>,
    pub content: Option<Seq<ContentView>>,
    pub raw_input: Option<JsonView>,
    pub raw_output: Option<JsonView>,
    pub meta: Option<JsonView>,
}

/// The tokens that a session has used.
#[derive(Clone, Copy, Debug, PartialEq, Eq, Structural)]
pub struct TokenUsage {
    pub used: u64,
    pub size: u64,
    pub input_tokens: u64,
    pub output_tokens: u64,
    pub cache_read_input_tokens: u64,
    pub cache_creation_input_tokens: u64,
}

/// Something that happened in a session.
#[derive(Debug, PartialEq)]
pub enum SessionUpdate {
    UserMessageChunk(String),
    AgentMessageChunk(String),
    AgentThoughtChunk(String),
    ToolCall(ToolCall),
    ToolCallUpdate(ToolCallUpdate),
    Plan(Vec<PlanEntry>),
    SessionInfoUpdate { title: String },
    UsageUpdate(TokenUsage),
}

/// What a session update says.
pub enum UpdateView {
    UserMessageChunk(Seq<char>),
    AgentMessageChunk(Seq<char>),
    AgentThoughtChunk(Seq<char>),
    ToolCall(ToolCallView),
    ToolCallUpdate(ToolCallUpdateView),
    Plan(Seq<PlanEntryView>),
    SessionInfoUpdate { title: Seq<char> },
    UsageUpdate(TokenUsage),
}

impl View for PlanEntry {
    type V = PlanEntryView;

    open spec fn view(&self) -> PlanEntryView {
        PlanEntryView { content: self.content@, priority: self.priority, status: self.status }
    }
}

impl View for PermissionOption {
    type V = PermissionOptionView;

    open spec fn view(&self) -> PermissionOptionView {
        PermissionOptionView { id: self.id@, name: self.name@, kind: self.kind }
    }
}

impl View for ToolCallContent {
    type V = ContentView;

    open spec fn view(&self) -> ContentView {
        match *self {
            ToolCallContent::Text(text) => ContentView::Text(text@),
            ToolCallContent::Diff { path, old_text, new_text } => ContentView::Diff {
                path: path@,
                old_text: opt_string(old_text),
                new_text: new_text@,
            },
            ToolCallContent::Terminal(id) => ContentView::Terminal(id@),
        }
    }
}

/// What some pieces of a tool call say.
pub open spec fn content_views(items: Seq<ToolCallContent>) -> Seq<ContentView> {
    Seq::new(items.len(), |i: int| items[i]@)
}

/// What some steps of a plan say.
pub open spec fn plan_views(items: Seq<PlanEntry>) -> Seq<PlanEntryView> {
    Seq::new(items.len(), |i: int| items[i]@)
}

/// What some choices say.
pub open spec fn option_views(items: Seq<PermissionOption>) -> Seq<PermissionOptionView> {
    Seq::new(items.len(), |i: int| items[i]@)
}

impl View for ToolCall {
    type V = ToolCallView;

    open spec fn view(&self) -> ToolCallView {
        ToolCallView {
            id: self.id@,
            title: self.title@,
            kind: self.kind,
            status: self.status,
            content: content_views(self.content@),
            raw_input: opt_json(self.raw_input),
            meta: opt_json(self.meta),
        }
    }
}

impl View for ToolCallUpdate {
    type V = ToolCallUpdateView;

    open spec fn view(&self) -> ToolCallUpdateView {
        ToolCallUpdateView {
            id: self.id@,
            kind: self.kind,
            status: self.status,
            title: opt_string(self.title),
            content: match self.content {
                Some(content) => Some(content_views(content@)),
                None => None,
            },
            raw_input: opt_json(self.raw_input),
            raw_output: opt_json(self.raw_output),
            meta: opt_json(self.meta),
        }
    }
}

impl View for SessionUpdate {
    type V = UpdateView;

    open spec fn view(&self) -> UpdateView {
        match *self {
            SessionUpdate::UserMessageChunk(text) => UpdateView::UserMessageChunk(text@),
            SessionUpdate::AgentMessageChunk(text) => UpdateView::AgentMessageChunk(text@),
            SessionUpdate::AgentThoughtChunk(text) => UpdateView::AgentThoughtChunk(text@),
            SessionUpdate::ToolCall(call) => UpdateView::ToolCall(call@),
            SessionUpdate::ToolCallUpdate(update) => UpdateView::ToolCallUpdate(update@),
            SessionUpdate::Plan(entries) => UpdateView::Plan(plan_views(entries@)),
            SessionUpdate::SessionInfoUpdate { title } => UpdateView::SessionInfoUpdate {
                title: title@,
            },
            SessionUpdate::UsageUpdate(usage) => UpdateView::UsageUpdate(usage),
        }
    }
}

/// What some session updates say.
pub open spec fn update_views(items: Seq<SessionUpdate>) -> Seq<UpdateView> {
    Seq::new(items.len(), |i: int| items[i]@)
}

/// What some session updates say, each with the session that it is for.
pub open spec fn addressed_views(items: Seq<(String, SessionUpdate)>) -> Seq<
    (Seq<char>, UpdateView),
> {
    Seq::new(items.len(), |i: int| (items[i].0@, items[i].1@))
}

pub broadcast proof fn content_views_push(items: Seq<ToolCallContent>, item: ToolCallContent)
    ensures
        #[trigger] content_views(items.push(item)) == content_views(items).push(item@),
{
    assert(content_views(items.push(item)) =~= content_views(items).push(item@));
}

pub broadcast proof fn plan_views_push(items: Seq<PlanEntry>, item: PlanEntry)
    ensures
        #[trigger] plan_views(items.push(item)) == plan_views(items).push(item@),
{
    assert(plan_views(items.push(item)) =~= plan_views(items).push(item@));
}

pub broadcast proof fn option_views_push(items: Seq<PermissionOption>, item: PermissionOption)
    ensures
        #[trigger] option_views(items.push(item)) == option_views(items).push(item@),
{
    assert(option_views(items.push(item)) =~= option_views(items).push(item@));
}

pub broadcast proof fn update_views_push(items: Seq<SessionUpdate>, item: SessionUpdate)
    ensures
        #[trigger] update_views(items.push(item)) == update_views(items).push(item@),
{
    assert(update_views(items.push(item)) =~= update_views(items).push(item@));
}

pub broadcast proof fn addressed_views_push(
    items: Seq<(String, SessionUpdate)>,
    item: (String, SessionUpdate),
)
    ensures
        #[trigger] addressed_views(items.push(item)) == addressed_views(items).push(
            (item.0@, item.1@),
        ),
{
    assert(addressed_views(items.push(item)) =~= addressed_views(items).push((item.0@, item.1@)));
}

/// No updates.
pub open spec fn nothing() -> Seq<(Seq<char>, UpdateView)> {
    Seq::empty()
}

/// One update for a session.
pub open spec fn only(id: Seq<char>, update: UpdateView) -> Seq<(Seq<char>, UpdateView)> {
    seq![(id, update)]
}

/// No updates.
pub fn no_updates() -> (updates: Vec<(String, SessionUpdate)>)
    ensures
        addressed_views(updates@) == nothing(),
{
    let updates: Vec<(String, SessionUpdate)> = Vec::new();
    assert(addressed_views(updates@) =~= nothing());
    updates
}

/// One update for a session.
pub fn one_update(id: &str, update: SessionUpdate) -> (updates: Vec<(String, SessionUpdate)>)
    ensures
        addressed_views(updates@) == only(id@, update@),
{
    broadcast use addressed_views_push;

    let mut updates = no_updates();
    updates.push((id.to_owned(), update));
    updates
}

/// One piece of text.
pub fn text_content(text: String) -> (content: Vec<ToolCallContent>)
    ensures
        content_views(content@) == seq![ContentView::Text(text@)],
{
    broadcast use content_views_push;

    let mut content: Vec<ToolCallContent> = Vec::new();
    assert(content_views(content@) =~= Seq::empty());
    content.push(ToolCallContent::Text(text));
    content
}

/// A change to a tool call that changes nothing yet.
pub open spec fn unchanged(id: Seq<char>) -> ToolCallUpdateView {
    ToolCallUpdateView {
        id,
        kind: None,
        status: None,
        title: None,
        content: None,
        raw_input: None,
        raw_output: None,
        meta: None,
    }
}

impl ToolCallUpdate {
    /// A change to a tool call that changes nothing yet.
    pub fn new(id: &str) -> (update: ToolCallUpdate)
        ensures
            update@ == unchanged(id@),
            update.content is None,
    {
        ToolCallUpdate {
            id: id.to_owned(),
            kind: None,
            status: None,
            title: None,
            content: None,
            raw_input: None,
            raw_output: None,
            meta: None,
        }
    }
}

/// A permission option.
pub fn permission_option(id: &str, name: &str, kind: PermissionOptionKind) -> (option:
    PermissionOption)
    ensures
        option@ == (PermissionOptionView { id: id@, name: name@, kind }),
{
    PermissionOption { id: id.to_owned(), name: name.to_owned(), kind }
}

} // verus!
