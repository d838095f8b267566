//! Requests of MCP servers for input: a page to open, or a form with one field that
//! can be answered by a choice.

use vstd::prelude::*;

use crate::approvals::{
    choice, no_options, pending_call, push_option, request_view, required, required_string,
    waiting_call, PermissionRequest, PermissionRequestView,
};
use crate::items::is_text;
use crate::json::{
    entry_views, fields, item_views, items_in, no_entries, read_text, text_in, with, Json, JsonView,
};
use crate::json_text::{inline_text, value_to_inline_string};
use crate::protocol::{
    option_views, PermissionOptionKind, PermissionOptionView, ToolCallStatus, ToolKind,
};
use crate::table::Table;
use crate::text::{
    concat2, concat4, decimal, decimal_reads_back, decimal_text, first_line, join, joined,
    opt_string, opt_text, or_text, push_line, same_text, take_all, take_step, text_or, texts,
};

verus! {

// ---------------------------------------------------------------------------
// Choices
// ---------------------------------------------------------------------------

/// What a choice does.
#[derive(Debug, PartialEq)]
pub enum McpElicitationChoiceAction {
    OpenUrl(String),
    FormValue { property: String, value: Json },
    Decline,
    Cancel,
}

/// A choice that answers a request for input.
#[derive(Debug, PartialEq)]
pub struct McpElicitationChoice {
    pub option_id: String,
    pub label: String,
    pub kind: PermissionOptionKind,
    pub action: McpElicitationChoiceAction,
}

/// What a choice does, as contracts speak of it.
pub enum ChoiceActionView {
    OpenUrl(Seq<char>),
    FormValue { property: Seq<char>, value: JsonView },
    Decline,
    Cancel,
}

/// What a choice says.
pub struct ChoiceView {
    pub option_id: Seq<char>,
    pub label: Seq<char>,
    pub kind: PermissionOptionKind,
    pub action: ChoiceActionView,
}

impl View for McpElicitationChoiceAction {
    type V = ChoiceActionView;

    open spec fn view(&self) -> ChoiceActionView {
        match *self {
            McpElicitationChoiceAction::OpenUrl(url) => ChoiceActionView::OpenUrl(url@),
            McpElicitationChoiceAction::FormValue { property, value } =>
                ChoiceActionView::FormValue { property: property@, value: value@ },
            McpElicitationChoiceAction::Decline => ChoiceActionView::Decline,
            McpElicitationChoiceAction::Cancel => ChoiceActionView::Cancel,
        }
    }
}

impl View for McpElicitationChoice {
    type V = ChoiceView;

    open spec fn view(&self) -> ChoiceView {
        ChoiceView {
            option_id: self.option_id@,
            label: self.label@,
            kind: self.kind,
            action: self.action@,
        }
    }
}

/// What some choices say.
pub open spec fn choice_views(choices: Seq<McpElicitationChoice>) -> Seq<ChoiceView> {
    Seq::new(choices.len(), |i: int| choices[i]@)
}

/// The choice to decline.
pub open spec fn decline_choice() -> ChoiceView {
    ChoiceView {
        option_id: "decline"@,
        label: "Decline"@,
        kind: PermissionOptionKind::RejectOnce,
        action: ChoiceActionView::Decline,
    }
}

/// The choice to cancel.
pub open spec fn cancel_choice() -> ChoiceView {
    ChoiceView {
        option_id: "cancel"@,
        label: "Cancel"@,
        kind: PermissionOptionKind::RejectOnce,
        action: ChoiceActionView::Cancel,
    }
}

/// The choice to open a page.
pub open spec fn open_choice(url: Seq<char>) -> ChoiceView {
    ChoiceView {
        option_id: "open"@,
        label: "Open"@,
        kind: PermissionOptionKind::AllowOnce,
        action: ChoiceActionView::OpenUrl(url),
    }
}

/// The choice of a value for a field.
pub open spec fn form_choice(
    property: Seq<char>,
    key: Seq<char>,
    label: Seq<char>,
    value: JsonView,
) -> ChoiceView {
    ChoiceView {
        option_id: "form:"@ + property + ":"@ + key,
        label,
        kind: PermissionOptionKind::AllowOnce,
        action: ChoiceActionView::FormValue { property, value },
    }
}

/// The field of a form that has one field, with what is said of it.
pub open spec fn only_field(params: JsonView) -> Option<(Seq<char>, JsonView)> {
    if params.text_at("mode"@) != Some("form"@) {
        None
    } else {
        match params.get2("requestedSchema"@, "properties"@) {
            Some(JsonView::Object(entries)) => if entries.len() == 1 {
                Some(entries[0])
            } else {
                None
            },
            _ => None,
        }
    }
}

/// The alternatives of a field that are described one by one.
pub open spec fn alternatives(schema: JsonView) -> Seq<JsonView> {
    items_in(schema.get_either("anyOf"@, "oneOf"@))
}

/// The values that a field can have: those that are listed, or else its alternatives.
pub open spec fn field_values(schema: JsonView) -> Seq<JsonView> {
    match schema.array_at("enum"@) {
        Some(values) => values,
        None => alternatives(schema),
    }
}

/// The value that an entry stands for: the one that it fixes, the first that it lists,
/// or else itself.
pub open spec fn fixed_value(entry: JsonView) -> JsonView {
    let listed = entry.items_at("enum"@);
    match entry.get("const"@) {
        Some(value) => value,
        None => if listed.len() > 0 {
            listed[0]
        } else {
            entry
        },
    }
}

/// How the value at an index is shown: by the title of its alternative, or as it is.
pub open spec fn value_label(schema: JsonView, index: int, value: JsonView) -> Seq<char> {
    let entries = alternatives(schema);
    let title = if 0 <= index < entries.len() {
        entries[index].text_at("title"@)
    } else {
        None
    };
    text_or(title, inline_text(value))
}

/// The choices of some values for a field.
pub open spec fn value_choices(
    property: Seq<char>,
    schema: JsonView,
    values: Seq<JsonView>,
) -> Seq<ChoiceView> {
    Seq::new(
        values.len(),
        |i: int|
            form_choice(
                property,
                decimal(i as nat),
                value_label(schema, i, fixed_value(values[i])),
                fixed_value(values[i]),
            ),
    )
}

/// The choices of a form that has one field.
pub open spec fn form_choices(params: JsonView) -> Seq<ChoiceView> {
    match only_field(params) {
        Some((property, schema)) => if schema.text_at("type"@) == Some("boolean"@) {
            seq![form_choice(property, "true"@, "true"@, JsonView::Bool(true))].push(
                form_choice(property, "false"@, "false"@, JsonView::Bool(false)),
            )
        } else {
            value_choices(property, schema, field_values(schema))
        },
        None => Seq::empty(),
    }
}

/// The choices that answer a request for input.
pub open spec fn elicitation_choices(params: JsonView) -> Seq<ChoiceView> {
    let offered = if params.text_at("mode"@) == Some("url"@) {
        seq![open_choice(text_or(params.text_at("url"@), Seq::empty()))]
    } else {
        form_choices(params)
    };
    offered.push(decline_choice()).push(cancel_choice())
}

proof fn choice_views_push(choices: Seq<McpElicitationChoice>, choice: McpElicitationChoice)
    ensures
        choice_views(choices.push(choice)) == choice_views(choices).push(choice@),
{
    assert(choice_views(choices.push(choice)) =~= choice_views(choices).push(choice@));
}

/// The field of a form that has one field.
pub fn single_mcp_form_property<'a>(params: &'a Json) -> (field: Option<(&'a str, &'a Json)>)
    ensures
        match field {
            Some((name, schema)) => only_field(params@) == Some((name@, schema@)),
            None => only_field(params@) is None,
        },
{
    if !is_text(params.text_at("mode"), "form") {
        return None;
    }
    let properties = match params.get2("requestedSchema", "properties") {
        Some(properties) => properties,
        None => return None,
    };
    let entries = match properties.as_object() {
        Some(entries) => entries,
        None => return None,
    };
    if entries.len() != 1 {
        return None;
    }
    Some((entries[0].0.as_str(), &entries[0].1))
}

/// The choice of a value for a field.
fn make_form_choice(property: &str, key: &str, label: String, value: Json) -> (made:
    McpElicitationChoice)
    ensures
        made@ == form_choice(property@, key@, label@, value@),
{
    McpElicitationChoice {
        option_id: concat4("form:", property, ":", key),
        label,
        kind: PermissionOptionKind::AllowOnce,
        action: McpElicitationChoiceAction::FormValue { property: property.to_owned(), value },
    }
}

/// The value that an entry stands for.
fn read_fixed_value(entry: &Json) -> (value: &Json)
    ensures
        value@ == fixed_value(entry@),
{
    match entry.get("const") {
        Some(value) => value,
        None => match entry.array_at("enum") {
            Some(listed) => if listed.len() > 0 {
                &listed[0]
            } else {
                entry
            },
            None => entry,
        },
    }
}

/// How the value at an index is shown.
fn read_value_label(schema: &Json, index: usize, value: &Json) -> (label: String)
    ensures
        label@ == value_label(schema@, index as int, value@),
{
    let title = match schema.get_either("anyOf", "oneOf") {
        Some(entries) => match entries.as_array() {
            Some(entries) => if index < entries.len() {
                entries[index].text_at("title")
            } else {
                None
            },
            None => None,
        },
        None => None,
    };
    match title {
        Some(title) => title.to_owned(),
        None => value_to_inline_string(value),
    }
}

/// The choices of a form that has one field.
pub fn mcp_simple_form_choices(params: &Json) -> (choices: Vec<McpElicitationChoice>)
    ensures
        choice_views(choices@) == form_choices(params@),
{
    let mut choices: Vec<McpElicitationChoice> = Vec::new();
    assert(choice_views(choices@) =~= Seq::empty());
    let (property, schema) = match single_mcp_form_property(params) {
        Some(field) => field,
        None => return choices,
    };
    if is_text(schema.text_at("type"), "boolean") {
        choices.push(make_form_choice(property, "true", "true".to_owned(), Json::Bool(true)));
        choices.push(make_form_choice(property, "false", "false".to_owned(), Json::Bool(false)));
        assert(choice_views(choices@) =~= form_choices(params@));
        return choices;
    }
    let values = match schema.array_at("enum") {
        Some(values) => Some(values),
        None => match schema.get_either("anyOf", "oneOf") {
            Some(entries) => entries.as_array(),
            None => None,
        },
    };
    let values = match values {
        Some(values) => values,
        None => {
            assert(choice_views(choices@) =~= form_choices(params@));
            return choices;
        },
    };
    let ghost all = item_views(values@);
    let mut i: usize = 0;
    while i < values.len()
        invariant
            i <= values@.len(),
            all == item_views(values@),
            choice_views(choices@) == value_choices(property@, schema@, all).take(i as int),
        decreases values@.len() - i,
    {
        proof {
            take_step(value_choices(property@, schema@, all), i as int);
        }
        let value = read_fixed_value(&values[i]);
        let label = read_value_label(schema, i, value);
        let made = make_form_choice(
            property,
            decimal_text(i as u64).as_str(),
            label,
            value.copy(),
        );
        proof {
            choice_views_push(choices@, made);
        }
        choices.push(made);
        i = i + 1;
    }
    proof {
        take_all(value_choices(property@, schema@, all));
    }
    choices
}

/// The choices that answer a request for input.
pub fn mcp_elicitation_choices(params: &Json) -> (choices: Vec<McpElicitationChoice>)
    ensures
        choice_views(choices@) == elicitation_choices(params@),
{
    let mut choices: Vec<McpElicitationChoice> = if is_text(params.text_at("mode"), "url") {
        let mut choices: Vec<McpElicitationChoice> = Vec::new();
        proof {
            reveal_strlit("");
            assert(""@ =~= Seq::<char>::empty());
        }
        let open = McpElicitationChoice {
            option_id: "open".to_owned(),
            label: "Open".to_owned(),
            kind: PermissionOptionKind::AllowOnce,
            action: McpElicitationChoiceAction::OpenUrl(
                or_text(params.text_at("url"), "").to_owned(),
            ),
        };
        choices.push(open);
        assert(choice_views(choices@) =~= seq![open@]);
        choices
    } else {
        mcp_simple_form_choices(params)
    };
    let decline = McpElicitationChoice {
        option_id: "decline".to_owned(),
        label: "Decline".to_owned(),
        kind: PermissionOptionKind::RejectOnce,
        action: McpElicitationChoiceAction::Decline,
    };
    let cancel = McpElicitationChoice {
        option_id: "cancel".to_owned(),
        label: "Cancel".to_owned(),
        kind: PermissionOptionKind::RejectOnce,
        action: McpElicitationChoiceAction::Cancel,
    };
    proof {
        choice_views_push(choices@, decline);
        choice_views_push(choices@.push(decline), cancel);
    }
    choices.push(decline);
    choices.push(cancel);
    choices
}

// ---------------------------------------------------------------------------
// What is shown
// ---------------------------------------------------------------------------

/// The names of some fields.
pub open spec fn field_names(entries: Seq<(Seq<char>, JsonView)>) -> Seq<Seq<char>> {
    Seq::new(entries.len(), |i: int| entries[i].0)
}

/// The names of the fields of a form.
pub open spec fn form_fields(params: JsonView) -> Seq<Seq<char>> {
    match params.get2("requestedSchema"@, "properties"@) {
        Some(JsonView::Object(entries)) => field_names(entries),
        _ => Seq::empty(),
    }
}

/// The lines on a form: its fields, and that it cannot be answered where it cannot.
pub open spec fn form_lines(params: JsonView) -> Seq<Seq<char>> {
    if params.text_at("mode"@) != Some("form"@) {
        Seq::empty()
    } else {
        let names = form_fields(params);
        let listed = if names.len() == 0 {
            Seq::empty()
        } else {
            seq!["Fields: "@ + joined(names, ", "@)]
        };
        if form_choices(params).len() == 0 {
            listed.push(
                "This form schema cannot be collected natively yet; decline or cancel to continue."@,
            )
        } else {
            listed
        }
    }
}

/// What is shown of a request for input.
pub open spec fn elicitation_text(params: JsonView) -> Seq<char> {
    let head = seq![
        text_or(params.text_at("serverName"@), "MCP server"@) + " requested input."@,
    ].push(text_or(params.text_at("message"@), "MCP server requested input."@));
    let page = match params.text_at("url"@) {
        Some(url) => head.push("URL: "@ + url),
        None => head,
    };
    joined(page + form_lines(params), "\n"@)
}

/// The tool call that stands for a request for input.
pub open spec fn elicitation_id(params: JsonView) -> Seq<char> {
    "mcp-elicitation:"@ + text_or(params.text_at("serverName"@), "mcp"@) + ":"@ + text_or(
        text_in(params.get_either("elicitationId"@, "turnId"@)),
        "request"@,
    )
}

/// The names of the fields of a form.
fn read_form_fields(params: &Json) -> (names: Vec<String>)
    ensures
        texts(names@) == form_fields(params@),
{
    let mut names: Vec<String> = Vec::new();
    assert(texts(names@) =~= Seq::<Seq<char>>::empty());
    let entries = match params.get2("requestedSchema", "properties") {
        Some(properties) => match properties.as_object() {
            Some(entries) => entries,
            None => return names,
        },
        None => return names,
    };
    let ghost all = field_names(entry_views(entries@));
    let mut i: usize = 0;
    while i < entries.len()
        invariant
            i <= entries@.len(),
            all == field_names(entry_views(entries@)),
            texts(names@) == all.take(i as int),
        decreases entries@.len() - i,
    {
        proof {
            take_step(all, i as int);
        }
        push_line(&mut names, entries[i].0.clone());
        i = i + 1;
    }
    proof {
        take_all(all);
    }
    names
}

/// What is shown of a request for input.
pub fn mcp_elicitation_markdown(params: &Json) -> (text: String)
    ensures
        text@ == elicitation_text(params@),
{
    let head = concat2(or_text(params.text_at("serverName"), "MCP server"), " requested input.");
    let mut lines = first_line(head.as_str());
    push_line(
        &mut lines,
        or_text(params.text_at("message"), "MCP server requested input.").to_owned(),
    );
    if let Some(url) = params.text_at("url") {
        push_line(&mut lines, concat2("URL: ", url));
    }
    let ghost page = texts(lines@);
    if is_text(params.text_at("mode"), "form") {
        let names = read_form_fields(params);
        assert(texts(names@).len() == names@.len());
        if names.len() > 0 {
            push_line(&mut lines, concat2("Fields: ", join(&names, ", ").as_str()));
        }
        let choices = mcp_simple_form_choices(params);
        assert(choice_views(choices@).len() == choices@.len());
        if choices.len() == 0 {
            push_line(
                &mut lines,
                "This form schema cannot be collected natively yet; decline or cancel to continue.".to_owned(),
            );
        }
    }
    assert(texts(lines@) =~= page + form_lines(params@));
    join(&lines, "\n")
}

/// The tool call that stands for a request for input.
pub fn mcp_elicitation_tool_call_id(params: &Json) -> (id: String)
    ensures
        id@ == elicitation_id(params@),
{
    concat4(
        "mcp-elicitation:",
        or_text(params.text_at("serverName"), "mcp"),
        ":",
        or_text(read_text(params.get_either("elicitationId", "turnId")), "request"),
    )
}

// ---------------------------------------------------------------------------
// What the server is told
// ---------------------------------------------------------------------------

/// What comes of a request for input: what the server is told, how the tool call ends,
/// what is shown of it, and the page to open.
pub struct ElicitationOutcomeView {
    pub response: JsonView,
    pub status: ToolCallStatus,
    pub summary: Seq<char>,
    pub url: Option<Seq<char>>,
}

/// What comes of a request for input.
#[derive(Debug, PartialEq)]
pub struct ElicitationOutcome {
    pub response: Json,
    pub status: ToolCallStatus,
    pub summary: String,
    pub url: Option<String>,
}

impl View for ElicitationOutcome {
    type V = ElicitationOutcomeView;

    open spec fn view(&self) -> ElicitationOutcomeView {
        ElicitationOutcomeView {
            response: self.response@,
            status: self.status,
            summary: self.summary@,
            url: opt_string(self.url),
        }
    }
}

/// What the server is told where the request is accepted: the content, and what the
/// request carried for its own use.
pub open spec fn accepted(content: JsonView, params: JsonView) -> JsonView {
    let entries = fields().push(("action"@, JsonView::Text("accept"@))).push(("content"@, content));
    JsonView::Object(
        match params.get("_meta"@) {
            Some(meta) => entries.push(("_meta"@, meta)),
            None => entries,
        },
    )
}

/// What comes of a request that is not accepted.
pub open spec fn refused(action: Seq<char>, summary: Seq<char>) -> ElicitationOutcomeView {
    ElicitationOutcomeView {
        response: JsonView::Object(
            fields().push(("action"@, JsonView::Text(action))).push(("content"@, JsonView::Null)),
        ),
        status: ToolCallStatus::Failed,
        summary,
        url: None,
    }
}

/// What comes of a choice.
pub open spec fn outcome_of(action: ChoiceActionView, params: JsonView) -> ElicitationOutcomeView {
    match action {
        ChoiceActionView::OpenUrl(url) => ElicitationOutcomeView {
            response: accepted(JsonView::Null, params),
            status: ToolCallStatus::Completed,
            summary: "Opened MCP elicitation URL."@,
            url: Some(url),
        },
        ChoiceActionView::FormValue { property, value } => ElicitationOutcomeView {
            response: accepted(JsonView::Object(fields().push((property, value))), params),
            status: ToolCallStatus::Completed,
            summary: "Answered MCP elicitation."@,
            url: None,
        },
        ChoiceActionView::Decline => refused("decline"@, "MCP elicitation declined."@),
        ChoiceActionView::Cancel => refused("cancel"@, "MCP elicitation cancelled."@),
    }
}

/// The first choice with an id.
pub open spec fn find_choice(choices: Seq<ChoiceView>, id: Seq<char>) -> Option<ChoiceView>
    decreases choices.len(),
{
    if choices.len() == 0 {
        None
    } else {
        match find_choice(choices.drop_last(), id) {
            Some(choice) => Some(choice),
            None => if choices.last().option_id == id {
                Some(choices.last())
            } else {
                None
            },
        }
    }
}

/// What comes of what the user selected.
pub open spec fn elicitation_outcome(
    params: JsonView,
    choices: Seq<ChoiceView>,
    selected: Option<Seq<char>>,
) -> ElicitationOutcomeView {
    let found = match selected {
        Some(id) => find_choice(choices, id),
        None => None,
    };
    match found {
        Some(choice) => outcome_of(choice.action, params),
        None => refused("cancel"@, "MCP elicitation cancelled."@),
    }
}

/// The question that is put to the user.
pub open spec fn elicitation_question(params: JsonView, known: Set<Seq<char>>) -> Result<
    PermissionRequestView,
    Seq<char>,
> {
    match required(params, "threadId"@) {
        Err(error) => Err(error),
        Ok(thread) => if !known.contains(thread) {
            Err("MCP elicitation request for unknown Codex thread"@)
        } else {
            Ok(
                PermissionRequestView {
                    session: thread,
                    tool_call: waiting_call(
                        elicitation_id(params),
                        ToolKind::Other,
                        "MCP elicitation"@,
                        elicitation_text(params),
                        params,
                    ),
                    options: choice_options(elicitation_choices(params)),
                },
            )
        },
    }
}

/// Some choices as they are put to the user.
pub open spec fn choice_options(choices: Seq<ChoiceView>) -> Seq<PermissionOptionView> {
    Seq::new(
        choices.len(),
        |i: int| choice(choices[i].option_id, choices[i].label, choices[i].kind),
    )
}

/// What the server is told where the request is accepted.
pub fn mcp_elicitation_response_value(content: Json, params: &Json) -> (response: Json)
    ensures
        response@ == accepted(content@, params@),
{
    let entries = with(no_entries(), "action", Json::text("accept"));
    let entries = with(entries, "content", content);
    match params.get("_meta") {
        Some(meta) => Json::object(with(entries, "_meta", meta.copy())),
        None => Json::object(entries),
    }
}

/// What comes of a request that is not accepted.
fn refuse(action: &str, summary: &str) -> (outcome: ElicitationOutcome)
    ensures
        outcome@ == refused(action@, summary@),
{
    let entries = with(no_entries(), "action", Json::text(action));
    ElicitationOutcome {
        response: Json::object(with(entries, "content", Json::Null)),
        status: ToolCallStatus::Failed,
        summary: summary.to_owned(),
        url: None,
    }
}

/// The first choice with an id.
fn select_choice<'a>(choices: &'a Vec<McpElicitationChoice>, id: &str) -> (found: Option<
    &'a McpElicitationChoice,
>)
    ensures
        match found {
            Some(choice) => find_choice(choice_views(choices@), id@) == Some(choice@),
            None => find_choice(choice_views(choices@), id@) is None,
        },
{
    let ghost all = choice_views(choices@);
    let mut i: usize = 0;
    proof {
        take_all(all);
    }
    while i < choices.len()
        invariant
            i <= choices@.len(),
            all == choice_views(choices@),
            find_choice(all.take(i as int), id@) is None,
        decreases choices@.len() - i,
    {
        proof {
            take_step(all, i as int);
        }
        if same_text(choices[i].option_id.as_str(), id) {
            proof {
                found_choice_stays(all, id@, i + 1);
            }
            return Some(&choices[i]);
        }
        i = i + 1;
    }
    proof {
        take_all(all);
    }
    None
}

/// A choice stays the first with its id whatever comes behind it.
proof fn found_choice_stays(choices: Seq<ChoiceView>, id: Seq<char>, i: int)
    requires
        0 <= i <= choices.len(),
        find_choice(choices.take(i), id) is Some,
    ensures
        find_choice(choices, id) == find_choice(choices.take(i), id),
    decreases choices.len(),
{
    if i == choices.len() {
        take_all(choices);
    } else {
        assert(choices.drop_last().take(i) =~= choices.take(i));
        found_choice_stays(choices.drop_last(), id, i);
    }
}

/// What comes of what the user selected.
pub fn mcp_elicitation_response(
    params: &Json,
    choices: &Vec<McpElicitationChoice>,
    selected: Option<&str>,
) -> (outcome: ElicitationOutcome)
    ensures
        outcome@ == elicitation_outcome(params@, choice_views(choices@), opt_text(selected)),
{
    let found = match selected {
        Some(id) => select_choice(choices, id),
        None => None,
    };
    let choice = match found {
        Some(choice) => choice,
        None => return refuse("cancel", "MCP elicitation cancelled."),
    };
    match &choice.action {
        McpElicitationChoiceAction::OpenUrl(url) => ElicitationOutcome {
            response: mcp_elicitation_response_value(Json::Null, params),
            status: ToolCallStatus::Completed,
            summary: "Opened MCP elicitation URL.".to_owned(),
            url: Some(url.clone()),
        },
        McpElicitationChoiceAction::FormValue { property, value } => {
            let content = Json::object(with(no_entries(), property.as_str(), value.copy()));
            ElicitationOutcome {
                response: mcp_elicitation_response_value(content, params),
                status: ToolCallStatus::Completed,
                summary: "Answered MCP elicitation.".to_owned(),
                url: None,
            }
        },
        McpElicitationChoiceAction::Decline => refuse("decline", "MCP elicitation declined."),
        McpElicitationChoiceAction::Cancel => refuse("cancel", "MCP elicitation cancelled."),
    }
}

/// The question that is put to the user.
pub fn mcp_elicitation_request<S>(params: &Json, sessions: &Table<S>) -> (request: Result<
    PermissionRequest,
    String,
>)
    ensures
        request_view(request) == elicitation_question(params@, sessions@.dom()),
{
    let thread = match required_string(params, "threadId") {
        Ok(thread) => thread,
        Err(error) => return Err(error),
    };
    if sessions.get(thread.as_str()).is_none() {
        return Err("MCP elicitation request for unknown Codex thread".to_owned());
    }
    let choices = mcp_elicitation_choices(params);
    let ghost all = choice_options(choice_views(choices@));
    let mut options = no_options();
    let mut i: usize = 0;
    while i < choices.len()
        invariant
            i <= choices@.len(),
            all == choice_options(choice_views(choices@)),
            option_views(options@) == all.take(i as int),
        decreases choices@.len() - i,
    {
        proof {
            take_step(all, i as int);
        }
        let made = &choices[i];
        push_option(&mut options, made.option_id.as_str(), made.label.as_str(), made.kind);
        i = i + 1;
    }
    proof {
        take_all(all);
    }
    let id = mcp_elicitation_tool_call_id(params);
    Ok(
        PermissionRequest {
            session: thread,
            tool_call: pending_call(
                id.as_str(),
                ToolKind::Other,
                "MCP elicitation",
                mcp_elicitation_markdown(params),
                params,
            ),
            options,
        },
    )
}

// ---------------------------------------------------------------------------
// What holds of choices
// ---------------------------------------------------------------------------

/// That no id occurs twice.
pub open spec fn distinct_choices(choices: Seq<ChoiceView>) -> bool {
    forall|i: int, j: int|
        0 <= i < j < choices.len() ==> (#[trigger] choices[i]).option_id != (
        #[trigger] choices[j]).option_id
}

/// Among choices with distinct ids, each is found by its own id.
proof fn distinct_choices_are_found(choices: Seq<ChoiceView>, i: int)
    requires
        distinct_choices(choices),
        0 <= i < choices.len(),
    ensures
        find_choice(choices, choices[i].option_id) == Some(choices[i]),
    decreases choices.len(),
{
    let init = choices.drop_last();
    let id = choices[i].option_id;
    assert(distinct_choices(init)) by {
        assert forall|a: int, b: int| 0 <= a < b < init.len() implies (
        #[trigger] init[a]).option_id != (#[trigger] init[b]).option_id by {
            assert(choices[a].option_id != choices[b].option_id);
        }
    }
    if i < init.len() {
        assert(init[i] == choices[i]);
        distinct_choices_are_found(init, i);
    } else {
        assert forall|a: int| 0 <= a < init.len() implies (#[trigger] init[a]).option_id != id by {
            assert(choices[a].option_id != choices[i].option_id);
        }
        absent_choice_is_not_found(init, id);
    }
}

proof fn absent_choice_is_not_found(choices: Seq<ChoiceView>, id: Seq<char>)
    requires
        forall|i: int| 0 <= i < choices.len() ==> (#[trigger] choices[i]).option_id != id,
    ensures
        find_choice(choices, id) is None,
    decreases choices.len(),
{
    if choices.len() > 0 {
        assert(choices.last() == choices[choices.len() - 1]);
        absent_choice_is_not_found(choices.drop_last(), id);
    }
}

/// The ids of two values of a field differ.
proof fn form_ids_differ(property: Seq<char>, a: Seq<char>, b: Seq<char>)
    requires
        "form:"@ + property + ":"@ + a == "form:"@ + property + ":"@ + b,
    ensures
        a == b,
{
    let prefix = "form:"@ + property + ":"@;
    assert((prefix + a).skip(prefix.len() as int) =~= a);
    assert((prefix + b).skip(prefix.len() as int) =~= b);
}

/// The ids of the choices of a request differ from each other.
pub proof fn choice_ids_are_distinct(params: JsonView)
    ensures
        distinct_choices(elicitation_choices(params)),
{
    reveal_strlit("form:");
    reveal_strlit("open");
    reveal_strlit("decline");
    reveal_strlit("cancel");
    reveal_strlit("true");
    reveal_strlit("false");
    let choices = elicitation_choices(params);
    assert("decline"@[0] == 'd' && "cancel"@[0] == 'c' && "open"@[0] == 'o' && "form:"@[0] == 'f');
    assert forall|i: int, j: int| 0 <= i < j < choices.len() implies (
    #[trigger] choices[i]).option_id != (#[trigger] choices[j]).option_id by {
        if j < choices.len() - 2 {
            if let Some((property, schema)) = only_field(params) {
                if choices[i].option_id == choices[j].option_id {
                    if schema.text_at("type"@) == Some("boolean"@) {
                        form_ids_differ(property, "true"@, "false"@);
                        assert("true"@.len() != "false"@.len());
                    } else {
                        form_ids_differ(property, decimal(i as nat), decimal(j as nat));
                        decimal_reads_back(i as nat);
                        decimal_reads_back(j as nat);
                    }
                }
            }
        } else if i < choices.len() - 2 {
            if params.text_at("mode"@) == Some("url"@) {
                assert(choices[i].option_id[0] == 'o');
            } else {
                assert(choices[i].option_id[0] == 'f');
            }
        }
    }
}

/// Whatever choice the user selects, that choice is what comes of it.
pub proof fn selected_choices_are_followed(params: JsonView, i: int)
    requires
        0 <= i < elicitation_choices(params).len(),
    ensures
        ({
            let choices = elicitation_choices(params);
            elicitation_outcome(params, choices, Some(choices[i].option_id)) == outcome_of(
                choices[i].action,
                params,
            )
        }),
{
    choice_ids_are_distinct(params);
    distinct_choices_are_found(elicitation_choices(params), i);
}

/// Every request for input can be declined and cancelled.
pub proof fn requests_can_be_declined(params: JsonView)
    ensures
        ({
            let choices = elicitation_choices(params);
            &&& choices.len() >= 2
            &&& choices[choices.len() - 2] == decline_choice()
            &&& choices[choices.len() - 1] == cancel_choice()
        }),
{
}

} // verus!
