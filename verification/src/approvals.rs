//! Approvals: what the user is asked before Codex runs a command, changes files or
//! gets more permissions, and what Codex is told of the answer.

use vstd::prelude::*;

use crate::json::{fields, found_in_more, no_entries, opt_json, ref_views, with, Json, JsonView};
use crate::protocol::{
    option_views, option_views_push, permission_option, text_content, unchanged, ContentView,
    PermissionOption, PermissionOptionKind, PermissionOptionView, ToolCallStatus, ToolCallUpdate,
    ToolCallUpdateView, ToolKind,
};
use crate::table::Table;
use crate::text::{
    after_prefix, blank, concat2, concat3, decimal, decimal_parses_back, decimal_text, is_blank,
    join, joined, or_text, parse_unsigned, push_line, same_text, strip_prefix, take_all, take_step,
    text_or, texts, unsigned_value,
};

verus! {

// ---------------------------------------------------------------------------
// Questions and answers
// ---------------------------------------------------------------------------

/// A question to the user: a tool call of a session, with the choices there are.
#[derive(Debug, PartialEq)]
pub struct PermissionRequest {
    pub session: String,
    pub tool_call: ToolCallUpdate,
    pub options: Vec<PermissionOption>,
}

/// What a question to the user says.
pub struct PermissionRequestView {
    pub session: Seq<char>,
    pub tool_call: ToolCallUpdateView,
    pub options: Seq<PermissionOptionView>,
}

impl View for PermissionRequest {
    type V = PermissionRequestView;

    open spec fn view(&self) -> PermissionRequestView {
        PermissionRequestView {
            session: self.session@,
            tool_call: self.tool_call@,
            options: option_views(self.options@),
        }
    }
}

/// The answer of the user: a choice, or none.
#[derive(Debug, PartialEq, Eq)]
pub enum PermissionOutcome {
    Selected { option_id: String, option_kind: PermissionOptionKind },
    Cancelled,
}

/// The answer of the user, as contracts speak of it.
pub enum OutcomeView {
    Selected { option_id: Seq<char>, option_kind: PermissionOptionKind },
    Cancelled,
}

impl View for PermissionOutcome {
    type V = OutcomeView;

    open spec fn view(&self) -> OutcomeView {
        match *self {
            PermissionOutcome::Selected { option_id, option_kind } => OutcomeView::Selected {
                option_id: option_id@,
                option_kind,
            },
            PermissionOutcome::Cancelled => OutcomeView::Cancelled,
        }
    }
}

/// A question to the user, or why it cannot be asked.
pub open spec fn request_view(request: Result<PermissionRequest, String>) -> Result<
    PermissionRequestView,
    Seq<char>,
> {
    match request {
        Ok(request) => Ok(request@),
        Err(error) => Err(error@),
    }
}

/// The text under a key, or what is said where there is none.
pub open spec fn required(value: JsonView, key: Seq<char>) -> Result<Seq<char>, Seq<char>> {
    match value.text_at(key) {
        Some(text) => Ok(text),
        None => Err("missing `"@ + key + "`"@),
    }
}

/// A tool call that waits for the user.
pub open spec fn waiting_call(
    id: Seq<char>,
    kind: ToolKind,
    title: Seq<char>,
    content: Seq<char>,
    params: JsonView,
) -> ToolCallUpdateView {
    ToolCallUpdateView {
        kind: Some(kind),
        status: Some(ToolCallStatus::Pending),
        title: Some(title),
        content: Some(seq![ContentView::Text(content)]),
        raw_input: Some(params),
        ..unchanged(id)
    }
}

/// A choice.
pub open spec fn choice(
    id: Seq<char>,
    name: Seq<char>,
    kind: PermissionOptionKind,
) -> PermissionOptionView {
    PermissionOptionView { id, name, kind }
}

/// The text under a key, or what is said where there is none.
pub fn required_string(value: &Json, key: &str) -> (text: Result<String, String>)
    ensures
        match text {
            Ok(text) => required(value@, key@) == Ok::<Seq<char>, Seq<char>>(text@),
            Err(error) => required(value@, key@) == Err::<Seq<char>, Seq<char>>(error@),
        },
{
    match value.text_at(key) {
        Some(text) => Ok(text.to_owned()),
        None => Err(concat3("missing `", key, "`")),
    }
}

/// A tool call that waits for the user.
pub fn pending_call(id: &str, kind: ToolKind, title: &str, content: String, params: &Json) -> (call:
    ToolCallUpdate)
    ensures
        call@ == waiting_call(id@, kind, title@, content@, params@),
{
    let mut call = ToolCallUpdate::new(id);
    call.kind = Some(kind);
    call.status = Some(ToolCallStatus::Pending);
    call.title = Some(title.to_owned());
    call.content = Some(text_content(content));
    call.raw_input = Some(params.copy());
    call
}

/// No choices.
pub fn no_options() -> (options: Vec<PermissionOption>)
    ensures
        option_views(options@) == Seq::<PermissionOptionView>::empty(),
{
    let options: Vec<PermissionOption> = Vec::new();
    assert(option_views(options@) =~= Seq::<PermissionOptionView>::empty());
    options
}

/// Adds a choice.
pub fn push_option(
    options: &mut Vec<PermissionOption>,
    id: &str,
    name: &str,
    kind: PermissionOptionKind,
)
    ensures
        option_views(final(options)@) == option_views(old(options)@).push(choice(id@, name@, kind)),
{
    broadcast use option_views_push;

    options.push(permission_option(id, name, kind));
}

// ---------------------------------------------------------------------------
// Commands and file changes
// ---------------------------------------------------------------------------

/// What is asked where no reason is given.
pub open spec fn approval_text(params: JsonView) -> Seq<char> {
    let command = match params.text_at("command"@) {
        Some(command) => seq!["Command: `"@ + command + "`"@],
        None => Seq::empty(),
    };
    let lines = match params.text_at("cwd"@) {
        Some(cwd) => command.push("Directory: `"@ + cwd + "`"@),
        None => command,
    };
    if lines.len() == 0 {
        "Codex requested approval."@
    } else {
        joined(lines, "\n"@)
    }
}

/// The choice that a proposed rule for a host stands for; nothing where it names no
/// host.
pub open spec fn network_choice(amendment: JsonView, index: nat) -> Option<PermissionOptionView> {
    let id = "applyNetworkPolicyAmendment:"@ + decimal(index);
    match amendment.text_at("host"@) {
        Some(host) => Some(
            if amendment.text_at("action"@) == Some("deny"@) {
                choice(
                    id,
                    "Block `"@ + host + "` for future requests"@,
                    PermissionOptionKind::RejectAlways,
                )
            } else {
                choice(
                    id,
                    "Allow `"@ + host + "` for future requests"@,
                    PermissionOptionKind::AllowAlways,
                )
            },
        ),
        None => None,
    }
}

/// The choices that some proposed rules stand for.
pub open spec fn network_choices(amendments: Seq<JsonView>) -> Seq<PermissionOptionView>
    decreases amendments.len(),
{
    if amendments.len() == 0 {
        Seq::empty()
    } else {
        let init = amendments.drop_last();
        match network_choice(amendments.last(), init.len()) {
            Some(option) => network_choices(init).push(option),
            None => network_choices(init),
        }
    }
}

/// The choices that a question offers between allowing and denying: to remember the
/// command where a pattern for it is proposed, or else the proposed rules for hosts.
pub open spec fn extra_choices(params: JsonView) -> Seq<PermissionOptionView> {
    if params.items_at("proposedExecpolicyAmendment"@).len() > 0 {
        seq![
            choice(
                "acceptWithExecpolicyAmendment"@,
                "Allow and remember this command pattern"@,
                PermissionOptionKind::AllowAlways,
            ),
        ]
    } else {
        network_choices(params.items_at("proposedNetworkPolicyAmendments"@))
    }
}

/// The choices of a question.
pub open spec fn approval_choices(params: JsonView, allow: Seq<char>, deny: Seq<char>) -> Seq<
    PermissionOptionView,
> {
    let start = Seq::<PermissionOptionView>::empty().push(
        choice(allow, "Allow"@, PermissionOptionKind::AllowOnce),
    ).push(
        choice("acceptForSession"@, "Allow for session"@, PermissionOptionKind::AllowAlways),
    );
    (start + extra_choices(params)).push(
        choice(deny, "Deny"@, PermissionOptionKind::RejectOnce),
    ).push(choice("cancel"@, "Cancel"@, PermissionOptionKind::RejectOnce))
}

/// The question that is asked before a command is run or files are changed.
pub open spec fn approval_question(
    params: JsonView,
    title: Seq<char>,
    allow: Seq<char>,
    deny: Seq<char>,
    known: Set<Seq<char>>,
) -> Result<PermissionRequestView, Seq<char>> {
    match (required(params, "threadId"@), required(params, "itemId"@)) {
        (Err(error), _) => Err(error),
        (_, Err(error)) => Err(error),
        (Ok(thread), Ok(item)) => if !known.contains(thread) {
            Err("approval request for unknown Codex thread"@)
        } else {
            Ok(
                PermissionRequestView {
                    session: thread,
                    tool_call: waiting_call(
                        item,
                        ToolKind::Execute,
                        match params.text_at("command"@) {
                            Some(command) => if is_blank(command) {
                                title
                            } else {
                                command
                            },
                            None => title,
                        },
                        text_or(params.text_at("reason"@), approval_text(params)),
                        params,
                    ),
                    options: approval_choices(params, allow, deny),
                },
            )
        },
    }
}

/// The proposed rule that a choice stands for.
pub open spec fn chosen_amendment(params: JsonView, option: Seq<char>) -> Option<JsonView> {
    let amendments = params.items_at("proposedNetworkPolicyAmendments"@);
    match after_prefix(option, "applyNetworkPolicyAmendment:"@) {
        Some(index) => match unsigned_value(index, usize::MAX as nat) {
            Some(i) => if i < amendments.len() {
                Some(amendments[i as int])
            } else {
                None
            },
            None => None,
        },
        None => None,
    }
}

/// What Codex is told of a choice.
pub open spec fn decision(
    params: JsonView,
    option: Seq<char>,
    kind: PermissionOptionKind,
    allow: Seq<char>,
) -> JsonView {
    match chosen_amendment(params, option) {
        Some(amendment) => JsonView::Object(
            fields().push(
                (
                    "applyNetworkPolicyAmendment"@,
                    JsonView::Object(fields().push(("network_policy_amendment"@, amendment))),
                ),
            ),
        ),
        None => if kind == PermissionOptionKind::AllowAlways && allow == "accept"@ {
            match params.get("proposedExecpolicyAmendment"@) {
                Some(amendment) => if option == "acceptWithExecpolicyAmendment"@ {
                    JsonView::Object(
                        fields().push(
                            (
                                "acceptWithExecpolicyAmendment"@,
                                JsonView::Object(
                                    fields().push(("execpolicy_amendment"@, amendment)),
                                ),
                            ),
                        ),
                    )
                } else {
                    JsonView::Text("acceptForSession"@)
                },
                None => JsonView::Text("acceptForSession"@),
            }
        } else {
            JsonView::Text(option)
        },
    }
}

/// What Codex is told of the answer to a question.
pub open spec fn approval_reply(
    params: JsonView,
    outcome: OutcomeView,
    allow: Seq<char>,
) -> JsonView {
    JsonView::Object(
        fields().push(
            (
                "decision"@,
                match outcome {
                    OutcomeView::Selected { option_id, option_kind } => decision(
                        params,
                        option_id,
                        option_kind,
                        allow,
                    ),
                    OutcomeView::Cancelled => JsonView::Text("cancel"@),
                },
            ),
        ),
    )
}

/// What is asked where no reason is given.
pub fn approval_markdown(params: &Json) -> (text: String)
    ensures
        text@ == approval_text(params@),
{
    let mut lines: Vec<String> = Vec::new();
    assert(texts(lines@) =~= Seq::<Seq<char>>::empty());
    if let Some(command) = params.text_at("command") {
        push_line(&mut lines, concat3("Command: `", command, "`"));
    }
    if let Some(cwd) = params.text_at("cwd") {
        push_line(&mut lines, concat3("Directory: `", cwd, "`"));
    }
    assert(texts(lines@).len() == lines@.len());
    if lines.len() == 0 {
        "Codex requested approval.".to_owned()
    } else {
        join(&lines, "\n")
    }
}

/// Adds the choices that some proposed rules for hosts stand for.
pub fn network_approval_options(options: &mut Vec<PermissionOption>, amendments: &Vec<&Json>)
    ensures
        option_views(final(options)@) == option_views(old(options)@) + network_choices(
            ref_views(amendments@),
        ),
{
    let ghost all = ref_views(amendments@);
    let ghost start = option_views(options@);
    let mut i: usize = 0;
    proof {
        take_all(all);
        assert(start + network_choices(all.take(0)) =~= start);
    }
    while i < amendments.len()
        invariant
            i <= amendments@.len(),
            all == ref_views(amendments@),
            option_views(options@) == start + network_choices(all.take(i as int)),
        decreases amendments@.len() - i,
    {
        proof {
            take_step(all, i as int);
        }
        if let Some(host) = amendments[i].text_at("host") {
            let id = concat2("applyNetworkPolicyAmendment:", decimal_text(i as u64).as_str());
            let deny = match amendments[i].text_at("action") {
                Some(action) => same_text(action, "deny"),
                None => false,
            };
            if deny {
                let name = concat3("Block `", host, "` for future requests");
                push_option(
                    options,
                    id.as_str(),
                    name.as_str(),
                    PermissionOptionKind::RejectAlways,
                );
            } else {
                let name = concat3("Allow `", host, "` for future requests");
                push_option(
                    options,
                    id.as_str(),
                    name.as_str(),
                    PermissionOptionKind::AllowAlways,
                );
            }
        }
        assert(option_views(options@) =~= start + network_choices(all.take(i + 1)));
        i = i + 1;
    }
    proof {
        take_all(all);
    }
}

/// The choices of a question.
pub fn approval_permission_options(params: &Json, allow: &str, deny: &str) -> (options: Vec<
    PermissionOption,
>)
    ensures
        option_views(options@) == approval_choices(params@, allow@, deny@),
{
    let mut options = no_options();
    push_option(&mut options, allow, "Allow", PermissionOptionKind::AllowOnce);
    push_option(
        &mut options,
        "acceptForSession",
        "Allow for session",
        PermissionOptionKind::AllowAlways,
    );
    let ghost start = option_views(options@);
    let pattern = params.items_at("proposedExecpolicyAmendment");
    assert(ref_views(pattern@).len() == pattern@.len());
    if pattern.len() > 0 {
        push_option(
            &mut options,
            "acceptWithExecpolicyAmendment",
            "Allow and remember this command pattern",
            PermissionOptionKind::AllowAlways,
        );
        assert(option_views(options@) =~= start + extra_choices(params@));
    } else {
        network_approval_options(&mut options, &params.items_at("proposedNetworkPolicyAmendments"));
    }
    push_option(&mut options, deny, "Deny", PermissionOptionKind::RejectOnce);
    push_option(&mut options, "cancel", "Cancel", PermissionOptionKind::RejectOnce);
    options
}

/// The question that is asked before a command is run or files are changed.
pub fn approval_request<S>(
    params: &Json,
    title_fallback: &str,
    allow: &str,
    deny: &str,
    sessions: &Table<S>,
) -> (request: Result<PermissionRequest, String>)
    ensures
        request_view(request) == approval_question(
            params@,
            title_fallback@,
            allow@,
            deny@,
            sessions@.dom(),
        ),
{
    let thread = match required_string(params, "threadId") {
        Ok(thread) => thread,
        Err(error) => return Err(error),
    };
    let item = match required_string(params, "itemId") {
        Ok(item) => item,
        Err(error) => return Err(error),
    };
    if sessions.get(thread.as_str()).is_none() {
        return Err("approval request for unknown Codex thread".to_owned());
    }
    let title = match params.text_at("command") {
        Some(command) => if blank(command) {
            title_fallback
        } else {
            command
        },
        None => title_fallback,
    };
    let content = match params.text_at("reason") {
        Some(reason) => reason.to_owned(),
        None => approval_markdown(params),
    };
    Ok(
        PermissionRequest {
            session: thread,
            tool_call: pending_call(item.as_str(), ToolKind::Execute, title, content, params),
            options: approval_permission_options(params, allow, deny),
        },
    )
}

/// The proposed rule that a choice stands for.
fn find_amendment(params: &Json, option: &str) -> (amendment: Option<Json>)
    ensures
        opt_json(amendment) == chosen_amendment(params@, option@),
{
    let amendments = params.items_at("proposedNetworkPolicyAmendments");
    assert(ref_views(amendments@).len() == amendments@.len());
    match strip_prefix(option, "applyNetworkPolicyAmendment:") {
        Some(index) => match parse_unsigned(index, usize::MAX as u64) {
            Some(i) => if (i as usize) < amendments.len() {
                Some(amendments[i as usize].copy())
            } else {
                None
            },
            None => None,
        },
        None => None,
    }
}

/// What Codex is told of a choice.
pub fn approval_decision_from_selected(
    params: &Json,
    option: &str,
    kind: PermissionOptionKind,
    allow: &str,
) -> (told: Json)
    ensures
        told@ == decision(params@, option@, kind, allow@),
{
    if let Some(amendment) = find_amendment(params, option) {
        let inner = Json::object(with(no_entries(), "network_policy_amendment", amendment));
        return Json::object(with(no_entries(), "applyNetworkPolicyAmendment", inner));
    }
    if kind == PermissionOptionKind::AllowAlways && same_text(allow, "accept") {
        if same_text(option, "acceptWithExecpolicyAmendment") {
            if let Some(amendment) = params.get("proposedExecpolicyAmendment") {
                let inner = with(no_entries(), "execpolicy_amendment", amendment.copy());
                return Json::object(
                    with(no_entries(), "acceptWithExecpolicyAmendment", Json::object(inner)),
                );
            }
        }
        Json::text("acceptForSession")
    } else {
        Json::text(option)
    }
}

/// What Codex is told of the answer to a question.
pub fn approval_response(params: &Json, outcome: &PermissionOutcome, allow: &str) -> (reply: Json)
    ensures
        reply@ == approval_reply(params@, outcome@, allow@),
{
    let told = match outcome {
        PermissionOutcome::Selected { option_id, option_kind } => approval_decision_from_selected(
            params,
            option_id.as_str(),
            *option_kind,
            allow,
        ),
        PermissionOutcome::Cancelled => Json::text("cancel"),
    };
    Json::object(with(no_entries(), "decision", told))
}

/// A question always offers to allow once and for the session first, and to deny and
/// to cancel last.
pub proof fn questions_can_be_denied(params: JsonView, allow: Seq<char>, deny: Seq<char>)
    ensures
        ({
            let options = approval_choices(params, allow, deny);
            &&& options.len() >= 4
            &&& options[0] == choice(allow, "Allow"@, PermissionOptionKind::AllowOnce)
            &&& options[1].id == "acceptForSession"@
            &&& options[options.len() - 2] == choice(
                deny,
                "Deny"@,
                PermissionOptionKind::RejectOnce,
            )
            &&& options[options.len() - 1] == choice(
                "cancel"@,
                "Cancel"@,
                PermissionOptionKind::RejectOnce,
            )
        }),
{
}

/// The choice for the rule at an index leads back to that rule.
pub proof fn network_choice_leads_to_its_rule(params: JsonView, i: nat)
    requires
        i < params.items_at("proposedNetworkPolicyAmendments"@).len(),
        i <= usize::MAX,
    ensures
        chosen_amendment(params, "applyNetworkPolicyAmendment:"@ + decimal(i)) == Some(
            params.items_at("proposedNetworkPolicyAmendments"@)[i as int],
        ),
{
    let prefix = "applyNetworkPolicyAmendment:"@;
    let option = prefix + decimal(i);
    assert(option.take(prefix.len() as int) =~= prefix);
    assert(option.skip(prefix.len() as int) =~= decimal(i));
    decimal_parses_back(i, usize::MAX as nat);
}

/// Every choice for a rule is that of a rule that was proposed, and leads back to it.
pub proof fn network_choices_lead_to_rules(params: JsonView, i: int) -> (at: nat)
    requires
        params.items_at("proposedNetworkPolicyAmendments"@).len() <= usize::MAX,
        0 <= i < network_choices(params.items_at("proposedNetworkPolicyAmendments"@)).len(),
    ensures
        ({
            let amendments = params.items_at("proposedNetworkPolicyAmendments"@);
            let option = network_choices(amendments)[i];
            &&& at < amendments.len()
            &&& network_choice(amendments[at as int], at) == Some(option)
            &&& chosen_amendment(params, option.id) == Some(amendments[at as int])
        }),
{
    let amendments = params.items_at("proposedNetworkPolicyAmendments"@);
    let at = network_choice_origin(amendments, i);
    network_choice_leads_to_its_rule(params, at);
    at
}

/// Every choice for a rule is that of one of the rules.
proof fn network_choice_origin(amendments: Seq<JsonView>, i: int) -> (at: nat)
    requires
        0 <= i < network_choices(amendments).len(),
    ensures
        at < amendments.len(),
        network_choice(amendments[at as int], at) == Some(network_choices(amendments)[i]),
    decreases amendments.len(),
{
    let init = amendments.drop_last();
    if i < network_choices(init).len() {
        network_choice_origin(init, i)
    } else {
        init.len()
    }
}

/// A command or a file change that is allowed once, denied or cancelled is told so to
/// Codex as it is.
pub proof fn plain_choices_are_told_as_they_are(params: JsonView)
    ensures
        decision(params, "accept"@, PermissionOptionKind::AllowOnce, "accept"@) == JsonView::Text(
            "accept"@,
        ),
        decision(params, "decline"@, PermissionOptionKind::RejectOnce, "accept"@)
            == JsonView::Text("decline"@),
        decision(params, "cancel"@, PermissionOptionKind::RejectOnce, "accept"@)
            == JsonView::Text("cancel"@),
        decision(params, "acceptForSession"@, PermissionOptionKind::AllowAlways, "accept"@)
            == JsonView::Text("acceptForSession"@),
{
    reveal_strlit("accept");
    reveal_strlit("decline");
    reveal_strlit("cancel");
    reveal_strlit("acceptForSession");
    reveal_strlit("acceptWithExecpolicyAmendment");
    reveal_strlit("applyNetworkPolicyAmendment:");
    assert("acceptForSession"@.len() != "acceptWithExecpolicyAmendment"@.len());
}

// ---------------------------------------------------------------------------
// Permissions
// ---------------------------------------------------------------------------

/// The choices of a question for more permissions.
pub open spec fn permissions_choices() -> Seq<PermissionOptionView> {
    Seq::<PermissionOptionView>::empty().push(
        choice("allow-for-session"@, "Allow for session"@, PermissionOptionKind::AllowAlways),
    ).push(choice("allow"@, "Allow"@, PermissionOptionKind::AllowOnce)).push(
        choice("cancel"@, "Cancel"@, PermissionOptionKind::RejectOnce),
    )
}

/// The question that is asked before Codex gets more permissions.
pub open spec fn permissions_question(params: JsonView, known: Set<Seq<char>>) -> Result<
    PermissionRequestView,
    Seq<char>,
> {
    match (required(params, "threadId"@), required(params, "itemId"@)) {
        (Err(error), _) => Err(error),
        (_, Err(error)) => Err(error),
        (Ok(thread), Ok(item)) => if !known.contains(thread) {
            Err("permissions request for unknown Codex thread"@)
        } else {
            Ok(
                PermissionRequestView {
                    session: thread,
                    tool_call: waiting_call(
                        item,
                        ToolKind::Other,
                        "Approve permissions"@,
                        text_or(
                            params.text_at("reason"@),
                            "Codex requested additional permissions."@,
                        ),
                        params,
                    ),
                    options: permissions_choices(),
                },
            )
        },
    }
}

/// Whether an answer allows what was asked.
pub open spec fn allows(outcome: OutcomeView) -> bool {
    match outcome {
        OutcomeView::Selected { option_kind, .. } => option_kind == PermissionOptionKind::AllowOnce
            || option_kind == PermissionOptionKind::AllowAlways,
        OutcomeView::Cancelled => false,
    }
}

/// What Codex is told: the permissions that it asked for, for the turn or for the
/// session, or none.
pub open spec fn permissions_reply(params: JsonView, outcome: OutcomeView) -> JsonView {
    let permissions = if allows(outcome) {
        match params.get("permissions"@) {
            Some(permissions) => permissions,
            None => JsonView::Object(fields()),
        }
    } else {
        JsonView::Object(fields())
    };
    let scope = match outcome {
        OutcomeView::Selected { option_kind: PermissionOptionKind::AllowAlways, .. } => "session"@,
        _ => "turn"@,
    };
    JsonView::Object(
        fields().push(("permissions"@, permissions)).push(("scope"@, JsonView::Text(scope))),
    )
}

/// The question that is asked before Codex gets more permissions.
pub fn permissions_request<S>(params: &Json, sessions: &Table<S>) -> (request: Result<
    PermissionRequest,
    String,
>)
    ensures
        request_view(request) == permissions_question(params@, sessions@.dom()),
{
    let thread = match required_string(params, "threadId") {
        Ok(thread) => thread,
        Err(error) => return Err(error),
    };
    let item = match required_string(params, "itemId") {
        Ok(item) => item,
        Err(error) => return Err(error),
    };
    if sessions.get(thread.as_str()).is_none() {
        return Err("permissions request for unknown Codex thread".to_owned());
    }
    let content = or_text(params.text_at("reason"), "Codex requested additional permissions.");
    let mut options = no_options();
    push_option(
        &mut options,
        "allow-for-session",
        "Allow for session",
        PermissionOptionKind::AllowAlways,
    );
    push_option(&mut options, "allow", "Allow", PermissionOptionKind::AllowOnce);
    push_option(&mut options, "cancel", "Cancel", PermissionOptionKind::RejectOnce);
    Ok(
        PermissionRequest {
            session: thread,
            tool_call: pending_call(
                item.as_str(),
                ToolKind::Other,
                "Approve permissions",
                content.to_owned(),
                params,
            ),
            options,
        },
    )
}

/// Whether an answer allows what was asked.
pub fn is_allowed(outcome: &PermissionOutcome) -> (allowed: bool)
    ensures
        allowed == allows(outcome@),
{
    match outcome {
        PermissionOutcome::Selected { option_kind, .. } => *option_kind
            == PermissionOptionKind::AllowOnce || *option_kind == PermissionOptionKind::AllowAlways,
        PermissionOutcome::Cancelled => false,
    }
}

/// What Codex is told of the answer to a question for more permissions.
pub fn permissions_response(params: &Json, outcome: &PermissionOutcome) -> (reply: Json)
    ensures
        reply@ == permissions_reply(params@, outcome@),
{
    let permissions = if is_allowed(outcome) {
        match params.get("permissions") {
            Some(permissions) => permissions.copy(),
            None => Json::object(no_entries()),
        }
    } else {
        Json::object(no_entries())
    };
    let scope = match outcome {
        PermissionOutcome::Selected { option_kind, .. } => if *option_kind
            == PermissionOptionKind::AllowAlways {
            "session"
        } else {
            "turn"
        },
        PermissionOutcome::Cancelled => "turn",
    };
    let entries = with(no_entries(), "permissions", permissions);
    Json::object(with(entries, "scope", Json::text(scope)))
}

/// Permissions that were not allowed are not given.
pub proof fn refused_permissions_are_not_given(params: JsonView, outcome: OutcomeView)
    requires
        !allows(outcome),
    ensures
        permissions_reply(params, outcome).get("permissions"@) == Some(JsonView::Object(fields())),
{
    broadcast use found_in_more;

    reveal_strlit("permissions");
    reveal_strlit("scope");
    assert("permissions"@.len() != "scope"@.len());
}

} // verus!
