//! What questions come to: each law follows a request of the app-server through the
//! question that is put, the choice that is made and the reply that is sent.

use vstd::prelude::*;

use crate::approvals::{
    approval_choices, approval_reply, network_choice, network_choice_leads_to_its_rule,
    network_choices, network_choices_lead_to_rules, OutcomeView, PermissionRequestView,
};
use crate::json::{fields, find_entry, found_in_more, key_index, put, JsonView};
use crate::laws::settings::joined_add_up;
use crate::laws::updates::silent;
use crate::laws::words::{choice_ids, request_names};
use crate::protocol::{
    ContentView, PermissionOptionKind, ToolCallStatus, ToolCallUpdateView, ToolKind,
};
use crate::server_requests::{
    asking_failure, request_action, request_reply, ServerActionView, ServerReplyView,
};
use crate::text::{is_blank, joined, trimmed, unsigned_value};
use crate::user_input::{
    answers_of, chosen_answers_are_told, empty_answers, input_choices, labelled_options,
    option_lines, question_lines, questions_lines, selectable,
};

verus! {

/// Whether a method asks to approve a command or a change to files.
pub open spec fn asks_for_approval(method: Seq<char>) -> bool {
    method == "item/commandExecution/requestApproval"@ || method
        == "item/fileChange/requestApproval"@
}

/// The choice that stands at a place in a question.
pub open spec fn chosen(question: PermissionRequestView, i: int) -> OutcomeView {
    OutcomeView::Selected {
        option_id: question.options[i].id,
        option_kind: question.options[i].kind,
    }
}

/// Whether a kind of choice rejects.
pub open spec fn rejects(kind: PermissionOptionKind) -> bool {
    kind == PermissionOptionKind::RejectOnce || kind == PermissionOptionKind::RejectAlways
}

/// An object of a single field.
pub open spec fn object_of(key: Seq<char>, value: JsonView) -> JsonView {
    JsonView::Object(fields().push((key, value)))
}

/// Whether the id of a choice names one of the rules for the network that a request
/// proposes, by its index.
pub open spec fn names_a_rule(params: JsonView, id: Seq<char>) -> bool {
    let head = "applyNetworkPolicyAmendment:"@;
    &&& id.len() >= head.len()
    &&& id.take(head.len() as int) == head
    &&& unsigned_value(id.skip(head.len() as int), usize::MAX as nat) matches Some(i)
        && i < params.items_at("proposedNetworkPolicyAmendments"@).len()
}

/// A choice that rejects once, and names no rule for the network, is told to Codex by
/// its own id, whatever the id of the choice that allows.
pub proof fn rejections_are_told_by_their_id(params: JsonView, id: Seq<char>, allow: Seq<char>)
    requires
        !names_a_rule(params, id),
    ensures
        approval_reply(
            params,
            OutcomeView::Selected {
                option_id: id,
                option_kind: PermissionOptionKind::RejectOnce,
            },
            allow,
        ) == object_of("decision"@, JsonView::Text(id)),
{
}

/// The same holds of the reply that is sent for a command and for a change to files,
/// and such a reply comes with no update and opens nothing.
pub proof fn rejections_reach_codex(method: Seq<char>, params: JsonView, id: Seq<char>)
    requires
        asks_for_approval(method),
        !names_a_rule(params, id),
    ensures
        request_reply(
            method,
            params,
            OutcomeView::Selected {
                option_id: id,
                option_kind: PermissionOptionKind::RejectOnce,
            },
        ) == (ServerReplyView {
            result: object_of("decision"@, JsonView::Text(id)),
            update: None,
            url: None,
        }),
{
    request_names();
}

/// A question that nobody answers is told to Codex as cancelled.
pub proof fn unanswered_approvals_are_cancelled(method: Seq<char>, params: JsonView)
    requires
        asks_for_approval(method),
    ensures
        request_reply(method, params, OutcomeView::Cancelled).result == object_of(
            "decision"@,
            JsonView::Text("cancel"@),
        ),
{
    request_names();
}

/// Each choice of a question for approval leads to the decision that it stands for. The
/// choice that allows once says to accept, the one that allows for the session says to
/// accept for the session, the one that remembers a command carries the pattern that was
/// proposed, one that names a rule for the network carries that rule, and one that
/// rejects never says to accept.
pub proof fn approvals_follow_the_choice(
    method: Seq<char>,
    params: JsonView,
    known: Set<Seq<char>>,
    now: i64,
    question: PermissionRequestView,
    i: int,
)
    requires
        asks_for_approval(method),
        request_action(method, params, known, now) == ServerActionView::Ask(question),
        0 <= i < question.options.len(),
        params.items_at("proposedNetworkPolicyAmendments"@).len() <= usize::MAX,
    ensures
        ({
            let option = question.options[i];
            let told = request_reply(method, params, chosen(question, i)).result;
            let said = told.get("decision"@)->0;
            let rules = params.items_at("proposedNetworkPolicyAmendments"@);
            &&& told == object_of("decision"@, said)
            &&& option.kind == PermissionOptionKind::AllowOnce ==> said == JsonView::Text(
                "accept"@,
            ) && option.name == "Allow"@
            &&& option.kind == PermissionOptionKind::RejectOnce ==> said == JsonView::Text(
                option.id,
            ) && (option.id == "decline"@ && option.name == "Deny"@ || option.id == "cancel"@
                && option.name == "Cancel"@)
            &&& rejects(option.kind) ==> said != JsonView::Text("accept"@) && said
                != JsonView::Text("acceptForSession"@)
            &&& i == 0 ==> option.kind == PermissionOptionKind::AllowOnce
            &&& i == 1 ==> option.name == "Allow for session"@ && option.kind
                == PermissionOptionKind::AllowAlways && said == JsonView::Text("acceptForSession"@)
            &&& i == question.options.len() - 2 ==> option.kind == PermissionOptionKind::RejectOnce
                && option.id == "decline"@
            &&& i == question.options.len() - 1 ==> option.kind == PermissionOptionKind::RejectOnce
                && option.id == "cancel"@
            &&& question.options.len() >= 4
            &&& option.id == "acceptWithExecpolicyAmendment"@ ==> said == object_of(
                "acceptWithExecpolicyAmendment"@,
                object_of(
                    "execpolicy_amendment"@,
                    params.get("proposedExecpolicyAmendment"@)->0,
                ),
            )
            &&& 1 < i < question.options.len() - 2 && params.items_at(
                "proposedExecpolicyAmendment"@,
            ).len() == 0 ==> exists|j: int|
                0 <= j < rules.len() && said == object_of(
                    "applyNetworkPolicyAmendment"@,
                    object_of("network_policy_amendment"@, #[trigger] rules[j]),
                ) && (option.kind == PermissionOptionKind::RejectAlways <==> rules[j].text_at(
                    "action"@,
                ) == Some("deny"@))
        }),
{
    broadcast use found_in_more;

    request_names();
    choice_ids();
    reveal_strlit("acceptWithExecpolicyAmendment");
    reveal_strlit("applyNetworkPolicyAmendment:");
    let option = question.options[i];
    let rules = params.items_at("proposedNetworkPolicyAmendments"@);
    let head = "applyNetworkPolicyAmendment:"@;
    assert(question.options == approval_choices(params, "accept"@, "decline"@));
    let told = request_reply(method, params, chosen(question, i)).result;
    let said = told.get("decision"@)->0;
    assert(told.get("decision"@) == Some(told->Object_0[0].1));
    if i < 2 || i >= question.options.len() - 2 {
    } else if params.items_at("proposedExecpolicyAmendment"@).len() > 0 {
        assert(option.id == "acceptWithExecpolicyAmendment"@);
        assert(option.id.take(head.len() as int)[1] == 'c');
    } else {
        assert(option == network_choices(rules)[i - 2]);
        let at = network_choices_lead_to_rules(params, i - 2);
        assert(network_choice(rules[at as int], at) == Some(option));
        assert(option.id[1] == 'p');
        assert(said == object_of(
            "applyNetworkPolicyAmendment"@,
            object_of("network_policy_amendment"@, rules[at as int]),
        ));
    }
}

/// Where a pattern of commands is proposed it is offered to remember it, and no rule for the
/// network is offered.
pub proof fn proposed_patterns_are_offered(
    method: Seq<char>,
    params: JsonView,
    known: Set<Seq<char>>,
    now: i64,
    question: PermissionRequestView,
)
    requires
        asks_for_approval(method),
        request_action(method, params, known, now) == ServerActionView::Ask(question),
        params.items_at("proposedExecpolicyAmendment"@).len() > 0,
    ensures
        question.options.len() == 5,
        question.options[2].id == "acceptWithExecpolicyAmendment"@,
        question.options[2].name == "Allow and remember this command pattern"@,
        question.options[2].kind == PermissionOptionKind::AllowAlways,
{
    request_names();
}

/// Every rule for the network that is proposed for a host is offered, to block the host or to
/// allow it, and choosing it tells Codex that rule; without a rule there is no such choice.
pub proof fn proposed_rules_are_offered(
    method: Seq<char>,
    params: JsonView,
    known: Set<Seq<char>>,
    now: i64,
    question: PermissionRequestView,
    j: int,
    host: Seq<char>,
) -> (i: int)
    requires
        asks_for_approval(method),
        request_action(method, params, known, now) == ServerActionView::Ask(question),
        params.items_at("proposedExecpolicyAmendment"@).len() == 0,
        params.items_at("proposedNetworkPolicyAmendments"@).len() <= usize::MAX,
        0 <= j < params.items_at("proposedNetworkPolicyAmendments"@).len(),
        params.items_at("proposedNetworkPolicyAmendments"@)[j].text_at("host"@) == Some(host),
    ensures
        ({
            let rule = params.items_at("proposedNetworkPolicyAmendments"@)[j];
            let option = question.options[i];
            let denies = rule.text_at("action"@) == Some("deny"@);
            &&& 1 < i < question.options.len() - 2
            &&& denies ==> option.kind == PermissionOptionKind::RejectAlways && option.name
                == "Block `"@ + host + "` for future requests"@
            &&& !denies ==> option.kind == PermissionOptionKind::AllowAlways && option.name
                == "Allow `"@ + host + "` for future requests"@
            &&& request_reply(method, params, chosen(question, i)).result == object_of(
                "decision"@,
                object_of(
                    "applyNetworkPolicyAmendment"@,
                    object_of("network_policy_amendment"@, rule),
                ),
            )
        }),
{
    request_names();
    let rules = params.items_at("proposedNetworkPolicyAmendments"@);
    let at = network_choice_place(rules, j);
    network_choice_leads_to_its_rule(params, j as nat);
    assert(question.options == approval_choices(params, "accept"@, "decline"@));
    assert(question.options[at + 2] == network_choices(rules)[at]);
    at + 2
}

/// A rule for a host has a place among the choices for rules.
proof fn network_choice_place(rules: Seq<JsonView>, j: int) -> (i: int)
    requires
        0 <= j < rules.len(),
        rules[j].text_at("host"@) is Some,
    ensures
        0 <= i < network_choices(rules).len(),
        network_choice(rules[j], j as nat) == Some(network_choices(rules)[i]),
    decreases rules.len(),
{
    let init = rules.drop_last();
    if j < init.len() {
        assert(init[j] == rules[j]);
        network_choice_place(init, j)
    } else {
        network_choices(init).len() as int
    }
}

/// An object of two fields.
pub open spec fn object_of_two(
    key: Seq<char>,
    value: JsonView,
    next: Seq<char>,
    other: JsonView,
) -> JsonView {
    JsonView::Object(fields().push((key, value)).push((next, other)))
}

/// The update that ends a question: its status, and what is said of it.
pub open spec fn end_of_question(
    id: Seq<char>,
    status: ToolCallStatus,
    said: Seq<char>,
) -> ToolCallUpdateView {
    ToolCallUpdateView {
        status: Some(status),
        content: Some(seq![ContentView::Text(said)]),
        ..silent(id)
    }
}

/// That a question is put in the thread that a request names, and shows, as waiting, the
/// request that it is about.
pub open spec fn shows_request(
    question: PermissionRequestView,
    params: JsonView,
    kind: ToolKind,
    title: Seq<char>,
) -> bool {
    &&& params.text_at("threadId"@) == Some(question.session)
    &&& question.tool_call.raw_input == Some(params)
    &&& question.tool_call.status == Some(ToolCallStatus::Pending)
    &&& question.tool_call.kind == Some(kind)
    &&& question.tool_call.title == Some(title)
    &&& question.tool_call.content is Some
    &&& question.tool_call.content->0.len() == 1
}

/// A request to approve a command or a change to files is put to the user exactly where
/// it names an item in a thread that is known. The question is about that item, under the
/// command where one is named, and gives the reason where there is one, or else what is to
/// be run and where.
pub proof fn approvals_are_asked_about_their_item(
    method: Seq<char>,
    params: JsonView,
    known: Set<Seq<char>>,
    now: i64,
)
    requires
        asks_for_approval(method),
    ensures
        ({
            let action = request_action(method, params, known, now);
            let question = action->Ask_0;
            let thread = params.text_at("threadId"@);
            let item = params.text_at("itemId"@);
            let command = params.text_at("command"@);
            let cwd = params.text_at("cwd"@);
            let shown = question.tool_call.content->0[0]->Text_0;
            &&& action is Ask <==> thread is Some && known.contains(thread->0) && item is Some
            &&& action is Ask || action is Reject
            &&& thread is None ==> action == ServerActionView::Reject("missing `threadId`"@)
            &&& thread is Some && item is None ==> action == ServerActionView::Reject(
                "missing `itemId`"@,
            )
            &&& thread is Some && item is Some && !known.contains(thread->0) ==> action
                == ServerActionView::Reject("approval request for unknown Codex thread"@)
            &&& action is Ask ==> {
                &&& item == Some(question.tool_call.id)
                &&& shows_request(
                    question,
                    params,
                    ToolKind::Execute,
                    if command is Some && !is_blank(command->0) {
                        command->0
                    } else if method == "item/commandExecution/requestApproval"@ {
                        "Run command"@
                    } else {
                        "Apply file changes"@
                    },
                )
                &&& question.tool_call.content->0[0] is Text
                &&& params.text_at("reason"@) matches Some(reason) ==> shown == reason
                &&& params.text_at("reason"@) is None ==> shown == (match (command, cwd) {
                    (Some(run), Some(place)) => "Command: `"@ + run + "`"@ + "\n"@
                        + "Directory: `"@ + place + "`"@,
                    (Some(run), None) => "Command: `"@ + run + "`"@,
                    (None, Some(place)) => "Directory: `"@ + place + "`"@,
                    (None, None) => "Codex requested approval."@,
                })
            }
        }),
{
    request_names();
    missing_fields_are_named();
    reveal_with_fuel(crate::text::joined, 3);
    let question = request_action(method, params, known, now)->Ask_0;
    let shown = question.tool_call.content->0[0]->Text_0;
    if let (Some(run), Some(place)) = (params.text_at("command"@), params.text_at("cwd"@)) {
        let first = "Command: `"@ + run + "`"@;
        let second = "Directory: `"@ + place + "`"@;
        let lines = seq![first].push(second);
        assert(lines.drop_last() =~= seq![first]);
        assert(first + "\n"@ + second =~= first + "\n"@ + "Directory: `"@ + place + "`"@);
    }
    if let (None, Some(place)) = (params.text_at("command"@), params.text_at("cwd"@)) {
        let second = "Directory: `"@ + place + "`"@;
        assert(Seq::<Seq<char>>::empty().push(second)[0] == second);
    }
}

/// What is said of a field that is missing.
proof fn missing_fields_are_named()
    ensures
        "missing `"@ + "threadId"@ + "`"@ == "missing `threadId`"@,
        "missing `"@ + "itemId"@ + "`"@ == "missing `itemId`"@,
{
    reveal_strlit("missing `");
    reveal_strlit("threadId");
    reveal_strlit("itemId");
    reveal_strlit("`");
    reveal_strlit("missing `threadId`");
    reveal_strlit("missing `itemId`");
    assert("missing `"@ + "threadId"@ + "`"@ =~= "missing `threadId`"@);
    assert("missing `"@ + "itemId"@ + "`"@ =~= "missing `itemId`"@);
}

/// The time is answered at once, as the seconds that were read.
pub proof fn the_time_is_answered(params: JsonView, known: Set<Seq<char>>, now: i64)
    ensures
        request_action("currentTime/read"@, params, known, now) == ServerActionView::Answer(
            object_of("currentTimeAt"@, JsonView::Int(now as int)),
        ),
{
    request_names();
}

/// A request of any other name is rejected by its name.
pub proof fn other_requests_are_rejected(
    method: Seq<char>,
    params: JsonView,
    known: Set<Seq<char>>,
    now: i64,
)
    requires
        !asks_for_approval(method),
        method != "item/permissions/requestApproval"@,
        method != "item/tool/requestUserInput"@,
        method != "mcpServer/elicitation/request"@,
        method != "currentTime/read"@,
    ensures
        request_action(method, params, known, now) == ServerActionView::Reject(
            "unsupported Codex app-server request `"@ + method + "`"@,
        ),
{
}

/// A request for permissions is put to the user exactly where it names an item in a thread
/// that is known. What was asked for is given where the user allows it, for the session
/// where they allow it always and else for the turn, and nothing is given otherwise.
pub proof fn permissions_follow_the_choice(
    params: JsonView,
    known: Set<Seq<char>>,
    now: i64,
    outcome: OutcomeView,
)
    ensures
        ({
            let method = "item/permissions/requestApproval"@;
            let action = request_action(method, params, known, now);
            let question = action->Ask_0;
            let thread = params.text_at("threadId"@);
            let item = params.text_at("itemId"@);
            let reply = request_reply(method, params, outcome);
            let nothing = JsonView::Object(fields());
            let asked = match params.get("permissions"@) {
                Some(permissions) => permissions,
                None => nothing,
            };
            &&& action is Ask <==> thread is Some && known.contains(thread->0) && item is Some
            &&& thread is None ==> action == ServerActionView::Reject("missing `threadId`"@)
            &&& thread is Some && item is None ==> action == ServerActionView::Reject(
                "missing `itemId`"@,
            )
            &&& thread is Some && item is Some && !known.contains(thread->0) ==> action
                == ServerActionView::Reject("permissions request for unknown Codex thread"@)
            &&& action is Ask ==> {
                &&& item == Some(question.tool_call.id)
                &&& shows_request(question, params, ToolKind::Other, "Approve permissions"@)
                &&& question.tool_call.content->0[0] == ContentView::Text(
                    match params.text_at("reason"@) {
                        Some(reason) => reason,
                        None => "Codex requested additional permissions."@,
                    },
                )
                &&& question.options.len() == 3
                &&& question.options[0].kind == PermissionOptionKind::AllowAlways
                &&& question.options[0].name == "Allow for session"@
                &&& question.options[1].kind == PermissionOptionKind::AllowOnce
                &&& question.options[1].name == "Allow"@
                &&& question.options[2].kind == PermissionOptionKind::RejectOnce
                &&& question.options[2].name == "Cancel"@
            }
            &&& reply.update is None && reply.url is None
            &&& match outcome {
                OutcomeView::Selected { option_kind, .. } => match option_kind {
                    PermissionOptionKind::AllowAlways => reply.result == object_of_two(
                        "permissions"@,
                        asked,
                        "scope"@,
                        JsonView::Text("session"@),
                    ),
                    PermissionOptionKind::AllowOnce => reply.result == object_of_two(
                        "permissions"@,
                        asked,
                        "scope"@,
                        JsonView::Text("turn"@),
                    ),
                    _ => reply.result == object_of_two(
                        "permissions"@,
                        nothing,
                        "scope"@,
                        JsonView::Text("turn"@),
                    ),
                },
                OutcomeView::Cancelled => reply.result == object_of_two(
                    "permissions"@,
                    nothing,
                    "scope"@,
                    JsonView::Text("turn"@),
                ),
            }
        }),
{
    request_names();
    missing_fields_are_named();
}

/// Whether a request for input has a single question, and one that is no secret.
pub open spec fn asks_openly(params: JsonView) -> bool {
    let questions = params.items_at("questions"@);
    questions.len() == 1 && questions[0].bool_at("isSecret"@) != Some(true)
}

/// The answers that a reply gives to a single question.
pub open spec fn single_answer(id: Seq<char>, label: Seq<char>) -> JsonView {
    object_of(
        "answers"@,
        object_of(id, object_of("answers"@, JsonView::Array(seq![JsonView::Text(label)]))),
    )
}

/// A request for input is put to the user exactly where it names an item in a thread that
/// is known, and the last choice is always to cancel.
pub proof fn input_is_asked_about_its_item(params: JsonView, known: Set<Seq<char>>, now: i64)
    ensures
        ({
            let action = request_action("item/tool/requestUserInput"@, params, known, now);
            let question = action->Ask_0;
            let thread = params.text_at("threadId"@);
            let item = params.text_at("itemId"@);
            &&& action is Ask <==> thread is Some && known.contains(thread->0) && item is Some
            &&& thread is None ==> action == ServerActionView::Reject("missing `threadId`"@)
            &&& thread is Some && item is None ==> action == ServerActionView::Reject(
                "missing `itemId`"@,
            )
            &&& thread is Some && item is Some && !known.contains(thread->0) ==> action
                == ServerActionView::Reject("user input request for unknown Codex thread"@)
            &&& action is Ask ==> {
                &&& item == Some(question.tool_call.id)
                &&& shows_request(question, params, ToolKind::Other, "Answer Codex prompt"@)
                &&& question.options.len() >= 2
                &&& question.options.last().kind == PermissionOptionKind::RejectOnce
                &&& question.options.last().name == "Cancel"@
                &&& question.options.last().id == "cancel"@
                &&& forall|i: int|
                    0 <= i < question.options.len() - 1 ==> (
                    #[trigger] question.options[i]).kind == PermissionOptionKind::AllowOnce
            }
        }),
{
    request_names();
    missing_fields_are_named();
}

/// Each option of a single question that has a label is offered under that label, and
/// choosing it answers the question with it. Where every option has a label they are
/// offered in their order, with the choice to cancel behind them.
pub proof fn options_can_be_answered(
    params: JsonView,
    known: Set<Seq<char>>,
    now: i64,
    question: PermissionRequestView,
    id: Seq<char>,
    j: int,
    label: Seq<char>,
) -> (i: int)
    requires
        request_action("item/tool/requestUserInput"@, params, known, now) == ServerActionView::Ask(
            question,
        ),
        asks_openly(params),
        params.items_at("questions"@)[0].text_at("id"@) == Some(id),
        params.items_at("questions"@)[0].items_at("options"@).len() <= usize::MAX,
        0 <= j < params.items_at("questions"@)[0].items_at("options"@).len(),
        params.items_at("questions"@)[0].items_at("options"@)[j].text_at("label"@) == Some(label),
    ensures
        0 <= i < question.options.len() - 1,
        question.options[i].name == label,
        ({
            let reply = request_reply("item/tool/requestUserInput"@, params, chosen(question, i));
            &&& reply.result == single_answer(id, label)
            &&& reply.update == Some(
                end_of_question(
                    question.tool_call.id,
                    ToolCallStatus::Completed,
                    "Answered Codex prompt."@,
                ),
            )
            &&& reply.url is None
        }),
        ({
            let options = params.items_at("questions"@)[0].items_at("options"@);
            (forall|k: int| 0 <= k < options.len() ==> (#[trigger] options[k]).text_at("label"@) is Some)
                ==> i == j && question.options.len() == options.len() + 1
        }),
{
    request_names();
    choice_ids();
    let options = params.items_at("questions"@)[0].items_at("options"@);
    let i = labelled_option_place(options, j);
    if forall|k: int| 0 <= k < options.len() ==> (#[trigger] options[k]).text_at("label"@) is Some {
        all_labelled_options(options);
    }
    assert(selectable(params) == labelled_options(options));
    chosen_answers_are_told(params, id, i);
    assert(question.options == input_choices(params));
    i
}

/// Every choice of a single question but the last stands for one of its options, and
/// answers the question with the label that the choice shows.
pub proof fn answers_follow_the_choice(
    params: JsonView,
    known: Set<Seq<char>>,
    now: i64,
    question: PermissionRequestView,
    id: Seq<char>,
    i: int,
) -> (j: int)
    requires
        request_action("item/tool/requestUserInput"@, params, known, now) == ServerActionView::Ask(
            question,
        ),
        asks_openly(params),
        params.items_at("questions"@)[0].text_at("id"@) == Some(id),
        params.items_at("questions"@)[0].items_at("options"@).len() <= usize::MAX,
        exists|k: int|
            0 <= k < params.items_at("questions"@)[0].items_at("options"@).len() && (
            #[trigger] params.items_at("questions"@)[0].items_at("options"@)[k]).text_at("label"@)
                is Some,
        0 <= i < question.options.len() - 1,
    ensures
        0 <= j < params.items_at("questions"@)[0].items_at("options"@).len(),
        params.items_at("questions"@)[0].items_at("options"@)[j].text_at("label"@) == Some(
            question.options[i].name,
        ),
        request_reply("item/tool/requestUserInput"@, params, chosen(question, i)).result
            == single_answer(id, question.options[i].name),
{
    request_names();
    let options = params.items_at("questions"@)[0].items_at("options"@);
    let k = choose|k: int|
        0 <= k < options.len() && (#[trigger] options[k]).text_at("label"@) is Some;
    let place = labelled_option_place(options, k);
    assert(selectable(params) == labelled_options(options));
    assert(question.options == input_choices(params));
    chosen_answers_are_told(params, id, i);
    labelled_option_source(options, i);
    labelled_options(options)[i].0 as int
}

/// An option with a label has a place among the labelled ones.
proof fn labelled_option_place(options: Seq<JsonView>, j: int) -> (i: int)
    requires
        0 <= j < options.len(),
        options[j].text_at("label"@) is Some,
    ensures
        0 <= i < labelled_options(options).len(),
        labelled_options(options)[i].0 == j,
        Some(labelled_options(options)[i].1) == options[j].text_at("label"@),
        (forall|k: int| 0 <= k < options.len() ==> (#[trigger] options[k]).text_at("label"@) is Some)
            ==> i == j,
    decreases options.len(),
{
    let init = options.drop_last();
    if j < init.len() {
        assert(forall|k: int| 0 <= k < init.len() ==> #[trigger] init[k] == options[k]);
        labelled_option_place(init, j)
    } else {
        if forall|k: int| 0 <= k < options.len() ==> (#[trigger] options[k]).text_at("label"@) is Some {
            assert(forall|k: int| 0 <= k < init.len() ==> #[trigger] init[k] == options[k]);
            all_labelled_options(init);
        }
        labelled_options(init).len() as int
    }
}

/// Options that all have labels are all labelled.
proof fn all_labelled_options(options: Seq<JsonView>)
    requires
        forall|k: int| 0 <= k < options.len() ==> (#[trigger] options[k]).text_at("label"@) is Some,
    ensures
        labelled_options(options).len() == options.len(),
    decreases options.len(),
{
    if options.len() > 0 {
        let init = options.drop_last();
        assert(forall|k: int| 0 <= k < init.len() ==> #[trigger] init[k] == options[k]);
        assert(options.last() == options[options.len() - 1]);
        all_labelled_options(init);
    }
}

/// Options without labels are not labelled.
proof fn unlabelled_options_have_no_place(options: Seq<JsonView>)
    requires
        forall|k: int| 0 <= k < options.len() ==> (#[trigger] options[k]).text_at("label"@) is None,
    ensures
        labelled_options(options).len() == 0,
    decreases options.len(),
{
    if options.len() > 0 {
        let init = options.drop_last();
        assert(forall|k: int| 0 <= k < init.len() ==> #[trigger] init[k] == options[k]);
        assert(options[options.len() - 1].text_at("label"@) is None);
        unlabelled_options_have_no_place(init);
    }
}

/// A labelled option is one of the options.
proof fn labelled_option_source(options: Seq<JsonView>, i: int)
    requires
        0 <= i < labelled_options(options).len(),
    ensures
        labelled_options(options)[i].0 < options.len(),
        options[labelled_options(options)[i].0 as int].text_at("label"@) == Some(
            labelled_options(options)[i].1,
        ),
    decreases options.len(),
{
    let init = options.drop_last();
    if i < labelled_options(init).len() {
        labelled_option_source(init, i);
    }
}

/// Where nothing can be chosen, an empty response can be submitted: it answers every
/// question that has an id with nothing, and no other.
pub proof fn empty_responses_answer_every_question(
    params: JsonView,
    known: Set<Seq<char>>,
    now: i64,
    question: PermissionRequestView,
)
    requires
        request_action("item/tool/requestUserInput"@, params, known, now) == ServerActionView::Ask(
            question,
        ),
        asks_openly(params) ==> forall|k: int|
            0 <= k < params.items_at("questions"@)[0].items_at("options"@).len() ==> (
            #[trigger] params.items_at("questions"@)[0].items_at("options"@)[k]).text_at("label"@)
                is None,
    ensures
        question.options.len() == 2,
        question.options[0].name == "Submit empty response"@,
        ({
            let reply = request_reply("item/tool/requestUserInput"@, params, chosen(question, 0));
            let questions = params.items_at("questions"@);
            let answers = reply.result->Object_0[0].1;
            &&& reply.result == object_of("answers"@, answers)
            &&& answers is Object
            &&& forall|k: int, id: Seq<char>|
                0 <= k < questions.len() && (#[trigger] questions[k]).text_at("id"@) == Some(id)
                    ==> #[trigger] answers.get(id) == Some(
                    object_of("answers"@, JsonView::Array(Seq::empty())),
                )
            &&& forall|id: Seq<char>| #[trigger]
                answers.get(id) is Some ==> exists|k: int|
                    0 <= k < questions.len() && (#[trigger] questions[k]).text_at("id"@) == Some(id)
            &&& reply.update == Some(
                end_of_question(
                    question.tool_call.id,
                    ToolCallStatus::Completed,
                    "Submitted empty response to Codex prompt."@,
                ),
            )
        }),
{
    request_names();
    choice_ids();
    let questions = params.items_at("questions"@);
    if asks_openly(params) {
        unlabelled_options_have_no_place(questions[0].items_at("options"@));
    }
    assert(selectable(params).len() == 0);
    assert(question.options == input_choices(params));
    assert(question.options[0].id == "submit-empty"@);
    reveal_strlit("submit-empty");
    reveal_strlit("answer:");
    assert("submit-empty"@.take(7)[0] == 's');
    let reply = request_reply("item/tool/requestUserInput"@, params, chosen(question, 0));
    let answers = reply.result->Object_0[0].1;
    assert(answers == JsonView::Object(empty_answers(questions)));
    assert forall|k: int, id: Seq<char>|
        0 <= k < questions.len() && (#[trigger] questions[k]).text_at("id"@) == Some(
            id,
        ) implies #[trigger] answers.get(id) == Some(
        object_of("answers"@, JsonView::Array(Seq::empty())),
    ) by {
        empty_answers_are_found(questions, k, id);
    }
    assert forall|id: Seq<char>| #[trigger] answers.get(id) is Some implies exists|k: int|
        0 <= k < questions.len() && (#[trigger] questions[k]).text_at("id"@) == Some(id) by {
        let k = empty_answer_source(questions, id);
        assert(questions[k].text_at("id"@) == Some(id));
    }
}

/// What is found once an entry has been put in.
pub proof fn found_once_put(
    entries: Seq<(Seq<char>, JsonView)>,
    key: Seq<char>,
    value: JsonView,
    other: Seq<char>,
)
    ensures
        find_entry(put(entries, key, value), other) == (if key == other {
            Some(value)
        } else {
            find_entry(entries, other)
        }),
    decreases entries.len(),
{
    broadcast use found_in_more;

    if let Some(i) = key_index(entries, key) {
        let init = entries.drop_last();
        let after = put(entries, key, value);
        if entries.last().0 == key {
            assert(after.drop_last() =~= init);
        } else {
            key_index_is_within(init, key);
            found_once_put(init, key, value, other);
            assert(after.drop_last() =~= put(init, key, value));
        }
    }
}

/// The index of a key is one of the entries.
proof fn key_index_is_within(entries: Seq<(Seq<char>, JsonView)>, key: Seq<char>)
    ensures
        key_index(entries, key) matches Some(i) ==> 0 <= i < entries.len(),
    decreases entries.len(),
{
    if entries.len() > 0 && entries.last().0 != key {
        key_index_is_within(entries.drop_last(), key);
    }
}

proof fn empty_answers_are_found(questions: Seq<JsonView>, k: int, id: Seq<char>)
    requires
        0 <= k < questions.len(),
        questions[k].text_at("id"@) == Some(id),
    ensures
        find_entry(empty_answers(questions), id) == Some(answers_of(Seq::empty())),
    decreases questions.len(),
{
    let init = questions.drop_last();
    let last = questions.last().text_at("id"@);
    if k < init.len() {
        assert(init[k] == questions[k]);
        empty_answers_are_found(init, k, id);
    }
    if let Some(name) = last {
        found_once_put(empty_answers(init), name, answers_of(Seq::empty()), id);
    }
}

proof fn empty_answer_source(questions: Seq<JsonView>, id: Seq<char>) -> (k: int)
    requires
        find_entry(empty_answers(questions), id) is Some,
    ensures
        0 <= k < questions.len(),
        questions[k].text_at("id"@) == Some(id),
    decreases questions.len(),
{
    let init = questions.drop_last();
    if let Some(name) = questions.last().text_at("id"@) {
        found_once_put(empty_answers(init), name, answers_of(Seq::empty()), id);
        if name == id {
            init.len() as int
        } else {
            empty_answer_source(init, id)
        }
    } else {
        empty_answer_source(init, id)
    }
}

/// A request for input that is cancelled, or answered by a choice that rejects, is told to
/// Codex with no answers, and shown as failed.
pub proof fn cancelled_input_gives_no_answers(params: JsonView, outcome: OutcomeView, item: Seq<char>)
    requires
        outcome matches OutcomeView::Selected { option_kind, .. } ==> rejects(option_kind),
        params.text_at("itemId"@) == Some(item),
    ensures
        ({
            let reply = request_reply("item/tool/requestUserInput"@, params, outcome);
            &&& reply.result == object_of("answers"@, JsonView::Object(fields()))
            &&& reply.update == Some(
                end_of_question(
                    item,
                    ToolCallStatus::Failed,
                    "User input request cancelled."@,
                ),
            )
            &&& reply.url is None
        }),
{
    request_names();
}

/// The line of a text that may be missing or blank.
pub open spec fn line_of(before: Seq<char>, text: Option<Seq<char>>, behind: Seq<char>) -> Seq<
    Seq<char>,
> {
    match text {
        Some(text) => if trimmed(text).len() == 0 {
            Seq::empty()
        } else {
            seq![before + trimmed(text) + behind]
        },
        None => Seq::empty(),
    }
}

/// The line of an option: its label, and its description where it has one.
pub open spec fn line_of_option(option: JsonView) -> Seq<char> {
    let head = "- "@ + option.text_at("label"@)->0;
    match option.text_at("description"@) {
        Some(description) => if description.len() > 0 {
            head + ": "@ + description
        } else {
            head
        },
        None => head,
    }
}

/// The lines of a question: its header, what it asks, whether it is a secret, and its options.
pub open spec fn lines_of_question(question: JsonView) -> Seq<Seq<char>> {
    let options = question.items_at("options"@);
    let secret = if question.bool_at("isSecret"@) == Some(true) {
        seq!["_Secret/freeform entry is not supported in this Zed bridge yet._"@]
    } else {
        Seq::empty()
    };
    line_of("\n**"@, question.text_at("header"@), "**"@) + line_of(
        Seq::empty(),
        question.text_at("question"@),
        Seq::empty(),
    ) + secret + Seq::new(options.len(), |i: int| line_of_option(options[i]))
}

/// What a request for input shows: nothing but that input is asked for where it has no
/// questions, and behind that the lines of each question, one question after the other.
pub proof fn questions_are_shown_one_by_one(
    params: JsonView,
    shorter: JsonView,
    known: Set<Seq<char>>,
    now: i64,
    asked: PermissionRequestView,
    asked_before: PermissionRequestView,
    questions: Seq<JsonView>,
    question: JsonView,
)
    requires
        request_action("item/tool/requestUserInput"@, params, known, now) == ServerActionView::Ask(
            asked,
        ),
        request_action("item/tool/requestUserInput"@, shorter, known, now) == ServerActionView::Ask(
            asked_before,
        ),
        params.get("questions"@) == Some(JsonView::Array(questions.push(question))),
        shorter.get("questions"@) == Some(JsonView::Array(questions)),
        forall|i: int|
            0 <= i < question.items_at("options"@).len() ==> (#[trigger] question.items_at(
                "options"@,
            )[i]).text_at("label"@) is Some,
    ensures
        ({
            let text = asked.tool_call.content->0[0]->Text_0;
            let before = asked_before.tool_call.content->0[0]->Text_0;
            let lines = lines_of_question(question);
            &&& questions.len() == 0 ==> before == "Codex requested input."@
            &&& lines.len() == 0 ==> text == before
            &&& lines.len() > 0 ==> text == before + "\n"@ + joined(lines, "\n"@)
        }),
{
    request_names();
    let all = questions.push(question);
    assert(all.drop_last() =~= questions);
    let head = seq!["Codex requested input."@];
    let before = head + questions_lines(questions);
    let lines = lines_of_question(question);
    question_lines_are_lines(question);
    assert(head + questions_lines(all) =~= before + lines);
    if lines.len() > 0 {
        joined_add_up(before, lines, "\n"@);
    } else {
        assert(before + lines =~= before);
    }
    if questions.len() == 0 {
        assert(before =~= head);
    }
}

proof fn question_lines_are_lines(question: JsonView)
    requires
        forall|i: int|
            0 <= i < question.items_at("options"@).len() ==> (#[trigger] question.items_at(
                "options"@,
            )[i]).text_at("label"@) is Some,
    ensures
        question_lines(question) == lines_of_question(question),
{
    reveal_strlit("");
    assert(""@ =~= Seq::<char>::empty());
    option_lines_are_lines(question.items_at("options"@));
    assert(question_lines(question) =~= lines_of_question(question));
}

proof fn option_lines_are_lines(options: Seq<JsonView>)
    requires
        forall|i: int| 0 <= i < options.len() ==> (#[trigger] options[i]).text_at("label"@) is Some,
    ensures
        option_lines(options) == Seq::new(options.len(), |i: int| line_of_option(options[i])),
    decreases options.len(),
{
    if options.len() > 0 {
        let init = options.drop_last();
        assert(forall|i: int| 0 <= i < init.len() ==> #[trigger] init[i] == options[i]);
        option_lines_are_lines(init);
        assert(options[options.len() - 1].text_at("label"@) is Some);
    }
    assert(option_lines(options) =~= Seq::new(
        options.len(),
        |i: int| line_of_option(options[i]),
    ));
}

/// A question that could not be put is told as what it was: one for permissions, for input, for
/// a server, or else for approval.
pub proof fn failed_questions_say_what_they_were(method: Seq<char>)
    ensures
        asking_failure("item/permissions/requestApproval"@)
            == "failed to request native Codex permissions approval"@,
        asking_failure("item/tool/requestUserInput"@) == "failed to request native Codex user input"@,
        asking_failure("mcpServer/elicitation/request"@)
            == "failed to request native Codex MCP elicitation"@,
        asks_for_approval(method) ==> asking_failure(method)
            == "failed to request native Codex approval"@,
{
    request_names();
}

} // verus!
