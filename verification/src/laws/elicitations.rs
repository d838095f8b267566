//! What requests for input by an MCP server come to: each law follows such a request
//! through its question and the choice that is made to the reply that is sent.

use vstd::prelude::*;

use crate::approvals::{OutcomeView, PermissionRequestView};
use crate::elicitation::{
    elicitation_choices, elicitation_text, form_choices, selected_choices_are_followed,
    ChoiceActionView, ChoiceView,
};
use crate::json::{found_in_more, JsonView};
use crate::json_text::inline_text;
use crate::laws::questions::{chosen, end_of_question, object_of, object_of_two, shows_request};
use crate::laws::words::{modes, reply_keys, request_names};
use crate::protocol::{ContentView, PermissionOptionKind, ToolCallStatus, ToolKind};
use crate::server_requests::{request_action, request_reply, ServerActionView};
use crate::text::joined;

verus! {

/// Whether a request has a form of a single field.
pub open spec fn asks_for_one_field(params: JsonView, field: Seq<char>, schema: JsonView) -> bool {
    &&& params.text_at("mode"@) == Some("form"@)
    &&& params.get2("requestedSchema"@, "properties"@) == Some(object_of(field, schema))
}

/// That a request is asked by a question.
pub open spec fn is_asked(
    params: JsonView,
    known: Set<Seq<char>>,
    now: i64,
    question: PermissionRequestView,
) -> bool {
    request_action("mcpServer/elicitation/request"@, params, known, now) == ServerActionView::Ask(
        question,
    )
}

/// That choosing what stands at a place accepts the request with some content, and shows
/// the question as completed. What the request says beside its form is handed back.
pub open spec fn accepts_with(
    params: JsonView,
    question: PermissionRequestView,
    i: int,
    content: JsonView,
    url: Option<Seq<char>>,
    said: Seq<char>,
) -> bool {
    let reply = request_reply("mcpServer/elicitation/request"@, params, chosen(question, i));
    &&& reply.result.get("action"@) == Some(JsonView::Text("accept"@))
    &&& reply.result.get("content"@) == Some(content)
    &&& reply.result.get("_meta"@) == params.get("_meta"@)
    &&& reply.url == url
    &&& reply.update == Some(
        end_of_question(question.tool_call.id, ToolCallStatus::Completed, said),
    )
}

/// A form whose only field is boolean offers two choices: the one labelled as true carries
/// true, and the one labelled as false carries false.
pub proof fn boolean_choices_carry_their_label(params: JsonView, field: Seq<char>, schema: JsonView)
    requires
        asks_for_one_field(params, field, schema),
        schema.text_at("type"@) == Some("boolean"@),
    ensures
        ({
            let choices = form_choices(params);
            &&& choices.len() == 2
            &&& forall|i: int|
                0 <= i < 2 ==> {
                    let choice = #[trigger] choices[i];
                    let said = choice.label == "true"@;
                    &&& said || choice.label == "false"@
                    &&& choice.option_id == "form:"@ + field + ":"@ + choice.label
                    &&& choice.kind == PermissionOptionKind::AllowOnce
                    &&& choice.action == (ChoiceActionView::FormValue {
                        property: field,
                        value: JsonView::Bool(said),
                    })
                }
            &&& choices[0].label != choices[1].label
        }),
{
    reveal_strlit("true");
    reveal_strlit("false");
}

/// Choosing true or false for a field tells the server the boolean that the choice is
/// labelled with.
pub proof fn booleans_are_told_as_labelled(
    params: JsonView,
    known: Set<Seq<char>>,
    now: i64,
    question: PermissionRequestView,
    field: Seq<char>,
    schema: JsonView,
    i: int,
)
    requires
        is_asked(params, known, now, question),
        asks_for_one_field(params, field, schema),
        schema.text_at("type"@) == Some("boolean"@),
        0 <= i < 2,
    ensures
        question.options.len() == 4,
        question.options[i].name == "true"@ || question.options[i].name == "false"@,
        question.options[0].name != question.options[1].name,
        accepts_with(
            params,
            question,
            i,
            object_of(field, JsonView::Bool(question.options[i].name == "true"@)),
            None,
            "Answered MCP elicitation."@,
        ),
{
    broadcast use found_in_more;

    request_names();
    reply_keys();
    modes();
    reveal_strlit("true");
    reveal_strlit("false");
    selected_choices_are_followed(params, i);
}

/// Each value that a field can take is offered, in the order of the values, and choosing it
/// tells the server that value.
pub proof fn listed_values_are_told(
    params: JsonView,
    known: Set<Seq<char>>,
    now: i64,
    question: PermissionRequestView,
    field: Seq<char>,
    schema: JsonView,
    values: Seq<JsonView>,
    i: int,
)
    requires
        is_asked(params, known, now, question),
        asks_for_one_field(params, field, schema),
        schema.text_at("type"@) != Some("boolean"@),
        schema.array_at("enum"@) == Some(values),
        0 <= i < values.len(),
        values[i] !is Object,
    ensures
        question.options.len() == values.len() + 2,
        question.options[i].kind == PermissionOptionKind::AllowOnce,
        schema.get("anyOf"@) is None && schema.get("oneOf"@) is None
            ==> question.options[i].name == inline_text(values[i]),
        schema.get("anyOf"@) matches Some(JsonView::Array(entries)) ==> (i < entries.len()
            && entries[i].text_at("title"@) is Some ==> Some(question.options[i].name)
            == entries[i].text_at("title"@)),
        accepts_with(
            params,
            question,
            i,
            object_of(field, values[i]),
            None,
            "Answered MCP elicitation."@,
        ),
{
    broadcast use found_in_more;

    request_names();
    reply_keys();
    modes();
    selected_choices_are_followed(params, i);
}

/// The value that an entry of a list stands for: its constant, or else the first value that it
/// allows, or else itself.
pub open spec fn value_of_entry(entry: JsonView) -> JsonView {
    match (entry.get("const"@), entry.get("enum"@)) {
        (Some(value), _) => value,
        (None, Some(JsonView::Array(allowed))) => if allowed.len() > 0 {
            allowed[0]
        } else {
            entry
        },
        _ => entry,
    }
}

/// Where a field takes one of several alternatives, each is offered under its title, or else
/// under its value, and choosing it tells the server that value.
pub proof fn titled_constants_are_told(
    params: JsonView,
    known: Set<Seq<char>>,
    now: i64,
    question: PermissionRequestView,
    field: Seq<char>,
    schema: JsonView,
    entries: Seq<JsonView>,
    i: int,
)
    requires
        is_asked(params, known, now, question),
        asks_for_one_field(params, field, schema),
        schema.text_at("type"@) != Some("boolean"@),
        schema.array_at("enum"@) is None,
        schema.get("anyOf"@) == Some(JsonView::Array(entries)) || (schema.get("anyOf"@) is None
            && schema.get("oneOf"@) == Some(JsonView::Array(entries))),
        0 <= i < entries.len(),
    ensures
        question.options.len() == entries.len() + 2,
        entries[i].text_at("title"@) matches Some(title) ==> question.options[i].name == title,
        entries[i].text_at("title"@) is None ==> question.options[i].name == inline_text(
            value_of_entry(entries[i]),
        ),
        accepts_with(
            params,
            question,
            i,
            object_of(field, value_of_entry(entries[i])),
            None,
            "Answered MCP elicitation."@,
        ),
{
    broadcast use found_in_more;

    request_names();
    reply_keys();
    modes();
    selected_choices_are_followed(params, i);
}

/// A request to visit a page offers to open it: choosing that opens exactly the page that
/// was named, and tells the server that it was accepted.
pub proof fn pages_are_opened(
    params: JsonView,
    known: Set<Seq<char>>,
    now: i64,
    question: PermissionRequestView,
    url: Seq<char>,
)
    requires
        is_asked(params, known, now, question),
        params.text_at("mode"@) == Some("url"@),
        params.text_at("url"@) == Some(url),
    ensures
        question.options.len() == 3,
        question.options[0].name == "Open"@,
        question.options[0].kind == PermissionOptionKind::AllowOnce,
        accepts_with(
            params,
            question,
            0,
            JsonView::Null,
            Some(url),
            "Opened MCP elicitation URL."@,
        ),
{
    broadcast use found_in_more;

    request_names();
    reply_keys();
    selected_choices_are_followed(params, 0);
}

/// That a reply refuses a request, opens nothing and shows the question as failed.
pub open spec fn refuses(
    params: JsonView,
    question: PermissionRequestView,
    outcome: OutcomeView,
    action: Seq<char>,
    said: Seq<char>,
) -> bool {
    let reply = request_reply("mcpServer/elicitation/request"@, params, outcome);
    &&& reply.result == object_of_two(
        "action"@,
        JsonView::Text(action),
        "content"@,
        JsonView::Null,
    )
    &&& reply.url is None
    &&& reply.update == Some(
        end_of_question(question.tool_call.id, ToolCallStatus::Failed, said),
    )
}

/// The last two choices of every question decline and cancel the request, and so does an
/// answer that never comes, or that is none of the choices.
pub proof fn requests_are_refused(
    params: JsonView,
    known: Set<Seq<char>>,
    now: i64,
    question: PermissionRequestView,
    id: Seq<char>,
    kind: PermissionOptionKind,
)
    requires
        is_asked(params, known, now, question),
        forall|i: int|
            0 <= i < question.options.len() ==> (#[trigger] question.options[i]).id != id,
    ensures
        question.options.len() >= 2,
        question.options[question.options.len() - 2].name == "Decline"@,
        question.options[question.options.len() - 1].name == "Cancel"@,
        question.options[question.options.len() - 2].kind == PermissionOptionKind::RejectOnce,
        question.options[question.options.len() - 1].kind == PermissionOptionKind::RejectOnce,
        refuses(
            params,
            question,
            chosen(question, question.options.len() - 2),
            "decline"@,
            "MCP elicitation declined."@,
        ),
        refuses(
            params,
            question,
            chosen(question, question.options.len() - 1),
            "cancel"@,
            "MCP elicitation cancelled."@,
        ),
        refuses(
            params,
            question,
            OutcomeView::Cancelled,
            "cancel"@,
            "MCP elicitation cancelled."@,
        ),
        refuses(
            params,
            question,
            OutcomeView::Selected { option_id: id, option_kind: kind },
            "cancel"@,
            "MCP elicitation cancelled."@,
        ),
{
    request_names();
    let choices = elicitation_choices(params);
    selected_choices_are_followed(params, choices.len() - 2);
    selected_choices_are_followed(params, choices.len() - 1);
    assert forall|i: int| 0 <= i < choices.len() implies (#[trigger] choices[i]).option_id != id by {
        assert(question.options[i].id == choices[i].option_id);
    }
    unknown_ids_are_not_found(choices, id);
}

proof fn unknown_ids_are_not_found(choices: Seq<ChoiceView>, id: Seq<char>)
    requires
        forall|i: int| 0 <= i < choices.len() ==> (#[trigger] choices[i]).option_id != id,
    ensures
        crate::elicitation::find_choice(choices, id) is None,
    decreases choices.len(),
{
    if choices.len() > 0 {
        assert(choices.last() == choices[choices.len() - 1]);
        unknown_ids_are_not_found(choices.drop_last(), id);
    }
}

/// A choice that accepts is offered only where the request names a page, or has a form of a
/// single field that takes one of several values.
pub proof fn other_forms_are_only_refused(
    params: JsonView,
    known: Set<Seq<char>>,
    now: i64,
    question: PermissionRequestView,
)
    requires
        is_asked(params, known, now, question),
        params.text_at("mode"@) != Some("url"@),
        params.text_at("mode"@) == Some("form"@) ==> match params.get2(
            "requestedSchema"@,
            "properties"@,
        ) {
            Some(JsonView::Object(entries)) => entries.len() != 1,
            _ => true,
        },
    ensures
        question.options.len() == 2,
        forall|i: int|
            0 <= i < 2 ==> (#[trigger] question.options[i]).kind
                == PermissionOptionKind::RejectOnce,
{
    request_names();
}

/// What a question says first: who asks, and what for.
pub open spec fn opening(params: JsonView) -> Seq<char> {
    (match params.text_at("serverName"@) {
        Some(server) => server,
        None => "MCP server"@,
    }) + " requested input."@ + "\n"@ + (match params.text_at("message"@) {
        Some(message) => message,
        None => "MCP server requested input."@,
    })
}

/// A request is put to the user exactly where it names a thread that is known. The question
/// says who asks, what for and which page it is about, and its end is shown under the id
/// that it was shown under.
pub proof fn requests_are_shown(
    params: JsonView,
    known: Set<Seq<char>>,
    now: i64,
    outcome: OutcomeView,
)
    ensures
        ({
            let method = "mcpServer/elicitation/request"@;
            let action = request_action(method, params, known, now);
            let question = action->Ask_0;
            let thread = params.text_at("threadId"@);
            let reply = request_reply(method, params, outcome);
            let shown = question.tool_call.content->0[0];
            &&& action is Ask <==> thread is Some && known.contains(thread->0)
            &&& thread is None ==> action == ServerActionView::Reject("missing `threadId`"@)
            &&& thread is Some && !known.contains(thread->0) ==> action == ServerActionView::Reject(
                "MCP elicitation request for unknown Codex thread"@,
            )
            &&& action is Ask ==> {
                &&& shows_request(question, params, ToolKind::Other, "MCP elicitation"@)
                &&& reply.update is Some && reply.update->0.id == question.tool_call.id
                &&& params.text_at("mode"@) != Some("form"@) ==> shown == ContentView::Text(
                    match params.text_at("url"@) {
                        Some(url) => opening(params) + "\n"@ + "URL: "@ + url,
                        None => opening(params),
                    },
                )
            }
        }),
{
    request_names();
    reveal_strlit("missing `");
    reveal_strlit("threadId");
    reveal_strlit("`");
    reveal_strlit("missing `threadId`");
    assert("missing `"@ + "threadId"@ + "`"@ =~= "missing `threadId`"@);
    reveal_with_fuel(joined, 4);
    let who = crate::text::text_or(params.text_at("serverName"@), "MCP server"@)
        + " requested input."@;
    let what = crate::text::text_or(params.text_at("message"@), "MCP server requested input."@);
    let head = seq![who].push(what);
    assert(head.drop_last() =~= seq![who]);
    assert(joined(head, "\n"@) == opening(params));
    assert(head + Seq::<Seq<char>>::empty() =~= head);
    if let Some(url) = params.text_at("url"@) {
        let page = head.push("URL: "@ + url);
        assert(page.drop_last() =~= head);
        assert(page + Seq::<Seq<char>>::empty() =~= page);
        assert(opening(params) + "\n"@ + ("URL: "@ + url) =~= opening(params) + "\n"@ + "URL: "@
            + url);
    }
}

/// The id of a question names the server and the request, so that questions of different
/// requests are told apart where they say so.
pub proof fn questions_are_named_after_their_request(
    params: JsonView,
    known: Set<Seq<char>>,
    now: i64,
    question: PermissionRequestView,
    server: Seq<char>,
    id: Seq<char>,
)
    requires
        is_asked(params, known, now, question),
        params.text_at("serverName"@) == Some(server),
        params.get("elicitationId"@) == Some(JsonView::Text(id)) || (params.get(
            "elicitationId"@,
        ) is None && params.get("turnId"@) == Some(JsonView::Text(id))),
    ensures
        question.tool_call.id == "mcp-elicitation:"@ + server + ":"@ + id,
{
    request_names();
}

/// A form names its fields behind who asks and what for, and says where it cannot be filled in:
/// where it has more than one field, or a field that takes other values than listed ones.
pub proof fn forms_name_their_fields(
    params: JsonView,
    known: Set<Seq<char>>,
    now: i64,
    question: PermissionRequestView,
    entries: Seq<(Seq<char>, JsonView)>,
)
    requires
        is_asked(params, known, now, question),
        params.text_at("mode"@) == Some("form"@),
        params.text_at("url"@) is None,
        params.get2("requestedSchema"@, "properties"@) == Some(JsonView::Object(entries)),
        entries.len() > 0,
    ensures
        ({
            let shown = question.tool_call.content->0[0];
            let names = Seq::new(entries.len(), |i: int| entries[i].0);
            let listed = opening(params) + "\n"@ + "Fields: "@ + joined(names, ", "@);
            let notice =
                "This form schema cannot be collected natively yet; decline or cancel to continue."@;
            let can_be_filled_in = question.options.len() > 2;
            &&& can_be_filled_in ==> entries.len() == 1
            &&& can_be_filled_in ==> shown == ContentView::Text(listed)
            &&& !can_be_filled_in ==> shown == ContentView::Text(listed + "\n"@ + notice)
        }),
{
    request_names();
    modes();
    reveal_with_fuel(joined, 5);
    let who = crate::text::text_or(params.text_at("serverName"@), "MCP server"@)
        + " requested input."@;
    let what = crate::text::text_or(params.text_at("message"@), "MCP server requested input."@);
    let head = seq![who].push(what);
    let names = Seq::new(entries.len(), |i: int| entries[i].0);
    assert(crate::elicitation::field_names(entries) =~= names);
    let fields = "Fields: "@ + joined(names, ", "@);
    let notice =
        "This form schema cannot be collected natively yet; decline or cancel to continue."@;
    assert(head.drop_last() =~= seq![who]);
    assert(joined(head, "\n"@) == opening(params));
    let listed = opening(params) + "\n"@ + "Fields: "@ + joined(names, ", "@);
    assert(head.push(fields).drop_last() =~= head);
    assert(joined(head.push(fields), "\n"@) =~= listed);
    assert(head.push(fields).push(notice).drop_last() =~= head.push(fields));
    assert(head + seq![fields] =~= head.push(fields));
    assert(head + seq![fields].push(notice) =~= head.push(fields).push(notice));
    assert(question.tool_call.content->0[0] == ContentView::Text(elicitation_text(params)));
}

} // verus!
