use codex_native::approvals::{
    approval_decision_from_selected, approval_markdown, approval_permission_options,
    approval_request, approval_response, is_allowed, permissions_request, permissions_response,
    required_string, PermissionOutcome,
};
use codex_native::elicitation::{
    mcp_elicitation_choices, mcp_elicitation_markdown, mcp_elicitation_request,
    mcp_elicitation_response, mcp_elicitation_tool_call_id, single_mcp_form_property,
    McpElicitationChoice, McpElicitationChoiceAction,
};
use codex_native::json::Json;
use codex_native::json_text::parse_json;
use codex_native::protocol::{
    PermissionOption, PermissionOptionKind, ToolCallContent, ToolCallStatus, ToolCallUpdate,
    ToolKind,
};
use codex_native::server_requests::{
    answer_server_request, current_time_response, handle_server_request, request_failure,
    server_request_at, server_request_kind, ServerRequestAction, ServerRequestKind,
};
use codex_native::table::Table;
use codex_native::user_input::{
    empty_user_input_response, user_input_answer_at, user_input_markdown,
    user_input_permission_options, user_input_request, user_input_response_from_outcome,
    user_input_selectable_options,
};

fn json(text: &str) -> Json {
    parse_json(text).expect("test value should parse")
}

fn known_thread() -> Table<u32> {
    let mut sessions = Table::new();
    sessions.insert("thread-1", 1);
    sessions
}

fn selected(option: &str, kind: PermissionOptionKind) -> PermissionOutcome {
    PermissionOutcome::Selected {
        option_id: option.to_owned(),
        option_kind: kind,
    }
}

fn ids(options: &[PermissionOption]) -> Vec<&str> {
    options.iter().map(|option| option.id.as_str()).collect()
}

fn choice_ids(choices: &[McpElicitationChoice]) -> Vec<&str> {
    choices.iter().map(|choice| choice.option_id.as_str()).collect()
}

fn text_of(call: &ToolCallUpdate) -> &str {
    match call.content.as_ref().map(|content| content.as_slice()) {
        Some([ToolCallContent::Text(text)]) => text,
        other => panic!("unexpected content: {other:?}"),
    }
}

#[test]
fn maps_native_approval_allow_always_to_session_decisions() {
    assert_eq!(
        approval_decision_from_selected(
            &json("{}"),
            "acceptForSession",
            PermissionOptionKind::AllowAlways,
            "accept",
        ),
        Json::text("acceptForSession")
    );

    let amendment = json(r#"{"proposedExecpolicyAmendment": ["cargo test"]}"#);
    assert_eq!(
        approval_decision_from_selected(
            &amendment,
            "acceptWithExecpolicyAmendment",
            PermissionOptionKind::AllowAlways,
            "accept",
        ),
        json(
            r#"{
                "acceptWithExecpolicyAmendment": {
                    "execpolicy_amendment": ["cargo test"]
                }
            }"#
        )
    );

    let options = approval_permission_options(&amendment, "accept", "decline");
    assert!(options.iter().any(|option| {
        option.id == "acceptWithExecpolicyAmendment"
            && option.kind == PermissionOptionKind::AllowAlways
    }));

    assert_eq!(
        approval_decision_from_selected(
            &json(
                r#"{
                    "proposedNetworkPolicyAmendments": [{
                        "action": "allow",
                        "host": "api.example.test"
                    }]
                }"#
            ),
            "applyNetworkPolicyAmendment:0",
            PermissionOptionKind::AllowAlways,
            "accept",
        ),
        json(
            r#"{
                "applyNetworkPolicyAmendment": {
                    "network_policy_amendment": {
                        "action": "allow",
                        "host": "api.example.test"
                    }
                }
            }"#
        )
    );
}

#[test]
fn approvals_offer_what_the_request_proposes() {
    let plain = approval_permission_options(&json("{}"), "accept", "decline");
    assert_eq!(ids(&plain), ["accept", "acceptForSession", "decline", "cancel"]);
    assert_eq!(plain[0].name, "Allow");
    assert_eq!(plain[2].name, "Deny");
    assert_eq!(plain[3].kind, PermissionOptionKind::RejectOnce);

    let empty = json(
        r#"{"proposedExecpolicyAmendment":[],"proposedNetworkPolicyAmendments":[{"action":"deny"}]}"#,
    );
    assert_eq!(approval_permission_options(&empty, "accept", "decline"), plain);

    let network = approval_permission_options(
        &json(
            r#"{"proposedNetworkPolicyAmendments":[
                {"host":"a.test"}, {"action":"allow"}, {"host":"b.test","action":"deny"}
            ]}"#,
        ),
        "accept",
        "decline",
    );
    assert_eq!(
        ids(&network),
        [
            "accept",
            "acceptForSession",
            "applyNetworkPolicyAmendment:0",
            "applyNetworkPolicyAmendment:2",
            "decline",
            "cancel"
        ]
    );
    assert_eq!(network[2].name, "Allow `a.test` for future requests");
    assert_eq!(network[2].kind, PermissionOptionKind::AllowAlways);
    assert_eq!(network[3].name, "Block `b.test` for future requests");
    assert_eq!(network[3].kind, PermissionOptionKind::RejectAlways);

    let both = json(
        r#"{"proposedExecpolicyAmendment":["x"],"proposedNetworkPolicyAmendments":[{"host":"a"}]}"#,
    );
    assert_eq!(
        ids(&approval_permission_options(&both, "accept", "decline")),
        ["accept", "acceptForSession", "acceptWithExecpolicyAmendment", "decline", "cancel"]
    );
}

#[test]
fn approvals_are_decided_as_they_were_chosen() {
    let params = json(r#"{"proposedNetworkPolicyAmendments":[{"host":"a"}]}"#);
    let decide = |option: &str, kind| {
        approval_decision_from_selected(&params, option, kind, "accept")
    };
    let once = PermissionOptionKind::AllowOnce;
    let always = PermissionOptionKind::AllowAlways;
    assert_eq!(decide("decline", PermissionOptionKind::RejectOnce), Json::text("decline"));
    assert_eq!(decide("accept", once), Json::text("accept"));
    assert_eq!(decide("anything", always), Json::text("acceptForSession"));
    assert_eq!(
        decide("acceptWithExecpolicyAmendment", always),
        Json::text("acceptForSession")
    );
    assert_eq!(
        decide("applyNetworkPolicyAmendment:1", once),
        Json::text("applyNetworkPolicyAmendment:1")
    );
    assert_eq!(
        decide("applyNetworkPolicyAmendment:+0", once).get("applyNetworkPolicyAmendment"),
        Some(&json(r#"{"network_policy_amendment":{"host":"a"}}"#))
    );
    assert_eq!(
        approval_decision_from_selected(&params, "later", always, "approved"),
        Json::text("later")
    );
    assert_eq!(
        approval_response(&params, &PermissionOutcome::Cancelled, "accept"),
        json(r#"{"decision":"cancel"}"#)
    );
    assert_eq!(
        approval_response(&params, &selected("accept", once), "accept"),
        json(r#"{"decision":"accept"}"#)
    );
}

#[test]
fn approvals_show_what_is_asked_for() {
    assert_eq!(approval_markdown(&json("{}")), "Codex requested approval.");
    assert_eq!(
        approval_markdown(&json(r#"{"command":"ls","cwd":"/tmp"}"#)),
        "Command: `ls`\nDirectory: `/tmp`"
    );
    let sessions = known_thread();
    let params = json(r#"{"threadId":"thread-1","itemId":"item-1","command":"ls","reason":"why"}"#);
    let request = approval_request(&params, "Run command", "accept", "decline", &sessions).unwrap();
    assert_eq!(request.session, "thread-1");
    assert_eq!(request.tool_call.id, "item-1");
    assert_eq!(request.tool_call.title.as_deref(), Some("ls"));
    assert_eq!(request.tool_call.kind, Some(ToolKind::Execute));
    assert_eq!(request.tool_call.status, Some(ToolCallStatus::Pending));
    assert_eq!(request.tool_call.raw_input.as_ref(), Some(&params));
    assert_eq!(text_of(&request.tool_call), "why");

    let params = json(r#"{"threadId":"thread-1","itemId":"item-1","command":" \t"}"#);
    let request = approval_request(&params, "Run command", "accept", "decline", &sessions).unwrap();
    assert_eq!(request.tool_call.title.as_deref(), Some("Run command"));
    assert_eq!(text_of(&request.tool_call), "Command: ` \t`");

    let ask = |text: &str| approval_request(&json(text), "t", "accept", "decline", &sessions);
    assert_eq!(ask("{}"), Err("missing `threadId`".into()));
    assert_eq!(ask(r#"{"threadId":"thread-1"}"#), Err("missing `itemId`".into()));
    assert_eq!(
        ask(r#"{"threadId":"thread-2","itemId":"i"}"#),
        Err("approval request for unknown Codex thread".into())
    );
    assert_eq!(required_string(&json(r#"{"a":1}"#), "a"), Err("missing `a`".into()));
}

#[test]
fn permissions_are_given_only_where_they_are_allowed() {
    let params = json(
        r#"{"threadId":"thread-1","itemId":"i","permissions":{"network":true}}"#,
    );
    let request = permissions_request(&params, &known_thread()).unwrap();
    assert_eq!(ids(&request.options), ["allow-for-session", "allow", "cancel"]);
    assert_eq!(request.tool_call.title.as_deref(), Some("Approve permissions"));
    assert_eq!(text_of(&request.tool_call), "Codex requested additional permissions.");
    assert_eq!(
        permissions_request(&json(r#"{"threadId":"x","itemId":"i"}"#), &known_thread()),
        Err("permissions request for unknown Codex thread".into())
    );

    let once = selected("allow", PermissionOptionKind::AllowOnce);
    let always = selected("allow-for-session", PermissionOptionKind::AllowAlways);
    let refused = selected("cancel", PermissionOptionKind::RejectOnce);
    assert!(is_allowed(&once) && is_allowed(&always) && !is_allowed(&refused));
    assert!(!is_allowed(&PermissionOutcome::Cancelled));
    assert_eq!(
        permissions_response(&params, &once),
        json(r#"{"permissions":{"network":true},"scope":"turn"}"#)
    );
    assert_eq!(
        permissions_response(&params, &always),
        json(r#"{"permissions":{"network":true},"scope":"session"}"#)
    );
    assert_eq!(
        permissions_response(&params, &refused),
        json(r#"{"permissions":{},"scope":"turn"}"#)
    );
    assert_eq!(
        permissions_response(&json("{}"), &always),
        json(r#"{"permissions":{},"scope":"session"}"#)
    );
}

#[test]
fn builds_user_input_answer_response_after_explicit_choice() {
    let params = json(
        r#"{
            "threadId": "thread-1",
            "turnId": "turn-1",
            "itemId": "input-1",
            "questions": [
                {
                    "id": "choice",
                    "header": "Pick",
                    "question": "Which one?",
                    "isOther": false,
                    "isSecret": false,
                    "options": [
                        {"label": "A", "description": "first"},
                        {"label": "B", "description": "second"}
                    ]
                }
            ]
        }"#,
    );
    let outcome = selected("answer:1", PermissionOptionKind::AllowOnce);
    let (response, status, _) = user_input_response_from_outcome(&params, &outcome);
    assert_eq!(status, ToolCallStatus::Completed);
    assert_eq!(
        response
            .get2("answers", "choice")
            .and_then(|answer| answer.array_at("answers"))
            .and_then(|answers| answers.first())
            .and_then(|answer| answer.as_text()),
        Some("B")
    );
}

#[test]
fn questions_are_shown_and_answered() {
    let params = json(
        r#"{"threadId":"thread-1","itemId":"input-1","questions":[
            {"id":"q","header":" Pick ","question":" Which? ","options":[
                {"label":"A","description":"first"},{"description":"no label"},{"label":"B"}
            ]}
        ]}"#,
    );
    assert_eq!(
        user_input_markdown(&params),
        "Codex requested input.\n\n**Pick**\nWhich?\n- A: first\n- B"
    );
    assert_eq!(
        user_input_selectable_options(&params),
        vec![(0, "A".to_owned()), (2, "B".to_owned())]
    );
    let options = user_input_permission_options(&params);
    assert_eq!(ids(&options), ["answer:0", "answer:2", "cancel"]);
    assert_eq!(options[1].name, "B");
    assert_eq!(user_input_answer_at(&params, 2), Some(("q", "B")));
    assert_eq!(user_input_answer_at(&params, 1), None);
    assert_eq!(user_input_answer_at(&params, 3), None);

    let request = user_input_request(&params, &known_thread()).unwrap();
    assert_eq!(request.tool_call.title.as_deref(), Some("Answer Codex prompt"));
    assert_eq!(
        user_input_request(&params, &Table::<u32>::new()),
        Err("user input request for unknown Codex thread".into())
    );

    let answer = |option: &str, kind| {
        user_input_response_from_outcome(&params, &selected(option, kind))
    };
    assert_eq!(
        answer("answer:0", PermissionOptionKind::AllowOnce),
        (
            json(r#"{"answers":{"q":{"answers":["A"]}}}"#),
            ToolCallStatus::Completed,
            "Answered Codex prompt.".to_owned()
        )
    );
    assert_eq!(
        answer("answer:1", PermissionOptionKind::AllowAlways),
        (
            json(r#"{"answers":{"q":{"answers":[]}}}"#),
            ToolCallStatus::Completed,
            "Submitted empty response to Codex prompt.".to_owned()
        )
    );
    let cancelled = (
        json(r#"{"answers":{}}"#),
        ToolCallStatus::Failed,
        "User input request cancelled.".to_owned(),
    );
    assert_eq!(answer("answer:0", PermissionOptionKind::RejectOnce), cancelled);
    assert_eq!(
        user_input_response_from_outcome(&params, &PermissionOutcome::Cancelled),
        cancelled
    );
}

#[test]
fn questions_that_cannot_be_chosen_from_are_answered_with_nothing() {
    let secret = json(
        r#"{"questions":[{"id":"q","isSecret":true,"header":" ","question":"","options":[{"label":"A"}]}]}"#,
    );
    assert!(user_input_selectable_options(&secret).is_empty());
    assert_eq!(
        ids(&user_input_permission_options(&secret)),
        ["submit-empty", "cancel"]
    );
    assert_eq!(
        user_input_markdown(&secret),
        "Codex requested input.\n_Secret/freeform entry is not supported in this Zed bridge yet._\n- A"
    );
    let two = json(
        r#"{"questions":[{"id":"a","options":[{"label":"A"}]},{"x":1},{"id":"b"},{"id":"a"}]}"#,
    );
    assert!(user_input_selectable_options(&two).is_empty());
    assert_eq!(
        empty_user_input_response(&two),
        json(r#"{"answers":{"a":{"answers":[]},"b":{"answers":[]}}}"#)
    );
    assert!(user_input_selectable_options(&json("{}")).is_empty());
    assert_eq!(empty_user_input_response(&json("{}")), json(r#"{"answers":{}}"#));
}

#[test]
fn builds_mcp_form_elicitation_response_for_simple_boolean() {
    let params = json(
        r#"{
            "threadId": "thread-1",
            "turnId": "turn-1",
            "serverName": "server",
            "mode": "form",
            "message": "Confirm?",
            "requestedSchema": {
                "type": "object",
                "properties": {
                    "confirmed": {"type": "boolean"}
                },
                "required": ["confirmed"]
            }
        }"#,
    );
    let choices = mcp_elicitation_choices(&params);
    assert!(choices
        .iter()
        .any(|choice| choice.option_id == "form:confirmed:true"));
    let outcome = mcp_elicitation_response(&params, &choices, Some("form:confirmed:true"));
    assert_eq!(outcome.status, ToolCallStatus::Completed);
    assert_eq!(
        outcome
            .response
            .get2("content", "confirmed")
            .and_then(|confirmed| confirmed.as_bool()),
        Some(true)
    );
}

#[test]
fn forms_offer_the_values_of_their_only_property() {
    let form = |schema: &str| {
        json(&format!(
            r#"{{"mode":"form","requestedSchema":{{"properties":{{"p":{schema}}}}}}}"#
        ))
    };
    let params = form(r#"{"type":"string","enum":["a","b"]}"#);
    assert_eq!(
        single_mcp_form_property(&params),
        Some(("p", &json(r#"{"type":"string","enum":["a","b"]}"#)))
    );
    let choices = mcp_elicitation_choices(&params);
    assert_eq!(choice_ids(&choices), ["form:p:0", "form:p:1", "decline", "cancel"]);
    assert_eq!(choices[1].label, "b");
    assert_eq!(
        choices[1].action,
        McpElicitationChoiceAction::FormValue { property: "p".into(), value: Json::text("b") }
    );

    let choices = mcp_elicitation_choices(&form(
        r#"{"oneOf":[{"const":1,"title":"One"},{"enum":[2,3]},{"title":"Whole"}]}"#,
    ));
    let labels: Vec<&str> = choices.iter().map(|choice| choice.label.as_str()).collect();
    assert_eq!(labels, ["One", "2", "Whole", "Decline", "Cancel"]);
    assert_eq!(
        choices[2].action,
        McpElicitationChoiceAction::FormValue {
            property: "p".into(),
            value: json(r#"{"title":"Whole"}"#)
        }
    );

    assert_eq!(choice_ids(&mcp_elicitation_choices(&form("{}"))), ["decline", "cancel"]);
    let two = json(r#"{"mode":"form","requestedSchema":{"properties":{"a":{},"b":{}}}}"#);
    assert_eq!(single_mcp_form_property(&two), None);
    assert_eq!(
        mcp_elicitation_markdown(&two),
        "MCP server requested input.\nMCP server requested input.\nFields: a, b\n\
         This form schema cannot be collected natively yet; decline or cancel to continue."
    );
    assert_eq!(single_mcp_form_property(&json(r#"{"mode":"url"}"#)), None);
}

#[test]
fn elicitations_are_answered_as_they_were_chosen() {
    let params = json(
        r#"{"threadId":"thread-1","serverName":"srv","mode":"url","url":"https://x.test",
            "message":"Sign in","elicitationId":"e-1","_meta":{"k":1}}"#,
    );
    let choices = mcp_elicitation_choices(&params);
    assert_eq!(choice_ids(&choices), ["open", "decline", "cancel"]);
    assert_eq!(
        mcp_elicitation_markdown(&params),
        "srv requested input.\nSign in\nURL: https://x.test"
    );
    assert_eq!(mcp_elicitation_tool_call_id(&params), "mcp-elicitation:srv:e-1");
    assert_eq!(mcp_elicitation_tool_call_id(&json("{}")), "mcp-elicitation:mcp:request");
    assert_eq!(
        mcp_elicitation_tool_call_id(&json(r#"{"turnId":"t"}"#)),
        "mcp-elicitation:mcp:t"
    );

    let opened = mcp_elicitation_response(&params, &choices, Some("open"));
    assert_eq!(
        opened.response,
        json(r#"{"action":"accept","content":null,"_meta":{"k":1}}"#)
    );
    assert_eq!(opened.url.as_deref(), Some("https://x.test"));
    assert_eq!(opened.summary, "Opened MCP elicitation URL.");
    let declined = mcp_elicitation_response(&params, &choices, Some("decline"));
    assert_eq!(declined.response, json(r#"{"action":"decline","content":null}"#));
    assert_eq!(declined.summary, "MCP elicitation declined.");
    for option in [Some("cancel"), Some("unknown"), None] {
        let cancelled = mcp_elicitation_response(&params, &choices, option);
        assert_eq!(cancelled.response, json(r#"{"action":"cancel","content":null}"#));
        assert_eq!(cancelled.status, ToolCallStatus::Failed);
        assert_eq!(cancelled.summary, "MCP elicitation cancelled.");
        assert_eq!(cancelled.url, None);
    }

    let request = mcp_elicitation_request(&params, &known_thread()).unwrap();
    assert_eq!(request.tool_call.title.as_deref(), Some("MCP elicitation"));
    assert_eq!(ids(&request.options), ["open", "decline", "cancel"]);
    assert_eq!(
        mcp_elicitation_request(&params, &Table::<u32>::new()),
        Err("MCP elicitation request for unknown Codex thread".into())
    );
}

#[test]
fn server_requests_are_asked_answered_or_rejected() {
    let sessions = known_thread();
    let kinds: Vec<ServerRequestKind> = [
        "item/commandExecution/requestApproval",
        "item/fileChange/requestApproval",
        "item/permissions/requestApproval",
        "item/tool/requestUserInput",
        "mcpServer/elicitation/request",
        "currentTime/read",
        "other",
    ]
    .iter()
    .map(|method| server_request_kind(method))
    .collect();
    assert_eq!(
        kinds,
        [
            ServerRequestKind::CommandApproval,
            ServerRequestKind::FileChangeApproval,
            ServerRequestKind::Permissions,
            ServerRequestKind::UserInput,
            ServerRequestKind::Elicitation,
            ServerRequestKind::CurrentTime,
            ServerRequestKind::Unsupported,
        ]
    );

    assert_eq!(
        server_request_at("other", &Json::Null, &sessions, 5),
        ServerRequestAction::Reject("unsupported Codex app-server request `other`".into())
    );
    assert_eq!(
        server_request_at("currentTime/read", &Json::Null, &sessions, -5),
        ServerRequestAction::Answer(json(r#"{"currentTimeAt":-5}"#))
    );
    assert_eq!(current_time_response(7), json(r#"{"currentTimeAt":7}"#));
    assert_eq!(
        server_request_at("item/tool/requestUserInput", &Json::Null, &sessions, 0),
        ServerRequestAction::Reject("missing `threadId`".into())
    );
    let params = json(r#"{"threadId":"thread-1","itemId":"i"}"#);
    match handle_server_request("item/fileChange/requestApproval", &params, &sessions) {
        ServerRequestAction::Ask(request) => {
            assert_eq!(request.tool_call.title.as_deref(), Some("Apply file changes"));
        }
        other => panic!("unexpected action: {other:?}"),
    }
    match handle_server_request("item/commandExecution/requestApproval", &params, &sessions) {
        ServerRequestAction::Ask(request) => {
            assert_eq!(request.tool_call.title.as_deref(), Some("Run command"));
        }
        other => panic!("unexpected action: {other:?}"),
    }
}

#[test]
fn the_time_is_that_of_the_clock() {
    let before = std::time::SystemTime::now()
        .duration_since(std::time::UNIX_EPOCH)
        .unwrap()
        .as_secs();
    match handle_server_request("currentTime/read", &Json::Null, &Table::<u32>::new()) {
        ServerRequestAction::Answer(reply) => {
            let now = reply.u64_at("currentTimeAt").expect("the time should be told");
            assert!(before <= now && now <= before + 10);
        }
        other => panic!("unexpected action: {other:?}"),
    }
}

#[test]
fn outcomes_become_replies() {
    let params = json(
        r#"{"threadId":"thread-1","itemId":"i","questions":[{"id":"q","options":[{"label":"A"}]}]}"#,
    );
    let chosen = selected("answer:0", PermissionOptionKind::AllowOnce);
    let reply = answer_server_request("item/tool/requestUserInput", &params, &chosen);
    assert_eq!(reply.result, json(r#"{"answers":{"q":{"answers":["A"]}}}"#));
    let update = reply.update.expect("the tool call should be updated");
    assert_eq!(update.id, "i");
    assert_eq!(update.status, Some(ToolCallStatus::Completed));
    assert_eq!(text_of(&update), "Answered Codex prompt.");

    let allowed = selected("accept", PermissionOptionKind::AllowOnce);
    let reply = answer_server_request("item/commandExecution/requestApproval", &params, &allowed);
    assert_eq!(reply.result, json(r#"{"decision":"accept"}"#));
    assert_eq!(reply.update, None);
    let reply = answer_server_request("item/permissions/requestApproval", &params, &allowed);
    assert_eq!(reply.result, json(r#"{"permissions":{},"scope":"turn"}"#));

    let params = json(r#"{"threadId":"thread-1","mode":"url","url":"u"}"#);
    let opened = selected("open", PermissionOptionKind::AllowOnce);
    let reply = answer_server_request("mcpServer/elicitation/request", &params, &opened);
    assert_eq!(reply.url.as_deref(), Some("u"));
    assert_eq!(reply.result, json(r#"{"action":"accept","content":null}"#));
}

#[test]
fn requests_that_cannot_be_asked_are_told_apart() {
    assert_eq!(
        request_failure("item/fileChange/requestApproval"),
        "failed to request native Codex approval"
    );
    assert_eq!(
        request_failure("item/permissions/requestApproval"),
        "failed to request native Codex permissions approval"
    );
    assert_eq!(
        request_failure("item/tool/requestUserInput"),
        "failed to request native Codex user input"
    );
    assert_eq!(
        request_failure("mcpServer/elicitation/request"),
        "failed to request native Codex MCP elicitation"
    );
}
