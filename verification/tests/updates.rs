use codex_native::history::{history_updates_from_thread_read, tool_history_updates};
use codex_native::json::Json;
use codex_native::json_text::parse_json;
use codex_native::protocol::{
    PlanEntry, PlanEntryPriority, PlanEntryStatus, SessionUpdate, ToolCallContent, ToolCallStatus,
    ToolCallUpdate, ToolKind,
};
use codex_native::table::Table;
use codex_native::updates::{goal_message, session_updates_from_notification};

fn json(text: &str) -> Json {
    parse_json(text).expect("test value should parse")
}

fn updates_of(method: &str, params: &str) -> Vec<(String, SessionUpdate)> {
    let mut outputs = Table::new();
    session_updates_from_notification(method, &json(params), &mut outputs)
}

/// The text of the one message that a notification gives.
fn message_of(method: &str, params: &str) -> String {
    let mut updates = updates_of(method, params);
    assert_eq!(updates.len(), 1);
    match updates.remove(0) {
        (thread, SessionUpdate::AgentMessageChunk(text)) => {
            assert_eq!(thread, "thread-1");
            text
        }
        other => panic!("unexpected update: {other:?}"),
    }
}

fn tool_update(update: &SessionUpdate) -> &ToolCallUpdate {
    match update {
        SessionUpdate::ToolCallUpdate(update) => update,
        other => panic!("unexpected update: {other:?}"),
    }
}

fn meta_at<'a>(meta: &'a Option<Json>, key: &str, inner: &str) -> Option<&'a Json> {
    meta.as_ref().and_then(|meta| meta.get2(key, inner))
}

fn assert_text_content(content: Option<&Vec<ToolCallContent>>, expected: &str) {
    let content = content.expect("content should exist");
    assert_eq!(content.len(), 1);
    match &content[0] {
        ToolCallContent::Text(text) => assert_eq!(text, expected),
        other => panic!("unexpected tool content: {other:?}"),
    }
}

fn assert_file_change_diff(
    update: &SessionUpdate,
    expected_path: &str,
    expected_old_text: Option<&str>,
    expected_new_text: &str,
) {
    let content = tool_update(update)
        .content
        .as_ref()
        .expect("diff content should exist");
    assert_eq!(content.len(), 1);
    match &content[0] {
        ToolCallContent::Diff { path, old_text, new_text } => {
            assert_eq!(path, expected_path);
            assert_eq!(old_text.as_deref(), expected_old_text);
            assert_eq!(new_text, expected_new_text);
        }
        other => panic!("expected diff content, got {other:?}"),
    }
}

#[test]
fn maps_agent_delta_to_acp_update() {
    let updates = updates_of(
        "item/agentMessage/delta",
        r#"{"threadId":"thread-1","turnId":"turn-1","itemId":"item-1","delta":"hello"}"#,
    );
    assert_eq!(updates.len(), 1);
    assert_eq!(updates[0].0, "thread-1");
    match &updates[0].1 {
        SessionUpdate::AgentMessageChunk(text) => assert_eq!(text, "hello"),
        other => panic!("unexpected update: {other:?}"),
    }
}

#[test]
fn maps_command_start_to_terminal_tool_call() {
    let updates = updates_of(
        "item/started",
        r#"{
            "threadId": "thread-1",
            "turnId": "turn-1",
            "item": {
                "id": "cmd-1",
                "type": "commandExecution",
                "status": "inProgress",
                "command": "echo hi",
                "cwd": "/tmp"
            }
        }"#,
    );

    assert_eq!(updates.len(), 1);
    assert_eq!(updates[0].0, "thread-1");
    match &updates[0].1 {
        SessionUpdate::ToolCall(tool_call) => {
            assert_eq!(tool_call.kind, ToolKind::Execute);
            assert_eq!(tool_call.status, ToolCallStatus::InProgress);
            assert_eq!(tool_call.content.len(), 1);
            match &tool_call.content[0] {
                ToolCallContent::Terminal(terminal) => {
                    assert_eq!(terminal, "codex-native-command:cmd-1");
                }
                other => panic!("unexpected tool call content: {other:?}"),
            }
            assert_eq!(
                meta_at(&tool_call.meta, "terminal_info", "terminal_id"),
                Some(&Json::text("codex-native-command:cmd-1"))
            );
            assert_eq!(
                meta_at(&tool_call.meta, "terminal_info", "cwd"),
                Some(&Json::text("/tmp"))
            );
        }
        other => panic!("unexpected update: {other:?}"),
    }
}

#[test]
fn maps_command_output_delta_to_terminal_output_meta() {
    let updates = updates_of(
        "item/commandExecution/outputDelta",
        r#"{"threadId": "thread-1", "turnId": "turn-1", "itemId": "cmd-1", "delta": "hello\n"}"#,
    );

    assert_eq!(updates.len(), 1);
    assert_eq!(updates[0].0, "thread-1");
    let update = tool_update(&updates[0].1);
    assert_eq!(update.id, "cmd-1");
    assert!(update.content.is_none());
    assert_eq!(
        update.raw_output.as_ref().and_then(|output| output.text_at("output")),
        Some("hello\n")
    );
    assert_eq!(
        meta_at(&update.meta, "terminal_output", "terminal_id"),
        Some(&Json::text("codex-native-command:cmd-1"))
    );
    assert_eq!(
        meta_at(&update.meta, "terminal_output", "data"),
        Some(&Json::text("hello\n"))
    );
}

#[test]
fn maps_command_completion_to_terminal_exit_without_replacing_terminal() {
    let updates = updates_of(
        "item/completed",
        r#"{
            "threadId": "thread-1",
            "turnId": "turn-1",
            "item": {
                "id": "cmd-1",
                "type": "commandExecution",
                "status": "completed",
                "command": "echo hi",
                "aggregatedOutput": "hello\n",
                "exitCode": 0
            }
        }"#,
    );

    assert_eq!(updates.len(), 1);
    assert_eq!(updates[0].0, "thread-1");
    let update = tool_update(&updates[0].1);
    assert_eq!(update.id, "cmd-1");
    assert_eq!(update.kind, Some(ToolKind::Execute));
    assert_eq!(update.status, Some(ToolCallStatus::Completed));
    assert!(update.content.is_none());
    assert_eq!(
        update.raw_output.as_ref().and_then(|output| output.text_at("output")),
        Some("hello\n")
    );
    assert_eq!(
        meta_at(&update.meta, "terminal_exit", "terminal_id"),
        Some(&Json::text("codex-native-command:cmd-1"))
    );
    assert_eq!(
        meta_at(&update.meta, "terminal_exit", "exit_code").and_then(|code| code.as_u64()),
        Some(0)
    );
    assert_eq!(
        meta_at(&update.meta, "terminal_output", "terminal_id"),
        Some(&Json::text("codex-native-command:cmd-1"))
    );
    assert_eq!(
        meta_at(&update.meta, "terminal_output", "data"),
        Some(&Json::text("hello\n"))
    );
}

#[test]
fn maps_command_completion_to_missing_terminal_output_suffix() {
    let mut tool_outputs = Table::new();
    tool_outputs.insert("cmd-1", "hello".to_owned());
    let updates = session_updates_from_notification(
        "item/completed",
        &json(
            r#"{
                "threadId": "thread-1",
                "turnId": "turn-1",
                "item": {
                    "id": "cmd-1",
                    "type": "commandExecution",
                    "status": "completed",
                    "command": "printf hello",
                    "aggregatedOutput": "hello\n",
                    "exitCode": 0
                }
            }"#,
        ),
        &mut tool_outputs,
    );

    assert_eq!(updates.len(), 1);
    let update = tool_update(&updates[0].1);
    assert_eq!(
        meta_at(&update.meta, "terminal_output", "data"),
        Some(&Json::text("\n"))
    );
}

#[test]
fn maps_terminal_interaction_to_terminal_output_meta() {
    let updates = updates_of(
        "item/commandExecution/terminalInteraction",
        r#"{
            "threadId": "thread-1",
            "turnId": "turn-1",
            "itemId": "cmd-1",
            "processId": "process-1",
            "stdin": "y"
        }"#,
    );

    assert_eq!(updates.len(), 1);
    let update = tool_update(&updates[0].1);
    assert!(update.content.is_none());
    assert_eq!(
        meta_at(&update.meta, "terminal_output", "terminal_id"),
        Some(&Json::text("codex-native-command:cmd-1"))
    );
    assert_eq!(
        meta_at(&update.meta, "terminal_output", "data"),
        Some(&Json::text("\ny\n"))
    );
}

#[test]
fn maps_file_change_patch_update_to_diff_content() {
    let updates = updates_of(
        "item/fileChange/patchUpdated",
        r#"{
            "threadId": "thread-1",
            "turnId": "turn-1",
            "itemId": "edit-1",
            "changes": [{
                "path": "src/main.rs",
                "kind": {"type": "update"},
                "diff": "--- a/src/main.rs\n+++ b/src/main.rs\n@@ -1 +1 @@\n-old\n+new\n"
            }]
        }"#,
    );

    assert_eq!(updates.len(), 1);
    assert_eq!(tool_update(&updates[0].1).kind, Some(ToolKind::Edit));
    assert_file_change_diff(&updates[0].1, "src/main.rs", Some("old\n"), "new\n");
}

#[test]
fn maps_file_change_completion_and_history_to_diff_content() {
    let file_change = r#"{
        "id": "edit-1",
        "type": "fileChange",
        "status": "completed",
        "changes": [{
            "path": "new.txt",
            "kind": {"type": "add"},
            "diff": "--- /dev/null\n+++ b/new.txt\n@@ -0,0 +1 @@\n+created\n"
        }]
    }"#;
    let updates = updates_of(
        "item/completed",
        &format!(r#"{{"threadId":"thread-1","turnId":"turn-1","item":{file_change}}}"#),
    );

    assert_eq!(updates.len(), 1);
    assert_file_change_diff(&updates[0].1, "new.txt", None, "created\n");

    let history_updates = tool_history_updates(&json(file_change));
    assert_eq!(history_updates.len(), 2);
    assert_file_change_diff(&history_updates[1], "new.txt", None, "created\n");
}

#[test]
fn maps_mcp_progress_and_turn_error_to_visible_updates() {
    let progress = updates_of(
        "item/mcpToolCall/progress",
        r#"{
            "threadId": "thread-1",
            "turnId": "turn-1",
            "itemId": "mcp-1",
            "message": "Reading resource..."
        }"#,
    );
    assert_text_content(
        tool_update(&progress[0].1).content.as_ref(),
        "Reading resource...",
    );

    let text = message_of(
        "error",
        r#"{
            "threadId": "thread-1",
            "turnId": "turn-1",
            "willRetry": true,
            "error": {
                "message": "network failed",
                "additionalDetails": "connection reset"
            }
        }"#,
    );
    assert!(text.contains("network failed"));
    assert!(text.contains("connection reset"));
    assert!(text.contains("will retry"));
}

#[test]
fn maps_token_usage_to_zed_meta() {
    let updates = updates_of(
        "thread/tokenUsage/updated",
        r#"{
            "threadId":"thread-1",
            "turnId":"turn-1",
            "tokenUsage": {
                "modelContextWindow": 1000,
                "total": {
                    "inputTokens": 10,
                    "cachedInputTokens": 3,
                    "outputTokens": 5,
                    "reasoningOutputTokens": 2,
                    "totalTokens": 18
                },
                "last": {
                    "inputTokens": 10,
                    "cachedInputTokens": 3,
                    "outputTokens": 5,
                    "reasoningOutputTokens": 2,
                    "totalTokens": 18
                }
            }
        }"#,
    );
    assert_eq!(updates.len(), 1);
    match &updates[0].1 {
        SessionUpdate::UsageUpdate(usage) => {
            assert_eq!(usage.used, 18);
            assert_eq!(usage.size, 1000);
            assert_eq!(usage.input_tokens, 10);
            assert_eq!(usage.output_tokens, 5);
            assert_eq!(usage.cache_read_input_tokens, 3);
        }
        other => panic!("unexpected update: {other:?}"),
    }
}

#[test]
fn maps_model_reroute_to_visible_message() {
    let text = message_of(
        "model/rerouted",
        r#"{
            "threadId": "thread-1",
            "turnId": "turn-1",
            "fromModel": "gpt-5.4",
            "toModel": "gpt-5.4-codex",
            "reason": "highRiskCyberActivity"
        }"#,
    );
    assert!(text.contains("rerouted"));
    assert!(text.contains("gpt-5.4-codex"));
}

#[test]
fn maps_model_safety_buffering_to_visible_message() {
    let text = message_of(
        "model/safetyBuffering/updated",
        r#"{
            "threadId": "thread-1",
            "turnId": "turn-1",
            "model": "gpt-5.4",
            "fasterModel": "gpt-5.4-mini",
            "showBufferingUi": true,
            "reasons": ["policy", "latency"],
            "useCases": []
        }"#,
    );
    assert!(text.contains("buffering safety checks"));
    assert!(text.contains("gpt-5.4-mini"));
}

#[test]
fn builds_history_updates_from_thread_read_response() {
    let updates = history_updates_from_thread_read(&json(
        r#"{
            "thread": {
                "turns": [
                    {
                        "items": [
                            {
                                "type": "userMessage",
                                "content": [{"type": "text", "text": "hello"}]
                            },
                            {
                                "type": "agentMessage",
                                "text": "hi"
                            },
                            {
                                "id": "cmd-1",
                                "type": "commandExecution",
                                "status": "completed",
                                "command": "echo hi",
                                "aggregatedOutput": "hi\n"
                            }
                        ]
                    }
                ]
            }
        }"#,
    ));

    assert!(matches!(updates.first(), Some(SessionUpdate::UserMessageChunk(_))));
    assert!(updates
        .iter()
        .any(|update| matches!(update, SessionUpdate::AgentMessageChunk(_))));
    assert!(updates
        .iter()
        .any(|update| matches!(update, SessionUpdate::ToolCall(_))));
    assert!(updates
        .iter()
        .any(|update| matches!(update, SessionUpdate::ToolCallUpdate(_))));
}

#[test]
fn maps_collab_tool_call_to_subagent_meta() {
    let updates = updates_of(
        "item/completed",
        r#"{
            "threadId": "thread-1",
            "item": {
                "id": "collab-1",
                "type": "collabAgentToolCall",
                "tool": "spawnAgent",
                "status": "completed",
                "receiverThreadIds": ["subagent-1"]
            }
        }"#,
    );
    assert_eq!(updates.len(), 1);
    let update = tool_update(&updates[0].1);
    let meta = update.meta.as_ref().expect("subagent meta should exist");
    assert_eq!(meta.text_at("tool_name"), Some("spawn_agent"));
    assert_eq!(
        meta.get2("subagent_session_info", "session_id"),
        Some(&Json::text("subagent-1"))
    );
    assert_eq!(
        meta.get2("codex_native_collab", "receiver_thread_ids")
            .and_then(|ids| ids.as_array())
            .and_then(|ids| ids.first()),
        Some(&Json::text("subagent-1"))
    );
}

#[test]
fn maps_goal_update_to_visible_message() {
    let text = message_of(
        "thread/goal/updated",
        r#"{
            "threadId": "thread-1",
            "goal": {
                "objective": "finish native Codex",
                "status": "active",
                "tokensUsed": 12
            }
        }"#,
    );
    assert!(text.contains("Goal updated (active):"));
    assert!(text.contains("finish native Codex"));
}

#[test]
fn formats_missing_goal_status() {
    assert_eq!(
        goal_message(&json(
            r#"{
                "objective": "finish native Codex",
                "status": "paused",
                "tokensUsed": 10,
                "tokenBudget": 50
            }"#
        )),
        "Goal updated (paused): finish native Codex\nTokens used: 10\nToken budget: 50"
    );
}

#[test]
fn notifications_become_messages() {
    let message = |method: &str, fields: &str| {
        message_of(method, &format!(r#"{{"threadId":"thread-1"{fields}}}"#))
    };
    assert_eq!(message("thread/goal/cleared", ""), "Goal cleared.");
    assert_eq!(message("context/compacted", ""), "Context compacted.");
    assert_eq!(
        message("thread/goal/updated", r#","goal":null"#),
        "Goal updated (unknown): No objective"
    );
    assert_eq!(
        message("model/rerouted", ""),
        "Codex rerouted this turn from `current model` to `fallback model` (unspecified)."
    );
    assert_eq!(
        message("model/rerouted", r#","fromModel":"a","toModel":"b","reason":{"k":1}"#),
        r#"Codex rerouted this turn from `a` to `b` ({"k":1})."#
    );
    assert_eq!(
        message("model/verification", r#","verifications":[1,2]"#),
        "Codex is buffering model safety verification for 2 check(s)."
    );
    assert_eq!(
        message(
            "model/safetyBuffering/updated",
            r#","showBufferingUi":true,"reasons":["a",1,"b","c","d"],"fasterModel":"f""#
        ),
        "Codex is buffering safety checks for `selected model`: a, b, c. \
         A faster fallback may use `f`."
    );
    assert_eq!(
        message("model/safetyBuffering/updated", r#","showBufferingUi":true,"model":"m""#),
        "Codex is buffering safety checks for `m`."
    );
    assert_eq!(
        message("configWarning", r#","details":" x ""#),
        "Configuration warning: Codex configuration warning\n x "
    );
    assert_eq!(
        message("configWarning", r#","summary":"s","details":" ""#),
        "Configuration warning: s"
    );
    assert_eq!(message("warning", r#","message":"w""#), "Codex warning: w");
    assert_eq!(message("warning", ""), "Codex warning: Codex warning");
    assert_eq!(
        message("guardianWarning", ""),
        "Codex safety warning: Codex safety warning"
    );
    assert_eq!(message("error", ""), "Codex error: Codex error");
    assert_eq!(
        message("error", r#","willRetry":true,"error":{"message":"m","additionalDetails":"d"}"#),
        "Codex error: m\nd\nCodex will retry."
    );
    assert_eq!(
        message("mcpServer/startupStatus/updated", r#","status":"failed","error":"e","name":"n""#),
        "Codex MCP server `n` failed: e."
    );
    assert_eq!(
        message("mcpServer/startupStatus/updated", r#","status":"cancelled""#),
        "Codex MCP server `MCP server` cancelled."
    );
}

#[test]
fn notifications_that_say_nothing_give_nothing() {
    for (method, params) in [
        ("unknown", r#"{"threadId":"t"}"#),
        ("warning", r#"{"message":"no thread"}"#),
        ("item/agentMessage/delta", r#"{"threadId":"t"}"#),
        ("item/agentMessage/delta", r#"{"delta":"d"}"#),
        ("thread/goal/updated", r#"{"threadId":"t"}"#),
        ("thread/name/updated", r#"{"threadId":"t"}"#),
        ("thread/tokenUsage/updated", r#"{"threadId":"t","tokenUsage":{}}"#),
        ("model/verification", r#"{"threadId":"t","verifications":[]}"#),
        ("model/safetyBuffering/updated", r#"{"threadId":"t","showBufferingUi":false}"#),
        ("mcpServer/startupStatus/updated", r#"{"threadId":"t","status":"ready"}"#),
        ("item/started", r#"{"threadId":"t","item":{"id":"i","type":"agentMessage"}}"#),
        ("item/started", r#"{"threadId":"t","item":{"type":"webSearch"}}"#),
        ("item/completed", r#"{"threadId":"t","item":{"type":"userMessage","content":[{"type":"text","text":"x"}]}}"#),
        ("item/commandExecution/outputDelta", r#"{"threadId":"t","delta":"d"}"#),
    ] {
        assert_eq!(updates_of(method, params), vec![], "{method} {params}");
    }
}

#[test]
fn thoughts_plans_and_names_are_passed_on() {
    for method in ["item/reasoning/textDelta", "item/reasoning/summaryTextDelta"] {
        assert_eq!(
            updates_of(method, r#"{"threadId":"t","delta":"hm"}"#),
            [("t".to_owned(), SessionUpdate::AgentThoughtChunk("hm".into()))]
        );
    }
    let entry = |content: &str, status| PlanEntry {
        content: content.into(),
        priority: PlanEntryPriority::Medium,
        status,
    };
    assert_eq!(
        updates_of(
            "turn/plan/updated",
            r#"{"threadId":"t","plan":[{"step":"a","status":"completed"},{"status":"completed"},
                {"step":"b","status":"inProgress"},{"step":"c","status":"other"}]}"#
        ),
        [(
            "t".to_owned(),
            SessionUpdate::Plan(vec![
                entry("a", PlanEntryStatus::Completed),
                entry("b", PlanEntryStatus::InProgress),
                entry("c", PlanEntryStatus::Pending),
            ])
        )]
    );
    assert_eq!(
        updates_of("turn/plan/updated", r#"{"threadId":"t"}"#),
        [("t".to_owned(), SessionUpdate::Plan(vec![]))]
    );
    assert_eq!(
        updates_of("thread/name/updated", r#"{"threadId":"t","threadName":"N"}"#),
        [("t".to_owned(), SessionUpdate::SessionInfoUpdate { title: "N".into() })]
    );
}

#[test]
fn usage_is_added_up_without_a_total() {
    let usage = |total: &str| {
        let params = format!(r#"{{"threadId":"t","tokenUsage":{{"total":{total}}}}}"#);
        match updates_of("thread/tokenUsage/updated", &params).remove(0).1 {
            SessionUpdate::UsageUpdate(usage) => usage,
            other => panic!("unexpected update: {other:?}"),
        }
    };
    let sum = usage(r#"{"inputTokens":1,"outputTokens":2,"cachedInputTokens":3}"#);
    assert_eq!((sum.used, sum.size), (6, 6));
    let most = usage(r#"{"inputTokens":18446744073709551615,"outputTokens":2}"#);
    assert_eq!(most.used, u64::MAX);
    assert_eq!(usage("{}").used, 0);
}

#[test]
fn outputs_gather_every_piece() {
    let mut outputs = Table::new();
    let mut add = |method: &str, item: &str, delta: &str| {
        let params = json(&format!(
            r#"{{"threadId":"t","itemId":"{item}","delta":"{delta}"}}"#
        ));
        session_updates_from_notification(method, &params, &mut outputs).remove(0).1
    };
    add("item/commandExecution/outputDelta", "a", "one ");
    add("item/commandExecution/outputDelta", "b", "other");
    let last = add("item/commandExecution/outputDelta", "a", "two");
    let update = tool_update(&last);
    assert_eq!(update.raw_output, Some(json(r#"{"output":"one two"}"#)));
    assert_eq!(meta_at(&update.meta, "terminal_output", "data"), Some(&Json::text("two")));
    add("item/fileChange/outputDelta", "c", "x");
    let last = add("item/fileChange/outputDelta", "c", "y");
    assert_text_content(tool_update(&last).content.as_ref(), "xy");
    assert_eq!(outputs.get("a").map(|output| output.as_str()), Some("one two"));
    assert_eq!(outputs.get("b").map(|output| output.as_str()), Some("other"));
}

#[test]
fn items_become_tool_calls() {
    let started = |item: &str| {
        let params = format!(r#"{{"threadId":"t","item":{item}}}"#);
        match updates_of("item/started", &params).remove(0).1 {
            SessionUpdate::ToolCall(call) => call,
            other => panic!("unexpected update: {other:?}"),
        }
    };
    for (item, title, kind) in [
        (r#"{"id":"i","type":"mcpToolCall","server":"s","tool":"t"}"#, "s: t", ToolKind::Other),
        (r#"{"id":"i","type":"mcpToolCall"}"#, "MCP: tool", ToolKind::Other),
        (r#"{"id":"i","type":"dynamicToolCall","tool":"t"}"#, "Tool: t", ToolKind::Other),
        (r#"{"id":"i","type":"dynamicToolCall"}"#, "Dynamic tool", ToolKind::Other),
        (r#"{"id":"i","type":"collabAgentToolCall","tool":"t","agentName":"n"}"#, "Subagent n: t", ToolKind::Other),
        (r#"{"id":"i","type":"collabAgentToolCall","agent":"n"}"#, "Subagent: n", ToolKind::Other),
        (r#"{"id":"i","type":"collabAgentToolCall","tool":"t"}"#, "Subagent: t", ToolKind::Other),
        (r#"{"id":"i","type":"collabAgentToolCall"}"#, "Subagent", ToolKind::Other),
        (r#"{"id":"i","type":"webSearch","query":"q"}"#, "Search the web for `q`", ToolKind::Fetch),
        (r#"{"id":"i","type":"webSearch"}"#, "Search the web", ToolKind::Fetch),
        (r#"{"id":"i","type":"imageGeneration"}"#, "Image generation", ToolKind::Other),
        (r#"{"id":"i","type":"fileChange"}"#, "Apply file changes", ToolKind::Edit),
        (r#"{"id":"i","type":"commandExecution","command":"ls"}"#, "Run `ls`", ToolKind::Execute),
        (r#"{"id":"i","type":"commandExecution"}"#, "Run command", ToolKind::Execute),
    ] {
        let call = started(item);
        assert_eq!(call.title, title);
        assert_eq!(call.kind, kind);
        assert_eq!(call.id, "i");
        assert_eq!(call.status, ToolCallStatus::InProgress);
        assert_eq!(call.raw_input, Some(json(item)));
    }
    assert_eq!(
        started(r#"{"id":"i","type":"webSearch","status":"declined"}"#).status,
        ToolCallStatus::Failed
    );
}

#[test]
fn completed_items_update_their_tool_calls() {
    let completed = |item: &str| {
        let params = format!(r#"{{"threadId":"t","item":{item}}}"#);
        match updates_of("item/completed", &params).remove(0).1 {
            SessionUpdate::ToolCallUpdate(update) => update,
            other => panic!("unexpected update: {other:?}"),
        }
    };
    let failed = completed(r#"{"id":"i","type":"webSearch","status":"failed","aggregatedOutput":"","error":{"m":1}}"#);
    assert_eq!(failed.status, Some(ToolCallStatus::Failed));
    assert_eq!(failed.kind, Some(ToolKind::Fetch));
    assert_text_content(failed.content.as_ref(), r#"Error: {"m":1}"#);
    let quiet = completed(r#"{"id":"i","type":"mcpToolCall","error":null}"#);
    assert_eq!(quiet.status, Some(ToolCallStatus::Completed));
    assert_eq!(quiet.content, None);
    assert_eq!(quiet.meta, None);
    let command = completed(r#"{"id":"i","type":"commandExecution","exit_code":2,"signal":"TERM"}"#);
    assert_eq!(command.raw_output, None);
    assert_eq!(
        command.meta,
        Some(json(
            r#"{"terminal_exit":{"terminal_id":"codex-native-command:i","exit_code":2,"signal":"TERM"}}"#
        ))
    );
    let edit = completed(r#"{"id":"i","type":"fileChange"}"#);
    assert_text_content(edit.content.as_ref(), "File changes updated.");
    let agent = completed(
        r#"{"id":"i","type":"collabAgentToolCall","name":"n","tool":"t","status":"completed",
            "receiverThreadIds":[1,"a","b"],"summary":"s","output":"o"}"#,
    );
    assert_eq!(
        agent.meta,
        Some(json(
            r#"{"tool_name":"spawn_agent",
                "subagent_session_info":{"session_id":"a","message_start_index":0,"message_end_index":null},
                "codex_native_collab":{"tool":"t","name":"n","status":"completed",
                    "receiver_thread_ids":["a","b"],"summary":"s","output":"o"}}"#
        ))
    );
}

#[test]
fn hooks_are_tool_calls() {
    match updates_of("hook/started", r#"{"threadId":"t","name":"lint"}"#).remove(0).1 {
        SessionUpdate::ToolCall(call) => {
            assert_eq!(call.id, "hook:lint");
            assert_eq!(call.title, "Hook: lint");
            assert_eq!(call.status, ToolCallStatus::InProgress);
        }
        other => panic!("unexpected update: {other:?}"),
    }
    let updates = updates_of("hook/completed", r#"{"threadId":"t","hookId":"h"}"#);
    let update = tool_update(&updates[0].1);
    assert_eq!(update.id, "h");
    assert_eq!(update.status, Some(ToolCallStatus::Completed));
}

#[test]
fn user_messages_are_passed_on_when_they_start() {
    assert_eq!(
        updates_of(
            "item/started",
            r#"{"threadId":"t","item":{"type":"userMessage","content":[
                {"type":"text","text":"hi"},{"type":"localImage","path":"/p"},
                {"type":"image","url":"u"},{"type":"other"},{"type":"text"}]}}"#
        ),
        [
            ("t".to_owned(), SessionUpdate::UserMessageChunk("hi".into())),
            ("t".to_owned(), SessionUpdate::UserMessageChunk("[Local image: /p]".into())),
            ("t".to_owned(), SessionUpdate::UserMessageChunk("[Image: u]".into())),
        ]
    );
}

#[test]
fn histories_are_replayed_in_order() {
    let updates = history_updates_from_thread_read(&json(
        r#"{"thread":{"turns":[
            {"items":[{"type":"reasoning","summary":["why",1],"content":["no"]},
                      {"type":"reasoning","content":["because"]},
                      {"type":"agentMessage"},{"type":"other"}]},
            {},
            {"items":[{"id":"c","type":"commandExecution","cd":"/w","command":"ls","aggregatedOutput":"out"},
                      {"id":"w","type":"webSearch","query":"q","aggregatedOutput":"found"},
                      {"type":"webSearch"}]}
        ]}}"#,
    ));
    assert_eq!(updates.len(), 6);
    assert_eq!(updates[0], SessionUpdate::AgentThoughtChunk("why".into()));
    assert_eq!(updates[1], SessionUpdate::AgentThoughtChunk("because".into()));
    match &updates[2] {
        SessionUpdate::ToolCall(call) => {
            assert_eq!(call.status, ToolCallStatus::Completed);
            assert_eq!(meta_at(&call.meta, "terminal_info", "cwd"), Some(&Json::text("/w")));
        }
        other => panic!("unexpected update: {other:?}"),
    }
    let command = tool_update(&updates[3]);
    assert_eq!(meta_at(&command.meta, "terminal_output", "data"), Some(&Json::text("out")));
    let search = tool_update(&updates[5]);
    assert_eq!(search.kind, None);
    assert_text_content(search.content.as_ref(), "found");
    assert_eq!(history_updates_from_thread_read(&Json::Null), vec![]);
}
