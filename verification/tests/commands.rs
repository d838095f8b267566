use codex_native::calls::{Problem, RpcCall};
use codex_native::json::Json;
use codex_native::json_text::{parse_json, to_text, value_to_inline_string};
use codex_native::listing::{
    append_list_errors, format_config_read, format_hooks_list, format_mcp_status_list,
    format_model_list, format_plugin_list, format_skills_list, format_thread_fork,
    format_thread_history,
};
use codex_native::prompt::{
    native_available_commands, prompt, prompt_blocks_to_codex_input, prompt_turn_started,
    PromptAction, PromptBlock,
};
use codex_native::protocol::StopReason;
use codex_native::slash::{
    extract_native_slash_command, native_slash_command, show_goal_status, slash_command_call,
    slash_command_replied, slash_command_shown, slash_command_started, watches_turn_start,
    GoalCommand, NativeSlashCommand, SlashNext,
};

fn json(text: &str) -> Json {
    parse_json(text).expect("test value should parse")
}

fn text_block(text: &str) -> Vec<Json> {
    vec![json(&format!(
        r#"{{"type":"text","text":{}}}"#,
        to_text(&Json::text(text))
    ))]
}

fn command(text: &str) -> Option<NativeSlashCommand> {
    native_slash_command(&text_block(text))
}

fn problem(message: &str, cause: Option<&str>) -> Problem {
    Problem {
        message: message.to_owned(),
        cause: cause.map(|cause| cause.to_owned()),
    }
}

/// A list of numbered values under a key.
fn many(key: &str, count: usize, item: impl Fn(usize) -> String) -> Json {
    let items: Vec<String> = (0..count).map(item).collect();
    json(&format!(r#"{{"{key}":[{}]}}"#, items.join(",")))
}

#[test]
fn parses_native_slash_commands() {
    let review = command("/review check edge cases").expect("review should be native");
    match review {
        NativeSlashCommand::Review { target } => {
            assert_eq!(target.text_at("type"), Some("custom"));
            assert_eq!(target.text_at("instructions"), Some("check edge cases"));
        }
        _ => panic!("unexpected slash command"),
    }

    let compact = command("/compact").expect("compact should be native");
    assert!(matches!(compact, NativeSlashCommand::Compact));

    for (text, expected) in [
        ("/model", NativeSlashCommand::Model),
        ("/config", NativeSlashCommand::Config),
        ("/skills", NativeSlashCommand::Skills),
        ("/plugins", NativeSlashCommand::Plugins),
        ("/hooks", NativeSlashCommand::Hooks),
        ("/mcp", NativeSlashCommand::Mcp),
        ("/fork", NativeSlashCommand::Fork),
        ("/history", NativeSlashCommand::History),
    ] {
        let parsed = command(text).expect("command should be native");
        assert_eq!(parsed, expected);
    }
}

#[test]
fn commands_start_with_a_slash_and_a_known_word() {
    for text in ["", "compact", " /compact", "/", "/ compact", "/unknown", "/Compact", "/compacts"] {
        assert_eq!(command(text), None, "{text}");
    }
    assert_eq!(native_slash_command(&vec![]), None);
    assert_eq!(native_slash_command(&vec![json(r#"{"type":"image","text":"/compact"}"#)]), None);
    assert_eq!(native_slash_command(&vec![json(r#"{"text":"/compact"}"#)]), None);
    assert_eq!(
        extract_native_slash_command(&text_block("/größe \t\u{3000}x  y ")),
        Some(("größe", "x  y "))
    );
    assert_eq!(
        command("/review \n "),
        Some(NativeSlashCommand::Review { target: json(r#"{"type":"uncommittedChanges"}"#) })
    );
    let goal = |text: &str| match command(text) {
        Some(NativeSlashCommand::Goal(goal)) => goal,
        other => panic!("unexpected command: {other:?}"),
    };
    assert_eq!(goal("/goal"), GoalCommand::Status);
    assert_eq!(goal("/goal STATUS "), GoalCommand::Status);
    assert_eq!(goal("/goal Clear"), GoalCommand::Clear);
    assert_eq!(goal("/goal pause"), GoalCommand::Pause);
    assert_eq!(goal("/goal resume"), GoalCommand::Resume);
    assert_eq!(goal("/goal  Ship IT "), GoalCommand::SetTo("Ship IT".into()));
}

#[test]
fn commands_make_their_requests() {
    let call_of = |text: &str| {
        let RpcCall { method, params } = slash_command_call(&command(text).unwrap(), "t");
        (method, to_text(&params))
    };
    let expected = [
        ("/review x", "review/start", r#"{"threadId":"t","target":{"type":"custom","instructions":"x"},"delivery":"inline"}"#),
        ("/compact", "thread/compact/start", r#"{"threadId":"t"}"#),
        ("/goal", "thread/goal/get", r#"{"threadId":"t"}"#),
        ("/goal clear", "thread/goal/clear", r#"{"threadId":"t"}"#),
        ("/goal pause", "thread/goal/set", r#"{"threadId":"t","status":"paused"}"#),
        ("/goal resume", "thread/goal/set", r#"{"threadId":"t","status":"active"}"#),
        ("/goal Do", "thread/goal/set", r#"{"threadId":"t","objective":"Do","status":"active"}"#),
        ("/model", "model/list", r#"{"cursor":null,"limit":null,"includeHidden":true}"#),
        ("/config", "config/read", r#"{"includeLayers":false}"#),
        ("/skills", "skills/list", r#"{"cwds":[],"forceReload":false}"#),
        ("/plugins", "plugin/list", r#"{"cwds":null,"marketplaceKinds":null}"#),
        ("/hooks", "hooks/list", r#"{"cwds":[]}"#),
        ("/mcp", "mcpServerStatus/list", r#"{"cursor":null,"limit":null,"detail":"toolsAndAuthOnly"}"#),
        ("/fork", "thread/fork", r#"{"threadId":"t","threadSource":"appServer"}"#),
        ("/history", "thread/list", r#"{"sourceKinds":["appServer"],"limit":20}"#),
    ];
    for (text, method, params) in expected {
        assert_eq!(call_of(text), (method.to_owned(), params.to_owned()));
    }
}

#[test]
fn commands_go_on_as_they_are_answered() {
    let done = SlashNext::Done { forget_start: false, reason: StopReason::EndTurn };
    let review = command("/review").unwrap();
    assert_eq!(
        slash_command_replied(&review, Ok(&json(r#"{"turn":{"id":"turn-1"}}"#))),
        SlashNext::AwaitTurn("turn-1".into())
    );
    assert_eq!(
        slash_command_replied(&review, Ok(&json("{}"))),
        SlashNext::Fail {
            forget_start: false,
            problem: problem("Codex review/start response did not include turn.id", None),
        }
    );
    let compact = command("/compact").unwrap();
    assert!(watches_turn_start(&compact));
    assert!(!watches_turn_start(&review));
    assert_eq!(slash_command_replied(&compact, Ok(&Json::Null)), SlashNext::AwaitStart);
    assert_eq!(
        slash_command_replied(&compact, Err("boom")),
        SlashNext::Fail {
            forget_start: true,
            problem: problem("failed to start native Codex compaction", Some("boom")),
        }
    );
    assert_eq!(
        slash_command_started(Some("turn-2".into())),
        SlashNext::AwaitTurn("turn-2".into())
    );
    assert_eq!(
        slash_command_started(None),
        SlashNext::Done { forget_start: true, reason: StopReason::EndTurn }
    );
    assert_eq!(slash_command_replied(&command("/goal clear").unwrap(), Ok(&Json::Null)), done);
    let fork = command("/fork").unwrap();
    assert_eq!(
        slash_command_replied(&fork, Ok(&json(r#"{"thread":{"id":"f","name":"Fork"}}"#))),
        SlashNext::Show {
            refresh: true,
            text: "Forked native Codex thread `f`: Fork\nOpen it from thread history/sidebar."
                .into(),
        }
    );
    assert_eq!(slash_command_shown(&fork, Ok(())), done);
    assert_eq!(
        slash_command_shown(&fork, Err("gone")),
        SlashNext::Fail {
            forget_start: false,
            problem: problem("failed to show native Codex fork result", Some("gone")),
        }
    );
    assert_eq!(
        slash_command_replied(&command("/goal").unwrap(), Ok(&json("{}"))),
        SlashNext::Show { refresh: false, text: "No active goal.".into() }
    );
    assert_eq!(
        show_goal_status(&json(r#"{"goal":{"objective":"o","status":"active"}}"#)),
        "Goal updated (active): o"
    );
    for (text, failure) in [
        ("/review", "failed to start native Codex review"),
        ("/goal", "failed to read native Codex goal"),
        ("/goal clear", "failed to clear native Codex goal"),
        ("/goal x", "failed to update native Codex goal"),
        ("/model", "failed to list native Codex models"),
        ("/config", "failed to read native Codex configuration"),
        ("/skills", "failed to list native Codex skills"),
        ("/plugins", "failed to list native Codex plugins"),
        ("/hooks", "failed to list native Codex hooks"),
        ("/mcp", "failed to list native Codex MCP servers"),
        ("/fork", "failed to fork native Codex thread"),
        ("/history", "failed to list native Codex history"),
    ] {
        assert_eq!(
            slash_command_replied(&command(text).unwrap(), Err("e")),
            SlashNext::Fail { forget_start: false, problem: problem(failure, Some("e")) }
        );
    }
}

#[test]
fn every_native_command_but_two_is_offered() {
    let commands = native_available_commands();
    let names: Vec<&str> = commands.iter().map(|command| command.name.as_str()).collect();
    assert_eq!(
        names,
        [
            "review", "init", "compact", "goal", "resume", "fork", "history", "model", "config",
            "skills", "plugins", "hooks", "mcp"
        ]
    );
    for name in names {
        let known = command(&format!("/{name}")).is_some();
        assert_eq!(known, name != "init" && name != "resume");
    }
    assert_eq!(commands[0].description, "Review my current changes and find issues");
    assert_eq!(commands[0].hint.as_deref(), Some("optional custom review instructions"));
    assert_eq!(commands[3].hint.as_deref(), Some("objective | pause | resume | clear"));
    assert_eq!(commands[1].hint, None);
}

#[test]
fn prompts_start_turns_or_run_commands() {
    let blocks = vec![
        PromptBlock::Text("hi".into()),
        PromptBlock::Resource(Ok("{}".into())),
        PromptBlock::ResourceLink(Ok("[]".into())),
        PromptBlock::Image("Img".into()),
        PromptBlock::Audio("Snd".into()),
        PromptBlock::Unsupported,
    ];
    let input = prompt_blocks_to_codex_input(&blocks).unwrap();
    let texts: Vec<&str> = input.iter().map(|piece| piece.text_at("text").unwrap()).collect();
    assert_eq!(
        texts,
        [
            "hi",
            "{}",
            "[]",
            "[Image content omitted by native Codex Zed adapter: Img]",
            "[Audio content omitted by native Codex Zed adapter: Snd]",
            "[Unsupported content omitted by native Codex Zed adapter]",
        ]
    );
    assert!(input.iter().all(|piece| piece.text_at("type") == Some("text")));

    let blocks = vec![PromptBlock::Text("Continue".into())];
    let start = |selected, default| match prompt("t", &blocks, selected, default) {
        Ok(PromptAction::StartTurn(call)) => {
            assert_eq!(call.method, "turn/start");
            to_text(&call.params)
        }
        other => panic!("unexpected action: {other:?}"),
    };
    assert_eq!(
        start(Some("m"), Some("d")),
        r#"{"threadId":"t","input":[{"type":"text","text":"Continue"}],"model":"m"}"#
    );
    assert!(start(None, Some("d")).ends_with(r#""model":"d"}"#));
    assert_eq!(
        start(None, None),
        r#"{"threadId":"t","input":[{"type":"text","text":"Continue"}]}"#
    );
    assert_eq!(
        prompt("t", &vec![PromptBlock::Text("/compact now".into())], None, None),
        Ok(PromptAction::RunCommand(NativeSlashCommand::Compact))
    );
    assert_eq!(
        prompt("t", &vec![PromptBlock::Resource(Err("bad".into()))], None, None),
        Err(problem("failed to serialize prompt resource", Some("bad")))
    );
    assert_eq!(
        prompt_blocks_to_codex_input(&vec![
            PromptBlock::ResourceLink(Err("first".into())),
            PromptBlock::Resource(Err("second".into())),
        ]),
        Err(problem("failed to serialize prompt resource link", Some("first")))
    );
    assert_eq!(
        prompt_turn_started(Ok(&json(r#"{"turn":{"id":"turn-1"}}"#))),
        Ok("turn-1".into())
    );
    assert_eq!(
        prompt_turn_started(Ok(&json(r#"{"turn":{"id":1}}"#))),
        Err(problem("Codex turn/start response did not include turn.id", None))
    );
    assert_eq!(
        prompt_turn_started(Err("x")),
        Err(problem("failed to start native Codex turn", Some("x")))
    );
}

#[test]
fn formats_model_list_for_thread_entry() {
    let message = format_model_list(&json(
        r#"{
            "data": [
                {
                    "id": "gpt-5.4",
                    "model": "gpt-5.4",
                    "displayName": "GPT-5.4",
                    "description": "best default",
                    "isDefault": true
                }
            ]
        }"#,
    ));
    assert!(message.contains("Codex models:"));
    assert!(message.contains("GPT-5.4"));
    assert!(message.contains("(default)"));
}

#[test]
fn lists_of_models_are_cut_off() {
    assert_eq!(format_model_list(&json("{}")), "Codex models: no models returned.");
    let tail = "Use the model selector to choose the model for future turns in this thread.";
    assert_eq!(
        format_model_list(&json(
            r#"{"data":[{"id":"a","name":"A","description":" nice "},{"model":7,"id":"b"}]}"#
        )),
        format!("Codex models:\n- A (`a`) — nice\n- unknown (`unknown`)\n{tail}")
    );
    let long = format_model_list(&many("data", 32, |i| format!(r#"{{"id":"m{i}"}}"#)));
    let lines: Vec<&str> = long.lines().collect();
    assert_eq!(lines.len(), 33);
    assert_eq!(lines[30], "- m29 (`m29`)");
    assert_eq!(lines[31], "- … 2 more");
    assert_eq!(lines[32], tail);
}

#[test]
fn configurations_are_listed() {
    assert_eq!(
        format_config_read(&json(r#"{"config":[]}"#)),
        "Codex configuration: no config returned."
    );
    assert_eq!(
        format_config_read(&json(r#"{"config":{"a":null}}"#)),
        "Codex configuration:\n- No non-null config values returned."
    );
    assert_eq!(
        format_config_read(&json(
            r#"{"config":{"z":"text","n":null,"b":true,"i":-3,"f":1.50,"l":[1,{"k":"v"}],"o":{}}}"#
        )),
        "Codex configuration:\n- `z`: text\n- `b`: true\n- `i`: -3\n- `f`: 1.5\n\
         - `l`: [1,{\"k\":\"v\"}]\n- `o`: {}"
    );
    let entries: Vec<String> = (0..40).map(|i| format!(r#""k{i}":{i}"#)).collect();
    let long = format_config_read(&json(&format!(r#"{{"config":{{{}}}}}"#, entries.join(","))));
    assert_eq!(long.lines().count(), 31);
    assert!(long.ends_with("- `k29`: 29"));
}

#[test]
fn skills_and_hooks_are_listed_by_directory() {
    assert_eq!(format_skills_list(&Json::Null), "Codex skills: no skills returned.");
    assert_eq!(format_hooks_list(&Json::Null), "Codex hooks: no hooks returned.");
    assert_eq!(
        format_skills_list(&json(
            r#"{"data":[{"cwd":"/a","skills":[{"name":"s","description":" d "},{}],
                "errors":["e1",{"x":2}]}]}"#
        )),
        "Codex skills:\n- `/a`\n  - s — d\n  - skill\n  - errors: e1\n  - errors: {\"x\":2}"
    );
    assert_eq!(
        format_hooks_list(&json(
            r#"{"data":[{"hooks":[{"key":"k","eventName":"e","enabled":true},
                {"enabled":false},{}],"warnings":["w"],"errors":["x"]}]}"#
        )),
        "Codex hooks:\n  - k (e, enabled)\n  - hook (event, disabled)\n  - hook (event, unknown)\n\
         \x20 - warnings: w\n  - errors: x"
    );
    let skills: Vec<String> = (0..23).map(|i| format!(r#"{{"name":"s{i}"}}"#)).collect();
    let text = format_skills_list(&json(&format!(
        r#"{{"data":[{{"skills":[{}]}}]}}"#,
        skills.join(",")
    )));
    assert!(text.ends_with("  - s19\n  - … 3 more"));
    let text = format_skills_list(&many("data", 12, |i| format!(r#"{{"cwd":"/{i}"}}"#)));
    assert_eq!(text.lines().count(), 11);
    let text = format_hooks_list(&many("data", 12, |i| format!(r#"{{"cwd":"/{i}"}}"#)));
    assert!(text.ends_with("- `/9`"));
}

#[test]
fn errors_are_listed_up_to_five() {
    let mut lines = vec!["head".to_owned()];
    append_list_errors(&mut lines, &many("errors", 7, |i| i.to_string()), "errors");
    assert_eq!(lines.len(), 7);
    assert_eq!(lines[1], "  - errors: 0");
    assert_eq!(lines[6], "  - errors: … 2 more");
    append_list_errors(&mut lines, &json(r#"{"errors":"no list"}"#), "errors");
    assert_eq!(lines.len(), 7);
}

#[test]
fn plugins_servers_and_threads_are_listed() {
    assert_eq!(format_plugin_list(&Json::Null), "Codex plugins: no marketplaces returned.");
    assert_eq!(
        format_plugin_list(&json(
            r#"{"marketplaces":[
                {"interface":{"displayName":"Shop"},"name":"x","plugins":[
                    {"name":"p","id":"i","enabled":true,"installed":true},
                    {"name":"q","enabled":false,"installed":false},{}]},
                {"name":"y"},{"interface":{"displayName":3}}],
               "marketplaceLoadErrors":["late"]}"#
        )),
        "Codex plugins:\n- Shop\n  - p (`i`): installed, enabled\n\
         \x20 - q (`q`): not installed, disabled\n\
         \x20 - plugin (`plugin`): unknown install state, unknown\n- y\n- marketplace\n\
         \x20 - marketplaceLoadErrors: late"
    );
    assert_eq!(format_mcp_status_list(&Json::Null), "Codex MCP servers: no servers returned.");
    assert_eq!(
        format_mcp_status_list(&json(
            r#"{"data":[{"name":"s","tools":{"a":1,"b":2},"authStatus":"ok"},{"authStatus":null}]}"#
        )),
        "Codex MCP servers:\n- s: 2 tool(s), auth ok\n- server: 0 tool(s), auth null"
    );
    let text = format_mcp_status_list(&many("data", 31, |_| "{}".into()));
    assert!(text.ends_with("- server: 0 tool(s), auth unknown\n- … 1 more"));
    assert_eq!(
        format_thread_history(&Json::Null),
        "Native Codex history: no threads returned."
    );
    assert_eq!(
        format_thread_history(&json(r#"{"data":[{"id":"a","name":"A","cwd":"/x"},{"cwd":""}]}"#)),
        "Native Codex history:\n- A (`a`) — `/x`\n- Untitled thread (`unknown`)"
    );
    let text = format_thread_history(&many("data", 25, |_| "{}".into()));
    assert!(text.ends_with("- … 5 more"));
    assert_eq!(
        format_thread_fork(&Json::Null),
        "Forked native Codex thread `unknown`: Untitled thread\n\
         Open it from thread history/sidebar."
    );
}

#[test]
fn values_are_written_on_one_line() {
    for (value, text) in [
        (r#""a \"b\"""#, "a \"b\""),
        ("true", "true"),
        ("false", "false"),
        ("null", "null"),
        ("-0.5", "-0.5"),
        ("18446744073709551615", "18446744073709551615"),
        ("1e2", "100.0"),
        (r#"["a", 1]"#, r#"["a",1]"#),
    ] {
        assert_eq!(value_to_inline_string(&json(value)), text);
    }
}
