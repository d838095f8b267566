use codex_native::bridge::Bridge;
use codex_native::calls::{Problem, RpcCall};
use codex_native::config::{
    approval_policy_config_value, codex_select_config_option, config_option_written,
    config_options_from_read_response, config_read_call, config_value_from_config_id,
    config_value_label, default_config_options_for_session, sandbox_policy_config_value,
    set_config_option, set_config_option_current_value, update_config_options_from_read_response,
    update_config_options_from_thread_settings, upsert_config_option, ConfigCategory, ConfigOption,
};
use codex_native::json::Json;
use codex_native::json_text::{parse_json, to_text};
use codex_native::models::{
    agent_model_infos_from_response, fallback_agent_model_info, selected_model, AgentModelInfo,
    NoModel,
};
use codex_native::prompt::{
    native_available_commands, prompt, prompt_turn_started, PromptAction, PromptBlock,
};
use codex_native::protocol::{SessionUpdate, StopReason};
use codex_native::sessions::{
    agent_session_info_from_thread_value, connect_refusal, existing_session_opened,
    initialize_call, initialized, list_sessions, list_sessions_call, new_session_call,
    new_session_opened, open_existing_session_call, read_history, read_history_call,
    session_change_call, session_changed, SessionChange,
};
use codex_native::turns::TurnTracker;

fn json(text: &str) -> Json {
    parse_json(text).expect("test value should parse")
}

fn problem(message: &str, cause: Option<&str>) -> Problem {
    Problem {
        message: message.to_owned(),
        cause: cause.map(|cause| cause.to_owned()),
    }
}

fn shape(call: &RpcCall) -> (&str, String) {
    (call.method.as_str(), to_text(&call.params))
}

fn current_config_value_for_test(options: &[ConfigOption], config_id: &str) -> Option<String> {
    options
        .iter()
        .find(|option| option.id == config_id)
        .map(|option| option.current_value.clone())
}

// Configuration

#[test]
fn builds_config_options_from_config_read_response() {
    let options = config_options_from_read_response(&json(
        r#"{
            "config": {
                "model": "gpt-5.4",
                "model_reasoning_effort": "high",
                "approval_policy": "never",
                "sandbox_mode": "danger-full-access",
                "model_verbosity": "high",
                "web_search": "live"
            }
        }"#,
    ));

    assert!(
        !options
            .iter()
            .any(|option| option.category == Some(ConfigCategory::Model))
    );
    assert!(!options.iter().any(|option| option.id == "model"));
    assert_eq!(
        current_config_value_for_test(&options, "model_reasoning_effort").as_deref(),
        Some("high")
    );
    assert_eq!(
        current_config_value_for_test(&options, "approval_policy").as_deref(),
        Some("never")
    );
    assert_eq!(
        current_config_value_for_test(&options, "sandbox_mode").as_deref(),
        Some("danger-full-access")
    );
    assert_eq!(
        current_config_value_for_test(&options, "model_verbosity").as_deref(),
        Some("high")
    );
    assert_eq!(
        current_config_value_for_test(&options, "web_search").as_deref(),
        Some("live")
    );
}

#[test]
fn defaults_config_options_to_codex_full_access_mode() {
    let options = default_config_options_for_session();
    assert_eq!(
        current_config_value_for_test(&options, "model_reasoning_effort").as_deref(),
        Some("xhigh")
    );
    assert_eq!(
        current_config_value_for_test(&options, "approval_policy").as_deref(),
        Some("never")
    );
    assert_eq!(
        current_config_value_for_test(&options, "sandbox_mode").as_deref(),
        Some("danger-full-access")
    );

    let options = config_options_from_read_response(&json(r#"{ "config": {} }"#));
    assert_eq!(
        current_config_value_for_test(&options, "approval_policy").as_deref(),
        Some("never")
    );
    assert_eq!(
        current_config_value_for_test(&options, "sandbox_mode").as_deref(),
        Some("danger-full-access")
    );
}

#[test]
fn updates_config_options_from_thread_settings_notification_shape() {
    let mut options = default_config_options_for_session();
    let model = update_config_options_from_thread_settings(
        &mut options,
        &json(
            r#"{
                "model": "gpt-5.4",
                "effort": "xhigh",
                "approvalPolicy": "on-failure",
                "sandboxPolicy": {
                    "type": "workspaceWrite"
                }
            }"#,
        ),
    );

    assert_eq!(model.as_deref(), Some("gpt-5.4"));
    assert_eq!(
        current_config_value_for_test(&options, "model_reasoning_effort").as_deref(),
        Some("xhigh")
    );
    assert_eq!(
        current_config_value_for_test(&options, "approval_policy").as_deref(),
        Some("on-failure")
    );
    assert_eq!(
        current_config_value_for_test(&options, "sandbox_mode").as_deref(),
        Some("workspace-write")
    );
}

#[test]
fn values_are_shown_by_their_labels() {
    for (value, label) in [
        ("gpt-5.5", "GPT-5.5"),
        ("gpt-5.4", "GPT-5.4"),
        ("gpt-5.4-mini", "GPT-5.4 Mini"),
        ("xhigh", "Extra High"),
        ("on-request", "On Request"),
        ("on-failure", "On Failure"),
        ("read-only", "Read Only"),
        ("workspace-write", "Workspace Write"),
        ("danger-full-access", "Danger Full Access"),
        ("never", "Never"),
        ("two_part-value", "Two Part Value"),
        ("ßtraße_éa", "SStraße Éa"),
        ("1st", "1st"),
        ("", ""),
        ("-", " "),
        ("a--b", "A  B"),
    ] {
        assert_eq!(config_value_label(value), label);
    }
}

#[test]
fn options_offer_their_values() {
    let options = config_options_from_read_response(&json(
        r#"{"config":{"web_search":"cached","model_verbosity":"low","approval_policy":3}}"#,
    ));
    let offered: Vec<(&str, &str, Vec<&str>)> = options
        .iter()
        .map(|option| {
            let values = option.values.iter().map(|value| value.value.as_str()).collect();
            (option.id.as_str(), option.name.as_str(), values)
        })
        .collect();
    assert_eq!(
        offered,
        [
            ("model_reasoning_effort", "Reasoning", vec!["low", "medium", "high", "xhigh"]),
            ("approval_policy", "Approvals", vec!["untrusted", "on-failure", "on-request", "never"]),
            ("sandbox_mode", "Sandbox", vec!["read-only", "workspace-write", "danger-full-access"]),
            ("model_verbosity", "Verbosity", vec!["low", "medium", "high"]),
            ("web_search", "Web search", vec!["disabled", "cached", "indexed", "live"]),
        ]
    );
    assert_eq!(options[0].category, Some(ConfigCategory::ThoughtLevel));
    assert_eq!(options[1].category, None);
    assert_eq!(options[0].values[3].label, "Extra High");
    assert_eq!(options[1].current_value, "never");
    assert_eq!(config_options_from_read_response(&Json::Null), default_config_options_for_session());
}

#[test]
fn options_are_replaced_where_they_stand() {
    let option = |id: &str, current: &str| codex_select_config_option(id, "n", None, current, &["v"]);
    let mut options = vec![option("a", "1"), option("b", "2"), option("a", "3")];
    upsert_config_option(&mut options, option("a", "4"));
    upsert_config_option(&mut options, option("c", "5"));
    upsert_config_option(&mut options, option("c", "5"));
    assert_eq!(
        options,
        [option("a", "4"), option("b", "2"), option("a", "3"), option("c", "5")]
    );
    set_config_option_current_value(&mut options, "a", "x");
    assert_eq!(
        options,
        [option("a", "x"), option("b", "2"), option("a", "x"), option("c", "5")]
    );

    let mut options = default_config_options_for_session();
    options.insert(0, option("own", "kept"));
    update_config_options_from_read_response(
        &mut options,
        &json(r#"{"config":{"sandbox_mode":"read-only","web_search":"live"}}"#),
    );
    let ids: Vec<&str> = options.iter().map(|option| option.id.as_str()).collect();
    assert_eq!(
        ids,
        ["own", "model_reasoning_effort", "approval_policy", "sandbox_mode", "web_search"]
    );
    assert_eq!(options[0], option("own", "kept"));
    assert_eq!(options[3].current_value, "read-only");
}

#[test]
fn policies_are_read_from_settings() {
    let policy = |text: &str| approval_policy_config_value(Some(&json(text)));
    assert_eq!(policy(r#""never""#).as_deref(), Some("never"));
    assert_eq!(policy(r#"{"granular":null}"#).as_deref(), Some("on-request"));
    assert_eq!(policy(r#"{"other":1}"#), None);
    assert_eq!(policy("[]"), None);
    assert_eq!(approval_policy_config_value(None), None);
    let mode = |text: &str| sandbox_policy_config_value(Some(&json(text)));
    assert_eq!(mode(r#"{"type":"dangerFullAccess"}"#).as_deref(), Some("danger-full-access"));
    assert_eq!(mode(r#"{"type":"readOnly"}"#).as_deref(), Some("read-only"));
    assert_eq!(mode(r#"{"type":"workspaceWrite"}"#).as_deref(), Some("workspace-write"));
    assert_eq!(mode(r#"{"type":"other"}"#), None);
    assert_eq!(mode(r#""readOnly""#), None);
    assert_eq!(sandbox_policy_config_value(None), None);
}

#[test]
fn options_are_written_and_read_again() {
    assert_eq!(
        config_value_from_config_id("model_context_window", "-12"),
        json("-12")
    );
    assert_eq!(
        config_value_from_config_id("model_auto_compact_token_limit", "12"),
        json("12")
    );
    assert_eq!(
        config_value_from_config_id("model_context_window", "12k"),
        Json::text("12k")
    );
    assert_eq!(config_value_from_config_id("other", "12"), Json::text("12"));
    assert_eq!(
        shape(&set_config_option("model_context_window", "8")),
        (
            "config/value/write",
            r#"{"keyPath":"model_context_window","value":8,"mergeStrategy":"upsert"}"#.to_owned()
        )
    );
    assert_eq!(
        shape(&config_read_call()),
        ("config/read", r#"{"includeLayers":false}"#.to_owned())
    );
    assert_eq!(config_option_written("web_search", Ok(())), Ok(config_read_call()));
    assert_eq!(
        config_option_written("web_search", Err("denied")),
        Err(problem(
            "failed to write native Codex config option `web_search`",
            Some("denied")
        ))
    );
}

// Models

fn model(id: &str, name: &str, is_latest: bool) -> AgentModelInfo {
    AgentModelInfo {
        id: id.into(),
        name: name.into(),
        description: None,
        is_latest,
    }
}

#[test]
fn models_are_listed() {
    let models = agent_model_infos_from_response(&json(
        r#"{"data":[
            {"model":"m","id":"x","displayName":"M","description":"good","isDefault":true},
            {"id":"n","name":"N","description":""},
            {"model":1,"id":"never"},
            {"id":"o","displayName":2,"name":"no"}
        ]}"#,
    ));
    let first = AgentModelInfo { description: Some("good".into()), ..model("m", "M", true) };
    assert_eq!(models, [first, model("n", "N", false), model("o", "o", false)]);
    assert!(agent_model_infos_from_response(&Json::Null).is_empty());
    assert_eq!(fallback_agent_model_info("z"), model("z", "z", false));
}

#[test]
fn selected_models_go_before_defaults() {
    let response = json(r#"{"data":[{"id":"a"},{"id":"b","isDefault":true},{"id":"c"}]}"#);
    let id = |selected, default| selected_model(&response, selected, default).unwrap().id;
    assert_eq!(id(Some("c"), Some("a")), "c");
    assert_eq!(id(Some("gone"), Some("a")), "a");
    assert_eq!(id(Some("gone"), None), "b");
    assert_eq!(id(None, None), "b");
    let plain = json(r#"{"data":[{"id":"a"},{"id":"c"}]}"#);
    assert_eq!(selected_model(&plain, None, Some("x")).unwrap().id, "a");
    let none = json("{}");
    assert_eq!(selected_model(&none, Some("s"), Some("d")), Ok(model("s", "s", false)));
    assert_eq!(selected_model(&none, None, Some("d")), Ok(model("d", "d", false)));
    assert_eq!(selected_model(&none, None, None), Err(NoModel));
    assert_eq!(NoModel.to_text(), "Codex model list was empty");
}

// Sessions

#[test]
fn sessions_are_listed() {
    assert_eq!(
        shape(&list_sessions_call(Some("c"), Some("/w"))),
        (
            "thread/list",
            r#"{"cursor":"c","cwd":"/w","sourceKinds":["appServer"],"limit":50}"#.to_owned()
        )
    );
    assert_eq!(
        shape(&list_sessions_call(None, None)).1,
        r#"{"sourceKinds":["appServer"],"limit":50}"#
    );
    let (sessions, next) = list_sessions(&json(
        r#"{"data":[{"id":"a","name":"A","cwd":"/w","updatedAt":5,"createdAt":-5},{"name":"no id"},
            {"id":"b","updatedAt":1.5}],"nextCursor":"n"}"#,
    ));
    assert_eq!(next.as_deref(), Some("n"));
    assert_eq!(sessions.len(), 2);
    assert_eq!(sessions[0].title.as_deref(), Some("A"));
    assert_eq!(sessions[0].cwd.as_deref(), Some("/w"));
    assert_eq!(sessions[0].updated_at, Some(5));
    assert_eq!(sessions[0].created_at, Some(-5));
    assert_eq!(sessions[1].title, None);
    assert_eq!(sessions[1].updated_at, None);
}

#[test]
fn times_outside_the_calendar_are_dropped() {
    let time = |seconds: i64| {
        let value = json(&format!(r#"{{"id":"a","updatedAt":{seconds}}}"#));
        agent_session_info_from_thread_value(&value).unwrap().updated_at
    };
    for seconds in [
        0,
        -8334601228800,
        -8334601228801,
        8210266876799,
        8210266876800,
        i64::MAX,
        i64::MIN,
    ] {
        let expected = chrono::DateTime::from_timestamp(seconds, 0).map(|date| date.timestamp());
        assert_eq!(time(seconds), expected, "{seconds}");
    }
    assert_eq!(time(8210266876799), Some(8210266876799));
    assert_eq!(time(8210266876800), None);
    assert_eq!(time(-8334601228800), Some(-8334601228800));
    assert_eq!(time(-8334601228801), None);
}

#[test]
fn sessions_are_put_away() {
    for (change, method, failure) in [
        (SessionChange::Archive, "thread/archive", "failed to archive native Codex thread"),
        (SessionChange::Unarchive, "thread/unarchive", "failed to unarchive native Codex thread"),
        (SessionChange::Delete, "thread/delete", "failed to delete native Codex thread"),
    ] {
        assert_eq!(
            shape(&session_change_call(change, "t")),
            (method, r#"{"threadId":"t"}"#.to_owned())
        );
        assert_eq!(session_changed(change, Ok(())), Ok(()));
        assert_eq!(session_changed(change, Err("no")), Err(problem(failure, Some("no"))));
    }
}

#[test]
fn connections_are_refused_and_made() {
    assert_eq!(
        connect_refusal(false, true).as_deref(),
        Some("native Codex app-server is only available for local projects")
    );
    assert_eq!(
        connect_refusal(true, true).as_deref(),
        Some("native Codex app-server disabled by ZED_CODEX_NATIVE=0")
    );
    assert_eq!(connect_refusal(true, false), None);
    assert_eq!(
        shape(&initialize_call("1.2.3")),
        (
            "initialize",
            r#"{"clientInfo":{"name":"Zed","version":"1.2.3"},"capabilities":{"experimentalApi":true}}"#
                .to_owned()
        )
    );
    assert_eq!(initialized(Ok(())), Ok(()));
    assert_eq!(
        initialized(Err("x")),
        Err(problem("failed to initialize Codex app-server", Some("x")))
    );
}

#[test]
fn sessions_need_a_directory_and_an_id() {
    let no_directory = Err(problem("Working directory cannot be empty", None));
    assert_eq!(new_session_call(None, None), no_directory);
    assert_eq!(open_existing_session_call("t", None, None), no_directory);
    assert_eq!(
        shape(&new_session_call(Some("/w"), Some("m")).unwrap()),
        (
            "thread/start",
            r#"{"cwd":"/w","threadSource":"appServer","model":"m"}"#.to_owned()
        )
    );
    assert_eq!(
        shape(&open_existing_session_call("t", Some("/w"), None).unwrap()),
        ("thread/resume", r#"{"threadId":"t","cwd":"/w"}"#.to_owned())
    );
    assert_eq!(
        new_session_opened(Ok(&json("{}"))),
        Err(problem("Codex thread/start response did not include thread.id", None))
    );
    assert_eq!(
        new_session_opened(Err("x")),
        Err(problem("failed to start native Codex thread", Some("x")))
    );
    assert_eq!(
        existing_session_opened("t", None, Err("x")),
        Err(problem("failed to resume native Codex thread", Some("x")))
    );
    assert_eq!(read_history(None), Ok(vec![]));
    assert_eq!(
        read_history(Some(Err("x"))),
        Err(problem("failed to read native Codex thread history", Some("x")))
    );
    assert_eq!(read_history_call("t", false), None);
}

// Turns

#[test]
fn waits_for_turn_started_notification() {
    let mut turns: TurnTracker<(), u32, u32> = TurnTracker::new();
    turns.watch_next_native_turn_start("thread-1", 7);
    let params = json(r#"{"threadId": "thread-1", "turn": {"id": "turn-1"}}"#);
    assert_eq!(turns.start_turn(&params), Some((7, "turn-1".to_owned())));
    assert_eq!(turns.start_turn(&params), None);

    turns.watch_next_native_turn_start("thread-1", 8);
    turns.forget_turn_start("thread-1");
    assert_eq!(turns.start_turn(&params), None);
}

#[test]
fn ends_are_told_in_either_order() {
    let mut turns: TurnTracker<(), u32, u32> = TurnTracker::new();
    turns.add_session("s", ());
    let ended = |turn: &str, status: &str| {
        json(&format!(
            r#"{{"threadId":"s","turn":{{"id":"{turn}","status":"{status}"}}}}"#
        ))
    };
    assert_eq!(turns.cancel("s"), None);
    assert_eq!(turns.wait_for_native_turn("s", "a", 1), None);
    assert_eq!(
        turns.cancel("s").map(|call| (call.method, to_text(&call.params))),
        Some(("turn/interrupt".to_owned(), r#"{"threadId":"s","turnId":"a"}"#.to_owned()))
    );
    assert_eq!(
        turns.complete_turn(&ended("a", "interrupted")),
        Some((1, StopReason::Cancelled))
    );
    assert_eq!(turns.cancel("s"), None);

    assert_eq!(turns.complete_turn(&ended("b", "completed")), None);
    assert_eq!(turns.wait_for_native_turn("s", "b", 2), Some(StopReason::EndTurn));
    assert_eq!(turns.wait_for_native_turn("s", "b", 3), None);
    assert_eq!(turns.complete_turn(&json(r#"{"threadId":"s"}"#)), None);
    assert_eq!(turns.complete_turn(&json(r#"{"turn":{"id":"b"}}"#)), None);
    assert_eq!(turns.wait_for_native_turn("unknown", "b", 4), None);
    assert_eq!(turns.cancel("unknown"), None);

    let mut told: Vec<u32> = turns.close().into_iter().map(|(_, waiter)| waiter).collect();
    told.sort();
    assert_eq!(told, [3, 4]);
    assert_eq!(turns.complete_turn(&ended("b", "completed")), None);
}

// The bridge

#[test]
fn native_connection_starts_resumes_prompts_and_cancels_agent_thread() {
    let mut bridge: Bridge<&str, u32, u32> = Bridge::new();
    let mut methods: Vec<String> = Vec::new();

    let call = new_session_call(Some("/project"), None).unwrap();
    methods.push(call.method);
    let response = json(r#"{"thread": {"id": "started-thread", "name": "Started thread"}}"#);
    let started = new_session_opened(Ok(&response))
        .expect("native Codex start should create an agent thread");
    bridge.remember_selected_model_from_thread(&started.id, &response);
    bridge.turns.add_session(&started.id, "started");
    assert_eq!(started.id, "started-thread");
    assert_eq!(started.title.as_deref(), Some("Started thread"));
    assert!(native_available_commands().len() > 0);

    let call = open_existing_session_call("resumed-thread", Some("/project"), None).unwrap();
    methods.push(call.method);
    let response = json(r#"{"thread": {"id": "resumed-thread", "name": "Resumed thread"}}"#);
    let resumed = existing_session_opened("resumed-thread", Some("Existing title"), Ok(&response))
        .expect("native Codex resume should create an agent thread");
    assert_eq!(resumed.id, "resumed-thread");
    assert_eq!(resumed.title.as_deref(), Some("Existing title"));
    assert_eq!(read_history_call("resumed-thread", false), None);
    assert!(
        read_history(None).unwrap().is_empty(),
        "resume without history should not replay transcript entries"
    );

    let call = open_existing_session_call("loaded-thread", Some("/project"), None).unwrap();
    methods.push(call.method);
    let response = json(r#"{"thread": {"id": "loaded-thread", "name": "Loaded thread"}}"#);
    let loaded = existing_session_opened("loaded-thread", None, Ok(&response))
        .expect("native Codex load should create an agent thread");
    assert_eq!(loaded.title.as_deref(), Some("Loaded thread"));
    let call = read_history_call("loaded-thread", true).expect("history should be read");
    methods.push(call.method);
    let history = json(
        r#"{"thread": {"turns": [{"items": [
            {"type": "userMessage", "content": [{"type": "text", "text": "Earlier prompt"}]},
            {"type": "agentMessage", "text": "Earlier response"}
        ]}]}}"#,
    );
    let updates = read_history(Some(Ok(&history)))
        .expect("native Codex load should replay history into an agent thread");
    assert_eq!(
        updates,
        [
            SessionUpdate::UserMessageChunk("Earlier prompt".into()),
            SessionUpdate::AgentMessageChunk("Earlier response".into()),
        ]
    );

    let blocks = vec![PromptBlock::Text("Continue".into())];
    let selected = bridge.models.get("started-thread").map(|model| model.as_str());
    match prompt("started-thread", &blocks, selected, None) {
        Ok(PromptAction::StartTurn(call)) => methods.push(call.method),
        other => panic!("unexpected action: {other:?}"),
    }
    let turn = prompt_turn_started(Ok(&json(r#"{"turn": {"id": "turn-1"}}"#))).unwrap();
    assert_eq!(bridge.turns.wait_for_native_turn("started-thread", &turn, 1), None);
    let call = bridge.turns.cancel("started-thread").expect("a turn should be active");
    assert_eq!(call.params.text_at("turnId"), Some("turn-1"));
    methods.push(call.method);
    let effects = bridge.handle_server_notification(
        "turn/completed",
        &json(
            r#"{"threadId": "started-thread", "turn": {"id": "turn-1", "status": "interrupted"}}"#,
        ),
    );
    assert_eq!(effects.ended, Some((1, StopReason::Cancelled)));

    assert_eq!(
        methods,
        vec![
            "thread/start",
            "thread/resume",
            "thread/resume",
            "thread/read",
            "turn/start",
            "turn/interrupt",
        ]
    );
}

#[test]
fn notifications_change_what_they_are_about() {
    let mut bridge: Bridge<(), u32, u32> = Bridge::new();
    let settings = json(
        r#"{"threadId":"s","threadSettings":{"model":"m","effort":"low","sandboxPolicy":{"type":"readOnly"}}}"#,
    );
    let effects = bridge.handle_server_notification("thread/settings/updated", &settings);
    assert_eq!(effects.options_changed, None);
    assert!(!effects.model_changed);
    assert_eq!(bridge.models.get("s"), None);

    bridge.session_config_options("s");
    bridge.session_config_options("other");
    let effects = bridge.handle_server_notification("thread/settings/updated", &settings);
    assert_eq!(effects.options_changed.as_deref(), Some("s"));
    assert!(effects.model_changed);
    assert_eq!(bridge.models.get("s").map(|model| model.as_str()), Some("m"));
    let value = |bridge: &Bridge<(), u32, u32>, session: &str, id: &str| {
        current_config_value_for_test(bridge.options.get(session).unwrap(), id)
    };
    assert_eq!(value(&bridge, "s", "model_reasoning_effort").as_deref(), Some("low"));
    assert_eq!(value(&bridge, "s", "sandbox_mode").as_deref(), Some("read-only"));
    assert_eq!(value(&bridge, "other", "model_reasoning_effort").as_deref(), Some("xhigh"));
    bridge.session_config_options("s");
    assert_eq!(value(&bridge, "s", "model_reasoning_effort").as_deref(), Some("low"));

    let config = json(r#"{"config":{"approval_policy":"untrusted"}}"#);
    assert_eq!(bridge.config_reread("s", Ok(&config)), Ok(true));
    assert_eq!(value(&bridge, "s", "approval_policy").as_deref(), Some("untrusted"));
    assert_eq!(bridge.config_reread("unknown", Ok(&config)), Ok(false));
    assert_eq!(
        bridge.config_reread("s", Err("x")),
        Err(problem("failed to refresh native Codex configuration", Some("x")))
    );
    assert_eq!(value(&bridge, "s", "approval_policy").as_deref(), Some("untrusted"));

    for method in ["thread/archived", "thread/unarchived", "thread/deleted"] {
        assert!(bridge.handle_server_notification(method, &Json::Null).refresh_list);
    }
    let effects = bridge.handle_server_notification("turn/started", &Json::Null);
    assert!(!effects.refresh_list && effects.started.is_none() && effects.updates.is_empty());
    bridge.turns.watch_next_native_turn_start("s", 9);
    let effects = bridge.handle_server_notification(
        "turn/started",
        &json(r#"{"threadId":"s","turn":{"id":"t"}}"#),
    );
    assert_eq!(effects.started, Some((9, "t".to_owned())));
    let effects = bridge.handle_server_notification(
        "item/agentMessage/delta",
        &json(r#"{"threadId":"s","delta":"hi"}"#),
    );
    assert_eq!(
        effects.updates,
        [("s".to_owned(), SessionUpdate::AgentMessageChunk("hi".into()))]
    );
}

#[test]
fn models_of_threads_are_remembered() {
    let mut bridge: Bridge<(), u32, u32> = Bridge::new();
    bridge.select_model("s", "first");
    assert!(!bridge.remember_selected_model_from_thread("s", &json("{}")));
    assert_eq!(bridge.models.get("s").map(|m| m.as_str()), Some("first"));
    let response = json(r#"{"thread":{"settings":{"model":"a"}},"threadSettings":{"model":"b"}}"#);
    assert!(bridge.remember_selected_model_from_thread("s", &response));
    assert_eq!(bridge.models.get("s").map(|m| m.as_str()), Some("a"));
    let response = json(r#"{"thread":{"id":"x"},"threadSettings":{"model":"b"}}"#);
    assert!(bridge.remember_selected_model_from_thread("s", &response));
    assert_eq!(bridge.models.get("s").map(|m| m.as_str()), Some("b"));
    let response = json(r#"{"thread":{"settings":{}},"threadSettings":{"model":"c"}}"#);
    assert!(!bridge.remember_selected_model_from_thread("s", &response));
}
