use codex_native::calls::Problem;
use codex_native::completions::{
    chat_completion_body, raw_completion_body, read_chat_completion, read_raw_completion,
    send_custom_server_request, send_with_api_key_fallback, ChatCompletion, ChatMessage,
    Completion, CompletionAction, HttpRequest, MessageContent, MessagePart, RawCompletion,
};
use codex_native::json::Json;
use codex_native::json_text::parse_json;
use codex_native::providers::{
    cerebras_api_url, configured_provider_api_url, custom_settings_for_provider, groq_api_url,
    load_open_ai_compatible_api_keys_if_needed, open_ai_compatible_api_url, provider_api_url,
    provider_display_name, provider_env_var, provider_id, raw_custom_settings_for_provider,
    split_api_keys, uses_api_keys, ApiKeys, CustomProviderSettingsContent,
    EditPredictionProvider, EditPredictionSettings, EditPredictionSettingsContent,
    OpenAiCompatibleSettings, CEREBRAS_API_URL, GROQ_API_URL,
    OPEN_AI_COMPATIBLE_CREDENTIALS_USERNAME,
};

const PROVIDERS: [EditPredictionProvider; 5] = [
    EditPredictionProvider::Ollama,
    EditPredictionProvider::OpenAiCompatibleApi,
    EditPredictionProvider::Groq,
    EditPredictionProvider::Cerebras,
    EditPredictionProvider::Other,
];

fn json(text: &str) -> Json {
    parse_json(text).expect("test value should parse")
}

fn strings(items: &[&str]) -> Vec<String> {
    items.iter().map(|item| item.to_string()).collect()
}

fn no_content() -> EditPredictionSettingsContent {
    EditPredictionSettingsContent {
        open_ai_compatible_api: None,
        groq: None,
        cerebras: None,
    }
}

fn no_settings() -> EditPredictionSettings {
    EditPredictionSettings {
        ollama: None,
        open_ai_compatible_api: None,
        groq: None,
        cerebras: None,
    }
}

fn settings(api_url: &str, model: &str) -> OpenAiCompatibleSettings {
    OpenAiCompatibleSettings {
        model: model.into(),
        max_output_tokens: 64,
        api_url: api_url.into(),
    }
}

fn custom_url(url: &str) -> Option<CustomProviderSettingsContent> {
    Some(CustomProviderSettingsContent {
        api_url: Some(url.into()),
        model: None,
    })
}

/// What a server is sent until there is a completion or a failure, where each
/// request is answered by a function of its number.
fn run(
    provider: EditPredictionProvider,
    api_url: &str,
    model: &str,
    prompt: &str,
    max_tokens: u32,
    stop: &[&str],
    keys: &[&str],
    answer: impl Fn(usize) -> Result<Completion, Problem>,
) -> (Vec<HttpRequest>, Result<Completion, Problem>) {
    let stop = strings(stop);
    let keys = strings(keys);
    let mut requests = Vec::new();
    let mut outcomes = Vec::new();
    loop {
        match send_custom_server_request(
            provider, api_url, model, prompt, max_tokens, &stop, &keys, &outcomes,
        ) {
            CompletionAction::Send(request) => {
                outcomes.push(answer(requests.len()));
                requests.push(request);
            }
            CompletionAction::Done(result) => return (requests, result),
            CompletionAction::Ollama => panic!("no request is sent to Ollama here"),
        }
    }
}

fn chat_answer(id: &str, content: &str) -> Result<Completion, Problem> {
    Ok(read_chat_completion(&ChatCompletion {
        id: id.into(),
        choices: vec![ChatMessage::Assistant(Some(MessageContent::Plain(
            content.into(),
        )))],
    }))
}

fn bad_key() -> Result<Completion, Problem> {
    Err(Problem {
        message: "API error: 401 Unauthorized - {\"error\":{\"message\":\"bad key\"}}".into(),
        cause: None,
    })
}

#[test]
fn test_split_api_keys() {
    let keys = split_api_keys(" key-1, key-2;key-3\n\nkey-4 ");

    assert_eq!(
        keys.iter().map(|key| key.as_str()).collect::<Vec<_>>(),
        vec!["key-1", "key-2", "key-3", "key-4"]
    );
}

#[test]
fn keys_hold_no_separators_and_no_white_space_around_them() {
    let keys = split_api_keys("\u{a0}a b\t;;,\n ,c\r\n\u{3000}");
    assert_eq!(keys, strings(&["a b", "c"]));
    assert_eq!(split_api_keys(" ,;\n "), Vec::<String>::new());
    assert_eq!(split_api_keys(""), Vec::<String>::new());
}

#[test]
fn test_provider_api_url_uses_partial_custom_url_before_model() {
    let content = EditPredictionSettingsContent {
        groq: custom_url("https://proxy.example.test/openai/v1"),
        ..no_content()
    };
    let settings = no_settings();
    assert!(settings.groq.is_none());
    assert_eq!(
        groq_api_url(Some(&content), &settings).as_str(),
        "https://proxy.example.test/openai/v1"
    );
}

#[test]
fn urls_come_from_the_setting_then_the_provider_then_the_default() {
    let ready = EditPredictionSettings {
        groq: Some(settings("https://ready.example.test", "m")),
        open_ai_compatible_api: Some(settings("https://open.example.test", "m")),
        ..no_settings()
    };
    assert_eq!(groq_api_url(None, &ready), "https://ready.example.test");
    assert_eq!(groq_api_url(Some(&no_content()), &ready), "https://ready.example.test");
    let model_only = EditPredictionSettingsContent {
        groq: Some(CustomProviderSettingsContent {
            api_url: None,
            model: Some("qwen/qwen3-32b".into()),
        }),
        ..no_content()
    };
    assert_eq!(groq_api_url(Some(&model_only), &no_settings()), GROQ_API_URL);
    let emptied = EditPredictionSettingsContent {
        groq: custom_url(""),
        open_ai_compatible_api: custom_url(""),
        cerebras: custom_url(""),
    };
    assert_eq!(groq_api_url(Some(&emptied), &ready), GROQ_API_URL);
    assert_eq!(cerebras_api_url(Some(&emptied), &ready), CEREBRAS_API_URL);
    assert_eq!(open_ai_compatible_api_url(Some(&emptied), &ready), "");
    assert_eq!(open_ai_compatible_api_url(None, &ready), "https://open.example.test");
    assert_eq!(cerebras_api_url(None, &no_settings()), "https://api.cerebras.ai/v1");
    assert_eq!(GROQ_API_URL, "https://api.groq.com/openai/v1");
    assert_eq!(
        provider_api_url(None, &no_settings(), EditPredictionProvider::Ollama),
        ""
    );
    assert_eq!(
        configured_provider_api_url(Some(&emptied), EditPredictionProvider::Groq),
        Some("")
    );
    assert_eq!(
        configured_provider_api_url(Some(&emptied), EditPredictionProvider::Ollama),
        None
    );
    assert_eq!(configured_provider_api_url(None, EditPredictionProvider::Groq), None);
}

#[test]
fn providers_have_their_names_and_settings() {
    let ids: Vec<&str> = PROVIDERS.iter().map(|p| provider_id(*p)).collect();
    assert_eq!(ids, ["unknown", "open_ai_compatible_api", "groq", "cerebras", "unknown"]);
    let names: Vec<&str> = PROVIDERS.iter().map(|p| provider_display_name(*p)).collect();
    assert_eq!(names, ["Unknown", "OpenAI-Compatible API", "Groq", "Cerebras", "Unknown"]);
    let variables: Vec<&str> = PROVIDERS.iter().map(|p| provider_env_var(*p)).collect();
    assert_eq!(
        variables,
        [
            "",
            "ZED_OPEN_AI_COMPATIBLE_EDIT_PREDICTION_API_KEY",
            "GROQ_API_KEY",
            "CEREBRAS_API_KEY",
            ""
        ]
    );
    let uses: Vec<bool> = PROVIDERS.iter().map(|p| uses_api_keys(*p)).collect();
    assert_eq!(uses, [false, true, true, true, false]);
    assert_eq!(OPEN_AI_COMPATIBLE_CREDENTIALS_USERNAME, "openai-compatible-api-token");

    let ready = EditPredictionSettings {
        ollama: Some(settings("o", "o")),
        open_ai_compatible_api: Some(settings("a", "a")),
        groq: Some(settings("g", "g")),
        cerebras: None,
    };
    let found: Vec<Option<&str>> = PROVIDERS
        .iter()
        .map(|p| custom_settings_for_provider(&ready, *p).map(|s| s.model.as_str()))
        .collect();
    assert_eq!(found, [Some("o"), Some("a"), Some("g"), None, None]);
    let content = EditPredictionSettingsContent {
        open_ai_compatible_api: custom_url("a"),
        groq: None,
        cerebras: custom_url("c"),
    };
    let found: Vec<bool> = PROVIDERS
        .iter()
        .map(|p| raw_custom_settings_for_provider(&content, *p).is_some())
        .collect();
    assert_eq!(found, [false, true, false, true, false]);
}

#[test]
fn keys_are_loaded_where_the_provider_takes_them() {
    let groq = EditPredictionProvider::Groq;
    assert_eq!(
        load_open_ai_compatible_api_keys_if_needed(groq, Some("a;b")),
        strings(&["a", "b"])
    );
    assert!(load_open_ai_compatible_api_keys_if_needed(groq, None).is_empty());
    let ollama = EditPredictionProvider::Ollama;
    assert!(load_open_ai_compatible_api_keys_if_needed(ollama, Some("a;b")).is_empty());
}

#[test]
fn tokens_are_made_once_for_each_provider() {
    let mut tokens: ApiKeys<u32> = ApiKeys::new();
    assert_eq!(tokens.kept(EditPredictionProvider::Groq), None);
    tokens.groq_api_token(1);
    tokens.groq_api_token(2);
    tokens.cerebras_api_token(3);
    tokens.open_ai_compatible_api_token(4);
    tokens.provider_api_token(EditPredictionProvider::Ollama, 5);
    tokens.provider_api_token(EditPredictionProvider::Other, 6);
    let kept: Vec<Option<&u32>> = PROVIDERS.iter().map(|p| tokens.kept(*p)).collect();
    assert_eq!(kept, [Some(&5), Some(&4), Some(&1), Some(&3), Some(&5)]);
}

fn assert_chat_completion_request_shape(
    provider: EditPredictionProvider,
    api_url: &str,
    model: &str,
) {
    let (requests, result) = run(
        provider,
        api_url,
        model,
        "fim prompt",
        19,
        &["<stop-1>", "<stop-2>"],
        &["chat-key"],
        |_| chat_answer("chat-response-id", "chat completion text"),
    );
    let completion = result.expect("chat completion request succeeds");

    assert_eq!(completion.text, "chat completion text");
    assert_eq!(completion.id, "chat-response-id");

    assert_eq!(requests.len(), 1);
    let request = &requests[0];
    assert_eq!(request.uri, format!("{api_url}/chat/completions"));
    assert_eq!(request.authorization.as_deref(), Some("Bearer chat-key"));
    let body = json(&request.body);
    assert_eq!(body.text_at("model"), Some(model));
    let messages = body.array_at("messages").expect("messages should be sent");
    assert_eq!(messages[0].text_at("role"), Some("user"));
    assert_eq!(messages[0].text_at("content"), Some("fim prompt"));
    assert_eq!(body.u64_at("max_completion_tokens"), Some(19));
    assert_eq!(body.get("stop"), Some(&json(r#"["<stop-1>", "<stop-2>"]"#)));
}

#[test]
fn test_groq_chat_completion_request_shape() {
    assert_chat_completion_request_shape(
        EditPredictionProvider::Groq,
        GROQ_API_URL,
        "groq-model",
    );
}

#[test]
fn test_cerebras_chat_completion_request_shape() {
    assert_chat_completion_request_shape(
        EditPredictionProvider::Cerebras,
        CEREBRAS_API_URL,
        "cerebras-model",
    );
}

#[test]
fn test_open_ai_compatible_raw_completion_still_uses_raw_endpoint() {
    let (requests, result) = run(
        EditPredictionProvider::OpenAiCompatibleApi,
        "https://example.test/completions",
        "raw-model",
        "raw prompt",
        17,
        &["</fim>"],
        &["raw-key"],
        |_| {
            let parsed = RawCompletion {
                id: "raw-response-id".into(),
                choices: strings(&["raw completion text"]),
            };
            read_raw_completion(200, "200 OK", "", Ok(&parsed))
        },
    );
    let completion = result.expect("raw completion request succeeds");

    assert_eq!(completion.text, "raw completion text");
    assert_eq!(completion.id, "raw-response-id");

    assert_eq!(requests.len(), 1);
    let request = &requests[0];
    assert_eq!(request.uri, "https://example.test/completions");
    assert!(!request.uri.ends_with("/chat/completions"));
    assert_eq!(request.authorization.as_deref(), Some("Bearer raw-key"));
    let body = json(&request.body);
    assert_eq!(body.text_at("model"), Some("raw-model"));
    assert_eq!(body.text_at("prompt"), Some("raw prompt"));
    assert_eq!(body.u64_at("max_tokens"), Some(17));
    assert_eq!(body.get("stop"), Some(&json(r#"["</fim>"]"#)));
}

#[test]
fn test_api_key_fallback_retries_second_key_after_failure() {
    let (requests, result) = run(
        EditPredictionProvider::Groq,
        GROQ_API_URL,
        "groq-model",
        "prompt",
        8,
        &[],
        &["first-key", "second-key"],
        |index| {
            if index == 0 {
                bad_key()
            } else {
                chat_answer("fallback-response-id", "second key text")
            }
        },
    );
    let completion = result.expect("second API key succeeds");

    assert_eq!(completion.text, "second key text");
    assert_eq!(completion.id, "fallback-response-id");

    assert_eq!(requests.len(), 2);
    assert_eq!(requests[0].authorization.as_deref(), Some("Bearer first-key"));
    assert_eq!(requests[1].authorization.as_deref(), Some("Bearer second-key"));
}

#[test]
fn test_api_key_fallback_reports_all_keys_failed() {
    let (requests, result) = run(
        EditPredictionProvider::Cerebras,
        CEREBRAS_API_URL,
        "cerebras-model",
        "prompt",
        8,
        &[],
        &["first-key", "second-key"],
        |_| bad_key(),
    );
    let error = result.expect_err("all API keys fail");

    assert!(error
        .message
        .contains("Cerebras edit prediction request failed with all configured API keys"));
    assert_eq!(error.cause, bad_key().err().map(|error| error.message));

    assert_eq!(requests.len(), 2);
    assert_eq!(requests[0].authorization.as_deref(), Some("Bearer first-key"));
    assert_eq!(requests[1].authorization.as_deref(), Some("Bearer second-key"));
}

#[test]
fn chats_need_a_key_and_raw_completions_do_not() {
    let (requests, result) = run(
        EditPredictionProvider::Groq, "u", "m", "p", 1, &[], &[], |_| bad_key(),
    );
    assert!(requests.is_empty());
    assert_eq!(
        result.unwrap_err(),
        Problem { message: "missing API key for Groq".into(), cause: None }
    );

    let (requests, result) = run(
        EditPredictionProvider::OpenAiCompatibleApi, "u", "m", "p", 1, &[], &[], |_| bad_key(),
    );
    assert_eq!(requests.len(), 1);
    assert_eq!(requests[0].authorization, None);
    assert_eq!(result.unwrap_err(), bad_key().unwrap_err());

    assert_eq!(
        send_custom_server_request(
            EditPredictionProvider::Ollama, "u", "m", "p", 1, &vec![], &vec![], &vec![],
        ),
        CompletionAction::Ollama
    );
    assert_eq!(
        send_with_api_key_fallback(EditPredictionProvider::Other, "u", "b", &vec![], &vec![]),
        CompletionAction::Done(Err(Problem {
            message: "missing API key for Unknown".into(),
            cause: None,
        }))
    );
}

#[test]
fn request_bodies_are_written_in_order() {
    assert_eq!(
        chat_completion_body("m", "p", 5, &vec![]),
        json(
            r#"{"model":"m","messages":[{"role":"user","content":"p"}],"stream":false,
                "max_completion_tokens":5}"#
        )
    );
    let (requests, _) = run(
        EditPredictionProvider::OpenAiCompatibleApi, "u", "m", "say \"hi\"", 5, &[], &["k"],
        |_| bad_key(),
    );
    assert_eq!(
        requests[0].body,
        r#"{"model":"m","prompt":"say \"hi\"","max_tokens":5,"stop":[]}"#
    );
    assert_eq!(raw_completion_body("m", "say \"hi\"", 5, &vec![]), json(&requests[0].body));
}

#[test]
fn chat_completions_give_the_text_of_the_first_choice() {
    let read = |choices| {
        let completion = read_chat_completion(&ChatCompletion { id: "id".into(), choices });
        assert_eq!(completion.id, "id");
        completion.text
    };
    assert_eq!(read(vec![]), "");
    assert_eq!(read(vec![ChatMessage::Other]), "");
    assert_eq!(read(vec![ChatMessage::Assistant(None)]), "");
    let parts = vec![
        MessagePart::Text("a".into()),
        MessagePart::Other,
        MessagePart::Text("b".into()),
    ];
    assert_eq!(
        read(vec![
            ChatMessage::Assistant(Some(MessageContent::Multipart(parts))),
            ChatMessage::Other,
        ]),
        "ab"
    );
}

#[test]
fn raw_completions_fail_on_a_status_or_a_body_that_does_not_parse() {
    let parsed = RawCompletion { id: "id".into(), choices: vec![] };
    assert_eq!(
        read_raw_completion(404, "404 Not Found", "gone", Ok(&parsed)),
        Err(Problem {
            message: "custom server error: 404 Not Found - gone".into(),
            cause: None,
        })
    );
    assert_eq!(
        read_raw_completion(300, "300 Multiple Choices", "", Ok(&parsed)),
        Err(Problem {
            message: "custom server error: 300 Multiple Choices - ".into(),
            cause: None,
        })
    );
    assert!(read_raw_completion(199, "199", "", Ok(&parsed)).is_err());
    let unread = || read_raw_completion(200, "200 OK", "{", Err("EOF while parsing an object"));
    let error = Problem {
        message: "Failed to parse completion response".into(),
        cause: Some("EOF while parsing an object".into()),
    };
    assert_eq!(unread(), Err(error));
    let ask = |keys: &[&str]| {
        run(EditPredictionProvider::OpenAiCompatibleApi, "u", "m", "p", 1, &[], keys, |_| unread())
            .1
            .unwrap_err()
    };
    assert_eq!(Err(ask(&[])), unread());
    assert_eq!(
        ask(&["k"]),
        Problem {
            message: "OpenAI-Compatible API edit prediction request failed with all configured \
                      API keys"
                .into(),
            cause: Some(
                "Failed to parse completion response: EOF while parsing an object".into()
            ),
        }
    );
    assert_eq!(
        read_raw_completion(299, "299", "", Ok(&parsed)),
        Ok(Completion { text: String::new(), id: "id".into() })
    );
}
