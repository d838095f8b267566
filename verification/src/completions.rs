//! Completion requests to servers that speak the OpenAI protocol: what is sent,
//! which key is tried next, and what is read from the answers.

use vstd::prelude::*;

use crate::calls::{in_one_line, plain_problem, problem_after, Problem, ProblemView};
use crate::json::{
    fields, item_views, item_views_push, no_entries, text_array, text_items, with, Json, JsonView,
};
use crate::json_text::{json_text, settled, to_text};
use crate::providers::{display_name_of, provider_display_name, EditPredictionProvider};
use crate::text::{concat2, concat4, opt_string, take_all, take_step, texts};

verus! {

/// A request that is posted as JSON.
#[derive(Debug, PartialEq, Eq)]
pub struct HttpRequest {
    pub uri: String,
    pub authorization: Option<String>,
    pub body: String,
}

/// A completion, with the id of the response that it came in.
#[derive(Debug, PartialEq, Eq)]
pub struct Completion {
    pub text: String,
    pub id: String,
}

/// What is to be done for a completion.
#[derive(Debug, PartialEq, Eq)]
pub enum CompletionAction {
    /// Ask the client for Ollama.
    Ollama,
    /// Send a request.
    Send(HttpRequest),
    /// There is nothing more to do.
    Done(Result<Completion, Problem>),
}

/// What a completion says.
pub struct CompletionView {
    pub text: Seq<char>,
    pub id: Seq<char>,
}

/// What is to be done, as contracts speak of it.
pub enum ActionView {
    Ollama,
    Send { uri: Seq<char>, authorization: Option<Seq<char>>, body: Seq<char> },
    Completed(CompletionView),
    Failed { message: Seq<char>, cause: Option<Seq<char>> },
}

impl View for Completion {
    type V = CompletionView;

    open spec fn view(&self) -> CompletionView {
        CompletionView { text: self.text@, id: self.id@ }
    }
}

impl View for CompletionAction {
    type V = ActionView;

    open spec fn view(&self) -> ActionView {
        match *self {
            CompletionAction::Ollama => ActionView::Ollama,
            CompletionAction::Send(request) => ActionView::Send {
                uri: request.uri@,
                authorization: opt_string(request.authorization),
                body: request.body@,
            },
            CompletionAction::Done(Ok(completion)) => ActionView::Completed(completion@),
            CompletionAction::Done(Err(error)) => ActionView::Failed {
                message: error.message@,
                cause: opt_string(error.cause),
            },
        }
    }
}

/// What the answer to a request says.
pub open spec fn outcome_view(outcome: Result<Completion, Problem>) -> Result<
    CompletionView,
    ProblemView,
> {
    match outcome {
        Ok(completion) => Ok(completion@),
        Err(error) => Err(error@),
    }
}

/// What the answers to some requests say.
pub open spec fn outcome_views(outcomes: Seq<Result<Completion, Problem>>) -> Seq<
    Result<CompletionView, ProblemView>,
> {
    Seq::new(outcomes.len(), |i: int| outcome_view(outcomes[i]))
}

/// The first completion among some answers.
pub open spec fn first_completion(outcomes: Seq<Result<CompletionView, ProblemView>>) -> Option<
    CompletionView,
>
    decreases outcomes.len(),
{
    if outcomes.len() == 0 {
        None
    } else {
        match first_completion(outcomes.drop_last()) {
            Some(completion) => Some(completion),
            None => match outcomes.last() {
                Ok(completion) => Some(completion),
                Err(_) => None,
            },
        }
    }
}

/// What is to be done when there is no key.
pub open spec fn missing_key(provider: EditPredictionProvider) -> ActionView {
    ActionView::Failed {
        message: "missing API key for "@ + display_name_of(provider),
        cause: None,
    }
}

/// What is to be done with some keys after some answers: the keys are tried one
/// after the other until there is a completion.
pub open spec fn fallback_action(
    provider: EditPredictionProvider,
    uri: Seq<char>,
    body: Seq<char>,
    keys: Seq<Seq<char>>,
    outcomes: Seq<Result<CompletionView, ProblemView>>,
) -> ActionView {
    match first_completion(outcomes) {
        Some(completion) => ActionView::Completed(completion),
        None => if outcomes.len() < keys.len() {
            ActionView::Send {
                uri,
                authorization: Some("Bearer "@ + keys[outcomes.len() as int]),
                body,
            }
        } else if outcomes.len() > 0 {
            ActionView::Failed {
                message: display_name_of(provider)
                    + " edit prediction request failed with all configured API keys"@,
                cause: match outcomes.last() {
                    Ok(_) => None,
                    Err(error) => Some(in_one_line(error)),
                },
            }
        } else {
            missing_key(provider)
        },
    }
}

/// The body of a chat request.
pub open spec fn chat_body(
    model: Seq<char>,
    prompt: Seq<char>,
    max_tokens: u32,
    stop: Seq<Seq<char>>,
) -> JsonView {
    let message = JsonView::Object(
        fields().push(("role"@, JsonView::Text("user"@))).push(("content"@, JsonView::Text(prompt))),
    );
    let base = fields().push(("model"@, JsonView::Text(model))).push(
        ("messages"@, JsonView::Array(seq![message])),
    ).push(("stream"@, JsonView::Bool(false))).push(
        ("max_completion_tokens"@, JsonView::Int(max_tokens as int)),
    );
    JsonView::Object(
        if stop.len() == 0 {
            base
        } else {
            base.push(("stop"@, JsonView::Array(text_items(stop))))
        },
    )
}

/// The body of a request for a raw completion.
pub open spec fn raw_body(
    model: Seq<char>,
    prompt: Seq<char>,
    max_tokens: u32,
    stop: Seq<Seq<char>>,
) -> JsonView {
    JsonView::Object(
        fields().push(("model"@, JsonView::Text(model))).push(
            ("prompt"@, JsonView::Text(prompt)),
        ).push(("max_tokens"@, JsonView::Int(max_tokens as int))).push(
            ("stop"@, JsonView::Array(text_items(stop))),
        ),
    )
}

/// What is to be done for a completion after some answers.
pub open spec fn completion_action(
    provider: EditPredictionProvider,
    api_url: Seq<char>,
    model: Seq<char>,
    prompt: Seq<char>,
    max_tokens: u32,
    stop: Seq<Seq<char>>,
    keys: Seq<Seq<char>>,
    outcomes: Seq<Result<CompletionView, ProblemView>>,
) -> ActionView {
    let raw = json_text(settled(raw_body(model, prompt, max_tokens, stop)));
    match provider {
        EditPredictionProvider::Ollama => ActionView::Ollama,
        EditPredictionProvider::Groq | EditPredictionProvider::Cerebras => if keys.len() == 0 {
            missing_key(provider)
        } else {
            fallback_action(
                provider,
                api_url + "/chat/completions"@,
                json_text(settled(chat_body(model, prompt, max_tokens, stop))),
                keys,
                outcomes,
            )
        },
        _ => if keys.len() > 0 {
            fallback_action(provider, api_url, raw, keys, outcomes)
        } else if outcomes.len() == 0 {
            ActionView::Send { uri: api_url, authorization: None, body: raw }
        } else {
            match outcomes[0] {
                Ok(completion) => ActionView::Completed(completion),
                Err(error) => ActionView::Failed { message: error.message, cause: error.cause },
            }
        },
    }
}

/// A completion again.
fn copy_completion(completion: &Completion) -> (copy: Completion)
    ensures
        copy@ == completion@,
{
    Completion { text: completion.text.clone(), id: completion.id.clone() }
}

/// An error again.
fn copy_error(error: &Problem) -> (copy: Problem)
    ensures
        copy@ == error@,
{
    Problem {
        message: error.message.clone(),
        cause: match &error.cause {
            Some(cause) => Some(cause.clone()),
            None => None,
        },
    }
}

/// Finds the first completion among some answers.
fn find_completion(outcomes: &Vec<Result<Completion, Problem>>) -> (found: Option<Completion>)
    ensures
        match found {
            Some(found) => first_completion(outcome_views(outcomes@)) == Some(found@),
            None => first_completion(outcome_views(outcomes@)) is None,
        },
{
    let ghost all = outcome_views(outcomes@);
    let mut i: usize = 0;
    proof {
        take_all(all);
    }
    while i < outcomes.len()
        invariant
            i <= outcomes@.len(),
            all == outcome_views(outcomes@),
            first_completion(all.take(i as int)) is None,
        decreases outcomes@.len() - i,
    {
        proof {
            take_step(all, i as int);
        }
        if let Ok(completion) = &outcomes[i] {
            proof {
                first_completion_stays(all, i + 1);
            }
            return Some(copy_completion(completion));
        }
        i = i + 1;
    }
    proof {
        take_all(all);
    }
    None
}

/// A completion stays the first whatever answers come behind it.
proof fn first_completion_stays(outcomes: Seq<Result<CompletionView, ProblemView>>, i: int)
    requires
        0 <= i <= outcomes.len(),
        first_completion(outcomes.take(i)) is Some,
    ensures
        first_completion(outcomes) == first_completion(outcomes.take(i)),
    decreases outcomes.len(),
{
    if i == outcomes.len() {
        take_all(outcomes);
    } else {
        assert(outcomes.drop_last().take(i) =~= outcomes.take(i));
        first_completion_stays(outcomes.drop_last(), i);
    }
}

/// What is to be done with some keys after some answers.
pub fn send_with_api_key_fallback(
    provider: EditPredictionProvider,
    uri: &str,
    body: &str,
    keys: &Vec<String>,
    outcomes: &Vec<Result<Completion, Problem>>,
) -> (action: CompletionAction)
    ensures
        action@ == fallback_action(
            provider,
            uri@,
            body@,
            texts(keys@),
            outcome_views(outcomes@),
        ),
{
    if let Some(completion) = find_completion(outcomes) {
        return CompletionAction::Done(Ok(completion));
    }
    let count = outcomes.len();
    if count < keys.len() {
        return CompletionAction::Send(
            HttpRequest {
                uri: uri.to_owned(),
                authorization: Some(concat2("Bearer ", keys[count].as_str())),
                body: body.to_owned(),
            },
        );
    }
    if count > 0 {
        let cause = match &outcomes[count - 1] {
            Ok(_) => None,
            Err(error) => Some(error.to_line()),
        };
        return CompletionAction::Done(
            Err(
                Problem {
                    message: concat2(
                        provider_display_name(provider),
                        " edit prediction request failed with all configured API keys",
                    ),
                    cause,
                },
            ),
        );
    }
    missing_key_action(provider)
}

/// What is to be done when there is no key.
fn missing_key_action(provider: EditPredictionProvider) -> (action: CompletionAction)
    ensures
        action@ == missing_key(provider),
{
    CompletionAction::Done(
        Err(
            Problem {
                message: concat2("missing API key for ", provider_display_name(provider)),
                cause: None,
            },
        ),
    )
}

/// The body of a chat request.
pub fn chat_completion_body(
    model: &str,
    prompt: &str,
    max_tokens: u32,
    stop: &Vec<String>,
) -> (body: Json)
    ensures
        body@ == chat_body(model@, prompt@, max_tokens, texts(stop@)),
{
    broadcast use item_views_push;

    let message = Json::object(
        with(with(no_entries(), "role", Json::text("user")), "content", Json::text(prompt)),
    );
    let mut messages: Vec<Json> = Vec::new();
    assert(item_views(messages@) =~= Seq::empty());
    messages.push(message);
    let entries = with(no_entries(), "model", Json::text(model));
    let entries = with(entries, "messages", Json::array(messages));
    let entries = with(entries, "stream", Json::Bool(false));
    let entries = with(entries, "max_completion_tokens", Json::UInt(max_tokens as u64));
    if stop.len() == 0 {
        Json::object(entries)
    } else {
        Json::object(with(entries, "stop", text_array(stop)))
    }
}

/// The body of a request for a raw completion.
pub fn raw_completion_body(
    model: &str,
    prompt: &str,
    max_tokens: u32,
    stop: &Vec<String>,
) -> (body: Json)
    ensures
        body@ == raw_body(model@, prompt@, max_tokens, texts(stop@)),
{
    let entries = with(no_entries(), "model", Json::text(model));
    let entries = with(entries, "prompt", Json::text(prompt));
    let entries = with(entries, "max_tokens", Json::UInt(max_tokens as u64));
    Json::object(with(entries, "stop", text_array(stop)))
}

/// What is to be done for a completion after some answers.
pub fn send_custom_server_request(
    provider: EditPredictionProvider,
    api_url: &str,
    model: &str,
    prompt: &str,
    max_tokens: u32,
    stop: &Vec<String>,
    keys: &Vec<String>,
    outcomes: &Vec<Result<Completion, Problem>>,
) -> (action: CompletionAction)
    ensures
        action@ == completion_action(
            provider,
            api_url@,
            model@,
            prompt@,
            max_tokens,
            texts(stop@),
            texts(keys@),
            outcome_views(outcomes@),
        ),
{
    match provider {
        EditPredictionProvider::Ollama => CompletionAction::Ollama,
        EditPredictionProvider::Groq | EditPredictionProvider::Cerebras => {
            if keys.len() == 0 {
                return missing_key_action(provider);
            }
            let uri = concat2(api_url, "/chat/completions");
            let body = to_text(&chat_completion_body(model, prompt, max_tokens, stop));
            send_with_api_key_fallback(provider, uri.as_str(), body.as_str(), keys, outcomes)
        },
        _ => {
            let body = to_text(&raw_completion_body(model, prompt, max_tokens, stop));
            if keys.len() > 0 {
                send_with_api_key_fallback(provider, api_url, body.as_str(), keys, outcomes)
            } else if outcomes.len() == 0 {
                CompletionAction::Send(
                    HttpRequest { uri: api_url.to_owned(), authorization: None, body },
                )
            } else {
                match &outcomes[0] {
                    Ok(completion) => CompletionAction::Done(Ok(copy_completion(completion))),
                    Err(error) => CompletionAction::Done(Err(copy_error(error))),
                }
            }
        },
    }
}

/// While every key so far has failed, the next one is tried; the first completion
/// ends it; and it fails only when every key has failed, with the last error.
pub proof fn keys_are_tried_in_order(
    provider: EditPredictionProvider,
    uri: Seq<char>,
    body: Seq<char>,
    keys: Seq<Seq<char>>,
    errors: Seq<ProblemView>,
    completion: CompletionView,
)
    requires
        errors.len() <= keys.len(),
        keys.len() > 0,
    ensures
        ({
            let failed = Seq::new(
                errors.len(),
                |i: int| Err::<CompletionView, ProblemView>(errors[i]),
            );
            let action = fallback_action(provider, uri, body, keys, failed);
            let after = fallback_action(provider, uri, body, keys, failed.push(Ok(completion)));
            &&& errors.len() < keys.len() ==> action == ActionView::Send {
                uri,
                authorization: Some("Bearer "@ + keys[errors.len() as int]),
                body,
            }
            &&& errors.len() == keys.len() ==> action == ActionView::Failed {
                message: display_name_of(provider)
                    + " edit prediction request failed with all configured API keys"@,
                cause: Some(in_one_line(errors.last())),
            }
            &&& after == ActionView::Completed(completion)
        }),
{
    let failed = Seq::new(errors.len(), |i: int| Err::<CompletionView, ProblemView>(errors[i]));
    errors_give_no_completion(failed);
    assert(failed.push(Ok(completion)).drop_last() =~= failed);
}

proof fn errors_give_no_completion(outcomes: Seq<Result<CompletionView, ProblemView>>)
    requires
        forall|i: int| 0 <= i < outcomes.len() ==> (#[trigger] outcomes[i]) is Err,
    ensures
        first_completion(outcomes) is None,
    decreases outcomes.len(),
{
    if outcomes.len() > 0 {
        errors_give_no_completion(outcomes.drop_last());
    }
}

// ---------------------------------------------------------------------------
// Answers
// ---------------------------------------------------------------------------

/// A raw completion response: the texts of its choices.
#[derive(Debug, PartialEq, Eq)]
pub struct RawCompletion {
    pub id: String,
    pub choices: Vec<String>,
}

/// A part of a message.
#[derive(Debug, PartialEq, Eq)]
pub enum MessagePart {
    Text(String),
    Other,
}

/// What a message holds.
#[derive(Debug, PartialEq, Eq)]
pub enum MessageContent {
    Plain(String),
    Multipart(Vec<MessagePart>),
}

/// A message of a chat: one of the assistant, or another.
#[derive(Debug, PartialEq, Eq)]
pub enum ChatMessage {
    Assistant(Option<MessageContent>),
    Other,
}

/// A chat completion response: the messages of its choices.
#[derive(Debug, PartialEq, Eq)]
pub struct ChatCompletion {
    pub id: String,
    pub choices: Vec<ChatMessage>,
}

/// The texts among some parts, one after the other.
pub open spec fn parts_text(parts: Seq<MessagePart>) -> Seq<char>
    decreases parts.len(),
{
    if parts.len() == 0 {
        Seq::empty()
    } else {
        match parts.last() {
            MessagePart::Text(text) => parts_text(parts.drop_last()) + text@,
            MessagePart::Other => parts_text(parts.drop_last()),
        }
    }
}

/// The text of a message; empty where it is none of the assistant, or says nothing.
pub open spec fn message_text(message: ChatMessage) -> Seq<char> {
    match message {
        ChatMessage::Assistant(Some(MessageContent::Plain(text))) => text@,
        ChatMessage::Assistant(Some(MessageContent::Multipart(parts))) => parts_text(parts@),
        _ => Seq::empty(),
    }
}

/// Puts the texts among some parts together.
fn join_parts(parts: &Vec<MessagePart>) -> (text: String)
    ensures
        text@ == parts_text(parts@),
{
    let mut text = String::new();
    let mut i: usize = 0;
    proof {
        take_all(parts@);
    }
    while i < parts.len()
        invariant
            i <= parts@.len(),
            text@ == parts_text(parts@.take(i as int)),
        decreases parts@.len() - i,
    {
        proof {
            take_step(parts@, i as int);
        }
        if let MessagePart::Text(part) = &parts[i] {
            text.append(part.as_str());
        }
        i = i + 1;
    }
    proof {
        take_all(parts@);
    }
    text
}

/// What a chat completion comes to: the text of its first choice.
pub open spec fn chat_completion(response: ChatCompletion) -> CompletionView {
    CompletionView {
        text: if response.choices@.len() == 0 {
            Seq::empty()
        } else {
            message_text(response.choices@[0])
        },
        id: response.id@,
    }
}

/// Reads a chat completion: the text of its first choice.
pub fn read_chat_completion(response: &ChatCompletion) -> (completion: Completion)
    ensures
        completion@ == chat_completion(*response),
{
    let text = if response.choices.len() == 0 {
        String::new()
    } else {
        match &response.choices[0] {
            ChatMessage::Assistant(Some(MessageContent::Plain(text))) => text.clone(),
            ChatMessage::Assistant(Some(MessageContent::Multipart(parts))) => join_parts(parts),
            _ => String::new(),
        }
    };
    proof {
        if response.choices@.len() == 0 || !(response.choices@[0] matches ChatMessage::Assistant(
            Some(_),
        )) {
            assert(text@ =~= Seq::<char>::empty());
        }
    }
    Completion { text, id: response.id.clone() }
}

/// What the answer to a request for a raw completion comes to.
pub open spec fn raw_outcome(
    status: u16,
    status_text: Seq<char>,
    body: Seq<char>,
    parsed: Result<&RawCompletion, &str>,
) -> Result<CompletionView, ProblemView> {
    if !(200 <= status <= 299) {
        Err(plain_problem("custom server error: "@ + status_text + " - "@ + body))
    } else {
        match parsed {
            Err(reason) => Err(problem_after("Failed to parse completion response"@, reason@)),
            Ok(response) => Ok(
                CompletionView {
                    text: if response.choices@.len() == 0 {
                        Seq::empty()
                    } else {
                        response.choices@[0]@
                    },
                    id: response.id@,
                },
            ),
        }
    }
}

/// Reads the answer to a request for a raw completion: the text of its first
/// choice where it succeeded and could be parsed, and else why it could not.
pub fn read_raw_completion(
    status: u16,
    status_text: &str,
    body: &str,
    parsed: Result<&RawCompletion, &str>,
) -> (outcome: Result<Completion, Problem>)
    ensures
        outcome_view(outcome) == raw_outcome(status, status_text@, body@, parsed),
{
    if !(200 <= status && status <= 299) {
        return Err(
            Problem {
                message: concat4("custom server error: ", status_text, " - ", body),
                cause: None,
            },
        );
    }
    match parsed {
        Err(reason) => Err(
            Problem {
                message: "Failed to parse completion response".to_owned(),
                cause: Some(reason.to_owned()),
            },
        ),
        Ok(response) => {
            let text = if response.choices.len() == 0 {
                String::new()
            } else {
                response.choices[0].clone()
            };
            proof {
                if response.choices@.len() == 0 {
                    assert(text@ =~= Seq::<char>::empty());
                }
            }
            Ok(Completion { text, id: response.id.clone() })
        },
    }
}

} // verus!
