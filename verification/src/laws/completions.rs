//! What a request for a completion comes to: which request is sent, with which key, and
//! what is done with the answers.

use vstd::prelude::*;

use crate::calls::ProblemView;
use crate::completions::{
    chat_completion, completion_action, fallback_action, first_completion, parts_text, raw_outcome,
    ActionView, ChatCompletion, ChatMessage, CompletionView, MessageContent, MessagePart,
    RawCompletion,
};
use crate::json::{found_in_more, JsonView};
use crate::json_text::{json_text, settled};
use crate::laws::questions::object_of_two;
use crate::providers::EditPredictionProvider;

verus! {

/// Whether a provider is asked by chat, with a key that it cannot do without.
pub open spec fn is_chat_provider(provider: EditPredictionProvider) -> bool {
    provider == EditPredictionProvider::Groq || provider == EditPredictionProvider::Cerebras
}

/// A completion that came without a key is what the request comes to, with its text and its
/// id; and so is a failure.
pub proof fn answers_without_a_key_are_kept(
    provider: EditPredictionProvider,
    api_url: Seq<char>,
    model: Seq<char>,
    prompt: Seq<char>,
    max_tokens: u32,
    stop: Seq<Seq<char>>,
    outcomes: Seq<Result<CompletionView, ProblemView>>,
)
    requires
        provider != EditPredictionProvider::Ollama,
        !is_chat_provider(provider),
        outcomes.len() > 0,
    ensures
        ({
            let action = completion_action(
                provider,
                api_url,
                model,
                prompt,
                max_tokens,
                stop,
                Seq::empty(),
                outcomes,
            );
            match outcomes[0] {
                Ok(completion) => action == ActionView::Completed(completion),
                Err(problem) => action == (ActionView::Failed {
                    message: problem.message,
                    cause: problem.cause,
                }),
            }
        }),
{
}

/// Where some key brought a completion, the first that came is what the request comes to,
/// with its text and its id.
pub proof fn first_completions_are_kept(
    provider: EditPredictionProvider,
    api_url: Seq<char>,
    model: Seq<char>,
    prompt: Seq<char>,
    max_tokens: u32,
    stop: Seq<Seq<char>>,
    keys: Seq<Seq<char>>,
    outcomes: Seq<Result<CompletionView, ProblemView>>,
    i: int,
    completion: CompletionView,
)
    requires
        provider != EditPredictionProvider::Ollama,
        keys.len() > 0,
        0 <= i < outcomes.len(),
        outcomes[i] == Ok::<CompletionView, ProblemView>(completion),
        forall|j: int| 0 <= j < i ==> (#[trigger] outcomes[j]) is Err,
    ensures
        completion_action(
            provider,
            api_url,
            model,
            prompt,
            max_tokens,
            stop,
            keys,
            outcomes,
        ) == ActionView::Completed(completion),
{
    first_completion_is_first(outcomes, i);
}

proof fn first_completion_is_first(outcomes: Seq<Result<CompletionView, ProblemView>>, i: int)
    requires
        0 <= i <= outcomes.len(),
        i < outcomes.len() ==> outcomes[i] is Ok,
        forall|j: int| 0 <= j < i ==> (#[trigger] outcomes[j]) is Err,
    ensures
        first_completion(outcomes) == (if i < outcomes.len() {
            Some(outcomes[i]->Ok_0)
        } else {
            None
        }),
    decreases outcomes.len(),
{
    if outcomes.len() > 0 {
        let init = outcomes.drop_last();
        assert forall|j: int| 0 <= j < init.len() implies #[trigger] init[j] == outcomes[j] by {}
        if i < init.len() {
            first_completion_is_first(init, i);
        } else {
            first_completion_is_first(init, init.len() as int);
        }
    }
}

/// Every request goes to the same place with the same body: the next one carries the key
/// whose turn it is, and where there is no key none is sent.
pub proof fn keys_are_sent_one_after_the_other(
    provider: EditPredictionProvider,
    api_url: Seq<char>,
    model: Seq<char>,
    prompt: Seq<char>,
    max_tokens: u32,
    stop: Seq<Seq<char>>,
    keys: Seq<Seq<char>>,
    outcomes: Seq<Result<CompletionView, ProblemView>>,
) -> (body: JsonView)
    requires
        provider != EditPredictionProvider::Ollama,
        forall|j: int| 0 <= j < outcomes.len() ==> (#[trigger] outcomes[j]) is Err,
        outcomes.len() < keys.len() || (keys.len() == 0 && outcomes.len() == 0
            && !is_chat_provider(provider)),
    ensures
        completion_action(
            provider,
            api_url,
            model,
            prompt,
            max_tokens,
            stop,
            keys,
            outcomes,
        ) == (ActionView::Send {
            uri: if is_chat_provider(provider) {
                api_url + "/chat/completions"@
            } else {
                api_url
            },
            authorization: if keys.len() == 0 {
                None
            } else {
                Some("Bearer "@ + keys[outcomes.len() as int])
            },
            body: json_text(settled(body)),
        }),
        body.text_at("model"@) == Some(model),
        is_chat_provider(provider) ==> {
            &&& body.get("messages"@) == Some(
                JsonView::Array(
                    seq![
                        object_of_two(
                            "role"@,
                            JsonView::Text("user"@),
                            "content"@,
                            JsonView::Text(prompt),
                        ),
                    ],
                ),
            )
            &&& body.bool_at("stream"@) == Some(false)
            &&& body.get("max_completion_tokens"@) == Some(JsonView::Int(max_tokens as int))
            &&& stop.len() == 0 ==> body.get("stop"@) is None
        },
        !is_chat_provider(provider) ==> {
            &&& body.text_at("prompt"@) == Some(prompt)
            &&& body.get("max_tokens"@) == Some(JsonView::Int(max_tokens as int))
        },
        stop.len() > 0 || !is_chat_provider(provider) ==> {
            &&& body.get("stop"@) matches Some(JsonView::Array(words))
            &&& words.len() == stop.len()
            &&& forall|k: int|
                0 <= k < stop.len() ==> #[trigger] words[k] == JsonView::Text(stop[k])
        },
{
    broadcast use found_in_more;

    first_completion_is_first(outcomes, outcomes.len() as int);
    body_keys();
    if is_chat_provider(provider) {
        crate::completions::chat_body(model, prompt, max_tokens, stop)
    } else {
        crate::completions::raw_body(model, prompt, max_tokens, stop)
    }
}

proof fn body_keys()
    ensures
        "model"@.len() == 5,
        "messages"@.len() == 8,
        "stream"@.len() == 6 && "stream"@[0] == 's',
        "prompt"@.len() == 6 && "prompt"@[0] == 'p',
        "max_completion_tokens"@.len() == 21,
        "max_tokens"@.len() == 10,
        "stop"@.len() == 4,
{
    reveal_strlit("model");
    reveal_strlit("messages");
    reveal_strlit("stream");
    reveal_strlit("prompt");
    reveal_strlit("max_completion_tokens");
    reveal_strlit("max_tokens");
    reveal_strlit("stop");
}

/// A request fails once every key has failed, with the last failure; and at once where a
/// key is needed and there is none.
pub proof fn requests_fail_with_the_last_key(
    provider: EditPredictionProvider,
    api_url: Seq<char>,
    model: Seq<char>,
    prompt: Seq<char>,
    max_tokens: u32,
    stop: Seq<Seq<char>>,
    keys: Seq<Seq<char>>,
    outcomes: Seq<Result<CompletionView, ProblemView>>,
)
    requires
        provider != EditPredictionProvider::Ollama,
        forall|j: int| 0 <= j < outcomes.len() ==> (#[trigger] outcomes[j]) is Err,
        keys.len() <= outcomes.len(),
        is_chat_provider(provider) || keys.len() > 0,
    ensures
        ({
            let action = completion_action(
                provider,
                api_url,
                model,
                prompt,
                max_tokens,
                stop,
                keys,
                outcomes,
            );
            let name = match provider {
                EditPredictionProvider::OpenAiCompatibleApi => "OpenAI-Compatible API"@,
                EditPredictionProvider::Groq => "Groq"@,
                EditPredictionProvider::Cerebras => "Cerebras"@,
                _ => "Unknown"@,
            };
            let last = outcomes.last()->Err_0;
            &&& keys.len() == 0 ==> action == (ActionView::Failed {
                message: "missing API key for "@ + name,
                cause: None,
            })
            &&& keys.len() > 0 ==> action == (ActionView::Failed {
                message: name + " edit prediction request failed with all configured API keys"@,
                cause: Some(
                    match last.cause {
                        Some(cause) => last.message + ": "@ + cause,
                        None => last.message,
                    },
                ),
            })
        }),
{
    first_completion_is_first(outcomes, outcomes.len() as int);
}

/// Without a key nothing is sent, and it is said that the key is missing.
pub proof fn missing_keys_are_told(
    provider: EditPredictionProvider,
    uri: Seq<char>,
    body: Seq<char>,
)
    ensures
        ({
            let action = fallback_action(provider, uri, body, Seq::empty(), Seq::empty());
            &&& action is Failed
            &&& action->cause is None
            &&& provider == EditPredictionProvider::OpenAiCompatibleApi ==> action->message
                == "missing API key for "@ + "OpenAI-Compatible API"@
            &&& provider == EditPredictionProvider::Groq ==> action->message
                == "missing API key for "@ + "Groq"@
            &&& provider == EditPredictionProvider::Cerebras ==> action->message
                == "missing API key for "@ + "Cerebras"@
        }),
{
}

/// Ollama is always asked by its own client.
pub proof fn ollama_is_asked_by_its_client(
    api_url: Seq<char>,
    model: Seq<char>,
    prompt: Seq<char>,
    max_tokens: u32,
    stop: Seq<Seq<char>>,
    keys: Seq<Seq<char>>,
    outcomes: Seq<Result<CompletionView, ProblemView>>,
)
    ensures
        completion_action(
            EditPredictionProvider::Ollama,
            api_url,
            model,
            prompt,
            max_tokens,
            stop,
            keys,
            outcomes,
        ) is Ollama,
{
}

/// A chat completion keeps its id, and its text is that of the first choice alone: the plain
/// text, or all the text parts one after the other.
pub proof fn first_choices_are_read(response: ChatCompletion, first: Seq<MessagePart>, more: MessagePart)
    ensures
        chat_completion(response).id == response.id@,
        response.choices@.len() == 0 ==> chat_completion(response).text.len() == 0,
        response.choices@.len() > 0 ==> match response.choices@[0] {
            ChatMessage::Assistant(Some(MessageContent::Plain(text))) => chat_completion(
                response,
            ).text == text@,
            ChatMessage::Assistant(Some(MessageContent::Multipart(parts))) => (parts@
                == first.push(more) ==> chat_completion(response).text == parts_text(first) + (
            match more {
                MessagePart::Text(text) => text@,
                MessagePart::Other => Seq::empty(),
            })) && (parts@.len() == 0 ==> chat_completion(response).text.len() == 0),
            _ => chat_completion(response).text.len() == 0,
        },
{
    assert(first.push(more).drop_last() =~= first);
    assert(parts_text(first) + Seq::<char>::empty() =~= parts_text(first));
}

/// An answer with a status of success that could be parsed gives the text of its first choice
/// and its id; any other status, and an answer that could not be parsed, is a problem that
/// says why.
pub proof fn raw_answers_are_read(
    status: u16,
    status_text: Seq<char>,
    body: Seq<char>,
    parsed: Result<&RawCompletion, &str>,
)
    ensures
        ({
            let outcome = raw_outcome(status, status_text, body, parsed);
            let succeeded = status / 100 == 2;
            &&& outcome is Ok <==> succeeded && parsed is Ok
            &&& outcome is Ok ==> {
                &&& outcome->Ok_0.id == parsed->Ok_0.id@
                &&& parsed->Ok_0.choices@.len() > 0 ==> outcome->Ok_0.text
                    == parsed->Ok_0.choices@[0]@
                &&& parsed->Ok_0.choices@.len() == 0 ==> outcome->Ok_0.text.len() == 0
            }
            &&& !succeeded ==> outcome->Err_0.message == "custom server error: "@ + status_text
                + " - "@ + body && outcome->Err_0.cause is None
            &&& succeeded && parsed is Err ==> outcome->Err_0.cause == Some(parsed->Err_0@)
        }),
{
}

} // verus!
