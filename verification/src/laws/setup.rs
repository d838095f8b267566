//! What providers of completions are set up with, and which executables can be used.

use vstd::prelude::*;

use crate::providers::{
    content_for, display_name_of, env_var_of, id_of, key_separators, keys_in, loaded_keys,
    settings_for, trimmed_keys, url_of, with_token, EditPredictionProvider, EditPredictionSettings,
    EditPredictionSettingsContent,
};
use crate::text::{occurs_in, split, split_at_separator, split_without_separator, trimmed};
use crate::version::{
    disables, help_probe_outcome, is_first_on_path, resolved, version_in, version_probe_outcome,
};

verus! {

/// Whether a provider is one of those that are set up with a url and keys.
pub open spec fn is_set_up_with_keys(provider: EditPredictionProvider) -> bool {
    provider == EditPredictionProvider::OpenAiCompatibleApi || provider
        == EditPredictionProvider::Groq || provider == EditPredictionProvider::Cerebras
}

/// Providers are told apart by their ids and by where their keys are found.
pub proof fn providers_are_told_apart(a: EditPredictionProvider, b: EditPredictionProvider)
    requires
        is_set_up_with_keys(a),
        is_set_up_with_keys(b),
        a != b,
    ensures
        id_of(a) != id_of(b),
        env_var_of(a) != env_var_of(b),
        display_name_of(a) != display_name_of(b),
        id_of(a) != "unknown"@,
        env_var_of(a).len() > 0,
{
    reveal_strlit("open_ai_compatible_api");
    reveal_strlit("groq");
    reveal_strlit("cerebras");
    reveal_strlit("unknown");
    reveal_strlit("ZED_OPEN_AI_COMPATIBLE_EDIT_PREDICTION_API_KEY");
    reveal_strlit("GROQ_API_KEY");
    reveal_strlit("CEREBRAS_API_KEY");
    reveal_strlit("OpenAI-Compatible API");
    reveal_strlit("Groq");
    reveal_strlit("Cerebras");
    assert("open_ai_compatible_api"@.len() == 22 && "groq"@.len() == 4 && "cerebras"@.len() == 8);
    assert("unknown"@.len() == 7);
    assert("ZED_OPEN_AI_COMPATIBLE_EDIT_PREDICTION_API_KEY"@.len() == 46);
    assert("GROQ_API_KEY"@.len() == 12 && "CEREBRAS_API_KEY"@.len() == 16);
    assert("OpenAI-Compatible API"@.len() == 21 && "Groq"@.len() == 4 && "Cerebras"@.len() == 8);
}

/// The key of each provider is found under its own name.
pub proof fn keys_are_found_under_their_name()
    ensures
        env_var_of(EditPredictionProvider::Groq) == "GROQ_API_KEY"@,
        env_var_of(EditPredictionProvider::Cerebras) == "CEREBRAS_API_KEY"@,
        env_var_of(EditPredictionProvider::OpenAiCompatibleApi)
            == "ZED_OPEN_AI_COMPATIBLE_EDIT_PREDICTION_API_KEY"@,
        id_of(EditPredictionProvider::Groq) == "groq"@,
        id_of(EditPredictionProvider::Cerebras) == "cerebras"@,
        id_of(EditPredictionProvider::OpenAiCompatibleApi) == "open_ai_compatible_api"@,
{
}

/// Each provider has the settings that are its own.
pub proof fn providers_have_their_own_settings(
    content: EditPredictionSettingsContent,
    settings: EditPredictionSettings,
    provider: EditPredictionProvider,
)
    ensures
        match provider {
            EditPredictionProvider::Ollama => content_for(content, provider) is None
                && settings_for(settings, provider) == settings.ollama,
            EditPredictionProvider::OpenAiCompatibleApi => content_for(content, provider)
                == content.open_ai_compatible_api && settings_for(settings, provider)
                == settings.open_ai_compatible_api,
            EditPredictionProvider::Groq => content_for(content, provider) == content.groq
                && settings_for(settings, provider) == settings.groq,
            EditPredictionProvider::Cerebras => content_for(content, provider) == content.cerebras
                && settings_for(settings, provider) == settings.cerebras,
            _ => content_for(content, provider) is None && settings_for(settings, provider) is None,
        },
{
}

/// The url that is configured for a provider goes before the one that it was set up with; where
/// what is left is empty, the provider's own url is used, if it has one.
pub proof fn configured_urls_go_first(
    content: Option<EditPredictionSettingsContent>,
    settings: EditPredictionSettings,
    provider: EditPredictionProvider,
)
    ensures
        ({
            let written = match content {
                Some(content) => match content_for(content, provider) {
                    Some(custom) => custom.api_url,
                    None => None,
                },
                None => None,
            };
            let set = settings_for(settings, provider);
            let own = match provider {
                EditPredictionProvider::Groq => "https://api.groq.com/openai/v1"@,
                EditPredictionProvider::Cerebras => "https://api.cerebras.ai/v1"@,
                _ => ""@,
            };
            let url = url_of(content, settings, provider);
            &&& written is Some ==> url == (if written->0@.len() > 0 {
                written->0@
            } else {
                own
            })
            &&& written is None && set is Some ==> url == (if set->0.api_url@.len() > 0 {
                set->0.api_url@
            } else {
                own
            })
            &&& written is None && set is None ==> url == own
        }),
{
}

/// The keys of a setting are those of its parts, one after the other: a comma, a semicolon or
/// the end of a line stands between two parts, and a part without any of them is a key, without
/// the white space around it, unless it is blank.
pub proof fn keys_go_part_by_part(first: Seq<char>, separator: char, rest: Seq<char>, part: Seq<char>)
    requires
        separator == ',' || separator == ';' || separator == '\n',
        forall|i: int|
            0 <= i < part.len() ==> #[trigger] part[i] != ',' && part[i] != ';' && part[i] != '\n',
    ensures
        keys_in(first.push(separator) + rest) == keys_in(first) + keys_in(rest),
        keys_in(part) == (if trimmed(part).len() > 0 {
            seq![trimmed(part)]
        } else {
            Seq::empty()
        }),
{
    let separators = key_separators();
    assert(separators[0] == ',' && separators[1] == ';' && separators[2] == '\n');
    assert(separators.contains(separator));
    split_at_separator(first, separator, rest, separators);
    trimmed_keys_add_up(split(first, separators), split(rest, separators));
    split_without_separator(part, separators);
    reveal_with_fuel(trimmed_keys, 2);
    assert(seq![part].drop_last() =~= Seq::<Seq<char>>::empty());
    assert(keys_in(part) =~= (if trimmed(part).len() > 0 {
        seq![trimmed(part)]
    } else {
        Seq::empty()
    }));
}

proof fn trimmed_keys_add_up(a: Seq<Seq<char>>, b: Seq<Seq<char>>)
    ensures
        trimmed_keys(a + b) == trimmed_keys(a) + trimmed_keys(b),
    decreases b.len(),
{
    if b.len() == 0 {
        assert(a + b =~= a);
        assert(trimmed_keys(a) + trimmed_keys(b) =~= trimmed_keys(a));
    } else {
        assert((a + b).drop_last() =~= a + b.drop_last());
        trimmed_keys_add_up(a, b.drop_last());
        assert(trimmed_keys(a + b) =~= trimmed_keys(a) + trimmed_keys(b));
    }
}

/// Keys are loaded for those providers that use them, and for no other.
pub proof fn keys_are_loaded_where_used(provider: EditPredictionProvider, setting: Seq<char>)
    ensures
        is_set_up_with_keys(provider) ==> loaded_keys(provider, Some(setting)) == keys_in(setting),
        !is_set_up_with_keys(provider) ==> loaded_keys(provider, Some(setting)).len() == 0,
        loaded_keys(provider, None).len() == 0,
{
}

/// What is made for a provider is kept for it, and touches no other.
pub proof fn tokens_are_kept_by_provider<E>(
    tokens: Map<Seq<char>, E>,
    provider: EditPredictionProvider,
    fresh: E,
    other: EditPredictionProvider,
)
    requires
        is_set_up_with_keys(provider),
        is_set_up_with_keys(other),
        provider != other,
    ensures
        ({
            let after = with_token(tokens, provider, fresh);
            &&& tokens.contains_key(id_of(provider)) ==> after == tokens
            &&& !tokens.contains_key(id_of(provider)) ==> after[id_of(provider)] == fresh
            &&& after.contains_key(id_of(other)) == tokens.contains_key(id_of(other))
            &&& tokens.contains_key(id_of(other)) ==> after[id_of(other)] == tokens[id_of(other)]
        }),
{
    providers_are_told_apart(provider, other);
}

/// An executable can be used exactly where its probe succeeds and shows a version that is new
/// enough; else it is said why not.
pub proof fn new_executables_can_be_used(
    path: Seq<char>,
    success: bool,
    status: Seq<char>,
    stdout: Seq<char>,
)
    ensures
        ({
            let outcome = version_probe_outcome(path, success, status, stdout);
            let shown = version_in(trimmed(stdout));
            let new = shown is Ok && (shown->Ok_0.major > 0 || shown->Ok_0.minor >= 142);
            &&& outcome is Ok <==> success && new
            &&& outcome is Ok ==> outcome->Ok_0 == shown->Ok_0
            &&& !success ==> outcome->Err_0.message == "`"@ + path + "` --version exited with "@
                + status
            &&& success && shown is Err ==> outcome->Err_0.message
                == "failed to parse Codex version from `"@ + trimmed(stdout) + "`"@
                && outcome->Err_0.cause is Some
            &&& success && shown is Ok && !new ==> outcome->Err_0.cause is None
        }),
{
}

/// An executable can be talked to exactly where its help could be read and names the way.
pub proof fn executables_name_the_way(
    path: Seq<char>,
    success: bool,
    stdout: Seq<char>,
    stderr: Seq<char>,
)
    ensures
        help_probe_outcome(path, success, stdout, stderr) is Ok <==> success && occurs_in(
            "--stdio"@,
            stdout + stderr,
        ),
        help_probe_outcome(path, success, stdout, stderr) is Err ==> help_probe_outcome(
            path,
            success,
            stdout,
            stderr,
        )->Err_0.message == "`"@ + path + "` does not expose `codex app-server --stdio`"@,
{
}

/// The executable that is configured is used, and else the one that was found.
pub proof fn configured_executables_go_first<P>(configured: Option<P>, found: Option<P>)
    ensures
        configured is Some ==> resolved(configured, found) == configured,
        configured is None ==> resolved(configured, found) == found,
{
}

/// The first place with an executable is the only one that is found.
pub proof fn first_executables_are_found(
    executable: Seq<bool>,
    first: Option<usize>,
    other: Option<usize>,
    i: int,
)
    requires
        is_first_on_path(executable, first),
    ensures
        is_first_on_path(executable, other) ==> other == first,
        first matches Some(at) ==> at < executable.len() && executable[at as int],
        0 <= i < executable.len() && executable[i] ==> first is Some && first->0 <= i,
{
    if let Some(at) = other {
        if let Some(place) = first {
            if is_first_on_path(executable, other) && at != place {
                assert(at < place ==> !executable[at as int]);
                assert(place < at ==> !executable[place as int]);
            }
        }
    }
}

/// The native server is switched off by one of four words, and by nothing else.
pub proof fn four_words_switch_off(setting: Option<Seq<char>>)
    ensures
        disables(setting) <==> setting == Some("0"@) || setting == Some("false"@) || setting
            == Some("off"@) || setting == Some("disabled"@),
{
}

} // verus!
