//! Edit prediction through servers that speak the OpenAI protocol: which server
//! and key are used, what is sent, and what is read from the answer.

use vstd::prelude::*;

use crate::table::Table;
use crate::text::{
    either, is_white, opt_string, opt_text, push_line, split,
    split_parts_hold_no_separator, split_text, take_all, take_step, text_or, texts, trim, trimmed,
    trimmed_is_tight, trimmed_is_within,
};

verus! {

/// The address of Groq.
pub const GROQ_API_URL: &'static str = "https://api.groq.com/openai/v1";

/// The address of Cerebras.
pub const CEREBRAS_API_URL: &'static str = "https://api.cerebras.ai/v1";

/// The name under which the key of the OpenAI-compatible provider is stored.
pub const OPEN_AI_COMPATIBLE_CREDENTIALS_USERNAME: &'static str = "openai-compatible-api-token";

/// Who predicts edits. `Other` stands for each provider that has a client of its
/// own.
#[derive(Clone, Copy, Debug, PartialEq, Eq, Structural)]
pub enum EditPredictionProvider {
    Ollama,
    OpenAiCompatibleApi,
    Groq,
    Cerebras,
    Other,
}

/// The settings of a provider as the user wrote them.
#[derive(Debug, PartialEq, Eq)]
pub struct CustomProviderSettingsContent {
    pub api_url: Option<String>,
    pub model: Option<String>,
}

/// The edit prediction settings as the user wrote them.
#[derive(Debug, PartialEq, Eq)]
pub struct EditPredictionSettingsContent {
    pub open_ai_compatible_api: Option<CustomProviderSettingsContent>,
    pub groq: Option<CustomProviderSettingsContent>,
    pub cerebras: Option<CustomProviderSettingsContent>,
}

/// The settings of a provider that is set up.
#[derive(Debug, PartialEq, Eq)]
pub struct OpenAiCompatibleSettings {
    pub model: String,
    pub max_output_tokens: u32,
    pub api_url: String,
}

/// The edit prediction settings of the providers that are set up.
#[derive(Debug, PartialEq, Eq)]
pub struct EditPredictionSettings {
    pub ollama: Option<OpenAiCompatibleSettings>,
    pub open_ai_compatible_api: Option<OpenAiCompatibleSettings>,
    pub groq: Option<OpenAiCompatibleSettings>,
    pub cerebras: Option<OpenAiCompatibleSettings>,
}

// ---------------------------------------------------------------------------
// Providers
// ---------------------------------------------------------------------------

/// The name under which the keys of a provider are kept.
pub open spec fn id_of(provider: EditPredictionProvider) -> Seq<char> {
    match provider {
        EditPredictionProvider::OpenAiCompatibleApi => "open_ai_compatible_api"@,
        EditPredictionProvider::Groq => "groq"@,
        EditPredictionProvider::Cerebras => "cerebras"@,
        _ => "unknown"@,
    }
}

/// The name under which a provider is shown.
pub open spec fn display_name_of(provider: EditPredictionProvider) -> Seq<char> {
    match provider {
        EditPredictionProvider::OpenAiCompatibleApi => "OpenAI-Compatible API"@,
        EditPredictionProvider::Groq => "Groq"@,
        EditPredictionProvider::Cerebras => "Cerebras"@,
        _ => "Unknown"@,
    }
}

/// The environment variable that holds the key of a provider.
pub open spec fn env_var_of(provider: EditPredictionProvider) -> Seq<char> {
    match provider {
        EditPredictionProvider::OpenAiCompatibleApi =>
            "ZED_OPEN_AI_COMPATIBLE_EDIT_PREDICTION_API_KEY"@,
        EditPredictionProvider::Groq => "GROQ_API_KEY"@,
        EditPredictionProvider::Cerebras => "CEREBRAS_API_KEY"@,
        _ => ""@,
    }
}

/// The name under which the keys of a provider are kept.
pub fn provider_id(provider: EditPredictionProvider) -> (id: &'static str)
    ensures
        id@ == id_of(provider),
{
    match provider {
        EditPredictionProvider::OpenAiCompatibleApi => "open_ai_compatible_api",
        EditPredictionProvider::Groq => "groq",
        EditPredictionProvider::Cerebras => "cerebras",
        _ => "unknown",
    }
}

/// The name under which a provider is shown.
pub fn provider_display_name(provider: EditPredictionProvider) -> (name: &'static str)
    ensures
        name@ == display_name_of(provider),
{
    match provider {
        EditPredictionProvider::OpenAiCompatibleApi => "OpenAI-Compatible API",
        EditPredictionProvider::Groq => "Groq",
        EditPredictionProvider::Cerebras => "Cerebras",
        _ => "Unknown",
    }
}

/// The environment variable that holds the key of a provider.
pub fn provider_env_var(provider: EditPredictionProvider) -> (name: &'static str)
    ensures
        name@ == env_var_of(provider),
{
    match provider {
        EditPredictionProvider::OpenAiCompatibleApi =>
            "ZED_OPEN_AI_COMPATIBLE_EDIT_PREDICTION_API_KEY",
        EditPredictionProvider::Groq => "GROQ_API_KEY",
        EditPredictionProvider::Cerebras => "CEREBRAS_API_KEY",
        _ => "",
    }
}

/// What the user wrote for a provider.
pub open spec fn content_for(
    settings: EditPredictionSettingsContent,
    provider: EditPredictionProvider,
) -> Option<CustomProviderSettingsContent> {
    match provider {
        EditPredictionProvider::OpenAiCompatibleApi => settings.open_ai_compatible_api,
        EditPredictionProvider::Groq => settings.groq,
        EditPredictionProvider::Cerebras => settings.cerebras,
        _ => None,
    }
}

/// The settings of a provider that is set up.
pub open spec fn settings_for(
    settings: EditPredictionSettings,
    provider: EditPredictionProvider,
) -> Option<OpenAiCompatibleSettings> {
    match provider {
        EditPredictionProvider::Ollama => settings.ollama,
        EditPredictionProvider::OpenAiCompatibleApi => settings.open_ai_compatible_api,
        EditPredictionProvider::Groq => settings.groq,
        EditPredictionProvider::Cerebras => settings.cerebras,
        _ => None,
    }
}

/// What the user wrote for a provider.
pub fn raw_custom_settings_for_provider(
    settings: &EditPredictionSettingsContent,
    provider: EditPredictionProvider,
) -> (content: Option<&CustomProviderSettingsContent>)
    ensures
        match content {
            Some(content) => content_for(*settings, provider) == Some(*content),
            None => content_for(*settings, provider) is None,
        },
{
    match provider {
        EditPredictionProvider::OpenAiCompatibleApi => settings.open_ai_compatible_api.as_ref(),
        EditPredictionProvider::Groq => settings.groq.as_ref(),
        EditPredictionProvider::Cerebras => settings.cerebras.as_ref(),
        _ => None,
    }
}

/// The settings of a provider that is set up.
pub fn custom_settings_for_provider(
    settings: &EditPredictionSettings,
    provider: EditPredictionProvider,
) -> (found: Option<&OpenAiCompatibleSettings>)
    ensures
        match found {
            Some(found) => settings_for(*settings, provider) == Some(*found),
            None => settings_for(*settings, provider) is None,
        },
{
    match provider {
        EditPredictionProvider::Ollama => settings.ollama.as_ref(),
        EditPredictionProvider::OpenAiCompatibleApi => settings.open_ai_compatible_api.as_ref(),
        EditPredictionProvider::Groq => settings.groq.as_ref(),
        EditPredictionProvider::Cerebras => settings.cerebras.as_ref(),
        _ => None,
    }
}

/// The address that the user wrote for a provider.
pub open spec fn configured_url(
    content: Option<EditPredictionSettingsContent>,
    provider: EditPredictionProvider,
) -> Option<Seq<char>> {
    match content {
        Some(content) => match content_for(content, provider) {
            Some(custom) => opt_string(custom.api_url),
            None => None,
        },
        None => None,
    }
}

/// The address of a provider: the one that the user wrote, or else the one that
/// it is set up with, and the provider's own where that is empty or absent.
pub open spec fn url_of(
    content: Option<EditPredictionSettingsContent>,
    settings: EditPredictionSettings,
    provider: EditPredictionProvider,
) -> Seq<char> {
    let set_up = match settings_for(settings, provider) {
        Some(found) => Some(found.api_url@),
        None => None,
    };
    let url = text_or(either(configured_url(content, provider), set_up), Seq::empty());
    if url.len() > 0 {
        url
    } else {
        match provider {
            EditPredictionProvider::Groq => GROQ_API_URL@,
            EditPredictionProvider::Cerebras => CEREBRAS_API_URL@,
            _ => ""@,
        }
    }
}

/// The address that the user wrote for a provider.
pub fn configured_provider_api_url<'a>(
    content: Option<&'a EditPredictionSettingsContent>,
    provider: EditPredictionProvider,
) -> (url: Option<&'a str>)
    ensures
        opt_text(url) == configured_url(
            match content {
                Some(content) => Some(*content),
                None => None,
            },
            provider,
        ),
{
    match content {
        Some(content) => match raw_custom_settings_for_provider(content, provider) {
            Some(custom) => match &custom.api_url {
                Some(url) => Some(url.as_str()),
                None => None,
            },
            None => None,
        },
        None => None,
    }
}

/// The address of a provider.
pub fn provider_api_url(
    content: Option<&EditPredictionSettingsContent>,
    settings: &EditPredictionSettings,
    provider: EditPredictionProvider,
) -> (url: String)
    ensures
        url@ == url_of(
            match content {
                Some(content) => Some(*content),
                None => None,
            },
            *settings,
            provider,
        ),
{
    let url = match configured_provider_api_url(content, provider) {
        Some(url) => Some(url),
        None => match custom_settings_for_provider(settings, provider) {
            Some(found) => Some(found.api_url.as_str()),
            None => None,
        },
    };
    if let Some(url) = url {
        if !url.is_empty() {
            return url.to_owned();
        }
    }
    match provider {
        EditPredictionProvider::Groq => GROQ_API_URL.to_owned(),
        EditPredictionProvider::Cerebras => CEREBRAS_API_URL.to_owned(),
        _ => "".to_owned(),
    }
}

/// The address of an OpenAI-compatible server.
pub fn open_ai_compatible_api_url(
    content: Option<&EditPredictionSettingsContent>,
    settings: &EditPredictionSettings,
) -> (url: String)
    ensures
        url@ == url_of(
            match content {
                Some(content) => Some(*content),
                None => None,
            },
            *settings,
            EditPredictionProvider::OpenAiCompatibleApi,
        ),
{
    provider_api_url(content, settings, EditPredictionProvider::OpenAiCompatibleApi)
}

/// The address of Groq, as it is set.
pub fn groq_api_url(
    content: Option<&EditPredictionSettingsContent>,
    settings: &EditPredictionSettings,
) -> (url: String)
    ensures
        url@ == url_of(
            match content {
                Some(content) => Some(*content),
                None => None,
            },
            *settings,
            EditPredictionProvider::Groq,
        ),
{
    provider_api_url(content, settings, EditPredictionProvider::Groq)
}

/// The address of Cerebras, as it is set.
pub fn cerebras_api_url(
    content: Option<&EditPredictionSettingsContent>,
    settings: &EditPredictionSettings,
) -> (url: String)
    ensures
        url@ == url_of(
            match content {
                Some(content) => Some(*content),
                None => None,
            },
            *settings,
            EditPredictionProvider::Cerebras,
        ),
{
    provider_api_url(content, settings, EditPredictionProvider::Cerebras)
}

// ---------------------------------------------------------------------------
// Keys
// ---------------------------------------------------------------------------

/// What stands between two keys.
pub open spec fn key_separators() -> Seq<char> {
    seq![',', ';', '\n']
}

/// The texts without the white space around them, and without those that hold
/// nothing else.
pub open spec fn trimmed_keys(parts: Seq<Seq<char>>) -> Seq<Seq<char>>
    decreases parts.len(),
{
    if parts.len() == 0 {
        Seq::empty()
    } else {
        let keys = trimmed_keys(parts.drop_last());
        if trimmed(parts.last()).len() == 0 {
            keys
        } else {
            keys.push(trimmed(parts.last()))
        }
    }
}

/// The keys that a setting holds.
pub open spec fn keys_in(setting: Seq<char>) -> Seq<Seq<char>> {
    trimmed_keys(split(setting, key_separators()))
}

/// Whether a provider takes its keys from here.
pub open spec fn takes_keys(provider: EditPredictionProvider) -> bool {
    provider == EditPredictionProvider::OpenAiCompatibleApi || provider
        == EditPredictionProvider::Groq || provider == EditPredictionProvider::Cerebras
}

/// The keys that a setting holds.
pub fn split_api_keys(setting: &str) -> (keys: Vec<String>)
    ensures
        texts(keys@) == keys_in(setting@),
{
    let parts = split_text(setting, &[',', ';', '\n']);
    let ghost all = texts(parts@);
    let mut keys: Vec<String> = Vec::new();
    let mut i: usize = 0;
    proof {
        take_all(all);
        assert([',', ';', '\n']@ =~= key_separators());
        assert(texts(keys@) =~= Seq::<Seq<char>>::empty());
    }
    while i < parts.len()
        invariant
            i <= parts@.len(),
            all == texts(parts@),
            texts(keys@) == trimmed_keys(all.take(i as int)),
        decreases parts@.len() - i,
    {
        proof {
            take_step(all, i as int);
        }
        let key = trim(parts[i].as_str());
        if !key.is_empty() {
            push_line(&mut keys, key.to_owned());
        }
        i = i + 1;
    }
    proof {
        take_all(all);
    }
    keys
}

/// Whether a provider takes its keys from here.
pub fn uses_api_keys(provider: EditPredictionProvider) -> (uses: bool)
    ensures
        uses == takes_keys(provider),
{
    match provider {
        EditPredictionProvider::OpenAiCompatibleApi
        | EditPredictionProvider::Groq
        | EditPredictionProvider::Cerebras => true,
        _ => false,
    }
}

/// The keys that are loaded for a provider: those of its setting, where it uses keys and
/// has a setting.
pub open spec fn loaded_keys(provider: EditPredictionProvider, setting: Option<Seq<char>>) -> Seq<
    Seq<char>,
> {
    match setting {
        Some(setting) => if takes_keys(provider) {
            keys_in(setting)
        } else {
            Seq::empty()
        },
        None => Seq::empty(),
    }
}

/// The keys of a provider, of which the setting is given.
pub fn load_open_ai_compatible_api_keys_if_needed(
    provider: EditPredictionProvider,
    setting: Option<&str>,
) -> (keys: Vec<String>)
    ensures
        texts(keys@) == loaded_keys(provider, opt_text(setting)),
{
    if uses_api_keys(provider) {
        if let Some(setting) = setting {
            return split_api_keys(setting);
        }
    }
    let keys: Vec<String> = Vec::new();
    assert(texts(keys@) =~= Seq::<Seq<char>>::empty());
    keys
}

/// Each key comes from a part of the setting.
proof fn key_origin(parts: Seq<Seq<char>>, i: int) -> (at: int)
    requires
        0 <= i < trimmed_keys(parts).len(),
    ensures
        0 <= at < parts.len(),
        trimmed_keys(parts)[i] == trimmed(parts[at]),
        trimmed_keys(parts)[i].len() > 0,
    decreases parts.len(),
{
    let keys = trimmed_keys(parts.drop_last());
    if i < keys.len() {
        key_origin(parts.drop_last(), i)
    } else {
        parts.len() - 1
    }
}

/// A key is never empty, has no white space around it, and holds none of the
/// characters that stand between keys.
pub proof fn keys_are_clean(setting: Seq<char>, i: int)
    requires
        0 <= i < keys_in(setting).len(),
    ensures
        ({
            let key = keys_in(setting)[i];
            &&& key.len() > 0
            &&& !is_white(key[0])
            &&& !is_white(key.last())
            &&& forall|j: int| 0 <= j < key.len() ==> !key_separators().contains(#[trigger] key[j])
        }),
{
    let parts = split(setting, key_separators());
    let key = keys_in(setting)[i];
    let at = key_origin(parts, i);
    trimmed_is_tight(parts[at]);
    let (from, to) = trimmed_is_within(parts[at]);
    assert forall|j: int| 0 <= j < key.len() implies !key_separators().contains(
        #[trigger] key[j],
    ) by {
        assert(key[j] == parts[at][from + j]);
        split_parts_hold_no_separator(setting, key_separators(), at, from + j);
    }
}

/// What is kept for each provider, under its id.
pub struct ApiKeys<E> {
    entries: Table<E>,
}

impl<E> View for ApiKeys<E> {
    type V = Map<Seq<char>, E>;

    closed spec fn view(&self) -> Map<Seq<char>, E> {
        self.entries@
    }
}

impl<E> ApiKeys<E> {
    /// Nothing is kept yet.
    pub fn new() -> (keys: ApiKeys<E>)
        ensures
            keys@ == Map::<Seq<char>, E>::empty(),
    {
        ApiKeys { entries: Table::new() }
    }

    /// What is kept for a provider.
    pub fn kept(&self, provider: EditPredictionProvider) -> (found: Option<&E>)
        ensures
            match found {
                Some(found) => self@.contains_key(id_of(provider)) && self@[id_of(provider)]
                    == *found,
                None => !self@.contains_key(id_of(provider)),
            },
    {
        self.entries.get(provider_id(provider))
    }

    /// Keeps something for a provider, unless something is kept for it already.
    pub fn provider_api_token(&mut self, provider: EditPredictionProvider, fresh: E)
        ensures
            final(self)@ == with_token(old(self)@, provider, fresh),
    {
        if self.kept(provider).is_none() {
            self.entries.insert(provider_id(provider), fresh);
        }
    }

    /// Keeps something for the OpenAI-compatible provider.
    pub fn open_ai_compatible_api_token(&mut self, fresh: E)
        ensures
            final(self)@ == with_token(
                old(self)@,
                EditPredictionProvider::OpenAiCompatibleApi,
                fresh,
            ),
    {
        self.provider_api_token(EditPredictionProvider::OpenAiCompatibleApi, fresh);
    }

    /// Keeps something for Groq.
    pub fn groq_api_token(&mut self, fresh: E)
        ensures
            final(self)@ == with_token(old(self)@, EditPredictionProvider::Groq, fresh),
    {
        self.provider_api_token(EditPredictionProvider::Groq, fresh);
    }

    /// Keeps something for Cerebras.
    pub fn cerebras_api_token(&mut self, fresh: E)
        ensures
            final(self)@ == with_token(old(self)@, EditPredictionProvider::Cerebras, fresh),
    {
        self.provider_api_token(EditPredictionProvider::Cerebras, fresh);
    }
}

/// What is kept once something is kept for a provider: what was there before, or else
/// what is new.
pub open spec fn with_token<E>(
    tokens: Map<Seq<char>, E>,
    provider: EditPredictionProvider,
    fresh: E,
) -> Map<Seq<char>, E> {
    if tokens.contains_key(id_of(provider)) {
        tokens
    } else {
        tokens.insert(id_of(provider), fresh)
    }
}

/// What is kept for a provider is made once, and stays what it is whatever comes later.
pub proof fn tokens_are_made_once<E>(
    tokens: Map<Seq<char>, E>,
    provider: EditPredictionProvider,
    first: E,
    other: EditPredictionProvider,
    second: E,
)
    ensures
        ({
            let once = with_token(tokens, provider, first);
            let twice = with_token(once, other, second);
            &&& once.contains_key(id_of(provider))
            &&& twice.contains_key(id_of(provider))
            &&& twice[id_of(provider)] == once[id_of(provider)]
        }),
{
}

} // verus!
