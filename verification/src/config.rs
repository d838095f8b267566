//! The configuration options of a session: how they are read, shown, changed and
//! written back.

use vstd::prelude::*;

use crate::calls::{
    call, problem_after, problem_with_cause, CallView, Problem, ProblemView, RpcCall,
};
use crate::json::{fields, no_entries, opt_view, or_null, with, Json, JsonView};
use crate::text::{
    concat3, join, joined, opt_string, or_text, owned, parse_signed, push_line, same_text,
    signed_value, single_part_is_the_text, split, split_is_not_empty, split_text, take_all,
    take_step, text_or, texts, uppercase_char, uppercase_of,
};

verus! {

/// What an option is about, where the editor shows it apart.
#[derive(Clone, Copy, Debug, PartialEq, Eq, Structural)]
pub enum ConfigCategory {
    Model,
    ThoughtLevel,
}

/// A value that an option can have.
#[derive(Debug, PartialEq, Eq)]
pub struct ConfigValue {
    pub value: String,
    pub label: String,
    pub description: Option<String>,
}

/// An option of a session, with the values that it can have.
#[derive(Debug, PartialEq, Eq)]
pub struct ConfigOption {
    pub id: String,
    pub name: String,
    pub category: Option<ConfigCategory>,
    pub current_value: String,
    pub values: Vec<ConfigValue>,
}

/// What a value of an option says.
pub struct ConfigValueView {
    pub value: Seq<char>,
    pub label: Seq<char>,
    pub description: Option<Seq<char>>,
}

/// What an option says.
pub struct ConfigOptionView {
    pub id: Seq<char>,
    pub name: Seq<char>,
    pub category: Option<ConfigCategory>,
    pub current_value: Seq<char>,
    pub values: Seq<ConfigValueView>,
}

impl View for ConfigValue {
    type V = ConfigValueView;

    open spec fn view(&self) -> ConfigValueView {
        ConfigValueView {
            value: self.value@,
            label: self.label@,
            description: opt_string(self.description),
        }
    }
}

/// What some values of an option say.
pub open spec fn value_views(values: Seq<ConfigValue>) -> Seq<ConfigValueView> {
    Seq::new(values.len(), |i: int| values[i]@)
}

impl View for ConfigOption {
    type V = ConfigOptionView;

    open spec fn view(&self) -> ConfigOptionView {
        ConfigOptionView {
            id: self.id@,
            name: self.name@,
            category: self.category,
            current_value: self.current_value@,
            values: value_views(self.values@),
        }
    }
}

/// What some options say.
pub open spec fn config_views(options: Seq<ConfigOption>) -> Seq<ConfigOptionView> {
    Seq::new(options.len(), |i: int| options[i]@)
}

proof fn config_views_push(options: Seq<ConfigOption>, option: ConfigOption)
    ensures
        config_views(options.push(option)) == config_views(options).push(option@),
{
    assert(config_views(options.push(option)) =~= config_views(options).push(option@));
}

// ---------------------------------------------------------------------------
// Labels
// ---------------------------------------------------------------------------

/// A word with its first character in upper case.
pub open spec fn capitalized(word: Seq<char>) -> Seq<char> {
    if word.len() == 0 {
        word
    } else {
        uppercase_of(word[0]) + word.skip(1)
    }
}

/// Some words, each with its first character in upper case.
pub open spec fn all_capitalized(words: Seq<Seq<char>>) -> Seq<Seq<char>>
    decreases words.len(),
{
    if words.len() == 0 {
        Seq::empty()
    } else {
        all_capitalized(words.drop_last()).push(capitalized(words.last()))
    }
}

/// The words of a value that has no label of its own, with blanks between them.
pub open spec fn spelled_out(value: Seq<char>) -> Seq<char> {
    joined(all_capitalized(split(value, seq!['_', '-'])), " "@)
}

/// How a value is shown.
pub open spec fn label_of(value: Seq<char>) -> Seq<char> {
    if value == "gpt-5.5"@ {
        "GPT-5.5"@
    } else if value == "gpt-5.4"@ {
        "GPT-5.4"@
    } else if value == "gpt-5.4-mini"@ {
        "GPT-5.4 Mini"@
    } else if value == "xhigh"@ {
        "Extra High"@
    } else if value == "on-request"@ {
        "On Request"@
    } else if value == "on-failure"@ {
        "On Failure"@
    } else if value == "read-only"@ {
        "Read Only"@
    } else if value == "workspace-write"@ {
        "Workspace Write"@
    } else if value == "danger-full-access"@ {
        "Danger Full Access"@
    } else {
        spelled_out(value)
    }
}

/// Puts the first character of a word in upper case.
fn capitalize(word: &str) -> (capital: String)
    ensures
        capital@ == capitalized(word@),
        word@.len() > 0 ==> capital@.len() > 0,
{
    let size = word.unicode_len();
    if size == 0 {
        return word.to_owned();
    }
    let mut capital = uppercase_char(word.get_char(0));
    let rest = word.substring_char(1, size);
    assert(rest@ =~= word@.skip(1));
    capital.append(rest);
    capital
}

/// Spells out a value that has no label of its own.
fn spell_out(value: &str) -> (label: String)
    ensures
        label@ == spelled_out(value@),
{
    let parts = split_text(value, &['_', '-']);
    let ghost all = texts(parts@);
    assert(['_', '-']@ =~= seq!['_', '-']);
    let mut capitals: Vec<String> = Vec::new();
    let mut i: usize = 0;
    proof {
        take_all(all);
        assert(texts(capitals@) =~= Seq::<Seq<char>>::empty());
    }
    while i < parts.len()
        invariant
            i <= parts@.len(),
            all == texts(parts@),
            texts(capitals@) == all_capitalized(all.take(i as int)),
            texts(capitals@).len() == i,
            i > 0 && all[0].len() > 0 ==> texts(capitals@)[0].len() > 0,
        decreases parts@.len() - i,
    {
        proof {
            take_step(all, i as int);
        }
        push_line(&mut capitals, capitalize(parts[i].as_str()));
        i = i + 1;
    }
    proof {
        take_all(all);
    }
    let label = join(&capitals, " ");
    if label.as_str().is_empty() {
        proof {
            reveal_strlit(" ");
            split_is_not_empty(value@, seq!['_', '-']);
            assert(texts(capitals@).len() == 1);
            single_part_is_the_text(value@, seq!['_', '-']);
            assert(value@ =~= label@);
        }
        value.to_owned()
    } else {
        label
    }
}

/// How a value is shown.
pub fn config_value_label(value: &str) -> (label: String)
    ensures
        label@ == label_of(value@),
{
    if same_text(value, "gpt-5.5") {
        "GPT-5.5".to_owned()
    } else if same_text(value, "gpt-5.4") {
        "GPT-5.4".to_owned()
    } else if same_text(value, "gpt-5.4-mini") {
        "GPT-5.4 Mini".to_owned()
    } else if same_text(value, "xhigh") {
        "Extra High".to_owned()
    } else if same_text(value, "on-request") {
        "On Request".to_owned()
    } else if same_text(value, "on-failure") {
        "On Failure".to_owned()
    } else if same_text(value, "read-only") {
        "Read Only".to_owned()
    } else if same_text(value, "workspace-write") {
        "Workspace Write".to_owned()
    } else if same_text(value, "danger-full-access") {
        "Danger Full Access".to_owned()
    } else {
        spell_out(value)
    }
}

// ---------------------------------------------------------------------------
// Options
// ---------------------------------------------------------------------------

/// Some values as an option offers them.
pub open spec fn labelled(values: Seq<Seq<char>>) -> Seq<ConfigValueView> {
    Seq::new(
        values.len(),
        |i: int| ConfigValueView { value: values[i], label: label_of(values[i]), description: None },
    )
}

/// An option with the values that it offers.
pub open spec fn select_option(
    id: Seq<char>,
    name: Seq<char>,
    category: Option<ConfigCategory>,
    current: Seq<char>,
    values: Seq<Seq<char>>,
) -> ConfigOptionView {
    ConfigOptionView { id, name, category, current_value: current, values: labelled(values) }
}

/// Makes an option of the values that it offers.
pub fn codex_select_config_option(
    id: &str,
    name: &str,
    category: Option<ConfigCategory>,
    current: &str,
    values: &[&str],
) -> (option: ConfigOption)
    ensures
        option@ == select_option(
            id@,
            name@,
            category,
            current@,
            Seq::new(values@.len(), |i: int| values@[i]@),
        ),
{
    let mut offered: Vec<ConfigValue> = Vec::new();
    let mut i: usize = 0;
    while i < values.len()
        invariant
            i <= values@.len(),
            offered@.len() == i,
            forall|j: int|
                0 <= j < i ==> (#[trigger] offered@[j])@ == (ConfigValueView {
                    value: values@[j]@,
                    label: label_of(values@[j]@),
                    description: None,
                }),
        decreases values@.len() - i,
    {
        offered.push(
            ConfigValue {
                value: values[i].to_owned(),
                label: config_value_label(values[i]),
                description: None,
            },
        );
        i = i + 1;
    }
    assert(value_views(offered@) =~= labelled(Seq::new(values@.len(), |i: int| values@[i]@)));
    ConfigOption {
        id: id.to_owned(),
        name: name.to_owned(),
        category,
        current_value: current.to_owned(),
        values: offered,
    }
}

/// The reasoning efforts that are offered.
pub open spec fn efforts() -> Seq<Seq<char>> {
    seq!["low"@, "medium"@, "high"@, "xhigh"@]
}

/// The approval policies that are offered.
pub open spec fn approval_policies() -> Seq<Seq<char>> {
    seq!["untrusted"@, "on-failure"@, "on-request"@, "never"@]
}

/// The sandbox modes that are offered.
pub open spec fn sandbox_modes() -> Seq<Seq<char>> {
    seq!["read-only"@, "workspace-write"@, "danger-full-access"@]
}

/// The options that every session has.
pub open spec fn base_options(
    effort: Seq<char>,
    approval: Seq<char>,
    sandbox: Seq<char>,
) -> Seq<ConfigOptionView> {
    seq![
        select_option(
            "model_reasoning_effort"@,
            "Reasoning"@,
            Some(ConfigCategory::ThoughtLevel),
            effort,
            efforts(),
        ),
        select_option("approval_policy"@, "Approvals"@, None, approval, approval_policies()),
        select_option("sandbox_mode"@, "Sandbox"@, None, sandbox, sandbox_modes()),
    ]
}

/// The options of a session before anything is known of it.
pub open spec fn default_options() -> Seq<ConfigOptionView> {
    base_options("xhigh"@, "never"@, "danger-full-access"@)
}

/// The option that a configuration may set beyond those that every session has.
pub open spec fn extra_option(
    config: JsonView,
    id: Seq<char>,
    name: Seq<char>,
    values: Seq<Seq<char>>,
) -> Seq<ConfigOptionView> {
    match config.text_at(id) {
        Some(current) => seq![select_option(id, name, None, current, values)],
        None => Seq::empty(),
    }
}

/// The options that a configuration sets, with defaults where it sets none.
pub open spec fn options_of_config(config: JsonView) -> Seq<ConfigOptionView> {
    base_options(
        text_or(config.text_at("model_reasoning_effort"@), "xhigh"@),
        text_or(config.text_at("approval_policy"@), "never"@),
        text_or(config.text_at("sandbox_mode"@), "danger-full-access"@),
    ) + extra_option(
        config,
        "model_verbosity"@,
        "Verbosity"@,
        seq!["low"@, "medium"@, "high"@],
    ) + extra_option(
        config,
        "web_search"@,
        "Web search"@,
        seq!["disabled"@, "cached"@, "indexed"@, "live"@],
    )
}

/// Makes the options that every session has.
fn make_base_options(effort: &str, approval: &str, sandbox: &str) -> (options: Vec<ConfigOption>)
    ensures
        config_views(options@) == base_options(effort@, approval@, sandbox@),
{
    let mut options: Vec<ConfigOption> = Vec::new();
    let first = codex_select_config_option(
        "model_reasoning_effort",
        "Reasoning",
        Some(ConfigCategory::ThoughtLevel),
        effort,
        &["low", "medium", "high", "xhigh"],
    );
    let second = codex_select_config_option(
        "approval_policy",
        "Approvals",
        None,
        approval,
        &["untrusted", "on-failure", "on-request", "never"],
    );
    let third = codex_select_config_option(
        "sandbox_mode",
        "Sandbox",
        None,
        sandbox,
        &["read-only", "workspace-write", "danger-full-access"],
    );
    proof {
        assert(first@.values =~= labelled(efforts()));
        assert(second@.values =~= labelled(approval_policies()));
        assert(third@.values =~= labelled(sandbox_modes()));
    }
    options.push(first);
    options.push(second);
    options.push(third);
    assert(config_views(options@) =~= base_options(effort@, approval@, sandbox@));
    options
}

/// The options of a session before anything is known of it.
pub fn default_config_options_for_session() -> (options: Vec<ConfigOption>)
    ensures
        config_views(options@) == default_options(),
{
    make_base_options("xhigh", "never", "danger-full-access")
}

/// The options that a configuration response sets.
pub fn config_options_from_read_response(response: &Json) -> (options: Vec<ConfigOption>)
    ensures
        config_views(options@) == options_of_config(or_null(response@.get("config"@))),
{
    let null = Json::Null;
    let config = match response.get("config") {
        Some(config) => config,
        None => &null,
    };
    let mut options = make_base_options(
        or_text(config.text_at("model_reasoning_effort"), "xhigh"),
        or_text(config.text_at("approval_policy"), "never"),
        or_text(config.text_at("sandbox_mode"), "danger-full-access"),
    );
    let ghost base = config_views(options@);
    if let Some(verbosity) = config.text_at("model_verbosity") {
        let option = codex_select_config_option(
            "model_verbosity",
            "Verbosity",
            None,
            verbosity,
            &["low", "medium", "high"],
        );
        assert(option@.values =~= labelled(seq!["low"@, "medium"@, "high"@]));
        options.push(option);
    }
    let ghost more = config_views(options@);
    proof {
        assert(more =~= base + extra_option(
            config@,
            "model_verbosity"@,
            "Verbosity"@,
            seq!["low"@, "medium"@, "high"@],
        ));
    }
    if let Some(web_search) = config.text_at("web_search") {
        let option = codex_select_config_option(
            "web_search",
            "Web search",
            None,
            web_search,
            &["disabled", "cached", "indexed", "live"],
        );
        assert(option@.values =~= labelled(seq!["disabled"@, "cached"@, "indexed"@, "live"@]));
        options.push(option);
    }
    assert(config_views(options@) =~= options_of_config(config@));
    options
}

/// A configuration that sets nothing gives the options that a session starts
/// with.
pub proof fn empty_config_gives_defaults(config: JsonView)
    requires
        config.text_at("model_reasoning_effort"@) is None,
        config.text_at("approval_policy"@) is None,
        config.text_at("sandbox_mode"@) is None,
        config.text_at("model_verbosity"@) is None,
        config.text_at("web_search"@) is None,
    ensures
        options_of_config(config) == default_options(),
{
    assert(options_of_config(config) =~= default_options());
}

// ---------------------------------------------------------------------------
// Changing options
// ---------------------------------------------------------------------------

/// The index of the first option with an id.
pub open spec fn option_index(options: Seq<ConfigOptionView>, id: Seq<char>) -> Option<int>
    decreases options.len(),
{
    if options.len() == 0 {
        None
    } else {
        match option_index(options.drop_last(), id) {
            Some(i) => Some(i),
            None => if options.last().id == id {
                Some(options.len() - 1)
            } else {
                None
            },
        }
    }
}

/// The options with one put in: in the place of the first with its id, or else at
/// the end.
pub open spec fn upserted(options: Seq<ConfigOptionView>, option: ConfigOptionView) -> Seq<
    ConfigOptionView,
> {
    match option_index(options, option.id) {
        Some(i) => options.update(i, option),
        None => options.push(option),
    }
}

/// The options with some others put in one after the other.
pub open spec fn all_upserted(
    options: Seq<ConfigOptionView>,
    incoming: Seq<ConfigOptionView>,
) -> Seq<ConfigOptionView>
    decreases incoming.len(),
{
    if incoming.len() == 0 {
        options
    } else {
        upserted(all_upserted(options, incoming.drop_last()), incoming.last())
    }
}

/// The option with a value set, where it has the id.
pub open spec fn with_value(
    option: ConfigOptionView,
    id: Seq<char>,
    value: Seq<char>,
) -> ConfigOptionView {
    if option.id == id {
        ConfigOptionView { current_value: value, ..option }
    } else {
        option
    }
}

/// The options with a value set for an id.
pub open spec fn with_values(
    options: Seq<ConfigOptionView>,
    id: Seq<char>,
    value: Seq<char>,
) -> Seq<ConfigOptionView> {
    Seq::new(options.len(), |i: int| with_value(options[i], id, value))
}

/// What is known of the index of the first option with an id.
pub proof fn option_index_is_first(options: Seq<ConfigOptionView>, id: Seq<char>)
    ensures
        match option_index(options, id) {
            Some(i) => {
                &&& 0 <= i < options.len()
                &&& options[i].id == id
                &&& forall|j: int| 0 <= j < i ==> (#[trigger] options[j]).id != id
            },
            None => forall|j: int| 0 <= j < options.len() ==> (#[trigger] options[j]).id != id,
        },
    decreases options.len(),
{
    if options.len() > 0 {
        let init = options.drop_last();
        option_index_is_first(init, id);
        assert forall|j: int| 0 <= j < options.len() - 1 implies #[trigger] options[j] == init[j] by {}
    }
}

/// Finds the first option with an id.
fn find_option(options: &Vec<ConfigOption>, id: &str) -> (found: Option<usize>)
    ensures
        match found {
            Some(i) => i < options@.len() && option_index(config_views(options@), id@) == Some(
                i as int,
            ),
            None => option_index(config_views(options@), id@) is None,
        },
{
    let ghost all = config_views(options@);
    let mut i: usize = 0;
    while i < options.len()
        invariant
            i <= options@.len(),
            all == config_views(options@),
            forall|j: int| 0 <= j < i ==> (#[trigger] all[j]).id != id@,
        decreases options@.len() - i,
    {
        if same_text(options[i].id.as_str(), id) {
            proof {
                option_index_is_first(all, id@);
                assert(all[i as int].id == id@);
            }
            return Some(i);
        }
        i = i + 1;
    }
    proof {
        option_index_is_first(all, id@);
    }
    None
}

/// Puts an option in: in the place of the first with its id, or else at the end.
pub fn upsert_config_option(options: &mut Vec<ConfigOption>, option: ConfigOption)
    ensures
        config_views(final(options)@) == upserted(config_views(old(options)@), option@),
{
    match find_option(options, option.id.as_str()) {
        Some(i) => {
            options.set(i, option);
            assert(config_views(options@) =~= config_views(old(options)@).update(
                i as int,
                option@,
            ));
        },
        None => {
            proof {
                config_views_push(options@, option);
            }
            options.push(option);
        },
    }
}

/// Puts the options of a configuration response in.
pub fn update_config_options_from_read_response(options: &mut Vec<ConfigOption>, response: &Json)
    ensures
        config_views(final(options)@) == all_upserted(
            config_views(old(options)@),
            options_of_config(or_null(response@.get("config"@))),
        ),
{
    let incoming = config_options_from_read_response(response);
    let ghost whole = incoming@;
    let ghost all = config_views(incoming@);
    let ghost before = config_views(options@);
    proof {
        take_all(all);
    }
    for option in it: incoming.into_iter()
        invariant
            it.seq() == whole,
            all == config_views(whole),
            config_views(options@) == all_upserted(before, all.take(it.index())),
    {
        proof {
            take_step(all, it.index());
        }
        upsert_config_option(options, option);
    }
    proof {
        take_all(all);
    }
}

/// Sets the value of each option with an id.
pub fn set_config_option_current_value(options: &mut Vec<ConfigOption>, id: &str, value: &str)
    ensures
        config_views(final(options)@) == with_values(config_views(old(options)@), id@, value@),
{
    let ghost before = config_views(options@);
    let mut i: usize = 0;
    while i < options.len()
        invariant
            i <= options@.len(),
            options@.len() == before.len(),
            forall|j: int|
                0 <= j < i ==> (#[trigger] options@[j])@ == with_value(before[j], id@, value@),
            forall|j: int| i <= j < options@.len() ==> (#[trigger] options@[j])@ == before[j],
        decreases options@.len() - i,
    {
        if same_text(options[i].id.as_str(), id) {
            options[i].current_value = value.to_owned();
        }
        i = i + 1;
    }
    assert(config_views(options@) =~= with_values(before, id@, value@));
}

/// The approval policy that a setting stands for: a named one, or one that asks
/// where it is set in detail.
pub open spec fn approval_policy_in(setting: Option<JsonView>) -> Option<Seq<char>> {
    match setting {
        Some(JsonView::Text(policy)) => Some(policy),
        Some(JsonView::Object(entries)) => if JsonView::Object(entries).get("granular"@) is Some {
            Some("on-request"@)
        } else {
            None
        },
        _ => None,
    }
}

/// The sandbox mode that a setting stands for.
pub open spec fn sandbox_mode_in(setting: Option<JsonView>) -> Option<Seq<char>> {
    match setting {
        Some(policy) => match policy.text_at("type"@) {
            Some(kind) => if kind == "dangerFullAccess"@ {
                Some("danger-full-access"@)
            } else if kind == "readOnly"@ {
                Some("read-only"@)
            } else if kind == "workspaceWrite"@ {
                Some("workspace-write"@)
            } else {
                None
            },
            None => None,
        },
        None => None,
    }
}

/// The options with a value set for an id, where there is a value.
pub open spec fn with_optional_value(
    options: Seq<ConfigOptionView>,
    id: Seq<char>,
    value: Option<Seq<char>>,
) -> Seq<ConfigOptionView> {
    match value {
        Some(value) => with_values(options, id, value),
        None => options,
    }
}

/// The options after the settings of a thread have been taken over.
pub open spec fn with_thread_settings(
    options: Seq<ConfigOptionView>,
    settings: JsonView,
) -> Seq<ConfigOptionView> {
    let first = with_optional_value(
        options,
        "model_reasoning_effort"@,
        settings.text_at("effort"@),
    );
    let second = with_optional_value(
        first,
        "approval_policy"@,
        approval_policy_in(settings.get("approvalPolicy"@)),
    );
    with_optional_value(
        second,
        "sandbox_mode"@,
        sandbox_mode_in(settings.get("sandboxPolicy"@)),
    )
}

/// The approval policy that a setting stands for.
pub fn approval_policy_config_value(setting: Option<&Json>) -> (policy: Option<String>)
    ensures
        opt_string(policy) == approval_policy_in(opt_view(setting)),
{
    match setting {
        Some(value) => match value.as_text() {
            Some(policy) => Some(policy.to_owned()),
            None => match value.get("granular") {
                Some(_) => Some("on-request".to_owned()),
                None => None,
            },
        },
        None => None,
    }
}

/// The sandbox mode that a setting stands for.
pub fn sandbox_policy_config_value(setting: Option<&Json>) -> (mode: Option<String>)
    ensures
        opt_string(mode) == sandbox_mode_in(opt_view(setting)),
{
    match setting {
        Some(policy) => match policy.text_at("type") {
            Some(kind) => if same_text(kind, "dangerFullAccess") {
                Some("danger-full-access".to_owned())
            } else if same_text(kind, "readOnly") {
                Some("read-only".to_owned())
            } else if same_text(kind, "workspaceWrite") {
                Some("workspace-write".to_owned())
            } else {
                None
            },
            None => None,
        },
        None => None,
    }
}

/// Takes over the settings of a thread, and returns the model that they name.
pub fn update_config_options_from_thread_settings(
    options: &mut Vec<ConfigOption>,
    settings: &Json,
) -> (model: Option<String>)
    ensures
        config_views(final(options)@) == with_thread_settings(
            config_views(old(options)@),
            settings@,
        ),
        opt_string(model) == settings@.text_at("model"@),
{
    if let Some(effort) = settings.text_at("effort") {
        set_config_option_current_value(options, "model_reasoning_effort", effort);
    }
    if let Some(policy) = approval_policy_config_value(settings.get("approvalPolicy")) {
        set_config_option_current_value(options, "approval_policy", policy.as_str());
    }
    if let Some(mode) = sandbox_policy_config_value(settings.get("sandboxPolicy")) {
        set_config_option_current_value(options, "sandbox_mode", mode.as_str());
    }
    owned(settings.text_at("model"))
}

/// The value that is written for an option: a number for those that are numbers,
/// as far as the text is one, and else the text.
pub open spec fn written_value(id: Seq<char>, value: Seq<char>) -> JsonView {
    if id == "model_context_window"@ || id == "model_auto_compact_token_limit"@ {
        match signed_value(value) {
            Some(n) => JsonView::Int(n),
            None => JsonView::Text(value),
        }
    } else {
        JsonView::Text(value)
    }
}

/// The value that is written for an option.
pub fn config_value_from_config_id(id: &str, value: &str) -> (written: Json)
    ensures
        written@ == written_value(id@, value@),
{
    if same_text(id, "model_context_window") || same_text(id, "model_auto_compact_token_limit") {
        match parse_signed(value) {
            Some(n) => Json::integer(n),
            None => Json::text(value),
        }
    } else {
        Json::text(value)
    }
}

/// The parameters with which an option is written.
pub open spec fn write_query(id: Seq<char>, value: Seq<char>) -> JsonView {
    JsonView::Object(
        fields().push(("keyPath"@, JsonView::Text(id))).push(
            ("value"@, written_value(id, value)),
        ).push(("mergeStrategy"@, JsonView::Text("upsert"@))),
    )
}

/// The request that reads the configuration.
pub open spec fn read_query() -> CallView {
    CallView {
        method: "config/read"@,
        params: JsonView::Object(fields().push(("includeLayers"@, JsonView::Bool(false)))),
    }
}

/// The request that reads the configuration.
pub fn config_read_call() -> (made: RpcCall)
    ensures
        made@ == read_query(),
{
    call(
        "config/read",
        Json::object(with(no_entries(), "includeLayers", Json::Bool(false))),
    )
}

/// The request that writes an option.
pub open spec fn write_request(id: Seq<char>, value: Seq<char>) -> CallView {
    CallView { method: "config/value/write"@, params: write_query(id, value) }
}

/// The request that writes an option.
pub fn set_config_option(id: &str, value: &str) -> (made: RpcCall)
    ensures
        made@ == write_request(id@, value@),
{
    let entries = with(no_entries(), "keyPath", Json::text(id));
    let entries = with(entries, "value", config_value_from_config_id(id, value));
    call(
        "config/value/write",
        Json::object(with(entries, "mergeStrategy", Json::text("upsert"))),
    )
}

/// What follows once an option was written: the configuration is read again.
pub open spec fn after_write(id: Seq<char>, reply: Result<(), &str>) -> Result<
    CallView,
    ProblemView,
> {
    match reply {
        Ok(()) => Ok(read_query()),
        Err(cause) => Err(
            problem_after("failed to write native Codex config option `"@ + id + "`"@, cause@),
        ),
    }
}

/// What follows once an option was written: the configuration is read again.
pub fn config_option_written(id: &str, reply: Result<(), &str>) -> (next: Result<RpcCall, Problem>)
    ensures
        match next {
            Ok(made) => after_write(id@, reply) == Ok::<CallView, ProblemView>(made@),
            Err(problem) => after_write(id@, reply) == Err::<CallView, ProblemView>(problem@),
        },
{
    match reply {
        Ok(()) => Ok(config_read_call()),
        Err(cause) => {
            let message = concat3("failed to write native Codex config option `", id, "`");
            Err(problem_with_cause(message.as_str(), cause))
        },
    }
}

// ---------------------------------------------------------------------------
// What changes keep
// ---------------------------------------------------------------------------

/// That no id occurs twice.
pub open spec fn distinct_ids(options: Seq<ConfigOptionView>) -> bool {
    forall|i: int, j: int|
        0 <= i < j < options.len() ==> (#[trigger] options[i]).id != (#[trigger] options[j]).id
}

/// Putting an option in keeps ids distinct, makes it the one with its id, and
/// leaves each other option where it is.
pub proof fn upsert_keeps_ids_distinct(options: Seq<ConfigOptionView>, option: ConfigOptionView)
    requires
        distinct_ids(options),
    ensures
        distinct_ids(upserted(options, option)),
        exists|i: int|
            0 <= i < upserted(options, option).len() && #[trigger] upserted(options, option)[i]
                == option,
        forall|i: int|
            0 <= i < options.len() && options[i].id != option.id ==> #[trigger] upserted(
                options,
                option,
            )[i] == options[i],
{
    option_index_is_first(options, option.id);
    let after = upserted(options, option);
    match option_index(options, option.id) {
        Some(i) => {
            assert(after[i] == option);
        },
        None => {
            assert(after[options.len() as int] == option);
        },
    }
}

/// Putting the same option in twice is the same as once.
pub proof fn upsert_is_idempotent(options: Seq<ConfigOptionView>, option: ConfigOptionView)
    ensures
        upserted(upserted(options, option), option) == upserted(options, option),
{
    let once = upserted(options, option);
    option_index_is_first(options, option.id);
    option_index_is_first(once, option.id);
    match option_index(options, option.id) {
        Some(i) => {
            assert(once[i].id == option.id);
            assert forall|j: int| 0 <= j < i implies (#[trigger] once[j]).id != option.id by {
                assert(once[j] == options[j]);
            }
            assert(option_index(once, option.id) == Some(i));
            assert(once.update(i, option) =~= once);
        },
        None => {
            let i = options.len() as int;
            assert(once[i].id == option.id);
            assert forall|j: int| 0 <= j < i implies (#[trigger] once[j]).id != option.id by {
                assert(once[j] == options[j]);
            }
            assert(option_index(once, option.id) == Some(i));
            assert(once.update(i, option) =~= once);
        },
    }
}

/// Putting in the options of a configuration keeps ids distinct.
pub proof fn refresh_keeps_ids_distinct(
    options: Seq<ConfigOptionView>,
    incoming: Seq<ConfigOptionView>,
)
    requires
        distinct_ids(options),
    ensures
        distinct_ids(all_upserted(options, incoming)),
    decreases incoming.len(),
{
    if incoming.len() > 0 {
        refresh_keeps_ids_distinct(options, incoming.drop_last());
        upsert_keeps_ids_distinct(all_upserted(options, incoming.drop_last()), incoming.last());
    }
}

/// Taking over the settings of a thread changes nothing but current values, and
/// only those of the reasoning effort, the approval policy and the sandbox mode.
pub proof fn thread_settings_change_only_values(
    options: Seq<ConfigOptionView>,
    settings: JsonView,
    i: int,
)
    requires
        0 <= i < options.len(),
    ensures
        with_thread_settings(options, settings).len() == options.len(),
        ({
            let before = options[i];
            let after = with_thread_settings(options, settings)[i];
            &&& after == ConfigOptionView { current_value: after.current_value, ..before }
            &&& before.id != "model_reasoning_effort"@ && before.id != "approval_policy"@
                && before.id != "sandbox_mode"@ ==> after == before
        }),
{
}

/// The options that a session starts with have distinct ids.
pub proof fn default_ids_are_distinct()
    ensures
        distinct_ids(default_options()),
{
    reveal_strlit("model_reasoning_effort");
    reveal_strlit("approval_policy");
    reveal_strlit("sandbox_mode");
    let options = default_options();
    assert(options[0].id.len() == 22);
    assert(options[1].id.len() == 15);
    assert(options[2].id.len() == 12);
}

} // verus!
