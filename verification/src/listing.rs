//! What the bridge shows in a thread for the lists that Codex returns: models,
//! configuration, skills, hooks, plugins, servers and threads.

use vstd::prelude::*;

use crate::json::{entry_views, ref_views, text_in, or_null, read_text, Json, JsonView};
use crate::json_text::{inline_text, value_to_inline_string};
use crate::text::{
    blank, concat2, concat3, concat4, concat5, concat6, decimal, decimal_text, either, first_line,
    is_blank, join, joined, or_text, push_line, take_all, take_step, text_or, texts, trim, trimmed,
};

verus! {

// ---------------------------------------------------------------------------
// Pieces
// ---------------------------------------------------------------------------

/// The items that are shown of a list that is cut off.
pub open spec fn shown<A>(items: Seq<A>, limit: nat) -> Seq<A> {
    if items.len() > limit {
        items.take(limit as int)
    } else {
        items
    }
}

/// The line that says how many items are not shown, where there are any.
pub open spec fn more_line(prefix: Seq<char>, total: nat, limit: nat) -> Seq<Seq<char>> {
    if total > limit {
        seq![prefix + decimal((total - limit) as nat) + " more"@]
    } else {
        Seq::empty()
    }
}

/// The description of an item, with a dash before it; nothing where it is blank.
pub open spec fn description_suffix(item: JsonView) -> Seq<char> {
    match item.text_at("description"@) {
        Some(description) => if is_blank(description) {
            ""@
        } else {
            " — "@ + trimmed(description)
        },
        None => ""@,
    }
}

/// One of two words for a truth value, and a third where there is none.
pub open spec fn word_for(
    value: Option<bool>,
    yes: Seq<char>,
    no: Seq<char>,
    unknown: Seq<char>,
) -> Seq<char> {
    match value {
        Some(true) => yes,
        Some(false) => no,
        None => unknown,
    }
}

/// The problems that are listed under a key, one to a line.
pub open spec fn problem_lines(key: Seq<char>, problems: Seq<JsonView>) -> Seq<Seq<char>>
    decreases problems.len(),
{
    if problems.len() == 0 {
        Seq::empty()
    } else {
        problem_lines(key, problems.drop_last()).push(
            "  - "@ + key + ": "@ + inline_text(problems.last()),
        )
    }
}

/// The first problems that are listed under a key, and how many more there are.
pub open spec fn list_errors(value: JsonView, key: Seq<char>) -> Seq<Seq<char>> {
    let problems = value.items_at(key);
    problem_lines(key, shown(problems, 5)) + more_line(
        "  - "@ + key + ": … "@,
        problems.len(),
        5,
    )
}

/// How many items are shown.
fn shown_count(total: usize, limit: usize) -> (count: usize)
    ensures
        count <= total,
        count == (if total > limit {
            limit
        } else {
            total
        }),
{
    if total > limit {
        limit
    } else {
        total
    }
}

/// Adds the line that says how many items are not shown.
fn push_more(lines: &mut Vec<String>, prefix: &str, total: usize, limit: usize)
    ensures
        texts(final(lines)@) == texts(old(lines)@) + more_line(prefix@, total as nat, limit as nat),
{
    if total > limit {
        push_line(lines, concat3(prefix, decimal_text((total - limit) as u64).as_str(), " more"));
    }
    assert(texts(lines@) =~= texts(old(lines)@) + more_line(prefix@, total as nat, limit as nat));
}

/// The description of an item, with a dash before it.
fn describe(item: &Json) -> (suffix: String)
    ensures
        suffix@ == description_suffix(item@),
{
    match item.text_at("description") {
        Some(description) => if blank(description) {
            "".to_owned()
        } else {
            concat2(" — ", trim(description))
        },
        None => "".to_owned(),
    }
}

/// One of two words for a truth value, and a third where there is none.
fn choose_word<'a>(value: Option<bool>, yes: &'a str, no: &'a str, unknown: &'a str) -> (word:
    &'a str)
    ensures
        word@ == word_for(value, yes@, no@, unknown@),
{
    match value {
        Some(value) => if value {
            yes
        } else {
            no
        },
        None => unknown,
    }
}

/// Adds the first problems that are listed under a key.
pub fn append_list_errors(lines: &mut Vec<String>, value: &Json, key: &str)
    ensures
        texts(final(lines)@) == texts(old(lines)@) + list_errors(value@, key@),
{
    let problems = value.items_at(key);
    let ghost all = ref_views(problems@);
    let ghost before = texts(lines@);
    let count = shown_count(problems.len(), 5);
    let mut i: usize = 0;
    proof {
        take_all(all);
        assert(before + problem_lines(key@, all.take(0)) =~= before);
    }
    while i < count
        invariant
            i <= count <= problems@.len(),
            all == ref_views(problems@),
            texts(lines@) == before + problem_lines(key@, all.take(i as int)),
        decreases count - i,
    {
        proof {
            take_step(all, i as int);
        }
        let line = concat4("  - ", key, ": ", value_to_inline_string(problems[i]).as_str());
        push_line(lines, line);
        assert(texts(lines@) =~= before + problem_lines(key@, all.take(i + 1)));
        i = i + 1;
    }
    proof {
        take_all(all);
        assert(all.take(count as int) == shown(all, 5));
    }
    let prefix = concat3("  - ", key, ": … ");
    push_more(lines, prefix.as_str(), problems.len(), 5);
    assert(texts(lines@) =~= before + list_errors(value@, key@));
}

// ---------------------------------------------------------------------------
// Models
// ---------------------------------------------------------------------------

/// The line of a model.
pub open spec fn model_line(model: JsonView) -> Seq<char> {
    let id = text_or(text_in(model.get_either("model"@, "id"@)), "unknown"@);
    let name = text_or(text_in(model.get_either("displayName"@, "name"@)), id);
    let default = if model.bool_at("isDefault"@) == Some(true) {
        " (default)"@
    } else {
        ""@
    };
    "- "@ + name + " (`"@ + id + "`)"@ + (default + description_suffix(model))
}

/// The lines of some models.
pub open spec fn model_lines(models: Seq<JsonView>) -> Seq<Seq<char>>
    decreases models.len(),
{
    if models.len() == 0 {
        Seq::empty()
    } else {
        model_lines(models.drop_last()).push(model_line(models.last()))
    }
}

/// What is shown for a list of models.
pub open spec fn model_list_text(response: JsonView) -> Seq<char> {
    let models = response.items_at("data"@);
    if models.len() == 0 {
        "Codex models: no models returned."@
    } else {
        joined(
            (seq!["Codex models:"@] + model_lines(shown(models, 30)) + more_line(
                "- … "@,
                models.len(),
                30,
            )).push("Use the model selector to choose the model for future turns in this thread."@),
            "\n"@,
        )
    }
}

/// The line of a model.
fn format_model(model: &Json) -> (line: String)
    ensures
        line@ == model_line(model@),
{
    let id = or_text(read_text(model.get_either("model", "id")), "unknown");
    let name = or_text(read_text(model.get_either("displayName", "name")), id);
    let default = match model.bool_at("isDefault") {
        Some(true) => " (default)",
        _ => "",
    };
    let suffix = concat2(default, describe(model).as_str());
    concat6("- ", name, " (`", id, "`)", suffix.as_str())
}

/// What is shown for a list of models.
pub fn format_model_list(response: &Json) -> (text: String)
    ensures
        text@ == model_list_text(response@),
{
    let models = response.items_at("data");
    let ghost all = ref_views(models@);
    if models.len() == 0 {
        return "Codex models: no models returned.".to_owned();
    }
    let mut lines = first_line("Codex models:");
    let ghost head = texts(lines@);
    let count = shown_count(models.len(), 30);
    let mut i: usize = 0;
    proof {
        take_all(all);
        assert(head + model_lines(all.take(0)) =~= head);
    }
    while i < count
        invariant
            i <= count <= models@.len(),
            all == ref_views(models@),
            texts(lines@) == head + model_lines(all.take(i as int)),
        decreases count - i,
    {
        proof {
            take_step(all, i as int);
        }
        push_line(&mut lines, format_model(models[i]));
        assert(texts(lines@) =~= head + model_lines(all.take(i + 1)));
        i = i + 1;
    }
    proof {
        take_all(all);
        assert(all.take(count as int) == shown(all, 30));
    }
    push_more(&mut lines, "- … ", models.len(), 30);
    push_line(
        &mut lines,
        "Use the model selector to choose the model for future turns in this thread.".to_owned(),
    );
    join(&lines, "\n")
}

// ---------------------------------------------------------------------------
// Configuration
// ---------------------------------------------------------------------------

/// The lines of the values that are set, up to a limit.
pub open spec fn config_lines(entries: Seq<(Seq<char>, JsonView)>, limit: nat) -> Seq<Seq<char>>
    decreases entries.len(),
{
    if entries.len() == 0 {
        Seq::empty()
    } else {
        let lines = config_lines(entries.drop_last(), limit);
        let (key, value) = entries.last();
        if value is Null || lines.len() >= limit {
            lines
        } else {
            lines.push("- `"@ + key + "`: "@ + inline_text(value))
        }
    }
}

/// What is shown for a configuration.
pub open spec fn config_text(response: JsonView) -> Seq<char> {
    match response.get("config"@) {
        Some(JsonView::Object(entries)) => {
            let lines = config_lines(entries, 30);
            joined(
                seq!["Codex configuration:"@] + if lines.len() == 0 {
                    seq!["- No non-null config values returned."@]
                } else {
                    lines
                },
                "\n"@,
            )
        },
        _ => "Codex configuration: no config returned."@,
    }
}

/// What is shown for a configuration.
pub fn format_config_read(response: &Json) -> (text: String)
    ensures
        text@ == config_text(response@),
{
    let entries = match response.get("config") {
        Some(config) => match config.as_object() {
            Some(entries) => entries,
            None => return "Codex configuration: no config returned.".to_owned(),
        },
        None => return "Codex configuration: no config returned.".to_owned(),
    };
    let ghost all = entry_views(entries@);
    let mut lines = first_line("Codex configuration:");
    let ghost head = texts(lines@);
    let mut i: usize = 0;
    proof {
        take_all(all);
        assert(head + config_lines(all.take(0), 30) =~= head);
    }
    while i < entries.len()
        invariant
            i <= entries@.len(),
            all == entry_views(entries@),
            head.len() == 1,
            lines@.len() == 1 + config_lines(all.take(i as int), 30).len(),
            texts(lines@) == head + config_lines(all.take(i as int), 30),
        decreases entries@.len() - i,
    {
        proof {
            take_step(all, i as int);
        }
        let value = &entries[i].1;
        let skip = match value {
            Json::Null => true,
            _ => lines.len() >= 31,
        };
        if !skip {
            let line = concat4(
                "- `",
                entries[i].0.as_str(),
                "`: ",
                value_to_inline_string(value).as_str(),
            );
            push_line(&mut lines, line);
            assert(texts(lines@) =~= head + config_lines(all.take(i + 1), 30));
            assert(texts(lines@).len() == lines@.len());
        }
        i = i + 1;
    }
    proof {
        take_all(all);
    }
    if lines.len() == 1 {
        push_line(&mut lines, "- No non-null config values returned.".to_owned());
        assert(texts(lines@) =~= head + seq!["- No non-null config values returned."@]);
    }
    join(&lines, "\n")
}

// ---------------------------------------------------------------------------
// Skills
// ---------------------------------------------------------------------------

/// The line of the directory that an entry is for, where it names one.
pub open spec fn cwd_line(entry: JsonView) -> Seq<Seq<char>> {
    match entry.text_at("cwd"@) {
        Some(cwd) => seq!["- `"@ + cwd + "`"@],
        None => Seq::empty(),
    }
}

/// The line of a skill.
pub open spec fn skill_line(skill: JsonView) -> Seq<char> {
    "  - "@ + text_or(skill.text_at("name"@), "skill"@) + description_suffix(skill)
}

/// The lines of some skills.
pub open spec fn skill_lines(skills: Seq<JsonView>) -> Seq<Seq<char>>
    decreases skills.len(),
{
    if skills.len() == 0 {
        Seq::empty()
    } else {
        skill_lines(skills.drop_last()).push(skill_line(skills.last()))
    }
}

/// The lines of an entry of a list of skills.
pub open spec fn skill_entry_lines(entry: JsonView) -> Seq<Seq<char>> {
    let skills = entry.items_at("skills"@);
    cwd_line(entry) + skill_lines(shown(skills, 20)) + more_line("  - … "@, skills.len(), 20)
        + list_errors(entry, "errors"@)
}

/// The lines of some entries of a list of skills.
pub open spec fn skill_entries_lines(entries: Seq<JsonView>) -> Seq<Seq<char>>
    decreases entries.len(),
{
    if entries.len() == 0 {
        Seq::empty()
    } else {
        skill_entries_lines(entries.drop_last()) + skill_entry_lines(entries.last())
    }
}

/// What is shown for a list of skills.
pub open spec fn skills_text(response: JsonView) -> Seq<char> {
    let entries = response.items_at("data"@);
    if entries.len() == 0 {
        "Codex skills: no skills returned."@
    } else {
        joined(seq!["Codex skills:"@] + skill_entries_lines(shown(entries, 10)), "\n"@)
    }
}

/// Adds the line of the directory that an entry is for.
fn push_cwd(lines: &mut Vec<String>, entry: &Json)
    ensures
        texts(final(lines)@) == texts(old(lines)@) + cwd_line(entry@),
{
    if let Some(cwd) = entry.text_at("cwd") {
        push_line(lines, concat3("- `", cwd, "`"));
    }
    assert(texts(lines@) =~= texts(old(lines)@) + cwd_line(entry@));
}

/// Adds the lines of an entry of a list of skills.
fn push_skill_entry(lines: &mut Vec<String>, entry: &Json)
    ensures
        texts(final(lines)@) == texts(old(lines)@) + skill_entry_lines(entry@),
{
    let ghost start = texts(lines@);
    push_cwd(lines, entry);
    let skills = entry.items_at("skills");
    let ghost all = ref_views(skills@);
    let ghost before = texts(lines@);
    let count = shown_count(skills.len(), 20);
    let mut i: usize = 0;
    proof {
        take_all(all);
        assert(before + skill_lines(all.take(0)) =~= before);
    }
    while i < count
        invariant
            i <= count <= skills@.len(),
            all == ref_views(skills@),
            texts(lines@) == before + skill_lines(all.take(i as int)),
        decreases count - i,
    {
        proof {
            take_step(all, i as int);
        }
        let skill = skills[i];
        let line = concat3(
            "  - ",
            or_text(skill.text_at("name"), "skill"),
            describe(skill).as_str(),
        );
        push_line(lines, line);
        assert(texts(lines@) =~= before + skill_lines(all.take(i + 1)));
        i = i + 1;
    }
    proof {
        take_all(all);
        assert(all.take(count as int) == shown(all, 20));
    }
    push_more(lines, "  - … ", skills.len(), 20);
    append_list_errors(lines, entry, "errors");
    assert(texts(lines@) =~= start + skill_entry_lines(entry@));
}

/// What is shown for a list of skills.
pub fn format_skills_list(response: &Json) -> (text: String)
    ensures
        text@ == skills_text(response@),
{
    let entries = response.items_at("data");
    let ghost all = ref_views(entries@);
    if entries.len() == 0 {
        return "Codex skills: no skills returned.".to_owned();
    }
    let mut lines = first_line("Codex skills:");
    let ghost head = texts(lines@);
    let count = shown_count(entries.len(), 10);
    let mut i: usize = 0;
    proof {
        take_all(all);
        assert(head + skill_entries_lines(all.take(0)) =~= head);
    }
    while i < count
        invariant
            i <= count <= entries@.len(),
            all == ref_views(entries@),
            texts(lines@) == head + skill_entries_lines(all.take(i as int)),
        decreases count - i,
    {
        proof {
            take_step(all, i as int);
        }
        push_skill_entry(&mut lines, entries[i]);
        assert(texts(lines@) =~= head + skill_entries_lines(all.take(i + 1)));
        i = i + 1;
    }
    proof {
        take_all(all);
        assert(all.take(count as int) == shown(all, 10));
    }
    join(&lines, "\n")
}

// ---------------------------------------------------------------------------
// Hooks
// ---------------------------------------------------------------------------

/// The line of a hook.
pub open spec fn hook_line(hook: JsonView) -> Seq<char> {
    let key = text_or(hook.text_at("key"@), "hook"@);
    let event = text_or(hook.text_at("eventName"@), "event"@);
    let state = word_for(hook.bool_at("enabled"@), "enabled"@, "disabled"@, "unknown"@);
    "  - "@ + key + " ("@ + event + ", "@ + (state + ")"@)
}

/// The lines of some hooks.
pub open spec fn hook_lines(hooks: Seq<JsonView>) -> Seq<Seq<char>>
    decreases hooks.len(),
{
    if hooks.len() == 0 {
        Seq::empty()
    } else {
        hook_lines(hooks.drop_last()).push(hook_line(hooks.last()))
    }
}

/// The lines of an entry of a list of hooks.
pub open spec fn hook_entry_lines(entry: JsonView) -> Seq<Seq<char>> {
    let hooks = entry.items_at("hooks"@);
    cwd_line(entry) + hook_lines(shown(hooks, 20)) + more_line("  - … "@, hooks.len(), 20)
        + list_errors(entry, "warnings"@) + list_errors(entry, "errors"@)
}

/// The lines of some entries of a list of hooks.
pub open spec fn hook_entries_lines(entries: Seq<JsonView>) -> Seq<Seq<char>>
    decreases entries.len(),
{
    if entries.len() == 0 {
        Seq::empty()
    } else {
        hook_entries_lines(entries.drop_last()) + hook_entry_lines(entries.last())
    }
}

/// What is shown for a list of hooks.
pub open spec fn hooks_text(response: JsonView) -> Seq<char> {
    let entries = response.items_at("data"@);
    if entries.len() == 0 {
        "Codex hooks: no hooks returned."@
    } else {
        joined(seq!["Codex hooks:"@] + hook_entries_lines(shown(entries, 10)), "\n"@)
    }
}

/// Adds the lines of an entry of a list of hooks.
fn push_hook_entry(lines: &mut Vec<String>, entry: &Json)
    ensures
        texts(final(lines)@) == texts(old(lines)@) + hook_entry_lines(entry@),
{
    let ghost start = texts(lines@);
    push_cwd(lines, entry);
    let hooks = entry.items_at("hooks");
    let ghost all = ref_views(hooks@);
    let ghost before = texts(lines@);
    let count = shown_count(hooks.len(), 20);
    let mut i: usize = 0;
    proof {
        take_all(all);
        assert(before + hook_lines(all.take(0)) =~= before);
    }
    while i < count
        invariant
            i <= count <= hooks@.len(),
            all == ref_views(hooks@),
            texts(lines@) == before + hook_lines(all.take(i as int)),
        decreases count - i,
    {
        proof {
            take_step(all, i as int);
        }
        let hook = hooks[i];
        let key = or_text(hook.text_at("key"), "hook");
        let event = or_text(hook.text_at("eventName"), "event");
        let state = choose_word(hook.bool_at("enabled"), "enabled", "disabled", "unknown");
        let line = concat6("  - ", key, " (", event, ", ", concat2(state, ")").as_str());
        push_line(lines, line);
        assert(texts(lines@) =~= before + hook_lines(all.take(i + 1)));
        i = i + 1;
    }
    proof {
        take_all(all);
        assert(all.take(count as int) == shown(all, 20));
    }
    push_more(lines, "  - … ", hooks.len(), 20);
    append_list_errors(lines, entry, "warnings");
    append_list_errors(lines, entry, "errors");
    assert(texts(lines@) =~= start + hook_entry_lines(entry@));
}

/// What is shown for a list of hooks.
pub fn format_hooks_list(response: &Json) -> (text: String)
    ensures
        text@ == hooks_text(response@),
{
    let entries = response.items_at("data");
    let ghost all = ref_views(entries@);
    if entries.len() == 0 {
        return "Codex hooks: no hooks returned.".to_owned();
    }
    let mut lines = first_line("Codex hooks:");
    let ghost head = texts(lines@);
    let count = shown_count(entries.len(), 10);
    let mut i: usize = 0;
    proof {
        take_all(all);
        assert(head + hook_entries_lines(all.take(0)) =~= head);
    }
    while i < count
        invariant
            i <= count <= entries@.len(),
            all == ref_views(entries@),
            texts(lines@) == head + hook_entries_lines(all.take(i as int)),
        decreases count - i,
    {
        proof {
            take_step(all, i as int);
        }
        push_hook_entry(&mut lines, entries[i]);
        assert(texts(lines@) =~= head + hook_entries_lines(all.take(i + 1)));
        i = i + 1;
    }
    proof {
        take_all(all);
        assert(all.take(count as int) == shown(all, 10));
    }
    join(&lines, "\n")
}

// ---------------------------------------------------------------------------
// Plugins
// ---------------------------------------------------------------------------

/// The line of a marketplace.
pub open spec fn marketplace_line(marketplace: JsonView) -> Seq<char> {
    let shown_name = text_in(marketplace.get2("interface"@, "displayName"@));
    "- "@ + text_or(either(shown_name, marketplace.text_at("name"@)), "marketplace"@)
}

/// The line of a plugin.
pub open spec fn plugin_line(plugin: JsonView) -> Seq<char> {
    let name = text_or(plugin.text_at("name"@), "plugin"@);
    let id = text_or(plugin.text_at("id"@), name);
    let enabled = word_for(plugin.bool_at("enabled"@), "enabled"@, "disabled"@, "unknown"@);
    let installed = word_for(
        plugin.bool_at("installed"@),
        "installed"@,
        "not installed"@,
        "unknown install state"@,
    );
    "  - "@ + name + " (`"@ + id + "`): "@ + (installed + ", "@ + enabled)
}

/// The lines of some plugins.
pub open spec fn plugin_lines(plugins: Seq<JsonView>) -> Seq<Seq<char>>
    decreases plugins.len(),
{
    if plugins.len() == 0 {
        Seq::empty()
    } else {
        plugin_lines(plugins.drop_last()).push(plugin_line(plugins.last()))
    }
}

/// The lines of a marketplace.
pub open spec fn marketplace_lines(marketplace: JsonView) -> Seq<Seq<char>> {
    let plugins = marketplace.items_at("plugins"@);
    seq![marketplace_line(marketplace)] + plugin_lines(shown(plugins, 20)) + more_line(
        "  - … "@,
        plugins.len(),
        20,
    )
}

/// The lines of some marketplaces.
pub open spec fn all_marketplace_lines(marketplaces: Seq<JsonView>) -> Seq<Seq<char>>
    decreases marketplaces.len(),
{
    if marketplaces.len() == 0 {
        Seq::empty()
    } else {
        all_marketplace_lines(marketplaces.drop_last()) + marketplace_lines(marketplaces.last())
    }
}

/// What is shown for a list of plugins.
pub open spec fn plugins_text(response: JsonView) -> Seq<char> {
    let marketplaces = response.items_at("marketplaces"@);
    if marketplaces.len() == 0 {
        "Codex plugins: no marketplaces returned."@
    } else {
        joined(
            seq!["Codex plugins:"@] + all_marketplace_lines(shown(marketplaces, 10)) + list_errors(
                response,
                "marketplaceLoadErrors"@,
            ),
            "\n"@,
        )
    }
}

/// The line of a marketplace.
fn format_marketplace(marketplace: &Json) -> (line: String)
    ensures
        line@ == marketplace_line(marketplace@),
{
    let name = match read_text(marketplace.get2("interface", "displayName")) {
        Some(name) => Some(name),
        None => marketplace.text_at("name"),
    };
    concat2("- ", or_text(name, "marketplace"))
}

/// Adds the lines of a marketplace.
fn push_marketplace(lines: &mut Vec<String>, marketplace: &Json)
    ensures
        texts(final(lines)@) == texts(old(lines)@) + marketplace_lines(marketplace@),
{
    let ghost start = texts(lines@);
    push_line(lines, format_marketplace(marketplace));
    assert(texts(lines@) =~= start + seq![marketplace_line(marketplace@)]);
    let plugins = marketplace.items_at("plugins");
    let ghost all = ref_views(plugins@);
    let ghost before = texts(lines@);
    let count = shown_count(plugins.len(), 20);
    let mut i: usize = 0;
    proof {
        take_all(all);
        assert(before + plugin_lines(all.take(0)) =~= before);
    }
    while i < count
        invariant
            i <= count <= plugins@.len(),
            all == ref_views(plugins@),
            texts(lines@) == before + plugin_lines(all.take(i as int)),
        decreases count - i,
    {
        proof {
            take_step(all, i as int);
        }
        let plugin = plugins[i];
        let name = or_text(plugin.text_at("name"), "plugin");
        let id = or_text(plugin.text_at("id"), name);
        let enabled = choose_word(plugin.bool_at("enabled"), "enabled", "disabled", "unknown");
        let installed = choose_word(
            plugin.bool_at("installed"),
            "installed",
            "not installed",
            "unknown install state",
        );
        let state = concat3(installed, ", ", enabled);
        let line = concat6("  - ", name, " (`", id, "`): ", state.as_str());
        push_line(lines, line);
        assert(texts(lines@) =~= before + plugin_lines(all.take(i + 1)));
        i = i + 1;
    }
    proof {
        take_all(all);
        assert(all.take(count as int) == shown(all, 20));
    }
    push_more(lines, "  - … ", plugins.len(), 20);
    assert(texts(lines@) =~= start + marketplace_lines(marketplace@));
}

/// What is shown for a list of plugins.
pub fn format_plugin_list(response: &Json) -> (text: String)
    ensures
        text@ == plugins_text(response@),
{
    let marketplaces = response.items_at("marketplaces");
    let ghost all = ref_views(marketplaces@);
    if marketplaces.len() == 0 {
        return "Codex plugins: no marketplaces returned.".to_owned();
    }
    let mut lines = first_line("Codex plugins:");
    let ghost head = texts(lines@);
    let count = shown_count(marketplaces.len(), 10);
    let mut i: usize = 0;
    proof {
        take_all(all);
        assert(head + all_marketplace_lines(all.take(0)) =~= head);
    }
    while i < count
        invariant
            i <= count <= marketplaces@.len(),
            all == ref_views(marketplaces@),
            texts(lines@) == head + all_marketplace_lines(all.take(i as int)),
        decreases count - i,
    {
        proof {
            take_step(all, i as int);
        }
        push_marketplace(&mut lines, marketplaces[i]);
        assert(texts(lines@) =~= head + all_marketplace_lines(all.take(i + 1)));
        i = i + 1;
    }
    proof {
        take_all(all);
        assert(all.take(count as int) == shown(all, 10));
    }
    append_list_errors(&mut lines, response, "marketplaceLoadErrors");
    join(&lines, "\n")
}

// ---------------------------------------------------------------------------
// Servers
// ---------------------------------------------------------------------------

/// The line of a server.
pub open spec fn server_line(server: JsonView) -> Seq<char> {
    let tools = match server.get("tools"@) {
        Some(JsonView::Object(entries)) => entries.len(),
        _ => 0,
    };
    let auth = match server.get("authStatus"@) {
        Some(status) => inline_text(status),
        None => "unknown"@,
    };
    "- "@ + text_or(server.text_at("name"@), "server"@) + ": "@ + decimal(tools)
        + " tool(s), auth "@ + auth
}

/// The lines of some servers.
pub open spec fn server_lines(servers: Seq<JsonView>) -> Seq<Seq<char>>
    decreases servers.len(),
{
    if servers.len() == 0 {
        Seq::empty()
    } else {
        server_lines(servers.drop_last()).push(server_line(servers.last()))
    }
}

/// What is shown for a list of servers.
pub open spec fn servers_text(response: JsonView) -> Seq<char> {
    let servers = response.items_at("data"@);
    if servers.len() == 0 {
        "Codex MCP servers: no servers returned."@
    } else {
        joined(
            seq!["Codex MCP servers:"@] + server_lines(shown(servers, 30)) + more_line(
                "- … "@,
                servers.len(),
                30,
            ),
            "\n"@,
        )
    }
}

/// The line of a server.
fn format_server(server: &Json) -> (line: String)
    ensures
        line@ == server_line(server@),
{
    let tools: usize = match server.get("tools") {
        Some(tools) => match tools.as_object() {
            Some(entries) => entries.len(),
            None => 0,
        },
        None => 0,
    };
    let auth = match server.get("authStatus") {
        Some(status) => value_to_inline_string(status),
        None => "unknown".to_owned(),
    };
    concat6(
        "- ",
        or_text(server.text_at("name"), "server"),
        ": ",
        decimal_text(tools as u64).as_str(),
        " tool(s), auth ",
        auth.as_str(),
    )
}

/// What is shown for a list of servers.
pub fn format_mcp_status_list(response: &Json) -> (text: String)
    ensures
        text@ == servers_text(response@),
{
    let servers = response.items_at("data");
    let ghost all = ref_views(servers@);
    if servers.len() == 0 {
        return "Codex MCP servers: no servers returned.".to_owned();
    }
    let mut lines = first_line("Codex MCP servers:");
    let ghost head = texts(lines@);
    let count = shown_count(servers.len(), 30);
    let mut i: usize = 0;
    proof {
        take_all(all);
        assert(head + server_lines(all.take(0)) =~= head);
    }
    while i < count
        invariant
            i <= count <= servers@.len(),
            all == ref_views(servers@),
            texts(lines@) == head + server_lines(all.take(i as int)),
        decreases count - i,
    {
        proof {
            take_step(all, i as int);
        }
        push_line(&mut lines, format_server(servers[i]));
        assert(texts(lines@) =~= head + server_lines(all.take(i + 1)));
        i = i + 1;
    }
    proof {
        take_all(all);
        assert(all.take(count as int) == shown(all, 30));
    }
    push_more(&mut lines, "- … ", servers.len(), 30);
    join(&lines, "\n")
}

// ---------------------------------------------------------------------------
// Threads
// ---------------------------------------------------------------------------

/// What is shown for a thread that was forked.
pub open spec fn fork_text(response: JsonView) -> Seq<char> {
    let thread = or_null(response.get("thread"@));
    "Forked native Codex thread `"@ + text_or(thread.text_at("id"@), "unknown"@) + "`: "@ + text_or(
        thread.text_at("name"@),
        "Untitled thread"@,
    ) + "\nOpen it from thread history/sidebar."@
}

/// What is shown for a thread that was forked.
pub fn format_thread_fork(response: &Json) -> (text: String)
    ensures
        text@ == fork_text(response@),
{
    let null = Json::Null;
    let thread = match response.get("thread") {
        Some(thread) => thread,
        None => &null,
    };
    concat5(
        "Forked native Codex thread `",
        or_text(thread.text_at("id"), "unknown"),
        "`: ",
        or_text(thread.text_at("name"), "Untitled thread"),
        "\nOpen it from thread history/sidebar.",
    )
}

/// The line of a thread.
pub open spec fn thread_line(thread: JsonView) -> Seq<char> {
    let id = text_or(thread.text_at("id"@), "unknown"@);
    let name = text_or(thread.text_at("name"@), "Untitled thread"@);
    let base = "- "@ + name + " (`"@ + id + "`)"@;
    match thread.text_at("cwd"@) {
        Some(cwd) => if cwd.len() == 0 {
            base
        } else {
            base + " — `"@ + cwd + "`"@
        },
        None => base,
    }
}

/// The lines of some threads.
pub open spec fn thread_lines(threads: Seq<JsonView>) -> Seq<Seq<char>>
    decreases threads.len(),
{
    if threads.len() == 0 {
        Seq::empty()
    } else {
        thread_lines(threads.drop_last()).push(thread_line(threads.last()))
    }
}

/// What is shown for a list of threads.
pub open spec fn history_text(response: JsonView) -> Seq<char> {
    let threads = response.items_at("data"@);
    if threads.len() == 0 {
        "Native Codex history: no threads returned."@
    } else {
        joined(
            seq!["Native Codex history:"@] + thread_lines(shown(threads, 20)) + more_line(
                "- … "@,
                threads.len(),
                20,
            ),
            "\n"@,
        )
    }
}

/// The line of a thread.
fn format_thread(thread: &Json) -> (line: String)
    ensures
        line@ == thread_line(thread@),
{
    let id = or_text(thread.text_at("id"), "unknown");
    let name = or_text(thread.text_at("name"), "Untitled thread");
    let base = concat5("- ", name, " (`", id, "`)");
    if let Some(cwd) = thread.text_at("cwd") {
        if !cwd.is_empty() {
            return concat4(base.as_str(), " — `", cwd, "`");
        }
    }
    base
}

/// What is shown for a list of threads.
pub fn format_thread_history(response: &Json) -> (text: String)
    ensures
        text@ == history_text(response@),
{
    let threads = response.items_at("data");
    let ghost all = ref_views(threads@);
    if threads.len() == 0 {
        return "Native Codex history: no threads returned.".to_owned();
    }
    let mut lines = first_line("Native Codex history:");
    let ghost head = texts(lines@);
    let count = shown_count(threads.len(), 20);
    let mut i: usize = 0;
    proof {
        take_all(all);
        assert(head + thread_lines(all.take(0)) =~= head);
    }
    while i < count
        invariant
            i <= count <= threads@.len(),
            all == ref_views(threads@),
            texts(lines@) == head + thread_lines(all.take(i as int)),
        decreases count - i,
    {
        proof {
            take_step(all, i as int);
        }
        push_line(&mut lines, format_thread(threads[i]));
        assert(texts(lines@) =~= head + thread_lines(all.take(i + 1)));
        i = i + 1;
    }
    proof {
        take_all(all);
        assert(all.take(count as int) == shown(all, 20));
    }
    push_more(&mut lines, "- … ", threads.len(), 20);
    join(&lines, "\n")
}

} // verus!
