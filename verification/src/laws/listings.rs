//! What lists are shown as: a line for each thing that is listed, in order, up to a limit, and
//! how many more there are.

use vstd::prelude::*;

use crate::json::JsonView;
use crate::json_text::inline_text;
use crate::laws::settings::joined_add_up;
use crate::listing::{
    config_lines, config_text, fork_text, history_text, hook_entries_lines, hook_entry_lines,
    hook_lines, hooks_text, marketplace_lines, all_marketplace_lines, model_lines, model_list_text,
    plugin_lines, plugins_text, problem_lines, server_lines, servers_text, skill_entries_lines,
    skill_entry_lines, skill_lines, skills_text, thread_lines,
};
use crate::text::{decimal, is_blank, joined, trimmed};

verus! {

/// How many of some things are listed under a limit.
pub open spec fn within(total: nat, limit: nat) -> nat {
    if total > limit {
        limit
    } else {
        total
    }
}

/// The line that says how many more there are, where there are more than the limit.
pub open spec fn rest_line(head: Seq<char>, total: nat, limit: nat) -> Seq<Seq<char>> {
    if total > limit {
        seq![head + decimal((total - limit) as nat) + " more"@]
    } else {
        Seq::empty()
    }
}

/// What a list adds of the description of a thing, where it has one.
pub open spec fn described(item: JsonView) -> Seq<char> {
    match item.text_at("description"@) {
        Some(text) => if is_blank(text) {
            Seq::empty()
        } else {
            " — "@ + trimmed(text)
        },
        None => Seq::empty(),
    }
}

/// A text that may be missing.
pub open spec fn text_under(item: JsonView, key: Seq<char>, default: Seq<char>) -> Seq<char> {
    match item.get(key) {
        Some(JsonView::Text(text)) => text,
        _ => default,
    }
}

/// A text that stands under one of two keys, or is missing.
pub open spec fn text_under_either(
    item: JsonView,
    key: Seq<char>,
    other: Seq<char>,
    default: Seq<char>,
) -> Seq<char> {
    if item.get(key) is Some {
        text_under(item, key, default)
    } else {
        text_under(item, other, default)
    }
}

/// The line of a model: its name, its id, whether it is the default, and its description.
pub open spec fn line_of_model(model: JsonView) -> Seq<char> {
    let id = text_under_either(model, "model"@, "id"@, "unknown"@);
    let mark = if model.get("isDefault"@) == Some(JsonView::Bool(true)) {
        " (default)"@
    } else {
        Seq::empty()
    };
    "- "@ + text_under_either(model, "displayName"@, "name"@, id) + " (`"@ + id + "`)"@ + mark
        + described(model)
}

/// The line of a server: its name, how many tools it has, and how it is authorized.
pub open spec fn line_of_server(server: JsonView) -> Seq<char> {
    let tools = match server.get("tools"@) {
        Some(JsonView::Object(tools)) => tools.len(),
        _ => 0,
    };
    let auth = match server.get("authStatus"@) {
        Some(status) => inline_text(status),
        None => "unknown"@,
    };
    "- "@ + text_under(server, "name"@, "server"@) + ": "@ + decimal(tools) + " tool(s), auth "@
        + auth
}

/// The line of a thread: its name, its id, and the directory that it works in.
pub open spec fn line_of_thread(thread: JsonView) -> Seq<char> {
    let head = "- "@ + text_under(thread, "name"@, "Untitled thread"@) + " (`"@ + text_under(
        thread,
        "id"@,
        "unknown"@,
    ) + "`)"@;
    let cwd = text_under(thread, "cwd"@, Seq::empty());
    if cwd.len() == 0 {
        head
    } else {
        head + " — `"@ + cwd + "`"@
    }
}

/// The line of a skill: its name and its description.
pub open spec fn line_of_skill(skill: JsonView) -> Seq<char> {
    "  - "@ + text_under(skill, "name"@, "skill"@) + described(skill)
}

/// The word for a state that may be missing.
pub open spec fn state_word(
    item: JsonView,
    key: Seq<char>,
    yes: Seq<char>,
    no: Seq<char>,
    unknown: Seq<char>,
) -> Seq<char> {
    if item.get(key) == Some(JsonView::Bool(true)) {
        yes
    } else if item.get(key) == Some(JsonView::Bool(false)) {
        no
    } else {
        unknown
    }
}

/// The line of a hook: its key, the event that it is for, and whether it is enabled.
pub open spec fn line_of_hook(hook: JsonView) -> Seq<char> {
    "  - "@ + text_under(hook, "key"@, "hook"@) + " ("@ + text_under(
        hook,
        "eventName"@,
        "event"@,
    ) + ", "@ + state_word(hook, "enabled"@, "enabled"@, "disabled"@, "unknown"@) + ")"@
}

/// The line of a plugin: its name, its id, whether it is installed and whether it is enabled.
pub open spec fn line_of_plugin(plugin: JsonView) -> Seq<char> {
    let name = text_under(plugin, "name"@, "plugin"@);
    "  - "@ + name + " (`"@ + text_under(plugin, "id"@, name) + "`): "@ + state_word(
        plugin,
        "installed"@,
        "installed"@,
        "not installed"@,
        "unknown install state"@,
    ) + ", "@ + state_word(plugin, "enabled"@, "enabled"@, "disabled"@, "unknown"@)
}

/// Models are listed line by line, with how many more there are, and with where one is chosen.
pub proof fn models_are_listed(response: JsonView, models: Seq<JsonView>)
    requires
        response.get("data"@) == Some(JsonView::Array(models)),
    ensures
        models.len() == 0 ==> model_list_text(response) == "Codex models: no models returned."@,
        models.len() > 0 ==> model_list_text(response) == joined(
            (seq!["Codex models:"@] + Seq::new(
                within(models.len(), 30),
                |i: int| line_of_model(models[i]),
            ) + rest_line("- … "@, models.len(), 30)).push(
                "Use the model selector to choose the model for future turns in this thread."@,
            ),
            "\n"@,
        ),
{
    let part = crate::listing::shown(models, 30);
    model_lines_are_lines(part);
    assert(model_lines(part) =~= Seq::new(
        within(models.len(), 30),
        |i: int| line_of_model(models[i]),
    ));
}

proof fn model_lines_are_lines(models: Seq<JsonView>)
    ensures
        model_lines(models) == Seq::new(models.len(), |i: int| line_of_model(models[i])),
    decreases models.len(),
{
    reveal_strlit("");
    assert(""@ =~= Seq::<char>::empty());
    if models.len() > 0 {
        model_lines_are_lines(models.drop_last());
        let last = models.last();
        let id = text_under_either(last, "model"@, "id"@, "unknown"@);
        let head = "- "@ + text_under_either(last, "displayName"@, "name"@, id) + " (`"@ + id
            + "`)"@;
        let mark = if last.get("isDefault"@) == Some(JsonView::Bool(true)) {
            " (default)"@
        } else {
            Seq::empty()
        };
        assert(head + (mark + described(last)) =~= head + mark + described(last));
        assert(crate::listing::model_line(last) == line_of_model(last));
    }
    assert(model_lines(models) =~= Seq::new(models.len(), |i: int| line_of_model(models[i])));
}

/// Servers are listed line by line, with how many more there are.
pub proof fn servers_are_listed(response: JsonView, servers: Seq<JsonView>)
    requires
        response.get("data"@) == Some(JsonView::Array(servers)),
    ensures
        servers.len() == 0 ==> servers_text(response) == "Codex MCP servers: no servers returned."@,
        servers.len() > 0 ==> servers_text(response) == joined(
            seq!["Codex MCP servers:"@] + Seq::new(
                within(servers.len(), 30),
                |i: int| line_of_server(servers[i]),
            ) + rest_line("- … "@, servers.len(), 30),
            "\n"@,
        ),
{
    let part = crate::listing::shown(servers, 30);
    server_lines_are_lines(part);
    assert(server_lines(part) =~= Seq::new(
        within(servers.len(), 30),
        |i: int| line_of_server(servers[i]),
    ));
}

proof fn server_lines_are_lines(servers: Seq<JsonView>)
    ensures
        server_lines(servers) == Seq::new(servers.len(), |i: int| line_of_server(servers[i])),
    decreases servers.len(),
{
    if servers.len() > 0 {
        server_lines_are_lines(servers.drop_last());
        assert(crate::listing::server_line(servers.last()) == line_of_server(servers.last()));
    }
    assert(server_lines(servers) =~= Seq::new(
        servers.len(),
        |i: int| line_of_server(servers[i]),
    ));
}

/// Threads are listed line by line, with how many more there are.
pub proof fn threads_are_listed(response: JsonView, threads: Seq<JsonView>)
    requires
        response.get("data"@) == Some(JsonView::Array(threads)),
    ensures
        threads.len() == 0 ==> history_text(response)
            == "Native Codex history: no threads returned."@,
        threads.len() > 0 ==> history_text(response) == joined(
            seq!["Native Codex history:"@] + Seq::new(
                within(threads.len(), 20),
                |i: int| line_of_thread(threads[i]),
            ) + rest_line("- … "@, threads.len(), 20),
            "\n"@,
        ),
{
    let part = crate::listing::shown(threads, 20);
    thread_lines_are_lines(part);
    assert(thread_lines(part) =~= Seq::new(
        within(threads.len(), 20),
        |i: int| line_of_thread(threads[i]),
    ));
}

proof fn thread_lines_are_lines(threads: Seq<JsonView>)
    ensures
        thread_lines(threads) == Seq::new(threads.len(), |i: int| line_of_thread(threads[i])),
    decreases threads.len(),
{
    if threads.len() > 0 {
        thread_lines_are_lines(threads.drop_last());
        assert(crate::listing::thread_line(threads.last()) == line_of_thread(threads.last()));
    }
    assert(thread_lines(threads) =~= Seq::new(
        threads.len(),
        |i: int| line_of_thread(threads[i]),
    ));
}

/// A fork is told by the id and the name of the thread that came of it.
pub proof fn forks_are_told(response: JsonView, thread: JsonView)
    requires
        response.get("thread"@) == Some(thread),
    ensures
        fork_text(response) == "Forked native Codex thread `"@ + text_under(
            thread,
            "id"@,
            "unknown"@,
        ) + "`: "@ + text_under(
            thread,
            "name"@,
            "Untitled thread"@,
        ) + "\nOpen it from thread history/sidebar."@,
{
}

/// The values of a configuration are listed line by line, those that are null left out.
pub proof fn values_are_listed(
    response: JsonView,
    entries: Seq<(Seq<char>, JsonView)>,
    shorter: JsonView,
)
    requires
        response.get("config"@) == Some(JsonView::Object(entries)),
    ensures
        (forall|i: int| 0 <= i < entries.len() ==> (#[trigger] entries[i]).1 !is Null)
            && entries.len() > 0 ==> config_text(response) == joined(
            seq!["Codex configuration:"@] + Seq::new(
                within(entries.len(), 30),
                |i: int| "- `"@ + entries[i].0 + "`: "@ + inline_text(entries[i].1),
            ),
            "\n"@,
        ),
        (forall|i: int| 0 <= i < entries.len() ==> (#[trigger] entries[i]).1 is Null)
            ==> config_text(response) == joined(
            seq!["Codex configuration:"@, "- No non-null config values returned."@],
            "\n"@,
        ),
        entries.len() > 0 && entries.last().1 is Null && shorter.get("config"@) == Some(
            JsonView::Object(entries.drop_last()),
        ) ==> config_text(response) == config_text(shorter),
{
    if forall|i: int| 0 <= i < entries.len() ==> (#[trigger] entries[i]).1 !is Null {
        config_lines_are_lines(entries);
    }
    if forall|i: int| 0 <= i < entries.len() ==> (#[trigger] entries[i]).1 is Null {
        nulls_have_no_lines(entries);
        assert(seq!["Codex configuration:"@] + seq!["- No non-null config values returned."@]
            =~= seq!["Codex configuration:"@, "- No non-null config values returned."@]);
    }
}

proof fn config_lines_are_lines(entries: Seq<(Seq<char>, JsonView)>)
    requires
        forall|i: int| 0 <= i < entries.len() ==> (#[trigger] entries[i]).1 !is Null,
    ensures
        config_lines(entries, 30) == Seq::new(
            within(entries.len(), 30),
            |i: int| "- `"@ + entries[i].0 + "`: "@ + inline_text(entries[i].1),
        ),
    decreases entries.len(),
{
    if entries.len() > 0 {
        let init = entries.drop_last();
        assert(forall|i: int| 0 <= i < init.len() ==> #[trigger] init[i] == entries[i]);
        config_lines_are_lines(init);
        assert(entries[entries.len() - 1].1 !is Null);
    }
    assert(config_lines(entries, 30) =~= Seq::new(
        within(entries.len(), 30),
        |i: int| "- `"@ + entries[i].0 + "`: "@ + inline_text(entries[i].1),
    ));
}

proof fn nulls_have_no_lines(entries: Seq<(Seq<char>, JsonView)>)
    requires
        forall|i: int| 0 <= i < entries.len() ==> (#[trigger] entries[i]).1 is Null,
    ensures
        config_lines(entries, 30).len() == 0,
    decreases entries.len(),
{
    if entries.len() > 0 {
        let init = entries.drop_last();
        assert(forall|i: int| 0 <= i < init.len() ==> #[trigger] init[i] == entries[i]);
        nulls_have_no_lines(init);
        assert(entries[entries.len() - 1].1 is Null);
    }
}

/// The line of a directory, where one is named.
pub open spec fn directory_line(entry: JsonView) -> Seq<Seq<char>> {
    match entry.get("cwd"@) {
        Some(JsonView::Text(cwd)) => seq!["- `"@ + cwd + "`"@],
        _ => Seq::empty(),
    }
}

/// The lines of problems: what each says, and how many more there are.
pub open spec fn lines_of_problems(entry: JsonView, key: Seq<char>) -> Seq<Seq<char>> {
    let problems = entry.items_at(key);
    Seq::new(
        within(problems.len(), 5),
        |i: int| "  - "@ + key + ": "@ + inline_text(problems[i]),
    ) + rest_line("  - "@ + key + ": … "@, problems.len(), 5)
}

/// The lines of the skills of a directory.
pub open spec fn lines_of_skills(entry: JsonView) -> Seq<Seq<char>> {
    let skills = entry.items_at("skills"@);
    directory_line(entry) + Seq::new(
        within(skills.len(), 20),
        |i: int| line_of_skill(skills[i]),
    ) + rest_line("  - … "@, skills.len(), 20) + lines_of_problems(entry, "errors"@)
}

/// The lines of the hooks of a directory.
pub open spec fn lines_of_hooks(entry: JsonView) -> Seq<Seq<char>> {
    let hooks = entry.items_at("hooks"@);
    directory_line(entry) + Seq::new(
        within(hooks.len(), 20),
        |i: int| line_of_hook(hooks[i]),
    ) + rest_line("  - … "@, hooks.len(), 20) + lines_of_problems(entry, "warnings"@)
        + lines_of_problems(entry, "errors"@)
}

/// The lines of the plugins of a marketplace.
pub open spec fn lines_of_marketplace(marketplace: JsonView) -> Seq<Seq<char>> {
    let plugins = marketplace.items_at("plugins"@);
    let name = match marketplace.get2("interface"@, "displayName"@) {
        Some(JsonView::Text(name)) => name,
        _ => text_under(marketplace, "name"@, "marketplace"@),
    };
    seq!["- "@ + name] + Seq::new(
        within(plugins.len(), 20),
        |i: int| line_of_plugin(plugins[i]),
    ) + rest_line("  - … "@, plugins.len(), 20)
}

/// Skills are listed directory by directory: those of the first directory alone, and those of
/// each further one behind what was listed before, up to the limit.
pub proof fn skills_are_listed(
    response: JsonView,
    shorter: JsonView,
    entries: Seq<JsonView>,
    entry: JsonView,
)
    requires
        response.get("data"@) == Some(JsonView::Array(entries.push(entry))),
        shorter.get("data"@) == Some(JsonView::Array(entries)),
    ensures
        entries.len() == 0 ==> skills_text(shorter) == "Codex skills: no skills returned."@,
        entries.len() == 0 ==> skills_text(response) == joined(
            seq!["Codex skills:"@] + lines_of_skills(entry),
            "\n"@,
        ),
        1 <= entries.len() < 10 ==> skills_text(response) == (if lines_of_skills(entry).len()
            == 0 {
            skills_text(shorter)
        } else {
            skills_text(shorter) + "\n"@ + joined(lines_of_skills(entry), "\n"@)
        }),
        entries.len() >= 10 ==> skills_text(response) == skills_text(shorter),
{
    let all = entries.push(entry);
    assert(all.drop_last() =~= entries);
    skill_entries_are_lines(entry);
    if entries.len() == 0 {
        reveal_with_fuel(skill_entries_lines, 2);
        assert(skill_entries_lines(all) =~= lines_of_skills(entry));
    } else if entries.len() < 10 {
        sections_are_joined(
            seq!["Codex skills:"@] + skill_entries_lines(entries),
            lines_of_skills(entry),
        );
        assert(seq!["Codex skills:"@] + skill_entries_lines(all) =~= (seq!["Codex skills:"@]
            + skill_entries_lines(entries)) + lines_of_skills(entry));
    } else {
        assert(all.take(10) =~= crate::listing::shown(entries, 10));
    }
}

proof fn skill_entries_are_lines(entry: JsonView)
    ensures
        skill_entry_lines(entry) == lines_of_skills(entry),
{
    let skills = entry.items_at("skills"@);
    let part = crate::listing::shown(skills, 20);
    skill_lines_are_lines(part);
    problems_are_lines(entry, "errors"@);
    assert(skill_lines(part) =~= Seq::new(
        within(skills.len(), 20),
        |i: int| line_of_skill(skills[i]),
    ));
}

proof fn skill_lines_are_lines(skills: Seq<JsonView>)
    ensures
        skill_lines(skills) == Seq::new(skills.len(), |i: int| line_of_skill(skills[i])),
    decreases skills.len(),
{
    reveal_strlit("");
    assert(""@ =~= Seq::<char>::empty());
    if skills.len() > 0 {
        skill_lines_are_lines(skills.drop_last());
        assert(crate::listing::skill_line(skills.last()) == line_of_skill(skills.last()));
    }
    assert(skill_lines(skills) =~= Seq::new(skills.len(), |i: int| line_of_skill(skills[i])));
}

proof fn problems_are_lines(entry: JsonView, key: Seq<char>)
    ensures
        crate::listing::list_errors(entry, key) == lines_of_problems(entry, key),
{
    let problems = entry.items_at(key);
    let part = crate::listing::shown(problems, 5);
    problem_lines_are_lines(key, part);
    assert(problem_lines(key, part) =~= Seq::new(
        within(problems.len(), 5),
        |i: int| "  - "@ + key + ": "@ + inline_text(problems[i]),
    ));
}

proof fn problem_lines_are_lines(key: Seq<char>, problems: Seq<JsonView>)
    ensures
        problem_lines(key, problems) == Seq::new(
            problems.len(),
            |i: int| "  - "@ + key + ": "@ + inline_text(problems[i]),
        ),
    decreases problems.len(),
{
    if problems.len() > 0 {
        problem_lines_are_lines(key, problems.drop_last());
    }
    assert(problem_lines(key, problems) =~= Seq::new(
        problems.len(),
        |i: int| "  - "@ + key + ": "@ + inline_text(problems[i]),
    ));
}

proof fn sections_are_joined(before: Seq<Seq<char>>, section: Seq<Seq<char>>)
    requires
        before.len() > 0,
    ensures
        joined(before + section, "\n"@) == (if section.len() == 0 {
            joined(before, "\n"@)
        } else {
            joined(before, "\n"@) + "\n"@ + joined(section, "\n"@)
        }),
{
    if section.len() == 0 {
        assert(before + section =~= before);
    } else {
        joined_add_up(before, section, "\n"@);
    }
}

/// Hooks are listed directory by directory: those of the first directory alone, and those of
/// each further one behind what was listed before, up to the limit.
pub proof fn hooks_are_listed(
    response: JsonView,
    shorter: JsonView,
    entries: Seq<JsonView>,
    entry: JsonView,
)
    requires
        response.get("data"@) == Some(JsonView::Array(entries.push(entry))),
        shorter.get("data"@) == Some(JsonView::Array(entries)),
    ensures
        entries.len() == 0 ==> hooks_text(shorter) == "Codex hooks: no hooks returned."@,
        entries.len() == 0 ==> hooks_text(response) == joined(
            seq!["Codex hooks:"@] + lines_of_hooks(entry),
            "\n"@,
        ),
        1 <= entries.len() < 10 ==> hooks_text(response) == (if lines_of_hooks(entry).len() == 0 {
            hooks_text(shorter)
        } else {
            hooks_text(shorter) + "\n"@ + joined(lines_of_hooks(entry), "\n"@)
        }),
        entries.len() >= 10 ==> hooks_text(response) == hooks_text(shorter),
{
    let all = entries.push(entry);
    assert(all.drop_last() =~= entries);
    hook_entries_are_lines(entry);
    if entries.len() == 0 {
        reveal_with_fuel(hook_entries_lines, 2);
        assert(hook_entries_lines(all) =~= lines_of_hooks(entry));
    } else if entries.len() < 10 {
        sections_are_joined(
            seq!["Codex hooks:"@] + hook_entries_lines(entries),
            lines_of_hooks(entry),
        );
        assert(seq!["Codex hooks:"@] + hook_entries_lines(all) =~= (seq!["Codex hooks:"@]
            + hook_entries_lines(entries)) + lines_of_hooks(entry));
    } else {
        assert(all.take(10) =~= crate::listing::shown(entries, 10));
    }
}

proof fn hook_entries_are_lines(entry: JsonView)
    ensures
        hook_entry_lines(entry) == lines_of_hooks(entry),
{
    let hooks = entry.items_at("hooks"@);
    let part = crate::listing::shown(hooks, 20);
    hook_lines_are_lines(part);
    problems_are_lines(entry, "warnings"@);
    problems_are_lines(entry, "errors"@);
    assert(hook_lines(part) =~= Seq::new(
        within(hooks.len(), 20),
        |i: int| line_of_hook(hooks[i]),
    ));
}

proof fn hook_lines_are_lines(hooks: Seq<JsonView>)
    ensures
        hook_lines(hooks) == Seq::new(hooks.len(), |i: int| line_of_hook(hooks[i])),
    decreases hooks.len(),
{
    if hooks.len() > 0 {
        hook_lines_are_lines(hooks.drop_last());
        let last = hooks.last();
        let head = "  - "@ + text_under(last, "key"@, "hook"@) + " ("@ + text_under(
            last,
            "eventName"@,
            "event"@,
        ) + ", "@;
        let state = state_word(last, "enabled"@, "enabled"@, "disabled"@, "unknown"@);
        assert(head + (state + ")"@) =~= head + state + ")"@);
        assert(crate::listing::hook_line(last) == line_of_hook(last));
    }
    assert(hook_lines(hooks) =~= Seq::new(hooks.len(), |i: int| line_of_hook(hooks[i])));
}

/// Plugins are listed marketplace by marketplace, up to the limit, with the problems that came
/// up behind them all.
pub proof fn plugins_are_listed(
    response: JsonView,
    shorter: JsonView,
    marketplaces: Seq<JsonView>,
    marketplace: JsonView,
)
    requires
        response.get("marketplaces"@) == Some(JsonView::Array(marketplaces.push(marketplace))),
        shorter.get("marketplaces"@) == Some(JsonView::Array(marketplaces)),
        shorter.items_at("marketplaceLoadErrors"@).len() == 0,
    ensures
        marketplaces.len() == 0 ==> plugins_text(shorter)
            == "Codex plugins: no marketplaces returned."@,
        marketplaces.len() == 0 ==> plugins_text(response) == joined(
            seq!["Codex plugins:"@] + lines_of_marketplace(marketplace) + lines_of_problems(
                response,
                "marketplaceLoadErrors"@,
            ),
            "\n"@,
        ),
        1 <= marketplaces.len() < 10 ==> plugins_text(response) == plugins_text(shorter) + "\n"@
            + joined(
            lines_of_marketplace(marketplace) + lines_of_problems(
                response,
                "marketplaceLoadErrors"@,
            ),
            "\n"@,
        ),
        marketplaces.len() >= 10 && response.items_at("marketplaceLoadErrors"@).len() == 0
            ==> plugins_text(response) == plugins_text(shorter),
{
    let all = marketplaces.push(marketplace);
    assert(all.drop_last() =~= marketplaces);
    marketplaces_are_lines(marketplace);
    problems_are_lines(response, "marketplaceLoadErrors"@);
    problems_are_lines(shorter, "marketplaceLoadErrors"@);
    let head = seq!["Codex plugins:"@];
    let errors = lines_of_problems(response, "marketplaceLoadErrors"@);
    assert(lines_of_problems(shorter, "marketplaceLoadErrors"@) =~= Seq::<Seq<char>>::empty());
    if marketplaces.len() == 0 {
        reveal_with_fuel(all_marketplace_lines, 2);
        assert(all_marketplace_lines(all) =~= lines_of_marketplace(marketplace));
    } else if marketplaces.len() < 10 {
        let before = head + all_marketplace_lines(marketplaces);
        let section = lines_of_marketplace(marketplace) + errors;
        sections_are_joined(before, section);
        assert(head + all_marketplace_lines(all) + errors =~= before + section);
        assert(before + Seq::<Seq<char>>::empty() =~= before);
    } else {
        assert(all.take(10) =~= crate::listing::shown(marketplaces, 10));
        if response.items_at("marketplaceLoadErrors"@).len() == 0 {
            assert(errors =~= Seq::<Seq<char>>::empty());
        }
    }
}

proof fn marketplaces_are_lines(marketplace: JsonView)
    ensures
        marketplace_lines(marketplace) == lines_of_marketplace(marketplace),
{
    let plugins = marketplace.items_at("plugins"@);
    let part = crate::listing::shown(plugins, 20);
    plugin_lines_are_lines(part);
    assert(plugin_lines(part) =~= Seq::new(
        within(plugins.len(), 20),
        |i: int| line_of_plugin(plugins[i]),
    ));
}

proof fn plugin_lines_are_lines(plugins: Seq<JsonView>)
    ensures
        plugin_lines(plugins) == Seq::new(plugins.len(), |i: int| line_of_plugin(plugins[i])),
    decreases plugins.len(),
{
    if plugins.len() > 0 {
        plugin_lines_are_lines(plugins.drop_last());
        let last = plugins.last();
        let name = text_under(last, "name"@, "plugin"@);
        let head = "  - "@ + name + " (`"@ + text_under(last, "id"@, name) + "`): "@;
        let installed = state_word(
            last,
            "installed"@,
            "installed"@,
            "not installed"@,
            "unknown install state"@,
        );
        let enabled = state_word(last, "enabled"@, "enabled"@, "disabled"@, "unknown"@);
        assert(head + (installed + ", "@ + enabled) =~= head + installed + ", "@ + enabled);
        assert(crate::listing::plugin_line(last) == line_of_plugin(last));
    }
    assert(plugin_lines(plugins) =~= Seq::new(
        plugins.len(),
        |i: int| line_of_plugin(plugins[i]),
    ));
}

} // verus!
