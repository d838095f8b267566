//! Settings that are brought up to date: agents that were set up under the ids of an
//! older registry.
//!
//! Codex has its ids here. Those of other agents are given, each as the older id and the
//! one that has taken its place.

use vstd::prelude::*;

use crate::json::{
    entry_views, entry_views_push, find_entry, found_in_more, key_index, Json, JsonView,
};
use crate::text::{either, same_text, take_all, take_step};

verus! {

/// The key under which agents are set up.
pub const AGENT_SERVERS_KEY: &'static str = "agent_servers";

/// The id of Codex in the older registry.
pub const LEGACY_CODEX_REGISTRY_KEY: &'static str = "codex-acp";

/// The id of Codex.
pub const CODEX_REGISTRY_KEY: &'static str = "codex";

/// The older and the new id of some agents.
pub open spec fn mapping_views(mappings: Seq<(String, String)>) -> Seq<(Seq<char>, Seq<char>)> {
    Seq::new(mappings.len(), |i: int| (mappings[i].0@, mappings[i].1@))
}

/// The older and the new id of every agent: those of some agents, and those of Codex.
pub open spec fn with_codex(others: Seq<(Seq<char>, Seq<char>)>) -> Seq<(Seq<char>, Seq<char>)> {
    others.push((LEGACY_CODEX_REGISTRY_KEY@, CODEX_REGISTRY_KEY@))
}

/// The entries without the one that has a key; the last entry takes its place.
pub open spec fn taken_out(
    entries: Seq<(Seq<char>, JsonView)>,
    key: Seq<char>,
) -> Seq<(Seq<char>, JsonView)> {
    match key_index(entries, key) {
        Some(i) => entries.update(i, entries.last()).drop_last(),
        None => entries,
    }
}

/// The entries with an older id replaced: what was set under it is now set under the
/// new id, unless something is set there already.
pub open spec fn renamed(
    entries: Seq<(Seq<char>, JsonView)>,
    legacy: Seq<char>,
    current: Seq<char>,
) -> Seq<(Seq<char>, JsonView)> {
    if key_index(entries, current) is Some {
        taken_out(entries, legacy)
    } else {
        match key_index(entries, legacy) {
            Some(i) => taken_out(entries, legacy).push((current, entries[i].1)),
            None => entries,
        }
    }
}

/// The agents with some older ids replaced, one after the other.
pub open spec fn all_renamed(
    servers: Seq<(Seq<char>, JsonView)>,
    mappings: Seq<(Seq<char>, Seq<char>)>,
) -> Seq<(Seq<char>, JsonView)>
    decreases mappings.len(),
{
    if mappings.len() == 0 {
        servers
    } else {
        renamed(all_renamed(servers, mappings.drop_last()), mappings.last().0, mappings.last().1)
    }
}

/// Settings with the agents in them brought up to date.
pub open spec fn current_settings(
    settings: Seq<(Seq<char>, JsonView)>,
    mappings: Seq<(Seq<char>, Seq<char>)>,
) -> Seq<(Seq<char>, JsonView)> {
    match key_index(settings, AGENT_SERVERS_KEY@) {
        Some(i) => match settings[i].1 {
            JsonView::Object(servers) => settings.update(
                i,
                (settings[i].0, JsonView::Object(all_renamed(servers, mappings))),
            ),
            _ => settings,
        },
        None => settings,
    }
}

/// A value with the agents in it brought up to date, where it is an object.
pub open spec fn current_value(
    value: JsonView,
    mappings: Seq<(Seq<char>, Seq<char>)>,
) -> JsonView {
    match value {
        JsonView::Object(settings) => JsonView::Object(current_settings(settings, mappings)),
        _ => value,
    }
}

/// What is known of the index of the last entry with a key.
proof fn key_index_is_last(entries: Seq<(Seq<char>, JsonView)>, key: Seq<char>)
    ensures
        match key_index(entries, key) {
            Some(i) => {
                &&& 0 <= i < entries.len()
                &&& entries[i].0 == key
                &&& find_entry(entries, key) == Some(entries[i].1)
                &&& forall|j: int| i < j < entries.len() ==> (#[trigger] entries[j]).0 != key
            },
            None => {
                &&& find_entry(entries, key) is None
                &&& forall|j: int| 0 <= j < entries.len() ==> (#[trigger] entries[j]).0 != key
            },
        },
    decreases entries.len(),
{
    if entries.len() > 0 {
        let init = entries.drop_last();
        key_index_is_last(init, key);
        assert forall|j: int| 0 <= j < entries.len() - 1 implies #[trigger] entries[j] == init[j] by {}
        assert(entries.last() == entries[entries.len() - 1]);
    }
}

/// Finds the last entry with a key.
fn find_key(entries: &Vec<(String, Json)>, key: &str) -> (found: Option<usize>)
    ensures
        match found {
            Some(i) => i < entries@.len() && key_index(entry_views(entries@), key@) == Some(
                i as int,
            ),
            None => key_index(entry_views(entries@), key@) is None,
        },
{
    let ghost all = entry_views(entries@);
    let mut i: usize = entries.len();
    proof {
        take_all(all);
    }
    while i > 0
        invariant
            i <= entries@.len(),
            all == entry_views(entries@),
            key_index(all, key@) == key_index(all.take(i as int), key@),
        decreases i,
    {
        proof {
            take_step(all, i - 1);
        }
        if same_text(entries[i - 1].0.as_str(), key) {
            return Some(i - 1);
        }
        i = i - 1;
    }
    None
}

/// Takes the entry out that has a key.
fn take_out(entries: &mut Vec<(String, Json)>, key: &str) -> (value: Option<Json>)
    ensures
        entry_views(final(entries)@) == taken_out(entry_views(old(entries)@), key@),
        match value {
            Some(value) => find_entry(entry_views(old(entries)@), key@) == Some(value@),
            None => find_entry(entry_views(old(entries)@), key@) is None,
        },
{
    let ghost all = entry_views(entries@);
    proof {
        key_index_is_last(all, key@);
    }
    match find_key(entries, key) {
        Some(i) => {
            let (_, value) = entries.swap_remove(i);
            assert(entry_views(entries@) =~= all.update(i as int, all.last()).drop_last());
            Some(value)
        },
        None => None,
    }
}

/// Replaces an older id.
fn rename(entries: &mut Vec<(String, Json)>, legacy: &str, current: &str)
    ensures
        entry_views(final(entries)@) == renamed(entry_views(old(entries)@), legacy@, current@),
{
    broadcast use entry_views_push;

    let ghost all = entry_views(entries@);
    proof {
        key_index_is_last(all, legacy@);
    }
    if find_key(entries, current).is_some() {
        let _dropped = take_out(entries, legacy);
    } else {
        if let Some(value) = take_out(entries, legacy) {
            entries.push((current.to_owned(), value));
        }
    }
}

/// Replaces the older ids of some agents, and that of Codex.
fn rename_all(entries: &mut Vec<(String, Json)>, others: &Vec<(String, String)>)
    ensures
        entry_views(final(entries)@) == all_renamed(
            entry_views(old(entries)@),
            with_codex(mapping_views(others@)),
        ),
{
    let ghost before = entry_views(entries@);
    let ghost all = mapping_views(others@);
    let mut i: usize = 0;
    proof {
        take_all(all);
    }
    while i < others.len()
        invariant
            i <= others@.len(),
            all == mapping_views(others@),
            entry_views(entries@) == all_renamed(before, all.take(i as int)),
        decreases others@.len() - i,
    {
        proof {
            take_step(all, i as int);
        }
        rename(entries, others[i].0.as_str(), others[i].1.as_str());
        i = i + 1;
    }
    proof {
        take_all(all);
        assert(with_codex(all).drop_last() =~= all);
    }
    rename(entries, LEGACY_CODEX_REGISTRY_KEY, CODEX_REGISTRY_KEY);
}

/// Brings the agents in some settings up to date.
pub fn migrate_one(settings: &mut Vec<(String, Json)>, others: &Vec<(String, String)>)
    ensures
        entry_views(final(settings)@) == current_settings(
            entry_views(old(settings)@),
            with_codex(mapping_views(others@)),
        ),
{
    let ghost all = entry_views(settings@);
    let i = match find_key(settings, AGENT_SERVERS_KEY) {
        Some(i) => i,
        None => return ,
    };
    let (key, value) = settings.remove(i);
    let value = match value {
        Json::Object(servers) => {
            let mut servers = servers;
            rename_all(&mut servers, others);
            Json::Object(servers)
        },
        other => other,
    };
    settings.insert(i, (key, value));
    assert(entry_views(settings@) =~= current_settings(
        all,
        with_codex(mapping_views(others@)),
    ));
}

/// Brings the agents in a value up to date, where it is an object.
pub fn migrate_legacy_agent_registry_ids(value: &mut Json, others: &Vec<(String, String)>)
    ensures
        final(value)@ == current_value(old(value)@, with_codex(mapping_views(others@))),
{
    let mut taken = Json::Null;
    std::mem::swap(&mut taken, value);
    match taken {
        Json::Object(settings) => {
            let mut settings = settings;
            migrate_one(&mut settings, others);
            *value = Json::Object(settings);
        },
        other => {
            *value = other;
        },
    }
}

// ---------------------------------------------------------------------------
// What holds of settings that are up to date
// ---------------------------------------------------------------------------

/// That no key occurs twice.
pub open spec fn distinct(entries: Seq<(Seq<char>, JsonView)>) -> bool {
    forall|i: int, j: int|
        0 <= i < j < entries.len() ==> (#[trigger] entries[i]).0 != (#[trigger] entries[j]).0
}

/// Where an entry stands, that is found in it.
proof fn distinct_entries_are_found(entries: Seq<(Seq<char>, JsonView)>, i: int)
    requires
        distinct(entries),
        0 <= i < entries.len(),
    ensures
        find_entry(entries, entries[i].0) == Some(entries[i].1),
{
    key_index_is_last(entries, entries[i].0);
    let j = key_index(entries, entries[i].0)->0;
    if i < j {
        assert(entries[i].0 != entries[j].0);
    } else if j < i {
        assert(entries[j].0 != entries[i].0);
    }
}

/// Taking an entry out takes nothing else out.
proof fn taking_out_keeps_the_rest(
    entries: Seq<(Seq<char>, JsonView)>,
    key: Seq<char>,
    other: Seq<char>,
)
    requires
        distinct(entries),
    ensures
        distinct(taken_out(entries, key)),
        find_entry(taken_out(entries, key), key) is None,
        other != key ==> find_entry(taken_out(entries, key), other) == find_entry(entries, other),
{
    let after = taken_out(entries, key);
    key_index_is_last(entries, key);
    key_index_is_last(entries, other);
    key_index_is_last(after, key);
    key_index_is_last(after, other);
    if let Some(i) = key_index(entries, key) {
        let last = entries.len() - 1;
        assert forall|a: int| 0 <= a < after.len() implies #[trigger] after[a] == entries[if a == i {
            last
        } else {
            a
        }] by {}
        assert forall|a: int, b: int| 0 <= a < b < after.len() implies (#[trigger] after[a]).0 != (
        #[trigger] after[b]).0 by {
            let c = if a == i {
                last
            } else {
                a
            };
            let d = if b == i {
                last
            } else {
                b
            };
            if c < d {
                assert(entries[c].0 != entries[d].0);
            } else {
                assert(entries[d].0 != entries[c].0);
            }
        }
        if let Some(a) = key_index(after, key) {
            let c = if a == i {
                last
            } else {
                a
            };
            assert(after[a] == entries[c]);
            if c < i {
                assert(entries[c].0 != entries[i].0);
            } else if i < c {
                assert(entries[i].0 != entries[c].0);
            }
        }
        if other != key {
            if let Some(j) = key_index(entries, other) {
                let a = if j == last {
                    i
                } else {
                    j
                };
                assert(after[a] == entries[j]);
                distinct_entries_are_found(after, a);
            } else if let Some(a) = key_index(after, other) {
                let c = if a == i {
                    last
                } else {
                    a
                };
                assert(after[a] == entries[c]);
            }
        }
    }
}

/// After an older id was replaced it is gone; the new id has what it had, or else what
/// the older one had; and every other agent is as it was.
pub proof fn renaming_keeps_agents(
    entries: Seq<(Seq<char>, JsonView)>,
    legacy: Seq<char>,
    current: Seq<char>,
    other: Seq<char>,
)
    requires
        distinct(entries),
        legacy != current,
    ensures
        ({
            let after = renamed(entries, legacy, current);
            &&& distinct(after)
            &&& find_entry(after, legacy) is None
            &&& find_entry(after, current) == either(
                find_entry(entries, current),
                find_entry(entries, legacy),
            )
            &&& other != legacy && other != current ==> find_entry(after, other) == find_entry(
                entries,
                other,
            )
        }),
{
    broadcast use found_in_more;

    let without = taken_out(entries, legacy);
    let after = renamed(entries, legacy, current);
    key_index_is_last(entries, current);
    key_index_is_last(entries, legacy);
    key_index_is_last(without, current);
    taking_out_keeps_the_rest(entries, legacy, other);
    taking_out_keeps_the_rest(entries, legacy, current);
    if key_index(entries, current) is None && key_index(entries, legacy) is Some {
        assert forall|a: int, b: int| 0 <= a < b < after.len() implies (#[trigger] after[a]).0 != (
        #[trigger] after[b]).0 by {
            assert(after[a] == without[a]);
            if b < without.len() {
                assert(after[b] == without[b]);
                assert(without[a].0 != without[b].0);
            }
        }
    }
}

/// That each id stands for one agent: no older id is a new one, and no id occurs twice.
pub open spec fn told_apart(mappings: Seq<(Seq<char>, Seq<char>)>) -> bool {
    &&& forall|i: int, j: int|
        0 <= i < mappings.len() && 0 <= j < mappings.len() ==> (#[trigger] mappings[i]).0 != (
        #[trigger] mappings[j]).1
    &&& forall|i: int, j: int|
        0 <= i < j < mappings.len() ==> (#[trigger] mappings[i]).0 != (#[trigger] mappings[j]).0
            && mappings[i].1 != mappings[j].1
}

/// That an id is neither an older nor a new one of some agents.
pub open spec fn is_of_none(id: Seq<char>, mappings: Seq<(Seq<char>, Seq<char>)>) -> bool {
    forall|i: int|
        0 <= i < mappings.len() ==> (#[trigger] mappings[i]).0 != id && mappings[i].1 != id
}

proof fn fewer_are_told_apart(mappings: Seq<(Seq<char>, Seq<char>)>)
    requires
        told_apart(mappings),
        mappings.len() > 0,
    ensures
        told_apart(mappings.drop_last()),
        is_of_none(mappings.last().0, mappings.drop_last()),
        is_of_none(mappings.last().1, mappings.drop_last()),
{
    let init = mappings.drop_last();
    let last = mappings.len() - 1;
    assert(mappings.last() == mappings[last]);
    assert forall|i: int, j: int| 0 <= i < init.len() && 0 <= j < init.len() implies (#[trigger]
    init[i]).0 != (#[trigger] init[j]).1 by {
        assert(mappings[i].0 != mappings[j].1);
    }
    assert forall|i: int, j: int| 0 <= i < j < init.len() implies (#[trigger] init[i]).0 != (
    #[trigger] init[j]).0 && init[i].1 != init[j].1 by {
        assert(mappings[i].0 != mappings[j].0);
    }
    assert forall|i: int| 0 <= i < init.len() implies (#[trigger] init[i]).0 != mappings.last().0
        && init[i].1 != mappings.last().0 && init[i].0 != mappings.last().1 && init[i].1
        != mappings.last().1 by {
        assert(mappings[i].0 != mappings[last].0);
        assert(mappings[last].0 != mappings[i].1);
        assert(mappings[i].0 != mappings[last].1);
    }
}

/// Agents with other ids stay as they are, and no id comes to occur twice.
pub proof fn migration_keeps_other_agents(
    servers: Seq<(Seq<char>, JsonView)>,
    mappings: Seq<(Seq<char>, Seq<char>)>,
    other: Seq<char>,
)
    requires
        distinct(servers),
        told_apart(mappings),
        is_of_none(other, mappings),
    ensures
        distinct(all_renamed(servers, mappings)),
        find_entry(all_renamed(servers, mappings), other) == find_entry(servers, other),
    decreases mappings.len(),
{
    if mappings.len() > 0 {
        let init = mappings.drop_last();
        let last = mappings.len() - 1;
        fewer_are_told_apart(mappings);
        assert forall|i: int| 0 <= i < init.len() implies (#[trigger] init[i]).0 != other
            && init[i].1 != other by {
            assert(mappings[i].0 != other);
        }
        migration_keeps_other_agents(servers, init, other);
        assert(mappings[last].0 != mappings[last].1);
        assert(mappings[last].0 != other);
        renaming_keeps_agents(
            all_renamed(servers, init),
            mappings.last().0,
            mappings.last().1,
            other,
        );
    }
}

/// Of each agent the older id is gone, and under the new one stands what stood there, or
/// else what stood under the older one.
pub proof fn migration_moves_agents(
    servers: Seq<(Seq<char>, JsonView)>,
    mappings: Seq<(Seq<char>, Seq<char>)>,
    i: int,
)
    requires
        distinct(servers),
        told_apart(mappings),
        0 <= i < mappings.len(),
    ensures
        distinct(all_renamed(servers, mappings)),
        find_entry(all_renamed(servers, mappings), mappings[i].0) is None,
        find_entry(all_renamed(servers, mappings), mappings[i].1) == either(
            find_entry(servers, mappings[i].1),
            find_entry(servers, mappings[i].0),
        ),
    decreases mappings.len(),
{
    let init = mappings.drop_last();
    let last = mappings.len() - 1;
    let before = all_renamed(servers, init);
    fewer_are_told_apart(mappings);
    assert(mappings.last() == mappings[last]);
    assert(mappings[last].0 != mappings[last].1);
    if i == last {
        migration_keeps_other_agents(servers, init, mappings.last().0);
        migration_keeps_other_agents(servers, init, mappings.last().1);
        renaming_keeps_agents(before, mappings.last().0, mappings.last().1, mappings.last().0);
    } else {
        migration_moves_agents(servers, init, i);
        assert(init[i] == mappings[i]);
        assert(mappings[i].0 != mappings[last].0);
        assert(mappings[i].0 != mappings[last].1);
        assert(mappings[last].0 != mappings[i].1);
        renaming_keeps_agents(before, mappings.last().0, mappings.last().1, mappings[i].0);
        renaming_keeps_agents(before, mappings.last().0, mappings.last().1, mappings[i].1);
    }
}

/// Agents without older ids stay as they are.
proof fn nothing_to_rename(
    servers: Seq<(Seq<char>, JsonView)>,
    mappings: Seq<(Seq<char>, Seq<char>)>,
)
    requires
        forall|i: int|
            0 <= i < mappings.len() ==> find_entry(servers, (#[trigger] mappings[i]).0) is None,
    ensures
        all_renamed(servers, mappings) == servers,
    decreases mappings.len(),
{
    if mappings.len() > 0 {
        let init = mappings.drop_last();
        assert forall|i: int| 0 <= i < init.len() implies find_entry(
            servers,
            (#[trigger] init[i]).0,
        ) is None by {
            assert(init[i] == mappings[i]);
        }
        nothing_to_rename(servers, init);
        assert(mappings.last() == mappings[mappings.len() - 1]);
        key_index_is_last(servers, mappings.last().0);
    }
}

/// Agents that are up to date stay as they are.
pub proof fn migration_is_idempotent(
    servers: Seq<(Seq<char>, JsonView)>,
    mappings: Seq<(Seq<char>, Seq<char>)>,
)
    requires
        distinct(servers),
        told_apart(mappings),
    ensures
        all_renamed(all_renamed(servers, mappings), mappings) == all_renamed(servers, mappings),
{
    let after = all_renamed(servers, mappings);
    assert forall|i: int| 0 <= i < mappings.len() implies find_entry(
        after,
        (#[trigger] mappings[i]).0,
    ) is None by {
        migration_moves_agents(servers, mappings, i);
    }
    nothing_to_rename(after, mappings);
}

/// The ids of Codex are told apart from each other, and so from those of other agents
/// that are neither of them.
pub proof fn codex_is_told_apart(others: Seq<(Seq<char>, Seq<char>)>)
    requires
        told_apart(others),
        is_of_none(LEGACY_CODEX_REGISTRY_KEY@, others),
        is_of_none(CODEX_REGISTRY_KEY@, others),
    ensures
        told_apart(with_codex(others)),
{
    reveal_strlit("codex-acp");
    reveal_strlit("codex");
    assert(LEGACY_CODEX_REGISTRY_KEY@.len() == 9 && CODEX_REGISTRY_KEY@.len() == 5);
    let all = with_codex(others);
    assert forall|i: int| 0 <= i < others.len() implies #[trigger] all[i] == others[i] by {}
}

/// Nothing but the agents is touched: every other setting is as it was.
pub proof fn other_settings_stay(
    settings: Seq<(Seq<char>, JsonView)>,
    mappings: Seq<(Seq<char>, Seq<char>)>,
    key: Seq<char>,
)
    requires
        key != AGENT_SERVERS_KEY@,
    ensures
        find_entry(current_settings(settings, mappings), key) == find_entry(settings, key),
{
    key_index_is_last(settings, AGENT_SERVERS_KEY@);
    let after = current_settings(settings, mappings);
    key_index_is_last(settings, key);
    key_index_is_last(after, key);
    if let Some(i) = key_index(settings, key) {
        assert(after[i] == settings[i]);
        let j = key_index(after, key)->0;
        assert(after[j] == settings[j]);
    } else if let Some(j) = key_index(after, key) {
        assert(after[j].0 == settings[j].0);
    }
}

} // verus!
