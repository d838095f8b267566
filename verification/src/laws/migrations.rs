//! What settings with older ids of agents come to.

use vstd::prelude::*;

use crate::json::{find_entry, key_index, put, JsonView};
use crate::laws::questions::found_once_put;
use crate::migration::{
    all_renamed, codex_is_told_apart, current_value, distinct, is_of_none, migration_is_idempotent,
    migration_keeps_other_agents, migration_moves_agents, told_apart, with_codex, AGENT_SERVERS_KEY,
    CODEX_REGISTRY_KEY, LEGACY_CODEX_REGISTRY_KEY,
};

verus! {

/// Whether settings hold agents, none of them twice.
pub open spec fn holds_agents(value: JsonView, agents: Seq<(Seq<char>, JsonView)>) -> bool {
    &&& value.get(AGENT_SERVERS_KEY@) == Some(JsonView::Object(agents))
    &&& distinct(agents)
}

/// Whether other agents are renamed that are not Codex, each to an id of its own.
pub open spec fn are_other_agents(others: Seq<(Seq<char>, Seq<char>)>) -> bool {
    &&& told_apart(others)
    &&& is_of_none(LEGACY_CODEX_REGISTRY_KEY@, others)
    &&& is_of_none(CODEX_REGISTRY_KEY@, others)
}

/// The older id of Codex is gone from the settings, and under the new one stands what stood
/// there, or else what stood under the older one; and the same holds of every other agent that
/// is renamed.
pub proof fn agents_are_moved(
    value: JsonView,
    agents: Seq<(Seq<char>, JsonView)>,
    others: Seq<(Seq<char>, Seq<char>)>,
    i: int,
)
    requires
        holds_agents(value, agents),
        are_other_agents(others),
    ensures
        ({
            let after = current_value(value, with_codex(others));
            let before = JsonView::Object(agents);
            &&& after.get2(AGENT_SERVERS_KEY@, LEGACY_CODEX_REGISTRY_KEY@) is None
            &&& after.get2(AGENT_SERVERS_KEY@, CODEX_REGISTRY_KEY@) == (match before.get(
                CODEX_REGISTRY_KEY@,
            ) {
                Some(agent) => Some(agent),
                None => before.get(LEGACY_CODEX_REGISTRY_KEY@),
            })
            &&& 0 <= i < others.len() ==> {
                &&& after.get2(AGENT_SERVERS_KEY@, others[i].0) is None
                &&& after.get2(AGENT_SERVERS_KEY@, others[i].1) == (match before.get(others[i].1) {
                    Some(agent) => Some(agent),
                    None => before.get(others[i].0),
                })
            }
        }),
{
    let mappings = with_codex(others);
    codex_is_told_apart(others);
    agents_are_renamed(value, agents, mappings);
    migration_moves_agents(agents, mappings, mappings.len() - 1);
    if 0 <= i < others.len() {
        migration_moves_agents(agents, mappings, i);
        assert(mappings[i] == others[i]);
    }
}

/// Agents with other ids, and all settings but the agents, stay as they are.
pub proof fn everything_else_stays(
    value: JsonView,
    agents: Seq<(Seq<char>, JsonView)>,
    others: Seq<(Seq<char>, Seq<char>)>,
    agent: Seq<char>,
    key: Seq<char>,
)
    requires
        holds_agents(value, agents),
        are_other_agents(others),
        is_of_none(agent, others),
        agent != LEGACY_CODEX_REGISTRY_KEY@,
        agent != CODEX_REGISTRY_KEY@,
        key != AGENT_SERVERS_KEY@,
    ensures
        ({
            let after = current_value(value, with_codex(others));
            &&& after.get2(AGENT_SERVERS_KEY@, agent) == JsonView::Object(agents).get(agent)
            &&& after.get(key) == value.get(key)
        }),
{
    let mappings = with_codex(others);
    codex_is_told_apart(others);
    agents_are_renamed(value, agents, mappings);
    assert(is_of_none(agent, mappings)) by {
        assert forall|i: int| 0 <= i < mappings.len() implies (#[trigger] mappings[i]).0 != agent
            && mappings[i].1 != agent by {
            if i < others.len() {
                assert(mappings[i] == others[i]);
            }
        }
    }
    migration_keeps_other_agents(agents, mappings, agent);
    let settings = value->Object_0;
    found_once_put(
        settings,
        AGENT_SERVERS_KEY@,
        JsonView::Object(all_renamed(agents, mappings)),
        key,
    );
}

/// Settings that are up to date stay as they are, and so do those without agents.
pub proof fn current_settings_stay(
    value: JsonView,
    agents: Seq<(Seq<char>, JsonView)>,
    others: Seq<(Seq<char>, Seq<char>)>,
)
    requires
        are_other_agents(others),
    ensures
        ({
            let mappings = with_codex(others);
            let once = current_value(value, mappings);
            &&& holds_agents(value, agents) ==> current_value(once, mappings).get(
                AGENT_SERVERS_KEY@,
            ) == once.get(AGENT_SERVERS_KEY@)
            &&& !(value.get(AGENT_SERVERS_KEY@) matches Some(JsonView::Object(_))) ==> once
                == value
        }),
{
    let mappings = with_codex(others);
    codex_is_told_apart(others);
    if holds_agents(value, agents) {
        agents_are_renamed(value, agents, mappings);
        migration_moves_agents(agents, mappings, mappings.len() - 1);
        let once = current_value(value, mappings);
        agents_are_renamed(once, all_renamed(agents, mappings), mappings);
        migration_is_idempotent(agents, mappings);
    } else if value is Object {
        key_index_finds(value->Object_0, AGENT_SERVERS_KEY@);
    }
}

/// The ids of Codex, older and new, and where agents are set up.
pub proof fn ids_of_codex()
    ensures
        LEGACY_CODEX_REGISTRY_KEY@ == "codex-acp"@,
        CODEX_REGISTRY_KEY@ == "codex"@,
        AGENT_SERVERS_KEY@ == "agent_servers"@,
{
}

proof fn agents_are_renamed(
    value: JsonView,
    agents: Seq<(Seq<char>, JsonView)>,
    mappings: Seq<(Seq<char>, Seq<char>)>,
)
    requires
        value.get(AGENT_SERVERS_KEY@) == Some(JsonView::Object(agents)),
    ensures
        value is Object,
        current_value(value, mappings) == JsonView::Object(
            put(
                value->Object_0,
                AGENT_SERVERS_KEY@,
                JsonView::Object(all_renamed(agents, mappings)),
            ),
        ),
        current_value(value, mappings).get(AGENT_SERVERS_KEY@) == Some(
            JsonView::Object(all_renamed(agents, mappings)),
        ),
{
    let settings = value->Object_0;
    key_index_finds(settings, AGENT_SERVERS_KEY@);
    found_once_put(
        settings,
        AGENT_SERVERS_KEY@,
        JsonView::Object(all_renamed(agents, mappings)),
        AGENT_SERVERS_KEY@,
    );
}

/// The index of a key is that of the entry that is found under it.
proof fn key_index_finds(entries: Seq<(Seq<char>, JsonView)>, key: Seq<char>)
    ensures
        match key_index(entries, key) {
            Some(i) => 0 <= i < entries.len() && entries[i].0 == key && find_entry(entries, key)
                == Some(entries[i].1),
            None => find_entry(entries, key) is None,
        },
    decreases entries.len(),
{
    if entries.len() > 0 && entries.last().0 != key {
        key_index_finds(entries.drop_last(), key);
    }
}

} // verus!
