//! The state of the bridge, and what each message of the app-server does to it.

use vstd::prelude::*;

use crate::calls::{problem_after, problem_with_cause, Problem};
use crate::config::{
    all_upserted, config_views, default_config_options_for_session, default_options,
    options_of_config, update_config_options_from_read_response,
    update_config_options_from_thread_settings, with_thread_settings, ConfigOption,
    ConfigOptionView,
};
use crate::json::{or_null, Json, JsonView};
use crate::models::{remembered_model, thread_model};
use crate::protocol::{addressed_views, SessionUpdate, StopReason};
use crate::table::{at, text_map, Table};
use crate::text::{opt_string, same_text};
use crate::turns::{named_turn, reason_of, TurnTracker, TurnsView};
use crate::updates::{notification_updates, outputs_after, session_updates_from_notification};

verus! {

/// The state of the bridge: sessions and turns, the output of tools that has been
/// gathered, the options of sessions, and the models that were selected for them.
pub struct Bridge<T, S, W> {
    pub turns: TurnTracker<T, S, W>,
    pub outputs: Table<String>,
    pub options: Table<Vec<ConfigOption>>,
    pub models: Table<String>,
}

/// The options of each session, as contracts speak of them.
pub open spec fn options_view(options: Map<Seq<char>, Vec<ConfigOption>>) -> Map<
    Seq<char>,
    Seq<ConfigOptionView>,
> {
    Map::new(
        |id: Seq<char>| options.contains_key(id),
        |id: Seq<char>| config_views(options[id]@),
    )
}

/// The state of the bridge, as contracts speak of it.
pub struct BridgeView<T, S, W> {
    pub turns: TurnsView<T, S, W>,
    pub outputs: Map<Seq<char>, Seq<char>>,
    pub options: Map<Seq<char>, Seq<ConfigOptionView>>,
    pub models: Map<Seq<char>, Seq<char>>,
}

impl<T, S, W> View for Bridge<T, S, W> {
    type V = BridgeView<T, S, W>;

    open spec fn view(&self) -> BridgeView<T, S, W> {
        BridgeView {
            turns: self.turns@,
            outputs: text_map(self.outputs@),
            options: options_view(self.options@),
            models: text_map(self.models@),
        }
    }
}

/// What a notification leads to: who is told that a turn has started or ended, whether
/// the list of threads is to be refreshed, which session has other options, whether
/// another model is selected, and the session updates.
pub struct NotificationEffects<S, W> {
    pub started: Option<(S, String)>,
    pub ended: Option<(W, StopReason)>,
    pub refresh_list: bool,
    pub options_changed: Option<String>,
    pub model_changed: bool,
    pub updates: Vec<(String, SessionUpdate)>,
}

/// Whether a notification changes the list of threads.
pub open spec fn changes_list(method: Seq<char>) -> bool {
    method == "thread/archived"@ || method == "thread/unarchived"@ || method == "thread/deleted"@
}

/// The session whose settings a notification changes: one that has options.
pub open spec fn session_with_new_settings(
    method: Seq<char>,
    params: JsonView,
    options: Map<Seq<char>, Seq<ConfigOptionView>>,
) -> Option<Seq<char>> {
    match params.text_at("threadId"@) {
        Some(thread) => if method == "thread/settings/updated"@ && options.contains_key(thread) {
            Some(thread)
        } else {
            None
        },
        None => None,
    }
}

/// The settings that a notification carries.
pub open spec fn carried_settings(params: JsonView) -> JsonView {
    or_null(params.get("threadSettings"@))
}

impl<T, S, W> BridgeView<T, S, W> {
    /// The sessions and turns after a notification.
    pub open spec fn turns_after(self, method: Seq<char>, params: JsonView) -> TurnsView<T, S, W> {
        match named_turn(params) {
            Some((thread, turn)) => if method == "turn/started"@ {
                self.turns.without_watch(thread)
            } else if method == "turn/completed"@ {
                self.turns.after_end(thread, turn, reason_of(params))
            } else {
                self.turns
            },
            None => self.turns,
        }
    }

    /// The options of sessions after a notification.
    pub open spec fn options_after(self, method: Seq<char>, params: JsonView) -> Map<
        Seq<char>,
        Seq<ConfigOptionView>,
    > {
        match session_with_new_settings(method, params, self.options) {
            Some(thread) => self.options.insert(
                thread,
                with_thread_settings(self.options[thread], carried_settings(params)),
            ),
            None => self.options,
        }
    }

    /// The model that a notification selects for a session.
    pub open spec fn model_selected_by(self, method: Seq<char>, params: JsonView) -> Option<
        (Seq<char>, Seq<char>),
    > {
        match session_with_new_settings(method, params, self.options) {
            Some(thread) => match carried_settings(params).text_at("model"@) {
                Some(model) => Some((thread, model)),
                None => None,
            },
            None => None,
        }
    }

    /// With a model selected for a session.
    pub open spec fn with_model(self, session: Seq<char>, model: Seq<char>) -> Self {
        BridgeView { models: self.models.insert(session, model), ..self }
    }

    /// The state after a session was opened: the model that its thread is set to is
    /// selected, where it is set to one.
    pub open spec fn after_opening(self, session: Seq<char>, response: JsonView) -> Self {
        match thread_model(response) {
            Some(model) => self.with_model(session, model),
            None => self,
        }
    }

    /// With options for a session: those that every session starts with where it has none.
    pub open spec fn with_options(self, session: Seq<char>) -> Self {
        if self.options.contains_key(session) {
            self
        } else {
            BridgeView { options: self.options.insert(session, default_options()), ..self }
        }
    }

    /// The state after the configuration was read for a session.
    pub open spec fn after_reading(self, session: Seq<char>, response: JsonView) -> Self {
        if self.options.contains_key(session) {
            BridgeView {
                options: self.options.insert(
                    session,
                    all_upserted(
                        self.options[session],
                        options_of_config(or_null(response.get("config"@))),
                    ),
                ),
                ..self
            }
        } else {
            self
        }
    }

    /// The state after a request for the configuration of a session was answered: where it
    /// failed nothing changes.
    pub open spec fn after_rereading(
        self,
        session: Seq<char>,
        reply: Result<&Json, &str>,
    ) -> Self {
        match reply {
            Ok(response) => self.after_reading(session, response@),
            Err(_) => self,
        }
    }

    /// The state after a notification.
    pub open spec fn after_notification(self, method: Seq<char>, params: JsonView) -> Self {
        BridgeView {
            turns: self.turns_after(method, params),
            outputs: outputs_after(method, params, self.outputs),
            options: self.options_after(method, params),
            models: match self.model_selected_by(method, params) {
                Some((thread, model)) => self.models.insert(thread, model),
                None => self.models,
            },
        }
    }
}

/// Who is told of the start of a turn.
pub open spec fn told_of_start<T, S, W>(
    state: BridgeView<T, S, W>,
    method: Seq<char>,
    params: JsonView,
) -> Option<(S, Seq<char>)> {
    match named_turn(params) {
        Some((thread, turn)) => if method == "turn/started"@ {
            match at(state.turns.starts, thread) {
                Some(waiter) => Some((waiter, turn)),
                None => None,
            }
        } else {
            None
        },
        None => None,
    }
}

/// Who is told of the end of a turn.
pub open spec fn told_of_end<T, S, W>(
    state: BridgeView<T, S, W>,
    method: Seq<char>,
    params: JsonView,
) -> Option<(W, StopReason)> {
    match named_turn(params) {
        Some((thread, turn)) => if method == "turn/completed"@ {
            match state.turns.waiter_for(thread, turn) {
                Some(waiter) => Some((waiter, reason_of(params))),
                None => None,
            }
        } else {
            None
        },
        None => None,
    }
}

/// Who is told of the start of a turn, as contracts speak of it.
pub open spec fn start_view<S>(started: Option<(S, String)>) -> Option<(S, Seq<char>)> {
    match started {
        Some((waiter, turn)) => Some((waiter, turn@)),
        None => None,
    }
}

impl<T, S, W> Bridge<T, S, W> {
    /// Nothing is known yet.
    pub fn new() -> (bridge: Self)
        ensures
            bridge@ == (BridgeView::<T, S, W> {
                turns: TurnsView {
                    sessions: Map::empty(),
                    starts: Map::empty(),
                    pending: Map::empty(),
                    completed: Map::empty(),
                },
                outputs: Map::empty(),
                options: Map::empty(),
                models: Map::empty(),
            }),
    {
        let bridge = Bridge {
            turns: TurnTracker::new(),
            outputs: Table::new(),
            options: Table::new(),
            models: Table::new(),
        };
        proof {
            assert(bridge@.outputs =~= Map::<Seq<char>, Seq<char>>::empty());
            assert(bridge@.options =~= Map::<Seq<char>, Seq<ConfigOptionView>>::empty());
            assert(bridge@.models =~= Map::<Seq<char>, Seq<char>>::empty());
        }
        bridge
    }

    /// Remembers the model that is selected for a session.
    pub fn select_model(&mut self, session: &str, model: &str)
        ensures
            final(self)@ == old(self)@.with_model(session@, model@),
    {
        self.models.insert(session, model.to_owned());
        assert(self@.models =~= old(self)@.models.insert(session@, model@));
    }

    /// Remembers the model that a thread was set to, where it was set to one, and says
    /// whether it was.
    pub fn remember_selected_model_from_thread(&mut self, session: &str, response: &Json) -> (
        remembered: bool)
        ensures
            remembered == (thread_model(response@) is Some),
            final(self)@ == old(self)@.after_opening(session@, response@),
    {
        match remembered_model(response) {
            Some(model) => {
                self.select_model(session, model.as_str());
                true
            },
            None => false,
        }
    }

    /// Makes sure that a session has options: those that every session starts with where
    /// it has none yet.
    pub fn session_config_options(&mut self, session: &str)
        ensures
            final(self)@ == old(self)@.with_options(session@),
    {
        if self.options.get(session).is_none() {
            self.options.insert(session, default_config_options_for_session());
            assert(self@.options =~= old(self)@.options.insert(session@, default_options()));
        }
    }

    /// Puts the options of a configuration response in those of a session, where it has
    /// options, and says whether it has.
    pub fn refresh_config_options(&mut self, session: &str, response: &Json) -> (known: bool)
        ensures
            known == old(self)@.options.contains_key(session@),
            final(self)@ == old(self)@.after_reading(session@, response@),
    {
        match self.options.remove(session) {
            Some(options) => {
                let mut options = options;
                update_config_options_from_read_response(&mut options, response);
                self.options.insert(session, options);
                assert(self@.options =~= old(self)@.options.insert(
                    session@,
                    config_views(options@),
                ));
                true
            },
            None => {
                assert(self@.options =~= old(self)@.options);
                false
            },
        }
    }

    /// What the reply to a request for the configuration comes to: its options are put in
    /// those of the session, where it has any. Where the request failed nothing changes.
    pub fn config_reread(&mut self, session: &str, reply: Result<&Json, &str>) -> (done: Result<
        bool,
        Problem,
    >)
        ensures
            final(self)@ == old(self)@.after_rereading(session@, reply),
            match reply {
                Ok(response) => done == Ok::<bool, Problem>(
                    old(self)@.options.contains_key(session@),
                ),
                Err(cause) => done is Err && done->Err_0@ == problem_after(
                    "failed to refresh native Codex configuration"@,
                    cause@,
                ),
            },
    {
        match reply {
            Ok(response) => Ok(self.refresh_config_options(session, response)),
            Err(cause) => Err(
                problem_with_cause("failed to refresh native Codex configuration", cause),
            ),
        }
    }

    /// Takes over the settings that a notification carries, and returns the session whose
    /// options changed, and whether another model is selected.
    pub fn refresh_config_options_from_notification(&mut self, method: &str, params: &Json) -> (
        changed: (Option<String>, bool))
        ensures
            final(self)@ == (BridgeView {
                options: old(self)@.options_after(method@, params@),
                models: old(self)@.after_notification(method@, params@).models,
                ..old(self)@
            }),
            opt_string(changed.0) == session_with_new_settings(
                method@,
                params@,
                old(self)@.options,
            ),
            changed.1 == (old(self)@.model_selected_by(method@, params@) is Some),
    {
        if !same_text(method, "thread/settings/updated") {
            return (None, false);
        }
        let thread = match params.text_at("threadId") {
            Some(thread) => thread,
            None => return (None, false),
        };
        let mut options = match self.options.remove(thread) {
            Some(options) => options,
            None => {
                assert(self@.options =~= old(self)@.options);
                return (None, false);
            },
        };
        let null = Json::Null;
        let settings = match params.get("threadSettings") {
            Some(settings) => settings,
            None => &null,
        };
        let model = update_config_options_from_thread_settings(&mut options, settings);
        self.options.insert(thread, options);
        assert(self@.options =~= old(self)@.options_after(method@, params@));
        match model {
            Some(model) => {
                self.select_model(thread, model.as_str());
                (Some(thread.to_owned()), true)
            },
            None => (Some(thread.to_owned()), false),
        }
    }

    /// Takes note of a notification.
    pub fn handle_server_notification(&mut self, method: &str, params: &Json) -> (effects:
        NotificationEffects<S, W>)
        ensures
            final(self)@ == old(self)@.after_notification(method@, params@),
            start_view(effects.started) == told_of_start(old(self)@, method@, params@),
            effects.ended == told_of_end(old(self)@, method@, params@),
            effects.refresh_list == changes_list(method@),
            opt_string(effects.options_changed) == session_with_new_settings(
                method@,
                params@,
                old(self)@.options,
            ),
            effects.model_changed == (old(self)@.model_selected_by(method@, params@) is Some),
            addressed_views(effects.updates@) == notification_updates(
                method@,
                params@,
                old(self)@.outputs,
            ),
    {
        let started = if same_text(method, "turn/started") {
            self.turns.start_turn(params)
        } else {
            None
        };
        proof {
            reveal_strlit("turn/started");
            reveal_strlit("turn/completed");
            assert("turn/started"@.len() != "turn/completed"@.len());
        }
        let ended = if same_text(method, "turn/completed") {
            self.turns.complete_turn(params)
        } else {
            None
        };
        let refresh_list = same_text(method, "thread/archived") || same_text(
            method,
            "thread/unarchived",
        ) || same_text(method, "thread/deleted");
        let (options_changed, model_changed) = self.refresh_config_options_from_notification(
            method,
            params,
        );
        let updates = session_updates_from_notification(method, params, &mut self.outputs);
        NotificationEffects { started, ended, refresh_list, options_changed, model_changed, updates }
    }
}

/// A notification that is on no turn, no settings and no output changes nothing of the
/// state, and tells nobody.
pub proof fn other_notifications_change_nothing<T, S, W>(
    state: BridgeView<T, S, W>,
    method: Seq<char>,
    params: JsonView,
)
    requires
        method != "turn/started"@,
        method != "turn/completed"@,
        method != "thread/settings/updated"@,
        method != "item/commandExecution/outputDelta"@,
        method != "item/fileChange/outputDelta"@,
    ensures
        state.after_notification(method, params) == state,
        told_of_start(state, method, params) is None,
        told_of_end(state, method, params) is None,
{
}

/// No notification adds or removes a session, or touches the options or the model of a
/// session that it does not name.
pub proof fn other_sessions_are_not_touched<T, S, W>(
    state: BridgeView<T, S, W>,
    method: Seq<char>,
    params: JsonView,
    session: Seq<char>,
)
    requires
        params.text_at("threadId"@) != Some(session),
    ensures
        ({
            let after = state.after_notification(method, params);
            &&& at(after.turns.sessions, session) == at(state.turns.sessions, session)
            &&& at(after.options, session) == at(state.options, session)
            &&& at(after.models, session) == at(state.models, session)
        }),
{
}

} // verus!
