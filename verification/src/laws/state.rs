//! What the bridge keeps in mind: the turns that run, who waits for them, and the options and
//! models of sessions.

use vstd::prelude::*;

use crate::bridge::{
    changes_list, session_with_new_settings, told_of_end, told_of_start, BridgeView,
};
use crate::calls::CallView;
use crate::config::{default_options, ConfigOptionView};
use crate::json::JsonView;
use crate::laws::questions::object_of_two;
use crate::laws::words::{notification_names, option_ids, sandbox_types};
use crate::protocol::StopReason;
use crate::table::at;
use crate::turns::TurnsView;

verus! {

/// Whether a notification is on a turn of a session.
pub open spec fn is_on_turn(params: JsonView, session: Seq<char>, turn: Seq<char>) -> bool {
    params.text_at("threadId"@) == Some(session) && params.get2("turn"@, "id"@) == Some(
        JsonView::Text(turn),
    )
}

/// That a turn ended as a notification says: cancelled exactly where it was interrupted.
pub open spec fn ended_as(params: JsonView, reason: StopReason) -> bool {
    reason == StopReason::Cancelled <==> params.get2("turn"@, "status"@) == Some(
        JsonView::Text("interrupted"@),
    )
}

/// Whoever waits for a turn is told when it ends, and how it ended; and the session that it
/// ran in is free again.
pub proof fn ends_are_told_to_who_waits<T, S, W>(
    state: BridgeView<T, S, W>,
    params: JsonView,
    session: Seq<char>,
    turn: Seq<char>,
    waiter: W,
)
    requires
        is_on_turn(params, session, turn),
        state.turns.end_of(session, turn) is None,
    ensures
        ({
            let method = "turn/completed"@;
            let waiting = BridgeView {
                turns: state.turns.after_wait(session, turn, waiter),
                ..state
            };
            let told = told_of_end(waiting, method, params);
            let after = waiting.after_notification(method, params);
            &&& match told {
                Some((who, reason)) => who == waiter && ended_as(params, reason),
                None => false,
            }
            &&& told_of_end(after, method, params) is None
            &&& after.turns.interruption(session) is None
            &&& state.turns.sessions.contains_key(session) ==> waiting.turns.interruption(session)
                == Some(
                CallView {
                    method: "turn/interrupt"@,
                    params: object_of_two(
                        "threadId"@,
                        JsonView::Text(session),
                        "turnId"@,
                        JsonView::Text(turn),
                    ),
                },
            )
            &&& after.turns.sessions.dom() == state.turns.sessions.dom()
            &&& forall|other: Seq<char>|
                state.turns.sessions.contains_key(other) ==> (
                #[trigger] after.turns.sessions[other]).0 == state.turns.sessions[other].0
        }),
{
    notification_names();
    let waiting = BridgeView { turns: state.turns.after_wait(session, turn, waiter), ..state };
    let after = waiting.after_notification("turn/completed"@, params);
    assert(after.turns.sessions.dom() =~= state.turns.sessions.dom());
}

/// A turn that ends before anybody waits for it is remembered, with how it ended, until
/// somebody does.
pub proof fn early_ends_are_remembered<T, S, W>(
    state: BridgeView<T, S, W>,
    params: JsonView,
    session: Seq<char>,
    turn: Seq<char>,
    waiter: W,
)
    requires
        is_on_turn(params, session, turn),
        state.turns.waiter_for(session, turn) is None,
    ensures
        ({
            let method = "turn/completed"@;
            let after = state.after_notification(method, params);
            let ended = after.turns.end_of(session, turn);
            &&& told_of_end(state, method, params) is None
            &&& ended is Some
            &&& ended_as(params, ended->0)
            &&& after.turns.after_wait(session, turn, waiter).end_of(session, turn) is None
            &&& after.turns.after_wait(session, turn, waiter).waiter_for(session, turn) is None
        }),
{
    notification_names();
}

/// Whoever watches for the next turn of a session is told of the turn that starts, once.
pub proof fn starts_are_told_to_who_watches<T, S, W>(
    state: BridgeView<T, S, W>,
    params: JsonView,
    session: Seq<char>,
    turn: Seq<char>,
    watcher: S,
)
    requires
        is_on_turn(params, session, turn),
    ensures
        ({
            let method = "turn/started"@;
            let watching = BridgeView { turns: state.turns.with_watch(session, watcher), ..state };
            let forgotten = BridgeView { turns: state.turns.without_watch(session), ..state };
            let after = watching.after_notification(method, params);
            &&& told_of_start(watching, method, params) == Some((watcher, turn))
            &&& told_of_start(after, method, params) is None
            &&& told_of_start(forgotten, method, params) is None
            &&& told_of_end(watching, method, params) is None
            &&& after.turns.sessions == state.turns.sessions
            &&& after.turns.pending == state.turns.pending
            &&& after.turns.completed == state.turns.completed
        }),
{
    notification_names();
}

/// To watch a session, and to stop, touches no other session.
pub proof fn other_watches_stay<T, S, W>(
    state: TurnsView<T, S, W>,
    session: Seq<char>,
    watcher: S,
    other: Seq<char>,
)
    requires
        other != session,
    ensures
        at(state.with_watch(session, watcher).starts, other) == at(state.starts, other),
        at(state.without_watch(session).starts, other) == at(state.starts, other),
        state.with_watch(session, watcher).sessions == state.sessions,
        state.with_watch(session, watcher).pending == state.pending,
        state.without_watch(session).sessions == state.sessions,
        state.without_watch(session).pending == state.pending,
{
}

/// A session that was added is known by its thread, with no turn to interrupt, and no other
/// session is touched.
pub proof fn added_sessions_are_idle<T, S, W>(
    state: TurnsView<T, S, W>,
    session: Seq<char>,
    thread: T,
    other: Seq<char>,
)
    requires
        other != session,
    ensures
        ({
            let after = state.with_session(session, thread);
            &&& after.sessions.contains_key(session)
            &&& after.sessions[session].0 == thread
            &&& after.interruption(session) is None
            &&& at(after.sessions, other) == at(state.sessions, other)
            &&& after.interruption(other) == state.interruption(other)
            &&& after.pending == state.pending && after.starts == state.starts
        }),
{
}

/// Once the server is gone nobody waits for a turn any more, and the sessions stay.
pub proof fn nobody_waits_once_closed<T, S, W>(
    state: TurnsView<T, S, W>,
    session: Seq<char>,
    turn: Seq<char>,
)
    ensures
        state.closed().waiter_for(session, turn) is None,
        state.closed().end_of(session, turn) == state.end_of(session, turn),
        state.closed().sessions == state.sessions,
        state.closed().starts == state.starts,
{
}

/// The list of sessions is read again exactly after one was archived, taken back or deleted.
pub proof fn lists_are_read_again(method: Seq<char>)
    ensures
        changes_list("thread/archived"@),
        changes_list("thread/unarchived"@),
        changes_list("thread/deleted"@),
        changes_list(method) ==> method == "thread/archived"@ || method == "thread/unarchived"@
            || method == "thread/deleted"@,
{
}

/// The value that an option has after some settings were taken over: the effort, the policy
/// for approvals and the sandbox that the settings name, and else what it was.
pub open spec fn value_after(option: ConfigOptionView, settings: JsonView) -> Seq<char> {
    let policy = settings.get("approvalPolicy"@);
    let sandbox = settings.get2("sandboxPolicy"@, "type"@);
    if option.id == "model_reasoning_effort"@ {
        match settings.text_at("effort"@) {
            Some(effort) => effort,
            None => option.current_value,
        }
    } else if option.id == "approval_policy"@ {
        match policy {
            Some(JsonView::Text(policy)) => policy,
            Some(JsonView::Object(_)) => if policy->0.get("granular"@) is Some {
                "on-request"@
            } else {
                option.current_value
            },
            _ => option.current_value,
        }
    } else if option.id == "sandbox_mode"@ {
        if sandbox == Some(JsonView::Text("dangerFullAccess"@)) {
            "danger-full-access"@
        } else if sandbox == Some(JsonView::Text("readOnly"@)) {
            "read-only"@
        } else if sandbox == Some(JsonView::Text("workspaceWrite"@)) {
            "workspace-write"@
        } else {
            option.current_value
        }
    } else {
        option.current_value
    }
}

/// Settings that are told for a session with options are taken over: each option keeps all
/// but its value, which becomes the one that the settings name for it; and the model that
/// they name is selected.
pub proof fn settings_are_taken_over<T, S, W>(
    state: BridgeView<T, S, W>,
    params: JsonView,
    session: Seq<char>,
    settings: JsonView,
    i: int,
)
    requires
        params.text_at("threadId"@) == Some(session),
        params.get("threadSettings"@) == Some(settings),
        state.options.contains_key(session),
        0 <= i < state.options[session].len(),
    ensures
        ({
            let method = "thread/settings/updated"@;
            let after = state.after_notification(method, params);
            let before = state.options[session][i];
            &&& session_with_new_settings(method, params, state.options) == Some(session)
            &&& after.options.contains_key(session)
            &&& after.options[session].len() == state.options[session].len()
            &&& after.options[session][i] == (ConfigOptionView {
                current_value: value_after(before, settings),
                ..before
            })
            &&& settings.text_at("model"@) matches Some(model) ==> at(after.models, session)
                == Some(model)
            &&& settings.text_at("model"@) is None ==> after.models == state.models
            &&& state.model_selected_by(method, params) is Some <==> settings.text_at("model"@)
                is Some
            &&& after.turns == state.turns
        }),
{
    notification_names();
    option_ids();
    sandbox_types();
}

/// Settings for a session without options are not taken over.
pub proof fn unknown_settings_are_not_taken_over<T, S, W>(
    state: BridgeView<T, S, W>,
    params: JsonView,
    session: Seq<char>,
)
    requires
        params.text_at("threadId"@) == Some(session),
        !state.options.contains_key(session),
    ensures
        state.after_notification("thread/settings/updated"@, params) == state,
        session_with_new_settings("thread/settings/updated"@, params, state.options) is None,
        state.model_selected_by("thread/settings/updated"@, params) is None,
{
    notification_names();
}

/// A model that is selected for a session is that of the session, and of no other.
pub proof fn selected_models_are_kept<T, S, W>(
    state: BridgeView<T, S, W>,
    session: Seq<char>,
    model: Seq<char>,
    other: Seq<char>,
)
    requires
        other != session,
    ensures
        at(state.with_model(session, model).models, session) == Some(model),
        at(state.with_model(session, model).models, other) == at(state.models, other),
        state.with_model(session, model).turns == state.turns,
        state.with_model(session, model).options == state.options,
        state.with_model(session, model).outputs == state.outputs,
{
}

/// A session that was opened uses the model that its thread is set to, where the reply says
/// so, and else keeps its own.
pub proof fn opened_sessions_use_their_model<T, S, W>(
    state: BridgeView<T, S, W>,
    session: Seq<char>,
    response: JsonView,
)
    ensures
        ({
            let after = state.after_opening(session, response);
            let set = match response.get2("thread"@, "settings"@) {
                Some(settings) => Some(settings),
                None => response.get("threadSettings"@),
            };
            match set {
                Some(settings) => match settings.get("model"@) {
                    Some(JsonView::Text(model)) => at(after.models, session) == Some(model),
                    _ => after == state,
                },
                None => after == state,
            }
        }),
{
}

/// A session always has options once it was asked for them: its own, or else those that every
/// session starts with.
pub proof fn sessions_have_options<T, S, W>(
    state: BridgeView<T, S, W>,
    session: Seq<char>,
    other: Seq<char>,
)
    requires
        other != session,
    ensures
        ({
            let after = state.with_options(session);
            &&& after.options.contains_key(session)
            &&& state.options.contains_key(session) ==> after == state
            &&& !state.options.contains_key(session) ==> after.options[session]
                == default_options()
            &&& at(after.options, other) == at(state.options, other)
            &&& after.models == state.models && after.turns == state.turns
        }),
{
}

/// The end of a turn is told to nobody who waits for another turn of the session, or for a turn
/// of that name in another session.
pub proof fn turns_are_told_apart<T, S, W>(
    state: TurnsView<T, S, W>,
    session: Seq<char>,
    turn: Seq<char>,
    reason: StopReason,
    other_session: Seq<char>,
    other_turn: Seq<char>,
    waiter: W,
)
    requires
        other_turn != turn,
        other_session != session,
        state.end_of(session, other_turn) is None,
        state.end_of(other_session, turn) is None,
    ensures
        state.after_wait(session, other_turn, waiter).after_end(session, turn, reason).waiter_for(
            session,
            other_turn,
        ) == Some(waiter),
        state.after_wait(other_session, turn, waiter).after_end(session, turn, reason).waiter_for(
            other_session,
            turn,
        ) == Some(waiter),
{
    let head = session + ":"@;
    assert((head + turn).skip(head.len() as int) =~= turn);
    assert((head + other_turn).skip(head.len() as int) =~= other_turn);
    let tail = ":"@ + turn;
    let a = session + ":"@ + turn;
    let b = other_session + ":"@ + turn;
    assert(a =~= session + tail);
    assert(b =~= other_session + tail);
    if a == b {
        assert(a.take(a.len() - tail.len()) =~= session);
        assert(b.take(b.len() - tail.len()) =~= other_session);
    }
}

} // verus!
