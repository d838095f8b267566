//! The turns of sessions: which turn is running, who waits for a turn to start or to
//! end, and which turns ended before anybody waited for them.

use vstd::prelude::*;

use crate::items::is_text;
use crate::calls::{call, CallView, RpcCall};
use crate::json::{fields, no_entries, read_text, text_in, with, Json, JsonView};
use crate::protocol::StopReason;
use crate::table::{at, distinct_keys, entries_map, Table};
use crate::text::{concat3, opt_string};

verus! {

/// A session: the thread that shows it, and the turn that is running.
pub struct Session<T> {
    pub thread: T,
    pub active_turn: Option<String>,
}

/// What is known of sessions and their turns. `S` waits for a turn to start, `W` for
/// a turn to end.
pub struct TurnTracker<T, S, W> {
    sessions: Table<Session<T>>,
    starts: Table<S>,
    pending: Table<W>,
    completed: Table<StopReason>,
}

/// What is known of sessions and their turns, as contracts speak of it: turns are
/// named by their session and their id.
pub struct TurnsView<T, S, W> {
    pub sessions: Map<Seq<char>, (T, Option<Seq<char>>)>,
    pub starts: Map<Seq<char>, S>,
    pub pending: Map<Seq<char>, W>,
    pub completed: Map<Seq<char>, StopReason>,
}

/// What a table of sessions says.
pub open spec fn sessions_view<T>(table: Map<Seq<char>, Session<T>>) -> Map<
    Seq<char>,
    (T, Option<Seq<char>>),
> {
    Map::new(
        |id: Seq<char>| table.contains_key(id),
        |id: Seq<char>| (table[id].thread, opt_string(table[id].active_turn)),
    )
}

impl<T, S, W> View for TurnTracker<T, S, W> {
    type V = TurnsView<T, S, W>;

    closed spec fn view(&self) -> TurnsView<T, S, W> {
        TurnsView {
            sessions: sessions_view(self.sessions@),
            starts: self.starts@,
            pending: self.pending@,
            completed: self.completed@,
        }
    }
}

/// The name of a turn.
pub open spec fn key_of(session: Seq<char>, turn: Seq<char>) -> Seq<char> {
    session + ":"@ + turn
}

/// The name of a turn.
pub fn turn_key(session: &str, turn: &str) -> (key: String)
    ensures
        key@ == key_of(session@, turn@),
{
    concat3(session, ":", turn)
}

impl<T, S, W> TurnsView<T, S, W> {
    /// With a session added, in which no turn is running.
    pub open spec fn with_session(self, session: Seq<char>, thread: T) -> Self {
        TurnsView { sessions: self.sessions.insert(session, (thread, None)), ..self }
    }

    /// With somebody waiting for the next turn of a session to start.
    pub open spec fn with_watch(self, session: Seq<char>, waiter: S) -> Self {
        TurnsView { starts: self.starts.insert(session, waiter), ..self }
    }

    /// With nobody waiting any more for the next turn of a session to start.
    pub open spec fn without_watch(self, session: Seq<char>) -> Self {
        TurnsView { starts: self.starts.remove(session), ..self }
    }

    /// With nobody waiting any more for a turn to end.
    pub open spec fn closed(self) -> Self {
        TurnsView { pending: Map::empty(), ..self }
    }

    /// The request with which the turn is interrupted that is running in a session.
    pub open spec fn interruption(self, session: Seq<char>) -> Option<CallView> {
        if self.sessions.contains_key(session) {
            match self.sessions[session].1 {
                Some(turn) => Some(
                    CallView {
                        method: "turn/interrupt"@,
                        params: JsonView::Object(
                            fields().push(("threadId"@, JsonView::Text(session))).push(
                                ("turnId"@, JsonView::Text(turn)),
                            ),
                        ),
                    },
                ),
                None => None,
            }
        } else {
            None
        }
    }

    /// With a turn running in a session, where the session is known.
    pub open spec fn with_active(self, session: Seq<char>, turn: Option<Seq<char>>) -> Self {
        if self.sessions.contains_key(session) {
            TurnsView {
                sessions: self.sessions.insert(session, (self.sessions[session].0, turn)),
                ..self
            }
        } else {
            self
        }
    }

    /// After a turn has ended: whoever waits for it is told, and else it is remembered
    /// that it ended.
    pub open spec fn after_end(
        self,
        session: Seq<char>,
        turn: Seq<char>,
        reason: StopReason,
    ) -> Self {
        let idle = self.with_active(session, None);
        let key = key_of(session, turn);
        if self.pending.contains_key(key) {
            TurnsView { pending: self.pending.remove(key), ..idle }
        } else {
            TurnsView { completed: self.completed.insert(key, reason), ..idle }
        }
    }

    /// Who is told that a turn has ended.
    pub open spec fn waiter_for(self, session: Seq<char>, turn: Seq<char>) -> Option<W> {
        at(self.pending, key_of(session, turn))
    }

    /// After somebody began to wait for a turn: nothing is left to wait for where the
    /// turn has ended already.
    pub open spec fn after_wait(self, session: Seq<char>, turn: Seq<char>, waiter: W) -> Self {
        let busy = self.with_active(session, Some(turn));
        let key = key_of(session, turn);
        if self.completed.contains_key(key) {
            TurnsView { completed: self.completed.remove(key), ..busy }
        } else {
            TurnsView { pending: self.pending.insert(key, waiter), ..busy }
        }
    }

    /// How a turn ended that ended before anybody waited for it.
    pub open spec fn end_of(self, session: Seq<char>, turn: Seq<char>) -> Option<StopReason> {
        at(self.completed, key_of(session, turn))
    }
}

/// The session and the turn that a notification is on.
pub open spec fn named_turn(params: JsonView) -> Option<(Seq<char>, Seq<char>)> {
    match (params.text_at("threadId"@), text_in(params.get2("turn"@, "id"@))) {
        (Some(thread), Some(turn)) => Some((thread, turn)),
        _ => None,
    }
}

/// How a turn ended.
pub open spec fn reason_of(params: JsonView) -> StopReason {
    if text_in(params.get2("turn"@, "status"@)) == Some("interrupted"@) {
        StopReason::Cancelled
    } else {
        StopReason::EndTurn
    }
}

/// The session and the turn that a notification is on.
fn read_turn<'a>(params: &'a Json) -> (named: Option<(&'a str, &'a str)>)
    ensures
        match named {
            Some((thread, turn)) => named_turn(params@) == Some((thread@, turn@)),
            None => named_turn(params@) is None,
        },
{
    match (params.text_at("threadId"), read_text(params.get2("turn", "id"))) {
        (Some(thread), Some(turn)) => Some((thread, turn)),
        _ => None,
    }
}

impl<T, S, W> TurnTracker<T, S, W> {
    /// Nothing is known yet.
    pub fn new() -> (tracker: Self)
        ensures
            tracker@ == (TurnsView::<T, S, W> {
                sessions: Map::empty(),
                starts: Map::empty(),
                pending: Map::empty(),
                completed: Map::empty(),
            }),
    {
        let tracker = TurnTracker {
            sessions: Table::new(),
            starts: Table::new(),
            pending: Table::new(),
            completed: Table::new(),
        };
        assert(tracker@.sessions =~= Map::<Seq<char>, (T, Option<Seq<char>>)>::empty());
        tracker
    }

    /// Adds a session, in which no turn is running.
    pub fn add_session(&mut self, session: &str, thread: T)
        ensures
            final(self)@ == old(self)@.with_session(session@, thread),
    {
        self.sessions.insert(session, Session { thread, active_turn: None });
        assert(self@.sessions =~= old(self)@.sessions.insert(session@, (thread, None)));
    }

    /// The thread that shows a session.
    pub fn thread(&self, session: &str) -> (thread: Option<&T>)
        ensures
            match thread {
                Some(thread) => self@.sessions.contains_key(session@)
                    && self@.sessions[session@].0 == *thread,
                None => !self@.sessions.contains_key(session@),
            },
    {
        match self.sessions.get(session) {
            Some(session) => Some(&session.thread),
            None => None,
        }
    }

    /// The sessions that are known.
    pub fn sessions(&self) -> (sessions: &Table<Session<T>>)
        ensures
            sessions_view(sessions@) == self@.sessions,
            sessions@.dom() == self@.sessions.dom(),
    {
        assert(self.sessions@.dom() =~= self@.sessions.dom());
        &self.sessions
    }

    /// Sets the turn that is running in a session, where the session is known.
    fn set_active(&mut self, session: &str, turn: Option<String>)
        ensures
            final(self)@ == old(self)@.with_active(session@, opt_string(turn)),
    {
        match self.sessions.remove(session) {
            Some(known) => {
                self.sessions.insert(session, Session { thread: known.thread, active_turn: turn });
                assert(self@.sessions =~= old(self)@.with_active(
                    session@,
                    opt_string(turn),
                ).sessions);
            },
            None => {
                assert(self@.sessions =~= old(self)@.sessions);
            },
        }
    }

    /// Begins to wait for the next turn of a session to start.
    pub fn watch_next_native_turn_start(&mut self, session: &str, waiter: S)
        ensures
            final(self)@ == old(self)@.with_watch(session@, waiter),
    {
        self.starts.insert(session, waiter);
    }

    /// Stops waiting for the next turn of a session to start.
    pub fn forget_turn_start(&mut self, session: &str)
        ensures
            final(self)@ == old(self)@.without_watch(session@),
    {
        let _waiter = self.starts.remove(session);
    }

    /// Takes note that a turn has started, and returns who is to be told, with the id
    /// of the turn.
    pub fn start_turn(&mut self, params: &Json) -> (told: Option<(S, String)>)
        ensures
            match named_turn(params@) {
                Some((thread, turn)) => {
                    &&& final(self)@ == old(self)@.without_watch(thread)
                    &&& match told {
                        Some((waiter, id)) => at(old(self)@.starts, thread) == Some(waiter) && id@
                            == turn,
                        None => at(old(self)@.starts, thread) is None,
                    }
                },
                None => final(self)@ == old(self)@ && told is None,
            },
    {
        match read_turn(params) {
            Some((thread, turn)) => match self.starts.remove(thread) {
                Some(waiter) => Some((waiter, turn.to_owned())),
                None => None,
            },
            None => None,
        }
    }

    /// Takes note that a turn has ended, and returns who is to be told, with how it
    /// ended.
    pub fn complete_turn(&mut self, params: &Json) -> (told: Option<(W, StopReason)>)
        ensures
            match named_turn(params@) {
                Some((thread, turn)) => {
                    &&& final(self)@ == old(self)@.after_end(thread, turn, reason_of(params@))
                    &&& match told {
                        Some((waiter, reason)) => old(self)@.waiter_for(thread, turn) == Some(
                            waiter,
                        ) && reason == reason_of(params@),
                        None => old(self)@.waiter_for(thread, turn) is None,
                    }
                },
                None => final(self)@ == old(self)@ && told is None,
            },
    {
        let (thread, turn) = match read_turn(params) {
            Some(named) => named,
            None => return None,
        };
        let reason = if is_text(read_text(params.get2("turn", "status")), "interrupted") {
            StopReason::Cancelled
        } else {
            StopReason::EndTurn
        };
        self.set_active(thread, None);
        let key = turn_key(thread, turn);
        match self.pending.remove(key.as_str()) {
            Some(waiter) => Some((waiter, reason)),
            None => {
                assert(self.pending@ =~= old(self)@.pending);
                self.completed.insert(key.as_str(), reason);
                None
            },
        }
    }

    /// Begins to wait for a turn to end, and returns how it ended where it has ended
    /// already.
    pub fn wait_for_native_turn(&mut self, session: &str, turn: &str, waiter: W) -> (ended: Option<
        StopReason,
    >)
        ensures
            final(self)@ == old(self)@.after_wait(session@, turn@, waiter),
            ended == old(self)@.end_of(session@, turn@),
    {
        self.set_active(session, Some(turn.to_owned()));
        let key = turn_key(session, turn);
        match self.completed.remove(key.as_str()) {
            Some(reason) => Some(reason),
            None => {
                assert(self.completed@ =~= old(self)@.completed);
                self.pending.insert(key.as_str(), waiter);
                None
            },
        }
    }

    /// Takes all who wait for a turn to end: the app-server is gone.
    pub fn close(&mut self) -> (told: Vec<(String, W)>)
        ensures
            final(self)@ == old(self)@.closed(),
            distinct_keys(told@),
            entries_map(told@) == old(self)@.pending,
    {
        self.pending.drain()
    }

    /// The request with which the turn is interrupted that is running in a session;
    /// nothing where none is.
    pub fn cancel(&self, session: &str) -> (made: Option<RpcCall>)
        ensures
            match made {
                Some(made) => self@.interruption(session@) == Some(made@),
                None => self@.interruption(session@) is None,
            },
    {
        match self.sessions.get(session) {
            Some(known) => match &known.active_turn {
                Some(turn) => {
                    let entries = with(no_entries(), "threadId", Json::text(session));
                    let params = Json::object(with(entries, "turnId", Json::text(turn.as_str())));
                    Some(call("turn/interrupt", params))
                },
                None => None,
            },
            None => None,
        }
    }
}

/// It does not matter whether a turn ends before or after somebody waits for it: in
/// either order the one who waits learns how it ended, once, and nothing is left of the
/// turn.
pub proof fn ends_are_told_in_either_order<T, S, W>(
    state: TurnsView<T, S, W>,
    session: Seq<char>,
    turn: Seq<char>,
    reason: StopReason,
    waiter: W,
)
    requires
        state.waiter_for(session, turn) is None,
        state.end_of(session, turn) is None,
    ensures
        ({
            let ended = state.after_end(session, turn, reason);
            let waited = state.after_wait(session, turn, waiter);
            &&& state.waiter_for(session, turn) is None
            &&& ended.end_of(session, turn) == Some(reason)
            &&& waited.waiter_for(session, turn) == Some(waiter)
            &&& ended.after_wait(session, turn, waiter).pending == state.pending
            &&& ended.after_wait(session, turn, waiter).completed == state.completed
            &&& waited.after_end(session, turn, reason).pending == state.pending
            &&& waited.after_end(session, turn, reason).completed == state.completed
        }),
{
    let key = key_of(session, turn);
    assert(state.completed.insert(key, reason).remove(key) =~= state.completed);
    assert(state.pending.insert(key, waiter).remove(key) =~= state.pending);
}

/// A turn that ended is the one that ended: what is known of other turns, and who waits
/// for them, stays as it was.
pub proof fn other_turns_are_not_touched<T, S, W>(
    state: TurnsView<T, S, W>,
    session: Seq<char>,
    turn: Seq<char>,
    reason: StopReason,
    other_session: Seq<char>,
    other_turn: Seq<char>,
)
    requires
        key_of(other_session, other_turn) != key_of(session, turn),
    ensures
        ({
            let ended = state.after_end(session, turn, reason);
            &&& ended.waiter_for(other_session, other_turn) == state.waiter_for(
                other_session,
                other_turn,
            )
            &&& ended.end_of(other_session, other_turn) == state.end_of(other_session, other_turn)
        }),
{
}

} // verus!
