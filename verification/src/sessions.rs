//! Sessions: how they are listed, started, resumed and prompted.

use chrono::TimeZone;

use vstd::prelude::*;

use crate::calls::{
    call, plain_problem, problem, problem_after, problem_with_cause, thread_params, thread_query,
    CallView, Problem, ProblemView, RpcCall,
};
use crate::history::{history_updates_from_thread_read, thread_history};
use crate::json::{fields, no_entries, read_text, ref_views, text_in, with, Json, JsonView};
use crate::models::{remembered_model, thread_model};
use crate::protocol::{update_views, SessionUpdate, UpdateView};
use crate::slash::{listed_sources, source_kinds};
use crate::text::{either, opt_string, opt_text, owned, take_all, take_step};

verus! {

// ---------------------------------------------------------------------------
// Listing
// ---------------------------------------------------------------------------

/// A session that can be opened. Times are in seconds since the start of 1970.
#[derive(Debug, PartialEq, Eq)]
pub struct AgentSessionInfo {
    pub id: String,
    pub title: Option<String>,
    pub cwd: Option<String>,
    pub updated_at: Option<i64>,
    pub created_at: Option<i64>,
}

/// What is said of a session that can be opened.
pub struct SessionInfoView {
    pub id: Seq<char>,
    pub title: Option<Seq<char>>,
    pub cwd: Option<Seq<char>>,
    pub updated_at: Option<i64>,
    pub created_at: Option<i64>,
}

impl View for AgentSessionInfo {
    type V = SessionInfoView;

    open spec fn view(&self) -> SessionInfoView {
        SessionInfoView {
            id: self.id@,
            title: opt_string(self.title),
            cwd: opt_string(self.cwd),
            updated_at: self.updated_at,
            created_at: self.created_at,
        }
    }
}

/// What is said of some sessions.
pub open spec fn info_views(sessions: Seq<AgentSessionInfo>) -> Seq<SessionInfoView> {
    Seq::new(sessions.len(), |i: int| sessions[i]@)
}

/// A time that can be shown: the years from -262143 to 262142 have dates.
pub open spec fn dated(seconds: Option<i64>) -> Option<i64> {
    match seconds {
        Some(seconds) => if -8334601228800 <= seconds <= 8210266876799 {
            Some(seconds)
        } else {
            None
        },
        None => None,
    }
}

/// Calls `chrono::TimeZone::timestamp_opt` of `chrono::Utc` and takes the only result,
/// which is that time where its date is within the range of `chrono::NaiveDate`, from
/// the first day of the year -262143 to the last of the year 262142; and takes the
/// seconds back from it with `chrono::DateTime::timestamp`.
#[verifier::external_body]
fn date_of(seconds: i64) -> (time: Option<i64>)
    ensures
        time == dated(Some(seconds)),
{
    chrono::Utc.timestamp_opt(seconds, 0).single().map(|time| time.timestamp())
}

/// A thread that Codex lists, as a session; nothing where it has no id.
pub open spec fn listed_session(value: JsonView) -> Option<SessionInfoView> {
    match value.text_at("id"@) {
        Some(id) => Some(
            SessionInfoView {
                id,
                title: value.text_at("name"@),
                cwd: value.text_at("cwd"@),
                updated_at: dated(value.i64_at("updatedAt"@)),
                created_at: dated(value.i64_at("createdAt"@)),
            },
        ),
        None => None,
    }
}

/// The threads that Codex lists, as sessions.
pub open spec fn listed_sessions(values: Seq<JsonView>) -> Seq<SessionInfoView>
    decreases values.len(),
{
    if values.len() == 0 {
        Seq::empty()
    } else {
        let sessions = listed_sessions(values.drop_last());
        match listed_session(values.last()) {
            Some(session) => sessions.push(session),
            None => sessions,
        }
    }
}

/// The parameters with which sessions are listed.
pub open spec fn list_query(cursor: Option<Seq<char>>, cwd: Option<Seq<char>>) -> JsonView {
    let first = match cursor {
        Some(cursor) => fields().push(("cursor"@, JsonView::Text(cursor))),
        None => fields(),
    };
    let second = match cwd {
        Some(cwd) => first.push(("cwd"@, JsonView::Text(cwd))),
        None => first,
    };
    JsonView::Object(
        second.push(("sourceKinds"@, listed_sources())).push(("limit"@, JsonView::Int(50))),
    )
}

/// A time that can be shown.
fn read_time(seconds: Option<i64>) -> (time: Option<i64>)
    ensures
        time == dated(seconds),
{
    match seconds {
        Some(seconds) => date_of(seconds),
        None => None,
    }
}

/// A thread that Codex lists, as a session.
pub fn agent_session_info_from_thread_value(value: &Json) -> (session: Option<AgentSessionInfo>)
    ensures
        match session {
            Some(session) => listed_session(value@) == Some(session@),
            None => listed_session(value@) is None,
        },
{
    match value.text_at("id") {
        Some(id) => Some(
            AgentSessionInfo {
                id: id.to_owned(),
                title: owned(value.text_at("name")),
                cwd: owned(value.text_at("cwd")),
                updated_at: read_time(value.i64_at("updatedAt")),
                created_at: read_time(value.i64_at("createdAt")),
            },
        ),
        None => None,
    }
}

/// The request with which sessions are listed.
pub open spec fn list_request(cursor: Option<Seq<char>>, cwd: Option<Seq<char>>) -> CallView {
    CallView { method: "thread/list"@, params: list_query(cursor, cwd) }
}

/// The request with which sessions are listed.
pub fn list_sessions_call(cursor: Option<&str>, cwd: Option<&str>) -> (made: RpcCall)
    ensures
        made@ == list_request(opt_text(cursor), opt_text(cwd)),
{
    let mut entries = no_entries();
    if let Some(cursor) = cursor {
        entries = with(entries, "cursor", Json::text(cursor));
    }
    if let Some(cwd) = cwd {
        entries = with(entries, "cwd", Json::text(cwd));
    }
    entries = with(entries, "sourceKinds", source_kinds());
    call("thread/list", Json::object(with(entries, "limit", Json::UInt(50))))
}

/// The sessions that a response lists, and where the next ones start.
pub open spec fn session_page(response: JsonView) -> (Seq<SessionInfoView>, Option<Seq<char>>) {
    (listed_sessions(response.items_at("data"@)), response.text_at("nextCursor"@))
}

/// The sessions that a response lists, and where the next ones start.
pub fn list_sessions(response: &Json) -> (listed: (Vec<AgentSessionInfo>, Option<String>))
    ensures
        (info_views(listed.0@), opt_string(listed.1)) == session_page(response@),
{
    let values = response.items_at("data");
    let ghost all = ref_views(values@);
    let mut sessions: Vec<AgentSessionInfo> = Vec::new();
    let mut i: usize = 0;
    proof {
        take_all(all);
        assert(info_views(sessions@) =~= listed_sessions(all.take(0)));
    }
    while i < values.len()
        invariant
            i <= values@.len(),
            all == ref_views(values@),
            info_views(sessions@) == listed_sessions(all.take(i as int)),
        decreases values@.len() - i,
    {
        proof {
            take_step(all, i as int);
        }
        let ghost before = sessions@;
        if let Some(session) = agent_session_info_from_thread_value(values[i]) {
            sessions.push(session);
            assert(info_views(sessions@) =~= info_views(before).push(session@));
        }
        i = i + 1;
    }
    proof {
        take_all(all);
    }
    (sessions, owned(response.text_at("nextCursor")))
}

// ---------------------------------------------------------------------------
// Putting away
// ---------------------------------------------------------------------------

/// What can be done to a session in the list.
#[derive(Clone, Copy, Debug, PartialEq, Eq, Structural)]
pub enum SessionChange {
    Archive,
    Unarchive,
    Delete,
}

impl SessionChange {
    /// The method that does it.
    pub open spec fn method(self) -> Seq<char> {
        match self {
            SessionChange::Archive => "thread/archive"@,
            SessionChange::Unarchive => "thread/unarchive"@,
            SessionChange::Delete => "thread/delete"@,
        }
    }

    /// What is said where it fails.
    pub open spec fn failure(self) -> Seq<char> {
        match self {
            SessionChange::Archive => "failed to archive native Codex thread"@,
            SessionChange::Unarchive => "failed to unarchive native Codex thread"@,
            SessionChange::Delete => "failed to delete native Codex thread"@,
        }
    }
}

/// The request that changes a session in the list.
pub open spec fn change_request(change: SessionChange, session: Seq<char>) -> CallView {
    CallView { method: change.method(), params: thread_query(session) }
}

/// The request that changes a session in the list.
pub fn session_change_call(change: SessionChange, session: &str) -> (made: RpcCall)
    ensures
        made@ == change_request(change, session@),
{
    let method = match change {
        SessionChange::Archive => "thread/archive",
        SessionChange::Unarchive => "thread/unarchive",
        SessionChange::Delete => "thread/delete",
    };
    call(method, thread_params(session))
}

/// What a request without a result comes to: nothing, or the problem that it failed with.
pub open spec fn ending(reply: Result<(), &str>, failure: Seq<char>) -> Result<(), ProblemView> {
    match reply {
        Ok(()) => Ok(()),
        Err(cause) => Err(problem_after(failure, cause@)),
    }
}

/// What a request without a result came to, as contracts speak of it.
pub open spec fn done_view(done: Result<(), Problem>) -> Result<(), ProblemView> {
    match done {
        Ok(()) => Ok(()),
        Err(problem) => Err(problem@),
    }
}

/// What a change comes to: where it succeeded, the list is to be read again.
pub open spec fn change_end(change: SessionChange, reply: Result<(), &str>) -> Result<
    (),
    ProblemView,
> {
    ending(reply, change.failure())
}

/// What a change comes to: where it succeeded, the list is to be read again.
pub fn session_changed(change: SessionChange, reply: Result<(), &str>) -> (done: Result<(), Problem>)
    ensures
        done_view(done) == change_end(change, reply),
{
    match reply {
        Ok(()) => Ok(()),
        Err(cause) => {
            let failure = match change {
                SessionChange::Archive => "failed to archive native Codex thread",
                SessionChange::Unarchive => "failed to unarchive native Codex thread",
                SessionChange::Delete => "failed to delete native Codex thread",
            };
            Err(problem_with_cause(failure, cause))
        },
    }
}

// ---------------------------------------------------------------------------
// Connecting
// ---------------------------------------------------------------------------

/// Why the native server is not used, where it is not.
pub open spec fn refusal(local: bool, disabled: bool) -> Option<Seq<char>> {
    if !local {
        Some("native Codex app-server is only available for local projects"@)
    } else if disabled {
        Some("native Codex app-server disabled by ZED_CODEX_NATIVE=0"@)
    } else {
        None
    }
}

/// Why the native server is not used, where it is not.
pub fn connect_refusal(local: bool, disabled: bool) -> (why: Option<String>)
    ensures
        opt_string(why) == refusal(local, disabled),
{
    if !local {
        Some("native Codex app-server is only available for local projects".to_owned())
    } else if disabled {
        Some("native Codex app-server disabled by ZED_CODEX_NATIVE=0".to_owned())
    } else {
        None
    }
}

/// The request with which the bridge introduces itself.
pub open spec fn introduction(version: Seq<char>) -> CallView {
    let client = JsonView::Object(
        fields().push(("name"@, JsonView::Text("Zed"@))).push(("version"@, JsonView::Text(version))),
    );
    let capabilities = JsonView::Object(
        fields().push(("experimentalApi"@, JsonView::Bool(true))),
    );
    CallView {
        method: "initialize"@,
        params: JsonView::Object(
            fields().push(("clientInfo"@, client)).push(("capabilities"@, capabilities)),
        ),
    }
}

/// The request with which the bridge introduces itself.
pub fn initialize_call(version: &str) -> (made: RpcCall)
    ensures
        made@ == introduction(version@),
{
    let client = with(no_entries(), "name", Json::text("Zed"));
    let client = Json::object(with(client, "version", Json::text(version)));
    let capabilities = Json::object(with(no_entries(), "experimentalApi", Json::Bool(true)));
    let entries = with(no_entries(), "clientInfo", client);
    call("initialize", Json::object(with(entries, "capabilities", capabilities)))
}

/// What introducing itself comes to.
pub open spec fn introduced(reply: Result<(), &str>) -> Result<(), ProblemView> {
    ending(reply, "failed to initialize Codex app-server"@)
}

/// What introducing itself comes to.
pub fn initialized(reply: Result<(), &str>) -> (done: Result<(), Problem>)
    ensures
        done_view(done) == introduced(reply),
{
    match reply {
        Ok(()) => Ok(()),
        Err(cause) => Err(problem_with_cause("failed to initialize Codex app-server", cause)),
    }
}

// ---------------------------------------------------------------------------
// Starting and resuming
// ---------------------------------------------------------------------------

/// A session that was opened: its id, its title, and the model that it is set to.
#[derive(Debug, PartialEq, Eq)]
pub struct OpenedSession {
    pub id: String,
    pub title: Option<String>,
    pub model: Option<String>,
}

/// What is said of a session that was opened.
pub struct OpenedView {
    pub id: Seq<char>,
    pub title: Option<Seq<char>>,
    pub model: Option<Seq<char>>,
}

impl View for OpenedSession {
    type V = OpenedView;

    open spec fn view(&self) -> OpenedView {
        OpenedView { id: self.id@, title: opt_string(self.title), model: opt_string(self.model) }
    }
}

/// Entries with a model added, where there is one.
pub open spec fn with_model(
    entries: Seq<(Seq<char>, JsonView)>,
    model: Option<Seq<char>>,
) -> Seq<(Seq<char>, JsonView)> {
    match model {
        Some(model) => entries.push(("model"@, JsonView::Text(model))),
        None => entries,
    }
}

/// The request with which a session is started; a session needs a working directory.
pub open spec fn new_session_request(cwd: Option<Seq<char>>, model: Option<Seq<char>>) -> Result<
    CallView,
    ProblemView,
> {
    match cwd {
        Some(cwd) => Ok(
            CallView {
                method: "thread/start"@,
                params: JsonView::Object(
                    with_model(
                        fields().push(("cwd"@, JsonView::Text(cwd))).push(
                            ("threadSource"@, JsonView::Text("appServer"@)),
                        ),
                        model,
                    ),
                ),
            },
        ),
        None => Err(plain_problem("Working directory cannot be empty"@)),
    }
}

/// The session that was started.
pub open spec fn started_session(reply: Result<JsonView, Seq<char>>) -> Result<
    OpenedView,
    ProblemView,
> {
    match reply {
        Err(error) => Err(problem_after("failed to start native Codex thread"@, error)),
        Ok(response) => match text_in(response.get2("thread"@, "id"@)) {
            Some(id) => Ok(
                OpenedView {
                    id,
                    title: text_in(response.get2("thread"@, "name"@)),
                    model: thread_model(response),
                },
            ),
            None => Err(plain_problem("Codex thread/start response did not include thread.id"@)),
        },
    }
}

/// The request with which a session is resumed.
pub open spec fn resume_request(
    session: Seq<char>,
    cwd: Option<Seq<char>>,
    model: Option<Seq<char>>,
) -> Result<CallView, ProblemView> {
    match cwd {
        Some(cwd) => Ok(
            CallView {
                method: "thread/resume"@,
                params: JsonView::Object(
                    with_model(
                        fields().push(("threadId"@, JsonView::Text(session))).push(
                            ("cwd"@, JsonView::Text(cwd)),
                        ),
                        model,
                    ),
                ),
            },
        ),
        None => Err(plain_problem("Working directory cannot be empty"@)),
    }
}

/// The session that was resumed: a title that is given goes before the one of the
/// thread.
pub open spec fn resumed_session(
    session: Seq<char>,
    title: Option<Seq<char>>,
    reply: Result<JsonView, Seq<char>>,
) -> Result<OpenedView, ProblemView> {
    match reply {
        Err(error) => Err(problem_after("failed to resume native Codex thread"@, error)),
        Ok(response) => Ok(
            OpenedView {
                id: session,
                title: either(title, text_in(response.get2("thread"@, "name"@))),
                model: thread_model(response),
            },
        ),
    }
}

/// The request with which the history of a session is read, where it is to be read.
pub open spec fn history_request(session: Seq<char>, load_history: bool) -> Option<CallView> {
    if load_history {
        Some(
            CallView {
                method: "thread/read"@,
                params: JsonView::Object(
                    fields().push(("threadId"@, JsonView::Text(session))).push(
                        ("includeTurns"@, JsonView::Bool(true)),
                    ),
                ),
            },
        )
    } else {
        None
    }
}

/// What a reply says.
pub open spec fn reply_view(reply: Result<&Json, &str>) -> Result<JsonView, Seq<char>> {
    match reply {
        Ok(response) => Ok(response@),
        Err(error) => Err(error@),
    }
}

/// What a request or a problem says.
pub open spec fn call_view(made: Result<RpcCall, Problem>) -> Result<CallView, ProblemView> {
    match made {
        Ok(made) => Ok(made@),
        Err(problem) => Err(problem@),
    }
}

/// What a session that was opened, or a problem, says.
pub open spec fn opened_view(opened: Result<OpenedSession, Problem>) -> Result<
    OpenedView,
    ProblemView,
> {
    match opened {
        Ok(opened) => Ok(opened@),
        Err(problem) => Err(problem@),
    }
}

/// The request with which a session is started.
pub fn new_session_call(cwd: Option<&str>, model: Option<&str>) -> (made: Result<RpcCall, Problem>)
    ensures
        call_view(made) == new_session_request(opt_text(cwd), opt_text(model)),
{
    let cwd = match cwd {
        Some(cwd) => cwd,
        None => return Err(problem("Working directory cannot be empty")),
    };
    let mut entries = with(no_entries(), "cwd", Json::text(cwd));
    entries = with(entries, "threadSource", Json::text("appServer"));
    if let Some(model) = model {
        entries = with(entries, "model", Json::text(model));
    }
    Ok(call("thread/start", Json::object(entries)))
}

/// The session that was started.
pub fn new_session_opened(reply: Result<&Json, &str>) -> (opened: Result<OpenedSession, Problem>)
    ensures
        opened_view(opened) == started_session(reply_view(reply)),
{
    let response = match reply {
        Ok(response) => response,
        Err(error) => return Err(
            problem_with_cause("failed to start native Codex thread", error),
        ),
    };
    match read_text(response.get2("thread", "id")) {
        Some(id) => Ok(
            OpenedSession {
                id: id.to_owned(),
                title: owned(read_text(response.get2("thread", "name"))),
                model: remembered_model(response),
            },
        ),
        None => Err(problem("Codex thread/start response did not include thread.id")),
    }
}

/// The request with which a session is resumed.
pub fn open_existing_session_call(
    session: &str,
    cwd: Option<&str>,
    model: Option<&str>,
) -> (made: Result<RpcCall, Problem>)
    ensures
        call_view(made) == resume_request(session@, opt_text(cwd), opt_text(model)),
{
    let cwd = match cwd {
        Some(cwd) => cwd,
        None => return Err(problem("Working directory cannot be empty")),
    };
    let mut entries = with(no_entries(), "threadId", Json::text(session));
    entries = with(entries, "cwd", Json::text(cwd));
    if let Some(model) = model {
        entries = with(entries, "model", Json::text(model));
    }
    Ok(call("thread/resume", Json::object(entries)))
}

/// The session that was resumed.
pub fn existing_session_opened(
    session: &str,
    title: Option<&str>,
    reply: Result<&Json, &str>,
) -> (opened: Result<OpenedSession, Problem>)
    ensures
        opened_view(opened) == resumed_session(session@, opt_text(title), reply_view(reply)),
{
    match reply {
        Ok(response) => {
            let title = match title {
                Some(title) => Some(title),
                None => read_text(response.get2("thread", "name")),
            };
            Ok(
                OpenedSession {
                    id: session.to_owned(),
                    title: owned(title),
                    model: remembered_model(response),
                },
            )
        },
        Err(error) => Err(problem_with_cause("failed to resume native Codex thread", error)),
    }
}

/// The request with which the history of a session is read, where it is to be read.
pub fn read_history_call(session: &str, load_history: bool) -> (made: Option<RpcCall>)
    ensures
        match made {
            Some(made) => history_request(session@, load_history) == Some(made@),
            None => history_request(session@, load_history) is None,
        },
{
    if load_history {
        let entries = with(no_entries(), "threadId", Json::text(session));
        Some(call("thread/read", Json::object(with(entries, "includeTurns", Json::Bool(true)))))
    } else {
        None
    }
}

/// The session updates of the history that was read; none where it was not read.
pub open spec fn history_in(reply: Option<Result<&Json, &str>>) -> Result<
    Seq<UpdateView>,
    ProblemView,
> {
    match reply {
        None => Ok(Seq::empty()),
        Some(Ok(response)) => Ok(thread_history(response@)),
        Some(Err(error)) => Err(
            problem_after("failed to read native Codex thread history"@, error@),
        ),
    }
}

/// The session updates of the history that was read; none where it was not read.
pub fn read_history(reply: Option<Result<&Json, &str>>) -> (updates: Result<
    Vec<SessionUpdate>,
    Problem,
>)
    ensures
        match updates {
            Ok(updates) => history_in(reply) == Ok::<Seq<UpdateView>, ProblemView>(
                update_views(updates@),
            ),
            Err(problem) => history_in(reply) == Err::<Seq<UpdateView>, ProblemView>(problem@),
        },
{
    match reply {
        None => {
            let updates: Vec<SessionUpdate> = Vec::new();
            assert(update_views(updates@) =~= Seq::<UpdateView>::empty());
            Ok(updates)
        },
        Some(Ok(response)) => Ok(history_updates_from_thread_read(response)),
        Some(Err(error)) => Err(
            problem_with_cause("failed to read native Codex thread history", error),
        ),
    }
}

} // verus!
