//! What the requests that open, list and put away sessions say, and what their replies come
//! to.

use vstd::prelude::*;

use crate::calls::{CallView, ProblemView};
use crate::history::thread_history;
use crate::json::{found_in_more, Json, JsonView};
use crate::laws::questions::{object_of, object_of_two};
use crate::laws::words::reply_keys;
use crate::protocol::UpdateView;
use crate::sessions::{
    change_end, change_request, history_in, history_request, introduced, introduction, list_request,
    listed_sessions, new_session_request, refusal, resume_request, resumed_session, session_page,
    started_session, SessionChange, SessionInfoView,
};

verus! {

/// A request for a new session names the directory that it works in and the model, where there
/// is one; without a directory there is no request.
pub proof fn new_sessions_have_a_directory(cwd: Option<Seq<char>>, model: Option<Seq<char>>)
    ensures
        ({
            let made = new_session_request(cwd, model);
            let params = made->Ok_0.params;
            &&& made is Ok <==> cwd is Some
            &&& made is Ok ==> {
                &&& made->Ok_0.method == "thread/start"@
                &&& params.text_at("cwd"@) == cwd
                &&& params.text_at("threadSource"@) == Some("appServer"@)
                &&& params.text_at("model"@) == model
                &&& params.get("threadId"@) is None
            }
            &&& made is Err ==> made->Err_0 == (ProblemView {
                message: "Working directory cannot be empty"@,
                cause: None,
            })
        }),
{
    broadcast use found_in_more;

    reply_keys();
}

/// A request to resume a session names the session, the directory that it works in and the
/// model, where there is one; without a directory there is no request.
pub proof fn resumed_sessions_are_named(
    session: Seq<char>,
    cwd: Option<Seq<char>>,
    model: Option<Seq<char>>,
)
    ensures
        ({
            let made = resume_request(session, cwd, model);
            let params = made->Ok_0.params;
            &&& made is Ok <==> cwd is Some
            &&& made is Ok ==> {
                &&& made->Ok_0.method == "thread/resume"@
                &&& params.text_at("threadId"@) == Some(session)
                &&& params.text_at("cwd"@) == cwd
                &&& params.text_at("model"@) == model
            }
            &&& made is Err ==> made->Err_0.message == "Working directory cannot be empty"@
                && made->Err_0.cause is None
        }),
{
    broadcast use found_in_more;

    reply_keys();
}

/// The model that a reply says a thread is set to.
pub open spec fn model_in(response: JsonView) -> Option<Seq<char>> {
    let set = match response.get2("thread"@, "settings"@) {
        Some(settings) => Some(settings),
        None => response.get("threadSettings"@),
    };
    match set {
        Some(settings) => match settings.get("model"@) {
            Some(JsonView::Text(model)) => Some(model),
            _ => None,
        },
        None => None,
    }
}

/// A session that was started is known by the id that the reply gives, under the name and with
/// the model that it says; a reply without an id, and a request that failed, is a problem.
pub proof fn started_sessions_are_known_by_their_id(reply: Result<JsonView, Seq<char>>)
    ensures
        ({
            let opened = started_session(reply);
            match reply {
                Err(error) => opened is Err && opened->Err_0 == (ProblemView {
                    message: "failed to start native Codex thread"@,
                    cause: Some(error),
                }),
                Ok(response) => match response.get2("thread"@, "id"@) {
                    Some(JsonView::Text(id)) => {
                        &&& opened is Ok
                        &&& opened->Ok_0.id == id
                        &&& opened->Ok_0.model == model_in(response)
                        &&& opened->Ok_0.title == (match response.get2("thread"@, "name"@) {
                            Some(JsonView::Text(name)) => Some(name),
                            _ => None,
                        })
                    },
                    _ => opened is Err && opened->Err_0 == (ProblemView {
                        message: "Codex thread/start response did not include thread.id"@,
                        cause: None,
                    }),
                },
            }
        }),
{
}

/// A session that was resumed keeps its id, and its title where it had one; else it has the
/// name that the reply gives. It uses the model that the reply says.
pub proof fn resumed_sessions_keep_their_id(
    session: Seq<char>,
    title: Option<Seq<char>>,
    reply: Result<JsonView, Seq<char>>,
)
    ensures
        ({
            let opened = resumed_session(session, title, reply);
            match reply {
                Err(error) => opened is Err && opened->Err_0 == (ProblemView {
                    message: "failed to resume native Codex thread"@,
                    cause: Some(error),
                }),
                Ok(response) => {
                    &&& opened is Ok
                    &&& opened->Ok_0.id == session
                    &&& opened->Ok_0.model == model_in(response)
                    &&& title is Some ==> opened->Ok_0.title == title
                    &&& title is None ==> opened->Ok_0.title == (match response.get2(
                        "thread"@,
                        "name"@,
                    ) {
                        Some(JsonView::Text(name)) => Some(name),
                        _ => None,
                    })
                },
            }
        }),
{
}

/// The history of a session is asked for exactly where it is wanted, with its turns; what was
/// read is told, and what was not asked for is not.
pub proof fn histories_are_read_where_wanted(
    session: Seq<char>,
    wanted: bool,
    response: &Json,
    error: &str,
)
    ensures
        wanted ==> history_request(session, wanted) == Some(
            CallView {
                method: "thread/read"@,
                params: object_of_two(
                    "threadId"@,
                    JsonView::Text(session),
                    "includeTurns"@,
                    JsonView::Bool(true),
                ),
            },
        ),
        !wanted ==> history_request(session, wanted) is None,
        history_in(Some(Ok(response))) == Ok::<Seq<UpdateView>, ProblemView>(
            thread_history(response@),
        ),
        history_in(None) is Ok && history_in(None)->Ok_0.len() == 0,
        history_in(Some(Err(error))) == Err::<Seq<UpdateView>, ProblemView>(
            ProblemView {
                message: "failed to read native Codex thread history"@,
                cause: Some(error@),
            },
        ),
{
}

/// A change to a session in the list names that session and is made by its own method, and it
/// comes to what the reply says.
pub proof fn changes_name_their_session(
    change: SessionChange,
    session: Seq<char>,
    reply: Result<(), &str>,
)
    ensures
        ({
            let call = change_request(change, session);
            let end = change_end(change, reply);
            &&& call.params == object_of("threadId"@, JsonView::Text(session))
            &&& call.method == (match change {
                SessionChange::Archive => "thread/archive"@,
                SessionChange::Unarchive => "thread/unarchive"@,
                SessionChange::Delete => "thread/delete"@,
            })
            &&& match reply {
                Ok(()) => end is Ok,
                Err(cause) => end is Err && end->Err_0 == (ProblemView {
                    message: match change {
                        SessionChange::Archive => "failed to archive native Codex thread"@,
                        SessionChange::Unarchive => "failed to unarchive native Codex thread"@,
                        SessionChange::Delete => "failed to delete native Codex thread"@,
                    },
                    cause: Some(cause@),
                }),
            }
        }),
{
}

/// The bridge introduces itself by its version, and asks for what is experimental; it is
/// introduced where the reply says so.
pub proof fn the_bridge_introduces_itself(version: Seq<char>, reply: Result<(), &str>)
    ensures
        ({
            let call = introduction(version);
            &&& call.method == "initialize"@
            &&& call.params.get("clientInfo"@) == Some(
                object_of_two(
                    "name"@,
                    JsonView::Text("Zed"@),
                    "version"@,
                    JsonView::Text(version),
                ),
            )
            &&& call.params.get("capabilities"@) == Some(
                object_of("experimentalApi"@, JsonView::Bool(true)),
            )
            &&& match reply {
                Ok(()) => introduced(reply) is Ok,
                Err(cause) => introduced(reply) is Err && introduced(reply)->Err_0 == (
                ProblemView {
                    message: "failed to initialize Codex app-server"@,
                    cause: Some(cause@),
                }),
            }
        }),
{
    broadcast use found_in_more;

    reveal_strlit("clientInfo");
    reveal_strlit("capabilities");
    assert("clientInfo"@.len() != "capabilities"@.len());
}

/// The native server is used exactly for local projects, unless it was switched off; and where
/// it is not used, it is said which of the two it was.
pub proof fn the_server_is_used_locally(local: bool, disabled: bool)
    ensures
        refusal(local, disabled) is None <==> local && !disabled,
        !local ==> refusal(local, disabled) == Some(
            "native Codex app-server is only available for local projects"@,
        ),
        local && disabled ==> refusal(local, disabled) == Some(
            "native Codex app-server disabled by ZED_CODEX_NATIVE=0"@,
        ),
{
}

/// A request for a list of sessions goes on from where the last list ended, in the directory
/// that is asked for, and asks for sessions of the app-server only.
pub proof fn lists_go_on_where_they_ended(cursor: Option<Seq<char>>, cwd: Option<Seq<char>>)
    ensures
        ({
            let call = list_request(cursor, cwd);
            &&& call.method == "thread/list"@
            &&& call.params.text_at("cursor"@) == cursor
            &&& call.params.text_at("cwd"@) == cwd
            &&& call.params.get("limit"@) == Some(JsonView::Int(50))
            &&& call.params.get("sourceKinds"@) == Some(
                JsonView::Array(seq![JsonView::Text("appServer"@)]),
            )
        }),
{
    broadcast use found_in_more;

    reveal_strlit("cursor");
    reveal_strlit("cwd");
    reveal_strlit("limit");
    reveal_strlit("sourceKinds");
    assert("cursor"@.len() == 6 && "cwd"@.len() == 3 && "limit"@.len() == 5);
    assert("sourceKinds"@.len() == 11);
}

/// Whether a number of seconds is a date that can be told.
pub open spec fn is_a_date(seconds: int) -> bool {
    -8334601228800 <= seconds <= 8210266876799
}

/// That a session is what a list says of it.
pub open spec fn is_listed_as(session: SessionInfoView, value: JsonView) -> bool {
    &&& value.text_at("id"@) == Some(session.id)
    &&& session.title == value.text_at("name"@)
    &&& session.cwd == value.text_at("cwd"@)
    &&& value.i64_at("updatedAt"@) matches Some(at) ==> session.updated_at == (if is_a_date(
        at as int,
    ) {
        Some(at)
    } else {
        None
    })
    &&& value.i64_at("updatedAt"@) is None ==> session.updated_at is None
    &&& value.i64_at("createdAt"@) matches Some(at) ==> session.created_at == (if is_a_date(
        at as int,
    ) {
        Some(at)
    } else {
        None
    })
    &&& value.i64_at("createdAt"@) is None ==> session.created_at is None
}

/// Sessions that all have an id are listed one by one, as the response says of them, with the
/// place where the next ones start.
pub proof fn sessions_are_listed_one_by_one(response: JsonView, values: Seq<JsonView>)
    requires
        response.get("data"@) == Some(JsonView::Array(values)),
        forall|i: int| 0 <= i < values.len() ==> (#[trigger] values[i]).text_at("id"@) is Some,
    ensures
        session_page(response).1 == response.text_at("nextCursor"@),
        session_page(response).0.len() == values.len(),
        forall|i: int|
            0 <= i < values.len() ==> is_listed_as(
                #[trigger] session_page(response).0[i],
                values[i],
            ),
{
    every_value_is_a_session(values);
}

proof fn every_value_is_a_session(values: Seq<JsonView>)
    requires
        forall|i: int| 0 <= i < values.len() ==> (#[trigger] values[i]).text_at("id"@) is Some,
    ensures
        listed_sessions(values).len() == values.len(),
        forall|i: int|
            0 <= i < values.len() ==> is_listed_as(#[trigger] listed_sessions(values)[i], values[i]),
    decreases values.len(),
{
    if values.len() > 0 {
        let init = values.drop_last();
        assert(forall|i: int| 0 <= i < init.len() ==> #[trigger] init[i] == values[i]);
        every_value_is_a_session(init);
        let last = values[values.len() - 1];
        assert(last.text_at("id"@) is Some);
        let sessions = listed_sessions(values);
        assert forall|i: int| 0 <= i < values.len() implies is_listed_as(
            #[trigger] sessions[i],
            values[i],
        ) by {
            if i < init.len() {
                assert(sessions[i] == listed_sessions(init)[i]);
                assert(init[i] == values[i]);
            }
        }
    }
}

/// What has no id is left out of the list of sessions.
pub proof fn sessions_without_an_id_are_left_out(
    response: JsonView,
    shorter: JsonView,
    values: Seq<JsonView>,
    value: JsonView,
)
    requires
        response.get("data"@) == Some(JsonView::Array(values.push(value))),
        shorter.get("data"@) == Some(JsonView::Array(values)),
        value.text_at("id"@) is None,
    ensures
        session_page(response).0 == session_page(shorter).0,
{
    assert(values.push(value).drop_last() =~= values);
}

} // verus!
