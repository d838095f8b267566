//! What notifications are told as messages of the agent: each law says what the message
//! holds of what the notification carries.

use vstd::prelude::*;

use crate::json::JsonView;
use crate::json_text::inline_text;
use crate::laws::values::all_texts_are_kept;
use crate::laws::words::notification_names;
use crate::protocol::UpdateView;
use crate::text::{decimal, is_blank, joined};
use crate::updates::notification_updates;

verus! {

/// That a notification is told as a message, and as nothing else.
pub open spec fn is_told(
    method: Seq<char>,
    params: JsonView,
    thread: Seq<char>,
    message: Seq<char>,
) -> bool {
    forall|outputs: Map<Seq<char>, Seq<char>>| #[trigger]
        notification_updates(method, params, outputs) == seq![
            (thread, UpdateView::AgentMessageChunk(message)),
        ]
}

/// That a notification is not told at all.
pub open spec fn is_not_told(method: Seq<char>, params: JsonView) -> bool {
    forall|outputs: Map<Seq<char>, Seq<char>>|
        (#[trigger] notification_updates(method, params, outputs)).len() == 0
}

/// A warning is told with what it says.
pub proof fn warnings_are_told(params: JsonView, thread: Seq<char>, message: Seq<char>)
    requires
        params.text_at("threadId"@) == Some(thread),
        params.text_at("message"@) == Some(message),
    ensures
        is_told("warning"@, params, thread, "Codex warning: "@ + message),
        is_told("guardianWarning"@, params, thread, "Codex safety warning: "@ + message),
{
    notification_names();
}

/// That a goal was cleared, and that the context was compacted, is told as such.
pub proof fn clearing_is_told(params: JsonView, thread: Seq<char>)
    requires
        params.text_at("threadId"@) == Some(thread),
    ensures
        is_told("thread/goal/cleared"@, params, thread, "Goal cleared."@),
        is_told("context/compacted"@, params, thread, "Context compacted."@),
{
    notification_names();
}

/// That a turn runs with another model is told with the model that it left, the model that it
/// runs with, and the reason.
pub proof fn rerouting_is_told(
    params: JsonView,
    thread: Seq<char>,
    left: Seq<char>,
    taken: Seq<char>,
    reason: JsonView,
)
    requires
        params.text_at("threadId"@) == Some(thread),
        params.text_at("fromModel"@) == Some(left),
        params.text_at("toModel"@) == Some(taken),
        params.get("reason"@) == Some(reason),
    ensures
        is_told(
            "model/rerouted"@,
            params,
            thread,
            "Codex rerouted this turn from `"@ + left + "` to `"@ + taken + "` ("@ + inline_text(
                reason,
            ) + ")."@,
        ),
{
    notification_names();
    let head = "Codex rerouted this turn from `"@ + left + "` to `"@ + taken + "` ("@;
    assert(head + (inline_text(reason) + ")."@) =~= head + inline_text(reason) + ")."@);
}

/// Verifications that are under way are told by their number, and not where there are none.
pub proof fn verifications_are_counted(params: JsonView, thread: Seq<char>)
    requires
        params.text_at("threadId"@) == Some(thread),
    ensures
        ({
            let count = params.items_at("verifications"@).len();
            &&& count == 0 ==> is_not_told("model/verification"@, params)
            &&& count > 0 ==> is_told(
                "model/verification"@,
                params,
                thread,
                "Codex is buffering model safety verification for "@ + decimal(count)
                    + " check(s)."@,
            )
        }),
{
    notification_names();
}

/// Buffering is told only where it is to be shown, with the model that it is about, the first
/// three reasons where there are any, and the faster model where there is one.
pub proof fn buffering_is_told_where_shown(
    params: JsonView,
    thread: Seq<char>,
    model: Seq<char>,
    reasons: Seq<JsonView>,
)
    requires
        params.text_at("threadId"@) == Some(thread),
        params.text_at("model"@) == Some(model),
        params.items_at("reasons"@) == reasons,
        forall|i: int| 0 <= i < reasons.len() ==> #[trigger] reasons[i] is Text,
    ensures
        ({
            let method = "model/safetyBuffering/updated"@;
            let head = "Codex is buffering safety checks for `"@ + model + "`"@;
            let faster = params.text_at("fasterModel"@);
            let told = Seq::new(
                if reasons.len() > 3 {
                    3
                } else {
                    reasons.len()
                },
                |i: int| reasons[i]->Text_0,
            );
            let because = if reasons.len() == 0 {
                Seq::<char>::empty()
            } else {
                ": "@ + joined(told, ", "@)
            };
            let tail = match faster {
                Some(other) => " A faster fallback may use `"@ + other + "`."@,
                None => Seq::<char>::empty(),
            };
            &&& params.bool_at("showBufferingUi"@) != Some(true) ==> is_not_told(method, params)
            &&& params.bool_at("showBufferingUi"@) == Some(true) ==> is_told(
                method,
                params,
                thread,
                head + because + "."@ + tail,
            )
        }),
{
    notification_names();
    reveal_strlit("");
    assert(""@ =~= Seq::<char>::empty());
    all_texts_are_kept(reasons);
    assert(crate::listing::shown(crate::json::texts_among(reasons), 3) =~= Seq::new(
        if reasons.len() > 3 {
            3
        } else {
            reasons.len()
        },
        |i: int| reasons[i]->Text_0,
    ));
}

/// What is missing in a notification is told in general words.
pub proof fn missing_words_are_told_in_general(params: JsonView, thread: Seq<char>)
    requires
        params.text_at("threadId"@) == Some(thread),
    ensures
        params.text_at("message"@) is None ==> is_told(
            "warning"@,
            params,
            thread,
            "Codex warning: "@ + "Codex warning"@,
        ) && is_told(
            "guardianWarning"@,
            params,
            thread,
            "Codex safety warning: "@ + "Codex safety warning"@,
        ),
        params.text_at("fromModel"@) is None && params.text_at("toModel"@) is None && params.get(
            "reason"@,
        ) is None ==> is_told(
            "model/rerouted"@,
            params,
            thread,
            "Codex rerouted this turn from `"@ + "current model"@ + "` to `"@ + "fallback model"@
                + "` ("@ + "unspecified"@ + ")."@,
        ),
        params.text_at("summary"@) is None && params.text_at("details"@) is None ==> is_told(
            "configWarning"@,
            params,
            thread,
            "Configuration warning: "@ + "Codex configuration warning"@,
        ),
        params.get("error"@) is None && params.bool_at("willRetry"@) is None ==> is_told(
            "error"@,
            params,
            thread,
            "Codex error: "@ + "Codex error"@,
        ),
        params.get("goal"@) is None ==> is_not_told("thread/goal/updated"@, params),
{
    notification_names();
    reveal_strlit("");
    assert(""@ =~= Seq::<char>::empty());
    let head = "Codex rerouted this turn from `"@ + "current model"@ + "` to `"@
        + "fallback model"@ + "` ("@;
    assert(head + ("unspecified"@ + ")."@) =~= head + "unspecified"@ + ")."@);
    let warning = "Configuration warning: "@ + "Codex configuration warning"@;
    assert(warning + Seq::<char>::empty() =~= warning);
    let error = "Codex error: "@ + "Codex error"@;
    assert(error + Seq::<char>::empty() + Seq::<char>::empty() =~= error);
}

/// What follows a text where there is something to add: the addition, unless it is blank.
pub open spec fn added(before: Seq<char>, text: Option<Seq<char>>) -> Seq<char> {
    match text {
        Some(text) => if is_blank(text) {
            Seq::empty()
        } else {
            before + text
        },
        None => Seq::empty(),
    }
}

/// A warning about the configuration is told with its summary, and with its details on a line
/// of their own where there are any.
pub proof fn configuration_warnings_are_told(
    params: JsonView,
    thread: Seq<char>,
    summary: Seq<char>,
)
    requires
        params.text_at("threadId"@) == Some(thread),
        params.text_at("summary"@) == Some(summary),
    ensures
        is_told(
            "configWarning"@,
            params,
            thread,
            "Configuration warning: "@ + summary + added("\n"@, params.text_at("details"@)),
        ),
{
    notification_names();
    reveal_strlit("");
    assert(""@ =~= Seq::<char>::empty());
}

/// An error is told with what it says, with its details where there are any, and with whether
/// it will be tried again.
pub proof fn errors_are_told(
    params: JsonView,
    thread: Seq<char>,
    error: JsonView,
    message: Seq<char>,
)
    requires
        params.text_at("threadId"@) == Some(thread),
        params.get("error"@) == Some(error),
        error.text_at("message"@) == Some(message),
    ensures
        ({
            let told = "Codex error: "@ + message + added(
                "\n"@,
                error.text_at("additionalDetails"@),
            );
            &&& params.bool_at("willRetry"@) == Some(true) ==> is_told(
                "error"@,
                params,
                thread,
                told + "\nCodex will retry."@,
            )
            &&& params.bool_at("willRetry"@) != Some(true) ==> is_told(
                "error"@,
                params,
                thread,
                told,
            )
        }),
{
    notification_names();
    reveal_strlit("");
    assert(""@ =~= Seq::<char>::empty());
    let told = "Codex error: "@ + message + added("\n"@, error.text_at("additionalDetails"@));
    assert(told + ""@ =~= told);
}

/// A server that failed to start, or whose start was cancelled, is told by its name and with
/// its error; any other state of its start is not told.
pub proof fn failed_servers_are_told(params: JsonView, thread: Seq<char>, name: Seq<char>)
    requires
        params.text_at("threadId"@) == Some(thread),
        params.text_at("name"@) == Some(name),
    ensures
        ({
            let method = "mcpServer/startupStatus/updated"@;
            let status = params.text_at("status"@);
            let head = "Codex MCP server `"@ + name + "` "@;
            let tail = added(": "@, params.text_at("error"@)) + "."@;
            &&& status == Some("failed"@) ==> is_told(
                method,
                params,
                thread,
                head + "failed"@ + tail,
            )
            &&& status == Some("cancelled"@) ==> is_told(
                method,
                params,
                thread,
                head + "cancelled"@ + tail,
            )
            &&& status != Some("failed"@) && status != Some("cancelled"@) ==> is_not_told(
                method,
                params,
            )
        }),
{
    notification_names();
    reveal_strlit("");
    assert(""@ =~= Seq::<char>::empty());
    if let Some(status) = params.text_at("status"@) {
        let head = "Codex MCP server `"@ + name + "` "@;
        let error = added(": "@, params.text_at("error"@));
        assert(head + status + (error + "."@) =~= head + status + error + "."@);
    }
}

/// A goal is told with its status and its objective, and with the tokens that it has used and
/// may use where they are counted.
pub proof fn goals_are_told(
    params: JsonView,
    thread: Seq<char>,
    goal: JsonView,
    status: Seq<char>,
    objective: Seq<char>,
)
    requires
        params.text_at("threadId"@) == Some(thread),
        params.get("goal"@) == Some(goal),
        goal.text_at("status"@) == Some(status),
        goal.text_at("objective"@) == Some(objective),
    ensures
        ({
            let head = "Goal updated ("@ + status + "): "@ + objective;
            let used = goal.u64_at("tokensUsed"@);
            let budget = goal.u64_at("tokenBudget"@);
            is_told(
                "thread/goal/updated"@,
                params,
                thread,
                match (used, budget) {
                    (None, None) => head,
                    (Some(n), None) => head + "\n"@ + "Tokens used: "@ + decimal(n as nat),
                    (None, Some(n)) => head + "\n"@ + "Token budget: "@ + decimal(n as nat),
                    (Some(n), Some(m)) => head + "\n"@ + "Tokens used: "@ + decimal(n as nat)
                        + "\n"@ + "Token budget: "@ + decimal(m as nat),
                },
            )
        }),
{
    notification_names();
    let head = "Goal updated ("@ + status + "): "@ + objective;
    let one = seq![head];
    reveal_with_fuel(joined, 4);
    if let Some(n) = goal.u64_at("tokensUsed"@) {
        let used = "Tokens used: "@ + decimal(n as nat);
        assert(one.push(used).drop_last() =~= one);
        assert(head + "\n"@ + used =~= head + "\n"@ + "Tokens used: "@ + decimal(n as nat));
        if let Some(m) = goal.u64_at("tokenBudget"@) {
            let budget = "Token budget: "@ + decimal(m as nat);
            assert(one.push(used).push(budget).drop_last() =~= one.push(used));
            assert(head + "\n"@ + used + "\n"@ + budget =~= head + "\n"@ + "Tokens used: "@
                + decimal(n as nat) + "\n"@ + "Token budget: "@ + decimal(m as nat));
        }
    } else if let Some(m) = goal.u64_at("tokenBudget"@) {
        let budget = "Token budget: "@ + decimal(m as nat);
        assert(one.push(budget).drop_last() =~= one);
        assert(head + "\n"@ + budget =~= head + "\n"@ + "Token budget: "@ + decimal(m as nat));
    }
}

} // verus!
