//! What a prompt comes to: the blocks that are sent, the problems that stop them, and the
//! commands that stand in their place.

use vstd::prelude::*;

use crate::calls::ProblemView;
use crate::json::{found_in_more, JsonView};
use crate::laws::questions::{object_of, object_of_two};
use crate::laws::words::{command_names, goal_words, notification_names, reply_keys};
use crate::listing::{
    config_text, fork_text, history_text, hooks_text, model_list_text, plugins_text, servers_text,
    skills_text,
};
use crate::prompt::{
    block_text, input_of, offered_commands, prompt_action, started_turn, PromptActionView,
    PromptBlock,
};
use crate::protocol::{StopReason, UpdateView};
use crate::slash::{
    after_call, after_show, after_start, command_call, first_text, word_length, CommandView,
    GoalView, NextView,
};
use crate::text::{is_white, lowercased, trimmed, trimmed_start};
use crate::updates::notification_updates;

verus! {

/// That a text is what a block is sent as: its own text, or a note on what it holds.
pub open spec fn stands_for(text: Seq<char>, block: PromptBlock) -> bool {
    match block {
        PromptBlock::Text(own) => text == own@,
        PromptBlock::Resource(Ok(own)) => text == own@,
        PromptBlock::ResourceLink(Ok(own)) => text == own@,
        PromptBlock::Image(image) => text
            == "[Image content omitted by native Codex Zed adapter: "@ + image@ + "]"@,
        PromptBlock::Audio(audio) => text
            == "[Audio content omitted by native Codex Zed adapter: "@ + audio@ + "]"@,
        PromptBlock::Unsupported => text
            == "[Unsupported content omitted by native Codex Zed adapter]"@,
        _ => false,
    }
}

/// The error of a block that has no text.
pub open spec fn failure_of(block: PromptBlock) -> Option<ProblemView> {
    match block {
        PromptBlock::Resource(Err(error)) => Some(
            ProblemView {
                message: "failed to serialize prompt resource"@,
                cause: Some(error@),
            },
        ),
        PromptBlock::ResourceLink(Err(error)) => Some(
            ProblemView {
                message: "failed to serialize prompt resource link"@,
                cause: Some(error@),
            },
        ),
        _ => None,
    }
}

/// A turn is started with every block of the prompt, in the order of the blocks and as a
/// text each, in the session that was prompted, and with the model that was selected, or
/// else the default.
pub proof fn every_block_is_sent(
    session: Seq<char>,
    blocks: Seq<PromptBlock>,
    selected: Option<Seq<char>>,
    default: Option<Seq<char>>,
)
    requires
        forall|i: int| 0 <= i < blocks.len() ==> failure_of(#[trigger] blocks[i]) is None,
        prompt_action(session, blocks, selected, default)->Ok_0 !is RunCommand,
    ensures
        prompt_action(session, blocks, selected, default) is Ok,
        ({
            let call = prompt_action(session, blocks, selected, default)->Ok_0->StartTurn_0;
            let input = call.params.get("input"@)->0->Array_0;
            &&& call.method == "turn/start"@
            &&& call.params.text_at("threadId"@) == Some(session)
            &&& call.params.get("input"@) == Some(JsonView::Array(input))
            &&& input.len() == blocks.len()
            &&& forall|i: int|
                0 <= i < blocks.len() ==> {
                    let text = (#[trigger] input[i]).text_at("text"@)->0;
                    &&& input[i] == object_of_two(
                        "type"@,
                        JsonView::Text("text"@),
                        "text"@,
                        JsonView::Text(text),
                    )
                    &&& stands_for(text, blocks[i])
                }
            &&& match (selected, default) {
                (Some(model), _) => call.params.text_at("model"@) == Some(model),
                (None, Some(model)) => call.params.text_at("model"@) == Some(model),
                (None, None) => call.params.get("model"@) is None,
            }
        }),
{
    broadcast use found_in_more;

    reply_keys();
    reveal_strlit("type");
    reveal_strlit("text");
    every_block_is_an_input(blocks);
    let input = input_of(blocks)->Ok_0;
    let call = prompt_action(session, blocks, selected, default)->Ok_0->StartTurn_0;
    assert(call.params.get("input"@) == Some(JsonView::Array(input)));
    assert forall|i: int| 0 <= i < blocks.len() implies {
        let text = (#[trigger] input[i]).text_at("text"@)->0;
        &&& input[i] == object_of_two(
            "type"@,
            JsonView::Text("text"@),
            "text"@,
            JsonView::Text(text),
        )
        &&& stands_for(text, blocks[i])
    } by {
        assert("type"@[1] != "text"@[1]);
    }
}

/// A prompt is refused exactly where some block has no text, with the error of the first
/// such block.
pub proof fn the_first_failure_is_told(
    session: Seq<char>,
    blocks: Seq<PromptBlock>,
    selected: Option<Seq<char>>,
    default: Option<Seq<char>>,
    i: int,
)
    requires
        0 <= i < blocks.len(),
        failure_of(blocks[i]) is Some,
        forall|j: int| 0 <= j < i ==> failure_of(#[trigger] blocks[j]) is None,
    ensures
        prompt_action(session, blocks, selected, default) == Err::<PromptActionView, ProblemView>(
            failure_of(blocks[i])->0,
        ),
{
    first_failure_stops(blocks, i);
}

/// A prompt all of whose blocks have a text is not refused.
pub proof fn sound_blocks_are_not_refused(
    session: Seq<char>,
    blocks: Seq<PromptBlock>,
    selected: Option<Seq<char>>,
    default: Option<Seq<char>>,
)
    requires
        forall|i: int| 0 <= i < blocks.len() ==> failure_of(#[trigger] blocks[i]) is None,
    ensures
        prompt_action(session, blocks, selected, default) is Ok,
{
    every_block_is_an_input(blocks);
}

proof fn every_block_is_an_input(blocks: Seq<PromptBlock>)
    requires
        forall|i: int| 0 <= i < blocks.len() ==> failure_of(#[trigger] blocks[i]) is None,
    ensures
        input_of(blocks) is Ok,
        input_of(blocks)->Ok_0.len() == blocks.len(),
        forall|i: int|
            0 <= i < blocks.len() ==> {
                let text = (#[trigger] input_of(blocks)->Ok_0[i]).text_at("text"@)->0;
                &&& input_of(blocks)->Ok_0[i] == object_of_two(
                    "type"@,
                    JsonView::Text("text"@),
                    "text"@,
                    JsonView::Text(text),
                )
                &&& stands_for(text, blocks[i])
            },
    decreases blocks.len(),
{
    broadcast use found_in_more;

    if blocks.len() > 0 {
        let init = blocks.drop_last();
        assert forall|i: int| 0 <= i < init.len() implies failure_of(#[trigger] init[i]) is None by {
            assert(init[i] == blocks[i]);
        }
        every_block_is_an_input(init);
        let last = blocks[blocks.len() - 1];
        assert(failure_of(last) is None);
        assert(block_text(last) is Ok);
        let input = input_of(blocks)->Ok_0;
        assert forall|i: int| 0 <= i < blocks.len() implies {
            let text = (#[trigger] input[i]).text_at("text"@)->0;
            &&& input[i] == object_of_two(
                "type"@,
                JsonView::Text("text"@),
                "text"@,
                JsonView::Text(text),
            )
            &&& stands_for(text, blocks[i])
        } by {
            if i < init.len() {
                assert(input[i] == input_of(init)->Ok_0[i]);
                assert(init[i] == blocks[i]);
            }
        }
    }
}

proof fn first_failure_stops(blocks: Seq<PromptBlock>, i: int)
    requires
        0 <= i < blocks.len(),
        failure_of(blocks[i]) is Some,
        forall|j: int| 0 <= j < i ==> failure_of(#[trigger] blocks[j]) is None,
    ensures
        input_of(blocks) == Err::<Seq<JsonView>, ProblemView>(failure_of(blocks[i])->0),
    decreases blocks.len(),
{
    let init = blocks.drop_last();
    if i < init.len() {
        assert(init[i] == blocks[i]);
        assert forall|j: int| 0 <= j < i implies failure_of(#[trigger] init[j]) is None by {
            assert(init[j] == blocks[j]);
        }
        first_failure_stops(init, i);
    } else {
        assert forall|j: int| 0 <= j < init.len() implies failure_of(
            #[trigger] init[j],
        ) is None by {
            assert(init[j] == blocks[j]);
        }
        every_block_is_an_input(init);
    }
}

/// Whether a text is a slash, a word and what follows the word.
pub open spec fn is_slash_word(text: Seq<char>, name: Seq<char>, rest: Seq<char>) -> bool {
    &&& text == seq!['/'] + name + rest
    &&& name.len() > 0
    &&& forall|i: int| 0 <= i < name.len() ==> !is_white(#[trigger] name[i])
    &&& rest.len() > 0 ==> is_white(rest[0])
}

/// The command that a word stands for, with what follows the word.
pub open spec fn means(name: Seq<char>, rest: Seq<char>, command: CommandView) -> bool {
    match command {
        CommandView::Review { target } => name == "review"@ && target == (if trimmed(rest).len()
            == 0 {
            object_of("type"@, JsonView::Text("uncommittedChanges"@))
        } else {
            object_of_two(
                "type"@,
                JsonView::Text("custom"@),
                "instructions"@,
                JsonView::Text(trimmed(rest)),
            )
        }),
        CommandView::Compact => name == "compact"@,
        CommandView::Goal(goal) => name == "goal"@ && {
            let word = lowercased(trimmed(rest));
            match goal {
                GoalView::Status => word == ""@ || word == "status"@,
                GoalView::Clear => word == "clear"@,
                GoalView::Pause => word == "pause"@,
                GoalView::Resume => word == "resume"@,
                GoalView::SetTo(objective) => objective == trimmed(rest) && word != ""@ && word
                    != "status"@ && word != "clear"@ && word != "pause"@ && word != "resume"@,
            }
        },
        CommandView::Model => name == "model"@,
        CommandView::Config => name == "config"@,
        CommandView::Skills => name == "skills"@,
        CommandView::Plugins => name == "plugins"@,
        CommandView::Hooks => name == "hooks"@,
        CommandView::Mcp => name == "mcp"@,
        CommandView::Fork => name == "fork"@,
        CommandView::History => name == "history"@,
    }
}

/// Whether a word stands for a command.
pub open spec fn is_command_name(name: Seq<char>) -> bool {
    ||| name == "review"@
    ||| name == "compact"@
    ||| name == "goal"@
    ||| name == "model"@
    ||| name == "config"@
    ||| name == "skills"@
    ||| name == "plugins"@
    ||| name == "hooks"@
    ||| name == "mcp"@
    ||| name == "fork"@
    ||| name == "history"@
}

/// A prompt whose first block starts with a slash and the name of a command runs that
/// command, whatever its other blocks say; one that starts with a slash and any other word
/// starts a turn.
pub proof fn slash_words_are_commands(
    session: Seq<char>,
    blocks: Seq<PromptBlock>,
    selected: Option<Seq<char>>,
    default: Option<Seq<char>>,
    text: Seq<char>,
    name: Seq<char>,
    rest: Seq<char>,
)
    requires
        forall|i: int| 0 <= i < blocks.len() ==> failure_of(#[trigger] blocks[i]) is None,
        blocks.len() > 0,
        stands_for(text, blocks[0]),
        is_slash_word(text, name, rest),
    ensures
        ({
            let action = prompt_action(session, blocks, selected, default)->Ok_0;
            &&& prompt_action(session, blocks, selected, default) is Ok
            &&& action is RunCommand <==> is_command_name(name)
            &&& action is RunCommand ==> means(name, rest, action->RunCommand_0)
        }),
{
    broadcast use found_in_more;

    every_block_is_an_input(blocks);
    reveal_strlit("type");
    reveal_strlit("text");
    reveal_strlit("/");
    command_names();
    goal_words();
    assert("type"@[1] != "text"@[1]);
    let input = input_of(blocks)->Ok_0;
    let stripped = name + rest;
    assert(input[0] == object_of_two(
        "type"@,
        JsonView::Text("text"@),
        "text"@,
        JsonView::Text(text),
    ));
    assert(first_text(input) == Some(text));
    assert(text.take(1) =~= "/"@);
    assert(text.skip(1) =~= stripped);
    word_ends_at_white(name, rest);
    assert(stripped.take(name.len() as int) =~= name);
    assert(stripped.skip(name.len() as int) =~= rest);
    start_is_trimmed_once(rest);
}

/// A prompt whose first block does not start with a slash starts a turn.
pub proof fn other_words_are_no_commands(
    session: Seq<char>,
    blocks: Seq<PromptBlock>,
    selected: Option<Seq<char>>,
    default: Option<Seq<char>>,
    text: Seq<char>,
)
    requires
        forall|i: int| 0 <= i < blocks.len() ==> failure_of(#[trigger] blocks[i]) is None,
        blocks.len() > 0 ==> stands_for(text, blocks[0]) && (text.len() == 0 || text[0] != '/'
            || text.len() == 1 || is_white(text[1])),
    ensures
        prompt_action(session, blocks, selected, default) is Ok,
        prompt_action(session, blocks, selected, default)->Ok_0 is StartTurn,
{
    broadcast use found_in_more;

    every_block_is_an_input(blocks);
    reveal_strlit("type");
    reveal_strlit("text");
    reveal_strlit("/");
    assert("type"@[1] != "text"@[1]);
    let input = input_of(blocks)->Ok_0;
    if blocks.len() > 0 {
        assert(input[0] == object_of_two(
            "type"@,
            JsonView::Text("text"@),
            "text"@,
            JsonView::Text(text),
        ));
        assert(first_text(input) == Some(text));
        if text.len() > 0 && text[0] == '/' {
            assert(word_length(text.skip(1)) == 0);
        } else if text.len() > 0 {
            assert(text.take(1)[0] != "/"@[0]);
        }
    }
}

proof fn word_ends_at_white(name: Seq<char>, rest: Seq<char>)
    requires
        forall|i: int| 0 <= i < name.len() ==> !is_white(#[trigger] name[i]),
        rest.len() > 0 ==> is_white(rest[0]),
    ensures
        word_length(name + rest) == name.len(),
    decreases name.len(),
{
    if name.len() == 0 {
        assert(name + rest =~= rest);
    } else {
        assert((name + rest)[0] == name[0]);
        assert((name + rest).skip(1) =~= name.skip(1) + rest);
        assert forall|i: int| 0 <= i < name.skip(1).len() implies !is_white(
            #[trigger] name.skip(1)[i],
        ) by {
            assert(name.skip(1)[i] == name[i + 1]);
        }
        word_ends_at_white(name.skip(1), rest);
    }
}

proof fn start_is_trimmed_once(s: Seq<char>)
    ensures
        trimmed_start(trimmed_start(s)) == trimmed_start(s),
        trimmed(trimmed_start(s)) == trimmed(s),
    decreases s.len(),
{
    if s.len() > 0 && is_white(s[0]) {
        start_is_trimmed_once(s.skip(1));
    }
}

/// Each command that is about the session names it in its request, and carries what it was
/// given: a review its target, and a goal its objective.
pub proof fn commands_ask_about_their_session(command: CommandView, session: Seq<char>)
    ensures
        ({
            let call = command_call(command, session);
            let about = call.params.text_at("threadId"@) == Some(session);
            match command {
                CommandView::Review { target } => call.method == "review/start"@ && about
                    && call.params.get("target"@) == Some(target) && call.params.text_at(
                    "delivery"@,
                ) == Some("inline"@),
                CommandView::Compact => call.method == "thread/compact/start"@ && about,
                CommandView::Goal(GoalView::Status) => call.method == "thread/goal/get"@ && about,
                CommandView::Goal(GoalView::Clear) => call.method == "thread/goal/clear"@ && about,
                CommandView::Goal(GoalView::Pause) => call.method == "thread/goal/set"@ && about
                    && call.params.text_at("status"@) == Some("paused"@) && call.params.get(
                    "objective"@,
                ) is None,
                CommandView::Goal(GoalView::Resume) => call.method == "thread/goal/set"@ && about
                    && call.params.text_at("status"@) == Some("active"@) && call.params.get(
                    "objective"@,
                ) is None,
                CommandView::Goal(GoalView::SetTo(objective)) => call.method == "thread/goal/set"@
                    && about && call.params.text_at("status"@) == Some("active"@)
                    && call.params.text_at("objective"@) == Some(objective),
                CommandView::Fork => call.method == "thread/fork"@ && about
                    && call.params.text_at("threadSource"@) == Some("appServer"@),
                CommandView::Model => call.method == "model/list"@ && call.params.bool_at(
                    "includeHidden"@,
                ) == Some(true),
                CommandView::Config => call.method == "config/read"@ && call.params.bool_at(
                    "includeLayers"@,
                ) == Some(false),
                CommandView::Skills => call.method == "skills/list"@ && call.params.bool_at(
                    "forceReload"@,
                ) == Some(false) && call.params.get("cwds"@) == Some(
                    JsonView::Array(Seq::empty()),
                ),
                CommandView::Plugins => call.method == "plugin/list"@ && call.params.get("cwds"@)
                    == Some(JsonView::Null),
                CommandView::Hooks => call.method == "hooks/list"@ && call.params.get("cwds"@)
                    == Some(JsonView::Array(Seq::empty())),
                CommandView::Mcp => call.method == "mcpServerStatus/list"@ && call.params.text_at(
                    "detail"@,
                ) == Some("toolsAndAuthOnly"@),
                CommandView::History => call.method == "thread/list"@ && call.params.get("limit"@)
                    == Some(JsonView::Int(20)) && call.params.get("sourceKinds"@) == Some(
                    JsonView::Array(seq![JsonView::Text("appServer"@)]),
                ),
            }
        }),
{
    broadcast use found_in_more;

    reply_keys();
    reveal_strlit("target");
    reveal_strlit("delivery");
    reveal_strlit("status");
    reveal_strlit("objective");
    reveal_strlit("threadSource");
    reveal_strlit("threadId");
    reveal_strlit("includeHidden");
    reveal_strlit("cwds");
    reveal_strlit("forceReload");
    reveal_strlit("marketplaceKinds");
    reveal_strlit("cursor");
    reveal_strlit("limit");
    reveal_strlit("detail");
    reveal_strlit("sourceKinds");
    assert("threadId"@[0] != "delivery"@[0]);
    assert("target"@[0] != "status"@[0]);
    assert("cwds"@.len() != "forceReload"@.len() && "cwds"@.len() != "marketplaceKinds"@.len());
    assert("sourceKinds"@.len() != "limit"@.len());
}

/// Every name that starts a command is offered, and beside those only two that Codex itself
/// knows; a command that takes words behind its name says which.
pub proof fn offered_commands_are_known(i: int)
    requires
        0 <= i < offered_commands().len(),
    ensures
        ({
            let offered = offered_commands()[i];
            &&& is_command_name(offered.name) || offered.name == "init"@ || offered.name
                == "resume"@
            &&& offered.description.len() > 0
            &&& offered.hint is Some <==> offered.name == "review"@ || offered.name == "goal"@
        }),
{
    command_names();
    reveal_strlit("init");
    reveal_strlit("resume");
    assert("init"@.len() == 4 && "init"@[0] == 'i');
    assert("resume"@.len() == 6 && "resume"@[0] == 'r' && "resume"@[2] == 's');
    reveal_strlit("review");
    assert("review"@[2] == 'v');
    reveal_strlit("Review my current changes and find issues");
    reveal_strlit("create an AGENTS.md file with instructions for Codex");
    reveal_strlit("summarize conversation to prevent hitting the context limit");
    reveal_strlit("Set, show, pause, resume, or clear the thread goal");
    reveal_strlit("Resume a native Codex thread");
    reveal_strlit("Fork a native Codex thread");
    reveal_strlit("Show native Codex thread history");
    reveal_strlit("Show or change the Codex model");
    reveal_strlit("Show or change Codex configuration");
    reveal_strlit("List Codex skills");
    reveal_strlit("List Codex plugins");
    reveal_strlit("List Codex hooks");
    reveal_strlit("List Codex MCP servers");
}

/// The turn that a reply names is the one that a prompt waits for; a reply without one, and
/// a request that failed, are problems.
pub proof fn turns_are_known_by_their_id(reply: Result<JsonView, Seq<char>>)
    ensures
        match reply {
            Ok(response) => match response.get2("turn"@, "id"@) {
                Some(JsonView::Text(turn)) => started_turn(reply) == Ok::<Seq<char>, ProblemView>(
                    turn,
                ),
                _ => started_turn(reply) == Err::<Seq<char>, ProblemView>(
                    ProblemView {
                        message: "Codex turn/start response did not include turn.id"@,
                        cause: None,
                    },
                ),
            },
            Err(error) => started_turn(reply) == Err::<Seq<char>, ProblemView>(
                ProblemView {
                    message: "failed to start native Codex turn"@,
                    cause: Some(error),
                },
            ),
        },
{
}

/// What follows a command. A review waits for the turn that the reply names, a compaction
/// for the turn that starts, a change of the goal is done at once, and everything else shows
/// what came back; a request that failed is a problem with its cause. Nothing but a fork has
/// the sessions read again.
pub proof fn commands_go_on(command: CommandView, reply: Result<JsonView, Seq<char>>)
    ensures
        ({
            let next = after_call(command, reply);
            match reply {
                Err(error) => next is Fail && next->Fail_problem.cause == Some(error),
                Ok(response) => match command {
                    CommandView::Review { .. } => match response.get2("turn"@, "id"@) {
                        Some(JsonView::Text(turn)) => next == NextView::AwaitTurn(turn),
                        _ => next is Fail && next->Fail_problem == (ProblemView {
                            message: "Codex review/start response did not include turn.id"@,
                            cause: None,
                        }),
                    },
                    CommandView::Compact => next is AwaitStart,
                    CommandView::Goal(goal) => if goal is Status {
                        next is Show && !next->refresh
                    } else {
                        next == (NextView::Done {
                            forget_start: false,
                            reason: StopReason::EndTurn,
                        })
                    },
                    CommandView::Fork => next == (NextView::Show {
                        refresh: true,
                        text: fork_text(response),
                    }),
                    _ => next is Show && !next->refresh && next->text == (match command {
                        CommandView::Model => model_list_text(response),
                        CommandView::Config => config_text(response),
                        CommandView::Skills => skills_text(response),
                        CommandView::Plugins => plugins_text(response),
                        CommandView::Hooks => hooks_text(response),
                        CommandView::Mcp => servers_text(response),
                        _ => history_text(response),
                    }),
                },
            }
        }),
{
}

/// A goal that is asked for is shown as it is told when it changes, and that there is none is
/// shown as such.
pub proof fn goals_are_shown_as_they_are_told(
    response: JsonView,
    goal: JsonView,
    params: JsonView,
    thread: Seq<char>,
    outputs: Map<Seq<char>, Seq<char>>,
)
    requires
        response.get("goal"@) == Some(goal) || response.get("goal"@) is None,
        params.text_at("threadId"@) == Some(thread),
        params.get("goal"@) == Some(goal),
    ensures
        ({
            let next = after_call(CommandView::Goal(GoalView::Status), Ok(response));
            let told = notification_updates("thread/goal/updated"@, params, outputs);
            &&& next is Show
            &&& response.get("goal"@) is Some ==> told == seq![
                (thread, UpdateView::AgentMessageChunk(next->text)),
            ]
            &&& response.get("goal"@) is None ==> next->text == "No active goal."@
        }),
{
    notification_names();
}

/// A command whose request failed says what it was that failed.
pub proof fn failed_commands_say_what_failed(command: CommandView, error: Seq<char>)
    ensures
        ({
            let next = after_call(command, Err(error));
            &&& next is Fail
            &&& next->Fail_problem == (ProblemView {
                message: match command {
                    CommandView::Review { .. } => "failed to start native Codex review"@,
                    CommandView::Compact => "failed to start native Codex compaction"@,
                    CommandView::Goal(GoalView::Status) => "failed to read native Codex goal"@,
                    CommandView::Goal(GoalView::Clear) => "failed to clear native Codex goal"@,
                    CommandView::Goal(_) => "failed to update native Codex goal"@,
                    CommandView::Model => "failed to list native Codex models"@,
                    CommandView::Config => "failed to read native Codex configuration"@,
                    CommandView::Skills => "failed to list native Codex skills"@,
                    CommandView::Plugins => "failed to list native Codex plugins"@,
                    CommandView::Hooks => "failed to list native Codex hooks"@,
                    CommandView::Mcp => "failed to list native Codex MCP servers"@,
                    CommandView::Fork => "failed to fork native Codex thread"@,
                    CommandView::History => "failed to list native Codex history"@,
                },
                cause: Some(error),
            })
        }),
{
}

/// Once a turn has started the command waits for that turn, and once a text has been shown
/// the command is done; where it could not be shown, that is the problem.
pub proof fn commands_come_to_an_end(
    command: CommandView,
    turn: Seq<char>,
    shown: Result<(), Seq<char>>,
)
    ensures
        after_start(Some(turn)) == NextView::AwaitTurn(turn),
        shown is Ok ==> after_show(command, shown) == (NextView::Done {
            forget_start: false,
            reason: StopReason::EndTurn,
        }),
        shown matches Err(error) ==> after_show(command, shown) is Fail && after_show(
            command,
            shown,
        )->Fail_problem.cause == Some(error),
        shown is Err ==> after_show(command, shown)->Fail_problem.message == (match command {
            CommandView::Goal(_) => "failed to show native Codex goal"@,
            CommandView::Model => "failed to show native Codex model list"@,
            CommandView::Config => "failed to show native Codex configuration"@,
            CommandView::Skills => "failed to show native Codex skills"@,
            CommandView::Plugins => "failed to show native Codex plugins"@,
            CommandView::Hooks => "failed to show native Codex hooks"@,
            CommandView::Mcp => "failed to show native Codex MCP servers"@,
            CommandView::Fork => "failed to show native Codex fork result"@,
            _ => "failed to show native Codex history"@,
        }),
{
}

} // verus!
