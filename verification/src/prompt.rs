//! Prompts: what Codex gets of them, and the commands that can be given in them.

use vstd::prelude::*;

use crate::calls::{
    call, plain_problem, problem, problem_after, problem_with_cause, CallView, Problem, ProblemView,
    RpcCall,
};
use crate::json::{
    fields, item_views, item_views_push, no_entries, read_text, text_in, with, Json, JsonView,
};
use crate::sessions::{reply_view, with_model};
use crate::slash::{command_in, named_command, native_slash_command, CommandView, NativeSlashCommand};
use crate::text::{concat3, either, opt_string, opt_text, owned, take_all, take_step};

verus! {

// ---------------------------------------------------------------------------
// Blocks
// ---------------------------------------------------------------------------

/// A block of a prompt. A resource and a link to one come as the JSON text that they
/// were serialized to, or with the reason why they could not be; an image and audio
/// come with a description.
#[derive(Debug, PartialEq, Eq)]
pub enum PromptBlock {
    Text(String),
    Resource(Result<String, String>),
    ResourceLink(Result<String, String>),
    Image(String),
    Audio(String),
    Unsupported,
}

/// What of a block is handed on as text, or why nothing can be.
pub open spec fn block_text(block: PromptBlock) -> Result<Seq<char>, ProblemView> {
    match block {
        PromptBlock::Text(text) => Ok(text@),
        PromptBlock::Resource(Ok(text)) => Ok(text@),
        PromptBlock::Resource(Err(error)) => Err(
            problem_after("failed to serialize prompt resource"@, error@),
        ),
        PromptBlock::ResourceLink(Ok(text)) => Ok(text@),
        PromptBlock::ResourceLink(Err(error)) => Err(
            problem_after("failed to serialize prompt resource link"@, error@),
        ),
        PromptBlock::Image(image) => Ok(
            "[Image content omitted by native Codex Zed adapter: "@ + image@ + "]"@,
        ),
        PromptBlock::Audio(audio) => Ok(
            "[Audio content omitted by native Codex Zed adapter: "@ + audio@ + "]"@,
        ),
        PromptBlock::Unsupported => Ok(
            "[Unsupported content omitted by native Codex Zed adapter]"@,
        ),
    }
}

/// A piece of input.
pub open spec fn text_input(text: Seq<char>) -> JsonView {
    JsonView::Object(
        fields().push(("type"@, JsonView::Text("text"@))).push(("text"@, JsonView::Text(text))),
    )
}

/// The input that some blocks make up: one piece for each, or the problem with the
/// first that has one.
pub open spec fn input_of(blocks: Seq<PromptBlock>) -> Result<Seq<JsonView>, ProblemView>
    decreases blocks.len(),
{
    if blocks.len() == 0 {
        Ok(Seq::empty())
    } else {
        match input_of(blocks.drop_last()) {
            Err(problem) => Err(problem),
            Ok(input) => match block_text(blocks.last()) {
                Err(problem) => Err(problem),
                Ok(text) => Ok(input.push(text_input(text))),
            },
        }
    }
}

/// What of a block is handed on as text.
fn read_block(block: &PromptBlock) -> (text: Result<String, Problem>)
    ensures
        match text {
            Ok(text) => block_text(*block) == Ok::<Seq<char>, ProblemView>(text@),
            Err(problem) => block_text(*block) == Err::<Seq<char>, ProblemView>(problem@),
        },
{
    match block {
        PromptBlock::Text(text) => Ok(text.clone()),
        PromptBlock::Resource(Ok(text)) => Ok(text.clone()),
        PromptBlock::Resource(Err(error)) => Err(
            problem_with_cause("failed to serialize prompt resource", error.as_str()),
        ),
        PromptBlock::ResourceLink(Ok(text)) => Ok(text.clone()),
        PromptBlock::ResourceLink(Err(error)) => Err(
            problem_with_cause("failed to serialize prompt resource link", error.as_str()),
        ),
        PromptBlock::Image(image) => Ok(
            concat3(
                "[Image content omitted by native Codex Zed adapter: ",
                image.as_str(),
                "]",
            ),
        ),
        PromptBlock::Audio(audio) => Ok(
            concat3(
                "[Audio content omitted by native Codex Zed adapter: ",
                audio.as_str(),
                "]",
            ),
        ),
        PromptBlock::Unsupported => Ok(
            "[Unsupported content omitted by native Codex Zed adapter]".to_owned(),
        ),
    }
}

/// The problem of some blocks stays whatever comes behind them.
proof fn input_problem_stays(blocks: Seq<PromptBlock>, i: int)
    requires
        0 <= i <= blocks.len(),
        input_of(blocks.take(i)) is Err,
    ensures
        input_of(blocks) == input_of(blocks.take(i)),
    decreases blocks.len(),
{
    if i == blocks.len() {
        take_all(blocks);
    } else {
        assert(blocks.drop_last().take(i) =~= blocks.take(i));
        input_problem_stays(blocks.drop_last(), i);
    }
}

/// The input that some blocks make up.
pub fn prompt_blocks_to_codex_input(blocks: &Vec<PromptBlock>) -> (input: Result<
    Vec<Json>,
    Problem,
>)
    ensures
        match input {
            Ok(input) => input_of(blocks@) == Ok::<Seq<JsonView>, ProblemView>(item_views(input@)),
            Err(problem) => input_of(blocks@) == Err::<Seq<JsonView>, ProblemView>(problem@),
        },
{
    broadcast use item_views_push;

    let mut input: Vec<Json> = Vec::new();
    let mut i: usize = 0;
    proof {
        take_all(blocks@);
        assert(item_views(input@) =~= Seq::empty());
    }
    while i < blocks.len()
        invariant
            i <= blocks@.len(),
            input_of(blocks@.take(i as int)) == Ok::<Seq<JsonView>, ProblemView>(
                item_views(input@),
            ),
        decreases blocks@.len() - i,
    {
        proof {
            take_step(blocks@, i as int);
        }
        match read_block(&blocks[i]) {
            Ok(text) => {
                let entries = with(no_entries(), "type", Json::text("text"));
                let piece = Json::object(with(entries, "text", Json::text(text.as_str())));
                let ghost before = input@;
                input.push(piece);
                proof {
                    assert(piece@ == text_input(text@));
                    assert(item_views(input@) =~= item_views(before).push(piece@));
                    assert(input_of(blocks@.take(i + 1)) == Ok::<Seq<JsonView>, ProblemView>(
                        item_views(before).push(text_input(text@)),
                    ));
                }
            },
            Err(problem) => {
                proof {
                    input_problem_stays(blocks@, i + 1);
                }
                return Err(problem);
            },
        }
        i = i + 1;
    }
    proof {
        take_all(blocks@);
    }
    Ok(input)
}

// ---------------------------------------------------------------------------
// What is done with a prompt
// ---------------------------------------------------------------------------

/// What is done with a prompt: a turn is started, or a slash command is run.
#[derive(Debug, PartialEq)]
pub enum PromptAction {
    StartTurn(RpcCall),
    RunCommand(NativeSlashCommand),
}

/// What is done with a prompt, as contracts speak of it.
pub enum PromptActionView {
    StartTurn(CallView),
    RunCommand(CommandView),
}

impl View for PromptAction {
    type V = PromptActionView;

    open spec fn view(&self) -> PromptActionView {
        match *self {
            PromptAction::StartTurn(made) => PromptActionView::StartTurn(made@),
            PromptAction::RunCommand(command) => PromptActionView::RunCommand(command@),
        }
    }
}

/// The request that starts a turn.
pub open spec fn turn_request(
    session: Seq<char>,
    input: Seq<JsonView>,
    model: Option<Seq<char>>,
) -> CallView {
    CallView {
        method: "turn/start"@,
        params: JsonView::Object(
            with_model(
                fields().push(("threadId"@, JsonView::Text(session))).push(
                    ("input"@, JsonView::Array(input)),
                ),
                model,
            ),
        ),
    }
}

/// What is done with a prompt: the model is the one that was selected for the session,
/// or else the default.
pub open spec fn prompt_action(
    session: Seq<char>,
    blocks: Seq<PromptBlock>,
    selected: Option<Seq<char>>,
    default: Option<Seq<char>>,
) -> Result<PromptActionView, ProblemView> {
    match input_of(blocks) {
        Err(problem) => Err(problem),
        Ok(input) => match command_in(input) {
            Some(command) => Ok(PromptActionView::RunCommand(command)),
            None => Ok(
                PromptActionView::StartTurn(
                    turn_request(session, input, either(selected, default)),
                ),
            ),
        },
    }
}

/// The turn that was started.
pub open spec fn started_turn(reply: Result<JsonView, Seq<char>>) -> Result<
    Seq<char>,
    ProblemView,
> {
    match reply {
        Err(error) => Err(problem_after("failed to start native Codex turn"@, error)),
        Ok(response) => match text_in(response.get2("turn"@, "id"@)) {
            Some(turn) => Ok(turn),
            None => Err(plain_problem("Codex turn/start response did not include turn.id"@)),
        },
    }
}

/// What is done with a prompt.
pub fn prompt(
    session: &str,
    blocks: &Vec<PromptBlock>,
    selected: Option<&str>,
    default: Option<&str>,
) -> (action: Result<PromptAction, Problem>)
    ensures
        match action {
            Ok(action) => prompt_action(
                session@,
                blocks@,
                opt_text(selected),
                opt_text(default),
            ) == Ok::<PromptActionView, ProblemView>(action@),
            Err(problem) => prompt_action(
                session@,
                blocks@,
                opt_text(selected),
                opt_text(default),
            ) == Err::<PromptActionView, ProblemView>(problem@),
        },
{
    let input = match prompt_blocks_to_codex_input(blocks) {
        Ok(input) => input,
        Err(problem) => return Err(problem),
    };
    if let Some(command) = native_slash_command(&input) {
        return Ok(PromptAction::RunCommand(command));
    }
    let model = match selected {
        Some(model) => Some(model),
        None => default,
    };
    let mut entries = with(no_entries(), "threadId", Json::text(session));
    entries = with(entries, "input", Json::array(input));
    if let Some(model) = model {
        entries = with(entries, "model", Json::text(model));
    }
    Ok(PromptAction::StartTurn(call("turn/start", Json::object(entries))))
}

/// The turn that was started.
pub fn prompt_turn_started(reply: Result<&Json, &str>) -> (turn: Result<String, Problem>)
    ensures
        match turn {
            Ok(turn) => started_turn(reply_view(reply)) == Ok::<Seq<char>, ProblemView>(turn@),
            Err(problem) => started_turn(reply_view(reply)) == Err::<Seq<char>, ProblemView>(
                problem@,
            ),
        },
{
    let response = match reply {
        Ok(response) => response,
        Err(error) => return Err(problem_with_cause("failed to start native Codex turn", error)),
    };
    match read_text(response.get2("turn", "id")) {
        Some(turn) => Ok(turn.to_owned()),
        None => Err(problem("Codex turn/start response did not include turn.id")),
    }
}

// ---------------------------------------------------------------------------
// Commands
// ---------------------------------------------------------------------------

/// A command that is offered, with a hint on what can stand behind it.
#[derive(Debug, PartialEq, Eq)]
pub struct AvailableCommand {
    pub name: String,
    pub description: String,
    pub hint: Option<String>,
}

/// What is said of a command that is offered.
pub struct AvailableCommandView {
    pub name: Seq<char>,
    pub description: Seq<char>,
    pub hint: Option<Seq<char>>,
}

impl View for AvailableCommand {
    type V = AvailableCommandView;

    open spec fn view(&self) -> AvailableCommandView {
        AvailableCommandView {
            name: self.name@,
            description: self.description@,
            hint: opt_string(self.hint),
        }
    }
}

/// What is said of some commands.
pub open spec fn available_views(commands: Seq<AvailableCommand>) -> Seq<AvailableCommandView> {
    Seq::new(commands.len(), |i: int| commands[i]@)
}

/// A command that is offered.
pub open spec fn command_info(
    name: Seq<char>,
    description: Seq<char>,
    hint: Option<Seq<char>>,
) -> AvailableCommandView {
    AvailableCommandView { name, description, hint }
}

/// The commands that are offered.
pub open spec fn offered_commands() -> Seq<AvailableCommandView> {
    Seq::<AvailableCommandView>::empty().push(
        command_info("review"@, "Review my current changes and find issues"@, Some("optional custom review instructions"@)),
    ).push(
        command_info("init"@, "create an AGENTS.md file with instructions for Codex"@, None),
    ).push(
        command_info("compact"@, "summarize conversation to prevent hitting the context limit"@, None),
    ).push(
        command_info("goal"@, "Set, show, pause, resume, or clear the thread goal"@, Some("objective | pause | resume | clear"@)),
    ).push(
        command_info("resume"@, "Resume a native Codex thread"@, None),
    ).push(
        command_info("fork"@, "Fork a native Codex thread"@, None),
    ).push(
        command_info("history"@, "Show native Codex thread history"@, None),
    ).push(
        command_info("model"@, "Show or change the Codex model"@, None),
    ).push(
        command_info("config"@, "Show or change Codex configuration"@, None),
    ).push(
        command_info("skills"@, "List Codex skills"@, None),
    ).push(
        command_info("plugins"@, "List Codex plugins"@, None),
    ).push(
        command_info("hooks"@, "List Codex hooks"@, None),
    ).push(
        command_info("mcp"@, "List Codex MCP servers"@, None),
    )
}

/// Adds a command that is offered.
fn push_command(
    commands: &mut Vec<AvailableCommand>,
    name: &str,
    description: &str,
    hint: Option<&str>,
)
    ensures
        available_views(final(commands)@) == available_views(old(commands)@).push(
            command_info(name@, description@, opt_text(hint)),
        ),
{
    let ghost before = commands@;
    let command = AvailableCommand {
        name: name.to_owned(),
        description: description.to_owned(),
        hint: owned(hint),
    };
    commands.push(command);
    assert(available_views(commands@) =~= available_views(before).push(command@));
}

/// The commands that are offered.
pub fn native_available_commands() -> (commands: Vec<AvailableCommand>)
    ensures
        available_views(commands@) == offered_commands(),
{
    let mut commands: Vec<AvailableCommand> = Vec::new();
    assert(available_views(commands@) =~= Seq::<AvailableCommandView>::empty());
    push_command(&mut commands, "review", "Review my current changes and find issues", Some("optional custom review instructions"));
    push_command(&mut commands, "init", "create an AGENTS.md file with instructions for Codex", None);
    push_command(&mut commands, "compact", "summarize conversation to prevent hitting the context limit", None);
    push_command(&mut commands, "goal", "Set, show, pause, resume, or clear the thread goal", Some("objective | pause | resume | clear"));
    push_command(&mut commands, "resume", "Resume a native Codex thread", None);
    push_command(&mut commands, "fork", "Fork a native Codex thread", None);
    push_command(&mut commands, "history", "Show native Codex thread history", None);
    push_command(&mut commands, "model", "Show or change the Codex model", None);
    push_command(&mut commands, "config", "Show or change Codex configuration", None);
    push_command(&mut commands, "skills", "List Codex skills", None);
    push_command(&mut commands, "plugins", "List Codex plugins", None);
    push_command(&mut commands, "hooks", "List Codex hooks", None);
    push_command(&mut commands, "mcp", "List Codex MCP servers", None);
    commands
}

/// Every slash command is offered.
pub proof fn slash_commands_are_offered(name: Seq<char>, rest: Seq<char>)
    requires
        named_command(name, rest) is Some,
    ensures
        exists|i: int|
            0 <= i < offered_commands().len() && (#[trigger] offered_commands()[i]).name == name,
{
    let commands = offered_commands();
    assert(commands[0].name == "review"@);
    assert(commands[2].name == "compact"@);
    assert(commands[3].name == "goal"@);
    assert(commands[5].name == "fork"@);
    assert(commands[6].name == "history"@);
    assert(commands[7].name == "model"@);
    assert(commands[8].name == "config"@);
    assert(commands[9].name == "skills"@);
    assert(commands[10].name == "plugins"@);
    assert(commands[11].name == "hooks"@);
    assert(commands[12].name == "mcp"@);
}

} // verus!
