//! The words that messages are told apart by: each has a length, or a character at some
//! place, that the others of its kind have not.

use vstd::prelude::*;

verus! {

/// The names of notifications are told apart by their lengths, and by some characters.
pub proof fn notification_names()
    ensures
        "item/commandExecution/outputDelta"@.len() == 33,
        "item/fileChange/outputDelta"@.len() == 27,
        "item/agentMessage/delta"@.len() == 23 && "item/agentMessage/delta"@[0] == 'i',
        "item/reasoning/textDelta"@.len() == 24,
        "item/reasoning/summaryTextDelta"@.len() == 31 && "item/reasoning/summaryTextDelta"@[0] == 'i',
        "turn/plan/updated"@.len() == 17 && "turn/plan/updated"@[1] == 'u',
        "thread/name/updated"@.len() == 19 && "thread/name/updated"@[7] == 'n' && "thread/name/updated"@[12] == 'u',
        "thread/goal/updated"@.len() == 19 && "thread/goal/updated"@[7] == 'g' && "thread/goal/updated"@[12] == 'u',
        "thread/goal/cleared"@.len() == 19 && "thread/goal/cleared"@[7] == 'g' && "thread/goal/cleared"@[12] == 'c',
        "thread/tokenUsage/updated"@.len() == 25 && "thread/tokenUsage/updated"@[0] == 't',
        "model/rerouted"@.len() == 14 && "model/rerouted"@[0] == 'm' && "model/rerouted"@[1] == 'o',
        "model/verification"@.len() == 18,
        "model/safetyBuffering/updated"@.len() == 29,
        "configWarning"@.len() == 13,
        "warning"@.len() == 7,
        "guardianWarning"@.len() == 15 && "guardianWarning"@[0] == 'g',
        "error"@.len() == 5,
        "mcpServer/startupStatus/updated"@.len() == 31 && "mcpServer/startupStatus/updated"@[0] == 'm',
        "item/commandExecution/terminalInteraction"@.len() == 41,
        "item/fileChange/patchUpdated"@.len() == 28,
        "item/mcpToolCall/progress"@.len() == 25 && "item/mcpToolCall/progress"@[0] == 'i',
        "item/started"@.len() == 12 && "item/started"@[0] == 'i',
        "item/completed"@.len() == 14 && "item/completed"@[0] == 'i' && "item/completed"@[1] == 't',
        "hook/started"@.len() == 12 && "hook/started"@[0] == 'h',
        "hook/completed"@.len() == 14 && "hook/completed"@[0] == 'h' && "hook/completed"@[1] == 'o',
        "context/compacted"@.len() == 17 && "context/compacted"@[1] == 'o',
        "turn/started"@.len() == 12 && "turn/started"@[0] == 't',
        "turn/completed"@.len() == 14 && "turn/completed"@[0] == 't' && "turn/completed"@[1] == 'u',
        "thread/settings/updated"@.len() == 23 && "thread/settings/updated"@[0] == 't',
        "thread/archived"@.len() == 15 && "thread/archived"@[0] == 't',
        "thread/unarchived"@.len() == 17 && "thread/unarchived"@[1] == 'h',
        "thread/deleted"@.len() == 14 && "thread/deleted"@[0] == 't' && "thread/deleted"@[1] == 'h',
{
    reveal_strlit("item/commandExecution/outputDelta");
    reveal_strlit("item/fileChange/outputDelta");
    reveal_strlit("item/agentMessage/delta");
    reveal_strlit("item/reasoning/textDelta");
    reveal_strlit("item/reasoning/summaryTextDelta");
    reveal_strlit("turn/plan/updated");
    reveal_strlit("thread/name/updated");
    reveal_strlit("thread/goal/updated");
    reveal_strlit("thread/goal/cleared");
    reveal_strlit("thread/tokenUsage/updated");
    reveal_strlit("model/rerouted");
    reveal_strlit("model/verification");
    reveal_strlit("model/safetyBuffering/updated");
    reveal_strlit("configWarning");
    reveal_strlit("warning");
    reveal_strlit("guardianWarning");
    reveal_strlit("error");
    reveal_strlit("mcpServer/startupStatus/updated");
    reveal_strlit("item/commandExecution/terminalInteraction");
    reveal_strlit("item/fileChange/patchUpdated");
    reveal_strlit("item/mcpToolCall/progress");
    reveal_strlit("item/started");
    reveal_strlit("item/completed");
    reveal_strlit("hook/started");
    reveal_strlit("hook/completed");
    reveal_strlit("context/compacted");
    reveal_strlit("turn/started");
    reveal_strlit("turn/completed");
    reveal_strlit("thread/settings/updated");
    reveal_strlit("thread/archived");
    reveal_strlit("thread/unarchived");
    reveal_strlit("thread/deleted");
}

/// The types of items are told apart.
pub proof fn item_types()
    ensures
        "commandExecution"@.len() == 16,
        "fileChange"@.len() == 10,
        "mcpToolCall"@.len() == 11 && "mcpToolCall"@[0] == 'm',
        "dynamicToolCall"@.len() == 15 && "dynamicToolCall"@[0] == 'd',
        "collabAgentToolCall"@.len() == 19,
        "webSearch"@.len() == 9 && "webSearch"@[0] == 'w',
        "imageGeneration"@.len() == 15 && "imageGeneration"@[0] == 'i',
        "userMessage"@.len() == 11 && "userMessage"@[0] == 'u',
        "agentMessage"@.len() == 12,
        "reasoning"@.len() == 9 && "reasoning"@[0] == 'r',
{
    reveal_strlit("commandExecution");
    reveal_strlit("fileChange");
    reveal_strlit("mcpToolCall");
    reveal_strlit("dynamicToolCall");
    reveal_strlit("collabAgentToolCall");
    reveal_strlit("webSearch");
    reveal_strlit("imageGeneration");
    reveal_strlit("userMessage");
    reveal_strlit("agentMessage");
    reveal_strlit("reasoning");
}

/// The states of items, steps, turns and servers are told apart.
pub proof fn item_states()
    ensures
        "completed"@.len() == 9 && "completed"@[1] == 'o',
        "failed"@.len() == 6,
        "declined"@.len() == 8,
        "inProgress"@.len() == 10,
        "interrupted"@.len() == 11,
        "cancelled"@.len() == 9 && "cancelled"@[1] == 'a',
{
    reveal_strlit("completed");
    reveal_strlit("failed");
    reveal_strlit("declined");
    reveal_strlit("inProgress");
    reveal_strlit("interrupted");
    reveal_strlit("cancelled");
}

/// The keys under which terminals are told of are told apart.
pub proof fn terminal_keys()
    ensures
        "terminal_id"@.len() == 11,
        "data"@.len() == 4,
        "exit_code"@.len() == 9,
        "signal"@.len() == 6,
        "cwd"@.len() == 3,
        "terminal_info"@.len() == 13 && "terminal_info"@[9] == 'i',
        "terminal_output"@.len() == 15,
        "terminal_exit"@.len() == 13 && "terminal_exit"@[9] == 'e',
{
    reveal_strlit("terminal_id");
    reveal_strlit("data");
    reveal_strlit("exit_code");
    reveal_strlit("signal");
    reveal_strlit("cwd");
    reveal_strlit("terminal_info");
    reveal_strlit("terminal_output");
    reveal_strlit("terminal_exit");
}

/// The types of user input are told apart.
pub proof fn input_types()
    ensures
        "text"@.len() == 4,
        "localImage"@.len() == 10,
        "image"@.len() == 5,
{
    reveal_strlit("text");
    reveal_strlit("localImage");
    reveal_strlit("image");
}

/// The kinds of changes to files are told apart.
pub proof fn change_kinds()
    ensures
        "add"@.len() == 3,
        "delete"@.len() == 6 && "delete"@[0] == 'd',
        "update"@.len() == 6 && "update"@[0] == 'u',
{
    reveal_strlit("add");
    reveal_strlit("delete");
    reveal_strlit("update");
}

/// The names of requests are told apart.
pub proof fn request_names()
    ensures
        "item/commandExecution/requestApproval"@.len() == 37,
        "item/fileChange/requestApproval"@.len() == 31,
        "item/permissions/requestApproval"@.len() == 32,
        "item/tool/requestUserInput"@.len() == 26,
        "mcpServer/elicitation/request"@.len() == 29,
        "currentTime/read"@.len() == 16,
{
    reveal_strlit("item/commandExecution/requestApproval");
    reveal_strlit("item/fileChange/requestApproval");
    reveal_strlit("item/permissions/requestApproval");
    reveal_strlit("item/tool/requestUserInput");
    reveal_strlit("mcpServer/elicitation/request");
    reveal_strlit("currentTime/read");
}

/// The ids of choices, and what such ids begin with, are told apart.
pub proof fn choice_ids()
    ensures
        "accept"@.len() == 6 && "accept"@[0] == 'a',
        "acceptForSession"@.len() == 16,
        "acceptWithExecpolicyAmendment"@.len() == 29,
        "decline"@.len() == 7 && "decline"@[0] == 'd',
        "cancel"@.len() == 6 && "cancel"@[0] == 'c',
        "applyNetworkPolicyAmendment:"@.len() == 28,
        "answer:"@.len() == 7 && "answer:"@[0] == 'a',
        "submit-empty"@.len() == 12,
        "form:"@.len() == 5 && "form:"@[0] == 'f',
        "open"@.len() == 4,
        "allow"@.len() == 5 && "allow"@[0] == 'a',
        "allow-for-session"@.len() == 17,
{
    reveal_strlit("accept");
    reveal_strlit("acceptForSession");
    reveal_strlit("acceptWithExecpolicyAmendment");
    reveal_strlit("decline");
    reveal_strlit("cancel");
    reveal_strlit("applyNetworkPolicyAmendment:");
    reveal_strlit("answer:");
    reveal_strlit("submit-empty");
    reveal_strlit("form:");
    reveal_strlit("open");
    reveal_strlit("allow");
    reveal_strlit("allow-for-session");
}

/// The names of commands are told apart.
pub proof fn command_names()
    ensures
        "review"@.len() == 6 && "review"@[0] == 'r',
        "compact"@.len() == 7 && "compact"@[0] == 'c',
        "goal"@.len() == 4 && "goal"@[0] == 'g',
        "model"@.len() == 5 && "model"@[0] == 'm',
        "config"@.len() == 6 && "config"@[0] == 'c',
        "skills"@.len() == 6 && "skills"@[0] == 's',
        "plugins"@.len() == 7 && "plugins"@[0] == 'p',
        "hooks"@.len() == 5 && "hooks"@[0] == 'h',
        "mcp"@.len() == 3,
        "fork"@.len() == 4 && "fork"@[0] == 'f',
        "history"@.len() == 7 && "history"@[0] == 'h',
{
    reveal_strlit("review");
    reveal_strlit("compact");
    reveal_strlit("goal");
    reveal_strlit("model");
    reveal_strlit("config");
    reveal_strlit("skills");
    reveal_strlit("plugins");
    reveal_strlit("hooks");
    reveal_strlit("mcp");
    reveal_strlit("fork");
    reveal_strlit("history");
}

/// The words of the goal command are told apart.
pub proof fn goal_words()
    ensures
        ""@.len() == 0,
        "status"@.len() == 6 && "status"@[0] == 's',
        "clear"@.len() == 5 && "clear"@[0] == 'c',
        "pause"@.len() == 5 && "pause"@[0] == 'p',
        "resume"@.len() == 6 && "resume"@[0] == 'r',
{
    reveal_strlit("");
    reveal_strlit("status");
    reveal_strlit("clear");
    reveal_strlit("pause");
    reveal_strlit("resume");
}

/// The ids of options are told apart.
pub proof fn option_ids()
    ensures
        "model_reasoning_effort"@.len() == 22,
        "approval_policy"@.len() == 15 && "approval_policy"@[0] == 'a',
        "sandbox_mode"@.len() == 12,
        "model_verbosity"@.len() == 15 && "model_verbosity"@[0] == 'm',
        "web_search"@.len() == 10,
        "model_context_window"@.len() == 20,
        "model_auto_compact_token_limit"@.len() == 30,
{
    reveal_strlit("model_reasoning_effort");
    reveal_strlit("approval_policy");
    reveal_strlit("sandbox_mode");
    reveal_strlit("model_verbosity");
    reveal_strlit("web_search");
    reveal_strlit("model_context_window");
    reveal_strlit("model_auto_compact_token_limit");
}

/// The keys of requests and replies are told apart.
pub proof fn reply_keys()
    ensures
        "permissions"@.len() == 11,
        "scope"@.len() == 5 && "scope"@[0] == 's',
        "action"@.len() == 6,
        "content"@.len() == 7 && "content"@[0] == 'c',
        "_meta"@.len() == 5 && "_meta"@[0] == '_',
        "threadId"@.len() == 8 && "threadId"@[0] == 't',
        "input"@.len() == 5 && "input"@[0] == 'i',
        "model"@.len() == 5 && "model"@[0] == 'm',
        "cwd"@.len() == 3,
        "threadSource"@.len() == 12,
        "decision"@.len() == 8 && "decision"@[0] == 'd',
        "answers"@.len() == 7 && "answers"@[0] == 'a',
{
    reveal_strlit("permissions");
    reveal_strlit("scope");
    reveal_strlit("action");
    reveal_strlit("content");
    reveal_strlit("_meta");
    reveal_strlit("threadId");
    reveal_strlit("input");
    reveal_strlit("model");
    reveal_strlit("cwd");
    reveal_strlit("threadSource");
    reveal_strlit("decision");
    reveal_strlit("answers");
}

/// The types of sandboxes are told apart.
pub proof fn sandbox_types()
    ensures
        "dangerFullAccess"@.len() == 16,
        "readOnly"@.len() == 8,
        "workspaceWrite"@.len() == 14,
{
    reveal_strlit("dangerFullAccess");
    reveal_strlit("readOnly");
    reveal_strlit("workspaceWrite");
}

/// The modes of requests for input are told apart.
pub proof fn modes()
    ensures
        "url"@.len() == 3,
        "form"@.len() == 4,
{
    reveal_strlit("url");
    reveal_strlit("form");
}

} // verus!
