//! The evaluation harness: which instruction a run gets, and how it is reported.

use vstd::prelude::*;

use crate::text::{blank, concat3, is_blank, opt_string, opt_text, trim, trimmed};

verus! {

/// Why a run has no instruction.
#[derive(Clone, Copy, Debug, PartialEq, Eq, Structural)]
pub enum InstructionError {
    Empty,
    EmptySuffix,
}

impl InstructionError {
    /// What is said of it.
    pub open spec fn message(self) -> Seq<char> {
        match self {
            InstructionError::Empty => "instruction is empty"@,
            InstructionError::EmptySuffix => "instruction suffix file is empty"@,
        }
    }

    /// What is said of it.
    pub fn to_text(&self) -> (text: String)
        ensures
            text@ == self.message(),
    {
        match self {
            InstructionError::Empty => "instruction is empty".to_owned(),
            InstructionError::EmptySuffix => "instruction suffix file is empty".to_owned(),
        }
    }
}

/// Tells whether an instruction says anything.
pub fn check_instruction(text: &str) -> (checked: Result<(), InstructionError>)
    ensures
        checked == if is_blank(text@) {
            Err::<(), InstructionError>(InstructionError::Empty)
        } else {
            Ok(())
        },
{
    if blank(text) {
        Err(InstructionError::Empty)
    } else {
        Ok(())
    }
}

/// What a suffix file adds, given what it holds.
pub fn read_instruction_suffix_file(content: &str) -> (suffix: Result<String, InstructionError>)
    ensures
        is_blank(content@) ==> suffix == Err::<String, InstructionError>(
            InstructionError::EmptySuffix,
        ),
        !is_blank(content@) ==> suffix is Ok && suffix->Ok_0@ == trimmed(content@),
{
    if blank(content) {
        Err(InstructionError::EmptySuffix)
    } else {
        Ok(trim(content).to_owned())
    }
}

/// The instruction of a run, or why it has none.
pub open spec fn instruction_of(text: Seq<char>, suffix: Option<Seq<char>>) -> Result<
    Seq<char>,
    InstructionError,
> {
    if is_blank(text) {
        Err(InstructionError::Empty)
    } else {
        match suffix {
            None => Ok(text),
            Some(content) => if is_blank(content) {
                Err(InstructionError::EmptySuffix)
            } else {
                Ok(text + "\n\n"@ + trimmed(content))
            },
        }
    }
}

/// The instruction of a run, given its text and what its suffix file holds, where it has
/// one.
pub fn read_instruction(text: &str, suffix: Option<&str>) -> (instruction: Result<
    String,
    InstructionError,
>)
    ensures
        instruction is Ok <==> instruction_of(text@, opt_text(suffix)) is Ok,
        instruction is Ok ==> instruction->Ok_0@ == instruction_of(
            text@,
            opt_text(suffix),
        )->Ok_0,
        instruction is Err ==> instruction->Err_0 == instruction_of(
            text@,
            opt_text(suffix),
        )->Err_0,
{
    match check_instruction(text) {
        Err(error) => Err(error),
        Ok(()) => match suffix {
            None => Ok(text.to_owned()),
            Some(content) => match read_instruction_suffix_file(content) {
                Err(error) => Err(error),
                Ok(suffix) => Ok(concat3(text, "\n\n", suffix.as_str())),
            },
        },
    }
}

/// How a run ended.
#[derive(Clone, Copy, Debug, PartialEq, Eq, Structural)]
pub enum RunEnd {
    Finished,
    Failed,
    TimedOut,
    Interrupted,
}

/// The code a process exits with after a run.
pub open spec fn code_of(end: RunEnd) -> i32 {
    match end {
        RunEnd::Finished => 0,
        RunEnd::Failed => 1,
        RunEnd::TimedOut => 2,
        RunEnd::Interrupted => 3,
    }
}

/// The code a process exits with after a run.
pub fn exit_code(end: RunEnd) -> (code: i32)
    ensures
        code == code_of(end),
{
    match end {
        RunEnd::Finished => 0,
        RunEnd::Failed => 1,
        RunEnd::TimedOut => 2,
        RunEnd::Interrupted => 3,
    }
}

/// How many tokens a run used.
#[derive(Clone, Copy, Debug, PartialEq, Eq, Structural)]
pub struct RunTokens {
    pub input_tokens: u64,
    pub output_tokens: u64,
    pub cache_creation_input_tokens: u64,
    pub cache_read_input_tokens: u64,
}

/// What was counted during a run. Tool calls are counted by the name of the tool.
#[derive(Debug, PartialEq, Eq)]
pub struct RunStats {
    pub token_usage: Option<RunTokens>,
    pub step_count: Option<u64>,
    pub tool_call_count: Option<u64>,
    pub tool_calls: Option<Vec<(String, u64)>>,
}

impl RunStats {
    /// Nothing was counted.
    pub fn none() -> (stats: RunStats)
        ensures
            stats == (RunStats {
                token_usage: None,
                step_count: None,
                tool_call_count: None,
                tool_calls: None,
            }),
    {
        RunStats { token_usage: None, step_count: None, tool_call_count: None, tool_calls: None }
    }
}

/// What is reported of a run.
#[derive(Debug, PartialEq, Eq)]
pub struct EvalResult {
    pub status: String,
    pub error: Option<String>,
    pub timeout_secs: Option<u64>,
    pub model: String,
    pub input_tokens: Option<u64>,
    pub output_tokens: Option<u64>,
    pub cache_creation_input_tokens: Option<u64>,
    pub cache_read_input_tokens: Option<u64>,
    pub step_count: Option<u64>,
    pub tool_call_count: Option<u64>,
    pub tool_calls: Option<Vec<(String, u64)>>,
}

/// A count, where it is not zero.
pub open spec fn counted(count: u64) -> Option<u64> {
    if count > 0 {
        Some(count)
    } else {
        None
    }
}

/// A count, where it is not zero.
fn shown_count(count: u64) -> (shown: Option<u64>)
    ensures
        shown == counted(count),
{
    if count > 0 {
        Some(count)
    } else {
        None
    }
}

/// That a report is on a run that ended with an outcome. Tokens are reported where they
/// were counted, those of the cache only where there are any.
pub open spec fn is_report_on(
    result: EvalResult,
    outcome: Result<(), String>,
    timeout: Option<u64>,
    model: Seq<char>,
    stats: RunStats,
) -> bool {
    &&& result.status@ == if outcome is Ok {
        "completed"@
    } else {
        "error"@
    }
    &&& outcome is Ok ==> result.error is None
    &&& outcome is Err ==> opt_string(result.error) == Some(outcome->Err_0@)
    &&& result.timeout_secs == timeout
    &&& result.model@ == model
    &&& stats.token_usage is None ==> result.input_tokens is None && result.output_tokens is None
        && result.cache_creation_input_tokens is None && result.cache_read_input_tokens is None
    &&& stats.token_usage matches Some(usage) ==> result.input_tokens == Some(usage.input_tokens)
        && result.output_tokens == Some(usage.output_tokens)
        && result.cache_creation_input_tokens == counted(usage.cache_creation_input_tokens)
        && result.cache_read_input_tokens == counted(usage.cache_read_input_tokens)
    &&& result.step_count == stats.step_count
    &&& result.tool_call_count == stats.tool_call_count
    &&& result.tool_calls == stats.tool_calls
}

/// What is reported of a run that ended with an outcome.
pub fn eval_result(
    outcome: Result<(), String>,
    timeout: Option<u64>,
    model: &str,
    stats: RunStats,
) -> (result: EvalResult)
    ensures
        is_report_on(result, outcome, timeout, model@, stats),
{
    let (status, error) = match outcome {
        Ok(()) => ("completed", None),
        Err(error) => ("error", Some(error)),
    };
    let (input_tokens, output_tokens, created, read) = match stats.token_usage {
        None => (None, None, None, None),
        Some(usage) => (
            Some(usage.input_tokens),
            Some(usage.output_tokens),
            shown_count(usage.cache_creation_input_tokens),
            shown_count(usage.cache_read_input_tokens),
        ),
    };
    EvalResult {
        status: status.to_owned(),
        error,
        timeout_secs: timeout,
        model: model.to_owned(),
        input_tokens,
        output_tokens,
        cache_creation_input_tokens: created,
        cache_read_input_tokens: read,
        step_count: stats.step_count,
        tool_call_count: stats.tool_call_count,
        tool_calls: stats.tool_calls,
    }
}

/// How a run ended, by its outcome.
pub open spec fn end_of(outcome: Result<(), String>) -> RunEnd {
    if outcome is Ok {
        RunEnd::Finished
    } else {
        RunEnd::Failed
    }
}

/// How a run with an outcome ended.
pub fn run_end(outcome: &Result<(), String>) -> (end: RunEnd)
    ensures
        end == end_of(*outcome),
{
    match outcome {
        Ok(()) => RunEnd::Finished,
        Err(_) => RunEnd::Failed,
    }
}

/// What a run comes to: the runtime it needs was removed, so it fails, with nothing
/// counted.
pub fn run_agent() -> (run: (Result<(), String>, RunStats))
    ensures
        run.0 is Err,
        run.0->Err_0@
            == "eval-cli used the removed legacy evaluation runtime and is no longer available"@,
        run.1 == (RunStats {
            token_usage: None,
            step_count: None,
            tool_call_count: None,
            tool_calls: None,
        }),
{
    (
        Err(
            "eval-cli used the removed legacy evaluation runtime and is no longer available".to_owned(),
        ),
        RunStats::none(),
    )
}

/// Runs that ended in different ways exit with different codes, and only a run that
/// finished exits with zero.
pub proof fn codes_tell_ends_apart(first: RunEnd, second: RunEnd)
    ensures
        code_of(first) == code_of(second) ==> first == second,
        code_of(first) == 0 <==> first == RunEnd::Finished,
{
}

/// Every instruction keeps the text it was given at its start.
pub proof fn instructions_keep_their_text(text: Seq<char>, suffix: Option<Seq<char>>)
    requires
        instruction_of(text, suffix) is Ok,
    ensures
        text.len() <= instruction_of(text, suffix)->Ok_0.len(),
        instruction_of(text, suffix)->Ok_0.take(text.len() as int) == text,
{
}

} // verus!
