//! What is reported of runs, and where skills are found.

use vstd::prelude::*;

use crate::eval::{
    code_of, end_of, instruction_of, is_report_on, EvalResult, InstructionError, RunEnd, RunStats,
};
use crate::skills::{
    directories_in, expanded, place_of, DirectoryEntry, SkillBodyPlace, SkillSource,
};
use crate::text::{is_blank, trimmed};

verus! {

/// A run is reported as completed exactly where it has no error, and with its error else; with
/// the model, the time and the counts that it had, those of the cache only where there are any.
pub proof fn reports_say_how_runs_ended(
    result: EvalResult,
    outcome: Result<(), String>,
    timeout: Option<u64>,
    model: Seq<char>,
    stats: RunStats,
)
    requires
        is_report_on(result, outcome, timeout, model, stats),
    ensures
        outcome is Ok <==> result.status@ == "completed"@,
        outcome is Err <==> result.status@ == "error"@,
        result.error is Some <==> outcome is Err,
        outcome matches Err(error) ==> result.error->0@ == error@,
        result.model@ == model,
        result.timeout_secs == timeout,
        result.step_count == stats.step_count,
        result.tool_call_count == stats.tool_call_count,
        result.tool_calls == stats.tool_calls,
        result.input_tokens is Some <==> stats.token_usage is Some,
        stats.token_usage matches Some(usage) ==> {
            &&& result.input_tokens == Some(usage.input_tokens)
            &&& result.output_tokens == Some(usage.output_tokens)
            &&& result.cache_read_input_tokens is Some <==> usage.cache_read_input_tokens > 0
            &&& result.cache_read_input_tokens is Some ==> result.cache_read_input_tokens->0
                == usage.cache_read_input_tokens
            &&& result.cache_creation_input_tokens is Some <==> usage.cache_creation_input_tokens
                > 0
            &&& result.cache_creation_input_tokens is Some
                ==> result.cache_creation_input_tokens->0 == usage.cache_creation_input_tokens
        },
        stats.token_usage is None ==> result.output_tokens is None
            && result.cache_read_input_tokens is None && result.cache_creation_input_tokens is None,
{
    reveal_strlit("completed");
    reveal_strlit("error");
    assert("completed"@.len() != "error"@.len());
}

/// A run exits with zero exactly where it has no error, and with one where it has; running out
/// of time and being interrupted have codes of their own.
pub proof fn runs_exit_by_how_they_ended(outcome: Result<(), String>)
    ensures
        outcome is Ok ==> code_of(end_of(outcome)) == 0,
        outcome is Err ==> code_of(end_of(outcome)) == 1,
        code_of(RunEnd::TimedOut) == 2,
        code_of(RunEnd::Interrupted) == 3,
{
}

/// An instruction is its text, with the suffix behind it, without the white space around the
/// suffix; neither may be blank.
pub proof fn instructions_end_with_their_suffix(text: Seq<char>, suffix: Seq<char>)
    ensures
        ({
            let plain = instruction_of(text, None);
            let made = instruction_of(text, Some(suffix));
            &&& plain is Ok <==> !is_blank(text)
            &&& made is Ok <==> !is_blank(text) && !is_blank(suffix)
            &&& plain is Ok ==> plain->Ok_0 == text
            &&& made is Ok ==> made->Ok_0 == text + "\n\n"@ + trimmed(suffix)
            &&& is_blank(text) ==> plain->Err_0 == InstructionError::Empty && made->Err_0
                == InstructionError::Empty
            &&& !is_blank(text) && is_blank(suffix) ==> made->Err_0
                == InstructionError::EmptySuffix
        }),
{
}

/// An instruction that is missing, and a suffix that is, are told as what they are.
pub proof fn empty_instructions_are_told()
    ensures
        InstructionError::Empty.message() == "instruction is empty"@,
        InstructionError::EmptySuffix.message() == "instruction suffix file is empty"@,
{
}

/// The directories among some entries are kept in their order, and what is no directory is left
/// out.
pub proof fn directories_are_kept_in_order(entries: Seq<DirectoryEntry>, entry: DirectoryEntry)
    ensures
        directories_in(Seq::<DirectoryEntry>::empty()).len() == 0,
        entry.is_dir ==> directories_in(entries.push(entry)) == directories_in(entries).push(
            entry.path@,
        ),
        !entry.is_dir ==> directories_in(entries.push(entry)) == directories_in(entries),
{
    assert(entries.push(entry).drop_last() =~= entries);
}

/// A skill of a project is read in its worktree, and any other in its file; and the directories
/// of a project are expanded, the outer one first, where it has one for skills.
pub proof fn skills_are_read_where_they_are(
    source: SkillSource,
    agents_dir: Seq<char>,
    skills_dir: Seq<char>,
)
    ensures
        source matches SkillSource::ProjectLocal { worktree_id } ==> place_of(source)
            == SkillBodyPlace::Worktree(worktree_id),
        source !is ProjectLocal ==> place_of(source) == SkillBodyPlace::File,
        expanded(agents_dir, Some(skills_dir)) == seq![agents_dir, skills_dir],
        expanded(agents_dir, None).len() == 0,
{
    assert(expanded(agents_dir, Some(skills_dir)) =~= seq![agents_dir, skills_dir]);
}

} // verus!
