use codex_native::calls::Problem;
use codex_native::eval::{
    check_instruction, eval_result, exit_code, read_instruction, read_instruction_suffix_file,
    run_agent, run_end, InstructionError, RunEnd, RunStats, RunTokens,
};
use codex_native::skills::{
    expand_project_skills_directories, expand_worktree_directory, skill_body_place,
    skill_directories, skill_path, skill_worktree, DirectoryEntry, SkillBodyPlace,
    SkillLoadingIssue, SkillLoadingIssueKind, SkillSource, COMPACT_COMMAND_NAME,
};

#[test]
fn instructions_keep_their_text() {
    assert_eq!(read_instruction(" Fix it \n", None), Ok(" Fix it \n".into()));
    assert_eq!(
        read_instruction("Fix it", Some("\n  and test it \n")),
        Ok("Fix it\n\nand test it".into())
    );
    assert_eq!(read_instruction(" \n", Some("x")), Err(InstructionError::Empty));
    assert_eq!(read_instruction("x", Some(" \t")), Err(InstructionError::EmptySuffix));
    assert_eq!(check_instruction(""), Err(InstructionError::Empty));
    assert_eq!(check_instruction("x"), Ok(()));
    assert_eq!(read_instruction_suffix_file(" a b "), Ok("a b".into()));
    assert_eq!(InstructionError::Empty.to_text(), "instruction is empty");
    assert_eq!(InstructionError::EmptySuffix.to_text(), "instruction suffix file is empty");
}

#[test]
fn codes_tell_ends_apart() {
    assert_eq!(exit_code(RunEnd::Finished), 0);
    assert_eq!(exit_code(RunEnd::Failed), 1);
    assert_eq!(exit_code(RunEnd::TimedOut), 2);
    assert_eq!(exit_code(RunEnd::Interrupted), 3);
}

#[test]
fn runs_fail_without_their_runtime() {
    let (outcome, stats) = run_agent();
    assert_eq!(stats, RunStats::none());
    assert_eq!(run_end(&outcome), RunEnd::Failed);
    let result = eval_result(outcome, Some(600), "provider/model", stats);
    assert_eq!(result.status, "error");
    assert_eq!(
        result.error.as_deref(),
        Some("eval-cli used the removed legacy evaluation runtime and is no longer available")
    );
    assert_eq!(result.timeout_secs, Some(600));
    assert_eq!(result.model, "provider/model");
    assert_eq!(result.input_tokens, None);
    assert_eq!(result.cache_read_input_tokens, None);
    assert_eq!(result.tool_calls, None);
}

#[test]
fn tokens_of_the_cache_are_reported_where_there_are_any() {
    let stats = RunStats {
        token_usage: Some(RunTokens {
            input_tokens: 0,
            output_tokens: 5,
            cache_creation_input_tokens: 0,
            cache_read_input_tokens: 7,
        }),
        step_count: Some(2),
        tool_call_count: Some(3),
        tool_calls: Some(vec![("edit".into(), 1), ("run".into(), 2)]),
    };
    assert_eq!(run_end(&Ok(())), RunEnd::Finished);
    let result = eval_result(Ok(()), None, "m", stats);
    assert_eq!(result.status, "completed");
    assert_eq!(result.error, None);
    assert_eq!(result.input_tokens, Some(0));
    assert_eq!(result.output_tokens, Some(5));
    assert_eq!(result.cache_creation_input_tokens, None);
    assert_eq!(result.cache_read_input_tokens, Some(7));
    assert_eq!(result.step_count, Some(2));
    assert_eq!(result.tool_call_count, Some(3));
    assert_eq!(result.tool_calls, Some(vec![("edit".into(), 1), ("run".into(), 2)]));
}

#[test]
fn skills_are_read_where_they_are() {
    assert_eq!(skill_body_place(SkillSource::BuiltIn), SkillBodyPlace::File);
    assert_eq!(skill_body_place(SkillSource::Global), SkillBodyPlace::File);
    assert_eq!(
        skill_body_place(SkillSource::ProjectLocal { worktree_id: 3 }),
        SkillBodyPlace::Worktree(3)
    );
    assert_eq!(skill_worktree(Some("w")), Ok("w"));
    assert_eq!(
        skill_worktree::<&str>(None),
        Err(Problem { message: "no such worktree".into(), cause: None })
    );
    assert_eq!(skill_path(Some("p")), Ok("p"));
    assert_eq!(
        skill_path::<&str>(None),
        Err(Problem { message: "skill file is not inside its worktree".into(), cause: None })
    );
    let issue = SkillLoadingIssue {
        project_id: 1,
        path: "p".into(),
        message: "m".into(),
        kind: SkillLoadingIssueKind::LoadFailed,
    };
    assert_ne!(issue.kind, SkillLoadingIssueKind::DescriptionTooLong);
    assert_eq!(COMPACT_COMMAND_NAME, "compact");
}

#[test]
fn skill_directories_are_expanded_in_order() {
    assert_eq!(
        expand_project_skills_directories(".agents", Some(".agents/skills")),
        [".agents", ".agents/skills"]
    );
    assert!(expand_project_skills_directories(".agents", None).is_empty());
    assert!(expand_worktree_directory(Some(true)));
    assert!(!expand_worktree_directory(Some(false)));
    assert!(!expand_worktree_directory(None));
    let entry = |path: &str, is_dir| DirectoryEntry { path: path.into(), is_dir };
    assert_eq!(
        skill_directories(&vec![entry("a", true), entry("b.md", false), entry("c", true)]),
        ["a", "c"]
    );
}
