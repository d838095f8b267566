//! Skills: where the body of one is found, and what can go wrong with them.

use vstd::prelude::*;

use crate::calls::{plain_problem, problem, Problem};
use crate::text::{opt_text, take_all, take_step, texts, texts_push};

verus! {

/// The name of the command that makes a conversation shorter.
pub const COMPACT_COMMAND_NAME: &'static str = "compact";

/// What went wrong with a skill.
#[derive(Clone, Copy, Debug, PartialEq, Eq, Hash)]
pub enum SkillLoadingIssueKind {
    LoadFailed,
    DescriptionTooLong,
    CatalogBudgetExceeded,
}

/// Something that went wrong with the skill at a path, in a project.
#[derive(Debug, PartialEq, Eq, Hash)]
pub struct SkillLoadingIssue {
    pub project_id: u64,
    pub path: String,
    pub message: String,
    pub kind: SkillLoadingIssueKind,
}

/// What a project held at a time: seconds since the start of 1970, and nanoseconds.
#[derive(Debug, PartialEq)]
pub struct ProjectSnapshot<S> {
    pub worktree_snapshots: Vec<S>,
    pub timestamp: i64,
    pub timestamp_nanos: u32,
}

/// Where a skill comes from.
#[derive(Clone, Copy, Debug, PartialEq, Eq, Structural)]
pub enum SkillSource {
    BuiltIn,
    Global,
    ProjectLocal { worktree_id: usize },
}

/// Where the body of a skill is read.
#[derive(Clone, Copy, Debug, PartialEq, Eq, Structural)]
pub enum SkillBodyPlace {
    /// In the worktree with an id, through the buffer of its project.
    Worktree(usize),
    /// In the file itself.
    File,
}

/// Where the body of a skill is read.
pub open spec fn place_of(source: SkillSource) -> SkillBodyPlace {
    match source {
        SkillSource::ProjectLocal { worktree_id } => SkillBodyPlace::Worktree(worktree_id),
        SkillSource::BuiltIn | SkillSource::Global => SkillBodyPlace::File,
    }
}

/// Where the body of a skill is read: what a project may be editing is read as it is
/// edited.
pub fn skill_body_place(source: SkillSource) -> (place: SkillBodyPlace)
    ensures
        place == place_of(source),
{
    match source {
        SkillSource::ProjectLocal { worktree_id } => SkillBodyPlace::Worktree(worktree_id),
        SkillSource::BuiltIn | SkillSource::Global => SkillBodyPlace::File,
    }
}

/// The worktree a skill is in, where it was found.
pub fn skill_worktree<W>(found: Option<W>) -> (worktree: Result<W, Problem>)
    ensures
        found matches Some(value) ==> worktree == Ok::<W, Problem>(value),
        found is None ==> worktree is Err && worktree->Err_0@ == plain_problem(
            "no such worktree"@,
        ),
{
    match found {
        Some(worktree) => Ok(worktree),
        None => Err(problem("no such worktree")),
    }
}

/// The path of a skill in its worktree, where it has one.
pub fn skill_path<P>(relative: Option<P>) -> (path: Result<P, Problem>)
    ensures
        relative matches Some(value) ==> path == Ok::<P, Problem>(value),
        relative is None ==> path is Err && path->Err_0@ == plain_problem(
            "skill file is not inside its worktree"@,
        ),
{
    match relative {
        Some(path) => Ok(path),
        None => Err(problem("skill file is not inside its worktree")),
    }
}

/// Tells whether an entry is expanded: it is there, and it is a directory.
pub fn expand_worktree_directory(is_dir: Option<bool>) -> (expands: bool)
    ensures
        expands == (is_dir == Some(true)),
{
    match is_dir {
        Some(dir) => dir,
        None => false,
    }
}

/// The directories of a project that are expanded for its skills.
pub open spec fn expanded(agents_dir: Seq<char>, skills_dir: Option<Seq<char>>) -> Seq<Seq<char>> {
    match skills_dir {
        Some(skills) => seq![agents_dir].push(skills),
        None => Seq::empty(),
    }
}

/// The directories that are expanded before the skills of a project are listed, in
/// order. Without a directory of skills there are none.
pub fn expand_project_skills_directories(agents_dir: &str, skills_dir: Option<&str>) -> (directories:
    Vec<String>)
    ensures
        texts(directories@) == expanded(agents_dir@, opt_text(skills_dir)),
{
    let mut directories: Vec<String> = Vec::new();
    if let Some(skills) = skills_dir {
        directories.push(agents_dir.to_owned());
        directories.push(skills.to_owned());
    }
    assert(texts(directories@) =~= expanded(agents_dir@, opt_text(skills_dir)));
    directories
}

/// An entry of a directory, and whether it is a directory.
#[derive(Debug, PartialEq, Eq)]
pub struct DirectoryEntry {
    pub path: String,
    pub is_dir: bool,
}

/// The directories among some entries.
pub open spec fn directories_in(entries: Seq<DirectoryEntry>) -> Seq<Seq<char>>
    decreases entries.len(),
{
    if entries.len() == 0 {
        seq![]
    } else {
        let before = directories_in(entries.drop_last());
        if entries.last().is_dir {
            before.push(entries.last().path@)
        } else {
            before
        }
    }
}

/// The directories of single skills, which are expanded after that of all skills: the
/// directories among its entries, in order.
pub fn skill_directories(entries: &Vec<DirectoryEntry>) -> (directories: Vec<String>)
    ensures
        texts(directories@) == directories_in(entries@),
{
    broadcast use texts_push;

    let mut directories: Vec<String> = Vec::new();
    assert(texts(directories@) =~= directories_in(entries@.take(0)));
    for i in 0..entries.len()
        invariant
            texts(directories@) == directories_in(entries@.take(i as int)),
    {
        proof {
            take_step(entries@, i as int);
        }
        if entries[i].is_dir {
            directories.push(entries[i].path.as_str().to_owned());
        }
    }
    proof {
        take_all(entries@);
    }
    directories
}

} // verus!
