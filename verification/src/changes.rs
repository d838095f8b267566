//! Changes to files: unified diffs, and what is shown of them.

use vstd::prelude::*;

use crate::items::is_text;
use crate::json::{item_views, opt_view, read_text, text_in, Json, JsonView};
use crate::protocol::{
    content_views, content_views_push, text_content, ContentView, ToolCallContent,
};
use crate::text::{
    after_prefix, chars_of, concat2, decimal, decimal_text, either, is_ascii_digit, is_digit, join,
    joined, opt_string, opt_text, or_text, push_line, split, split_text, strip_prefix, take_all,
    take_step, text_or, texts,
};

verus! {

// ---------------------------------------------------------------------------
// Unified diffs
// ---------------------------------------------------------------------------

/// A line of a hunk.
#[derive(Debug, PartialEq, Eq)]
pub enum DiffLine {
    Context(String),
    Delete(String),
    Insert(String),
}

/// What a line of a hunk says.
pub enum DiffLineView {
    Context(Seq<char>),
    Delete(Seq<char>),
    Insert(Seq<char>),
}

impl View for DiffLine {
    type V = DiffLineView;

    open spec fn view(&self) -> DiffLineView {
        match *self {
            DiffLine::Context(text) => DiffLineView::Context(text@),
            DiffLine::Delete(text) => DiffLineView::Delete(text@),
            DiffLine::Insert(text) => DiffLineView::Insert(text@),
        }
    }
}

/// What the lines of a hunk say.
pub open spec fn line_views(lines: Seq<DiffLine>) -> Seq<DiffLineView> {
    Seq::new(lines.len(), |i: int| lines[i]@)
}

/// What some hunks say.
pub open spec fn hunk_views(hunks: Seq<Vec<DiffLine>>) -> Seq<Seq<DiffLineView>> {
    Seq::new(hunks.len(), |i: int| line_views(hunks[i]@))
}

/// The lines of the hunks that `diffy::Patch::from_str` reads from a unified diff,
/// if it reads any diff.
pub uninterp spec fn diff_hunks(diff: Seq<char>) -> Option<Seq<Seq<DiffLineView>>>;

/// That the ends of the ranges in the head of a hunk can be counted: with the length of
/// the range added to it, the number of its first line is at most a limit. A range is
/// written as its first line and its length, with a comma between them; where only the
/// first line is written, the length is one. `first` is the number that stands before
/// the comma, if there was one, and `so_far` what was read of a number.
pub open spec fn ends_fit(s: Seq<char>, first: Option<nat>, so_far: nat, limit: nat) -> bool
    decreases s.len(),
{
    if s.len() == 0 || s[0] == '@' {
        true
    } else if is_digit(s[0]) {
        let n = so_far * 10 + (s[0] as u32 - 48) as nat;
        n + first.unwrap_or(0) <= limit && ends_fit(s.skip(1), first, n, limit)
    } else if s[0] == ',' {
        ends_fit(s.skip(1), Some(so_far), 0, limit)
    } else if s[0] == ' ' {
        (first is None ==> so_far + 1 <= limit) && ends_fit(s.skip(1), None, 0, limit)
    } else {
        ends_fit(s.skip(1), first, so_far, limit)
    }
}

/// Whether a line is the head of a hunk.
pub open spec fn is_head(line: Seq<char>) -> bool {
    after_prefix(line, "@@ "@) is Some
}

/// That the ends of the ranges in a line can be counted, where it is the head of a hunk.
pub open spec fn head_fits(line: Seq<char>) -> bool {
    match after_prefix(line, "@@ "@) {
        Some(ranges) => ends_fit(ranges, None, 0, usize::MAX as nat),
        None => true,
    }
}

/// That the end of every hunk can be counted that another follows.
pub open spec fn line_numbers_fit(diff: Seq<char>) -> bool {
    heads_fit(split(diff, seq!['\n']))
}

/// That the ends of the ranges can be counted in every head that another follows.
pub open spec fn heads_fit(lines: Seq<Seq<char>>) -> bool {
    forall|i: int, j: int|
        0 <= i < j < lines.len() && is_head(#[trigger] lines[j]) ==> head_fits(
            #[trigger] lines[i],
        )
}

/// The hunks of a unified diff; nothing where it cannot be read.
pub open spec fn readable_hunks(diff: Seq<char>) -> Option<Seq<Seq<DiffLineView>>> {
    if line_numbers_fit(diff) {
        diff_hunks(diff)
    } else {
        None
    }
}

/// Calls `diffy::Patch::from_str`, and takes from the patch the lines of its hunks.
/// The result depends on the diff alone. `diffy` adds the length of a hunk to the
/// number of its first line, where another hunk follows; the diff is taken only where
/// that sum fits.
#[verifier::external_body]
fn parse_hunks(diff: &str) -> (hunks: Option<Vec<Vec<DiffLine>>>)
    requires
        line_numbers_fit(diff@),
    ensures
        match hunks {
            Some(hunks) => diff_hunks(diff@) == Some(hunk_views(hunks@)),
            None => diff_hunks(diff@) is None,
        },
{
    let patch = diffy::Patch::from_str(diff).ok()?;
    let convert = |line: &diffy::Line<'_, str>| match line {
        diffy::Line::Context(text) => DiffLine::Context((*text).to_owned()),
        diffy::Line::Delete(text) => DiffLine::Delete((*text).to_owned()),
        diffy::Line::Insert(text) => DiffLine::Insert((*text).to_owned()),
    };
    Some(patch.hunks().iter().map(|hunk| hunk.lines().iter().map(convert).collect()).collect())
}

/// Whether the ends of the ranges in the head of a hunk can be counted.
fn check_ranges(ranges: &str) -> (fit: bool)
    ensures
        fit == ends_fit(ranges@, None, 0, usize::MAX as nat),
{
    let chars = chars_of(ranges);
    let mut first: Option<usize> = None;
    let mut so_far: usize = 0;
    let mut i: usize = 0;
    assert(chars@.skip(0) =~= chars@);
    while i < chars.len()
        invariant
            i <= chars@.len(),
            ranges@ == chars@,
            first matches Some(n) ==> n + so_far <= usize::MAX,
            ends_fit(chars@, None, 0, usize::MAX as nat) == ends_fit(
                chars@.skip(i as int),
                counted(first),
                so_far as nat,
                usize::MAX as nat,
            ),
        decreases chars@.len() - i,
    {
        assert(chars@.skip(i as int).skip(1) =~= chars@.skip(i + 1));
        let c = chars[i];
        if c == '@' {
            return true;
        }
        if is_ascii_digit(c) {
            let digit: usize = (c as u32 - 48) as usize;
            let limit: usize = match first {
                Some(n) => usize::MAX - n,
                None => usize::MAX,
            };
            if digit > limit || so_far > (limit - digit) / 10 {
                return false;
            }
            so_far = so_far * 10 + digit;
        } else if c == ',' {
            first = Some(so_far);
            so_far = 0;
        } else if c == ' ' {
            if first.is_none() && so_far == usize::MAX {
                return false;
            }
            first = None;
            so_far = 0;
        }
        i = i + 1;
    }
    true
}

/// A number that was read, if there was one.
spec fn counted(number: Option<usize>) -> Option<nat> {
    match number {
        Some(n) => Some(n as nat),
        None => None,
    }
}

/// Whether the end of every hunk can be counted that another follows.
fn check_line_numbers(diff: &str) -> (fit: bool)
    ensures
        fit == line_numbers_fit(diff@),
{
    let lines = split_text(diff, &['\n']);
    assert(['\n']@ =~= seq!['\n']);
    let ghost all = texts(lines@);
    let mut followed = false;
    let mut i: usize = lines.len();
    while i > 0
        invariant
            i <= lines@.len(),
            all == texts(lines@),
            all == split(diff@, seq!['\n']),
            followed == (exists|j: int| i <= j < all.len() && is_head(#[trigger] all[j])),
            forall|k: int, j: int|
                i <= k < j < all.len() && is_head(#[trigger] all[j]) ==> head_fits(
                    #[trigger] all[k],
                ),
        decreases i,
    {
        i = i - 1;
        assert(all[i as int] == lines@[i as int]@);
        if let Some(ranges) = strip_prefix(lines[i].as_str(), "@@ ") {
            if followed && !check_ranges(ranges) {
                proof {
                    let j = choose|j: int| i + 1 <= j < all.len() && is_head(#[trigger] all[j]);
                    assert(is_head(all[j]) && !head_fits(all[i as int]));
                }
                return false;
            }
            followed = true;
        }
    }
    true
}

/// Reads the hunks of a unified diff.
pub fn read_hunks(diff: &str) -> (hunks: Option<Vec<Vec<DiffLine>>>)
    ensures
        match hunks {
            Some(hunks) => readable_hunks(diff@) == Some(hunk_views(hunks@)),
            None => readable_hunks(diff@) is None,
        },
{
    if check_line_numbers(diff) {
        parse_hunks(diff)
    } else {
        None
    }
}

/// The text of some lines on one side of a diff: the context, and what was deleted
/// from the old side or inserted in the new one.
pub open spec fn side_of(lines: Seq<DiffLineView>, old_side: bool) -> Seq<char>
    decreases lines.len(),
{
    if lines.len() == 0 {
        Seq::empty()
    } else {
        let before = side_of(lines.drop_last(), old_side);
        match lines.last() {
            DiffLineView::Context(text) => before + text,
            DiffLineView::Delete(text) => if old_side {
                before + text
            } else {
                before
            },
            DiffLineView::Insert(text) => if old_side {
                before
            } else {
                before + text
            },
        }
    }
}

/// The text of some hunks on one side of a diff.
pub open spec fn side_of_all(hunks: Seq<Seq<DiffLineView>>, old_side: bool) -> Seq<char>
    decreases hunks.len(),
{
    if hunks.len() == 0 {
        Seq::empty()
    } else {
        side_of_all(hunks.drop_last(), old_side) + side_of(hunks.last(), old_side)
    }
}

/// What is shown of some hunks: each is a diff of its own.
pub open spec fn hunk_diffs(path: Seq<char>, hunks: Seq<Seq<DiffLineView>>) -> Seq<ContentView>
    decreases hunks.len(),
{
    if hunks.len() == 0 {
        Seq::empty()
    } else {
        hunk_diffs(path, hunks.drop_last()).push(
            ContentView::Diff {
                path,
                old_text: Some(side_of(hunks.last(), true)),
                new_text: side_of(hunks.last(), false),
            },
        )
    }
}

/// What is shown of a unified diff: its hunks, or the diff itself where it has none
/// that can be read.
pub open spec fn diff_content(path: Seq<char>, diff: Seq<char>) -> Seq<ContentView> {
    match readable_hunks(diff) {
        Some(hunks) => if hunks.len() > 0 {
            hunk_diffs(path, hunks)
        } else {
            seq![ContentView::Text(diff)]
        },
        None => seq![ContentView::Text(diff)],
    }
}

/// Adds the text of some lines on one side of a diff.
fn append_side(text: &mut String, lines: &Vec<DiffLine>, old_side: bool)
    ensures
        final(text)@ == old(text)@ + side_of(line_views(lines@), old_side),
{
    let ghost all = line_views(lines@);
    let ghost start = text@;
    let mut i: usize = 0;
    proof {
        take_all(all);
        assert(start + side_of(all.take(0), old_side) =~= start);
    }
    while i < lines.len()
        invariant
            i <= lines@.len(),
            all == line_views(lines@),
            text@ == start + side_of(all.take(i as int), old_side),
        decreases lines@.len() - i,
    {
        proof {
            take_step(all, i as int);
        }
        match &lines[i] {
            DiffLine::Context(line) => text.append(line.as_str()),
            DiffLine::Delete(line) => if old_side {
                text.append(line.as_str())
            },
            DiffLine::Insert(line) => if !old_side {
                text.append(line.as_str())
            },
        }
        assert(text@ =~= start + side_of(all.take(i + 1), old_side));
        i = i + 1;
    }
    proof {
        take_all(all);
    }
}

/// The text of a unified diff on one side; nothing where it cannot be read.
pub fn text_from_unified_diff(diff: &str, old_side: bool) -> (text: Option<String>)
    ensures
        opt_string(text) == match readable_hunks(diff@) {
            Some(hunks) => Some(side_of_all(hunks, old_side)),
            None => None,
        },
{
    let hunks = match read_hunks(diff) {
        Some(hunks) => hunks,
        None => return None,
    };
    let ghost all = hunk_views(hunks@);
    let mut text = String::new();
    let mut i: usize = 0;
    proof {
        take_all(all);
        assert(text@ =~= side_of_all(all.take(0), old_side));
    }
    while i < hunks.len()
        invariant
            i <= hunks@.len(),
            all == hunk_views(hunks@),
            text@ == side_of_all(all.take(i as int), old_side),
        decreases hunks@.len() - i,
    {
        proof {
            take_step(all, i as int);
        }
        append_side(&mut text, &hunks[i], old_side);
        i = i + 1;
    }
    proof {
        take_all(all);
    }
    Some(text)
}

/// What is shown of a unified diff.
pub fn content_from_unified_diff(path: &str, diff: &str) -> (content: Vec<ToolCallContent>)
    ensures
        content_views(content@) == diff_content(path@, diff@),
{
    broadcast use content_views_push;

    let hunks = match read_hunks(diff) {
        Some(hunks) => hunks,
        None => return text_content(diff.to_owned()),
    };
    if hunks.len() == 0 {
        return text_content(diff.to_owned());
    }
    let ghost all = hunk_views(hunks@);
    let mut content: Vec<ToolCallContent> = Vec::new();
    let mut i: usize = 0;
    proof {
        take_all(all);
        assert(content_views(content@) =~= hunk_diffs(path@, all.take(0)));
    }
    while i < hunks.len()
        invariant
            i <= hunks@.len(),
            all == hunk_views(hunks@),
            content_views(content@) == hunk_diffs(path@, all.take(i as int)),
        decreases hunks@.len() - i,
    {
        proof {
            take_step(all, i as int);
        }
        let mut old_text = String::new();
        let mut new_text = String::new();
        append_side(&mut old_text, &hunks[i], true);
        append_side(&mut new_text, &hunks[i], false);
        proof {
            assert(Seq::<char>::empty() + side_of(all[i as int], true) =~= side_of(
                all[i as int],
                true,
            ));
            assert(Seq::<char>::empty() + side_of(all[i as int], false) =~= side_of(
                all[i as int],
                false,
            ));
        }
        content.push(
            ToolCallContent::Diff { path: path.to_owned(), old_text: Some(old_text), new_text },
        );
        i = i + 1;
    }
    proof {
        take_all(all);
    }
    content
}

// ---------------------------------------------------------------------------
// File changes
// ---------------------------------------------------------------------------

/// The file that a change is for.
pub open spec fn changed_path(change: JsonView) -> Option<Seq<char>> {
    text_in(either(change.get_either("path"@, "file"@), change.get("absPath"@)))
}

/// The kind of a change.
pub open spec fn change_kind(change: JsonView) -> Option<Seq<char>> {
    match change.get("kind"@) {
        Some(JsonView::Text(kind)) => Some(kind),
        Some(kind) => kind.text_at("type"@),
        None => None,
    }
}

/// What is shown of a change to a file: a diff for a file that was added, deleted
/// or updated, and nothing where the file or the diff is not named.
pub open spec fn change_content(change: JsonView) -> Seq<ContentView> {
    match (changed_path(change), text_in(change.get_either("diff"@, "unified_diff"@))) {
        (Some(path), Some(diff)) => match change_kind(change) {
            Some(kind) => if kind == "add"@ {
                seq![
                    ContentView::Diff { path, old_text: None, new_text: one_side(diff, false) },
                ]
            } else if kind == "delete"@ {
                seq![
                    ContentView::Diff {
                        path,
                        old_text: Some(one_side(diff, true)),
                        new_text: Seq::empty(),
                    },
                ]
            } else if kind == "update"@ {
                diff_content(moved_path(change, path), diff)
            } else {
                Seq::empty()
            },
            None => diff_content(moved_path(change, path), diff),
        },
        _ => Seq::empty(),
    }
}

/// One side of a unified diff, or the diff itself where it cannot be read.
pub open spec fn one_side(diff: Seq<char>, old_side: bool) -> Seq<char> {
    match readable_hunks(diff) {
        Some(hunks) => side_of_all(hunks, old_side),
        None => diff,
    }
}

/// The file that a change moves to, or the file that it is for.
pub open spec fn moved_path(change: JsonView, path: Seq<char>) -> Seq<char> {
    text_or(text_in(change.get2("kind"@, "move_path"@)), path)
}

/// What is shown of some changes to files.
pub open spec fn all_change_content(changes: Seq<JsonView>) -> Seq<ContentView>
    decreases changes.len(),
{
    if changes.len() == 0 {
        Seq::empty()
    } else {
        all_change_content(changes.drop_last()) + change_content(changes.last())
    }
}

/// The files that some changes are for, one to a line, up to a limit.
pub open spec fn path_lines(changes: Seq<JsonView>, limit: nat) -> Seq<Seq<char>>
    decreases changes.len(),
{
    if changes.len() == 0 {
        Seq::empty()
    } else {
        let lines = path_lines(changes.drop_last(), limit);
        match changed_path(changes.last()) {
            Some(path) => if lines.len() < limit {
                lines.push("- "@ + path)
            } else {
                lines
            },
            None => lines,
        }
    }
}

/// Some changes to files in a few words.
pub open spec fn change_summary(changes: Seq<JsonView>) -> Seq<char> {
    let lines = path_lines(changes, 10);
    if changes.len() == 0 {
        "File changes updated."@
    } else if lines.len() == 0 {
        decimal(changes.len()) + " file change(s) updated."@
    } else {
        "Changed files:\n"@ + joined(lines, "\n"@)
    }
}

/// What is shown of a list of changes: the changes, or a few words where none of
/// them can be shown.
pub open spec fn changes_content(changes: Option<JsonView>) -> Seq<ContentView> {
    match changes {
        Some(JsonView::Array(changes)) => {
            let content = all_change_content(changes);
            if content.len() == 0 {
                seq![ContentView::Text(change_summary(changes))]
            } else {
                content
            }
        },
        _ => seq![ContentView::Text("File changes updated."@)],
    }
}

/// The file that a change is for.
fn find_path(change: &Json) -> (path: Option<&str>)
    ensures
        opt_text(path) == changed_path(change@),
{
    let path = match change.get_either("path", "file") {
        Some(path) => Some(path),
        None => change.get("absPath"),
    };
    read_text(path)
}

/// The kind of a change.
pub fn change_kind_type(change: &Json) -> (kind: Option<&str>)
    ensures
        opt_text(kind) == change_kind(change@),
{
    match change.get("kind") {
        Some(kind) => match kind.as_text() {
            Some(name) => Some(name),
            None => kind.text_at("type"),
        },
        None => None,
    }
}

/// One side of a unified diff, or the diff itself where it cannot be read.
fn take_side(diff: &str, old_side: bool) -> (text: String)
    ensures
        text@ == one_side(diff@, old_side),
{
    match text_from_unified_diff(diff, old_side) {
        Some(text) => text,
        None => diff.to_owned(),
    }
}

/// A diff as the only thing to show.
fn only_diff(path: &str, old_text: Option<String>, new_text: String) -> (content: Vec<
    ToolCallContent,
>)
    ensures
        content_views(content@) == seq![
            ContentView::Diff { path: path@, old_text: opt_string(old_text), new_text: new_text@ },
        ],
{
    broadcast use content_views_push;

    let mut content: Vec<ToolCallContent> = Vec::new();
    assert(content_views(content@) =~= Seq::empty());
    content.push(ToolCallContent::Diff { path: path.to_owned(), old_text, new_text });
    content
}

/// What is shown of a change to a file.
pub fn file_change_content(change: &Json) -> (content: Vec<ToolCallContent>)
    ensures
        content_views(content@) == change_content(change@),
{
    let empty: Vec<ToolCallContent> = Vec::new();
    assert(content_views(empty@) =~= Seq::empty());
    let path = match find_path(change) {
        Some(path) => path,
        None => return empty,
    };
    let diff = match read_text(change.get_either("diff", "unified_diff")) {
        Some(diff) => diff,
        None => return empty,
    };
    let kind = change_kind_type(change);
    if is_text(kind, "add") {
        only_diff(path, None, take_side(diff, false))
    } else if is_text(kind, "delete") {
        let nothing = String::new();
        assert(nothing@ =~= Seq::<char>::empty());
        only_diff(path, Some(take_side(diff, true)), nothing)
    } else if kind.is_none() || is_text(kind, "update") {
        let moved = or_text(read_text(change.get2("kind", "move_path")), path);
        content_from_unified_diff(moved, diff)
    } else {
        empty
    }
}

/// Some changes to files in a few words.
pub fn summarize_file_changes_from_array(changes: &Vec<Json>) -> (summary: String)
    ensures
        summary@ == change_summary(item_views(changes@)),
{
    let ghost all = item_views(changes@);
    if changes.len() == 0 {
        return "File changes updated.".to_owned();
    }
    let mut lines: Vec<String> = Vec::new();
    let mut i: usize = 0;
    proof {
        take_all(all);
        assert(texts(lines@) =~= Seq::<Seq<char>>::empty());
    }
    while i < changes.len()
        invariant
            i <= changes@.len(),
            all == item_views(changes@),
            texts(lines@) == path_lines(all.take(i as int), 10),
        decreases changes@.len() - i,
    {
        proof {
            take_step(all, i as int);
            assert(texts(lines@).len() == lines@.len());
        }
        if let Some(path) = find_path(&changes[i]) {
            if lines.len() < 10 {
                push_line(&mut lines, concat2("- ", path));
            }
        }
        i = i + 1;
    }
    proof {
        take_all(all);
        assert(texts(lines@).len() == lines@.len());
    }
    if lines.len() == 0 {
        concat2(decimal_text(changes.len() as u64).as_str(), " file change(s) updated.")
    } else {
        concat2("Changed files:\n", join(&lines, "\n").as_str())
    }
}

/// What is shown of a list of changes.
pub fn file_change_contents(changes: Option<&Json>) -> (content: Vec<ToolCallContent>)
    ensures
        content_views(content@) == changes_content(opt_view(changes)),
{
    let changes = match changes {
        Some(changes) => match changes.as_array() {
            Some(changes) => changes,
            None => return text_content("File changes updated.".to_owned()),
        },
        None => return text_content("File changes updated.".to_owned()),
    };
    let ghost all = item_views(changes@);
    let mut content: Vec<ToolCallContent> = Vec::new();
    let mut i: usize = 0;
    proof {
        take_all(all);
        assert(content_views(content@) =~= all_change_content(all.take(0)));
    }
    while i < changes.len()
        invariant
            i <= changes@.len(),
            all == item_views(changes@),
            content_views(content@) == all_change_content(all.take(i as int)),
        decreases changes@.len() - i,
    {
        proof {
            take_step(all, i as int);
        }
        let mut more = file_change_content(&changes[i]);
        let ghost before = content@;
        let ghost added = more@;
        content.append(&mut more);
        assert(content_views(before + added) =~= content_views(before) + content_views(added));
        i = i + 1;
    }
    proof {
        take_all(all);
        assert(content_views(content@).len() == content@.len());
    }
    if content.len() == 0 {
        text_content(summarize_file_changes_from_array(changes))
    } else {
        content
    }
}

} // verus!
