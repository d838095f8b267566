//! What changes to files are shown as: each with its path and the two sides of what was
//! changed.

use vstd::prelude::*;

use crate::changes::{
    all_change_content, change_content, changes_content, diff_hunks, hunk_diffs, line_numbers_fit,
    path_lines, side_of, side_of_all, DiffLineView,
};
use crate::json::JsonView;
use crate::laws::words::change_kinds;
use crate::protocol::ContentView;
use crate::text::{decimal, joined};

verus! {

/// What a line of a diff says of one of the two sides.
pub open spec fn line_on(line: DiffLineView, old_side: bool) -> Seq<char> {
    match line {
        DiffLineView::Context(text) => text,
        DiffLineView::Delete(text) => if old_side {
            text
        } else {
            Seq::empty()
        },
        DiffLineView::Insert(text) => if old_side {
            Seq::empty()
        } else {
            text
        },
    }
}

/// What some lines say of one of the two sides, from the first line on.
pub open spec fn lines_on(lines: Seq<DiffLineView>, old_side: bool) -> Seq<char>
    decreases lines.len(),
{
    if lines.len() == 0 {
        Seq::empty()
    } else {
        line_on(lines[0], old_side) + lines_on(lines.skip(1), old_side)
    }
}

/// What some hunks say of one of the two sides, from the first hunk on.
pub open spec fn hunks_on(hunks: Seq<Seq<DiffLineView>>, old_side: bool) -> Seq<char>
    decreases hunks.len(),
{
    if hunks.len() == 0 {
        Seq::empty()
    } else {
        lines_on(hunks[0], old_side) + hunks_on(hunks.skip(1), old_side)
    }
}

/// Whether a change names a path and a diff, under one of the keys that they can have.
pub open spec fn names_diff(change: JsonView, path: Seq<char>, diff: Seq<char>) -> bool {
    &&& match (change.get("path"@), change.get("file"@)) {
        (Some(named), _) => named == JsonView::Text(path),
        (None, Some(named)) => named == JsonView::Text(path),
        (None, None) => change.get("absPath"@) == Some(JsonView::Text(path)),
    }
    &&& match change.get("diff"@) {
        Some(named) => named == JsonView::Text(diff),
        None => change.get("unified_diff"@) == Some(JsonView::Text(diff)),
    }
}

/// Whether a change names a path, a diff and a kind.
pub open spec fn is_change(
    change: JsonView,
    path: Seq<char>,
    diff: Seq<char>,
    kind: Seq<char>,
) -> bool {
    &&& names_diff(change, path, diff)
    &&& change.get("kind"@) == Some(JsonView::Text(kind)) || match change.get("kind"@) {
        Some(JsonView::Object(entries)) => change.get2("kind"@, "type"@) == Some(
            JsonView::Text(kind),
        ),
        _ => false,
    }
}

/// What some changes are shown as.
pub open spec fn shown_as(changes: Seq<JsonView>) -> Seq<ContentView> {
    changes_content(Some(JsonView::Array(changes)))
}

/// A file that was added is shown by its path with nothing before and with what it holds, and
/// one that was deleted with what it held and nothing behind; where the diff cannot be read,
/// the diff stands for what the file holds or held.
pub proof fn added_and_deleted_files_have_one_side(
    change: JsonView,
    path: Seq<char>,
    diff: Seq<char>,
    kind: Seq<char>,
)
    requires
        is_change(change, path, diff, kind),
        kind == "add"@ || kind == "delete"@,
    ensures
        ({
            let readable = line_numbers_fit(diff) && diff_hunks(diff) is Some;
            let hunks = diff_hunks(diff)->0;
            let side = |old_side: bool|
                if readable {
                    hunks_on(hunks, old_side)
                } else {
                    diff
                };
            &&& kind == "add"@ ==> shown_as(seq![change]) == seq![
                ContentView::Diff { path, old_text: None, new_text: side(false) },
            ]
            &&& kind == "delete"@ ==> shown_as(seq![change]) == seq![
                ContentView::Diff { path, old_text: Some(side(true)), new_text: Seq::empty() },
            ]
        }),
{
    change_kinds();
    single_changes_are_themselves(change);
    sides_of_all_are_sides(diff_hunks(diff)->0, true);
    sides_of_all_are_sides(diff_hunks(diff)->0, false);
}

/// A file that was updated is shown hunk by hunk, each with what stood there before and what
/// stands there now, under the path that the file was moved to where it was moved; where the
/// diff has no hunks or cannot be read, it is shown as it is.
pub proof fn updated_files_are_shown_hunk_by_hunk(
    change: JsonView,
    path: Seq<char>,
    diff: Seq<char>,
)
    requires
        is_change(change, path, diff, "update"@) || (names_diff(change, path, diff) && change.get(
            "kind"@,
        ) is None),
    ensures
        ({
            let readable = line_numbers_fit(diff) && diff_hunks(diff) is Some && diff_hunks(
                diff,
            )->0.len() > 0;
            let hunks = diff_hunks(diff)->0;
            let moved = match change.get2("kind"@, "move_path"@) {
                Some(JsonView::Text(moved)) => moved,
                _ => path,
            };
            let shown = shown_as(seq![change]);
            &&& readable ==> {
                &&& shown.len() == hunks.len()
                &&& forall|i: int|
                    0 <= i < hunks.len() ==> #[trigger] shown[i] == (ContentView::Diff {
                        path: moved,
                        old_text: Some(lines_on(hunks[i], true)),
                        new_text: lines_on(hunks[i], false),
                    })
            }
            &&& !readable ==> shown == seq![ContentView::Text(diff)]
        }),
{
    change_kinds();
    single_changes_are_themselves(change);
    let hunks = diff_hunks(diff)->0;
    let moved = crate::changes::moved_path(change, path);
    hunk_diffs_are_hunks(moved, hunks);
    let shown = shown_as(seq![change]);
    if line_numbers_fit(diff) && diff_hunks(diff) is Some && hunks.len() > 0 {
        assert(shown == hunk_diffs(moved, hunks));
        assert forall|i: int| 0 <= i < hunks.len() implies #[trigger] shown[i]
            == (ContentView::Diff {
            path: moved,
            old_text: Some(lines_on(hunks[i], true)),
            new_text: lines_on(hunks[i], false),
        }) by {
            sides_are_sides(hunks[i], true);
            sides_are_sides(hunks[i], false);
        }
    }
}

/// A change of a kind that is not known is not shown, but its file is named.
pub proof fn unknown_changes_are_named(
    change: JsonView,
    path: Seq<char>,
    diff: Seq<char>,
    kind: Seq<char>,
)
    requires
        is_change(change, path, diff, kind),
        kind != "add"@ && kind != "delete"@ && kind != "update"@,
    ensures
        shown_as(seq![change]) == seq![ContentView::Text("Changed files:\n"@ + "- "@ + path)],
{
    single_changes_have_one_path(seq![change]);
    assert(seq![change].drop_last() =~= Seq::<JsonView>::empty());
    reveal_with_fuel(all_change_content, 2);
    assert("Changed files:\n"@ + ("- "@ + path) =~= "Changed files:\n"@ + "- "@ + path);
}

/// Changes are shown one after the other: where two lists of changes both show files, the whole
/// shows the one and then the other.
pub proof fn changes_are_shown_in_order(
    a: Seq<JsonView>,
    b: Seq<JsonView>,
    change: JsonView,
    path: Seq<char>,
    diff: Seq<char>,
    kind: Seq<char>,
    other: JsonView,
    other_path: Seq<char>,
    other_diff: Seq<char>,
    other_kind: Seq<char>,
)
    requires
        a.len() > 0 && a.last() == change,
        b.len() > 0 && b.last() == other,
        is_change(change, path, diff, kind),
        is_change(other, other_path, other_diff, other_kind),
        kind == "add"@ || kind == "delete"@ || kind == "update"@,
        other_kind == "add"@ || other_kind == "delete"@ || other_kind == "update"@,
    ensures
        shown_as(a + b) == shown_as(a) + shown_as(b),
{
    change_kinds();
    contents_add_up(a, b);
    hunk_diffs_are_hunks(crate::changes::moved_path(change, path), diff_hunks(diff)->0);
    hunk_diffs_are_hunks(
        crate::changes::moved_path(other, other_path),
        diff_hunks(other_diff)->0,
    );
    assert(change_content(change).len() >= 1);
    assert(change_content(other).len() >= 1);
    assert(all_change_content(a).len() >= 1);
    assert(all_change_content(b).len() >= 1);
}

/// Without changes there is nothing to show but that files were changed; and where no change
/// can be shown, the files are named, or counted where they have no names.
pub proof fn other_changes_are_summed_up(
    changes: Option<JsonView>,
    listed: Seq<JsonView>,
    path: Seq<char>,
)
    ensures
        !(changes matches Some(JsonView::Array(_))) ==> changes_content(changes) == seq![
            ContentView::Text("File changes updated."@),
        ],
        shown_as(Seq::empty()) == seq![ContentView::Text("File changes updated."@)],
        listed.len() == 1 && listed[0].get("path"@) == Some(JsonView::Text(path))
            && listed[0].get("diff"@) is None && listed[0].get("unified_diff"@) is None
            ==> shown_as(listed) == seq![ContentView::Text("Changed files:\n"@ + "- "@ + path)],
        listed.len() == 1 && listed[0].get("path"@) is None && listed[0].get("file"@) is None
            && listed[0].get("absPath"@) is None ==> shown_as(listed) == seq![
            ContentView::Text(decimal(1) + " file change(s) updated."@),
        ],
{
    if listed.len() == 1 {
        single_changes_have_one_path(listed);
        assert(listed.drop_last() =~= Seq::<JsonView>::empty());
        reveal_with_fuel(all_change_content, 2);
        if listed[0].get("path"@) == Some(JsonView::Text(path)) {
            assert("Changed files:\n"@ + ("- "@ + path) =~= "Changed files:\n"@ + "- "@ + path);
        }
    }
}

/// Files that cannot be shown are named line by line, the first ten of them.
pub proof fn changed_files_are_named(changes: Seq<JsonView>)
    requires
        changes.len() > 0,
        forall|i: int|
            0 <= i < changes.len() ==> (#[trigger] changes[i]).get("path"@) matches Some(
                JsonView::Text(_),
            ),
        forall|i: int|
            0 <= i < changes.len() ==> (#[trigger] changes[i]).get("diff"@) is None
                && changes[i].get("unified_diff"@) is None,
    ensures
        shown_as(changes) == seq![
            ContentView::Text(
                "Changed files:\n"@ + joined(
                    Seq::new(
                        if changes.len() > 10 {
                            10
                        } else {
                            changes.len()
                        },
                        |i: int| "- "@ + changes[i].get("path"@)->0->Text_0,
                    ),
                    "\n"@,
                ),
            ),
        ],
{
    paths_are_lines(changes);
}

proof fn paths_are_lines(changes: Seq<JsonView>)
    requires
        forall|i: int|
            0 <= i < changes.len() ==> (#[trigger] changes[i]).get("path"@) matches Some(
                JsonView::Text(_),
            ),
        forall|i: int|
            0 <= i < changes.len() ==> (#[trigger] changes[i]).get("diff"@) is None
                && changes[i].get("unified_diff"@) is None,
    ensures
        all_change_content(changes).len() == 0,
        path_lines(changes, 10) == Seq::new(
            if changes.len() > 10 {
                10
            } else {
                changes.len()
            },
            |i: int| "- "@ + changes[i].get("path"@)->0->Text_0,
        ),
    decreases changes.len(),
{
    if changes.len() > 0 {
        let init = changes.drop_last();
        assert(forall|i: int| 0 <= i < init.len() ==> #[trigger] init[i] == changes[i]);
        paths_are_lines(init);
        let last = changes[changes.len() - 1];
        assert(last.get("path"@) matches Some(JsonView::Text(_)));
        assert(last.get("diff"@) is None);
        assert(change_content(last).len() == 0);
    }
    assert(path_lines(changes, 10) =~= Seq::new(
        if changes.len() > 10 {
            10
        } else {
            changes.len()
        },
        |i: int| "- "@ + changes[i].get("path"@)->0->Text_0,
    ));
}

proof fn single_changes_are_themselves(change: JsonView)
    ensures
        change_content(change).len() > 0 ==> shown_as(seq![change]) == change_content(change),
{
    reveal_with_fuel(all_change_content, 2);
    assert(seq![change].drop_last() =~= Seq::<JsonView>::empty());
    assert(all_change_content(seq![change]) =~= change_content(change));
}

proof fn single_changes_have_one_path(listed: Seq<JsonView>)
    requires
        listed.len() == 1,
    ensures
        path_lines(listed, 10) == (match crate::changes::changed_path(listed[0]) {
            Some(path) => seq!["- "@ + path],
            None => Seq::empty(),
        }),
{
    reveal_with_fuel(path_lines, 2);
    assert(listed.drop_last() =~= Seq::<JsonView>::empty());
    assert(path_lines(listed, 10) =~= (match crate::changes::changed_path(listed[0]) {
        Some(path) => seq!["- "@ + path],
        None => Seq::empty(),
    }));
}

proof fn contents_add_up(a: Seq<JsonView>, b: Seq<JsonView>)
    ensures
        all_change_content(a + b) == all_change_content(a) + all_change_content(b),
    decreases b.len(),
{
    if b.len() == 0 {
        assert(a + b =~= a);
        assert(all_change_content(a) + all_change_content(b) =~= all_change_content(a));
    } else {
        assert((a + b).drop_last() =~= a + b.drop_last());
        contents_add_up(a, b.drop_last());
        assert(all_change_content(a + b) =~= all_change_content(a) + all_change_content(b));
    }
}

proof fn sides_are_sides(lines: Seq<DiffLineView>, old_side: bool)
    ensures
        side_of(lines, old_side) == lines_on(lines, old_side),
    decreases lines.len(),
{
    if lines.len() > 0 {
        let init = lines.drop_last();
        sides_are_sides(init, old_side);
        lines_go_on(init, lines.last(), old_side);
        assert(init.push(lines.last()) =~= lines);
        assert(side_of(init, old_side) + Seq::<char>::empty() =~= side_of(init, old_side));
    }
}

proof fn lines_go_on(lines: Seq<DiffLineView>, line: DiffLineView, old_side: bool)
    ensures
        lines_on(lines.push(line), old_side) == lines_on(lines, old_side) + line_on(line, old_side),
    decreases lines.len(),
{
    let all = lines.push(line);
    if lines.len() == 0 {
        assert(all.skip(1) =~= Seq::<DiffLineView>::empty());
        assert(line_on(line, old_side) + Seq::<char>::empty() =~= Seq::<char>::empty() + line_on(
            line,
            old_side,
        ));
        reveal_with_fuel(lines_on, 2);
    } else {
        assert(all.skip(1) =~= lines.skip(1).push(line));
        lines_go_on(lines.skip(1), line, old_side);
        assert(lines_on(all, old_side) =~= lines_on(lines, old_side) + line_on(line, old_side));
    }
}

proof fn sides_of_all_are_sides(hunks: Seq<Seq<DiffLineView>>, old_side: bool)
    ensures
        side_of_all(hunks, old_side) == hunks_on(hunks, old_side),
    decreases hunks.len(),
{
    if hunks.len() > 0 {
        let init = hunks.drop_last();
        sides_of_all_are_sides(init, old_side);
        sides_are_sides(hunks.last(), old_side);
        hunks_go_on(init, hunks.last(), old_side);
        assert(init.push(hunks.last()) =~= hunks);
    }
}

proof fn hunks_go_on(hunks: Seq<Seq<DiffLineView>>, hunk: Seq<DiffLineView>, old_side: bool)
    ensures
        hunks_on(hunks.push(hunk), old_side) == hunks_on(hunks, old_side) + lines_on(
            hunk,
            old_side,
        ),
    decreases hunks.len(),
{
    let all = hunks.push(hunk);
    if hunks.len() == 0 {
        assert(all.skip(1) =~= Seq::<Seq<DiffLineView>>::empty());
        assert(lines_on(hunk, old_side) + Seq::<char>::empty() =~= Seq::<char>::empty() + lines_on(
            hunk,
            old_side,
        ));
        reveal_with_fuel(hunks_on, 2);
    } else {
        assert(all.skip(1) =~= hunks.skip(1).push(hunk));
        hunks_go_on(hunks.skip(1), hunk, old_side);
        assert(hunks_on(all, old_side) =~= hunks_on(hunks, old_side) + lines_on(hunk, old_side));
    }
}

proof fn hunk_diffs_are_hunks(path: Seq<char>, hunks: Seq<Seq<DiffLineView>>)
    ensures
        hunk_diffs(path, hunks).len() == hunks.len(),
        forall|i: int|
            0 <= i < hunks.len() ==> #[trigger] hunk_diffs(path, hunks)[i] == (ContentView::Diff {
                path,
                old_text: Some(side_of(hunks[i], true)),
                new_text: side_of(hunks[i], false),
            }),
    decreases hunks.len(),
{
    if hunks.len() > 0 {
        hunk_diffs_are_hunks(path, hunks.drop_last());
    }
}

} // verus!
