use codex_native::changes::{
    change_kind_type, content_from_unified_diff, file_change_content, file_change_contents,
    read_hunks, summarize_file_changes_from_array, text_from_unified_diff, DiffLine,
};
use codex_native::items::command_completion_output_delta;
use codex_native::json::Json;
use codex_native::json_text::{parse_json, to_text};
use codex_native::protocol::{SessionUpdate, ToolCallContent};
use codex_native::table::Table;
use codex_native::terminals::{
    native_terminal_info_from_update, stream_native_terminal_update, TerminalEvent, TerminalInfo,
};
use codex_native::updates::session_updates_from_notification;

const TWO_HUNKS: &str =
    "--- a/f\n+++ b/f\n@@ -1,2 +1,2 @@\n same\n-old\n+new\n@@ -9 +9,2 @@ fn x\n last\n+more\n";

fn json(text: &str) -> Json {
    parse_json(text).expect("test value should parse")
}

fn diff(path: &str, old_text: Option<&str>, new_text: &str) -> ToolCallContent {
    ToolCallContent::Diff {
        path: path.into(),
        old_text: old_text.map(|text| text.into()),
        new_text: new_text.into(),
    }
}

fn change(kind: &str, diff: &str) -> Json {
    json(&format!(
        r#"{{"path":"p","kind":{kind},"diff":{}}}"#,
        to_text(&Json::text(diff))
    ))
}

#[test]
fn hunks_are_read_as_the_parser_reads_them() {
    let hunks = read_hunks(TWO_HUNKS).expect("the diff should be read");
    assert_eq!(
        hunks,
        [
            vec![
                DiffLine::Context("same\n".into()),
                DiffLine::Delete("old\n".into()),
                DiffLine::Insert("new\n".into()),
            ],
            vec![DiffLine::Context("last\n".into()), DiffLine::Insert("more\n".into())],
        ]
    );
    for text in [TWO_HUNKS, "", "no diff", "@@ -1 +1 @@\n-a\n+b", "@@ -1,3 +1 @@\n-a\n+b\n", "--- a\n"] {
        let count = diffy::Patch::from_str(text).ok().map(|patch| patch.hunks().len());
        assert_eq!(read_hunks(text).map(|hunks| hunks.len()), count, "{text:?}");
    }
    let far = |old: usize, new: usize| format!("@@ -{old} +{new},1 @@\n-a\n+b\n");
    for text in [
        far(usize::MAX, usize::MAX),
        far(usize::MAX - 9, usize::MAX - 9) + &far(usize::MAX, usize::MAX),
        far(usize::MAX - 1, usize::MAX - 1) + &far(usize::MAX, usize::MAX),
        far(usize::MAX - 9, usize::MAX - 9) + &far(1, 1),
        format!("@@ -{}0 +1 @@\n-a\n+b\n", usize::MAX) + &far(1, 1),
        far(1, 1) + "@@ -+9,+1 +9 @@ at @@ -99999999999999999999\n-a\n+b\n",
    ] {
        let count = diffy::Patch::from_str(&text).ok().map(|patch| patch.hunks().len());
        assert_eq!(read_hunks(&text).map(|hunks| hunks.len()), count, "{text:?}");
    }
    assert_eq!(
        read_hunks(&far(usize::MAX, usize::MAX)),
        Some(vec![vec![DiffLine::Delete("a\n".into()), DiffLine::Insert("b\n".into())]])
    );
}

#[test]
fn hunks_that_end_beyond_counting_are_not_read() {
    let far = |old: &str, new: &str| {
        format!("@@ -{old} +{new} @@\n-a\n+b\n@@ -{0} +{0} @@\n-c\n+d\n", usize::MAX)
    };
    let max = usize::MAX.to_string();
    for (old, new) in [
        (max.clone(), "1".to_owned()),
        ("1".to_owned(), max.clone()),
        (format!("{max},1"), "1".to_owned()),
        ("1".to_owned(), format!("{max},+1")),
        (format!("2,{max}"), "1".to_owned()),
    ] {
        assert_eq!(read_hunks(&far(&old, &new)), None, "{old} {new}");
    }
    assert_eq!(read_hunks(&far("1", "1")).map(|hunks| hunks.len()), Some(2));
}

#[test]
fn diffs_have_two_sides() {
    assert_eq!(text_from_unified_diff(TWO_HUNKS, true).as_deref(), Some("same\nold\nlast\n"));
    assert_eq!(
        text_from_unified_diff(TWO_HUNKS, false).as_deref(),
        Some("same\nnew\nlast\nmore\n")
    );
    assert_eq!(text_from_unified_diff("@@ nonsense", true), None);
    assert_eq!(
        content_from_unified_diff("f", TWO_HUNKS),
        [
            diff("f", Some("same\nold\n"), "same\nnew\n"),
            diff("f", Some("last\n"), "last\nmore\n"),
        ]
    );
    assert_eq!(
        content_from_unified_diff("f", "@@ nonsense"),
        [ToolCallContent::Text("@@ nonsense".into())]
    );
}

#[test]
fn changes_are_shown_by_their_kind() {
    let added = "@@ -0,0 +1 @@\n+a\n";
    let deleted = "@@ -1 +0,0 @@\n-a\n";
    assert_eq!(file_change_content(&change(r#""add""#, added)), [diff("p", None, "a\n")]);
    assert_eq!(file_change_content(&change(r#""add""#, "raw")), [diff("p", None, "")]);
    assert_eq!(
        file_change_content(&change(r#""add""#, "@@ raw")),
        [diff("p", None, "@@ raw")]
    );
    assert_eq!(
        file_change_content(&change(r#"{"type":"delete"}"#, deleted)),
        [diff("p", Some("a\n"), "")]
    );
    assert_eq!(
        file_change_content(&change(r#"{"type":"update","move_path":"q"}"#, "@@ -1 +1 @@\n-a\n+b\n")),
        [diff("q", Some("a\n"), "b\n")]
    );
    assert_eq!(
        file_change_content(&change("7", "@@ -1 +1 @@\n-a\n+b\n")),
        [diff("p", Some("a\n"), "b\n")]
    );
    assert_eq!(file_change_content(&change(r#""other""#, added)), []);
    assert_eq!(file_change_content(&json(r#"{"diff":"x"}"#)), []);
    assert_eq!(file_change_content(&json(r#"{"path":"x"}"#)), []);
    assert_eq!(change_kind_type(&json(r#"{"kind":"add"}"#)), Some("add"));
    assert_eq!(change_kind_type(&json(r#"{"kind":{"type":"add"}}"#)), Some("add"));
    assert_eq!(change_kind_type(&json(r#"{"kind":[]}"#)), None);
    assert_eq!(change_kind_type(&json("{}")), None);
}

#[test]
fn changes_that_cannot_be_shown_are_summed_up() {
    let summary = |text: &str| match json(text) {
        Json::Array(changes) => summarize_file_changes_from_array(&changes),
        other => panic!("unexpected value: {other:?}"),
    };
    assert_eq!(summary("[]"), "File changes updated.");
    assert_eq!(summary("[{},{}]"), "2 file change(s) updated.");
    assert_eq!(
        summary(r#"[{"path":"a"},{"file":"b"},{"absPath":"c"},{"path":1,"file":"d"}]"#),
        "Changed files:\n- a\n- b\n- c"
    );
    let many: Vec<String> = (0..12).map(|i| format!(r#"{{"path":"f{i}"}}"#)).collect();
    let text = summary(&format!("[{}]", many.join(",")));
    assert_eq!(text.lines().count(), 11);
    assert!(text.ends_with("- f9"));
    assert_eq!(
        file_change_contents(Some(&json(r#"[{"path":"a"}]"#))),
        [ToolCallContent::Text("Changed files:\n- a".into())]
    );
    assert_eq!(
        file_change_contents(Some(&json("{}"))),
        [ToolCallContent::Text("File changes updated.".into())]
    );
    assert_eq!(
        file_change_contents(None),
        [ToolCallContent::Text("File changes updated.".into())]
    );
}

#[test]
fn only_what_was_not_streamed_is_missing() {
    assert_eq!(command_completion_output_delta(Some("abc"), None), Some("abc"));
    assert_eq!(command_completion_output_delta(Some("abc"), Some("")), Some("abc"));
    assert_eq!(command_completion_output_delta(Some("abc"), Some("ab")), Some("c"));
    assert_eq!(command_completion_output_delta(Some("abc"), Some("abc")), None);
    assert_eq!(command_completion_output_delta(Some("abc"), Some("xyz")), None);
    assert_eq!(command_completion_output_delta(Some(""), None), None);
    assert_eq!(command_completion_output_delta(None, Some("a")), None);
}

#[test]
fn terminals_get_the_whole_output() {
    let mut outputs = Table::new();
    let mut events: Vec<TerminalEvent> = Vec::new();
    let mut info = None;
    for (method, params) in [
        (
            "item/started",
            r#"{"threadId":"t","item":{"id":"c","type":"commandExecution","command":"ls","cwd":"/w"}}"#,
        ),
        (
            "item/commandExecution/outputDelta",
            r#"{"threadId":"t","itemId":"c","delta":"one "}"#,
        ),
        (
            "item/completed",
            r#"{"threadId":"t","item":{"id":"c","type":"commandExecution","aggregatedOutput":"one two","exitCode":4294967298}}"#,
        ),
    ] {
        for (_, update) in session_updates_from_notification(method, &json(params), &mut outputs) {
            if let Some(found) = native_terminal_info_from_update(&update) {
                info = Some(found);
            }
            events.extend(stream_native_terminal_update(&update));
        }
    }
    let terminal = "codex-native-command:c";
    assert_eq!(
        info,
        Some(TerminalInfo {
            id: terminal.into(),
            label: "Run `ls`".into(),
            cwd: Some("/w".into()),
        })
    );
    assert_eq!(
        events,
        [
            TerminalEvent::Output { terminal: terminal.into(), data: "one ".into() },
            TerminalEvent::Output { terminal: terminal.into(), data: "two".into() },
            TerminalEvent::Exit { terminal: terminal.into(), exit_code: Some(2), signal: None },
        ]
    );
    let message = SessionUpdate::AgentMessageChunk("x".into());
    assert_eq!(native_terminal_info_from_update(&message), None);
    assert_eq!(stream_native_terminal_update(&message), []);
}
