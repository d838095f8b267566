use codex_native::json::Json;
use codex_native::json_text::{parse_json, to_text};
use codex_native::migration::{migrate_legacy_agent_registry_ids, migrate_one};

fn json(text: &str) -> Json {
    parse_json(text).expect("test value should parse")
}

fn migrated(text: &str) -> String {
    let others = vec![("gamma-acp".to_owned(), "gamma".to_owned())];
    let mut value = json(text);
    migrate_legacy_agent_registry_ids(&mut value, &others);
    let once = to_text(&value);
    migrate_legacy_agent_registry_ids(&mut value, &others);
    assert_eq!(to_text(&value), once);
    once
}

#[test]
fn older_ids_are_replaced() {
    assert_eq!(
        migrated(r#"{"agent_servers":{"codex-acp":{"a":1},"gamma-acp":{"b":2}},"theme":"x"}"#),
        r#"{"agent_servers":{"gamma":{"b":2},"codex":{"a":1}},"theme":"x"}"#
    );
}

#[test]
fn what_stands_under_a_new_id_goes_before() {
    assert_eq!(
        migrated(r#"{"agent_servers":{"codex-acp":1,"codex":2,"mine":3}}"#),
        r#"{"agent_servers":{"mine":3,"codex":2}}"#
    );
    assert_eq!(
        migrated(r#"{"agent_servers":{"mine":3,"gamma":4}}"#),
        r#"{"agent_servers":{"mine":3,"gamma":4}}"#
    );
}

#[test]
fn other_values_stay() {
    for text in [
        r#"{"theme":"x"}"#,
        r#"{"agent_servers":["codex-acp"]}"#,
        r#"{"nested":{"agent_servers":{"codex-acp":1}}}"#,
        r#"["agent_servers"]"#,
        "null",
    ] {
        assert_eq!(migrated(text), text);
    }
}

#[test]
fn codex_alone_is_replaced_without_other_agents() {
    match json(r#"{"agent_servers":{"gamma-acp":1,"codex-acp":2}}"#) {
        Json::Object(mut settings) => {
            migrate_one(&mut settings, &vec![]);
            assert_eq!(
                Json::Object(settings),
                json(r#"{"agent_servers":{"gamma-acp":1,"codex":2}}"#)
            );
        }
        other => panic!("unexpected value: {other:?}"),
    }
}

#[test]
fn entries_move_as_in_a_map_that_keeps_its_order() {
    let mut map = match serde_json::from_str(r#"{"a":1,"codex-acp":2,"b":3,"c":4}"#) {
        Ok(serde_json::Value::Object(map)) => map,
        other => panic!("unexpected value: {other:?}"),
    };
    let value = map.remove("codex-acp").unwrap();
    map.insert("codex".to_owned(), value);
    let servers = serde_json::Value::Object(map).to_string();
    assert_eq!(
        migrated(r#"{"agent_servers":{"a":1,"codex-acp":2,"b":3,"c":4}}"#),
        format!(r#"{{"agent_servers":{servers}}}"#)
    );
}
