use codex_native::calls::Problem;
use codex_native::json::Json;
use codex_native::json_text::{parse_json, to_text, InvalidJson};
use codex_native::rpc::{
    classify_message, closed_failure, error_response_line, json_rpc_id_as_u64, parse_json_rpc_line,
    request_line, response_line, send_failure, JsonRpcFailure, MessageError, ParsedJsonRpcMessage,
    PendingRequests,
};
use codex_native::table::Table;

fn json(text: &str) -> Json {
    parse_json(text).expect("test value should parse")
}

#[test]
fn parses_json_rpc_message_shapes() {
    let response = parse_json_rpc_line(r#"{"jsonrpc":"2.0","id":7,"result":{"ok":true}}"#)
        .expect("response should parse");
    assert!(matches!(
        response,
        ParsedJsonRpcMessage::Response {
            id: 7,
            result: Ok(_)
        }
    ));

    let notification = parse_json_rpc_line(
        r#"{"jsonrpc":"2.0","method":"item/agentMessage/delta","params":{"threadId":"t","delta":"hi"}}"#,
    )
    .expect("notification should parse");
    assert!(matches!(
        notification,
        ParsedJsonRpcMessage::Notification { method, .. } if method == "item/agentMessage/delta"
    ));

    let request = parse_json_rpc_line(
        r#"{"jsonrpc":"2.0","id":"9","method":"currentTime/read","params":{"threadId":"t"}}"#,
    )
    .expect("request should parse");
    assert!(matches!(
        request,
        ParsedJsonRpcMessage::Request { method, .. } if method == "currentTime/read"
    ));
}

#[test]
fn lines_that_are_no_messages_are_refused() {
    let invalid = |reason: &str| MessageError::InvalidJson(reason.into());
    for (line, error, text) in [
        ("", invalid("EOF while parsing a value at line 1 column 0"), "invalid JSON"),
        ("{", invalid("EOF while parsing an object at line 1 column 1"), "invalid JSON"),
        ("[]", MessageError::NotAnObject, "JSON-RPC message must be an object"),
        ("{}", MessageError::MissingNumericId, "JSON-RPC response missing numeric id"),
        (r#"{"id":"x"}"#, MessageError::MissingNumericId, "JSON-RPC response missing numeric id"),
        (r#"{"id":-1}"#, MessageError::MissingNumericId, "JSON-RPC response missing numeric id"),
        (r#"{"id":1.5}"#, MessageError::MissingNumericId, "JSON-RPC response missing numeric id"),
        (r#"{"method":3}"#, MessageError::MissingNumericId, "JSON-RPC response missing numeric id"),
    ] {
        assert_eq!(error.to_text(), text);
        assert_eq!(parse_json_rpc_line(line), Err(error), "{line}");
    }
    assert_eq!(
        invalid("why").to_problem(),
        Problem { message: "invalid JSON".into(), cause: Some("why".into()) }
    );
    assert_eq!(invalid("why").to_problem().to_line(), "invalid JSON: why");
    assert_eq!(
        MessageError::NotAnObject.to_problem().to_line(),
        "JSON-RPC message must be an object"
    );
    assert_eq!(json_rpc_id_as_u64(&json(r#""+9""#)), Some(9));
    assert_eq!(json_rpc_id_as_u64(&json("18446744073709551615")), Some(u64::MAX));
    assert_eq!(json_rpc_id_as_u64(&Json::Null), None);
}

#[test]
fn answers_carry_results_or_errors() {
    assert_eq!(
        parse_json_rpc_line(r#"{"id":"3"}"#),
        Ok(ParsedJsonRpcMessage::Response { id: 3, result: Ok(Json::Null) })
    );
    let failure = |line: &str| match parse_json_rpc_line(line) {
        Ok(ParsedJsonRpcMessage::Response { result: Err(failure), .. }) => failure,
        other => panic!("unexpected message: {other:?}"),
    };
    let plain = failure(r#"{"id":1,"error":{"code":5},"result":1}"#);
    assert_eq!(plain.to_text(), "Codex app-server returned an error");
    let detailed = failure(r#"{"id":1,"error":{"message":"no","data":{"a":[1]}}}"#);
    assert_eq!(detailed.to_text(), r#"no: {"a":[1]}"#);
    assert_eq!(failure(r#"{"id":1,"error":{"message":"no","data":null}}"#).to_text(), "no: null");
    assert_eq!(
        classify_message(&json(r#"{"method":"m"}"#)),
        Ok(ParsedJsonRpcMessage::Notification { method: "m".into(), params: Json::Null })
    );
    assert_eq!(
        classify_message(&json(r#"{"method":"m","id":null}"#)),
        Ok(ParsedJsonRpcMessage::Request {
            id: Json::Null,
            method: "m".into(),
            params: Json::Null
        })
    );
}

#[test]
fn messages_read_back_from_their_lines() {
    let params = || json(r#"{"a":"ü\n","b":[null,1,-1]}"#);
    let line = request_line(4, "m", params());
    assert_eq!(
        line,
        r#"{"jsonrpc":"2.0","id":4,"method":"m","params":{"a":"ü\n","b":[null,1,-1]}}"#
    );
    assert!(!line.contains('\n'));
    assert_eq!(
        parse_json_rpc_line(&line),
        Ok(ParsedJsonRpcMessage::Request { id: json("4"), method: "m".into(), params: params() })
    );
    let line = response_line(Json::text("12"), params());
    assert_eq!(
        line,
        r#"{"jsonrpc":"2.0","id":"12","result":{"a":"ü\n","b":[null,1,-1]}}"#
    );
    assert_eq!(
        parse_json_rpc_line(&line),
        Ok(ParsedJsonRpcMessage::Response { id: 12, result: Ok(params()) })
    );
    let line = error_response_line(json("7"), "bad \"thing\"");
    assert_eq!(
        line,
        r#"{"jsonrpc":"2.0","id":7,"error":{"code":-32603,"message":"bad \"thing\""}}"#
    );
    assert_eq!(
        parse_json_rpc_line(&line),
        Ok(ParsedJsonRpcMessage::Response {
            id: 7,
            result: Err(JsonRpcFailure { message: "bad \"thing\"".into(), data: None }),
        })
    );
    assert_eq!(send_failure("m", "closed"), "failed to send Codex request `m`: closed");
}

#[test]
fn answers_are_taken_once() {
    let mut pending: PendingRequests<&str> = PendingRequests::new();
    assert_eq!(pending.begin("a"), 1);
    assert_eq!(pending.begin("b"), 2);
    assert_eq!(pending.begin("c"), 3);
    assert_eq!(pending.finish(2), Some("b"));
    assert_eq!(pending.finish(2), None);
    assert_eq!(pending.finish(9), None);
    let all = pending.drain_pending();
    assert_eq!(all.len(), 2);
    assert_eq!(all.get(&1), Some(&"a"));
    assert_eq!(all.get(&3), Some(&"c"));
    assert_eq!(pending.finish(1), None);
    assert_eq!(pending.begin("d"), 4);
    assert_eq!(
        closed_failure("Codex app-server stdout closed"),
        JsonRpcFailure { message: "Codex app-server stdout closed".into(), data: None }
    );
}

#[test]
fn reads_and_writes_json() {
    let text = r#"{"a":[1,-2,2.5,"x",null,true],"b":{"c":18446744073709551615}}"#;
    let value = parse_json(text).unwrap();
    assert_eq!(to_text(&value), text);
    assert_eq!(value.get2("b", "c"), Some(&Json::UInt(u64::MAX)));
    let message = "EOF while parsing an object at line 1 column 1".into();
    assert_eq!(parse_json("{"), Err(InvalidJson { message }));
}

#[test]
fn json_is_that_of_the_parser() {
    for text in [
        "null",
        "true",
        "0",
        "-0",
        "-9223372036854775808",
        "1e999",
        "123456789012345678901234567890",
        "1.0",
        "\"\\ud83d\\ude00\\u0000\"",
        r#"{"z":1,"a":2,"z":3}"#,
        "[[[]]]",
        " [1 , 2] ",
        "nul",
        "[1,]",
        "\"\t\"",
    ] {
        let parsed = serde_json::from_str::<serde_json::Value>(text);
        match parse_json(text) {
            Ok(value) => assert_eq!(to_text(&value), parsed.unwrap().to_string()),
            Err(error) => assert_eq!(error.message, parsed.unwrap_err().to_string(), "{text}"),
        }
    }
    assert_eq!(to_text(&json(r#"{"z":1,"a":2,"z":3}"#)), r#"{"z":3,"a":2}"#);
}

#[test]
fn numbers_are_told_apart() {
    assert_eq!(json("5"), Json::UInt(5));
    assert_eq!(json("-5"), Json::Int(-5));
    assert!(matches!(json("5.0"), Json::Float(_)));
    assert_eq!(json("5").as_i64(), Some(5));
    assert_eq!(json("-5").as_u64(), None);
    assert_eq!(json("5.0").as_u64(), None);
    assert_eq!(json("18446744073709551615").as_i64(), None);
    assert_eq!(json("1e2").copy(), json("1e2"));
    assert_eq!(to_text(&Json::Int(5)), "5");
    assert_eq!(Json::Int(5).as_u64(), Some(5));
}

#[test]
fn values_are_looked_up() {
    let value = json(r#"{"t":"x","b":true,"n":7,"i":-7,"a":[1,"two"],"o":{"k":"v"}}"#);
    assert_eq!(value.text_at("t"), Some("x"));
    assert_eq!(value.text_at("n"), None);
    assert_eq!(value.bool_at("b"), Some(true));
    assert_eq!(value.u64_at("n"), Some(7));
    assert_eq!(value.i64_at("i"), Some(-7));
    assert_eq!(value.array_at("a").map(|items| items.len()), Some(2));
    assert_eq!(value.items_at("missing").len(), 0);
    assert_eq!(value.items_at("a")[1].as_text(), Some("two"));
    assert_eq!(value.get2("o", "k"), Some(&Json::text("v")));
    assert_eq!(value.get_either("missing", "t"), Some(&Json::text("x")));
    assert_eq!(value.get_either("n", "t"), Some(&Json::UInt(7)));
    assert_eq!(Json::Null.get("t"), None);
    assert_eq!(value.as_object().map(|entries| entries.len()), Some(6));
    assert_eq!(value.copy(), value);
}

#[test]
fn tables_keep_one_value_for_each_key() {
    let mut table = Table::new();
    table.insert("a", 1);
    table.insert("b", 2);
    table.insert("a", 3);
    assert_eq!(table.get("a"), Some(&3));
    assert_eq!(table.get("c"), None);
    assert_eq!(table.remove("b"), Some(2));
    assert_eq!(table.remove("b"), None);
    table.insert("d", 4);
    let mut all = table.drain();
    all.sort();
    assert_eq!(all, [("a".to_owned(), 3), ("d".to_owned(), 4)]);
    assert_eq!(table.get("a"), None);
}

#[test]
fn values_read_back_from_as_many_levels_as_are_read() {
    let nested = |levels: usize| format!("{}{}", "[".repeat(levels), "]".repeat(levels));
    let value = json(&nested(127));
    assert_eq!(parse_json(&to_text(&value)), Ok(value));
    assert!(parse_json(&nested(128)).is_err());
    let objects = |levels: usize| {
        format!("{}null{}", r#"{"k":"#.repeat(levels), "}".repeat(levels))
    };
    let value = json(&objects(127));
    assert_eq!(parse_json(&to_text(&value)), Ok(value));
    assert!(parse_json(&objects(128)).is_err());
    for text in ["\"\\u0000\\u001f\\u007f\\\\\\\"/é\u{10ffff}\"", "-9223372036854775808", "18446744073709551615"] {
        assert_eq!(parse_json(&to_text(&json(text))), Ok(json(text)));
    }
}
