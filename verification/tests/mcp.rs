use context0::json::{JsonNumber, JsonValue};
use context0::mcp::{
    get_context_answer, handle_mcp_message, handle_mcp_request, list_answer_value, list_request, mcp_tool_success,
    mcp_tools, required_string_arg, optional_string_list_arg, optional_u32_arg, save_request, saved_value, ArgKey,
    JsonRpcError, McpReply, ToolError,
};
use context0::checkpoint::Checkpoint;
use context0::store::{current_time_ms, open_db};

fn temp_db_path(name: &str) -> String {
    format!("/tmp/switch-mcp-test-{}-{}.db", name, current_time_ms().ok().expect("time"))
}

fn s(v: &str) -> JsonValue {
    JsonValue::Str(v.to_string())
}

fn obj(members: Vec<(&str, JsonValue)>) -> JsonValue {
    JsonValue::Object(members.into_iter().map(|(k, v)| (k.to_string(), v)).collect())
}

fn get<'a>(v: &'a JsonValue, key: &str) -> Option<&'a JsonValue> {
    match v {
        JsonValue::Object(m) => m.iter().find(|(k, _)| k == key).map(|(_, v)| v),
        _ => None,
    }
}

fn text(v: Option<&JsonValue>) -> Option<&str> {
    match v {
        Some(JsonValue::Str(s)) => Some(s.as_str()),
        _ => None,
    }
}

fn tool_call(name: &str, arguments: JsonValue) -> JsonValue {
    obj(vec![("name", s(name)), ("arguments", arguments)])
}

fn structured(r: Result<JsonValue, JsonRpcError>) -> JsonValue {
    match r {
        Ok(v) => {
            assert!(get(&v, "isError").is_none(), "tool reported an error: {:?}", v);
            match v {
                JsonValue::Object(m) => m
                    .into_iter()
                    .find(|(k, _)| k == "structuredContent")
                    .map(|(_, x)| x)
                    .expect("structuredContent"),
                _ => panic!("tool result should be an object"),
            }
        },
        Err(e) => panic!("rpc error {}: {}", e.code, e.message),
    }
}

#[test]
fn mcp_tools_list_includes_context_tools() {
    let db_path = temp_db_path("tools-list");
    let conn = open_db(&db_path).ok().expect("open db");

    let response = match handle_mcp_request(&conn, "tools/list", &obj(vec![])) {
        Ok(v) => v,
        _ => panic!("tools/list should succeed"),
    };
    let tools = match get(&response, "tools") {
        Some(JsonValue::Array(items)) => items,
        _ => panic!("tools should be an array"),
    };
    let names: Vec<&str> = tools.iter().filter_map(|tool| text(get(tool, "name"))).collect();

    assert!(names.contains(&"get_context"));
    assert!(names.contains(&"save_context"));
    assert!(names.contains(&"list_context"));
}

#[test]
fn mcp_save_then_get_and_list_round_trip() {
    let db_path = temp_db_path("round-trip");
    let conn = open_db(&db_path).ok().expect("open db");

    let save = handle_mcp_request(
        &conn,
        "tools/call",
        &tool_call(
            "save_context",
            obj(vec![
                ("repo_path", s("/tmp/mcp-repo")),
                ("branch", s("feature/mcp")),
                ("session_id", s("agent-1")),
                ("done_text", s("wired MCP")),
                ("next_text", s("test integrations")),
                ("blockers_text", s("none")),
                ("tests_text", s("cargo test")),
                ("files", JsonValue::Array(vec![s("src/main.rs")])),
                ("commit_sha", s("abc123")),
            ]),
        ),
    );
    let save_payload = structured(save);
    assert!(matches!(get(&save_payload, "isError"), None));
    assert!(matches!(get(&save_payload, "ok"), Some(JsonValue::Bool(true))));
    match get(&save_payload, "id") {
        Some(JsonValue::Number(JsonNumber::PosInt(id))) => assert!(*id > 0, "id should be positive"),
        other => panic!("id should be a positive integer: {:?}", other),
    }

    let get_payload = structured(handle_mcp_request(
        &conn,
        "tools/call",
        &tool_call(
            "get_context",
            obj(vec![("repo_path", s("/tmp/mcp-repo")), ("branch", s("feature/mcp"))]),
        ),
    ));
    assert!(matches!(get(&get_payload, "found"), Some(JsonValue::Bool(true))));
    let checkpoint = get(&get_payload, "checkpoint").expect("checkpoint");
    assert_eq!(text(get(checkpoint, "done_text")), Some("wired MCP"));
    assert_eq!(text(get(checkpoint, "next_text")), Some("test integrations"));
    assert_eq!(text(get(checkpoint, "commit_sha")), Some("abc123"));

    let list_payload = structured(handle_mcp_request(
        &conn,
        "tools/call",
        &tool_call(
            "list_context",
            obj(vec![
                ("repo_path", s("/tmp/mcp-repo")),
                ("branch", s("feature/mcp")),
                ("limit", JsonValue::Number(JsonNumber::PosInt(10))),
            ]),
        ),
    ));
    let items = match get(&list_payload, "items") {
        Some(JsonValue::Array(items)) => items,
        _ => panic!("items should be an array"),
    };
    assert_eq!(items.len(), 1);
    assert_eq!(text(get(&items[0], "done_text")), Some("wired MCP"));
}

fn tool_error_text(r: Result<JsonValue, JsonRpcError>) -> String {
    match r {
        Ok(v) => {
            assert!(matches!(get(&v, "isError"), Some(JsonValue::Bool(true))));
            match get(&v, "content") {
                Some(JsonValue::Array(items)) => text(get(&items[0], "text")).expect("text").to_string(),
                _ => panic!("content should be an array"),
            }
        },
        _ => panic!("expected a tool error result"),
    }
}

#[test]
fn tool_errors_are_reported_as_results() {
    let conn = open_db(&temp_db_path("tool-errors")).ok().expect("open db");
    let no_content = tool_call(
        "save_context",
        obj(vec![("repo_path", s("/r")), ("branch", s("b")), ("commit_sha", s("c"))]),
    );
    assert_eq!(
        tool_error_text(handle_mcp_request(&conn, "tools/call", &no_content)),
        "at least one of --done, --next, --blockers, --tests, or --files is required"
    );
    let missing = tool_call("get_context", obj(vec![("repo_path", s("/r"))]));
    assert_eq!(tool_error_text(handle_mcp_request(&conn, "tools/call", &missing)), "branch is required");
    let unknown = tool_call("nope", obj(vec![]));
    assert_eq!(tool_error_text(handle_mcp_request(&conn, "tools/call", &unknown)), "unknown tool: nope");
    let zero = tool_call(
        "list_context",
        obj(vec![("repo_path", s("/r")), ("branch", s("b")), ("limit", JsonValue::Number(JsonNumber::PosInt(0)))]),
    );
    assert_eq!(tool_error_text(handle_mcp_request(&conn, "tools/call", &zero)), "limit must be at least 1");
    let big = tool_call(
        "list_context",
        obj(vec![
            ("repo_path", s("/r")),
            ("branch", s("b")),
            ("limit", JsonValue::Number(JsonNumber::PosInt(u32::MAX as u64 + 1))),
        ]),
    );
    assert_eq!(
        tool_error_text(handle_mcp_request(&conn, "tools/call", &big)),
        "value exceeds u32 range: out of range integral type conversion attempted"
    );
    let bad_files = tool_call(
        "save_context",
        obj(vec![
            ("repo_path", s("/r")),
            ("branch", s("b")),
            ("commit_sha", s("c")),
            ("files", JsonValue::Array(vec![s("ok"), JsonValue::Bool(true)])),
        ]),
    );
    assert_eq!(tool_error_text(handle_mcp_request(&conn, "tools/call", &bad_files)), "files[1] must be a string");
}

#[test]
fn tools_call_rejects_malformed_params() {
    let conn = open_db(&temp_db_path("bad-params")).ok().expect("open db");
    match handle_mcp_request(&conn, "tools/call", &s("x")) {
        Err(e) => {
            assert_eq!(e.code, -32602);
            assert_eq!(e.message, "tools/call params must be an object");
        },
        _ => panic!("expected invalid params"),
    }
    match handle_mcp_request(&conn, "tools/call", &obj(vec![])) {
        Err(e) => {
            assert_eq!(e.code, -32602);
            assert_eq!(e.message, "name is required");
        },
        _ => panic!("expected invalid params"),
    }
    match handle_mcp_request(&conn, "tools/call", &obj(vec![("name", s("get_context")), ("arguments", s("x"))])) {
        Err(e) => {
            assert_eq!(e.code, -32602);
            assert_eq!(e.message, "tools/call arguments must be an object");
        },
        _ => panic!("expected invalid params"),
    }
}

#[test]
fn requests_get_responses_and_notifications_do_not() {
    let conn = open_db(&temp_db_path("messages")).ok().expect("open db");
    let ping = obj(vec![
        ("jsonrpc", s("2.0")),
        ("id", JsonValue::Number(JsonNumber::PosInt(9))),
        ("method", s("ping")),
    ]);
    match handle_mcp_message(&conn, &ping) {
        Ok(McpReply::Respond(r)) => {
            assert_eq!(text(get(&r, "jsonrpc")), Some("2.0"));
            assert!(matches!(get(&r, "id"), Some(JsonValue::Number(JsonNumber::PosInt(9)))));
            assert!(matches!(get(&r, "result"), Some(JsonValue::Object(m)) if m.is_empty()));
        },
        _ => panic!("ping should be answered"),
    }
    let note = obj(vec![("method", s("notifications/initialized"))]);
    assert!(matches!(handle_mcp_message(&conn, &note), Ok(McpReply::Silent)));
    let nothing = obj(vec![]);
    assert!(matches!(handle_mcp_message(&conn, &nothing), Ok(McpReply::Silent)));
    let no_method = obj(vec![("id", s("a"))]);
    match handle_mcp_message(&conn, &no_method) {
        Ok(McpReply::Respond(r)) => {
            let err = get(&r, "error").expect("error");
            assert!(matches!(get(err, "code"), Some(JsonValue::Number(JsonNumber::NegInt(-32600)))));
            assert_eq!(text(get(err, "message")), Some("request is missing a string method"));
            assert_eq!(text(get(&r, "id")), Some("a"));
        },
        _ => panic!("expected an error response"),
    }
    let unknown = obj(vec![("id", JsonValue::Null), ("method", s("frobnicate"))]);
    match handle_mcp_message(&conn, &unknown) {
        Ok(McpReply::Respond(r)) => {
            let err = get(&r, "error").expect("error");
            assert!(matches!(get(err, "code"), Some(JsonValue::Number(JsonNumber::NegInt(-32601)))));
            assert_eq!(text(get(err, "message")), Some("method not found: frobnicate"));
            assert!(matches!(get(&r, "id"), Some(JsonValue::Null)));
        },
        _ => panic!("expected an error response"),
    }
    assert!(handle_mcp_message(&conn, &s("not an object")).is_err());
}

#[test]
fn initialize_echoes_protocol_version() {
    let conn = open_db(&temp_db_path("initialize")).ok().expect("open db");
    let asked = obj(vec![("protocolVersion", s("2025-01-01"))]);
    match handle_mcp_request(&conn, "initialize", &asked) {
        Ok(v) => {
            assert_eq!(text(get(&v, "protocolVersion")), Some("2025-01-01"));
            let info = get(&v, "serverInfo").expect("serverInfo");
            assert_eq!(text(get(info, "name")), Some("switch-mcp"));
        },
        _ => panic!("initialize should succeed"),
    }
    match handle_mcp_request(&conn, "initialize", &obj(vec![])) {
        Ok(v) => assert_eq!(text(get(&v, "protocolVersion")), Some("2024-11-05")),
        _ => panic!("initialize should succeed"),
    }
}

#[test]
fn tool_call_responses_carry_id_and_rendered_text() {
    let conn = open_db(&temp_db_path("tool-response")).ok().expect("open db");
    let msg = obj(vec![
        ("id", JsonValue::Number(JsonNumber::PosInt(4))),
        ("method", s("tools/call")),
        ("params", tool_call("get_context", obj(vec![("repo_path", s("/none")), ("branch", s("x"))]))),
    ]);
    match handle_mcp_message(&conn, &msg) {
        Ok(McpReply::Respond(resp)) => {
            assert!(matches!(get(&resp, "id"), Some(JsonValue::Number(JsonNumber::PosInt(4)))));
            let result = get(&resp, "result").expect("result");
            match get(result, "content") {
                Some(JsonValue::Array(items)) => {
                    assert_eq!(text(get(&items[0], "type")), Some("text"));
                    assert_eq!(text(get(&items[0], "text")), Some("{\n  \"found\": false\n}"));
                },
                _ => panic!("content should be an array"),
            }
            let sc = get(result, "structuredContent").expect("structuredContent");
            assert!(matches!(get(sc, "found"), Some(JsonValue::Bool(false))));
        },
        _ => panic!("expected a tool response"),
    }
    let shown = mcp_tool_success(obj(vec![("ok", JsonValue::Bool(true)), ("id", JsonValue::Number(JsonNumber::PosInt(1)))]))
        .ok()
        .expect("rendered");
    match get(&shown, "content") {
        Some(JsonValue::Array(items)) => {
            assert_eq!(text(get(&items[0], "text")), Some("{\n  \"id\": 1,\n  \"ok\": true\n}"))
        },
        _ => panic!("content should be an array"),
    }
}

fn sample_checkpoint(id: i64, done: &str) -> Checkpoint {
    Checkpoint {
        id,
        repo_path: "/r".to_string(),
        branch: "b".to_string(),
        commit_sha: "c".to_string(),
        session_id: None,
        done_text: Some(done.to_string()),
        next_text: None,
        blockers_text: None,
        tests_text: None,
        files: vec!["a.rs".to_string()],
        created_at_ms: 5,
    }
}

#[test]
fn get_context_answer_reports_the_lookup() {
    let none = get_context_answer(&None);
    assert!(matches!(get(&none, "found"), Some(JsonValue::Bool(false))));
    assert!(get(&none, "checkpoint").is_none());
    let found = get_context_answer(&Some(sample_checkpoint(7, "step")));
    assert!(matches!(get(&found, "found"), Some(JsonValue::Bool(true))));
    let c = get(&found, "checkpoint").expect("checkpoint");
    assert!(get(c, "id").is_none());
    assert!(matches!(get(c, "created_at_ms"), Some(JsonValue::Number(JsonNumber::PosInt(5)))));
    assert_eq!(text(get(c, "commit_sha")), Some("c"));
    assert_eq!(text(get(c, "done_text")), Some("step"));
}

#[test]
fn list_and_save_answers_carry_their_input() {
    let listed = list_answer_value(&vec![sample_checkpoint(2, "second"), sample_checkpoint(1, "first")]);
    match get(&listed, "items") {
        Some(JsonValue::Array(items)) => {
            assert_eq!(items.len(), 2);
            assert_eq!(text(get(&items[0], "done_text")), Some("second"));
            assert_eq!(text(get(&items[1], "done_text")), Some("first"));
        },
        _ => panic!("items should be an array"),
    }
    let saved = saved_value(42);
    assert!(matches!(get(&saved, "ok"), Some(JsonValue::Bool(true))));
    assert!(matches!(get(&saved, "id"), Some(JsonValue::Number(JsonNumber::PosInt(42)))));
}

#[test]
fn tool_requests_read_their_arguments() {
    let args = vec![
        ("repo_path".to_string(), s("/repo")),
        ("branch".to_string(), s("main")),
        ("commit_sha".to_string(), s("abc")),
        ("done_text".to_string(), s("did")),
        ("files".to_string(), JsonValue::Array(vec![s("x.rs")])),
        ("session_id".to_string(), s("sess")),
    ];
    let (scope, payload) = save_request(&args).ok().expect("save request");
    assert_eq!(scope.repo_path, "/repo");
    assert_eq!(scope.branch, "main");
    assert_eq!(scope.commit_sha, "abc");
    assert!(!scope.used_repo_fallback && !scope.used_branch_fallback && !scope.used_commit_fallback);
    assert_eq!(payload.done.as_deref(), Some("did"));
    assert_eq!(payload.next, None);
    assert_eq!(payload.files, vec!["x.rs".to_string()]);
    assert_eq!(payload.session_id.as_deref(), Some("sess"));
    let no_repo = vec![("branch".to_string(), s("main")), ("done_text".to_string(), s("did"))];
    assert!(matches!(save_request(&no_repo), Err(ToolError::MissingArgument(ArgKey::RepoPath))));

    let (repo, branch, limit) = list_request(&args).ok().expect("list request");
    assert_eq!((repo.as_str(), branch.as_str(), limit), ("/repo", "main", 20));
    let zero = vec![
        ("repo_path".to_string(), s("/repo")),
        ("branch".to_string(), s("main")),
        ("limit".to_string(), JsonValue::Number(JsonNumber::PosInt(0))),
    ];
    assert!(matches!(list_request(&zero), Err(ToolError::ZeroLimit)));
}

#[test]
fn argument_readers_follow_their_rules() {
    let args = vec![
        ("a".to_string(), s("x")),
        ("n".to_string(), JsonValue::Number(JsonNumber::NegInt(-1))),
        ("f".to_string(), JsonValue::Number(JsonNumber::Float("1.5".to_string()))),
        ("z".to_string(), JsonValue::Null),
        ("repo_path".to_string(), JsonValue::Bool(false)),
        ("limit".to_string(), JsonValue::Number(JsonNumber::NegInt(-4))),
        ("files".to_string(), s("not a list")),
    ];
    assert!(matches!(required_string_arg(&args, ArgKey::RepoPath), Err(ToolError::NotAString(ArgKey::RepoPath))));
    assert!(matches!(required_string_arg(&args, ArgKey::Branch), Err(ToolError::MissingArgument(ArgKey::Branch))));
    assert!(matches!(
        optional_u32_arg(&args, ArgKey::Limit, 20),
        Err(ToolError::NotANonNegativeInteger(ArgKey::Limit))
    ));
    assert!(matches!(optional_string_list_arg(&args, ArgKey::Files), Err(ToolError::NotAStringArray(ArgKey::Files))));
    assert_eq!(ToolError::NotANonNegativeInteger(ArgKey::Limit).message(), "limit must be a non-negative integer");
    let no_args: Vec<(String, JsonValue)> = vec![];
    assert!(matches!(optional_u32_arg(&no_args, ArgKey::Limit, 20), Ok(20)));
    let float_limit = vec![("limit".to_string(), JsonValue::Number(JsonNumber::Float("2.0".to_string())))];
    assert!(matches!(optional_u32_arg(&float_limit, ArgKey::Limit, 20), Err(ToolError::NotANonNegativeInteger(_))));
    let text_limit = vec![("limit".to_string(), s("5"))];
    assert!(matches!(optional_u32_arg(&text_limit, ArgKey::Limit, 20), Err(ToolError::NotANumber(_))));
    assert_eq!(ToolError::NotANumber(ArgKey::Limit).message(), "limit must be a number");
}

#[test]
fn tools_catalog_names_three_tools_in_order() {
    match mcp_tools() {
        JsonValue::Array(items) => {
            let names: Vec<&str> = items.iter().filter_map(|t| text(get(t, "name"))).collect();
            assert_eq!(names, vec!["get_context", "save_context", "list_context"]);
        },
        _ => panic!("catalog should be an array"),
    }
}
