use context0::checkpoint::CheckpointPayload;
use context0::error::ContextError;
use context0::scope::ContextScope;
use context0::store::{
    current_time_ms, delete_checkpoints_for_scope, latest_checkpoint_for_scope,
    list_checkpoints_for_scope, open_db, row_to_checkpoint, rows_to_checkpoints,
    save_checkpoint, timestamp_from_millis, StoredRow, new_checkpoint_row, first_checkpoint, default_db_path, scope_key,
};
use rusqlite::Connection;

fn temp_db_path(name: &str) -> String {
    format!("/tmp/context0-test-{}-{}.db", name, current_time_ms().ok().expect("time"))
}

fn fixed_scope(repo: &str) -> ContextScope {
    ContextScope {
        repo_path: repo.to_string(),
        branch: "feature/scope-tests".to_string(),
        commit_sha: "abc123".to_string(),
        used_repo_fallback: false,
        used_branch_fallback: false,
        used_commit_fallback: false,
    }
}

fn payload(done: Option<&str>, next: Option<&str>) -> CheckpointPayload {
    CheckpointPayload {
        done: done.map(|s| s.to_string()),
        next: next.map(|s| s.to_string()),
        blockers: None,
        tests: None,
        files: vec![],
        session_id: None,
    }
}

fn insert_checkpoint_raw(conn: &Connection, scope: &ContextScope, done: &str, created_at_ms: i64) -> i64 {
    conn.execute(
        "INSERT INTO checkpoints (
            repo_path, branch, commit_sha, done_text, files_json, created_at_ms
         ) VALUES (?1, ?2, ?3, ?4, ?5, ?6)",
        (
            scope.repo_path.as_str(),
            scope.branch.as_str(),
            scope.commit_sha.as_str(),
            done,
            "[]",
            created_at_ms,
        ),
    )
    .expect("insert raw checkpoint");
    conn.last_insert_rowid()
}

fn count_index(conn: &Connection, name: &str) -> i64 {
    conn.query_row(
        "SELECT COUNT(*) FROM sqlite_master WHERE type = 'index' AND name = ?1",
        (name,),
        |row| row.get(0),
    )
    .expect("query index")
}

fn init_creates_schema_and_is_idempotent_body(name: &str) {
    let db_path = temp_db_path(name);
    let conn1 = open_db(&db_path).ok().expect("open db first time");
    assert_eq!(count_index(&conn1, "idx_checkpoints_repo_branch_time_id"), 1);
    assert_eq!(count_index(&conn1, "idx_checkpoints_repo_branch_time"), 0);

    conn1
        .execute(
            "INSERT INTO checkpoints (repo_path, branch, commit_sha, files_json, created_at_ms)
             VALUES (?1, ?2, ?3, ?4, ?5)",
            ("/tmp/a", "main", "abc", "[]", 1_i64),
        )
        .expect("insert after first init");
    conn1
        .execute(
            "CREATE INDEX IF NOT EXISTS idx_checkpoints_repo_branch_time
             ON checkpoints (repo_path, branch, created_at_ms DESC)",
            (),
        )
        .expect("seed old index");
    drop(conn1);

    let conn2 = open_db(&db_path).ok().expect("open db second time");
    let count: i64 = conn2
        .query_row("SELECT COUNT(*) FROM checkpoints", (), |row| row.get(0))
        .expect("count rows");
    assert_eq!(count, 1);
    assert_eq!(count_index(&conn2, "idx_checkpoints_repo_branch_time"), 0);
}

#[test]
fn db_init_creates_schema_and_is_idempotent() {
    init_creates_schema_and_is_idempotent_body("db-init");
}

#[test]
fn main_init_creates_schema_and_is_idempotent() {
    init_creates_schema_and_is_idempotent_body("main-init");
}

fn save_and_resume_round_trip_body(name: &str) {
    let db_path = temp_db_path(name);
    let conn = open_db(&db_path).ok().expect("open db");
    let scope = fixed_scope("/tmp/context0-test-repo");

    let payload = CheckpointPayload {
        done: Some("implemented parser".to_string()),
        next: Some("add tests".to_string()),
        blockers: Some("none".to_string()),
        tests: Some("not run".to_string()),
        files: vec!["src/main.rs".to_string()],
        session_id: Some("agent-session".to_string()),
    };
    save_checkpoint(&conn, &scope, &payload).ok().expect("save checkpoint");

    let latest = latest_checkpoint_for_scope(&conn, &scope.repo_path, &scope.branch)
        .ok()
        .expect("query latest")
        .expect("checkpoint exists");

    assert_eq!(latest.repo_path.as_str(), scope.repo_path.as_str());
    assert_eq!(latest.branch.as_str(), scope.branch.as_str());
    assert_eq!(latest.commit_sha.as_str(), scope.commit_sha.as_str());
    assert_eq!(latest.done_text.as_deref(), Some("implemented parser"));
    assert_eq!(latest.next_text.as_deref(), Some("add tests"));
    assert_eq!(latest.files, vec!["src/main.rs"]);
    assert_eq!(latest.session_id.as_deref(), Some("agent-session"));
}

#[test]
fn db_save_and_resume_round_trip() {
    save_and_resume_round_trip_body("db-round-trip");
}

#[test]
fn main_save_and_resume_round_trip() {
    save_and_resume_round_trip_body("main-round-trip");
}

#[test]
fn db_log_returns_desc_order_and_limit() {
    let db_path = temp_db_path("db-log");
    let conn = open_db(&db_path).ok().expect("open db");
    let scope = fixed_scope("/tmp/context0-test-repo");

    save_checkpoint(&conn, &scope, &payload(Some("first"), Some("first-next"))).ok().expect("first save");
    save_checkpoint(&conn, &scope, &payload(Some("second"), Some("second-next"))).ok().expect("second save");

    let logs = list_checkpoints_for_scope(&conn, &scope.repo_path, &scope.branch, 1)
        .ok()
        .expect("list logs");
    assert_eq!(logs.len(), 1);
    assert_eq!(logs[0].done_text.as_deref(), Some("second"));
}

#[test]
fn main_log_returns_desc_order_and_limit() {
    let db_path = temp_db_path("main-log");
    let conn = open_db(&db_path).ok().expect("open db");
    let mut scope = fixed_scope("/tmp/switch-test-repo");

    scope.commit_sha = "first".to_string();
    save_checkpoint(&conn, &scope, &payload(Some("first"), Some("first-next"))).ok().expect("first save");
    scope.commit_sha = "second".to_string();
    save_checkpoint(&conn, &scope, &payload(Some("second"), Some("second-next"))).ok().expect("second save");

    let logs = list_checkpoints_for_scope(&conn, &scope.repo_path, &scope.branch, 1)
        .ok()
        .expect("list logs");
    assert_eq!(logs.len(), 1);
    assert_eq!(logs[0].done_text.as_deref(), Some("second"));
}

fn same_timestamp_body(name: &str) {
    let db_path = temp_db_path(name);
    let conn = open_db(&db_path).ok().expect("open db");
    let scope = fixed_scope("/tmp/context0-test-repo");
    let ts = 123_456_789_i64;

    let first_id = insert_checkpoint_raw(&conn, &scope, "first", ts);
    let second_id = insert_checkpoint_raw(&conn, &scope, "second", ts);
    assert!(second_id > first_id);

    let latest = latest_checkpoint_for_scope(&conn, &scope.repo_path, &scope.branch)
        .ok()
        .expect("query latest")
        .expect("checkpoint exists");
    assert_eq!(latest.id, second_id);
    assert_eq!(latest.done_text.as_deref(), Some("second"));

    let logs = list_checkpoints_for_scope(&conn, &scope.repo_path, &scope.branch, 2)
        .ok()
        .expect("list logs");
    assert_eq!(logs.len(), 2);
    assert_eq!(logs[0].id, second_id);
    assert_eq!(logs[0].done_text.as_deref(), Some("second"));
    assert_eq!(logs[1].id, first_id);
    assert_eq!(logs[1].done_text.as_deref(), Some("first"));
}

#[test]
fn db_same_timestamp_uses_id_tiebreak_for_latest_and_log() {
    same_timestamp_body("db-tiebreak");
}

#[test]
fn main_same_timestamp_uses_id_tiebreak_for_latest_and_log() {
    same_timestamp_body("main-tiebreak");
}

fn save_requires_payload_body(name: &str) {
    let db_path = temp_db_path(name);
    let conn = open_db(&db_path).ok().expect("open db");
    let scope = fixed_scope("/tmp/context0-test-repo");

    let err = match save_checkpoint(&conn, &scope, &payload(None, None)) {
        Ok(_) => panic!("save should fail"),
        Err(e) => e,
    };
    let msg = err.message();
    assert!(msg.contains(
        "at least one of --done, --next, --blockers, --tests, or --files is required"
    ));
}

#[test]
fn db_save_requires_at_least_one_payload_field() {
    save_requires_payload_body("db-empty");
}

#[test]
fn main_save_requires_at_least_one_payload_field() {
    save_requires_payload_body("main-empty");
}

fn invalid_files_json_body(name: &str) {
    let db_path = temp_db_path(name);
    let conn = open_db(&db_path).ok().expect("open db");
    let scope = fixed_scope("/tmp/context0-test-repo");

    conn.execute(
        "INSERT INTO checkpoints (
            repo_path, branch, commit_sha, done_text, files_json, created_at_ms
        ) VALUES (?1, ?2, ?3, ?4, ?5, ?6)",
        (
            scope.repo_path.as_str(),
            scope.branch.as_str(),
            scope.commit_sha.as_str(),
            "bad row",
            "{not-valid-json",
            current_time_ms().ok().expect("time"),
        ),
    )
    .expect("insert malformed row");

    let err = match latest_checkpoint_for_scope(&conn, &scope.repo_path, &scope.branch) {
        Ok(_) => panic!("expected parse error"),
        Err(e) => e,
    };
    let msg = err.message();
    assert!(msg.contains("invalid files_json for checkpoint id"));
}

#[test]
fn db_invalid_files_json_returns_error() {
    invalid_files_json_body("db-bad-json");
}

#[test]
fn main_invalid_files_json_returns_error() {
    invalid_files_json_body("main-bad-json");
}

#[test]
fn delete_removes_checkpoints_for_scope() {
    let db_path = temp_db_path("delete");
    let conn = open_db(&db_path).ok().expect("open db");
    let scope = fixed_scope("/tmp/context0-test-repo");

    save_checkpoint(&conn, &scope, &payload(Some("to be deleted"), None)).ok().expect("save checkpoint");

    let count = delete_checkpoints_for_scope(&conn, &scope.repo_path, &scope.branch)
        .ok()
        .expect("delete checkpoints");
    assert_eq!(count, 1);

    let latest = latest_checkpoint_for_scope(&conn, &scope.repo_path, &scope.branch)
        .ok()
        .expect("query latest");
    assert!(latest.is_none());
}

#[test]
fn listing_keeps_scopes_apart() {
    let db_path = temp_db_path("scopes-apart");
    let conn = open_db(&db_path).ok().expect("open db");
    let a = fixed_scope("/tmp/repo-a");
    let mut b = fixed_scope("/tmp/repo-a");
    b.branch = "other".to_string();
    save_checkpoint(&conn, &a, &payload(Some("on a"), None)).ok().expect("save a");
    save_checkpoint(&conn, &b, &payload(Some("on b"), None)).ok().expect("save b");
    let la = list_checkpoints_for_scope(&conn, &a.repo_path, &a.branch, 20).ok().expect("list a");
    assert_eq!(la.len(), 1);
    assert_eq!(la[0].done_text.as_deref(), Some("on a"));
    let removed = delete_checkpoints_for_scope(&conn, &b.repo_path, &b.branch).ok().expect("delete b");
    assert_eq!(removed, 1);
    assert_eq!(list_checkpoints_for_scope(&conn, &a.repo_path, &a.branch, 20).ok().expect("list a").len(), 1);
}

#[test]
fn open_db_reports_unopenable_path() {
    let err = match open_db("/nonexistent-dir-for-context0/sub/x.db") {
        Ok(_) => panic!("open should fail"),
        Err(e) => e,
    };
    assert!(matches!(err, ContextError::OpenDatabase { .. }));
    assert!(err
        .message()
        .starts_with("failed to open sqlite db at /nonexistent-dir-for-context0/sub/x.db: "));
}

fn stored(id: i64, files_json: &str) -> StoredRow {
    StoredRow {
        id,
        repo_path: "/r".to_string(),
        branch: "b".to_string(),
        commit_sha: "c".to_string(),
        session_id: None,
        done_text: Some("d".to_string()),
        next_text: None,
        blockers_text: None,
        tests_text: None,
        files_json: files_json.to_string(),
        created_at_ms: 5,
    }
}

#[test]
fn row_conversion_decodes_files_and_names_bad_rows() {
    let c = row_to_checkpoint(&stored(3, "[\"a.rs\",\"b \\\"q\\\".rs\"]")).ok().expect("decodes");
    assert_eq!(c.files, vec!["a.rs".to_string(), "b \"q\".rs".to_string()]);
    assert_eq!(c.id, 3);
    match rows_to_checkpoints(&vec![stored(1, "[]"), stored(2, "nope"), stored(3, "{")]) {
        Err(ContextError::InvalidFilesJson { id, .. }) => assert_eq!(id, 2),
        _ => panic!("expected the second row to be named"),
    }
}

#[test]
fn timestamp_conversion_bounds() {
    assert!(matches!(
        timestamp_from_millis(Err("second time provided was later than self".to_string())),
        Err(ContextError::ClockBeforeEpoch(d)) if d == "second time provided was later than self"
    ));
    assert!(matches!(timestamp_from_millis(Ok(42)), Ok(42)));
    assert!(matches!(timestamp_from_millis(Ok(i64::MAX as u128)), Ok(i64::MAX)));
    assert!(matches!(
        timestamp_from_millis(Ok(i64::MAX as u128 + 1)),
        Err(ContextError::TimestampOverflow)
    ));
    assert_eq!(
        ContextError::TimestampOverflow.message(),
        "timestamp overflow: out of range integral type conversion attempted"
    );
    assert_eq!(
        ContextError::ClockBeforeEpoch("second time provided was later than self".to_string()).message(),
        "system clock before unix epoch: second time provided was later than self"
    );
}

#[test]
fn open_db_sets_wal_and_busy_timeout() {
    let conn = open_db(&temp_db_path("pragmas")).ok().expect("open db");
    let mode: String = conn.query_row("PRAGMA journal_mode", (), |row| row.get(0)).expect("journal mode");
    assert_eq!(mode, "wal");
    let timeout: i64 = conn.query_row("PRAGMA busy_timeout", (), |row| row.get(0)).expect("busy timeout");
    assert_eq!(timeout, 5000);
}

#[test]
fn new_row_encodes_files_as_json_and_keeps_the_fields() {
    let scope = fixed_scope("/r");
    let payload = CheckpointPayload {
        done: Some("d".to_string()),
        next: None,
        blockers: None,
        tests: Some("t".to_string()),
        files: vec!["a.rs".to_string(), "dir/\"q\".rs".to_string()],
        session_id: None,
    };
    let row = new_checkpoint_row(&scope, &payload, 77);
    assert_eq!(row.files_json, "[\"a.rs\",\"dir/\\\"q\\\".rs\"]");
    assert_eq!(row.created_at_ms, 77);
    assert_eq!(row.repo_path, "/r");
    assert_eq!(row.branch, "feature/scope-tests");
    assert_eq!(row.commit_sha, "abc123");
    assert_eq!(row.done.as_deref(), Some("d"));
    assert_eq!(row.next, None);
    assert_eq!(row.tests.as_deref(), Some("t"));
    let empty = CheckpointPayload { done: Some("x".to_string()), next: None, blockers: None, tests: None, files: vec![], session_id: None };
    assert_eq!(new_checkpoint_row(&scope, &empty, 1).files_json, "[]");
}

#[test]
fn save_stores_each_column_in_place() {
    let conn = open_db(&temp_db_path("columns")).ok().expect("open db");
    let scope = fixed_scope("/tmp/context0-columns");
    let p = CheckpointPayload {
        done: Some("d".to_string()),
        next: None,
        blockers: Some("b".to_string()),
        tests: None,
        files: vec!["f.rs".to_string()],
        session_id: Some("s".to_string()),
    };
    let id = save_checkpoint(&conn, &scope, &p).ok().expect("save");
    let row: (String, String, String, Option<String>, Option<String>, Option<String>, Option<String>, Option<String>, String) = conn
        .query_row(
            "SELECT repo_path, branch, commit_sha, session_id, done_text, next_text, blockers_text, tests_text, files_json FROM checkpoints WHERE id = ?1",
            [id],
            |r| Ok((r.get(0)?, r.get(1)?, r.get(2)?, r.get(3)?, r.get(4)?, r.get(5)?, r.get(6)?, r.get(7)?, r.get(8)?)),
        )
        .expect("read row");
    assert_eq!(row.0, "/tmp/context0-columns");
    assert_eq!(row.1, "feature/scope-tests");
    assert_eq!(row.2, "abc123");
    assert_eq!(row.3.as_deref(), Some("s"));
    assert_eq!(row.4.as_deref(), Some("d"));
    assert_eq!(row.5, None);
    assert_eq!(row.6.as_deref(), Some("b"));
    assert_eq!(row.7, None);
    assert_eq!(row.8, "[\"f.rs\"]");
}

#[test]
fn scope_is_matched_as_exact_text() {
    let conn = open_db(&temp_db_path("nocase")).ok().expect("open db");
    conn.execute_batch(
        "DROP TABLE checkpoints;
         CREATE TABLE checkpoints (id INTEGER PRIMARY KEY AUTOINCREMENT, repo_path TEXT NOT NULL COLLATE NOCASE,
           branch TEXT NOT NULL, commit_sha TEXT NOT NULL, session_id TEXT NULL, done_text TEXT NULL,
           next_text TEXT NULL, blockers_text TEXT NULL, tests_text TEXT NULL,
           files_json TEXT NOT NULL DEFAULT '[]', created_at_ms INTEGER NOT NULL);",
    )
    .expect("case-insensitive table");
    insert_checkpoint_raw(&conn, &fixed_scope("/TMP/Repo"), "upper", 10);
    assert!(latest_checkpoint_for_scope(&conn, "/tmp/repo", "feature/scope-tests").ok().expect("query").is_none());
    assert_eq!(list_checkpoints_for_scope(&conn, "/tmp/repo", "feature/scope-tests", 5).ok().expect("list").len(), 0);
    let found = latest_checkpoint_for_scope(&conn, "/TMP/Repo", "feature/scope-tests").ok().expect("ok").expect("found");
    assert_eq!(found.done_text.as_deref(), Some("upper"));
}

#[test]
fn database_errors_carry_their_cause() {
    let conn = open_db(&temp_db_path("cause")).ok().expect("open db");
    conn.execute_batch("DROP TABLE checkpoints;").expect("drop table");
    let err = latest_checkpoint_for_scope(&conn, "/r", "b").err().expect("no table");
    assert!(matches!(err, ContextError::Database(_)));
    let text = err.message();
    assert!(text.starts_with("no such table: checkpoints: Error code 1: "), "{}", text);
}

#[test]
fn zero_limit_lists_nothing() {
    let conn = open_db(&temp_db_path("zero-limit")).ok().expect("open db");
    let scope = fixed_scope("/tmp/context0-zero");
    insert_checkpoint_raw(&conn, &scope, "one", 1);
    assert_eq!(list_checkpoints_for_scope(&conn, &scope.repo_path, &scope.branch, 0).ok().expect("list").len(), 0);
    assert_eq!(list_checkpoints_for_scope(&conn, &scope.repo_path, &scope.branch, 1).ok().expect("list").len(), 1);
}

#[test]
fn first_checkpoint_converts_only_the_first_row() {
    assert!(matches!(first_checkpoint(&vec![]), Ok(None)));
    match first_checkpoint(&vec![stored(9, "[\"x\"]"), stored(10, "broken")]) {
        Ok(Some(c)) => {
            assert_eq!(c.id, 9);
            assert_eq!(c.files, vec!["x".to_string()]);
        },
        _ => panic!("expected the first row"),
    }
    assert!(matches!(
        first_checkpoint(&vec![stored(4, "broken")]),
        Err(ContextError::InvalidFilesJson { id: 4, .. })
    ));
}

#[test]
fn default_db_path_sits_under_home() {
    assert_eq!(default_db_path(Some("/home/u")), "/home/u/.switch/switch.db");
    assert_eq!(default_db_path(Some("/home/u/")), "/home/u/.switch/switch.db");
    assert_eq!(default_db_path(Some("")), ".switch/switch.db");
    assert_eq!(default_db_path(None), ".switch/switch.db");
}

#[test]
fn scope_key_holds_the_scope() {
    let key = scope_key("/repo", "main");
    assert_eq!(key.repo_path, "/repo");
    assert_eq!(key.branch, "main");
}
