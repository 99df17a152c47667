use context0::checkpoint::{
    truncate_for_log,
    checkpoint_lines, checkpoint_log_line, format_ts, Checkpoint, CheckpointPayload,
};

fn sample_checkpoint() -> Checkpoint {
    Checkpoint {
        id: 7,
        repo_path: "/tmp/repo".to_string(),
        branch: "main".to_string(),
        commit_sha: "abc123".to_string(),
        session_id: Some("agent-1".to_string()),
        done_text: Some("wired auth".to_string()),
        next_text: None,
        blockers_text: None,
        tests_text: Some("cargo test".to_string()),
        files: vec!["src/a.rs".to_string(), "src/b.rs".to_string()],
        created_at_ms: 0,
    }
}

#[test]
fn checkpoint_truncate_for_log_applies_ellipsis() {
    assert_eq!(truncate_for_log("short", 10), "short");
    assert_eq!(
        truncate_for_log("abcdefghijklmnopqrstuvwxyz", 8),
        "abcde..."
    );
    assert_eq!(truncate_for_log("abcdef", 3), "...");
}

#[test]
fn main_truncate_for_log_applies_ellipsis() {
    assert_eq!(truncate_for_log("short", 10), "short");
    assert_eq!(truncate_for_log("abcdefghijklmnopqrstuvwxyz", 8), "abcde...");
    assert_eq!(truncate_for_log("abcdef", 3), "...");
}

#[test]
fn truncate_for_log_edge_widths() {
    assert_eq!(truncate_for_log("abcdef", 6), "abcdef");
    assert_eq!(truncate_for_log("abcdef", 0), "");
    assert_eq!(truncate_for_log("abcdef", 1), ".");
    assert_eq!(truncate_for_log("abcdef", 4), "a...");
    assert_eq!(truncate_for_log("", 0), "");
}

#[test]
fn truncate_for_log_counts_characters_not_bytes() {
    assert_eq!(truncate_for_log("héllo wörld", 11), "héllo wörld");
    assert_eq!(truncate_for_log("héllo wörld", 7), "héll...");
    assert_eq!(truncate_for_log("日本語テキスト", 5), "日本...");
}

#[test]
fn truncate_for_log_never_exceeds_width() {
    let long = "x".repeat(300);
    for width in 0..20usize {
        let out = truncate_for_log(&long, width);
        assert_eq!(out.chars().count(), width);
    }
}

#[test]
fn payload_is_empty_only_without_content() {
    let mut p = CheckpointPayload {
        done: None,
        next: None,
        blockers: None,
        tests: None,
        files: vec![],
        session_id: Some("session-only".to_string()),
    };
    assert!(p.is_empty());
    p.files.push("src/main.rs".to_string());
    assert!(!p.is_empty());
    p.files.clear();
    p.blockers = Some("none".to_string());
    assert!(!p.is_empty());
}

#[test]
fn format_ts_renders_rfc3339_or_falls_back_to_number() {
    assert_eq!(format_ts(0), "1970-01-01T00:00:00+00:00");
    assert_eq!(format_ts(1_500), "1970-01-01T00:00:01.500+00:00");
    assert_eq!(format_ts(i64::MAX), i64::MAX.to_string());
    assert_eq!(format_ts(i64::MIN), i64::MIN.to_string());
}

#[test]
fn checkpoint_lines_show_present_fields_only() {
    let c = sample_checkpoint();
    let lines = checkpoint_lines(&c);
    assert_eq!(
        lines,
        vec![
            "repo: /tmp/repo".to_string(),
            "branch: main".to_string(),
            "commit: abc123".to_string(),
            "at: 1970-01-01T00:00:00+00:00".to_string(),
            "session: agent-1".to_string(),
            "done: wired auth".to_string(),
            "tests: cargo test".to_string(),
            "files: src/a.rs, src/b.rs".to_string(),
        ]
    );
}

#[test]
fn checkpoint_lines_without_files() {
    let mut c = sample_checkpoint();
    c.files.clear();
    c.session_id = None;
    c.tests_text = None;
    let lines = checkpoint_lines(&c);
    assert_eq!(lines.len(), 5);
    assert_eq!(lines[4], "done: wired auth");
}

#[test]
fn log_line_uses_dash_for_missing_notes_and_truncates() {
    let mut c = sample_checkpoint();
    assert_eq!(
        checkpoint_log_line(&c),
        "#7 [1970-01-01T00:00:00+00:00] done=wired auth | next=-"
    );
    c.id = -3;
    c.done_text = Some("d".repeat(100));
    let line = checkpoint_log_line(&c);
    let expected = format!(
        "#-3 [1970-01-01T00:00:00+00:00] done={}... | next=-",
        "d".repeat(93)
    );
    assert_eq!(line, expected);
}
