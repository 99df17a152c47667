//! Checkpoints, the content a save carries, and their text renderings.

use vstd::prelude::*;
use vstd::string::*;

use crate::json::opt_string_view;
use crate::text::{i64_text, join, joined, push_signed_decimal, signed_decimal_text, texts};

verus! {

/// One stored handoff note for a repository and branch.
#[derive(Debug)]
pub struct Checkpoint {
    pub id: i64,
    pub repo_path: String,
    pub branch: String,
    pub commit_sha: String,
    pub session_id: Option<String>,
    pub done_text: Option<String>,
    pub next_text: Option<String>,
    pub blockers_text: Option<String>,
    pub tests_text: Option<String>,
    pub files: Vec<String>,
    pub created_at_ms: i64,
}

/// The content of a checkpoint about to be saved.
#[derive(Debug)]
pub struct CheckpointPayload {
    pub done: Option<String>,
    pub next: Option<String>,
    pub blockers: Option<String>,
    pub tests: Option<String>,
    pub files: Vec<String>,
    pub session_id: Option<String>,
}

impl CheckpointPayload {
    /// Whether the payload carries none of the content fields (the session
    /// identifier does not count as content).
    pub open spec fn has_no_content(&self) -> bool {
        &&& self.done is None
        &&& self.next is None
        &&& self.blockers is None
        &&& self.tests is None
        &&& self.files@.len() == 0
    }

    /// Whether the payload carries none of the content fields.
    pub fn is_empty(&self) -> (r: bool)
        ensures
            r == self.has_no_content(),
    {
        self.done.is_none() && self.next.is_none() && self.blockers.is_none()
            && self.tests.is_none() && self.files.len() == 0
    }
}

/// The text that `truncate_for_log` produces: the input when it fits in
/// `max` characters; otherwise `max` dots when `max` is at most 3, or the
/// first `max - 3` characters followed by `...`.
pub open spec fn truncated_for_log(s: Seq<char>, max: nat) -> Seq<char> {
    if s.len() <= max {
        s
    } else if max <= 3 {
        Seq::new(max, |i: int| '.')
    } else {
        s.take(max - 3) + seq!['.', '.', '.']
    }
}

/// A string of `n` dots.
fn dots(n: usize) -> (res: String)
    ensures
        res@ == Seq::new(n as nat, |i: int| '.'),
{
    let mut res = String::new();
    let mut i: usize = 0;
    while i < n
        invariant
            i <= n,
            res@ == Seq::new(i as nat, |j: int| '.'),
        decreases n - i,
    {
        proof {
            reveal_strlit(".");
        }
        res.append(".");
        i = i + 1;
        assert(res@ =~= Seq::new(i as nat, |j: int| '.'));
    }
    res
}

/// Shortens `input` to at most `max_chars` characters for one-line display,
/// marking a cut with an ellipsis.
pub fn truncate_for_log(input: &str, max_chars: usize) -> (res: String)
    ensures
        res@ == truncated_for_log(input@, max_chars as nat),
        res@.len() == if input@.len() <= max_chars { input@.len() } else { max_chars as nat },
        input@.len() <= max_chars ==> res@ == input@,
{
    let n = input.unicode_len();
    if n <= max_chars {
        return input.to_owned();
    }
    if max_chars <= 3 {
        return dots(max_chars);
    }
    let prefix = input.substring_char(0, max_chars - 3);
    let mut res = prefix.to_owned();
    proof {
        reveal_strlit("...");
    }
    res.append("...");
    assert(res@ =~= truncated_for_log(input@, max_chars as nat));
    res
}


/// The RFC 3339 rendering that `chrono` gives of the UTC instant `ms`
/// milliseconds after the Unix epoch, or `None` where chrono has no such
/// instant.
pub uninterp spec fn rfc3339_from_millis(ms: i64) -> Option<Seq<char>>;

/// Calls `chrono::DateTime::<Utc>::from_timestamp_millis(ms)` and renders the
/// instant it returns with `to_rfc3339`. The contract claims only that the
/// result is the one `rfc3339_from_millis` names for `ms`; the calendar
/// arithmetic and the range of representable instants are left unsaid.
#[verifier::external_body]
fn rfc3339_of_millis(ms: i64) -> (r: Option<String>)
    ensures
        opt_string_view(r) == rfc3339_from_millis(ms),
{
    match chrono::DateTime::<chrono::Utc>::from_timestamp_millis(ms) {
        Some(t) => Some(t.to_rfc3339()),
        None => None,
    }
}

/// How a timestamp is shown: its RFC 3339 rendering, or its decimal value
/// when it has none.
pub open spec fn timestamp_text(ms: i64) -> Seq<char> {
    match rfc3339_from_millis(ms) {
        Some(s) => s,
        None => signed_decimal_text(ms as int),
    }
}

/// Renders a millisecond timestamp for display.
pub fn format_ts(ms: i64) -> (r: String)
    ensures
        r@ == timestamp_text(ms),
{
    match rfc3339_of_millis(ms) {
        Some(s) => s,
        None => i64_text(ms),
    }
}

/// A one-element line `label + value` when the value is present.
pub open spec fn optional_line(label: Seq<char>, value: Option<String>) -> Seq<Seq<char>> {
    match value {
        Some(v) => seq![label + v@],
        None => Seq::empty(),
    }
}

/// The lines that show a checkpoint in full.
pub open spec fn checkpoint_lines_view(c: Checkpoint) -> Seq<Seq<char>> {
    seq![
        "repo: "@ + c.repo_path@,
        "branch: "@ + c.branch@,
        "commit: "@ + c.commit_sha@,
        "at: "@ + timestamp_text(c.created_at_ms),
    ] + optional_line("session: "@, c.session_id) + optional_line("done: "@, c.done_text)
        + optional_line("next: "@, c.next_text) + optional_line("blockers: "@, c.blockers_text)
        + optional_line("tests: "@, c.tests_text) + if c.files@.len() > 0 {
        seq!["files: "@ + joined(texts(c.files@), ", "@)]
    } else {
        Seq::empty()
    }
}

fn labelled(label: &str, value: &str) -> (r: String)
    ensures
        r@ == label@ + value@,
{
    let mut r = label.to_owned();
    r.append(value);
    r
}

fn push_optional_line(lines: &mut Vec<String>, label: &str, value: &Option<String>)
    ensures
        texts(final(lines)@) == texts(old(lines)@) + optional_line(label@, *value),
{
    match value {
        Some(v) => {
            lines.push(labelled(label, v.as_str()));
        },
        None => {},
    }
    assert(texts(final(lines)@) =~= texts(old(lines)@) + optional_line(label@, *value));
}

/// The lines that show a checkpoint in full, one field per line.
pub fn checkpoint_lines(c: &Checkpoint) -> (r: Vec<String>)
    ensures
        texts(r@) == checkpoint_lines_view(*c),
        shows_field(texts(r@), "repo: "@, Some(c.repo_path@)),
        shows_field(texts(r@), "branch: "@, Some(c.branch@)),
        shows_field(texts(r@), "commit: "@, Some(c.commit_sha@)),
        shows_field(texts(r@), "session: "@, opt_string_view(c.session_id)),
        shows_field(texts(r@), "done: "@, opt_string_view(c.done_text)),
        shows_field(texts(r@), "next: "@, opt_string_view(c.next_text)),
        shows_field(texts(r@), "blockers: "@, opt_string_view(c.blockers_text)),
        shows_field(texts(r@), "tests: "@, opt_string_view(c.tests_text)),
{
    let mut lines: Vec<String> = Vec::new();
    lines.push(labelled("repo: ", c.repo_path.as_str()));
    lines.push(labelled("branch: ", c.branch.as_str()));
    lines.push(labelled("commit: ", c.commit_sha.as_str()));
    let ts = format_ts(c.created_at_ms);
    lines.push(labelled("at: ", ts.as_str()));
    let ghost head = texts(lines@);
    assert(head =~= seq![
        "repo: "@ + c.repo_path@,
        "branch: "@ + c.branch@,
        "commit: "@ + c.commit_sha@,
        "at: "@ + timestamp_text(c.created_at_ms),
    ]);
    push_optional_line(&mut lines, "session: ", &c.session_id);
    push_optional_line(&mut lines, "done: ", &c.done_text);
    push_optional_line(&mut lines, "next: ", &c.next_text);
    push_optional_line(&mut lines, "blockers: ", &c.blockers_text);
    push_optional_line(&mut lines, "tests: ", &c.tests_text);
    let ghost before_files = texts(lines@);
    if c.files.len() > 0 {
        let all = join(&c.files, ", ");
        lines.push(labelled("files: ", all.as_str()));
        assert(texts(lines@) =~= before_files + seq!["files: "@ + joined(texts(c.files@), ", "@)]);
    } else {
        assert(before_files + Seq::<Seq<char>>::empty() =~= before_files);
    }
    assert(texts(lines@) =~= checkpoint_lines_view(*c));
    proof {
        let t = texts(lines@);
        assert forall|v: Seq<char>| #[trigger] t.contains("repo: "@ + v) <==> Some(c.repo_path@) == Some(v) by {
            lemma_repo_line(*c, v);
        }
        assert forall|v: Seq<char>| #[trigger] t.contains("branch: "@ + v) <==> Some(c.branch@) == Some(v) by {
            lemma_branch_line(*c, v);
        }
        assert forall|v: Seq<char>| #[trigger] t.contains("commit: "@ + v) <==> Some(c.commit_sha@) == Some(v) by {
            lemma_commit_line(*c, v);
        }
        assert forall|v: Seq<char>| #[trigger] t.contains("session: "@ + v) <==> opt_string_view(c.session_id) == Some(v) by {
            lemma_session_line(*c, v);
        }
        assert forall|v: Seq<char>| #[trigger] t.contains("done: "@ + v) <==> opt_string_view(c.done_text) == Some(v) by {
            lemma_done_line(*c, v);
        }
        assert forall|v: Seq<char>| #[trigger] t.contains("next: "@ + v) <==> opt_string_view(c.next_text) == Some(v) by {
            lemma_next_line(*c, v);
        }
        assert forall|v: Seq<char>| #[trigger] t.contains("blockers: "@ + v) <==> opt_string_view(c.blockers_text) == Some(v) by {
            lemma_blockers_line(*c, v);
        }
        assert forall|v: Seq<char>| #[trigger] t.contains("tests: "@ + v) <==> opt_string_view(c.tests_text) == Some(v) by {
            lemma_tests_line(*c, v);
        }
    }
    lines
}

/// Whether `label + v` is one of the lines exactly when the field shows
/// `v`: the line for that label carries the field's own value, and no line
/// with that label appears for an absent field.
pub open spec fn shows_field(lines: Seq<Seq<char>>, label: Seq<char>, value: Option<Seq<char>>) -> bool {
    forall|v: Seq<char>| #[trigger] lines.contains(label + v) <==> value == Some(v)
}

/// Whether `x` is the line `label + v` for a field holding `v`.
pub open spec fn is_field_line(x: Seq<char>, label: Seq<char>, value: Option<String>) -> bool {
    &&& value is Some
    &&& x == label + value->0@
}

proof fn lemma_contains_concat(a: Seq<Seq<char>>, b: Seq<Seq<char>>, x: Seq<char>)
    ensures
        (a + b).contains(x) <==> (a.contains(x) || b.contains(x)),
{
    if (a + b).contains(x) {
        let i = choose|i: int| 0 <= i < (a + b).len() && (a + b)[i] == x;
        if i < a.len() {
            assert(a[i] == x);
        } else {
            assert(b[i - a.len()] == x);
        }
    }
    if a.contains(x) {
        let i = choose|i: int| 0 <= i < a.len() && a[i] == x;
        assert((a + b)[i] == x);
    }
    if b.contains(x) {
        let i = choose|i: int| 0 <= i < b.len() && b[i] == x;
        assert((a + b)[i + a.len()] == x);
    }
}

proof fn lemma_optional_line_contains(label: Seq<char>, value: Option<String>, x: Seq<char>)
    ensures
        optional_line(label, value).contains(x) <==> is_field_line(x, label, value),
{
    if let Some(v) = value {
        if x == label + v@ {
            assert(optional_line(label, value)[0] == x);
        }
    }
}

/// Which lines the full rendering of `c` holds.
proof fn lemma_lines_contain(c: Checkpoint, x: Seq<char>)
    ensures
        checkpoint_lines_view(c).contains(x) <==> {
            ||| x == "repo: "@ + c.repo_path@
            ||| x == "branch: "@ + c.branch@
            ||| x == "commit: "@ + c.commit_sha@
            ||| x == "at: "@ + timestamp_text(c.created_at_ms)
            ||| is_field_line(x, "session: "@, c.session_id)
            ||| is_field_line(x, "done: "@, c.done_text)
            ||| is_field_line(x, "next: "@, c.next_text)
            ||| is_field_line(x, "blockers: "@, c.blockers_text)
            ||| is_field_line(x, "tests: "@, c.tests_text)
            ||| (c.files@.len() > 0 && x == "files: "@ + joined(texts(c.files@), ", "@))
        },
{
    let head = seq![
        "repo: "@ + c.repo_path@,
        "branch: "@ + c.branch@,
        "commit: "@ + c.commit_sha@,
        "at: "@ + timestamp_text(c.created_at_ms),
    ];
    let s1 = head + optional_line("session: "@, c.session_id);
    let s2 = s1 + optional_line("done: "@, c.done_text);
    let s3 = s2 + optional_line("next: "@, c.next_text);
    let s4 = s3 + optional_line("blockers: "@, c.blockers_text);
    let s5 = s4 + optional_line("tests: "@, c.tests_text);
    let files: Seq<Seq<char>> = if c.files@.len() > 0 {
        seq!["files: "@ + joined(texts(c.files@), ", "@)]
    } else {
        Seq::empty()
    };
    assert(checkpoint_lines_view(c) == s5 + files);
    lemma_contains_concat(s5, files, x);
    lemma_contains_concat(s4, optional_line("tests: "@, c.tests_text), x);
    lemma_contains_concat(s3, optional_line("blockers: "@, c.blockers_text), x);
    lemma_contains_concat(s2, optional_line("next: "@, c.next_text), x);
    lemma_contains_concat(s1, optional_line("done: "@, c.done_text), x);
    lemma_contains_concat(head, optional_line("session: "@, c.session_id), x);
    lemma_optional_line_contains("tests: "@, c.tests_text, x);
    lemma_optional_line_contains("blockers: "@, c.blockers_text, x);
    lemma_optional_line_contains("next: "@, c.next_text, x);
    lemma_optional_line_contains("done: "@, c.done_text, x);
    lemma_optional_line_contains("session: "@, c.session_id, x);
    if head.contains(x) {
        let i = choose|i: int| 0 <= i < head.len() && head[i] == x;
        assert(i == 0 || i == 1 || i == 2 || i == 3);
    }
    if x == head[0] {
        assert(head.contains(x));
    }
    if x == head[1] {
        assert(head[1] == x);
    }
    if x == head[2] {
        assert(head[2] == x);
    }
    if x == head[3] {
        assert(head[3] == x);
    }
    if c.files@.len() > 0 && x == files[0] {
        assert(files[0] == x);
    }
}

/// Two texts that begin with labels differing in one of their first two
/// characters differ.
proof fn lemma_labels_differ(p: Seq<char>, a: Seq<char>, q: Seq<char>, b: Seq<char>)
    requires
        p.len() >= 2,
        q.len() >= 2,
        p[0] != q[0] || p[1] != q[1],
    ensures
        p + a != q + b,
{
    assert((p + a)[0] == p[0] && (p + a)[1] == p[1]);
    assert((q + b)[0] == q[0] && (q + b)[1] == q[1]);
}

proof fn lemma_same_label(p: Seq<char>, a: Seq<char>, b: Seq<char>)
    requires
        p + a == p + b,
    ensures
        a == b,
{
    assert(a =~= (p + a).skip(p.len() as int));
    assert(b =~= (p + b).skip(p.len() as int));
}

proof fn lemma_repo_line(c: Checkpoint, v: Seq<char>)
    ensures
        checkpoint_lines_view(c).contains("repo: "@ + v) <==> v == c.repo_path@,
{
    reveal_strlit("repo: ");
    reveal_strlit("branch: ");
    reveal_strlit("commit: ");
    reveal_strlit("at: ");
    reveal_strlit("session: ");
    reveal_strlit("done: ");
    reveal_strlit("next: ");
    reveal_strlit("blockers: ");
    reveal_strlit("tests: ");
    reveal_strlit("files: ");
    lemma_lines_contain(c, "repo: "@ + v);
    lemma_labels_differ("repo: "@, v, "branch: "@, c.branch@);
    lemma_labels_differ("repo: "@, v, "commit: "@, c.commit_sha@);
    lemma_labels_differ("repo: "@, v, "at: "@, timestamp_text(c.created_at_ms));
    lemma_labels_differ("repo: "@, v, "session: "@, c.session_id->0@);
    lemma_labels_differ("repo: "@, v, "done: "@, c.done_text->0@);
    lemma_labels_differ("repo: "@, v, "next: "@, c.next_text->0@);
    lemma_labels_differ("repo: "@, v, "blockers: "@, c.blockers_text->0@);
    lemma_labels_differ("repo: "@, v, "tests: "@, c.tests_text->0@);
    lemma_labels_differ("repo: "@, v, "files: "@, joined(texts(c.files@), ", "@));
    if "repo: "@ + v == "repo: "@ + c.repo_path@ {
        lemma_same_label("repo: "@, v, c.repo_path@);
    }
}

proof fn lemma_branch_line(c: Checkpoint, v: Seq<char>)
    ensures
        checkpoint_lines_view(c).contains("branch: "@ + v) <==> v == c.branch@,
{
    reveal_strlit("repo: ");
    reveal_strlit("branch: ");
    reveal_strlit("commit: ");
    reveal_strlit("at: ");
    reveal_strlit("session: ");
    reveal_strlit("done: ");
    reveal_strlit("next: ");
    reveal_strlit("blockers: ");
    reveal_strlit("tests: ");
    reveal_strlit("files: ");
    lemma_lines_contain(c, "branch: "@ + v);
    lemma_labels_differ("branch: "@, v, "repo: "@, c.repo_path@);
    lemma_labels_differ("branch: "@, v, "commit: "@, c.commit_sha@);
    lemma_labels_differ("branch: "@, v, "at: "@, timestamp_text(c.created_at_ms));
    lemma_labels_differ("branch: "@, v, "session: "@, c.session_id->0@);
    lemma_labels_differ("branch: "@, v, "done: "@, c.done_text->0@);
    lemma_labels_differ("branch: "@, v, "next: "@, c.next_text->0@);
    lemma_labels_differ("branch: "@, v, "blockers: "@, c.blockers_text->0@);
    lemma_labels_differ("branch: "@, v, "tests: "@, c.tests_text->0@);
    lemma_labels_differ("branch: "@, v, "files: "@, joined(texts(c.files@), ", "@));
    if "branch: "@ + v == "branch: "@ + c.branch@ {
        lemma_same_label("branch: "@, v, c.branch@);
    }
}

proof fn lemma_commit_line(c: Checkpoint, v: Seq<char>)
    ensures
        checkpoint_lines_view(c).contains("commit: "@ + v) <==> v == c.commit_sha@,
{
    reveal_strlit("repo: ");
    reveal_strlit("branch: ");
    reveal_strlit("commit: ");
    reveal_strlit("at: ");
    reveal_strlit("session: ");
    reveal_strlit("done: ");
    reveal_strlit("next: ");
    reveal_strlit("blockers: ");
    reveal_strlit("tests: ");
    reveal_strlit("files: ");
    lemma_lines_contain(c, "commit: "@ + v);
    lemma_labels_differ("commit: "@, v, "repo: "@, c.repo_path@);
    lemma_labels_differ("commit: "@, v, "branch: "@, c.branch@);
    lemma_labels_differ("commit: "@, v, "at: "@, timestamp_text(c.created_at_ms));
    lemma_labels_differ("commit: "@, v, "session: "@, c.session_id->0@);
    lemma_labels_differ("commit: "@, v, "done: "@, c.done_text->0@);
    lemma_labels_differ("commit: "@, v, "next: "@, c.next_text->0@);
    lemma_labels_differ("commit: "@, v, "blockers: "@, c.blockers_text->0@);
    lemma_labels_differ("commit: "@, v, "tests: "@, c.tests_text->0@);
    lemma_labels_differ("commit: "@, v, "files: "@, joined(texts(c.files@), ", "@));
    if "commit: "@ + v == "commit: "@ + c.commit_sha@ {
        lemma_same_label("commit: "@, v, c.commit_sha@);
    }
}

proof fn lemma_session_line(c: Checkpoint, v: Seq<char>)
    ensures
        checkpoint_lines_view(c).contains("session: "@ + v) <==> opt_string_view(c.session_id) == Some(v),
{
    reveal_strlit("repo: ");
    reveal_strlit("branch: ");
    reveal_strlit("commit: ");
    reveal_strlit("at: ");
    reveal_strlit("session: ");
    reveal_strlit("done: ");
    reveal_strlit("next: ");
    reveal_strlit("blockers: ");
    reveal_strlit("tests: ");
    reveal_strlit("files: ");
    lemma_lines_contain(c, "session: "@ + v);
    lemma_labels_differ("session: "@, v, "repo: "@, c.repo_path@);
    lemma_labels_differ("session: "@, v, "branch: "@, c.branch@);
    lemma_labels_differ("session: "@, v, "commit: "@, c.commit_sha@);
    lemma_labels_differ("session: "@, v, "at: "@, timestamp_text(c.created_at_ms));
    lemma_labels_differ("session: "@, v, "done: "@, c.done_text->0@);
    lemma_labels_differ("session: "@, v, "next: "@, c.next_text->0@);
    lemma_labels_differ("session: "@, v, "blockers: "@, c.blockers_text->0@);
    lemma_labels_differ("session: "@, v, "tests: "@, c.tests_text->0@);
    lemma_labels_differ("session: "@, v, "files: "@, joined(texts(c.files@), ", "@));
    if c.session_id is Some && "session: "@ + v == "session: "@ + c.session_id->0@ {
        lemma_same_label("session: "@, v, c.session_id->0@);
    }
}

proof fn lemma_done_line(c: Checkpoint, v: Seq<char>)
    ensures
        checkpoint_lines_view(c).contains("done: "@ + v) <==> opt_string_view(c.done_text) == Some(v),
{
    reveal_strlit("repo: ");
    reveal_strlit("branch: ");
    reveal_strlit("commit: ");
    reveal_strlit("at: ");
    reveal_strlit("session: ");
    reveal_strlit("done: ");
    reveal_strlit("next: ");
    reveal_strlit("blockers: ");
    reveal_strlit("tests: ");
    reveal_strlit("files: ");
    lemma_lines_contain(c, "done: "@ + v);
    lemma_labels_differ("done: "@, v, "repo: "@, c.repo_path@);
    lemma_labels_differ("done: "@, v, "branch: "@, c.branch@);
    lemma_labels_differ("done: "@, v, "commit: "@, c.commit_sha@);
    lemma_labels_differ("done: "@, v, "at: "@, timestamp_text(c.created_at_ms));
    lemma_labels_differ("done: "@, v, "session: "@, c.session_id->0@);
    lemma_labels_differ("done: "@, v, "next: "@, c.next_text->0@);
    lemma_labels_differ("done: "@, v, "blockers: "@, c.blockers_text->0@);
    lemma_labels_differ("done: "@, v, "tests: "@, c.tests_text->0@);
    lemma_labels_differ("done: "@, v, "files: "@, joined(texts(c.files@), ", "@));
    if c.done_text is Some && "done: "@ + v == "done: "@ + c.done_text->0@ {
        lemma_same_label("done: "@, v, c.done_text->0@);
    }
}

proof fn lemma_next_line(c: Checkpoint, v: Seq<char>)
    ensures
        checkpoint_lines_view(c).contains("next: "@ + v) <==> opt_string_view(c.next_text) == Some(v),
{
    reveal_strlit("repo: ");
    reveal_strlit("branch: ");
    reveal_strlit("commit: ");
    reveal_strlit("at: ");
    reveal_strlit("session: ");
    reveal_strlit("done: ");
    reveal_strlit("next: ");
    reveal_strlit("blockers: ");
    reveal_strlit("tests: ");
    reveal_strlit("files: ");
    lemma_lines_contain(c, "next: "@ + v);
    lemma_labels_differ("next: "@, v, "repo: "@, c.repo_path@);
    lemma_labels_differ("next: "@, v, "branch: "@, c.branch@);
    lemma_labels_differ("next: "@, v, "commit: "@, c.commit_sha@);
    lemma_labels_differ("next: "@, v, "at: "@, timestamp_text(c.created_at_ms));
    lemma_labels_differ("next: "@, v, "session: "@, c.session_id->0@);
    lemma_labels_differ("next: "@, v, "done: "@, c.done_text->0@);
    lemma_labels_differ("next: "@, v, "blockers: "@, c.blockers_text->0@);
    lemma_labels_differ("next: "@, v, "tests: "@, c.tests_text->0@);
    lemma_labels_differ("next: "@, v, "files: "@, joined(texts(c.files@), ", "@));
    if c.next_text is Some && "next: "@ + v == "next: "@ + c.next_text->0@ {
        lemma_same_label("next: "@, v, c.next_text->0@);
    }
}

proof fn lemma_blockers_line(c: Checkpoint, v: Seq<char>)
    ensures
        checkpoint_lines_view(c).contains("blockers: "@ + v) <==> opt_string_view(c.blockers_text) == Some(v),
{
    reveal_strlit("repo: ");
    reveal_strlit("branch: ");
    reveal_strlit("commit: ");
    reveal_strlit("at: ");
    reveal_strlit("session: ");
    reveal_strlit("done: ");
    reveal_strlit("next: ");
    reveal_strlit("blockers: ");
    reveal_strlit("tests: ");
    reveal_strlit("files: ");
    lemma_lines_contain(c, "blockers: "@ + v);
    lemma_labels_differ("blockers: "@, v, "repo: "@, c.repo_path@);
    lemma_labels_differ("blockers: "@, v, "branch: "@, c.branch@);
    lemma_labels_differ("blockers: "@, v, "commit: "@, c.commit_sha@);
    lemma_labels_differ("blockers: "@, v, "at: "@, timestamp_text(c.created_at_ms));
    lemma_labels_differ("blockers: "@, v, "session: "@, c.session_id->0@);
    lemma_labels_differ("blockers: "@, v, "done: "@, c.done_text->0@);
    lemma_labels_differ("blockers: "@, v, "next: "@, c.next_text->0@);
    lemma_labels_differ("blockers: "@, v, "tests: "@, c.tests_text->0@);
    lemma_labels_differ("blockers: "@, v, "files: "@, joined(texts(c.files@), ", "@));
    if c.blockers_text is Some && "blockers: "@ + v == "blockers: "@ + c.blockers_text->0@ {
        lemma_same_label("blockers: "@, v, c.blockers_text->0@);
    }
}

proof fn lemma_tests_line(c: Checkpoint, v: Seq<char>)
    ensures
        checkpoint_lines_view(c).contains("tests: "@ + v) <==> opt_string_view(c.tests_text) == Some(v),
{
    reveal_strlit("repo: ");
    reveal_strlit("branch: ");
    reveal_strlit("commit: ");
    reveal_strlit("at: ");
    reveal_strlit("session: ");
    reveal_strlit("done: ");
    reveal_strlit("next: ");
    reveal_strlit("blockers: ");
    reveal_strlit("tests: ");
    reveal_strlit("files: ");
    lemma_lines_contain(c, "tests: "@ + v);
    lemma_labels_differ("tests: "@, v, "repo: "@, c.repo_path@);
    lemma_labels_differ("tests: "@, v, "branch: "@, c.branch@);
    lemma_labels_differ("tests: "@, v, "commit: "@, c.commit_sha@);
    lemma_labels_differ("tests: "@, v, "at: "@, timestamp_text(c.created_at_ms));
    lemma_labels_differ("tests: "@, v, "session: "@, c.session_id->0@);
    lemma_labels_differ("tests: "@, v, "done: "@, c.done_text->0@);
    lemma_labels_differ("tests: "@, v, "next: "@, c.next_text->0@);
    lemma_labels_differ("tests: "@, v, "blockers: "@, c.blockers_text->0@);
    lemma_labels_differ("tests: "@, v, "files: "@, joined(texts(c.files@), ", "@));
    if c.tests_text is Some && "tests: "@ + v == "tests: "@ + c.tests_text->0@ {
        lemma_same_label("tests: "@, v, c.tests_text->0@);
    }
}

/// The text shown for an optional note in a log line.
pub open spec fn note_or_dash(o: Option<String>) -> Seq<char> {
    match o {
        Some(s) => s@,
        None => "-"@,
    }
}

/// The width to which notes are cut in a log line.
pub const LOG_NOTE_WIDTH: usize = 96;

/// The one-line summary of a checkpoint in a log listing.
pub open spec fn log_line_view(c: Checkpoint) -> Seq<char> {
    "#"@ + signed_decimal_text(c.id as int) + " ["@ + timestamp_text(c.created_at_ms) + "] done="@
        + truncated_for_log(note_or_dash(c.done_text), LOG_NOTE_WIDTH as nat) + " | next="@
        + truncated_for_log(note_or_dash(c.next_text), LOG_NOTE_WIDTH as nat)
}

fn note_text(o: &Option<String>) -> (r: &str)
    ensures
        r@ == note_or_dash(*o),
{
    match o {
        Some(s) => s.as_str(),
        None => "-",
    }
}

/// The one-line summary of a checkpoint: its id, time, and the start of its
/// done and next notes.
pub fn checkpoint_log_line(c: &Checkpoint) -> (r: String)
    ensures
        r@ == log_line_view(*c),
{
    let done = truncate_for_log(note_text(&c.done_text), LOG_NOTE_WIDTH);
    let next = truncate_for_log(note_text(&c.next_text), LOG_NOTE_WIDTH);
    let mut r = String::new();
    r.append("#");
    push_signed_decimal(&mut r, c.id);
    r.append(" [");
    let ts = format_ts(c.created_at_ms);
    r.append(ts.as_str());
    r.append("] done=");
    r.append(done.as_str());
    r.append(" | next=");
    r.append(next.as_str());
    assert(r@ =~= log_line_view(*c));
    r
}

} // verus!
