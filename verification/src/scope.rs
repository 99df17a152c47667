//! The repository, branch and commit that a checkpoint belongs to, and the
//! decisions that turn overrides and `git` answers into that scope.

use vstd::prelude::*;
use vstd::string::*;
use vstd::utf8::{decode_utf8, valid_utf8};

use crate::error::ContextError;
use crate::json::opt_string_view;
use crate::text::{join, joined, texts, trim, trimmed};

verus! {

/// The key under which checkpoints are stored and looked up, with a record
/// of which parts fell back to a default.
#[derive(Debug)]
pub struct ContextScope {
    pub repo_path: String,
    pub branch: String,
    pub commit_sha: String,
    pub used_repo_fallback: bool,
    pub used_branch_fallback: bool,
    pub used_commit_fallback: bool,
}

/// A `git` invocation: `git [-C dir] args...`.
#[derive(Debug)]
pub struct GitQuery {
    pub dir: Option<String>,
    pub args: Vec<String>,
}

/// The `git` invocations that detecting a scope needs.
#[derive(Debug)]
pub struct ScopeQueries {
    /// The repository root, asked only when no repository was given.
    pub repo_root: Option<GitQuery>,
    /// The current branch, asked only when no branch was given.
    pub branch: Option<GitQuery>,
    /// The commit of the scope's branch.
    pub commit: GitQuery,
}

/// The directory and the arguments of a `git` invocation.
pub open spec fn query_view(q: GitQuery) -> (Option<Seq<char>>, Seq<Seq<char>>) {
    (opt_string_view(q.dir), texts(q.args@))
}

fn strings(parts: &[&str]) -> (r: Vec<String>)
    ensures
        r@.len() == parts@.len(),
        forall|i: int| 0 <= i < parts@.len() ==> (#[trigger] r@[i])@ == parts@[i]@,
{
    let mut r: Vec<String> = Vec::new();
    let mut i: usize = 0;
    while i < parts.len()
        invariant
            i <= parts@.len(),
            r@.len() == i,
            forall|j: int| 0 <= j < i ==> (#[trigger] r@[j])@ == parts@[j]@,
        decreases parts@.len() - i,
    {
        r.push(parts[i].to_owned());
        i = i + 1;
    }
    r
}

/// The invocation that prints the root of the repository around the current
/// directory.
pub fn git_repo_root_query() -> (q: GitQuery)
    ensures
        query_view(q) == (None::<Seq<char>>, seq!["rev-parse"@, "--show-toplevel"@]),
{
    let args = strings(&["rev-parse", "--show-toplevel"]);
    let q = GitQuery { dir: None, args };
    assert(texts(q.args@) =~= seq!["rev-parse"@, "--show-toplevel"@]);
    q
}

/// The invocation that prints the name of the current branch.
pub fn git_branch_query() -> (q: GitQuery)
    ensures
        query_view(q) == (None::<Seq<char>>, seq!["rev-parse"@, "--abbrev-ref"@, "HEAD"@]),
{
    let args = strings(&["rev-parse", "--abbrev-ref", "HEAD"]);
    let q = GitQuery { dir: None, args };
    assert(texts(q.args@) =~= seq!["rev-parse"@, "--abbrev-ref"@, "HEAD"@]);
    q
}

/// The commit invocation for the given overrides: `rev-parse` of the given
/// branch (or of `HEAD`), run in the given repository (or the current
/// directory).
pub open spec fn commit_query_view(repo_override: Option<Seq<char>>, branch_override: Option<Seq<char>>) -> (Option<Seq<char>>, Seq<Seq<char>>) {
    let rev = match branch_override {
        Some(b) => b,
        None => "HEAD"@,
    };
    (repo_override, seq!["rev-parse"@, rev])
}

/// The view of an optional borrowed text.
pub open spec fn opt_str_view(o: Option<&str>) -> Option<Seq<char>> {
    match o {
        Some(s) => Some(s@),
        None => None,
    }
}

/// The invocation that prints the commit of the scope's branch.
pub fn git_commit_query(repo_override: Option<&str>, branch_override: Option<&str>) -> (q: GitQuery)
    ensures
        query_view(q) == commit_query_view(opt_str_view(repo_override), opt_str_view(branch_override)),
        opt_string_view(q.dir) == opt_str_view(repo_override),
        q.args@.len() == 2,
        q.args@[0]@ == "rev-parse"@,
        branch_override matches Some(b) ==> q.args@[1]@ == b@,
        branch_override is None ==> q.args@[1]@ == "HEAD"@,
{
    let rev: &str = match branch_override {
        Some(b) => b,
        None => "HEAD",
    };
    let args = strings(&["rev-parse", rev]);
    let dir = match repo_override {
        Some(r) => Some(r.to_owned()),
        None => None,
    };
    let q = GitQuery { dir, args };
    assert(texts(q.args@) =~= commit_query_view(
        opt_str_view(repo_override),
        opt_str_view(branch_override),
    ).1);
    q
}

/// The invocations needed to detect the scope for the given overrides.
pub fn scope_queries(repo_override: Option<&str>, branch_override: Option<&str>) -> (r: ScopeQueries)
    ensures
        r.repo_root is Some <==> repo_override is None,
        r.repo_root matches Some(q) ==> query_view(q) == (None::<Seq<char>>, seq![
            "rev-parse"@,
            "--show-toplevel"@,
        ]),
        r.branch is Some <==> branch_override is None,
        r.branch matches Some(q) ==> query_view(q) == (None::<Seq<char>>, seq![
            "rev-parse"@,
            "--abbrev-ref"@,
            "HEAD"@,
        ]),
        query_view(r.commit) == commit_query_view(
            opt_str_view(repo_override),
            opt_str_view(branch_override),
        ),
        opt_string_view(r.commit.dir) == opt_str_view(repo_override),
        r.commit.args@.len() == 2,
        r.commit.args@[0]@ == "rev-parse"@,
        branch_override matches Some(b) ==> r.commit.args@[1]@ == b@,
        branch_override is None ==> r.commit.args@[1]@ == "HEAD"@,
{
    let repo_root = if repo_override.is_none() {
        Some(git_repo_root_query())
    } else {
        None
    };
    let branch = if branch_override.is_none() {
        Some(git_branch_query())
    } else {
        None
    };
    ScopeQueries { repo_root, branch, commit: git_commit_query(repo_override, branch_override) }
}

/// Calls `String::from_utf8`: the bytes decoded as UTF-8 when they are valid
/// UTF-8, and nothing otherwise.
#[verifier::external_body]
fn utf8_string(bytes: Vec<u8>) -> (r: Option<String>)
    ensures
        r is Some <==> valid_utf8(bytes@),
        r matches Some(s) ==> s@ == decode_utf8(bytes@),
{
    String::from_utf8(bytes).ok()
}

/// The value that a `git` invocation answered: its output without
/// surrounding white space, when it succeeded, printed valid UTF-8, and
/// printed something other than white space.
pub open spec fn git_answer(success: bool, stdout: Seq<u8>) -> Option<Seq<char>> {
    if success && valid_utf8(stdout) && trimmed(decode_utf8(stdout)).len() > 0 {
        Some(trimmed(decode_utf8(stdout)))
    } else {
        None
    }
}

/// Reads the answer of a `git` invocation from its exit status and output.
pub fn git_output_value(success: bool, stdout: Vec<u8>) -> (r: Option<String>)
    ensures
        opt_string_view(r) == git_answer(success, stdout@),
{
    if !success {
        return None;
    }
    match utf8_string(stdout) {
        Some(s) => {
            let t = trim(s.as_str());
            if t.unicode_len() == 0 {
                None
            } else {
                Some(t)
            }
        },
        None => None,
    }
}

/// The text used where `git` could not name a branch or commit.
pub open spec fn unknown_text() -> Seq<char> {
    "unknown"@
}

/// The scope that detection settles on, or the error it stops with.
pub open spec fn scope_outcome(
    repo_override: Option<Seq<char>>,
    branch_override: Option<Seq<char>>,
    git_root: Option<Seq<char>>,
    current_dir: Result<Seq<char>, Seq<char>>,
    git_branch: Option<Seq<char>>,
    git_commit: Option<Seq<char>>,
    r: Result<ContextScope, ContextError>,
) -> bool {
    let repo: Result<(Seq<char>, bool), Seq<char>> = match repo_override {
        Some(p) => Ok((p, false)),
        None => match git_root {
            Some(p) => Ok((p, false)),
            None => match current_dir {
                Ok(d) => Ok((d, true)),
                Err(e) => Err(e),
            },
        },
    };
    let branch: (Seq<char>, bool) = match branch_override {
        Some(b) => (b, false),
        None => match git_branch {
            Some(b) => (b, false),
            None => (unknown_text(), true),
        },
    };
    let commit: (Seq<char>, bool) = match git_commit {
        Some(c) => (c, false),
        None => (unknown_text(), true),
    };
    match repo {
        Err(e) => r matches Err(ContextError::CurrentDir(d)) && d@ == e,
        Ok((path, repo_fallback)) => r matches Ok(s) && s.repo_path@ == path
            && s.used_repo_fallback == repo_fallback && s.branch@ == branch.0
            && s.used_branch_fallback == branch.1 && s.commit_sha@ == commit.0
            && s.used_commit_fallback == commit.1,
    }
}

/// The view of a result that carries texts.
pub open spec fn text_result_view(r: Result<String, String>) -> Result<Seq<char>, Seq<char>> {
    match r {
        Ok(s) => Ok(s@),
        Err(e) => Err(e@),
    }
}

/// Settles the scope of a checkpoint: given overrides win; otherwise the
/// answers of `git` are used, falling back to the current directory for the
/// repository and to `unknown` for the branch and the commit.
pub fn detect_scope(
    repo_override: Option<&str>,
    branch_override: Option<&str>,
    git_root: Option<String>,
    current_dir: Result<String, String>,
    git_branch: Option<String>,
    git_commit: Option<String>,
) -> (r: Result<ContextScope, ContextError>)
    ensures
        scope_outcome(
            opt_str_view(repo_override),
            opt_str_view(branch_override),
            opt_string_view(git_root),
            text_result_view(current_dir),
            opt_string_view(git_branch),
            opt_string_view(git_commit),
            r,
        ),
{
    let (repo_path, used_repo_fallback) = match repo_override {
        Some(p) => (p.to_owned(), false),
        None => match git_root {
            Some(p) => (p, false),
            None => match current_dir {
                Ok(d) => (d, true),
                Err(e) => {
                    return Err(ContextError::CurrentDir(e));
                },
            },
        },
    };
    let (branch, used_branch_fallback) = match branch_override {
        Some(b) => (b.to_owned(), false),
        None => match git_branch {
            Some(b) => (b, false),
            None => ("unknown".to_owned(), true),
        },
    };
    let (commit_sha, used_commit_fallback) = match git_commit {
        Some(c) => (c, false),
        None => ("unknown".to_owned(), true),
    };
    Ok(
        ContextScope {
            repo_path,
            branch,
            commit_sha,
            used_repo_fallback,
            used_branch_fallback,
            used_commit_fallback,
        },
    )
}

/// The reasons a scope fell back to defaults, in the order repository,
/// branch, commit.
pub open spec fn fallback_reasons(s: ContextScope) -> Seq<Seq<char>> {
    (if s.used_repo_fallback {
        seq!["repo_path from current directory"@]
    } else {
        Seq::empty()
    }) + (if s.used_branch_fallback {
        seq!["branch set to 'unknown'"@]
    } else {
        Seq::empty()
    }) + (if s.used_commit_fallback {
        seq!["commit set to 'unknown'"@]
    } else {
        Seq::empty()
    })
}

/// The warning shown for a scope that fell back to defaults, if it did.
pub open spec fn fallback_warning_view(s: ContextScope) -> Option<Seq<char>> {
    if fallback_reasons(s).len() == 0 {
        None
    } else {
        Some(
            "warning: using fallback git scope ("@ + joined(fallback_reasons(s), ", "@)
                + ") for repo='"@ + s.repo_path@ + "', branch='"@ + s.branch@ + "'"@,
        )
    }
}

/// A scope gets a warning exactly when some part of it fell back to a default.
pub proof fn lemma_warning_iff_fallback(s: ContextScope)
    ensures
        fallback_warning_view(s) is Some <==> (s.used_repo_fallback || s.used_branch_fallback
            || s.used_commit_fallback),
{
}

/// The warning to show for a scope that fell back to defaults, or `None`
/// when every part came from an override or from `git`.
pub fn scope_fallback_warning(scope: &ContextScope) -> (r: Option<String>)
    ensures
        opt_string_view(r) == fallback_warning_view(*scope),
{
    let mut reasons: Vec<String> = Vec::new();
    if scope.used_repo_fallback {
        reasons.push("repo_path from current directory".to_owned());
    }
    let ghost after_repo = texts(reasons@);
    if scope.used_branch_fallback {
        reasons.push("branch set to 'unknown'".to_owned());
    }
    let ghost after_branch = texts(reasons@);
    if scope.used_commit_fallback {
        reasons.push("commit set to 'unknown'".to_owned());
    }
    assert(texts(reasons@) =~= fallback_reasons(*scope)) by {
        assert(after_repo =~= (if scope.used_repo_fallback {
            seq!["repo_path from current directory"@]
        } else {
            Seq::empty()
        }));
        assert(after_branch =~= after_repo + (if scope.used_branch_fallback {
            seq!["branch set to 'unknown'"@]
        } else {
            Seq::empty()
        }));
    }
    if reasons.len() == 0 {
        return None;
    }
    let mut r = String::new();
    r.append("warning: using fallback git scope (");
    let all = join(&reasons, ", ");
    r.append(all.as_str());
    r.append(") for repo='");
    r.append(scope.repo_path.as_str());
    r.append("', branch='");
    r.append(scope.branch.as_str());
    r.append("'");
    assert(r@ =~= fallback_warning_view(*scope)->0);
    Some(r)
}

} // verus!
