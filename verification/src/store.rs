//! The checkpoint store: a SQLite table of checkpoints, keyed by repository
//! path and branch.

use vstd::prelude::*;
use vstd::string::*;

use crate::checkpoint::{Checkpoint, CheckpointPayload};
use crate::error::ContextError;
use crate::scope::{opt_str_view, ContextScope};
use crate::json::opt_string_view;
use crate::text::texts;

verus! {

/// The schema of the store: the checkpoint table and its lookup index. An
/// older index on the same columns without the id tie-break is dropped.
pub const SCHEMA_SQL: &'static str = "CREATE TABLE IF NOT EXISTS checkpoints (
    id INTEGER PRIMARY KEY AUTOINCREMENT,
    repo_path TEXT NOT NULL,
    branch TEXT NOT NULL,
    commit_sha TEXT NOT NULL,
    session_id TEXT NULL,
    done_text TEXT NULL,
    next_text TEXT NULL,
    blockers_text TEXT NULL,
    tests_text TEXT NULL,
    files_json TEXT NOT NULL DEFAULT '[]',
    created_at_ms INTEGER NOT NULL
);
DROP INDEX IF EXISTS idx_checkpoints_repo_branch_time;
CREATE INDEX IF NOT EXISTS idx_checkpoints_repo_branch_time_id
    ON checkpoints (repo_path, branch, created_at_ms DESC, id DESC);
";

/// Inserts one checkpoint row.
pub const INSERT_SQL: &'static str = "INSERT INTO checkpoints (
            repo_path, branch, commit_sha, session_id,
            done_text, next_text, blockers_text, tests_text, files_json, created_at_ms
        ) VALUES (?1, ?2, ?3, ?4, ?5, ?6, ?7, ?8, ?9, ?10)";

/// Reads the checkpoints of one scope, newest first, the id breaking ties.
/// The scope is compared as exact text whatever collation a column was
/// declared with.
pub const SCOPE_QUERY_SQL: &'static str = "SELECT id, repo_path, branch, commit_sha, session_id, done_text, next_text, blockers_text, tests_text, files_json, created_at_ms
         FROM checkpoints
         WHERE repo_path = ?1 COLLATE BINARY AND branch = ?2 COLLATE BINARY
         ORDER BY created_at_ms DESC, id DESC
         LIMIT ?3";

/// Deletes the checkpoints of one scope.
pub const DELETE_SQL: &'static str = "DELETE FROM checkpoints WHERE repo_path = ?1 AND branch = ?2";

/// How long a writer waits for a lock held by another connection, in
/// milliseconds.
pub const BUSY_TIMEOUT_MS: &'static str = "5000";

/// A connection to a SQLite database, opaque to proofs.
#[verifier::external_type_specification]
#[verifier::external_body]
pub struct ExConnection(rusqlite::Connection);

/// An error reported by SQLite, opaque to proofs.
#[verifier::external_type_specification]
#[verifier::external_body]
pub struct ExSqliteError(rusqlite::Error);

/// An error reported by the JSON encoder or decoder, opaque to proofs.
#[verifier::external_type_specification]
#[verifier::external_body]
pub struct ExJsonError(serde_json::Error);

/// A reading of the system clock, opaque to proofs.
#[verifier::external_type_specification]
#[verifier::external_body]
pub struct ExSystemTime(std::time::SystemTime);

/// The error of a clock reading earlier than the time asked about, opaque
/// to proofs.
#[verifier::external_type_specification]
#[verifier::external_body]
pub struct ExSystemTimeError(std::time::SystemTimeError);

/// The repository and branch that select the rows of one scope.
pub struct ScopeKey {
    pub repo_path: String,
    pub branch: String,
}

/// A row of the checkpoint table as it is read, before its file list is decoded.
#[derive(Debug)]
pub struct StoredRow {
    pub id: i64,
    pub repo_path: String,
    pub branch: String,
    pub commit_sha: String,
    pub session_id: Option<String>,
    pub done_text: Option<String>,
    pub next_text: Option<String>,
    pub blockers_text: Option<String>,
    pub tests_text: Option<String>,
    pub files_json: String,
    pub created_at_ms: i64,
}

/// A row of the checkpoint table about to be inserted.
pub struct NewCheckpointRow {
    pub repo_path: String,
    pub branch: String,
    pub commit_sha: String,
    pub session_id: Option<String>,
    pub done: Option<String>,
    pub next: Option<String>,
    pub blockers: Option<String>,
    pub tests: Option<String>,
    pub files_json: String,
    pub created_at_ms: i64,
}

/// Calls `rusqlite::Connection::open(path)`. Whether it succeeds depends on
/// the file system, so nothing is claimed of the result.
#[verifier::external_body]
fn sqlite_open(path: &str) -> (r: Result<rusqlite::Connection, rusqlite::Error>) {
    rusqlite::Connection::open(path)
}

/// Calls `Connection::pragma_update(None, name, value)` with the value as
/// text. Only the two settings that opening a store makes are admitted:
/// write-ahead journaling and the lock wait. Nothing is claimed of the
/// result.
#[verifier::external_body]
fn sqlite_pragma(conn: &rusqlite::Connection, name: &str, value: &str) -> (r: Result<(), rusqlite::Error>)
    requires
        (name@ == "journal_mode"@ && value@ == "WAL"@) || (name@ == "busy_timeout"@ && value@
            == BUSY_TIMEOUT_MS@),
{
    conn.pragma_update(None, name, value)
}

/// Calls `Connection::execute_batch(sql)` on the schema. Nothing is claimed
/// of the result.
#[verifier::external_body]
fn sqlite_execute_batch(conn: &rusqlite::Connection, sql: &str) -> (r: Result<(), rusqlite::Error>)
    requires
        sql@ == SCHEMA_SQL@,
{
    conn.execute_batch(sql)
}

/// Calls `Connection::execute(sql, params)` with the ten columns of `row` as
/// the parameters of `INSERT_SQL`, in the order it names them; an absent
/// text is bound as SQL `NULL`. The outcome depends on the database, so
/// nothing is claimed of it.
#[verifier::external_body]
fn sqlite_insert(conn: &rusqlite::Connection, sql: &str, row: &NewCheckpointRow) -> (r: Result<usize, rusqlite::Error>)
    requires
        sql@ == INSERT_SQL@,
{
    conn.execute(sql, (&row.repo_path, &row.branch, &row.commit_sha, &row.session_id, &row.done,
        &row.next, &row.blockers, &row.tests, &row.files_json, row.created_at_ms))
}

/// Calls `Connection::execute(sql, (key.repo_path, key.branch))` with
/// `DELETE_SQL`. The count it returns depends on the database, so nothing is
/// claimed of it.
#[verifier::external_body]
fn sqlite_delete(conn: &rusqlite::Connection, sql: &str, key: &ScopeKey) -> (r: Result<usize, rusqlite::Error>)
    requires
        sql@ == DELETE_SQL@,
{
    conn.execute(sql, (&key.repo_path, &key.branch))
}

/// Calls `Connection::last_insert_rowid()`. It depends on the connection's
/// history, so nothing is claimed of it.
#[verifier::external_body]
fn sqlite_last_insert_rowid(conn: &rusqlite::Connection) -> (r: i64) {
    conn.last_insert_rowid()
}

/// Whether `a` may come before `b` in newest-first order: a later creation
/// time, or the same time and an id at least as large.
pub open spec fn not_older(a_created: i64, a_id: i64, b_created: i64, b_id: i64) -> bool {
    a_created > b_created || (a_created == b_created && a_id >= b_id)
}

/// Whether every row belongs to the scope and the rows come newest first,
/// the id breaking ties.
pub open spec fn rows_in_scope_order(rows: Seq<StoredRow>, repo: Seq<char>, branch: Seq<char>) -> bool {
    &&& forall|i: int| 0 <= i < rows.len() ==> (#[trigger] rows[i]).repo_path@ == repo && rows[i].branch@ == branch
    &&& forall|i: int, j: int| 0 <= i < j < rows.len() ==> not_older(rows[i].created_at_ms, rows[i].id, rows[j].created_at_ms, rows[j].id)
}

/// Prepares `SCOPE_QUERY_SQL` with `Connection::prepare`, runs it with
/// `Statement::query_map` on `(repo, branch, limit)` and collects the rows,
/// each column read with `Row::get`. Which rows come back depends on the
/// database; what the query makes true of any answer is claimed: at most
/// `limit` rows (`LIMIT`), each with exactly the asked repository and
/// branch (`WHERE` with binary collation; `Row::get` reads only text into a
/// `String`, so a value that affinity turned into a number fails rather than
/// matching), newest first with the id breaking ties (`ORDER BY`; `Row::get`
/// reads only integers into an `i64`, so the rows read are ordered
/// numerically). Ids are not claimed distinct.
#[verifier::external_body]
fn sqlite_scope_rows(conn: &rusqlite::Connection, sql: &str, repo: &str, branch: &str, limit: u32) -> (r: Result<Vec<StoredRow>, rusqlite::Error>)
    requires
        sql@ == SCOPE_QUERY_SQL@,
        limit >= 1,
    ensures
        r matches Ok(rows) ==> rows@.len() <= limit,
        r matches Ok(rows) ==> rows_in_scope_order(rows@, repo@, branch@),
{
    let mut stmt = conn.prepare(sql)?;
    let rows = stmt.query_map((repo, branch, limit), |r| {
        Ok(StoredRow { id: r.get(0)?, repo_path: r.get(1)?, branch: r.get(2)?, commit_sha: r.get(3)?,
            session_id: r.get(4)?, done_text: r.get(5)?, next_text: r.get(6)?, blockers_text: r.get(7)?,
            tests_text: r.get(8)?, files_json: r.get(9)?, created_at_ms: r.get(10)? })
    })?;
    rows.collect()
}

/// Calls `rusqlite::Error`'s `to_string`. Nothing is claimed of the text.
#[verifier::external_body]
fn sqlite_error_text(e: &rusqlite::Error) -> (r: String) {
    e.to_string()
}

/// Calls `rusqlite::Error`'s `std::error::Error::source` and gives the
/// cause's text, if there is a cause. Nothing is claimed of the outcome.
#[verifier::external_body]
fn sqlite_error_cause(e: &rusqlite::Error) -> (r: Option<String>) {
    std::error::Error::source(e).map(|c| c.to_string())
}

/// The message of a SQLite error followed by its cause, as an error chain
/// is printed: `message: cause`.
fn sqlite_error_message(e: &rusqlite::Error) -> (r: String) {
    let mut text = sqlite_error_text(e);
    if let Some(cause) = sqlite_error_cause(e) {
        text.append(": ");
        text.append(cause.as_str());
    }
    text
}

/// The JSON text that `serde_json::to_string` gives of a list of strings.
pub uninterp spec fn json_of_strings(items: Seq<Seq<char>>) -> Seq<char>;

/// The list of strings that `serde_json::from_str` reads from a text, or
/// `None` where it reports an error.
pub uninterp spec fn strings_of_json(text: Seq<char>) -> Option<Seq<Seq<char>>>;

/// Calls `serde_json::to_string` on a list of strings. Serializing strings
/// into memory cannot fail, so it succeeds; the text is the one
/// `json_of_strings` names, and `serde_json::from_str` reads the same list
/// back from it.
#[verifier::external_body]
fn encode_strings(items: &Vec<String>) -> (r: Result<String, serde_json::Error>)
    ensures
        r is Ok,
        r matches Ok(s) ==> s@ == json_of_strings(texts(items@)),
        r matches Ok(s) ==> strings_of_json(s@) == Some(texts(items@)),
{
    serde_json::to_string(items)
}

/// Calls `serde_json::from_str::<Vec<String>>`. It succeeds exactly when
/// `strings_of_json` names a list, and then returns that list.
#[verifier::external_body]
fn decode_strings(text: &str) -> (r: Result<Vec<String>, serde_json::Error>)
    ensures
        r is Ok <==> strings_of_json(text@) is Some,
        r matches Ok(v) ==> Some(texts(v@)) == strings_of_json(text@),
{
    serde_json::from_str(text)
}

/// Calls `serde_json::Error`'s `to_string`. Nothing is claimed of the text.
#[verifier::external_body]
pub(crate) fn json_error_text(e: &serde_json::Error) -> (r: String) {
    e.to_string()
}

/// Calls `SystemTime::now()`. The clock is outside any contract.
#[verifier::external_body]
fn system_now() -> (r: std::time::SystemTime) {
    std::time::SystemTime::now()
}

/// Calls `SystemTime::duration_since(UNIX_EPOCH)`; nothing is claimed of
/// the outcome.
#[verifier::external_body]
fn since_unix_epoch(t: std::time::SystemTime) -> (r: Result<std::time::Duration, std::time::SystemTimeError>) {
    t.duration_since(std::time::UNIX_EPOCH)
}

/// Calls `SystemTimeError`'s `to_string`. Nothing is claimed of the text.
#[verifier::external_body]
fn clock_error_text(e: &std::time::SystemTimeError) -> (r: String) {
    e.to_string()
}

/// Calls `Duration::as_millis()`. Nothing is claimed of the value.
#[verifier::external_body]
fn duration_millis(d: std::time::Duration) -> (r: u128) {
    d.as_millis()
}

/// Turns the milliseconds elapsed since the Unix epoch (or, when the clock
/// reads an earlier time, the clock's complaint) into a timestamp.
pub fn timestamp_from_millis(ms: Result<u128, String>) -> (r: Result<i64, ContextError>)
    ensures
        match ms {
            Err(d) => r matches Err(ContextError::ClockBeforeEpoch(x)) && x@ == d@,
            Ok(m) => if m <= i64::MAX {
                r == Ok::<i64, ContextError>(m as i64)
            } else {
                r == Err::<i64, ContextError>(ContextError::TimestampOverflow)
            },
        },
{
    match ms {
        Err(d) => Err(ContextError::ClockBeforeEpoch(d)),
        Ok(m) => if m <= 9223372036854775807u128 {
            Ok(m as i64)
        } else {
            Err(ContextError::TimestampOverflow)
        },
    }
}

/// The current time in milliseconds since the Unix epoch.
pub fn current_time_ms() -> (r: Result<i64, ContextError>)
    ensures
        r matches Ok(t) ==> t >= 0,
        r matches Err(e) ==> e is ClockBeforeEpoch || e is TimestampOverflow,
{
    let now = system_now();
    let elapsed = match since_unix_epoch(now) {
        Ok(d) => Ok(duration_millis(d)),
        Err(e) => Err(clock_error_text(&e)),
    };
    timestamp_from_millis(elapsed)
}

fn db_error(e: rusqlite::Error) -> (r: ContextError)
    ensures
        r is Database,
{
    ContextError::Database(sqlite_error_message(&e))
}

/// Where the store lives by default: `.switch/switch.db` under the home
/// directory, joined as a path is (no separator is added after one that
/// ends the home directory), or under the working directory when there is
/// no home directory.
pub open spec fn default_db_path_text(home: Option<Seq<char>>) -> Seq<char> {
    match home {
        Some(h) => if h.len() == 0 {
            ".switch/switch.db"@
        } else if h.last() == '/' {
            h + ".switch/switch.db"@
        } else {
            h + "/.switch/switch.db"@
        },
        None => ".switch/switch.db"@,
    }
}

/// The default location of the store for the given home directory.
pub fn default_db_path(home: Option<&str>) -> (r: String)
    ensures
        r@ == default_db_path_text(opt_str_view(home)),
{
    match home {
        Some(h) => {
            let n = h.unicode_len();
            if n == 0 {
                ".switch/switch.db".to_owned()
            } else {
                let mut r = h.to_owned();
                if h.get_char(n - 1) == '/' {
                    r.append(".switch/switch.db");
                } else {
                    r.append("/.switch/switch.db");
                }
                r
            }
        },
        None => ".switch/switch.db".to_owned(),
    }
}

/// Opens (creating if needed) the store at `path` and brings its schema up
/// to date.
pub fn open_db(path: &str) -> (r: Result<rusqlite::Connection, ContextError>)
    ensures
        r matches Err(e) ==> (e matches ContextError::OpenDatabase { path: p, .. } && p@ == path@)
            || e is Database,
{
    let conn = match sqlite_open(path) {
        Ok(c) => c,
        Err(e) => {
            return Err(ContextError::OpenDatabase { path: path.to_owned(), detail: sqlite_error_message(&e) });
        },
    };
    if let Err(e) = sqlite_pragma(&conn, "journal_mode", "WAL") {
        return Err(db_error(e));
    }
    if let Err(e) = sqlite_pragma(&conn, "busy_timeout", BUSY_TIMEOUT_MS) {
        return Err(db_error(e));
    }
    if let Err(e) = sqlite_execute_batch(&conn, SCHEMA_SQL) {
        return Err(db_error(e));
    }
    Ok(conn)
}


/// A copy of an optional string.
pub fn copy_opt_string(o: &Option<String>) -> (r: Option<String>)
    ensures
        opt_string_view(r) == opt_string_view(*o),
{
    match o {
        Some(s) => Some(s.clone()),
        None => None,
    }
}

/// The row that saving `payload` in `scope` at time `created_at_ms` stores.
pub open spec fn is_row_for(row: NewCheckpointRow, scope: ContextScope, payload: CheckpointPayload, created_at_ms: i64) -> bool {
    &&& row.repo_path@ == scope.repo_path@
    &&& row.branch@ == scope.branch@
    &&& row.commit_sha@ == scope.commit_sha@
    &&& opt_string_view(row.session_id) == opt_string_view(payload.session_id)
    &&& opt_string_view(row.done) == opt_string_view(payload.done)
    &&& opt_string_view(row.next) == opt_string_view(payload.next)
    &&& opt_string_view(row.blockers) == opt_string_view(payload.blockers)
    &&& opt_string_view(row.tests) == opt_string_view(payload.tests)
    &&& row.files_json@ == json_of_strings(texts(payload.files@))
    &&& row.created_at_ms == created_at_ms
}

/// Builds the row that stores `payload` in `scope` at time `created_at_ms`,
/// with the file list encoded as JSON.
pub fn new_checkpoint_row(scope: &ContextScope, payload: &CheckpointPayload, created_at_ms: i64) -> (r: NewCheckpointRow)
    ensures
        is_row_for(r, *scope, *payload, created_at_ms),
        strings_of_json(r.files_json@) == Some(texts(payload.files@)),
{
    let files_json = match encode_strings(&payload.files) {
        Ok(s) => s,
        // Unreachable: encoding a list of strings always succeeds.
        Err(_) => String::new(),
    };
    NewCheckpointRow {
        repo_path: scope.repo_path.clone(),
        branch: scope.branch.clone(),
        commit_sha: scope.commit_sha.clone(),
        session_id: copy_opt_string(&payload.session_id),
        done: copy_opt_string(&payload.done),
        next: copy_opt_string(&payload.next),
        blockers: copy_opt_string(&payload.blockers),
        tests: copy_opt_string(&payload.tests),
        files_json,
        created_at_ms,
    }
}

/// Saves a checkpoint for `scope` and returns its id. A payload without any
/// content field is refused before anything is stored; otherwise the row
/// that `new_checkpoint_row` builds for the current time is inserted.
pub fn save_checkpoint(conn: &rusqlite::Connection, scope: &ContextScope, payload: &CheckpointPayload) -> (r: Result<i64, ContextError>)
    ensures
        (r matches Err(e) && e is EmptyPayload) <==> payload.has_no_content(),
        r matches Err(e) ==> e is EmptyPayload || e is ClockBeforeEpoch || e is TimestampOverflow
            || e is Database,
{
    if payload.is_empty() {
        return Err(ContextError::EmptyPayload);
    }
    let created_at_ms = current_time_ms()?;
    let row = new_checkpoint_row(scope, payload, created_at_ms);
    if let Err(e) = sqlite_insert(conn, INSERT_SQL, &row) {
        return Err(db_error(e));
    }
    Ok(sqlite_last_insert_rowid(conn))
}

/// Whether `c` is the checkpoint that `row` holds, with `files` its decoded
/// file list.
pub open spec fn is_checkpoint_of(c: Checkpoint, row: StoredRow, files: Seq<Seq<char>>) -> bool {
    &&& c.id == row.id
    &&& c.repo_path@ == row.repo_path@
    &&& c.branch@ == row.branch@
    &&& c.commit_sha@ == row.commit_sha@
    &&& opt_string_view(c.session_id) == opt_string_view(row.session_id)
    &&& opt_string_view(c.done_text) == opt_string_view(row.done_text)
    &&& opt_string_view(c.next_text) == opt_string_view(row.next_text)
    &&& opt_string_view(c.blockers_text) == opt_string_view(row.blockers_text)
    &&& opt_string_view(c.tests_text) == opt_string_view(row.tests_text)
    &&& texts(c.files@) == files
    &&& c.created_at_ms == row.created_at_ms
}

/// What converting a stored row gives: its checkpoint when its file list
/// decodes, and the error naming its id otherwise.
pub open spec fn row_outcome(row: StoredRow, r: Result<Checkpoint, ContextError>) -> bool {
    match strings_of_json(row.files_json@) {
        Some(files) => r matches Ok(c) && is_checkpoint_of(c, row, files),
        None => r matches Err(ContextError::InvalidFilesJson { id, .. }) && id == row.id,
    }
}

/// Turns a stored row into a checkpoint, decoding its file list.
pub fn row_to_checkpoint(row: &StoredRow) -> (r: Result<Checkpoint, ContextError>)
    ensures
        row_outcome(*row, r),
{
    let files = match decode_strings(row.files_json.as_str()) {
        Ok(v) => v,
        Err(e) => {
            return Err(ContextError::InvalidFilesJson { id: row.id, detail: json_error_text(&e) });
        },
    };
    Ok(
        Checkpoint {
            id: row.id,
            repo_path: row.repo_path.clone(),
            branch: row.branch.clone(),
            commit_sha: row.commit_sha.clone(),
            session_id: copy_opt_string(&row.session_id),
            done_text: copy_opt_string(&row.done_text),
            next_text: copy_opt_string(&row.next_text),
            blockers_text: copy_opt_string(&row.blockers_text),
            tests_text: copy_opt_string(&row.tests_text),
            files,
            created_at_ms: row.created_at_ms,
        },
    )
}

/// Whether a stored row holds, column for column, what was inserted.
pub open spec fn holds_inserted(stored: StoredRow, row: NewCheckpointRow) -> bool {
    &&& stored.repo_path@ == row.repo_path@
    &&& stored.branch@ == row.branch@
    &&& stored.commit_sha@ == row.commit_sha@
    &&& opt_string_view(stored.session_id) == opt_string_view(row.session_id)
    &&& opt_string_view(stored.done_text) == opt_string_view(row.done)
    &&& opt_string_view(stored.next_text) == opt_string_view(row.next)
    &&& opt_string_view(stored.blockers_text) == opt_string_view(row.blockers)
    &&& opt_string_view(stored.tests_text) == opt_string_view(row.tests)
    &&& stored.files_json@ == row.files_json@
    &&& stored.created_at_ms == row.created_at_ms
}

/// What a save stores reads back as what was saved: when the store hands
/// back, column for column, the row that `new_checkpoint_row` built for a
/// save, converting it succeeds and gives a checkpoint with the save's
/// scope, notes, session, file list and time.
pub proof fn lemma_saved_content_reads_back(
    scope: ContextScope,
    payload: CheckpointPayload,
    created_at_ms: i64,
    row: NewCheckpointRow,
    stored: StoredRow,
    r: Result<Checkpoint, ContextError>,
)
    requires
        is_row_for(row, scope, payload, created_at_ms),
        strings_of_json(row.files_json@) == Some(texts(payload.files@)),
        holds_inserted(stored, row),
        row_outcome(stored, r),
    ensures
        r matches Ok(c) && c.repo_path@ == scope.repo_path@ && c.branch@ == scope.branch@
            && c.commit_sha@ == scope.commit_sha@ && opt_string_view(c.session_id)
            == opt_string_view(payload.session_id) && opt_string_view(c.done_text)
            == opt_string_view(payload.done) && opt_string_view(c.next_text)
            == opt_string_view(payload.next) && opt_string_view(c.blockers_text)
            == opt_string_view(payload.blockers) && opt_string_view(c.tests_text)
            == opt_string_view(payload.tests) && texts(c.files@) == texts(payload.files@)
            && c.created_at_ms == created_at_ms && c.id == stored.id,
{
}

/// Whether every stored row in `rows` has a file list that decodes.
pub open spec fn all_rows_decode(rows: Seq<StoredRow>) -> bool {
    forall|i: int| 0 <= i < rows.len() ==> (#[trigger] strings_of_json(rows[i].files_json@)) is Some
}

/// What converting stored rows gives: their checkpoints, in order, when all
/// file lists decode; otherwise the error naming the first row whose list
/// does not.
pub open spec fn rows_outcome(rows: Seq<StoredRow>, r: Result<Vec<Checkpoint>, ContextError>) -> bool {
    if all_rows_decode(rows) {
        r matches Ok(v) && v@.len() == rows.len() && forall|i: int|
            0 <= i < rows.len() ==> is_checkpoint_of(
                #[trigger] v@[i],
                rows[i],
                strings_of_json(rows[i].files_json@)->0,
            )
    } else {
        exists|k: int| first_undecodable(rows, k) && #[trigger] names_row(r, rows[k].id)
    }
}

/// Whether `k` is the first row whose file list does not decode.
pub open spec fn first_undecodable(rows: Seq<StoredRow>, k: int) -> bool {
    &&& 0 <= k < rows.len()
    &&& strings_of_json(rows[k].files_json@) is None
    &&& forall|j: int| 0 <= j < k ==> (#[trigger] strings_of_json(rows[j].files_json@)) is Some
}

/// Whether `r` is the error for the stored row with id `id`.
pub open spec fn names_row<T>(r: Result<T, ContextError>, id: i64) -> bool {
    r matches Err(ContextError::InvalidFilesJson { id: x, .. }) && x == id
}

/// Turns stored rows into checkpoints, stopping at the first row whose file
/// list does not decode.
pub fn rows_to_checkpoints(rows: &Vec<StoredRow>) -> (r: Result<Vec<Checkpoint>, ContextError>)
    ensures
        rows_outcome(rows@, r),
{
    let mut out: Vec<Checkpoint> = Vec::new();
    let mut i: usize = 0;
    while i < rows.len()
        invariant
            i <= rows.len(),
            out@.len() == i,
            forall|j: int| 0 <= j < i ==> (#[trigger] strings_of_json(rows@[j].files_json@)) is Some,
            forall|j: int|
                0 <= j < i ==> is_checkpoint_of(
                    #[trigger] out@[j],
                    rows@[j],
                    strings_of_json(rows@[j].files_json@)->0,
                ),
        decreases rows.len() - i,
    {
        match row_to_checkpoint(&rows[i]) {
            Ok(c) => {
                out.push(c);
            },
            Err(e) => {
                assert(!all_rows_decode(rows@));
                assert(strings_of_json(rows@[i as int].files_json@) is None);
                assert(first_undecodable(rows@, i as int));
                assert(names_row(Err::<Vec<Checkpoint>, ContextError>(e), rows@[i as int].id));
                return Err(e);
            },
        }
        i = i + 1;
    }
    Ok(out)
}

/// What every listing of a scope is, whatever the table holds: at most
/// `limit` checkpoints, all of the scope, newest first with the id breaking
/// ties.
pub open spec fn listing_shape(v: Seq<Checkpoint>, repo: Seq<char>, branch: Seq<char>, limit: u32) -> bool {
    &&& v.len() <= limit
    &&& forall|i: int| 0 <= i < v.len() ==> (#[trigger] v[i]).repo_path@ == repo && v[i].branch@ == branch
    &&& forall|i: int, j: int| 0 <= i < j < v.len() ==> not_older(v[i].created_at_ms, v[i].id, v[j].created_at_ms, v[j].id)
}

/// The most recent checkpoints of a scope, newest first, at most `limit`.
/// A limit of zero lists nothing, without asking the store.
pub fn list_checkpoints_for_scope(conn: &rusqlite::Connection, repo_path: &str, branch: &str, limit: u32) -> (r: Result<Vec<Checkpoint>, ContextError>)
    ensures
        r matches Ok(v) ==> listing_shape(v@, repo_path@, branch@, limit),
        limit == 0 ==> (r matches Ok(v) && v@.len() == 0),
        r matches Err(e) ==> e is Database || e is InvalidFilesJson,
{
    if limit == 0 {
        return Ok(Vec::new());
    }
    let rows = match sqlite_scope_rows(conn, SCOPE_QUERY_SQL, repo_path, branch, limit) {
        Ok(rows) => rows,
        Err(e) => {
            return Err(db_error(e));
        },
    };
    let r = rows_to_checkpoints(&rows);
    proof {
        if r is Err && !all_rows_decode(rows@) {
            let k = choose|k: int| first_undecodable(rows@, k) && #[trigger] names_row(r, rows@[k].id);
        }
        if r is Ok {
            let v = r->Ok_0;
            assert forall|i: int, j: int| 0 <= i < j < v@.len() implies not_older(
                v@[i].created_at_ms,
                v@[i].id,
                v@[j].created_at_ms,
                v@[j].id,
            ) by {
                assert(is_checkpoint_of(v@[i], rows@[i], strings_of_json(rows@[i].files_json@)->0));
                assert(is_checkpoint_of(v@[j], rows@[j], strings_of_json(rows@[j].files_json@)->0));
            }
            assert forall|i: int| 0 <= i < v@.len() implies (#[trigger] v@[i]).repo_path@ == repo_path@
                && v@[i].branch@ == branch@ by {
                assert(is_checkpoint_of(v@[i], rows@[i], strings_of_json(rows@[i].files_json@)->0));
            }
        }
    }
    r
}

/// The checkpoint that the first of `rows` holds, if there is a first row.
pub fn first_checkpoint(rows: &Vec<StoredRow>) -> (r: Result<Option<Checkpoint>, ContextError>)
    ensures
        rows@.len() == 0 ==> r matches Ok(None),
        rows@.len() > 0 ==> match strings_of_json(rows@[0].files_json@) {
            Some(files) => r matches Ok(Some(c)) && is_checkpoint_of(c, rows@[0], files),
            None => names_row(r, rows@[0].id),
        },
{
    if rows.len() == 0 {
        return Ok(None);
    }
    match row_to_checkpoint(&rows[0]) {
        Ok(c) => Ok(Some(c)),
        Err(e) => Err(e),
    }
}

/// The most recent checkpoint of a scope, if it has any.
pub fn latest_checkpoint_for_scope(conn: &rusqlite::Connection, repo_path: &str, branch: &str) -> (r: Result<Option<Checkpoint>, ContextError>)
    ensures
        r matches Ok(Some(c)) ==> c.repo_path@ == repo_path@ && c.branch@ == branch@,
        r matches Err(e) ==> e is Database || e is InvalidFilesJson,
{
    let rows = match sqlite_scope_rows(conn, SCOPE_QUERY_SQL, repo_path, branch, 1) {
        Ok(rows) => rows,
        Err(e) => {
            return Err(db_error(e));
        },
    };
    first_checkpoint(&rows)
}

/// The key that selects the rows of `repo_path` + `branch`.
pub fn scope_key(repo_path: &str, branch: &str) -> (r: ScopeKey)
    ensures
        r.repo_path@ == repo_path@,
        r.branch@ == branch@,
{
    ScopeKey { repo_path: repo_path.to_owned(), branch: branch.to_owned() }
}

/// Deletes every checkpoint of a scope and returns how many there were.
pub fn delete_checkpoints_for_scope(conn: &rusqlite::Connection, repo_path: &str, branch: &str) -> (r: Result<usize, ContextError>)
    ensures
        r matches Err(e) ==> e is Database,
{
    let key = scope_key(repo_path, branch);
    match sqlite_delete(conn, DELETE_SQL, &key) {
        Ok(n) => Ok(n),
        Err(e) => Err(db_error(e)),
    }
}

} // verus!
