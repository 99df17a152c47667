//! The errors of the checkpoint store and of scope detection.

use vstd::prelude::*;
use vstd::string::*;

use crate::text::{push_signed_decimal, signed_decimal_text};

verus! {

/// What went wrong while detecting a scope or using the checkpoint store.
#[derive(Debug)]
pub enum ContextError {
    /// A save was asked for without any content field.
    EmptyPayload,
    /// The system clock reads a time before the Unix epoch; holds the
    /// clock's complaint.
    ClockBeforeEpoch(String),
    /// The current time in milliseconds does not fit in an `i64`.
    TimestampOverflow,
    /// The current directory could not be read; holds the reason.
    CurrentDir(String),
    /// The database file could not be opened; holds its path and the reason.
    OpenDatabase { path: String, detail: String },
    /// The database refused an operation; holds its message.
    Database(String),
    /// A stored file list is not a JSON array of strings.
    InvalidFilesJson { id: i64, detail: String },
}

/// The message of an error, as the command line and tool results show it.
pub open spec fn error_text(e: ContextError) -> Seq<char> {
    match e {
        ContextError::EmptyPayload => "at least one of --done, --next, --blockers, --tests, or --files is required"@,
        ContextError::ClockBeforeEpoch(d) => "system clock before unix epoch: "@ + d@,
        ContextError::TimestampOverflow => "timestamp overflow: out of range integral type conversion attempted"@,
        ContextError::CurrentDir(d) => "failed to read current dir: "@ + d@,
        ContextError::OpenDatabase { path, detail } => "failed to open sqlite db at "@ + path@
            + ": "@ + detail@,
        ContextError::Database(d) => d@,
        ContextError::InvalidFilesJson { id, detail } => "invalid files_json for checkpoint id "@
            + signed_decimal_text(id as int) + ": "@ + detail@,
    }
}

impl ContextError {
    /// The message of this error.
    pub fn message(&self) -> (r: String)
        ensures
            r@ == error_text(*self),
    {
        let mut r = String::new();
        match self {
            ContextError::EmptyPayload => {
                r.append("at least one of --done, --next, --blockers, --tests, or --files is required");
            },
            ContextError::ClockBeforeEpoch(d) => {
                r.append("system clock before unix epoch: ");
                r.append(d.as_str());
            },
            ContextError::TimestampOverflow => {
                r.append("timestamp overflow: out of range integral type conversion attempted");
            },
            ContextError::CurrentDir(d) => {
                r.append("failed to read current dir: ");
                r.append(d.as_str());
            },
            ContextError::OpenDatabase { path, detail } => {
                r.append("failed to open sqlite db at ");
                r.append(path.as_str());
                r.append(": ");
                r.append(detail.as_str());
            },
            ContextError::Database(d) => {
                r.append(d.as_str());
            },
            ContextError::InvalidFilesJson { id, detail } => {
                r.append("invalid files_json for checkpoint id ");
                push_signed_decimal(&mut r, *id);
                r.append(": ");
                r.append(detail.as_str());
            },
        }
        assert(r@ =~= error_text(*self));
        r
    }
}

} // verus!
