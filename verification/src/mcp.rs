//! The JSON-RPC tool server: request dispatch, tool argument checking, and
//! the three context tools over the checkpoint store.

use vstd::prelude::*;
use vstd::string::*;

use crate::checkpoint::{Checkpoint, CheckpointPayload};
use crate::error::{error_text, ContextError};
use crate::json::{
    array_value, copy_json, field, items_view, get_field, get_member, int_value, int_view, json_view, lemma_array_view,
    lemma_object_view, lookup, members_view, object_value, opt_string_view, opt_text_value, opt_text_view,
    push_member, text_array_value, text_array_view, text_of, text_value, JsonNumber, JsonValue, JsonView,
    NumberView,
};
use crate::codec::{pretty_json_of, pretty_json_text};
use crate::scope::ContextScope;
use crate::store::{
    latest_checkpoint_for_scope, list_checkpoints_for_scope, json_error_text, listing_shape, save_checkpoint,
};
use crate::text::{decimal_text, push_decimal, str_eq, texts};

verus! {

/// The JSON-RPC version every response carries.
pub const JSON_RPC_VERSION: &'static str = "2.0";

/// The protocol version announced when the client names none.
pub const MCP_PROTOCOL_VERSION: &'static str = "2024-11-05";

/// The server's name in its `initialize` answer.
pub const SERVER_NAME: &'static str = "switch-mcp";

/// The server's version in its `initialize` answer.
pub const SERVER_VERSION: &'static str = "0.1.2";

/// How many checkpoints `list_context` returns when no limit is given.
pub const DEFAULT_LIST_LIMIT: u32 = 20;

/// A JSON-RPC error: a code and a message.
#[derive(Debug)]
pub struct JsonRpcError {
    pub code: i64,
    pub message: String,
}

impl JsonRpcError {
    /// The error for a method the server does not know.
    pub fn method_not_found(method: &str) -> (r: Self)
        ensures
            r.code == -32601i64,
            r.message@ == "method not found: "@ + method@,
    {
        let mut message = "method not found: ".to_owned();
        message.append(method);
        JsonRpcError { code: -32601i64, message }
    }

    /// The error for a message that is not a valid request.
    pub fn invalid_request(message: &str) -> (r: Self)
        ensures
            r.code == -32600i64,
            r.message@ == message@,
    {
        JsonRpcError { code: -32600i64, message: message.to_owned() }
    }

    /// The error for a request whose parameters are malformed.
    pub fn invalid_params(message: &str) -> (r: Self)
        ensures
            r.code == -32602i64,
            r.message@ == message@,
    {
        JsonRpcError { code: -32602i64, message: message.to_owned() }
    }

    /// The error for a failure inside the server.
    pub fn internal(message: &str) -> (r: Self)
        ensures
            r.code == -32000i64,
            r.message@ == message@,
    {
        JsonRpcError { code: -32000i64, message: message.to_owned() }
    }
}

/// A JSON string.
pub open spec fn str_view(s: Seq<char>) -> JsonView {
    JsonView::Str(s)
}

/// The empty JSON object.
pub open spec fn empty_object() -> JsonView {
    JsonView::Object(Seq::empty())
}

/// The response that carries the result of request `id`.
pub open spec fn result_response_view(id: JsonView, result: JsonView) -> JsonView {
    JsonView::Object(
        seq![("jsonrpc"@, str_view(JSON_RPC_VERSION@)), ("id"@, id), ("result"@, result)],
    )
}

/// The response that reports an error for request `id`.
pub open spec fn error_response_view(id: JsonView, code: i64, message: Seq<char>) -> JsonView {
    JsonView::Object(
        seq![
            ("jsonrpc"@, str_view(JSON_RPC_VERSION@)),
            ("id"@, id),
            ("error"@, JsonView::Object(seq![("code"@, int_view(code)), ("message"@, str_view(message))])),
        ],
    )
}

/// A tool result's content: a single text item.
pub open spec fn text_content_view(text: Seq<char>) -> JsonView {
    JsonView::Array(
        seq![JsonView::Object(seq![("type"@, str_view("text"@)), ("text"@, str_view(text))])],
    )
}

/// The result of a tool that succeeded: its structured answer and that
/// answer's text.
pub open spec fn tool_success_view(text: Seq<char>, structured: JsonView) -> JsonView {
    JsonView::Object(seq![("content"@, text_content_view(text)), ("structuredContent"@, structured)])
}

/// The result of a tool that failed: the failure's message, marked as an error.
pub open spec fn tool_error_view(text: Seq<char>) -> JsonView {
    JsonView::Object(seq![("content"@, text_content_view(text)), ("isError"@, JsonView::Bool(true))])
}

fn members() -> (r: Vec<(String, JsonValue)>)
    ensures
        members_view(r@) == Seq::<(Seq<char>, JsonView)>::empty(),
{
    let r: Vec<(String, JsonValue)> = Vec::new();
    assert(members_view(r@) =~= Seq::<(Seq<char>, JsonView)>::empty());
    r
}

/// The response that carries the result of request `id`.
pub fn result_response(id: JsonValue, result: JsonValue) -> (r: JsonValue)
    ensures
        r@ == result_response_view(id@, result@),
{
    let mut m = members();
    push_member(&mut m, "jsonrpc", text_value(JSON_RPC_VERSION));
    push_member(&mut m, "id", id);
    push_member(&mut m, "result", result);
    let r = object_value(m);
    assert(r@->Object_0 =~= result_response_view(id@, result@)->Object_0);
    r
}

/// The response that reports `error` for request `id`.
pub fn error_response(id: JsonValue, error: &JsonRpcError) -> (r: JsonValue)
    ensures
        r@ == error_response_view(id@, error.code, error.message@),
{
    let mut e = members();
    push_member(&mut e, "code", int_value(error.code));
    push_member(&mut e, "message", text_value(error.message.as_str()));
    let ev = object_value(e);
    let mut m = members();
    push_member(&mut m, "jsonrpc", text_value(JSON_RPC_VERSION));
    push_member(&mut m, "id", id);
    push_member(&mut m, "error", ev);
    let r = object_value(m);
    assert(ev@->Object_0 =~= seq![("code"@, int_view(error.code)), ("message"@, str_view(error.message@))]);
    assert(r@->Object_0 =~= error_response_view(id@, error.code, error.message@)->Object_0);
    r
}

fn text_content(text: &str) -> (r: JsonValue)
    ensures
        r@ == text_content_view(text@),
{
    let mut item = members();
    push_member(&mut item, "type", text_value("text"));
    push_member(&mut item, "text", text_value(text));
    let iv = object_value(item);
    let mut items: Vec<JsonValue> = Vec::new();
    items.push(iv);
    let r = array_value(items);
    assert(iv@->Object_0 =~= seq![("type"@, str_view("text"@)), ("text"@, str_view(text@))]);
    assert(r@->Array_0 =~= text_content_view(text@)->Array_0);
    r
}

/// The result of a tool that succeeded, given its answer's text.
pub fn tool_success(text: &str, structured: JsonValue) -> (r: JsonValue)
    ensures
        r@ == tool_success_view(text@, structured@),
{
    let mut m = members();
    push_member(&mut m, "content", text_content(text));
    push_member(&mut m, "structuredContent", structured);
    let r = object_value(m);
    assert(r@->Object_0 =~= tool_success_view(text@, structured@)->Object_0);
    r
}

/// The result of a tool that failed with the given message.
pub fn tool_error(text: &str) -> (r: JsonValue)
    ensures
        r@ == tool_error_view(text@),
{
    let mut m = members();
    push_member(&mut m, "content", text_content(text));
    push_member(&mut m, "isError", JsonValue::Bool(true));
    let r = object_value(m);
    assert(r@->Object_0 =~= tool_error_view(text@)->Object_0);
    r
}

/// The result of a tool that succeeded with the answer `structured`, shown
/// as its indented JSON text beside the answer itself. Rendering cannot
/// fail, so the internal error that a failure would become never comes.
pub fn mcp_tool_success(structured: JsonValue) -> (r: Result<JsonValue, JsonRpcError>)
    ensures
        r matches Ok(v) && v@ == tool_success_view(pretty_json_of(structured@), structured@),
{
    match pretty_json_text(&structured) {
        Ok(text) => Ok(tool_success(text.as_str(), structured)),
        Err(e) => Err(JsonRpcError::internal(json_error_text(&e).as_str())),
    }
}

/// The arguments that the tools read.
#[derive(Clone, Copy, Debug)]
pub enum ArgKey {
    Name,
    RepoPath,
    Branch,
    CommitSha,
    SessionId,
    DoneText,
    NextText,
    BlockersText,
    TestsText,
    Files,
    Limit,
}

/// The name of an argument.
pub open spec fn key_text(k: ArgKey) -> Seq<char> {
    match k {
        ArgKey::Name => "name"@,
        ArgKey::RepoPath => "repo_path"@,
        ArgKey::Branch => "branch"@,
        ArgKey::CommitSha => "commit_sha"@,
        ArgKey::SessionId => "session_id"@,
        ArgKey::DoneText => "done_text"@,
        ArgKey::NextText => "next_text"@,
        ArgKey::BlockersText => "blockers_text"@,
        ArgKey::TestsText => "tests_text"@,
        ArgKey::Files => "files"@,
        ArgKey::Limit => "limit"@,
    }
}

/// The name of an argument.
pub fn key_str(k: ArgKey) -> (r: &'static str)
    ensures
        r@ == key_text(k),
{
    match k {
        ArgKey::Name => "name",
        ArgKey::RepoPath => "repo_path",
        ArgKey::Branch => "branch",
        ArgKey::CommitSha => "commit_sha",
        ArgKey::SessionId => "session_id",
        ArgKey::DoneText => "done_text",
        ArgKey::NextText => "next_text",
        ArgKey::BlockersText => "blockers_text",
        ArgKey::TestsText => "tests_text",
        ArgKey::Files => "files",
        ArgKey::Limit => "limit",
    }
}

/// Why a tool call failed.
#[derive(Debug)]
pub enum ToolError {
    /// A required argument is absent.
    MissingArgument(ArgKey),
    /// An argument that must be a string is not one.
    NotAString(ArgKey),
    /// An item of a string-list argument is not a string; holds its index.
    ItemNotAString(ArgKey, usize),
    /// A string-list argument is not an array.
    NotAStringArray(ArgKey),
    /// A numeric argument is not a non-negative integer.
    NotANonNegativeInteger(ArgKey),
    /// A numeric argument does not fit in 32 bits.
    OutOfU32Range,
    /// A numeric argument is not a number.
    NotANumber(ArgKey),
    /// `list_context` was asked for zero checkpoints.
    ZeroLimit,
    /// The tool name is not one of the server's tools.
    UnknownTool(String),
    /// The checkpoint store failed.
    Store(ContextError),
}

/// The message of a tool error.
pub open spec fn tool_error_text(e: ToolError) -> Seq<char> {
    match e {
        ToolError::MissingArgument(k) => key_text(k) + " is required"@,
        ToolError::NotAString(k) => key_text(k) + " must be a string"@,
        ToolError::ItemNotAString(k, i) => key_text(k) + "["@ + decimal_text(i as nat) + "] must be a string"@,
        ToolError::NotAStringArray(k) => key_text(k) + " must be an array of strings"@,
        ToolError::NotANonNegativeInteger(k) => key_text(k) + " must be a non-negative integer"@,
        ToolError::OutOfU32Range => "value exceeds u32 range: out of range integral type conversion attempted"@,
        ToolError::NotANumber(k) => key_text(k) + " must be a number"@,
        ToolError::ZeroLimit => "limit must be at least 1"@,
        ToolError::UnknownTool(name) => "unknown tool: "@ + name@,
        ToolError::Store(e) => error_text(e),
    }
}

impl ToolError {
    /// The message of this error.
    pub fn message(&self) -> (r: String)
        ensures
            r@ == tool_error_text(*self),
    {
        let mut r = String::new();
        match self {
            ToolError::MissingArgument(k) => {
                r.append(key_str(*k));
                r.append(" is required");
            },
            ToolError::NotAString(k) => {
                r.append(key_str(*k));
                r.append(" must be a string");
            },
            ToolError::ItemNotAString(k, i) => {
                r.append(key_str(*k));
                r.append("[");
                push_decimal(&mut r, *i as u64);
                r.append("] must be a string");
            },
            ToolError::NotAStringArray(k) => {
                r.append(key_str(*k));
                r.append(" must be an array of strings");
            },
            ToolError::NotANonNegativeInteger(k) => {
                r.append(key_str(*k));
                r.append(" must be a non-negative integer");
            },
            ToolError::OutOfU32Range => {
                r.append("value exceeds u32 range: out of range integral type conversion attempted");
            },
            ToolError::NotANumber(k) => {
                r.append(key_str(*k));
                r.append(" must be a number");
            },
            ToolError::ZeroLimit => {
                r.append("limit must be at least 1");
            },
            ToolError::UnknownTool(name) => {
                r.append("unknown tool: ");
                r.append(name.as_str());
            },
            ToolError::Store(e) => {
                let m = e.message();
                r.append(m.as_str());
            },
        }
        assert(r@ =~= tool_error_text(*self));
        r
    }
}

/// A required string argument.
pub open spec fn string_arg(args: Seq<(Seq<char>, JsonView)>, key: ArgKey) -> Result<Seq<char>, ToolError> {
    match lookup(args, key_text(key)) {
        Some(JsonView::Str(s)) => Ok(s),
        Some(_) => Err(ToolError::NotAString(key)),
        None => Err(ToolError::MissingArgument(key)),
    }
}

/// An optional string argument; `null` counts as absent.
pub open spec fn optional_string_arg_view(args: Seq<(Seq<char>, JsonView)>, key: ArgKey) -> Result<Option<Seq<char>>, ToolError> {
    match lookup(args, key_text(key)) {
        Some(JsonView::Str(s)) => Ok(Some(s)),
        Some(JsonView::Null) | None => Ok(None),
        Some(_) => Err(ToolError::NotAString(key)),
    }
}

/// Whether `k` is the position of the first item that is not a string.
pub open spec fn first_non_string(items: Seq<JsonView>, k: int) -> bool {
    &&& 0 <= k < items.len()
    &&& !(items[k] is Str)
    &&& forall|j: int| 0 <= j < k ==> (#[trigger] items[j]) is Str
}

/// An optional list-of-strings argument; absent or `null` gives the empty list.
pub open spec fn string_list_arg(args: Seq<(Seq<char>, JsonView)>, key: ArgKey) -> Result<Seq<Seq<char>>, ToolError> {
    match lookup(args, key_text(key)) {
        Some(JsonView::Null) | None => Ok(Seq::empty()),
        Some(JsonView::Array(items)) => if forall|i: int| 0 <= i < items.len() ==> (#[trigger] items[i]) is Str {
            Ok(Seq::new(items.len(), |i: int| items[i]->Str_0))
        } else {
            Err(ToolError::ItemNotAString(key, (choose|k: int| first_non_string(items, k)) as usize))
        },
        Some(_) => Err(ToolError::NotAStringArray(key)),
    }
}

/// An optional 32-bit count argument; absent or `null` gives `default`.
pub open spec fn u32_arg(args: Seq<(Seq<char>, JsonView)>, key: ArgKey, default: u32) -> Result<u32, ToolError> {
    match lookup(args, key_text(key)) {
        Some(JsonView::Null) | None => Ok(default),
        Some(JsonView::Number(n)) => match n {
            NumberView::PosInt(u) => if u <= u32::MAX {
                Ok(u as u32)
            } else {
                Err(ToolError::OutOfU32Range)
            },
            _ => Err(ToolError::NotANonNegativeInteger(key)),
        },
        Some(_) => Err(ToolError::NotANumber(key)),
    }
}

/// Reads a required string argument.
pub fn required_string_arg(args: &Vec<(String, JsonValue)>, key: ArgKey) -> (r: Result<String, ToolError>)
    ensures
        match string_arg(members_view(args@), key) {
            Ok(s) => r matches Ok(v) && v@ == s,
            Err(e) => r matches Err(x) && x == e,
        },
{
    match get_member(args, key_str(key)) {
        Some(JsonValue::Str(s)) => Ok(s.clone()),
        Some(_) => Err(ToolError::NotAString(key)),
        None => Err(ToolError::MissingArgument(key)),
    }
}

/// Reads an optional string argument.
pub fn optional_string_arg(args: &Vec<(String, JsonValue)>, key: ArgKey) -> (r: Result<Option<String>, ToolError>)
    ensures
        match optional_string_arg_view(members_view(args@), key) {
            Ok(o) => r matches Ok(v) && opt_string_view(v) == o,
            Err(e) => r matches Err(x) && x == e,
        },
{
    match get_member(args, key_str(key)) {
        Some(JsonValue::Str(s)) => Ok(Some(s.clone())),
        Some(JsonValue::Null) => Ok(None),
        None => Ok(None),
        Some(_) => Err(ToolError::NotAString(key)),
    }
}

/// Reads an optional list-of-strings argument.
pub fn optional_string_list_arg(args: &Vec<(String, JsonValue)>, key: ArgKey) -> (r: Result<Vec<String>, ToolError>)
    ensures
        match string_list_arg(members_view(args@), key) {
            Ok(l) => r matches Ok(v) && texts(v@) == l,
            Err(e) => r matches Err(x) && x == e,
        },
{
    match get_member(args, key_str(key)) {
        None => Ok(Vec::new()),
        Some(JsonValue::Null) => Ok(Vec::new()),
        Some(JsonValue::Array(items)) => {
            proof {
                lemma_array_view(*items);
            }
            let ghost iv = items_view(items@);
            assert(lookup(members_view(args@), key_text(key)) == Some(JsonView::Array(iv)));
            let mut out: Vec<String> = Vec::new();
            let mut i: usize = 0;
            while i < items.len()
                invariant
                    i <= items.len(),
                    iv == items_view(items@),
                    lookup(members_view(args@), key_text(key)) == Some(JsonView::Array(iv)),
                    out@.len() == i,
                    forall|j: int| 0 <= j < i ==> (#[trigger] iv[j]) is Str,
                    forall|j: int| 0 <= j < i ==> (#[trigger] out@[j])@ == iv[j]->Str_0,
                decreases items.len() - i,
            {
                match &items[i] {
                    JsonValue::Str(s) => {
                        out.push(s.clone());
                    },
                    _ => {
                        assert(first_non_string(iv, i as int));
                        let ghost k = choose|k: int| first_non_string(iv, k);
                        assert(k == i as int) by {
                            if k < i {
                            } else if k > i {
                                assert(iv[i as int] is Str);
                            }
                        }
                        return Err(ToolError::ItemNotAString(key, i));
                    },
                }
                i = i + 1;
            }
            assert(texts(out@) =~= Seq::new(iv.len(), |i: int| iv[i]->Str_0));
            Ok(out)
        },
        Some(_) => Err(ToolError::NotAStringArray(key)),
    }
}

/// Reads an optional 32-bit count argument.
pub fn optional_u32_arg(args: &Vec<(String, JsonValue)>, key: ArgKey, default: u32) -> (r: Result<u32, ToolError>)
    ensures
        match u32_arg(members_view(args@), key, default) {
            Ok(n) => r == Ok::<u32, ToolError>(n),
            Err(e) => r matches Err(x) && x == e,
        },
{
    match get_member(args, key_str(key)) {
        None => Ok(default),
        Some(JsonValue::Null) => Ok(default),
        Some(JsonValue::Number(n)) => match n {
            JsonNumber::PosInt(u) => if *u <= 4294967295u64 {
                Ok(*u as u32)
            } else {
                Err(ToolError::OutOfU32Range)
            },
            _ => Err(ToolError::NotANonNegativeInteger(key)),
        },
        Some(_) => Err(ToolError::NotANumber(key)),
    }
}


/// The checkpoint as `get_context` shows it.
pub open spec fn contract_object_view(c: Checkpoint) -> JsonView {
    JsonView::Object(
        seq![
            ("done_text"@, opt_text_view(opt_string_view(c.done_text))),
            ("next_text"@, opt_text_view(opt_string_view(c.next_text))),
            ("blockers_text"@, opt_text_view(opt_string_view(c.blockers_text))),
            ("tests_text"@, opt_text_view(opt_string_view(c.tests_text))),
            ("files"@, text_array_view(texts(c.files@))),
            ("commit_sha"@, str_view(c.commit_sha@)),
            ("created_at_ms"@, int_view(c.created_at_ms)),
        ],
    )
}

/// The checkpoint as `list_context` shows it.
pub open spec fn list_item_view(c: Checkpoint) -> JsonView {
    JsonView::Object(
        seq![
            ("id"@, int_view(c.id)),
            ("repo_path"@, str_view(c.repo_path@)),
            ("branch"@, str_view(c.branch@)),
            ("session_id"@, opt_text_view(opt_string_view(c.session_id))),
            ("done_text"@, opt_text_view(opt_string_view(c.done_text))),
            ("next_text"@, opt_text_view(opt_string_view(c.next_text))),
            ("blockers_text"@, opt_text_view(opt_string_view(c.blockers_text))),
            ("tests_text"@, opt_text_view(opt_string_view(c.tests_text))),
            ("files"@, text_array_view(texts(c.files@))),
            ("commit_sha"@, str_view(c.commit_sha@)),
            ("created_at_ms"@, int_view(c.created_at_ms)),
        ],
    )
}

/// The checkpoint as `get_context` shows it.
pub fn checkpoint_contract_object(c: &Checkpoint) -> (r: JsonValue)
    ensures
        r@ == contract_object_view(*c),
{
    let mut m = members();
    push_member(&mut m, "done_text", opt_text_value(&c.done_text));
    push_member(&mut m, "next_text", opt_text_value(&c.next_text));
    push_member(&mut m, "blockers_text", opt_text_value(&c.blockers_text));
    push_member(&mut m, "tests_text", opt_text_value(&c.tests_text));
    push_member(&mut m, "files", text_array_value(&c.files));
    push_member(&mut m, "commit_sha", text_value(c.commit_sha.as_str()));
    push_member(&mut m, "created_at_ms", int_value(c.created_at_ms));
    let r = object_value(m);
    assert(r@->Object_0 =~= contract_object_view(*c)->Object_0);
    r
}

/// The checkpoint as `list_context` shows it.
pub fn checkpoint_list_item(c: &Checkpoint) -> (r: JsonValue)
    ensures
        r@ == list_item_view(*c),
{
    let mut m = members();
    push_member(&mut m, "id", int_value(c.id));
    push_member(&mut m, "repo_path", text_value(c.repo_path.as_str()));
    push_member(&mut m, "branch", text_value(c.branch.as_str()));
    push_member(&mut m, "session_id", opt_text_value(&c.session_id));
    push_member(&mut m, "done_text", opt_text_value(&c.done_text));
    push_member(&mut m, "next_text", opt_text_value(&c.next_text));
    push_member(&mut m, "blockers_text", opt_text_value(&c.blockers_text));
    push_member(&mut m, "tests_text", opt_text_value(&c.tests_text));
    push_member(&mut m, "files", text_array_value(&c.files));
    push_member(&mut m, "commit_sha", text_value(c.commit_sha.as_str()));
    push_member(&mut m, "created_at_ms", int_value(c.created_at_ms));
    let r = object_value(m);
    assert(r@->Object_0 =~= list_item_view(*c)->Object_0);
    r
}

/// `get_context`'s answer when the scope has no checkpoint.
pub open spec fn not_found_view() -> JsonView {
    JsonView::Object(seq![("found"@, JsonView::Bool(false))])
}

/// `get_context`'s answer for the scope's latest checkpoint `c`.
pub open spec fn found_view(c: Checkpoint) -> JsonView {
    JsonView::Object(seq![("found"@, JsonView::Bool(true)), ("checkpoint"@, contract_object_view(c))])
}

/// What `get_context` may answer once its arguments are read: a store
/// failure, no checkpoint, or a checkpoint of the asked scope.
pub open spec fn lookup_answer(r: Result<JsonValue, ToolError>, repo: Seq<char>, branch: Seq<char>) -> bool {
    match r {
        Ok(v) => v@ == not_found_view() || exists|c: Checkpoint|
            c.repo_path@ == repo && c.branch@ == branch && v@ == #[trigger] found_view(c),
        Err(ToolError::Store(e)) => e is Database || e is InvalidFilesJson,
        Err(_) => false,
    }
}

/// What `get_context` answers for the given arguments.
pub open spec fn get_context_outcome(args: Seq<(Seq<char>, JsonView)>, r: Result<JsonValue, ToolError>) -> bool {
    match string_arg(args, ArgKey::RepoPath) {
        Err(e) => r matches Err(x) && x == e,
        Ok(repo) => match string_arg(args, ArgKey::Branch) {
            Err(e) => r matches Err(x) && x == e,
            Ok(branch) => lookup_answer(r, repo, branch),
        },
    }
}

/// `get_context`'s answer for what the lookup of the latest checkpoint gave.
pub fn get_context_answer(latest: &Option<Checkpoint>) -> (r: JsonValue)
    ensures
        r@ == match *latest {
            None => not_found_view(),
            Some(c) => found_view(c),
        },
{
    let mut m = members();
    match latest {
        Some(c) => {
            push_member(&mut m, "found", JsonValue::Bool(true));
            push_member(&mut m, "checkpoint", checkpoint_contract_object(c));
            let r = object_value(m);
            assert(r@->Object_0 =~= found_view(*c)->Object_0);
            r
        },
        None => {
            push_member(&mut m, "found", JsonValue::Bool(false));
            let r = object_value(m);
            assert(r@->Object_0 =~= not_found_view()->Object_0);
            r
        },
    }
}

/// The `get_context` tool: the latest checkpoint of `repo_path` + `branch`.
pub fn mcp_get_context(conn: &rusqlite::Connection, args: &Vec<(String, JsonValue)>) -> (r: Result<JsonValue, ToolError>)
    ensures
        get_context_outcome(members_view(args@), r),
{
    let repo_path = required_string_arg(args, ArgKey::RepoPath)?;
    let branch = required_string_arg(args, ArgKey::Branch)?;
    let latest = match latest_checkpoint_for_scope(conn, repo_path.as_str(), branch.as_str()) {
        Ok(l) => l,
        Err(e) => {
            return Err(ToolError::Store(e));
        },
    };
    let r = get_context_answer(&latest);
    proof {
        if let Some(c) = latest {
            assert(r@ == found_view(c));
        }
    }
    Ok(r)
}

/// The arguments of `save_context`, as read.
pub struct SaveArgsView {
    pub repo: Seq<char>,
    pub branch: Seq<char>,
    pub commit: Seq<char>,
    pub done: Option<Seq<char>>,
    pub next: Option<Seq<char>>,
    pub blockers: Option<Seq<char>>,
    pub tests: Option<Seq<char>>,
    pub files: Seq<Seq<char>>,
    pub session: Option<Seq<char>>,
}

/// Reads the arguments of `save_context` in order, stopping at the first
/// that is malformed.
pub open spec fn save_args(a: Seq<(Seq<char>, JsonView)>) -> Result<SaveArgsView, ToolError> {
    if string_arg(a, ArgKey::RepoPath) is Err {
        Err(string_arg(a, ArgKey::RepoPath)->Err_0)
    } else if string_arg(a, ArgKey::Branch) is Err {
        Err(string_arg(a, ArgKey::Branch)->Err_0)
    } else if string_arg(a, ArgKey::CommitSha) is Err {
        Err(string_arg(a, ArgKey::CommitSha)->Err_0)
    } else if optional_string_arg_view(a, ArgKey::DoneText) is Err {
        Err(optional_string_arg_view(a, ArgKey::DoneText)->Err_0)
    } else if optional_string_arg_view(a, ArgKey::NextText) is Err {
        Err(optional_string_arg_view(a, ArgKey::NextText)->Err_0)
    } else if optional_string_arg_view(a, ArgKey::BlockersText) is Err {
        Err(optional_string_arg_view(a, ArgKey::BlockersText)->Err_0)
    } else if optional_string_arg_view(a, ArgKey::TestsText) is Err {
        Err(optional_string_arg_view(a, ArgKey::TestsText)->Err_0)
    } else if string_list_arg(a, ArgKey::Files) is Err {
        Err(string_list_arg(a, ArgKey::Files)->Err_0)
    } else if optional_string_arg_view(a, ArgKey::SessionId) is Err {
        Err(optional_string_arg_view(a, ArgKey::SessionId)->Err_0)
    } else {
        Ok(
            SaveArgsView {
                repo: string_arg(a, ArgKey::RepoPath)->Ok_0,
                branch: string_arg(a, ArgKey::Branch)->Ok_0,
                commit: string_arg(a, ArgKey::CommitSha)->Ok_0,
                done: optional_string_arg_view(a, ArgKey::DoneText)->Ok_0,
                next: optional_string_arg_view(a, ArgKey::NextText)->Ok_0,
                blockers: optional_string_arg_view(a, ArgKey::BlockersText)->Ok_0,
                tests: optional_string_arg_view(a, ArgKey::TestsText)->Ok_0,
                files: string_list_arg(a, ArgKey::Files)->Ok_0,
                session: optional_string_arg_view(a, ArgKey::SessionId)->Ok_0,
            },
        )
    }
}

/// `save_context`'s answer for a checkpoint stored under `id`.
pub open spec fn saved_view(id: i64) -> JsonView {
    JsonView::Object(seq![("ok"@, JsonView::Bool(true)), ("id"@, int_view(id))])
}

/// What `save_context` may answer for a non-empty save: a store failure
/// other than an empty payload, or the id it stored the checkpoint under.
pub open spec fn save_answer(r: Result<JsonValue, ToolError>) -> bool {
    match r {
        Ok(v) => exists|id: i64| v@ == #[trigger] saved_view(id),
        Err(ToolError::Store(e)) => !(e is EmptyPayload),
        Err(_) => false,
    }
}

/// What `save_context` answers for the given arguments: argument errors
/// first, then the refusal of a save without any content field.
pub open spec fn save_context_outcome(args: Seq<(Seq<char>, JsonView)>, r: Result<JsonValue, ToolError>) -> bool {
    match save_args(args) {
        Err(e) => r matches Err(x) && x == e,
        Ok(s) => if s.done is None && s.next is None && s.blockers is None && s.tests is None
            && s.files.len() == 0 {
            r matches Err(ToolError::Store(ContextError::EmptyPayload))
        } else {
            save_answer(r)
        },
    }
}

/// Whether `scope` and `payload` carry what the `save_context` arguments
/// `s` say, with no scope fallback.
pub open spec fn is_save_request(s: SaveArgsView, scope: ContextScope, payload: CheckpointPayload) -> bool {
    &&& scope.repo_path@ == s.repo
    &&& scope.branch@ == s.branch
    &&& scope.commit_sha@ == s.commit
    &&& !scope.used_repo_fallback && !scope.used_branch_fallback && !scope.used_commit_fallback
    &&& opt_string_view(payload.done) == s.done
    &&& opt_string_view(payload.next) == s.next
    &&& opt_string_view(payload.blockers) == s.blockers
    &&& opt_string_view(payload.tests) == s.tests
    &&& texts(payload.files@) == s.files
    &&& opt_string_view(payload.session_id) == s.session
}

/// Reads the arguments of `save_context` into the scope and payload to save.
pub fn save_request(args: &Vec<(String, JsonValue)>) -> (r: Result<(ContextScope, CheckpointPayload), ToolError>)
    ensures
        match save_args(members_view(args@)) {
            Err(e) => r matches Err(x) && x == e,
            Ok(s) => r matches Ok((scope, payload)) && is_save_request(s, scope, payload),
        },
{
    let repo_path = required_string_arg(args, ArgKey::RepoPath)?;
    let branch = required_string_arg(args, ArgKey::Branch)?;
    let commit_sha = required_string_arg(args, ArgKey::CommitSha)?;
    let done = optional_string_arg(args, ArgKey::DoneText)?;
    let next = optional_string_arg(args, ArgKey::NextText)?;
    let blockers = optional_string_arg(args, ArgKey::BlockersText)?;
    let tests = optional_string_arg(args, ArgKey::TestsText)?;
    let files = optional_string_list_arg(args, ArgKey::Files)?;
    let session_id = optional_string_arg(args, ArgKey::SessionId)?;
    let payload = CheckpointPayload { done, next, blockers, tests, files, session_id };
    let scope = ContextScope {
        repo_path,
        branch,
        commit_sha,
        used_repo_fallback: false,
        used_branch_fallback: false,
        used_commit_fallback: false,
    };
    Ok((scope, payload))
}

/// `save_context`'s answer for a checkpoint stored under `id`.
pub fn saved_value(id: i64) -> (r: JsonValue)
    ensures
        r@ == saved_view(id),
{
    let mut m = members();
    push_member(&mut m, "ok", JsonValue::Bool(true));
    push_member(&mut m, "id", int_value(id));
    let r = object_value(m);
    assert(r@->Object_0 =~= saved_view(id)->Object_0);
    r
}

/// The `save_context` tool: stores a checkpoint for `repo_path` + `branch`.
pub fn mcp_save_context(conn: &rusqlite::Connection, args: &Vec<(String, JsonValue)>) -> (r: Result<JsonValue, ToolError>)
    ensures
        save_context_outcome(members_view(args@), r),
{
    let (scope, payload) = save_request(args)?;
    let id = match save_checkpoint(conn, &scope, &payload) {
        Ok(id) => id,
        Err(e) => {
            return Err(ToolError::Store(e));
        },
    };
    Ok(saved_value(id))
}

/// Reads the arguments of `list_context` in order, stopping at the first
/// that is malformed.
pub open spec fn list_args(a: Seq<(Seq<char>, JsonView)>) -> Result<(Seq<char>, Seq<char>, u32), ToolError> {
    if string_arg(a, ArgKey::RepoPath) is Err {
        Err(string_arg(a, ArgKey::RepoPath)->Err_0)
    } else if string_arg(a, ArgKey::Branch) is Err {
        Err(string_arg(a, ArgKey::Branch)->Err_0)
    } else if u32_arg(a, ArgKey::Limit, DEFAULT_LIST_LIMIT) is Err {
        Err(u32_arg(a, ArgKey::Limit, DEFAULT_LIST_LIMIT)->Err_0)
    } else {
        Ok(
            (
                string_arg(a, ArgKey::RepoPath)->Ok_0,
                string_arg(a, ArgKey::Branch)->Ok_0,
                u32_arg(a, ArgKey::Limit, DEFAULT_LIST_LIMIT)->Ok_0,
            ),
        )
    }
}

/// `list_context`'s answer for the listed checkpoints.
pub open spec fn items_answer_view(cs: Seq<Checkpoint>) -> JsonView {
    JsonView::Object(
        seq![("items"@, JsonView::Array(Seq::new(cs.len(), |i: int| list_item_view(cs[i]))))],
    )
}

/// What `list_context` may answer once its arguments are read: a store
/// failure, or a listing of the asked scope, newest first, within the limit.
pub open spec fn list_answer(r: Result<JsonValue, ToolError>, repo: Seq<char>, branch: Seq<char>, limit: u32) -> bool {
    match r {
        Ok(v) => exists|cs: Seq<Checkpoint>|
            listing_shape(cs, repo, branch, limit) && v@ == #[trigger] items_answer_view(cs),
        Err(ToolError::Store(e)) => e is Database || e is InvalidFilesJson,
        Err(_) => false,
    }
}

/// What `list_context` answers for the given arguments; a limit of zero is
/// refused.
pub open spec fn list_context_outcome(args: Seq<(Seq<char>, JsonView)>, r: Result<JsonValue, ToolError>) -> bool {
    match list_args(args) {
        Err(e) => r matches Err(x) && x == e,
        Ok((repo, branch, limit)) => if limit == 0 {
            r matches Err(ToolError::ZeroLimit)
        } else {
            list_answer(r, repo, branch, limit)
        },
    }
}

/// Reads the arguments of `list_context`: the scope and a limit, which may
/// not be zero.
pub fn list_request(args: &Vec<(String, JsonValue)>) -> (r: Result<(String, String, u32), ToolError>)
    ensures
        match list_args(members_view(args@)) {
            Err(e) => r matches Err(x) && x == e,
            Ok((repo, branch, limit)) => if limit == 0 {
                r matches Err(ToolError::ZeroLimit)
            } else {
                r matches Ok((a, b, l)) && a@ == repo && b@ == branch && l == limit
            },
        },
{
    let repo_path = required_string_arg(args, ArgKey::RepoPath)?;
    let branch = required_string_arg(args, ArgKey::Branch)?;
    let limit = optional_u32_arg(args, ArgKey::Limit, DEFAULT_LIST_LIMIT)?;
    if limit == 0 {
        return Err(ToolError::ZeroLimit);
    }
    Ok((repo_path, branch, limit))
}

/// `list_context`'s answer for the listed checkpoints, in their order.
pub fn list_answer_value(listed: &Vec<Checkpoint>) -> (r: JsonValue)
    ensures
        r@ == items_answer_view(listed@),
{
    let mut items: Vec<JsonValue> = Vec::new();
    let mut i: usize = 0;
    while i < listed.len()
        invariant
            i <= listed.len(),
            items@.len() == i,
            forall|j: int| 0 <= j < i ==> json_view(#[trigger] items@[j]) == list_item_view(listed@[j]),
        decreases listed.len() - i,
    {
        items.push(checkpoint_list_item(&listed[i]));
        i = i + 1;
    }
    let arr = array_value(items);
    let mut m = members();
    push_member(&mut m, "items", arr);
    let r = object_value(m);
    assert(arr@->Array_0 =~= Seq::new(listed@.len(), |i: int| list_item_view(listed@[i])));
    assert(r@->Object_0 =~= items_answer_view(listed@)->Object_0);
    r
}

/// The `list_context` tool: the recent checkpoints of `repo_path` + `branch`.
pub fn mcp_list_context(conn: &rusqlite::Connection, args: &Vec<(String, JsonValue)>) -> (r: Result<JsonValue, ToolError>)
    ensures
        list_context_outcome(members_view(args@), r),
{
    let (repo_path, branch, limit) = list_request(args)?;
    let listed = match list_checkpoints_for_scope(conn, repo_path.as_str(), branch.as_str(), limit) {
        Ok(v) => v,
        Err(e) => {
            return Err(ToolError::Store(e));
        },
    };
    Ok(list_answer_value(&listed))
}

/// The names of the server's tools, in the order it lists them.
pub open spec fn tool_names() -> Seq<Seq<char>> {
    seq!["get_context"@, "save_context"@, "list_context"@]
}

/// Whether `t` lists exactly the server's tools, each an object whose
/// `name` member names it.
pub open spec fn lists_tools(t: JsonView) -> bool {
    &&& t is Array
    &&& t->Array_0.len() == tool_names().len()
    &&& forall|i: int|
        0 <= i < tool_names().len() ==> field(#[trigger] t->Array_0[i], "name"@) == Some(
            str_view(tool_names()[i]),
        )
}

/// What `get_context` does, as the catalog describes it.
pub const GET_CONTEXT_DESCRIPTION: &'static str = "Return the latest checkpoint for repo_path + branch.";

/// What `save_context` does, as the catalog describes it.
pub const SAVE_CONTEXT_DESCRIPTION: &'static str = "Save a checkpoint for repo_path + branch. At least one of done_text, next_text, blockers_text, tests_text, or files must be provided.";

/// What `list_context` does, as the catalog describes it.
pub const LIST_CONTEXT_DESCRIPTION: &'static str = "List recent checkpoints for repo_path + branch.";

/// The catalog's description of the `repo_path` argument.
pub const REPO_PATH_DESCRIPTION: &'static str = "Absolute path to the git repo root.";

/// The catalog's description of the `branch` argument.
pub const BRANCH_DESCRIPTION: &'static str = "Git branch name.";

/// The catalog's description of the `commit_sha` argument.
pub const COMMIT_SHA_DESCRIPTION: &'static str = "Current git commit SHA.";

/// The catalog's description of the `session_id` argument.
pub const SESSION_ID_DESCRIPTION: &'static str = "Optional session identifier.";

/// The catalog's description of the `done_text` argument.
pub const DONE_TEXT_DESCRIPTION: &'static str = "Summary of completed work.";

/// The catalog's description of the `next_text` argument.
pub const NEXT_TEXT_DESCRIPTION: &'static str = "What to do next.";

/// The catalog's description of the `blockers_text` argument.
pub const BLOCKERS_TEXT_DESCRIPTION: &'static str = "Current blockers.";

/// The catalog's description of the `tests_text` argument.
pub const TESTS_TEXT_DESCRIPTION: &'static str = "Test status or commands.";

/// The catalog's description of the `files` argument.
pub const FILES_DESCRIPTION: &'static str = "Relevant file paths.";

/// The catalog's description of the `limit` argument.
pub const LIMIT_DESCRIPTION: &'static str = "Max checkpoints to return (default: 20).";

/// The schema of one argument: its JSON type and description.
pub open spec fn property_view(ty: Seq<char>, description: Seq<char>) -> JsonView {
    JsonView::Object(seq![("type"@, str_view(ty)), ("description"@, str_view(description))])
}

/// The schema of a tool's arguments: an object with exactly the given
/// properties, of which `required` must be present.
pub open spec fn input_schema_view(props: Seq<(Seq<char>, JsonView)>, required: Seq<Seq<char>>) -> JsonView {
    JsonView::Object(
        seq![
            ("type"@, str_view("object"@)),
            ("additionalProperties"@, JsonView::Bool(false)),
            ("properties"@, JsonView::Object(props)),
            ("required"@, text_array_view(required)),
        ],
    )
}

/// The catalog entry of one tool.
pub open spec fn tool_view(name: Seq<char>, description: Seq<char>, schema: JsonView) -> JsonView {
    JsonView::Object(
        seq![("name"@, str_view(name)), ("description"@, str_view(description)), ("inputSchema"@, schema)],
    )
}

/// The `repo_path` and `branch` properties that every tool takes.
pub open spec fn scope_properties() -> Seq<(Seq<char>, JsonView)> {
    seq![
        ("repo_path"@, property_view("string"@, REPO_PATH_DESCRIPTION@)),
        ("branch"@, property_view("string"@, BRANCH_DESCRIPTION@)),
    ]
}

/// The properties of `save_context`.
pub open spec fn save_properties() -> Seq<(Seq<char>, JsonView)> {
    scope_properties() + seq![
        ("commit_sha"@, property_view("string"@, COMMIT_SHA_DESCRIPTION@)),
        ("session_id"@, property_view("string"@, SESSION_ID_DESCRIPTION@)),
        ("done_text"@, property_view("string"@, DONE_TEXT_DESCRIPTION@)),
        ("next_text"@, property_view("string"@, NEXT_TEXT_DESCRIPTION@)),
        ("blockers_text"@, property_view("string"@, BLOCKERS_TEXT_DESCRIPTION@)),
        ("tests_text"@, property_view("string"@, TESTS_TEXT_DESCRIPTION@)),
        (
            "files"@,
            JsonView::Object(
                seq![
                    ("type"@, str_view("array"@)),
                    ("items"@, JsonView::Object(seq![("type"@, str_view("string"@))])),
                    ("description"@, str_view(FILES_DESCRIPTION@)),
                ],
            ),
        ),
    ]
}

/// The properties of `list_context`.
pub open spec fn list_properties() -> Seq<(Seq<char>, JsonView)> {
    scope_properties() + seq![
        (
            "limit"@,
            JsonView::Object(
                seq![
                    ("type"@, str_view("integer"@)),
                    ("minimum"@, int_view(1)),
                    ("description"@, str_view(LIMIT_DESCRIPTION@)),
                ],
            ),
        ),
    ]
}

/// The catalog of the server's tools.
pub open spec fn tool_catalog_view() -> JsonView {
    JsonView::Array(
        seq![
            tool_view(
                "get_context"@,
                GET_CONTEXT_DESCRIPTION@,
                input_schema_view(scope_properties(), seq!["repo_path"@, "branch"@]),
            ),
            tool_view(
                "save_context"@,
                SAVE_CONTEXT_DESCRIPTION@,
                input_schema_view(save_properties(), seq!["repo_path"@, "branch"@, "commit_sha"@]),
            ),
            tool_view(
                "list_context"@,
                LIST_CONTEXT_DESCRIPTION@,
                input_schema_view(list_properties(), seq!["repo_path"@, "branch"@]),
            ),
        ],
    )
}

/// The catalog lists exactly the three tools, in order, by name.
pub proof fn lemma_catalog_lists_tools()
    ensures
        lists_tools(tool_catalog_view()),
{
    let t = tool_catalog_view()->Array_0;
    assert(field(t[0], "name"@) == Some(str_view("get_context"@)));
    assert(field(t[1], "name"@) == Some(str_view("save_context"@)));
    assert(field(t[2], "name"@) == Some(str_view("list_context"@)));
}

fn typed_property(props: &mut Vec<(String, JsonValue)>, name: &str, ty: &str, description: &str)
    ensures
        members_view(final(props)@) == members_view(old(props)@).push(
            (name@, property_view(ty@, description@)),
        ),
{
    let mut p = members();
    push_member(&mut p, "type", text_value(ty));
    push_member(&mut p, "description", text_value(description));
    let pv = object_value(p);
    assert(pv@->Object_0 =~= property_view(ty@, description@)->Object_0);
    push_member(props, name, pv);
}

fn text_list(items: &[&str]) -> (r: Vec<String>)
    ensures
        texts(r@) == items@.map_values(|s: &str| s@),
{
    let mut r: Vec<String> = Vec::new();
    let mut i: usize = 0;
    while i < items.len()
        invariant
            i <= items@.len(),
            r@.len() == i,
            forall|j: int| 0 <= j < i ==> (#[trigger] r@[j])@ == items@[j]@,
        decreases items@.len() - i,
    {
        r.push(items[i].to_owned());
        i = i + 1;
    }
    assert(texts(r@) =~= items@.map_values(|s: &str| s@));
    r
}

fn input_schema(props: Vec<(String, JsonValue)>, required: &[&str]) -> (r: JsonValue)
    ensures
        r@ == input_schema_view(members_view(props@), required@.map_values(|s: &str| s@)),
{
    let ghost pv = members_view(props@);
    let mut s = members();
    push_member(&mut s, "type", text_value("object"));
    push_member(&mut s, "additionalProperties", JsonValue::Bool(false));
    push_member(&mut s, "properties", object_value(props));
    push_member(&mut s, "required", text_array_value(&text_list(required)));
    let r = object_value(s);
    assert(r@->Object_0 =~= input_schema_view(pv, required@.map_values(|s: &str| s@))->Object_0);
    r
}

fn tool_entry(name: &str, description: &str, schema: JsonValue) -> (r: JsonValue)
    ensures
        r@ == tool_view(name@, description@, schema@),
{
    let mut m = members();
    push_member(&mut m, "name", text_value(name));
    push_member(&mut m, "description", text_value(description));
    push_member(&mut m, "inputSchema", schema);
    let r = object_value(m);
    assert(r@->Object_0 =~= tool_view(name@, description@, schema@)->Object_0);
    r
}

fn scope_props() -> (r: Vec<(String, JsonValue)>)
    ensures
        members_view(r@) == scope_properties(),
{
    let mut props = members();
    typed_property(&mut props, "repo_path", "string", REPO_PATH_DESCRIPTION);
    typed_property(&mut props, "branch", "string", BRANCH_DESCRIPTION);
    assert(members_view(props@) =~= scope_properties());
    props
}

/// The catalog of the server's tools and of their arguments.
pub fn mcp_tools() -> (r: JsonValue)
    ensures
        r@ == tool_catalog_view(),
        lists_tools(r@),
{
    let get = tool_entry(
        "get_context",
        GET_CONTEXT_DESCRIPTION,
        input_schema(scope_props(), &["repo_path", "branch"]),
    );

    let mut save_props = scope_props();
    typed_property(&mut save_props, "commit_sha", "string", COMMIT_SHA_DESCRIPTION);
    typed_property(&mut save_props, "session_id", "string", SESSION_ID_DESCRIPTION);
    typed_property(&mut save_props, "done_text", "string", DONE_TEXT_DESCRIPTION);
    typed_property(&mut save_props, "next_text", "string", NEXT_TEXT_DESCRIPTION);
    typed_property(&mut save_props, "blockers_text", "string", BLOCKERS_TEXT_DESCRIPTION);
    typed_property(&mut save_props, "tests_text", "string", TESTS_TEXT_DESCRIPTION);
    let mut file_items = members();
    push_member(&mut file_items, "type", text_value("string"));
    let fi = object_value(file_items);
    let mut files = members();
    push_member(&mut files, "type", text_value("array"));
    push_member(&mut files, "items", fi);
    push_member(&mut files, "description", text_value(FILES_DESCRIPTION));
    let fv = object_value(files);
    push_member(&mut save_props, "files", fv);
    proof {
        assert(fi@->Object_0 =~= seq![("type"@, str_view("string"@))]);
        assert(fv@->Object_0 =~= save_properties().last().1->Object_0);
        assert(members_view(save_props@) =~= save_properties());
    }
    let save = tool_entry(
        "save_context",
        SAVE_CONTEXT_DESCRIPTION,
        input_schema(save_props, &["repo_path", "branch", "commit_sha"]),
    );

    let mut list_props = scope_props();
    let mut limit = members();
    push_member(&mut limit, "type", text_value("integer"));
    push_member(&mut limit, "minimum", int_value(1));
    push_member(&mut limit, "description", text_value(LIMIT_DESCRIPTION));
    let lv = object_value(limit);
    push_member(&mut list_props, "limit", lv);
    proof {
        assert(lv@->Object_0 =~= list_properties().last().1->Object_0);
        assert(members_view(list_props@) =~= list_properties());
    }
    let list = tool_entry(
        "list_context",
        LIST_CONTEXT_DESCRIPTION,
        input_schema(list_props, &["repo_path", "branch"]),
    );

    let mut tools: Vec<JsonValue> = Vec::new();
    tools.push(get);
    tools.push(save);
    tools.push(list);
    let r = array_value(tools);
    proof {
        assert(seq!["repo_path", "branch"].map_values(|s: &str| s@) =~= seq!["repo_path"@, "branch"@]);
        assert(seq!["repo_path", "branch", "commit_sha"].map_values(|s: &str| s@) =~= seq![
            "repo_path"@,
            "branch"@,
            "commit_sha"@,
        ]);
        assert(r@->Array_0 =~= tool_catalog_view()->Array_0);
        lemma_catalog_lists_tools();
    }
    r
}

/// Whether `r` is the JSON-RPC error with this code and message.
pub open spec fn rpc_error_is<T>(r: Result<T, JsonRpcError>, code: i64, message: Seq<char>) -> bool {
    r matches Err(e) && e.code == code && e.message@ == message
}

/// How a tool's outcome becomes the call's result: an answer is shown with
/// its indented JSON text; a failure becomes an error result with its
/// message.
pub open spec fn tool_result(tr: Result<JsonValue, ToolError>, r: Result<JsonValue, JsonRpcError>) -> bool {
    match tr {
        Ok(s) => r matches Ok(v) && v@ == tool_success_view(pretty_json_of(s@), s@),
        Err(e) => r matches Ok(v) && v@ == tool_error_view(tool_error_text(e)),
    }
}

/// The arguments of a tool call: the `arguments` member, or an empty object.
pub open spec fn call_arguments(params: Seq<(Seq<char>, JsonView)>) -> JsonView {
    match lookup(params, "arguments"@) {
        Some(a) => a,
        None => empty_object(),
    }
}

/// What a `tools/call` request yields for the given parameters.
pub open spec fn tools_call_outcome(params: JsonView, r: Result<JsonValue, JsonRpcError>) -> bool {
    match params {
        JsonView::Object(pm) => match string_arg(pm, ArgKey::Name) {
            Err(e) => rpc_error_is(r, -32602i64, tool_error_text(e)),
            Ok(name) => match call_arguments(pm) {
                JsonView::Object(am) => if name == "get_context"@ {
                    exists|tr: Result<JsonValue, ToolError>| #[trigger]
                        get_context_outcome(am, tr) && tool_result(tr, r)
                } else if name == "save_context"@ {
                    exists|tr: Result<JsonValue, ToolError>| #[trigger]
                        save_context_outcome(am, tr) && tool_result(tr, r)
                } else if name == "list_context"@ {
                    exists|tr: Result<JsonValue, ToolError>| #[trigger]
                        list_context_outcome(am, tr) && tool_result(tr, r)
                } else {
                    r matches Ok(v) && v@ == tool_error_view("unknown tool: "@ + name)
                },
                _ => rpc_error_is(r, -32602i64, "tools/call arguments must be an object"@),
            },
        },
        _ => rpc_error_is(r, -32602i64, "tools/call params must be an object"@),
    }
}

fn finish_tool(tr: Result<JsonValue, ToolError>) -> (r: Result<JsonValue, JsonRpcError>)
    ensures
        tool_result(tr, r),
{
    match tr {
        Ok(s) => mcp_tool_success(s),
        Err(e) => {
            let m = e.message();
            Ok(tool_error(m.as_str()))
        },
    }
}

/// Handles a `tools/call` request.
pub fn handle_mcp_tools_call(conn: &rusqlite::Connection, params: &JsonValue) -> (r: Result<JsonValue, JsonRpcError>)
    ensures
        tools_call_outcome(params@, r),
{
    let pm = match params {
        JsonValue::Object(pm) => pm,
        _ => {
            return Err(JsonRpcError::invalid_params("tools/call params must be an object"));
        },
    };
    proof {
        lemma_object_view(*pm);
    }
    let tool_name = match required_string_arg(pm, ArgKey::Name) {
        Ok(n) => n,
        Err(e) => {
            let m = e.message();
            return Err(JsonRpcError::invalid_params(m.as_str()));
        },
    };
    let empty: Vec<(String, JsonValue)> = members();
    let arguments: &Vec<(String, JsonValue)> = match get_member(pm, "arguments") {
        Some(JsonValue::Object(am)) => {
            proof {
                lemma_object_view(*am);
            }
            am
        },
        None => {
            proof {
                lemma_object_view(empty);
            }
            &empty
        },
        Some(_) => {
            return Err(JsonRpcError::invalid_params("tools/call arguments must be an object"));
        },
    };
    let ghost pmv = members_view(pm@);
    let ghost amv = members_view(arguments@);
    assert(params@ == JsonView::Object(pmv));
    assert(call_arguments(pmv) == JsonView::Object(amv));
    assert(call_arguments(pmv)->Object_0 == amv);
    assert(string_arg(pmv, ArgKey::Name)->Ok_0 == tool_name@);
    if str_eq(tool_name.as_str(), "get_context") {
        let tr = mcp_get_context(conn, arguments);
        let ghost gtr = tr;
        let r = finish_tool(tr);
        assert(get_context_outcome(call_arguments(pmv)->Object_0, gtr) && tool_result(gtr, r));
        r
    } else if str_eq(tool_name.as_str(), "save_context") {
        let tr = mcp_save_context(conn, arguments);
        let ghost gtr = tr;
        let r = finish_tool(tr);
        assert(save_context_outcome(call_arguments(pmv)->Object_0, gtr) && tool_result(gtr, r));
        r
    } else if str_eq(tool_name.as_str(), "list_context") {
        let tr = mcp_list_context(conn, arguments);
        let ghost gtr = tr;
        let r = finish_tool(tr);
        assert(list_context_outcome(call_arguments(pmv)->Object_0, gtr) && tool_result(gtr, r));
        r
    } else {
        let e = ToolError::UnknownTool(tool_name);
        let m = e.message();
        Ok(tool_error(m.as_str()))
    }
}

/// The protocol version that an `initialize` request asks for, or the
/// server's own when it names none.
pub open spec fn requested_protocol(params: JsonView) -> Seq<char> {
    match text_of(field(params, "protocolVersion"@)) {
        Some(v) => v,
        None => MCP_PROTOCOL_VERSION@,
    }
}

/// The answer to `initialize`.
pub open spec fn initialize_view(protocol: Seq<char>) -> JsonView {
    JsonView::Object(
        seq![
            ("protocolVersion"@, str_view(protocol)),
            ("capabilities"@, JsonView::Object(seq![("tools"@, empty_object())])),
            (
                "serverInfo"@,
                JsonView::Object(
                    seq![("name"@, str_view(SERVER_NAME@)), ("version"@, str_view(SERVER_VERSION@))],
                ),
            ),
        ],
    )
}

/// What a request with this method and parameters yields.
pub open spec fn request_outcome(method: Seq<char>, params: JsonView, r: Result<JsonValue, JsonRpcError>) -> bool {
    if method == "initialize"@ {
        r matches Ok(v) && v@ == initialize_view(requested_protocol(params))
    } else if method == "ping"@ {
        r matches Ok(v) && v@ == empty_object()
    } else if method == "tools/list"@ {
        r matches Ok(v) && v@ == JsonView::Object(
            seq![("tools"@, tool_catalog_view())],
        )
    } else if method == "tools/call"@ {
        tools_call_outcome(params, r)
    } else {
        rpc_error_is(r, -32601i64, "method not found: "@ + method)
    }
}

fn initialize_result(params: &JsonValue) -> (r: JsonValue)
    ensures
        r@ == initialize_view(requested_protocol(params@)),
{
    let protocol: &str = match get_field(params, "protocolVersion") {
        Some(JsonValue::Str(v)) => v.as_str(),
        _ => MCP_PROTOCOL_VERSION,
    };
    let mut caps = members();
    push_member(&mut caps, "tools", object_value(members()));
    let mut info = members();
    push_member(&mut info, "name", text_value(SERVER_NAME));
    push_member(&mut info, "version", text_value(SERVER_VERSION));
    let mut m = members();
    push_member(&mut m, "protocolVersion", text_value(protocol));
    let cv = object_value(caps);
    let iv = object_value(info);
    push_member(&mut m, "capabilities", cv);
    push_member(&mut m, "serverInfo", iv);
    let r = object_value(m);
    assert(cv@->Object_0 =~= seq![("tools"@, empty_object())]);
    assert(iv@->Object_0 =~= seq![("name"@, str_view(SERVER_NAME@)), ("version"@, str_view(SERVER_VERSION@))]);
    assert(r@->Object_0 =~= initialize_view(requested_protocol(params@))->Object_0);
    r
}

/// Handles a request with the given method and parameters.
pub fn handle_mcp_request(conn: &rusqlite::Connection, method: &str, params: &JsonValue) -> (r: Result<JsonValue, JsonRpcError>)
    ensures
        request_outcome(method@, params@, r),
{
    if str_eq(method, "initialize") {
        Ok(initialize_result(params))
    } else if str_eq(method, "ping") {
        let v = object_value(members());
        Ok(v)
    } else if str_eq(method, "tools/list") {
        let tools = mcp_tools();
        let mut m = members();
        push_member(&mut m, "tools", tools);
        let v = object_value(m);
        assert(v@->Object_0 =~= seq![("tools"@, tool_catalog_view())]);
        Ok(v)
    } else if str_eq(method, "tools/call") {
        handle_mcp_tools_call(conn, params)
    } else {
        Err(JsonRpcError::method_not_found(method))
    }
}

/// What handling one message yields.
#[derive(Debug)]
pub enum McpReply {
    /// Nothing is sent back (a notification).
    Silent,
    /// This response is sent back.
    Respond(JsonValue),
}

/// Why a message could not be handled at all.
#[derive(Debug)]
pub enum McpError {
    /// The message is not a JSON object.
    NotAnObject,
}

impl McpError {
    /// The message of this error.
    pub fn message(&self) -> (r: String)
        ensures
            r@ == "MCP message must be a JSON object"@,
    {
        "MCP message must be a JSON object".to_owned()
    }
}

/// How the outcome of request `id` becomes the reply.
pub open spec fn reply_for(id: JsonView, rr: Result<JsonValue, JsonRpcError>, r: Result<McpReply, McpError>) -> bool {
    match rr {
        Ok(v) => r matches Ok(McpReply::Respond(x)) && x@ == result_response_view(id, v@),
        Err(e) => r matches Ok(McpReply::Respond(x)) && x@ == error_response_view(id, e.code, e.message@),
    }
}

/// The parameters of a message: its `params` member, or an empty object.
pub open spec fn message_params(m: Seq<(Seq<char>, JsonView)>) -> JsonView {
    match lookup(m, "params"@) {
        Some(p) => p,
        None => empty_object(),
    }
}

/// What handling a message yields: a message with an `id` is a request and
/// gets exactly one response carrying that `id`; one without is a
/// notification and gets none.
pub open spec fn message_outcome(message: JsonView, r: Result<McpReply, McpError>) -> bool {
    match message {
        JsonView::Object(m) => match text_of(lookup(m, "method"@)) {
            None => match lookup(m, "id"@) {
                Some(id) => r matches Ok(McpReply::Respond(x)) && x@ == error_response_view(
                    id,
                    -32600i64,
                    "request is missing a string method"@,
                ),
                None => r matches Ok(McpReply::Silent),
            },
            Some(method) => match lookup(m, "id"@) {
                None => r matches Ok(McpReply::Silent),
                Some(id) => exists|rr: Result<JsonValue, JsonRpcError>| #[trigger]
                    request_outcome(method, message_params(m), rr) && reply_for(id, rr, r),
            },
        },
        _ => r matches Err(McpError::NotAnObject),
    }
}

/// Handles one incoming message.
pub fn handle_mcp_message(conn: &rusqlite::Connection, message: &JsonValue) -> (r: Result<McpReply, McpError>)
    ensures
        message_outcome(message@, r),
{
    let m = match message {
        JsonValue::Object(m) => m,
        _ => {
            return Err(McpError::NotAnObject);
        },
    };
    proof {
        lemma_object_view(*m);
    }
    let id: Option<JsonValue> = match get_member(m, "id") {
        Some(v) => Some(copy_json(v)),
        None => None,
    };
    let method: Option<&str> = match get_member(m, "method") {
        Some(JsonValue::Str(s)) => Some(s.as_str()),
        _ => None,
    };
    let empty = object_value(members());
    let params: &JsonValue = match get_member(m, "params") {
        Some(p) => p,
        None => &empty,
    };
    let ghost mv = members_view(m@);
    assert(message@ == JsonView::Object(mv));
    match method {
        None => match id {
            Some(id) => {
                let e = JsonRpcError::invalid_request("request is missing a string method");
                let resp = error_response(id, &e);
                Ok(McpReply::Respond(resp))
            },
            None => Ok(McpReply::Silent),
        },
        Some(meth) => match id {
            None => {
                handle_mcp_notification(meth);
                Ok(McpReply::Silent)
            },
            Some(id) => {
                let ghost idv = id@;
                assert(message_params(mv) == params@);
                let rr = handle_mcp_request(conn, meth, params);
                let ghost grr = rr;
                let r = match rr {
                    Ok(v) => Ok(McpReply::Respond(result_response(id, v))),
                    Err(e) => Ok(McpReply::Respond(error_response(id, &e))),
                };
                assert(reply_for(idv, grr, r));
                assert(text_of(lookup(mv, "method"@))->Some_0 == meth@);
                assert(lookup(mv, "id"@)->Some_0 == idv);
                assert(request_outcome(
                    text_of(lookup(mv, "method"@))->Some_0,
                    message_params(mv),
                    grr,
                ));
                r
            },
        },
    }
}

/// The `id` member of a response, when it carries one.
pub open spec fn reply_id(r: McpReply) -> Option<JsonView> {
    match r {
        McpReply::Silent => None,
        McpReply::Respond(x) => field(x@, "id"@),
    }
}

/// Every request (a message object with an `id` member) gets exactly one
/// response, and that response carries the request's `id`; a message object
/// without an `id` member is a notification and gets no response.
pub proof fn lemma_requests_answered_with_their_id(message: JsonView, r: Result<McpReply, McpError>)
    requires
        message_outcome(message, r),
        message is Object,
    ensures
        r is Ok,
        field(message, "id"@) is Some ==> reply_id(r->Ok_0) == field(message, "id"@),
        field(message, "id"@) is None ==> r->Ok_0 is Silent,
{
    reveal_strlit("jsonrpc");
    reveal_strlit("id");
    let m = message->Object_0;
    if let Some(id) = lookup(m, "id"@) {
        assert("jsonrpc"@ != "id"@) by {
            assert("jsonrpc"@.len() != "id"@.len());
        }
        match text_of(lookup(m, "method"@)) {
            None => {
                let x = r->Ok_0->Respond_0;
                assert(x@->Object_0.drop_first()[0] == ("id"@, id));
                assert(lookup(x@->Object_0, "id"@) == lookup(x@->Object_0.drop_first(), "id"@));
                assert(lookup(x@->Object_0.drop_first(), "id"@) == Some(id));
            },
            Some(method) => {
                let rr = choose|rr: Result<JsonValue, JsonRpcError>| #[trigger]
                    request_outcome(method, message_params(m), rr) && reply_for(id, rr, r);
                let x = r->Ok_0->Respond_0;
                assert(x@->Object_0.drop_first()[0] == ("id"@, id));
                assert(lookup(x@->Object_0, "id"@) == lookup(x@->Object_0.drop_first(), "id"@));
                assert(lookup(x@->Object_0.drop_first(), "id"@) == Some(id));
            },
        }
    }
}

/// Handles a notification; the server acts on none.
pub fn handle_mcp_notification(method: &str) {
}

} // verus!
