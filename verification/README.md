# context0

A local-first context broker for coding agents: it stores checkpoints
(what was done, what is next, blockers, tests, touched files) per
repository and branch in a SQLite file, and serves them on the command line
and as JSON-RPC tools over stdio.

Layout:

- `src/` — the verified library.
  - `text.rs`: character-level string operations (trimming, splitting,
    decimal rendering and reading, joining) specified over `Seq<char>`.
  - `json.rs`: a JSON value model with its mathematical view.
  - `checkpoint.rs`: checkpoints, payloads, and their text renderings.
  - `scope.rs`: how overrides and `git` answers settle a repository/branch
    scope, and the fallback warning.
  - `store.rs`: the SQLite checkpoint store.
  - `framing.rs`: the `Content-Length` message framing of the tool protocol.
  - `codec.rs`: decoding a message body and encoding messages and tool
    answers as JSON text, by `serde_json`.
  - `mcp.rs`: request dispatch, tool argument checking and the three tools.
  - `error.rs`: the store's error type.
- `app/main.rs` — the command line, `git` processes, terminal output, the
  file system, and the stdio server loop.
- `tests/` — tests of the library against the real SQLite, `serde_json`
  and `chrono`.
