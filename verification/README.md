# rs_imessage

An agent-first iMessage toolkit for macOS: it reads Messages' `chat.db`,
follows new messages, sends through Messages.app with AppleScript, and
serves an HTTP bridge and JSON-RPC over standard input and output. For the
optional private-API bridge library it holds the steps of relaunching
Messages with the library and of each request to it; the names of the
bridge's files and actions are supplied by whoever runs those steps.

The library in `src/` holds the toolkit's decisions, each verified with Verus
against its contract: the SQL it runs and how rows become records, the
AppleScript it builds, the steps of a send, a watch, a bridge launch and a
bridge request, the routing of RPC calls, and who may use the HTTP bridge.
Work with the outside world (the database, files, processes, sockets, the
clock) is left to the caller, which hands the outcomes back; sessions such as
`SendSession`, `LaunchSession` and `InvokeSession` say what to do next.

A `Client` names the queries behind its reads (`list_chats`, `history`,
`search`) and starts watches and sends; the caller runs the queries and
hands back the rows, which `db` turns into records.

`app/` is the `rs_imessage` command built on the library: clap for the
command line, rusqlite for the database, notify for file events, axum for
the HTTP bridge and serde for JSON. It does not use the private API.

Layout:

- `src/send`: AppleScript building and the send session, with its laws.
- `src/db.rs`, `src/watch.rs`, `src/time.rs`: queries, row reading, watching.
- `src/rpc.rs`, `src/http.rs`, `src/cli.rs`: the three front ends.
- `src/private_api`: paths, SIP check, launch and request sessions, laws.
- `src/text.rs`, `src/json.rs`: strings and JSON values with their specs.
