//! The command line: what each command asks the toolkit to do.
use vstd::prelude::*;

use crate::error::{ErrorView, RsImessageError};
use crate::text::{append_str, i64_text, int_text, owned};
use crate::types::{opt_string_view, ChatRecord, SendRequest, SendService};
use crate::watch::WatchOptions;

verus! {

/// The command line: an optional database, whether to print one JSON object
/// per line, and a command.
#[derive(Debug, PartialEq, Eq)]
pub struct Cli {
    pub db: Option<String>,
    pub json: bool,
    pub command: Commands,
}

/// The commands.
#[derive(Debug, PartialEq, Eq)]
pub enum Commands {
    Chats { limit: usize },
    Group { chat_id: i64 },
    History { chat_id: i64, limit: usize, since_rowid: Option<i64> },
    Watch { chat_id: Option<i64>, since_rowid: Option<i64>, poll_ms: u64, debounce_ms: u64 },
    Search { query: String, limit: usize },
    Send {
        to: Option<String>,
        chat_id: Option<i64>,
        chat_guid: Option<String>,
        chat_identifier: Option<String>,
        text: Option<String>,
        file: Option<String>,
    },
    Rpc,
    Serve {
        bind: String,
        token: String,
        chat_id: Option<i64>,
        since_rowid: Option<i64>,
        poll_ms: u64,
        debounce_ms: u64,
    },
}

/// What a command line asks for.
#[derive(Debug, PartialEq, Eq)]
pub enum CliPlan {
    /// Serve JSON-RPC on standard input and output.
    Rpc,
    /// Serve the HTTP bridge on `bind`, guarded by `token`, reading `db_path`
    /// and watching it with `watch`.
    Serve { db_path: String, bind: String, token: String, watch: WatchOptions },
    /// Print the `limit` most recent chats.
    ListChats { db_path: String, limit: usize },
    /// Print one chat (see `chat_or_not_found`).
    ShowChat { db_path: String, chat_id: i64 },
    /// Print the history of a chat, message by message.
    History { db_path: String, chat_id: i64, limit: usize, since_rowid: Option<i64> },
    /// Print each new message as it arrives.
    Watch { db_path: String, options: WatchOptions },
    /// Print the messages whose text holds `query`, message by message.
    Search { db_path: String, query: String, limit: usize },
    /// Send, looking chats up in `db_path`, and print the result.
    Send { db_path: String, request: SendRequest },
}

/// The database a command reads: the one given, else the default.
pub open spec fn db_choice(db: Option<String>, default_db: Seq<char>) -> Seq<char> {
    match opt_string_view(db) {
        Some(p) => p,
        None => default_db,
    }
}

/// What the command line asks for. Every command that reads the database
/// reads the one given with `--db`, else `default_db`, the database named by
/// the environment (see `paths::chat_db_from_env`).
pub fn run(cli: Cli, default_db: &str) -> (res: CliPlan)
    ensures
        match cli.command {
            Commands::Rpc => res is Rpc,
            Commands::Serve { bind, token, chat_id, since_rowid, poll_ms, debounce_ms } => res
                matches CliPlan::Serve { db_path, bind: b, token: t, watch } && db_path@
                == db_choice(cli.db, default_db@) && b == bind && t == token && watch
                == (WatchOptions { chat_id, since_rowid, poll_ms, debounce_ms }),
            Commands::Chats { limit } => res matches CliPlan::ListChats { db_path, limit: l }
                && db_path@ == db_choice(cli.db, default_db@) && l == limit,
            Commands::Group { chat_id } => res matches CliPlan::ShowChat { db_path, chat_id: c }
                && db_path@ == db_choice(cli.db, default_db@) && c == chat_id,
            Commands::History { chat_id, limit, since_rowid } => res matches CliPlan::History {
                db_path,
                chat_id: c,
                limit: l,
                since_rowid: s,
            } && db_path@ == db_choice(cli.db, default_db@) && c == chat_id && l == limit && s
                == since_rowid,
            Commands::Watch { chat_id, since_rowid, poll_ms, debounce_ms } => res
                matches CliPlan::Watch { db_path, options } && db_path@ == db_choice(
                cli.db,
                default_db@,
            ) && options == (WatchOptions { chat_id, since_rowid, poll_ms, debounce_ms }),
            Commands::Search { query, limit } => res matches CliPlan::Search {
                db_path,
                query: q,
                limit: l,
            } && db_path@ == db_choice(cli.db, default_db@) && q == query && l == limit,
            Commands::Send { to, chat_id, chat_guid, chat_identifier, text, file } => res
                matches CliPlan::Send { db_path, request } && db_path@ == db_choice(
                cli.db,
                default_db@,
            ) && request == (SendRequest {
                to,
                chat_id,
                chat_guid,
                chat_identifier,
                text,
                file,
                service: SendService::Auto,
            }),
        },
{
    let db_path = match cli.db {
        Some(p) => p,
        None => owned(default_db),
    };
    match cli.command {
        Commands::Rpc => CliPlan::Rpc,
        Commands::Serve { bind, token, chat_id, since_rowid, poll_ms, debounce_ms } => CliPlan::Serve {
            db_path,
            bind,
            token,
            watch: WatchOptions { chat_id, since_rowid, poll_ms, debounce_ms },
        },
        Commands::Chats { limit } => CliPlan::ListChats { db_path, limit },
        Commands::Group { chat_id } => CliPlan::ShowChat { db_path, chat_id },
        Commands::History { chat_id, limit, since_rowid } => CliPlan::History {
            db_path,
            chat_id,
            limit,
            since_rowid,
        },
        Commands::Watch { chat_id, since_rowid, poll_ms, debounce_ms } => CliPlan::Watch {
            db_path,
            options: WatchOptions { chat_id, since_rowid, poll_ms, debounce_ms },
        },
        Commands::Search { query, limit } => CliPlan::Search { db_path, query, limit },
        Commands::Send { to, chat_id, chat_guid, chat_identifier, text, file } => CliPlan::Send {
            db_path,
            request: SendRequest {
                to,
                chat_id,
                chat_guid,
                chat_identifier,
                text,
                file,
                service: SendService::Auto,
            },
        },
    }
}

/// The chat `group` prints: the one found, or an error naming the row id.
pub fn chat_or_not_found(chat_id: i64, found: Option<ChatRecord>) -> (res: Result<
    ChatRecord,
    RsImessageError,
>)
    ensures
        found matches Some(c) ==> res == Ok::<ChatRecord, RsImessageError>(c),
        found is None ==> (res matches Err(e) && e@ == ErrorView::Other(
            "chat "@ + int_text(chat_id as int) + " not found"@,
        )),
{
    match found {
        Some(c) => Ok(c),
        None => {
            let mut msg = owned("chat ");
            let id = i64_text(chat_id);
            append_str(&mut msg, id.as_str());
            append_str(&mut msg, " not found");
            Err(RsImessageError::Other(msg))
        },
    }
}

/// The error for a bind address that does not parse.
pub fn invalid_bind_address(detail: &str) -> (res: RsImessageError)
    ensures
        res@ == ErrorView::Other("invalid bind address: "@ + detail@),
{
    let mut msg = owned("invalid bind address: ");
    append_str(&mut msg, detail);
    RsImessageError::Other(msg)
}

} // verus!
