//! The handle through which a program uses the toolkit.
use vstd::prelude::*;

use crate::error::{ErrorView, RsImessageError};
use crate::paths::{chat_db_from_env, chat_db_text};
use crate::private_api::bridge::BridgeClient;
use crate::private_api::launcher::{
    launch_setup, LaunchAction, LaunchActionView, LaunchPhase, LaunchSession,
    DYLIB_NOT_FOUND_TEXT,
};
use crate::private_api::paths::BridgeLayout;
use crate::send::apple::{send_start, send_with_db, SendAction, SendSession};
use crate::db::{
    history_query, limit_param, list_chats_query, params_view, search_pattern, search_query,
    SqlParamView, SqlQuery, HISTORY_LATEST_TAIL_SQL, HISTORY_SELECT_SQL, HISTORY_SINCE_TAIL_SQL,
    LIST_CHATS_SQL, SEARCH_SQL,
};
use crate::types::{opt_string_view, SendRequest};
use crate::watch::{
    start_cursor, WatchAction, WatchActionView, WatchOptions, WatchPhase, WatchSession,
    MIN_DEBOUNCE_MS, MIN_POLL_MS,
};

verus! {

/// Which database a client reads.
#[derive(Debug, Clone, PartialEq, Eq)]
pub struct ClientConfig {
    pub chat_db_path: String,
}

impl ClientConfig {
    /// The configuration a client gets by default: the database named by
    /// `$RS_IMESSAGE_DB`, else by the legacy `$RS_IMSG_DB`, else
    /// `~/Library/Messages/chat.db` under `home`.
    pub fn from_env(rs_imessage_db: Option<String>, rs_imsg_db: Option<String>, home: &str) -> (res: ClientConfig)
        ensures
            res.chat_db_path@ == match opt_string_view(rs_imessage_db) {
                Some(p) => p,
                None => match opt_string_view(rs_imsg_db) {
                    Some(p) => p,
                    None => chat_db_text(home@),
                },
            },
    {
        ClientConfig { chat_db_path: chat_db_from_env(rs_imessage_db, rs_imsg_db, home) }
    }
}

/// A client bound to one database.
#[derive(Debug, Clone, PartialEq, Eq)]
pub struct Client {
    db_path: String,
}

impl Client {
    /// The database this client reads.
    pub closed spec fn db_path_view(&self) -> Seq<char> {
        self.db_path@
    }

    /// Opens a client on the configured database. `store` is the outcome of
    /// opening that database: a client is made exactly when it opened, and
    /// otherwise its error is returned.
    pub fn open(config: ClientConfig, store: Result<(), RsImessageError>) -> (res: Result<
        Client,
        RsImessageError,
    >)
        ensures
            store is Ok <==> res is Ok,
            res matches Ok(c) ==> c.db_path_view() == config.chat_db_path@,
            store matches Err(e) ==> (res matches Err(r) && r@ == e@),
    {
        match store {
            Ok(()) => Ok(Client { db_path: config.chat_db_path }),
            Err(e) => Err(e),
        }
    }

    /// The database this client reads.
    pub fn db_path(&self) -> (res: &str)
        ensures
            res@ == self.db_path_view(),
    {
        self.db_path.as_str()
    }

    /// What `list_chats` reads: the query to run against this client's
    /// database for the `limit` most recent chats (see `db::list_chats_query`);
    /// each row becomes a chat through `db::chat_record`.
    pub fn list_chats(&self, limit: usize) -> (res: SqlQuery)
        ensures
            res.sql@ == LIST_CHATS_SQL@,
            params_view(res.params@) == seq![SqlParamView::Int(limit_param(limit))],
    {
        list_chats_query(limit)
    }

    /// What `history` reads: the query for a chat's messages (see
    /// `db::history_query`); the rows are put oldest first by
    /// `db::arrange_history`.
    pub fn history(&self, chat_id: i64, limit: usize, since_rowid: Option<i64>) -> (res: SqlQuery)
        ensures
            since_rowid matches Some(since) ==> {
                &&& res.sql@ == HISTORY_SELECT_SQL@ + HISTORY_SINCE_TAIL_SQL@
                &&& params_view(res.params@) == seq![
                    SqlParamView::Int(chat_id),
                    SqlParamView::Int(since),
                    SqlParamView::Int(limit_param(limit)),
                ]
            },
            since_rowid is None ==> {
                &&& res.sql@ == HISTORY_SELECT_SQL@ + HISTORY_LATEST_TAIL_SQL@
                &&& params_view(res.params@) == seq![
                    SqlParamView::Int(chat_id),
                    SqlParamView::Int(limit_param(limit)),
                ]
            },
    {
        history_query(chat_id, limit, since_rowid)
    }

    /// What `search` reads: the query for messages whose text holds `query`
    /// (see `db::search_query`).
    pub fn search(&self, query: &str, limit: usize) -> (res: SqlQuery)
        ensures
            res.sql@ == SEARCH_SQL@,
            params_view(res.params@) == seq![
                SqlParamView::Text(search_pattern(query@)),
                SqlParamView::Int(limit_param(limit)),
            ],
    {
        search_query(query, limit)
    }

    /// Starts watching this client's database with `options`; `newest` is
    /// the outcome of reading the newest message row id, when `options` asks
    /// for it (see `WatchSession::start`).
    pub fn watch(&self, options: &WatchOptions, newest: Option<Result<i64, RsImessageError>>) -> (res: (
        WatchSession,
        WatchAction,
    ))
        ensures
            res.0.cursor_view() == start_cursor(options.since_rowid, newest),
            res.0.chat_view() == options.chat_id,
            res.0.poll_view() == (if options.poll_ms >= MIN_POLL_MS {
                options.poll_ms
            } else {
                MIN_POLL_MS
            }),
            res.0.settle_view() == (if options.debounce_ms >= MIN_DEBOUNCE_MS {
                options.debounce_ms
            } else {
                MIN_DEBOUNCE_MS
            }),
            res.0.phase() == WatchPhase::Waiting,
            res.1@ == (WatchActionView::AwaitChange { timeout_ms: res.0.poll_view() }),
    {
        WatchSession::start(options, newest)
    }

    /// Starts sending `request` with this client's database.
    pub fn send(&self, request: &SendRequest) -> (res: (SendSession, SendAction))
        ensures
            res.0.request_view() == request@,
            (res.0.phase_view(), res.1@) == send_start(request@, self.db_path_view()),
    {
        send_with_db(request, self.db_path.as_str())
    }

    /// Starts connecting to the private-API bridge (see
    /// `BridgeClient::connect`).
    pub fn bridge(&self, resolved: Option<String>, dylib_name: &str, home: &str, layout: &BridgeLayout) -> (res:
        Result<(LaunchSession, LaunchAction), RsImessageError>)
        ensures
            resolved is None <==> res is Err,
            res matches Err(e) ==> e@ == ErrorView::PrivateApi(dylib_name@ + DYLIB_NOT_FOUND_TEXT@),
            res matches Ok(started) ==> {
                &&& opt_string_view(resolved) == Some(started.0.setup().dylib)
                &&& started.0.setup() == launch_setup(started.0.setup().dylib, home@, layout@)
                &&& started.0.phase() == LaunchPhase::CheckingReady
                &&& !started.0.launched()
                &&& started.1@ == (LaunchActionView::CheckReady { lock: started.0.setup().lock })
            },
    {
        BridgeClient::connect(resolved, dylib_name, home, layout)
    }
}

} // verus!
