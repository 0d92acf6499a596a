//! JSON-RPC 2.0 over lines of standard input and output. A request is
//! checked, the database is opened, the method is routed and its arguments
//! read; the caller carries out the call and the answer is framed here.
use vstd::prelude::*;

use crate::error::{error_text, ErrorView, RsImessageError};
use crate::json::{i64_of, lookup, str_of, u64_of, JsonNumber, JsonValue};
use crate::text::{append_str, owned, str_eq};
use crate::watch::WatchOptions;

verus! {

pub const JSONRPC_VERSION: &'static str = "2.0";

/// The request could not be parsed.
pub const PARSE_ERROR: i32 = -32700;

/// The request is not a valid JSON-RPC 2.0 request.
pub const INVALID_REQUEST: i32 = -32600;

/// The method failed.
pub const SERVER_ERROR: i32 = -32000;

pub const DEFAULT_CHATS_LIMIT: u64 = 20;

pub const DEFAULT_MESSAGES_LIMIT: u64 = 50;

pub const DEFAULT_POLL_MS: u64 = 500;

pub const DEFAULT_DEBOUNCE_MS: u64 = 300;

/// A request as read from one line.
#[derive(Debug, PartialEq, Eq)]
pub struct RpcRequest {
    pub jsonrpc: String,
    pub id: Option<JsonValue>,
    pub method: String,
    pub params: JsonValue,
}

/// The error member of a response.
#[derive(Debug, Clone, PartialEq, Eq)]
pub struct RpcErrorObj {
    pub code: i32,
    pub message: String,
}

/// A response: a result or an error, under the request's id.
#[derive(Debug, PartialEq, Eq)]
pub struct RpcResponse {
    pub jsonrpc: String,
    pub id: JsonValue,
    pub result: Option<JsonValue>,
    pub error: Option<RpcErrorObj>,
}

/// A response that carries an error with this code and message.
pub open spec fn is_error_response(r: RpcResponse, id: JsonValue, code: i32, message: Seq<char>) -> bool {
    &&& r.jsonrpc@ == JSONRPC_VERSION@
    &&& r.id == id
    &&& r.result is None
    &&& r.error matches Some(e) && e.code == code && e.message@ == message
}

/// An error response.
pub fn err(id: JsonValue, code: i32, message: String) -> (res: RpcResponse)
    ensures
        is_error_response(res, id, code, message@),
{
    RpcResponse {
        jsonrpc: owned(JSONRPC_VERSION),
        id,
        result: None,
        error: Some(RpcErrorObj { code, message }),
    }
}

/// The answer to a line that is not a request.
pub fn parse_error(detail: &str) -> (res: RpcResponse)
    ensures
        is_error_response(res, JsonValue::Null, PARSE_ERROR, "parse error: "@ + detail@),
{
    let mut message = owned("parse error: ");
    append_str(&mut message, detail);
    err(JsonValue::Null, PARSE_ERROR, message)
}

/// The id a response carries: the request's, or null.
pub open spec fn response_id(id: Option<JsonValue>) -> JsonValue {
    match id {
        Some(v) => v,
        None => JsonValue::Null,
    }
}

/// A request whose version checked out, waiting for the database.
#[derive(Debug, PartialEq, Eq)]
pub struct RpcPending {
    pub id: JsonValue,
    pub method: String,
    pub params: JsonValue,
}

/// Checks a request: one that does not speak JSON-RPC 2.0 is answered at
/// once with `invalid jsonrpc version`; any other waits for the database.
pub fn handle_request(req: RpcRequest) -> (res: Result<RpcPending, RpcResponse>)
    ensures
        req.jsonrpc@ == JSONRPC_VERSION@ ==> (res matches Ok(p) && p.id == response_id(req.id)
            && p.method == req.method && p.params == req.params),
        req.jsonrpc@ != JSONRPC_VERSION@ ==> (res matches Err(r) && is_error_response(
            r,
            response_id(req.id),
            INVALID_REQUEST,
            "invalid jsonrpc version"@,
        )),
{
    let id = match req.id {
        Some(v) => v,
        None => JsonValue::Null,
    };
    if !str_eq(req.jsonrpc.as_str(), JSONRPC_VERSION) {
        return Err(err(id, INVALID_REQUEST, owned("invalid jsonrpc version")));
    }
    Ok(RpcPending { id, method: req.method, params: req.params })
}

/// What a routed request asks the toolkit to do.
#[derive(Debug, PartialEq, Eq)]
pub enum RpcCall {
    ChatsList { limit: usize },
    MessagesHistory { chat_id: i64, limit: usize, since_rowid: Option<i64> },
    MessagesSearch { query: String, limit: usize },
    /// Decode the parameters as a send request and send it.
    Send { params: JsonValue },
    /// Watch, writing each event as a line, until the watch fails.
    WatchSubscribe { options: WatchOptions },
}

/// A routed call as a mathematical value.
pub enum RpcCallView {
    ChatsList { limit: usize },
    MessagesHistory { chat_id: i64, limit: usize, since_rowid: Option<i64> },
    MessagesSearch { query: Seq<char>, limit: usize },
    Send { params: JsonValue },
    WatchSubscribe { options: WatchOptions },
}

impl View for RpcCall {
    type V = RpcCallView;

    open spec fn view(&self) -> RpcCallView {
        match self {
            RpcCall::ChatsList { limit } => RpcCallView::ChatsList { limit: *limit },
            RpcCall::MessagesHistory { chat_id, limit, since_rowid } => RpcCallView::MessagesHistory {
                chat_id: *chat_id,
                limit: *limit,
                since_rowid: *since_rowid,
            },
            RpcCall::MessagesSearch { query, limit } => RpcCallView::MessagesSearch {
                query: query@,
                limit: *limit,
            },
            RpcCall::Send { params } => RpcCallView::Send { params: *params },
            RpcCall::WatchSubscribe { options } => RpcCallView::WatchSubscribe {
                options: *options,
            },
        }
    }
}

/// An optional non-negative integer argument, else a default.
pub open spec fn u64_arg(params: JsonValue, key: Seq<char>, default: u64) -> u64 {
    match u64_of(lookup(params, key)) {
        Some(n) => n,
        None => default,
    }
}

/// A row count argument.
pub open spec fn limit_arg(params: JsonValue, default: u64) -> usize {
    u64_arg(params, "limit"@, default) as usize
}

/// The call a method names, with its arguments read from `params`, or the
/// error a missing argument or an unknown method gives.
pub open spec fn route(method: Seq<char>, params: JsonValue) -> Result<RpcCallView, ErrorView> {
    if method == "chats.list"@ {
        Ok(RpcCallView::ChatsList { limit: limit_arg(params, DEFAULT_CHATS_LIMIT) })
    } else if method == "messages.history"@ {
        match i64_of(lookup(params, "chat_id"@)) {
            Some(chat_id) => Ok(
                RpcCallView::MessagesHistory {
                    chat_id,
                    limit: limit_arg(params, DEFAULT_MESSAGES_LIMIT),
                    since_rowid: i64_of(lookup(params, "since_rowid"@)),
                },
            ),
            None => Err(ErrorView::Rpc("messages.history requires chat_id"@)),
        }
    } else if method == "messages.search"@ {
        match str_of(lookup(params, "query"@)) {
            Some(query) => Ok(
                RpcCallView::MessagesSearch {
                    query,
                    limit: limit_arg(params, DEFAULT_MESSAGES_LIMIT),
                },
            ),
            None => Err(ErrorView::Rpc("messages.search requires query"@)),
        }
    } else if method == "send"@ {
        Ok(RpcCallView::Send { params })
    } else if method == "watch.subscribe"@ {
        Ok(
            RpcCallView::WatchSubscribe {
                options: WatchOptions {
                    chat_id: i64_of(lookup(params, "chat_id"@)),
                    since_rowid: i64_of(lookup(params, "since_rowid"@)),
                    poll_ms: u64_arg(params, "poll_ms"@, DEFAULT_POLL_MS),
                    debounce_ms: u64_arg(params, "debounce_ms"@, DEFAULT_DEBOUNCE_MS),
                },
            },
        )
    } else {
        Err(ErrorView::Rpc("unknown method: "@ + method))
    }
}

fn u64_param(params: &JsonValue, key: &str, default: u64) -> (res: u64)
    ensures
        res == u64_arg(*params, key@, default),
{
    match params.get(key) {
        Some(v) => match v.as_u64() {
            Some(n) => n,
            None => default,
        },
        None => default,
    }
}

fn i64_param(params: &JsonValue, key: &str) -> (res: Option<i64>)
    ensures
        res == i64_of(lookup(*params, key@)),
{
    match params.get(key) {
        Some(v) => v.as_i64(),
        None => None,
    }
}

fn limit_param(params: &JsonValue, default: u64) -> (res: usize)
    ensures
        res == limit_arg(*params, default),
{
    proof {
        reveal_strlit("limit");
    }
    u64_param(params, "limit", default) as usize
}

/// The view of a routing outcome.
pub open spec fn route_view(r: Result<RpcCall, RsImessageError>) -> Result<RpcCallView, ErrorView> {
    match r {
        Ok(c) => Ok(c@),
        Err(e) => Err(e@),
    }
}

/// Routes a method to its call.
pub fn dispatch(method: &str, params: JsonValue) -> (res: Result<RpcCall, RsImessageError>)
    ensures
        route_view(res) == route(method@, params),
{
    if str_eq(method, "chats.list") {
        let limit = limit_param(&params, DEFAULT_CHATS_LIMIT);
        Ok(RpcCall::ChatsList { limit })
    } else if str_eq(method, "messages.history") {
        match i64_param(&params, "chat_id") {
            Some(chat_id) => {
                let limit = limit_param(&params, DEFAULT_MESSAGES_LIMIT);
                let since_rowid = i64_param(&params, "since_rowid");
                Ok(RpcCall::MessagesHistory { chat_id, limit, since_rowid })
            },
            None => Err(RsImessageError::Rpc(owned("messages.history requires chat_id"))),
        }
    } else if str_eq(method, "messages.search") {
        let limit = limit_param(&params, DEFAULT_MESSAGES_LIMIT);
        let query = match params.get("query") {
            Some(v) => match v.as_str() {
                Some(q) => Some(owned(q)),
                None => None,
            },
            None => None,
        };
        match query {
            Some(query) => Ok(RpcCall::MessagesSearch { query, limit }),
            None => Err(RsImessageError::Rpc(owned("messages.search requires query"))),
        }
    } else if str_eq(method, "send") {
        Ok(RpcCall::Send { params })
    } else if str_eq(method, "watch.subscribe") {
        let chat_id = i64_param(&params, "chat_id");
        let since_rowid = i64_param(&params, "since_rowid");
        let poll_ms = u64_param(&params, "poll_ms", DEFAULT_POLL_MS);
        let debounce_ms = u64_param(&params, "debounce_ms", DEFAULT_DEBOUNCE_MS);
        Ok(
            RpcCall::WatchSubscribe {
                options: WatchOptions { chat_id, since_rowid, poll_ms, debounce_ms },
            },
        )
    } else {
        let mut msg = owned("unknown method: ");
        append_str(&mut msg, method);
        Err(RsImessageError::Rpc(msg))
    }
}

impl RpcPending {
    /// Goes on once the database has been opened (`store`): a failure to
    /// open it is answered with its error; otherwise the method is routed,
    /// and a routing failure is answered with its error.
    pub fn open_and_route(self, store: Result<(), RsImessageError>) -> (res: Result<
        (JsonValue, RpcCall),
        RpcResponse,
    >)
        ensures
            store matches Err(e) ==> (res matches Err(r) && is_error_response(
                r,
                self.id,
                SERVER_ERROR,
                error_text(e@),
            )),
            store is Ok ==> match route(self.method@, self.params) {
                Ok(c) => res matches Ok(p) && p.0 == self.id && p.1@ == c,
                Err(e) => res matches Err(r) && is_error_response(
                    r,
                    self.id,
                    SERVER_ERROR,
                    error_text(e),
                ),
            },
    {
        if let Err(e) = store {
            return Err(err(self.id, SERVER_ERROR, e.message()));
        }
        match dispatch(self.method.as_str(), self.params) {
            Ok(call) => Ok((self.id, call)),
            Err(e) => Err(err(self.id, SERVER_ERROR, e.message())),
        }
    }
}

/// The answer to a call: its result, or its error under code -32000.
pub fn respond(id: JsonValue, outcome: Result<JsonValue, RsImessageError>) -> (res: RpcResponse)
    ensures
        outcome matches Ok(v) ==> (res.jsonrpc@ == JSONRPC_VERSION@ && res.id == id && res.result
            == Some(v) && res.error is None),
        outcome matches Err(e) ==> is_error_response(res, id, SERVER_ERROR, error_text(e@)),
{
    match outcome {
        Ok(v) => RpcResponse { jsonrpc: owned(JSONRPC_VERSION), id, result: Some(v), error: None },
        Err(e) => err(id, SERVER_ERROR, e.message()),
    }
}

/// The method names differ from one another.
proof fn lemma_methods_distinct()
    ensures
        "messages.history"@ != "chats.list"@,
        "messages.search"@ != "chats.list"@,
        "messages.search"@ != "messages.history"@,
        "send"@ != "chats.list"@,
        "send"@ != "messages.history"@,
        "send"@ != "messages.search"@,
        "watch.subscribe"@ != "chats.list"@,
        "watch.subscribe"@ != "messages.history"@,
        "watch.subscribe"@ != "messages.search"@,
        "watch.subscribe"@ != "send"@,
{
    reveal_strlit("chats.list");
    reveal_strlit("messages.history");
    reveal_strlit("messages.search");
    reveal_strlit("send");
    reveal_strlit("watch.subscribe");
    assert("chats.list"@.len() == 10);
    assert("messages.history"@.len() == 16);
    assert("messages.search"@.len() == 15);
    assert("send"@.len() == 4);
    assert("watch.subscribe"@.len() == 15);
    assert("messages.search"@[0] != "watch.subscribe"@[0]);
}

/// A method that takes a limit reads it from a `limit` member holding a
/// non-negative integer: `chats.list` always, `messages.history` when the
/// chat is given, `messages.search` when the query is given.
pub proof fn law_rpc_limit_honoured(params: JsonValue, n: u64, chat: u64, query: String)
    requires
        lookup(params, "limit"@) == Some(JsonValue::Number(JsonNumber::PosInt(n))),
    ensures
        route("chats.list"@, params) == Ok::<RpcCallView, ErrorView>(
            RpcCallView::ChatsList { limit: n as usize },
        ),
        (chat <= i64::MAX && lookup(params, "chat_id"@) == Some(
            JsonValue::Number(JsonNumber::PosInt(chat)),
        )) ==> (route("messages.history"@, params) matches Ok(
            RpcCallView::MessagesHistory { chat_id, limit, .. },
        ) && chat_id == chat as i64 && limit == n as usize),
        lookup(params, "query"@) == Some(JsonValue::String(query)) ==> (route(
            "messages.search"@,
            params,
        ) matches Ok(RpcCallView::MessagesSearch { query: q, limit }) && q == query@ && limit
            == n as usize),
{
    lemma_methods_distinct();
}

/// Where no `limit` member holding a non-negative integer is given, the
/// default applies: 20 chats, 50 messages.
pub proof fn law_rpc_limit_default(params: JsonValue, chat: i64, query: String)
    requires
        !(lookup(params, "limit"@) matches Some(JsonValue::Number(JsonNumber::PosInt(_)))),
    ensures
        route("chats.list"@, params) == Ok::<RpcCallView, ErrorView>(
            RpcCallView::ChatsList { limit: 20 },
        ),
        lookup(params, "chat_id"@) == Some(JsonValue::Number(JsonNumber::NegInt(chat))) ==> (route(
            "messages.history"@,
            params,
        ) matches Ok(RpcCallView::MessagesHistory { chat_id, limit, .. }) && chat_id == chat
            && limit == 50),
        lookup(params, "query"@) == Some(JsonValue::String(query)) ==> (route(
            "messages.search"@,
            params,
        ) matches Ok(RpcCallView::MessagesSearch { query: q, limit }) && q == query@ && limit
            == 50),
{
    lemma_methods_distinct();
}

/// `watch.subscribe` always routes, and reads its chat and its starting row
/// from the `chat_id` and `since_rowid` members when they hold integers
/// (none when they are absent), its intervals from `poll_ms` and
/// `debounce_ms` (500 and 300 ms when absent). `messages.history` reads its
/// starting row the same way.
pub proof fn law_rpc_watch_arguments(params: JsonValue, since: i64, chat: i64, poll: u64)
    ensures
        route("watch.subscribe"@, params) matches Ok(RpcCallView::WatchSubscribe { options }) && {
            &&& lookup(params, "since_rowid"@) == Some(JsonValue::Number(JsonNumber::NegInt(since)))
                ==> options.since_rowid == Some(since)
            &&& (since >= 0 && lookup(params, "since_rowid"@) == Some(
                JsonValue::Number(JsonNumber::PosInt(since as u64)),
            )) ==> options.since_rowid == Some(since)
            &&& lookup(params, "since_rowid"@) is None ==> options.since_rowid is None
            &&& lookup(params, "chat_id"@) == Some(JsonValue::Number(JsonNumber::NegInt(chat)))
                ==> options.chat_id == Some(chat)
            &&& (chat >= 0 && lookup(params, "chat_id"@) == Some(
                JsonValue::Number(JsonNumber::PosInt(chat as u64)),
            )) ==> options.chat_id == Some(chat)
            &&& lookup(params, "chat_id"@) is None ==> options.chat_id is None
            &&& lookup(params, "poll_ms"@) == Some(JsonValue::Number(JsonNumber::PosInt(poll)))
                ==> options.poll_ms == poll
            &&& lookup(params, "poll_ms"@) is None ==> options.poll_ms == 500
            &&& lookup(params, "debounce_ms"@) == Some(JsonValue::Number(JsonNumber::PosInt(poll)))
                ==> options.debounce_ms == poll
            &&& lookup(params, "debounce_ms"@) is None ==> options.debounce_ms == 300
        },
        (since >= 0 && lookup(params, "since_rowid"@) == Some(
            JsonValue::Number(JsonNumber::PosInt(since as u64)),
        ) && lookup(params, "chat_id"@) == Some(JsonValue::Number(JsonNumber::NegInt(chat))))
            ==> (route("messages.history"@, params) matches Ok(
            RpcCallView::MessagesHistory { since_rowid, .. },
        ) && since_rowid == Some(since)),
{
    lemma_methods_distinct();
}

} // verus!
