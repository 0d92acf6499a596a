//! The HTTP bridge's decisions: who may call it, which limits its routes
//! read with, and how each answer is wrapped. Listening, routing and
//! streaming are left to the server that calls these.
use vstd::prelude::*;

use crate::error::RsImessageError;
use crate::send::script::opt_str_view;
use crate::text::{occurs_at, owned, strip_prefix, trim, trimmed};

verus! {

/// The status of a successful answer.
pub const OK_STATUS: u16 = 200;

/// The message of a successful answer.
pub const SUCCESS_TEXT: &'static str = "Success";

/// The status of a request without a valid token.
pub const UNAUTHORIZED: u16 = 401;

/// The status of a request the toolkit failed to serve.
pub const INTERNAL_SERVER_ERROR: u16 = 500;

/// What `/health` answers.
pub const HEALTH_TEXT: &'static str = "ok";

/// What `/api/v1/ping` carries.
pub const PONG_TEXT: &'static str = "pong";

/// How many chats `/api/v1/chats` lists when no limit is given.
pub const CHATS_DEFAULT_LIMIT: usize = 20;

/// How many messages `/api/v1/messages/history` reads when no limit is given.
pub const HISTORY_DEFAULT_LIMIT: usize = 50;

/// What an `Authorization` header must start with to carry a token.
pub const BEARER_PREFIX: &'static str = "Bearer ";

/// The token an `Authorization` header carries: what follows `Bearer `,
/// without surrounding white space.
pub open spec fn bearer_token(header: Option<Seq<char>>) -> Option<Seq<char>> {
    match header {
        Some(h) => if occurs_at(h, BEARER_PREFIX@, 0) {
            Some(trimmed(h.skip(BEARER_PREFIX@.len() as int)))
        } else {
            None
        },
        None => None,
    }
}

/// The token a request presents: the header's when it carries one, else
/// the `token` query parameter, else nothing.
pub open spec fn presented_token(header: Option<Seq<char>>, query: Option<Seq<char>>) -> Seq<
    char,
> {
    match bearer_token(header) {
        Some(t) => t,
        None => match query {
            Some(q) => q,
            None => Seq::empty(),
        },
    }
}

/// Whether a request may use the bridge: it presents a token, and that
/// token is the configured one.
pub open spec fn authorized(
    header: Option<Seq<char>>,
    query: Option<Seq<char>>,
    expected: Seq<char>,
) -> bool {
    let t = presented_token(header, query);
    t.len() > 0 && t == expected
}

/// Decides whether a request may use the bridge, given its `Authorization`
/// header (when it is text), its `token` query parameter and the
/// configured token.
pub fn authorize(authorization: Option<&str>, query_token: Option<&str>, expected: &str) -> (res:
    bool)
    ensures
        res == authorized(opt_str_view(authorization), opt_str_view(query_token), expected@),
{
    let from_header: Option<String> = match authorization {
        Some(h) => match strip_prefix(h, BEARER_PREFIX) {
            Some(rest) => Some(trim(rest.as_str())),
            None => None,
        },
        None => None,
    };
    let token: String = match from_header {
        Some(t) => t,
        None => match query_token {
            Some(q) => owned(q),
            None => String::new(),
        },
    };
    let t = token.as_str();
    if t.is_empty() {
        return false;
    }
    crate::text::str_eq(t, expected)
}

/// An answer of the bridge: a status, a message and what was asked for.
#[derive(Debug, Clone, PartialEq, Eq)]
pub struct Envelope<T> {
    pub status: u16,
    pub message: String,
    pub data: T,
}

/// Wraps `data` in a successful answer.
pub fn ok<T>(data: T) -> (res: Envelope<T>)
    ensures
        res.status == OK_STATUS,
        res.message@ == SUCCESS_TEXT@,
        res.data == data,
{
    Envelope { status: OK_STATUS, message: owned(SUCCESS_TEXT), data }
}

/// What `/api/v1/ping`, the bridge's authentication check, answers:
/// `pong` to an authorized request, 401 to any other.
pub fn ping(authorization: Option<&str>, query_token: Option<&str>, expected: &str) -> (res: Result<
    Envelope<&'static str>,
    u16,
>)
    ensures
        authorized(opt_str_view(authorization), opt_str_view(query_token), expected@) <==> res
            is Ok,
        res matches Ok(env) ==> (env.status == OK_STATUS && env.message@ == SUCCESS_TEXT@
            && env.data@ == PONG_TEXT@),
        res matches Err(s) ==> s == UNAUTHORIZED,
{
    if authorize(authorization, query_token, expected) {
        Ok(ok(PONG_TEXT))
    } else {
        Err(UNAUTHORIZED)
    }
}

/// The limit a route reads with: the one asked for, else the route's
/// default.
pub open spec fn limit_or(limit: Option<usize>, default: usize) -> usize {
    match limit {
        Some(l) => l,
        None => default,
    }
}

/// The first step of `/api/v1/chats`: refuse an unauthorized request with
/// 401, else the number of chats to list.
pub fn chats_request(
    authorization: Option<&str>,
    query_token: Option<&str>,
    expected: &str,
    limit: Option<usize>,
) -> (res: Result<usize, u16>)
    ensures
        authorized(opt_str_view(authorization), opt_str_view(query_token), expected@) ==> res
            == Ok::<usize, u16>(limit_or(limit, CHATS_DEFAULT_LIMIT)),
        !authorized(opt_str_view(authorization), opt_str_view(query_token), expected@) ==> res
            == Err::<usize, u16>(UNAUTHORIZED),
{
    if !authorize(authorization, query_token, expected) {
        return Err(UNAUTHORIZED);
    }
    match limit {
        Some(l) => Ok(l),
        None => Ok(CHATS_DEFAULT_LIMIT),
    }
}

/// The first step of `/api/v1/messages/history`: refuse an unauthorized
/// request with 401, else the number of messages to read.
pub fn history_request(
    authorization: Option<&str>,
    query_token: Option<&str>,
    expected: &str,
    limit: Option<usize>,
) -> (res: Result<usize, u16>)
    ensures
        authorized(opt_str_view(authorization), opt_str_view(query_token), expected@) ==> res
            == Ok::<usize, u16>(limit_or(limit, HISTORY_DEFAULT_LIMIT)),
        !authorized(opt_str_view(authorization), opt_str_view(query_token), expected@) ==> res
            == Err::<usize, u16>(UNAUTHORIZED),
{
    if !authorize(authorization, query_token, expected) {
        return Err(UNAUTHORIZED);
    }
    match limit {
        Some(l) => Ok(l),
        None => Ok(HISTORY_DEFAULT_LIMIT),
    }
}

/// The first step of `/api/v1/messages/send` and `/api/v1/events`:
/// refuse an unauthorized request with 401.
pub fn gate(authorization: Option<&str>, query_token: Option<&str>, expected: &str) -> (res:
    Result<(), u16>)
    ensures
        authorized(opt_str_view(authorization), opt_str_view(query_token), expected@) <==> res
            is Ok,
        res matches Err(s) ==> s == UNAUTHORIZED,
{
    if authorize(authorization, query_token, expected) {
        Ok(())
    } else {
        Err(UNAUTHORIZED)
    }
}

/// The last step of a route: what the toolkit returned, wrapped in a
/// successful answer, or 500 when it failed.
pub fn respond<T>(outcome: Result<T, RsImessageError>) -> (res: Result<Envelope<T>, u16>)
    ensures
        outcome is Ok <==> res is Ok,
        res matches Ok(env) ==> (env.status == OK_STATUS && env.message@ == SUCCESS_TEXT@
            && outcome == Ok::<T, RsImessageError>(env.data)),
        res matches Err(s) ==> s == INTERNAL_SERVER_ERROR,
{
    match outcome {
        Ok(data) => Ok(ok(data)),
        Err(_) => Err(INTERNAL_SERVER_ERROR),
    }
}

/// No request is admitted when the configured token is empty.
pub proof fn law_empty_token_admits_nobody(header: Option<Seq<char>>, query: Option<Seq<char>>)
    ensures
        !authorized(header, query, Seq::empty()),
{
}

/// A request that presents no token at all is refused, whatever the
/// configured token.
pub proof fn law_no_credentials_refused(expected: Seq<char>)
    ensures
        !authorized(None, None, expected),
{
}

/// A bearer header decides alone: when it carries a token, the query
/// parameter is not looked at.
pub proof fn law_header_wins(
    header: Seq<char>,
    q1: Option<Seq<char>>,
    q2: Option<Seq<char>>,
    expected: Seq<char>,
)
    requires
        occurs_at(header, BEARER_PREFIX@, 0),
    ensures
        authorized(Some(header), q1, expected) == authorized(Some(header), q2, expected),
{
}

/// The configured token itself, sent as a bearer header, is admitted when
/// it is not empty and has no white space at its ends.
pub proof fn law_bearer_of_token_admitted(expected: Seq<char>)
    requires
        expected.len() > 0,
        trimmed(expected) == expected,
    ensures
        authorized(Some(BEARER_PREFIX@ + expected), None, expected),
{
    let h = BEARER_PREFIX@ + expected;
    assert(h.subrange(0, BEARER_PREFIX@.len() as int) =~= BEARER_PREFIX@);
    assert(h.skip(BEARER_PREFIX@.len() as int) =~= expected);
}

} // verus!
