//! What the toolkit asks of Messages' database and how it reads the rows it
//! gets back. Running the queries is left to the caller.
use vstd::prelude::*;

use crate::error::RsImessageError;
use crate::text::{append_str, owned};
use crate::time::{apple_instant, apple_timestamp_to_utc, UtcDateTime};
use crate::types::{AttachmentMeta, ChatRecord, MessageRecord};

verus! {

pub const MAX_ROWID_SQL: &'static str = "SELECT COALESCE(MAX(ROWID), 0) FROM message";

pub const LIST_CHATS_SQL: &'static str = "\n            SELECT\n                c.ROWID,\n                c.display_name,\n                c.chat_identifier,\n                c.guid,\n                c.service_name,\n                c.style,\n                (\n                    SELECT MAX(m.date)\n                    FROM chat_message_join cmj\n                    JOIN message m ON m.ROWID = cmj.message_id\n                    WHERE cmj.chat_id = c.ROWID\n                ) AS last_date\n            FROM chat c\n            ORDER BY last_date DESC NULLS LAST, c.ROWID DESC\n            LIMIT ?1\n            ";

pub const CHAT_PARTICIPANTS_SQL: &'static str = "\n            SELECT DISTINCT h.id\n            FROM chat_handle_join chj\n            JOIN handle h ON h.ROWID = chj.handle_id\n            WHERE chj.chat_id = ?1\n            ORDER BY h.id\n            ";

pub const HISTORY_SELECT_SQL: &'static str = "\n            SELECT\n                m.ROWID, m.guid, c.ROWID, c.chat_identifier, c.guid, c.display_name, c.style,\n                h.id, m.is_from_me, m.text, m.date, m.thread_originator_guid\n            FROM message m\n            JOIN chat_message_join cmj ON cmj.message_id = m.ROWID\n            JOIN chat c ON c.ROWID = cmj.chat_id\n            LEFT JOIN handle h ON h.ROWID = m.handle_id\n            WHERE cmj.chat_id = ?1\n        ";

pub const HISTORY_SINCE_TAIL_SQL: &'static str = " AND m.ROWID > ?2 ORDER BY m.ROWID ASC LIMIT ?3";

pub const HISTORY_LATEST_TAIL_SQL: &'static str = " ORDER BY m.ROWID DESC LIMIT ?2";

pub const MESSAGES_AFTER_IN_CHAT_SQL: &'static str = "\n            SELECT\n                m.ROWID, m.guid, c.ROWID, c.chat_identifier, c.guid, c.display_name, c.style,\n                h.id, m.is_from_me, m.text, m.date, m.thread_originator_guid\n            FROM message m\n            JOIN chat_message_join cmj ON cmj.message_id = m.ROWID\n            JOIN chat c ON c.ROWID = cmj.chat_id\n            LEFT JOIN handle h ON h.ROWID = m.handle_id\n            WHERE m.ROWID > ?1 AND cmj.chat_id = ?2\n            ORDER BY m.ROWID ASC\n            LIMIT ?3\n            ";

pub const MESSAGES_AFTER_SQL: &'static str = "\n            SELECT\n                m.ROWID, m.guid, c.ROWID, c.chat_identifier, c.guid, c.display_name, c.style,\n                h.id, m.is_from_me, m.text, m.date, m.thread_originator_guid\n            FROM message m\n            JOIN chat_message_join cmj ON cmj.message_id = m.ROWID\n            JOIN chat c ON c.ROWID = cmj.chat_id\n            LEFT JOIN handle h ON h.ROWID = m.handle_id\n            WHERE m.ROWID > ?1\n            ORDER BY m.ROWID ASC\n            LIMIT ?2\n            ";

pub const ATTACHMENTS_SQL: &'static str = "\n            SELECT a.filename, a.uti, a.total_bytes, a.missing\n            FROM attachment a\n            JOIN message_attachment_join maj ON maj.attachment_id = a.ROWID\n            WHERE maj.message_id = ?1\n            ";

pub const SEARCH_SQL: &'static str = "\n            SELECT\n                m.ROWID, m.guid, c.ROWID, c.chat_identifier, c.guid, c.display_name, c.style,\n                h.id, m.is_from_me, m.text, m.date, m.thread_originator_guid\n            FROM message m\n            JOIN chat_message_join cmj ON cmj.message_id = m.ROWID\n            JOIN chat c ON c.ROWID = cmj.chat_id\n            LEFT JOIN handle h ON h.ROWID = m.handle_id\n            WHERE m.text LIKE ?1\n            ORDER BY m.ROWID DESC\n            LIMIT ?2\n            ";

pub const CHAT_BY_ID_SQL: &'static str = "\n            SELECT c.ROWID, c.display_name, c.chat_identifier, c.guid, c.service_name, c.style,\n                (SELECT MAX(m.date) FROM chat_message_join cmj JOIN message m ON m.ROWID = cmj.message_id WHERE cmj.chat_id = c.ROWID)\n            FROM chat c\n            WHERE c.ROWID = ?1\n            ";

/// The chat style Messages gives group chats.
pub const GROUP_CHAT_STYLE: i32 = 43;

/// The most rows one watch poll reads.
pub const WATCH_BATCH_LIMIT: usize = 200;

/// A value bound to a query parameter.
#[derive(Debug, Clone, PartialEq, Eq)]
pub enum SqlParam {
    Int(i64),
    Text(String),
}

pub enum SqlParamView {
    Int(i64),
    Text(Seq<char>),
}

impl View for SqlParam {
    type V = SqlParamView;

    open spec fn view(&self) -> SqlParamView {
        match self {
            SqlParam::Int(n) => SqlParamView::Int(*n),
            SqlParam::Text(s) => SqlParamView::Text(s@),
        }
    }
}

/// A query and the values of its parameters `?1`, `?2`, ... in order.
#[derive(Debug, Clone, PartialEq, Eq)]
pub struct SqlQuery {
    pub sql: String,
    pub params: Vec<SqlParam>,
}

/// The views of a list of parameters.
pub open spec fn params_view(ps: Seq<SqlParam>) -> Seq<SqlParamView> {
    ps.map_values(|p: SqlParam| p@)
}

fn query(sql: &str, params: Vec<SqlParam>) -> (res: SqlQuery)
    ensures
        res.sql@ == sql@,
        res.params == params,
{
    SqlQuery { sql: owned(sql), params }
}

/// A row count as SQLite receives it.
pub open spec fn limit_param(limit: usize) -> i64 {
    limit as i64
}

fn limit_value(limit: usize) -> (res: i64)
    ensures
        res == limit_param(limit),
{
    limit as i64
}

/// The largest message row id there is, 0 when there is none.
pub fn max_message_rowid_query() -> (res: SqlQuery)
    ensures
        res.sql@ == MAX_ROWID_SQL@,
        res.params@.len() == 0,
{
    query(MAX_ROWID_SQL, Vec::new())
}

/// The `limit` chats with the latest messages first, chats without messages
/// last, newer chats first among equals.
pub fn list_chats_query(limit: usize) -> (res: SqlQuery)
    ensures
        res.sql@ == LIST_CHATS_SQL@,
        params_view(res.params@) == seq![SqlParamView::Int(limit_param(limit))],
{
    let mut params = Vec::new();
    params.push(SqlParam::Int(limit_value(limit)));
    let res = query(LIST_CHATS_SQL, params);
    assert(params_view(res.params@) =~= seq![SqlParamView::Int(limit_param(limit))]);
    res
}

/// The distinct handles that take part in a chat, in order.
pub fn chat_participants_query(chat_id: i64) -> (res: SqlQuery)
    ensures
        res.sql@ == CHAT_PARTICIPANTS_SQL@,
        params_view(res.params@) == seq![SqlParamView::Int(chat_id)],
{
    let mut params = Vec::new();
    params.push(SqlParam::Int(chat_id));
    let res = query(CHAT_PARTICIPANTS_SQL, params);
    assert(params_view(res.params@) =~= seq![SqlParamView::Int(chat_id)]);
    res
}

/// The messages of a chat: the first `limit` after row `since_rowid`, oldest
/// first, when it is given; else the latest `limit`, newest first (see
/// `arrange_history`).
pub fn history_query(chat_id: i64, limit: usize, since_rowid: Option<i64>) -> (res: SqlQuery)
    ensures
        since_rowid matches Some(since) ==> {
            &&& res.sql@ == HISTORY_SELECT_SQL@ + HISTORY_SINCE_TAIL_SQL@
            &&& params_view(res.params@) == seq![
                SqlParamView::Int(chat_id),
                SqlParamView::Int(since),
                SqlParamView::Int(limit_param(limit)),
            ]
        },
        since_rowid is None ==> {
            &&& res.sql@ == HISTORY_SELECT_SQL@ + HISTORY_LATEST_TAIL_SQL@
            &&& params_view(res.params@) == seq![
                SqlParamView::Int(chat_id),
                SqlParamView::Int(limit_param(limit)),
            ]
        },
{
    let mut sql = owned(HISTORY_SELECT_SQL);
    let mut params = Vec::new();
    params.push(SqlParam::Int(chat_id));
    match since_rowid {
        Some(since) => {
            append_str(&mut sql, HISTORY_SINCE_TAIL_SQL);
            params.push(SqlParam::Int(since));
            params.push(SqlParam::Int(limit_value(limit)));
            let res = SqlQuery { sql, params };
            assert(params_view(res.params@) =~= seq![
                SqlParamView::Int(chat_id),
                SqlParamView::Int(since),
                SqlParamView::Int(limit_param(limit)),
            ]);
            res
        },
        None => {
            append_str(&mut sql, HISTORY_LATEST_TAIL_SQL);
            params.push(SqlParam::Int(limit_value(limit)));
            let res = SqlQuery { sql, params };
            assert(params_view(res.params@) =~= seq![
                SqlParamView::Int(chat_id),
                SqlParamView::Int(limit_param(limit)),
            ]);
            res
        },
    }
}

/// The first `limit` messages after row `since_rowid`, oldest first, in one
/// chat or in all.
pub fn messages_after_query(since_rowid: i64, chat_id: Option<i64>, limit: usize) -> (res:
    SqlQuery)
    ensures
        chat_id matches Some(cid) ==> {
            &&& res.sql@ == MESSAGES_AFTER_IN_CHAT_SQL@
            &&& params_view(res.params@) == seq![
                SqlParamView::Int(since_rowid),
                SqlParamView::Int(cid),
                SqlParamView::Int(limit_param(limit)),
            ]
        },
        chat_id is None ==> {
            &&& res.sql@ == MESSAGES_AFTER_SQL@
            &&& params_view(res.params@) == seq![
                SqlParamView::Int(since_rowid),
                SqlParamView::Int(limit_param(limit)),
            ]
        },
{
    let mut params = Vec::new();
    params.push(SqlParam::Int(since_rowid));
    match chat_id {
        Some(cid) => {
            params.push(SqlParam::Int(cid));
            params.push(SqlParam::Int(limit_value(limit)));
            let res = query(MESSAGES_AFTER_IN_CHAT_SQL, params);
            assert(params_view(res.params@) =~= seq![
                SqlParamView::Int(since_rowid),
                SqlParamView::Int(cid),
                SqlParamView::Int(limit_param(limit)),
            ]);
            res
        },
        None => {
            params.push(SqlParam::Int(limit_value(limit)));
            let res = query(MESSAGES_AFTER_SQL, params);
            assert(params_view(res.params@) =~= seq![
                SqlParamView::Int(since_rowid),
                SqlParamView::Int(limit_param(limit)),
            ]);
            res
        },
    }
}

/// The attachments of a message.
pub fn attachments_query(message_id: i64) -> (res: SqlQuery)
    ensures
        res.sql@ == ATTACHMENTS_SQL@,
        params_view(res.params@) == seq![SqlParamView::Int(message_id)],
{
    let mut params = Vec::new();
    params.push(SqlParam::Int(message_id));
    let res = query(ATTACHMENTS_SQL, params);
    assert(params_view(res.params@) =~= seq![SqlParamView::Int(message_id)]);
    res
}

/// The LIKE pattern that finds `query` anywhere in a text.
pub open spec fn search_pattern(q: Seq<char>) -> Seq<char> {
    seq!['%'] + q + seq!['%']
}

/// The `limit` latest messages whose text holds `text_query`.
pub fn search_query(text_query: &str, limit: usize) -> (res: SqlQuery)
    ensures
        res.sql@ == SEARCH_SQL@,
        params_view(res.params@) == seq![
            SqlParamView::Text(search_pattern(text_query@)),
            SqlParamView::Int(limit_param(limit)),
        ],
{
    let mut pattern = String::new();
    crate::text::push_char(&mut pattern, '%');
    append_str(&mut pattern, text_query);
    crate::text::push_char(&mut pattern, '%');
    assert(pattern@ =~= search_pattern(text_query@));
    let mut params = Vec::new();
    params.push(SqlParam::Text(pattern));
    params.push(SqlParam::Int(limit_value(limit)));
    let res = query(SEARCH_SQL, params);
    assert(params_view(res.params@) =~= seq![
        SqlParamView::Text(search_pattern(text_query@)),
        SqlParamView::Int(limit_param(limit)),
    ]);
    res
}

/// The chat with this row id.
pub fn chat_by_id_query(chat_id: i64) -> (res: SqlQuery)
    ensures
        res.sql@ == CHAT_BY_ID_SQL@,
        params_view(res.params@) == seq![SqlParamView::Int(chat_id)],
{
    let mut params = Vec::new();
    params.push(SqlParam::Int(chat_id));
    let res = query(CHAT_BY_ID_SQL, params);
    assert(params_view(res.params@) =~= seq![SqlParamView::Int(chat_id)]);
    res
}

/// The error for a database file that does not exist.
pub fn missing_database(path: &str) -> (res: RsImessageError)
    ensures
        res@ == crate::error::ErrorView::Other("chat.db not found at "@ + path@),
{
    let mut msg = owned("chat.db not found at ");
    append_str(&mut msg, path);
    RsImessageError::Other(msg)
}

/// A row of the chat queries.
#[derive(Debug, Clone, PartialEq, Eq)]
pub struct ChatRow {
    pub id: i64,
    pub display_name: Option<String>,
    pub identifier: String,
    pub guid: String,
    pub service: Option<String>,
    pub style: Option<i32>,
    pub last_date: Option<i64>,
}

/// A row of the message queries.
#[derive(Debug, Clone, PartialEq, Eq)]
pub struct MessageRow {
    pub id: i64,
    pub guid: String,
    pub chat_rowid: i64,
    pub chat_identifier: String,
    pub chat_guid: String,
    pub chat_name: Option<String>,
    pub style: Option<i32>,
    pub sender: Option<String>,
    pub is_from_me: i32,
    pub text: Option<String>,
    pub date: i64,
    pub reply_to_guid: Option<String>,
}

/// A row of the attachment query.
#[derive(Debug, Clone, PartialEq, Eq)]
pub struct AttachmentRow {
    pub filename: Option<String>,
    pub uti: Option<String>,
    pub total_bytes: Option<i64>,
    pub missing: i32,
}

/// Whether a chat is a group: its style says so, or more than two take part.
pub open spec fn is_group_chat(style: Option<i32>, participants: nat) -> bool {
    style == Some(GROUP_CHAT_STYLE) || participants > 2
}

/// The instant of an optional raw timestamp, when there is one and it
/// converts.
pub open spec fn last_instant(raw: Option<i64>) -> Option<UtcDateTime> {
    match raw {
        Some(d) => apple_instant(d),
        None => None,
    }
}

/// The chat a row describes, with its participants.
pub fn chat_record(row: ChatRow, participants: Vec<String>) -> (res: ChatRecord)
    ensures
        res.id == row.id,
        res.name == row.display_name,
        res.identifier == row.identifier,
        res.guid == row.guid,
        res.service == row.service,
        res.is_group == is_group_chat(row.style, participants.len() as nat),
        res.participants == participants,
        res.last_message_at == last_instant(row.last_date),
{
    let is_group = row.style == Some(GROUP_CHAT_STYLE) || participants.len() > 2;
    let last_message_at = match row.last_date {
        Some(d) => apple_timestamp_to_utc(d),
        None => None,
    };
    ChatRecord {
        id: row.id,
        name: row.display_name,
        identifier: row.identifier,
        guid: row.guid,
        service: row.service,
        is_group,
        participants,
        last_message_at,
    }
}

/// When a message was sent: its timestamp, or `now` when that does not
/// convert.
pub open spec fn created_instant(raw: i64, now: UtcDateTime) -> UtcDateTime {
    match apple_instant(raw) {
        Some(t) => t,
        None => now,
    }
}

/// The message a row describes, before its participants and attachments are
/// read; `now`, the current instant as the caller read it, stands in for a
/// timestamp that does not convert.
pub fn map_message_row(row: MessageRow, now: UtcDateTime) -> (res: MessageRecord)
    ensures
        res.id == row.id,
        res.guid == row.guid,
        res.chat_id == row.chat_rowid,
        res.chat_identifier == row.chat_identifier,
        res.chat_guid == row.chat_guid,
        res.chat_name == row.chat_name,
        res.participants@.len() == 0,
        res.is_group == (row.style == Some(GROUP_CHAT_STYLE)),
        res.sender == row.sender,
        res.is_from_me == (row.is_from_me != 0),
        res.text == row.text,
        res.created_at == created_instant(row.date, now),
        res.reply_to_guid == row.reply_to_guid,
        res.attachments@.len() == 0,
{
    let created_at = match apple_timestamp_to_utc(row.date) {
        Some(t) => t,
        None => now,
    };
    MessageRecord {
        id: row.id,
        guid: row.guid,
        chat_id: row.chat_rowid,
        chat_identifier: row.chat_identifier,
        chat_guid: row.chat_guid,
        chat_name: row.chat_name,
        participants: Vec::new(),
        is_group: row.style == Some(GROUP_CHAT_STYLE),
        sender: row.sender,
        is_from_me: row.is_from_me != 0,
        text: row.text,
        created_at,
        reply_to_guid: row.reply_to_guid,
        attachments: Vec::new(),
    }
}

/// Completes a message with its chat's participants and its attachments; a
/// chat with more than two participants makes it a group message.
pub fn enrich_message(
    msg: &mut MessageRecord,
    participants: Vec<String>,
    attachments: Vec<AttachmentMeta>,
)
    ensures
        final(msg).id == old(msg).id,
        final(msg).guid == old(msg).guid,
        final(msg).chat_id == old(msg).chat_id,
        final(msg).chat_identifier == old(msg).chat_identifier,
        final(msg).chat_guid == old(msg).chat_guid,
        final(msg).chat_name == old(msg).chat_name,
        final(msg).sender == old(msg).sender,
        final(msg).is_from_me == old(msg).is_from_me,
        final(msg).text == old(msg).text,
        final(msg).created_at == old(msg).created_at,
        final(msg).reply_to_guid == old(msg).reply_to_guid,
        final(msg).participants == participants,
        final(msg).is_group == (old(msg).is_group || participants.len() > 2),
        final(msg).attachments == attachments,
{
    let n = participants.len();
    msg.participants = participants;
    msg.is_group = msg.is_group || n > 2;
    msg.attachments = attachments;
}

/// The attachment a row describes.
pub fn attachment_meta(row: AttachmentRow) -> (res: AttachmentMeta)
    ensures
        res.filename == row.filename,
        res.mime_type == row.uti,
        res.byte_count == row.total_bytes,
        res.missing == (row.missing != 0),
{
    AttachmentMeta {
        filename: row.filename,
        mime_type: row.uti,
        byte_count: row.total_bytes,
        missing: row.missing != 0,
    }
}

/// The order a history is returned in: as read after `since_rowid`, and
/// reversed when the latest messages were read newest first.
pub open spec fn history_order(batch: Seq<MessageRecord>, since_rowid: Option<i64>) -> Seq<
    MessageRecord,
> {
    if since_rowid is Some {
        batch
    } else {
        batch.reverse()
    }
}

/// Puts the messages a history query read in the order the history is
/// returned in.
pub fn arrange_history(batch: Vec<MessageRecord>, since_rowid: Option<i64>) -> (res: Vec<
    MessageRecord,
>)
    ensures
        res@ == history_order(batch@, since_rowid),
{
    if since_rowid.is_some() {
        return batch;
    }
    let mut rest = batch;
    let ghost orig = rest@;
    let mut out: Vec<MessageRecord> = Vec::new();
    while rest.len() > 0
        invariant
            orig.len() == rest@.len() + out@.len(),
            rest@ == orig.take(rest@.len() as int),
            out@ == orig.skip(rest@.len() as int).reverse(),
        decreases rest.len(),
    {
        let ghost k = rest@.len();
        let m = rest.pop().unwrap();
        out.push(m);
        assert(orig.skip(k - 1) =~= seq![orig[k - 1]] + orig.skip(k as int));
        assert(out@ =~= orig.skip(k - 1).reverse()) by {
            assert forall|i: int| 0 <= i < out@.len() implies out@[i] == orig.skip(
                k - 1,
            ).reverse()[i] by {
            }
        }
        assert(rest@ =~= orig.take(k - 1));
    }
    assert(orig.skip(0) =~= orig);
    out
}

/// Row ids strictly increase along the sequence.
pub open spec fn ids_increasing(s: Seq<MessageRecord>) -> bool {
    forall|i: int, j: int| 0 <= i < j < s.len() ==> s[i].id < s[j].id
}

/// Row ids strictly decrease along the sequence.
pub open spec fn ids_decreasing(s: Seq<MessageRecord>) -> bool {
    forall|i: int, j: int| 0 <= i < j < s.len() ==> s[i].id > s[j].id
}

/// A history comes oldest first: read after a row, the query returns rows in
/// ascending order and they are kept so; read as the latest messages, it
/// returns them in descending order and they are turned around.
pub proof fn law_history_oldest_first(batch: Seq<MessageRecord>, since_rowid: Option<i64>)
    requires
        since_rowid is Some ==> ids_increasing(batch),
        since_rowid is None ==> ids_decreasing(batch),
    ensures
        ids_increasing(history_order(batch, since_rowid)),
        history_order(batch, since_rowid).len() == batch.len(),
{
    if since_rowid is None {
        let r = batch.reverse();
        assert forall|i: int, j: int| 0 <= i < j < r.len() implies r[i].id < r[j].id by {
            assert(r[i] == batch[batch.len() - 1 - i]);
            assert(r[j] == batch[batch.len() - 1 - j]);
        }
    }
}

} // verus!
