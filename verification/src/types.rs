//! The records the library reads from Messages and the requests it sends.
use vstd::prelude::*;

use crate::time::UtcDateTime;

verus! {

/// A conversation.
#[derive(Debug, Clone, PartialEq, Eq)]
pub struct ChatRecord {
    pub id: i64,
    pub name: Option<String>,
    pub identifier: String,
    pub guid: String,
    pub service: Option<String>,
    pub is_group: bool,
    pub participants: Vec<String>,
    pub last_message_at: Option<UtcDateTime>,
}

/// One message of a conversation.
#[derive(Debug, Clone, PartialEq, Eq)]
pub struct MessageRecord {
    pub id: i64,
    pub guid: String,
    pub chat_id: i64,
    pub chat_identifier: String,
    pub chat_guid: String,
    pub chat_name: Option<String>,
    pub participants: Vec<String>,
    pub is_group: bool,
    pub sender: Option<String>,
    pub is_from_me: bool,
    pub text: Option<String>,
    pub created_at: UtcDateTime,
    pub reply_to_guid: Option<String>,
    pub attachments: Vec<AttachmentMeta>,
}

/// What is known of one attachment of a message.
#[derive(Debug, Clone, PartialEq, Eq)]
pub struct AttachmentMeta {
    pub filename: Option<String>,
    pub mime_type: Option<String>,
    pub byte_count: Option<i64>,
    pub missing: bool,
}

/// A message seen by a watch.
#[derive(Debug, Clone, PartialEq, Eq)]
pub struct WatchEvent {
    pub kind: WatchEventKind,
    pub message: MessageRecord,
}

/// What a watch event reports.
#[derive(Debug, Clone, Copy, PartialEq, Eq)]
pub enum WatchEventKind {
    NewMessage,
}

/// What to send, and to whom.
#[derive(Debug, Clone, PartialEq, Eq)]
pub struct SendRequest {
    pub to: Option<String>,
    pub chat_id: Option<i64>,
    pub chat_guid: Option<String>,
    pub chat_identifier: Option<String>,
    pub text: Option<String>,
    pub file: Option<String>,
    pub service: SendService,
}

/// The view of an optional string.
pub open spec fn opt_string_view(o: Option<String>) -> Option<Seq<char>> {
    match o {
        Some(s) => Some(s@),
        None => None,
    }
}

/// A send request as a mathematical value.
pub struct SendRequestView {
    pub to: Option<Seq<char>>,
    pub chat_id: Option<i64>,
    pub chat_guid: Option<Seq<char>>,
    pub chat_identifier: Option<Seq<char>>,
    pub text: Option<Seq<char>>,
    pub file: Option<Seq<char>>,
    pub service: SendService,
}

impl View for SendRequest {
    type V = SendRequestView;

    open spec fn view(&self) -> SendRequestView {
        SendRequestView {
            to: opt_string_view(self.to),
            chat_id: self.chat_id,
            chat_guid: opt_string_view(self.chat_guid),
            chat_identifier: opt_string_view(self.chat_identifier),
            text: opt_string_view(self.text),
            file: opt_string_view(self.file),
            service: self.service,
        }
    }
}

/// Copies an optional string.
pub fn clone_opt_string(o: &Option<String>) -> (res: Option<String>)
    ensures
        opt_string_view(res) == opt_string_view(*o),
{
    match o {
        Some(s) => Some(s.clone()),
        None => None,
    }
}

impl SendRequest {
    /// A copy of this request.
    pub fn duplicate(&self) -> (res: SendRequest)
        ensures
            res@ == self@,
    {
        SendRequest {
            to: clone_opt_string(&self.to),
            chat_id: self.chat_id,
            chat_guid: clone_opt_string(&self.chat_guid),
            chat_identifier: clone_opt_string(&self.chat_identifier),
            text: clone_opt_string(&self.text),
            file: clone_opt_string(&self.file),
            service: self.service,
        }
    }
}

/// The messaging service a send goes through.
#[derive(Debug, Clone, Copy, PartialEq, Eq)]
pub enum SendService {
    Auto,
    Imessage,
    Sms,
}

impl Default for SendService {
    fn default() -> (res: SendService)
        ensures
            res == SendService::Auto,
    {
        SendService::Auto
    }
}

/// The outcome of a completed send.
#[derive(Debug, Clone, PartialEq, Eq)]
pub struct SendResult {
    pub ok: bool,
    pub detail: Option<String>,
}

/// A send outcome as a mathematical value.
pub struct SendResultView {
    pub ok: bool,
    pub detail: Option<Seq<char>>,
}

impl View for SendResult {
    type V = SendResultView;

    open spec fn view(&self) -> SendResultView {
        SendResultView { ok: self.ok, detail: opt_string_view(self.detail) }
    }
}

} // verus!
