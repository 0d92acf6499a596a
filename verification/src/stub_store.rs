//! The message store where Messages is not available: it cannot be opened,
//! and every read is refused.
use vstd::prelude::*;

use crate::error::RsImessageError;
use crate::types::{ChatRecord, MessageRecord};

verus! {

/// A store that is never there.
pub struct MessageStore;

impl MessageStore {
    /// Opening a database is refused, as there is no Messages here.
    pub fn open(path: &str) -> (res: Result<MessageStore, RsImessageError>)
        ensures
            res matches Err(e) && e == RsImessageError::UnsupportedPlatform,
    {
        Err(RsImessageError::UnsupportedPlatform)
    }

    /// Refused, as there is no Messages here.
    pub fn max_message_rowid(&self) -> (res: Result<i64, RsImessageError>)
        ensures
            res matches Err(e) && e == RsImessageError::UnsupportedPlatform,
    {
        Err(RsImessageError::UnsupportedPlatform)
    }

    /// Refused, as there is no Messages here.
    pub fn list_chats(&self, limit: usize) -> (res: Result<Vec<ChatRecord>, RsImessageError>)
        ensures
            res matches Err(e) && e == RsImessageError::UnsupportedPlatform,
    {
        Err(RsImessageError::UnsupportedPlatform)
    }

    /// Refused, as there is no Messages here.
    pub fn chat_participants(&self, chat_id: i64) -> (res: Result<Vec<String>, RsImessageError>)
        ensures
            res matches Err(e) && e == RsImessageError::UnsupportedPlatform,
    {
        Err(RsImessageError::UnsupportedPlatform)
    }

    /// Refused, as there is no Messages here.
    pub fn history(&self, chat_id: i64, limit: usize, since_rowid: Option<i64>) -> (res: Result<Vec<MessageRecord>, RsImessageError>)
        ensures
            res matches Err(e) && e == RsImessageError::UnsupportedPlatform,
    {
        Err(RsImessageError::UnsupportedPlatform)
    }

    /// Refused, as there is no Messages here.
    pub fn messages_after_rowid(&self, since_rowid: i64, chat_id: Option<i64>, limit: usize) -> (res: Result<Vec<MessageRecord>, RsImessageError>)
        ensures
            res matches Err(e) && e == RsImessageError::UnsupportedPlatform,
    {
        Err(RsImessageError::UnsupportedPlatform)
    }

    /// Refused, as there is no Messages here.
    pub fn search(&self, query: &str, limit: usize) -> (res: Result<Vec<MessageRecord>, RsImessageError>)
        ensures
            res matches Err(e) && e == RsImessageError::UnsupportedPlatform,
    {
        Err(RsImessageError::UnsupportedPlatform)
    }

    /// Refused, as there is no Messages here.
    pub fn chat_by_id(&self, chat_id: i64) -> (res: Result<Option<ChatRecord>, RsImessageError>)
        ensures
            res matches Err(e) && e == RsImessageError::UnsupportedPlatform,
    {
        Err(RsImessageError::UnsupportedPlatform)
    }
}

} // verus!
