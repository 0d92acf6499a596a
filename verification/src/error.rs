//! The library's error type and the text each error displays.
use vstd::prelude::*;

use crate::text::append_str;

verus! {

/// Every failure the library reports. Failures of outside components (the
/// database, the file system, JSON decoding) are carried as the text they
/// display.
#[derive(Debug, Clone, PartialEq, Eq)]
pub enum RsImessageError {
    UnsupportedPlatform,
    Database(String),
    Io(String),
    Json(String),
    Watch(String),
    Send(String),
    Rpc(String),
    PrivateApi(String),
    Other(String),
}

/// An error as a mathematical value: its variant and the text it carries.
pub enum ErrorView {
    UnsupportedPlatform,
    Database(Seq<char>),
    Io(Seq<char>),
    Json(Seq<char>),
    Watch(Seq<char>),
    Send(Seq<char>),
    Rpc(Seq<char>),
    PrivateApi(Seq<char>),
    Other(Seq<char>),
}

impl View for RsImessageError {
    type V = ErrorView;

    open spec fn view(&self) -> ErrorView {
        match self {
            RsImessageError::UnsupportedPlatform => ErrorView::UnsupportedPlatform,
            RsImessageError::Database(s) => ErrorView::Database(s@),
            RsImessageError::Io(s) => ErrorView::Io(s@),
            RsImessageError::Json(s) => ErrorView::Json(s@),
            RsImessageError::Watch(s) => ErrorView::Watch(s@),
            RsImessageError::Send(s) => ErrorView::Send(s@),
            RsImessageError::Rpc(s) => ErrorView::Rpc(s@),
            RsImessageError::PrivateApi(s) => ErrorView::PrivateApi(s@),
            RsImessageError::Other(s) => ErrorView::Other(s@),
        }
    }
}

pub const UNSUPPORTED_PLATFORM_TEXT: &'static str = "rs_imessage requires macOS (Messages.app + chat.db)";

/// The text an error displays.
pub open spec fn error_text(e: ErrorView) -> Seq<char> {
    match e {
        ErrorView::UnsupportedPlatform => UNSUPPORTED_PLATFORM_TEXT@,
        ErrorView::Database(s) => "database: "@ + s,
        ErrorView::Io(s) => "io: "@ + s,
        ErrorView::Json(s) => "json: "@ + s,
        ErrorView::Watch(s) => "watch: "@ + s,
        ErrorView::Send(s) => "send: "@ + s,
        ErrorView::Rpc(s) => "rpc: "@ + s,
        ErrorView::PrivateApi(s) => "private-api: "@ + s,
        ErrorView::Other(s) => s,
    }
}

impl RsImessageError {
    /// The text this error displays.
    pub fn message(&self) -> (res: String)
        ensures
            res@ == error_text(self@),
    {
        let mut res = String::new();
        match self {
            RsImessageError::UnsupportedPlatform => append_str(&mut res, UNSUPPORTED_PLATFORM_TEXT),
            RsImessageError::Database(s) => {
                append_str(&mut res, "database: ");
                append_str(&mut res, s.as_str());
            },
            RsImessageError::Io(s) => {
                append_str(&mut res, "io: ");
                append_str(&mut res, s.as_str());
            },
            RsImessageError::Json(s) => {
                append_str(&mut res, "json: ");
                append_str(&mut res, s.as_str());
            },
            RsImessageError::Watch(s) => {
                append_str(&mut res, "watch: ");
                append_str(&mut res, s.as_str());
            },
            RsImessageError::Send(s) => {
                append_str(&mut res, "send: ");
                append_str(&mut res, s.as_str());
            },
            RsImessageError::Rpc(s) => {
                append_str(&mut res, "rpc: ");
                append_str(&mut res, s.as_str());
            },
            RsImessageError::PrivateApi(s) => {
                append_str(&mut res, "private-api: ");
                append_str(&mut res, s.as_str());
            },
            RsImessageError::Other(s) => append_str(&mut res, s.as_str()),
        }
        res
    }
}

} // verus!
