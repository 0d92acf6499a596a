//! Sending where Messages.app is not available: every send is refused.
use vstd::prelude::*;

use crate::error::{ErrorView, RsImessageError};
use crate::send::apple::send_outcome_view;
use crate::types::{SendRequest, SendResult};

verus! {

/// Sends through the default database: refused, as there is no Messages.app.
pub fn send(request: &SendRequest) -> (res: Result<SendResult, RsImessageError>)
    ensures
        send_outcome_view(res) == Err::<crate::types::SendResultView, ErrorView>(
            ErrorView::UnsupportedPlatform,
        ),
{
    send_with_db(request, "")
}

/// Sends through the database at `db_path`: refused, as there is no
/// Messages.app.
pub fn send_with_db(request: &SendRequest, db_path: &str) -> (res: Result<
    SendResult,
    RsImessageError,
>)
    ensures
        send_outcome_view(res) == Err::<crate::types::SendResultView, ErrorView>(
            ErrorView::UnsupportedPlatform,
        ),
{
    Err(RsImessageError::UnsupportedPlatform)
}

} // verus!
