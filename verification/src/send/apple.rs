//! Sending through Messages.app with AppleScript.
//!
//! A send alternates decisions with outside work: looking a chat up in the
//! database, checking and staging an attachment, running `osascript`. The
//! decisions live here as a session that, fed the outcome of each piece of
//! outside work, says what to do next; whoever drives the session performs
//! the work.
use vstd::prelude::*;

use crate::error::{ErrorView, RsImessageError};
use crate::send::script::{
    build_send_script, send_script_text, service_label, service_label_text,
};
use crate::text::{append_str, i64_text, int_text, utf8_lossy, utf8_lossy_text};
use crate::types::{
    clone_opt_string, SendRequest, SendRequestView, SendResult, SendResultView,
};

verus! {

pub const NO_TARGET_TEXT: &'static str = "send requires --to, --chat-id, --chat-guid, or --chat-identifier";

pub const NO_TEXT_TEXT: &'static str = "send requires --text and/or --file";

/// How a run of `osascript` ended.
#[derive(Debug, Clone, PartialEq, Eq)]
pub enum ScriptOutcome {
    /// The process could not be started; the text of the failure.
    NotStarted(String),
    /// The process ran: whether it succeeded, its exit status as displayed,
    /// and what it wrote.
    Exited { success: bool, status: String, stderr: Vec<u8>, stdout: Vec<u8> },
}

pub enum ScriptOutcomeView {
    NotStarted(Seq<char>),
    Exited { success: bool, status: Seq<char>, stderr: Seq<u8>, stdout: Seq<u8> },
}

impl View for ScriptOutcome {
    type V = ScriptOutcomeView;

    open spec fn view(&self) -> ScriptOutcomeView {
        match self {
            ScriptOutcome::NotStarted(e) => ScriptOutcomeView::NotStarted(e@),
            ScriptOutcome::Exited { success, status, stderr, stdout } => ScriptOutcomeView::Exited {
                success: *success,
                status: status@,
                stderr: stderr@,
                stdout: stdout@,
            },
        }
    }
}

/// The view of a send outcome.
pub open spec fn send_outcome_view(r: Result<SendResult, RsImessageError>) -> Result<
    SendResultView,
    ErrorView,
> {
    match r {
        Ok(v) => Ok(v@),
        Err(e) => Err(e@),
    }
}

/// What a run of `osascript` means for the send: success when the process
/// succeeded, otherwise a send error naming the failure and what the process
/// wrote.
pub open spec fn script_result(o: ScriptOutcomeView) -> Result<SendResultView, ErrorView> {
    match o {
        ScriptOutcomeView::NotStarted(e) => Err(
            ErrorView::Send("osascript failed to start: "@ + e),
        ),
        ScriptOutcomeView::Exited { success, status, stderr, stdout } => if success {
            Ok(SendResultView { ok: true, detail: None })
        } else {
            Err(
                ErrorView::Send(
                    "osascript exit "@ + status + ": "@ + utf8_lossy_text(stderr) + utf8_lossy_text(
                        stdout,
                    ),
                ),
            )
        },
    }
}

/// The result of a send whose script ran with this outcome.
pub fn osascript_result(outcome: ScriptOutcome) -> (res: Result<SendResult, RsImessageError>)
    ensures
        send_outcome_view(res) == script_result(outcome@),
{
    match outcome {
        ScriptOutcome::NotStarted(e) => {
            let mut msg = String::new();
            append_str(&mut msg, "osascript failed to start: ");
            append_str(&mut msg, e.as_str());
            Err(RsImessageError::Send(msg))
        },
        ScriptOutcome::Exited { success, status, stderr, stdout } => {
            if success {
                return Ok(SendResult { ok: true, detail: None });
            }
            let err_text = utf8_lossy(stderr.as_slice());
            let out_text = utf8_lossy(stdout.as_slice());
            let mut msg = String::new();
            append_str(&mut msg, "osascript exit ");
            append_str(&mut msg, status.as_str());
            append_str(&mut msg, ": ");
            append_str(&mut msg, err_text.as_str());
            append_str(&mut msg, out_text.as_str());
            Err(RsImessageError::Send(msg))
        },
    }
}

/// What a send needs done next.
#[derive(Debug, PartialEq, Eq)]
pub enum SendAction {
    /// Open the database at `db_path` and look up the chat with this row id;
    /// answer with `SendEvent::ChatLookedUp`.
    LookupChat { chat_id: i64, db_path: String },
    /// Tell whether `path` is a regular file; answer with
    /// `SendEvent::FileChecked`.
    CheckFile { path: String },
    /// Copy the file into the Messages attachment staging directory; answer
    /// with `SendEvent::Staged`.
    StageAttachment { source: String },
    /// Run the script with `osascript -e`; answer with
    /// `SendEvent::ScriptExited`.
    RunScript { script: String },
    /// The send is over, with this result.
    Finished(Result<SendResult, RsImessageError>),
}

pub enum SendActionView {
    LookupChat { chat_id: i64, db_path: Seq<char> },
    CheckFile { path: Seq<char> },
    StageAttachment { source: Seq<char> },
    RunScript { script: Seq<char> },
    Finished(Result<SendResultView, ErrorView>),
}

impl View for SendAction {
    type V = SendActionView;

    open spec fn view(&self) -> SendActionView {
        match self {
            SendAction::LookupChat { chat_id, db_path } => SendActionView::LookupChat {
                chat_id: *chat_id,
                db_path: db_path@,
            },
            SendAction::CheckFile { path } => SendActionView::CheckFile { path: path@ },
            SendAction::StageAttachment { source } => SendActionView::StageAttachment {
                source: source@,
            },
            SendAction::RunScript { script } => SendActionView::RunScript { script: script@ },
            SendAction::Finished(r) => SendActionView::Finished(send_outcome_view(*r)),
        }
    }
}

/// The outcome of the outside work a send asked for.
#[derive(Debug, PartialEq, Eq)]
pub enum SendEvent {
    /// The guid of the chat looked up, `None` when no chat has that row id.
    ChatLookedUp(Result<Option<String>, RsImessageError>),
    /// Whether the file is a regular file.
    FileChecked(bool),
    /// Where the attachment was staged.
    Staged(Result<String, RsImessageError>),
    /// How the script ran.
    ScriptExited(ScriptOutcome),
}

pub enum SendEventView {
    ChatLookedUp(Result<Option<Seq<char>>, ErrorView>),
    FileChecked(bool),
    Staged(Result<Seq<char>, ErrorView>),
    ScriptExited(ScriptOutcomeView),
}

impl View for SendEvent {
    type V = SendEventView;

    open spec fn view(&self) -> SendEventView {
        match self {
            SendEvent::ChatLookedUp(r) => SendEventView::ChatLookedUp(
                match r {
                    Ok(Some(g)) => Ok(Some(g@)),
                    Ok(None) => Ok(None),
                    Err(e) => Err(e@),
                },
            ),
            SendEvent::FileChecked(b) => SendEventView::FileChecked(*b),
            SendEvent::Staged(r) => SendEventView::Staged(
                match r {
                    Ok(p) => Ok(p@),
                    Err(e) => Err(e@),
                },
            ),
            SendEvent::ScriptExited(o) => SendEventView::ScriptExited(o@),
        }
    }
}

/// Where a send stands.
#[derive(Debug, Clone, PartialEq, Eq)]
pub enum SendPhase {
    AwaitingChat { chat_id: i64 },
    AwaitingFileCheck { target: String, file: String },
    AwaitingStaging { target: String },
    AwaitingScript,
    Done,
}

pub enum SendPhaseView {
    AwaitingChat { chat_id: i64 },
    AwaitingFileCheck { target: Seq<char>, file: Seq<char> },
    AwaitingStaging { target: Seq<char> },
    AwaitingScript,
    Done,
}

impl View for SendPhase {
    type V = SendPhaseView;

    open spec fn view(&self) -> SendPhaseView {
        match self {
            SendPhase::AwaitingChat { chat_id } => SendPhaseView::AwaitingChat {
                chat_id: *chat_id,
            },
            SendPhase::AwaitingFileCheck { target, file } => SendPhaseView::AwaitingFileCheck {
                target: target@,
                file: file@,
            },
            SendPhase::AwaitingStaging { target } => SendPhaseView::AwaitingStaging {
                target: target@,
            },
            SendPhase::AwaitingScript => SendPhaseView::AwaitingScript,
            SendPhase::Done => SendPhaseView::Done,
        }
    }
}

/// The recipient named directly by a request: `to`, else the chat guid,
/// else the chat identifier.
pub open spec fn direct_target(r: SendRequestView) -> Option<Seq<char>> {
    if r.to is Some {
        r.to
    } else if r.chat_guid is Some {
        r.chat_guid
    } else {
        r.chat_identifier
    }
}

/// Once the recipient is known: a file is checked first; otherwise a
/// non-empty text is sent; otherwise the send fails.
pub open spec fn with_target(r: SendRequestView, target: Seq<char>) -> (
    SendPhaseView,
    SendActionView,
) {
    match r.file {
        Some(f) => (
            SendPhaseView::AwaitingFileCheck { target, file: f },
            SendActionView::CheckFile { path: f },
        ),
        None => if r.text is Some && r.text->0.len() > 0 {
            (
                SendPhaseView::AwaitingScript,
                SendActionView::RunScript {
                    script: send_script_text(
                        target,
                        r.text->0,
                        service_label_text(r.service),
                        None,
                    ),
                },
            )
        } else {
            (
                SendPhaseView::Done,
                SendActionView::Finished(Err(ErrorView::Send(NO_TEXT_TEXT@))),
            )
        },
    }
}

/// How a send of `r` with the database at `db` begins.
pub open spec fn send_start(r: SendRequestView, db: Seq<char>) -> (SendPhaseView, SendActionView) {
    match direct_target(r) {
        Some(t) => with_target(r, t),
        None => match r.chat_id {
            Some(id) => (
                SendPhaseView::AwaitingChat { chat_id: id },
                SendActionView::LookupChat { chat_id: id, db_path: db },
            ),
            None => (
                SendPhaseView::Done,
                SendActionView::Finished(Err(ErrorView::Send(NO_TARGET_TEXT@))),
            ),
        },
    }
}

/// The error for a chat row id that names no chat.
pub open spec fn chat_not_found_text(chat_id: i64) -> Seq<char> {
    "chat_id "@ + int_text(chat_id as int) + " not found"@
}

/// Whether `e` answers what a send in phase `p` asked for.
pub open spec fn answers(p: SendPhaseView, e: SendEventView) -> bool {
    match p {
        SendPhaseView::AwaitingChat { .. } => e is ChatLookedUp,
        SendPhaseView::AwaitingFileCheck { .. } => e is FileChecked,
        SendPhaseView::AwaitingStaging { .. } => e is Staged,
        SendPhaseView::AwaitingScript => e is ScriptExited,
        SendPhaseView::Done => false,
    }
}

/// How a send of `r` in phase `p` goes on once the outside work answers with
/// `e`.
pub open spec fn send_next(r: SendRequestView, p: SendPhaseView, e: SendEventView) -> (
    SendPhaseView,
    SendActionView,
) {
    match p {
        SendPhaseView::AwaitingChat { chat_id } => match e {
            SendEventView::ChatLookedUp(Ok(Some(guid))) => with_target(r, guid),
            SendEventView::ChatLookedUp(Ok(None)) => (
                SendPhaseView::Done,
                SendActionView::Finished(Err(ErrorView::Send(chat_not_found_text(chat_id)))),
            ),
            SendEventView::ChatLookedUp(Err(err)) => (
                SendPhaseView::Done,
                SendActionView::Finished(Err(err)),
            ),
            _ => (p, SendActionView::Finished(Err(ErrorView::Send(Seq::empty())))),
        },
        SendPhaseView::AwaitingFileCheck { target, file } => match e {
            SendEventView::FileChecked(is_file) => if is_file {
                (
                    SendPhaseView::AwaitingStaging { target },
                    SendActionView::StageAttachment { source: file },
                )
            } else {
                (
                    SendPhaseView::Done,
                    SendActionView::Finished(
                        Err(ErrorView::Send("file not found: "@ + file)),
                    ),
                )
            },
            _ => (p, SendActionView::Finished(Err(ErrorView::Send(Seq::empty())))),
        },
        SendPhaseView::AwaitingStaging { target } => match e {
            SendEventView::Staged(Ok(dest)) => (
                SendPhaseView::AwaitingScript,
                SendActionView::RunScript {
                    script: send_script_text(
                        target,
                        if r.text is Some {
                            r.text->0
                        } else {
                            Seq::empty()
                        },
                        service_label_text(r.service),
                        Some(dest),
                    ),
                },
            ),
            SendEventView::Staged(Err(err)) => (
                SendPhaseView::Done,
                SendActionView::Finished(Err(err)),
            ),
            _ => (p, SendActionView::Finished(Err(ErrorView::Send(Seq::empty())))),
        },
        SendPhaseView::AwaitingScript => match e {
            SendEventView::ScriptExited(o) => (
                SendPhaseView::Done,
                SendActionView::Finished(script_result(o)),
            ),
            _ => (p, SendActionView::Finished(Err(ErrorView::Send(Seq::empty())))),
        },
        SendPhaseView::Done => (p, SendActionView::Finished(Err(ErrorView::Send(Seq::empty())))),
    }
}

/// A send in progress.
pub struct SendSession {
    request: SendRequest,
    phase: SendPhase,
}

impl SendSession {
    /// The request being sent.
    pub closed spec fn request_view(&self) -> SendRequestView {
        self.request@
    }

    /// Where the send stands.
    pub closed spec fn phase_view(&self) -> SendPhaseView {
        self.phase@
    }

    /// Whether `event` answers what this send is waiting for.
    pub fn awaits(&self, event: &SendEvent) -> (res: bool)
        ensures
            res == answers(self.phase_view(), event@),
    {
        match (&self.phase, event) {
            (SendPhase::AwaitingChat { .. }, SendEvent::ChatLookedUp(_)) => true,
            (SendPhase::AwaitingFileCheck { .. }, SendEvent::FileChecked(_)) => true,
            (SendPhase::AwaitingStaging { .. }, SendEvent::Staged(_)) => true,
            (SendPhase::AwaitingScript, SendEvent::ScriptExited(_)) => true,
            _ => false,
        }
    }

    /// Whether the send is over.
    pub fn is_done(&self) -> (res: bool)
        ensures
            res == (self.phase_view() is Done),
    {
        match self.phase {
            SendPhase::Done => true,
            _ => false,
        }
    }

    /// Goes on once the recipient is known.
    fn proceed(request: &SendRequest, target: String) -> (res: (SendPhase, SendAction))
        ensures
            (res.0@, res.1@) == with_target(request@, target@),
    {
        match &request.file {
            Some(f) => (
                SendPhase::AwaitingFileCheck { target, file: f.clone() },
                SendAction::CheckFile { path: f.clone() },
            ),
            None => {
                match &request.text {
                    Some(t) => {
                        if t.as_str().is_empty() {
                            let mut msg = String::new();
                            append_str(&mut msg, NO_TEXT_TEXT);
                            (SendPhase::Done, SendAction::Finished(Err(RsImessageError::Send(msg))))
                        } else {
                            let script = build_send_script(
                                target.as_str(),
                                t.as_str(),
                                service_label(request.service),
                                None,
                            );
                            match script {
                                Ok(s) => (SendPhase::AwaitingScript, SendAction::RunScript { script: s }),
                                Err(e) => (SendPhase::Done, SendAction::Finished(Err(e))),
                            }
                        }
                    },
                    None => {
                        let mut msg = String::new();
                        append_str(&mut msg, NO_TEXT_TEXT);
                        (SendPhase::Done, SendAction::Finished(Err(RsImessageError::Send(msg))))
                    },
                }
            },
        }
    }

    /// Goes on with the outcome of the outside work this send asked for.
    pub fn resume(&mut self, event: SendEvent) -> (action: SendAction)
        requires
            answers(old(self).phase_view(), event@),
        ensures
            final(self).request_view() == old(self).request_view(),
            (final(self).phase_view(), action@) == send_next(
                old(self).request_view(),
                old(self).phase_view(),
                event@,
            ),
    {
        let mut phase = SendPhase::Done;
        std::mem::swap(&mut phase, &mut self.phase);
        match phase {
            SendPhase::AwaitingChat { chat_id } => match event {
                SendEvent::ChatLookedUp(Ok(Some(guid))) => {
                    let (p, a) = SendSession::proceed(&self.request, guid);
                    self.phase = p;
                    a
                },
                SendEvent::ChatLookedUp(Ok(None)) => {
                    let mut msg = String::new();
                    append_str(&mut msg, "chat_id ");
                    let id = i64_text(chat_id);
                    append_str(&mut msg, id.as_str());
                    append_str(&mut msg, " not found");
                    SendAction::Finished(Err(RsImessageError::Send(msg)))
                },
                SendEvent::ChatLookedUp(Err(e)) => SendAction::Finished(Err(e)),
                _ => SendAction::Finished(Err(RsImessageError::Send(String::new()))),
            },
            SendPhase::AwaitingFileCheck { target, file } => match event {
                SendEvent::FileChecked(is_file) => {
                    if is_file {
                        self.phase = SendPhase::AwaitingStaging { target };
                        SendAction::StageAttachment { source: file }
                    } else {
                        let mut msg = String::new();
                        append_str(&mut msg, "file not found: ");
                        append_str(&mut msg, file.as_str());
                        SendAction::Finished(Err(RsImessageError::Send(msg)))
                    }
                },
                _ => SendAction::Finished(Err(RsImessageError::Send(String::new()))),
            },
            SendPhase::AwaitingStaging { target } => match event {
                SendEvent::Staged(Ok(dest)) => {
                    proof {
                        reveal_strlit("");
                    }
                    let caption = match &self.request.text {
                        Some(t) => t.as_str(),
                        None => "",
                    };
                    let script = build_send_script(
                        target.as_str(),
                        caption,
                        service_label(self.request.service),
                        Some(dest.as_str()),
                    );
                    match script {
                        Ok(s) => {
                            self.phase = SendPhase::AwaitingScript;
                            SendAction::RunScript { script: s }
                        },
                        Err(e) => SendAction::Finished(Err(e)),
                    }
                },
                SendEvent::Staged(Err(e)) => SendAction::Finished(Err(e)),
                _ => SendAction::Finished(Err(RsImessageError::Send(String::new()))),
            },
            SendPhase::AwaitingScript => match event {
                SendEvent::ScriptExited(outcome) => SendAction::Finished(osascript_result(outcome)),
                _ => SendAction::Finished(Err(RsImessageError::Send(String::new()))),
            },
            SendPhase::Done => SendAction::Finished(Err(RsImessageError::Send(String::new()))),
        }
    }
}

/// Starts sending `request`, looking chats up in the database at `db_path`.
pub fn send_with_db(request: &SendRequest, db_path: &str) -> (res: (SendSession, SendAction))
    ensures
        res.0.request_view() == request@,
        (res.0.phase_view(), res.1@) == send_start(request@, db_path@),
{
    let req = request.duplicate();
    let direct = if request.to.is_some() {
        clone_opt_string(&request.to)
    } else if request.chat_guid.is_some() {
        clone_opt_string(&request.chat_guid)
    } else {
        clone_opt_string(&request.chat_identifier)
    };
    match direct {
        Some(target) => {
            let (phase, action) = SendSession::proceed(&req, target);
            (SendSession { request: req, phase }, action)
        },
        None => match request.chat_id {
            Some(id) => {
                let mut db = String::new();
                append_str(&mut db, db_path);
                (
                    SendSession { request: req, phase: SendPhase::AwaitingChat { chat_id: id } },
                    SendAction::LookupChat { chat_id: id, db_path: db },
                )
            },
            None => {
                let mut msg = String::new();
                append_str(&mut msg, NO_TARGET_TEXT);
                (
                    SendSession { request: req, phase: SendPhase::Done },
                    SendAction::Finished(Err(RsImessageError::Send(msg))),
                )
            },
        },
    }
}

/// Starts sending `request` through the default database, whose path is
/// `chat_db` (see `paths::chat_db_from_env`).
pub fn send(request: &SendRequest, chat_db: &str) -> (res: (SendSession, SendAction))
    ensures
        res.0.request_view() == request@,
        (res.0.phase_view(), res.1@) == send_start(request@, chat_db@),
{
    send_with_db(request, chat_db)
}

} // verus!
