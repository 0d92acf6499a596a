//! Relaunching Messages with the bridge library injected.
//!
//! Launching alternates decisions with outside work: checking the ready
//! lock, asking `csrutil`, stopping Messages, preparing the queue
//! directories, starting Messages again and waiting for the lock. The
//! decisions live here as a session that, fed the outcome of each piece of
//! work, says what to do next.
use vstd::prelude::*;

use crate::error::{ErrorView, RsImessageError};
use crate::paths::joined;
use crate::private_api::paths::{
    bridge_ready_lock, container_text, rpc_inbox, rpc_outbox, BridgeLayout,
};
use crate::private_api::sip::{
    current_sip_status, opt_bytes_view, sip_requirement, sip_status_of, SipStatus,
};
use crate::text::{append_str, owned};
use crate::types::opt_string_view;

verus! {

/// Messages' executable.
pub const MESSAGES_BIN: &'static str = "/System/Applications/Messages.app/Contents/MacOS/Messages";

/// The variable through which the library is injected.
pub const INJECT_VAR: &'static str = "DYLD_INSERT_LIBRARIES";

/// How long to wait after stopping Messages, in milliseconds.
pub const RELAUNCH_PAUSE_MS: u64 = 1000;

/// How long to wait for the ready lock, in milliseconds.
pub const READY_TIMEOUT_MS: u64 = 15000;

/// How often to look for the ready lock, in milliseconds.
pub const READY_POLL_MS: u64 = 250;

/// How long to let the bridge settle once the lock appears, in milliseconds.
pub const READY_SETTLE_MS: u64 = 500;

pub const DYLIB_NOT_FOUND_TEXT: &'static str = " not found; build from openclaw/imsg (make build-dylib) or set RS_IMESSAGE_BRIDGE_DYLIB";

pub const READY_TIMEOUT_TEXT: &'static str = "timeout waiting for bridge ready lock";

pub const MKDIR_TEXT: &'static str = "mkdir ";

pub const DYLIB_PATH_TEXT: &'static str = "dylib path: ";

pub const LAUNCH_FAILED_TEXT: &'static str = "launch Messages: ";

/// The bridge library that will be injected.
#[derive(Debug, Clone, PartialEq, Eq)]
pub struct Launcher {
    pub dylib_path: String,
}

impl Launcher {
    /// Finds the bridge library: `resolved` is the result of
    /// `resolve_dylib`, and `dylib_name` the library's file name, used in
    /// the error when none was found.
    pub fn discover(resolved: Option<String>, dylib_name: &str) -> (res: Result<
        Launcher,
        RsImessageError,
    >)
        ensures
            resolved is Some <==> res is Ok,
            res matches Ok(l) ==> opt_string_view(resolved) == Some(l.dylib_path@),
            res matches Err(e) ==> e@ == ErrorView::PrivateApi(dylib_name@ + DYLIB_NOT_FOUND_TEXT@),
    {
        match resolved {
            Some(p) => Ok(Launcher { dylib_path: p }),
            None => {
                let mut msg = owned(dylib_name);
                append_str(&mut msg, DYLIB_NOT_FOUND_TEXT);
                Err(RsImessageError::PrivateApi(msg))
            },
        }
    }

    /// Whether the bridge is ready, given whether its ready lock (see
    /// `bridge_ready_lock`) is a file.
    pub fn is_ready(&self, lock_present: bool) -> (res: bool)
        ensures
            res == lock_present,
    {
        lock_present
    }

    /// Starts making sure the bridge is running, for the home directory
    /// `home` and the bridge's file names `layout`.
    pub fn ensure_launched(&self, home: &str, layout: &BridgeLayout) -> (res: (
        LaunchSession,
        LaunchAction,
    ))
        ensures
            res.0.setup() == launch_setup(self.dylib_path@, home@, layout@),
            res.0.phase() == LaunchPhase::CheckingReady,
            !res.0.launched(),
            res.1@ == (LaunchActionView::CheckReady { lock: res.0.setup().lock }),
    {
        let lock = bridge_ready_lock(home, layout);
        let inbox = rpc_inbox(home, layout);
        let outbox = rpc_outbox(home, layout);
        let action = LaunchAction::CheckReady { lock: owned(lock.as_str()) };
        (
            LaunchSession {
                dylib: owned(self.dylib_path.as_str()),
                lock,
                inbox,
                outbox,
                phase: LaunchPhase::CheckingReady,
                launched: false,
            },
            action,
        )
    }
}

/// The bridge's file names as values.
pub struct BridgeLayoutView {
    pub ready_lock: Seq<char>,
    pub rpc_dir: Seq<char>,
    pub inbox: Seq<char>,
    pub outbox: Seq<char>,
    pub events_log: Seq<char>,
    pub dylib_name: Seq<char>,
}

impl View for BridgeLayout {
    type V = BridgeLayoutView;

    open spec fn view(&self) -> BridgeLayoutView {
        BridgeLayoutView {
            ready_lock: self.ready_lock@,
            rpc_dir: self.rpc_dir@,
            inbox: self.inbox@,
            outbox: self.outbox@,
            events_log: self.events_log@,
            dylib_name: self.dylib_name@,
        }
    }
}

/// What a launch works with: the library and the three paths it touches.
pub struct LaunchSetup {
    pub dylib: Seq<char>,
    pub lock: Seq<char>,
    pub inbox: Seq<char>,
    pub outbox: Seq<char>,
}

/// The setup for the library `dylib` under the home directory `home`.
pub open spec fn launch_setup(dylib: Seq<char>, home: Seq<char>, layout: BridgeLayoutView) -> LaunchSetup {
    let data = container_text(home);
    LaunchSetup {
        dylib,
        lock: joined(data, layout.ready_lock),
        inbox: joined(joined(data, layout.rpc_dir), layout.inbox),
        outbox: joined(joined(data, layout.rpc_dir), layout.outbox),
    }
}

/// What to do next.
#[derive(Debug, PartialEq, Eq)]
pub enum LaunchAction {
    /// Say whether the ready lock `lock` is a file.
    CheckReady { lock: String },
    /// Run `/usr/bin/csrutil status` and hand back what it wrote.
    ReadSipStatus,
    /// Stop Messages (`killall Messages`), whatever comes of it.
    KillMessages,
    /// Wait this many milliseconds.
    Pause { ms: u64 },
    /// Remove the ready lock, whatever comes of it.
    RemoveLock { lock: String },
    /// Create the directory `path` and its parents.
    MakeDir { path: String },
    /// Remove the files directly in `path`, when it is a directory.
    CleanDir { path: String },
    /// Make the library path `path` absolute.
    ResolveDylib { path: String },
    /// Start `program` with `var` set to `dylib`.
    Launch { program: String, var: String, dylib: String },
    /// Look for `lock` every `poll_ms` until `timeout_ms` have passed; once
    /// it is there, wait `settle_ms` more.
    AwaitReady { lock: String, timeout_ms: u64, poll_ms: u64, settle_ms: u64 },
    /// The launch is over, with this outcome.
    Finished(Result<(), RsImessageError>),
}

pub enum LaunchActionView {
    CheckReady { lock: Seq<char> },
    ReadSipStatus,
    KillMessages,
    Pause { ms: u64 },
    RemoveLock { lock: Seq<char> },
    MakeDir { path: Seq<char> },
    CleanDir { path: Seq<char> },
    ResolveDylib { path: Seq<char> },
    Launch { program: Seq<char>, var: Seq<char>, dylib: Seq<char> },
    AwaitReady { lock: Seq<char>, timeout_ms: u64, poll_ms: u64, settle_ms: u64 },
    Finished(Result<(), ErrorView>),
}

impl View for LaunchAction {
    type V = LaunchActionView;

    open spec fn view(&self) -> LaunchActionView {
        match self {
            LaunchAction::CheckReady { lock } => LaunchActionView::CheckReady { lock: lock@ },
            LaunchAction::ReadSipStatus => LaunchActionView::ReadSipStatus,
            LaunchAction::KillMessages => LaunchActionView::KillMessages,
            LaunchAction::Pause { ms } => LaunchActionView::Pause { ms: *ms },
            LaunchAction::RemoveLock { lock } => LaunchActionView::RemoveLock { lock: lock@ },
            LaunchAction::MakeDir { path } => LaunchActionView::MakeDir { path: path@ },
            LaunchAction::CleanDir { path } => LaunchActionView::CleanDir { path: path@ },
            LaunchAction::ResolveDylib { path } => LaunchActionView::ResolveDylib { path: path@ },
            LaunchAction::Launch { program, var, dylib } => LaunchActionView::Launch {
                program: program@,
                var: var@,
                dylib: dylib@,
            },
            LaunchAction::AwaitReady { lock, timeout_ms, poll_ms, settle_ms } =>
                LaunchActionView::AwaitReady {
                lock: lock@,
                timeout_ms: *timeout_ms,
                poll_ms: *poll_ms,
                settle_ms: *settle_ms,
            },
            LaunchAction::Finished(Ok(())) => LaunchActionView::Finished(Ok(())),
            LaunchAction::Finished(Err(e)) => LaunchActionView::Finished(Err(e@)),
        }
    }
}

/// How a piece of work turned out.
#[derive(Debug, PartialEq, Eq)]
pub enum LaunchEvent {
    /// Whether the ready lock is a file.
    ReadyChecked(bool),
    /// What `csrutil status` wrote, or `None` when it could not be run.
    SipRead(Option<Vec<u8>>),
    /// A step that cannot fail is done.
    Completed,
    /// The directory was made, or the text of the failure.
    DirMade(Result<(), String>),
    /// The directory was cleaned, or the text of the failure.
    DirCleaned(Result<(), String>),
    /// The absolute library path, or the text of the failure.
    DylibResolved(Result<String, String>),
    /// Messages started, or the text of the failure.
    Spawned(Result<(), String>),
    /// Whether the ready lock appeared in time.
    ReadyWaited(bool),
}

pub enum LaunchEventView {
    ReadyChecked(bool),
    SipRead(Option<Seq<u8>>),
    Completed,
    DirMade(Result<(), Seq<char>>),
    DirCleaned(Result<(), Seq<char>>),
    DylibResolved(Result<Seq<char>, Seq<char>>),
    Spawned(Result<(), Seq<char>>),
    ReadyWaited(bool),
}

/// The view of a unit result carrying a failure text.
pub open spec fn unit_text_view(r: Result<(), String>) -> Result<(), Seq<char>> {
    match r {
        Ok(()) => Ok(()),
        Err(t) => Err(t@),
    }
}

impl View for LaunchEvent {
    type V = LaunchEventView;

    open spec fn view(&self) -> LaunchEventView {
        match self {
            LaunchEvent::ReadyChecked(b) => LaunchEventView::ReadyChecked(*b),
            LaunchEvent::SipRead(o) => LaunchEventView::SipRead(opt_bytes_view(*o)),
            LaunchEvent::Completed => LaunchEventView::Completed,
            LaunchEvent::DirMade(r) => LaunchEventView::DirMade(unit_text_view(*r)),
            LaunchEvent::DirCleaned(r) => LaunchEventView::DirCleaned(unit_text_view(*r)),
            LaunchEvent::DylibResolved(Ok(p)) => LaunchEventView::DylibResolved(Ok(p@)),
            LaunchEvent::DylibResolved(Err(t)) => LaunchEventView::DylibResolved(Err(t@)),
            LaunchEvent::Spawned(r) => LaunchEventView::Spawned(unit_text_view(*r)),
            LaunchEvent::ReadyWaited(b) => LaunchEventView::ReadyWaited(*b),
        }
    }
}

/// Where a launch stands.
#[derive(Debug, Clone, Copy, PartialEq, Eq, Structural)]
pub enum LaunchPhase {
    CheckingReady,
    ReadingSip,
    Stopping,
    Pausing,
    RemovingLock,
    MakingInbox,
    MakingOutbox,
    CleaningInbox,
    CleaningOutbox,
    ResolvingDylib,
    Spawning,
    AwaitingReady,
    Done,
}

/// Whether `e` is the outcome of the work that phase `p` waits for.
pub open spec fn launch_answers(p: LaunchPhase, e: LaunchEventView) -> bool {
    match p {
        LaunchPhase::CheckingReady => e is ReadyChecked,
        LaunchPhase::ReadingSip => e is SipRead,
        LaunchPhase::Stopping | LaunchPhase::Pausing | LaunchPhase::RemovingLock => e is Completed,
        LaunchPhase::MakingInbox | LaunchPhase::MakingOutbox => e is DirMade,
        LaunchPhase::CleaningInbox | LaunchPhase::CleaningOutbox => e is DirCleaned,
        LaunchPhase::ResolvingDylib => e is DylibResolved,
        LaunchPhase::Spawning => e is Spawned,
        LaunchPhase::AwaitingReady => e is ReadyWaited,
        LaunchPhase::Done => false,
    }
}

/// The end of a launch, with this outcome.
pub open spec fn launch_end(r: Result<(), ErrorView>) -> (LaunchPhase, LaunchActionView) {
    (LaunchPhase::Done, LaunchActionView::Finished(r))
}

/// The error for a directory that could not be made.
pub open spec fn mkdir_error(path: Seq<char>, failure: Seq<char>) -> ErrorView {
    ErrorView::PrivateApi(MKDIR_TEXT@ + path + ": "@ + failure)
}

/// After making the directory `path`: go on with `next`, or end with the
/// failure.
pub open spec fn after_mkdir(
    r: Result<(), Seq<char>>,
    path: Seq<char>,
    next: (LaunchPhase, LaunchActionView),
) -> (LaunchPhase, LaunchActionView) {
    match r {
        Ok(()) => next,
        Err(t) => launch_end(Err(mkdir_error(path, t))),
    }
}

/// After cleaning a directory: go on with `next`, or end with an I/O error.
pub open spec fn after_clean(r: Result<(), Seq<char>>, next: (LaunchPhase, LaunchActionView)) -> (
    LaunchPhase,
    LaunchActionView,
) {
    match r {
        Ok(()) => next,
        Err(t) => launch_end(Err(ErrorView::Io(t))),
    }
}

/// The next phase and action of a launch with setup `c`, in phase `p`,
/// once the awaited work turned out as `e`.
pub open spec fn launch_next(c: LaunchSetup, p: LaunchPhase, e: LaunchEventView) -> (
    LaunchPhase,
    LaunchActionView,
) {
    match p {
        LaunchPhase::CheckingReady => match e {
            LaunchEventView::ReadyChecked(true) => launch_end(Ok(())),
            _ => (LaunchPhase::ReadingSip, LaunchActionView::ReadSipStatus),
        },
        LaunchPhase::ReadingSip => match e {
            LaunchEventView::SipRead(o) => match sip_requirement(sip_status_of(o)) {
                Ok(()) => (LaunchPhase::Stopping, LaunchActionView::KillMessages),
                Err(err) => launch_end(Err(err)),
            },
            _ => launch_end(Err(ErrorView::Other(Seq::empty()))),
        },
        LaunchPhase::Stopping => (
            LaunchPhase::Pausing,
            LaunchActionView::Pause { ms: RELAUNCH_PAUSE_MS },
        ),
        LaunchPhase::Pausing => (LaunchPhase::RemovingLock, LaunchActionView::RemoveLock { lock: c.lock }),
        LaunchPhase::RemovingLock => (
            LaunchPhase::MakingInbox,
            LaunchActionView::MakeDir { path: c.inbox },
        ),
        LaunchPhase::MakingInbox => match e {
            LaunchEventView::DirMade(r) => after_mkdir(
                r,
                c.inbox,
                (LaunchPhase::MakingOutbox, LaunchActionView::MakeDir { path: c.outbox }),
            ),
            _ => launch_end(Err(ErrorView::Other(Seq::empty()))),
        },
        LaunchPhase::MakingOutbox => match e {
            LaunchEventView::DirMade(r) => after_mkdir(
                r,
                c.outbox,
                (LaunchPhase::CleaningInbox, LaunchActionView::CleanDir { path: c.inbox }),
            ),
            _ => launch_end(Err(ErrorView::Other(Seq::empty()))),
        },
        LaunchPhase::CleaningInbox => match e {
            LaunchEventView::DirCleaned(r) => after_clean(
                r,
                (LaunchPhase::CleaningOutbox, LaunchActionView::CleanDir { path: c.outbox }),
            ),
            _ => launch_end(Err(ErrorView::Other(Seq::empty()))),
        },
        LaunchPhase::CleaningOutbox => match e {
            LaunchEventView::DirCleaned(r) => after_clean(
                r,
                (LaunchPhase::ResolvingDylib, LaunchActionView::ResolveDylib { path: c.dylib }),
            ),
            _ => launch_end(Err(ErrorView::Other(Seq::empty()))),
        },
        LaunchPhase::ResolvingDylib => match e {
            LaunchEventView::DylibResolved(Ok(path)) => (
                LaunchPhase::Spawning,
                LaunchActionView::Launch { program: MESSAGES_BIN@, var: INJECT_VAR@, dylib: path },
            ),
            LaunchEventView::DylibResolved(Err(t)) => launch_end(
                Err(ErrorView::PrivateApi(DYLIB_PATH_TEXT@ + t)),
            ),
            _ => launch_end(Err(ErrorView::Other(Seq::empty()))),
        },
        LaunchPhase::Spawning => match e {
            LaunchEventView::Spawned(Ok(())) => (
                LaunchPhase::AwaitingReady,
                LaunchActionView::AwaitReady {
                    lock: c.lock,
                    timeout_ms: READY_TIMEOUT_MS,
                    poll_ms: READY_POLL_MS,
                    settle_ms: READY_SETTLE_MS,
                },
            ),
            LaunchEventView::Spawned(Err(t)) => launch_end(
                Err(ErrorView::PrivateApi(LAUNCH_FAILED_TEXT@ + t)),
            ),
            _ => launch_end(Err(ErrorView::Other(Seq::empty()))),
        },
        LaunchPhase::AwaitingReady => match e {
            LaunchEventView::ReadyWaited(true) => launch_end(Ok(())),
            _ => launch_end(Err(ErrorView::PrivateApi(READY_TIMEOUT_TEXT@))),
        },
        LaunchPhase::Done => launch_end(Err(ErrorView::Other(Seq::empty()))),
    }
}

/// A launch under way.
#[derive(Debug)]
pub struct LaunchSession {
    dylib: String,
    lock: String,
    inbox: String,
    outbox: String,
    phase: LaunchPhase,
    launched: bool,
}

impl LaunchSession {
    /// Whether this launch has ended successfully: the bridge was found ready,
    /// or became ready after Messages was relaunched.
    pub closed spec fn launched(&self) -> bool {
        self.launched
    }

    /// Whether this launch has ended successfully.
    pub fn succeeded(&self) -> (res: bool)
        ensures
            res == self.launched(),
    {
        self.launched
    }

    /// The library this launch injects.
    pub fn dylib_path(&self) -> (res: &str)
        ensures
            res@ == self.setup().dylib,
    {
        self.dylib.as_str()
    }

    /// The library and paths this launch works with.
    pub closed spec fn setup(&self) -> LaunchSetup {
        LaunchSetup {
            dylib: self.dylib@,
            lock: self.lock@,
            inbox: self.inbox@,
            outbox: self.outbox@,
        }
    }

    /// Where this launch stands.
    pub closed spec fn phase(&self) -> LaunchPhase {
        self.phase
    }

    /// Whether `event` is the outcome this launch waits for.
    pub fn awaits(&self, event: &LaunchEvent) -> (res: bool)
        ensures
            res == launch_answers(self.phase(), event@),
    {
        match self.phase {
            LaunchPhase::CheckingReady => matches!(event, LaunchEvent::ReadyChecked(_)),
            LaunchPhase::ReadingSip => matches!(event, LaunchEvent::SipRead(_)),
            LaunchPhase::Stopping | LaunchPhase::Pausing | LaunchPhase::RemovingLock => matches!(
                event,
                LaunchEvent::Completed
            ),
            LaunchPhase::MakingInbox | LaunchPhase::MakingOutbox => matches!(
                event,
                LaunchEvent::DirMade(_)
            ),
            LaunchPhase::CleaningInbox | LaunchPhase::CleaningOutbox => matches!(
                event,
                LaunchEvent::DirCleaned(_)
            ),
            LaunchPhase::ResolvingDylib => matches!(event, LaunchEvent::DylibResolved(_)),
            LaunchPhase::Spawning => matches!(event, LaunchEvent::Spawned(_)),
            LaunchPhase::AwaitingReady => matches!(event, LaunchEvent::ReadyWaited(_)),
            LaunchPhase::Done => false,
        }
    }

    /// Whether the launch is over.
    pub fn is_done(&self) -> (res: bool)
        ensures
            res == (self.phase() == LaunchPhase::Done),
    {
        matches!(self.phase, LaunchPhase::Done)
    }

    /// Feeds the outcome of the awaited work to the launch and says what to
    /// do next.
    pub fn resume(&mut self, event: LaunchEvent) -> (action: LaunchAction)
        requires
            launch_answers(old(self).phase(), event@),
        ensures
            final(self).setup() == old(self).setup(),
            final(self).launched() == (action@ == LaunchActionView::Finished(Ok::<(), ErrorView>(()))),
            (final(self).phase(), action@) == launch_next(
                old(self).setup(),
                old(self).phase(),
                event@,
            ),
    {
        let (phase, action) = match self.phase {
            LaunchPhase::CheckingReady => match event {
                LaunchEvent::ReadyChecked(true) => (LaunchPhase::Done, LaunchAction::Finished(Ok(()))),
                _ => (LaunchPhase::ReadingSip, LaunchAction::ReadSipStatus),
            },
            LaunchPhase::ReadingSip => match event {
                LaunchEvent::SipRead(o) => {
                    let status = current_sip_status(o);
                    match status {
                        SipStatus::Disabled => (LaunchPhase::Stopping, LaunchAction::KillMessages),
                        SipStatus::Enabled => (
                            LaunchPhase::Done,
                            LaunchAction::Finished(
                                Err(
                                    RsImessageError::PrivateApi(
                                        owned(crate::private_api::sip::SIP_ENABLED_TEXT),
                                    ),
                                ),
                            ),
                        ),
                        SipStatus::Unknown => (
                            LaunchPhase::Done,
                            LaunchAction::Finished(
                                Err(
                                    RsImessageError::PrivateApi(
                                        owned(crate::private_api::sip::SIP_UNKNOWN_TEXT),
                                    ),
                                ),
                            ),
                        ),
                    }
                },
                _ => (LaunchPhase::Done, LaunchAction::Finished(Err(RsImessageError::Other(String::new())))),
            },
            LaunchPhase::Stopping => (LaunchPhase::Pausing, LaunchAction::Pause { ms: RELAUNCH_PAUSE_MS }),
            LaunchPhase::Pausing => (
                LaunchPhase::RemovingLock,
                LaunchAction::RemoveLock { lock: owned(self.lock.as_str()) },
            ),
            LaunchPhase::RemovingLock => (
                LaunchPhase::MakingInbox,
                LaunchAction::MakeDir { path: owned(self.inbox.as_str()) },
            ),
            LaunchPhase::MakingInbox => match event {
                LaunchEvent::DirMade(Ok(())) => (
                    LaunchPhase::MakingOutbox,
                    LaunchAction::MakeDir { path: owned(self.outbox.as_str()) },
                ),
                LaunchEvent::DirMade(Err(t)) => (
                    LaunchPhase::Done,
                    LaunchAction::Finished(Err(mkdir_failure(self.inbox.as_str(), t.as_str()))),
                ),
                _ => (LaunchPhase::Done, LaunchAction::Finished(Err(RsImessageError::Other(String::new())))),
            },
            LaunchPhase::MakingOutbox => match event {
                LaunchEvent::DirMade(Ok(())) => (
                    LaunchPhase::CleaningInbox,
                    LaunchAction::CleanDir { path: owned(self.inbox.as_str()) },
                ),
                LaunchEvent::DirMade(Err(t)) => (
                    LaunchPhase::Done,
                    LaunchAction::Finished(Err(mkdir_failure(self.outbox.as_str(), t.as_str()))),
                ),
                _ => (LaunchPhase::Done, LaunchAction::Finished(Err(RsImessageError::Other(String::new())))),
            },
            LaunchPhase::CleaningInbox => match event {
                LaunchEvent::DirCleaned(Ok(())) => (
                    LaunchPhase::CleaningOutbox,
                    LaunchAction::CleanDir { path: owned(self.outbox.as_str()) },
                ),
                LaunchEvent::DirCleaned(Err(t)) => (
                    LaunchPhase::Done,
                    LaunchAction::Finished(Err(RsImessageError::Io(t))),
                ),
                _ => (LaunchPhase::Done, LaunchAction::Finished(Err(RsImessageError::Other(String::new())))),
            },
            LaunchPhase::CleaningOutbox => match event {
                LaunchEvent::DirCleaned(Ok(())) => (
                    LaunchPhase::ResolvingDylib,
                    LaunchAction::ResolveDylib { path: owned(self.dylib.as_str()) },
                ),
                LaunchEvent::DirCleaned(Err(t)) => (
                    LaunchPhase::Done,
                    LaunchAction::Finished(Err(RsImessageError::Io(t))),
                ),
                _ => (LaunchPhase::Done, LaunchAction::Finished(Err(RsImessageError::Other(String::new())))),
            },
            LaunchPhase::ResolvingDylib => match event {
                LaunchEvent::DylibResolved(Ok(path)) => (
                    LaunchPhase::Spawning,
                    LaunchAction::Launch {
                        program: owned(MESSAGES_BIN),
                        var: owned(INJECT_VAR),
                        dylib: path,
                    },
                ),
                LaunchEvent::DylibResolved(Err(t)) => {
                    let mut msg = owned(DYLIB_PATH_TEXT);
                    append_str(&mut msg, t.as_str());
                    (LaunchPhase::Done, LaunchAction::Finished(Err(RsImessageError::PrivateApi(msg))))
                },
                _ => (LaunchPhase::Done, LaunchAction::Finished(Err(RsImessageError::Other(String::new())))),
            },
            LaunchPhase::Spawning => match event {
                LaunchEvent::Spawned(Ok(())) => (
                    LaunchPhase::AwaitingReady,
                    LaunchAction::AwaitReady {
                        lock: owned(self.lock.as_str()),
                        timeout_ms: READY_TIMEOUT_MS,
                        poll_ms: READY_POLL_MS,
                        settle_ms: READY_SETTLE_MS,
                    },
                ),
                LaunchEvent::Spawned(Err(t)) => {
                    let mut msg = owned(LAUNCH_FAILED_TEXT);
                    append_str(&mut msg, t.as_str());
                    (LaunchPhase::Done, LaunchAction::Finished(Err(RsImessageError::PrivateApi(msg))))
                },
                _ => (LaunchPhase::Done, LaunchAction::Finished(Err(RsImessageError::Other(String::new())))),
            },
            LaunchPhase::AwaitingReady => match event {
                LaunchEvent::ReadyWaited(true) => (LaunchPhase::Done, LaunchAction::Finished(Ok(()))),
                _ => (
                    LaunchPhase::Done,
                    LaunchAction::Finished(Err(RsImessageError::PrivateApi(owned(READY_TIMEOUT_TEXT)))),
                ),
            },
            LaunchPhase::Done => (LaunchPhase::Done, LaunchAction::Finished(Err(RsImessageError::Other(String::new())))),
        };
        self.phase = phase;
        self.launched = match &action {
            LaunchAction::Finished(Ok(())) => true,
            _ => false,
        };
        action
    }
}

/// The error for the directory `path` that could not be made.
pub(crate) fn mkdir_failure(path: &str, failure: &str) -> (res: RsImessageError)
    ensures
        res@ == mkdir_error(path@, failure@),
{
    let mut msg = owned(MKDIR_TEXT);
    append_str(&mut msg, path);
    append_str(&mut msg, ": ");
    append_str(&mut msg, failure);
    RsImessageError::PrivateApi(msg)
}

} // verus!
