//! Following new messages. A watch keeps a cursor, the highest row id it has
//! reported; each poll reads the messages after it and reports them in
//! order. A watch session says when to wait for file events, when to let
//! writes settle and when to read; the caller does the waiting and reading.
use vstd::prelude::*;

use crate::db::{
    limit_param, messages_after_query, params_view, SqlParamView, SqlQuery,
    MESSAGES_AFTER_IN_CHAT_SQL, MESSAGES_AFTER_SQL, WATCH_BATCH_LIMIT,
};
use crate::error::{ErrorView, RsImessageError};
use crate::types::{MessageRecord, WatchEvent, WatchEventKind};

verus! {

/// How to watch.
#[derive(Debug, Clone, PartialEq, Eq)]
pub struct WatchOptions {
    /// Only messages of this chat.
    pub chat_id: Option<i64>,
    /// Start after this row; by default after the newest message.
    pub since_rowid: Option<i64>,
    /// How long to wait for a file event before polling anyway.
    pub poll_ms: u64,
    /// How long to let writes settle before reading.
    pub debounce_ms: u64,
}

/// The shortest settling time, in milliseconds.
pub const MIN_DEBOUNCE_MS: u64 = 50;

/// The shortest polling interval, in milliseconds.
pub const MIN_POLL_MS: u64 = 200;

impl WatchOptions {
    /// How long to let writes settle: the requested time, at least 50 ms.
    pub fn debounce(&self) -> (res: u64)
        ensures
            res == if self.debounce_ms >= MIN_DEBOUNCE_MS {
                self.debounce_ms
            } else {
                MIN_DEBOUNCE_MS
            },
    {
        if self.debounce_ms >= MIN_DEBOUNCE_MS {
            self.debounce_ms
        } else {
            MIN_DEBOUNCE_MS
        }
    }

    /// How long to wait for a file event: the requested time, at least
    /// 200 ms.
    pub fn poll_every(&self) -> (res: u64)
        ensures
            res == if self.poll_ms >= MIN_POLL_MS {
                self.poll_ms
            } else {
                MIN_POLL_MS
            },
    {
        if self.poll_ms >= MIN_POLL_MS {
            self.poll_ms
        } else {
            MIN_POLL_MS
        }
    }

    /// Whether the watch must first read the newest row id, having been
    /// given no row to start after.
    pub fn needs_newest_rowid(&self) -> (res: bool)
        ensures
            res == (self.since_rowid is None),
    {
        self.since_rowid.is_none()
    }
}

/// Where a watch starts: after `since_rowid` when given; else after the
/// newest row, or after row 0 when that could not be read.
pub open spec fn start_cursor(since_rowid: Option<i64>, newest: Option<Result<i64, RsImessageError>>) -> i64 {
    match since_rowid {
        Some(s) => s,
        None => match newest {
            Some(Ok(n)) => n,
            _ => 0,
        },
    }
}

/// Where a watch stands after reporting `batch`: after the last message of
/// it, or where it was when there was none.
pub open spec fn cursor_after(cursor: i64, batch: Seq<MessageRecord>) -> i64 {
    if batch.len() == 0 {
        cursor
    } else {
        batch.last().id
    }
}

/// A running watch.
#[derive(Debug, Clone, PartialEq, Eq)]
pub struct WatchCursor {
    cursor: i64,
    chat_id: Option<i64>,
}

impl WatchCursor {
    /// The highest row id reported so far (or the start).
    pub closed spec fn cursor_view(&self) -> i64 {
        self.cursor
    }

    /// The chat watched, if only one.
    pub closed spec fn chat_view(&self) -> Option<i64> {
        self.chat_id
    }

    /// Starts a watch. `newest` is the newest row id as read from the
    /// database, `None` when it was not read.
    pub fn start(options: &WatchOptions, newest: Option<Result<i64, RsImessageError>>) -> (res:
        WatchCursor)
        ensures
            res.cursor_view() == start_cursor(options.since_rowid, newest),
            res.chat_view() == options.chat_id,
    {
        let cursor = match options.since_rowid {
            Some(s) => s,
            None => match newest {
                Some(Ok(n)) => n,
                _ => 0,
            },
        };
        WatchCursor { cursor, chat_id: options.chat_id }
    }

    /// The highest row id reported so far.
    pub fn cursor(&self) -> (res: i64)
        ensures
            res == self.cursor_view(),
    {
        self.cursor
    }

    /// What the next poll reads: up to 200 messages after the cursor, of
    /// the watched chat if any, oldest first.
    pub fn next_query(&self) -> (res: SqlQuery)
        ensures
            self.chat_view() matches Some(cid) ==> {
                &&& res.sql@ == MESSAGES_AFTER_IN_CHAT_SQL@
                &&& params_view(res.params@) == seq![
                    SqlParamView::Int(self.cursor_view()),
                    SqlParamView::Int(cid),
                    SqlParamView::Int(limit_param(WATCH_BATCH_LIMIT)),
                ]
            },
            self.chat_view() is None ==> {
                &&& res.sql@ == MESSAGES_AFTER_SQL@
                &&& params_view(res.params@) == seq![
                    SqlParamView::Int(self.cursor_view()),
                    SqlParamView::Int(limit_param(WATCH_BATCH_LIMIT)),
                ]
            },
    {
        messages_after_query(self.cursor, self.chat_id, WATCH_BATCH_LIMIT)
    }

    /// Reports the messages a poll read, in order, and moves the cursor
    /// past them.
    pub fn deliver(&mut self, batch: Vec<MessageRecord>) -> (events: Vec<WatchEvent>)
        ensures
            final(self).cursor_view() == cursor_after(old(self).cursor_view(), batch@),
            final(self).chat_view() == old(self).chat_view(),
            events@.len() == batch@.len(),
            forall|i: int|
                0 <= i < batch@.len() ==> #[trigger] events@[i] == (WatchEvent {
                    kind: WatchEventKind::NewMessage,
                    message: batch@[i],
                }),
    {
        let ghost orig = batch@;
        let mut events: Vec<WatchEvent> = Vec::new();
        let mut rest = batch;
        while rest.len() > 0
            invariant
                rest@ == orig.skip(events@.len() as int),
                events@.len() + rest@.len() == orig.len(),
                forall|i: int|
                    0 <= i < events@.len() ==> #[trigger] events@[i] == (WatchEvent {
                        kind: WatchEventKind::NewMessage,
                        message: orig[i],
                    }),
                events@.len() == 0 ==> self.cursor == old(self).cursor,
                events@.len() > 0 ==> self.cursor == orig[events@.len() - 1].id,
                self.chat_id == old(self).chat_id,
            decreases rest.len(),
        {
            let ghost n = events@.len();
            let m = rest.remove(0);
            assert(m == orig[n as int]);
            self.cursor = m.id;
            events.push(WatchEvent { kind: WatchEventKind::NewMessage, message: m });
            assert(rest@ =~= orig.skip(n + 1 as int));
        }
        events
    }
}

/// Row ids never go down along the sequence (a message linked to several
/// chats comes once per chat, with the same id).
pub open spec fn ids_nondecreasing(s: Seq<MessageRecord>) -> bool {
    forall|i: int, j: int| 0 <= i < j < s.len() ==> s[i].id <= s[j].id
}

/// No message comes twice for the same chat along the sequence.
pub open spec fn rows_distinct(s: Seq<MessageRecord>) -> bool {
    forall|i: int, j: int|
        0 <= i < j < s.len() ==> !(s[i].id == s[j].id && s[i].chat_id == s[j].chat_id)
}

/// A poll's messages are not read again: a poll reads rows after the cursor
/// in row order, and after reporting them the cursor is at least every
/// reported row id, so the next poll, which reads after the cursor, cannot
/// read them again. The cursor never moves back.
pub proof fn law_watch_never_repeats(cursor: i64, batch: Seq<MessageRecord>)
    requires
        ids_nondecreasing(batch),
        forall|i: int| 0 <= i < batch.len() ==> #[trigger] batch[i].id > cursor,
    ensures
        cursor_after(cursor, batch) >= cursor,
        forall|i: int| 0 <= i < batch.len() ==> #[trigger] batch[i].id <= cursor_after(cursor, batch),
        batch.len() > 0 ==> cursor_after(cursor, batch) > cursor,
{
    if batch.len() > 0 {
        assert(batch[batch.len() - 1].id > cursor);
    }
}

/// Whether `batch` is what the watch query can return after row `cursor`:
/// rows above it in row order, one per message and chat, of chat `chat`
/// when one is watched.
pub open spec fn batch_fits(cursor: i64, chat: Option<i64>, batch: Seq<MessageRecord>) -> bool {
    &&& ids_nondecreasing(batch)
    &&& rows_distinct(batch)
    &&& forall|i: int| 0 <= i < batch.len() ==> #[trigger] batch[i].id > cursor
    &&& forall|i: int|
        0 <= i < batch.len() ==> (chat matches Some(c) ==> #[trigger] batch[i].chat_id == c)
}

/// Whether each of `batches` is what the watch query can return after the
/// cursor that the batches before it leave.
pub open spec fn batches_fit(cursor: i64, chat: Option<i64>, batches: Seq<Seq<MessageRecord>>) -> bool
    decreases batches.len(),
{
    batches.len() == 0 || (batch_fits(cursor, chat, batches[0]) && batches_fit(
        cursor_after(cursor, batches[0]),
        chat,
        batches.skip(1),
    ))
}

/// The messages a watch delivers, batch after batch, starting at `cursor`
/// (see `WatchCursor::deliver`).
pub open spec fn delivered(cursor: i64, batches: Seq<Seq<MessageRecord>>) -> Seq<MessageRecord>
    decreases batches.len(),
{
    if batches.len() == 0 {
        Seq::empty()
    } else {
        batches[0] + delivered(cursor_after(cursor, batches[0]), batches.skip(1))
    }
}

/// Over a whole watch, when each poll returns what its query asks for,
/// every message delivered is newer than the starting cursor and belongs to
/// the watched chat, row ids never go down, and no message is delivered
/// twice for the same chat.
pub proof fn law_watch_run_never_repeats(
    cursor: i64,
    chat: Option<i64>,
    batches: Seq<Seq<MessageRecord>>,
)
    requires
        batches_fit(cursor, chat, batches),
    ensures
        ids_nondecreasing(delivered(cursor, batches)),
        rows_distinct(delivered(cursor, batches)),
        forall|i: int|
            0 <= i < delivered(cursor, batches).len() ==> #[trigger] delivered(
                cursor,
                batches,
            )[i].id > cursor,
        forall|i: int|
            0 <= i < delivered(cursor, batches).len() ==> (chat matches Some(c) ==> #[trigger] delivered(
                cursor,
                batches,
            )[i].chat_id == c),
    decreases batches.len(),
{
    if batches.len() > 0 {
        let b = batches[0];
        let c1 = cursor_after(cursor, b);
        law_watch_never_repeats(cursor, b);
        law_watch_run_never_repeats(c1, chat, batches.skip(1));
        let rest = delivered(c1, batches.skip(1));
        let all = delivered(cursor, batches);
        assert(all == b + rest);
        assert forall|i: int, j: int| 0 <= i < j < all.len() implies all[i].id <= all[j].id && !(
        all[i].id == all[j].id && all[i].chat_id == all[j].chat_id) by {
            if j < b.len() {
                assert(all[i] == b[i]);
                assert(all[j] == b[j]);
            } else if i < b.len() {
                assert(all[i] == b[i]);
                assert(all[j] == rest[j - b.len()]);
                assert(b[i].id <= c1);
                assert(rest[j - b.len()].id > c1);
            } else {
                assert(all[i] == rest[i - b.len()]);
                assert(all[j] == rest[j - b.len()]);
            }
        }
        assert forall|i: int| 0 <= i < all.len() implies #[trigger] all[i].id > cursor by {
            if i < b.len() {
                assert(all[i] == b[i]);
            } else {
                assert(all[i] == rest[i - b.len()]);
            }
        }
        assert forall|i: int|
            0 <= i < all.len() implies (chat matches Some(c) ==> #[trigger] all[i].chat_id == c) by {
            if i < b.len() {
                assert(all[i] == b[i]);
            } else {
                assert(all[i] == rest[i - b.len()]);
            }
        }
    }
}

/// The events that report `batch`, one per message, in order.
pub open spec fn events_of(batch: Seq<MessageRecord>) -> Seq<WatchEvent> {
    Seq::new(
        batch.len(),
        |i: int| WatchEvent { kind: WatchEventKind::NewMessage, message: batch[i] },
    )
}

/// What a watch needs done next.
#[derive(Debug, PartialEq, Eq)]
pub enum WatchAction {
    /// Wait for a change to the database files, at most `timeout_ms`.
    AwaitChange { timeout_ms: u64 },
    /// Let writes settle for `ms`.
    Settle { ms: u64 },
    /// Run `WatchSession::next_query` and hand back the messages it reads,
    /// completed.
    Read,
    /// Hand each event to the consumer, in order.
    Emit(Vec<WatchEvent>),
    /// The watch is over, with this error.
    Failed(RsImessageError),
}

pub enum WatchActionView {
    AwaitChange { timeout_ms: u64 },
    Settle { ms: u64 },
    Read,
    Emit(Seq<WatchEvent>),
    Failed(ErrorView),
}

impl View for WatchAction {
    type V = WatchActionView;

    open spec fn view(&self) -> WatchActionView {
        match self {
            WatchAction::AwaitChange { timeout_ms } => WatchActionView::AwaitChange {
                timeout_ms: *timeout_ms,
            },
            WatchAction::Settle { ms } => WatchActionView::Settle { ms: *ms },
            WatchAction::Read => WatchActionView::Read,
            WatchAction::Emit(events) => WatchActionView::Emit(events@),
            WatchAction::Failed(e) => WatchActionView::Failed(e@),
        }
    }
}

/// How a piece of a watch's work turned out.
#[derive(Debug, PartialEq, Eq)]
pub enum WatchOutcome {
    /// The wait ended: with a change to the files, or because it timed out.
    Woke(bool),
    /// The pause is over.
    Settled,
    /// The messages read, or why they could not be.
    Batch(Result<Vec<MessageRecord>, RsImessageError>),
    /// The events were handed over, or the consumer's error.
    Emitted(Result<(), RsImessageError>),
}

pub enum WatchOutcomeView {
    Woke(bool),
    Settled,
    Batch(Result<Seq<MessageRecord>, ErrorView>),
    Emitted(Result<(), ErrorView>),
}

impl View for WatchOutcome {
    type V = WatchOutcomeView;

    open spec fn view(&self) -> WatchOutcomeView {
        match self {
            WatchOutcome::Woke(b) => WatchOutcomeView::Woke(*b),
            WatchOutcome::Settled => WatchOutcomeView::Settled,
            WatchOutcome::Batch(Ok(b)) => WatchOutcomeView::Batch(Ok(b@)),
            WatchOutcome::Batch(Err(e)) => WatchOutcomeView::Batch(Err(e@)),
            WatchOutcome::Emitted(Ok(())) => WatchOutcomeView::Emitted(Ok(())),
            WatchOutcome::Emitted(Err(e)) => WatchOutcomeView::Emitted(Err(e@)),
        }
    }
}

/// Where a watch stands.
#[derive(Debug, Clone, Copy, PartialEq, Eq, Structural)]
pub enum WatchPhase {
    Waiting,
    Settling,
    Reading,
    Emitting,
    Stopped,
}

/// Whether `e` is the outcome of the work phase `p` waits for.
pub open spec fn watch_answers(p: WatchPhase, e: WatchOutcomeView) -> bool {
    match p {
        WatchPhase::Waiting => e is Woke,
        WatchPhase::Settling => e is Settled,
        WatchPhase::Reading => e is Batch,
        WatchPhase::Emitting => e is Emitted,
        WatchPhase::Stopped => false,
    }
}

/// The next phase, cursor and action of a watch that waits at most `poll`
/// and settles for `settle`, in phase `p` at `cursor`, once the awaited work
/// turned out as `e`: every wait, whether or not a change was seen, is
/// followed by a pause and a read; a read advances the cursor past what it
/// reported; failures end the watch.
pub open spec fn watch_next(poll: u64, settle: u64, cursor: i64, p: WatchPhase, e: WatchOutcomeView) -> (
    WatchPhase,
    i64,
    WatchActionView,
) {
    match p {
        WatchPhase::Waiting => (WatchPhase::Settling, cursor, WatchActionView::Settle { ms: settle }),
        WatchPhase::Settling => (WatchPhase::Reading, cursor, WatchActionView::Read),
        WatchPhase::Reading => match e {
            WatchOutcomeView::Batch(Ok(b)) => (
                WatchPhase::Emitting,
                cursor_after(cursor, b),
                WatchActionView::Emit(events_of(b)),
            ),
            WatchOutcomeView::Batch(Err(err)) => (WatchPhase::Stopped, cursor, WatchActionView::Failed(err)),
            _ => (WatchPhase::Stopped, cursor, WatchActionView::Failed(ErrorView::Other(Seq::empty()))),
        },
        WatchPhase::Emitting => match e {
            WatchOutcomeView::Emitted(Ok(())) => (
                WatchPhase::Waiting,
                cursor,
                WatchActionView::AwaitChange { timeout_ms: poll },
            ),
            WatchOutcomeView::Emitted(Err(err)) => (WatchPhase::Stopped, cursor, WatchActionView::Failed(err)),
            _ => (WatchPhase::Stopped, cursor, WatchActionView::Failed(ErrorView::Other(Seq::empty()))),
        },
        WatchPhase::Stopped => (WatchPhase::Stopped, cursor, WatchActionView::Failed(ErrorView::Other(Seq::empty()))),
    }
}

/// A watch under way.
#[derive(Debug)]
pub struct WatchSession {
    cursor: WatchCursor,
    poll: u64,
    settle: u64,
    phase: WatchPhase,
}

impl WatchSession {
    /// The highest row id reported so far.
    pub closed spec fn cursor_view(&self) -> i64 {
        self.cursor.cursor_view()
    }

    /// The chat watched, if only one is.
    pub closed spec fn chat_view(&self) -> Option<i64> {
        self.cursor.chat_view()
    }

    /// How long a wait for file changes lasts at most.
    pub closed spec fn poll_view(&self) -> u64 {
        self.poll
    }

    /// How long writes are let settle.
    pub closed spec fn settle_view(&self) -> u64 {
        self.settle
    }

    /// Where this watch stands.
    pub closed spec fn phase(&self) -> WatchPhase {
        self.phase
    }

    /// Starts watching with `options`; `newest` is the outcome of reading the
    /// newest message row id, when `options` asks for it. The first thing to
    /// do is to wait for a change.
    pub fn start(options: &WatchOptions, newest: Option<Result<i64, RsImessageError>>) -> (res: (
        WatchSession,
        WatchAction,
    ))
        ensures
            res.0.cursor_view() == start_cursor(options.since_rowid, newest),
            res.0.chat_view() == options.chat_id,
            res.0.poll_view() == (if options.poll_ms >= MIN_POLL_MS {
                options.poll_ms
            } else {
                MIN_POLL_MS
            }),
            res.0.settle_view() == (if options.debounce_ms >= MIN_DEBOUNCE_MS {
                options.debounce_ms
            } else {
                MIN_DEBOUNCE_MS
            }),
            res.0.phase() == WatchPhase::Waiting,
            res.1@ == (WatchActionView::AwaitChange { timeout_ms: res.0.poll_view() }),
    {
        let poll = options.poll_every();
        let settle = options.debounce();
        let cursor = WatchCursor::start(options, newest);
        (WatchSession { cursor, poll, settle, phase: WatchPhase::Waiting }, WatchAction::AwaitChange {
            timeout_ms: poll,
        })
    }

    /// The query a read runs: the messages after the cursor (see
    /// `WatchCursor::next_query`).
    pub fn next_query(&self) -> (res: SqlQuery)
        ensures
            self.chat_view() matches Some(cid) ==> {
                &&& res.sql@ == MESSAGES_AFTER_IN_CHAT_SQL@
                &&& params_view(res.params@) == seq![
                    SqlParamView::Int(self.cursor_view()),
                    SqlParamView::Int(cid),
                    SqlParamView::Int(limit_param(WATCH_BATCH_LIMIT)),
                ]
            },
            self.chat_view() is None ==> {
                &&& res.sql@ == MESSAGES_AFTER_SQL@
                &&& params_view(res.params@) == seq![
                    SqlParamView::Int(self.cursor_view()),
                    SqlParamView::Int(limit_param(WATCH_BATCH_LIMIT)),
                ]
            },
    {
        self.cursor.next_query()
    }

    /// Whether `outcome` is what this watch waits for.
    pub fn awaits(&self, outcome: &WatchOutcome) -> (res: bool)
        ensures
            res == watch_answers(self.phase(), outcome@),
    {
        match self.phase {
            WatchPhase::Waiting => matches!(outcome, WatchOutcome::Woke(_)),
            WatchPhase::Settling => matches!(outcome, WatchOutcome::Settled),
            WatchPhase::Reading => matches!(outcome, WatchOutcome::Batch(_)),
            WatchPhase::Emitting => matches!(outcome, WatchOutcome::Emitted(_)),
            WatchPhase::Stopped => false,
        }
    }

    /// Whether the watch is over.
    pub fn is_stopped(&self) -> (res: bool)
        ensures
            res == (self.phase() == WatchPhase::Stopped),
    {
        matches!(self.phase, WatchPhase::Stopped)
    }

    /// Feeds the outcome of the awaited work to the watch and says what to do
    /// next.
    pub fn resume(&mut self, outcome: WatchOutcome) -> (action: WatchAction)
        requires
            watch_answers(old(self).phase(), outcome@),
        ensures
            final(self).chat_view() == old(self).chat_view(),
            final(self).poll_view() == old(self).poll_view(),
            final(self).settle_view() == old(self).settle_view(),
            (final(self).phase(), final(self).cursor_view(), action@) == watch_next(
                old(self).poll_view(),
                old(self).settle_view(),
                old(self).cursor_view(),
                old(self).phase(),
                outcome@,
            ),
    {
        match self.phase {
            WatchPhase::Waiting => {
                self.phase = WatchPhase::Settling;
                WatchAction::Settle { ms: self.settle }
            },
            WatchPhase::Settling => {
                self.phase = WatchPhase::Reading;
                WatchAction::Read
            },
            WatchPhase::Reading => match outcome {
                WatchOutcome::Batch(Ok(batch)) => {
                    let ghost b = batch@;
                    let events = self.cursor.deliver(batch);
                    assert(events@ =~= events_of(b));
                    self.phase = WatchPhase::Emitting;
                    WatchAction::Emit(events)
                },
                WatchOutcome::Batch(Err(e)) => {
                    self.phase = WatchPhase::Stopped;
                    WatchAction::Failed(e)
                },
                _ => {
                    self.phase = WatchPhase::Stopped;
                    WatchAction::Failed(RsImessageError::Other(String::new()))
                },
            },
            WatchPhase::Emitting => match outcome {
                WatchOutcome::Emitted(Ok(())) => {
                    self.phase = WatchPhase::Waiting;
                    WatchAction::AwaitChange { timeout_ms: self.poll }
                },
                WatchOutcome::Emitted(Err(e)) => {
                    self.phase = WatchPhase::Stopped;
                    WatchAction::Failed(e)
                },
                _ => {
                    self.phase = WatchPhase::Stopped;
                    WatchAction::Failed(RsImessageError::Other(String::new()))
                },
            },
            WatchPhase::Stopped => WatchAction::Failed(RsImessageError::Other(String::new())),
        }
    }
}

/// A watch polls even without file events: each wait lasts at most the poll
/// interval, and whatever it reports, a change or none, it is followed by a
/// pause of the settle interval and then a read of the database; after the
/// events of a read are handed over, the next wait begins. So while the
/// reads and the consumer keep succeeding, the database is read again at
/// least every poll plus settle interval.
pub proof fn law_watch_polls(poll: u64, settle: u64, cursor: i64, changed: bool)
    ensures
        watch_next(poll, settle, cursor, WatchPhase::Waiting, WatchOutcomeView::Woke(changed)) == (
            WatchPhase::Settling,
            cursor,
            WatchActionView::Settle { ms: settle },
        ),
        watch_next(poll, settle, cursor, WatchPhase::Settling, WatchOutcomeView::Settled) == (
            WatchPhase::Reading,
            cursor,
            WatchActionView::Read,
        ),
        watch_next(
            poll,
            settle,
            cursor,
            WatchPhase::Emitting,
            WatchOutcomeView::Emitted(Ok::<(), ErrorView>(())),
        ) == (WatchPhase::Waiting, cursor, WatchActionView::AwaitChange { timeout_ms: poll }),
        forall|b: Seq<MessageRecord>|
            #[trigger] watch_next(
                poll,
                settle,
                cursor,
                WatchPhase::Reading,
                WatchOutcomeView::Batch(Ok::<Seq<MessageRecord>, ErrorView>(b)),
            ).0 == WatchPhase::Emitting,
{
}

/// A read that returns `batch` reports every message of it, once and in
/// order, as a new message, and moves the cursor to the last of them (or
/// leaves it where it was when there was none).
pub proof fn law_watch_emits_every_message(
    poll: u64,
    settle: u64,
    cursor: i64,
    batch: Seq<MessageRecord>,
)
    ensures
        ({
            let (p, c, a) = watch_next(
                poll,
                settle,
                cursor,
                WatchPhase::Reading,
                WatchOutcomeView::Batch(Ok::<Seq<MessageRecord>, ErrorView>(batch)),
            );
            &&& p == WatchPhase::Emitting
            &&& batch.len() == 0 ==> c == cursor
            &&& batch.len() > 0 ==> c == batch[batch.len() - 1].id
            &&& a matches WatchActionView::Emit(events) && events.len() == batch.len() && forall|
                i: int,
            |
                0 <= i < batch.len() ==> (#[trigger] events[i]).kind == WatchEventKind::NewMessage
                    && events[i].message == batch[i]
        }),
{
}

} // verus!
