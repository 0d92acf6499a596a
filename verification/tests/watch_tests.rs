use rs_imessage::db::{map_message_row, MessageRow, SqlParam, MESSAGES_AFTER_SQL};
use rs_imessage::error::RsImessageError;
use rs_imessage::time::UtcDateTime;
use rs_imessage::types::WatchEventKind;
use rs_imessage::watch::{WatchAction, WatchCursor, WatchOptions, WatchOutcome, WatchSession};

fn options(since: Option<i64>, chat: Option<i64>) -> WatchOptions {
    WatchOptions { chat_id: chat, since_rowid: since, poll_ms: 10, debounce_ms: 1000 }
}

fn msg(id: i64) -> rs_imessage::types::MessageRecord {
    map_message_row(
        MessageRow {
            id,
            guid: format!("g{id}"),
            chat_rowid: 1,
            chat_identifier: "c".to_string(),
            chat_guid: "c".to_string(),
            chat_name: None,
            style: None,
            sender: None,
            is_from_me: 1,
            text: None,
            date: 0,
            reply_to_guid: None,
        },
        UtcDateTime::from_timestamp(0, 0).unwrap(),
    )
}

#[test]
fn intervals_have_floors() {
    let o = options(None, None);
    assert_eq!(o.poll_every(), 200);
    assert_eq!(o.debounce(), 1000);
    let o = WatchOptions { chat_id: None, since_rowid: None, poll_ms: 900, debounce_ms: 0 };
    assert_eq!(o.poll_every(), 900);
    assert_eq!(o.debounce(), 50);
}

#[test]
fn cursor_starts_where_asked() {
    assert!(!options(Some(7), None).needs_newest_rowid());
    assert_eq!(WatchCursor::start(&options(Some(7), None), None).cursor(), 7);
    assert!(options(None, None).needs_newest_rowid());
    assert_eq!(WatchCursor::start(&options(None, None), Some(Ok(99))).cursor(), 99);
    let failed = Some(Err(RsImessageError::Database("busy".to_string())));
    assert_eq!(WatchCursor::start(&options(None, None), failed).cursor(), 0);
}

#[test]
fn delivered_messages_advance_the_cursor() {
    let mut c = WatchCursor::start(&options(Some(10), None), None);
    let q = c.next_query();
    assert_eq!(q.sql, MESSAGES_AFTER_SQL);
    assert_eq!(q.params, vec![SqlParam::Int(10), SqlParam::Int(200)]);
    let events = c.deliver(vec![msg(11), msg(14)]);
    assert_eq!(events.len(), 2);
    assert_eq!(events[0].kind, WatchEventKind::NewMessage);
    assert_eq!(events[1].message.id, 14);
    assert_eq!(c.cursor(), 14);
    assert!(c.deliver(vec![]).is_empty());
    assert_eq!(c.cursor(), 14);
    assert_eq!(c.next_query().params[0], SqlParam::Int(14));
}

#[test]
fn chat_filter_in_query() {
    let c = WatchCursor::start(&options(Some(3), Some(8)), None);
    assert_eq!(c.next_query().params, vec![SqlParam::Int(3), SqlParam::Int(8), SqlParam::Int(200)]);
}

fn msg_in(id: i64, chat: i64) -> rs_imessage::types::MessageRecord {
    let mut m = msg(id);
    m.chat_id = chat;
    m
}

#[test]
fn session_polls_without_file_events() {
    let (mut w, first) = WatchSession::start(&options(Some(10), None), None);
    assert_eq!(first, WatchAction::AwaitChange { timeout_ms: 200 });
    assert_eq!(w.resume(WatchOutcome::Woke(false)), WatchAction::Settle { ms: 1000 });
    assert_eq!(w.resume(WatchOutcome::Settled), WatchAction::Read);
    assert_eq!(w.next_query().params, vec![SqlParam::Int(10), SqlParam::Int(200)]);
    match w.resume(WatchOutcome::Batch(Ok(vec![msg_in(12, 1), msg_in(12, 2), msg_in(13, 1)]))) {
        WatchAction::Emit(events) => {
            let rows: Vec<(i64, i64)> = events.iter().map(|e| (e.message.id, e.message.chat_id)).collect();
            assert_eq!(rows, vec![(12, 1), (12, 2), (13, 1)]);
        }
        other => panic!("unexpected {:?}", other),
    }
    assert_eq!(w.resume(WatchOutcome::Emitted(Ok(()))), WatchAction::AwaitChange { timeout_ms: 200 });
    assert_eq!(w.next_query().params[0], SqlParam::Int(13));
    assert_eq!(w.resume(WatchOutcome::Woke(true)), WatchAction::Settle { ms: 1000 });
    w.resume(WatchOutcome::Settled);
    let failed = w.resume(WatchOutcome::Batch(Err(RsImessageError::Database("gone".to_string()))));
    assert_eq!(failed, WatchAction::Failed(RsImessageError::Database("gone".to_string())));
    assert!(w.is_stopped());
}

#[test]
fn consumer_error_stops_the_watch() {
    let (mut w, _) = WatchSession::start(&options(Some(1), None), None);
    w.resume(WatchOutcome::Woke(true));
    w.resume(WatchOutcome::Settled);
    w.resume(WatchOutcome::Batch(Ok(vec![msg(2)])));
    let e = RsImessageError::Watch("watch receiver dropped".to_string());
    assert_eq!(w.resume(WatchOutcome::Emitted(Err(e.clone()))), WatchAction::Failed(e));
}
