use rs_imessage::db::{
    arrange_history, attachment_meta, attachments_query, chat_by_id_query,
    chat_participants_query, chat_record, enrich_message, history_query, list_chats_query,
    max_message_rowid_query, map_message_row, messages_after_query, missing_database,
    search_query, AttachmentRow, ChatRow, MessageRow, SqlParam, CHAT_BY_ID_SQL,
    HISTORY_LATEST_TAIL_SQL, HISTORY_SELECT_SQL, HISTORY_SINCE_TAIL_SQL, LIST_CHATS_SQL,
    MAX_ROWID_SQL, MESSAGES_AFTER_IN_CHAT_SQL, MESSAGES_AFTER_SQL, SEARCH_SQL,
};
use rs_imessage::error::RsImessageError;
use rs_imessage::time::UtcDateTime;
use rs_imessage::types::{AttachmentMeta, MessageRecord};

fn row(id: i64, style: Option<i32>, date: i64) -> MessageRow {
    MessageRow {
        id,
        guid: format!("m{id}"),
        chat_rowid: 5,
        chat_identifier: "+1555".to_string(),
        chat_guid: "iMessage;-;+1555".to_string(),
        chat_name: None,
        style,
        sender: Some("+1555".to_string()),
        is_from_me: 0,
        text: Some("hi".to_string()),
        date,
        reply_to_guid: None,
    }
}

fn now() -> UtcDateTime {
    UtcDateTime::from_timestamp(1_700_000_000, 0).unwrap()
}

#[test]
fn queries_bind_their_parameters() {
    let q = max_message_rowid_query();
    assert_eq!(q.sql, MAX_ROWID_SQL);
    assert!(q.params.is_empty());
    assert_eq!(MAX_ROWID_SQL, "SELECT COALESCE(MAX(ROWID), 0) FROM message");
    let q = list_chats_query(20);
    assert_eq!((q.sql.as_str(), q.params), (LIST_CHATS_SQL, vec![SqlParam::Int(20)]));
    assert_eq!(chat_participants_query(9).params, vec![SqlParam::Int(9)]);
    assert_eq!(attachments_query(11).params, vec![SqlParam::Int(11)]);
    let q = chat_by_id_query(4);
    assert_eq!((q.sql.as_str(), q.params), (CHAT_BY_ID_SQL, vec![SqlParam::Int(4)]));
}

#[test]
fn history_query_forms() {
    let q = history_query(3, 50, None);
    assert_eq!(q.sql, format!("{HISTORY_SELECT_SQL}{HISTORY_LATEST_TAIL_SQL}"));
    assert!(q.sql.ends_with(" ORDER BY m.ROWID DESC LIMIT ?2"));
    assert_eq!(q.params, vec![SqlParam::Int(3), SqlParam::Int(50)]);
    let q = history_query(3, 10, Some(100));
    assert_eq!(q.sql, format!("{HISTORY_SELECT_SQL}{HISTORY_SINCE_TAIL_SQL}"));
    assert_eq!(q.params, vec![SqlParam::Int(3), SqlParam::Int(100), SqlParam::Int(10)]);
}

#[test]
fn messages_after_forms() {
    let q = messages_after_query(40, Some(2), 200);
    assert_eq!(q.sql, MESSAGES_AFTER_IN_CHAT_SQL);
    assert_eq!(q.params, vec![SqlParam::Int(40), SqlParam::Int(2), SqlParam::Int(200)]);
    let q = messages_after_query(40, None, 200);
    assert_eq!(q.sql, MESSAGES_AFTER_SQL);
    assert_eq!(q.params, vec![SqlParam::Int(40), SqlParam::Int(200)]);
}

#[test]
fn search_wraps_query_in_wildcards() {
    let q = search_query("lunch", 5);
    assert_eq!(q.sql, SEARCH_SQL);
    assert_eq!(q.params, vec![SqlParam::Text("%lunch%".to_string()), SqlParam::Int(5)]);
}

#[test]
fn missing_database_message() {
    assert_eq!(
        missing_database("/x/chat.db"),
        RsImessageError::Other("chat.db not found at /x/chat.db".to_string())
    );
}

#[test]
fn chat_rows_become_records() {
    let chat = chat_record(
        ChatRow {
            id: 1,
            display_name: Some("Team".to_string()),
            identifier: "chat1".to_string(),
            guid: "iMessage;+;chat1".to_string(),
            service: Some("iMessage".to_string()),
            style: Some(43),
            last_date: Some(700_000_000),
        },
        vec!["+1".to_string(), "+2".to_string()],
    );
    assert!(chat.is_group);
    assert_eq!(chat.last_message_at.unwrap().timestamp(), 978_307_200 + 700_000_000);
    let direct = chat_record(
        ChatRow {
            id: 2,
            display_name: None,
            identifier: "+1".to_string(),
            guid: "iMessage;-;+1".to_string(),
            service: None,
            style: Some(45),
            last_date: None,
        },
        vec!["+1".to_string()],
    );
    assert!(!direct.is_group);
    assert_eq!(direct.last_message_at, None);
    let crowd = chat_record(
        ChatRow {
            id: 3,
            display_name: None,
            identifier: "x".to_string(),
            guid: "x".to_string(),
            service: None,
            style: None,
            last_date: None,
        },
        vec!["a".to_string(), "b".to_string(), "c".to_string()],
    );
    assert!(crowd.is_group);
}

#[test]
fn message_rows_become_records() {
    let m = map_message_row(row(10, Some(43), 700_000_000), now());
    assert_eq!(m.id, 10);
    assert_eq!(m.guid, "m10");
    assert_eq!(m.chat_id, 5);
    assert!(m.is_group);
    assert!(!m.is_from_me);
    assert_eq!(m.created_at.timestamp(), 978_307_200 + 700_000_000);
    let bad_date = map_message_row(row(11, None, i64::MIN), now());
    assert_eq!(bad_date.created_at, now());
    assert!(!bad_date.is_group);
}

#[test]
fn enrichment_adds_participants_and_attachments() {
    let mut m = map_message_row(row(12, None, 0), now());
    let att = attachment_meta(AttachmentRow {
        filename: Some("~/a.png".to_string()),
        uti: Some("public.png".to_string()),
        total_bytes: Some(10),
        missing: 1,
    });
    assert_eq!(
        att,
        AttachmentMeta {
            filename: Some("~/a.png".to_string()),
            mime_type: Some("public.png".to_string()),
            byte_count: Some(10),
            missing: true,
        }
    );
    enrich_message(&mut m, vec!["a".into(), "b".into(), "c".into()], vec![att.clone()]);
    assert!(m.is_group);
    assert_eq!(m.participants.len(), 3);
    assert_eq!(m.attachments, vec![att]);
}

#[test]
fn history_comes_oldest_first() {
    let newest_first: Vec<MessageRecord> =
        vec![map_message_row(row(3, None, 0), now()), map_message_row(row(2, None, 0), now())];
    let ids: Vec<i64> = arrange_history(newest_first, None).iter().map(|m| m.id).collect();
    assert_eq!(ids, vec![2, 3]);
    let ascending: Vec<MessageRecord> =
        vec![map_message_row(row(5, None, 0), now()), map_message_row(row(6, None, 0), now())];
    let ids: Vec<i64> = arrange_history(ascending, Some(4)).iter().map(|m| m.id).collect();
    assert_eq!(ids, vec![5, 6]);
}
