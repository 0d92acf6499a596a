use rs_imessage::db::{history_query, list_chats_query, search_query};
use rs_imessage::stub_store::MessageStore;
use rs_imessage::watch::{WatchAction, WatchOptions};
use rs_imessage::client::{Client, ClientConfig};
use rs_imessage::env::{var, var_or};
use rs_imessage::error::RsImessageError;
use rs_imessage::paths::{
    attachment_staging_dir, chat_db_from_env, default_chat_db, default_messages_dir, home_dir,
    join_path, wal_paths,
};
use rs_imessage::platform_name;

#[test]
fn default_locations_under_home() {
    assert_eq!(default_messages_dir("/Users/ann"), "/Users/ann/Library/Messages");
    assert_eq!(default_chat_db("/Users/ann"), "/Users/ann/Library/Messages/chat.db");
    assert_eq!(default_chat_db("/Users/ann/"), "/Users/ann/Library/Messages/chat.db");
    assert_eq!(
        attachment_staging_dir("/Users/ann"),
        "/Users/ann/Library/Messages/Attachments/rs_imsg"
    );
}

#[test]
fn home_falls_back_to_current_dir() {
    assert_eq!(home_dir(Some("/Users/bo".to_string())), "/Users/bo");
    assert_eq!(home_dir(None), ".");
    assert_eq!(default_chat_db(&home_dir(None)), "./Library/Messages/chat.db");
}

#[test]
fn join_follows_path_rules() {
    assert_eq!(join_path("a", "b"), "a/b");
    assert_eq!(join_path("a/", "b"), "a/b");
    assert_eq!(join_path("", "b"), "b");
    assert_eq!(join_path("a", "/abs"), "/abs");
}

#[test]
fn database_named_by_environment() {
    assert_eq!(chat_db_from_env(Some("/x/new.db".to_string()), Some("/x/old.db".to_string()), "/h"), "/x/new.db");
    assert_eq!(chat_db_from_env(None, Some("/x/old.db".to_string()), "/h"), "/x/old.db");
    assert_eq!(chat_db_from_env(None, None, "/h"), "/h/Library/Messages/chat.db");
    let cfg = ClientConfig::from_env(None, None, "/h");
    assert_eq!(cfg.chat_db_path, "/h/Library/Messages/chat.db");
}

#[test]
fn wal_and_shm_beside_the_database() {
    let [db, wal, shm] = wal_paths("/x/chat.db");
    assert_eq!(db, "/x/chat.db");
    assert_eq!(wal, "/x/chat.db-wal");
    assert_eq!(shm, "/x/chat.db-shm");
    let [_, wal, _] = wal_paths("/x/chat");
    assert_eq!(wal, "/x/chat.db-wal");
    let [_, wal, shm] = wal_paths("/x/.hidden");
    assert_eq!((wal.as_str(), shm.as_str()), ("/x/.hidden.db-wal", "/x/.hidden.db-shm"));
    let [_, wal, _] = wal_paths("a.b.c");
    assert_eq!(wal, "a.b.db-wal");
}

#[test]
fn current_name_wins_over_legacy() {
    assert_eq!(var(Some("a".to_string()), Some("b".to_string())), Some("a".to_string()));
    assert_eq!(var(None, Some("b".to_string())), Some("b".to_string()));
    assert_eq!(var(None, None), None);
    assert_eq!(var_or(None, None, "dflt"), "dflt");
    assert_eq!(var_or(None, Some("b".to_string()), "dflt"), "b");
    assert_eq!(var_or(Some("a".to_string()), None, "dflt"), "a");
}

#[test]
fn platform_names() {
    assert_eq!(platform_name(true), "macos");
    assert_eq!(platform_name(false), "unsupported");
}

#[test]
fn client_opens_only_when_store_opens() {
    let cfg = ClientConfig { chat_db_path: "/x/chat.db".to_string() };
    let client = Client::open(cfg.clone(), Ok(())).unwrap();
    assert_eq!(client.db_path(), "/x/chat.db");
    let err = Client::open(cfg, Err(RsImessageError::Other("chat.db not found at /x/chat.db".to_string())));
    assert_eq!(err, Err(RsImessageError::Other("chat.db not found at /x/chat.db".to_string())));
}

#[test]
fn client_reads() {
    let client = Client::open(ClientConfig { chat_db_path: "/x/chat.db".to_string() }, Ok(())).unwrap();
    assert_eq!(client.list_chats(20), list_chats_query(20));
    assert_eq!(client.history(3, 50, None), history_query(3, 50, None));
    assert_eq!(client.search("hi", 5), search_query("hi", 5));
    let opts = WatchOptions { chat_id: None, since_rowid: None, poll_ms: 500, debounce_ms: 300 };
    let (session, first) = client.watch(&opts, Some(Ok(41)));
    assert_eq!(first, WatchAction::AwaitChange { timeout_ms: 500 });
    assert_eq!(session.next_query().params[0], rs_imessage::db::SqlParam::Int(41));
}

#[test]
fn store_refused_without_messages() {
    assert!(matches!(MessageStore::open("/x/chat.db"), Err(RsImessageError::UnsupportedPlatform)));
    let store = MessageStore;
    assert_eq!(store.list_chats(20), Err(RsImessageError::UnsupportedPlatform));
    assert_eq!(store.max_message_rowid(), Err(RsImessageError::UnsupportedPlatform));
    assert_eq!(store.chat_participants(1), Err(RsImessageError::UnsupportedPlatform));
    assert_eq!(store.history(1, 5, None), Err(RsImessageError::UnsupportedPlatform));
    assert_eq!(store.messages_after_rowid(1, None, 5), Err(RsImessageError::UnsupportedPlatform));
    assert_eq!(store.search("x", 5), Err(RsImessageError::UnsupportedPlatform));
    assert_eq!(store.chat_by_id(1), Err(RsImessageError::UnsupportedPlatform));
}
