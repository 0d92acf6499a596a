use rs_imessage::cli::{chat_or_not_found, invalid_bind_address, run, Cli, CliPlan, Commands};
use rs_imessage::error::RsImessageError;
use rs_imessage::types::{SendRequest, SendService};
use rs_imessage::watch::WatchOptions;

#[test]
fn commands_read_the_chosen_database() {
    let plan = run(Cli { db: Some("/x.db".to_string()), json: true, command: Commands::Chats { limit: 5 } }, "/default.db");
    assert_eq!(plan, CliPlan::ListChats { db_path: "/x.db".to_string(), limit: 5 });
    let plan = run(Cli { db: None, json: false, command: Commands::Group { chat_id: 3 } }, "/default.db");
    assert_eq!(plan, CliPlan::ShowChat { db_path: "/default.db".to_string(), chat_id: 3 });
    let plan = run(
        Cli { db: None, json: false, command: Commands::History { chat_id: 3, limit: 50, since_rowid: Some(9) } },
        "/d.db",
    );
    assert_eq!(plan, CliPlan::History { db_path: "/d.db".to_string(), chat_id: 3, limit: 50, since_rowid: Some(9) });
    let plan = run(
        Cli { db: None, json: false, command: Commands::Search { query: "hi".to_string(), limit: 50 } },
        "/d.db",
    );
    assert_eq!(plan, CliPlan::Search { db_path: "/d.db".to_string(), query: "hi".to_string(), limit: 50 });
    assert_eq!(run(Cli { db: None, json: false, command: Commands::Rpc }, "/d.db"), CliPlan::Rpc);
}

#[test]
fn watch_and_serve_carry_options() {
    let plan = run(
        Cli {
            db: None,
            json: false,
            command: Commands::Watch { chat_id: Some(1), since_rowid: None, poll_ms: 500, debounce_ms: 300 },
        },
        "/d.db",
    );
    assert_eq!(
        plan,
        CliPlan::Watch {
            db_path: "/d.db".to_string(),
            options: WatchOptions { chat_id: Some(1), since_rowid: None, poll_ms: 500, debounce_ms: 300 },
        }
    );
    let plan = run(
        Cli {
            db: Some("/y.db".to_string()),
            json: false,
            command: Commands::Serve {
                bind: "127.0.0.1:8721".to_string(),
                token: "t".to_string(),
                chat_id: None,
                since_rowid: Some(4),
                poll_ms: 500,
                debounce_ms: 300,
            },
        },
        "/d.db",
    );
    assert_eq!(
        plan,
        CliPlan::Serve {
            db_path: "/y.db".to_string(),
            bind: "127.0.0.1:8721".to_string(),
            token: "t".to_string(),
            watch: WatchOptions { chat_id: None, since_rowid: Some(4), poll_ms: 500, debounce_ms: 300 },
        }
    );
}

#[test]
fn send_uses_auto_service_and_chosen_db() {
    let plan = run(
        Cli {
            db: Some("/chosen.db".to_string()),
            json: true,
            command: Commands::Send {
                to: Some("+1".to_string()),
                chat_id: None,
                chat_guid: None,
                chat_identifier: None,
                text: Some("hi".to_string()),
                file: None,
            },
        },
        "/d.db",
    );
    assert_eq!(
        plan,
        CliPlan::Send {
            db_path: "/chosen.db".to_string(),
            request: SendRequest {
                to: Some("+1".to_string()),
                chat_id: None,
                chat_guid: None,
                chat_identifier: None,
                text: Some("hi".to_string()),
                file: None,
                service: SendService::Auto,
            }
        }
    );
}

#[test]
fn group_and_bind_errors() {
    assert_eq!(
        chat_or_not_found(12, None),
        Err(RsImessageError::Other("chat 12 not found".to_string()))
    );
    assert_eq!(
        invalid_bind_address("invalid socket address syntax").message(),
        "invalid bind address: invalid socket address syntax"
    );
}
