use rs_imessage::error::RsImessageError;
use rs_imessage::json::{JsonNumber, JsonValue};
use rs_imessage::private_api::bridge::{BridgeAction, BridgeClient};
use rs_imessage::private_api::ipc::{
    answer_result, request_envelope, stringify_id, BridgeResponse, InvokeAction, InvokeEvent,
    InvokeSession, PollOutcome,
};
use rs_imessage::private_api::launcher::{LaunchAction, LaunchEvent, Launcher};
use rs_imessage::private_api::paths::{
    bridge_ready_lock, dylib_search_paths, events_log, messages_container_data, resolve_dylib,
    rpc_inbox, rpc_outbox, BridgeLayout,
};
use rs_imessage::private_api::sip::{current_sip_status, require_sip_disabled, SipStatus};

fn layout() -> BridgeLayout {
    BridgeLayout {
        ready_lock: ".bridge-ready".to_string(),
        rpc_dir: "rpc".to_string(),
        inbox: "in".to_string(),
        outbox: "out".to_string(),
        events_log: "events.jsonl".to_string(),
        dylib_name: "bridge.dylib".to_string(),
    }
}

fn s(t: &str) -> String {
    t.to_string()
}

fn obj(entries: Vec<(&str, JsonValue)>) -> JsonValue {
    JsonValue::Object(entries.into_iter().map(|(k, v)| (k.to_string(), v)).collect())
}

const DATA: &str = "/Users/ann/Library/Containers/com.apple.MobileSMS/Data";

#[test]
fn bridge_files_in_messages_container() {
    let l = layout();
    assert_eq!(messages_container_data("/Users/ann"), DATA);
    assert_eq!(bridge_ready_lock("/Users/ann", &l), format!("{DATA}/.bridge-ready"));
    assert_eq!(rpc_inbox("/Users/ann", &l), format!("{DATA}/rpc/in"));
    assert_eq!(rpc_outbox("/Users/ann", &l), format!("{DATA}/rpc/out"));
    assert_eq!(events_log("/Users/ann", &l), format!("{DATA}/events.jsonl"));
    assert_eq!(BridgeClient::events_log_path("/Users/ann", &l), format!("{DATA}/events.jsonl"));
}

#[test]
fn dylib_search_order() {
    let all = dylib_search_paths(
        "/src/rs",
        "b.dylib",
        Some(s("/custom/b.dylib")),
        Some(s("/legacy/b.dylib")),
        Some(s("/brew")),
        Some(s("/bin/dir")),
    );
    assert_eq!(
        all,
        vec![
            s("/src/rs/lib/b.dylib"),
            s("/custom/b.dylib"),
            s("/brew/lib/b.dylib"),
            s("/opt/homebrew/lib/b.dylib"),
            s("/usr/local/lib/b.dylib"),
            s("/bin/dir/b.dylib"),
            s("/bin/dir/../lib/b.dylib"),
        ]
    );
    let few = dylib_search_paths("/src/rs", "b.dylib", None, Some(s("/legacy/b.dylib")), None, None);
    assert_eq!(
        few,
        vec![
            s("/src/rs/lib/b.dylib"),
            s("/legacy/b.dylib"),
            s("/opt/homebrew/lib/b.dylib"),
            s("/usr/local/lib/b.dylib"),
        ]
    );
}

#[test]
fn first_existing_dylib_wins() {
    let c = vec![s("/a"), s("/b"), s("/c")];
    assert_eq!(resolve_dylib(&c, &vec![false, true, true]), Some(s("/b")));
    assert_eq!(resolve_dylib(&c, &vec![false, false, false]), None);
    assert_eq!(resolve_dylib(&vec![], &vec![]), None);
}

#[test]
fn sip_status_from_csrutil_output() {
    assert_eq!(
        current_sip_status(Some(b"System Integrity Protection status: disabled.".to_vec())),
        SipStatus::Disabled
    );
    assert_eq!(
        current_sip_status(Some(b"System Integrity Protection status: ENABLED.".to_vec())),
        SipStatus::Enabled
    );
    assert_eq!(current_sip_status(Some(b"something else".to_vec())), SipStatus::Unknown);
    assert_eq!(current_sip_status(None), SipStatus::Unknown);
}

#[test]
fn injection_needs_sip_off() {
    assert_eq!(require_sip_disabled(Some(b"status: disabled".to_vec())), Ok(()));
    assert_eq!(
        require_sip_disabled(Some(b"status: enabled".to_vec())),
        Err(RsImessageError::PrivateApi(s(
            "System Integrity Protection is enabled; disable SIP in Recovery mode before private-api injection"
        )))
    );
    let unknown = require_sip_disabled(None).unwrap_err();
    assert_eq!(unknown.message(), "private-api: could not determine SIP status via csrutil");
}

#[test]
fn discover_reports_missing_library() {
    let found = Launcher::discover(Some(s("/lib/b.dylib")), "b.dylib").unwrap();
    assert_eq!(found.dylib_path, "/lib/b.dylib");
    let missing = Launcher::discover(None, "b.dylib").unwrap_err();
    assert_eq!(
        missing,
        RsImessageError::PrivateApi(s(
            "b.dylib not found; build from openclaw/imsg (make build-dylib) or set RS_IMESSAGE_BRIDGE_DYLIB"
        ))
    );
}

#[test]
fn ready_bridge_is_left_alone() {
    let launcher = Launcher { dylib_path: s("/lib/b.dylib") };
    let (mut session, first) = launcher.ensure_launched("/Users/ann", &layout());
    assert_eq!(first, LaunchAction::CheckReady { lock: format!("{DATA}/.bridge-ready") });
    let next = session.resume(LaunchEvent::ReadyChecked(true));
    assert_eq!(next, LaunchAction::Finished(Ok(())));
    assert!(session.is_done());
}

#[test]
fn full_launch_sequence() {
    let launcher = Launcher { dylib_path: s("lib/b.dylib") };
    let (mut session, _) = launcher.ensure_launched("/Users/ann", &layout());
    let mut actions = Vec::new();
    let events = vec![
        LaunchEvent::ReadyChecked(false),
        LaunchEvent::SipRead(Some(b"disabled".to_vec())),
        LaunchEvent::Completed,
        LaunchEvent::Completed,
        LaunchEvent::Completed,
        LaunchEvent::DirMade(Ok(())),
        LaunchEvent::DirMade(Ok(())),
        LaunchEvent::DirCleaned(Ok(())),
        LaunchEvent::DirCleaned(Ok(())),
        LaunchEvent::DylibResolved(Ok(s("/abs/lib/b.dylib"))),
        LaunchEvent::Spawned(Ok(())),
        LaunchEvent::ReadyWaited(true),
    ];
    for e in events {
        assert!(session.awaits(&e));
        actions.push(session.resume(e));
    }
    assert_eq!(
        actions,
        vec![
            LaunchAction::ReadSipStatus,
            LaunchAction::KillMessages,
            LaunchAction::Pause { ms: 1000 },
            LaunchAction::RemoveLock { lock: format!("{DATA}/.bridge-ready") },
            LaunchAction::MakeDir { path: format!("{DATA}/rpc/in") },
            LaunchAction::MakeDir { path: format!("{DATA}/rpc/out") },
            LaunchAction::CleanDir { path: format!("{DATA}/rpc/in") },
            LaunchAction::CleanDir { path: format!("{DATA}/rpc/out") },
            LaunchAction::ResolveDylib { path: s("lib/b.dylib") },
            LaunchAction::Launch {
                program: s("/System/Applications/Messages.app/Contents/MacOS/Messages"),
                var: s("DYLD_INSERT_LIBRARIES"),
                dylib: s("/abs/lib/b.dylib"),
            },
            LaunchAction::AwaitReady {
                lock: format!("{DATA}/.bridge-ready"),
                timeout_ms: 15000,
                poll_ms: 250,
                settle_ms: 500,
            },
            LaunchAction::Finished(Ok(())),
        ]
    );
    assert!(session.is_done());
}

#[test]
fn launch_stops_when_sip_is_on() {
    let launcher = Launcher { dylib_path: s("/lib/b.dylib") };
    let (mut session, _) = launcher.ensure_launched("/h", &layout());
    session.resume(LaunchEvent::ReadyChecked(false));
    let next = session.resume(LaunchEvent::SipRead(Some(b"enabled".to_vec())));
    assert!(matches!(next, LaunchAction::Finished(Err(RsImessageError::PrivateApi(_)))));
    assert!(session.is_done());
}

#[test]
fn launch_failures_are_reported() {
    let launcher = Launcher { dylib_path: s("/lib/b.dylib") };
    let (mut session, _) = launcher.ensure_launched("/h", &layout());
    session.resume(LaunchEvent::ReadyChecked(false));
    session.resume(LaunchEvent::SipRead(Some(b"disabled".to_vec())));
    session.resume(LaunchEvent::Completed);
    session.resume(LaunchEvent::Completed);
    session.resume(LaunchEvent::Completed);
    let next = session.resume(LaunchEvent::DirMade(Err(s("Permission denied"))));
    assert_eq!(
        next,
        LaunchAction::Finished(Err(RsImessageError::PrivateApi(format!(
            "mkdir /h/Library/Containers/com.apple.MobileSMS/Data/rpc/in: Permission denied"
        ))))
    );
}

#[test]
fn launch_times_out_without_lock() {
    let launcher = Launcher { dylib_path: s("/lib/b.dylib") };
    let (mut session, _) = launcher.ensure_launched("/h", &layout());
    for e in [
        LaunchEvent::ReadyChecked(false),
        LaunchEvent::SipRead(Some(b"disabled".to_vec())),
        LaunchEvent::Completed,
        LaunchEvent::Completed,
        LaunchEvent::Completed,
        LaunchEvent::DirMade(Ok(())),
        LaunchEvent::DirMade(Ok(())),
        LaunchEvent::DirCleaned(Ok(())),
        LaunchEvent::DirCleaned(Ok(())),
        LaunchEvent::DylibResolved(Ok(s("/lib/b.dylib"))),
        LaunchEvent::Spawned(Ok(())),
    ] {
        session.resume(e);
    }
    let last = session.resume(LaunchEvent::ReadyWaited(false));
    assert_eq!(
        last,
        LaunchAction::Finished(Err(RsImessageError::PrivateApi(s(
            "timeout waiting for bridge ready lock"
        ))))
    );
}

#[test]
fn answers_parse() {
    let raw = obj(vec![
        ("v", JsonValue::Number(JsonNumber::PosInt(1))),
        ("id", JsonValue::String(s("abc"))),
        ("success", JsonValue::Bool(true)),
        ("data", obj(vec![("guid", JsonValue::String(s("g1")))])),
    ]);
    let r = BridgeResponse::parse(raw).unwrap();
    assert_eq!(r.id, "abc");
    assert!(r.success);
    assert_eq!(r.error, None);
    assert_eq!(r.data, obj(vec![("guid", JsonValue::String(s("g1")))]));
}

#[test]
fn answer_without_data_member_keeps_the_rest() {
    let raw = obj(vec![
        ("v", JsonValue::Number(JsonNumber::PosInt(1))),
        ("id", JsonValue::Number(JsonNumber::NegInt(-4))),
        ("success", JsonValue::Bool(false)),
        ("error", JsonValue::String(s("no chat"))),
        ("timestamp", JsonValue::Number(JsonNumber::PosInt(99))),
        ("chatGuid", JsonValue::String(s("c"))),
        ("count", JsonValue::Number(JsonNumber::PosInt(2))),
    ]);
    let r = BridgeResponse::parse(raw).unwrap();
    assert_eq!(r.id, "-4");
    assert!(!r.success);
    assert_eq!(r.error, Some(s("no chat")));
    assert_eq!(
        r.data,
        obj(vec![
            ("chatGuid", JsonValue::String(s("c"))),
            ("count", JsonValue::Number(JsonNumber::PosInt(2))),
        ])
    );
    assert_eq!(answer_result(r), Err(RsImessageError::PrivateApi(s("no chat"))));
}

#[test]
fn odd_answers() {
    let r = BridgeResponse::parse(JsonValue::Null).unwrap();
    assert_eq!(r.id, "");
    assert!(!r.success);
    assert_eq!(r.data, JsonValue::Object(vec![]));
    assert_eq!(answer_result(r), Err(RsImessageError::PrivateApi(s("bridge error"))));
    assert_eq!(stringify_id(&JsonValue::Number(JsonNumber::PosInt(42))), "42");
    assert_eq!(stringify_id(&JsonValue::Number(JsonNumber::Float(s("1.5")))), "1.5");
    assert_eq!(stringify_id(&JsonValue::Bool(true)), "");
}

#[test]
fn request_envelope_members() {
    let env = request_envelope(
        JsonValue::Number(JsonNumber::PosInt(2)),
        "id-1",
        "ping",
        JsonValue::Object(vec![]),
    );
    assert_eq!(
        env,
        obj(vec![
            ("v", JsonValue::Number(JsonNumber::PosInt(2))),
            ("id", JsonValue::String(s("id-1"))),
            ("action", JsonValue::String(s("ping"))),
            ("params", JsonValue::Object(vec![])),
        ])
    );
}

#[test]
fn request_round_trip() {
    let l = layout();
    let (mut session, first) = InvokeSession::start_with_id(
        "u1",
        "typing",
        JsonValue::Null,
        JsonValue::Number(JsonNumber::PosInt(1)),
        3000,
        "/h",
        &l,
    );
    let base = "/h/Library/Containers/com.apple.MobileSMS/Data/rpc";
    assert_eq!(first, InvokeAction::MakeDir { path: format!("{base}/in") });
    assert_eq!(session.resume(InvokeEvent::DirMade(Ok(()))), InvokeAction::MakeDir { path: format!("{base}/out") });
    match session.resume(InvokeEvent::DirMade(Ok(()))) {
        InvokeAction::WriteRequest { tmp, path, envelope } => {
            assert_eq!(tmp, format!("{base}/in/u1.tmp"));
            assert_eq!(path, format!("{base}/in/u1.json"));
            assert_eq!(envelope.get("action"), Some(&JsonValue::String(s("typing"))));
        }
        other => panic!("unexpected {:?}", other),
    }
    assert_eq!(session.resume(InvokeEvent::Written(Ok(()))), InvokeAction::StartClock { timeout_ms: 3000 });
    assert_eq!(session.resume(InvokeEvent::Completed), InvokeAction::Poll { path: format!("{base}/out/u1.json") });
    assert_eq!(session.resume(InvokeEvent::Polled(PollOutcome::Missing)), InvokeAction::Pause { ms: 50 });
    assert_eq!(session.resume(InvokeEvent::Completed), InvokeAction::Poll { path: format!("{base}/out/u1.json") });
    assert_eq!(session.resume(InvokeEvent::Polled(PollOutcome::Read(b"{".to_vec()))), InvokeAction::Pause { ms: 50 });
    session.resume(InvokeEvent::Completed);
    let bytes = b"{\"id\":\"u1\",\"success\":true}".to_vec();
    assert_eq!(
        session.resume(InvokeEvent::Polled(PollOutcome::Read(bytes.clone()))),
        InvokeAction::Decode { path: format!("{base}/out/u1.json"), bytes }
    );
    let raw = obj(vec![("id", JsonValue::String(s("u1"))), ("success", JsonValue::Bool(true))]);
    match session.resume(InvokeEvent::Decoded(Ok(raw))) {
        InvokeAction::Finished(Ok(r)) => {
            assert_eq!(r.id, "u1");
            assert_eq!(r.data, JsonValue::Object(vec![]));
        }
        other => panic!("unexpected {:?}", other),
    }
    assert!(session.is_done());
}

#[test]
fn request_times_out_and_is_withdrawn() {
    let (mut session, _) = InvokeSession::start_with_id(
        "u2",
        "typing",
        JsonValue::Null,
        JsonValue::Null,
        10,
        "/h",
        &layout(),
    );
    session.resume(InvokeEvent::DirMade(Ok(())));
    session.resume(InvokeEvent::DirMade(Ok(())));
    session.resume(InvokeEvent::Written(Ok(())));
    session.resume(InvokeEvent::Completed);
    let base = "/h/Library/Containers/com.apple.MobileSMS/Data/rpc";
    assert_eq!(
        session.resume(InvokeEvent::Polled(PollOutcome::TimedOut)),
        InvokeAction::Withdraw { path: format!("{base}/in/u2.json") }
    );
    assert_eq!(
        session.resume(InvokeEvent::Completed),
        InvokeAction::Finished(Err(RsImessageError::PrivateApi(s(
            "timeout waiting for bridge response to 'typing'"
        ))))
    );
}

#[test]
fn undecodable_answer_is_a_json_error() {
    let (mut session, _) =
        InvokeSession::start_with_id("u3", "ping", JsonValue::Null, JsonValue::Null, 10, "/h", &layout());
    session.resume(InvokeEvent::DirMade(Ok(())));
    session.resume(InvokeEvent::DirMade(Ok(())));
    session.resume(InvokeEvent::Written(Ok(())));
    session.resume(InvokeEvent::Completed);
    session.resume(InvokeEvent::Polled(PollOutcome::Read(b"xx".to_vec())));
    assert_eq!(
        session.resume(InvokeEvent::Decoded(Err(s("expected value")))),
        InvokeAction::Finished(Err(RsImessageError::Json(s("expected value"))))
    );
}

fn written_id(random: [u8; 16]) -> (String, String) {
    let (mut session, _) =
        InvokeSession::start(random, "ping", JsonValue::Null, JsonValue::Null, 10, "/h", &layout());
    session.resume(InvokeEvent::DirMade(Ok(())));
    match session.resume(InvokeEvent::DirMade(Ok(()))) {
        InvokeAction::WriteRequest { tmp, envelope, .. } => {
            let id = envelope.get("id").and_then(|v| v.as_str()).unwrap().to_string();
            (id, tmp)
        }
        other => panic!("unexpected {:?}", other),
    }
}

#[test]
fn request_ids_are_version_4_uuids() {
    let (zero, tmp) = written_id([0; 16]);
    assert_eq!(zero, "00000000-0000-4000-8000-000000000000");
    assert!(tmp.ends_with("/rpc/in/00000000-0000-4000-8000-000000000000.tmp"));
    let (ones, _) = written_id([0xff; 16]);
    assert_eq!(ones, "ffffffff-ffff-4fff-bfff-ffffffffffff");
    let bytes = [0x01, 0x23, 0x45, 0x67, 0x89, 0xab, 0xcd, 0xef, 0x01, 0x23, 0x45, 0x67, 0x89, 0xab, 0xcd, 0xef];
    let (mixed, _) = written_id(bytes);
    assert_eq!(mixed, "01234567-89ab-4def-8123-456789abcdef");
}

#[test]
fn bridge_calls_carry_their_parameters() {
    let (mut session, _) = BridgeClient::connect(Some(s("/lib/b.dylib")), "b.dylib", "/h", &layout()).unwrap();
    session.resume(LaunchEvent::ReadyChecked(true));
    let client = BridgeClient::from_launch(&session).unwrap();
    let c = client.ping();
    assert_eq!((c.action, c.params), (BridgeAction::Ping, JsonValue::Object(vec![])));
    let c = client.start_typing("chat-1");
    assert_eq!(c.action, BridgeAction::StartTyping);
    assert_eq!(c.params, obj(vec![("chatGuid", JsonValue::String(s("chat-1")))]));
    let c = client.send_message("chat-1", "hi", Some("tmp-9"));
    assert_eq!(
        c.params,
        obj(vec![
            ("chatGuid", JsonValue::String(s("chat-1"))),
            ("message", JsonValue::String(s("hi"))),
            ("tempGuid", JsonValue::String(s("tmp-9"))),
        ])
    );
    let c = client.send_message("chat-1", "hi", None);
    assert_eq!(c.params.get("tempGuid"), None);
    let c = client.send_reaction("chat-1", "m-1", "love");
    assert_eq!(c.params.get("selectedMessageGuid"), Some(&JsonValue::String(s("m-1"))));
    assert_eq!(c.params.get("reaction"), Some(&JsonValue::String(s("love"))));
    let c = client.edit_message("chat-1", "m-1", "fixed");
    assert_eq!(c.params.get("editedMessage"), Some(&JsonValue::String(s("fixed"))));
    let c = client.unsend_message("chat-1", "m-1");
    assert_eq!(c.action, BridgeAction::UnsendMessage);
    let c = client.mark_chat_read("chat-1");
    assert_eq!(c.action, BridgeAction::MarkChatRead);
    let c = client.create_chat(&vec![s("+1"), s("+2")]);
    assert_eq!(
        c.params,
        obj(vec![(
            "addresses",
            JsonValue::Array(vec![JsonValue::String(s("+1")), JsonValue::String(s("+2"))])
        )])
    );
}

#[test]
fn connect_and_readiness() {
    let missing = BridgeClient::connect(None, "b.dylib", "/h", &layout()).unwrap_err();
    assert_eq!(
        missing.message(),
        "private-api: b.dylib not found; build from openclaw/imsg (make build-dylib) or set RS_IMESSAGE_BRIDGE_DYLIB"
    );
    let (mut session, first) =
        BridgeClient::connect(Some(s("/lib/b.dylib")), "b.dylib", "/h", &layout()).unwrap();
    assert!(matches!(first, LaunchAction::CheckReady { .. }));
    assert!(BridgeClient::from_launch(&session).is_none());
    session.resume(LaunchEvent::ReadyChecked(false));
    session.resume(LaunchEvent::SipRead(Some(b"enabled".to_vec())));
    assert!(session.is_done());
    assert!(BridgeClient::from_launch(&session).is_none());
    assert!(BridgeClient::is_ready(Some(s("/lib/b.dylib")), true));
    assert!(!BridgeClient::is_ready(None, true));
    assert!(!BridgeClient::is_ready(Some(s("/lib/b.dylib")), false));
    let launcher = Launcher { dylib_path: s("/lib/b.dylib") };
    assert!(launcher.is_ready(true));
    assert!(!launcher.is_ready(false));
}

#[test]
fn client_after_relaunch() {
    let client = rs_imessage::Client::open(
        rs_imessage::ClientConfig { chat_db_path: s("/x/chat.db") },
        Ok(()),
    )
    .unwrap();
    let (mut session, _) = client.bridge(Some(s("/lib/b.dylib")), "b.dylib", "/h", &layout()).unwrap();
    for e in [
        LaunchEvent::ReadyChecked(false),
        LaunchEvent::SipRead(Some(b"disabled".to_vec())),
        LaunchEvent::Completed,
        LaunchEvent::Completed,
        LaunchEvent::Completed,
        LaunchEvent::DirMade(Ok(())),
        LaunchEvent::DirMade(Ok(())),
        LaunchEvent::DirCleaned(Ok(())),
        LaunchEvent::DirCleaned(Ok(())),
        LaunchEvent::DylibResolved(Ok(s("/lib/b.dylib"))),
        LaunchEvent::Spawned(Ok(())),
    ] {
        session.resume(e);
        assert!(BridgeClient::from_launch(&session).is_none());
    }
    assert_eq!(session.resume(LaunchEvent::ReadyWaited(true)), LaunchAction::Finished(Ok(())));
    assert!(BridgeClient::from_launch(&session).is_some());
}
