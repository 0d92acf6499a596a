use rs_imessage::error::RsImessageError;
use rs_imessage::send::apple::{
    osascript_result, send, send_with_db, ScriptOutcome, SendAction, SendEvent, NO_TARGET_TEXT,
    NO_TEXT_TEXT,
};
use rs_imessage::send::script::{build_send_script, escape_applescript_string, service_label};
use rs_imessage::send::stub;
use rs_imessage::types::{SendRequest, SendResult, SendService};

fn expected_escape(value: &str) -> String {
    value.replace('\\', "\\\\").replace('"', "\\\"")
}

fn expected_script(target: &str, text: &str, service: &str, file: Option<&str>) -> String {
    let target_esc = expected_escape(target);
    let text_esc = expected_escape(text);

    let body = if let Some(path) = file {
        let path_esc = expected_escape(path);
        format!(
            r#"
            set theFile to POSIX file "{path_esc}"
            if "{text_esc}" is not "" then
                send "{text_esc}" to targetChat
                delay 0.3
            end if
            send theFile to targetChat
            "#
        )
    } else {
        format!(r#"send "{text_esc}" to targetChat"#)
    };

    let service_type = match service {
        "SMS" => "SMS",
        _ => "iMessage",
    };

    let send_target = if target.contains("chat") && target.contains(';') {
        "targetChat".to_string()
    } else {
        "targetBuddy".to_string()
    };

    let setup = if send_target == "targetChat" {
        format!(
            r#"
            set targetChat to missing value
            set targetHandle to "{target_esc}"
            repeat with c in chats
                if id of c is targetHandle then
                    set targetChat to c
                    exit repeat
                end if
            end repeat
            if targetChat is missing value then
                error "chat not found"
            end if
            "#
        )
    } else {
        format!(
            r#"
            set svc to 1st service whose service type is {service_type}
            set targetBuddy to buddy "{target_esc}" of svc
            "#
        )
    };

    let body = body.replace("targetChat", &send_target);

    format!(
        r#"
        tell application "Messages"
            {setup}
            {body}
        end tell
        "#
    )
}


fn request() -> SendRequest {
    SendRequest {
        to: None,
        chat_id: None,
        chat_guid: None,
        chat_identifier: None,
        text: None,
        file: None,
        service: SendService::Auto,
    }
}

#[test]
fn escape_doubles_backslashes_and_quotes() {
    assert_eq!(escape_applescript_string(r#"say "hi" \o/"#), r#"say \"hi\" \\o/"#);
    assert_eq!(escape_applescript_string("plain"), "plain");
    assert_eq!(escape_applescript_string(""), "");
}

#[test]
fn service_labels() {
    assert_eq!(service_label(SendService::Auto), "auto");
    assert_eq!(service_label(SendService::Imessage), "iMessage");
    assert_eq!(service_label(SendService::Sms), "SMS");
    assert_eq!(SendService::default(), SendService::Auto);
}

#[test]
fn buddy_script_for_plain_text() {
    let script = build_send_script("+15551234567", "hello", "auto", None).unwrap();
    assert_eq!(script, expected_script("+15551234567", "hello", "auto", None));
    let literal = "\n        tell application \"Messages\"\n            \n            set svc to 1st service whose service type is iMessage\n            set targetBuddy to buddy \"+15551234567\" of svc\n            \n            send \"hello\" to targetBuddy\n        end tell\n        ";
    assert_eq!(script, literal);
}

#[test]
fn sms_service_picks_sms_buddy() {
    let script = build_send_script("+15551234567", "yo", "SMS", None).unwrap();
    assert_eq!(script, expected_script("+15551234567", "yo", "SMS", None));
    assert!(script.contains("service type is SMS"));
}

#[test]
fn chat_guid_targets_chat() {
    let target = "iMessage;+;chat123456";
    let script = build_send_script(target, "group hi", "auto", None).unwrap();
    assert_eq!(script, expected_script(target, "group hi", "auto", None));
    assert!(script.contains("send \"group hi\" to targetChat"));
    assert!(script.contains("set targetHandle to \"iMessage;+;chat123456\""));
}

#[test]
fn file_script_sends_caption_then_file() {
    let script =
        build_send_script("a@b.com", "look", "iMessage", Some("/tmp/p \"1\".png")).unwrap();
    assert_eq!(script, expected_script("a@b.com", "look", "iMessage", Some("/tmp/p \"1\".png")));
    assert!(script.contains("POSIX file \"/tmp/p \\\"1\\\".png\""));
    assert!(script.contains("send theFile to targetBuddy"));
}

#[test]
fn quotes_in_text_stay_inside_the_literal() {
    let text = "he said \"targetChat\" \\";
    let script = build_send_script("+1555", text, "auto", None).unwrap();
    assert_eq!(script, expected_script("+1555", text, "auto", None));
}

#[test]
fn text_named_like_the_chat_variable_to_a_buddy() {
    let script = build_send_script("+1555", "targetChat", "auto", None).unwrap();
    assert_eq!(script, expected_script("+1555", "targetChat", "auto", None));
    assert!(script.contains("send \"targetBuddy\" to targetBuddy"));
}

#[test]
fn send_to_handle_runs_script_then_succeeds() {
    let mut req = request();
    req.to = Some("+15551234567".to_string());
    req.text = Some("hi".to_string());
    req.chat_guid = Some("ignored;chat".to_string());
    let (mut session, action) = send_with_db(&req, "/db/chat.db");
    match action {
        SendAction::RunScript { script } => {
            assert_eq!(script, expected_script("+15551234567", "hi", "auto", None))
        }
        other => panic!("unexpected {:?}", other),
    }
    assert!(!session.is_done());
    let done = session.resume(SendEvent::ScriptExited(ScriptOutcome::Exited {
        success: true,
        status: "exit status: 0".to_string(),
        stderr: Vec::new(),
        stdout: Vec::new(),
    }));
    assert_eq!(done, SendAction::Finished(Ok(SendResult { ok: true, detail: None })));
    assert!(session.is_done());
}

#[test]
fn send_by_chat_id_looks_chat_up() {
    let mut req = request();
    req.chat_id = Some(7);
    req.text = Some("hey".to_string());
    let (mut session, action) = send_with_db(&req, "/db/chat.db");
    assert_eq!(action, SendAction::LookupChat { chat_id: 7, db_path: "/db/chat.db".to_string() });
    let next = session.resume(SendEvent::ChatLookedUp(Ok(Some("iMessage;-;chat99".to_string()))));
    match next {
        SendAction::RunScript { script } => {
            assert_eq!(script, expected_script("iMessage;-;chat99", "hey", "auto", None))
        }
        other => panic!("unexpected {:?}", other),
    }
}

#[test]
fn unknown_chat_id_is_an_error() {
    let mut req = request();
    req.chat_id = Some(7);
    req.text = Some("hey".to_string());
    let (mut session, _) = send(&req, "/db/chat.db");
    let next = session.resume(SendEvent::ChatLookedUp(Ok(None)));
    match next {
        SendAction::Finished(Err(e)) => {
            assert_eq!(e, RsImessageError::Send("chat_id 7 not found".to_string()));
            assert_eq!(e.message(), "send: chat_id 7 not found");
        }
        other => panic!("unexpected {:?}", other),
    }
}

#[test]
fn lookup_failure_is_passed_on() {
    let mut req = request();
    req.chat_id = Some(3);
    req.text = Some("x".to_string());
    let (mut session, _) = send(&req, "/db/chat.db");
    let next = session.resume(SendEvent::ChatLookedUp(Err(RsImessageError::Database(
        "locked".to_string(),
    ))));
    assert_eq!(next, SendAction::Finished(Err(RsImessageError::Database("locked".to_string()))));
}

#[test]
fn no_recipient_is_refused() {
    let mut req = request();
    req.text = Some("hi".to_string());
    let (session, action) = send_with_db(&req, "/db/chat.db");
    assert!(session.is_done());
    assert_eq!(action, SendAction::Finished(Err(RsImessageError::Send(NO_TARGET_TEXT.to_string()))));
}

#[test]
fn empty_text_without_file_is_refused() {
    let mut req = request();
    req.to = Some("+1555".to_string());
    req.text = Some(String::new());
    let (_, action) = send_with_db(&req, "/db/chat.db");
    assert_eq!(action, SendAction::Finished(Err(RsImessageError::Send(NO_TEXT_TEXT.to_string()))));
    assert_eq!(NO_TEXT_TEXT, "send requires --text and/or --file");
}

#[test]
fn missing_file_is_refused() {
    let mut req = request();
    req.to = Some("+1555".to_string());
    req.file = Some("/nope/a.png".to_string());
    let (mut session, action) = send_with_db(&req, "/db/chat.db");
    assert_eq!(action, SendAction::CheckFile { path: "/nope/a.png".to_string() });
    let next = session.resume(SendEvent::FileChecked(false));
    assert_eq!(
        next,
        SendAction::Finished(Err(RsImessageError::Send("file not found: /nope/a.png".to_string())))
    );
}

#[test]
fn file_is_staged_then_sent() {
    let mut req = request();
    req.to = Some("+1555".to_string());
    req.file = Some("/home/u/a.png".to_string());
    req.service = SendService::Sms;
    let (mut session, _) = send_with_db(&req, "/db/chat.db");
    let next = session.resume(SendEvent::FileChecked(true));
    assert_eq!(next, SendAction::StageAttachment { source: "/home/u/a.png".to_string() });
    let next = session.resume(SendEvent::Staged(Ok("/stage/a.png".to_string())));
    match next {
        SendAction::RunScript { script } => {
            assert_eq!(script, expected_script("+1555", "", "SMS", Some("/stage/a.png")))
        }
        other => panic!("unexpected {:?}", other),
    }
}

#[test]
fn failed_script_reports_status_and_output() {
    let res = osascript_result(ScriptOutcome::Exited {
        success: false,
        status: "exit status: 1".to_string(),
        stderr: b"boom ".to_vec(),
        stdout: b"out".to_vec(),
    });
    assert_eq!(res, Err(RsImessageError::Send("osascript exit exit status: 1: boom out".to_string())));
    let res = osascript_result(ScriptOutcome::NotStarted("No such file".to_string()));
    assert_eq!(res, Err(RsImessageError::Send("osascript failed to start: No such file".to_string())));
}

#[test]
fn stub_refuses_every_send() {
    let mut req = request();
    req.to = Some("+1555".to_string());
    req.text = Some("hi".to_string());
    assert_eq!(stub::send(&req), Err(RsImessageError::UnsupportedPlatform));
    assert_eq!(stub::send_with_db(&req, "/db"), Err(RsImessageError::UnsupportedPlatform));
    assert_eq!(
        RsImessageError::UnsupportedPlatform.message(),
        "rs_imessage requires macOS (Messages.app + chat.db)"
    );
}

#[test]
fn text_fills_only_its_literal() {
    let empty = build_send_script("+1555", "", "auto", None).unwrap();
    let text = "a \"quoted\" \\ text";
    let full = build_send_script("+1555", text, "auto", None).unwrap();
    let filled = empty.replacen("send \"\" to", &format!("send \"{}\" to", escape_applescript_string(text)), 1);
    assert_eq!(full, filled);
}
