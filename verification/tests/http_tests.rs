use rs_imessage::error::RsImessageError;
use rs_imessage::http::{
    authorize, chats_request, gate, history_request, ok, ping, respond, HEALTH_TEXT,
    INTERNAL_SERVER_ERROR, UNAUTHORIZED,
};

#[test]
fn bearer_header_is_checked() {
    assert!(authorize(Some("Bearer s3cret"), None, "s3cret"));
    assert!(authorize(Some("Bearer   s3cret \t"), None, "s3cret"));
    assert!(!authorize(Some("Bearer wrong"), None, "s3cret"));
    assert!(!authorize(Some("Basic s3cret"), None, "s3cret"));
}

#[test]
fn query_token_used_without_bearer_header() {
    assert!(authorize(None, Some("s3cret"), "s3cret"));
    assert!(authorize(Some("Basic xyz"), Some("s3cret"), "s3cret"));
    assert!(!authorize(None, Some("nope"), "s3cret"));
}

#[test]
fn header_token_decides_over_query() {
    assert!(!authorize(Some("Bearer wrong"), Some("s3cret"), "s3cret"));
}

#[test]
fn empty_tokens_never_pass() {
    assert!(!authorize(None, None, "s3cret"));
    assert!(!authorize(None, None, ""));
    assert!(!authorize(Some("Bearer "), None, ""));
    assert!(!authorize(None, Some(""), ""));
}

#[test]
fn route_limits_and_refusals() {
    assert_eq!(chats_request(None, Some("t"), "t", None), Ok(20));
    assert_eq!(chats_request(None, Some("t"), "t", Some(5)), Ok(5));
    assert_eq!(chats_request(None, None, "t", Some(5)), Err(UNAUTHORIZED));
    assert_eq!(history_request(Some("Bearer t"), None, "t", None), Ok(50));
    assert_eq!(history_request(Some("Bearer x"), None, "t", None), Err(401));
    assert_eq!(gate(Some("Bearer t"), None, "t"), Ok(()));
    assert_eq!(gate(None, None, "t"), Err(401));
}

#[test]
fn answers_are_wrapped() {
    let env = ok(vec![1, 2]);
    assert_eq!(env.status, 200);
    assert_eq!(env.message, "Success");
    assert_eq!(env.data, vec![1, 2]);
    let p = ping(Some("Bearer t"), None, "t").unwrap();
    assert_eq!((p.status, p.message.as_str(), p.data), (200, "Success", "pong"));
    assert_eq!(ping(None, None, "t"), Err(UNAUTHORIZED));
    assert_eq!(ping(None, Some("x"), "t"), Err(401));
    assert_eq!(HEALTH_TEXT, "ok");
    let done = respond::<u32>(Ok(7)).unwrap();
    assert_eq!(done.data, 7);
    assert_eq!(respond::<u32>(Err(RsImessageError::Database("x".to_string()))), Err(INTERNAL_SERVER_ERROR));
    assert_eq!(INTERNAL_SERVER_ERROR, 500);
}
