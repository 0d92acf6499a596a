use rs_imessage::error::RsImessageError;
use rs_imessage::json::{JsonNumber, JsonValue};
use rs_imessage::rpc::{
    dispatch, err, handle_request, parse_error, respond, RpcCall, RpcPending, RpcRequest,
    INVALID_REQUEST, PARSE_ERROR, SERVER_ERROR,
};
use rs_imessage::watch::WatchOptions;

fn obj(entries: Vec<(&str, JsonValue)>) -> JsonValue {
    JsonValue::Object(entries.into_iter().map(|(k, v)| (k.to_string(), v)).collect())
}

fn num(n: u64) -> JsonValue {
    JsonValue::Number(JsonNumber::PosInt(n))
}

#[test]
fn wrong_version_is_invalid() {
    let req = RpcRequest {
        jsonrpc: "1.0".to_string(),
        id: Some(num(4)),
        method: "chats.list".to_string(),
        params: JsonValue::Null,
    };
    let resp = handle_request(req).unwrap_err();
    assert_eq!(resp.id, num(4));
    assert_eq!(resp.result, None);
    let e = resp.error.unwrap();
    assert_eq!((e.code, e.message.as_str()), (INVALID_REQUEST, "invalid jsonrpc version"));
    assert_eq!(INVALID_REQUEST, -32600);
}

#[test]
fn good_request_is_pending() {
    let req = RpcRequest {
        jsonrpc: "2.0".to_string(),
        id: None,
        method: "chats.list".to_string(),
        params: JsonValue::Null,
    };
    let p = handle_request(req).unwrap();
    assert_eq!(p.id, JsonValue::Null);
    assert_eq!(p.method, "chats.list");
}

#[test]
fn parse_errors_have_null_id() {
    let r = parse_error("EOF while parsing");
    assert_eq!(r.id, JsonValue::Null);
    assert_eq!(r.jsonrpc, "2.0");
    let e = r.error.unwrap();
    assert_eq!(e.code, PARSE_ERROR);
    assert_eq!(e.message, "parse error: EOF while parsing");
    assert_eq!(PARSE_ERROR, -32700);
    let r = err(JsonValue::String("x".to_string()), 7, "m".to_string());
    assert_eq!(r.error.unwrap().code, 7);
}

#[test]
fn routes_with_defaults() {
    assert_eq!(dispatch("chats.list", JsonValue::Null), Ok(RpcCall::ChatsList { limit: 20 }));
    assert_eq!(
        dispatch("chats.list", obj(vec![("limit", num(3))])),
        Ok(RpcCall::ChatsList { limit: 3 })
    );
    assert_eq!(
        dispatch("messages.history", obj(vec![("chat_id", num(9)), ("since_rowid", num(100))])),
        Ok(RpcCall::MessagesHistory { chat_id: 9, limit: 50, since_rowid: Some(100) })
    );
    assert_eq!(
        dispatch(
            "messages.search",
            obj(vec![("query", JsonValue::String("pizza".to_string())), ("limit", num(2))])
        ),
        Ok(RpcCall::MessagesSearch { query: "pizza".to_string(), limit: 2 })
    );
    assert_eq!(
        dispatch("watch.subscribe", obj(vec![("chat_id", JsonValue::Number(JsonNumber::NegInt(-1)))])),
        Ok(RpcCall::WatchSubscribe {
            options: WatchOptions { chat_id: Some(-1), since_rowid: None, poll_ms: 500, debounce_ms: 300 }
        })
    );
    assert_eq!(dispatch("send", num(1)), Ok(RpcCall::Send { params: num(1) }));
}

#[test]
fn route_errors() {
    assert_eq!(
        dispatch("messages.history", JsonValue::Null),
        Err(RsImessageError::Rpc("messages.history requires chat_id".to_string()))
    );
    assert_eq!(
        dispatch("messages.search", obj(vec![("query", num(1))])),
        Err(RsImessageError::Rpc("messages.search requires query".to_string()))
    );
    assert_eq!(
        dispatch("nope", JsonValue::Null),
        Err(RsImessageError::Rpc("unknown method: nope".to_string()))
    );
    assert_eq!(
        dispatch("chats.list", obj(vec![("limit", JsonValue::String("3".to_string()))])),
        Ok(RpcCall::ChatsList { limit: 20 })
    );
}

#[test]
fn store_failure_and_results() {
    let pending = RpcPending { id: num(1), method: "chats.list".to_string(), params: JsonValue::Null };
    let resp = pending.open_and_route(Err(RsImessageError::Other("chat.db not found at /x".to_string()))).unwrap_err();
    let e = resp.error.unwrap();
    assert_eq!((e.code, e.message.as_str()), (SERVER_ERROR, "chat.db not found at /x"));
    let pending = RpcPending { id: num(2), method: "bogus".to_string(), params: JsonValue::Null };
    let e = pending.open_and_route(Ok(())).unwrap_err().error.unwrap();
    assert_eq!(e.message, "rpc: unknown method: bogus");
    let pending = RpcPending { id: num(3), method: "chats.list".to_string(), params: JsonValue::Null };
    let (id, call) = pending.open_and_route(Ok(())).unwrap();
    assert_eq!((id, call), (num(3), RpcCall::ChatsList { limit: 20 }));
    let ok = respond(num(5), Ok(JsonValue::Bool(true)));
    assert_eq!((ok.result, ok.error), (Some(JsonValue::Bool(true)), None));
    let bad = respond(num(5), Err(RsImessageError::Send("x".to_string())));
    let e = bad.error.unwrap();
    assert_eq!((e.code, e.message.as_str()), (-32000, "send: x"));
}
