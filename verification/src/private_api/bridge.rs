//! The client of the private API: what each request asks of the bridge.
use vstd::prelude::*;

use crate::error::{ErrorView, RsImessageError};
use crate::json::{entry_is, JsonShape, JsonValue};
use crate::private_api::ipc::{InvokeAction, InvokeSession};
use crate::private_api::launcher::{
    launch_setup, LaunchAction, LaunchActionView, LaunchPhase, LaunchSession, Launcher,
    DYLIB_NOT_FOUND_TEXT,
};
use crate::types::opt_string_view;
use crate::private_api::paths::{events_log, BridgeLayout};
use crate::paths::joined;
use crate::private_api::paths::container_text;
use crate::text::owned;

verus! {

/// The requests the bridge answers.
#[derive(Debug, Clone, Copy, PartialEq, Eq, Structural)]
pub enum BridgeAction {
    Ping,
    StartTyping,
    StopTyping,
    SendMessage,
    SendReaction,
    EditMessage,
    UnsendMessage,
    MarkChatRead,
    CreateChat,
}

/// A request to the bridge: what to do, and with which parameters.
#[derive(Debug, PartialEq, Eq)]
pub struct BridgeCall {
    pub action: BridgeAction,
    pub params: JsonValue,
}

/// Whether `p` is an object with exactly the member `k1` holding `v1`.
pub open spec fn object1(p: JsonShape, k1: Seq<char>, v1: JsonShape) -> bool {
    p matches JsonShape::Object(es) && es.len() == 1 && entry_is(es[0], k1, v1)
}

/// Whether `p` is an object with exactly the members `k1` and `k2`, in
/// that order, holding `v1` and `v2`.
pub open spec fn object2(p: JsonShape, k1: Seq<char>, v1: JsonShape, k2: Seq<char>, v2: JsonShape) -> bool {
    p matches JsonShape::Object(es) && es.len() == 2 && entry_is(es[0], k1, v1) && entry_is(
        es[1],
        k2,
        v2,
    )
}

/// Whether `p` is an object with exactly the members `k1`, `k2` and `k3`,
/// in that order, holding `v1`, `v2` and `v3`.
pub open spec fn object3(
    p: JsonShape,
    k1: Seq<char>,
    v1: JsonShape,
    k2: Seq<char>,
    v2: JsonShape,
    k3: Seq<char>,
    v3: JsonShape,
) -> bool {
    p matches JsonShape::Object(es) && es.len() == 3 && entry_is(es[0], k1, v1) && entry_is(
        es[1],
        k2,
        v2,
    ) && entry_is(es[2], k3, v3)
}

/// Whether `p` is an object with exactly the member `addresses`, holding
/// the list of `addresses` as strings.
pub open spec fn lists_addresses(p: JsonShape, addresses: Seq<Seq<char>>) -> bool {
    &&& p matches JsonShape::Object(es)
    &&& es.len() == 1
    &&& es[0].0@ == "addresses"@
    &&& es[0].1@ matches JsonShape::Array(items)
    &&& items.len() == addresses.len()
    &&& forall|i: int| 0 <= i < items.len() ==> #[trigger] items[i]@ == JsonShape::String(addresses[i])
}

/// A JSON string.
fn text_value(s: &str) -> (res: JsonValue)
    ensures
        res@ == JsonShape::String(s@),
{
    JsonValue::String(owned(s))
}

/// A member named `key` holding the string `value`.
fn text_entry(key: &str, value: &str) -> (res: (String, JsonValue))
    ensures
        entry_is(res, key@, JsonShape::String(value@)),
{
    (owned(key), text_value(value))
}

/// A call with an object of parameters.
fn call_with(action: BridgeAction, entries: Vec<(String, JsonValue)>) -> (res: BridgeCall)
    ensures
        res.action == action,
        res.params@ == JsonShape::Object(entries@),
{
    BridgeCall { action, params: JsonValue::Object(entries) }
}

/// A connection to the bridge.
pub struct BridgeClient {
    launcher: Launcher,
}

impl BridgeClient {
    /// The library this connection injected.
    pub closed spec fn dylib_path(&self) -> Seq<char> {
        self.launcher.dylib_path@
    }

    /// Starts connecting to the bridge: finds its library (`resolved` is the
    /// result of `resolve_dylib`, `dylib_name` the library's file name) and,
    /// when it is found, starts making sure the bridge runs, for the home
    /// directory `home` (see `Launcher::ensure_launched`). A missing library
    /// is an error at once, before anything is stopped or launched. Once the
    /// launch session has ended, `from_launch` gives the client.
    pub fn connect(resolved: Option<String>, dylib_name: &str, home: &str, layout: &BridgeLayout) -> (res:
        Result<(LaunchSession, LaunchAction), RsImessageError>)
        ensures
            resolved is None <==> res is Err,
            res matches Err(e) ==> e@ == ErrorView::PrivateApi(dylib_name@ + DYLIB_NOT_FOUND_TEXT@),
            res matches Ok(started) ==> {
                &&& opt_string_view(resolved) == Some(started.0.setup().dylib)
                &&& started.0.setup() == launch_setup(started.0.setup().dylib, home@, layout@)
                &&& started.0.phase() == LaunchPhase::CheckingReady
                &&& !started.0.launched()
                &&& started.1@ == (LaunchActionView::CheckReady { lock: started.0.setup().lock })
            },
    {
        match Launcher::discover(resolved, dylib_name) {
            Ok(launcher) => Ok(launcher.ensure_launched(home, layout)),
            Err(e) => Err(e),
        }
    }

    /// The client of a launch: one exactly when the launch ended
    /// successfully.
    pub fn from_launch(session: &LaunchSession) -> (res: Option<BridgeClient>)
        ensures
            res is Some <==> session.launched(),
            res matches Some(c) ==> c.dylib_path() == session.setup().dylib,
    {
        if session.succeeded() {
            Some(BridgeClient { launcher: Launcher { dylib_path: owned(session.dylib_path()) } })
        } else {
            None
        }
    }

    /// Whether the bridge is ready: its library was found (`resolved`, see
    /// `resolve_dylib`) and the ready lock is a file (`lock_present`).
    pub fn is_ready(resolved: Option<String>, lock_present: bool) -> (res: bool)
        ensures
            res == (resolved is Some && lock_present),
    {
        match resolved {
            Some(_) => lock_present,
            None => false,
        }
    }

    /// Where the bridge logs its events.
    pub fn events_log_path(home: &str, layout: &BridgeLayout) -> (res: String)
        ensures
            res@ == joined(container_text(home@), layout.events_log@),
    {
        events_log(home, layout)
    }

    /// Asks whether the bridge answers.
    pub fn ping(&self) -> (res: BridgeCall)
        ensures
            res.action == BridgeAction::Ping,
            res.params@ == JsonShape::Object(Seq::empty()),
    {
        let entries: Vec<(String, JsonValue)> = Vec::new();
        assert(entries@ =~= Seq::<(String, JsonValue)>::empty());
        call_with(BridgeAction::Ping, entries)
    }

    /// Shows the typing indicator in a chat.
    pub fn start_typing(&self, chat_guid: &str) -> (res: BridgeCall)
        ensures
            res.action == BridgeAction::StartTyping,
            object1(res.params@, "chatGuid"@, JsonShape::String(chat_guid@)),
    {
        call_with(BridgeAction::StartTyping, vec![text_entry("chatGuid", chat_guid)])
    }

    /// Hides the typing indicator in a chat.
    pub fn stop_typing(&self, chat_guid: &str) -> (res: BridgeCall)
        ensures
            res.action == BridgeAction::StopTyping,
            object1(res.params@, "chatGuid"@, JsonShape::String(chat_guid@)),
    {
        call_with(BridgeAction::StopTyping, vec![text_entry("chatGuid", chat_guid)])
    }

    /// Sends `text` to a chat, with the temporary guid `temp_guid` when one
    /// is given.
    pub fn send_message(&self, chat_guid: &str, text: &str, temp_guid: Option<&str>) -> (res:
        BridgeCall)
        ensures
            res.action == BridgeAction::SendMessage,
            temp_guid is None ==> object2(
                res.params@,
                "chatGuid"@,
                JsonShape::String(chat_guid@),
                "message"@,
                JsonShape::String(text@),
            ),
            temp_guid matches Some(g) ==> object3(
                res.params@,
                "chatGuid"@,
                JsonShape::String(chat_guid@),
                "message"@,
                JsonShape::String(text@),
                "tempGuid"@,
                JsonShape::String(g@),
            ),
    {
        let mut entries = vec![text_entry("chatGuid", chat_guid), text_entry("message", text)];
        if let Some(g) = temp_guid {
            entries.push(text_entry("tempGuid", g));
        }
        call_with(BridgeAction::SendMessage, entries)
    }

    /// Reacts to a message.
    pub fn send_reaction(&self, chat_guid: &str, message_guid: &str, reaction: &str) -> (res:
        BridgeCall)
        ensures
            res.action == BridgeAction::SendReaction,
            object3(
                res.params@,
                "chatGuid"@,
                JsonShape::String(chat_guid@),
                "selectedMessageGuid"@,
                JsonShape::String(message_guid@),
                "reaction"@,
                JsonShape::String(reaction@),
            ),
    {
        call_with(
            BridgeAction::SendReaction,
            vec![
                text_entry("chatGuid", chat_guid),
                text_entry("selectedMessageGuid", message_guid),
                text_entry("reaction", reaction),
            ],
        )
    }

    /// Replaces the text of a sent message.
    pub fn edit_message(&self, chat_guid: &str, message_guid: &str, new_text: &str) -> (res:
        BridgeCall)
        ensures
            res.action == BridgeAction::EditMessage,
            object3(
                res.params@,
                "chatGuid"@,
                JsonShape::String(chat_guid@),
                "selectedMessageGuid"@,
                JsonShape::String(message_guid@),
                "editedMessage"@,
                JsonShape::String(new_text@),
            ),
    {
        call_with(
            BridgeAction::EditMessage,
            vec![
                text_entry("chatGuid", chat_guid),
                text_entry("selectedMessageGuid", message_guid),
                text_entry("editedMessage", new_text),
            ],
        )
    }

    /// Takes back a sent message.
    pub fn unsend_message(&self, chat_guid: &str, message_guid: &str) -> (res: BridgeCall)
        ensures
            res.action == BridgeAction::UnsendMessage,
            object2(
                res.params@,
                "chatGuid"@,
                JsonShape::String(chat_guid@),
                "selectedMessageGuid"@,
                JsonShape::String(message_guid@),
            ),
    {
        call_with(
            BridgeAction::UnsendMessage,
            vec![text_entry("chatGuid", chat_guid), text_entry("selectedMessageGuid", message_guid)],
        )
    }

    /// Marks a chat read.
    pub fn mark_chat_read(&self, chat_guid: &str) -> (res: BridgeCall)
        ensures
            res.action == BridgeAction::MarkChatRead,
            object1(res.params@, "chatGuid"@, JsonShape::String(chat_guid@)),
    {
        call_with(BridgeAction::MarkChatRead, vec![text_entry("chatGuid", chat_guid)])
    }

    /// Opens a chat with `addresses`.
    pub fn create_chat(&self, addresses: &Vec<String>) -> (res: BridgeCall)
        ensures
            res.action == BridgeAction::CreateChat,
            lists_addresses(res.params@, addresses@.map_values(|a: String| a@)),
    {
        let mut items: Vec<JsonValue> = Vec::new();
        let mut i: usize = 0;
        while i < addresses.len()
            invariant
                i <= addresses.len(),
                items.len() == i,
                forall|j: int| 0 <= j < i ==> #[trigger] items@[j]@ == JsonShape::String(addresses@[j]@),
            decreases addresses.len() - i,
        {
            items.push(text_value(addresses[i].as_str()));
            i = i + 1;
        }
        call_with(BridgeAction::CreateChat, vec![(owned("addresses"), JsonValue::Array(items))])
    }

    /// Sends `call` to the bridge under the protocol's name for its action,
    /// `action_name`, in protocol version `version`, waiting `timeout_ms` for
    /// the answer, with the request id made from the random bytes `random`
    /// (see `InvokeSession::start`).
    pub fn invoke(
        &self,
        call: BridgeCall,
        random: [u8; 16],
        action_name: &str,
        version: JsonValue,
        timeout_ms: u64,
        home: &str,
        layout: &BridgeLayout,
    ) -> (res: (InvokeSession, InvokeAction))
        ensures
            res.0.setup() == crate::private_api::ipc::invoke_setup(
                action_name@,
                timeout_ms,
                crate::private_api::ipc::uuid_v4_text(random@),
                home@,
                layout@,
            ),
            res.0.phase() matches crate::private_api::ipc::InvokePhase::MakingInbox { envelope }
                && crate::private_api::ipc::is_request_envelope(
                envelope@,
                version,
                crate::private_api::ipc::uuid_v4_text(random@),
                action_name@,
                call.params,
            ),
            res.1@ == (crate::private_api::ipc::InvokeActionView::MakeDir {
                path: res.0.setup().inbox,
            }),
    {
        InvokeSession::start(random, action_name, call.params, version, timeout_ms, home, layout)
    }
}

} // verus!
