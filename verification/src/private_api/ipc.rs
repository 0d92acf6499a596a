//! Requests to the bridge: a request is a JSON file dropped in the inbox,
//! and its answer a JSON file of the same name that appears in the outbox.
//!
//! A request alternates decisions with outside work (writing files,
//! watching the clock, reading the answer), so it is a session that, fed
//! the outcome of each piece of work, says what to do next.
use vstd::prelude::*;

use crate::error::{ErrorView, RsImessageError};
use crate::json::{bool_of, lookup, str_of, JsonNumber, JsonShape, JsonValue};
use crate::paths::{join_path, joined};
use crate::private_api::launcher::mkdir_error;
use crate::private_api::paths::{container_text, rpc_inbox, rpc_outbox, BridgeLayout};
use crate::text::{append_str, int_text, i64_text, nat_text, owned, str_eq, u64_text};
use crate::types::opt_string_view;

verus! {

/// An answer of the bridge.
#[derive(Debug, PartialEq, Eq)]
pub struct BridgeResponse {
    pub id: String,
    pub success: bool,
    pub data: JsonValue,
    pub error: Option<String>,
}

/// An answer of the bridge as a value.
pub struct BridgeResponseView {
    pub id: Seq<char>,
    pub success: bool,
    pub data: JsonShape,
    pub error: Option<Seq<char>>,
}

impl View for BridgeResponse {
    type V = BridgeResponseView;

    open spec fn view(&self) -> BridgeResponseView {
        BridgeResponseView {
            id: self.id@,
            success: self.success,
            data: self.data@,
            error: opt_string_view(self.error),
        }
    }
}

/// An answer's id as text: a string as it is, a number as it displays, and
/// anything else as the empty text.
pub open spec fn id_text(v: Option<JsonValue>) -> Seq<char> {
    match v {
        Some(JsonValue::String(s)) => s@,
        Some(JsonValue::Number(JsonNumber::PosInt(n))) => nat_text(n as nat),
        Some(JsonValue::Number(JsonNumber::NegInt(n))) => int_text(n as int),
        Some(JsonValue::Number(JsonNumber::Float(t))) => t@,
        _ => Seq::empty(),
    }
}

/// The members an answer carries beside its data: none of these are data.
pub open spec fn reserved_key(k: Seq<char>) -> bool {
    k == "v"@ || k == "id"@ || k == "success"@ || k == "error"@ || k == "timestamp"@
}

/// The members that are not reserved, in order.
pub open spec fn without_reserved(es: Seq<(String, JsonValue)>) -> Seq<(String, JsonValue)>
    decreases es.len(),
{
    if es.len() == 0 {
        es
    } else if reserved_key(es[0].0@) {
        without_reserved(es.skip(1))
    } else {
        seq![es[0]] + without_reserved(es.skip(1))
    }
}

/// An answer's data: its `data` member when it has one, else its other
/// members as an object (none when it is not an object).
pub open spec fn response_data(raw: JsonValue) -> JsonShape {
    match lookup(raw, "data"@) {
        Some(d) => d@,
        None => JsonShape::Object(
            match raw {
                JsonValue::Object(es) => without_reserved(es@),
                _ => Seq::empty(),
            },
        ),
    }
}

/// What an answer says: its id, whether it succeeded (not unless it says
/// so), its data and its error text.
pub open spec fn parse_response(raw: JsonValue) -> BridgeResponseView {
    BridgeResponseView {
        id: match lookup(raw, "id"@) {
            Some(v) => id_text(Some(v)),
            None => Seq::empty(),
        },
        success: match bool_of(lookup(raw, "success"@)) {
            Some(b) => b,
            None => false,
        },
        data: response_data(raw),
        error: str_of(lookup(raw, "error"@)),
    }
}

/// An answer's id as text.
pub fn stringify_id(v: &JsonValue) -> (res: String)
    ensures
        res@ == id_text(Some(*v)),
{
    match v {
        JsonValue::String(s) => owned(s.as_str()),
        JsonValue::Number(JsonNumber::PosInt(n)) => u64_text(*n),
        JsonValue::Number(JsonNumber::NegInt(n)) => i64_text(*n),
        JsonValue::Number(JsonNumber::Float(t)) => owned(t.as_str()),
        _ => String::new(),
    }
}

/// Whether `k` is a reserved member name.
fn is_reserved(k: &str) -> (res: bool)
    ensures
        res == reserved_key(k@),
{
    str_eq(k, "v") || str_eq(k, "id") || str_eq(k, "success") || str_eq(k, "error") || str_eq(
        k,
        "timestamp",
    )
}

/// Takes an answer's data out of it.
fn take_data(raw: JsonValue) -> (res: JsonValue)
    ensures
        res@ == response_data(raw),
{
    let ghost raw0 = raw;
    match raw {
        JsonValue::Object(mut entries) => {
            let ghost orig = entries@;
            let mut i: usize = 0;
            assert(orig.skip(0) =~= orig);
            while i < entries.len()
                invariant
                    entries@ == orig,
                    raw0 == raw,
                    raw0 == JsonValue::Object(entries),
                    lookup(raw0, "data"@) == crate::json::member(orig.skip(i as int), "data"@),
                    i <= entries.len(),
                decreases entries.len() - i,
            {
                let ghost rest = orig.skip(i as int);
                assert(rest[0] == orig[i as int]);
                if str_eq(entries[i].0.as_str(), "data") {
                    assert(crate::json::member(rest, "data"@) == Some(orig[i as int].1));
                    let (_, d) = entries.remove(i);
                    assert(d == orig[i as int].1);
                    assert(lookup(raw0, "data"@) == Some(d));
                    assert(response_data(raw0) == d@);
                    return d;
                }
                assert(rest.skip(1) =~= orig.skip(i + 1));
                i = i + 1;
            }
            assert(lookup(raw0, "data"@) is None);
            let mut kept: Vec<(String, JsonValue)> = Vec::new();
            while entries.len() > 0
                invariant
                    without_reserved(orig) == kept@ + without_reserved(entries@),
                decreases entries.len(),
            {
                let ghost before = entries@;
                let e = entries.remove(0);
                assert(before.remove(0) =~= before.skip(1));
                if !is_reserved(e.0.as_str()) {
                    let ghost k0 = kept@;
                    kept.push(e);
                    assert(k0.push(before[0]) + without_reserved(before.skip(1)) =~= k0 + (
                    seq![before[0]] + without_reserved(before.skip(1))));
                } else {
                }
            }
            assert(kept@ + without_reserved(entries@) =~= kept@);
            JsonValue::Object(kept)
        },
        _ => {
            let empty: Vec<(String, JsonValue)> = Vec::new();
            assert(empty@ =~= Seq::<(String, JsonValue)>::empty());
            JsonValue::Object(empty)
        },
    }
}

impl BridgeResponse {
    /// Reads an answer of the bridge. Every JSON value reads as some answer.
    pub fn parse(raw: JsonValue) -> (res: Result<BridgeResponse, RsImessageError>)
        ensures
            res matches Ok(r) && r@ == parse_response(raw),
    {
        let id = match raw.get("id") {
            Some(v) => stringify_id(v),
            None => String::new(),
        };
        let success = match raw.get("success") {
            Some(v) => match v.as_bool() {
                Some(b) => b,
                None => false,
            },
            None => false,
        };
        let error = match raw.get("error") {
            Some(v) => match v.as_str() {
                Some(s) => Some(owned(s)),
                None => None,
            },
            None => None,
        };
        let ghost raw0 = raw;
        let data = take_data(raw);
        let r = BridgeResponse { id, success, data, error };
        assert(r@.id == parse_response(raw0).id);
        Ok(r)
    }
}

pub const BRIDGE_ERROR_TEXT: &'static str = "bridge error";

/// What an answer means for the caller: the answer when it succeeded, else
/// a private-API error with its error text ("bridge error" when it gave
/// none).
pub open spec fn answer_outcome(r: BridgeResponseView) -> Result<BridgeResponseView, ErrorView> {
    if r.success {
        Ok(r)
    } else {
        Err(
            ErrorView::PrivateApi(
                match r.error {
                    Some(t) => t,
                    None => BRIDGE_ERROR_TEXT@,
                },
            ),
        )
    }
}

/// The view of a request's outcome.
pub open spec fn invoke_outcome_view(r: Result<BridgeResponse, RsImessageError>) -> Result<
    BridgeResponseView,
    ErrorView,
> {
    match r {
        Ok(v) => Ok(v@),
        Err(e) => Err(e@),
    }
}

/// What an answer means for the caller.
pub fn answer_result(r: BridgeResponse) -> (res: Result<BridgeResponse, RsImessageError>)
    ensures
        invoke_outcome_view(res) == answer_outcome(r@),
{
    if r.success {
        Ok(r)
    } else {
        let msg = match r.error {
            Some(t) => t,
            None => owned(BRIDGE_ERROR_TEXT),
        };
        Err(RsImessageError::PrivateApi(msg))
    }
}

/// Whether `env` is the request envelope for protocol version `version`,
/// request `id`, action `action` and parameters `params`: an object with
/// the members `v`, `id`, `action` and `params`, in that order.
pub open spec fn is_request_envelope(
    env: JsonShape,
    version: JsonValue,
    id: Seq<char>,
    action: Seq<char>,
    params: JsonValue,
) -> bool {
    &&& env matches JsonShape::Object(es)
    &&& es.len() == 4
    &&& es[0].0@ == "v"@ && es[0].1 == version
    &&& crate::json::entry_is(es[1], "id"@, JsonShape::String(id))
    &&& crate::json::entry_is(es[2], "action"@, JsonShape::String(action))
    &&& es[3].0@ == "params"@ && es[3].1 == params
}

/// The envelope of a request.
pub fn request_envelope(version: JsonValue, id: &str, action: &str, params: JsonValue) -> (res:
    JsonValue)
    ensures
        is_request_envelope(res@, version, id@, action@, params),
{
    let mut es: Vec<(String, JsonValue)> = Vec::new();
    es.push((owned("v"), version));
    es.push((owned("id"), JsonValue::String(owned(id))));
    es.push((owned("action"), JsonValue::String(owned(action))));
    es.push((owned("params"), params));
    JsonValue::Object(es)
}

/// A lowercase hexadecimal digit.
pub open spec fn hex_digit(n: int) -> char {
    if n < 10 {
        (('0' as int) + n) as char
    } else {
        (('a' as int) + n - 10) as char
    }
}

/// Byte `k` of the version 4 UUID made from `random`: the random byte, with
/// the version (4) in the high half of byte 6 and the RFC 4122 variant in the
/// top two bits of byte 8.
pub open spec fn uuid_v4_byte(random: Seq<u8>, k: int) -> u8 {
    if k == 6 {
        (random[6] & 0x0fu8) | 0x40u8
    } else if k == 8 {
        (random[8] & 0x3fu8) | 0x80u8
    } else {
        random[k]
    }
}

/// Whether position `i` of a hyphenated UUID holds a hyphen.
pub open spec fn uuid_hyphen_at(i: int) -> bool {
    i == 8 || i == 13 || i == 18 || i == 23
}

/// Which hexadecimal digit of the UUID (0 to 31) position `i` holds.
pub open spec fn uuid_digit_index(i: int) -> int {
    i - (if i > 8 { 1int } else { 0int }) - (if i > 13 { 1int } else { 0int }) - (if i > 18 {
        1int
    } else {
        0int
    }) - (if i > 23 { 1int } else { 0int })
}

/// The version 4 UUID made from the random bytes `random`, as `Uuid`'s
/// `Display` writes it: the 16 bytes in order as lowercase hexadecimal
/// digits, high half first, with hyphens at positions 8, 13, 18 and 23.
pub open spec fn uuid_v4_text(random: Seq<u8>) -> Seq<char> {
    Seq::new(
        36,
        |i: int|
            if uuid_hyphen_at(i) {
                '-'
            } else {
                let j = uuid_digit_index(i);
                let b = uuid_v4_byte(random, j / 2);
                if j % 2 == 0 {
                    hex_digit((b / 16) as int)
                } else {
                    hex_digit((b % 16) as int)
                }
            },
    )
}

/// `uuid::Builder::from_random_bytes(random).into_uuid().to_string()`: the
/// version 4 UUID made from 16 random bytes, as text. Claimed, from the
/// crate's source (`Builder::with_version`, `Builder::with_variant` and the
/// lowercase hyphenated formatter): the text is `uuid_v4_text(random)`.
/// The call does no I/O and cannot fail.
#[verifier::external_body]
fn uuid_v4(random: [u8; 16]) -> (res: String)
    ensures
        res@ == uuid_v4_text(random@),
{
    uuid::Builder::from_random_bytes(random).into_uuid().to_string()
}

/// How long to wait between looks at the outbox, in milliseconds.
pub const RESPONSE_POLL_MS: u64 = 50;

pub const RESPONSE_TIMEOUT_TEXT: &'static str = "timeout waiting for bridge response to '";

/// What a look at the outbox found.
#[derive(Debug, PartialEq, Eq)]
pub enum PollOutcome {
    /// The time allowed has passed.
    TimedOut,
    /// The answer file could not be read.
    Missing,
    /// The answer file holds these bytes.
    Read(Vec<u8>),
}

pub enum PollOutcomeView {
    TimedOut,
    Missing,
    Read(Seq<u8>),
}

impl View for PollOutcome {
    type V = PollOutcomeView;

    open spec fn view(&self) -> PollOutcomeView {
        match self {
            PollOutcome::TimedOut => PollOutcomeView::TimedOut,
            PollOutcome::Missing => PollOutcomeView::Missing,
            PollOutcome::Read(b) => PollOutcomeView::Read(b@),
        }
    }
}

/// What to do next.
#[derive(Debug, PartialEq, Eq)]
pub enum InvokeAction {
    /// Create the directory `path` and its parents.
    MakeDir { path: String },
    /// Write `envelope` as JSON to `tmp`, then rename `tmp` to `path`.
    WriteRequest { tmp: String, path: String, envelope: JsonValue },
    /// Start the clock: the answer is awaited for `timeout_ms`.
    StartClock { timeout_ms: u64 },
    /// Unless the time has passed, read the file `path`.
    Poll { path: String },
    /// Wait this many milliseconds.
    Pause { ms: u64 },
    /// Remove the file `path`, whatever comes of it, and decode `bytes` as
    /// JSON.
    Decode { path: String, bytes: Vec<u8> },
    /// Remove the request file `path`, whatever comes of it.
    Withdraw { path: String },
    /// The request is over, with this outcome.
    Finished(Result<BridgeResponse, RsImessageError>),
}

pub enum InvokeActionView {
    MakeDir { path: Seq<char> },
    WriteRequest { tmp: Seq<char>, path: Seq<char>, envelope: JsonValue },
    StartClock { timeout_ms: u64 },
    Poll { path: Seq<char> },
    Pause { ms: u64 },
    Decode { path: Seq<char>, bytes: Seq<u8> },
    Withdraw { path: Seq<char> },
    Finished(Result<BridgeResponseView, ErrorView>),
}

impl View for InvokeAction {
    type V = InvokeActionView;

    open spec fn view(&self) -> InvokeActionView {
        match self {
            InvokeAction::MakeDir { path } => InvokeActionView::MakeDir { path: path@ },
            InvokeAction::WriteRequest { tmp, path, envelope } => InvokeActionView::WriteRequest {
                tmp: tmp@,
                path: path@,
                envelope: *envelope,
            },
            InvokeAction::StartClock { timeout_ms } => InvokeActionView::StartClock {
                timeout_ms: *timeout_ms,
            },
            InvokeAction::Poll { path } => InvokeActionView::Poll { path: path@ },
            InvokeAction::Pause { ms } => InvokeActionView::Pause { ms: *ms },
            InvokeAction::Decode { path, bytes } => InvokeActionView::Decode {
                path: path@,
                bytes: bytes@,
            },
            InvokeAction::Withdraw { path } => InvokeActionView::Withdraw { path: path@ },
            InvokeAction::Finished(r) => InvokeActionView::Finished(invoke_outcome_view(*r)),
        }
    }
}

/// How a piece of work turned out.
#[derive(Debug, PartialEq, Eq)]
pub enum InvokeEvent {
    /// The directory was made, or the text of the failure.
    DirMade(Result<(), String>),
    /// The request was written, or why not.
    Written(Result<(), RsImessageError>),
    /// A step that cannot fail is done.
    Completed,
    /// What a look at the outbox found.
    Polled(PollOutcome),
    /// The answer decoded as this JSON value, or the text of the failure.
    Decoded(Result<JsonValue, String>),
}

pub enum InvokeEventView {
    DirMade(Result<(), Seq<char>>),
    Written(Result<(), ErrorView>),
    Completed,
    Polled(PollOutcomeView),
    Decoded(Result<JsonValue, Seq<char>>),
}

impl View for InvokeEvent {
    type V = InvokeEventView;

    open spec fn view(&self) -> InvokeEventView {
        match self {
            InvokeEvent::DirMade(r) => InvokeEventView::DirMade(
                crate::private_api::launcher::unit_text_view(*r),
            ),
            InvokeEvent::Written(r) => InvokeEventView::Written(
                crate::private_api::sip::unit_outcome_view(*r),
            ),
            InvokeEvent::Completed => InvokeEventView::Completed,
            InvokeEvent::Polled(o) => InvokeEventView::Polled(o@),
            InvokeEvent::Decoded(Ok(v)) => InvokeEventView::Decoded(Ok(*v)),
            InvokeEvent::Decoded(Err(t)) => InvokeEventView::Decoded(Err(t@)),
        }
    }
}

/// Where a request stands. Until it is written, the request carries its
/// envelope.
#[derive(Debug, PartialEq, Eq)]
pub enum InvokePhase {
    MakingInbox { envelope: JsonValue },
    MakingOutbox { envelope: JsonValue },
    Writing,
    StartingClock,
    Polling,
    Pausing,
    Decoding,
    Withdrawing,
    Done,
}

/// What a request works with: its action, the time it waits, and its
/// directories and files.
pub struct InvokeSetup {
    pub action: Seq<char>,
    pub timeout_ms: u64,
    pub inbox: Seq<char>,
    pub outbox: Seq<char>,
    pub tmp: Seq<char>,
    pub request: Seq<char>,
    pub response: Seq<char>,
}

/// The setup of request `id` for `action` under the home directory `home`:
/// it is written as `<inbox>/<id>.tmp`, renamed to `<inbox>/<id>.json`,
/// and answered in `<outbox>/<id>.json`.
pub open spec fn invoke_setup(
    action: Seq<char>,
    timeout_ms: u64,
    id: Seq<char>,
    home: Seq<char>,
    layout: crate::private_api::launcher::BridgeLayoutView,
) -> InvokeSetup {
    let data = container_text(home);
    let inbox = joined(joined(data, layout.rpc_dir), layout.inbox);
    let outbox = joined(joined(data, layout.rpc_dir), layout.outbox);
    InvokeSetup {
        action,
        timeout_ms,
        inbox,
        outbox,
        tmp: joined(inbox, id + ".tmp"@),
        request: joined(inbox, id + ".json"@),
        response: joined(outbox, id + ".json"@),
    }
}

/// Whether `e` is the outcome of the work that phase `p` waits for.
pub open spec fn invoke_answers(p: InvokePhase, e: InvokeEventView) -> bool {
    match p {
        InvokePhase::MakingInbox { .. } | InvokePhase::MakingOutbox { .. } => e is DirMade,
        InvokePhase::Writing => e is Written,
        InvokePhase::StartingClock | InvokePhase::Pausing | InvokePhase::Withdrawing => e is Completed,
        InvokePhase::Polling => e is Polled,
        InvokePhase::Decoding => e is Decoded,
        InvokePhase::Done => false,
    }
}

/// The end of a request, with this outcome.
pub open spec fn invoke_end(r: Result<BridgeResponseView, ErrorView>) -> (
    InvokePhase,
    InvokeActionView,
) {
    (InvokePhase::Done, InvokeActionView::Finished(r))
}

/// The next phase and action of request `c` in phase `p`, once the awaited
/// work turned out as `e`.
pub open spec fn invoke_next(c: InvokeSetup, p: InvokePhase, e: InvokeEventView) -> (
    InvokePhase,
    InvokeActionView,
) {
    match p {
        InvokePhase::MakingInbox { envelope } => match e {
            InvokeEventView::DirMade(Ok(())) => (
                InvokePhase::MakingOutbox { envelope },
                InvokeActionView::MakeDir { path: c.outbox },
            ),
            InvokeEventView::DirMade(Err(t)) => invoke_end(Err(mkdir_error(c.inbox, t))),
            _ => invoke_end(Err(ErrorView::Other(Seq::empty()))),
        },
        InvokePhase::MakingOutbox { envelope } => match e {
            InvokeEventView::DirMade(Ok(())) => (
                InvokePhase::Writing,
                InvokeActionView::WriteRequest { tmp: c.tmp, path: c.request, envelope },
            ),
            InvokeEventView::DirMade(Err(t)) => invoke_end(Err(mkdir_error(c.outbox, t))),
            _ => invoke_end(Err(ErrorView::Other(Seq::empty()))),
        },
        InvokePhase::Writing => match e {
            InvokeEventView::Written(Ok(())) => (
                InvokePhase::StartingClock,
                InvokeActionView::StartClock { timeout_ms: c.timeout_ms },
            ),
            InvokeEventView::Written(Err(err)) => invoke_end(Err(err)),
            _ => invoke_end(Err(ErrorView::Other(Seq::empty()))),
        },
        InvokePhase::StartingClock | InvokePhase::Pausing => (
            InvokePhase::Polling,
            InvokeActionView::Poll { path: c.response },
        ),
        InvokePhase::Polling => match e {
            InvokeEventView::Polled(PollOutcomeView::TimedOut) => (
                InvokePhase::Withdrawing,
                InvokeActionView::Withdraw { path: c.request },
            ),
            InvokeEventView::Polled(PollOutcomeView::Read(b)) => if b.len() > 1 {
                (InvokePhase::Decoding, InvokeActionView::Decode { path: c.response, bytes: b })
            } else {
                (InvokePhase::Pausing, InvokeActionView::Pause { ms: RESPONSE_POLL_MS })
            },
            _ => (InvokePhase::Pausing, InvokeActionView::Pause { ms: RESPONSE_POLL_MS }),
        },
        InvokePhase::Decoding => match e {
            InvokeEventView::Decoded(Ok(v)) => invoke_end(answer_outcome(parse_response(v))),
            InvokeEventView::Decoded(Err(t)) => invoke_end(Err(ErrorView::Json(t))),
            _ => invoke_end(Err(ErrorView::Other(Seq::empty()))),
        },
        InvokePhase::Withdrawing => invoke_end(
            Err(ErrorView::PrivateApi(RESPONSE_TIMEOUT_TEXT@ + c.action + "'"@)),
        ),
        InvokePhase::Done => invoke_end(Err(ErrorView::Other(Seq::empty()))),
    }
}

/// A request under way.
pub struct InvokeSession {
    action: String,
    timeout_ms: u64,
    inbox: String,
    outbox: String,
    tmp: String,
    request: String,
    response: String,
    phase: InvokePhase,
}

/// `<dir>/<id><ext>`.
fn queue_file(dir: &str, id: &str, ext: &str) -> (res: String)
    ensures
        res@ == joined(dir@, id@ + ext@),
{
    let mut name = owned(id);
    append_str(&mut name, ext);
    join_path(dir, name.as_str())
}

impl InvokeSession {
    /// The action, clock and files of this request.
    pub closed spec fn setup(&self) -> InvokeSetup {
        InvokeSetup {
            action: self.action@,
            timeout_ms: self.timeout_ms,
            inbox: self.inbox@,
            outbox: self.outbox@,
            tmp: self.tmp@,
            request: self.request@,
            response: self.response@,
        }
    }

    /// Where this request stands.
    pub closed spec fn phase(&self) -> InvokePhase {
        self.phase
    }

    /// Starts request `id` for `action` with `params`, in protocol version
    /// `version`, waiting `timeout_ms` for the answer.
    pub fn start_with_id(
        id: &str,
        action: &str,
        params: JsonValue,
        version: JsonValue,
        timeout_ms: u64,
        home: &str,
        layout: &BridgeLayout,
    ) -> (res: (InvokeSession, InvokeAction))
        ensures
            res.0.setup() == invoke_setup(action@, timeout_ms, id@, home@, layout@),
            res.0.phase() matches InvokePhase::MakingInbox { envelope } && is_request_envelope(
                envelope@,
                version,
                id@,
                action@,
                params,
            ),
            res.1@ == (InvokeActionView::MakeDir { path: res.0.setup().inbox }),
    {
        let envelope = request_envelope(version, id, action, params);
        let inbox = rpc_inbox(home, layout);
        let outbox = rpc_outbox(home, layout);
        let tmp = queue_file(inbox.as_str(), id, ".tmp");
        let request = queue_file(inbox.as_str(), id, ".json");
        let response = queue_file(outbox.as_str(), id, ".json");
        let first = InvokeAction::MakeDir { path: owned(inbox.as_str()) };
        (
            InvokeSession {
                action: owned(action),
                timeout_ms,
                inbox,
                outbox,
                tmp,
                request,
                response,
                phase: InvokePhase::MakingInbox { envelope },
            },
            first,
        )
    }

    /// Starts a request for `action` with `params`, under the version 4 UUID
    /// made from the 16 random bytes `random` (see `uuid_v4_text`).
    pub fn start(
        random: [u8; 16],
        action: &str,
        params: JsonValue,
        version: JsonValue,
        timeout_ms: u64,
        home: &str,
        layout: &BridgeLayout,
    ) -> (res: (InvokeSession, InvokeAction))
        ensures
            res.0.setup() == invoke_setup(
                action@,
                timeout_ms,
                uuid_v4_text(random@),
                home@,
                layout@,
            ),
            res.0.phase() matches InvokePhase::MakingInbox { envelope } && is_request_envelope(
                envelope@,
                version,
                uuid_v4_text(random@),
                action@,
                params,
            ),
            res.1@ == (InvokeActionView::MakeDir { path: res.0.setup().inbox }),
    {
        let id = uuid_v4(random);
        InvokeSession::start_with_id(id.as_str(), action, params, version, timeout_ms, home, layout)
    }

    /// Whether `event` is the outcome this request waits for.
    pub fn awaits(&self, event: &InvokeEvent) -> (res: bool)
        ensures
            res == invoke_answers(self.phase(), event@),
    {
        match self.phase {
            InvokePhase::MakingInbox { .. } | InvokePhase::MakingOutbox { .. } => matches!(
                event,
                InvokeEvent::DirMade(_)
            ),
            InvokePhase::Writing => matches!(event, InvokeEvent::Written(_)),
            InvokePhase::StartingClock | InvokePhase::Pausing | InvokePhase::Withdrawing => matches!(
                event,
                InvokeEvent::Completed
            ),
            InvokePhase::Polling => matches!(event, InvokeEvent::Polled(_)),
            InvokePhase::Decoding => matches!(event, InvokeEvent::Decoded(_)),
            InvokePhase::Done => false,
        }
    }

    /// Whether the request is over.
    pub fn is_done(&self) -> (res: bool)
        ensures
            res == (self.phase() == InvokePhase::Done),
    {
        matches!(self.phase, InvokePhase::Done)
    }

    /// Feeds the outcome of the awaited work to the request and says what
    /// to do next.
    pub fn resume(&mut self, event: InvokeEvent) -> (action: InvokeAction)
        requires
            invoke_answers(old(self).phase(), event@),
        ensures
            final(self).setup() == old(self).setup(),
            (final(self).phase(), action@) == invoke_next(
                old(self).setup(),
                old(self).phase(),
                event@,
            ),
    {
        let mut phase = InvokePhase::Done;
        std::mem::swap(&mut phase, &mut self.phase);
        let (next, action) = match phase {
            InvokePhase::MakingInbox { envelope } => match event {
                InvokeEvent::DirMade(Ok(())) => (
                    InvokePhase::MakingOutbox { envelope },
                    InvokeAction::MakeDir { path: owned(self.outbox.as_str()) },
                ),
                InvokeEvent::DirMade(Err(t)) => (
                    InvokePhase::Done,
                    InvokeAction::Finished(Err(crate::private_api::launcher::mkdir_failure(
                        self.inbox.as_str(),
                        t.as_str(),
                    ))),
                ),
                _ => (InvokePhase::Done, InvokeAction::Finished(Err(RsImessageError::Other(String::new())))),
            },
            InvokePhase::MakingOutbox { envelope } => match event {
                InvokeEvent::DirMade(Ok(())) => (
                    InvokePhase::Writing,
                    InvokeAction::WriteRequest {
                        tmp: owned(self.tmp.as_str()),
                        path: owned(self.request.as_str()),
                        envelope,
                    },
                ),
                InvokeEvent::DirMade(Err(t)) => (
                    InvokePhase::Done,
                    InvokeAction::Finished(Err(crate::private_api::launcher::mkdir_failure(
                        self.outbox.as_str(),
                        t.as_str(),
                    ))),
                ),
                _ => (InvokePhase::Done, InvokeAction::Finished(Err(RsImessageError::Other(String::new())))),
            },
            InvokePhase::Writing => match event {
                InvokeEvent::Written(Ok(())) => (
                    InvokePhase::StartingClock,
                    InvokeAction::StartClock { timeout_ms: self.timeout_ms },
                ),
                InvokeEvent::Written(Err(e)) => (InvokePhase::Done, InvokeAction::Finished(Err(e))),
                _ => (InvokePhase::Done, InvokeAction::Finished(Err(RsImessageError::Other(String::new())))),
            },
            InvokePhase::StartingClock | InvokePhase::Pausing => (
                InvokePhase::Polling,
                InvokeAction::Poll { path: owned(self.response.as_str()) },
            ),
            InvokePhase::Polling => match event {
                InvokeEvent::Polled(PollOutcome::TimedOut) => (
                    InvokePhase::Withdrawing,
                    InvokeAction::Withdraw { path: owned(self.request.as_str()) },
                ),
                InvokeEvent::Polled(PollOutcome::Read(b)) => if b.len() > 1 {
                    (
                        InvokePhase::Decoding,
                        InvokeAction::Decode { path: owned(self.response.as_str()), bytes: b },
                    )
                } else {
                    (InvokePhase::Pausing, InvokeAction::Pause { ms: RESPONSE_POLL_MS })
                },
                _ => (InvokePhase::Pausing, InvokeAction::Pause { ms: RESPONSE_POLL_MS }),
            },
            InvokePhase::Decoding => match event {
                InvokeEvent::Decoded(Ok(v)) => {
                    let ghost v0 = v;
                    let parsed = BridgeResponse::parse(v);
                    match parsed {
                        Ok(r) => (InvokePhase::Done, InvokeAction::Finished(answer_result(r))),
                        Err(e) => (InvokePhase::Done, InvokeAction::Finished(Err(e))),
                    }
                },
                InvokeEvent::Decoded(Err(t)) => (
                    InvokePhase::Done,
                    InvokeAction::Finished(Err(RsImessageError::Json(t))),
                ),
                _ => (InvokePhase::Done, InvokeAction::Finished(Err(RsImessageError::Other(String::new())))),
            },
            InvokePhase::Withdrawing => {
                let mut msg = owned(RESPONSE_TIMEOUT_TEXT);
                append_str(&mut msg, self.action.as_str());
                append_str(&mut msg, "'");
                (InvokePhase::Done, InvokeAction::Finished(Err(RsImessageError::PrivateApi(msg))))
            },
            InvokePhase::Done => (InvokePhase::Done, InvokeAction::Finished(Err(RsImessageError::Other(String::new())))),
        };
        self.phase = next;
        action
    }
}

} // verus!
