//! The AppleScript that asks Messages.app to send a text or a file.
use vstd::prelude::*;

use crate::error::RsImessageError;
use crate::text::{
    append_str, contains_char, contains_str, has_substring, push_char, replace_all,
    replace_str, str_eq,
};
use crate::types::SendService;

verus! {

pub const SCRIPT_OPEN: &'static str = "\n        tell application \"Messages\"\n            ";

pub const SCRIPT_BETWEEN: &'static str = "\n            ";

pub const SCRIPT_CLOSE: &'static str = "\n        end tell\n        ";

pub const TEXT_BODY_OPEN: &'static str = "send \"";

pub const TEXT_BODY_CLOSE: &'static str = "\" to targetChat";

pub const FILE_BODY_0: &'static str = "\n            set theFile to POSIX file \"";

pub const FILE_BODY_1: &'static str = "\"\n            if \"";

pub const FILE_BODY_2: &'static str = "\" is not \"\" then\n                send \"";

pub const FILE_BODY_3: &'static str = "\" to targetChat\n                delay 0.3\n            end if\n            send theFile to targetChat\n            ";

pub const CHAT_SETUP_OPEN: &'static str = "\n            set targetChat to missing value\n            set targetHandle to \"";

pub const CHAT_SETUP_CLOSE: &'static str = "\"\n            repeat with c in chats\n                if id of c is targetHandle then\n                    set targetChat to c\n                    exit repeat\n                end if\n            end repeat\n            if targetChat is missing value then\n                error \"chat not found\"\n            end if\n            ";

pub const BUDDY_SETUP_OPEN: &'static str = "\n            set svc to 1st service whose service type is ";

pub const BUDDY_SETUP_MIDDLE: &'static str = "\n            set targetBuddy to buddy \"";

pub const BUDDY_SETUP_CLOSE: &'static str = "\" of svc\n            ";

pub const TARGET_CHAT: &'static str = "targetChat";

pub const TARGET_BUDDY: &'static str = "targetBuddy";

/// How one character is written inside an AppleScript string literal:
/// backslashes and double quotes are preceded by a backslash.
pub open spec fn escape_char(c: char) -> Seq<char> {
    if c == '\\' {
        seq!['\\', '\\']
    } else if c == '"' {
        seq!['\\', '"']
    } else {
        seq![c]
    }
}

/// `s` as the body of an AppleScript string literal.
pub open spec fn escaped(s: Seq<char>) -> Seq<char>
    decreases s.len(),
{
    if s.len() == 0 {
        seq![]
    } else {
        escaped(s.drop_last()) + escape_char(s.last())
    }
}

/// Escaping distributes over concatenation.
pub proof fn lemma_escaped_concat(a: Seq<char>, b: Seq<char>)
    ensures
        escaped(a + b) == escaped(a) + escaped(b),
    decreases b.len(),
{
    if b.len() == 0 {
        assert(a + b =~= a);
    } else {
        lemma_escaped_concat(a, b.drop_last());
        assert((a + b).drop_last() =~= a + b.drop_last());
        assert((a + b).last() == b.last());
    }
}

/// Escaping, read from the front.
pub proof fn lemma_escaped_front(s: Seq<char>)
    requires
        s.len() > 0,
    ensures
        escaped(s) == escape_char(s[0]) + escaped(s.skip(1)),
{
    lemma_escaped_concat(seq![s[0]], s.skip(1));
    assert(seq![s[0]] + s.skip(1) =~= s);
    assert(seq![s[0]].drop_last() =~= Seq::<char>::empty());
    assert(escaped(Seq::<char>::empty()) =~= Seq::<char>::empty());
    assert(escaped(seq![s[0]]) =~= escape_char(s[0]));
}

/// The text an AppleScript escape sequence `\c` stands for.
pub open spec fn unescape_pair(c: char) -> Seq<char> {
    if c == '\\' || c == '"' {
        seq![c]
    } else if c == 'n' {
        seq!['\n']
    } else if c == 'r' {
        seq!['\r']
    } else if c == 't' {
        seq!['\t']
    } else {
        seq!['\\', c]
    }
}

/// Reads the rest of an AppleScript string literal whose opening quote has
/// already been read: the text the literal denotes and the position of its
/// closing quote, or `None` when the literal never closes.
pub open spec fn read_literal(t: Seq<char>) -> Option<(Seq<char>, int)>
    decreases t.len(),
{
    if t.len() == 0 {
        None
    } else if t[0] == '"' {
        Some((seq![], 0))
    } else if t[0] == '\\' {
        if t.len() < 2 {
            None
        } else {
            match read_literal(t.skip(2)) {
                Some((s, k)) => Some((unescape_pair(t[1]) + s, k + 2)),
                None => None,
            }
        }
    } else {
        match read_literal(t.skip(1)) {
            Some((s, k)) => Some((seq![t[0]] + s, k + 1)),
            None => None,
        }
    }
}

/// Escaping cannot be broken out of: an escaped text between quotes reads
/// back as exactly that text, and the literal closes right after it, whatever
/// follows.
pub proof fn lemma_escaped_reads_back(s: Seq<char>, rest: Seq<char>)
    ensures
        read_literal(escaped(s) + seq!['"'] + rest) == Some((s, escaped(s).len() as int)),
    decreases s.len(),
{
    let t = escaped(s) + seq!['"'] + rest;
    if s.len() == 0 {
        assert(t[0] == '"');
    } else {
        lemma_escaped_front(s);
        lemma_escaped_reads_back(s.skip(1), rest);
        let c = s[0];
        let tail = escaped(s.skip(1)) + seq!['"'] + rest;
        if c == '\\' || c == '"' {
            assert(t =~= seq!['\\', c] + tail);
            assert(t.skip(2) =~= tail);
            assert(seq![c] + s.skip(1) =~= s);
        } else {
            assert(t =~= seq![c] + tail);
            assert(t.skip(1) =~= tail);
            assert(seq![c] + s.skip(1) =~= s);
        }
    }
}

/// Escapes `value` for use inside an AppleScript string literal.
pub fn escape_applescript_string(value: &str) -> (res: String)
    ensures
        res@ == escaped(value@),
{
    let mut res = String::new();
    for c in it: value.chars()
        invariant
            it.seq() == value@,
            res@ == escaped(value@.take(it.index())),
    {
        let ghost prefix = value@.take(it.index() + 1);
        assert(prefix.drop_last() =~= value@.take(it.index()));
        assert(prefix.last() == c);
        if c == '\\' {
            push_char(&mut res, '\\');
            push_char(&mut res, '\\');
        } else if c == '"' {
            push_char(&mut res, '\\');
            push_char(&mut res, '"');
        } else {
            push_char(&mut res, c);
        }
        assert(res@ =~= escaped(value@.take(it.index() + 1)));
    }
    assert(value@.take(value@.len() as int) =~= value@);
    res
}

/// The label a service is given in a send: `auto`, `iMessage` or `SMS`.
pub open spec fn service_label_text(service: SendService) -> Seq<char> {
    match service {
        SendService::Auto => "auto"@,
        SendService::Imessage => "iMessage"@,
        SendService::Sms => "SMS"@,
    }
}

/// The label of a service.
pub fn service_label(service: SendService) -> (res: &'static str)
    ensures
        res@ == service_label_text(service),
{
    match service {
        SendService::Auto => "auto",
        SendService::Imessage => "iMessage",
        SendService::Sms => "SMS",
    }
}

/// A target that names a group chat (its guid holds `chat` and a `;`) is
/// addressed as a chat; anything else as a buddy of a service.
pub open spec fn is_chat_target(target: Seq<char>) -> bool {
    has_substring(target, "chat"@) && target.contains(';')
}

/// The script variable the message is sent to.
pub open spec fn send_target_name(target: Seq<char>) -> Seq<char> {
    if is_chat_target(target) {
        TARGET_CHAT@
    } else {
        TARGET_BUDDY@
    }
}

/// The service type a buddy is looked up under: SMS for the `SMS` label,
/// iMessage for any other.
pub open spec fn service_type_text(service: Seq<char>) -> Seq<char> {
    if service == "SMS"@ {
        "SMS"@
    } else {
        "iMessage"@
    }
}

/// The part of the script that finds the recipient.
pub open spec fn setup_text(target: Seq<char>, service: Seq<char>) -> Seq<char> {
    if is_chat_target(target) {
        CHAT_SETUP_OPEN@ + escaped(target) + CHAT_SETUP_CLOSE@
    } else {
        BUDDY_SETUP_OPEN@ + service_type_text(service) + BUDDY_SETUP_MIDDLE@ + escaped(target)
            + BUDDY_SETUP_CLOSE@
    }
}

/// The part of the script that sends, before the recipient variable is
/// filled in: the text alone, or the file preceded by the text when that is
/// not empty.
pub open spec fn raw_body_text(text_esc: Seq<char>, file: Option<Seq<char>>) -> Seq<char> {
    match file {
        Some(path) => FILE_BODY_0@ + escaped(path) + FILE_BODY_1@ + text_esc + FILE_BODY_2@
            + text_esc + FILE_BODY_3@,
        None => TEXT_BODY_OPEN@ + text_esc + TEXT_BODY_CLOSE@,
    }
}

/// The sending part of the script: every `targetChat` in it, the escaped
/// texts included, becomes the recipient variable.
pub open spec fn body_text(target: Seq<char>, text: Seq<char>, file: Option<Seq<char>>) -> Seq<char> {
    replace_all(raw_body_text(escaped(text), file), TARGET_CHAT@, send_target_name(target))
}

/// The whole script.
pub open spec fn send_script_text(
    target: Seq<char>,
    text: Seq<char>,
    service: Seq<char>,
    file: Option<Seq<char>>,
) -> Seq<char> {
    SCRIPT_OPEN@ + setup_text(target, service) + SCRIPT_BETWEEN@ + body_text(target, text, file)
        + SCRIPT_CLOSE@
}

/// The view of an optional string slice.
pub open spec fn opt_str_view(o: Option<&str>) -> Option<Seq<char>> {
    match o {
        Some(s) => Some(s@),
        None => None,
    }
}

/// Builds the script that sends `text` (and the file at `file`, if any) to
/// `target` through the service labelled `service`.
pub fn build_send_script(target: &str, text: &str, service: &str, file: Option<&str>) -> (res:
    Result<String, RsImessageError>)
    ensures
        res matches Ok(s) && s@ == send_script_text(target@, text@, service@, opt_str_view(file)),
{
    let target_esc = escape_applescript_string(target);
    let text_esc = escape_applescript_string(text);

    let mut body = String::new();
    match file {
        Some(path) => {
            let path_esc = escape_applescript_string(path);
            append_str(&mut body, FILE_BODY_0);
            append_str(&mut body, path_esc.as_str());
            append_str(&mut body, FILE_BODY_1);
            append_str(&mut body, text_esc.as_str());
            append_str(&mut body, FILE_BODY_2);
            append_str(&mut body, text_esc.as_str());
            append_str(&mut body, FILE_BODY_3);
        },
        None => {
            append_str(&mut body, TEXT_BODY_OPEN);
            append_str(&mut body, text_esc.as_str());
            append_str(&mut body, TEXT_BODY_CLOSE);
        },
    }
    assert(body@ =~= raw_body_text(escaped(text@), opt_str_view(file)));

    let service_type = if str_eq(service, "SMS") {
        "SMS"
    } else {
        "iMessage"
    };

    let chat_target = contains_str(target, "chat") && contains_char(target, ';');
    let send_target = if chat_target {
        TARGET_CHAT
    } else {
        TARGET_BUDDY
    };

    let mut setup = String::new();
    if chat_target {
        append_str(&mut setup, CHAT_SETUP_OPEN);
        append_str(&mut setup, target_esc.as_str());
        append_str(&mut setup, CHAT_SETUP_CLOSE);
    } else {
        append_str(&mut setup, BUDDY_SETUP_OPEN);
        append_str(&mut setup, service_type);
        append_str(&mut setup, BUDDY_SETUP_MIDDLE);
        append_str(&mut setup, target_esc.as_str());
        append_str(&mut setup, BUDDY_SETUP_CLOSE);
    }
    assert(setup@ =~= setup_text(target@, service@));

    proof {
        reveal_strlit("targetChat");
    }
    let body = replace_str(body.as_str(), TARGET_CHAT, send_target);

    let mut script = String::new();
    append_str(&mut script, SCRIPT_OPEN);
    append_str(&mut script, setup.as_str());
    append_str(&mut script, SCRIPT_BETWEEN);
    append_str(&mut script, body.as_str());
    append_str(&mut script, SCRIPT_CLOSE);
    assert(script@ =~= send_script_text(target@, text@, service@, opt_str_view(file)));
    Ok(script)
}

} // verus!
