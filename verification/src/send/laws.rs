//! What holds of every send.
use vstd::prelude::*;

use crate::error::ErrorView;
use crate::send::apple::{
    answers, direct_target, send_next, send_start, with_target, SendActionView, SendEventView,
    SendPhaseView,
    NO_TARGET_TEXT,
};
use crate::send::script::{
    escaped, is_chat_target, lemma_escaped_reads_back, read_literal, send_script_text,
    setup_text, BUDDY_SETUP_CLOSE, BUDDY_SETUP_MIDDLE, BUDDY_SETUP_OPEN, CHAT_SETUP_CLOSE,
    CHAT_SETUP_OPEN, SCRIPT_BETWEEN, SCRIPT_CLOSE, SCRIPT_OPEN, TARGET_CHAT,
    TEXT_BODY_CLOSE, TEXT_BODY_OPEN, body_text, raw_body_text, send_target_name,
    service_type_text,
};
use crate::text::{has_substring, lemma_replace_self, occurs_at, replace_all};
use crate::send::script::{service_label_text, FILE_BODY_0, FILE_BODY_1, FILE_BODY_2, FILE_BODY_3};
use crate::types::{SendRequestView, SendService};

verus! {

/// The recipient of a send is `to` when given, else the chat guid, else the
/// chat identifier; only a request that names none of these but a chat row
/// id looks the chat up in the database; a request that names no recipient
/// at all fails at once.
pub proof fn law_recipient_priority(r: SendRequestView, db: Seq<char>)
    ensures
        r.to matches Some(t) ==> send_start(r, db) == with_target(r, t),
        (r.to is None && r.chat_guid is Some) ==> send_start(r, db) == with_target(
            r,
            r.chat_guid->0,
        ),
        (r.to is None && r.chat_guid is None && r.chat_identifier is Some) ==> send_start(r, db)
            == with_target(r, r.chat_identifier->0),
        (direct_target(r) is None && r.chat_id is Some) ==> send_start(r, db) == (
            SendPhaseView::AwaitingChat { chat_id: r.chat_id->0 },
            SendActionView::LookupChat { chat_id: r.chat_id->0, db_path: db },
        ),
        (direct_target(r) is None && r.chat_id is None) ==> send_start(r, db) == (
            SendPhaseView::Done,
            SendActionView::Finished(Err(ErrorView::Send(NO_TARGET_TEXT@))),
        ),
        (direct_target(r) is Some) ==> !(send_start(r, db).1 is LookupChat),
{
}

/// How far a send in this phase is from its end.
pub open spec fn steps_left(p: SendPhaseView) -> nat {
    match p {
        SendPhaseView::AwaitingChat { .. } => 4,
        SendPhaseView::AwaitingFileCheck { .. } => 3,
        SendPhaseView::AwaitingStaging { .. } => 2,
        SendPhaseView::AwaitingScript => 1,
        SendPhaseView::Done => 0,
    }
}

/// Every send ends: each answered step brings it strictly nearer its end, so
/// no send asks for more than four pieces of outside work; a send reports its
/// result exactly when it ends, and once ended it waits for nothing.
pub proof fn law_send_ends(r: SendRequestView, db: Seq<char>, p: SendPhaseView, e: SendEventView)
    ensures
        (send_start(r, db).0 is Done) <==> (send_start(r, db).1 is Finished),
        answers(p, e) ==> steps_left(send_next(r, p, e).0) < steps_left(p),
        answers(p, e) ==> ((send_next(r, p, e).0 is Done) <==> (send_next(r, p, e).1 is Finished)),
        !answers(SendPhaseView::Done, e),
{
}

/// Replacing a pattern leaves alone a prefix where no occurrence starts.
pub proof fn lemma_replace_skips_prefix(a: Seq<char>, b: Seq<char>, p: Seq<char>, q: Seq<char>)
    requires
        p.len() > 0,
        forall|i: int| 0 <= i < a.len() ==> !occurs_at(a + b, p, i),
    ensures
        replace_all(a + b, p, q) == a + replace_all(b, p, q),
    decreases a.len(),
{
    if a.len() == 0 {
        assert(a + b =~= b);
        assert(a + replace_all(b, p, q) =~= replace_all(b, p, q));
    } else {
        let ab = a + b;
        assert(!occurs_at(ab, p, 0));
        let a1 = a.skip(1);
        assert(ab.skip(1) =~= a1 + b);
        assert forall|i: int| 0 <= i < a1.len() implies !occurs_at(a1 + b, p, i) by {
            assert(!occurs_at(ab, p, i + 1));
            if occurs_at(a1 + b, p, i) {
                assert((a1 + b).subrange(i, i + p.len()) =~= ab.subrange(i + 1, i + 1 + p.len()));
            }
        }
        lemma_replace_skips_prefix(a1, b, p, q);
        assert(seq![ab[0]] + (a1 + replace_all(b, p, q)) =~= a + replace_all(b, p, q));
    }
}

/// The send-target pattern cannot start inside `send "` + an escaped text
/// free of it + the closing quote.
proof fn lemma_no_target_chat_in_text_body(esc: Seq<char>, tail: Seq<char>)
    requires
        !has_substring(esc, TARGET_CHAT@),
    ensures
        forall|i: int|
            0 <= i < (TEXT_BODY_OPEN@ + esc + seq!['"']).len() ==> !occurs_at(
                TEXT_BODY_OPEN@ + esc + seq!['"'] + tail,
                TARGET_CHAT@,
                i,
            ),
{
    reveal_strlit("send \"");
    reveal_strlit("targetChat");
    let p = TARGET_CHAT@;
    let a = TEXT_BODY_OPEN@ + esc + seq!['"'];
    let s = a + tail;
    assert forall|i: int| 0 <= i < a.len() implies !occurs_at(s, p, i) by {
        if occurs_at(s, p, i) {
            assert(s.subrange(i, i + p.len())[0] == p[0]);
            assert(s[i] == 't');
            if i < 6 {
                assert(s[i] == TEXT_BODY_OPEN@[i]);
            } else if i == a.len() - 1 {
                assert(s[i] == '"');
            } else {
                let j = i - 6;
                if j + p.len() <= esc.len() {
                    assert(esc.subrange(j, j + p.len()) =~= s.subrange(i, i + p.len()));
                    assert(occurs_at(esc, p, j));
                } else {
                    let k = a.len() - 1 - i;
                    assert(0 <= k < p.len());
                    assert(s.subrange(i, i + p.len())[k] == s[a.len() - 1]);
                    assert(s[a.len() - 1] == '"');
                    assert(p[k] != '"');
                }
            }
        }
    }
}

/// Where a text-only script opens the literal of the text it sends.
pub open spec fn text_literal_start(target: Seq<char>, service: Seq<char>) -> int {
    (SCRIPT_OPEN@ + setup_text(target, service) + SCRIPT_BETWEEN@ + TEXT_BODY_OPEN@).len() as int
}

/// A text is delivered verbatim: in the script that sends a text alone, the
/// string literal after `send` reads back as exactly that text. This holds
/// whenever the recipient is a group chat, or the escaped text does not
/// itself spell the recipient variable `targetChat` (which the script
/// rewrites wherever it appears in the sending part).
pub proof fn law_text_delivered_verbatim(target: Seq<char>, text: Seq<char>, service: Seq<char>)
    requires
        is_chat_target(target) || !has_substring(escaped(text), TARGET_CHAT@),
    ensures
        ({
            let script = send_script_text(target, text, service, None);
            let k = text_literal_start(target, service);
            &&& script[k - 1] == '"'
            &&& read_literal(script.skip(k)) == Some((text, escaped(text).len() as int))
        }),
{
    reveal_strlit("send \"");
    reveal_strlit("\" to targetChat");
    reveal_strlit("targetChat");
    let esc = escaped(text);
    let name = send_target_name(target);
    let tail = "to targetChat"@;
    assert(TEXT_BODY_CLOSE@ =~= seq!['"', ' '] + tail) by {
        reveal_strlit("to targetChat");
    }
    let raw = raw_body_text(esc, None);
    assert(raw =~= TEXT_BODY_OPEN@ + esc + seq!['"'] + (seq![' '] + tail));
    let body = body_text(target, text, None);
    if is_chat_target(target) {
        lemma_replace_self(raw, TARGET_CHAT@);
        assert(body == raw);
    } else {
        lemma_no_target_chat_in_text_body(esc, seq![' '] + tail);
        lemma_replace_skips_prefix(
            TEXT_BODY_OPEN@ + esc + seq!['"'],
            seq![' '] + tail,
            TARGET_CHAT@,
            name,
        );
    }
    let rest_after = replace_all(seq![' '] + tail, TARGET_CHAT@, name);
    let rest = if is_chat_target(target) {
        seq![' '] + tail
    } else {
        rest_after
    };
    assert(body =~= TEXT_BODY_OPEN@ + esc + seq!['"'] + rest);
    let script = send_script_text(target, text, service, None);
    let k = text_literal_start(target, service);
    let prefix = SCRIPT_OPEN@ + setup_text(target, service) + SCRIPT_BETWEEN@ + TEXT_BODY_OPEN@;
    assert(script =~= prefix + esc + seq!['"'] + (rest + SCRIPT_CLOSE@));
    assert(script.skip(k) =~= esc + seq!['"'] + (rest + SCRIPT_CLOSE@));
    assert(script[k - 1] == TEXT_BODY_OPEN@[5]);
    lemma_escaped_reads_back(text, rest + SCRIPT_CLOSE@);
}

/// Where the script opens the literal that names the recipient.
pub open spec fn target_literal_start(target: Seq<char>, service: Seq<char>) -> int {
    if is_chat_target(target) {
        (SCRIPT_OPEN@ + CHAT_SETUP_OPEN@).len() as int
    } else {
        (SCRIPT_OPEN@ + BUDDY_SETUP_OPEN@ + service_type_text(service)
            + BUDDY_SETUP_MIDDLE@).len() as int
    }
}

/// The recipient is addressed verbatim: the string literal that names it in
/// the script reads back as exactly the recipient, whatever characters it
/// holds.
pub proof fn law_target_addressed_verbatim(
    target: Seq<char>,
    text: Seq<char>,
    service: Seq<char>,
    file: Option<Seq<char>>,
)
    ensures
        ({
            let script = send_script_text(target, text, service, file);
            let k = target_literal_start(target, service);
            &&& script[k - 1] == '"'
            &&& read_literal(script.skip(k)) == Some((target, escaped(target).len() as int))
        }),
{
    let script = send_script_text(target, text, service, file);
    let k = target_literal_start(target, service);
    let after = SCRIPT_BETWEEN@ + body_text(target, text, file) + SCRIPT_CLOSE@;
    if is_chat_target(target) {
        reveal_strlit(
            "\"\n            repeat with c in chats\n                if id of c is targetHandle then\n                    set targetChat to c\n                    exit repeat\n                end if\n            end repeat\n            if targetChat is missing value then\n                error \"chat not found\"\n            end if\n            ",
        );
        reveal_strlit("\n            set targetChat to missing value\n            set targetHandle to \"");
        let close = CHAT_SETUP_CLOSE@;
        assert(close =~= seq!['"'] + close.skip(1));
        assert(script =~= SCRIPT_OPEN@ + CHAT_SETUP_OPEN@ + escaped(target) + seq!['"'] + (
        close.skip(1) + after));
        assert(script.skip(k) =~= escaped(target) + seq!['"'] + (close.skip(1) + after));
        let open = CHAT_SETUP_OPEN@;
        assert(script[k - 1] == open[open.len() - 1]);
        lemma_escaped_reads_back(target, close.skip(1) + after);
    } else {
        reveal_strlit("\" of svc\n            ");
        reveal_strlit("\n            set targetBuddy to buddy \"");
        let close = BUDDY_SETUP_CLOSE@;
        assert(close =~= seq!['"'] + close.skip(1));
        let head = SCRIPT_OPEN@ + BUDDY_SETUP_OPEN@ + service_type_text(service)
            + BUDDY_SETUP_MIDDLE@;
        assert(script =~= head + escaped(target) + seq!['"'] + (close.skip(1) + after));
        assert(script.skip(k) =~= escaped(target) + seq!['"'] + (close.skip(1) + after));
        let mid = BUDDY_SETUP_MIDDLE@;
        assert(script[k - 1] == mid[mid.len() - 1]);
        lemma_escaped_reads_back(target, close.skip(1) + after);
    }
}

/// What a text-only script holds before the sent text's escaped form.
pub open spec fn text_script_prefix(target: Seq<char>, service: Seq<char>) -> Seq<char> {
    SCRIPT_OPEN@ + setup_text(target, service) + SCRIPT_BETWEEN@ + TEXT_BODY_OPEN@
}

/// What a text-only script holds after the sent text's escaped form.
pub open spec fn text_script_suffix(target: Seq<char>) -> Seq<char> {
    seq!['"'] + replace_all(TEXT_BODY_CLOSE@.skip(1), TARGET_CHAT@, send_target_name(target))
        + SCRIPT_CLOSE@
}

/// A text-only script is its prefix, the escaped text and its suffix.
proof fn lemma_text_script_shape(target: Seq<char>, text: Seq<char>, service: Seq<char>)
    requires
        is_chat_target(target) || !has_substring(escaped(text), TARGET_CHAT@),
    ensures
        send_script_text(target, text, service, None) == text_script_prefix(target, service)
            + escaped(text) + text_script_suffix(target),
{
    reveal_strlit("send \"");
    reveal_strlit("\" to targetChat");
    reveal_strlit("targetChat");
    let esc = escaped(text);
    let name = send_target_name(target);
    let tail = TEXT_BODY_CLOSE@.skip(1);
    assert(TEXT_BODY_CLOSE@ =~= seq!['"'] + tail);
    let raw = raw_body_text(esc, None);
    assert(raw =~= TEXT_BODY_OPEN@ + esc + seq!['"'] + tail);
    let body = body_text(target, text, None);
    if is_chat_target(target) {
        lemma_replace_self(raw, TARGET_CHAT@);
        lemma_replace_self(tail, TARGET_CHAT@);
    } else {
        lemma_no_target_chat_in_text_body(esc, tail);
        lemma_replace_skips_prefix(TEXT_BODY_OPEN@ + esc + seq!['"'], tail, TARGET_CHAT@, name);
    }
    assert(body =~= TEXT_BODY_OPEN@ + esc + seq!['"'] + replace_all(tail, TARGET_CHAT@, name));
    assert(send_script_text(target, text, service, None) =~= text_script_prefix(target, service)
        + esc + text_script_suffix(target));
}

/// The text of a text-only send fills its one string literal and changes
/// nothing else: the script for any text is the script for the empty text
/// with the escaped text put between the quotes of `send ""`, at the place
/// where that literal stands. (As for
/// `law_text_delivered_verbatim`, the recipient is a group chat or the
/// escaped text does not spell `targetChat`.)
pub proof fn law_text_fills_only_its_literal(target: Seq<char>, text: Seq<char>, service: Seq<char>)
    requires
        is_chat_target(target) || !has_substring(escaped(text), TARGET_CHAT@),
    ensures
        send_script_text(target, text, service, None) == text_script_prefix(target, service)
            + escaped(text) + text_script_suffix(target),
        send_script_text(target, Seq::empty(), service, None) == text_script_prefix(
            target,
            service,
        ) + text_script_suffix(target),
        ({
            let empty = send_script_text(target, Seq::empty(), service, None);
            let k = text_script_prefix(target, service).len() as int;
            &&& empty.subrange(k - TEXT_BODY_OPEN@.len(), k) == TEXT_BODY_OPEN@
            &&& empty[k] == '"'
            &&& send_script_text(target, text, service, None) == empty.take(k) + escaped(text)
                + empty.skip(k)
        }),
{
    lemma_text_script_shape(target, text, service);
    let e: Seq<char> = Seq::empty();
    assert(escaped(e) =~= e);
    assert(!has_substring(escaped(e), TARGET_CHAT@)) by {
        reveal_strlit("targetChat");
        if has_substring(escaped(e), TARGET_CHAT@) {
            let i = choose|i: int| crate::text::occurs_at(escaped(e), TARGET_CHAT@, i);
            assert(crate::text::occurs_at(escaped(e), TARGET_CHAT@, i));
        }
    }
    lemma_text_script_shape(target, e, service);
    assert(text_script_prefix(target, service) + escaped(e) + text_script_suffix(target)
        =~= text_script_prefix(target, service) + text_script_suffix(target));
    let pre = text_script_prefix(target, service);
    let suf = text_script_suffix(target);
    let empty = pre + suf;
    let k = pre.len() as int;
    assert(empty.take(k) =~= pre);
    assert(empty.skip(k) =~= suf);
    assert(empty.subrange(k - TEXT_BODY_OPEN@.len(), k) =~= TEXT_BODY_OPEN@);
    assert(empty[k] == suf[0]);
}

/// A script to a buddy names the service type it looks the buddy up under.
proof fn lemma_buddy_service_named(
    target: Seq<char>,
    text: Seq<char>,
    label: Seq<char>,
    file: Option<Seq<char>>,
)
    requires
        !is_chat_target(target),
    ensures
        has_substring(
            send_script_text(target, text, label, file),
            "service type is "@ + service_type_text(label),
        ),
{
    reveal_strlit("\n            set svc to 1st service whose service type is ");
    reveal_strlit("service type is ");
    let st = service_type_text(label);
    let pat = "service type is "@ + st;
    let script = send_script_text(target, text, label, file);
    let i = SCRIPT_OPEN@.len() + BUDDY_SETUP_OPEN@.len() - 16;
    let rest = BUDDY_SETUP_MIDDLE@ + escaped(target) + BUDDY_SETUP_CLOSE@ + SCRIPT_BETWEEN@
        + body_text(target, text, file) + SCRIPT_CLOSE@;
    assert(script =~= SCRIPT_OPEN@ + BUDDY_SETUP_OPEN@ + st + rest);
    assert(BUDDY_SETUP_OPEN@.subrange(BUDDY_SETUP_OPEN@.len() - 16, BUDDY_SETUP_OPEN@.len() as int)
        =~= "service type is "@);
    assert(script.subrange(i, i + pat.len()) =~= pat);
    assert(occurs_at(script, pat, i));
}

/// The service a send asks for is the one it goes through: a send to a buddy
/// (not a group chat) looks the buddy up as an SMS buddy exactly when the
/// request asks for SMS, and as an iMessage buddy otherwise, whether it sends
/// a text alone or a file.
pub proof fn law_service_honoured(r: SendRequestView, target: Seq<char>, dest: Seq<char>)
    requires
        !is_chat_target(target),
    ensures
        (r.file is None && r.text is Some && r.text->0.len() > 0) ==> (with_target(r, target).1 matches SendActionView::RunScript { script } && (r.service == SendService::Sms ==> has_substring(script, "service type is SMS"@)) && (r.service != SendService::Sms ==> has_substring(script, "service type is iMessage"@))),
        send_next(
            r,
            SendPhaseView::AwaitingStaging { target },
            SendEventView::Staged(Ok::<Seq<char>, ErrorView>(dest)),
        ).1 matches SendActionView::RunScript { script } && (r.service == SendService::Sms
            ==> has_substring(script, "service type is SMS"@)) && (r.service != SendService::Sms
            ==> has_substring(script, "service type is iMessage"@)),
{
    reveal_strlit("SMS");
    reveal_strlit("auto");
    reveal_strlit("iMessage");
    reveal_strlit("service type is ");
    reveal_strlit("service type is SMS");
    reveal_strlit("service type is iMessage");
    let label = service_label_text(r.service);
    assert("auto"@ != "SMS"@);
    assert("iMessage"@ != "SMS"@);
    assert("service type is SMS"@ =~= "service type is "@ + "SMS"@);
    assert("service type is iMessage"@ =~= "service type is "@ + "iMessage"@);
    if r.file is None && r.text is Some && r.text->0.len() > 0 {
        lemma_buddy_service_named(target, r.text->0, label, None);
    }
    let caption = if r.text is Some {
        r.text->0
    } else {
        Seq::empty()
    };
    lemma_buddy_service_named(target, caption, label, Some(dest));
}

/// Replacing a pattern that does not occur changes nothing.
proof fn lemma_replace_absent(s: Seq<char>, p: Seq<char>, q: Seq<char>)
    requires
        !has_substring(s, p),
    ensures
        replace_all(s, p, q) == s,
    decreases s.len(),
{
    if p.len() == 0 {
        assert(s.subrange(0, 0) =~= p);
        assert(occurs_at(s, p, 0));
    } else if s.len() > 0 {
        assert(!occurs_at(s, p, 0));
        let rest = s.skip(1);
        assert(!has_substring(rest, p)) by {
            if has_substring(rest, p) {
                let j = choose|j: int| occurs_at(rest, p, j);
                assert(rest.subrange(j, j + p.len()) =~= s.subrange(j + 1, j + 1 + p.len()));
                assert(occurs_at(s, p, j + 1));
            }
        }
        lemma_replace_absent(rest, p, q);
        assert(s =~= seq![s[0]] + rest);
    }
}

/// A pattern without quotes does not run across a quote: replacing it in a
/// text that ends with a quote, followed by more, replaces it in each part.
proof fn lemma_replace_split_at_quote(x: Seq<char>, y: Seq<char>, p: Seq<char>, q: Seq<char>)
    requires
        p.len() > 0,
        !p.contains('"'),
        x.len() > 0,
        x.last() == '"',
    ensures
        replace_all(x + y, p, q) == replace_all(x, p, q) + replace_all(y, p, q),
    decreases x.len(),
{
    let s = x + y;
    let n = p.len() as int;
    if occurs_at(s, p, 0) {
        if n > x.len() - 1 {
            assert(s.subrange(0, n)[x.len() - 1] == s[x.len() - 1]);
            assert(p[x.len() - 1] == '"');
            assert(false);
        }
        assert(x.subrange(0, n) =~= s.subrange(0, n));
        assert(occurs_at(x, p, 0));
        let x1 = x.skip(n);
        assert(s.skip(n) =~= x1 + y);
        lemma_replace_split_at_quote(x1, y, p, q);
        assert(replace_all(s, p, q) =~= q + replace_all(x1 + y, p, q));
    } else {
        assert(!occurs_at(x, p, 0)) by {
            if occurs_at(x, p, 0) {
                assert(x.subrange(0, n) =~= s.subrange(0, n));
            }
        }
        let x1 = x.skip(1);
        assert(s.skip(1) =~= x1 + y);
        if x.len() == 1 {
            assert(x1 + y =~= y);
            assert(replace_all(x1, p, q) =~= x1);
            assert(replace_all(x, p, q) =~= seq![x[0]]);
            assert(replace_all(s, p, q) =~= seq![s[0]] + replace_all(y, p, q));
        } else {
            lemma_replace_split_at_quote(x1, y, p, q);
            assert(replace_all(s, p, q) =~= seq![x[0]] + replace_all(x1 + y, p, q));
        }
    }
}

/// A text free of a quote-less pattern stays free of it with a closing quote.
proof fn lemma_absent_before_quote(s: Seq<char>, p: Seq<char>)
    requires
        p.len() > 0,
        !p.contains('"'),
        !has_substring(s, p),
    ensures
        !has_substring(s + seq!['"'], p),
{
    let t = s + seq!['"'];
    if has_substring(t, p) {
        let i = choose|i: int| occurs_at(t, p, i);
        if i + p.len() <= s.len() {
            assert(s.subrange(i, i + p.len()) =~= t.subrange(i, i + p.len()));
            assert(occurs_at(s, p, i));
        } else {
            assert(t.subrange(i, i + p.len())[s.len() - i] == t[s.len() as int]);
            assert(p[s.len() - i] == '"');
        }
    }
}

/// The recipient variable's name does not occur in the fixed parts of a file
/// send before its tail.
proof fn lemma_file_body_constants()
    ensures
        !TARGET_CHAT@.contains('"'),
        TARGET_CHAT@.len() > 0,
        !has_substring(FILE_BODY_0@, TARGET_CHAT@),
        !has_substring(FILE_BODY_1@.skip(1), TARGET_CHAT@),
        !has_substring(FILE_BODY_2@.skip(1), TARGET_CHAT@),
        FILE_BODY_0@.len() > 0 && FILE_BODY_0@.last() == '"',
        FILE_BODY_1@ == seq!['"'] + FILE_BODY_1@.skip(1),
        FILE_BODY_1@.skip(1).len() > 0 && FILE_BODY_1@.skip(1).last() == '"',
        FILE_BODY_2@ == seq!['"'] + FILE_BODY_2@.skip(1),
        FILE_BODY_2@.skip(1).len() > 0 && FILE_BODY_2@.skip(1).last() == '"',
        FILE_BODY_3@ == seq!['"'] + FILE_BODY_3@.skip(1),
{
    reveal_strlit("targetChat");
    reveal_strlit("\n            set theFile to POSIX file \"");
    reveal_strlit("\"\n            if \"");
    reveal_strlit("\" is not \"\" then\n                send \"");
    reveal_strlit("\" to targetChat\n                delay 0.3\n            end if\n            send theFile to targetChat\n            ");
    let p = TARGET_CHAT@;
    assert(!p.contains('"'));
    let c0 = FILE_BODY_0@;
    let c1 = FILE_BODY_1@.skip(1);
    let c2 = FILE_BODY_2@.skip(1);
    assert forall|i: int| 0 <= i < c0.len() implies c0[i] != 'a' by {}
    assert forall|i: int| 0 <= i < c1.len() implies c1[i] != 'a' by {}
    assert forall|i: int| 0 <= i < c2.len() implies c2[i] != 'a' by {}
    assert(!has_substring(c0, p)) by {
        if has_substring(c0, p) {
            let i = choose|i: int| occurs_at(c0, p, i);
            assert(c0.subrange(i, i + p.len())[1] == c0[i + 1]);
        }
    }
    assert(!has_substring(c1, p)) by {
        if has_substring(c1, p) {
            let i = choose|i: int| occurs_at(c1, p, i);
            assert(c1.subrange(i, i + p.len())[1] == c1[i + 1]);
        }
    }
    assert(!has_substring(c2, p)) by {
        if has_substring(c2, p) {
            let i = choose|i: int| occurs_at(c2, p, i);
            assert(c2.subrange(i, i + p.len())[1] == c2[i + 1]);
        }
    }
    assert(FILE_BODY_1@ =~= seq!['"'] + FILE_BODY_1@.skip(1));
    assert(FILE_BODY_2@ =~= seq!['"'] + FILE_BODY_2@.skip(1));
    assert(FILE_BODY_3@ =~= seq!['"'] + FILE_BODY_3@.skip(1));
}

/// What follows the last literal of a file send: its fixed tail, with the
/// recipient variable filled in.
pub open spec fn file_body_tail(target: Seq<char>) -> Seq<char> {
    replace_all(FILE_BODY_3@.skip(1), TARGET_CHAT@, send_target_name(target))
}

/// The sending part of a file send keeps everything before its tail as
/// written.
proof fn lemma_file_body_shape(target: Seq<char>, t: Seq<char>, dest: Seq<char>)
    requires
        is_chat_target(target) || (!has_substring(escaped(dest), TARGET_CHAT@) && !has_substring(
            escaped(t),
            TARGET_CHAT@,
        )),
    ensures
        body_text(target, t, Some(dest)) == FILE_BODY_0@ + (escaped(dest) + seq!['"'])
            + FILE_BODY_1@.skip(1) + (escaped(t) + seq!['"']) + FILE_BODY_2@.skip(1) + (escaped(
            t,
        ) + seq!['"']) + file_body_tail(target),
{
    lemma_file_body_constants();
    let e = escaped(t);
    let ed = escaped(dest);
    let p = TARGET_CHAT@;
    let name = send_target_name(target);
    let p1 = FILE_BODY_0@;
    let p2 = ed + seq!['"'];
    let p3 = FILE_BODY_1@.skip(1);
    let p4 = e + seq!['"'];
    let p5 = FILE_BODY_2@.skip(1);
    let p6 = e + seq!['"'];
    let y = FILE_BODY_3@.skip(1);
    let raw = raw_body_text(e, Some(dest));
    assert(raw =~= p1 + (p2 + (p3 + (p4 + (p5 + (p6 + y))))));
    if is_chat_target(target) {
        lemma_replace_self(raw, p);
        lemma_replace_self(y, p);
        assert(raw =~= p1 + p2 + p3 + p4 + p5 + p6 + y);
    } else {
        lemma_absent_before_quote(ed, p);
        lemma_absent_before_quote(e, p);
        lemma_replace_split_at_quote(p1, p2 + (p3 + (p4 + (p5 + (p6 + y)))), p, name);
        lemma_replace_split_at_quote(p2, p3 + (p4 + (p5 + (p6 + y))), p, name);
        lemma_replace_split_at_quote(p3, p4 + (p5 + (p6 + y)), p, name);
        lemma_replace_split_at_quote(p4, p5 + (p6 + y), p, name);
        lemma_replace_split_at_quote(p5, p6 + y, p, name);
        lemma_replace_split_at_quote(p6, y, p, name);
        lemma_replace_absent(p1, p, name);
        lemma_replace_absent(p2, p, name);
        lemma_replace_absent(p3, p, name);
        lemma_replace_absent(p4, p, name);
        lemma_replace_absent(p5, p, name);
        lemma_replace_absent(p6, p, name);
        assert(body_text(target, t, Some(dest)) =~= p1 + p2 + p3 + p4 + p5 + p6 + replace_all(
            y,
            p,
            name,
        ));
    }
}

/// The caption goes with the file: once the attachment is staged, the script
/// of a send whose request has a text sends that text before the file. Both
/// of its string literals, the one tested for emptiness after `if` and the
/// one after `send`, read back as exactly the text. (As for texts sent alone,
/// the recipient is a group chat, or neither the escaped text nor the
/// escaped staged path spells the recipient variable `targetChat`.)
pub proof fn law_caption_sent_with_file(r: SendRequestView, target: Seq<char>, dest: Seq<char>)
    requires
        r.text is Some,
        is_chat_target(target) || (!has_substring(escaped(dest), TARGET_CHAT@) && !has_substring(
            escaped(r.text->0),
            TARGET_CHAT@,
        )),
    ensures
        send_next(
            r,
            SendPhaseView::AwaitingStaging { target },
            SendEventView::Staged(Ok::<Seq<char>, ErrorView>(dest)),
        ).1 matches SendActionView::RunScript { script } && ({
            let t = r.text->0;
            let e = escaped(t);
            let k_if = (SCRIPT_OPEN@ + setup_text(target, service_label_text(r.service))
                + SCRIPT_BETWEEN@ + FILE_BODY_0@ + escaped(dest) + FILE_BODY_1@).len() as int;
            let k_send = k_if + e.len() + FILE_BODY_2@.len();
            &&& script[k_if - 1] == '"'
            &&& read_literal(script.skip(k_if)) == Some((t, e.len() as int))
            &&& script[k_send - 1] == '"'
            &&& read_literal(script.skip(k_send)) == Some((t, e.len() as int))
        }),
{
    let t = r.text->0;
    let e = escaped(t);
    let ed = escaped(dest);
    let label = service_label_text(r.service);
    lemma_file_body_shape(target, t, dest);
    lemma_file_body_constants();
    let p1 = FILE_BODY_0@;
    let p2 = ed + seq!['"'];
    let p3 = FILE_BODY_1@.skip(1);
    let p4 = e + seq!['"'];
    let p5 = FILE_BODY_2@.skip(1);
    let p6 = e + seq!['"'];
    let tail = file_body_tail(target);
    let body = body_text(target, t, Some(dest));
    let script = send_script_text(target, t, label, Some(dest));
    let h = SCRIPT_OPEN@ + setup_text(target, label) + SCRIPT_BETWEEN@;
    assert(script =~= h + body + SCRIPT_CLOSE@);
    let k_if = (h + FILE_BODY_0@ + ed + FILE_BODY_1@).len() as int;
    let k_send = k_if + e.len() + FILE_BODY_2@.len();
    assert(k_if == (h + p1 + p2 + p3).len());
    assert(k_send == (h + p1 + p2 + p3 + p4 + p5).len());
    let after_if = p5 + p6 + tail + SCRIPT_CLOSE@;
    assert(script.skip(k_if) =~= e + seq!['"'] + after_if);
    lemma_escaped_reads_back(t, after_if);
    let after_send = tail + SCRIPT_CLOSE@;
    assert(script.skip(k_send) =~= e + seq!['"'] + after_send);
    lemma_escaped_reads_back(t, after_send);
    assert(script[k_if - 1] == p3.last());
    assert(script[k_send - 1] == p5.last());
}

/// The script a send runs addresses its recipient and carries its text: once
/// the recipient is known, a send of a text alone runs a script whose
/// recipient literal reads back as the recipient and whose `send` literal
/// reads back as the request's text; once an attachment is staged, the
/// script's recipient literal reads back as the recipient too. (The text
/// reads back under the condition of `law_text_delivered_verbatim`.)
pub proof fn law_send_script_addresses(r: SendRequestView, target: Seq<char>, dest: Seq<char>)
    ensures
        (r.file is None && r.text is Some && r.text->0.len() > 0) ==> (with_target(r, target).1 matches SendActionView::RunScript { script } && ({
            let label = service_label_text(r.service);
            let k = target_literal_start(target, label);
            let j = text_literal_start(target, label);
            &&& script[k - 1] == '"'
            &&& read_literal(script.skip(k)) == Some((target, escaped(target).len() as int))
            &&& (is_chat_target(target) || !has_substring(escaped(r.text->0), TARGET_CHAT@)) ==> (
            script[j - 1] == '"' && read_literal(script.skip(j)) == Some(
                (r.text->0, escaped(r.text->0).len() as int),
            ))
        })),
        send_next(
            r,
            SendPhaseView::AwaitingStaging { target },
            SendEventView::Staged(Ok::<Seq<char>, ErrorView>(dest)),
        ).1 matches SendActionView::RunScript { script } && ({
            let k = target_literal_start(target, service_label_text(r.service));
            &&& script[k - 1] == '"'
            &&& read_literal(script.skip(k)) == Some((target, escaped(target).len() as int))
        }),
{
    let label = service_label_text(r.service);
    if r.file is None && r.text is Some && r.text->0.len() > 0 {
        law_target_addressed_verbatim(target, r.text->0, label, None);
        if is_chat_target(target) || !has_substring(escaped(r.text->0), TARGET_CHAT@) {
            law_text_delivered_verbatim(target, r.text->0, label);
        }
    }
    let caption = if r.text is Some {
        r.text->0
    } else {
        Seq::empty()
    };
    law_target_addressed_verbatim(target, caption, label, Some(dest));
}

} // verus!
