//! System Integrity Protection, which must be off before the bridge library
//! can be injected into Messages.
use vstd::prelude::*;

use crate::error::{ErrorView, RsImessageError};
use crate::text::{contains_str, has_substring, owned, utf8_lossy, utf8_lossy_text};

verus! {

/// What `csrutil status` says of System Integrity Protection.
#[derive(Debug, Clone, Copy, PartialEq, Eq, Structural)]
pub enum SipStatus {
    Enabled,
    Disabled,
    Unknown,
}

/// What `str::to_lowercase` makes of a text.
pub uninterp spec fn lowercase_text(s: Seq<char>) -> Seq<char>;

/// Whether every character of `s` is ASCII.
pub open spec fn all_ascii(s: Seq<char>) -> bool {
    forall|i: int| 0 <= i < s.len() ==> (s[i] as int) < 128
}

/// The ASCII lowercase of `c`: `A` to `Z` become `a` to `z`, anything else
/// stays.
pub open spec fn ascii_lower(c: char) -> char {
    if 'A' <= c && c <= 'Z' {
        ((c as int) + 32) as char
    } else {
        c
    }
}

/// `str::to_lowercase`. Claimed: the result is determined by the text, and,
/// from the documentation of `str::to_lowercase` and `char::to_lowercase`
/// (ASCII letters map to their ASCII lowercase, other ASCII characters to
/// themselves), an all-ASCII text is lowercased character by character. The
/// rest of the Unicode case mapping is left to the name `lowercase_text`.
#[verifier::external_body]
fn to_lowercase(s: &str) -> (res: String)
    ensures
        res@ == lowercase_text(s@),
        all_ascii(s@) ==> res@.len() == s@.len() && forall|i: int|
            0 <= i < s@.len() ==> #[trigger] res@[i] == ascii_lower(s@[i]),
{
    s.to_lowercase()
}

pub const SIP_DISABLED_WORD: &'static str = "disabled";

pub const SIP_ENABLED_WORD: &'static str = "enabled";

/// The status that `csrutil status` printed `stdout` means: disabled when the
/// lowercased text says `disabled` anywhere, else enabled when it says
/// `enabled`, else unknown. A command that could not be run means unknown.
pub open spec fn sip_status_of(stdout: Option<Seq<u8>>) -> SipStatus {
    match stdout {
        None => SipStatus::Unknown,
        Some(out) => status_in_text(lowercase_text(utf8_lossy_text(out))),
    }
}

/// The status lowercased `csrutil` output `text` reports: disabled when it
/// says `disabled` anywhere, else enabled when it says `enabled`, else
/// unknown.
pub open spec fn status_in_text(text: Seq<char>) -> SipStatus {
    if has_substring(text, SIP_DISABLED_WORD@) {
        SipStatus::Disabled
    } else if has_substring(text, SIP_ENABLED_WORD@) {
        SipStatus::Enabled
    } else {
        SipStatus::Unknown
    }
}

/// Whether every byte is ASCII.
pub open spec fn ascii_bytes(bytes: Seq<u8>) -> bool {
    forall|i: int| 0 <= i < bytes.len() ==> bytes[i] < 128
}

/// ASCII bytes as lowercase text.
pub open spec fn ascii_lowered(bytes: Seq<u8>) -> Seq<char> {
    Seq::new(bytes.len(), |i: int| ascii_lower(bytes[i] as char))
}

/// The optional bytes as a sequence.
pub open spec fn opt_bytes_view(o: Option<Vec<u8>>) -> Option<Seq<u8>> {
    match o {
        Some(v) => Some(v@),
        None => None,
    }
}

/// Reads the status from what `/usr/bin/csrutil status` wrote to its
/// standard output, or `None` when the command could not be run.
pub fn current_sip_status(csrutil_stdout: Option<Vec<u8>>) -> (res: SipStatus)
    ensures
        res == sip_status_of(opt_bytes_view(csrutil_stdout)),
        csrutil_stdout matches Some(out) ==> (ascii_bytes(out@) ==> res == status_in_text(
            ascii_lowered(out@),
        )),
{
    match csrutil_stdout {
        None => SipStatus::Unknown,
        Some(out) => {
            let raw = utf8_lossy(out.as_slice());
            proof {
                if ascii_bytes(out@) {
                    assert forall|i: int| 0 <= i < raw@.len() implies (raw@[i] as int) < 128 by {
                        assert(raw@[i] == (out@[i] as char));
                    }
                }
            }
            let text = to_lowercase(raw.as_str());
            proof {
                if ascii_bytes(out@) {
                    assert(text@ =~= ascii_lowered(out@));
                }
            }
            if contains_str(text.as_str(), SIP_DISABLED_WORD) {
                SipStatus::Disabled
            } else if contains_str(text.as_str(), SIP_ENABLED_WORD) {
                SipStatus::Enabled
            } else {
                SipStatus::Unknown
            }
        },
    }
}

pub const SIP_ENABLED_TEXT: &'static str = "System Integrity Protection is enabled; disable SIP in Recovery mode before private-api injection";

pub const SIP_UNKNOWN_TEXT: &'static str = "could not determine SIP status via csrutil";

/// What a status means for injection: allowed when SIP is disabled,
/// otherwise a private-API error saying why not.
pub open spec fn sip_requirement(s: SipStatus) -> Result<(), ErrorView> {
    match s {
        SipStatus::Disabled => Ok(()),
        SipStatus::Enabled => Err(ErrorView::PrivateApi(SIP_ENABLED_TEXT@)),
        SipStatus::Unknown => Err(ErrorView::PrivateApi(SIP_UNKNOWN_TEXT@)),
    }
}

/// The view of a unit outcome.
pub open spec fn unit_outcome_view(r: Result<(), RsImessageError>) -> Result<(), ErrorView> {
    match r {
        Ok(()) => Ok(()),
        Err(e) => Err(e@),
    }
}

/// Refuses injection unless `csrutil status` (whose standard output is
/// `csrutil_stdout`, or `None` when it could not be run) says SIP is
/// disabled.
pub fn require_sip_disabled(csrutil_stdout: Option<Vec<u8>>) -> (res: Result<(), RsImessageError>)
    ensures
        unit_outcome_view(res) == sip_requirement(
            sip_status_of(opt_bytes_view(csrutil_stdout)),
        ),
        csrutil_stdout matches Some(out) ==> (ascii_bytes(out@) ==> unit_outcome_view(res)
            == sip_requirement(status_in_text(ascii_lowered(out@)))),
{
    match current_sip_status(csrutil_stdout) {
        SipStatus::Disabled => Ok(()),
        SipStatus::Enabled => Err(RsImessageError::PrivateApi(owned(SIP_ENABLED_TEXT))),
        SipStatus::Unknown => Err(RsImessageError::PrivateApi(owned(SIP_UNKNOWN_TEXT))),
    }
}

} // verus!
