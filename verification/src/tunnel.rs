//! The decisions of the SSH tunnel that exposes the game: which server keys to
//! trust, how a login attempt ends, where the public address is announced, and
//! what to do with each message of the tunnel's session channel.

use vstd::prelude::*;
use vstd::string::{StrSliceExecFns, StringExecFns};

use crate::DEBUG;

verus! {

/// Unicode's White_Space characters.
pub open spec fn is_white_space(c: char) -> bool {
    let v = c as u32;
    ||| 0x09 <= v <= 0x0d
    ||| v == 0x20
    ||| v == 0x85
    ||| v == 0xa0
    ||| v == 0x1680
    ||| 0x2000 <= v <= 0x200a
    ||| v == 0x2028
    ||| v == 0x2029
    ||| v == 0x202f
    ||| v == 0x205f
    ||| v == 0x3000
}

/// Whether `c` is a Unicode White_Space character.
pub fn is_white_space_char(c: char) -> (white: bool)
    ensures
        white == is_white_space(c),
{
    let v = c as u32;
    (0x09 <= v && v <= 0x0d) || v == 0x20 || v == 0x85 || v == 0xa0 || v == 0x1680 || (0x2000 <= v
        && v <= 0x200a) || v == 0x2028 || v == 0x2029 || v == 0x202f || v == 0x205f || v == 0x3000
}

/// The scheme that starts the public address: `https://`.
pub open spec fn url_scheme() -> Seq<char> {
    seq!['h', 't', 't', 'p', 's', ':', '/', '/']
}

/// Whether `https://` starts at position `i` of `s`.
pub open spec fn scheme_at(s: Seq<char>, i: int) -> bool {
    &&& 0 <= i
    &&& i + 8 <= s.len()
    &&& s.subrange(i, i + 8) == url_scheme()
}

/// Whether `i` is the first position of `s` at which `https://` starts.
pub open spec fn first_scheme_at(s: Seq<char>, i: int) -> bool {
    &&& scheme_at(s, i)
    &&& forall|j: int| 0 <= j < i ==> !scheme_at(s, j)
}

/// Whether `end` is the first white-space position of `s` at or after `start`.
pub open spec fn first_white_space_from(s: Seq<char>, start: int, end: int) -> bool {
    &&& start <= end < s.len()
    &&& is_white_space(s[end])
    &&& forall|k: int| start <= k < end ==> !is_white_space(s[k])
}

/// What a chunk of session output says about the public address.
#[derive(Debug)]
pub enum UrlScan {
    /// The chunk holds no `https://`.
    Absent,
    /// The address: from the first `https://` up to the next white space.
    Found(String),
    /// The chunk holds `https://` with no white space after it.
    Unterminated,
}

/// Whether `text[i..i + 8]` is `https://`.
fn scheme_at_exec(text: &str, n: usize, i: usize) -> (found: bool)
    requires
        n == text@.len(),
        i + 8 <= n,
    ensures
        found == scheme_at(text@, i as int),
{
    let scheme: [char; 8] = ['h', 't', 't', 'p', 's', ':', '/', '/'];
    let mut k: usize = 0;
    while k < 8
        invariant
            k <= 8,
            i + 8 <= n,
            n == text@.len(),
            scheme@ == url_scheme(),
            forall|m: int| 0 <= m < k ==> text@[i + m] == url_scheme()[m],
        decreases 8 - k,
    {
        if text.get_char(i + k) != scheme[k] {
            proof {
                assert(text@.subrange(i as int, i + 8)[k as int] != url_scheme()[k as int]);
            }
            return false;
        }
        k = k + 1;
    }
    proof {
        assert(text@.subrange(i as int, i + 8) =~= url_scheme());
    }
    true
}

/// Finds the public address that the tunnel server prints: the text from the
/// first `https://` up to, not including, the next white-space character.
pub fn scan_url(text: &str) -> (scan: UrlScan)
    ensures
        scan is Absent <==> (forall|i: int| !scheme_at(text@, i)),
        scan matches UrlScan::Found(url) ==> exists|start: int, end: int|
            first_scheme_at(text@, start) && first_white_space_from(text@, start, end) && url@
                == text@.subrange(start, end),
        scan is Unterminated <==> exists|start: int|
            first_scheme_at(text@, start) && forall|k: int|
                start <= k < text@.len() ==> !is_white_space(#[trigger] text@[k]),
{
    let n = text.unicode_len();
    let mut i: usize = 0;
    let mut start: Option<usize> = None;
    while start.is_none() && i < n && n - i >= 8
        invariant
            i <= n,
            n == text@.len(),
            start is None ==> forall|j: int| 0 <= j < i ==> !scheme_at(text@, j),
            start matches Some(s) ==> first_scheme_at(text@, s as int),
        decreases n - i + (if start is None { 1int } else { 0int }),
    {
        if scheme_at_exec(text, n, i) {
            start = Some(i);
        } else {
            i = i + 1;
        }
    }
    match start {
        None => {
            proof {
                assert forall|j: int| !scheme_at(text@, j) by {
                    if 0 <= j && j + 8 <= text@.len() {
                        assert(j < i);
                    }
                }
            }
            UrlScan::Absent
        },
        Some(s) => {
            proof {
                assert(scheme_at(text@, s as int));
                assert forall|st: int| first_scheme_at(text@, st) implies st == s by {
                    if st < s {
                        assert(!scheme_at(text@, st));
                    }
                    if s < st {
                        assert(!scheme_at(text@, s as int));
                    }
                }
            }
            let mut end: usize = s;
            while end < n
                invariant
                    s <= end <= n,
                    n == text@.len(),
                    first_scheme_at(text@, s as int),
                    forall|st: int| first_scheme_at(text@, st) ==> st == s,
                    forall|k: int| s <= k < end ==> !is_white_space(#[trigger] text@[k]),
                decreases n - end,
            {
                if is_white_space_char(text.get_char(end)) {
                    let url = text.substring_char(s, end).to_owned();
                    proof {
                        assert(first_white_space_from(text@, s as int, end as int));
                        assert(scheme_at(text@, s as int));
                        assert forall|st: int|
                            first_scheme_at(text@, st) implies !(forall|k: int|
                                st <= k < text@.len() ==> !is_white_space(#[trigger] text@[k])) by {
                            assert(st == s);
                            assert(is_white_space(text@[end as int]));
                        }
                    }
                    return UrlScan::Found(url);
                }
                end = end + 1;
            }
            proof {
                assert(scheme_at(text@, s as int));
            }
            UrlScan::Unterminated
        },
    }
}

/// The text of a byte chunk, with invalid UTF-8 replaced by U+FFFD.
pub uninterp spec fn utf8_lossy(bytes: Seq<u8>) -> Seq<char>;

/// Reads a byte chunk as text.
///
/// Calls `String::from_utf8_lossy`, which decodes valid UTF-8 exactly and
/// replaces invalid sequences with U+FFFD.
#[verifier::external_body]
fn lossy_text(bytes: &[u8]) -> (text: String)
    ensures
        text@ == utf8_lossy(bytes@),
        vstd::utf8::valid_utf8(bytes@) ==> text@ == vstd::utf8::decode_utf8(bytes@),
{
    String::from_utf8_lossy(bytes).into_owned()
}

/// Finds the public address in a chunk of the session's output.
pub fn connection_url(data: &[u8]) -> (scan: UrlScan)
    ensures
        vstd::utf8::valid_utf8(data@) ==> utf8_lossy(data@) == vstd::utf8::decode_utf8(data@),
        scan is Absent <==> (forall|i: int| !scheme_at(utf8_lossy(data@), i)),
        scan matches UrlScan::Found(url) ==> exists|start: int, end: int|
            first_scheme_at(utf8_lossy(data@), start) && first_white_space_from(
                utf8_lossy(data@),
                start,
                end,
            ) && url@ == utf8_lossy(data@).subrange(start, end),
        scan is Unterminated <==> exists|start: int|
            first_scheme_at(utf8_lossy(data@), start) && forall|k: int|
                start <= k < utf8_lossy(data@).len() ==> !is_white_space(
                    #[trigger] utf8_lossy(data@)[k],
                ),
{
    let text = lossy_text(data);
    scan_url(text.as_str())
}


/// Whether to trust the server's key: any key when no fingerprint is expected,
/// otherwise only the key whose SHA-256 fingerprint, as text, is the expected
/// one.
pub fn accept_server_key(expected: &Option<String>, presented: &String) -> (accepted: bool)
    ensures
        accepted == match expected {
            None => true,
            Some(fingerprint) => fingerprint@ == presented@,
        },
{
    match expected {
        None => true,
        Some(fingerprint) => *fingerprint == *presented,
    }
}

/// How the tunnel logs in.
#[derive(PartialEq, Eq, Structural, Clone, Copy, Debug)]
pub enum LoginMethod {
    /// With a password issued by the signalling server.
    Password,
    /// With a private key.
    Key,
}

/// The result of a login attempt that the server answered: success, or the
/// error that ends the attempt.
pub fn login_outcome(method: LoginMethod, accepted: bool) -> (outcome: Result<(), String>)
    ensures
        accepted <==> outcome is Ok,
        outcome matches Err(message) ==> message@ == match method {
            LoginMethod::Password => "Password authentication failed."@,
            LoginMethod::Key => "Key authentication failed."@,
        },
{
    if accepted {
        Ok(())
    } else {
        let mut message = String::new();
        match method {
            LoginMethod::Password => message.append("Password authentication failed."),
            LoginMethod::Key => message.append("Key authentication failed."),
        }
        Err(message)
    }
}

/// A message of the tunnel's session channel.
#[derive(Debug)]
pub enum ChannelEvent {
    /// Output of the remote session.
    Data(Vec<u8>),
    /// Extended output of the remote session; `description` is how the message
    /// prints when it is not understood.
    ExtendedData { data: Vec<u8>, ext: u32, description: String },
    /// A request succeeded.
    Success,
    /// The channel closed.
    Close,
    /// The remote session exited.
    ExitStatus(u32),
    /// Any other message, as it prints.
    Other(String),
    /// The channel ended without closing.
    Ended,
}

/// What to do while the channel goes on.
#[derive(Debug)]
pub enum ChannelAction {
    /// Tell the game its public address.
    AnnounceUrl(String),
    /// Copy these bytes to standard output.
    EchoOut(Vec<u8>),
    /// Copy these bytes to standard error.
    EchoErr(Vec<u8>),
}

/// The outcome of one channel message.
#[derive(Debug)]
pub enum ChannelStep {
    /// Perform the actions, in order, and wait for the next message.
    Continue(Vec<ChannelAction>),
    /// The forwarding ends with this exit code, after sending end-of-file on the
    /// channel when `send_eof` holds.
    Exit { code: u32, send_eof: bool },
    /// The forwarding fails with this error.
    Fail(String),
    /// The output named a public address that never ends.
    UnterminatedUrl,
}

/// Decides what to do with one message of the session channel.
pub fn channel_step(event: ChannelEvent) -> (step: ChannelStep)
    ensures
        match event {
            ChannelEvent::Data(data) => {
                let scan_text = utf8_lossy(data@);
                &&& vstd::utf8::valid_utf8(data@) ==> scan_text == vstd::utf8::decode_utf8(data@)
                &&& if exists|start: int|
                    first_scheme_at(scan_text, start) && forall|k: int|
                        start <= k < scan_text.len() ==> !is_white_space(#[trigger] scan_text[k]) {
                    step is UnterminatedUrl
                } else {
                    step matches ChannelStep::Continue(actions) && {
                        let echo = if DEBUG { 1int } else { 0int };
                        if forall|i: int| !scheme_at(scan_text, i) {
                            &&& actions@.len() == echo
                            &&& DEBUG ==> (actions@[0] matches ChannelAction::EchoOut(out) && out@ == data@)
                        } else {
                            &&& actions@.len() == 1 + echo
                            &&& actions@[0] matches ChannelAction::AnnounceUrl(url) && exists|start: int, end: int|
                                first_scheme_at(scan_text, start) && first_white_space_from(scan_text, start, end)
                                    && url@ == scan_text.subrange(start, end)
                            &&& DEBUG ==> (actions@[1] matches ChannelAction::EchoOut(out) && out@ == data@)
                        }
                    }
                }
            },
            ChannelEvent::ExtendedData { data, ext, description } => if ext == 1 {
                step matches ChannelStep::Continue(actions) && if DEBUG {
                    actions@.len() == 1 && (actions@[0] matches ChannelAction::EchoErr(out) && out@ == data@)
                } else {
                    actions@.len() == 0
                }
            } else {
                step matches ChannelStep::Fail(message) && message@ == "Unknown message type "@
                    + description@ + "."@
            },
            ChannelEvent::Success => step matches ChannelStep::Continue(actions) && actions@.len() == 0,
            ChannelEvent::Close => step == ChannelStep::Exit { code: 0, send_eof: false },
            ChannelEvent::ExitStatus(code) => step == ChannelStep::Exit { code, send_eof: true },
            ChannelEvent::Other(description) => step matches ChannelStep::Fail(message) && message@
                == "Unknown message type "@ + description@ + "."@,
            ChannelEvent::Ended => step matches ChannelStep::Fail(message) && message@
                == "Unexpected end of channel."@,
        },
{
    match event {
        ChannelEvent::Data(data) => {
            let mut actions: Vec<ChannelAction> = Vec::new();
            match connection_url(data.as_slice()) {
                UrlScan::Unterminated => {
                    return ChannelStep::UnterminatedUrl;
                },
                UrlScan::Found(url) => {
                    actions.push(ChannelAction::AnnounceUrl(url));
                },
                UrlScan::Absent => {},
            }
            if DEBUG {
                actions.push(ChannelAction::EchoOut(data));
            }
            ChannelStep::Continue(actions)
        },
        ChannelEvent::ExtendedData { data, ext, description } => {
            if ext == 1 {
                let mut actions: Vec<ChannelAction> = Vec::new();
                if DEBUG {
                    actions.push(ChannelAction::EchoErr(data));
                }
                ChannelStep::Continue(actions)
            } else {
                ChannelStep::Fail(unknown_message(description.as_str()))
            }
        },
        ChannelEvent::Success => ChannelStep::Continue(Vec::new()),
        ChannelEvent::Close => ChannelStep::Exit { code: 0, send_eof: false },
        ChannelEvent::ExitStatus(code) => ChannelStep::Exit { code, send_eof: true },
        ChannelEvent::Other(description) => ChannelStep::Fail(unknown_message(description.as_str())),
        ChannelEvent::Ended => {
            let mut message = String::new();
            message.append("Unexpected end of channel.");
            ChannelStep::Fail(message)
        },
    }
}

/// The error for a channel message that is not understood.
fn unknown_message(description: &str) -> (message: String)
    ensures
        message@ == "Unknown message type "@ + description@ + "."@,
{
    let mut message = String::new();
    message.append("Unknown message type ");
    message.append(description);
    message.append(".");
    message
}


/// An announced address starts with `https://` and holds no white space.
pub proof fn lemma_found_url_shape(s: Seq<char>, start: int, end: int)
    requires
        first_scheme_at(s, start),
        first_white_space_from(s, start, end),
    ensures
        end >= start + 8,
        s.subrange(start, end).subrange(0, 8) == url_scheme(),
        forall|k: int| 0 <= k < end - start ==> !is_white_space(#[trigger] s.subrange(start, end)[k]),
{
    if end < start + 8 {
        assert(s[end] == s.subrange(start, start + 8)[end - start]);
        assert(s[end] == url_scheme()[end - start]);
    }
    assert(s.subrange(start, end).subrange(0, 8) =~= s.subrange(start, start + 8));
    assert forall|k: int| 0 <= k < end - start implies !is_white_space(#[trigger] s.subrange(start, end)[k]) by {
        assert(s.subrange(start, end)[k] == s[start + k]);
    }
}

} // verus!
