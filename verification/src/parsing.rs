//! Parsing the text frames that a Screeps SockJS socket receives.
use vstd::prelude::*;

use crate::channel_update::{update_from_text, ChannelUpdate, ChannelUpdateView};
use crate::commands::Token;
use crate::decimal::{parse_unsigned, parse_unsigned_chars};
use crate::json::{
    json_close_frame, json_decode_close_frame, json_decode_string, json_decode_string_list,
    json_string_list, json_string_value,
};
use crate::text::{chars_of, has_prefix, segment_equals, starts_with, string_of};

verus! {

/// A SockJS parse error.
#[derive(Debug)]
#[non_exhaustive]
pub enum ParseError {
    /// Some error occurred.
    Other(String),
    /// The JSON inside a frame could not be decoded.
    Serde {
        /// Error description
        error_desc: &'static str,
        /// Full string being parsed.
        full_string: String,
        /// Inner error
        err: serde_json::Error,
    },
}

/// The abstract value of a `ParseError`: its texts (the inner JSON error is left out).
pub enum ParseErrorView {
    Other(Seq<char>),
    Serde { error_desc: Seq<char>, full_string: Seq<char> },
}

impl View for ParseError {
    type V = ParseErrorView;

    open spec fn view(&self) -> ParseErrorView {
        match self {
            ParseError::Other(s) => ParseErrorView::Other(s@),
            ParseError::Serde { error_desc, full_string, .. } => ParseErrorView::Serde {
                error_desc: error_desc@,
                full_string: full_string@,
            },
        }
    }
}

impl ParseError {
    /// Creates a serde parse error.
    pub fn serde(desc: &'static str, string: String, error: serde_json::Error) -> (r: Self)
        ensures
            r matches ParseError::Serde { error_desc, full_string, .. } && error_desc == desc
                && full_string == string,
    {
        ParseError::Serde { error_desc: desc, full_string: string, err: error }
    }

    /// The JSON error underneath, for an error in a frame's JSON.
    pub fn cause(&self) -> (r: Option<&serde_json::Error>)
        ensures
            match self {
                ParseError::Other(_) => r is None,
                ParseError::Serde { err, .. } => r == Some(err),
            },
    {
        match self {
            ParseError::Other(_) => None,
            ParseError::Serde { err, .. } => Some(err),
        }
    }

    /// A short description of the kind of error.
    pub fn description(&self) -> (r: &str)
        ensures
            match self {
                ParseError::Other(_) => r@ == "a parsing error occurred"@,
                ParseError::Serde { error_desc, .. } => r@ == error_desc@,
            },
    {
        match self {
            ParseError::Other(_) => "a parsing error occurred",
            ParseError::Serde { error_desc, .. } => error_desc,
        }
    }
}

/// The text of a `serde_json` error, from its `Display`; what it holds is not described here.
#[verifier::external_body]
fn json_error_text(e: &serde_json::Error) -> (r: String) {
    e.to_string()
}

/// The message of a parse error, given the text of its inner JSON error.
pub open spec fn parse_error_message(e: ParseErrorView, err_text: Seq<char>) -> Seq<char> {
    match e {
        ParseErrorView::Other(s) => "parse error: "@ + s,
        ParseErrorView::Serde { error_desc, full_string } => "error parsing `"@ + full_string
            + "`: "@ + error_desc + ": "@ + err_text,
    }
}

impl ParseError {
    /// The error's message: `parse error: ` and the text of an `Other` error, or the text
    /// parsed, the description and the inner JSON error's own message.
    pub fn to_string(&self) -> (r: String)
        ensures
            match self@ {
                ParseErrorView::Other(s) => r@ == parse_error_message(self@, Seq::empty()),
                ParseErrorView::Serde { .. } => exists|t: Seq<char>|
                    r@ == parse_error_message(self@, t),
            },
    {
        let mut out = String::new();
        match self {
            ParseError::Other(s) => {
                out.push_str("parse error: ");
                out.push_str(s.as_str());
                assert(out@ =~= parse_error_message(self@, Seq::empty()));
            },
            ParseError::Serde { error_desc, full_string, err } => {
                let t = json_error_text(err);
                out.push_str("error parsing `");
                out.push_str(full_string.as_str());
                out.push_str("`: ");
                out.push_str(error_desc);
                out.push_str(": ");
                out.push_str(t.as_str());
                assert(out@ =~= parse_error_message(self@, t@));
            },
        }
        out
    }
}

/// A message that the server sent inside a SockJS frame.
#[derive(Clone, Debug)]
pub enum ScreepsMessage {
    /// Authentication failed.
    AuthFailed,
    /// Authentication successful!
    AuthOk {
        /// The new token to store.
        new_token: Token,
    },
    /// On initial connection, the server reports its own time.
    ServerTime {
        /// The server time.
        time: u64,
    },
    /// On initial connection, the server reports a protocol version.
    ServerProtocol {
        /// The protocol version.
        protocol: u32,
    },
    /// On initial connection, the server reports a "package" number.
    ServerPackage {
        /// The package number.
        package: u32,
    },
    /// An update on one of the channels.
    ChannelUpdate {
        /// The update.
        update: ChannelUpdate,
    },
    /// Another kind of message.
    Other(String),
}

/// The abstract value of a `ScreepsMessage`.
pub enum ScreepsMessageView {
    AuthFailed,
    AuthOk { new_token: Seq<char> },
    ServerTime { time: u64 },
    ServerProtocol { protocol: u32 },
    ServerPackage { package: u32 },
    ChannelUpdate { update: ChannelUpdateView },
    Other(Seq<char>),
}

impl View for ScreepsMessage {
    type V = ScreepsMessageView;

    open spec fn view(&self) -> ScreepsMessageView {
        match self {
            ScreepsMessage::AuthFailed => ScreepsMessageView::AuthFailed,
            ScreepsMessage::AuthOk { new_token } => ScreepsMessageView::AuthOk {
                new_token: new_token@,
            },
            ScreepsMessage::ServerTime { time } => ScreepsMessageView::ServerTime { time: *time },
            ScreepsMessage::ServerProtocol { protocol } => ScreepsMessageView::ServerProtocol {
                protocol: *protocol,
            },
            ScreepsMessage::ServerPackage { package } => ScreepsMessageView::ServerPackage {
                package: *package,
            },
            ScreepsMessage::ChannelUpdate { update } => ScreepsMessageView::ChannelUpdate {
                update: update@,
            },
            ScreepsMessage::Other(s) => ScreepsMessageView::Other(s@),
        }
    }
}

/// A message that is not one of the fixed server notices: a channel update when it forms one,
/// otherwise the text as is.
pub open spec fn update_or_other(m: Seq<char>) -> ScreepsMessageView {
    match update_from_text(m) {
        Some(u) => ScreepsMessageView::ChannelUpdate { update: u },
        None => ScreepsMessageView::Other(m),
    }
}

/// The message that the text `m` (the payload of a SockJS message frame) denotes.
pub open spec fn screeps_message_of(m: Seq<char>) -> ScreepsMessageView {
    if starts_with(m, "auth "@) {
        if starts_with(m.subrange(5, m.len() as int), "ok "@) {
            ScreepsMessageView::AuthOk { new_token: m.subrange(8, m.len() as int) }
        } else {
            ScreepsMessageView::AuthFailed
        }
    } else if starts_with(m, "time "@) {
        match parse_unsigned(m.subrange(5, m.len() as int), u64::MAX as nat) {
            Some(v) => ScreepsMessageView::ServerTime { time: v as u64 },
            None => update_or_other(m),
        }
    } else if starts_with(m, "protocol "@) {
        match parse_unsigned(m.subrange(9, m.len() as int), u32::MAX as nat) {
            Some(v) => ScreepsMessageView::ServerProtocol { protocol: v as u32 },
            None => update_or_other(m),
        }
    } else if starts_with(m, "package "@) {
        match parse_unsigned(m.subrange(8, m.len() as int), u32::MAX as nat) {
            Some(v) => ScreepsMessageView::ServerPackage { package: v as u32 },
            None => update_or_other(m),
        }
    } else {
        update_or_other(m)
    }
}

/// The server's greetings read back the number they carry: `time` followed by the decimal text
/// of any `u64` (the server's time in milliseconds) is that time, and `protocol` or `package`
/// followed by the decimal text of any `u32` is that protocol version or package number.
pub proof fn lemma_server_greetings(t: u64, n: u32)
    ensures
        screeps_message_of("time "@ + crate::decimal::decimal_text(t as nat))
            == (ScreepsMessageView::ServerTime { time: t }),
        screeps_message_of("protocol "@ + crate::decimal::decimal_text(n as nat))
            == (ScreepsMessageView::ServerProtocol { protocol: n }),
        screeps_message_of("package "@ + crate::decimal::decimal_text(n as nat))
            == (ScreepsMessageView::ServerPackage { package: n }),
{
    reveal_strlit("auth ");
    reveal_strlit("time ");
    reveal_strlit("protocol ");
    reveal_strlit("package ");
    crate::decimal::lemma_parse_decimal_text(t as nat, u64::MAX as nat);
    crate::decimal::lemma_parse_decimal_text(n as nat, u32::MAX as nat);
    let dt = crate::decimal::decimal_text(t as nat);
    let dn = crate::decimal::decimal_text(n as nat);
    let a = "time "@ + dt;
    assert(a.take(5) =~= "time "@);
    assert(a.subrange(5, a.len() as int) =~= dt);
    assert(!starts_with(a, "auth "@)) by {
        if starts_with(a, "auth "@) {
            assert(a.take(5)[0] == "auth "@[0]);
        }
    }
    let b = "protocol "@ + dn;
    assert(b.take(9) =~= "protocol "@);
    assert(b.subrange(9, b.len() as int) =~= dn);
    assert(!starts_with(b, "auth "@)) by {
        if starts_with(b, "auth "@) {
            assert(b.take(5)[0] == "auth "@[0]);
        }
    }
    assert(!starts_with(b, "time "@)) by {
        if starts_with(b, "time "@) {
            assert(b.take(5)[0] == "time "@[0]);
        }
    }
    let c = "package "@ + dn;
    assert(c.take(8) =~= "package "@);
    assert(c.subrange(8, c.len() as int) =~= dn);
    assert(!starts_with(c, "auth "@)) by {
        if starts_with(c, "auth "@) {
            assert(c.take(5)[0] == "auth "@[0]);
        }
    }
    assert(!starts_with(c, "time "@)) by {
        if starts_with(c, "time "@) {
            assert(c.take(5)[0] == "time "@[0]);
        }
    }
    assert(!starts_with(c, "protocol "@)) by {
        if starts_with(c, "protocol "@) {
            assert(c.take(9)[1] == "protocol "@[1]);
        }
    }
}

impl ScreepsMessage {
    /// Parses the payload of a SockJS message frame into a meaningful message. Text that is
    /// not in any of the expected formats becomes `ScreepsMessage::Other`.
    pub fn parse(message: &str) -> (r: ScreepsMessage)
        ensures
            r@ == screeps_message_of(message@),
    {
        let cs = chars_of(message);
        let n = cs.len();
        proof {
            reveal_strlit("auth ");
            reveal_strlit("ok ");
            reveal_strlit("time ");
            reveal_strlit("protocol ");
            reveal_strlit("package ");
        }
        if has_prefix(cs.as_slice(), "auth ") {
            let is_ok = n >= 8 && segment_equals(cs.as_slice(), 5, 8, "ok ");
            proof {
                let rest = message@.subrange(5, n as int);
                if n >= 8 {
                    assert(rest.take(3) =~= cs@.subrange(5, 8));
                }
            }
            if is_ok {
                return ScreepsMessage::AuthOk { new_token: string_of(cs.as_slice(), 8, n) };
            } else {
                return ScreepsMessage::AuthFailed;
            }
        } else if has_prefix(cs.as_slice(), "time ") {
            if let Some(v) = parse_unsigned_chars(cs.as_slice(), 5, n, u64::MAX) {
                return ScreepsMessage::ServerTime { time: v };
            }
        } else if has_prefix(cs.as_slice(), "protocol ") {
            if let Some(v) = parse_unsigned_chars(cs.as_slice(), 9, n, u32::MAX as u64) {
                return ScreepsMessage::ServerProtocol { protocol: v as u32 };
            }
        } else if has_prefix(cs.as_slice(), "package ") {
            if let Some(v) = parse_unsigned_chars(cs.as_slice(), 8, n, u32::MAX as u64) {
                return ScreepsMessage::ServerPackage { package: v as u32 };
            }
        }
        match ChannelUpdate::parse(message) {
            Some(update) => ScreepsMessage::ChannelUpdate { update },
            None => ScreepsMessage::Other(message.to_owned()),
        }
    }
}

/// Result of parsing a raw SockJS frame.
#[derive(Clone, Debug)]
pub enum SockjsMessage {
    /// The session was opened.
    Open,
    /// Heartbeat
    Heartbeat,
    /// Close
    Close {
        /// Close code
        code: i64,
        /// Close reason
        reason: String,
    },
    /// Single message
    Message(ScreepsMessage),
    /// Multiple messages
    Messages(Vec<ScreepsMessage>),
}

/// The abstract value of a `SockjsMessage`.
pub enum SockjsMessageView {
    Open,
    Heartbeat,
    Close { code: i64, reason: Seq<char> },
    Message(ScreepsMessageView),
    Messages(Seq<ScreepsMessageView>),
}

impl View for SockjsMessage {
    type V = SockjsMessageView;

    open spec fn view(&self) -> SockjsMessageView {
        match self {
            SockjsMessage::Open => SockjsMessageView::Open,
            SockjsMessage::Heartbeat => SockjsMessageView::Heartbeat,
            SockjsMessage::Close { code, reason } => SockjsMessageView::Close {
                code: *code,
                reason: reason@,
            },
            SockjsMessage::Message(m) => SockjsMessageView::Message(m@),
            SockjsMessage::Messages(ms) => SockjsMessageView::Messages(message_views(ms@)),
        }
    }
}

/// The abstract values of a sequence of messages.
pub open spec fn message_views(v: Seq<ScreepsMessage>) -> Seq<ScreepsMessageView> {
    v.map_values(|m: ScreepsMessage| m@)
}

/// The messages that the texts `l` denote, one for each.
pub open spec fn parse_all(l: Seq<Seq<char>>) -> Seq<ScreepsMessageView> {
    l.map_values(|s: Seq<char>| screeps_message_of(s))
}

/// The abstract value of a parse result.
pub open spec fn sockjs_result_view(r: Result<SockjsMessage, ParseError>) -> Result<
    SockjsMessageView,
    ParseErrorView,
> {
    match r {
        Ok(m) => Ok(m@),
        Err(e) => Err(e@),
    }
}

/// The result of parsing the raw SockJS frame `m`: the first character says what kind of frame
/// it is, the rest holds JSON data.
pub open spec fn sockjs_message_of(m: Seq<char>) -> Result<SockjsMessageView, ParseErrorView> {
    if m.len() == 0 {
        Ok(SockjsMessageView::Messages(Seq::empty()))
    } else {
        let rest = m.subrange(1, m.len() as int);
        if m[0] == 'o' {
            Ok(SockjsMessageView::Open)
        } else if m[0] == 'h' {
            Ok(SockjsMessageView::Heartbeat)
        } else if m[0] == 'c' {
            match json_close_frame(rest) {
                Some((code, reason)) => Ok(SockjsMessageView::Close { code, reason }),
                None => Err(
                    ParseErrorView::Serde {
                        error_desc: "error parsing closed json message"@,
                        full_string: rest,
                    },
                ),
            }
        } else if m[0] == 'm' {
            match json_string_value(rest) {
                Some(s) => Ok(SockjsMessageView::Message(screeps_message_of(s))),
                None => Err(
                    ParseErrorView::Serde {
                        error_desc: "error parsing single message"@,
                        full_string: rest,
                    },
                ),
            }
        } else if m[0] == 'a' {
            match json_string_list(rest) {
                Some(l) => Ok(SockjsMessageView::Messages(parse_all(l))),
                None => Err(
                    ParseErrorView::Serde {
                        error_desc: "error parsing array of messages"@,
                        full_string: rest,
                    },
                ),
            }
        } else {
            Err(
                ParseErrorView::Other(
                    "Error parsing message, unknown start character: "@ + seq![m[0]]
                        + " (full message: "@ + m + ")"@,
                ),
            )
        }
    }
}

impl SockjsMessage {
    /// Parses an incoming raw websocket message on a Screeps SockJS socket.
    pub fn parse(message: &str) -> (r: Result<SockjsMessage, ParseError>)
        ensures
            sockjs_result_view(r) == sockjs_message_of(message@),
    {
        let cs = chars_of(message);
        let n = cs.len();
        if n == 0 {
            let v: Vec<ScreepsMessage> = Vec::new();
            assert(message_views(v@) =~= Seq::<ScreepsMessageView>::empty());
            return Ok(SockjsMessage::Messages(v));
        }
        let first = cs[0];
        if first == 'o' {
            return Ok(SockjsMessage::Open);
        } else if first == 'h' {
            return Ok(SockjsMessage::Heartbeat);
        }
        let rest = string_of(cs.as_slice(), 1, n);
        if first == 'c' {
            match json_decode_close_frame(rest.as_str()) {
                Ok((code, reason)) => Ok(SockjsMessage::Close { code, reason }),
                Err(e) => Err(ParseError::serde("error parsing closed json message", rest, e)),
            }
        } else if first == 'm' {
            match json_decode_string(rest.as_str()) {
                Ok(inner) => Ok(SockjsMessage::Message(ScreepsMessage::parse(inner.as_str()))),
                Err(e) => Err(ParseError::serde("error parsing single message", rest, e)),
            }
        } else if first == 'a' {
            match json_decode_string_list(rest.as_str()) {
                Ok(list) => {
                    let ghost l = list@.map_values(|s: String| s@);
                    let mut messages: Vec<ScreepsMessage> = Vec::new();
                    let mut i: usize = 0;
                    while i < list.len()
                        invariant
                            i <= list@.len(),
                            messages@.len() == i,
                            l == list@.map_values(|s: String| s@),
                            message_views(messages@) =~= parse_all(l.take(i as int)),
                        decreases list.len() - i,
                    {
                        let m = ScreepsMessage::parse(list[i].as_str());
                        let ghost before = messages@;
                        messages.push(m);
                        proof {
                            assert(l[i as int] == list@[i as int]@);
                            assert(messages@ == before.push(m));
                            assert forall|j: int| 0 <= j <= i implies message_views(messages@)[j]
                                == parse_all(l.take(i + 1))[j] by {
                                if j < i {
                                    assert(messages@[j] == before[j]);
                                    assert(message_views(before)[j] == parse_all(l.take(i as int))[j]);
                                }
                            }
                        }
                        i += 1;
                        assert(message_views(messages@) =~= parse_all(l.take(i as int)));
                    }
                    assert(l.take(list@.len() as int) =~= l);
                    Ok(SockjsMessage::Messages(messages))
                },
                Err(e) => Err(ParseError::serde("error parsing array of messages", rest, e)),
            }
        } else {
            let mut text = String::new();
            text.push_str("Error parsing message, unknown start character: ");
            text.push(first);
            text.push_str(" (full message: ");
            text.push_str(message);
            text.push_str(")");
            assert(text@ =~= "Error parsing message, unknown start character: "@ + seq![first]
                + " (full message: "@ + message@ + ")"@);
            Err(ParseError::Other(text))
        }
    }
}

} // verus!
