//! Websocket url utilities.
use vstd::prelude::*;

use rand::seq::SliceRandom;
use rand::Rng;

use crate::decimal::{char_from_digit, digit_char};
use crate::parsed_url::{
    join_length_limit, join_url, parse_url, set_url_scheme, url_joined, url_parsed, url_scheme,
    url_parse_error_text, url_scheme_of, url_with_scheme, ParsedUrl,
};
use crate::text::{chars_of, segment_equals};

verus! {

/// Errors that can occur while parsing a URL, as the `url` crate tells them apart.
#[derive(Copy, Clone, Debug, PartialEq, Eq, Structural)]
pub enum UrlParseError {
    /// Empty host.
    EmptyHost,
    /// Invalid international domain name.
    IdnaError,
    /// Invalid port number.
    InvalidPort,
    /// Invalid IPv4 address.
    InvalidIpv4Address,
    /// Invalid IPv6 address.
    InvalidIpv6Address,
    /// Invalid domain character.
    InvalidDomainCharacter,
    /// Relative URL without a base.
    RelativeUrlWithoutBase,
    /// Relative URL with a cannot-be-a-base base.
    RelativeUrlWithCannotBeABaseBase,
    /// A cannot-be-a-base URL doesn't have a host to set.
    SetHostOnCannotBeABaseUrl,
    /// URLs more than 4 GB are not supported.
    Overflow,
    /// An error of a kind that the `url` crate added later.
    Other,
}

/// A number below `bound` from the thread-local random number generator, with
/// `rand::Rng::gen_range`.
#[verifier::external_body]
fn random_below(bound: u32) -> (r: u32)
    requires
        0 < bound,
    ensures
        r < bound,
{
    rand::thread_rng().gen_range(0..bound)
}

/// One of the bytes of `choices`, picked with `rand::seq::SliceRandom::choose` and the
/// thread-local random number generator.
#[verifier::external_body]
fn choose_byte(choices: &[u8]) -> (r: u8)
    requires
        choices@.len() > 0,
    ensures
        choices@.contains(r),
{
    *choices.choose(&mut rand::thread_rng()).unwrap()
}

/// The text that `url::ParseError`'s `Display` writes for a parse error of kind `kind`; `None`
/// for `Other`, which stands for the kinds that the `url` crate may add later. The contract
/// states the text of each kind as the crate's source words it.
#[verifier::external_body]
fn url_parse_error_display(kind: UrlParseError) -> (r: Option<String>)
    ensures
        r is None <==> kind == UrlParseError::Other,
        r matches Some(t) ==> t@ == url_parse_error_message(kind),
{
    let e = match kind {
        UrlParseError::EmptyHost => url::ParseError::EmptyHost,
        UrlParseError::IdnaError => url::ParseError::IdnaError,
        UrlParseError::InvalidPort => url::ParseError::InvalidPort,
        UrlParseError::InvalidIpv4Address => url::ParseError::InvalidIpv4Address,
        UrlParseError::InvalidIpv6Address => url::ParseError::InvalidIpv6Address,
        UrlParseError::InvalidDomainCharacter => url::ParseError::InvalidDomainCharacter,
        UrlParseError::RelativeUrlWithoutBase => url::ParseError::RelativeUrlWithoutBase,
        UrlParseError::RelativeUrlWithCannotBeABaseBase => url::ParseError::RelativeUrlWithCannotBeABaseBase,
        UrlParseError::SetHostOnCannotBeABaseUrl => url::ParseError::SetHostOnCannotBeABaseUrl,
        UrlParseError::Overflow => url::ParseError::Overflow,
        UrlParseError::Other => return None,
    };
    Some(e.to_string())
}

impl UrlParseError {
    /// The message of the error, as the `url` crate's `Display` words it; `URL parse error` for
    /// a kind that this library does not name.
    pub fn message(&self) -> (r: String)
        ensures
            r@ == url_parse_error_message(*self),
    {
        match url_parse_error_display(*self) {
            Some(t) => t,
            None => {
                let mut t = String::new();
                t.push_str("URL parse error");
                t
            },
        }
    }
}

/// The message of each kind of URL parse error.
pub open spec fn url_parse_error_message(e: UrlParseError) -> Seq<char> {
    match e {
        UrlParseError::EmptyHost => "empty host"@,
        UrlParseError::IdnaError => "invalid international domain name"@,
        UrlParseError::InvalidPort => "invalid port number"@,
        UrlParseError::InvalidIpv4Address => "invalid IPv4 address"@,
        UrlParseError::InvalidIpv6Address => "invalid IPv6 address"@,
        UrlParseError::InvalidDomainCharacter => "invalid domain character"@,
        UrlParseError::RelativeUrlWithoutBase => "relative URL without a base"@,
        UrlParseError::RelativeUrlWithCannotBeABaseBase => "relative URL with a cannot-be-a-base base"@,
        UrlParseError::SetHostOnCannotBeABaseUrl => "a cannot-be-a-base URL doesn’t have a host to set"@,
        UrlParseError::Overflow => "URLs more than 4 GB are not supported"@,
        UrlParseError::Other => "URL parse error"@,
    }
}

/// The kind of URL parse error whose message, as the `url` crate words it, is `m`.
pub open spec fn url_parse_error_of_message(m: Seq<char>) -> UrlParseError {
    if m == "empty host"@ {
        UrlParseError::EmptyHost
    } else if m == "invalid international domain name"@ {
        UrlParseError::IdnaError
    } else if m == "invalid port number"@ {
        UrlParseError::InvalidPort
    } else if m == "invalid IPv4 address"@ {
        UrlParseError::InvalidIpv4Address
    } else if m == "invalid IPv6 address"@ {
        UrlParseError::InvalidIpv6Address
    } else if m == "invalid domain character"@ {
        UrlParseError::InvalidDomainCharacter
    } else if m == "relative URL without a base"@ {
        UrlParseError::RelativeUrlWithoutBase
    } else if m == "relative URL with a cannot-be-a-base base"@ {
        UrlParseError::RelativeUrlWithCannotBeABaseBase
    } else if m == "a cannot-be-a-base URL doesn’t have a host to set"@ {
        UrlParseError::SetHostOnCannotBeABaseUrl
    } else if m == "URLs more than 4 GB are not supported"@ {
        UrlParseError::Overflow
    } else {
        UrlParseError::Other
    }
}

/// The message of each kind of URL parse error other than `Other` tells that kind apart: reading
/// the kind back from its message gives the same kind.
pub proof fn lemma_url_parse_error_message(k: UrlParseError)
    requires
        k != UrlParseError::Other,
    ensures
        url_parse_error_of_message(url_parse_error_message(k)) == k,
{
    match k {
        UrlParseError::EmptyHost => {
            reveal_strlit("empty host");
            assert("empty host"@.len() == 10);
        },
        UrlParseError::IdnaError => {
            reveal_strlit("invalid international domain name");
            assert("invalid international domain name"@.len() == 33);
            reveal_strlit("empty host");
            assert("empty host"@.len() == 10);
        },
        UrlParseError::InvalidPort => {
            reveal_strlit("invalid port number");
            assert("invalid port number"@.len() == 19);
            reveal_strlit("empty host");
            assert("empty host"@.len() == 10);
            reveal_strlit("invalid international domain name");
            assert("invalid international domain name"@.len() == 33);
        },
        UrlParseError::InvalidIpv4Address => {
            reveal_strlit("invalid IPv4 address");
            assert("invalid IPv4 address"@.len() == 20);
            reveal_strlit("empty host");
            assert("empty host"@.len() == 10);
            reveal_strlit("invalid international domain name");
            assert("invalid international domain name"@.len() == 33);
            reveal_strlit("invalid port number");
            assert("invalid port number"@.len() == 19);
        },
        UrlParseError::InvalidIpv6Address => {
            reveal_strlit("invalid IPv6 address");
            assert("invalid IPv6 address"@.len() == 20);
            reveal_strlit("empty host");
            assert("empty host"@.len() == 10);
            reveal_strlit("invalid international domain name");
            assert("invalid international domain name"@.len() == 33);
            reveal_strlit("invalid port number");
            assert("invalid port number"@.len() == 19);
            reveal_strlit("invalid IPv4 address");
            assert("invalid IPv4 address"@[11] != "invalid IPv6 address"@[11]);
        },
        UrlParseError::InvalidDomainCharacter => {
            reveal_strlit("invalid domain character");
            assert("invalid domain character"@.len() == 24);
            reveal_strlit("empty host");
            assert("empty host"@.len() == 10);
            reveal_strlit("invalid international domain name");
            assert("invalid international domain name"@.len() == 33);
            reveal_strlit("invalid port number");
            assert("invalid port number"@.len() == 19);
            reveal_strlit("invalid IPv4 address");
            assert("invalid IPv4 address"@.len() == 20);
            reveal_strlit("invalid IPv6 address");
            assert("invalid IPv6 address"@.len() == 20);
        },
        UrlParseError::RelativeUrlWithoutBase => {
            reveal_strlit("relative URL without a base");
            assert("relative URL without a base"@.len() == 27);
            reveal_strlit("empty host");
            assert("empty host"@.len() == 10);
            reveal_strlit("invalid international domain name");
            assert("invalid international domain name"@.len() == 33);
            reveal_strlit("invalid port number");
            assert("invalid port number"@.len() == 19);
            reveal_strlit("invalid IPv4 address");
            assert("invalid IPv4 address"@.len() == 20);
            reveal_strlit("invalid IPv6 address");
            assert("invalid IPv6 address"@.len() == 20);
            reveal_strlit("invalid domain character");
            assert("invalid domain character"@.len() == 24);
        },
        UrlParseError::RelativeUrlWithCannotBeABaseBase => {
            reveal_strlit("relative URL with a cannot-be-a-base base");
            assert("relative URL with a cannot-be-a-base base"@.len() == 41);
            reveal_strlit("empty host");
            assert("empty host"@.len() == 10);
            reveal_strlit("invalid international domain name");
            assert("invalid international domain name"@.len() == 33);
            reveal_strlit("invalid port number");
            assert("invalid port number"@.len() == 19);
            reveal_strlit("invalid IPv4 address");
            assert("invalid IPv4 address"@.len() == 20);
            reveal_strlit("invalid IPv6 address");
            assert("invalid IPv6 address"@.len() == 20);
            reveal_strlit("invalid domain character");
            assert("invalid domain character"@.len() == 24);
            reveal_strlit("relative URL without a base");
            assert("relative URL without a base"@.len() == 27);
        },
        UrlParseError::SetHostOnCannotBeABaseUrl => {
            reveal_strlit("a cannot-be-a-base URL doesn’t have a host to set");
            assert("a cannot-be-a-base URL doesn’t have a host to set"@.len() == 49);
            reveal_strlit("empty host");
            assert("empty host"@.len() == 10);
            reveal_strlit("invalid international domain name");
            assert("invalid international domain name"@.len() == 33);
            reveal_strlit("invalid port number");
            assert("invalid port number"@.len() == 19);
            reveal_strlit("invalid IPv4 address");
            assert("invalid IPv4 address"@.len() == 20);
            reveal_strlit("invalid IPv6 address");
            assert("invalid IPv6 address"@.len() == 20);
            reveal_strlit("invalid domain character");
            assert("invalid domain character"@.len() == 24);
            reveal_strlit("relative URL without a base");
            assert("relative URL without a base"@.len() == 27);
            reveal_strlit("relative URL with a cannot-be-a-base base");
            assert("relative URL with a cannot-be-a-base base"@.len() == 41);
        },
        UrlParseError::Overflow => {
            reveal_strlit("URLs more than 4 GB are not supported");
            assert("URLs more than 4 GB are not supported"@.len() == 37);
            reveal_strlit("empty host");
            assert("empty host"@.len() == 10);
            reveal_strlit("invalid international domain name");
            assert("invalid international domain name"@.len() == 33);
            reveal_strlit("invalid port number");
            assert("invalid port number"@.len() == 19);
            reveal_strlit("invalid IPv4 address");
            assert("invalid IPv4 address"@.len() == 20);
            reveal_strlit("invalid IPv6 address");
            assert("invalid IPv6 address"@.len() == 20);
            reveal_strlit("invalid domain character");
            assert("invalid domain character"@.len() == 24);
            reveal_strlit("relative URL without a base");
            assert("relative URL without a base"@.len() == 27);
            reveal_strlit("relative URL with a cannot-be-a-base base");
            assert("relative URL with a cannot-be-a-base base"@.len() == 41);
            reveal_strlit("a cannot-be-a-base URL doesn’t have a host to set");
            assert("a cannot-be-a-base URL doesn’t have a host to set"@.len() == 49);
        },
        UrlParseError::Other => {},
    }
}

impl UrlParseError {
    /// The kind of URL parse error whose message, as the `url` crate words it, is `message`;
    /// `Other` for a message of a kind the `url` crate added later.
    pub fn from_message(message: &str) -> (r: UrlParseError)
        ensures
            r == url_parse_error_of_message(message@),
    {
        let cs = chars_of(message);
        let n = cs.len();
        assert(cs@.subrange(0, n as int) =~= cs@);
        if segment_equals(&cs, 0, n, "empty host") {
            UrlParseError::EmptyHost
        } else if segment_equals(&cs, 0, n, "invalid international domain name") {
            UrlParseError::IdnaError
        } else if segment_equals(&cs, 0, n, "invalid port number") {
            UrlParseError::InvalidPort
        } else if segment_equals(&cs, 0, n, "invalid IPv4 address") {
            UrlParseError::InvalidIpv4Address
        } else if segment_equals(&cs, 0, n, "invalid IPv6 address") {
            UrlParseError::InvalidIpv6Address
        } else if segment_equals(&cs, 0, n, "invalid domain character") {
            UrlParseError::InvalidDomainCharacter
        } else if segment_equals(&cs, 0, n, "relative URL without a base") {
            UrlParseError::RelativeUrlWithoutBase
        } else if segment_equals(&cs, 0, n, "relative URL with a cannot-be-a-base base") {
            UrlParseError::RelativeUrlWithCannotBeABaseBase
        } else if segment_equals(&cs, 0, n, "a cannot-be-a-base URL doesn’t have a host to set") {
            UrlParseError::SetHostOnCannotBeABaseUrl
        } else if segment_equals(&cs, 0, n, "URLs more than 4 GB are not supported") {
            UrlParseError::Overflow
        } else {
            UrlParseError::Other
        }
    }
}

/// The message of a URL error: what went wrong, and the URL.
pub open spec fn url_error_message(e: UrlError) -> Seq<char> {
    match e {
        UrlError::Parse { err, url } => "URL parse error: "@ + url_parse_error_message(err)
            + " | url: "@ + url@,
        UrlError::WrongScheme { scheme, url } => "expected HTTP or HTTPS url, found "@ + scheme@
            + " | url: "@ + url@,
    }
}

/// Error turning a screeps API url into a websocket url.
#[derive(Clone, Debug)]
pub enum UrlError {
    /// Error parsing the URL.
    Parse {
        /// The parse error.
        err: UrlParseError,
        /// URL that failed to parse.
        url: String,
    },
    /// Found an unexpected scheme, not `http` or `https`.
    WrongScheme {
        /// The scheme that wasn't `http` or `https`.
        scheme: String,
        /// The URL that had this scheme.
        url: ParsedUrl,
    },
}

impl UrlError {
    /// Creates an error given the `ParseError` and url `String`.
    pub fn from_err(error: UrlParseError, url: String) -> (r: Self)
        ensures
            r matches UrlError::Parse { err, url: u } && err == error && u == url,
    {
        UrlError::Parse { err: error, url: url }
    }

    /// Creates an error given the scheme `String` and the parsed url.
    pub fn wrong_scheme(scheme: String, url: ParsedUrl) -> (r: Self)
        ensures
            r matches UrlError::WrongScheme { scheme: s, url: u } && s == scheme && u == url,
    {
        UrlError::WrongScheme { url: url, scheme: scheme }
    }

    /// The error's message: what went wrong, and the URL.
    pub fn to_string(&self) -> (r: String)
        ensures
            r@ == url_error_message(*self),
    {
        let mut out = String::new();
        match self {
            UrlError::Parse { err, url } => {
                out.push_str("URL parse error: ");
                let m = err.message();
                out.push_str(m.as_str());
                out.push_str(" | url: ");
                out.push_str(url.as_str());
            },
            UrlError::WrongScheme { scheme, url } => {
                out.push_str("expected HTTP or HTTPS url, found ");
                out.push_str(scheme.as_str());
                out.push_str(" | url: ");
                out.push_str(url.as_str());
            },
        }
        assert(out@ =~= url_error_message(*self));
        out
    }

    /// The URL parse error underneath, for a URL that did not parse.
    pub fn cause(&self) -> (r: Option<&UrlParseError>)
        ensures
            match self {
                UrlError::Parse { err, .. } => r == Some(err),
                UrlError::WrongScheme { .. } => r is None,
            },
    {
        match self {
            UrlError::Parse { err, .. } => Some(err),
            UrlError::WrongScheme { .. } => None,
        }
    }

    /// A short description of the kind of error.
    pub fn description(&self) -> (r: &'static str)
        ensures
            r@ == url_error_description(*self),
    {
        match self {
            UrlError::Parse { .. } => "expected URL to succeed parsing, but it failed",
            UrlError::WrongScheme { .. } => "expected HTTP or HTTPS url, found a different scheme",
        }
    }
}

/// The description of each kind of `UrlError`.
pub open spec fn url_error_description(e: UrlError) -> Seq<char> {
    match e {
        UrlError::Parse { .. } => "expected URL to succeed parsing, but it failed"@,
        UrlError::WrongScheme { .. } => "expected HTTP or HTTPS url, found a different scheme"@,
    }
}

/// The websocket scheme for an API URL's scheme: `ws` for `http`, `wss` for `https`.
pub open spec fn websocket_scheme_for(scheme: Seq<char>) -> Option<Seq<char>> {
    if scheme == "http"@ {
        Some("ws"@)
    } else if scheme == "https"@ {
        Some("wss"@)
    } else {
        None
    }
}

/// The websocket scheme for an API URL's scheme, or `None` for a scheme other than `http` and
/// `https`.
pub fn websocket_scheme(scheme: &str) -> (r: Option<&'static str>)
    ensures
        match websocket_scheme_for(scheme@) {
            Some(s) => r is Some && r->0@ == s,
            None => r is None,
        },
{
    let cs = chars_of(scheme);
    let n = cs.len();
    assert(cs@.subrange(0, n as int) =~= cs@);
    if segment_equals(&cs, 0, n, "http") {
        Some("ws")
    } else if segment_equals(&cs, 0, n, "https") {
        Some("wss")
    } else {
        None
    }
}

/// Whether `b` is one of the characters that a session id is made of: those that
/// `sockjs-client` picks, `a` to `z` and `0` to `5`.
pub open spec fn is_session_id_char(b: u8) -> bool {
    (97 <= b <= 122) || (48 <= b <= 53)
}

/// `n` written with four decimal digits, zero-padded.
pub open spec fn four_digits(n: nat) -> Seq<char> {
    seq![
        digit_char(n / 1000),
        digit_char((n / 100) % 10),
        digit_char((n / 10) % 10),
        digit_char(n % 10),
    ]
}

/// The relative path of a websocket session: `../socket/`, the server number with four digits,
/// `/`, the session id, and `/websocket`.
pub open spec fn session_path_text(server: nat, session: Seq<u8>) -> Seq<char> {
    "../socket/"@ + four_digits(server) + "/"@ + session.map_values(|b: u8| b as char)
        + "/websocket"@
}

/// Whether `p` is the relative path of a websocket session: a server number below 1000 and 8
/// characters that `sockjs-client` would pick.
pub open spec fn is_session_path(p: Seq<char>) -> bool {
    exists|server: nat, session: Seq<u8>|
        server < 1000 && session.len() == 8 && (forall|i: int|
            0 <= i < 8 ==> is_session_id_char(#[trigger] session[i])) && p == session_path_text(
            server,
            session,
        )
}

/// Builds the relative path of a websocket session from the server number and the session id.
pub fn session_path(server: u32, session: &[u8]) -> (r: String)
    requires
        server < 1000,
    ensures
        r@ == session_path_text(server as nat, session@),
{
    let mut out = String::new();
    out.push_str("../socket/");
    out.push(char_from_digit(server / 1000));
    out.push(char_from_digit((server / 100) % 10));
    out.push(char_from_digit((server / 10) % 10));
    out.push(char_from_digit(server % 10));
    out.push_str("/");
    let ghost before = out@;
    let mut i: usize = 0;
    while i < session.len()
        invariant
            i <= session@.len(),
            out@ == before + session@.take(i as int).map_values(|b: u8| b as char),
        decreases session.len() - i,
    {
        let b = session[i];
        out.push(b as char);
        proof {
            assert(session@.take(i + 1) =~= session@.take(i as int).push(b));
            assert(session@.take(i + 1).map_values(|b: u8| b as char) =~= session@.take(
                i as int,
            ).map_values(|b: u8| b as char).push(b as char));
        }
        i += 1;
    }
    assert(session@.take(i as int) =~= session@);
    out.push_str("/websocket");
    proof {
        reveal_strlit("../socket/");
        reveal_strlit("/");
        reveal_strlit("/websocket");
    }
    assert(out@ =~= session_path_text(server as nat, session@));
    out
}

/// The characters that a session id is made of, `a` to `z` then `0` to `5`.
fn session_id_choices() -> (r: Vec<u8>)
    ensures
        r@.len() == 32,
        forall|b: u8| #[trigger] r@.contains(b) <==> is_session_id_char(b),
{
    let mut r: Vec<u8> = Vec::new();
    let mut k: u8 = 0;
    while k < 26
        invariant
            k <= 26,
            r@.len() == k,
            forall|j: int| 0 <= j < k ==> #[trigger] r@[j] == 97 + j,
        decreases 26 - k,
    {
        r.push(97 + k);
        k += 1;
    }
    k = 0;
    while k < 6
        invariant
            k <= 6,
            r@.len() == 26 + k,
            forall|j: int| 0 <= j < 26 ==> #[trigger] r@[j] == 97 + j,
            forall|j: int| 26 <= j < 26 + k ==> #[trigger] r@[j] == 48 + (j - 26),
        decreases 6 - k,
    {
        r.push(48 + k);
        k += 1;
    }
    assert forall|b: u8| #[trigger] r@.contains(b) <==> is_session_id_char(b) by {
        if is_session_id_char(b) {
            if b >= 97 {
                assert(r@[b - 97] == b);
            } else {
                assert(r@[26 + b - 48] == b);
            }
        }
    }
    r
}

/// A new random session path: a server number below 1000 and 8 characters that
/// `sockjs-client` would pick.
pub fn random_session_path() -> (r: String)
    ensures
        is_session_path(r@),
{
    let valid = session_id_choices();
    let server = random_below(1000);
    let mut session: Vec<u8> = Vec::new();
    let mut i: usize = 0;
    while i < 8
        invariant
            i <= 8,
            session@.len() == i,
            valid@.len() == 32,
            forall|b: u8| #[trigger] valid@.contains(b) <==> is_session_id_char(b),
            forall|j: int| 0 <= j < i ==> is_session_id_char(#[trigger] session@[j]),
        decreases 8 - i,
    {
        let b = choose_byte(valid.as_slice());
        session.push(b);
        i += 1;
    }
    let r = session_path(server, session.as_slice());
    assert(r@ == session_path_text(server as nat, session@));
    r
}

/// The websocket URLs that `transform_url` may give for the API URL `text`: the URL it parses to,
/// with its scheme changed to `ws` for `http` or `wss` for `https`, and a session path joined to
/// it.
pub open spec fn is_websocket_url_for(text: Seq<char>, result: Seq<char>) -> bool {
    exists|path: Seq<char>|
        #![trigger is_session_path(path)]
        is_session_path(path) && match url_parsed(text) {
            Some(t) => match websocket_scheme_for(url_scheme_of(t)) {
                Some(w) => match url_with_scheme(t, w) {
                    Some(t2) => url_joined(t2, path) == Some(result),
                    None => false,
                },
                None => false,
            },
            None => false,
        }
}

/// Whether the API URL `text` parses to an `http` or `https` URL whose websocket form is short
/// enough for the session path to be joined to it.
pub open spec fn websocket_url_owed(text: Seq<char>) -> bool {
    match url_parsed(text) {
        Some(t) => match websocket_scheme_for(url_scheme_of(t)) {
            Some(w) => match url_with_scheme(t, w) {
                Some(t2) => t2.len() < join_length_limit(),
                None => true,
            },
            None => false,
        },
        None => false,
    }
}

/// Method for finding a websocket URL given the screeps API URL.
///
/// This method uses the thread-local `rand` crate rng to come up with a unique
/// session id, and the resulting url should not be reused over multiple connections.
///
/// The input URL should be an API url in the format of `https://screeps.com/api/`.
///
/// A text that does not parse gives `UrlError::Parse`, and a scheme other than `http` and
/// `https` gives `UrlError::WrongScheme` with that scheme. An `http` or `https` URL gives the
/// URL with its scheme changed to `ws` or `wss` and a random session path joined to it; that
/// cannot fail unless the URL is close to the 4 GB that the `url` crate handles, where the
/// join's error is given.
pub fn transform_url(url: &str) -> (r: Result<ParsedUrl, UrlError>)
    ensures
        url_parsed(url@) is None ==> (r matches Err(UrlError::Parse { err, url: u }) && u@ == url@
            && err == url_parse_error_of_message(url_parse_error_text(url@))),
        url_parsed(url@) is Some && websocket_scheme_for(url_scheme_of(url_parsed(url@)->0)) is None
            ==> (r matches Err(UrlError::WrongScheme { scheme, url: u }) && scheme@ == url_scheme_of(
            url_parsed(url@)->0,
        ) && u@ == url_parsed(url@)->0),
        websocket_url_owed(url@) ==> r is Ok,
        r matches Ok(w) ==> is_websocket_url_for(url@, w@),
{
    let mut parsed = match parse_url(url) {
        Ok(v) => v,
        Err(m) => return Err(UrlError::from_err(UrlParseError::from_message(m.as_str()), url.to_string())),
    };
    let ghost t = parsed@;
    let scheme = url_scheme(&parsed);
    let new_scheme = match websocket_scheme(scheme.as_str()) {
        Some(s) => s,
        None => return Err(UrlError::wrong_scheme(scheme, parsed)),
    };
    proof {
        reveal_strlit("ws");
        reveal_strlit("wss");
        reveal_strlit("http");
        reveal_strlit("https");
        assert(new_scheme@ =~= "ws"@ || new_scheme@ =~= "wss"@);
    }
    if !set_url_scheme(&mut parsed, new_scheme) {
        return Err(UrlError::wrong_scheme(new_scheme.to_string(), parsed));
    }
    let ghost t2 = parsed@;
    let path = random_session_path();
    match join_url(&parsed, path.as_str()) {
        Ok(v) => {
            assert(is_session_path(path@));
            assert(url_joined(t2, path@) == Some(v@));
            Ok(v)
        },
        Err(m) => Err(UrlError::from_err(UrlParseError::from_message(m.as_str()), path)),
    }
}

} // verus!
