//! URLs as the `url` crate parses them, each held with the text it serializes to.
use vstd::prelude::*;

use url::Url;

use crate::connecting::is_session_path;
use crate::text::find_char;

verus! {

/// A parsed URL, as the `url` crate holds it.
#[verifier::external_type_specification]
#[verifier::external_body]
pub struct ExUrl(Url);

/// Cloning a URL, with `<url::Url as Clone>::clone`; nothing is stated of the copy.
pub assume_specification[ <url::Url as std::clone::Clone>::clone ](source: &url::Url) -> url::Url;

/// A URL as the `url` crate holds it, with its text. Only the functions of this module make or
/// change one, and each sets the text to what `url::Url::as_str` gives for the URL.
#[derive(Clone, Debug)]
pub struct ParsedUrl {
    url: Url,
    text: String,
}

impl View for ParsedUrl {
    type V = Seq<char>;

    closed spec fn view(&self) -> Seq<char> {
        self.text@
    }
}

impl ParsedUrl {
    /// The text of the URL.
    pub fn as_str(&self) -> (r: &str)
        ensures
            r@ == self@,
    {
        self.text.as_str()
    }

    /// The URL, as the `url` crate holds it.
    pub fn as_url(&self) -> &Url {
        &self.url
    }

    /// The URL, as the `url` crate holds it, giving up the text.
    pub fn into_url(self) -> Url {
        self.url
    }
}

/// The text of the URL that `url::Url::parse` makes of `text`, or `None` where it refuses it.
pub uninterp spec fn url_parsed(text: Seq<char>) -> Option<Seq<char>>;

/// The text of the URL with text `url` after `url::Url::set_scheme` with `scheme`, or `None`
/// where it refuses the change.
pub uninterp spec fn url_with_scheme(url: Seq<char>, scheme: Seq<char>) -> Option<Seq<char>>;

/// The text of the URL that `url::Url::join` makes of `input` on the URL with text `base`, or
/// `None` where it fails.
pub uninterp spec fn url_joined(base: Seq<char>, input: Seq<char>) -> Option<Seq<char>>;

/// The message, as `Display` writes it, of the error that `url::Url::parse` reports for
/// `text`, where it refuses it.
pub uninterp spec fn url_parse_error_text(text: Seq<char>) -> Seq<char>;

/// The message, as `Display` writes it, of the error that `url::Url::join` reports for `input`
/// on the URL with text `base`, where it fails.
pub uninterp spec fn url_join_error_text(base: Seq<char>, input: Seq<char>) -> Seq<char>;

/// The scheme of a URL's text: what comes before its first `:`.
pub open spec fn url_scheme_of(text: Seq<char>) -> Seq<char> {
    text.take(find_char(text, ':', 0))
}

/// The web schemes `http`, `https`, `ws` and `wss`: special schemes whose URLs have a host.
pub open spec fn is_web_scheme(s: Seq<char>) -> bool {
    s == "http"@ || s == "https"@ || s == "ws"@ || s == "wss"@
}

/// The longest URL text, in characters, on which joining a session path is known to succeed:
/// well below the 4 GB at which the `url` crate gives up.
pub open spec fn join_length_limit() -> nat {
    0x1000_0000
}

/// Parses an absolute URL with `url::Url::parse`. It succeeds exactly where `url_parsed` names a
/// text, and the URL it gives has that text; where it fails, it gives the message of its error,
/// which `url_parse_error_text` names.
#[verifier::external_body]
pub fn parse_url(text: &str) -> (r: Result<ParsedUrl, String>)
    ensures
        r is Ok <==> url_parsed(text@) is Some,
        r matches Ok(u) ==> url_parsed(text@) == Some(u@),
        r matches Err(m) ==> m@ == url_parse_error_text(text@),
{
    match Url::parse(text) {
        Ok(url) => {
            let text = url.as_str().to_string();
            Ok(ParsedUrl { url, text })
        },
        Err(e) => Err(e.to_string()),
    }
}

/// The scheme of a URL, with `url::Url::scheme`: the URL's text before its first `:`.
#[verifier::external_body]
pub fn url_scheme(url: &ParsedUrl) -> (r: String)
    ensures
        r@ == url_scheme_of(url@),
{
    url.url.scheme().to_string()
}

/// Changes the scheme of a URL with `url::Url::set_scheme`, telling whether it accepted the
/// change, which it does exactly where `url_with_scheme` names a text; a refused change leaves
/// the URL as it was. A change from one web scheme to another is accepted, and the URL's scheme
/// is then the new one.
#[verifier::external_body]
pub fn set_url_scheme(url: &mut ParsedUrl, scheme: &str) -> (r: bool)
    ensures
        r <==> url_with_scheme(old(url)@, scheme@) is Some,
        r ==> url_with_scheme(old(url)@, scheme@) == Some(final(url)@),
        !r ==> final(url)@ == old(url)@,
        is_web_scheme(url_scheme_of(old(url)@)) && is_web_scheme(scheme@) ==> r
            && url_scheme_of(final(url)@) == scheme@,
{
    let accepted = url.url.set_scheme(scheme).is_ok();
    url.text = url.url.as_str().to_string();
    accepted
}

/// Resolves `input` against the URL `base` with `url::Url::join`. It succeeds exactly where
/// `url_joined` names a text, and the URL it gives has that text; where it fails, it gives the
/// message of its error, which `url_join_error_text` names. Joining a session path onto a `ws`
/// or `wss` URL shorter than `join_length_limit` succeeds.
#[verifier::external_body]
pub fn join_url(base: &ParsedUrl, input: &str) -> (r: Result<ParsedUrl, String>)
    ensures
        r is Ok <==> url_joined(base@, input@) is Some,
        r matches Ok(u) ==> url_joined(base@, input@) == Some(u@),
        r matches Err(m) ==> m@ == url_join_error_text(base@, input@),
        (url_scheme_of(base@) == "ws"@ || url_scheme_of(base@) == "wss"@) && is_session_path(
            input@,
        ) && base@.len() < join_length_limit() ==> r is Ok,
{
    match base.url.join(input) {
        Ok(url) => {
            let text = url.as_str().to_string();
            Ok(ParsedUrl { url, text })
        },
        Err(e) => Err(e.to_string()),
    }
}

} // verus!
