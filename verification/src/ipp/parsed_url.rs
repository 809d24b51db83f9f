//! Parsed URLs. A `ParsedUrl` is built only here, by the trusted calls into
//! the `url` crate, so the URL it holds and the parts its view gives always
//! belong together.
use vstd::prelude::*;

verus! {

#[verifier::external_type_specification]
#[verifier::external_body]
pub struct ExUrl(reqwest::Url);

#[verifier::external_type_specification]
#[verifier::external_body]
pub struct ExUrlParseError(url::ParseError);

/// A parsed URL together with the parts of it that the client reads: its
/// serialization, whether it has a host, and its explicit port.
#[derive(Debug)]
pub struct ParsedUrl {
    url: reqwest::Url,
    serialization: String,
    has_host: bool,
    port: Option<u16>,
}

impl View for ParsedUrl {
    type V = (Seq<char>, bool, Option<u16>);

    closed spec fn view(&self) -> (Seq<char>, bool, Option<u16>) {
        (self.serialization@, self.has_host, self.port)
    }
}

impl ParsedUrl {
    /// The URL that this value holds, whose parts its view gives.
    pub closed spec fn held_url(&self) -> reqwest::Url {
        self.url
    }

    /// The URL's text.
    pub fn as_str(&self) -> (r: &str)
        ensures
            r@ == self@.0,
    {
        self.serialization.as_str()
    }

    /// Whether the URL has a host.
    pub fn has_host(&self) -> (r: bool)
        ensures
            r == self@.1,
    {
        self.has_host
    }

    /// The URL's explicit port, if it gives one.
    pub fn port(&self) -> (r: Option<u16>)
        ensures
            r == self@.2,
    {
        self.port
    }

    /// The URL itself.
    pub fn url(&self) -> (r: &reqwest::Url)
        ensures
            *r == self.held_url(),
    {
        &self.url
    }
}

/// What `reqwest::Url::parse` (the `url` crate's `Url::parse`) makes of a
/// text: its serialization, whether it has a host, and its explicit port;
/// `None` where the text is refused.
pub uninterp spec fn url_parse_parts(input: Seq<char>) -> Option<(Seq<char>, bool, Option<u16>)>;

/// What `Url::set_port` makes of the URL with the given serialization
/// when it sets the given port; `None` where it refuses.
pub uninterp spec fn url_set_port_parts(serialization: Seq<char>, port: u16) -> Option<
    (Seq<char>, bool, Option<u16>),
>;

/// Parses a URL.
///
/// Trusted: calls `reqwest::Url::parse` (that is, `url::Url::parse`) and
/// reads the result's serialization, `host().is_some()` and `port()`. The
/// outcome is named by `url_parse_parts`, a function of the text alone; the
/// error value is the parser's and is not stated.
#[verifier::external_body]
pub(crate) fn url_parse(input: &str) -> (r: Result<ParsedUrl, url::ParseError>)
    ensures
        r is Ok <==> url_parse_parts(input@) is Some,
        r matches Ok(p) ==> url_parse_parts(input@) == Some(p@),
{
    match reqwest::Url::parse(input) {
        Ok(url) => Ok(
            ParsedUrl {
                serialization: url.as_str().to_string(),
                has_host: url.host().is_some(),
                port: url.port(),
                url,
            },
        ),
        Err(e) => Err(e),
    }
}

/// Whether `port` is the default port of some scheme that the `url` crate
/// knows (80 for `http` and `ws`, 443 for `https` and `wss`, 21 for `ftp`).
pub open spec fn is_known_default_port(port: u16) -> bool {
    port == 80 || port == 443 || port == 21
}

/// Sets the port of a URL.
///
/// Trusted: calls `Url::set_port(Some(port))` and reads the URL's parts
/// again. A `Url` is determined by its serialization, so the outcome is named
/// by `url_set_port_parts` over the serialization and the port. On refusal
/// the source returns before changing anything. The source refuses a URL
/// without a host and keeps the host; the port becomes the given one, or
/// none where it is the scheme's default port.
#[verifier::external_body]
pub(crate) fn url_set_port(p: &mut ParsedUrl, port: u16) -> (r: Result<(), ()>)
    ensures
        r is Ok <==> url_set_port_parts(old(p)@.0, port) is Some,
        r is Ok ==> url_set_port_parts(old(p)@.0, port) == Some(final(p)@),
        r is Err ==> final(p)@ == old(p)@,
        r is Ok ==> old(p)@.1 && final(p)@.1,
        r is Ok ==> (final(p)@.2 == Some(port) || (final(p)@.2 is None && is_known_default_port(
            port,
        ))),
{
    let r = p.url.set_port(Some(port));
    p.serialization = p.url.as_str().to_string();
    p.has_host = p.url.host().is_some();
    p.port = p.url.port();
    r
}

/// The message of a URL parser's error.
///
/// Trusted: calls `to_string` through `url::ParseError`'s `Display`; the
/// text is the parser's and is not stated.
#[verifier::external_body]
pub(crate) fn parse_error_message(e: &url::ParseError) -> String {
    e.to_string()
}

} // verus!
