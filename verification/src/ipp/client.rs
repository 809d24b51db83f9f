//! The printer URL of an IPP client (RFC 8010, section 4; RFC 7472).
//!
//! An `ipp://` or `ipps://` URL names a printer; requests go to it over HTTP
//! or HTTPS, on port 631 unless the URL gives another.
use vstd::prelude::*;

use crate::ipp::errors::IPPClientError;
use crate::ipp::parsed_url::{
    is_known_default_port, parse_error_message, url_parse, url_parse_parts, url_set_port,
    url_set_port_parts, ParsedUrl,
};

verus! {

/// A payload of the Print-Job operation.
pub struct SendPrintJobPayload {
    version: u16,
}

/// Whether `s` begins with `prefix`.
pub open spec fn has_prefix(s: Seq<char>, prefix: Seq<char>) -> bool {
    prefix.len() <= s.len() && s.subrange(0, prefix.len() as int) == prefix
}

/// The HTTP form of an IPP URL: `ipps://rest` becomes `https://rest` and
/// `ipp://rest` becomes `http://rest`; any other scheme has none.
pub open spec fn http_form(raw: Seq<char>) -> Option<Seq<char>> {
    if has_prefix(raw, "ipps://"@) {
        Some("https://"@ + raw.skip("ipps://"@.len() as int))
    } else if has_prefix(raw, "ipp://"@) {
        Some("http://"@ + raw.skip("ipp://"@.len() as int))
    } else {
        None
    }
}

/// The port of IPP, used where the URL gives none.
pub open spec fn ipp_default_port() -> u16 {
    631
}

/// The longest IPP URL, in bytes.
pub open spec fn max_ipp_url_len() -> nat {
    1023
}

/// The message of a URL that is too long.
pub open spec fn too_long_text() -> Seq<char> {
    "IPP URL exceeds 1023 octet limit"@
}

/// The message of a URL whose scheme is neither `ipp` nor `ipps`.
pub open spec fn invalid_scheme_text(raw: Seq<char>) -> Seq<char> {
    "invalid scheme in '"@ + raw + "': expected ipp or ipps"@
}

/// The message of a URL without a host.
pub open spec fn no_host_text() -> Seq<char> {
    "IPP URL must specify a host"@
}

/// The message of a refused default port.
pub open spec fn port_refused_text() -> Seq<char> {
    "failed to set default port"@
}

/// Whether `s` begins with `prefix`.
fn starts_with(s: &str, prefix: &str) -> (b: bool)
    ensures
        b == has_prefix(s@, prefix@),
{
    let n = prefix.unicode_len();
    let m = s.unicode_len();
    if n > m {
        return false;
    }
    let mut i: usize = 0;
    while i < n
        invariant
            n == prefix@.len(),
            m == s@.len(),
            n <= m,
            i <= n,
            forall|j: int| 0 <= j < i ==> s@[j] == prefix@[j],
        decreases n - i,
    {
        if s.get_char(i) != prefix.get_char(i) {
            assert(s@.subrange(0, n as int)[i as int] != prefix@[i as int]);
            return false;
        }
        i = i + 1;
    }
    assert(s@.subrange(0, n as int) =~= prefix@);
    true
}

/// Checks the length of an IPP URL and turns it into its HTTP form, with the
/// port to use where it gives none.
pub fn rewrite_ipp_scheme(raw_url: &str) -> (r: Result<(String, u16), IPPClientError>)
    ensures
        raw_url.len() > max_ipp_url_len() ==> (r matches Err(
            IPPClientError::SetupError(m),
        ) && m@ == too_long_text()),
        raw_url.len() <= max_ipp_url_len() ==> match http_form(raw_url@) {
            Some(h) => (r matches Ok((s, port)) && s@ == h && port == ipp_default_port()),
            None => (r matches Err(IPPClientError::SetupError(m)) && m@ == invalid_scheme_text(
                raw_url@,
            )),
        },
{
    if raw_url.len() > 1023 {
        return Err(IPPClientError::SetupError(String::from_str("IPP URL exceeds 1023 octet limit")));
    }
    if starts_with(raw_url, "ipps://") {
        proof {
            reveal_strlit("ipps://");
        }
        let rest = raw_url.substring_char(7, raw_url.unicode_len());
        let mut s = String::from_str("https://");
        s.append(rest);
        Ok((s, 631))
    } else if starts_with(raw_url, "ipp://") {
        proof {
            reveal_strlit("ipp://");
        }
        let rest = raw_url.substring_char(6, raw_url.unicode_len());
        let mut s = String::from_str("http://");
        s.append(rest);
        Ok((s, 631))
    } else {
        let mut m = String::from_str("invalid scheme in '");
        m.append(raw_url);
        m.append("': expected ipp or ipps");
        Err(IPPClientError::SetupError(m))
    }
}

/// What the client makes of a parsed URL: refused without a host; given
/// `default_port` when it has no explicit port.
pub open spec fn checked_url(parts: (Seq<char>, bool, Option<u16>), default_port: u16) -> Option<
    (Seq<char>, bool, Option<u16>),
> {
    if !parts.1 {
        None
    } else if parts.2 is None {
        url_set_port_parts(parts.0, default_port)
    } else {
        Some(parts)
    }
}

/// Checks a parsed URL: it must have a host, and gets `default_port` when it
/// gives no port.
pub fn check_parsed_ipp_url(parsed: Result<ParsedUrl, url::ParseError>, default_port: u16) -> (r:
    Result<ParsedUrl, IPPClientError>)
    ensures
        parsed is Err ==> r matches Err(IPPClientError::SetupError(_)),
        parsed matches Ok(p) ==> {
            &&& !p@.1 ==> (r matches Err(IPPClientError::SetupError(m)) && m@ == no_host_text())
            &&& p@.1 && p@.2 is None && url_set_port_parts(p@.0, default_port) is None ==> (r matches Err(
                IPPClientError::SetupError(m),
            ) && m@ == port_refused_text())
            &&& checked_url(p@, default_port) matches Some(q) ==> (r matches Ok(u) && u@ == q)
            &&& p@.2 is None && !is_known_default_port(default_port) ==> (r matches Ok(u) ==> u@.2
                == Some(default_port))
        },
        r matches Ok(u) ==> u@.1,
        !is_known_default_port(default_port) ==> (r matches Ok(u) ==> u@.2 is Some),
{
    let mut p = match parsed {
        Ok(p) => p,
        Err(e) => return Err(IPPClientError::SetupError(parse_error_message(&e))),
    };
    if !p.has_host() {
        return Err(IPPClientError::SetupError(String::from_str("IPP URL must specify a host")));
    }
    if p.port().is_none() {
        match url_set_port(&mut p, default_port) {
            Ok(()) => {},
            Err(()) => {
                return Err(
                    IPPClientError::SetupError(String::from_str("failed to set default port")),
                );
            },
        }
    }
    Ok(p)
}

/// The outcome of parsing an IPP URL whose length and scheme are accepted:
/// the parts of the URL the client goes on with, or `None` where it is
/// refused.
pub open spec fn ipp_url_parts(http: Seq<char>) -> Option<(Seq<char>, bool, Option<u16>)> {
    match url_parse_parts(http) {
        Some(parts) => checked_url(parts, ipp_default_port()),
        None => None,
    }
}

/// Parses the URL of an IPP printer: at most 1023 bytes, scheme `ipp` or
/// `ipps`, with a host. The URL goes on in its HTTP form, on port 631 when
/// it gives no port.
pub fn parse_ipp_url(raw_url: &str) -> (r: Result<ParsedUrl, IPPClientError>)
    ensures
        raw_url.len() > max_ipp_url_len() ==> (r matches Err(
            IPPClientError::SetupError(m),
        ) && m@ == too_long_text()),
        raw_url.len() <= max_ipp_url_len() ==> match http_form(raw_url@) {
            None => (r matches Err(IPPClientError::SetupError(m)) && m@ == invalid_scheme_text(
                raw_url@,
            )),
            Some(h) => match ipp_url_parts(h) {
                Some(q) => (r matches Ok(u) && u@ == q),
                None => r matches Err(IPPClientError::SetupError(_)),
            },
        },
        r matches Ok(u) ==> u@.1 && u@.2 is Some,
        r matches Ok(u) ==> (http_form(raw_url@) matches Some(h) && url_parse_parts(h) matches Some(
            parts,
        ) && parts.2 is None ==> u@.2 == Some(ipp_default_port())),
{
    let (http_url, default_port) = rewrite_ipp_scheme(raw_url)?;
    let parsed = url_parse(http_url.as_str());
    check_parsed_ipp_url(parsed, default_port)
}

} // verus!
