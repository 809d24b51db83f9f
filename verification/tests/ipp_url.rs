use baz_printing::ipp::client::{check_parsed_ipp_url, parse_ipp_url, rewrite_ipp_scheme};
use baz_printing::ipp::errors::IPPClientError;

fn setup_message(r: Result<impl std::fmt::Debug, IPPClientError>) -> String {
    match r {
        Err(IPPClientError::SetupError(m)) => m,
        other => panic!("expected a setup error, got {other:?}"),
    }
}

#[test]
fn ipp_becomes_http_on_port_631() {
    let u = parse_ipp_url("ipp://printer.local/ipp/print").unwrap();
    assert_eq!(u.as_str(), "http://printer.local:631/ipp/print");
    assert_eq!(u.port(), Some(631));
    assert!(u.has_host());
    assert_eq!(u.url().as_str(), "http://printer.local:631/ipp/print");
}

#[test]
fn ipps_becomes_https_and_keeps_an_explicit_port() {
    let u = parse_ipp_url("ipps://192.168.1.20:8631/printers/lp").unwrap();
    assert_eq!(u.as_str(), "https://192.168.1.20:8631/printers/lp");
    assert_eq!(u.port(), Some(8631));
    let u = parse_ipp_url("ipps://host").unwrap();
    assert_eq!(u.as_str(), "https://host:631/");
}

#[test]
fn other_schemes_are_refused() {
    assert_eq!(
        setup_message(parse_ipp_url("http://printer/")),
        "invalid scheme in 'http://printer/': expected ipp or ipps"
    );
    assert_eq!(
        setup_message(parse_ipp_url("IPP://printer/")),
        "invalid scheme in 'IPP://printer/': expected ipp or ipps"
    );
    assert_eq!(setup_message(parse_ipp_url("")), "invalid scheme in '': expected ipp or ipps");
}

#[test]
fn long_urls_are_refused() {
    let long = format!("ipp://h/{}", "a".repeat(1023 - 8));
    assert_eq!(long.len(), 1023);
    assert!(parse_ipp_url(&long).is_ok());
    let too_long = format!("ipp://h/{}", "a".repeat(1024 - 8));
    assert_eq!(setup_message(parse_ipp_url(&too_long)), "IPP URL exceeds 1023 octet limit");
    let wrong_and_long = "x".repeat(2000);
    assert_eq!(setup_message(parse_ipp_url(&wrong_and_long)), "IPP URL exceeds 1023 octet limit");
}

#[test]
fn urls_the_parser_refuses() {
    assert_eq!(setup_message(parse_ipp_url("ipp://")), url::ParseError::EmptyHost.to_string());
    assert_eq!(
        setup_message(parse_ipp_url("ipp://host:99999/")),
        url::ParseError::InvalidPort.to_string()
    );
}

#[test]
fn rewrite_keeps_the_rest_of_the_url() {
    let (s, port) = rewrite_ipp_scheme("ipp://h:1/a?b#c").unwrap();
    assert_eq!(s, "http://h:1/a?b#c");
    assert_eq!(port, 631);
    let (s, _) = rewrite_ipp_scheme("ipps://ünï/").unwrap();
    assert_eq!(s, "https://ünï/");
    assert_eq!(setup_message(rewrite_ipp_scheme("ipp:/h")), "invalid scheme in 'ipp:/h': expected ipp or ipps");
}

#[test]
fn check_of_a_parse_error() {
    assert_eq!(
        setup_message(check_parsed_ipp_url(Err(url::ParseError::EmptyHost), 631)),
        "empty host"
    );
}
