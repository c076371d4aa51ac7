use http_client::uri::{Authority, InvalidComponent, InvalidParts, Parts, PathAndQuery, Scheme, Uri};

fn parts(scheme: Option<&str>, authority: Option<&str>, path: Option<&str>) -> Parts {
    Parts {
        scheme: scheme.map(|s| Scheme::parse(s).unwrap()),
        authority: authority.map(|s| Authority::parse(s).unwrap()),
        path_and_query: path.map(|s| PathAndQuery::parse(s).unwrap()),
    }
}

fn text(uri: &Uri) -> (Option<&str>, Option<&str>, Option<&str>) {
    (
        uri.scheme().map(|s| s.as_str()),
        uri.authority().map(|a| a.as_str()),
        uri.path_and_query().map(|p| p.as_str()),
    )
}

#[test]
fn schemes_are_read() {
    assert_eq!(Scheme::http().as_str(), "http");
    assert_eq!(Scheme::https().as_str(), "https");
    assert_eq!(Scheme::parse("wss").unwrap().as_str(), "wss");
    assert_eq!(Scheme::parse("my+funky.scheme-2~").unwrap().as_str(), "my+funky.scheme-2~");
    assert_eq!(Scheme::parse("").unwrap().as_str(), "");
    assert_eq!(Scheme::parse(&"a".repeat(64)).unwrap().as_str().len(), 64);
}

#[test]
fn schemes_are_refused() {
    assert_eq!(Scheme::parse("my_scheme").unwrap_err(), InvalidComponent);
    assert_eq!(Scheme::parse("http:").unwrap_err(), InvalidComponent);
    assert_eq!(Scheme::parse("h\u{e9}").unwrap_err(), InvalidComponent);
    assert_eq!(Scheme::parse(&"a".repeat(65)).unwrap_err(), InvalidComponent);
}

#[test]
fn schemes_compare_by_letter() {
    assert!(Scheme::https().is("https"));
    assert!(!Scheme::parse("HTTPS").unwrap().is("https"));
    assert!(!Scheme::http().is("https"));
    assert!(Scheme::http().clone().is("http"));
}

#[test]
fn hosts_are_found() {
    let host = |s: &str| Authority::parse(s).unwrap().host();
    assert_eq!(host("example.com"), "example.com");
    assert_eq!(host("example.com:8080"), "example.com");
    assert_eq!(host("user:pass@example.com:8080"), "example.com");
    assert_eq!(host("[::1]:80"), "[::1]");
    assert_eq!(host("user@[2001:db8::1]"), "[2001:db8::1]");
    assert_eq!(host(":80"), "");
}

#[test]
fn ports_are_found() {
    let port = |s: &str| Authority::parse(s).unwrap().port_u16();
    assert_eq!(port("example.com"), None);
    assert_eq!(port("example.com:"), None);
    assert_eq!(port("example.com:443"), Some(443));
    assert_eq!(port("example.com:00080"), Some(80));
    assert_eq!(port("example.com:+81"), Some(81));
    assert_eq!(port("example.com:65535"), Some(65535));
    assert_eq!(port("example.com:65536"), None);
    assert_eq!(port("user:80@example.com"), None);
    assert_eq!(port("[::1]"), None);
    assert_eq!(port("[::1]:8443"), Some(8443));
}

#[test]
fn authorities_are_refused() {
    for s in ["", "user@", "a b", "localhost:8080:3030", "a/b", "[::1", "h%20"] {
        assert_eq!(Authority::parse(s).unwrap_err(), InvalidComponent, "{}", s);
    }
    assert_eq!(Authority::parse("EXAMPLE.com").unwrap().as_str(), "EXAMPLE.com");
}

#[test]
fn paths_are_read() {
    let path = |s: &str| PathAndQuery::parse(s).map(|p| p.as_str().to_string());
    assert_eq!(path("/"), Ok("/".to_string()));
    assert_eq!(path("/a/b?c=d"), Ok("/a/b?c=d".to_string()));
    assert_eq!(path("/a#frag"), Ok("/a".to_string()));
    assert_eq!(path("#frag"), Ok("/".to_string()));
    assert_eq!(path("?q"), Ok("?q".to_string()));
    assert_eq!(path("*"), Ok("*".to_string()));
    assert_eq!(path("a"), Err(InvalidComponent));
    assert_eq!(path(""), Err(InvalidComponent));
    assert_eq!(path("/a b"), Err(InvalidComponent));
    assert_eq!(PathAndQuery::slash().as_str(), "/");
}

#[test]
fn components_go_together() {
    let uri = Uri::from_parts(parts(Some("http"), Some("a.com"), Some("/p?q"))).unwrap();
    assert_eq!(text(&uri), (Some("http"), Some("a.com"), Some("/p?q")));
    assert_eq!(text(&uri.clone()), (Some("http"), Some("a.com"), Some("/p?q")));
    let uri = Uri::from_parts(parts(None, Some("a.com:80"), None)).unwrap();
    assert_eq!(text(&uri), (None, Some("a.com:80"), None));
    let uri = Uri::from_parts(parts(None, None, Some("/p"))).unwrap();
    assert_eq!(text(&uri), (None, None, Some("/p")));
    let uri = Uri::from_parts(parts(None, None, None)).unwrap();
    assert_eq!(text(&uri), (None, None, Some("/")));
    assert_eq!(text(&Uri::default()), (None, None, Some("/")));
}

#[test]
fn components_do_not_go_together() {
    let refused = |s, a, p| Uri::from_parts(parts(s, a, p)).unwrap_err();
    assert_eq!(refused(Some("http"), None, None), InvalidParts);
    assert_eq!(refused(Some("http"), None, Some("/")), InvalidParts);
    assert_eq!(refused(Some("http"), Some("a.com"), None), InvalidParts);
    assert_eq!(refused(None, Some("a.com"), Some("/")), InvalidParts);
}
