use http_client::error::{Error, ErrorKind};
use http_client::forms::{
    absolute_form, authority_form, domain_as_uri, extract_domain, get_non_default_port, host_header,
    is_schema_secure, origin_form, set_scheme, PoolKey,
};
use http_client::uri::{Authority, Parts, PathAndQuery, Scheme, Uri};

fn uri(scheme: Option<&str>, authority: Option<&str>, path: Option<&str>) -> Uri {
    Uri::from_parts(Parts {
        scheme: scheme.map(|s| Scheme::parse(s).unwrap()),
        authority: authority.map(|s| Authority::parse(s).unwrap()),
        path_and_query: path.map(|s| PathAndQuery::parse(s).unwrap()),
    })
    .unwrap()
}

fn absolute(scheme: &str, authority: &str, path: &str) -> Uri {
    uri(Some(scheme), Some(authority), Some(path))
}

fn text(uri: &Uri) -> (Option<&str>, Option<&str>, Option<&str>) {
    (
        uri.scheme().map(|s| s.as_str()),
        uri.authority().map(|a| a.as_str()),
        uri.path_and_query().map(|p| p.as_str()),
    )
}

fn domain(uri: &mut Uri, connect: bool) -> Result<(String, String), Error<()>> {
    extract_domain(uri, connect).map(|key: PoolKey| (key.0.as_str().to_string(), key.1.as_str().to_string()))
}

#[test]
fn origin_form_keeps_the_path() {
    let mut u = absolute("http", "a.com", "/p?q=1");
    origin_form(&mut u);
    assert_eq!(text(&u), (None, None, Some("/p?q=1")));
    origin_form(&mut u);
    assert_eq!(text(&u), (None, None, Some("/p?q=1")));
    let mut u = absolute("https", "a.com", "/");
    origin_form(&mut u);
    assert_eq!(text(&u), (None, None, Some("/")));
    let mut u = uri(None, Some("a.com"), None);
    origin_form(&mut u);
    assert_eq!(text(&u), (None, None, Some("/")));
}

#[test]
fn absolute_form_goes_by_the_scheme() {
    let mut u = absolute("http", "a.com", "/p");
    absolute_form(&mut u);
    assert_eq!(text(&u), (Some("http"), Some("a.com"), Some("/p")));
    let mut u = absolute("https", "a.com", "/p");
    absolute_form(&mut u);
    assert_eq!(text(&u), (None, None, Some("/p")));
    let mut u = absolute("HTTPS", "a.com", "/p");
    absolute_form(&mut u);
    assert_eq!(text(&u), (Some("HTTPS"), Some("a.com"), Some("/p")));
}

#[test]
fn authority_form_keeps_the_authority() {
    let mut u = absolute("http", "u@a.com:81", "/p");
    authority_form(&mut u);
    assert_eq!(text(&u), (None, Some("u@a.com:81"), None));
    authority_form(&mut u);
    assert_eq!(text(&u), (None, Some("u@a.com:81"), None));
}

#[test]
fn domain_of_an_absolute_uri() {
    for connect in [false, true] {
        let mut u = absolute("http", "a.com:443", "/p");
        assert_eq!(domain(&mut u, connect).unwrap(), ("http".to_string(), "a.com:443".to_string()));
        assert_eq!(text(&u), (Some("http"), Some("a.com:443"), Some("/p")));
    }
}

#[test]
fn domain_of_a_tunnel() {
    let mut u = uri(None, Some("a.com:443"), None);
    assert_eq!(domain(&mut u, true).unwrap(), ("https".to_string(), "a.com:443".to_string()));
    assert_eq!(text(&u), (Some("https"), Some("a.com:443"), Some("/")));
    assert_eq!(domain(&mut u, false).unwrap(), ("https".to_string(), "a.com:443".to_string()));
    for authority in ["a.com", "a.com:80", "a.com:8443"] {
        let mut u = uri(None, Some(authority), None);
        assert_eq!(domain(&mut u, true).unwrap(), ("http".to_string(), authority.to_string()));
        assert_eq!(text(&u), (Some("http"), Some(authority), Some("/")));
    }
}

#[test]
fn no_domain() {
    let mut u = uri(None, Some("a.com"), None);
    let err = domain(&mut u, false).unwrap_err();
    assert_eq!(err.kind, ErrorKind::UserAbsoluteUriRequired);
    assert!(err.source().is_none());
    assert_eq!(text(&u), (None, Some("a.com"), None));
    for connect in [false, true] {
        let mut u = uri(None, None, Some("/p"));
        assert_eq!(domain(&mut u, connect).unwrap_err().kind, ErrorKind::UserAbsoluteUriRequired);
        assert_eq!(text(&u), (None, None, Some("/p")));
    }
}

#[test]
fn destination_of_a_key() {
    let key = (Scheme::https(), Authority::parse("a.com:8443").unwrap());
    assert_eq!(text(&domain_as_uri(key)), (Some("https"), Some("a.com:8443"), Some("/")));
}

#[test]
fn scheme_is_set() {
    let mut u = uri(None, Some("a.com"), None);
    set_scheme(&mut u, Scheme::parse("wss").unwrap());
    assert_eq!(text(&u), (Some("wss"), Some("a.com"), Some("/")));
}

#[test]
fn default_ports_are_left_out() {
    let port = |scheme: &str, authority: &str| get_non_default_port(&absolute(scheme, authority, "/"));
    assert_eq!(port("http", "a.com:80"), None);
    assert_eq!(port("http", "a.com:443"), Some(443));
    assert_eq!(port("https", "a.com:443"), None);
    assert_eq!(port("https", "a.com:80"), Some(80));
    assert_eq!(port("wss", "a.com:443"), None);
    assert_eq!(port("ws", "a.com:80"), None);
    assert_eq!(port("ws", "a.com:443"), Some(443));
    assert_eq!(port("http", "a.com"), None);
    assert_eq!(get_non_default_port(&uri(None, Some("a.com:80"), None)), None);
    assert_eq!(get_non_default_port(&uri(None, Some("a.com:443"), None)), Some(443));
    assert_eq!(get_non_default_port(&Uri::default()), None);
}

#[test]
fn secure_schemes() {
    assert!(is_schema_secure(&absolute("https", "a.com", "/")));
    assert!(is_schema_secure(&absolute("wss", "a.com", "/")));
    assert!(!is_schema_secure(&absolute("http", "a.com", "/")));
    assert!(!is_schema_secure(&absolute("WSS", "a.com", "/")));
    assert!(!is_schema_secure(&uri(None, Some("a.com:443"), None)));
}

#[test]
fn host_header_of_a_uri() {
    let host = |scheme: &str, authority: &str| host_header(&absolute(scheme, authority, "/"));
    assert_eq!(host("http", "a.com"), "a.com");
    assert_eq!(host("http", "a.com:80"), "a.com");
    assert_eq!(host("https", "user:pw@a.com:443"), "a.com");
    assert_eq!(host("http", "a.com:443"), "a.com:443");
    assert_eq!(host("http", "a.com:08080"), "a.com:8080");
    assert_eq!(host("https", "[::1]:0"), "[::1]:0");
    assert_eq!(host("https", "[::1]:65535"), "[::1]:65535");
}
