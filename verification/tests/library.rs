use std::cmp::Ordering;
use std::str::FromStr;

use http_base_uri::{
    Authority, InvalidPartsError, Parts, Path, PathAndQuery, PathExt, Scheme, Uri, UriParts,
};

fn as_http_uri(uri: http_base_uri::AbsoluteUri) -> http::Uri {
    uri.to_string().parse().unwrap()
}

#[test]
fn crate_example() {
    let base_uri = "https://api.example.com/rest/v2".parse::<Uri>().unwrap();
    assert_eq!(*base_uri.scheme(), Scheme::HTTPS);
    assert!(base_uri.authority().eq_str("api.example.com"));
    assert_eq!(base_uri.path().as_str(), "/rest/v2");

    let base_uri = "http://example.com".parse::<Uri>().unwrap();
    assert!(base_uri.scheme().eq_str("http"));
    assert_eq!(base_uri.authority().as_str(), "example.com");
    assert_eq!(base_uri.path().as_str(), "/");

    assert!("https://api.example.com/rest/v2?param=value".parse::<Uri>().is_err());
    assert!("api.example.com".parse::<Uri>().is_err());
    assert!("ftp://api.example.com".parse::<Uri>().is_err());

    let base_uri = "https://api.example.com/rest/v2/".parse::<Uri>().unwrap();
    let endpoint = PathAndQuery::from_str("/endpoint?param=value").unwrap();
    assert_eq!(
        as_http_uri(base_uri.join(endpoint)),
        "https://api.example.com/rest/v2/endpoint?param=value"
    );
}

#[test]
fn scheme_names() {
    assert_eq!(Scheme::HTTP.as_str(), "http");
    assert_eq!(Scheme::HTTPS.to_string(), "https");
    assert!(Scheme::HTTPS.eq_str("HTTPS"));
    assert!(!Scheme::HTTPS.eq_str("http"));
    assert!(Scheme::HTTP.eq_scheme_name("http"));
    assert!(!Scheme::HTTP.eq_scheme_name("HTTP"));
    assert_eq!(Scheme::try_from_bytes(b"http").unwrap(), Scheme::HTTP);
    assert_eq!("https".parse::<Scheme>().unwrap(), Scheme::HTTPS);
}

#[test]
fn scheme_round_trip() {
    for scheme in [Scheme::HTTP, Scheme::HTTPS] {
        assert_eq!(Scheme::try_from_name(scheme.as_str()).unwrap(), scheme);
        assert_eq!(Scheme::from_str(scheme.as_str()).unwrap(), scheme);
    }
}

#[test]
fn scheme_errors() {
    let err = Scheme::from_str("HTTP").unwrap_err();
    assert_eq!(err.to_string(), "scheme not http/s: HTTP");
    assert!(err.source().is_none());

    let err = Scheme::from_str("my+funky+scheme").unwrap_err();
    assert_eq!(err.to_string(), "scheme not http/s: my+funky+scheme");

    let err = Scheme::from_str("my_funky_scheme").unwrap_err();
    assert_eq!(err.to_string(), "could not parse scheme");
    assert!(err.source().is_some());

    let err = Scheme::try_from_bytes(&[0xC0]).unwrap_err();
    assert_eq!(err.to_string(), "could not parse scheme");
}

#[test]
fn path_and_query_parsing() {
    let p = PathAndQuery::from_str("/a/b#frag").unwrap();
    assert_eq!(p.as_str(), "/a/b");
    assert_eq!(p.query(), None);

    let p = PathAndQuery::from_str("/a?x=1&y=2").unwrap();
    assert_eq!(p.path(), "/a");
    assert_eq!(p.query(), Some("x=1&y=2".to_string()));

    let p = PathAndQuery::from_str("?only").unwrap();
    assert_eq!(p.path(), "/");
    assert_eq!(p.query(), Some("only".to_string()));
    assert_eq!(p.to_string(), "/?only");

    let p = PathAndQuery::from_str("").unwrap();
    assert_eq!(p.as_str(), "/");
    assert_eq!(p.to_string(), "/");

    assert!(PathAndQuery::from_str("/a b").is_err());
}

#[test]
fn path_errors_and_display() {
    let err = Path::from_str("/a b").unwrap_err();
    assert_eq!(err.to_string(), "could not parse scheme");
    assert!(err.source().is_some());

    let err = Path::try_from_bytes(b"/a?").unwrap_err();
    assert_eq!(err.to_string(), "has query: ");
    assert!(err.source().is_none());

    let path = Path::from_str("abc").unwrap();
    assert_eq!(path.as_str(), "abc");
    assert_eq!(path.to_string(), "/abc");

    let path = Path::try_from_string("/x/y".to_string()).unwrap();
    assert!(path.eq_str("/x/y"));
    assert!(path.eq_path_and_query(&PathAndQuery::from_str("/x/y").unwrap()));
    assert_eq!(Path::try_from_vec(b"/x/y".to_vec()).unwrap(), path);
}

#[test]
fn path_order() {
    let path = Path::from_str("/b/world").unwrap();
    assert_eq!(path.partial_cmp_str("/c/world"), Some(Ordering::Less));
    assert_eq!(path.partial_cmp_str("/a/world"), Some(Ordering::Greater));
    assert_eq!(path.partial_cmp_str("/b/world"), Some(Ordering::Equal));
    assert_eq!(path.partial_cmp_str("/b"), Some(Ordering::Greater));
    let other = PathAndQuery::from_str("/b/world?x").unwrap();
    assert_eq!(path.partial_cmp_path_and_query(&other), Some(Ordering::Less));
}

#[test]
fn join_laws_on_values() {
    let base = Path::from_str("/a/b/").unwrap();
    assert_eq!(base.join(PathAndQuery::from_str("/c").unwrap()).as_str(), "/a/b/c");

    let base = Path::from_str("/a/b").unwrap();
    let joined = base.join(PathAndQuery::from_str("/c?x").unwrap());
    assert_eq!(joined.as_str(), "/a/c?x");
    assert_eq!(joined.query(), Some("x".to_string()));

    let base = Path::from_str("/a/b").unwrap();
    assert_eq!(base.join(PathAndQuery::from_str("/").unwrap()).as_str(), "/a/b");

    let base = Path::from_str("/").unwrap();
    assert_eq!(base.join(PathAndQuery::from_str("/q?r").unwrap()).as_str(), "/q?r");

    let base = Path::from_str("abc").unwrap();
    assert_eq!(base.join(PathAndQuery::from_str("/d").unwrap()).as_str(), "/d");
}

#[test]
fn uri_join_display() {
    let uri = Uri::from_str("https://x.example").unwrap();
    let joined = uri.join(PathAndQuery::from_str("?q").unwrap());
    assert_eq!(joined.to_string(), "https://x.example/?q");
}

#[test]
fn uri_parsing_keeps_parts() {
    let uri = Uri::from_str("HTTPS://Example.com:8080/x/").unwrap();
    assert_eq!(*uri.scheme(), Scheme::HTTPS);
    assert_eq!(uri.authority().as_str(), "Example.com:8080");
    assert!(uri.authority().eq_str("example.COM:8080"));
    assert_eq!(uri.path().as_str(), "/x/");
    assert_eq!(uri.to_string(), "https://Example.com:8080/x/");

    let other = Uri::try_from_bytes(b"https://example.com:8080/x/").unwrap();
    assert_eq!(uri, other);

    let err = Uri::from_str("https://exa mple.com/").unwrap_err();
    assert_eq!(err.to_string(), "could not parse Uri");
    assert!(err.parse_source().is_some());
    assert!(err.parts_source().is_none());
}

#[test]
fn uri_parts_round_trip() {
    let uri = Uri::from_str("http://example.com/a/b").unwrap();
    let copy = Uri::from_str("http://example.com/a/b").unwrap();
    let back = Uri::try_from_parts(uri.into_uri_parts()).unwrap();
    assert_eq!(back, copy);

    let uri = Uri::from_str("http://example.com/a/b").unwrap();
    let parts = uri.into_parts();
    assert_eq!(Uri::from_parts(parts), copy);
}

#[test]
fn parts_new() {
    let parts = Parts::new(
        Scheme::HTTP,
        Authority::from_str("example.com").unwrap(),
        Path::from_str("/p").unwrap(),
    );
    let uri = Uri::from_parts(parts);
    assert_eq!(uri.to_string(), "http://example.com/p");
}

fn parts_error(parts: UriParts) -> InvalidPartsError {
    Parts::try_from_parts(parts).unwrap_err()
}

#[test]
fn parts_errors() {
    let err = parts_error(UriParts::new());
    assert_eq!(err.to_string(), "missing scheme");

    let mut parts = UriParts::new();
    parts.scheme = Some("ftp".to_string());
    let err = parts_error(parts);
    assert_eq!(err.to_string(), "invalid scheme");
    assert_eq!(err.scheme_source().unwrap().to_string(), "scheme not http/s: ftp");

    let mut parts = UriParts::new();
    parts.scheme = Some("https".to_string());
    assert_eq!(parts_error(parts).to_string(), "missing authority");

    let mut parts = UriParts::new();
    parts.scheme = Some("https".to_string());
    parts.authority = Some(Authority::from_str("example.com").unwrap());
    assert_eq!(parts_error(parts).to_string(), "missing path and query");

    let mut parts = UriParts::new();
    parts.scheme = Some("https".to_string());
    parts.authority = Some(Authority::from_str("example.com").unwrap());
    parts.path_and_query = Some(PathAndQuery::from_str("/a?b=c").unwrap());
    let err = parts_error(parts);
    assert_eq!(err.to_string(), "invalid path and query");
    assert_eq!(err.path_source().unwrap().to_string(), "has query: b=c");

    let mut parts = UriParts::new();
    parts.scheme = Some("https".to_string());
    parts.authority = Some(Authority::from_str("example.com").unwrap());
    parts.path_and_query = Some(PathAndQuery::from_str("/a").unwrap());
    let parts = Parts::try_from_parts(parts).unwrap();
    assert_eq!(parts.scheme, Scheme::HTTPS);
    assert_eq!(parts.path.as_str(), "/a");

    let err = Uri::from_str("ftp://example.com/").unwrap_err();
    assert_eq!(err.to_string(), "invalid parts");
    assert_eq!(err.parts_source().unwrap().to_string(), "invalid scheme");
}

#[test]
fn authority_parsing() {
    let a = Authority::from_str("user@Host:80").unwrap();
    assert_eq!(a.as_str(), "user@Host:80");
    assert_eq!(a.to_string(), "user@Host:80");
    assert_eq!(a, Authority::from_str("USER@host:80").unwrap());
    assert!(Authority::from_str("").is_err());
    assert!(Authority::from_str("a/b").is_err());
}

#[test]
fn clones_keep_values() {
    let uri = Uri::from_str("https://example.com/a").unwrap();
    assert_eq!(uri.clone(), uri);
    let path = Path::from_str("/a/b").unwrap();
    assert_eq!(path.clone(), path);
    assert_eq!(path.partial_cmp_path(&Path::from_str("/a/c").unwrap()), Some(Ordering::Less));
    let authority = Authority::from_str("example.com").unwrap();
    assert_eq!(authority.clone().as_str(), "example.com");
    let pq = PathAndQuery::from_str("/x?y").unwrap();
    assert_eq!(pq.clone(), pq);
}

#[test]
fn scheme_name_limits() {
    let err = Scheme::from_str("").unwrap_err();
    assert_eq!(err.to_string(), "scheme not http/s: ");

    let longest = "a".repeat(64);
    let err = Scheme::from_str(&longest).unwrap_err();
    assert_eq!(err.to_string(), format!("scheme not http/s: {}", longest));

    let too_long = "a".repeat(65);
    let err = Scheme::from_str(&too_long).unwrap_err();
    assert_eq!(err.to_string(), "could not parse scheme");

    let err = Scheme::from_str("a:b").unwrap_err();
    assert_eq!(err.to_string(), "could not parse scheme");
}

#[test]
fn long_path_with_query_at_u16_limit() {
    let text = format!("{}?#", "a".repeat(65535));
    let p = PathAndQuery::from_str(&text).unwrap();
    assert_eq!(p.as_str(), text);
}

#[test]
fn empty_path_differs_from_slash() {
    let empty = Path::from_str("").unwrap();
    let slash = Path::from_str("/").unwrap();
    assert_eq!(empty.as_str(), "/");
    assert_eq!(slash.as_str(), "/");
    assert_eq!(empty.data_str(), "");
    assert_ne!(empty, slash);
    assert!(!empty.eq_path_and_query(&PathAndQuery::from_str("/").unwrap()));
    assert!(empty.eq_path_and_query(&PathAndQuery::from_str("#frag").unwrap()));
    assert!(empty.eq_str("/"));
    assert_eq!(empty.to_string(), "/");

    let short = Uri::from_str("https://a.com").unwrap();
    let long = Uri::from_str("https://a.com/").unwrap();
    assert_ne!(short, long);
    assert_eq!(short.path().as_str(), "/");
    assert_eq!(short.to_string(), "https://a.com/");
    assert_eq!(Uri::from_str("https://a.com#x").unwrap(), short);

    let joined = Path::from_str("").unwrap().join(PathAndQuery::from_str("").unwrap());
    assert_eq!(joined.data_str(), "");
    let joined = Path::from_str("/a").unwrap().join(PathAndQuery::from_str("").unwrap());
    assert_eq!(joined.data_str(), "/a");
}
